//! The configuration and secret store that adapters are built from: a
//! snapshot made once, at start-up, and handed to each constructor.

use vstd::prelude::*;
use crate::text::same_text;

verus! {

/// Why an adapter could not be built from a store.
#[derive(Debug, PartialEq, Eq)]
pub enum ConfigError {
    /// The store binds nothing to the required key.
    NotFound(String),
}

/// Mathematical model of a [`ConfigError`].
pub enum ConfigErrorView {
    NotFound(Seq<char>),
}

impl View for ConfigError {
    type V = ConfigErrorView;

    open spec fn view(&self) -> ConfigErrorView {
        match self {
            ConfigError::NotFound(key) => ConfigErrorView::NotFound(key@),
        }
    }
}

impl Clone for ConfigError {
    fn clone(&self) -> (copy: ConfigError)
        ensures
            copy@ == self@,
    {
        match self {
            ConfigError::NotFound(key) => ConfigError::NotFound(key.clone()),
        }
    }
}

impl ConfigError {
    /// The error as a sentence that names the missing key.
    pub fn message(&self) -> (text: String)
        ensures
            text@ == match self@ {
                ConfigErrorView::NotFound(key) => "Configuration value not found: "@ + key,
            },
    {
        match self {
            ConfigError::NotFound(key) => String::from_str(
                "Configuration value not found: ",
            ).concat(key.as_str()),
        }
    }
}

/// What a list of `(key, value)` entries defines: each key is bound to the
/// value of its last entry.
pub open spec fn bindings(entries: Seq<(String, String)>) -> Map<Seq<char>, Seq<char>>
    decreases entries.len(),
{
    if entries.len() == 0 {
        Map::empty()
    } else {
        bindings(entries.drop_last()).insert(entries.last().0@, entries.last().1@)
    }
}

/// Named plain values and named secrets, read by the adapters' constructors.
pub struct Config {
    params: Vec<(String, String)>,
    secrets: Vec<(String, String)>,
}

/// Mathematical model of a [`Config`]: two finite maps from names to values.
pub struct ConfigView {
    pub params: Map<Seq<char>, Seq<char>>,
    pub secrets: Map<Seq<char>, Seq<char>>,
}

impl ConfigView {
    /// The plain value bound to `key`, if any.
    pub open spec fn get(self, key: Seq<char>) -> Option<Seq<char>> {
        if self.params.contains_key(key) {
            Some(self.params[key])
        } else {
            None
        }
    }

    /// The secret bound to `key`, if any.
    pub open spec fn get_secret(self, key: Seq<char>) -> Option<Seq<char>> {
        if self.secrets.contains_key(key) {
            Some(self.secrets[key])
        } else {
            None
        }
    }
}

impl View for Config {
    type V = ConfigView;

    closed spec fn view(&self) -> ConfigView {
        ConfigView { params: bindings(self.params@), secrets: bindings(self.secrets@) }
    }
}

/// The value that `entries` binds to `key`, if any.
fn lookup(entries: &Vec<(String, String)>, key: &str) -> (found: Option<String>)
    ensures
        match found {
            Some(value) => bindings(entries@).contains_key(key@) && bindings(entries@)[key@]
                == value@,
            None => !bindings(entries@).contains_key(key@),
        },
{
    let mut i: usize = entries.len();
    assert(entries@.subrange(0, i as int) == entries@);
    while i > 0
        invariant
            i <= entries.len(),
            bindings(entries@).contains_key(key@) == bindings(
                entries@.subrange(0, i as int),
            ).contains_key(key@),
            bindings(entries@).contains_key(key@) ==> bindings(entries@)[key@] == bindings(
                entries@.subrange(0, i as int),
            )[key@],
        decreases i,
    {
        let ghost upto = entries@.subrange(0, i as int);
        assert(upto.drop_last() == entries@.subrange(0, i - 1));
        i = i - 1;
        if same_text(entries[i].0.as_str(), key) {
            return Some(entries[i].1.clone());
        }
    }
    None
}

impl Config {
    /// The store that binds nothing.
    pub fn new() -> (config: Config)
        ensures
            config@.params == Map::<Seq<char>, Seq<char>>::empty(),
            config@.secrets == Map::<Seq<char>, Seq<char>>::empty(),
    {
        Config { params: Vec::new(), secrets: Vec::new() }
    }

    /// Binds the plain value `value` to `key`, in place of any earlier one.
    pub fn set(&mut self, key: &str, value: &str)
        ensures
            final(self)@.params == old(self)@.params.insert(key@, value@),
            final(self)@.secrets == old(self)@.secrets,
    {
        self.params.push((String::from_str(key), String::from_str(value)));
        assert(self.params@.drop_last() == old(self).params@);
    }

    /// Binds the secret `value` to `key`, in place of any earlier one.
    pub fn set_secret(&mut self, key: &str, value: &str)
        ensures
            final(self)@.secrets == old(self)@.secrets.insert(key@, value@),
            final(self)@.params == old(self)@.params,
    {
        self.secrets.push((String::from_str(key), String::from_str(value)));
        assert(self.secrets@.drop_last() == old(self).secrets@);
    }

    /// The plain value bound to `key`, if any.
    pub fn get(&self, key: &str) -> (found: Option<String>)
        ensures
            match found {
                Some(value) => self@.get(key@) == Some(value@),
                None => self@.get(key@) is None,
            },
    {
        lookup(&self.params, key)
    }

    /// The secret bound to `key`, if any.
    pub fn get_secret(&self, key: &str) -> (found: Option<String>)
        ensures
            match found {
                Some(value) => self@.get_secret(key@) == Some(value@),
                None => self@.get_secret(key@) is None,
            },
    {
        lookup(&self.secrets, key)
    }
}

} // verus!
