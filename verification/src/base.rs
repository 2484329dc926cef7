//! What every backend shares: token accounting, the static descriptors that
//! announce a backend to its users, and the contract of an adapter.

use vstd::prelude::*;
use crate::model::ModelConfig;
use crate::model::ModelConfigView;
use crate::text::copied_texts;

verus! {

/// Token accounting of one completion. A backend that cannot report its
/// consumption reports zero throughout.
#[derive(Debug, Clone, Copy, PartialEq, Eq, Structural)]
pub struct Usage {
    pub input_tokens: u64,
    pub output_tokens: u64,
    pub total_tokens: u64,
}

impl Usage {
    /// The accounting with the given counts.
    pub fn new(input_tokens: u64, output_tokens: u64, total_tokens: u64) -> (usage: Usage)
        ensures
            usage == (Usage { input_tokens, output_tokens, total_tokens }),
    {
        Usage { input_tokens, output_tokens, total_tokens }
    }

    /// The accounting of a backend that reports nothing.
    pub open spec fn zero() -> Usage {
        Usage { input_tokens: 0, output_tokens: 0, total_tokens: 0 }
    }
}

impl Default for Usage {
    fn default() -> (usage: Usage)
        ensures
            usage == Usage::zero(),
    {
        Usage { input_tokens: 0, output_tokens: 0, total_tokens: 0 }
    }
}

/// The model that served a completion, with what it consumed.
#[derive(Debug, PartialEq, Eq)]
pub struct ProviderUsage {
    pub model: String,
    pub usage: Usage,
}

/// Mathematical model of a [`ProviderUsage`].
pub struct ProviderUsageView {
    pub model: Seq<char>,
    pub usage: Usage,
}

impl View for ProviderUsage {
    type V = ProviderUsageView;

    open spec fn view(&self) -> ProviderUsageView {
        ProviderUsageView { model: self.model@, usage: self.usage }
    }
}

impl Clone for ProviderUsage {
    fn clone(&self) -> (copy: ProviderUsage)
        ensures
            copy@ == self@,
    {
        ProviderUsage { model: self.model.clone(), usage: self.usage }
    }
}

impl ProviderUsage {
    /// Pairs the served model with its accounting.
    pub fn new(model: String, usage: Usage) -> (served: ProviderUsage)
        ensures
            served@ == (ProviderUsageView { model: model@, usage }),
    {
        ProviderUsage { model, usage }
    }
}

/// Declares one named configuration value that a backend reads.
#[derive(Debug, PartialEq, Eq)]
pub struct ConfigKey {
    pub name: String,
    pub required: bool,
    pub secret: bool,
    pub default: Option<String>,
}

/// Mathematical model of a [`ConfigKey`].
pub struct ConfigKeyView {
    pub name: Seq<char>,
    pub required: bool,
    pub secret: bool,
    pub default: Option<Seq<char>>,
}

impl View for ConfigKey {
    type V = ConfigKeyView;

    open spec fn view(&self) -> ConfigKeyView {
        ConfigKeyView {
            name: self.name@,
            required: self.required,
            secret: self.secret,
            default: match self.default {
                Some(value) => Some(value@),
                None => None,
            },
        }
    }
}

impl DeepView for ConfigKey {
    type V = ConfigKeyView;

    open spec fn deep_view(&self) -> ConfigKeyView {
        self@
    }
}

impl Clone for ConfigKey {
    fn clone(&self) -> (copy: ConfigKey)
        ensures
            copy@ == self@,
    {
        let default = match &self.default {
            Some(value) => Some(value.clone()),
            None => None,
        };
        ConfigKey { name: self.name.clone(), required: self.required, secret: self.secret, default }
    }
}

impl ConfigKey {
    /// The declaration of the value called `name`.
    pub fn new(name: &str, required: bool, secret: bool, default: Option<&str>) -> (key: ConfigKey)
        ensures
            key@ == (ConfigKeyView {
                name: name@,
                required,
                secret,
                default: match default {
                    Some(value) => Some(value@),
                    None => None,
                },
            }),
    {
        let default = match default {
            Some(value) => Some(String::from_str(value)),
            None => None,
        };
        ConfigKey { name: String::from_str(name), required, secret, default }
    }
}

/// What a backend announces about itself before any instance of it exists.
#[derive(Debug, PartialEq, Eq)]
pub struct ProviderMetadata {
    pub name: String,
    pub display_name: String,
    pub description: String,
    pub default_model: String,
    pub known_models: Vec<String>,
    pub model_doc_link: String,
    pub config_keys: Vec<ConfigKey>,
}

/// Mathematical model of a [`ProviderMetadata`].
pub struct ProviderMetadataView {
    pub name: Seq<char>,
    pub display_name: Seq<char>,
    pub description: Seq<char>,
    pub default_model: Seq<char>,
    pub known_models: Seq<Seq<char>>,
    pub model_doc_link: Seq<char>,
    pub config_keys: Seq<ConfigKeyView>,
}

impl View for ProviderMetadata {
    type V = ProviderMetadataView;

    open spec fn view(&self) -> ProviderMetadataView {
        ProviderMetadataView {
            name: self.name@,
            display_name: self.display_name@,
            description: self.description@,
            default_model: self.default_model@,
            known_models: self.known_models.deep_view(),
            model_doc_link: self.model_doc_link@,
            config_keys: self.config_keys.deep_view(),
        }
    }
}

impl DeepView for ProviderMetadata {
    type V = ProviderMetadataView;

    open spec fn deep_view(&self) -> ProviderMetadataView {
        self@
    }
}

impl Clone for ProviderMetadata {
    fn clone(&self) -> (copy: ProviderMetadata)
        ensures
            copy@ == self@,
    {
        let mut config_keys: Vec<ConfigKey> = Vec::new();
        let mut i: usize = 0;
        while i < self.config_keys.len()
            invariant
                i <= self.config_keys.len(),
                config_keys.len() == i,
                forall|j: int| 0 <= j < i ==> config_keys[j]@ == self.config_keys[j]@,
            decreases self.config_keys.len() - i,
        {
            config_keys.push(self.config_keys[i].clone());
            i = i + 1;
        }
        assert(config_keys.deep_view() =~= self.config_keys.deep_view());
        ProviderMetadata {
            name: self.name.clone(),
            display_name: self.display_name.clone(),
            description: self.description.clone(),
            default_model: self.default_model.clone(),
            known_models: copied_texts(&self.known_models),
            model_doc_link: self.model_doc_link.clone(),
            config_keys,
        }
    }
}

impl ProviderMetadata {
    /// The descriptor made of the given parts.
    pub fn new(
        name: &str,
        display_name: &str,
        description: &str,
        default_model: &str,
        known_models: Vec<String>,
        model_doc_link: &str,
        config_keys: Vec<ConfigKey>,
    ) -> (metadata: ProviderMetadata)
        ensures
            metadata@ == (ProviderMetadataView {
                name: name@,
                display_name: display_name@,
                description: description@,
                default_model: default_model@,
                known_models: known_models.deep_view(),
                model_doc_link: model_doc_link@,
                config_keys: config_keys.deep_view(),
            }),
    {
        ProviderMetadata {
            name: String::from_str(name),
            display_name: String::from_str(display_name),
            description: String::from_str(description),
            default_model: String::from_str(default_model),
            known_models,
            model_doc_link: String::from_str(model_doc_link),
            config_keys,
        }
    }
}

/// What every adapter offers, whatever its backend, apart from the
/// completion itself, which takes the adapter's caller to send or to run
/// what the adapter decides.
pub trait Provider {
    /// The model that the adapter was built for.
    spec fn bound_model(&self) -> ModelConfigView;

    /// The descriptor of the adapter's backend. It needs no instance and
    /// reads no configuration, and it names a model and a configuration
    /// value at least.
    fn metadata() -> (metadata: ProviderMetadata)
        ensures
            metadata@.known_models.len() > 0,
            metadata@.config_keys.len() > 0,
    ;

    /// The model that the adapter is bound to: the one that it was built
    /// for.
    fn get_model_config(&self) -> (model: ModelConfig)
        ensures
            model@ == self.bound_model(),
    ;
}

} // verus!
