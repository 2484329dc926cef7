//! Resolution of endpoint addresses, done by the `url` crate.

use vstd::prelude::*;
use url::ParseError;
use url::Url;

verus! {

/// The `url` crate's account of why a text is no URL.
#[verifier::external_type_specification]
#[verifier::external_body]
pub struct ExParseError(ParseError);

/// The normal form of the absolute URL written as `input`, or the parser's
/// error where `input` is no absolute URL: what `Url::parse` makes of it.
pub uninterp spec fn url_parsed(input: Seq<char>) -> Result<Seq<char>, ParseError>;

/// The normal form of the URL that `reference` denotes relative to the
/// absolute URL written as `base`, or the parser's error where there is
/// none: what `Url::join` makes of the two.
pub uninterp spec fn url_joined(base: Seq<char>, reference: Seq<char>) -> Result<
    Seq<char>,
    ParseError,
>;

/// The `url` crate's wording of `error`: what the `Display` impl of
/// `ParseError` writes.
pub uninterp spec fn url_error_text(error: ParseError) -> Seq<char>;

/// Calls `Url::parse` and hands back the URL's serialization. The parser is a
/// function of its input alone, so its outcome has the name [`url_parsed`].
#[verifier::external_body]
pub(crate) fn parse_url(input: &str) -> (parsed: Result<String, ParseError>)
    ensures
        match parsed {
            Ok(url) => url_parsed(input@) == Ok::<Seq<char>, ParseError>(url@),
            Err(error) => url_parsed(input@) == Err::<Seq<char>, ParseError>(error),
        },
{
    Url::parse(input).map(String::from)
}

/// Calls `Url::join` on the URL that `base` parses to and hands back the
/// serialization of the result, named [`url_joined`].
#[verifier::external_body]
pub(crate) fn join_url(base: &str, reference: &str) -> (joined: Result<String, ParseError>)
    ensures
        match joined {
            Ok(url) => url_joined(base@, reference@) == Ok::<Seq<char>, ParseError>(url@),
            Err(error) => url_joined(base@, reference@) == Err::<Seq<char>, ParseError>(error),
        },
{
    Url::parse(base)?.join(reference).map(String::from)
}

/// Calls the `Display` impl of `ParseError`: the crate's wording of the
/// failure, which depends on the error alone and is named
/// [`url_error_text`].
#[verifier::external_body]
pub(crate) fn parse_error_text(error: ParseError) -> (text: String)
    ensures
        text@ == url_error_text(error),
{
    error.to_string()
}

} // verus!
