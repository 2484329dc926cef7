//! The error taxonomy shared by every backend adapter.

use vstd::prelude::*;

verus! {

/// What went wrong while talking to a backend. Callers branch on the variant;
/// the payload is a human-readable reason.
#[derive(Debug, PartialEq, Eq)]
pub enum ProviderError {
    /// Transport, parsing, process or bootstrap failure. Terminal.
    RequestFailed(String),
    /// The backend kept throttling beyond the retry budget.
    RateLimitExceeded(String),
    /// Token accounting could not be derived from a response.
    UsageError(String),
    /// Any other terminal condition of a backend.
    Other(String),
}

/// Mathematical model of a [`ProviderError`]: the variant and its reason as a
/// sequence of characters.
pub enum ProviderErrorView {
    RequestFailed(Seq<char>),
    RateLimitExceeded(Seq<char>),
    UsageError(Seq<char>),
    Other(Seq<char>),
}

impl View for ProviderError {
    type V = ProviderErrorView;

    open spec fn view(&self) -> ProviderErrorView {
        match self {
            ProviderError::RequestFailed(m) => ProviderErrorView::RequestFailed(m@),
            ProviderError::RateLimitExceeded(m) => ProviderErrorView::RateLimitExceeded(m@),
            ProviderError::UsageError(m) => ProviderErrorView::UsageError(m@),
            ProviderError::Other(m) => ProviderErrorView::Other(m@),
        }
    }
}

impl Clone for ProviderError {
    fn clone(&self) -> (copy: ProviderError)
        ensures
            copy@ == self@,
    {
        match self {
            ProviderError::RequestFailed(m) => ProviderError::RequestFailed(m.clone()),
            ProviderError::RateLimitExceeded(m) => ProviderError::RateLimitExceeded(m.clone()),
            ProviderError::UsageError(m) => ProviderError::UsageError(m.clone()),
            ProviderError::Other(m) => ProviderError::Other(m.clone()),
        }
    }
}

impl ProviderErrorView {
    /// The reason carried by the error, whatever its variant.
    pub open spec fn message(self) -> Seq<char> {
        match self {
            ProviderErrorView::RequestFailed(m) => m,
            ProviderErrorView::RateLimitExceeded(m) => m,
            ProviderErrorView::UsageError(m) => m,
            ProviderErrorView::Other(m) => m,
        }
    }
}

impl ProviderError {
    /// A `RequestFailed` whose reason is `context` followed by `detail`.
    pub fn request_failed(context: &str, detail: &str) -> (e: ProviderError)
        ensures
            e@ == ProviderErrorView::RequestFailed(context@ + detail@),
    {
        ProviderError::RequestFailed(String::from_str(context).concat(detail))
    }

    /// The reason carried by the error.
    pub fn message(&self) -> (m: &str)
        ensures
            m@ == self@.message(),
    {
        match self {
            ProviderError::RequestFailed(m) => m.as_str(),
            ProviderError::RateLimitExceeded(m) => m.as_str(),
            ProviderError::UsageError(m) => m.as_str(),
            ProviderError::Other(m) => m.as_str(),
        }
    }
}

} // verus!
