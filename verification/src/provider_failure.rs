//! Normalized provider failures.

use vstd::prelude::*;

verus! {

/// The kind of a provider failure.
#[derive(Clone, Copy, Debug, PartialEq, Eq, Structural)]
pub enum ProviderErrorKind {
    InvalidConfig,
    Authentication,
    ContextLengthExceeded,
    RateLimited,
    CreditsExhausted,
    Network,
    Server,
    EndpointNotFound,
    Unsupported,
    RequestFailed,
    Execution,
    Unknown,
}

/// A provider failure as hosts see it.
#[derive(Clone, Debug)]
pub struct ProviderFailure {
    pub kind: ProviderErrorKind,
    pub message: String,
    pub source: Option<String>,
    pub retryable: bool,
}

impl ProviderFailure {
    pub fn new(kind: ProviderErrorKind, message: &str, retryable: bool) -> (f: Self)
        ensures
            f.kind == kind,
            f.message@ == message@,
            f.source is None,
            f.retryable == retryable,
    {
        ProviderFailure { kind, message: message.to_owned(), source: None, retryable }
    }

    /// Records where the failure came from.
    pub fn with_source(self, source: &str) -> (f: Self)
        ensures
            f.kind == self.kind,
            f.message == self.message,
            f.source matches Some(s) && s@ == source@,
            f.retryable == self.retryable,
    {
        let mut f = self;
        f.source = Some(source.to_owned());
        f
    }
}

} // verus!
