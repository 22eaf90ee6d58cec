//! Error taxonomy shared by every channel adapter.

use vstd::prelude::*;

verus! {

/// A typed failure surfaced to the caller.
///
/// `Config` covers malformed or missing configuration and payload fields,
/// unknown routes or schedules, and unsupported topics. `Auth` covers
/// secret-capability failures. `Transport` covers outbound send failures.
/// `Other` covers persistence and serialization failures.
#[derive(Debug, PartialEq, Eq)]
pub enum ProviderError {
    Config(String),
    Auth(String),
    Transport(String),
    Other(String),
}

impl ProviderError {
    /// The human-readable description carried by this error.
    pub fn message(&self) -> (r: &String)
        ensures
            r@ == self.message_view(),
    {
        match self {
            ProviderError::Config(m) => m,
            ProviderError::Auth(m) => m,
            ProviderError::Transport(m) => m,
            ProviderError::Other(m) => m,
        }
    }

    /// The description carried by this error, in the model.
    pub open spec fn message_view(&self) -> Seq<char> {
        match self {
            ProviderError::Config(m) => m@,
            ProviderError::Auth(m) => m@,
            ProviderError::Transport(m) => m@,
            ProviderError::Other(m) => m@,
        }
    }
}

} // verus!
