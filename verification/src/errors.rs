//! The error taxonomy of the command surface.
//!
//! Every operation fails with one of these kinds, each carrying a short
//! human-readable message. Nothing is retried and nothing is swallowed:
//! a component-level failure is converted to the matching kind and
//! returned to the caller.

use vstd::prelude::*;

verus! {

/// One failure of a command-surface operation.
#[derive(Debug, Clone)]
pub enum CommandError {
    /// A file-system operation failed.
    IOError(String),
    /// The persistent store could not be opened or initialized.
    StoreError(String),
    /// An AI chat request named a provider outside the registry.
    UnsupportedProviderError(String),
    /// A request to an AI provider could not be sent or read.
    NetworkError(String),
    /// A local process could not be created.
    SpawnError(String),
    /// Arguments at the dispatch boundary did not match the operation.
    MarshalError(String),
}

impl CommandError {
    /// The human-readable message carried by the error.
    pub fn message(&self) -> (r: String)
        ensures
            r@ == self.message_view(),
    {
        match self {
            CommandError::IOError(m) => m.clone(),
            CommandError::StoreError(m) => m.clone(),
            CommandError::UnsupportedProviderError(m) => m.clone(),
            CommandError::NetworkError(m) => m.clone(),
            CommandError::SpawnError(m) => m.clone(),
            CommandError::MarshalError(m) => m.clone(),
        }
    }

    /// The message as a sequence of characters.
    pub open spec fn message_view(&self) -> Seq<char> {
        match self {
            CommandError::IOError(m) => m@,
            CommandError::StoreError(m) => m@,
            CommandError::UnsupportedProviderError(m) => m@,
            CommandError::NetworkError(m) => m@,
            CommandError::SpawnError(m) => m@,
            CommandError::MarshalError(m) => m@,
        }
    }
}

} // verus!
