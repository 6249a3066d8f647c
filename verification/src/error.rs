//! The single error taxonomy that every component reports through.
//!
//! Each kind carries a textual description of its originating cause. No kind
//! is recovered internally: the first error aborts the run and is propagated
//! unchanged to the caller.

use vstd::prelude::*;

verus! {

/// The closed set of error kinds for a conversation run.
#[derive(Debug, PartialEq, Eq)]
pub enum BotError {
    /// The configuration source is missing, malformed, or lacks a required key.
    ConfigurationError(String),
    /// A required credential or environment value is absent.
    EnvironmentError(String),
    /// A request could not be constructed validly.
    RequestBuildError(String),
    /// The remote endpoint call failed (network, auth, quota, model error).
    RemoteAPIError(String),
    /// The call succeeded transport-wise but produced no usable content.
    EmptyResponseError,
}

impl BotError {
    /// The name of this error's kind, for diagnostics at the process boundary.
    pub fn kind_name(&self) -> (r: &'static str)
        ensures
            self is ConfigurationError ==> r@ == "ConfigurationError"@,
            self is EnvironmentError ==> r@ == "EnvironmentError"@,
            self is RequestBuildError ==> r@ == "RequestBuildError"@,
            self is RemoteAPIError ==> r@ == "RemoteAPIError"@,
            self is EmptyResponseError ==> r@ == "EmptyResponseError"@,
    {
        match self {
            BotError::ConfigurationError(_) => "ConfigurationError",
            BotError::EnvironmentError(_) => "EnvironmentError",
            BotError::RequestBuildError(_) => "RequestBuildError",
            BotError::RemoteAPIError(_) => "RemoteAPIError",
            BotError::EmptyResponseError => "EmptyResponseError",
        }
    }

    /// The carried cause, where the kind has one.
    pub fn cause(&self) -> (r: Option<&String>)
        ensures
            match self {
                BotError::ConfigurationError(c) => (r matches Some(s) && s@ == c@),
                BotError::EnvironmentError(c) => (r matches Some(s) && s@ == c@),
                BotError::RequestBuildError(c) => (r matches Some(s) && s@ == c@),
                BotError::RemoteAPIError(c) => (r matches Some(s) && s@ == c@),
                BotError::EmptyResponseError => r is None,
            },
    {
        match self {
            BotError::ConfigurationError(c) => Some(c),
            BotError::EnvironmentError(c) => Some(c),
            BotError::RequestBuildError(c) => Some(c),
            BotError::RemoteAPIError(c) => Some(c),
            BotError::EmptyResponseError => None,
        }
    }
}

} // verus!
