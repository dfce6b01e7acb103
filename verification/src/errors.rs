//! The errors of a lookup.

use vstd::prelude::*;

verus! {

/// Errors related to checking passwords and accounts.
#[derive(Clone, Copy, PartialEq, Eq, Structural, Debug)]
pub enum CheckpwnError {
    /// A status code that cannot be reconciled with the outcome of the local search.
    StatusCode,
    /// No HTTP response was obtained.
    Network,
    /// The body of a response could not be decoded.
    Decoding,
    /// The status codes point to a malformed account or paste request.
    BadResponse,
    /// Both endpoints rejected the API key.
    InvalidApiKey,
    /// No API key was supplied.
    MissingApiKey,
    /// A required text was empty.
    EmptyInput,
}

impl CheckpwnError {
    /// The text that describes this error.
    pub open spec fn message(self) -> Seq<char> {
        match self {
            CheckpwnError::StatusCode => "Unrecognized status code received"@,
            CheckpwnError::Network => "Failed to send request to HIBP"@,
            CheckpwnError::Decoding => "Failed to decode response from HIBP"@,
            CheckpwnError::BadResponse => "Received a bad response from HIBP - make sure the account is valid"@,
            CheckpwnError::InvalidApiKey => "HIBP deemed the current API key invalid"@,
            CheckpwnError::MissingApiKey => "The API key is missing"@,
            CheckpwnError::EmptyInput => "Empty input that should NOT be empty"@,
        }
    }

    /// The text that describes this error.
    pub fn as_str(&self) -> (text: &'static str)
        ensures
            text@ == self.message(),
    {
        match *self {
            CheckpwnError::StatusCode => "Unrecognized status code received",
            CheckpwnError::Network => "Failed to send request to HIBP",
            CheckpwnError::Decoding => "Failed to decode response from HIBP",
            CheckpwnError::BadResponse => "Received a bad response from HIBP - make sure the account is valid",
            CheckpwnError::InvalidApiKey => "HIBP deemed the current API key invalid",
            CheckpwnError::MissingApiKey => "The API key is missing",
            CheckpwnError::EmptyInput => "Empty input that should NOT be empty",
        }
    }
}

impl AsRef<str> for CheckpwnError {
    fn as_ref(&self) -> (text: &str)
        ensures
            text@ == self.message(),
    {
        self.as_str()
    }
}

} // verus!
