//! The ways in which processing can fail.

use crate::text::string_of;
use vstd::prelude::*;

verus! {

/// Why a post, a bookmark or a message could not be processed.
#[derive(Debug, Clone, PartialEq, Eq)]
pub enum ProcessError {
    /// A call that needs a credential was made without one, or with one
    /// that was refused.
    AuthenticationRequired,
    /// One of the two services answered with a status outside 200 to 299.
    UpstreamApiError { status: u16, body: String },
    /// A permalink has too few path segments to name a post.
    MalformedReference,
    /// The main save went through, but `failed` of the saves that came with
    /// it did not.
    PartialFailure { failed: usize },
}

impl ProcessError {
    /// A short fixed description of the kind of failure.
    pub open spec fn kind_text(self) -> Seq<char> {
        match self {
            ProcessError::AuthenticationRequired => "Authentication required"@,
            ProcessError::UpstreamApiError { .. } => "API error"@,
            ProcessError::MalformedReference => "Invalid Bluesky URL format"@,
            ProcessError::PartialFailure { .. } => "Some linked content could not be saved"@,
        }
    }

    /// A short fixed description of the kind of failure.
    pub fn kind(&self) -> (s: String)
        ensures
            s@ == self.kind_text(),
    {
        match self {
            ProcessError::AuthenticationRequired => String::from_str("Authentication required"),
            ProcessError::UpstreamApiError { .. } => String::from_str("API error"),
            ProcessError::MalformedReference => String::from_str("Invalid Bluesky URL format"),
            ProcessError::PartialFailure { .. } => String::from_str(
                "Some linked content could not be saved",
            ),
        }
    }
}

} // verus!
