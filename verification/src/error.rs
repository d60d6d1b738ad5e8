//! The one error kind of the crate.

use vstd::prelude::*;
use vstd::string::*;

verus! {

/// Why a load failed.
///
/// Transport failures, refusals by the service and documents that do not
/// decode are all reported through the one variant; the string tells them
/// apart.
#[derive(Debug)]
pub enum SCCError {
    /// The detail is the transport's message, the body of a refused request,
    /// or the decoder's message.
    SpringCloudConfigServiceError(String),
}

/// The text shown for an error with the given detail.
pub open spec fn described(detail: Seq<char>) -> Seq<char> {
    "spring cloud config service error: "@ + detail
}

impl Clone for SCCError {
    /// A copy carries the same detail.
    fn clone(&self) -> (copy: Self)
        ensures
            copy == *self,
    {
        match self {
            SCCError::SpringCloudConfigServiceError(detail) => {
                SCCError::SpringCloudConfigServiceError(detail.clone())
            },
        }
    }
}

impl SCCError {
    /// The detail carried by the error.
    pub open spec fn detail(&self) -> Seq<char> {
        match self {
            SCCError::SpringCloudConfigServiceError(detail) => detail@,
        }
    }

    /// The text to show for the error: a fixed prefix, then the detail.
    pub fn description(&self) -> (text: String)
        ensures
            text@ == described(self.detail()),
    {
        match self {
            SCCError::SpringCloudConfigServiceError(detail) => {
                String::from_str("spring cloud config service error: ").concat(detail.as_str())
            },
        }
    }
}

} // verus!
