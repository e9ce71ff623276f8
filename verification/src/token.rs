//! Continuation tokens: where the result of a request is to be sent.

use vstd::prelude::*;

verus! {

/// The two channels a caller names for one request.  Both identifiers are
/// chosen by the caller and are only ever forwarded.
#[derive(Clone, Debug, PartialEq, Eq)]
pub struct ContinuationToken {
    pub success: String,
    pub error: String,
}

impl View for ContinuationToken {
    type V = (Seq<char>, Seq<char>);

    open spec fn view(&self) -> (Seq<char>, Seq<char>) {
        (self.success@, self.error@)
    }
}

impl ContinuationToken {
    /// Pairs the success channel with the error channel.
    pub fn new(success: String, error: String) -> (token: Self)
        ensures
            token.success == success,
            token.error == error,
    {
        ContinuationToken { success, error }
    }
}

} // verus!
