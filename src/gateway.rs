//! The query operation's view of the client's outcome: the recommendation
//! unchanged, or the error's message.

use vstd::prelude::*;
use crate::error::{message_of, RecommendationError};

verus! {

/// What the query operation answers for the client's outcome: a
/// recommendation verbatim, or an operation error that carries the client
/// error's message, never an empty answer in its place.
pub fn answer(outcome: Result<String, RecommendationError>) -> (r: Result<String, String>)
    ensures
        match outcome {
            Ok(s) => r matches Ok(t) && t@ == s@,
            Err(e) => r matches Err(m) && m@ == message_of(e),
        },
{
    match outcome {
        Ok(s) => Ok(s),
        Err(e) => Err(e.message()),
    }
}

} // verus!
