//! The broker capability's validation layer.  A topic is any non-empty
//! string; a payload is an arbitrary byte sequence with no implied
//! schema.  The transport itself (publish and subscribe over a named
//! topic) is an external collaborator and stays outside the library; the
//! checks it owes its callers live here.

use crate::error::AppError;
use vstd::prelude::*;

verus! {

/// True when the topic may be handed to a broker backend.
pub open spec fn spec_valid_topic(topic: Seq<char>) -> bool {
    topic.len() > 0
}

/// Validates a topic before any backend call is attempted: an empty
/// topic is rejected with a `Validation` error, every other topic is
/// accepted.
pub fn validate_topic(topic: &str) -> (r: Result<(), AppError>)
    ensures
        r is Ok <==> spec_valid_topic(topic@),
        r matches Err(e) ==> e matches AppError::Validation(m) && m@ == "empty topic"@,
{
    if topic.is_empty() {
        Err(AppError::Validation(String::from_str("empty topic")))
    } else {
        Ok(())
    }
}

} // verus!
