//! What the engine takes from its surroundings: the time of day and fresh
//! identities. Neither is verified; the engine is proved for every value
//! that either may hand back.
use vstd::prelude::*;

verus! {

/// Reads the clock: calls `chrono::Local::now` and takes the `timestamp` of
/// what it returns, the number of seconds since the Unix epoch. Nothing is
/// claimed of the value: two calls may differ, and the clock may go back.
#[verifier::external_body]
pub(crate) fn current_timestamp() -> (now: i64) {
    chrono::Local::now().timestamp()
}

/// Draws an identity for a new position of `owner`: the owner, a hyphen, and
/// a random identifier from `uuid::Uuid::new_v4` in the form its `Display`
/// gives it. Nothing is claimed of the value: whoever uses it checks that no
/// position carries it yet.
#[verifier::external_body]
pub(crate) fn fresh_position_id(owner: &String) -> (id: String) {
    format!("{}-{}", owner, uuid::Uuid::new_v4())
}

} // verus!
