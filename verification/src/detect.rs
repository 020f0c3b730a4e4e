//! Change detection: a snapshot needs a persist cycle exactly when its
//! version token differs from the token seen on the previous cycle.

use vstd::prelude::*;

verus! {

/// A snapshot counts as changed when no token has been seen yet, or when
/// the new token differs from the last one seen. Equality is exact: a
/// "rolled back" token is treated as a change too, since the upstream
/// token's direction is never verified.
pub open spec fn spec_changed(token: i64, last_seen: Option<i64>) -> bool {
    last_seen != Some(token)
}

/// Decides whether a persist cycle is needed for a snapshot bearing
/// `token`, given the token observed on the previous cycle (if any).
pub fn has_changed(token: i64, last_seen: Option<i64>) -> (changed: bool)
    ensures
        changed == spec_changed(token, last_seen),
{
    match last_seen {
        Option::None => true,
        Option::Some(seen) => seen != token,
    }
}

/// A token equal to the one most recently seen is never treated as a
/// change, so a snapshot that repeats the committed token starts no
/// persist cycle.
pub proof fn lemma_repeated_token_is_stale(token: i64)
    ensures
        !spec_changed(token, Some(token)),
{
}

} // verus!
