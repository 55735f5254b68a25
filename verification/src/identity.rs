//! Identity resolution: turning a username lookup's answer into a numeric
//! user identity.

use vstd::prelude::*;
use crate::types::{User, UserV};

verus! {

/// What a lookup answer resolves to: the first returned record's id, or the
/// zero sentinel when the answer is empty. A zero id means "unresolved";
/// the run proceeds degraded rather than failing.
pub open spec fn resolve_spec(users: Seq<UserV>) -> i64 {
    if users.len() == 0 {
        0
    } else {
        users[0].id
    }
}

/// Resolves a username lookup's answer to a numeric identity: the first
/// record wins, ties broken by the order the backend returned; an empty
/// answer resolves to the zero sentinel and never to an error.
pub fn resolve_identity(users: &Vec<User>) -> (id: i64)
    ensures
        id == resolve_spec(users.deep_view()),
        users@.len() == 0 ==> id == 0,
        users@.len() > 0 ==> id == users@[0].id,
{
    if users.len() == 0 {
        0
    } else {
        users[0].id
    }
}

} // verus!
