use vstd::prelude::*;
use crate::util::reply::{Reply, ReplyKey, plain};

verus! {

/// The answer to a request whose bearer token does not decode or has expired.
pub fn rejected_token_reply() -> (r: Reply)
    ensures
        r.status == 401,
        r.key == ReplyKey::Text,
        r.text@ == "Invalid or expired token"@,
{
    plain(401, "Invalid or expired token")
}

} // verus!
