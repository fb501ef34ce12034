use vstd::prelude::*;
use crate::features::user::model::Claims;

verus! {

/// Whether the role named in `claims` is one of `allowed`.
pub open spec fn role_allowed(role: Seq<char>, allowed: Seq<&str>) -> bool {
    exists|i: int| 0 <= i < allowed.len() && (#[trigger] allowed[i])@ == role
}

/// Whether the signed-in user's role is one of the roles in `allowed`.
pub fn require_role(claims: &Claims, allowed: &[&str]) -> (ok: bool)
    ensures
        ok == role_allowed(claims.role@, allowed@),
{
    let mut i: usize = 0;
    while i < allowed.len()
        invariant
            i <= allowed@.len(),
            forall|k: int| 0 <= k < i ==> (#[trigger] allowed@[k])@ != claims.role@,
        decreases allowed@.len() - i,
    {
        let candidate: String = allowed[i].to_owned();
        if candidate == claims.role {
            return true;
        }
        i = i + 1;
    }
    false
}

} // verus!
