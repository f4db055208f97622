//! The role resolver: given an actor identifier, the set of role ids
//! assigned to that actor, across all tenants.  Namespace filtering
//! happens later, in the matcher, not here.  An unknown identifier is
//! not an error: it resolves to the empty set.

use vstd::prelude::*;

use crate::matching::{lemma_contains_push, lemma_string_views_push, string_views};
use crate::rbac::UserRoles;

verus! {

/// Whether some assignment record binds the actor identified by `uid`
/// to the role identified by `rid`.
pub open spec fn user_has_role(users: Seq<UserRoles>, uid: Seq<char>, rid: Seq<char>) -> bool {
    exists|i: int, j: int|
        0 <= i < users.len() && 0 <= j < users[i].role_ids@.len()
            && users[i].external_user_id@ == uid && (#[trigger] users[i].role_ids@[j])@ == rid
}

/// Whether `v` holds a string whose characters are those of `id`.
pub fn contains_id(v: &Vec<String>, id: &String) -> (b: bool)
    ensures
        b == string_views(v@).contains(id@),
{
    let mut k: usize = 0;
    while k < v.len()
        invariant
            k <= v@.len(),
            forall|i: int| 0 <= i < k ==> (#[trigger] v@[i])@ != id@,
        decreases v@.len() - k,
    {
        if v[k] == *id {
            proof {
                assert(string_views(v@)[k as int] == id@);
            }
            return true;
        }
        k = k + 1;
    }
    proof {
        assert forall|i: int| 0 <= i < string_views(v@).len() implies string_views(v@)[i]
            != id@ by {
            assert(v@[i]@ != id@);
        }
    }
    false
}

/// Resolves the deduplicated set of role ids assigned to the actor
/// identified by `external_user_id`: a role id is in the result exactly
/// when some assignment record binds the actor to it, and no id appears
/// twice.
#[verifier::loop_isolation(false)]
pub fn resolve_role_ids(users: &Vec<UserRoles>, external_user_id: &String) -> (out: Vec<String>)
    ensures
        forall|rid: Seq<char>|
            #[trigger] string_views(out@).contains(rid) <==> user_has_role(
                users@,
                external_user_id@,
                rid,
            ),
        forall|k1: int, k2: int| 0 <= k1 < k2 < out@.len() ==> (#[trigger] out@[k1])@ != (
        #[trigger] out@[k2])@,
{
    let ghost uid = external_user_id@;
    let mut out: Vec<String> = Vec::new();
    let mut i: usize = 0;
    while i < users.len()
        invariant
            i <= users@.len(),
            forall|rid: Seq<char>|
                #[trigger] string_views(out@).contains(rid) ==> user_has_role(users@, uid, rid),
            forall|ii: int, j: int|
                0 <= ii < i && 0 <= j < users@[ii].role_ids@.len()
                    && users@[ii].external_user_id@ == uid ==> string_views(out@).contains(
                    (#[trigger] users@[ii].role_ids@[j])@,
                ),
            forall|k1: int, k2: int| 0 <= k1 < k2 < out@.len() ==> (#[trigger] out@[k1])@ != (
            #[trigger] out@[k2])@,
        decreases users@.len() - i,
    {
        if users[i].external_user_id == *external_user_id {
            let record = &users[i];
            let mut j: usize = 0;
            while j < record.role_ids.len()
                invariant
                    j <= record.role_ids@.len(),
                    forall|rid: Seq<char>|
                        #[trigger] string_views(out@).contains(rid) ==> user_has_role(
                            users@,
                            uid,
                            rid,
                        ),
                    forall|ii: int, jj: int|
                        0 <= ii < i && 0 <= jj < users@[ii].role_ids@.len()
                            && users@[ii].external_user_id@ == uid ==> string_views(out@).contains(
                            (#[trigger] users@[ii].role_ids@[jj])@,
                        ),
                    forall|jj: int|
                        0 <= jj < j ==> string_views(out@).contains(
                            (#[trigger] record.role_ids@[jj])@,
                        ),
                    forall|k1: int, k2: int| 0 <= k1 < k2 < out@.len() ==> (#[trigger] out@[k1])@
                        != (#[trigger] out@[k2])@,
                decreases record.role_ids@.len() - j,
            {
                let candidate = &record.role_ids[j];
                if !contains_id(&out, candidate) {
                    let ghost pre = out@;
                    out.push(candidate.clone());
                    proof {
                        lemma_string_views_push(pre, out@[pre.len() as int]);
                        assert(string_views(out@) == string_views(pre).push(candidate@));
                        assert(users@[i as int].role_ids@[j as int]@ == candidate@);
                        assert(user_has_role(users@, uid, candidate@));
                        assert forall|rid: Seq<char>| #[trigger]
                            string_views(out@).contains(rid) implies user_has_role(
                            users@,
                            uid,
                            rid,
                        ) by {
                            lemma_contains_push(string_views(pre), candidate@, rid);
                        }
                        assert forall|rid: Seq<char>|
                            string_views(pre).contains(rid) implies #[trigger] string_views(
                            out@,
                        ).contains(rid) by {
                            lemma_contains_push(string_views(pre), candidate@, rid);
                        }
                        lemma_contains_push(string_views(pre), candidate@, candidate@);
                        assert forall|k1: int| 0 <= k1 < pre.len() implies (#[trigger] pre[k1])@
                            != candidate@ by {
                            if pre[k1]@ == candidate@ {
                                assert(string_views(pre)[k1] == pre[k1]@);
                                assert(string_views(pre).contains(candidate@));
                            }
                        }
                    }
                }
                j = j + 1;
            }
        }
        i = i + 1;
    }
    proof {
        assert forall|rid: Seq<char>|
            user_has_role(users@, uid, rid) implies #[trigger] string_views(out@).contains(rid) by {
            let (wi, wj) = choose|wi: int, wj: int|
                0 <= wi < users@.len() && 0 <= wj < users@[wi].role_ids@.len()
                    && users@[wi].external_user_id@ == uid && users@[wi].role_ids@[wj]@ == rid;
            assert(string_views(out@).contains(users@[wi].role_ids@[wj]@));
        }
    }
    out
}

} // verus!
