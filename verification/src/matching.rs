//! The permission matcher: decides which of an actor's roles grant a
//! requested action/resource within a namespace.
//!
//! Resource patterns are `/`-delimited paths.  Each pattern segment is a
//! literal (matched exactly, case-sensitively), the single-segment
//! wildcard `*` (matches exactly one arbitrary segment), or the
//! multi-segment wildcard `**`, which has its wildcard meaning only as
//! the final pattern segment and there matches all remaining request
//! segments (zero or more).  Unless the pattern ends in `**`, pattern and
//! resource must have the same segment count.  Actions match when the
//! permission names the same action exactly or carries the wildcard `*`.

use vstd::prelude::*;

use crate::rbac::{Permission, Role};

verus! {

/// The character sequences of a sequence of owned strings.
pub open spec fn string_views(v: Seq<String>) -> Seq<Seq<char>> {
    v.map_values(|s: String| s@)
}

/// Appending an owned string appends its character sequence.
pub proof fn lemma_string_views_push(v: Seq<String>, x: String)
    ensures
        string_views(v.push(x)) == string_views(v).push(x@),
{
    assert(string_views(v.push(x)) =~= string_views(v).push(x@));
}

/// Membership in a sequence extended by one element.
pub proof fn lemma_contains_push(s: Seq<Seq<char>>, x: Seq<char>, needle: Seq<char>)
    ensures
        s.push(x).contains(needle) <==> (s.contains(needle) || needle == x),
{
    if s.push(x).contains(needle) {
        let i = choose|i: int| 0 <= i < s.push(x).len() && s.push(x)[i] == needle;
        if i < s.len() {
            assert(s[i] == needle);
            assert(s.contains(needle));
        }
    }
    if s.contains(needle) {
        let i = choose|i: int| 0 <= i < s.len() && s[i] == needle;
        assert(s.push(x)[i] == needle);
        assert(s.push(x).contains(needle));
    }
    assert(s.push(x)[s.len() as int] == x);
    if needle == x {
        assert(s.push(x).contains(needle));
    }
}

/// The single-segment wildcard `*`.
pub open spec fn is_single_wild(seg: Seq<char>) -> bool {
    seg.len() == 1 && seg[0] == '*'
}

/// The multi-segment wildcard `**`.
pub open spec fn is_multi_wild(seg: Seq<char>) -> bool {
    seg.len() == 2 && seg[0] == '*' && seg[1] == '*'
}

/// The segments of a `/`-delimited path.  Every path has at least one
/// segment; the empty path has exactly one, itself empty.
pub open spec fn split_path(s: Seq<char>) -> Seq<Seq<char>>
    decreases s.len(),
{
    if s.len() == 0 {
        seq![Seq::<char>::empty()]
    } else if s[0] == '/' {
        seq![Seq::<char>::empty()] + split_path(s.drop_first())
    } else {
        let rest = split_path(s.drop_first());
        seq![seq![s[0]] + rest[0]] + rest.drop_first()
    }
}

/// Segment-wise pattern matching.  A leading `**` is terminal: it
/// swallows every remaining request segment.  In any other position
/// `**` has no wildcard meaning and is compared literally.
pub open spec fn segs_match(p: Seq<Seq<char>>, r: Seq<Seq<char>>) -> bool
    decreases p.len(),
{
    if p.len() == 0 {
        r.len() == 0
    } else if p.len() == 1 && is_multi_wild(p[0]) {
        true
    } else if r.len() == 0 {
        false
    } else {
        (is_single_wild(p[0]) || p[0] == r[0]) && segs_match(p.drop_first(), r.drop_first())
    }
}

/// Whether `pattern` matches `resource` under the path grammar.
pub open spec fn resource_pattern_matches(pattern: Seq<char>, resource: Seq<char>) -> bool {
    segs_match(split_path(pattern), split_path(resource))
}

/// Whether a permission's action grants the requested action: the
/// wildcard `*` grants every action, anything else only its exact,
/// case-sensitive self.
pub open spec fn action_pattern_matches(p_action: Seq<char>, action: Seq<char>) -> bool {
    is_single_wild(p_action) || p_action == action
}

/// Whether one permission grants the requested action on the requested
/// resource: both its action and its resource pattern must match.
pub open spec fn permission_grants(p: Permission, action: Seq<char>, resource: Seq<char>) -> bool {
    action_pattern_matches(p.action@, action)
        && resource_pattern_matches(p.resource@, resource)
}

/// Whether a role grants the request within `namespace`: the role must
/// bear the same namespace and any one of its permissions must grant the
/// request (permissions within a role are OR'd).  A role with no
/// permissions grants nothing.
pub open spec fn role_grants(r: Role, namespace: Seq<char>, action: Seq<char>, resource: Seq<char>) -> bool {
    r.namespace@ == namespace
        && exists|i: int| 0 <= i < r.permissions@.len()
            && permission_grants(#[trigger] r.permissions@[i], action, resource)
}

/// Whether the role identified by `role_id` grants the request: some
/// role document with that id must grant it.
pub open spec fn role_id_grants(
    roles: Seq<Role>,
    role_id: Seq<char>,
    namespace: Seq<char>,
    action: Seq<char>,
    resource: Seq<char>,
) -> bool {
    exists|i: int| 0 <= i < roles.len()
        && (#[trigger] roles[i]).id@ == role_id
        && role_grants(roles[i], namespace, action, resource)
}

/// Any requested action is granted by a permission whose action is the
/// wildcard `*`, provided its resource pattern matches the requested
/// resource.
pub proof fn lemma_wildcard_action_grants(p: Permission, action: Seq<char>, resource: Seq<char>)
    requires
        is_single_wild(p.action@),
        resource_pattern_matches(p.resource@, resource),
    ensures
        permission_grants(p, action, resource),
{
}

/// Whether `seg` is the single-segment wildcard `*`.
pub fn is_wildcard_segment(seg: &String) -> (b: bool)
    ensures
        b == is_single_wild(seg@),
{
    let s = seg.as_str();
    s.unicode_len() == 1 && s.get_char(0) == '*'
}

/// Whether `seg` is the multi-segment wildcard `**`.
pub fn is_multi_wildcard_segment(seg: &String) -> (b: bool)
    ensures
        b == is_multi_wild(seg@),
{
    let s = seg.as_str();
    s.unicode_len() == 2 && s.get_char(0) == '*' && s.get_char(1) == '*'
}

/// Every path splits into at least one segment.
pub proof fn lemma_split_path_nonempty(s: Seq<char>)
    ensures
        split_path(s).len() >= 1,
    decreases s.len(),
{
    if s.len() != 0 {
        lemma_split_path_nonempty(s.drop_first());
    }
}

/// Splits a path into its `/`-delimited segments.
pub fn split_segments(s: &str) -> (segs: Vec<String>)
    ensures
        string_views(segs@) == split_path(s@),
    decreases s@.len(),
{
    let n = s.unicode_len();
    if n == 0 {
        let mut segs: Vec<String> = Vec::new();
        segs.push(String::new());
        proof {
            assert(string_views(segs@) =~= split_path(s@));
        }
        segs
    } else {
        let rest = s.substring_char(1, n);
        proof {
            assert(rest@ =~= s@.drop_first());
        }
        let mut segs = split_segments(rest);
        if s.get_char(0) == '/' {
            segs.insert(0, String::new());
            proof {
                assert(string_views(segs@) =~= split_path(s@));
            }
            segs
        } else {
            let head = s.substring_char(0, 1);
            proof {
                lemma_split_path_nonempty(rest@);
            }
            let first = segs.remove(0);
            let first = String::from_str(head).concat(first.as_str());
            segs.insert(0, first);
            proof {
                let rest_split = split_path(s@.drop_first());
                assert(head@ + rest_split[0] =~= seq![s@[0]] + rest_split[0]);
                assert(string_views(segs@) =~= split_path(s@));
            }
            segs
        }
    }
}

/// Whether pattern segments `p[i..]` match request segments `r[j..]`.
fn segments_match_from(p: &Vec<String>, r: &Vec<String>, i: usize, j: usize) -> (b: bool)
    requires
        i <= p@.len(),
        j <= r@.len(),
    ensures
        b == segs_match(string_views(p@).skip(i as int), string_views(r@).skip(j as int)),
    decreases p@.len() - i,
{
    proof {
        assert(string_views(p@).skip(i as int).len() == p@.len() - i);
        assert(string_views(r@).skip(j as int).len() == r@.len() - j);
    }
    if i == p.len() {
        j == r.len()
    } else if i + 1 == p.len() && is_multi_wildcard_segment(&p[i]) {
        true
    } else if j == r.len() {
        false
    } else {
        let seg_ok = is_wildcard_segment(&p[i]) || p[i] == r[j];
        proof {
            assert(string_views(p@).skip(i as int)[0] == p@[i as int]@);
            assert(string_views(r@).skip(j as int)[0] == r@[j as int]@);
            assert(string_views(p@).skip(i as int).drop_first() =~= string_views(p@).skip(
                i as int + 1,
            ));
            assert(string_views(r@).skip(j as int).drop_first() =~= string_views(r@).skip(
                j as int + 1,
            ));
        }
        seg_ok && segments_match_from(p, r, i + 1, j + 1)
    }
}

/// Whether the resource pattern `pattern` matches the requested
/// `resource` under the path grammar.
pub fn resource_matches(pattern: &String, resource: &String) -> (b: bool)
    ensures
        b == resource_pattern_matches(pattern@, resource@),
{
    let p = split_segments(pattern.as_str());
    let r = split_segments(resource.as_str());
    proof {
        assert(string_views(p@).skip(0) =~= string_views(p@));
        assert(string_views(r@).skip(0) =~= string_views(r@));
    }
    segments_match_from(&p, &r, 0, 0)
}

/// Whether a permission action grants the requested action.
pub fn action_matches(p_action: &String, action: &String) -> (b: bool)
    ensures
        b == action_pattern_matches(p_action@, action@),
{
    if is_wildcard_segment(p_action) {
        true
    } else {
        *p_action == *action
    }
}

/// Whether one permission grants the requested action on the requested
/// resource.
pub fn permission_matches(p: &Permission, action: &String, resource: &String) -> (b: bool)
    ensures
        b == permission_grants(*p, action@, resource@),
{
    action_matches(&p.action, action) && resource_matches(&p.resource, resource)
}

/// Whether `role` grants the request within `namespace`: same namespace,
/// and any one of its permissions matches.
pub fn role_matches(role: &Role, namespace: &String, action: &String, resource: &String) -> (b:
    bool)
    ensures
        b == role_grants(*role, namespace@, action@, resource@),
{
    if !(role.namespace == *namespace) {
        return false;
    }
    let mut k: usize = 0;
    while k < role.permissions.len()
        invariant
            k <= role.permissions@.len(),
            role.namespace@ == namespace@,
            forall|i: int| 0 <= i < k ==> !permission_grants(
                #[trigger] role.permissions@[i],
                action@,
                resource@,
            ),
        decreases role.permissions@.len() - k,
    {
        if permission_matches(&role.permissions[k], action, resource) {
            return true;
        }
        k = k + 1;
    }
    false
}

/// The subset of `role_ids` that grant the request within `namespace`,
/// judged against the role documents in `roles`.  Only set membership
/// matters downstream: an id is in the result if and only if it is in
/// `role_ids` and some role document bearing it grants the request.
pub fn matching_role_ids(
    roles: &Vec<Role>,
    role_ids: &Vec<String>,
    namespace: &String,
    action: &String,
    resource: &String,
) -> (matched: Vec<String>)
    ensures
        forall|rid: Seq<char>|
            #[trigger] string_views(matched@).contains(rid) <==> (string_views(role_ids@).contains(rid)
                && role_id_grants(roles@, rid, namespace@, action@, resource@)),
{
    let mut matched: Vec<String> = Vec::new();
    let mut k: usize = 0;
    while k < role_ids.len()
        invariant
            k <= role_ids@.len(),
            forall|rid: Seq<char>|
                #[trigger] string_views(matched@).contains(rid) <==> (string_views(
                    role_ids@.take(k as int),
                ).contains(rid) && role_id_grants(roles@, rid, namespace@, action@, resource@)),
        decreases role_ids@.len() - k,
    {
        let granted = any_role_doc_grants(roles, &role_ids[k], namespace, action, resource);
        let ghost pre = matched@;
        if granted {
            matched.push(role_ids[k].clone());
        }
        proof {
            let x = role_ids@[k as int]@;
            if granted {
                assert(string_views(matched@) =~= string_views(pre).push(x));
            }
            assert(string_views(role_ids@.take(k as int + 1)) =~= string_views(
                role_ids@.take(k as int),
            ).push(x));
            let cur = string_views(matched@);
            let prev = string_views(pre);
            let tprev = string_views(role_ids@.take(k as int));
            let tcur = string_views(role_ids@.take(k as int + 1));
            assert forall|rid: Seq<char>| #[trigger] cur.contains(rid) implies (tcur.contains(rid)
                && role_id_grants(roles@, rid, namespace@, action@, resource@)) by {
                let i = choose|i: int| 0 <= i < cur.len() && cur[i] == rid;
                if granted && i == prev.len() {
                    assert(rid == x);
                    assert(tcur[tprev.len() as int] == x);
                    assert(tcur.contains(rid));
                } else {
                    assert(prev[i] == rid);
                    assert(prev.contains(rid));
                    let j = choose|j: int| 0 <= j < tprev.len() && tprev[j] == rid;
                    assert(tcur[j] == rid);
                    assert(tcur.contains(rid));
                }
            }
            assert forall|rid: Seq<char>|
                tcur.contains(rid) && role_id_grants(
                    roles@,
                    rid,
                    namespace@,
                    action@,
                    resource@,
                ) implies #[trigger] cur.contains(rid) by {
                let j = choose|j: int| 0 <= j < tcur.len() && tcur[j] == rid;
                if j < tprev.len() {
                    assert(tprev[j] == rid);
                    assert(tprev.contains(rid));
                    assert(prev.contains(rid));
                    let i = choose|i: int| 0 <= i < prev.len() && prev[i] == rid;
                    assert(cur[i] == rid);
                    assert(cur.contains(rid));
                } else {
                    assert(rid == x);
                    assert(granted);
                    assert(cur[prev.len() as int] == x);
                    assert(cur.contains(rid));
                }
            }
        }
        k = k + 1;
    }
    proof {
        assert(role_ids@.take(role_ids@.len() as int) =~= role_ids@);
    }
    matched
}

/// Whether some role document in `roles` bears `role_id` and grants the
/// request within `namespace`.
pub fn any_role_doc_grants(
    roles: &Vec<Role>,
    role_id: &String,
    namespace: &String,
    action: &String,
    resource: &String,
) -> (b: bool)
    ensures
        b == role_id_grants(roles@, role_id@, namespace@, action@, resource@),
{
    let mut k: usize = 0;
    while k < roles.len()
        invariant
            k <= roles@.len(),
            forall|i: int| 0 <= i < k ==> !((#[trigger] roles@[i]).id@ == role_id@ && role_grants(
                roles@[i],
                namespace@,
                action@,
                resource@,
            )),
        decreases roles@.len() - k,
    {
        if roles[k].id == *role_id && role_matches(&roles[k], namespace, action, resource) {
            return true;
        }
        k = k + 1;
    }
    false
}

} // verus!
