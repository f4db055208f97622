//! The access decision engine: the only externally callable operation of
//! the core.  A decision runs the linear pipeline validate -> resolve
//! roles -> match permissions -> reduce, and is a pure function of the
//! store snapshot and the input: no mutation, no retries, no caching.

use vstd::prelude::*;

use crate::errors::Error;
use crate::matching::{role_grants, role_id_grants, string_views};
use crate::rbac::{IsAllowedRequest, IsAllowedResult, Role, UserRoles};
use crate::resolver::user_has_role;
use crate::store::DirectoryStore;

verus! {

/// Whether the pieces of a decision request are well-formed: none of the
/// actor identifier, namespace, action, and resource may be empty.
pub open spec fn valid_request_parts(
    uid: Seq<char>,
    namespace: Seq<char>,
    action: Seq<char>,
    resource: Seq<char>,
) -> bool {
    uid.len() > 0 && namespace.len() > 0 && action.len() > 0 && resource.len() > 0
}

/// Whether the actor identified by `uid` is allowed the requested
/// action/resource within `namespace`: some role id assigned to the
/// actor must belong to a role document granting the request.
pub open spec fn request_allowed(
    users: Seq<UserRoles>,
    roles: Seq<Role>,
    uid: Seq<char>,
    namespace: Seq<char>,
    action: Seq<char>,
    resource: Seq<char>,
) -> bool {
    exists|rid: Seq<char>|
        #[trigger] user_has_role(users, uid, rid) && role_id_grants(
            roles,
            rid,
            namespace,
            action,
            resource,
        )
}

/// The full outcome a decision owes its caller: a malformed request is
/// rejected with `InvalidRequest` before the store is consulted; a store
/// failure propagates as `DatabaseOperationFailed`, never as a deny
/// decision; otherwise the answer is exactly whether some assigned role
/// grants the request.
pub open spec fn decision_matches(
    r: Result<IsAllowedResult, Error>,
    store: DirectoryStore,
    uid: Seq<char>,
    namespace: Seq<char>,
    action: Seq<char>,
    resource: Seq<char>,
) -> bool {
    if !valid_request_parts(uid, namespace, action, resource) {
        r == Err::<IsAllowedResult, Error>(Error::InvalidRequest)
    } else {
        match store.fault {
            Some(d) => r matches Err(e) && e matches Error::DatabaseOperationFailed(m) && m@
                == d@,
            None => r matches Ok(res) && res.result == request_allowed(
                store.users@,
                store.roles@,
                uid,
                namespace,
                action,
                resource,
            ),
        }
    }
}

/// Rejects a malformed decision request.  Returns `Ok` exactly when all
/// four request parts are non-empty, and `InvalidRequest` otherwise;
/// performed before any store access.
pub fn validate_request(request: &IsAllowedRequest, namespace: &String) -> (r: Result<(), Error>)
    ensures
        valid_request_parts(
            request.external_user_id@,
            namespace@,
            request.action@,
            request.resource@,
        ) ==> r == Ok::<(), Error>(()),
        !valid_request_parts(
            request.external_user_id@,
            namespace@,
            request.action@,
            request.resource@,
        ) ==> r == Err::<(), Error>(Error::InvalidRequest),
{
    if request.external_user_id.as_str().unicode_len() == 0 {
        Err(Error::InvalidRequest)
    } else if namespace.as_str().unicode_len() == 0 {
        Err(Error::InvalidRequest)
    } else if request.action.as_str().unicode_len() == 0 {
        Err(Error::InvalidRequest)
    } else if request.resource.as_str().unicode_len() == 0 {
        Err(Error::InvalidRequest)
    } else {
        Ok(())
    }
}

pub struct AccessControlEngine {
    pub store: DirectoryStore,
}

impl AccessControlEngine {
    /// Constructs an engine over a directory-store snapshot.
    pub fn init_with_store(store: DirectoryStore) -> (engine: Self)
        ensures
            engine.store == store,
    {
        Self { store }
    }

    /// Decides whether the actor of `is_allowed_request` may perform the
    /// requested action on the requested resource within `namespace`.
    pub fn is_allowed(&self, is_allowed_request: &IsAllowedRequest, namespace: String) -> (r:
        Result<IsAllowedResult, Error>)
        ensures
            decision_matches(
                r,
                self.store,
                is_allowed_request.external_user_id@,
                namespace@,
                is_allowed_request.action@,
                is_allowed_request.resource@,
            ),
    {
        let ghost uid = is_allowed_request.external_user_id@;
        let ghost ns = namespace@;
        let ghost action = is_allowed_request.action@;
        let ghost resource = is_allowed_request.resource@;
        match validate_request(is_allowed_request, &namespace) {
            Err(e) => Err(e),
            Ok(()) => {
                let user_role_ids = match self.store.get_role_ids_for_user(
                    &is_allowed_request.external_user_id,
                ) {
                    Err(e) => {
                        return Err(e);
                    },
                    Ok(ids) => ids,
                };
                let matching_roles = match self.store.get_roles_matching_request(
                    &user_role_ids,
                    is_allowed_request,
                    &namespace,
                ) {
                    Err(e) => {
                        return Err(e);
                    },
                    Ok(matched) => matched,
                };
                proof {
                    if matching_roles@.len() > 0 {
                        assert(string_views(matching_roles@)[0] == matching_roles@[0]@);
                        assert(string_views(matching_roles@).contains(matching_roles@[0]@));
                        assert(request_allowed(
                            self.store.users@,
                            self.store.roles@,
                            uid,
                            ns,
                            action,
                            resource,
                        ));
                    }
                    if request_allowed(
                        self.store.users@,
                        self.store.roles@,
                        uid,
                        ns,
                        action,
                        resource,
                    ) {
                        let rid = choose|rid: Seq<char>|
                            #[trigger] user_has_role(self.store.users@, uid, rid)
                                && role_id_grants(self.store.roles@, rid, ns, action, resource);
                        assert(string_views(user_role_ids@).contains(rid));
                        assert(string_views(matching_roles@).contains(rid));
                        assert(string_views(matching_roles@).len() > 0);
                    }
                }
                Ok(IsAllowedResult { result: matching_roles.len() > 0 })
            },
        }
    }
}

/// Whether two decision outcomes carry the same observable content:
/// the same boolean answer, or the same error with the same detail.
pub open spec fn same_decision(
    r1: Result<IsAllowedResult, Error>,
    r2: Result<IsAllowedResult, Error>,
) -> bool {
    match (r1, r2) {
        (Ok(a), Ok(b)) => a.result == b.result,
        (Err(e1), Err(e2)) => same_error(e1, e2),
        _ => false,
    }
}

/// Whether two errors of the decision core carry the same observable
/// content.
pub open spec fn same_error(e1: Error, e2: Error) -> bool {
    match (e1, e2) {
        (Error::InvalidRequest, Error::InvalidRequest) => true,
        (Error::DatabaseOperationFailed(m1), Error::DatabaseOperationFailed(m2)) => m1@ == m2@,
        _ => false,
    }
}

/// An actor with no assigned roles is denied: given a well-formed
/// request and an available store, the decision is `Ok` with result
/// `false`, never an error.
pub proof fn lemma_no_roles_denies(
    r: Result<IsAllowedResult, Error>,
    store: DirectoryStore,
    uid: Seq<char>,
    namespace: Seq<char>,
    action: Seq<char>,
    resource: Seq<char>,
)
    requires
        decision_matches(r, store, uid, namespace, action, resource),
        store.fault is None,
        valid_request_parts(uid, namespace, action, resource),
        forall|rid: Seq<char>| !user_has_role(store.users@, uid, rid),
    ensures
        r == Ok::<IsAllowedResult, Error>(IsAllowedResult { result: false }),
{
    if request_allowed(store.users@, store.roles@, uid, namespace, action, resource) {
        let rid = choose|rid: Seq<char>|
            #[trigger] user_has_role(store.users@, uid, rid) && role_id_grants(
                store.roles@,
                rid,
                namespace,
                action,
                resource,
            );
        assert(!user_has_role(store.users@, uid, rid));
    }
}

/// Namespace isolation: when no role document bears the request's
/// namespace, the decision is `Ok` with result `false`, however the
/// actor's roles match elsewhere.
pub proof fn lemma_namespace_isolation(
    r: Result<IsAllowedResult, Error>,
    store: DirectoryStore,
    uid: Seq<char>,
    namespace: Seq<char>,
    action: Seq<char>,
    resource: Seq<char>,
)
    requires
        decision_matches(r, store, uid, namespace, action, resource),
        store.fault is None,
        valid_request_parts(uid, namespace, action, resource),
        forall|i: int|
            0 <= i < store.roles@.len() ==> (#[trigger] store.roles@[i]).namespace@ != namespace,
    ensures
        r == Ok::<IsAllowedResult, Error>(IsAllowedResult { result: false }),
{
    if request_allowed(store.users@, store.roles@, uid, namespace, action, resource) {
        let rid = choose|rid: Seq<char>|
            #[trigger] user_has_role(store.users@, uid, rid) && role_id_grants(
                store.roles@,
                rid,
                namespace,
                action,
                resource,
            );
        let i = choose|i: int|
            0 <= i < store.roles@.len() && (#[trigger] store.roles@[i]).id@ == rid && role_grants(
                store.roles@[i],
                namespace,
                action,
                resource,
            );
        assert(store.roles@[i].namespace@ == namespace);
    }
}

/// Idempotence: two decisions over the same store snapshot and the same
/// request carry the same observable content.
pub proof fn lemma_decision_deterministic(
    r1: Result<IsAllowedResult, Error>,
    r2: Result<IsAllowedResult, Error>,
    store: DirectoryStore,
    uid: Seq<char>,
    namespace: Seq<char>,
    action: Seq<char>,
    resource: Seq<char>,
)
    requires
        decision_matches(r1, store, uid, namespace, action, resource),
        decision_matches(r2, store, uid, namespace, action, resource),
    ensures
        same_decision(r1, r2),
{
}

/// Fail-closed under store failure: when the store cannot be reached
/// the decision is never an allow; a well-formed request surfaces the
/// store failure itself.
pub proof fn lemma_fail_closed(
    r: Result<IsAllowedResult, Error>,
    store: DirectoryStore,
    uid: Seq<char>,
    namespace: Seq<char>,
    action: Seq<char>,
    resource: Seq<char>,
)
    requires
        decision_matches(r, store, uid, namespace, action, resource),
        store.fault is Some,
    ensures
        !(r matches Ok(res) && res.result),
        valid_request_parts(uid, namespace, action, resource) ==> (r matches Err(e) && e matches
            Error::DatabaseOperationFailed(m) && m@ == store.fault.unwrap()@),
{
}

/// A malformed request is rejected with `InvalidRequest` whatever the
/// store holds and whether or not it can be reached: validation comes
/// before any store access.
pub proof fn lemma_invalid_rejected_before_store(
    r: Result<IsAllowedResult, Error>,
    store: DirectoryStore,
    uid: Seq<char>,
    namespace: Seq<char>,
    action: Seq<char>,
    resource: Seq<char>,
)
    requires
        decision_matches(r, store, uid, namespace, action, resource),
        !valid_request_parts(uid, namespace, action, resource),
    ensures
        r == Err::<IsAllowedResult, Error>(Error::InvalidRequest),
{
}

} // verus!

