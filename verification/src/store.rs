//! The directory store: the persistence collaborator holding user/role
//! assignments and role documents.  The decision core only ever reads a
//! consistent snapshot of it, through the two operations below, and a
//! store failure is surfaced as an error, never coerced into a deny
//! decision.
//!
//! `DirectoryStore` holds such a snapshot in memory.  A store whose
//! `fault` is set stands for one whose backend cannot be reached: every
//! read fails with `DatabaseOperationFailed`, carrying the recorded
//! failure detail.

use vstd::prelude::*;

use crate::errors::Error;
use crate::matching::{matching_role_ids, role_id_grants, string_views};
use crate::rbac::{IsAllowedRequest, Role, UserRoles};
use crate::resolver::{resolve_role_ids, user_has_role};

verus! {

pub struct DirectoryStore {
    /// User/role assignment records.
    pub users: Vec<UserRoles>,
    /// Role documents: id, namespace, and permission set.
    pub roles: Vec<Role>,
    /// When set, the backend is unreachable and every read fails with
    /// this detail message.
    pub fault: Option<String>,
}

impl DirectoryStore {
    /// Whether reads against this snapshot succeed.
    pub open spec fn available(self) -> bool {
        self.fault is None
    }

    /// The deduplicated set of role ids assigned to the actor identified
    /// by `external_user_id`, across all tenants.  An unknown identifier
    /// resolves to the empty set; only a store failure is an error.
    pub fn get_role_ids_for_user(&self, external_user_id: &String) -> (r: Result<
        Vec<String>,
        Error,
    >)
        ensures
            self.fault matches Some(d) ==> (r matches Err(e) && e matches
                Error::DatabaseOperationFailed(m) && m@ == d@),
            self.fault is None ==> (r matches Ok(ids) && (forall|rid: Seq<char>|
                #[trigger] string_views(ids@).contains(rid) <==> user_has_role(
                    self.users@,
                    external_user_id@,
                    rid,
                )) && (forall|k1: int, k2: int|
                0 <= k1 < k2 < ids@.len() ==> (#[trigger] ids@[k1])@ != (#[trigger] ids@[k2])@)),
    {
        match &self.fault {
            Some(detail) => Err(Error::DatabaseOperationFailed(detail.clone())),
            None => Ok(resolve_role_ids(&self.users, external_user_id)),
        }
    }

    /// The subset of `role_ids` whose role grants the requested
    /// action/resource within `namespace`.  Only a store failure is an
    /// error.
    pub fn get_roles_matching_request(
        &self,
        role_ids: &Vec<String>,
        request: &IsAllowedRequest,
        namespace: &String,
    ) -> (r: Result<Vec<String>, Error>)
        ensures
            self.fault matches Some(d) ==> (r matches Err(e) && e matches
                Error::DatabaseOperationFailed(m) && m@ == d@),
            self.fault is None ==> (r matches Ok(matched) && (forall|rid: Seq<char>|
                #[trigger] string_views(matched@).contains(rid) <==> (string_views(
                    role_ids@,
                ).contains(rid) && role_id_grants(
                    self.roles@,
                    rid,
                    namespace@,
                    request.action@,
                    request.resource@,
                )))),
    {
        match &self.fault {
            Some(detail) => Err(Error::DatabaseOperationFailed(detail.clone())),
            None => Ok(
                matching_role_ids(&self.roles, role_ids, namespace, &request.action, &request.resource),
            ),
        }
    }
}

} // verus!
