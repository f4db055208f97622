//! Data model of the access-control core: permissions, roles, user/role
//! assignments, and the decision request/result types.

use vstd::prelude::*;

verus! {

/// A grant statement inside a role: the named `action` (or the wildcard
/// `"*"`) is permitted on every resource matched by `resource`, a
/// `/`-delimited path pattern (see `crate::matching`).
pub struct Permission {
    pub action: String,
    pub resource: String,
}

/// A named bundle of permissions, scoped to exactly one namespace.
/// A role only participates in decisions for requests bearing the same
/// namespace; a role without permissions grants nothing.
pub struct Role {
    pub id: String,
    pub namespace: String,
    pub permissions: Vec<Permission>,
}

/// One user/role assignment record: the roles assigned to the actor
/// identified by `external_user_id`, across all tenants.
pub struct UserRoles {
    pub external_user_id: String,
    pub role_ids: Vec<String>,
}

/// The question being asked: may this actor perform `action` on
/// `resource`?  The scoping namespace accompanies the request as a
/// separate argument wherever a decision is made.
pub struct IsAllowedRequest {
    pub external_user_id: String,
    pub action: String,
    pub resource: String,
}

/// The answer: a bare allow/deny decision, with no reason code and no
/// matched-role identity.
#[derive(PartialEq, Eq, Structural, Debug, Clone, Copy)]
pub struct IsAllowedResult {
    pub result: bool,
}

} // verus!
