//! Authorization decision engine: given an actor, a namespace, and a
//! requested action/resource, decide whether any role assigned to that
//! actor, scoped to that namespace, grants the request.
//!
//! The decision pipeline is validate -> resolve roles -> match permissions
//! -> reduce to a boolean; roles can only add permission, never subtract
//! it, so the decision is allow-if-any-match.

pub mod errors;
pub mod matching;
pub mod race;
pub mod rbac;
pub mod resolver;
pub mod store;
