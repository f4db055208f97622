use trusty::errors::Error;
use trusty::race::AccessControlEngine;
use trusty::rbac::{IsAllowedRequest, IsAllowedResult, Permission, Role, UserRoles};
use trusty::resolver::resolve_role_ids;
use trusty::store::DirectoryStore;

fn s(v: &str) -> String {
    String::from(v)
}

fn role(id: &str, namespace: &str, perms: &[(&str, &str)]) -> Role {
    Role {
        id: s(id),
        namespace: s(namespace),
        permissions: perms
            .iter()
            .map(|(action, resource)| Permission { action: s(action), resource: s(resource) })
            .collect(),
    }
}

fn assignment(uid: &str, role_ids: &[&str]) -> UserRoles {
    UserRoles {
        external_user_id: s(uid),
        role_ids: role_ids.iter().map(|r| s(r)).collect(),
    }
}

fn billing_store() -> DirectoryStore {
    DirectoryStore {
        users: vec![assignment("u1", &["r1"])],
        roles: vec![role("r1", "billing", &[("read", "invoices/*")])],
        fault: None,
    }
}

fn request(uid: &str, action: &str, resource: &str) -> IsAllowedRequest {
    IsAllowedRequest {
        external_user_id: s(uid),
        action: s(action),
        resource: s(resource),
    }
}

fn allowed(r: Result<IsAllowedResult, Error>) -> bool {
    r.expect("decision should succeed").result
}

#[test]
fn billing_reader_may_read_an_invoice() {
    let engine = AccessControlEngine::init_with_store(billing_store());
    let r = engine.is_allowed(&request("u1", "read", "invoices/123"), s("billing"));
    assert_eq!(r, Ok(IsAllowedResult { result: true }));
}

#[test]
fn billing_reader_may_not_read_payments() {
    let engine = AccessControlEngine::init_with_store(billing_store());
    assert!(!allowed(engine.is_allowed(&request("u1", "read", "payments/123"), s("billing"))));
}

#[test]
fn billing_role_grants_nothing_in_support_namespace() {
    let engine = AccessControlEngine::init_with_store(billing_store());
    assert!(!allowed(engine.is_allowed(&request("u1", "read", "invoices/123"), s("support"))));
}

#[test]
fn unknown_actor_is_denied_without_error() {
    let engine = AccessControlEngine::init_with_store(billing_store());
    let r = engine.is_allowed(&request("nobody", "read", "invoices/123"), s("billing"));
    assert_eq!(r, Ok(IsAllowedResult { result: false }));
}

#[test]
fn actor_with_no_roles_is_denied_without_error() {
    let mut store = billing_store();
    store.users = vec![assignment("u1", &[])];
    let engine = AccessControlEngine::init_with_store(store);
    let r = engine.is_allowed(&request("u1", "read", "invoices/123"), s("billing"));
    assert_eq!(r, Ok(IsAllowedResult { result: false }));
}

#[test]
fn role_without_permissions_grants_nothing() {
    let mut store = billing_store();
    store.roles = vec![role("r1", "billing", &[])];
    let engine = AccessControlEngine::init_with_store(store);
    assert!(!allowed(engine.is_allowed(&request("u1", "read", "invoices/123"), s("billing"))));
}

#[test]
fn wildcard_action_grants_any_action_on_matching_resource() {
    let mut store = billing_store();
    store.roles = vec![role("r1", "billing", &[("*", "invoices/*")])];
    let engine = AccessControlEngine::init_with_store(store);
    assert!(allowed(engine.is_allowed(&request("u1", "archive", "invoices/7"), s("billing"))));
    assert!(!allowed(engine.is_allowed(&request("u1", "archive", "payments/7"), s("billing"))));
}

#[test]
fn permissions_within_a_role_are_disjunctive() {
    let mut store = billing_store();
    store.roles = vec![role(
        "r1",
        "billing",
        &[("write", "drafts/*"), ("read", "invoices/**")],
    )];
    let engine = AccessControlEngine::init_with_store(store);
    assert!(allowed(engine.is_allowed(&request("u1", "read", "invoices/2024/q1"), s("billing"))));
    assert!(allowed(engine.is_allowed(&request("u1", "write", "drafts/7"), s("billing"))));
    assert!(!allowed(engine.is_allowed(&request("u1", "write", "invoices/7"), s("billing"))));
}

#[test]
fn any_assigned_role_suffices() {
    let store = DirectoryStore {
        users: vec![assignment("u1", &["viewer", "editor"])],
        roles: vec![
            role("viewer", "docs", &[("read", "pages/**")]),
            role("editor", "docs", &[("write", "pages/**")]),
        ],
        fault: None,
    };
    let engine = AccessControlEngine::init_with_store(store);
    assert!(allowed(engine.is_allowed(&request("u1", "write", "pages/home"), s("docs"))));
}

#[test]
fn decisions_are_idempotent() {
    let engine = AccessControlEngine::init_with_store(billing_store());
    let first = engine.is_allowed(&request("u1", "read", "invoices/123"), s("billing"));
    let second = engine.is_allowed(&request("u1", "read", "invoices/123"), s("billing"));
    assert_eq!(first, second);
}

#[test]
fn empty_external_user_id_is_rejected_before_the_store_is_touched() {
    let mut store = billing_store();
    store.fault = Some(s("connection refused"));
    let engine = AccessControlEngine::init_with_store(store);
    let r = engine.is_allowed(&request("", "read", "invoices/123"), s("billing"));
    assert_eq!(r, Err(Error::InvalidRequest));
}

#[test]
fn empty_request_parts_are_rejected() {
    let engine = AccessControlEngine::init_with_store(billing_store());
    let cases = [
        (request("", "read", "invoices/1"), s("billing")),
        (request("u1", "", "invoices/1"), s("billing")),
        (request("u1", "read", ""), s("billing")),
        (request("u1", "read", "invoices/1"), s("")),
    ];
    for (req, ns) in cases {
        assert_eq!(engine.is_allowed(&req, ns), Err(Error::InvalidRequest));
    }
}

#[test]
fn store_failure_surfaces_as_an_error_never_as_a_decision() {
    let mut store = billing_store();
    store.fault = Some(s("primary is down"));
    let engine = AccessControlEngine::init_with_store(store);
    let r = engine.is_allowed(&request("u1", "read", "invoices/123"), s("billing"));
    assert_eq!(r, Err(Error::DatabaseOperationFailed(s("primary is down"))));
}

#[test]
fn resolver_deduplicates_role_ids_across_records() {
    let users = vec![
        assignment("u1", &["r1", "r2"]),
        assignment("u1", &["r2", "r3"]),
        assignment("u2", &["r9"]),
    ];
    let mut ids = resolve_role_ids(&users, &s("u1"));
    ids.sort();
    assert_eq!(ids, vec![s("r1"), s("r2"), s("r3")]);
}

#[test]
fn resolver_returns_empty_set_for_unknown_actor() {
    let users = vec![assignment("u1", &["r1"])];
    let ids = resolve_role_ids(&users, &s("ghost"));
    assert!(ids.is_empty());
}

#[test]
fn error_messages_are_descriptive() {
    assert_eq!(Error::InvalidRequest.message(), s("Invalid request"));
    assert_eq!(
        Error::DatabaseOperationFailed(s("timeout")).message(),
        s("Database: timeout")
    );
    assert_eq!(Error::MissingHeader(s("Authorization")).message(), s("Missing header: Authorization"));
    assert_eq!(Error::ValidationError(s("bad name")).message(), s("Validation error(s): bad name"));
}
