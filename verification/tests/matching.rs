use trusty::matching::{action_matches, resource_matches, split_segments};

fn s(v: &str) -> String {
    String::from(v)
}

#[test]
fn split_empty_path_is_one_empty_segment() {
    let segs = split_segments("");
    assert_eq!(segs, vec![s("")]);
}

#[test]
fn split_plain_segments() {
    let segs = split_segments("orders/42/items");
    assert_eq!(segs, vec![s("orders"), s("42"), s("items")]);
}

#[test]
fn split_keeps_empty_segments() {
    let segs = split_segments("/a//b/");
    assert_eq!(segs, vec![s(""), s("a"), s(""), s("b"), s("")]);
}

#[test]
fn single_wildcard_matches_exactly_one_segment() {
    assert!(resource_matches(&s("orders/*"), &s("orders/42")));
    assert!(!resource_matches(&s("orders/*"), &s("orders/42/items")));
    assert!(!resource_matches(&s("orders/*"), &s("orders")));
}

#[test]
fn multi_wildcard_matches_all_remaining_segments() {
    assert!(resource_matches(&s("orders/**"), &s("orders/42")));
    assert!(resource_matches(&s("orders/**"), &s("orders/42/items")));
    assert!(resource_matches(&s("orders/**"), &s("orders")));
}

#[test]
fn bare_multi_wildcard_matches_anything() {
    assert!(resource_matches(&s("**"), &s("")));
    assert!(resource_matches(&s("**"), &s("a")));
    assert!(resource_matches(&s("**"), &s("a/b/c")));
}

#[test]
fn literal_segments_match_exactly() {
    assert!(resource_matches(&s("tenants/acme"), &s("tenants/acme")));
    assert!(!resource_matches(&s("tenants/acme"), &s("tenants/Acme")));
    assert!(!resource_matches(&s("tenants/acme"), &s("tenants")));
    assert!(!resource_matches(&s("tenants"), &s("tenants/acme")));
}

#[test]
fn segment_counts_must_agree_without_trailing_multi_wildcard() {
    assert!(!resource_matches(&s("a/*/c"), &s("a/b")));
    assert!(resource_matches(&s("a/*/c"), &s("a/b/c")));
    assert!(!resource_matches(&s("a/*/c"), &s("a/b/c/d")));
}

#[test]
fn non_final_multi_wildcard_is_a_literal() {
    assert!(!resource_matches(&s("**/a"), &s("x/a")));
    assert!(resource_matches(&s("**/a"), &s("**/a")));
}

#[test]
fn action_wildcard_grants_every_action() {
    assert!(action_matches(&s("*"), &s("read")));
    assert!(action_matches(&s("*"), &s("write")));
}

#[test]
fn action_match_is_exact_and_case_sensitive() {
    assert!(action_matches(&s("read"), &s("read")));
    assert!(!action_matches(&s("read"), &s("Read")));
    assert!(!action_matches(&s("read"), &s("write")));
    assert!(!action_matches(&s("re"), &s("read")));
}
