//! The registry's collect-then-drain lifecycle: appending, copying out,
//! clearing, and the absence of any uniqueness constraint.

use autortr_rocket::mapping::{request_mapping, AttrArg, RouteMapping};
use autortr_rocket::method::Method;
use autortr_rocket::registry::{
    clean_route_mappings, register_route_mapping, try_acquire_route_mappings, Registry,
};

fn named(key: &str, value: &str) -> AttrArg {
    AttrArg::Named(key.to_string(), value.to_string())
}

fn record(method: &str, path: &str) -> RouteMapping {
    request_mapping(
        "handler".to_string(),
        vec![named("method", method), named("path", path)],
        Vec::new(),
    )
    .unwrap()
}

#[test]
fn new_registry_is_empty() {
    let registry = Registry::new();
    assert!(try_acquire_route_mappings(&registry).is_empty());
}

#[test]
fn register_then_acquire_returns_the_record() {
    let mut registry = Registry::new();
    register_route_mapping(&mut registry, record("get", "/get"));
    let mappings = try_acquire_route_mappings(&registry);
    assert_eq!(mappings.len(), 1);
    assert_eq!(mappings[0].method, Method::Get);
    assert_eq!(mappings[0].path, "/get");
    assert_eq!(mappings[0].namespace, "/");
    assert_eq!(mappings[0].function, "handler");
}

#[test]
fn registration_order_is_kept() {
    let mut registry = Registry::new();
    register_route_mapping(&mut registry, record("get", "/a"));
    register_route_mapping(&mut registry, record("post", "/b"));
    register_route_mapping(&mut registry, record("put", "/c"));
    let mappings = try_acquire_route_mappings(&registry);
    assert_eq!(mappings.len(), 3);
    assert_eq!(mappings[0].path, "/a");
    assert_eq!(mappings[1].path, "/b");
    assert_eq!(mappings[2].path, "/c");
}

#[test]
fn acquiring_copies_without_clearing() {
    let mut registry = Registry::new();
    register_route_mapping(&mut registry, record("get", "/get"));
    assert_eq!(try_acquire_route_mappings(&registry).len(), 1);
    assert_eq!(try_acquire_route_mappings(&registry).len(), 1);
}

#[test]
fn duplicate_registrations_are_permitted() {
    let mut registry = Registry::new();
    register_route_mapping(&mut registry, record("get", "/same"));
    register_route_mapping(&mut registry, record("get", "/same"));
    assert_eq!(try_acquire_route_mappings(&registry).len(), 2);
}

#[test]
fn cleaning_empties_the_registry() {
    let mut registry = Registry::new();
    register_route_mapping(&mut registry, record("get", "/get"));
    clean_route_mappings(&mut registry);
    assert!(try_acquire_route_mappings(&registry).is_empty());
}

#[test]
fn cleaning_is_idempotent() {
    let mut registry = Registry::new();
    register_route_mapping(&mut registry, record("get", "/get"));
    clean_route_mappings(&mut registry);
    clean_route_mappings(&mut registry);
    assert!(try_acquire_route_mappings(&registry).is_empty());
}

#[test]
fn duplicated_record_carries_the_same_fields() {
    let original = request_mapping(
        "data_fn".to_string(),
        vec![
            named("namespace", "/rocket"),
            named("method", "post"),
            named("path", "/data"),
            named("data", "<form>"),
        ],
        Vec::new(),
    )
    .unwrap();
    let copy = original.duplicate();
    assert_eq!(copy.function, original.function);
    assert_eq!(copy.namespace, original.namespace);
    assert_eq!(copy.method, original.method);
    assert_eq!(copy.path, original.path);
    assert_eq!(copy.data, original.data);
    assert_eq!(copy.routes.len(), original.routes.len());
}
