//! Resolution of route annotations into records: the supported verbs, the
//! defaults, the named-over-positional precedence, and every error.

use autortr_rocket::mapping::{
    delete_mapping, get_mapping, head_mapping, http_mapping, patch_mapping, post_mapping,
    put_mapping, request_mapping, AttrArg, MappingError, RouteMapping,
};
use autortr_rocket::method::Method;

fn named(key: &str, value: &str) -> AttrArg {
    AttrArg::Named(key.to_string(), value.to_string())
}

fn positional(value: &str) -> AttrArg {
    AttrArg::Positional(value.to_string())
}

fn no_routes() -> Vec<rocket::Route> {
    Vec::new()
}

fn unified(args: Vec<AttrArg>) -> Result<RouteMapping, MappingError> {
    request_mapping("handler".to_string(), args, no_routes())
}

#[test]
fn unified_resolves_each_supported_verb() {
    let verbs = [
        ("get", Method::Get),
        ("post", Method::Post),
        ("put", Method::Put),
        ("patch", Method::Patch),
        ("delete", Method::Delete),
        ("head", Method::Head),
    ];
    for (token, method) in verbs {
        let record = unified(vec![named("method", token), named("path", "/p")]).unwrap();
        assert_eq!(record.method, method);
        assert_eq!(record.path, "/p");
        assert_eq!(record.namespace, "/");
        assert_eq!(record.data, None);
        assert_eq!(record.function, "handler");
        assert!(record.routes.is_empty());
    }
}

#[test]
fn unified_keeps_namespace_and_data() {
    let record = unified(vec![
        named("namespace", "/rocket"),
        named("method", "post"),
        named("path", "/data"),
        named("data", "<form>"),
    ])
    .unwrap();
    assert_eq!(record.namespace, "/rocket");
    assert_eq!(record.method, Method::Post);
    assert_eq!(record.path, "/data");
    assert_eq!(record.data, Some("<form>".to_string()));
}

#[test]
fn unified_omitted_data_yields_no_binding() {
    let record = unified(vec![named("method", "get"), named("path", "/get")]).unwrap();
    assert_eq!(record.data, None);
}

#[test]
fn unified_missing_method_fails() {
    let resolved = unified(vec![named("path", "/p")]);
    assert_eq!(resolved.err(), Some(MappingError::MissingMethod));
}

#[test]
fn unified_missing_path_fails() {
    let resolved = unified(vec![named("method", "get")]);
    assert_eq!(resolved.err(), Some(MappingError::MissingPath));
}

#[test]
fn unified_missing_both_fails() {
    let resolved = unified(vec![named("namespace", "/rocket")]);
    assert_eq!(resolved.err(), Some(MappingError::MissingMethod));
}

#[test]
fn unified_unsupported_method_fails() {
    let resolved = unified(vec![named("method", "brew"), named("path", "/p")]);
    assert_eq!(resolved.err(), Some(MappingError::UnsupportedMethod));
}

#[test]
fn unified_missing_path_is_reported_before_the_bad_method() {
    let resolved = unified(vec![named("method", "brew")]);
    assert_eq!(resolved.err(), Some(MappingError::MissingPath));
}

#[test]
fn unified_method_tokens_are_case_sensitive() {
    let resolved = unified(vec![named("method", "GET"), named("path", "/p")]);
    assert_eq!(resolved.err(), Some(MappingError::UnsupportedMethod));
}

#[test]
fn unified_rejects_positional_arguments() {
    let resolved = unified(vec![positional("/p"), named("method", "get"), named("path", "/p")]);
    assert_eq!(resolved.err(), Some(MappingError::MalformedArgument));
}

#[test]
fn unified_rejects_trailing_positional_argument() {
    let resolved = unified(vec![named("method", "get"), named("path", "/p"), positional("/q")]);
    assert_eq!(resolved.err(), Some(MappingError::MalformedArgument));
}

#[test]
fn unified_last_occurrence_of_a_key_wins() {
    let record = unified(vec![
        named("method", "get"),
        named("path", "/first"),
        named("path", "/second"),
    ])
    .unwrap();
    assert_eq!(record.path, "/second");
}

#[test]
fn unified_ignores_unknown_keys() {
    let record = unified(vec![
        named("method", "get"),
        named("path", "/p"),
        named("rank", "2"),
    ])
    .unwrap();
    assert_eq!(record.path, "/p");
    assert_eq!(record.namespace, "/");
}

#[test]
fn shorthand_resolves_each_verb() {
    let cases: [(fn(String, Vec<AttrArg>, Vec<rocket::Route>) -> Result<RouteMapping, MappingError>,
        Method); 6] = [
        (get_mapping, Method::Get),
        (post_mapping, Method::Post),
        (put_mapping, Method::Put),
        (patch_mapping, Method::Patch),
        (delete_mapping, Method::Delete),
        (head_mapping, Method::Head),
    ];
    for (shorthand, method) in cases {
        let record = shorthand(
            "handler".to_string(),
            vec![positional("/p")],
            no_routes(),
        )
        .unwrap();
        assert_eq!(record.method, method);
        assert_eq!(record.path, "/p");
        assert_eq!(record.namespace, "/");
        assert_eq!(record.data, None);
    }
}

#[test]
fn shorthand_positional_and_named_paths_are_equivalent() {
    let by_position = get_mapping(
        "handler".to_string(),
        vec![positional("/get")],
        no_routes(),
    )
    .unwrap();
    let by_name = get_mapping(
        "handler".to_string(),
        vec![named("path", "/get")],
        no_routes(),
    )
    .unwrap();
    assert_eq!(by_position.method, by_name.method);
    assert_eq!(by_position.path, by_name.path);
    assert_eq!(by_position.namespace, by_name.namespace);
    assert_eq!(by_position.data, by_name.data);
}

#[test]
fn shorthand_named_path_wins_over_positional() {
    let record = get_mapping(
        "handler".to_string(),
        vec![positional("/positional"), named("path", "/named")],
        no_routes(),
    )
    .unwrap();
    assert_eq!(record.path, "/named");
}

#[test]
fn shorthand_keeps_namespace_and_data() {
    let record = post_mapping(
        "handler".to_string(),
        vec![named("namespace", "/http"), named("path", "/post"), named("data", "<form>")],
        no_routes(),
    )
    .unwrap();
    assert_eq!(record.namespace, "/http");
    assert_eq!(record.path, "/post");
    assert_eq!(record.data, Some("<form>".to_string()));
}

#[test]
fn shorthand_missing_path_fails() {
    let resolved = get_mapping("handler".to_string(), Vec::new(), no_routes());
    assert_eq!(resolved.err(), Some(MappingError::MissingPath));
}

#[test]
fn shorthand_positional_counts_only_in_first_place() {
    let resolved = get_mapping(
        "handler".to_string(),
        vec![named("namespace", "/http"), positional("/late")],
        no_routes(),
    );
    assert_eq!(resolved.err(), Some(MappingError::MissingPath));
}

#[test]
fn shorthand_matches_explicit_http_mapping() {
    let via_verb = put_mapping(
        "handler".to_string(),
        vec![positional("/put")],
        no_routes(),
    )
    .unwrap();
    let via_http = http_mapping(
        Method::Put,
        "handler".to_string(),
        vec![positional("/put")],
        no_routes(),
    )
    .unwrap();
    assert_eq!(via_verb.method, via_http.method);
    assert_eq!(via_verb.path, via_http.path);
}

#[test]
fn method_parse_accepts_exactly_the_six_tokens() {
    assert_eq!(Method::parse(&"get".to_string()), Some(Method::Get));
    assert_eq!(Method::parse(&"post".to_string()), Some(Method::Post));
    assert_eq!(Method::parse(&"put".to_string()), Some(Method::Put));
    assert_eq!(Method::parse(&"patch".to_string()), Some(Method::Patch));
    assert_eq!(Method::parse(&"delete".to_string()), Some(Method::Delete));
    assert_eq!(Method::parse(&"head".to_string()), Some(Method::Head));
    assert_eq!(Method::parse(&"options".to_string()), None);
    assert_eq!(Method::parse(&"Get".to_string()), None);
    assert_eq!(Method::parse(&"".to_string()), None);
}
