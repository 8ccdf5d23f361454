//! Resolution of route annotations into route records.
//!
//! A route annotation carries a set of arguments: named ones (`key = "value"`)
//! drawn from `namespace`, `method`, `path` and `data`, and, in the per-verb
//! shorthand forms, an optional positional path. Resolution validates the
//! arguments, substitutes the defaults (namespace `"/"`, no data binding) and
//! yields a `RouteMapping`, the one record the registry holds per annotated
//! function. A missing `method` or `path`, an unsupported verb token, or a
//! bare argument where the unified form allows none, fails resolution: no
//! record is produced, mirroring a build-breaking error.

use vstd::prelude::*;

use crate::method::{spec_parse_method, Method};

verus! {

/// One argument of a route annotation: `key = "value"` or a bare literal.
pub enum AttrArg {
    Named(String, String),
    Positional(String),
}

/// Why a route annotation failed to resolve.
#[derive(Clone, Copy, PartialEq, Eq, Structural, Debug)]
pub enum MappingError {
    /// The unified form takes named arguments only, but a bare one was given.
    MalformedArgument,
    /// The unified form requires a `method` argument.
    MissingMethod,
    /// A `path` argument (or a positional path) is required.
    MissingPath,
    /// The `method` token is not one of the six supported verbs.
    UnsupportedMethod,
}

/// One route record: the resolved metadata of one annotated function,
/// together with the framework-native routes compiled from it.
pub struct RouteMapping {
    pub function: String,
    pub namespace: String,
    pub method: Method,
    pub path: String,
    pub data: Option<String>,
    pub routes: Vec<rocket::Route>,
}

/// The mathematical value of a route record.
#[verifier::ext_equal]
pub ghost struct MappingView {
    pub function: Seq<char>,
    pub namespace: Seq<char>,
    pub method: Method,
    pub path: Seq<char>,
    pub data: Option<Seq<char>>,
    pub routes: Seq<rocket::Route>,
}

impl View for RouteMapping {
    type V = MappingView;

    open spec fn view(&self) -> MappingView {
        MappingView {
            function: self.function@,
            namespace: self.namespace@,
            method: self.method,
            path: self.path@,
            data: match self.data {
                Some(marker) => Some(marker@),
                None => None,
            },
            routes: self.routes@,
        }
    }
}

/// The value of the last `key = "value"` argument with this key, if any:
/// when a key is repeated, the later occurrence wins.
pub open spec fn last_named(args: Seq<AttrArg>, key: Seq<char>) -> Option<Seq<char>>
    decreases args.len(),
{
    if args.len() == 0 {
        None
    } else {
        match args.last() {
            AttrArg::Named(k, v) => if k@ == key {
                Some(v@)
            } else {
                last_named(args.drop_last(), key)
            },
            AttrArg::Positional(_) => last_named(args.drop_last(), key),
        }
    }
}

/// Whether every argument is a named one.
pub open spec fn all_named(args: Seq<AttrArg>) -> bool {
    forall|i: int| 0 <= i < args.len() ==> args[i] is Named
}

/// The leading positional argument, if the list starts with one.
pub open spec fn first_positional(args: Seq<AttrArg>) -> Option<Seq<char>> {
    if args.len() == 0 {
        None
    } else {
        match args[0] {
            AttrArg::Positional(v) => Some(v@),
            AttrArg::Named(_, _) => None,
        }
    }
}

/// The value of an optional string, if one is held.
pub open spec fn opt_view(value: Option<String>) -> Option<Seq<char>> {
    match value {
        Some(v) => Some(v@),
        None => None,
    }
}

/// The namespace an annotation resolves to: the given one, or the root path.
pub open spec fn resolve_namespace(namespace: Option<Seq<char>>) -> Seq<char> {
    match namespace {
        Some(n) => n,
        None => "/"@,
    }
}

/// The path a shorthand annotation resolves to: the named `path` argument
/// wins; a leading positional argument stands in only when no named one is
/// given.
pub open spec fn resolved_path(args: Seq<AttrArg>) -> Option<Seq<char>> {
    match last_named(args, "path"@) {
        Some(p) => Some(p),
        None => first_positional(args),
    }
}

/// A resolution outcome as a mathematical value.
pub open spec fn mapping_result_view(resolved: Result<RouteMapping, MappingError>) -> Result<
    MappingView,
    MappingError,
> {
    match resolved {
        Ok(mapping) => Ok(mapping@),
        Err(error) => Err(error),
    }
}

/// What the unified annotation form resolves to: every argument must be
/// named, `method` must name a supported verb and `path` must be present;
/// namespace and data binding fall back to their defaults.
pub open spec fn spec_request_mapping(
    function: Seq<char>,
    args: Seq<AttrArg>,
    routes: Seq<rocket::Route>,
) -> Result<MappingView, MappingError> {
    if !all_named(args) {
        Err(MappingError::MalformedArgument)
    } else {
        match last_named(args, "method"@) {
            None => Err(MappingError::MissingMethod),
            Some(token) => match last_named(args, "path"@) {
                None => Err(MappingError::MissingPath),
                Some(path) => match spec_parse_method(token) {
                    None => Err(MappingError::UnsupportedMethod),
                    Some(method) => Ok(
                        MappingView {
                            function,
                            namespace: resolve_namespace(last_named(args, "namespace"@)),
                            method,
                            path,
                            data: last_named(args, "data"@),
                            routes,
                        },
                    ),
                },
            },
        }
    }
}

/// What a per-verb shorthand form resolves to: the verb is fixed by the
/// annotation, a path must be given by name or position, bare arguments
/// beyond a leading path are ignored.
pub open spec fn spec_http_mapping(
    method: Method,
    function: Seq<char>,
    args: Seq<AttrArg>,
    routes: Seq<rocket::Route>,
) -> Result<MappingView, MappingError> {
    match resolved_path(args) {
        None => Err(MappingError::MissingPath),
        Some(path) => Ok(
            MappingView {
                function,
                namespace: resolve_namespace(last_named(args, "namespace"@)),
                method,
                path,
                data: last_named(args, "data"@),
                routes,
            },
        ),
    }
}

/// The four recognised argument keys are pairwise distinct tokens.
proof fn lemma_distinct_keys()
    ensures
        "namespace"@ != "method"@,
        "namespace"@ != "path"@,
        "namespace"@ != "data"@,
        "method"@ != "path"@,
        "method"@ != "data"@,
        "path"@ != "data"@,
{
    reveal_strlit("namespace");
    reveal_strlit("method");
    reveal_strlit("path");
    reveal_strlit("data");
    assert("namespace"@.len() == 9);
    assert("method"@.len() == 6);
    assert("path"@.len() == 4);
    assert("data"@.len() == 4);
    assert("path"@[0] == 'p');
    assert("data"@[0] == 'd');
}

/// Reads the unified form's arguments: every argument must be named; of the
/// recognised keys the last occurrence wins; `method` and `path` are
/// required. Returns `(namespace, method, path, data)`.
fn parse_request_mapping_args(args: &Vec<AttrArg>) -> (parsed: Result<
    (Option<String>, String, String, Option<String>),
    MappingError,
>)
    ensures
        match parsed {
            Ok((namespace, method, path, data)) => {
                &&& all_named(args@)
                &&& opt_view(namespace) == last_named(args@, "namespace"@)
                &&& last_named(args@, "method"@) == Some(method@)
                &&& last_named(args@, "path"@) == Some(path@)
                &&& opt_view(data) == last_named(args@, "data"@)
            },
            Err(error) => {
                &&& error != MappingError::UnsupportedMethod
                &&& error == MappingError::MalformedArgument <==> !all_named(args@)
                &&& error == MappingError::MissingMethod <==> all_named(args@) && last_named(
                    args@,
                    "method"@,
                ) is None
                &&& error == MappingError::MissingPath <==> all_named(args@) && last_named(
                    args@,
                    "method"@,
                ) is Some && last_named(args@, "path"@) is None
            },
        },
{
    let mut namespace: Option<String> = None;
    let mut method: Option<String> = None;
    let mut path: Option<String> = None;
    let mut data: Option<String> = None;
    let mut i: usize = 0;
    while i < args.len()
        invariant
            0 <= i <= args@.len(),
            forall|j: int| 0 <= j < i ==> args@[j] is Named,
            opt_view(namespace) == last_named(args@.take(i as int), "namespace"@),
            opt_view(method) == last_named(args@.take(i as int), "method"@),
            opt_view(path) == last_named(args@.take(i as int), "path"@),
            opt_view(data) == last_named(args@.take(i as int), "data"@),
        decreases args@.len() - i,
    {
        proof {
            assert(args@.take(i + 1).drop_last() =~= args@.take(i as int));
            assert(args@.take(i + 1).last() == args@[i as int]);
            lemma_distinct_keys();
        }
        match &args[i] {
            AttrArg::Named(key, value) => {
                if *key == "namespace".to_owned() {
                    namespace = Some(value.clone());
                } else if *key == "method".to_owned() {
                    method = Some(value.clone());
                } else if *key == "path".to_owned() {
                    path = Some(value.clone());
                } else if *key == "data".to_owned() {
                    data = Some(value.clone());
                }
            },
            AttrArg::Positional(_) => {
                return Err(MappingError::MalformedArgument);
            },
        }
        i = i + 1;
    }
    proof {
        assert(args@.take(args@.len() as int) =~= args@);
    }
    let method = match method {
        Some(m) => m,
        None => {
            return Err(MappingError::MissingMethod);
        },
    };
    let path = match path {
        Some(p) => p,
        None => {
            return Err(MappingError::MissingPath);
        },
    };
    Ok((namespace, method, path, data))
}

/// Reads a shorthand form's named arguments, ignoring everything else; of
/// the recognised keys the last occurrence wins. Returns
/// `(namespace, path, data)`.
fn parse_http_mapping_named_args(args: &Vec<AttrArg>) -> (parsed: (
    Option<String>,
    Option<String>,
    Option<String>,
))
    ensures
        opt_view(parsed.0) == last_named(args@, "namespace"@),
        opt_view(parsed.1) == last_named(args@, "path"@),
        opt_view(parsed.2) == last_named(args@, "data"@),
{
    let mut namespace: Option<String> = None;
    let mut path: Option<String> = None;
    let mut data: Option<String> = None;
    let mut i: usize = 0;
    while i < args.len()
        invariant
            0 <= i <= args@.len(),
            opt_view(namespace) == last_named(args@.take(i as int), "namespace"@),
            opt_view(path) == last_named(args@.take(i as int), "path"@),
            opt_view(data) == last_named(args@.take(i as int), "data"@),
        decreases args@.len() - i,
    {
        proof {
            assert(args@.take(i + 1).drop_last() =~= args@.take(i as int));
            assert(args@.take(i + 1).last() == args@[i as int]);
            lemma_distinct_keys();
        }
        match &args[i] {
            AttrArg::Named(key, value) => {
                if *key == "namespace".to_owned() {
                    namespace = Some(value.clone());
                } else if *key == "path".to_owned() {
                    path = Some(value.clone());
                } else if *key == "data".to_owned() {
                    data = Some(value.clone());
                }
            },
            AttrArg::Positional(_) => {},
        }
        i = i + 1;
    }
    proof {
        assert(args@.take(args@.len() as int) =~= args@);
    }
    (namespace, path, data)
}

/// Reads a shorthand form's positional path: the argument list must start
/// with a bare literal.
fn parse_http_mapping_args(args: &Vec<AttrArg>) -> (path: Option<String>)
    ensures
        opt_view(path) == first_positional(args@),
{
    if args.len() == 0 {
        return None;
    }
    match &args[0] {
        AttrArg::Positional(value) => Some(value.clone()),
        AttrArg::Named(_, _) => None,
    }
}

/// Resolves the unified annotation form: named arguments drawn from
/// `namespace`, `method`, `path` and `data`, of which `method` and `path`
/// are required, applied to the named function and its compiled routes.
pub fn request_mapping(function: String, args: Vec<AttrArg>, routes: Vec<rocket::Route>) -> (resolved:
    Result<RouteMapping, MappingError>)
    ensures
        mapping_result_view(resolved) == spec_request_mapping(function@, args@, routes@),
{
    let (namespace, method_token, path, data) = match parse_request_mapping_args(&args) {
        Ok(parsed) => parsed,
        Err(error) => {
            return Err(error);
        },
    };
    let method = match Method::parse(&method_token) {
        Some(method) => method,
        None => {
            return Err(MappingError::UnsupportedMethod);
        },
    };
    let namespace = match namespace {
        Some(n) => n,
        None => "/".to_owned(),
    };
    Ok(RouteMapping { function, namespace, method, path, data, routes })
}

/// Resolves a per-verb shorthand form: the verb is fixed, the path comes by
/// name or as the leading bare literal, and namespace and data are optional.
pub fn http_mapping(
    method: Method,
    function: String,
    args: Vec<AttrArg>,
    routes: Vec<rocket::Route>,
) -> (resolved: Result<RouteMapping, MappingError>)
    ensures
        mapping_result_view(resolved) == spec_http_mapping(method, function@, args@, routes@),
{
    let (namespace, named_path, data) = parse_http_mapping_named_args(&args);
    let path = match named_path {
        Some(p) => p,
        None => match parse_http_mapping_args(&args) {
            Some(p) => p,
            None => {
                return Err(MappingError::MissingPath);
            },
        },
    };
    let namespace = match namespace {
        Some(n) => n,
        None => "/".to_owned(),
    };
    Ok(RouteMapping { function, namespace, method, path, data, routes })
}

/// Resolves a `get` shorthand annotation.
pub fn get_mapping(function: String, args: Vec<AttrArg>, routes: Vec<rocket::Route>) -> (resolved:
    Result<RouteMapping, MappingError>)
    ensures
        mapping_result_view(resolved) == spec_http_mapping(Method::Get, function@, args@, routes@),
{
    http_mapping(Method::Get, function, args, routes)
}

/// Resolves a `post` shorthand annotation.
pub fn post_mapping(function: String, args: Vec<AttrArg>, routes: Vec<rocket::Route>) -> (resolved:
    Result<RouteMapping, MappingError>)
    ensures
        mapping_result_view(resolved) == spec_http_mapping(Method::Post, function@, args@, routes@),
{
    http_mapping(Method::Post, function, args, routes)
}

/// Resolves a `put` shorthand annotation.
pub fn put_mapping(function: String, args: Vec<AttrArg>, routes: Vec<rocket::Route>) -> (resolved:
    Result<RouteMapping, MappingError>)
    ensures
        mapping_result_view(resolved) == spec_http_mapping(Method::Put, function@, args@, routes@),
{
    http_mapping(Method::Put, function, args, routes)
}

/// Resolves a `patch` shorthand annotation.
pub fn patch_mapping(function: String, args: Vec<AttrArg>, routes: Vec<rocket::Route>) -> (resolved:
    Result<RouteMapping, MappingError>)
    ensures
        mapping_result_view(resolved) == spec_http_mapping(
            Method::Patch,
            function@,
            args@,
            routes@,
        ),
{
    http_mapping(Method::Patch, function, args, routes)
}

/// Resolves a `delete` shorthand annotation.
pub fn delete_mapping(function: String, args: Vec<AttrArg>, routes: Vec<rocket::Route>) -> (resolved:
    Result<RouteMapping, MappingError>)
    ensures
        mapping_result_view(resolved) == spec_http_mapping(
            Method::Delete,
            function@,
            args@,
            routes@,
        ),
{
    http_mapping(Method::Delete, function, args, routes)
}

/// Resolves a `head` shorthand annotation.
pub fn head_mapping(function: String, args: Vec<AttrArg>, routes: Vec<rocket::Route>) -> (resolved:
    Result<RouteMapping, MappingError>)
    ensures
        mapping_result_view(resolved) == spec_http_mapping(Method::Head, function@, args@, routes@),
{
    http_mapping(Method::Head, function, args, routes)
}

impl RouteMapping {
    /// An equal record holding its own copies of the fields; records stay
    /// immutable, so the registry hands out duplicates rather than borrows.
    pub fn duplicate(&self) -> (duplicated: RouteMapping)
        ensures
            duplicated@ == self@,
    {
        RouteMapping {
            function: self.function.clone(),
            namespace: self.namespace.clone(),
            method: self.method,
            path: self.path.clone(),
            data: match &self.data {
                Some(marker) => Some(marker.clone()),
                None => None,
            },
            routes: crate::framework::clone_routes(&self.routes),
        }
    }
}

} // verus!
