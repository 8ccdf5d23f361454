//! The boundary to the Rocket web framework: the declaration of the route
//! type that records carry, the opaque application under assembly, and the
//! trusted calls the assembler makes.
//!
//! A building application is modelled as the sequence of `(base, routes)`
//! mounts performed on it, named by `mounted`. The framework's `mount` panics
//! on a base that does not parse as an origin URI, and on a route that cannot
//! be rebased under the parsed base; `base_accepts` and `route_rebases` name
//! those two conditions, and `mount_accepted` tests them without mounting.

use vstd::prelude::*;

verus! {

/// Declares `rocket::Route`, the framework-native compiled route that a
/// record carries; opaque here, produced and consumed only by the framework.
#[verifier::external_type_specification]
#[verifier::external_body]
pub struct ExRoute(rocket::Route);

/// A building Rocket application together with everything mounted on it so
/// far. Held opaquely: verified code reads it only through `mounted`, while
/// unverified callers take the framework-native value out of the field to
/// attach fairings and launch it.
#[verifier::external_body]
pub struct Application {
    pub rocket: rocket::Rocket<rocket::Build>,
}

/// The mounts performed so far on a building application, oldest first:
/// each entry is the base path and the route list handed to one `mount` call.
pub uninterp spec fn mounted(application: Application) -> Seq<(Seq<char>, Seq<rocket::Route>)>;

/// Whether the framework parses this base as an origin URI; `mount` panics on
/// a base for which this is false. A function of the base alone.
pub uninterp spec fn base_accepts(base: Seq<char>) -> bool;

/// Whether this route can be rebased under this base; `mount` panics on a
/// route for which this is false. A function of the two arguments alone.
pub uninterp spec fn route_rebases(base: Seq<char>, route: rocket::Route) -> bool;

/// Whether the framework's `mount` accepts this base path and route list,
/// that is, returns normally instead of panicking.
pub open spec fn mount_accepts(base: Seq<char>, routes: Seq<rocket::Route>) -> bool {
    &&& base_accepts(base)
    &&& forall|i: int| 0 <= i < routes.len() ==> route_rebases(base, #[trigger] routes[i])
}

/// Relies on `rocket::http::uri::Origin::parse`: the check `mount` performs
/// on its base before mounting anything under it.
#[verifier::external_body]
pub(crate) fn base_accepted(base: &String) -> (ok: bool)
    ensures
        ok == base_accepts(base@),
{
    rocket::http::uri::Origin::parse(base.as_str()).is_ok()
}

/// Relies on `rocket::http::uri::Origin::parse`, `Origin::clear_query` and
/// `rocket::Route::map_base`: the per-route rebasing that `mount` performs,
/// step for step, with the success reported instead of the mounted route.
#[verifier::external_body]
pub(crate) fn route_rebase_accepted(base: &String, route: &rocket::Route) -> (ok: bool)
    ensures
        ok == route_rebases(base@, *route),
{
    match rocket::http::uri::Origin::parse(base.as_str()) {
        Ok(mut origin) => {
            origin.clear_query();
            route.clone().map_base(|old_base| format!("{}{}", origin, old_base)).is_ok()
        }
        Err(_) => false,
    }
}

/// Tests whether `mount` would accept this base path and route list, without
/// mounting anything: true exactly when a `mount` call would return normally.
pub fn mount_accepted(base: &String, routes: &Vec<rocket::Route>) -> (ok: bool)
    ensures
        ok == mount_accepts(base@, routes@),
{
    if !base_accepted(base) {
        return false;
    }
    let mut checked: usize = 0;
    while checked < routes.len()
        invariant
            0 <= checked <= routes@.len(),
            base_accepts(base@),
            forall|i: int| 0 <= i < checked ==> route_rebases(base@, #[trigger] routes@[i]),
        decreases routes@.len() - checked,
    {
        if !route_rebase_accepted(base, &routes[checked]) {
            return false;
        }
        checked = checked + 1;
    }
    true
}

/// Relies on `rocket::build`: a fresh application builder with no mounts.
#[verifier::external_body]
pub(crate) fn fresh_application() -> (application: Application)
    ensures
        mounted(application) == Seq::<(Seq<char>, Seq<rocket::Route>)>::empty(),
{
    Application { rocket: rocket::build() }
}

/// Relies on `rocket::Rocket::<Build>::mount`: appends the given routes under
/// the given base, and returns normally exactly when the base parses and all
/// the routes rebase (otherwise it panics, which the precondition rules out).
#[verifier::external_body]
pub(crate) fn mount_routes(
    application: Application,
    base: &String,
    routes: Vec<rocket::Route>,
) -> (mounted_application: Application)
    requires
        mount_accepts(base@, routes@),
    ensures
        mounted(mounted_application) == mounted(application).push((base@, routes@)),
{
    Application { rocket: application.rocket.mount(base.as_str(), routes) }
}

/// Relies on `<Vec<rocket::Route> as Clone>::clone`: the derived clone of a
/// route list is equivalent, route for route, to the original.
#[verifier::external_body]
pub(crate) fn clone_routes(routes: &Vec<rocket::Route>) -> (cloned: Vec<rocket::Route>)
    ensures
        cloned@ == routes@,
{
    routes.clone()
}

} // verus!
