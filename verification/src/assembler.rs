//! The application assembler: drains the registry once and mounts every
//! registered record, in registration order, onto a fresh application.
//!
//! No record is validated here beyond what the framework's own `mount`
//! demands: duplicate or conflicting routes are the framework's concern at
//! mount or launch time, so the precondition asks only that `mount` accept
//! each record's namespace and routes, which `mount_accepted` can test.

use vstd::prelude::*;

use crate::framework::{fresh_application, mount_accepts, mount_routes, mounted, Application};
use crate::mapping::MappingView;
use crate::registry::{clean_route_mappings, mappings_view, try_acquire_route_mappings, Registry};

verus! {

/// The mounts that assembling these records performs, in order: one
/// `(namespace, routes)` entry per record.
pub open spec fn mount_plan(records: Seq<MappingView>) -> Seq<(Seq<char>, Seq<rocket::Route>)>
    decreases records.len(),
{
    if records.len() == 0 {
        Seq::empty()
    } else {
        mount_plan(records.drop_last()).push(
            (records.last().namespace, records.last().routes),
        )
    }
}

/// Whether `mount` accepts every record in the sequence.
pub open spec fn all_mountable(records: Seq<MappingView>) -> bool {
    forall|i: int|
        0 <= i < records.len() ==> #[trigger] mount_accepts(
            records[i].namespace,
            records[i].routes,
        )
}

/// Extending a record sequence extends its plan by that record's entry.
proof fn lemma_mount_plan_step(records: Seq<MappingView>, i: int)
    requires
        0 <= i < records.len(),
    ensures
        mount_plan(records.take(i + 1)) == mount_plan(records.take(i)).push(
            (records[i].namespace, records[i].routes),
        ),
{
    assert(records.take(i + 1).drop_last() =~= records.take(i));
    assert(records.take(i + 1).last() == records[i]);
}

/// Mounts every registered record onto a fresh application, in registration
/// order, then empties the registry.
fn build(registry: &mut Registry) -> (application: Application)
    requires
        all_mountable(old(registry)@),
    ensures
        final(registry)@ == Seq::<MappingView>::empty(),
        mounted(application) == mount_plan(old(registry)@),
{
    let mappings = try_acquire_route_mappings(registry);
    let mut application = fresh_application();
    proof {
        assert(old(registry)@.take(0) =~= Seq::<MappingView>::empty());
    }
    let mut i: usize = 0;
    while i < mappings.len()
        invariant
            0 <= i <= mappings@.len(),
            mappings_view(mappings@) == old(registry)@,
            all_mountable(old(registry)@),
            mounted(application) == mount_plan(old(registry)@.take(i as int)),
        decreases mappings@.len() - i,
    {
        proof {
            assert(mappings_view(mappings@)[i as int] == mappings@[i as int]@);
            lemma_mount_plan_step(old(registry)@, i as int);
        }
        let routes = crate::framework::clone_routes(&mappings[i].routes);
        application = mount_routes(application, &mappings[i].namespace, routes);
        i = i + 1;
    }
    proof {
        assert(old(registry)@.take(old(registry)@.len() as int) =~= old(registry)@);
    }
    clean_route_mappings(registry);
    application
}

/// Assembles the application for the caller to configure and launch: takes
/// the registered records, mounts each under its namespace, in registration
/// order, and leaves the registry empty. A second call without further
/// registrations therefore yields an application with nothing mounted.
pub fn app(registry: &mut Registry) -> (application: Application)
    requires
        all_mountable(old(registry)@),
    ensures
        final(registry)@ == Seq::<MappingView>::empty(),
        mounted(application) == mount_plan(old(registry)@),
{
    build(registry)
}

} // verus!
