//! The laws the library states of annotation resolution and assembly, proved
//! once and for all inputs.

use vstd::prelude::*;

use crate::assembler::mount_plan;
use crate::mapping::{
    all_named, last_named, resolved_path, spec_http_mapping, spec_request_mapping, AttrArg,
    MappingView,
};
use crate::method::{spec_parse_method, Method};

verus! {

/// Law: a unified annotation carrying a supported verb token and a path
/// resolves to exactly one record whose method and path equal the inputs,
/// whose namespace is the given one or the root path when none is given, and
/// whose data binding is exactly the supplied marker, or absent when none is
/// supplied — never a placeholder.
pub proof fn lemma_unified_resolution(
    function: Seq<char>,
    args: Seq<AttrArg>,
    routes: Seq<rocket::Route>,
    method: Method,
)
    requires
        all_named(args),
        last_named(args, "method"@) is Some,
        spec_parse_method(last_named(args, "method"@).unwrap()) == Some(method),
        last_named(args, "path"@) is Some,
    ensures
        spec_request_mapping(function, args, routes) matches Ok(record) && {
            &&& record.function == function
            &&& record.method == method
            &&& record.path == last_named(args, "path"@).unwrap()
            &&& last_named(args, "namespace"@) is None ==> record.namespace == "/"@
            &&& last_named(args, "namespace"@) is Some ==> record.namespace == last_named(
                args,
                "namespace"@,
            ).unwrap()
            &&& record.data == last_named(args, "data"@)
            &&& record.routes == routes
        },
{
}

/// Law: a shorthand annotation giving a path, by name or by position,
/// resolves to exactly one record whose method is the annotation's verb and
/// whose path, namespace and data binding resolve as in the unified form.
pub proof fn lemma_shorthand_resolution(
    method: Method,
    function: Seq<char>,
    args: Seq<AttrArg>,
    routes: Seq<rocket::Route>,
)
    requires
        resolved_path(args) is Some,
    ensures
        spec_http_mapping(method, function, args, routes) matches Ok(record) && {
            &&& record.function == function
            &&& record.method == method
            &&& record.path == resolved_path(args).unwrap()
            &&& last_named(args, "namespace"@) is None ==> record.namespace == "/"@
            &&& last_named(args, "namespace"@) is Some ==> record.namespace == last_named(
                args,
                "namespace"@,
            ).unwrap()
            &&& record.data == last_named(args, "data"@)
            &&& record.routes == routes
        },
{
}

/// Law: a unified annotation that omits the method or the path never
/// resolves to a record: the failure is an error, not a silent default.
pub proof fn lemma_unified_missing_required_rejected(
    function: Seq<char>,
    args: Seq<AttrArg>,
    routes: Seq<rocket::Route>,
)
    requires
        last_named(args, "method"@) is None || last_named(args, "path"@) is None,
    ensures
        spec_request_mapping(function, args, routes) is Err,
{
}

/// Law: a shorthand annotation that omits the path, both by name and by
/// position, never resolves to a record.
pub proof fn lemma_shorthand_missing_path_rejected(
    method: Method,
    function: Seq<char>,
    args: Seq<AttrArg>,
    routes: Seq<rocket::Route>,
)
    requires
        resolved_path(args) is None,
    ensures
        spec_http_mapping(method, function, args, routes) is Err,
{
}

/// Law: assembling N registered records mounts exactly their
/// namespace-to-routes groupings — one entry per record, in order, nothing
/// else.
pub proof fn lemma_mount_plan_exact(records: Seq<MappingView>)
    ensures
        mount_plan(records).len() == records.len(),
        forall|i: int|
            0 <= i < records.len() ==> #[trigger] mount_plan(records)[i] == (
                records[i].namespace,
                records[i].routes,
            ),
    decreases records.len(),
{
    if records.len() > 0 {
        lemma_mount_plan_exact(records.drop_last());
        assert forall|i: int| 0 <= i < records.len() implies #[trigger] mount_plan(records)[i]
            == (records[i].namespace, records[i].routes) by {
            if i < records.len() - 1 {
                assert(records.drop_last()[i] == records[i]);
            }
        }
    }
}

/// Law: assembling a batch of records equals assembling its parts one after
/// the other — grouping registrations changes nothing.
pub proof fn lemma_mount_plan_additive(first: Seq<MappingView>, second: Seq<MappingView>)
    ensures
        mount_plan(first + second) == mount_plan(first) + mount_plan(second),
    decreases second.len(),
{
    if second.len() == 0 {
        assert(first + second =~= first);
        assert(mount_plan(first) + mount_plan(second) =~= mount_plan(first));
    } else {
        lemma_mount_plan_additive(first, second.drop_last());
        assert((first + second).drop_last() =~= first + second.drop_last());
        assert((first + second).last() == second.last());
        assert(mount_plan(first) + mount_plan(second) =~= (mount_plan(first) + mount_plan(
            second.drop_last(),
        )).push((second.last().namespace, second.last().routes)));
    }
}

/// Law: two records registered under the same namespace with distinct paths
/// are both mounted — each contributes its own entry to the assembly plan.
pub proof fn lemma_same_namespace_both_mounted(records: Seq<MappingView>, i: int, j: int)
    requires
        0 <= i < records.len(),
        0 <= j < records.len(),
        i != j,
        records[i].namespace == records[j].namespace,
        records[i].path != records[j].path,
    ensures
        mount_plan(records).contains((records[i].namespace, records[i].routes)),
        mount_plan(records).contains((records[j].namespace, records[j].routes)),
{
    lemma_mount_plan_exact(records);
    assert(mount_plan(records)[i] == (records[i].namespace, records[i].routes));
    assert(mount_plan(records)[j] == (records[j].namespace, records[j].routes));
}

} // verus!
