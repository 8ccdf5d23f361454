//! The route registry: the ordered sequence of records registered during
//! start-up, drained once by the assembler.
//!
//! The registry is an explicit value handed to the registration calls and to
//! the assembler; exclusive access during mutation is carried by the `&mut`
//! borrow, so no lock stands between a caller and the sequence. Records are
//! immutable once inserted: the registry only appends, copies and clears.

use vstd::prelude::*;

use crate::mapping::{MappingView, RouteMapping};

verus! {

/// The value of a record sequence, record by record.
pub open spec fn mappings_view(mappings: Seq<RouteMapping>) -> Seq<MappingView> {
    mappings.map_values(|mapping: RouteMapping| mapping@)
}

/// The ordered sequence of route records registered so far.
pub struct Registry {
    records: Vec<RouteMapping>,
}

impl View for Registry {
    type V = Seq<MappingView>;

    closed spec fn view(&self) -> Seq<MappingView> {
        mappings_view(self.records@)
    }
}

impl Registry {
    /// An empty registry, as each process starts with.
    pub fn new() -> (registry: Registry)
        ensures
            registry@ == Seq::<MappingView>::empty(),
    {
        let registry = Registry { records: Vec::new() };
        proof {
            assert(registry@ =~= Seq::<MappingView>::empty());
        }
        registry
    }
}

/// Appends one record to the registry. Registration never rejects a record:
/// duplicates are permitted, and conflicts are the framework's concern.
pub fn register_route_mapping(registry: &mut Registry, mapping: RouteMapping)
    ensures
        final(registry)@ == old(registry)@.push(mapping@),
{
    let ghost before = registry.records@;
    registry.records.push(mapping);
    proof {
        assert(mappings_view(registry.records@) =~= mappings_view(before).push(
            registry.records@.last()@,
        ));
    }
}

/// A copy of the current contents, record for record, clearing nothing.
pub fn try_acquire_route_mappings(registry: &Registry) -> (mappings: Vec<RouteMapping>)
    ensures
        mappings_view(mappings@) == registry@,
{
    let mut mappings: Vec<RouteMapping> = Vec::new();
    let mut i: usize = 0;
    while i < registry.records.len()
        invariant
            0 <= i <= registry.records@.len(),
            mappings_view(mappings@) == mappings_view(registry.records@).take(i as int),
        decreases registry.records@.len() - i,
    {
        let ghost before = mappings@;
        mappings.push(registry.records[i].duplicate());
        proof {
            assert(mappings_view(mappings@) =~= mappings_view(before).push(
                registry.records@[i as int]@,
            ));
            assert(mappings_view(registry.records@).take(i + 1) =~= mappings_view(
                registry.records@,
            ).take(i as int).push(registry.records@[i as int]@));
        }
        i = i + 1;
    }
    proof {
        assert(mappings_view(registry.records@).take(registry.records@.len() as int)
            =~= mappings_view(registry.records@));
    }
    mappings
}

/// Empties the registry; emptying an empty registry is a no-op.
pub fn clean_route_mappings(registry: &mut Registry)
    ensures
        final(registry)@ == Seq::<MappingView>::empty(),
{
    registry.records.clear();
    proof {
        assert(mappings_view(registry.records@) =~= Seq::<MappingView>::empty());
    }
}

} // verus!
