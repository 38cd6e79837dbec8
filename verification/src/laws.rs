//! Laws of the instance layer.
//!
//! Properties that relate several operations, stated over the views their
//! contracts use and proved once and for all.

use vstd::prelude::*;

use crate::edge::EdgeProperties;
use crate::entity_type::EntityType;
use crate::property_map;
use crate::reactive_relation_instance::ReactiveRelationInstance;
use crate::relation_instance::RelationInstance;
use crate::relation_type::RelationType;

verus! {

/// Law: the identifier token an entity type derives is a function of its
/// name alone — two well-formed entity types with the same name carry the
/// same token value.
pub proof fn lemma_entity_type_identifier_reproducible(a: EntityType, b: EntityType)
    requires
        a.wf(),
        b.wf(),
        a.name@ == b.name@,
    ensures
        a.t.name@ == b.t.name@,
{
}

/// Law: the identifier token a relation type derives is a function of its
/// type name alone — two well-formed relation types with the same type name
/// carry the same token value.
pub proof fn lemma_relation_type_identifier_reproducible(a: RelationType, b: RelationType)
    requires
        a.wf(),
        b.wf(),
        a.ty_name@ == b.ty_name@,
    ensures
        a.t.name@ == b.t.name@,
{
}

/// Law of component and behaviour membership, over the set of applied names
/// that `add_component`, `remove_component` and `is_a` (and the behaviour
/// operations) read and write: after an add the name is a member; after a
/// remove it is not; and adding a name twice leaves the same membership as
/// adding it once.
pub proof fn lemma_component_membership(applied: Set<Seq<char>>, c: Seq<char>)
    ensures
        applied.insert(c).contains(c),
        !applied.remove(c).contains(c),
        applied.insert(c).insert(c) == applied.insert(c),
{
    assert(applied.insert(c).insert(c) =~= applied.insert(c));
}

/// Law: hydrating a persisted edge's data into a reactive instance and
/// reading it back into a snapshot preserves every property name with its
/// then-current value, the type name, and both endpoint identities.
///
/// The premises are exactly what `ReactiveRelationInstance::from` ensures of
/// a relation hydrated between endpoints carrying the edge's ids, and what
/// `to_relation_instance` ensures of the snapshot read back from it.
pub proof fn lemma_hydrate_snapshot_round_trip(
    p: EdgeProperties,
    r: ReactiveRelationInstance,
    s: RelationInstance,
)
    requires
        p.wf(),
        r.outbound.id == p.edge.outbound_id,
        r.inbound.id == p.edge.inbound_id,
        r.ty_name@ == p.edge.t.name@,
        r.prop_map() == property_map::entries_map(p.props@),
        s.outbound_id == r.outbound.id,
        s.inbound_id == r.inbound.id,
        s.ty_name@ == r.ty_name@,
        s.properties@ == r.prop_map(),
    ensures
        s.outbound_id == p.edge.outbound_id,
        s.ty_name@ == p.edge.t.name@,
        s.inbound_id == p.edge.inbound_id,
        s.properties@ == property_map::entries_map(p.props@),
{
}

} // verus!
