//! The reactive relation instance.
//!
//! A live edge of the directed property graph, pointing from an outbound
//! entity instance to an inbound entity instance.  The relation owns a
//! mapping of property name to reactive cell, and the sets of component and
//! behaviour names applied to it.  Endpoints are shared: the relation holds
//! counted references and never owns its endpoints exclusively.

use std::sync::Arc;

use vstd::prelude::*;

use crate::cells;
use crate::edge::EdgeKey;
use crate::edge::EdgeProperties;
use crate::entity_instance::ReactiveEntityInstance;
use crate::identifier::Identifier;
use crate::identifier::valid_identifier_seq;
use crate::property::ReactivePropertyInstance;
use crate::property_map;
use crate::property_map::PropertyMap;
use crate::relation_instance::RelationInstance;
use crate::string_set;

verus! {

/// A reactive relation instance: a live edge with reactive property cells
/// and applied component and behaviour names.
pub struct ReactiveRelationInstance {
    /// The outbound entity instance, shared with every other holder.
    pub outbound: Arc<ReactiveEntityInstance>,
    /// The name of the relation type.
    pub ty_name: String,
    /// The inbound entity instance, shared with every other holder.
    pub inbound: Arc<ReactiveEntityInstance>,
    /// An optional description of the relation.
    pub description: String,
    /// The reactive property cells, keyed by property name.
    pub properties: Vec<ReactivePropertyInstance>,
    /// The names of the components applied on this relation instance.
    pub components: dashmap::DashSet<String>,
    /// The names of the behaviours applied on this relation instance.
    pub behaviours: dashmap::DashSet<String>,
}

impl ReactiveRelationInstance {
    /// The property names are unique.
    pub open spec fn wf(self) -> bool {
        cells::cell_names_unique(self.properties@)
    }

    /// The mapping from property name to cached value.
    pub open spec fn prop_map(self) -> Map<Seq<char>, serde_json::Value> {
        cells::cells_map(self.properties@)
    }

    /// The names of the applied components.
    pub open spec fn components_view(self) -> Set<Seq<char>> {
        string_set::string_set_view(self.components)
    }

    /// The names of the applied behaviours.
    pub open spec fn behaviours_view(self) -> Set<Seq<char>> {
        string_set::string_set_view(self.behaviours)
    }

    /// Hydrates a relation from a persisted edge's data: the type name is
    /// the edge key's identifier, and every stored property value is wrapped
    /// in a fresh reactive cell keyed by its name.  Components and behaviours
    /// start empty.
    pub fn from(
        outbound: Arc<ReactiveEntityInstance>,
        inbound: Arc<ReactiveEntityInstance>,
        properties: EdgeProperties,
    ) -> (r: ReactiveRelationInstance)
        requires
            properties.wf(),
        ensures
            r.wf(),
            r.outbound == outbound,
            r.ty_name@ == properties.edge.t.name@,
            r.inbound == inbound,
            r.description@ == Seq::<char>::empty(),
            r.prop_map() == property_map::entries_map(properties.props@),
            r.components_view() == Set::<Seq<char>>::empty(),
            r.behaviours_view() == Set::<Seq<char>>::empty(),
            forall|i: int|
                0 <= i < r.properties@.len() ==> (#[trigger] r.properties@[i].propagated@)
                    == Seq::<serde_json::Value>::empty(),
    {
        let cells = cells::cells_from_entries(properties.props);
        ReactiveRelationInstance {
            outbound,
            ty_name: properties.edge.t.name,
            inbound,
            description: String::new(),
            properties: cells,
            components: string_set::string_set_new(),
            behaviours: string_set::string_set_new(),
        }
    }

    /// Hydrates a relation from a snapshot instance: type name, description
    /// and properties are taken verbatim, each property value wrapped in a
    /// fresh reactive cell.  Components and behaviours start empty.
    pub fn from_instance(
        outbound: Arc<ReactiveEntityInstance>,
        inbound: Arc<ReactiveEntityInstance>,
        instance: RelationInstance,
    ) -> (r: ReactiveRelationInstance)
        requires
            instance.wf(),
        ensures
            r.wf(),
            r.outbound == outbound,
            r.ty_name@ == instance.ty_name@,
            r.inbound == inbound,
            r.description@ == instance.description@,
            r.prop_map() == instance.properties@,
            r.components_view() == Set::<Seq<char>>::empty(),
            r.behaviours_view() == Set::<Seq<char>>::empty(),
            forall|i: int|
                0 <= i < r.properties@.len() ==> (#[trigger] r.properties@[i].propagated@)
                    == Seq::<serde_json::Value>::empty(),
    {
        let cells = cells::cells_from_entries(instance.properties.entries);
        ReactiveRelationInstance {
            outbound,
            ty_name: instance.ty_name,
            inbound,
            description: instance.description,
            properties: cells,
            components: string_set::string_set_new(),
            behaviours: string_set::string_set_new(),
        }
    }

    /// Builds a relation from its parts: each property value is wrapped in a
    /// fresh reactive cell.  The description starts empty; components and
    /// behaviours start empty.
    pub fn create_with_properties(
        outbound: Arc<ReactiveEntityInstance>,
        ty_name: String,
        inbound: Arc<ReactiveEntityInstance>,
        properties: PropertyMap,
    ) -> (r: ReactiveRelationInstance)
        requires
            properties.wf(),
        ensures
            r.wf(),
            r.outbound == outbound,
            r.ty_name@ == ty_name@,
            r.inbound == inbound,
            r.description@ == Seq::<char>::empty(),
            r.prop_map() == properties@,
            r.components_view() == Set::<Seq<char>>::empty(),
            r.behaviours_view() == Set::<Seq<char>>::empty(),
            forall|i: int|
                0 <= i < r.properties@.len() ==> (#[trigger] r.properties@[i].propagated@)
                    == Seq::<serde_json::Value>::empty(),
    {
        let cells = cells::cells_from_entries(properties.entries);
        ReactiveRelationInstance {
            outbound,
            ty_name,
            inbound,
            description: String::new(),
            properties: cells,
            components: string_set::string_set_new(),
            behaviours: string_set::string_set_new(),
        }
    }

    /// Derives the edge key of the live instance: the current type name
    /// parsed as a graph identifier between the endpoint ids.  Absent when
    /// the type name is not a valid identifier.
    pub fn get_key(&self) -> (r: Option<EdgeKey>)
        ensures
            r is Some <==> valid_identifier_seq(self.ty_name@),
            r matches Some(k) ==> k.wf() && k.outbound_id == self.outbound.id && k.t.name@
                == self.ty_name@ && k.inbound_id == self.inbound.id,
    {
        match Identifier::parse(self.ty_name.as_str()) {
            Some(t) => Some(
                EdgeKey { outbound_id: self.outbound.id, t, inbound_id: self.inbound.id },
            ),
            None => None,
        }
    }

    /// Re-evaluates every property cell once: each cell propagates its
    /// cached value again; no cached value changes.
    pub fn tick(&mut self)
        requires
            old(self).wf(),
        ensures
            final(self).wf(),
            final(self).prop_map() == old(self).prop_map(),
            final(self).properties@.len() == old(self).properties@.len(),
            forall|i: int|
                0 <= i < old(self).properties@.len() ==> (#[trigger] final(self).properties@[i]).name@ == old(self).properties@[i].name@ && final(self).properties@[i].id == old(self).properties@[i].id && final(self).properties@[i].value == old(self).properties@[i].value && final(self).properties@[i].propagated@ == old(self).properties@[i].propagated@.push(
                    old(self).properties@[i].value,
                ),
            final(self).outbound == old(self).outbound,
            final(self).ty_name@ == old(self).ty_name@,
            final(self).inbound == old(self).inbound,
            final(self).description@ == old(self).description@,
            final(self).components == old(self).components,
            final(self).behaviours == old(self).behaviours,
    {
        cells::cells_tick(&mut self.properties);
    }

    /// Adds a property cell under a fresh identity, unless one of that name
    /// already exists: the first writer wins, never an overwrite.
    pub fn add_property(&mut self, name: String, value: serde_json::Value)
        requires
            old(self).wf(),
        ensures
            final(self).wf(),
            old(self).prop_map().contains_key(name@) ==> final(self).properties@ == old(self).properties@,
            old(self).prop_map().contains_key(name@) ==> final(self).prop_map() == old(self).prop_map(),
            !old(self).prop_map().contains_key(name@) ==> final(self).prop_map() == old(self).prop_map().insert(name@, value),
            final(self).outbound == old(self).outbound,
            final(self).ty_name@ == old(self).ty_name@,
            final(self).inbound == old(self).inbound,
            final(self).description@ == old(self).description@,
            final(self).components == old(self).components,
            final(self).behaviours == old(self).behaviours,
    {
        cells::cells_add(&mut self.properties, name, value);
    }

    /// Applies a component; re-adding a present name changes nothing.
    pub fn add_component(&mut self, component: String)
        ensures
            final(self).components_view() == old(self).components_view().insert(component@),
            final(self).behaviours == old(self).behaviours,
            final(self).properties == old(self).properties,
            final(self).outbound == old(self).outbound,
            final(self).ty_name@ == old(self).ty_name@,
            final(self).inbound == old(self).inbound,
            final(self).description@ == old(self).description@,
    {
        string_set::string_set_insert(&mut self.components, component);
    }

    /// Removes a component; removing an absent name changes nothing.
    pub fn remove_component(&mut self, component: &str)
        ensures
            final(self).components_view() == old(self).components_view().remove(component@),
            final(self).behaviours == old(self).behaviours,
            final(self).properties == old(self).properties,
            final(self).outbound == old(self).outbound,
            final(self).ty_name@ == old(self).ty_name@,
            final(self).inbound == old(self).inbound,
            final(self).description@ == old(self).description@,
    {
        string_set::string_set_remove(&mut self.components, component);
    }

    /// Whether the relation instance is composed with the given component.
    pub fn is_a(&self, component: &str) -> (r: bool)
        ensures
            r == self.components_view().contains(component@),
    {
        string_set::string_set_contains(&self.components, component)
    }

    /// Attaches a behaviour; re-adding a present name changes nothing.
    /// Behaviours and components are independent dimensions of composition.
    pub fn add_behaviour(&mut self, behaviour: String)
        ensures
            final(self).behaviours_view() == old(self).behaviours_view().insert(behaviour@),
            final(self).components == old(self).components,
            final(self).properties == old(self).properties,
            final(self).outbound == old(self).outbound,
            final(self).ty_name@ == old(self).ty_name@,
            final(self).inbound == old(self).inbound,
            final(self).description@ == old(self).description@,
    {
        string_set::string_set_insert(&mut self.behaviours, behaviour);
    }

    /// Detaches a behaviour; removing an absent name changes nothing.
    pub fn remove_behaviour(&mut self, behaviour: &str)
        ensures
            final(self).behaviours_view() == old(self).behaviours_view().remove(behaviour@),
            final(self).components == old(self).components,
            final(self).properties == old(self).properties,
            final(self).outbound == old(self).outbound,
            final(self).ty_name@ == old(self).ty_name@,
            final(self).inbound == old(self).inbound,
            final(self).description@ == old(self).description@,
    {
        string_set::string_set_remove(&mut self.behaviours, behaviour);
    }

    /// Whether the relation instance behaves as the given behaviour.
    pub fn behaves_as(&self, behaviour: &str) -> (r: bool)
        ensures
            r == self.behaviours_view().contains(behaviour@),
    {
        string_set::string_set_contains(&self.behaviours, behaviour)
    }

    /// The cached value of the named property, if present.
    pub fn get(&self, property_name: &str) -> (r: Option<serde_json::Value>)
        requires
            self.wf(),
        ensures
            match r {
                Some(v) => self.prop_map().contains_key(property_name@) && v == self.prop_map()[
                    property_name@
                ],
                None => !self.prop_map().contains_key(property_name@),
            },
    {
        cells::cells_get(&self.properties, property_name)
    }

    /// The named property coerced to a boolean; absent name or failed
    /// coercion both yield an absent result.
    pub fn as_bool(&self, property_name: &str) -> (r: Option<bool>)
        requires
            self.wf(),
        ensures
            !self.prop_map().contains_key(property_name@) ==> r is None,
            self.prop_map().contains_key(property_name@) ==> r == crate::json::value_as_bool(
                self.prop_map()[property_name@],
            ),
    {
        match cells::cells_find(&self.properties, property_name) {
            Some(i) => self.properties[i].as_bool(),
            None => None,
        }
    }

    /// The named property coerced to an unsigned integer; absent name or
    /// failed coercion both yield an absent result.
    pub fn as_u64(&self, property_name: &str) -> (r: Option<u64>)
        requires
            self.wf(),
        ensures
            !self.prop_map().contains_key(property_name@) ==> r is None,
            self.prop_map().contains_key(property_name@) ==> r == crate::json::value_as_u64(
                self.prop_map()[property_name@],
            ),
    {
        match cells::cells_find(&self.properties, property_name) {
            Some(i) => self.properties[i].as_u64(),
            None => None,
        }
    }

    /// The named property coerced to a signed integer; absent name or failed
    /// coercion both yield an absent result.
    pub fn as_i64(&self, property_name: &str) -> (r: Option<i64>)
        requires
            self.wf(),
        ensures
            !self.prop_map().contains_key(property_name@) ==> r is None,
            self.prop_map().contains_key(property_name@) ==> r == crate::json::value_as_i64(
                self.prop_map()[property_name@],
            ),
    {
        match cells::cells_find(&self.properties, property_name) {
            Some(i) => self.properties[i].as_i64(),
            None => None,
        }
    }

    /// The named property's string content; absent name or failed coercion
    /// both yield an absent result.
    pub fn as_string(&self, property_name: &str) -> (r: Option<String>)
        requires
            self.wf(),
        ensures
            !self.prop_map().contains_key(property_name@) ==> r is None,
            self.prop_map().contains_key(property_name@) ==> match r {
                Some(s) => crate::json::value_as_str(self.prop_map()[property_name@]) == Some(s@),
                None => crate::json::value_as_str(self.prop_map()[property_name@]) is None,
            },
    {
        match cells::cells_find(&self.properties, property_name) {
            Some(i) => self.properties[i].as_string(),
            None => None,
        }
    }

    /// The named property's elements, if it is an array; absent name or
    /// failed coercion both yield an absent result.
    pub fn as_array(&self, property_name: &str) -> (r: Option<Vec<serde_json::Value>>)
        requires
            self.wf(),
        ensures
            !self.prop_map().contains_key(property_name@) ==> r is None,
            self.prop_map().contains_key(property_name@) ==> match r {
                Some(a) => crate::json::value_as_array(self.prop_map()[property_name@]) == Some(
                    a@,
                ),
                None => crate::json::value_as_array(self.prop_map()[property_name@]) is None,
            },
    {
        match cells::cells_find(&self.properties, property_name) {
            Some(i) => self.properties[i].as_array(),
            None => None,
        }
    }

    /// The named property's members, if it is an object; absent name or
    /// failed coercion both yield an absent result.
    pub fn as_object(&self, property_name: &str) -> (r: Option<
        serde_json::Map<String, serde_json::Value>,
    >)
        requires
            self.wf(),
        ensures
            !self.prop_map().contains_key(property_name@) ==> r is None,
            self.prop_map().contains_key(property_name@) ==> match r {
                Some(m) => crate::json::value_as_object(self.prop_map()[property_name@]) == Some(
                    m,
                ),
                None => crate::json::value_as_object(self.prop_map()[property_name@]) is None,
            },
    {
        match cells::cells_find(&self.properties, property_name) {
            Some(i) => self.properties[i].as_object(),
            None => None,
        }
    }

    /// Writes the named property and propagates the value to the property's
    /// dependents, if the property exists; reports whether it did.  Writing
    /// an absent property changes nothing and returns false, a recoverable
    /// signal for the caller.
    pub fn set(&mut self, property_name: &str, value: serde_json::Value) -> (r: bool)
        requires
            old(self).wf(),
        ensures
            final(self).wf(),
            r == old(self).prop_map().contains_key(property_name@),
            r ==> final(self).prop_map() == old(self).prop_map().insert(property_name@, value),
            !r ==> final(self).properties@ == old(self).properties@,
            forall|i: int|
                0 <= i < old(self).properties@.len() && old(self).properties@[i].name@
                    != property_name@ ==> (#[trigger] final(self).properties@[i]) == old(self).properties@[i],
            forall|i: int|
                0 <= i < old(self).properties@.len() && old(self).properties@[i].name@
                    == property_name@ ==> (#[trigger] final(self).properties@[i]).propagated@
                    == old(self).properties@[i].propagated@.push(value),
            final(self).outbound == old(self).outbound,
            final(self).ty_name@ == old(self).ty_name@,
            final(self).inbound == old(self).inbound,
            final(self).description@ == old(self).description@,
            final(self).components == old(self).components,
            final(self).behaviours == old(self).behaviours,
    {
        cells::cells_set(&mut self.properties, property_name, value)
    }

    /// Writes the named property without propagating: the cached value
    /// changes, but no dependent sees the write.  Reports whether the
    /// property existed; writing an absent property changes nothing.
    pub fn set_no_propagate(&mut self, property_name: &str, value: serde_json::Value) -> (r: bool)
        requires
            old(self).wf(),
        ensures
            final(self).wf(),
            r == old(self).prop_map().contains_key(property_name@),
            r ==> final(self).prop_map() == old(self).prop_map().insert(property_name@, value),
            !r ==> final(self).properties@ == old(self).properties@,
            final(self).properties@.len() == old(self).properties@.len(),
            forall|i: int|
                0 <= i < old(self).properties@.len() ==> (#[trigger] final(self).properties@[i]).propagated@ == old(self).properties@[i].propagated@,
            final(self).outbound == old(self).outbound,
            final(self).ty_name@ == old(self).ty_name@,
            final(self).inbound == old(self).inbound,
            final(self).description@ == old(self).description@,
            final(self).components == old(self).components,
            final(self).behaviours == old(self).behaviours,
    {
        cells::cells_set_no_propagate(&mut self.properties, property_name, value)
    }

    /// Reads the live instance back into its snapshot form: every cell's
    /// name and current cached value, the current type name, description and
    /// endpoint ids.  The cells are read, not re-evaluated.
    pub fn to_relation_instance(&self) -> (r: RelationInstance)
        requires
            self.wf(),
        ensures
            r.wf(),
            r.outbound_id == self.outbound.id,
            r.ty_name@ == self.ty_name@,
            r.inbound_id == self.inbound.id,
            r.description@ == self.description@,
            r.properties@ == self.prop_map(),
    {
        let entries = cells::cells_to_entries(&self.properties);
        RelationInstance {
            outbound_id: self.outbound.id,
            ty_name: self.ty_name.clone(),
            inbound_id: self.inbound.id,
            description: self.description.clone(),
            properties: PropertyMap { entries },
        }
    }
}

} // verus!
