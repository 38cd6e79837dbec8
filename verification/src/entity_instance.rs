//! The reactive entity instance.
//!
//! A live node of the graph: it owns a mapping of property name to reactive
//! cell, plus the sets of component and behaviour names applied to it.
//! Entity instances are shared: every relation instance touching an entity
//! holds a counted reference to the same live node.

use vstd::prelude::*;

use crate::cells;
use crate::property::ReactivePropertyInstance;
use crate::string_set;

verus! {

/// A reactive entity instance: a live node with reactive property cells and
/// applied component and behaviour names.
pub struct ReactiveEntityInstance {
    /// The unique id of the entity instance.
    pub id: u128,
    /// The name of the entity type.
    pub ty_name: String,
    /// Textual description of the entity instance.
    pub description: String,
    /// The reactive property cells, keyed by property name.
    pub properties: Vec<ReactivePropertyInstance>,
    /// The names of the components applied on this entity instance.
    pub components: dashmap::DashSet<String>,
    /// The names of the behaviours applied on this entity instance.
    pub behaviours: dashmap::DashSet<String>,
}

impl ReactiveEntityInstance {
    /// The property names are unique.
    pub open spec fn wf(self) -> bool {
        cells::cell_names_unique(self.properties@)
    }

    /// The mapping from property name to cached value.
    pub open spec fn prop_map(self) -> Map<Seq<char>, serde_json::Value> {
        cells::cells_map(self.properties@)
    }

    /// The names of the applied components.
    pub open spec fn components_view(self) -> Set<Seq<char>> {
        string_set::string_set_view(self.components)
    }

    /// The names of the applied behaviours.
    pub open spec fn behaviours_view(self) -> Set<Seq<char>> {
        string_set::string_set_view(self.behaviours)
    }

    /// Builds an entity instance with no properties, components or
    /// behaviours yet.
    pub fn new(id: u128, ty_name: String) -> (r: ReactiveEntityInstance)
        ensures
            r.wf(),
            r.id == id,
            r.ty_name@ == ty_name@,
            r.description@ == Seq::<char>::empty(),
            r.prop_map() == Map::<Seq<char>, serde_json::Value>::empty(),
            r.components_view() == Set::<Seq<char>>::empty(),
            r.behaviours_view() == Set::<Seq<char>>::empty(),
    {
        ReactiveEntityInstance {
            id,
            ty_name,
            description: String::new(),
            properties: Vec::new(),
            components: string_set::string_set_new(),
            behaviours: string_set::string_set_new(),
        }
    }

    /// Adds a property cell under a fresh identity, unless one of that name
    /// already exists: the first writer wins.
    pub fn add_property(&mut self, name: String, value: serde_json::Value)
        requires
            old(self).wf(),
        ensures
            final(self).wf(),
            old(self).prop_map().contains_key(name@) ==> final(self).properties@ == old(self).properties@,
            old(self).prop_map().contains_key(name@) ==> final(self).prop_map() == old(self).prop_map(),
            !old(self).prop_map().contains_key(name@) ==> final(self).prop_map() == old(self).prop_map().insert(name@, value),
            final(self).id == old(self).id,
            final(self).ty_name@ == old(self).ty_name@,
    {
        cells::cells_add(&mut self.properties, name, value);
    }

    /// The cached value of the named property, if present.
    pub fn get(&self, property_name: &str) -> (r: Option<serde_json::Value>)
        requires
            self.wf(),
        ensures
            match r {
                Some(v) => self.prop_map().contains_key(property_name@) && v == self.prop_map()[
                    property_name@
                ],
                None => !self.prop_map().contains_key(property_name@),
            },
    {
        cells::cells_get(&self.properties, property_name)
    }

    /// Writes the named property and propagates the value, if the property
    /// exists; reports whether it did.
    pub fn set(&mut self, property_name: &str, value: serde_json::Value) -> (r: bool)
        requires
            old(self).wf(),
        ensures
            final(self).wf(),
            r == old(self).prop_map().contains_key(property_name@),
            r ==> final(self).prop_map() == old(self).prop_map().insert(property_name@, value),
            !r ==> final(self).properties@ == old(self).properties@,
            !r ==> final(self).prop_map() == old(self).prop_map(),
            forall|i: int|
                0 <= i < old(self).properties@.len() && old(self).properties@[i].name@
                    == property_name@ ==> (#[trigger] final(self).properties@[i]).propagated@
                    == old(self).properties@[i].propagated@.push(value),
            final(self).id == old(self).id,
            final(self).ty_name@ == old(self).ty_name@,
    {
        cells::cells_set(&mut self.properties, property_name, value)
    }

    /// Writes the named property without propagating, if the property
    /// exists; reports whether it did.
    pub fn set_no_propagate(&mut self, property_name: &str, value: serde_json::Value) -> (r: bool)
        requires
            old(self).wf(),
        ensures
            final(self).wf(),
            r == old(self).prop_map().contains_key(property_name@),
            r ==> final(self).prop_map() == old(self).prop_map().insert(property_name@, value),
            !r ==> final(self).properties@ == old(self).properties@,
            !r ==> final(self).prop_map() == old(self).prop_map(),
            forall|i: int|
                0 <= i < old(self).properties@.len() ==> (#[trigger] final(self).properties@[i]).propagated@ == old(self).properties@[i].propagated@,
            final(self).id == old(self).id,
            final(self).ty_name@ == old(self).ty_name@,
    {
        cells::cells_set_no_propagate(&mut self.properties, property_name, value)
    }

    /// Re-evaluates every property cell once; no cached value changes.
    pub fn tick(&mut self)
        requires
            old(self).wf(),
        ensures
            final(self).wf(),
            final(self).prop_map() == old(self).prop_map(),
            final(self).properties@.len() == old(self).properties@.len(),
            forall|i: int|
                0 <= i < old(self).properties@.len() ==> (#[trigger] final(self).properties@[i]).name@ == old(self).properties@[i].name@ && final(self).properties@[i].id == old(self).properties@[i].id && final(self).properties@[i].value == old(self).properties@[i].value && final(self).properties@[i].propagated@ == old(self).properties@[i].propagated@.push(
                    old(self).properties@[i].value,
                ),
            final(self).id == old(self).id,
            final(self).ty_name@ == old(self).ty_name@,
    {
        cells::cells_tick(&mut self.properties);
    }

    /// Applies a component; re-adding a present name changes nothing.
    pub fn add_component(&mut self, component: String)
        ensures
            final(self).components_view() == old(self).components_view().insert(component@),
            final(self).behaviours == old(self).behaviours,
            final(self).properties == old(self).properties,
            final(self).id == old(self).id,
            final(self).ty_name@ == old(self).ty_name@,
    {
        string_set::string_set_insert(&mut self.components, component);
    }

    /// Removes a component; removing an absent name changes nothing.
    pub fn remove_component(&mut self, component: &str)
        ensures
            final(self).components_view() == old(self).components_view().remove(component@),
            final(self).behaviours == old(self).behaviours,
            final(self).properties == old(self).properties,
            final(self).id == old(self).id,
            final(self).ty_name@ == old(self).ty_name@,
    {
        string_set::string_set_remove(&mut self.components, component);
    }

    /// Whether the entity instance is composed with the given component.
    pub fn is_a(&self, component: &str) -> (r: bool)
        ensures
            r == self.components_view().contains(component@),
    {
        string_set::string_set_contains(&self.components, component)
    }

    /// Attaches a behaviour; re-adding a present name changes nothing.
    pub fn add_behaviour(&mut self, behaviour: String)
        ensures
            final(self).behaviours_view() == old(self).behaviours_view().insert(behaviour@),
            final(self).components == old(self).components,
            final(self).properties == old(self).properties,
            final(self).id == old(self).id,
            final(self).ty_name@ == old(self).ty_name@,
    {
        string_set::string_set_insert(&mut self.behaviours, behaviour);
    }

    /// Detaches a behaviour; removing an absent name changes nothing.
    pub fn remove_behaviour(&mut self, behaviour: &str)
        ensures
            final(self).behaviours_view() == old(self).behaviours_view().remove(behaviour@),
            final(self).components == old(self).components,
            final(self).properties == old(self).properties,
            final(self).id == old(self).id,
            final(self).ty_name@ == old(self).ty_name@,
    {
        string_set::string_set_remove(&mut self.behaviours, behaviour);
    }

    /// Whether the entity instance behaves as the given behaviour.
    pub fn behaves_as(&self, behaviour: &str) -> (r: bool)
        ensures
            r == self.behaviours_view().contains(behaviour@),
    {
        string_set::string_set_contains(&self.behaviours, behaviour)
    }
}

} // verus!
