//! The snapshot relation instance.
//!
//! A relation instance is an edge from an outbound entity instance to an
//! inbound entity instance.  This is its plain, serializable form: endpoint
//! ids, the relation type name, a description, and a flat mapping of property
//! name to value.  It is the wire and storage format; the live form is
//! `ReactiveRelationInstance`.

use vstd::prelude::*;

use crate::edge::EdgeKey;
use crate::edge::EdgeProperties;
use crate::identifier::Identifier;
use crate::identifier::valid_identifier_seq;
use crate::property_map::PropertyMap;

verus! {

/// A snapshot of a relation instance: a plain value holding the endpoint
/// ids, the type name, a description, and the property values.
pub struct RelationInstance {
    /// The id of the outbound vertex.
    pub outbound_id: u128,
    /// The name of the relation type.
    pub ty_name: String,
    /// The id of the inbound vertex.
    pub inbound_id: u128,
    /// Textual description of the relation instance.
    pub description: String,
    /// The properties of the relation instance.
    pub properties: PropertyMap,
}

impl RelationInstance {
    /// The property names are unique.
    pub open spec fn wf(self) -> bool {
        self.properties.wf()
    }

    /// Builds a snapshot from its parts.  The description starts empty.
    pub fn new(
        outbound_id: u128,
        ty_name: String,
        inbound_id: u128,
        properties: PropertyMap,
    ) -> (r: RelationInstance)
        requires
            properties.wf(),
        ensures
            r.wf(),
            r.outbound_id == outbound_id,
            r.ty_name@ == ty_name@,
            r.inbound_id == inbound_id,
            r.description@ == Seq::<char>::empty(),
            r.properties@ == properties@,
    {
        RelationInstance { outbound_id, ty_name, inbound_id, description: String::new(), properties }
    }

    /// Materializes a snapshot from a persisted edge's data: every stored
    /// property becomes a map entry verbatim, and the type name is the edge
    /// key's identifier.
    pub fn from_edge_properties(p: EdgeProperties) -> (r: RelationInstance)
        requires
            p.wf(),
        ensures
            r.wf(),
            r.outbound_id == p.edge.outbound_id,
            r.ty_name@ == p.edge.t.name@,
            r.inbound_id == p.edge.inbound_id,
            r.description@ == Seq::<char>::empty(),
            r.properties@ == crate::property_map::entries_map(p.props@),
    {
        RelationInstance {
            outbound_id: p.edge.outbound_id,
            ty_name: p.edge.t.name,
            inbound_id: p.edge.inbound_id,
            description: String::new(),
            properties: PropertyMap { entries: p.props },
        }
    }

    /// Derives the edge key of this instance: the type name parsed as a
    /// graph identifier between the endpoint ids.  The key is advisory: when
    /// the type name is not a valid identifier the result is absent, not an
    /// error.
    pub fn get_key(&self) -> (r: Option<EdgeKey>)
        ensures
            r is Some <==> valid_identifier_seq(self.ty_name@),
            r matches Some(k) ==> k.wf() && k.outbound_id == self.outbound_id && k.t.name@
                == self.ty_name@ && k.inbound_id == self.inbound_id,
    {
        match Identifier::parse(self.ty_name.as_str()) {
            Some(t) => Some(
                EdgeKey { outbound_id: self.outbound_id, t, inbound_id: self.inbound_id },
            ),
            None => None,
        }
    }

    /// The value of the named property, if present.
    pub fn get(&self, property_name: &str) -> (r: Option<serde_json::Value>)
        requires
            self.wf(),
        ensures
            match r {
                Some(v) => self.properties@.contains_key(property_name@) && v
                    == self.properties@[property_name@],
                None => !self.properties@.contains_key(property_name@),
            },
    {
        self.properties.get(property_name)
    }

    /// The named property coerced to a boolean; absent name or failed
    /// coercion both yield an absent result, which callers cannot tell
    /// apart through this interface.
    pub fn as_bool(&self, property_name: &str) -> (r: Option<bool>)
        requires
            self.wf(),
        ensures
            !self.properties@.contains_key(property_name@) ==> r is None,
            self.properties@.contains_key(property_name@) ==> r == crate::json::value_as_bool(
                self.properties@[property_name@],
            ),
    {
        match self.properties.get(property_name) {
            Some(v) => v.as_bool(),
            None => None,
        }
    }

    /// The named property coerced to an unsigned integer; absent name or
    /// failed coercion both yield an absent result, which callers cannot
    /// tell apart through this interface.
    pub fn as_u64(&self, property_name: &str) -> (r: Option<u64>)
        requires
            self.wf(),
        ensures
            !self.properties@.contains_key(property_name@) ==> r is None,
            self.properties@.contains_key(property_name@) ==> r == crate::json::value_as_u64(
                self.properties@[property_name@],
            ),
    {
        match self.properties.get(property_name) {
            Some(v) => v.as_u64(),
            None => None,
        }
    }

    /// The named property coerced to a signed integer; absent name or failed
    /// coercion both yield an absent result, which callers cannot tell
    /// apart through this interface.
    pub fn as_i64(&self, property_name: &str) -> (r: Option<i64>)
        requires
            self.wf(),
        ensures
            !self.properties@.contains_key(property_name@) ==> r is None,
            self.properties@.contains_key(property_name@) ==> r == crate::json::value_as_i64(
                self.properties@[property_name@],
            ),
    {
        match self.properties.get(property_name) {
            Some(v) => v.as_i64(),
            None => None,
        }
    }

    /// The named property's string content; absent name or failed coercion
    /// both yield an absent result, which callers cannot tell apart through
    /// this interface.
    pub fn as_string(&self, property_name: &str) -> (r: Option<String>)
        requires
            self.wf(),
        ensures
            !self.properties@.contains_key(property_name@) ==> r is None,
            self.properties@.contains_key(property_name@) ==> match r {
                Some(s) => crate::json::value_as_str(self.properties@[property_name@]) == Some(s@),
                None => crate::json::value_as_str(self.properties@[property_name@]) is None,
            },
    {
        match self.properties.get(property_name) {
            Some(v) => match v.as_str() {
                Some(s) => Some(crate::strings::str_to_owned(s)),
                None => None,
            },
            None => None,
        }
    }

    /// Writes the named property if it is present; reports whether it was.
    /// Writing an undeclared property changes nothing and returns false, a
    /// recoverable signal for the caller.
    pub fn set(&mut self, property_name: &str, value: serde_json::Value) -> (r: bool)
        requires
            old(self).wf(),
        ensures
            final(self).wf(),
            r == old(self).properties@.contains_key(property_name@),
            r ==> final(self).properties@ == old(self).properties@.insert(property_name@, value),
            !r ==> final(self).properties@ == old(self).properties@,
            final(self).outbound_id == old(self).outbound_id,
            final(self).ty_name@ == old(self).ty_name@,
            final(self).inbound_id == old(self).inbound_id,
            final(self).description@ == old(self).description@,
    {
        self.properties.set(property_name, value)
    }
}

} // verus!
