//! The relation type descriptor.

use vstd::prelude::*;

use crate::extension;
use crate::extension::Extension;
use crate::identifier::Identifier;
use crate::identifier::valid_identifier_seq;
use crate::property_type;
use crate::property_type::PropertyType;
use crate::strings;

verus! {

/// A relation type: the immutable schema object that defines a kind of
/// relation instance, from an outbound entity type to an inbound entity type.
pub struct RelationType {
    /// The name of the outbound entity type.
    pub outbound_type: String,
    /// The name of the relation type, its unique key.
    pub ty_name: String,
    /// The full type name of the relation type.
    pub full_name: String,
    /// The name of the inbound entity type.
    pub inbound_type: String,
    /// The group of relation types this type belongs to.
    pub group: String,
    /// Textual description of the relation type.
    pub description: String,
    /// The names of the components of the relation type.
    pub components: Vec<String>,
    /// The properties the relation type declares.
    pub properties: Vec<PropertyType>,
    /// Relation type specific extensions.
    pub extensions: Vec<Extension>,
    /// The graph identifier token derived from the type name.
    pub t: Identifier,
}

impl RelationType {
    /// The identifier token is in sync with the type name.
    pub open spec fn wf(self) -> bool {
        &&& self.t.wf()
        &&& self.t.name@ == self.ty_name@
    }

    /// Builds a relation type.  The type name must be encodable as a graph
    /// identifier: an unencodable name is a definition-time defect, so it is
    /// excluded rather than handled.
    pub fn new(
        outbound_type: String,
        ty_name: String,
        inbound_type: String,
        group: String,
        description: String,
        components: Vec<String>,
        properties: Vec<PropertyType>,
        extensions: Vec<Extension>,
    ) -> (r: RelationType)
        requires
            valid_identifier_seq(ty_name@),
        ensures
            r.wf(),
            r.outbound_type@ == outbound_type@,
            r.ty_name@ == ty_name@,
            r.full_name@ == ty_name@,
            r.inbound_type@ == inbound_type@,
            r.group@ == group@,
            r.description@ == description@,
            r.components@ == components@,
            r.properties@ == properties@,
            r.extensions@ == extensions@,
            r.t.name@ == ty_name@,
    {
        let t = Identifier::parse(ty_name.as_str()).unwrap();
        let full_name = ty_name.clone();
        RelationType {
            outbound_type,
            ty_name,
            full_name,
            inbound_type,
            group,
            description,
            components,
            properties,
            extensions,
            t,
        }
    }

    /// Whether the relation type is composed with the component of the given
    /// name, by exact string match.
    pub fn is_a(&self, component_name: &str) -> (r: bool)
        ensures
            r == strings::contains_name(self.components@, component_name@),
    {
        strings::names_contain(&self.components, component_name)
    }

    /// Whether the relation type itself declares a property of the given
    /// name.  Properties of its components are not consulted.
    pub fn has_own_property(&self, property_name: &str) -> (r: bool)
        ensures
            r == property_type::declares_property(self.properties@, property_name@),
    {
        property_type::properties_contain(&self.properties, property_name)
    }

    /// Whether the relation type carries an extension of the given name.
    pub fn has_own_extension(&self, extension_name: &str) -> (r: bool)
        ensures
            r == extension::has_extension_named(self.extensions@, extension_name@),
    {
        extension::extensions_contain(&self.extensions, extension_name)
    }
}

} // verus!
