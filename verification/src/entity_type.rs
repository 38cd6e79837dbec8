//! The entity type descriptor.

use vstd::prelude::*;

use crate::extension;
use crate::extension::Extension;
use crate::identifier::Identifier;
use crate::identifier::valid_identifier_seq;
use crate::property_type;
use crate::property_type::PropertyType;
use crate::strings;

verus! {

/// An entity type: the immutable schema object that defines a kind of entity
/// instance.
pub struct EntityType {
    /// The name of the entity type, its unique key.
    pub name: String,
    /// The group of entity types this type belongs to.
    pub group: String,
    /// Textual description of the entity type.
    pub description: String,
    /// The names of the components of the entity type.
    pub components: Vec<String>,
    /// The properties the entity type declares.
    pub properties: Vec<PropertyType>,
    /// Entity type specific extensions.
    pub extensions: Vec<Extension>,
    /// The graph identifier token derived from the name.
    pub t: Identifier,
}

impl EntityType {
    /// The identifier token is in sync with the name.
    pub open spec fn wf(self) -> bool {
        &&& self.t.wf()
        &&& self.t.name@ == self.name@
    }

    /// Builds an entity type.  The name must be encodable as a graph
    /// identifier: an unencodable name is a definition-time defect, so it is
    /// excluded rather than handled.
    pub fn new(
        name: String,
        group: String,
        description: String,
        components: Vec<String>,
        properties: Vec<PropertyType>,
        extensions: Vec<Extension>,
    ) -> (r: EntityType)
        requires
            valid_identifier_seq(name@),
        ensures
            r.wf(),
            r.name@ == name@,
            r.group@ == group@,
            r.description@ == description@,
            r.components@ == components@,
            r.properties@ == properties@,
            r.extensions@ == extensions@,
            r.t.name@ == name@,
    {
        let t = Identifier::parse(name.as_str()).unwrap();
        EntityType { name, group, description, components, properties, extensions, t }
    }

    /// Whether the entity type is composed with the component of the given
    /// name, by exact string match.
    pub fn is_a(&self, component_name: &str) -> (r: bool)
        ensures
            r == strings::contains_name(self.components@, component_name@),
    {
        strings::names_contain(&self.components, component_name)
    }

    /// Whether the entity type itself declares a property of the given name.
    /// Properties of its components are not consulted.
    pub fn has_own_property(&self, property_name: &str) -> (r: bool)
        ensures
            r == property_type::declares_property(self.properties@, property_name@),
    {
        property_type::properties_contain(&self.properties, property_name)
    }

    /// Whether the entity type carries an extension of the given name.
    pub fn has_own_extension(&self, extension_name: &str) -> (r: bool)
        ensures
            r == extension::has_extension_named(self.extensions@, extension_name@),
    {
        extension::extensions_contain(&self.extensions, extension_name)
    }
}

} // verus!
