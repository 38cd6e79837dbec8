//! Declared property types.
//!
//! A type descriptor declares its properties as a list of property-type
//! declarations: the property's name and the name of its data type.

use vstd::prelude::*;

use crate::strings;

verus! {

/// A property declared by an entity or relation type.
pub struct PropertyType {
    /// The name of the property.
    pub name: String,
    /// The name of the data type of the property's values.
    pub data_type: String,
}

/// Whether some declaration in the list carries the given name.
pub open spec fn declares_property(properties: Seq<PropertyType>, name: Seq<char>) -> bool {
    exists|i: int| 0 <= i < properties.len() && (#[trigger] properties[i].name@) == name
}

/// Whether the list declares a property of the given name.
pub fn properties_contain(properties: &Vec<PropertyType>, name: &str) -> (r: bool)
    ensures
        r == declares_property(properties@, name@),
{
    let mut i: usize = 0;
    while i < properties.len()
        invariant
            i <= properties@.len(),
            forall|j: int| 0 <= j < i ==> (#[trigger] properties@[j].name@) != name@,
        decreases properties@.len() - i,
    {
        if strings::str_eq(properties[i].name.as_str(), name) {
            return true;
        }
        i += 1;
    }
    false
}

} // verus!
