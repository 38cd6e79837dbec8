//! Type-specific extensions.
//!
//! A type descriptor can carry named extensions: free-form documents that
//! collaborators attach to a type definition.

use vstd::prelude::*;

use crate::strings;

verus! {

/// A named extension of an entity or relation type.
pub struct Extension {
    /// The name of the extension.
    pub name: String,
    /// The extension document.
    pub extension: serde_json::Value,
}

/// Whether some extension in the list carries the given name.
pub open spec fn has_extension_named(extensions: Seq<Extension>, name: Seq<char>) -> bool {
    exists|i: int| 0 <= i < extensions.len() && (#[trigger] extensions[i].name@) == name
}

/// Whether the list holds an extension of the given name.
pub fn extensions_contain(extensions: &Vec<Extension>, name: &str) -> (r: bool)
    ensures
        r == has_extension_named(extensions@, name@),
{
    let mut i: usize = 0;
    while i < extensions.len()
        invariant
            i <= extensions@.len(),
            forall|j: int| 0 <= j < i ==> (#[trigger] extensions@[j].name@) != name@,
        decreases extensions@.len() - i,
    {
        if strings::str_eq(extensions[i].name.as_str(), name) {
            return true;
        }
        i += 1;
    }
    false
}

} // verus!
