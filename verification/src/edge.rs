//! Edge identity and persisted edge data.
//!
//! An edge in the persisted graph is addressed by a composite key: the id of
//! the outbound vertex, the type identifier, and the id of the inbound
//! vertex.  The storage collaborator supplies persisted edges as an edge key
//! together with the edge's named property values.

use vstd::prelude::*;

use crate::identifier::Identifier;
use crate::property_map;
use crate::property_map::NamedProperty;

verus! {

/// The composite key of an edge: outbound id, type identifier, inbound id.
pub struct EdgeKey {
    /// The id of the outbound vertex.
    pub outbound_id: u128,
    /// The type of the edge.
    pub t: Identifier,
    /// The id of the inbound vertex.
    pub inbound_id: u128,
}

impl EdgeKey {
    /// The type identifier is valid.
    pub open spec fn wf(self) -> bool {
        self.t.wf()
    }
}

/// A persisted edge's data, as the storage collaborator hands it out: the
/// edge key and the stored named property values.
pub struct EdgeProperties {
    /// The key of the edge.
    pub edge: EdgeKey,
    /// The stored property values, one per property name.
    pub props: Vec<NamedProperty>,
}

impl EdgeProperties {
    /// The key is valid and the stored property names are unique.
    pub open spec fn wf(self) -> bool {
        &&& self.edge.wf()
        &&& property_map::names_unique(self.props@)
    }
}

} // verus!
