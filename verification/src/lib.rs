//! Reactive directed property graph: a live, in-memory instance layer over a
//! persisted directed property graph.
//!
//! Type descriptors (`EntityType`, `RelationType`) are immutable schema
//! objects.  Snapshot instances (`RelationInstance`) are plain serializable
//! values used for storage and transport.  Reactive instances
//! (`ReactiveEntityInstance`, `ReactiveRelationInstance`) are live nodes and
//! edges whose properties are independently reactive cells that can be read,
//! written with or without propagation, and re-evaluated on a tick.

pub mod cells;
pub mod edge;
pub mod entity_instance;
pub mod entity_type;
pub mod extension;
pub mod identifier;
pub mod ids;
pub mod json;
pub mod laws;
pub mod property;
pub mod property_map;
pub mod property_type;
pub mod reactive_relation_instance;
pub mod relation_instance;
pub mod relation_type;
pub mod string_set;
pub mod strings;

pub use edge::EdgeKey;
pub use edge::EdgeProperties;
pub use entity_instance::ReactiveEntityInstance;
pub use entity_type::EntityType;
pub use extension::Extension;
pub use identifier::Identifier;
pub use property::ReactivePropertyInstance;
pub use property_map::NamedProperty;
pub use property_map::PropertyMap;
pub use property_type::PropertyType;
pub use reactive_relation_instance::ReactiveRelationInstance;
pub use relation_instance::RelationInstance;
pub use relation_type::RelationType;
