use std::sync::Arc;

use reactive_graph::EdgeKey;
use reactive_graph::EdgeProperties;
use reactive_graph::EntityType;
use reactive_graph::Extension;
use reactive_graph::Identifier;
use reactive_graph::NamedProperty;
use reactive_graph::PropertyMap;
use reactive_graph::PropertyType;
use reactive_graph::ReactiveEntityInstance;
use reactive_graph::ReactiveRelationInstance;
use reactive_graph::RelationInstance;
use reactive_graph::RelationType;
use serde_json::Value;

fn entity(id: u128, ty: &str) -> Arc<ReactiveEntityInstance> {
    Arc::new(ReactiveEntityInstance::new(id, ty.to_string()))
}

fn weight_map(value: Value) -> PropertyMap {
    let mut properties = PropertyMap::new();
    properties.insert("weight".to_string(), value);
    properties
}

#[test]
fn entity_type_name_and_identifier_reproducible() {
    let a = EntityType::new(
        "camera".to_string(),
        "cameras".to_string(),
        "a camera".to_string(),
        vec!["positionable".to_string()],
        vec![],
        vec![],
    );
    assert_eq!(a.name, "camera");
    assert_eq!(a.t.name, "camera");
    let b = EntityType::new(
        "camera".to_string(),
        "other_group".to_string(),
        "another description".to_string(),
        vec![],
        vec![],
        vec![],
    );
    assert_eq!(a.t.name, b.t.name);
}

#[test]
fn relation_type_full_name_and_identifier() {
    let t = RelationType::new(
        "player".to_string(),
        "current_camera".to_string(),
        "camera".to_string(),
        "cameras".to_string(),
        "the current camera of a player".to_string(),
        vec![],
        vec![],
        vec![],
    );
    assert_eq!(t.ty_name, "current_camera");
    assert_eq!(t.full_name, "current_camera");
    assert_eq!(t.t.name, "current_camera");
    assert_eq!(t.outbound_type, "player");
    assert_eq!(t.inbound_type, "camera");
}

#[test]
fn type_component_membership() {
    let t = EntityType::new(
        "camera".to_string(),
        String::new(),
        String::new(),
        vec!["positionable".to_string(), "named".to_string()],
        vec![],
        vec![],
    );
    assert!(t.is_a("positionable"));
    assert!(t.is_a("named"));
    assert!(!t.is_a("positionable_x"));
    assert!(!t.is_a(""));
}

#[test]
fn has_own_property_exact_match() {
    let t = EntityType::new(
        "camera".to_string(),
        String::new(),
        String::new(),
        vec![],
        vec![
            PropertyType { name: "x".to_string(), data_type: "number".to_string() },
            PropertyType { name: "y".to_string(), data_type: "number".to_string() },
        ],
        vec![],
    );
    assert!(t.has_own_property("x"));
    assert!(t.has_own_property("y"));
    assert!(!t.has_own_property("z"));
}

#[test]
fn has_own_extension_exact_match() {
    let t = RelationType::new(
        "a".to_string(),
        "connects".to_string(),
        "b".to_string(),
        String::new(),
        String::new(),
        vec![],
        vec![],
        vec![Extension { name: "shape".to_string(), extension: Value::Null }],
    );
    assert!(t.has_own_extension("shape"));
    assert!(!t.has_own_extension("color"));
}

#[test]
fn identifier_rules() {
    assert!(Identifier::parse("Connector").is_some());
    assert!(Identifier::parse("a-b_C9").is_some());
    assert!(Identifier::parse("").is_none());
    assert!(Identifier::parse("white space").is_none());
    assert!(Identifier::parse("dollar$").is_none());
    let longest: String = std::iter::repeat('x').take(255).collect();
    assert!(Identifier::parse(longest.as_str()).is_some());
    let too_long: String = std::iter::repeat('x').take(256).collect();
    assert!(Identifier::parse(too_long.as_str()).is_none());
}

#[test]
fn property_map_insert_get_set() {
    let mut m = PropertyMap::new();
    assert!(!m.contains("x"));
    assert_eq!(m.get("x"), None);
    m.insert("x".to_string(), Value::from(1u64));
    assert!(m.contains("x"));
    assert_eq!(m.get("x"), Some(Value::from(1u64)));
    m.insert("x".to_string(), Value::from(2u64));
    assert_eq!(m.get("x"), Some(Value::from(2u64)));
    assert!(m.set("x", Value::from(3u64)));
    assert_eq!(m.get("x"), Some(Value::from(3u64)));
    assert!(!m.set("missing", Value::from(4u64)));
    assert_eq!(m.get("missing"), None);
}

#[test]
fn snapshot_new_and_getters() {
    let mut properties = PropertyMap::new();
    properties.insert("flag".to_string(), Value::Bool(true));
    properties.insert("count".to_string(), Value::from(7u64));
    properties.insert("offset".to_string(), Value::from(-4i64));
    properties.insert("label".to_string(), Value::String("edge".to_string()));
    let instance = RelationInstance::new(1, "connects".to_string(), 2, properties);
    assert_eq!(instance.outbound_id, 1);
    assert_eq!(instance.ty_name, "connects");
    assert_eq!(instance.inbound_id, 2);
    assert_eq!(instance.description, "");
    assert_eq!(instance.as_bool("flag"), Some(true));
    assert_eq!(instance.as_u64("count"), Some(7));
    assert_eq!(instance.as_i64("offset"), Some(-4));
    assert_eq!(instance.as_string("label"), Some("edge".to_string()));
    assert_eq!(instance.get("missing"), None);
    assert_eq!(instance.as_bool("label"), None);
    assert_eq!(instance.as_u64("flag"), None);
}

#[test]
fn snapshot_set_reports_absence() {
    let mut properties = PropertyMap::new();
    properties.insert("x".to_string(), Value::from(1u64));
    let mut instance = RelationInstance::new(1, "connects".to_string(), 2, properties);
    assert!(instance.set("x", Value::from(9u64)));
    assert_eq!(instance.get("x"), Some(Value::from(9u64)));
    assert!(!instance.set("y", Value::from(9u64)));
    assert_eq!(instance.get("y"), None);
}

#[test]
fn snapshot_get_key_components() {
    let instance = RelationInstance::new(10, "Connector".to_string(), 20, PropertyMap::new());
    let key = instance.get_key().unwrap();
    assert_eq!(key.outbound_id, 10);
    assert_eq!(key.t.name, "Connector");
    assert_eq!(key.inbound_id, 20);
}

#[test]
fn snapshot_get_key_absent_on_invalid_name() {
    let empty = RelationInstance::new(1, String::new(), 2, PropertyMap::new());
    assert!(empty.get_key().is_none());
    let bad = RelationInstance::new(1, "no spaces allowed".to_string(), 2, PropertyMap::new());
    assert!(bad.get_key().is_none());
}

#[test]
fn snapshot_from_edge_properties_verbatim() {
    let p = EdgeProperties {
        edge: EdgeKey {
            outbound_id: 3,
            t: Identifier::parse("likes").unwrap(),
            inbound_id: 4,
        },
        props: vec![
            NamedProperty { name: "since".to_string(), value: Value::from(2019u64) },
            NamedProperty { name: "extra".to_string(), value: Value::String("kept".to_string()) },
        ],
    };
    let instance = RelationInstance::from_edge_properties(p);
    assert_eq!(instance.outbound_id, 3);
    assert_eq!(instance.ty_name, "likes");
    assert_eq!(instance.inbound_id, 4);
    assert_eq!(instance.description, "");
    assert_eq!(instance.get("since"), Some(Value::from(2019u64)));
    assert_eq!(instance.get("extra"), Some(Value::String("kept".to_string())));
}

#[test]
fn hydrate_and_snapshot_round_trip() {
    let outbound = entity(100, "player");
    let inbound = entity(200, "camera");
    let p = EdgeProperties {
        edge: EdgeKey {
            outbound_id: 100,
            t: Identifier::parse("current_camera").unwrap(),
            inbound_id: 200,
        },
        props: vec![
            NamedProperty { name: "priority".to_string(), value: Value::from(5u64) },
            NamedProperty { name: "active".to_string(), value: Value::Bool(false) },
        ],
    };
    let relation = ReactiveRelationInstance::from(outbound, inbound, p);
    let snapshot = relation.to_relation_instance();
    assert_eq!(snapshot.outbound_id, 100);
    assert_eq!(snapshot.ty_name, "current_camera");
    assert_eq!(snapshot.inbound_id, 200);
    assert_eq!(snapshot.get("priority"), Some(Value::from(5u64)));
    assert_eq!(snapshot.get("active"), Some(Value::Bool(false)));
    assert_eq!(snapshot.get("other"), None);
}

#[test]
fn from_instance_takes_fields_verbatim() {
    let mut properties = PropertyMap::new();
    properties.insert("w".to_string(), Value::from(2u64));
    let mut snapshot = RelationInstance::new(1, "connects".to_string(), 2, properties);
    snapshot.description = "a described edge".to_string();
    let relation = ReactiveRelationInstance::from_instance(
        entity(1, "a"),
        entity(2, "b"),
        snapshot,
    );
    assert_eq!(relation.ty_name, "connects");
    assert_eq!(relation.description, "a described edge");
    assert_eq!(relation.get("w"), Some(Value::from(2u64)));
    assert!(!relation.is_a("anything"));
    assert!(!relation.behaves_as("anything"));
}

#[test]
fn reactive_component_membership() {
    let mut relation = ReactiveRelationInstance::create_with_properties(
        entity(1, "a"),
        "connects".to_string(),
        entity(2, "b"),
        PropertyMap::new(),
    );
    relation.add_component("flow".to_string());
    assert!(relation.is_a("flow"));
    relation.add_component("flow".to_string());
    assert!(relation.is_a("flow"));
    relation.remove_component("flow");
    assert!(!relation.is_a("flow"));
    relation.remove_component("flow");
    assert!(!relation.is_a("flow"));
}

#[test]
fn behaviours_independent_of_components() {
    let mut relation = ReactiveRelationInstance::create_with_properties(
        entity(1, "a"),
        "connects".to_string(),
        entity(2, "b"),
        PropertyMap::new(),
    );
    relation.add_behaviour("propagate".to_string());
    assert!(relation.behaves_as("propagate"));
    assert!(!relation.is_a("propagate"));
    relation.add_component("grouped".to_string());
    assert!(!relation.behaves_as("grouped"));
    relation.remove_behaviour("propagate");
    assert!(!relation.behaves_as("propagate"));
}

#[test]
fn reactive_get_key_components() {
    let relation = ReactiveRelationInstance::create_with_properties(
        entity(7, "a"),
        "Connector".to_string(),
        entity(8, "b"),
        PropertyMap::new(),
    );
    let key = relation.get_key().unwrap();
    assert_eq!(key.outbound_id, 7);
    assert_eq!(key.t.name, "Connector");
    assert_eq!(key.inbound_id, 8);
}

#[test]
fn reactive_get_key_absent_on_invalid_name() {
    let empty_name = ReactiveRelationInstance::create_with_properties(
        entity(7, "a"),
        String::new(),
        entity(8, "b"),
        PropertyMap::new(),
    );
    assert!(empty_name.get_key().is_none());
    let bad_name = ReactiveRelationInstance::create_with_properties(
        entity(7, "a"),
        "no/slash".to_string(),
        entity(8, "b"),
        PropertyMap::new(),
    );
    assert!(bad_name.get_key().is_none());
}

#[test]
fn tick_does_not_mutate_untouched_scalar_cells() {
    let mut relation = ReactiveRelationInstance::create_with_properties(
        entity(1, "a"),
        "Connector".to_string(),
        entity(2, "b"),
        weight_map(Value::from(1.5f64)),
    );
    relation.tick();
    assert_eq!(relation.get("weight"), Some(Value::from(1.5f64)));
    relation.tick();
    assert_eq!(relation.get("weight"), Some(Value::from(1.5f64)));
}

#[test]
fn tick_propagates_each_cached_value_once() {
    let mut relation = ReactiveRelationInstance::create_with_properties(
        entity(1, "a"),
        "connects".to_string(),
        entity(2, "b"),
        weight_map(Value::from(1u64)),
    );
    assert_eq!(relation.properties[0].propagated, Vec::<Value>::new());
    relation.tick();
    assert_eq!(relation.properties[0].propagated, vec![Value::from(1u64)]);
    relation.tick();
    assert_eq!(
        relation.properties[0].propagated,
        vec![Value::from(1u64), Value::from(1u64)]
    );
}

#[test]
fn set_propagates_and_set_no_propagate_does_not() {
    let mut relation = ReactiveRelationInstance::create_with_properties(
        entity(1, "a"),
        "connects".to_string(),
        entity(2, "b"),
        weight_map(Value::from(1u64)),
    );
    assert!(relation.set_no_propagate("weight", Value::from(2u64)));
    assert_eq!(relation.get("weight"), Some(Value::from(2u64)));
    assert_eq!(relation.properties[0].propagated, Vec::<Value>::new());
    assert!(relation.set("weight", Value::from(3u64)));
    assert_eq!(relation.get("weight"), Some(Value::from(3u64)));
    assert_eq!(relation.properties[0].propagated, vec![Value::from(3u64)]);
}

#[test]
fn setting_absent_property_is_a_recoverable_no_op() {
    let mut relation = ReactiveRelationInstance::create_with_properties(
        entity(1, "a"),
        "connects".to_string(),
        entity(2, "b"),
        PropertyMap::new(),
    );
    assert!(!relation.set("missing", Value::from(1u64)));
    assert!(!relation.set_no_propagate("missing", Value::from(1u64)));
    assert_eq!(relation.get("missing"), None);
}

#[test]
fn add_property_first_writer_wins() {
    let mut relation = ReactiveRelationInstance::create_with_properties(
        entity(1, "a"),
        "connects".to_string(),
        entity(2, "b"),
        PropertyMap::new(),
    );
    relation.add_property("x".to_string(), Value::from(1u64));
    assert_eq!(relation.get("x"), Some(Value::from(1u64)));
    relation.add_property("x".to_string(), Value::from(2u64));
    assert_eq!(relation.get("x"), Some(Value::from(1u64)));
}

#[test]
fn fresh_cells_have_distinct_identities() {
    let mut relation = ReactiveRelationInstance::create_with_properties(
        entity(1, "a"),
        "connects".to_string(),
        entity(2, "b"),
        PropertyMap::new(),
    );
    relation.add_property("x".to_string(), Value::from(1u64));
    relation.add_property("y".to_string(), Value::from(2u64));
    assert_ne!(relation.properties[0].id, relation.properties[1].id);
}

#[test]
fn reactive_coercing_getters() {
    let mut properties = PropertyMap::new();
    properties.insert("flag".to_string(), Value::Bool(true));
    properties.insert("count".to_string(), Value::from(7u64));
    properties.insert("offset".to_string(), Value::from(-4i64));
    properties.insert("label".to_string(), Value::String("edge".to_string()));
    properties.insert(
        "list".to_string(),
        Value::Array(vec![Value::from(1u64), Value::from(2u64)]),
    );
    let relation = ReactiveRelationInstance::create_with_properties(
        entity(1, "a"),
        "connects".to_string(),
        entity(2, "b"),
        properties,
    );
    assert_eq!(relation.as_bool("flag"), Some(true));
    assert_eq!(relation.as_u64("count"), Some(7));
    assert_eq!(relation.as_i64("offset"), Some(-4));
    assert_eq!(relation.as_string("label"), Some("edge".to_string()));
    assert_eq!(
        relation.as_array("list"),
        Some(vec![Value::from(1u64), Value::from(2u64)])
    );
    assert_eq!(relation.as_object("flag"), None);
    assert_eq!(relation.as_bool("missing"), None);
    assert_eq!(relation.as_u64("label"), None);
}

#[test]
fn entity_instance_mirrors_relation_operations() {
    let mut e = ReactiveEntityInstance::new(42, "player".to_string());
    assert_eq!(e.id, 42);
    assert_eq!(e.ty_name, "player");
    e.add_property("health".to_string(), Value::from(100u64));
    assert_eq!(e.get("health"), Some(Value::from(100u64)));
    assert!(e.set("health", Value::from(90u64)));
    assert_eq!(e.get("health"), Some(Value::from(90u64)));
    assert!(e.set_no_propagate("health", Value::from(80u64)));
    assert_eq!(e.get("health"), Some(Value::from(80u64)));
    e.tick();
    assert_eq!(e.get("health"), Some(Value::from(80u64)));
    e.add_component("mortal".to_string());
    assert!(e.is_a("mortal"));
    e.remove_component("mortal");
    assert!(!e.is_a("mortal"));
    e.add_behaviour("regenerate".to_string());
    assert!(e.behaves_as("regenerate"));
    e.remove_behaviour("regenerate");
    assert!(!e.behaves_as("regenerate"));
}
