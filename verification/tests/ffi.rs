use bimifc::ffi::{EntityRecord, IfcError, IfcModel, IfcWriter, Property, PropertySet};
use bimifc::model::ifc_type::IfcType;
use bimifc::model::types::ModelMetadata;

fn record(id: u32, ifc_type: IfcType, name: Option<&str>, storey: Option<u32>) -> EntityRecord {
    EntityRecord {
        id,
        ifc_type,
        global_id: Some(format!("guid-{id}")),
        name: name.map(|n| n.to_string()),
        description: None,
        object_type: None,
        tag: None,
        storey,
        property_sets: Vec::new(),
    }
}

fn sample_model() -> IfcModel {
    let mut meta = ModelMetadata::default();
    meta.schema_version = "IFC4".to_string();
    meta.author = Some("Ada".to_string());
    let mut wall = record(10, IfcType::IfcWall, Some("Wall-01"), Some(2));
    wall.property_sets.push(PropertySet {
        name: "Pset_WallCommon".to_string(),
        properties: vec![Property {
            name: "IsExternal".to_string(),
            value: "true".to_string(),
            unit: None,
        }],
    });
    let entities = vec![
        record(1, IfcType::IfcProject, Some("Project"), None),
        record(2, IfcType::IfcBuildingStorey, Some("Level 1"), None),
        wall,
        record(11, IfcType::IfcWall, None, Some(2)),
        record(12, IfcType::IfcDoor, Some("D1"), Some(2)),
        record(13, IfcType::Unknown("IFCFOO".to_string()), None, None),
    ];
    IfcModel::from_entities(meta, entities).expect("ids are unique")
}

#[test]
fn duplicate_ids_are_refused() {
    let entities = vec![
        record(1, IfcType::IfcWall, None, None),
        record(1, IfcType::IfcDoor, None, None),
    ];
    assert!(IfcModel::from_entities(ModelMetadata::default(), entities).is_none());
}

#[test]
fn header_and_counts() {
    let m = sample_model();
    assert_eq!(m.schema_version(), "IFC4");
    assert_eq!(m.metadata().author, Some("Ada".to_string()));
    assert_eq!(m.metadata().file_name, None);
    assert_eq!(m.entity_count(), 6);
    assert_eq!(m.all_entity_ids(), vec![1, 2, 10, 11, 12, 13]);
}

#[test]
fn entity_lookup() {
    let m = sample_model();
    let info = m.get_entity(10).expect("wall exists");
    assert_eq!(info.id, 10);
    assert_eq!(info.ifc_type, "IFCWALL");
    assert!(info.has_geometry);
    assert!(!info.is_spatial);
    let storey = m.get_entity(2).expect("storey exists");
    assert!(storey.is_spatial);
    assert!(!storey.has_geometry);
    assert!(m.get_entity(99).is_none());
}

#[test]
fn count_by_type_parses_case_insensitively() {
    let m = sample_model();
    assert_eq!(m.count_by_type("IfcWall"), 2);
    assert_eq!(m.count_by_type("ifcwall"), 2);
    assert_eq!(m.count_by_type("IFCDOOR"), 1);
    assert_eq!(m.count_by_type("IFCFOO"), 1);
    assert_eq!(m.count_by_type("IfcSlab"), 0);
}

#[test]
fn entities_by_type_lists_what_count_counts() {
    let m = sample_model();
    assert_eq!(m.entities_by_type("ifcwall"), vec![10, 11]);
    assert_eq!(m.entities_by_type("IfcWall"), vec![10, 11]);
    assert_eq!(m.entities_by_type("IFCFOO"), vec![13]);
    assert!(m.entities_by_type("ifcfoo").is_empty());
    assert!(m.entities_by_type("IfcSlab").is_empty());
    assert_eq!(m.entities_by_type("IfcDoor").len() as u32, m.count_by_type("IfcDoor"));
}

#[test]
fn string_attributes() {
    let m = sample_model();
    assert_eq!(m.entity_name(10), Some("Wall-01".to_string()));
    assert_eq!(m.entity_name(11), None);
    assert_eq!(m.entity_global_id(12), Some("guid-12".to_string()));
    assert_eq!(m.entity_description(12), None);
    assert_eq!(m.entity_object_type(12), None);
    assert_eq!(m.entity_tag(12), None);
    assert_eq!(m.entity_name(99), None);
}

#[test]
fn property_sets_are_copied() {
    let m = sample_model();
    let sets = m.property_sets(10);
    assert_eq!(sets.len(), 1);
    assert_eq!(sets[0].name, "Pset_WallCommon");
    assert_eq!(sets[0].properties.len(), 1);
    assert_eq!(sets[0].properties[0].name, "IsExternal");
    assert_eq!(sets[0].properties[0].value, "true");
    assert!(m.property_sets(11).is_empty());
    assert!(m.property_sets(99).is_empty());
}

#[test]
fn property_lookup_by_name() {
    let m = sample_model();
    let p = m.get_property(10, "IsExternal").expect("property exists");
    assert_eq!(p.value, "true");
    assert_eq!(p.unit, None);
    assert!(m.get_property(10, "isexternal").is_none());
    assert!(m.get_property(11, "IsExternal").is_none());
    assert!(m.get_property(99, "IsExternal").is_none());
}

#[test]
fn storey_containment() {
    let m = sample_model();
    assert_eq!(m.containing_storey(10), Some(2));
    assert_eq!(m.containing_storey(1), None);
    assert_eq!(m.elements_in_storey(2), vec![10, 11, 12]);
    assert!(m.elements_in_storey(10).is_empty());
}

#[test]
fn geometry_ids_skip_non_products_and_non_geometric_spatial() {
    let m = sample_model();
    assert_eq!(m.all_geometry_ids(), vec![10, 11, 12]);
}

#[test]
fn type_statistics_sorted_by_count() {
    let m = sample_model();
    let stats = m.type_statistics();
    assert_eq!(stats.len(), 5);
    assert_eq!(stats[0].ifc_type, "IFCWALL");
    assert_eq!(stats[0].count, 2);
    for s in &stats[1..] {
        assert_eq!(s.count, 1);
    }
    let total: u32 = stats.iter().map(|s| s.count).sum();
    assert_eq!(total, 6);
    let mut names: Vec<String> = stats.iter().map(|s| s.ifc_type.clone()).collect();
    names.sort();
    assert_eq!(names, vec!["IFCBUILDINGSTOREY", "IFCDOOR", "IFCFOO", "IFCPROJECT", "IFCWALL"]);
}

#[test]
fn error_messages() {
    assert_eq!(
        IfcError::ParseError { message: "bad header".to_string() }.message(),
        "Parse error: bad header"
    );
    assert_eq!(
        IfcError::IoError { message: "missing".to_string() }.message(),
        "IO error: missing"
    );
    assert_eq!(IfcError::EntityNotFound { id: 42 }.message(), "Entity not found: #42");
}

#[test]
fn writer_handle() {
    let _ = IfcWriter::new();
}
