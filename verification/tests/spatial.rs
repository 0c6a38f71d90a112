use bimifc::model::attribute::{AttributeValue, DecodedEntity};
use bimifc::model::ifc_type::IfcType;
use bimifc::model::types::EntityId;
use bimifc::spatial::{node_kind, spatial_label_for, spatial_label_of, SpatialKind};

fn named(ty: IfcType, name: Option<&str>) -> DecodedEntity {
    DecodedEntity {
        id: EntityId(1),
        ifc_type: ty,
        attributes: vec![
            AttributeValue::String("guid".to_string()),
            AttributeValue::Null,
            match name {
                Some(n) => AttributeValue::String(n.to_string()),
                None => AttributeValue::Null,
            },
        ],
    }
}

#[test]
fn node_kinds() {
    assert_eq!(node_kind("IfcProject"), SpatialKind::Project);
    assert_eq!(node_kind("IFCSITE"), SpatialKind::Site);
    assert_eq!(node_kind("ifcbuilding"), SpatialKind::Building);
    assert_eq!(node_kind("IfcBuildingStorey"), SpatialKind::Storey);
    assert_eq!(node_kind("IfcSpace"), SpatialKind::Space);
    assert_eq!(node_kind("IfcWall"), SpatialKind::Element);
}

#[test]
fn entry_names_and_defaults() {
    assert_eq!(spatial_label_for("IFCPROJECT", "IFCPROJECT", 1, None), Some("Project".to_string()));
    assert_eq!(spatial_label_for("IFCSITE", "IFCSITE", 2, Some("Campus")), Some("Campus".to_string()));
    assert_eq!(spatial_label_for("IFCBUILDING", "IfcBuilding", 3, None), Some("Building".to_string()));
    assert_eq!(spatial_label_for("IFCBUILDINGSTOREY", "IFCBUILDINGSTOREY", 42, None), Some("Storey #42".to_string()));
    assert_eq!(spatial_label_for("IFCSPACE", "IFCSPACE", 7, None), Some("Space #7".to_string()));
    assert_eq!(spatial_label_for("IFCLIGHTFIXTURE", "IfcLightFixture", 9, None), Some("IfcLightFixture #9".to_string()));
    assert_eq!(spatial_label_for("IFCELEMENTASSEMBLY", "IFCELEMENTASSEMBLY", 5, Some("Panel")), Some("Panel".to_string()));
    assert_eq!(spatial_label_for("IFCWALL", "IFCWALL", 5, Some("W")), None);
}

#[test]
fn entry_names_from_decoded_entities() {
    assert_eq!(spatial_label_of("IfcBuildingStorey", 12, &named(IfcType::IfcBuildingStorey, Some("Level 1"))), Some("Level 1".to_string()));
    assert_eq!(spatial_label_of("IFCBUILDINGSTOREY", 12, &named(IfcType::IfcBuildingStorey, None)), Some("Storey #12".to_string()));
    assert_eq!(spatial_label_of("IfcSlab", 12, &named(IfcType::IfcSlab, Some("S"))), None);
}
