use bimifc::model::ifc_type::IfcType;
use bimifc::model::types::{EntityId, ModelMetadata};

#[test]
fn building_elements_have_geometry() {
    for t in [
        IfcType::IfcWall,
        IfcType::IfcWallStandardCase,
        IfcType::IfcSlab,
        IfcType::IfcBeam,
        IfcType::IfcColumn,
        IfcType::IfcDoor,
        IfcType::IfcWindow,
        IfcType::IfcRoof,
        IfcType::IfcStair,
    ] {
        assert!(t.has_geometry(), "{t:?} should have geometry");
    }
}

#[test]
fn mep_elements_have_geometry() {
    for t in [
        IfcType::IfcFlowSegment,
        IfcType::IfcFlowFitting,
        IfcType::IfcEnergyConversionDevice,
        IfcType::IfcFlowTreatmentDevice,
        IfcType::IfcCableSegment,
        IfcType::IfcCableCarrierSegment,
        IfcType::IfcCableCarrierFitting,
        IfcType::IfcPipeSegment,
        IfcType::IfcPipeFitting,
        IfcType::IfcSpaceHeater,
        IfcType::IfcAirTerminal,
        IfcType::IfcLightFixture,
    ] {
        assert!(t.has_geometry(), "{t:?} should have geometry");
    }
}

#[test]
fn space_and_site_have_geometry() {
    assert!(IfcType::IfcSpace.has_geometry());
    assert!(IfcType::IfcSite.has_geometry());
    assert!(IfcType::IfcOpeningElement.has_geometry());
}

#[test]
fn non_geometric_spatial_excluded() {
    for t in [
        IfcType::IfcBuilding,
        IfcType::IfcBuildingStorey,
        IfcType::IfcFacility,
        IfcType::IfcFacilityPart,
        IfcType::IfcSpatialElement,
        IfcType::IfcSpatialStructureElement,
        IfcType::IfcBridge,
        IfcType::IfcRoad,
        IfcType::IfcRailway,
        IfcType::IfcBridgePart,
        IfcType::IfcSpatialZone,
        IfcType::IfcExternalSpatialElement,
        IfcType::IfcExternalSpatialStructureElement,
    ] {
        assert!(!t.has_geometry(), "{t:?} should NOT have geometry");
    }
}

#[test]
fn non_products_excluded() {
    for t in [
        IfcType::IfcProject,
        IfcType::IfcMaterial,
        IfcType::IfcPropertySet,
        IfcType::IfcRelAggregates,
        IfcType::IfcSurfaceStyleRendering,
        IfcType::IfcCartesianPoint,
        IfcType::IfcExtrudedAreaSolid,
    ] {
        assert!(!t.has_geometry(), "{t:?} should NOT have geometry");
    }
}

#[test]
fn is_subtype_of_walks_chain() {
    assert!(IfcType::IfcWall.is_subtype_of(IfcType::IfcBuiltElement));
    assert!(IfcType::IfcCableSegment.is_subtype_of(IfcType::IfcElement));
    assert!(IfcType::IfcCableSegment.is_subtype_of(IfcType::IfcProduct));
    assert!(IfcType::IfcWall.is_subtype_of(IfcType::IfcWall));
    assert!(!IfcType::IfcWall.is_subtype_of(IfcType::IfcDistributionElement));
    assert!(!IfcType::Unknown("FOO".into()).is_subtype_of(IfcType::IfcProduct));
}

#[test]
fn mep_concrete_types_inherit_geometry() {
    for t in [
        IfcType::IfcCableSegment,
        IfcType::IfcCableCarrierSegment,
        IfcType::IfcCableCarrierFitting,
        IfcType::IfcPipeSegment,
        IfcType::IfcPipeFitting,
        IfcType::IfcSpaceHeater,
        IfcType::IfcAirTerminal,
    ] {
        assert!(t.has_geometry(), "{t:?} should inherit geometry via parent() chain");
    }
}

#[test]
fn parse_is_case_insensitive_and_keeps_unknown_spelling() {
    assert_eq!(IfcType::parse("ifcwall"), IfcType::IfcWall);
    assert_eq!(IfcType::parse("IfcBuildingStorey"), IfcType::IfcBuildingStorey);
    assert_eq!(IfcType::parse("IFCLIGHTSOURCEGONIOMETRIC"), IfcType::IfcLightSourceGoniometric);
    assert_eq!(IfcType::parse("IfcFooBar"), IfcType::Unknown("IfcFooBar".to_string()));
    assert_eq!("ifcslab".parse::<IfcType>().unwrap(), IfcType::IfcSlab);
    // Dotless i upper-cases to ASCII I under Unicode rules.
    assert_eq!(IfcType::parse("\u{131}fcwall"), IfcType::IfcWall);
}

#[test]
fn from_upper_name_needs_upper_case() {
    assert_eq!(IfcType::from_upper_name("IFCDOOR", "IfcDoor"), IfcType::IfcDoor);
    assert_eq!(IfcType::from_upper_name("ifcdoor", "ifcdoor"), IfcType::Unknown("ifcdoor".to_string()));
}

#[test]
fn names_read_back() {
    for t in [
        IfcType::IfcWall,
        IfcType::IfcSite,
        IfcType::IfcAirTerminal,
        IfcType::IfcLightSourceAmbient,
        IfcType::IfcSlabType,
        IfcType::IfcPropertySet,
    ] {
        assert_eq!(IfcType::parse(t.name()), t);
    }
    assert_eq!(IfcType::IfcWall.name(), "IFCWALL");
    assert_eq!(IfcType::IfcPropertySet.name(), "IFCPROPERTYSET");
    assert_eq!(IfcType::IfcLightSourceAmbient.name(), "IFCLIGHTSOURCEAMBIENT");
    assert_eq!(IfcType::IfcRoot.name(), "IFCROOT");
    assert_eq!(IfcType::Unknown("FooBar".into()).name(), "FooBar");
    assert_eq!(IfcType::Unknown("IFCX".into()).name(), "IFCX");
    assert_eq!(IfcType::default().name(), "");
}

#[test]
fn parents_and_spatial() {
    assert_eq!(IfcType::IfcWallStandardCase.parent(), Some(IfcType::IfcWall));
    assert_eq!(IfcType::IfcProject.parent(), None);
    assert_eq!(IfcType::IfcRoot.parent(), None);
    assert!(IfcType::IfcProject.is_spatial());
    assert!(IfcType::IfcFacilityPart.is_spatial());
    assert!(!IfcType::IfcWall.is_spatial());
    assert!(IfcType::IfcBridge.is_subtype_of(IfcType::IfcSpatialElement));
    assert!(!IfcType::IfcProduct.is_subtype_of(IfcType::IfcWall));
}

#[test]
fn type_equality() {
    assert_eq!(IfcType::Unknown("A".into()), IfcType::Unknown("A".into()));
    assert_ne!(IfcType::Unknown("A".into()), IfcType::Unknown("B".into()));
    assert_ne!(IfcType::Unknown("IFCWALL".into()), IfcType::IfcWall);
    assert_ne!(IfcType::IfcWall, IfcType::IfcSlab);
}

#[test]
fn entity_id_conversions() {
    let id: EntityId = 123u32.into();
    assert_eq!(id, EntityId(123));
    let back: u32 = id.into();
    assert_eq!(back, 123);
    let wide: u64 = EntityId(7).into();
    assert_eq!(wide, 7);
    assert_eq!(EntityId(123).display_string(), "#123");
    assert_eq!(EntityId(0).display_string(), "#0");
    assert_eq!(EntityId(u32::MAX).display_string(), "#4294967295");
    assert_eq!(EntityId::default(), EntityId(0));
}

#[test]
fn metadata_default_is_empty() {
    let m = ModelMetadata::default();
    assert_eq!(m.schema_version, "");
    assert!(m.author.is_none());
    assert!(m.timestamp.is_none());
}
