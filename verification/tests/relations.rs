use bimifc::model::attribute::{AttributeValue, DecodedEntity};
use bimifc::model::ifc_type::IfcType;
use bimifc::model::types::EntityId;
use bimifc::relations::RelationIndex;

fn r(id: u32) -> AttributeValue {
    AttributeValue::EntityRef(EntityId(id))
}

fn list(ids: &[u32]) -> AttributeValue {
    AttributeValue::List(ids.iter().map(|i| r(*i)).collect())
}

/// A relationship entity: GlobalId, OwnerHistory, Name, Description, then
/// the two given attributes.
fn rel(id: u32, ty: IfcType, a4: AttributeValue, a5: AttributeValue) -> DecodedEntity {
    DecodedEntity {
        id: EntityId(id),
        ifc_type: ty,
        attributes: vec![
            AttributeValue::String("guid".to_string()),
            AttributeValue::Null,
            AttributeValue::Null,
            AttributeValue::Null,
            a4,
            a5,
        ],
    }
}

#[test]
fn aggregation_and_containment() {
    let mut idx = RelationIndex::new();
    idx.add(&rel(100, IfcType::IfcRelAggregates, r(1), list(&[2, 3])));
    idx.add(&rel(101, IfcType::IfcRelAggregates, r(1), list(&[4])));
    idx.add(&rel(102, IfcType::IfcRelContainedInSpatialStructure, list(&[10, 11]), r(3)));
    idx.add(&rel(103, IfcType::IfcRelContainedInSpatialStructure, list(&[11]), r(4)));
    assert_eq!(idx.children_of(1), vec![2, 3, 4]);
    assert!(idx.children_of(2).is_empty());
    assert_eq!(idx.contained_elements(3), vec![10, 11]);
    assert_eq!(idx.contained_elements(4), vec![11]);
    assert_eq!(idx.structure_of(10), Some(3));
    assert_eq!(idx.structure_of(11), Some(4));
    assert_eq!(idx.structure_of(99), None);
}

#[test]
fn properties_and_types() {
    let mut idx = RelationIndex::new();
    idx.add(&rel(200, IfcType::IfcRelDefinesByProperties, list(&[10, 11]), r(50)));
    idx.add(&rel(201, IfcType::IfcRelDefinesByProperties, list(&[10]), r(51)));
    idx.add(&rel(202, IfcType::IfcRelDefinesByType, list(&[10]), r(60)));
    idx.add(&rel(203, IfcType::IfcRelDefinesByProperties, list(&[60]), r(52)));
    assert_eq!(idx.property_definitions(10), vec![50, 51]);
    assert_eq!(idx.type_of(10), Some(60));
    assert_eq!(idx.type_of(11), None);
    let type_entity = DecodedEntity {
        id: EntityId(60),
        ifc_type: IfcType::IfcWallType,
        attributes: vec![
            AttributeValue::Null,
            AttributeValue::Null,
            AttributeValue::Null,
            AttributeValue::Null,
            AttributeValue::Null,
            list(&[53, 54]),
        ],
    };
    assert_eq!(idx.element_property_definitions(10, Some(&type_entity)), vec![50, 51, 52, 53, 54]);
    assert_eq!(idx.element_property_definitions(10, None), vec![50, 51, 52]);
    assert_eq!(idx.element_property_definitions(11, Some(&type_entity)), vec![50]);
}

#[test]
fn incomplete_or_other_entities_add_nothing() {
    let mut idx = RelationIndex::new();
    idx.add(&rel(300, IfcType::IfcRelAggregates, AttributeValue::Null, list(&[2])));
    idx.add(&rel(301, IfcType::IfcRelAggregates, r(1), AttributeValue::Null));
    idx.add(&rel(302, IfcType::IfcWall, r(1), list(&[2])));
    idx.add(&rel(303, IfcType::IfcRelAggregates, r(1), AttributeValue::List(vec![AttributeValue::Integer(7), r(8)])));
    assert_eq!(idx.children_of(1), vec![8]);
}

#[test]
fn later_type_assignment_wins() {
    let mut idx = RelationIndex::new();
    idx.add(&rel(400, IfcType::IfcRelDefinesByType, list(&[10]), r(60)));
    idx.add(&rel(401, IfcType::IfcRelDefinesByType, list(&[10]), r(61)));
    assert_eq!(idx.type_of(10), Some(61));
}
