use bimifc::model::attribute::{AttributeValue, DecodedEntity};
use bimifc::model::ifc_type::IfcType;
use bimifc::model::types::EntityId;
use bimifc::property_sets::property_set_from;

fn text(s: &str) -> AttributeValue {
    AttributeValue::String(s.to_string())
}

fn pset(id: u32, name: AttributeValue) -> DecodedEntity {
    DecodedEntity {
        id: EntityId(id),
        ifc_type: IfcType::IfcPropertySet,
        attributes: vec![text("guid"), AttributeValue::Null, name, AttributeValue::Null],
    }
}

fn single(id: u32, name: AttributeValue, unit: AttributeValue) -> DecodedEntity {
    DecodedEntity {
        id: EntityId(id),
        ifc_type: IfcType::IfcPropertySingleValue,
        attributes: vec![name, AttributeValue::Null, AttributeValue::Integer(3), unit],
    }
}

#[test]
fn named_single_values_are_kept_in_order() {
    let def = pset(40, text("Pset_WallCommon"));
    let props = vec![
        single(41, text("FireRating"), AttributeValue::Null),
        single(42, text(""), AttributeValue::Null),
        DecodedEntity { id: EntityId(43), ifc_type: IfcType::IfcWall, attributes: vec![text("Other")] },
        single(44, AttributeValue::TypedValue("IFCLABEL".to_string(), vec![text("Height")]), text("mm")),
        single(45, AttributeValue::Null, AttributeValue::Null),
    ];
    let values: Vec<String> =
        vec!["2HR".to_string(), "x".to_string(), "y".to_string(), "3".to_string(), "z".to_string()];
    let ps = property_set_from(40, &def, &props, &values).unwrap();
    assert_eq!(ps.name, "Pset_WallCommon");
    assert_eq!(ps.properties.len(), 2);
    assert_eq!(ps.properties[0].name, "FireRating");
    assert_eq!(ps.properties[0].value, "2HR");
    assert_eq!(ps.properties[0].unit, None);
    assert_eq!(ps.properties[1].name, "Height");
    assert_eq!(ps.properties[1].value, "3");
    assert_eq!(ps.properties[1].unit, Some("mm".to_string()));
}

#[test]
fn unnamed_set_gets_numbered_name() {
    let def = pset(1207, AttributeValue::Null);
    let props = vec![single(5, text("Status"), AttributeValue::Null)];
    let values = vec!["New".to_string()];
    let ps = property_set_from(1207, &def, &props, &values).unwrap();
    assert_eq!(ps.name, "PropertySet #1207");
    assert_eq!(ps.properties[0].value, "New");
}

#[test]
fn empty_sets_and_other_definitions_give_nothing() {
    let def = pset(9, text("Empty"));
    assert!(property_set_from(9, &def, &vec![], &vec![]).is_none());
    let unnamed_only = vec![single(10, text(""), AttributeValue::Null)];
    assert!(property_set_from(9, &def, &unnamed_only, &vec!["1".to_string()]).is_none());
    let quantities = DecodedEntity {
        id: EntityId(11),
        ifc_type: IfcType::IfcElementQuantity,
        attributes: vec![text("guid"), AttributeValue::Null, text("Qto")],
    };
    let props = vec![single(12, text("Width"), AttributeValue::Null)];
    assert!(property_set_from(11, &quantities, &props, &vec!["1".to_string()]).is_none());
}
