use bimifc::model::attribute::{bool_from_upper, AttributeValue, DecodedEntity};
use bimifc::model::ifc_type::IfcType;
use bimifc::model::types::EntityId;
use bimifc::model::units::unit_label;

fn s(x: &str) -> String {
    x.to_string()
}

fn entity(ifc_type: IfcType, attributes: Vec<AttributeValue>) -> DecodedEntity {
    DecodedEntity { id: EntityId(1), ifc_type, attributes }
}

#[test]
fn scalar_accessors() {
    assert_eq!(AttributeValue::EntityRef(EntityId(7)).as_entity_ref(), Some(EntityId(7)));
    assert_eq!(AttributeValue::Integer(7).as_entity_ref(), None);
    assert_eq!(AttributeValue::Integer(-3).as_integer(), Some(-3));
    assert_eq!(AttributeValue::Float(2.5f64.to_bits()).as_integer(), None);
    assert_eq!(AttributeValue::Enum(s("ELEMENT")).as_enum(), Some("ELEMENT"));
    assert_eq!(AttributeValue::String(s("ELEMENT")).as_enum(), None);
    assert!(AttributeValue::Null.is_null());
    assert!(!AttributeValue::Derived.is_null());
    assert!(AttributeValue::Derived.is_derived());
    assert!(AttributeValue::default().is_null());
}

#[test]
fn strings_look_through_typed_values() {
    assert_eq!(AttributeValue::String(s("Wall")).as_string(), Some("Wall"));
    let label = AttributeValue::TypedValue(s("IFCLABEL"), vec![AttributeValue::String(s("Door"))]);
    assert_eq!(label.as_string(), Some("Door"));
    let nested = AttributeValue::TypedValue(s("A"), vec![label]);
    assert_eq!(nested.as_string(), Some("Door"));
    assert_eq!(AttributeValue::TypedValue(s("IFCLABEL"), vec![]).as_string(), None);
    let typed_int = AttributeValue::TypedValue(s("IFCINTEGER"), vec![AttributeValue::Integer(3)]);
    assert_eq!(typed_int.as_string(), None);
    assert_eq!(AttributeValue::Enum(s("X")).as_string(), None);
}

#[test]
fn booleans_from_bools_and_enums() {
    assert_eq!(AttributeValue::Bool(false).as_bool(), Some(false));
    assert_eq!(AttributeValue::Enum(s("T")).as_bool(), Some(true));
    assert_eq!(AttributeValue::Enum(s("true")).as_bool(), Some(true));
    assert_eq!(AttributeValue::Enum(s("f")).as_bool(), Some(false));
    assert_eq!(AttributeValue::Enum(s("FALSE")).as_bool(), Some(false));
    assert_eq!(AttributeValue::Enum(s("U")).as_bool(), None);
    assert_eq!(AttributeValue::String(s("TRUE")).as_bool(), None);
    assert_eq!(bool_from_upper("TRUE"), Some(true));
    assert_eq!(bool_from_upper("true"), None);
}

#[test]
fn list_accessor() {
    let v = AttributeValue::List(vec![AttributeValue::Integer(1), AttributeValue::Null]);
    let items = v.as_list().expect("a list");
    assert_eq!(items.len(), 2);
    assert_eq!(items[0].as_integer(), Some(1));
    assert!(AttributeValue::Null.as_list().is_none());
}

#[test]
fn entity_getters() {
    let e = entity(
        IfcType::IfcWall,
        vec![
            AttributeValue::String(s("2O2Fr$t4X7Zf8NOew3FLOH")),
            AttributeValue::EntityRef(EntityId(5)),
            AttributeValue::TypedValue(s("IFCLABEL"), vec![AttributeValue::String(s("Wall-01"))]),
            AttributeValue::Null,
            AttributeValue::List(vec![
                AttributeValue::EntityRef(EntityId(10)),
                AttributeValue::Integer(3),
                AttributeValue::EntityRef(EntityId(11)),
            ]),
            AttributeValue::Enum(s(".T.")),
            AttributeValue::Enum(s("T")),
            AttributeValue::Integer(42),
        ],
    );
    assert_eq!(e.get_string(0), Some("2O2Fr$t4X7Zf8NOew3FLOH"));
    assert_eq!(e.get_ref(1), Some(EntityId(5)));
    assert_eq!(e.get_ref(0), None);
    assert_eq!(e.get_string(2), Some("Wall-01"));
    assert!(e.get(3).expect("present").is_null());
    assert!(e.get(8).is_none());
    assert_eq!(e.get_refs(4), Some(vec![EntityId(10), EntityId(11)]));
    assert_eq!(e.get_refs(3), None);
    assert_eq!(e.get_list(4).map(|l| l.len()), Some(3));
    assert_eq!(e.get_bool(5), None);
    assert_eq!(e.get_bool(6), Some(true));
    assert_eq!(e.get_enum(6), Some("T"));
    assert_eq!(e.get_integer(7), Some(42));
    assert_eq!(e.get_integer(99), None);
}

#[test]
fn si_unit_labels() {
    let mm = entity(
        IfcType::IfcSIUnit,
        vec![AttributeValue::Derived, AttributeValue::Enum(s("LENGTHUNIT")), AttributeValue::Enum(s("MILLI")), AttributeValue::Enum(s("METRE"))],
    );
    assert_eq!(unit_label(&mm), Some(s("mm")));
    let m2 = entity(
        IfcType::IfcSIUnit,
        vec![AttributeValue::Derived, AttributeValue::Enum(s("AREAUNIT")), AttributeValue::Null, AttributeValue::Enum(s("SQUARE_METRE"))],
    );
    assert_eq!(unit_label(&m2), Some(s("m²")));
    let lux = entity(
        IfcType::IfcSIUnit,
        vec![AttributeValue::Derived, AttributeValue::Enum(s("ILLUMINANCEUNIT")), AttributeValue::Enum(s("MEGA")), AttributeValue::Enum(s("LUX"))],
    );
    assert_eq!(unit_label(&lux), Some(s("LUX")));
    let kg = entity(
        IfcType::IfcSIUnit,
        vec![AttributeValue::Derived, AttributeValue::Enum(s("MASSUNIT")), AttributeValue::Enum(s("KILO")), AttributeValue::Enum(s("GRAM"))],
    );
    assert_eq!(unit_label(&kg), Some(s("kg")));
    let no_name = entity(IfcType::IfcSIUnit, vec![AttributeValue::Derived]);
    assert_eq!(unit_label(&no_name), None);
}

#[test]
fn other_unit_labels() {
    let inch = entity(
        IfcType::IfcConversionBasedUnit,
        vec![AttributeValue::Derived, AttributeValue::Enum(s("LENGTHUNIT")), AttributeValue::String(s("INCH"))],
    );
    assert_eq!(unit_label(&inch), Some(s("INCH")));
    let wall = entity(IfcType::IfcWall, vec![AttributeValue::String(s("x"))]);
    assert_eq!(unit_label(&wall), None);
}
