//! Property-set assembly: a decoded `IfcPropertySet` and its decoded
//! properties become a named list of single values.

use vstd::prelude::*;

use crate::ffi::{Property, PropertySet};
use crate::model::attribute::{text_of, DecodedEntity};
use crate::model::ifc_type_table::IfcType;
use crate::text::{decimal, decimal_chars, push_chars, push_str, string_from_chars};

verus! {

/// The text of an entity's attribute at `i`, where there is one.
pub open spec fn text_at(e: DecodedEntity, i: int) -> Option<Seq<char>> {
    match e.attr(i) {
        Some(v) => text_of(v),
        None => None,
    }
}

/// The name of a property set: its `Name` attribute (position 2), else
/// `PropertySet #<id>`.
pub open spec fn pset_name(def_id: u32, def: DecodedEntity) -> Seq<char> {
    match text_at(def, 2) {
        Some(t) => t,
        None => "PropertySet #"@ + decimal(def_id as nat),
    }
}

/// A property as plain text: name, formatted value, unit.
pub open spec fn property_view(p: Property) -> (Seq<char>, Seq<char>, Option<Seq<char>>) {
    (
        p.name@,
        p.value@,
        match p.unit {
            Some(u) => Some(u@),
            None => None,
        },
    )
}

/// The entry one decoded property gives, with the text its nominal value
/// was formatted to: an `IfcPropertySingleValue` whose `Name` (position 0)
/// is not empty, with its `Unit` text (position 3) where it has one.
pub open spec fn single_value(p: DecodedEntity, value: Seq<char>) -> Option<(Seq<char>, Seq<char>, Option<Seq<char>>)> {
    if p.ifc_type is IfcPropertySingleValue {
        let name = match text_at(p, 0) {
            Some(t) => t,
            None => Seq::empty(),
        };
        if name.len() > 0 {
            Some((name, value, text_at(p, 3)))
        } else {
            None
        }
    } else {
        None
    }
}

/// The entries of a property set, in the order of its properties: one for
/// each property that [`single_value`] keeps.
pub open spec fn pset_entries(props: Seq<DecodedEntity>, values: Seq<String>) -> Seq<(Seq<char>, Seq<char>, Option<Seq<char>>)>
    decreases props.len(),
{
    if props.len() == 0 {
        Seq::empty()
    } else {
        pset_entries(props.drop_last(), values.drop_last()) + match single_value(props.last(), values.last()@) {
            Some(e) => seq![e],
            None => Seq::empty(),
        }
    }
}

/// The property set that a decoded property definition gives: `None` for a
/// definition that is not an `IfcPropertySet`, and for one none of whose
/// properties is a named single value. `props` are the decoded entities of
/// its `HasProperties` list, in order, and `values[i]` the text that the
/// nominal value (position 2) of `props[i]` was formatted to.
pub fn property_set_from(
    def_id: u32,
    def: &DecodedEntity,
    props: &Vec<DecodedEntity>,
    values: &Vec<String>,
) -> (r: Option<PropertySet>)
    requires
        props.len() == values.len(),
    ensures
        r is Some <==> (def.ifc_type is IfcPropertySet && pset_entries(props@, values@).len() > 0),
        r matches Some(ps) ==> ps.name@ == pset_name(def_id, *def)
            && ps.properties@.map_values(|p: Property| property_view(p)) == pset_entries(props@, values@),
{
    if !matches!(def.ifc_type, IfcType::IfcPropertySet) {
        return None;
    }
    let mut properties: Vec<Property> = Vec::new();
    let mut i: usize = 0;
    while i < props.len()
        invariant
            i <= props.len(),
            props.len() == values.len(),
            properties@.map_values(|p: Property| property_view(p)) == pset_entries(
                props@.take(i as int),
                values@.take(i as int),
            ),
        decreases props.len() - i,
    {
        let p = &props[i];
        assert(props@.take(i + 1).drop_last() =~= props@.take(i as int));
        assert(values@.take(i + 1).drop_last() =~= values@.take(i as int));
        if matches!(p.ifc_type, IfcType::IfcPropertySingleValue) {
            let name: String = match p.get_string(0) {
                Some(s) => s.to_owned(),
                None => String::new(),
            };
            if !name.as_str().is_empty() {
                let unit: Option<String> = match p.get_string(3) {
                    Some(s) => Some(s.to_owned()),
                    None => None,
                };
                let prop = Property { name, value: values[i].clone(), unit };
                let ghost before = properties@;
                let ghost entry = property_view(prop);
                properties.push(prop);
                assert(properties@.map_values(|p: Property| property_view(p)) =~= before.map_values(
                    |p: Property| property_view(p),
                ).push(entry));
            }
        }
        i = i + 1;
    }
    assert(props@.take(i as int) =~= props@);
    assert(values@.take(i as int) =~= values@);
    if properties.len() == 0 {
        return None;
    }
    let name: String = match def.get_string(2) {
        Some(s) => s.to_owned(),
        None => {
            let mut cs: Vec<char> = Vec::new();
            push_str(&mut cs, "PropertySet #");
            let digits = decimal_chars(def_id as u64);
            push_chars(&mut cs, &digits);
            string_from_chars(&cs)
        },
    };
    Some(PropertySet { name, properties })
}

} // verus!
