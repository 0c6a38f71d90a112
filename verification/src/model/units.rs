//! Readable unit names for property values, from the unit entity a
//! property's unit attribute refers to.

use vstd::prelude::*;

use super::attribute::{text_of, AttributeValue, DecodedEntity};
use super::ifc_type::IfcType;
use crate::text::{chars_eq_str, chars_of, push_str, string_from_chars};

verus! {

/// Symbol of an SI prefix (`MILLI`, `CENTI`, `KILO`); other prefixes
/// (and no prefix) give nothing.
pub open spec fn si_prefix_symbol(p: Seq<char>) -> Seq<char> {
    if p == "MILLI"@ {
        "m"@
    } else if p == "CENTI"@ {
        "c"@
    } else if p == "KILO"@ {
        "k"@
    } else {
        ""@
    }
}

/// Symbol of an SI unit name; names without a symbol here are kept as
/// they are.
pub open spec fn si_name_symbol(n: Seq<char>) -> Seq<char> {
    if n == "METRE"@ {
        "m"@
    } else if n == "SQUARE_METRE"@ {
        "m²"@
    } else if n == "CUBIC_METRE"@ {
        "m³"@
    } else if n == "GRAM"@ {
        "g"@
    } else if n == "SECOND"@ {
        "s"@
    } else if n == "KELVIN"@ {
        "K"@
    } else if n == "AMPERE"@ {
        "A"@
    } else {
        n
    }
}

/// The enumeration word of the entity's attribute at `i`.
pub open spec fn enum_at(e: DecodedEntity, i: int) -> Option<Seq<char>> {
    match e.attr(i) {
        Some(AttributeValue::Enum(s)) => Some(s@),
        _ => None,
    }
}

/// The readable name of a unit entity: an `IfcSIUnit` gives its prefix
/// symbol (attribute 2) followed by its name's symbol (attribute 3, which
/// it needs); an `IfcConversionBasedUnit` gives its name (attribute 2);
/// any other entity gives nothing.
pub open spec fn spec_unit_label(u: DecodedEntity) -> Option<Seq<char>> {
    match u.ifc_type {
        IfcType::IfcSIUnit => match enum_at(u, 3) {
            Some(n) => Some(si_prefix_symbol(
                match enum_at(u, 2) {
                    Some(p) => p,
                    None => ""@,
                },
            ) + si_name_symbol(n)),
            None => None,
        },
        IfcType::IfcConversionBasedUnit => match u.attr(2) {
            Some(v) => text_of(v),
            None => None,
        },
        _ => None,
    }
}

/// Executable [`si_prefix_symbol`].
fn prefix_symbol(p: &str) -> (r: &'static str)
    ensures
        r@ == si_prefix_symbol(p@),
{
    let v = chars_of(p);
    if chars_eq_str(&v, "MILLI") {
        "m"
    } else if chars_eq_str(&v, "CENTI") {
        "c"
    } else if chars_eq_str(&v, "KILO") {
        "k"
    } else {
        proof {
            reveal_strlit("");
        }
        ""
    }
}

/// Executable [`si_name_symbol`], appended to `out`.
fn push_name_symbol(out: &mut Vec<char>, n: &str)
    ensures
        final(out)@ == old(out)@ + si_name_symbol(n@),
{
    let v = chars_of(n);
    if chars_eq_str(&v, "METRE") {
        push_str(out, "m");
    } else if chars_eq_str(&v, "SQUARE_METRE") {
        push_str(out, "m²");
    } else if chars_eq_str(&v, "CUBIC_METRE") {
        push_str(out, "m³");
    } else if chars_eq_str(&v, "GRAM") {
        push_str(out, "g");
    } else if chars_eq_str(&v, "SECOND") {
        push_str(out, "s");
    } else if chars_eq_str(&v, "KELVIN") {
        push_str(out, "K");
    } else if chars_eq_str(&v, "AMPERE") {
        push_str(out, "A");
    } else {
        push_str(out, n);
    }
}

/// The readable name of the unit entity a property's unit refers to, e.g.
/// `"mm"` for an `IfcSIUnit` with prefix `MILLI` and name `METRE`.
pub fn unit_label(unit: &DecodedEntity) -> (r: Option<String>)
    ensures
        match r {
            Some(s) => spec_unit_label(*unit) == Some(s@),
            None => spec_unit_label(*unit) is None,
        },
{
    match &unit.ifc_type {
        IfcType::IfcSIUnit => {
            let prefix = match unit.get_enum(2) {
                Some(p) => p,
                None => "",
            };
            proof {
                reveal_strlit("");
            }
            match unit.get_enum(3) {
                Some(name) => {
                    let mut out: Vec<char> = Vec::new();
                    push_str(&mut out, prefix_symbol(prefix));
                    push_name_symbol(&mut out, name);
                    Some(string_from_chars(&out))
                },
                None => None,
            }
        },
        IfcType::IfcConversionBasedUnit => {
            match unit.get_string(2) {
                Some(s) => Some(s.to_string()),
                None => None,
            }
        },
        _ => None,
    }
}

/// The unit words and symbols, told apart by length and by a differing
/// character.
proof fn lemma_unit_words()
    ensures
        "METRE"@.len() == 5,
        "SQUARE_METRE"@.len() == 12,
        "CUBIC_METRE"@.len() == 11,
        "GRAM"@.len() == 4,
        "SECOND"@.len() == 6,
        "KELVIN"@.len() == 6,
        "AMPERE"@.len() == 6,
        "MILLI"@.len() == 5,
        "CENTI"@.len() == 5,
        "KILO"@.len() == 4,
        ""@.len() == 0,
        "METRE"@[1] != "MILLI"@[1],
        "METRE"@[0] != "CENTI"@[0],
        "GRAM"@[0] != "KILO"@[0],
        "SECOND"@[0] != "KELVIN"@[0],
        "SECOND"@[0] != "AMPERE"@[0],
        "KELVIN"@[0] != "AMPERE"@[0],
        "MILLI"@[0] != "CENTI"@[0],
{
    reveal_strlit("METRE");
    reveal_strlit("SQUARE_METRE");
    reveal_strlit("CUBIC_METRE");
    reveal_strlit("GRAM");
    reveal_strlit("SECOND");
    reveal_strlit("KELVIN");
    reveal_strlit("AMPERE");
    reveal_strlit("MILLI");
    reveal_strlit("CENTI");
    reveal_strlit("KILO");
    reveal_strlit("");
}

/// An `IfcSIUnit` without a prefix is labelled by the symbol of its name:
/// metre `m`, square metre `m²`, cubic metre `m³`, gram `g`, second `s`,
/// kelvin `K`, ampere `A`; any other name is kept as it is.
pub proof fn law_si_unit_names(u: DecodedEntity, n: Seq<char>)
    requires
        u.ifc_type is IfcSIUnit,
        enum_at(u, 2) is None,
        enum_at(u, 3) == Some(n),
    ensures
        n == "METRE"@ ==> spec_unit_label(u) == Some("m"@),
        n == "SQUARE_METRE"@ ==> spec_unit_label(u) == Some("m²"@),
        n == "CUBIC_METRE"@ ==> spec_unit_label(u) == Some("m³"@),
        n == "GRAM"@ ==> spec_unit_label(u) == Some("g"@),
        n == "SECOND"@ ==> spec_unit_label(u) == Some("s"@),
        n == "KELVIN"@ ==> spec_unit_label(u) == Some("K"@),
        n == "AMPERE"@ ==> spec_unit_label(u) == Some("A"@),
        n != "METRE"@ && n != "SQUARE_METRE"@ && n != "CUBIC_METRE"@ && n != "GRAM"@ && n != "SECOND"@ && n != "KELVIN"@ && n != "AMPERE"@ ==> spec_unit_label(u) == Some(n),
{
    lemma_unit_words();
    reveal_strlit("m");
    assert(""@ + "m"@ =~= "m"@);
    reveal_strlit("m²");
    assert(""@ + "m²"@ =~= "m²"@);
    reveal_strlit("m³");
    assert(""@ + "m³"@ =~= "m³"@);
    reveal_strlit("g");
    assert(""@ + "g"@ =~= "g"@);
    reveal_strlit("s");
    assert(""@ + "s"@ =~= "s"@);
    reveal_strlit("K");
    assert(""@ + "K"@ =~= "K"@);
    reveal_strlit("A");
    assert(""@ + "A"@ =~= "A"@);
    assert(""@ + n =~= n);
}

/// An `IfcSIUnit` in metres is labelled by its prefix's symbol before `m`:
/// `mm`, `cm`, `km`; an unknown prefix adds nothing. A kilogram is `kg`.
pub proof fn law_si_unit_prefixes(u: DecodedEntity, p: Seq<char>)
    requires
        u.ifc_type is IfcSIUnit,
        enum_at(u, 2) == Some(p),
    ensures
        p == "MILLI"@ && enum_at(u, 3) == Some("METRE"@) ==> spec_unit_label(u) == Some("mm"@),
        p == "CENTI"@ && enum_at(u, 3) == Some("METRE"@) ==> spec_unit_label(u) == Some("cm"@),
        p == "KILO"@ && enum_at(u, 3) == Some("METRE"@) ==> spec_unit_label(u) == Some("km"@),
        p == "KILO"@ && enum_at(u, 3) == Some("GRAM"@) ==> spec_unit_label(u) == Some("kg"@),
        p != "MILLI"@ && p != "CENTI"@ && p != "KILO"@ && enum_at(u, 3) == Some("METRE"@) ==> spec_unit_label(u) == Some("m"@),
{
    lemma_unit_words();
    reveal_strlit("m");
    reveal_strlit("c");
    reveal_strlit("k");
    reveal_strlit("g");
    reveal_strlit("mm");
    reveal_strlit("cm");
    reveal_strlit("km");
    reveal_strlit("kg");
    assert("m"@ + "m"@ =~= "mm"@);
    assert("c"@ + "m"@ =~= "cm"@);
    assert("k"@ + "m"@ =~= "km"@);
    assert("k"@ + "g"@ =~= "kg"@);
    assert(""@ + "m"@ =~= "m"@);
}

/// An `IfcSIUnit` without a name has no label, a conversion-based unit is
/// labelled by its name's text, and any other entity has no label.
pub proof fn law_unit_label_kinds(u: DecodedEntity)
    ensures
        u.ifc_type is IfcSIUnit && enum_at(u, 3) is None ==> spec_unit_label(u) is None,
        u.ifc_type is IfcConversionBasedUnit && u.attr(2) is Some ==> spec_unit_label(u) == text_of(u.attr(2)->0),
        !(u.ifc_type is IfcSIUnit) && !(u.ifc_type is IfcConversionBasedUnit) ==> spec_unit_label(u) is None,
{
}

} // verus!
