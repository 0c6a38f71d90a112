//! Per-entity discipline classification.
//!
//! Three lookup paths, tried by callers in order (first non-`Other` wins):
//! the concrete IFC class name, the defining IFC type object, and finally a
//! keyword match on the instance name.

use vstd::prelude::*;

use super::source::Discipline;
use crate::text::{ascii_lower, chars_eq_str, chars_of, contains_str, has_substring, lower_chars_of};

verus! {

/// Discipline of a modern (IFC4 and later) concrete entity class name.
pub open spec fn entity_class_discipline(c: Seq<char>) -> Discipline {
    if c == "IFCCABLESEGMENT"@ || c == "IFCCABLECARRIERSEGMENT"@ || c == "IFCCABLECARRIERFITTING"@
        || c == "IFCELECTRICAPPLIANCE"@ || c == "IFCELECTRICDISTRIBUTIONBOARD"@
        || c == "IFCJUNCTIONBOX"@ || c == "IFCOUTLET"@ || c == "IFCSWITCHINGDEVICE"@ {
        Discipline::Electrical
    } else if c == "IFCPIPESEGMENT"@ || c == "IFCPIPEFITTING"@ || c == "IFCSANITARYTERMINAL"@
        || c == "IFCVALVE"@ || c == "IFCWASTETERMINAL"@ {
        Discipline::Plumbing
    } else if c == "IFCAIRTERMINAL"@ || c == "IFCAIRTERMINALBOX"@ || c == "IFCSPACEHEATER"@
        || c == "IFCDUCTSEGMENT"@ || c == "IFCDUCTFITTING"@ || c == "IFCFAN"@ {
        Discipline::Hvac
    } else if c == "IFCLIGHTFIXTURE"@ {
        Discipline::Lighting
    } else {
        Discipline::Other
    }
}

/// Discipline revealed by the class of an entity's defining type object, if
/// that class is conclusive.
pub open spec fn type_class_discipline(c: Seq<char>) -> Option<Discipline> {
    if c == "IFCDUCTSEGMENTTYPE"@ || c == "IFCDUCTFITTINGTYPE"@ || c == "IFCAIRTERMINALTYPE"@
        || c == "IFCAIRTERMINALBOXTYPE"@ || c == "IFCFANTYPE"@ || c == "IFCHEATEXCHANGERTYPE"@
        || c == "IFCCOILTYPE"@ || c == "IFCBOILERTYPE"@ || c == "IFCCHILLERTYPE"@
        || c == "IFCDAMPERTYPE"@ || c == "IFCSPACEHEATERTYPE"@ {
        Some(Discipline::Hvac)
    } else if c == "IFCPIPESEGMENTTYPE"@ || c == "IFCPIPEFITTINGTYPE"@
        || c == "IFCSANITARYTERMINALTYPE"@ || c == "IFCVALVETYPE"@
        || c == "IFCWASTETERMINALTYPE"@ || c == "IFCPUMPTYPE"@ || c == "IFCTANKTYPE"@ {
        Some(Discipline::Plumbing)
    } else if c == "IFCCABLESEGMENTTYPE"@ || c == "IFCCABLECARRIERSEGMENTTYPE"@
        || c == "IFCCABLECARRIERFITTINGTYPE"@ || c == "IFCJUNCTIONBOXTYPE"@
        || c == "IFCSWITCHINGDEVICETYPE"@ || c == "IFCOUTLETTYPE"@ {
        Some(Discipline::Electrical)
    } else if c == "IFCLIGHTFIXTURETYPE"@ || c == "IFCLAMPTYPE"@ {
        Some(Discipline::Lighting)
    } else {
        None
    }
}

/// Keyword rule on an already lower-cased free-form name.
pub open spec fn lower_name_discipline(l: Seq<char>) -> Discipline {
    if has_substring(l, "troffer"@) || has_substring(l, "fixture"@) || has_substring(l, " lamp"@) {
        Discipline::Lighting
    } else if has_substring(l, "diffuser"@) || has_substring(l, "duct"@) || has_substring(l, "hvac"@)
        || has_substring(l, "supply air"@) || has_substring(l, "return air"@)
        || has_substring(l, "vav"@) || has_substring(l, "fan "@) || has_substring(l, "coil"@)
        || has_substring(l, "damper"@) {
        Discipline::Hvac
    } else if has_substring(l, "pipe"@) || has_substring(l, "plumb"@) || has_substring(l, "sanitary"@)
        || has_substring(l, "waste"@) || has_substring(l, "water"@) || has_substring(l, "hydronic"@)
        || has_substring(l, "sprinkler"@) {
        Discipline::Plumbing
    } else if has_substring(l, "cable"@) || has_substring(l, "conduit"@) || has_substring(l, "electric"@)
        || has_substring(l, "circuit"@) || has_substring(l, "panel"@) || has_substring(l, "junction"@)
        || has_substring(l, "outlet"@) {
        Discipline::Electrical
    } else {
        Discipline::Other
    }
}

/// Discipline of a free-form name, matched ASCII-case-insensitively.
pub open spec fn name_discipline(name: Seq<char>) -> Discipline {
    lower_name_discipline(ascii_lower(name))
}

/// Discipline from a defining type object's class and optional name: the
/// class decides when it is conclusive, else the name's keywords, else
/// `Other`.
pub open spec fn type_name_discipline(c: Seq<char>, name: Option<Seq<char>>) -> Discipline {
    match type_class_discipline(c) {
        Some(d) => d,
        None => match name {
            Some(n) => name_discipline(n),
            None => Discipline::Other,
        },
    }
}

/// Map an IFC entity class name (the upper-case wire form) to a discipline;
/// `Other` when the class is not a known MEP leaf.
pub fn classify_by_entity_class(class_name_upper: &str) -> (r: Discipline)
    ensures
        r == entity_class_discipline(class_name_upper@),
{
    let c = chars_of(class_name_upper);
    if chars_eq_str(&c, "IFCCABLESEGMENT") || chars_eq_str(&c, "IFCCABLECARRIERSEGMENT")
        || chars_eq_str(&c, "IFCCABLECARRIERFITTING") || chars_eq_str(&c, "IFCELECTRICAPPLIANCE")
        || chars_eq_str(&c, "IFCELECTRICDISTRIBUTIONBOARD") || chars_eq_str(&c, "IFCJUNCTIONBOX")
        || chars_eq_str(&c, "IFCOUTLET") || chars_eq_str(&c, "IFCSWITCHINGDEVICE") {
        Discipline::Electrical
    } else if chars_eq_str(&c, "IFCPIPESEGMENT") || chars_eq_str(&c, "IFCPIPEFITTING")
        || chars_eq_str(&c, "IFCSANITARYTERMINAL") || chars_eq_str(&c, "IFCVALVE")
        || chars_eq_str(&c, "IFCWASTETERMINAL") {
        Discipline::Plumbing
    } else if chars_eq_str(&c, "IFCAIRTERMINAL") || chars_eq_str(&c, "IFCAIRTERMINALBOX")
        || chars_eq_str(&c, "IFCSPACEHEATER") || chars_eq_str(&c, "IFCDUCTSEGMENT")
        || chars_eq_str(&c, "IFCDUCTFITTING") || chars_eq_str(&c, "IFCFAN") {
        Discipline::Hvac
    } else if chars_eq_str(&c, "IFCLIGHTFIXTURE") {
        Discipline::Lighting
    } else {
        Discipline::Other
    }
}

/// The conclusive part of [`classify_by_type_name`]: the type-object class.
fn type_class_lookup(type_class_upper: &str) -> (r: Option<Discipline>)
    ensures
        r == type_class_discipline(type_class_upper@),
{
    let c = chars_of(type_class_upper);
    if chars_eq_str(&c, "IFCDUCTSEGMENTTYPE") || chars_eq_str(&c, "IFCDUCTFITTINGTYPE")
        || chars_eq_str(&c, "IFCAIRTERMINALTYPE") || chars_eq_str(&c, "IFCAIRTERMINALBOXTYPE")
        || chars_eq_str(&c, "IFCFANTYPE") || chars_eq_str(&c, "IFCHEATEXCHANGERTYPE")
        || chars_eq_str(&c, "IFCCOILTYPE") || chars_eq_str(&c, "IFCBOILERTYPE")
        || chars_eq_str(&c, "IFCCHILLERTYPE") || chars_eq_str(&c, "IFCDAMPERTYPE")
        || chars_eq_str(&c, "IFCSPACEHEATERTYPE") {
        Some(Discipline::Hvac)
    } else if chars_eq_str(&c, "IFCPIPESEGMENTTYPE") || chars_eq_str(&c, "IFCPIPEFITTINGTYPE")
        || chars_eq_str(&c, "IFCSANITARYTERMINALTYPE") || chars_eq_str(&c, "IFCVALVETYPE")
        || chars_eq_str(&c, "IFCWASTETERMINALTYPE") || chars_eq_str(&c, "IFCPUMPTYPE")
        || chars_eq_str(&c, "IFCTANKTYPE") {
        Some(Discipline::Plumbing)
    } else if chars_eq_str(&c, "IFCCABLESEGMENTTYPE") || chars_eq_str(&c, "IFCCABLECARRIERSEGMENTTYPE")
        || chars_eq_str(&c, "IFCCABLECARRIERFITTINGTYPE") || chars_eq_str(&c, "IFCJUNCTIONBOXTYPE")
        || chars_eq_str(&c, "IFCSWITCHINGDEVICETYPE") || chars_eq_str(&c, "IFCOUTLETTYPE") {
        Some(Discipline::Electrical)
    } else if chars_eq_str(&c, "IFCLIGHTFIXTURETYPE") || chars_eq_str(&c, "IFCLAMPTYPE") {
        Some(Discipline::Lighting)
    } else {
        None
    }
}

/// Resolve discipline from the defining IFC type object of an entity: its
/// class when conclusive, else the keywords of its optional name.
pub fn classify_by_type_name(type_class_upper: &str, type_object_name: Option<&str>) -> (r: Discipline)
    ensures
        r == type_name_discipline(
            type_class_upper@,
            match type_object_name {
                Some(n) => Some(n@),
                None => None,
            },
        ),
{
    if let Some(d) = type_class_lookup(type_class_upper) {
        return d;
    }
    if let Some(n) = type_object_name {
        return classify_by_name(n);
    }
    Discipline::Other
}

/// Last resort: ASCII-case-insensitive keyword match on a free-form name.
pub fn classify_by_name(name: &str) -> (r: Discipline)
    ensures
        r == name_discipline(name@),
{
    let l = lower_chars_of(name);
    if contains_str(&l, "troffer") || contains_str(&l, "fixture") || contains_str(&l, " lamp") {
        return Discipline::Lighting;
    }
    if contains_str(&l, "diffuser") || contains_str(&l, "duct") || contains_str(&l, "hvac")
        || contains_str(&l, "supply air") || contains_str(&l, "return air")
        || contains_str(&l, "vav") || contains_str(&l, "fan ") || contains_str(&l, "coil")
        || contains_str(&l, "damper") {
        return Discipline::Hvac;
    }
    if contains_str(&l, "pipe") || contains_str(&l, "plumb") || contains_str(&l, "sanitary")
        || contains_str(&l, "waste") || contains_str(&l, "water") || contains_str(&l, "hydronic")
        || contains_str(&l, "sprinkler") {
        return Discipline::Plumbing;
    }
    if contains_str(&l, "cable") || contains_str(&l, "conduit") || contains_str(&l, "electric")
        || contains_str(&l, "circuit") || contains_str(&l, "panel") || contains_str(&l, "junction")
        || contains_str(&l, "outlet") {
        return Discipline::Electrical;
    }
    Discipline::Other
}

/// Every electrical entity class is classified as electrical.
pub proof fn law_electrical_entity_classes(c: Seq<char>)
    requires
        c == "IFCCABLESEGMENT"@ || c == "IFCCABLECARRIERSEGMENT"@ || c == "IFCCABLECARRIERFITTING"@ || c == "IFCELECTRICAPPLIANCE"@ || c == "IFCELECTRICDISTRIBUTIONBOARD"@ || c == "IFCJUNCTIONBOX"@ || c == "IFCOUTLET"@ || c == "IFCSWITCHINGDEVICE"@,
    ensures
        entity_class_discipline(c) == Discipline::Electrical,
{
    reveal_strlit("IFCCABLESEGMENT");
    reveal_strlit("IFCCABLECARRIERSEGMENT");
    reveal_strlit("IFCCABLECARRIERFITTING");
    reveal_strlit("IFCELECTRICAPPLIANCE");
    reveal_strlit("IFCELECTRICDISTRIBUTIONBOARD");
    reveal_strlit("IFCJUNCTIONBOX");
    reveal_strlit("IFCOUTLET");
    reveal_strlit("IFCSWITCHINGDEVICE");
    reveal_strlit("IFCPIPESEGMENT");
    reveal_strlit("IFCPIPEFITTING");
    reveal_strlit("IFCSANITARYTERMINAL");
    reveal_strlit("IFCVALVE");
    reveal_strlit("IFCWASTETERMINAL");
    reveal_strlit("IFCAIRTERMINAL");
    reveal_strlit("IFCAIRTERMINALBOX");
    reveal_strlit("IFCSPACEHEATER");
    reveal_strlit("IFCDUCTSEGMENT");
    reveal_strlit("IFCDUCTFITTING");
    reveal_strlit("IFCFAN");
    reveal_strlit("IFCLIGHTFIXTURE");
    assert("IFCCABLESEGMENT"@.len() == 15);
    assert("IFCCABLECARRIERSEGMENT"@.len() == 22);
    assert("IFCCABLECARRIERFITTING"@.len() == 22);
    assert("IFCELECTRICAPPLIANCE"@.len() == 20);
    assert("IFCELECTRICDISTRIBUTIONBOARD"@.len() == 28);
    assert("IFCJUNCTIONBOX"@.len() == 14);
    assert("IFCOUTLET"@.len() == 9);
    assert("IFCSWITCHINGDEVICE"@.len() == 18);
    assert("IFCPIPESEGMENT"@.len() == 14);
    assert("IFCPIPEFITTING"@.len() == 14);
    assert("IFCSANITARYTERMINAL"@.len() == 19);
    assert("IFCVALVE"@.len() == 8);
    assert("IFCWASTETERMINAL"@.len() == 16);
    assert("IFCAIRTERMINAL"@.len() == 14);
    assert("IFCAIRTERMINALBOX"@.len() == 17);
    assert("IFCSPACEHEATER"@.len() == 14);
    assert("IFCDUCTSEGMENT"@.len() == 14);
    assert("IFCDUCTFITTING"@.len() == 14);
    assert("IFCFAN"@.len() == 6);
    assert("IFCLIGHTFIXTURE"@.len() == 15);
    assert("IFCCABLESEGMENT"@[3] != "IFCLIGHTFIXTURE"@[3]);
    assert("IFCCABLECARRIERSEGMENT"@[15] != "IFCCABLECARRIERFITTING"@[15]);
    assert("IFCJUNCTIONBOX"@[3] != "IFCPIPESEGMENT"@[3]);
    assert("IFCJUNCTIONBOX"@[3] != "IFCPIPEFITTING"@[3]);
    assert("IFCJUNCTIONBOX"@[3] != "IFCAIRTERMINAL"@[3]);
    assert("IFCJUNCTIONBOX"@[3] != "IFCSPACEHEATER"@[3]);
    assert("IFCJUNCTIONBOX"@[3] != "IFCDUCTSEGMENT"@[3]);
    assert("IFCJUNCTIONBOX"@[3] != "IFCDUCTFITTING"@[3]);
    assert("IFCPIPESEGMENT"@[7] != "IFCPIPEFITTING"@[7]);
    assert("IFCPIPESEGMENT"@[3] != "IFCAIRTERMINAL"@[3]);
    assert("IFCPIPESEGMENT"@[3] != "IFCSPACEHEATER"@[3]);
    assert("IFCPIPESEGMENT"@[3] != "IFCDUCTSEGMENT"@[3]);
    assert("IFCPIPESEGMENT"@[3] != "IFCDUCTFITTING"@[3]);
    assert("IFCPIPEFITTING"@[3] != "IFCAIRTERMINAL"@[3]);
    assert("IFCPIPEFITTING"@[3] != "IFCSPACEHEATER"@[3]);
    assert("IFCPIPEFITTING"@[3] != "IFCDUCTSEGMENT"@[3]);
    assert("IFCPIPEFITTING"@[3] != "IFCDUCTFITTING"@[3]);
    assert("IFCAIRTERMINAL"@[3] != "IFCSPACEHEATER"@[3]);
    assert("IFCAIRTERMINAL"@[3] != "IFCDUCTSEGMENT"@[3]);
    assert("IFCAIRTERMINAL"@[3] != "IFCDUCTFITTING"@[3]);
    assert("IFCSPACEHEATER"@[3] != "IFCDUCTSEGMENT"@[3]);
    assert("IFCSPACEHEATER"@[3] != "IFCDUCTFITTING"@[3]);
    assert("IFCDUCTSEGMENT"@[7] != "IFCDUCTFITTING"@[7]);
}

/// Every plumbing entity class is classified as plumbing.
pub proof fn law_plumbing_entity_classes(c: Seq<char>)
    requires
        c == "IFCPIPESEGMENT"@ || c == "IFCPIPEFITTING"@ || c == "IFCSANITARYTERMINAL"@ || c == "IFCVALVE"@ || c == "IFCWASTETERMINAL"@,
    ensures
        entity_class_discipline(c) == Discipline::Plumbing,
{
    reveal_strlit("IFCCABLESEGMENT");
    reveal_strlit("IFCCABLECARRIERSEGMENT");
    reveal_strlit("IFCCABLECARRIERFITTING");
    reveal_strlit("IFCELECTRICAPPLIANCE");
    reveal_strlit("IFCELECTRICDISTRIBUTIONBOARD");
    reveal_strlit("IFCJUNCTIONBOX");
    reveal_strlit("IFCOUTLET");
    reveal_strlit("IFCSWITCHINGDEVICE");
    reveal_strlit("IFCPIPESEGMENT");
    reveal_strlit("IFCPIPEFITTING");
    reveal_strlit("IFCSANITARYTERMINAL");
    reveal_strlit("IFCVALVE");
    reveal_strlit("IFCWASTETERMINAL");
    reveal_strlit("IFCAIRTERMINAL");
    reveal_strlit("IFCAIRTERMINALBOX");
    reveal_strlit("IFCSPACEHEATER");
    reveal_strlit("IFCDUCTSEGMENT");
    reveal_strlit("IFCDUCTFITTING");
    reveal_strlit("IFCFAN");
    reveal_strlit("IFCLIGHTFIXTURE");
    assert("IFCCABLESEGMENT"@.len() == 15);
    assert("IFCCABLECARRIERSEGMENT"@.len() == 22);
    assert("IFCCABLECARRIERFITTING"@.len() == 22);
    assert("IFCELECTRICAPPLIANCE"@.len() == 20);
    assert("IFCELECTRICDISTRIBUTIONBOARD"@.len() == 28);
    assert("IFCJUNCTIONBOX"@.len() == 14);
    assert("IFCOUTLET"@.len() == 9);
    assert("IFCSWITCHINGDEVICE"@.len() == 18);
    assert("IFCPIPESEGMENT"@.len() == 14);
    assert("IFCPIPEFITTING"@.len() == 14);
    assert("IFCSANITARYTERMINAL"@.len() == 19);
    assert("IFCVALVE"@.len() == 8);
    assert("IFCWASTETERMINAL"@.len() == 16);
    assert("IFCAIRTERMINAL"@.len() == 14);
    assert("IFCAIRTERMINALBOX"@.len() == 17);
    assert("IFCSPACEHEATER"@.len() == 14);
    assert("IFCDUCTSEGMENT"@.len() == 14);
    assert("IFCDUCTFITTING"@.len() == 14);
    assert("IFCFAN"@.len() == 6);
    assert("IFCLIGHTFIXTURE"@.len() == 15);
    assert("IFCCABLESEGMENT"@[3] != "IFCLIGHTFIXTURE"@[3]);
    assert("IFCCABLECARRIERSEGMENT"@[15] != "IFCCABLECARRIERFITTING"@[15]);
    assert("IFCJUNCTIONBOX"@[3] != "IFCPIPESEGMENT"@[3]);
    assert("IFCJUNCTIONBOX"@[3] != "IFCPIPEFITTING"@[3]);
    assert("IFCJUNCTIONBOX"@[3] != "IFCAIRTERMINAL"@[3]);
    assert("IFCJUNCTIONBOX"@[3] != "IFCSPACEHEATER"@[3]);
    assert("IFCJUNCTIONBOX"@[3] != "IFCDUCTSEGMENT"@[3]);
    assert("IFCJUNCTIONBOX"@[3] != "IFCDUCTFITTING"@[3]);
    assert("IFCPIPESEGMENT"@[7] != "IFCPIPEFITTING"@[7]);
    assert("IFCPIPESEGMENT"@[3] != "IFCAIRTERMINAL"@[3]);
    assert("IFCPIPESEGMENT"@[3] != "IFCSPACEHEATER"@[3]);
    assert("IFCPIPESEGMENT"@[3] != "IFCDUCTSEGMENT"@[3]);
    assert("IFCPIPESEGMENT"@[3] != "IFCDUCTFITTING"@[3]);
    assert("IFCPIPEFITTING"@[3] != "IFCAIRTERMINAL"@[3]);
    assert("IFCPIPEFITTING"@[3] != "IFCSPACEHEATER"@[3]);
    assert("IFCPIPEFITTING"@[3] != "IFCDUCTSEGMENT"@[3]);
    assert("IFCPIPEFITTING"@[3] != "IFCDUCTFITTING"@[3]);
    assert("IFCAIRTERMINAL"@[3] != "IFCSPACEHEATER"@[3]);
    assert("IFCAIRTERMINAL"@[3] != "IFCDUCTSEGMENT"@[3]);
    assert("IFCAIRTERMINAL"@[3] != "IFCDUCTFITTING"@[3]);
    assert("IFCSPACEHEATER"@[3] != "IFCDUCTSEGMENT"@[3]);
    assert("IFCSPACEHEATER"@[3] != "IFCDUCTFITTING"@[3]);
    assert("IFCDUCTSEGMENT"@[7] != "IFCDUCTFITTING"@[7]);
}

/// Every HVAC entity class is classified as HVAC.
pub proof fn law_hvac_entity_classes(c: Seq<char>)
    requires
        c == "IFCAIRTERMINAL"@ || c == "IFCAIRTERMINALBOX"@ || c == "IFCSPACEHEATER"@ || c == "IFCDUCTSEGMENT"@ || c == "IFCDUCTFITTING"@ || c == "IFCFAN"@,
    ensures
        entity_class_discipline(c) == Discipline::Hvac,
{
    reveal_strlit("IFCCABLESEGMENT");
    reveal_strlit("IFCCABLECARRIERSEGMENT");
    reveal_strlit("IFCCABLECARRIERFITTING");
    reveal_strlit("IFCELECTRICAPPLIANCE");
    reveal_strlit("IFCELECTRICDISTRIBUTIONBOARD");
    reveal_strlit("IFCJUNCTIONBOX");
    reveal_strlit("IFCOUTLET");
    reveal_strlit("IFCSWITCHINGDEVICE");
    reveal_strlit("IFCPIPESEGMENT");
    reveal_strlit("IFCPIPEFITTING");
    reveal_strlit("IFCSANITARYTERMINAL");
    reveal_strlit("IFCVALVE");
    reveal_strlit("IFCWASTETERMINAL");
    reveal_strlit("IFCAIRTERMINAL");
    reveal_strlit("IFCAIRTERMINALBOX");
    reveal_strlit("IFCSPACEHEATER");
    reveal_strlit("IFCDUCTSEGMENT");
    reveal_strlit("IFCDUCTFITTING");
    reveal_strlit("IFCFAN");
    reveal_strlit("IFCLIGHTFIXTURE");
    assert("IFCCABLESEGMENT"@.len() == 15);
    assert("IFCCABLECARRIERSEGMENT"@.len() == 22);
    assert("IFCCABLECARRIERFITTING"@.len() == 22);
    assert("IFCELECTRICAPPLIANCE"@.len() == 20);
    assert("IFCELECTRICDISTRIBUTIONBOARD"@.len() == 28);
    assert("IFCJUNCTIONBOX"@.len() == 14);
    assert("IFCOUTLET"@.len() == 9);
    assert("IFCSWITCHINGDEVICE"@.len() == 18);
    assert("IFCPIPESEGMENT"@.len() == 14);
    assert("IFCPIPEFITTING"@.len() == 14);
    assert("IFCSANITARYTERMINAL"@.len() == 19);
    assert("IFCVALVE"@.len() == 8);
    assert("IFCWASTETERMINAL"@.len() == 16);
    assert("IFCAIRTERMINAL"@.len() == 14);
    assert("IFCAIRTERMINALBOX"@.len() == 17);
    assert("IFCSPACEHEATER"@.len() == 14);
    assert("IFCDUCTSEGMENT"@.len() == 14);
    assert("IFCDUCTFITTING"@.len() == 14);
    assert("IFCFAN"@.len() == 6);
    assert("IFCLIGHTFIXTURE"@.len() == 15);
    assert("IFCCABLESEGMENT"@[3] != "IFCLIGHTFIXTURE"@[3]);
    assert("IFCCABLECARRIERSEGMENT"@[15] != "IFCCABLECARRIERFITTING"@[15]);
    assert("IFCJUNCTIONBOX"@[3] != "IFCPIPESEGMENT"@[3]);
    assert("IFCJUNCTIONBOX"@[3] != "IFCPIPEFITTING"@[3]);
    assert("IFCJUNCTIONBOX"@[3] != "IFCAIRTERMINAL"@[3]);
    assert("IFCJUNCTIONBOX"@[3] != "IFCSPACEHEATER"@[3]);
    assert("IFCJUNCTIONBOX"@[3] != "IFCDUCTSEGMENT"@[3]);
    assert("IFCJUNCTIONBOX"@[3] != "IFCDUCTFITTING"@[3]);
    assert("IFCPIPESEGMENT"@[7] != "IFCPIPEFITTING"@[7]);
    assert("IFCPIPESEGMENT"@[3] != "IFCAIRTERMINAL"@[3]);
    assert("IFCPIPESEGMENT"@[3] != "IFCSPACEHEATER"@[3]);
    assert("IFCPIPESEGMENT"@[3] != "IFCDUCTSEGMENT"@[3]);
    assert("IFCPIPESEGMENT"@[3] != "IFCDUCTFITTING"@[3]);
    assert("IFCPIPEFITTING"@[3] != "IFCAIRTERMINAL"@[3]);
    assert("IFCPIPEFITTING"@[3] != "IFCSPACEHEATER"@[3]);
    assert("IFCPIPEFITTING"@[3] != "IFCDUCTSEGMENT"@[3]);
    assert("IFCPIPEFITTING"@[3] != "IFCDUCTFITTING"@[3]);
    assert("IFCAIRTERMINAL"@[3] != "IFCSPACEHEATER"@[3]);
    assert("IFCAIRTERMINAL"@[3] != "IFCDUCTSEGMENT"@[3]);
    assert("IFCAIRTERMINAL"@[3] != "IFCDUCTFITTING"@[3]);
    assert("IFCSPACEHEATER"@[3] != "IFCDUCTSEGMENT"@[3]);
    assert("IFCSPACEHEATER"@[3] != "IFCDUCTFITTING"@[3]);
    assert("IFCDUCTSEGMENT"@[7] != "IFCDUCTFITTING"@[7]);
}

/// Every lighting entity class is classified as lighting.
pub proof fn law_lighting_entity_classes(c: Seq<char>)
    requires
        c == "IFCLIGHTFIXTURE"@,
    ensures
        entity_class_discipline(c) == Discipline::Lighting,
{
    reveal_strlit("IFCCABLESEGMENT");
    reveal_strlit("IFCCABLECARRIERSEGMENT");
    reveal_strlit("IFCCABLECARRIERFITTING");
    reveal_strlit("IFCELECTRICAPPLIANCE");
    reveal_strlit("IFCELECTRICDISTRIBUTIONBOARD");
    reveal_strlit("IFCJUNCTIONBOX");
    reveal_strlit("IFCOUTLET");
    reveal_strlit("IFCSWITCHINGDEVICE");
    reveal_strlit("IFCPIPESEGMENT");
    reveal_strlit("IFCPIPEFITTING");
    reveal_strlit("IFCSANITARYTERMINAL");
    reveal_strlit("IFCVALVE");
    reveal_strlit("IFCWASTETERMINAL");
    reveal_strlit("IFCAIRTERMINAL");
    reveal_strlit("IFCAIRTERMINALBOX");
    reveal_strlit("IFCSPACEHEATER");
    reveal_strlit("IFCDUCTSEGMENT");
    reveal_strlit("IFCDUCTFITTING");
    reveal_strlit("IFCFAN");
    reveal_strlit("IFCLIGHTFIXTURE");
    assert("IFCCABLESEGMENT"@.len() == 15);
    assert("IFCCABLECARRIERSEGMENT"@.len() == 22);
    assert("IFCCABLECARRIERFITTING"@.len() == 22);
    assert("IFCELECTRICAPPLIANCE"@.len() == 20);
    assert("IFCELECTRICDISTRIBUTIONBOARD"@.len() == 28);
    assert("IFCJUNCTIONBOX"@.len() == 14);
    assert("IFCOUTLET"@.len() == 9);
    assert("IFCSWITCHINGDEVICE"@.len() == 18);
    assert("IFCPIPESEGMENT"@.len() == 14);
    assert("IFCPIPEFITTING"@.len() == 14);
    assert("IFCSANITARYTERMINAL"@.len() == 19);
    assert("IFCVALVE"@.len() == 8);
    assert("IFCWASTETERMINAL"@.len() == 16);
    assert("IFCAIRTERMINAL"@.len() == 14);
    assert("IFCAIRTERMINALBOX"@.len() == 17);
    assert("IFCSPACEHEATER"@.len() == 14);
    assert("IFCDUCTSEGMENT"@.len() == 14);
    assert("IFCDUCTFITTING"@.len() == 14);
    assert("IFCFAN"@.len() == 6);
    assert("IFCLIGHTFIXTURE"@.len() == 15);
    assert("IFCCABLESEGMENT"@[3] != "IFCLIGHTFIXTURE"@[3]);
    assert("IFCCABLECARRIERSEGMENT"@[15] != "IFCCABLECARRIERFITTING"@[15]);
    assert("IFCJUNCTIONBOX"@[3] != "IFCPIPESEGMENT"@[3]);
    assert("IFCJUNCTIONBOX"@[3] != "IFCPIPEFITTING"@[3]);
    assert("IFCJUNCTIONBOX"@[3] != "IFCAIRTERMINAL"@[3]);
    assert("IFCJUNCTIONBOX"@[3] != "IFCSPACEHEATER"@[3]);
    assert("IFCJUNCTIONBOX"@[3] != "IFCDUCTSEGMENT"@[3]);
    assert("IFCJUNCTIONBOX"@[3] != "IFCDUCTFITTING"@[3]);
    assert("IFCPIPESEGMENT"@[7] != "IFCPIPEFITTING"@[7]);
    assert("IFCPIPESEGMENT"@[3] != "IFCAIRTERMINAL"@[3]);
    assert("IFCPIPESEGMENT"@[3] != "IFCSPACEHEATER"@[3]);
    assert("IFCPIPESEGMENT"@[3] != "IFCDUCTSEGMENT"@[3]);
    assert("IFCPIPESEGMENT"@[3] != "IFCDUCTFITTING"@[3]);
    assert("IFCPIPEFITTING"@[3] != "IFCAIRTERMINAL"@[3]);
    assert("IFCPIPEFITTING"@[3] != "IFCSPACEHEATER"@[3]);
    assert("IFCPIPEFITTING"@[3] != "IFCDUCTSEGMENT"@[3]);
    assert("IFCPIPEFITTING"@[3] != "IFCDUCTFITTING"@[3]);
    assert("IFCAIRTERMINAL"@[3] != "IFCSPACEHEATER"@[3]);
    assert("IFCAIRTERMINAL"@[3] != "IFCDUCTSEGMENT"@[3]);
    assert("IFCAIRTERMINAL"@[3] != "IFCDUCTFITTING"@[3]);
    assert("IFCSPACEHEATER"@[3] != "IFCDUCTSEGMENT"@[3]);
    assert("IFCSPACEHEATER"@[3] != "IFCDUCTFITTING"@[3]);
    assert("IFCDUCTSEGMENT"@[7] != "IFCDUCTFITTING"@[7]);
}

/// An entity class outside the MEP lists is classified as `Other`.
pub proof fn law_other_entity_classes(c: Seq<char>)
    requires
        !(c == "IFCCABLESEGMENT"@ || c == "IFCCABLECARRIERSEGMENT"@ || c == "IFCCABLECARRIERFITTING"@ || c == "IFCELECTRICAPPLIANCE"@ || c == "IFCELECTRICDISTRIBUTIONBOARD"@ || c == "IFCJUNCTIONBOX"@ || c == "IFCOUTLET"@ || c == "IFCSWITCHINGDEVICE"@ || c == "IFCPIPESEGMENT"@ || c == "IFCPIPEFITTING"@ || c == "IFCSANITARYTERMINAL"@ || c == "IFCVALVE"@ || c == "IFCWASTETERMINAL"@ || c == "IFCAIRTERMINAL"@ || c == "IFCAIRTERMINALBOX"@ || c == "IFCSPACEHEATER"@ || c == "IFCDUCTSEGMENT"@ || c == "IFCDUCTFITTING"@ || c == "IFCFAN"@ || c == "IFCLIGHTFIXTURE"@),
    ensures
        entity_class_discipline(c) == Discipline::Other,
{
}

/// A type object of an HVAC class gives HVAC, whatever its name.
pub proof fn law_hvac_type_classes(c: Seq<char>, name: Option<Seq<char>>)
    requires
        c == "IFCDUCTSEGMENTTYPE"@ || c == "IFCDUCTFITTINGTYPE"@ || c == "IFCAIRTERMINALTYPE"@ || c == "IFCAIRTERMINALBOXTYPE"@ || c == "IFCFANTYPE"@ || c == "IFCHEATEXCHANGERTYPE"@ || c == "IFCCOILTYPE"@ || c == "IFCBOILERTYPE"@ || c == "IFCCHILLERTYPE"@ || c == "IFCDAMPERTYPE"@ || c == "IFCSPACEHEATERTYPE"@,
    ensures
        type_name_discipline(c, name) == Discipline::Hvac,
{
    reveal_strlit("IFCDUCTSEGMENTTYPE");
    reveal_strlit("IFCDUCTFITTINGTYPE");
    reveal_strlit("IFCAIRTERMINALTYPE");
    reveal_strlit("IFCAIRTERMINALBOXTYPE");
    reveal_strlit("IFCFANTYPE");
    reveal_strlit("IFCHEATEXCHANGERTYPE");
    reveal_strlit("IFCCOILTYPE");
    reveal_strlit("IFCBOILERTYPE");
    reveal_strlit("IFCCHILLERTYPE");
    reveal_strlit("IFCDAMPERTYPE");
    reveal_strlit("IFCSPACEHEATERTYPE");
    reveal_strlit("IFCPIPESEGMENTTYPE");
    reveal_strlit("IFCPIPEFITTINGTYPE");
    reveal_strlit("IFCSANITARYTERMINALTYPE");
    reveal_strlit("IFCVALVETYPE");
    reveal_strlit("IFCWASTETERMINALTYPE");
    reveal_strlit("IFCPUMPTYPE");
    reveal_strlit("IFCTANKTYPE");
    reveal_strlit("IFCCABLESEGMENTTYPE");
    reveal_strlit("IFCCABLECARRIERSEGMENTTYPE");
    reveal_strlit("IFCCABLECARRIERFITTINGTYPE");
    reveal_strlit("IFCJUNCTIONBOXTYPE");
    reveal_strlit("IFCSWITCHINGDEVICETYPE");
    reveal_strlit("IFCOUTLETTYPE");
    reveal_strlit("IFCLIGHTFIXTURETYPE");
    reveal_strlit("IFCLAMPTYPE");
    assert("IFCDUCTSEGMENTTYPE"@.len() == 18);
    assert("IFCDUCTFITTINGTYPE"@.len() == 18);
    assert("IFCAIRTERMINALTYPE"@.len() == 18);
    assert("IFCAIRTERMINALBOXTYPE"@.len() == 21);
    assert("IFCFANTYPE"@.len() == 10);
    assert("IFCHEATEXCHANGERTYPE"@.len() == 20);
    assert("IFCCOILTYPE"@.len() == 11);
    assert("IFCBOILERTYPE"@.len() == 13);
    assert("IFCCHILLERTYPE"@.len() == 14);
    assert("IFCDAMPERTYPE"@.len() == 13);
    assert("IFCSPACEHEATERTYPE"@.len() == 18);
    assert("IFCPIPESEGMENTTYPE"@.len() == 18);
    assert("IFCPIPEFITTINGTYPE"@.len() == 18);
    assert("IFCSANITARYTERMINALTYPE"@.len() == 23);
    assert("IFCVALVETYPE"@.len() == 12);
    assert("IFCWASTETERMINALTYPE"@.len() == 20);
    assert("IFCPUMPTYPE"@.len() == 11);
    assert("IFCTANKTYPE"@.len() == 11);
    assert("IFCCABLESEGMENTTYPE"@.len() == 19);
    assert("IFCCABLECARRIERSEGMENTTYPE"@.len() == 26);
    assert("IFCCABLECARRIERFITTINGTYPE"@.len() == 26);
    assert("IFCJUNCTIONBOXTYPE"@.len() == 18);
    assert("IFCSWITCHINGDEVICETYPE"@.len() == 22);
    assert("IFCOUTLETTYPE"@.len() == 13);
    assert("IFCLIGHTFIXTURETYPE"@.len() == 19);
    assert("IFCLAMPTYPE"@.len() == 11);
    assert("IFCDUCTSEGMENTTYPE"@[7] != "IFCDUCTFITTINGTYPE"@[7]);
    assert("IFCDUCTSEGMENTTYPE"@[3] != "IFCAIRTERMINALTYPE"@[3]);
    assert("IFCDUCTSEGMENTTYPE"@[3] != "IFCSPACEHEATERTYPE"@[3]);
    assert("IFCDUCTSEGMENTTYPE"@[3] != "IFCPIPESEGMENTTYPE"@[3]);
    assert("IFCDUCTSEGMENTTYPE"@[3] != "IFCPIPEFITTINGTYPE"@[3]);
    assert("IFCDUCTSEGMENTTYPE"@[3] != "IFCJUNCTIONBOXTYPE"@[3]);
    assert("IFCDUCTFITTINGTYPE"@[3] != "IFCAIRTERMINALTYPE"@[3]);
    assert("IFCDUCTFITTINGTYPE"@[3] != "IFCSPACEHEATERTYPE"@[3]);
    assert("IFCDUCTFITTINGTYPE"@[3] != "IFCPIPESEGMENTTYPE"@[3]);
    assert("IFCDUCTFITTINGTYPE"@[3] != "IFCPIPEFITTINGTYPE"@[3]);
    assert("IFCDUCTFITTINGTYPE"@[3] != "IFCJUNCTIONBOXTYPE"@[3]);
    assert("IFCAIRTERMINALTYPE"@[3] != "IFCSPACEHEATERTYPE"@[3]);
    assert("IFCAIRTERMINALTYPE"@[3] != "IFCPIPESEGMENTTYPE"@[3]);
    assert("IFCAIRTERMINALTYPE"@[3] != "IFCPIPEFITTINGTYPE"@[3]);
    assert("IFCAIRTERMINALTYPE"@[3] != "IFCJUNCTIONBOXTYPE"@[3]);
    assert("IFCHEATEXCHANGERTYPE"@[3] != "IFCWASTETERMINALTYPE"@[3]);
    assert("IFCCOILTYPE"@[3] != "IFCPUMPTYPE"@[3]);
    assert("IFCCOILTYPE"@[3] != "IFCTANKTYPE"@[3]);
    assert("IFCCOILTYPE"@[3] != "IFCLAMPTYPE"@[3]);
    assert("IFCBOILERTYPE"@[3] != "IFCDAMPERTYPE"@[3]);
    assert("IFCBOILERTYPE"@[3] != "IFCOUTLETTYPE"@[3]);
    assert("IFCDAMPERTYPE"@[3] != "IFCOUTLETTYPE"@[3]);
    assert("IFCSPACEHEATERTYPE"@[3] != "IFCPIPESEGMENTTYPE"@[3]);
    assert("IFCSPACEHEATERTYPE"@[3] != "IFCPIPEFITTINGTYPE"@[3]);
    assert("IFCSPACEHEATERTYPE"@[3] != "IFCJUNCTIONBOXTYPE"@[3]);
    assert("IFCPIPESEGMENTTYPE"@[7] != "IFCPIPEFITTINGTYPE"@[7]);
    assert("IFCPIPESEGMENTTYPE"@[3] != "IFCJUNCTIONBOXTYPE"@[3]);
    assert("IFCPIPEFITTINGTYPE"@[3] != "IFCJUNCTIONBOXTYPE"@[3]);
    assert("IFCPUMPTYPE"@[3] != "IFCTANKTYPE"@[3]);
    assert("IFCPUMPTYPE"@[3] != "IFCLAMPTYPE"@[3]);
    assert("IFCTANKTYPE"@[3] != "IFCLAMPTYPE"@[3]);
    assert("IFCCABLESEGMENTTYPE"@[3] != "IFCLIGHTFIXTURETYPE"@[3]);
    assert("IFCCABLECARRIERSEGMENTTYPE"@[15] != "IFCCABLECARRIERFITTINGTYPE"@[15]);
}

/// A type object of a plumbing class gives plumbing, whatever its name.
pub proof fn law_plumbing_type_classes(c: Seq<char>, name: Option<Seq<char>>)
    requires
        c == "IFCPIPESEGMENTTYPE"@ || c == "IFCPIPEFITTINGTYPE"@ || c == "IFCSANITARYTERMINALTYPE"@ || c == "IFCVALVETYPE"@ || c == "IFCWASTETERMINALTYPE"@ || c == "IFCPUMPTYPE"@ || c == "IFCTANKTYPE"@,
    ensures
        type_name_discipline(c, name) == Discipline::Plumbing,
{
    reveal_strlit("IFCDUCTSEGMENTTYPE");
    reveal_strlit("IFCDUCTFITTINGTYPE");
    reveal_strlit("IFCAIRTERMINALTYPE");
    reveal_strlit("IFCAIRTERMINALBOXTYPE");
    reveal_strlit("IFCFANTYPE");
    reveal_strlit("IFCHEATEXCHANGERTYPE");
    reveal_strlit("IFCCOILTYPE");
    reveal_strlit("IFCBOILERTYPE");
    reveal_strlit("IFCCHILLERTYPE");
    reveal_strlit("IFCDAMPERTYPE");
    reveal_strlit("IFCSPACEHEATERTYPE");
    reveal_strlit("IFCPIPESEGMENTTYPE");
    reveal_strlit("IFCPIPEFITTINGTYPE");
    reveal_strlit("IFCSANITARYTERMINALTYPE");
    reveal_strlit("IFCVALVETYPE");
    reveal_strlit("IFCWASTETERMINALTYPE");
    reveal_strlit("IFCPUMPTYPE");
    reveal_strlit("IFCTANKTYPE");
    reveal_strlit("IFCCABLESEGMENTTYPE");
    reveal_strlit("IFCCABLECARRIERSEGMENTTYPE");
    reveal_strlit("IFCCABLECARRIERFITTINGTYPE");
    reveal_strlit("IFCJUNCTIONBOXTYPE");
    reveal_strlit("IFCSWITCHINGDEVICETYPE");
    reveal_strlit("IFCOUTLETTYPE");
    reveal_strlit("IFCLIGHTFIXTURETYPE");
    reveal_strlit("IFCLAMPTYPE");
    assert("IFCDUCTSEGMENTTYPE"@.len() == 18);
    assert("IFCDUCTFITTINGTYPE"@.len() == 18);
    assert("IFCAIRTERMINALTYPE"@.len() == 18);
    assert("IFCAIRTERMINALBOXTYPE"@.len() == 21);
    assert("IFCFANTYPE"@.len() == 10);
    assert("IFCHEATEXCHANGERTYPE"@.len() == 20);
    assert("IFCCOILTYPE"@.len() == 11);
    assert("IFCBOILERTYPE"@.len() == 13);
    assert("IFCCHILLERTYPE"@.len() == 14);
    assert("IFCDAMPERTYPE"@.len() == 13);
    assert("IFCSPACEHEATERTYPE"@.len() == 18);
    assert("IFCPIPESEGMENTTYPE"@.len() == 18);
    assert("IFCPIPEFITTINGTYPE"@.len() == 18);
    assert("IFCSANITARYTERMINALTYPE"@.len() == 23);
    assert("IFCVALVETYPE"@.len() == 12);
    assert("IFCWASTETERMINALTYPE"@.len() == 20);
    assert("IFCPUMPTYPE"@.len() == 11);
    assert("IFCTANKTYPE"@.len() == 11);
    assert("IFCCABLESEGMENTTYPE"@.len() == 19);
    assert("IFCCABLECARRIERSEGMENTTYPE"@.len() == 26);
    assert("IFCCABLECARRIERFITTINGTYPE"@.len() == 26);
    assert("IFCJUNCTIONBOXTYPE"@.len() == 18);
    assert("IFCSWITCHINGDEVICETYPE"@.len() == 22);
    assert("IFCOUTLETTYPE"@.len() == 13);
    assert("IFCLIGHTFIXTURETYPE"@.len() == 19);
    assert("IFCLAMPTYPE"@.len() == 11);
    assert("IFCDUCTSEGMENTTYPE"@[7] != "IFCDUCTFITTINGTYPE"@[7]);
    assert("IFCDUCTSEGMENTTYPE"@[3] != "IFCAIRTERMINALTYPE"@[3]);
    assert("IFCDUCTSEGMENTTYPE"@[3] != "IFCSPACEHEATERTYPE"@[3]);
    assert("IFCDUCTSEGMENTTYPE"@[3] != "IFCPIPESEGMENTTYPE"@[3]);
    assert("IFCDUCTSEGMENTTYPE"@[3] != "IFCPIPEFITTINGTYPE"@[3]);
    assert("IFCDUCTSEGMENTTYPE"@[3] != "IFCJUNCTIONBOXTYPE"@[3]);
    assert("IFCDUCTFITTINGTYPE"@[3] != "IFCAIRTERMINALTYPE"@[3]);
    assert("IFCDUCTFITTINGTYPE"@[3] != "IFCSPACEHEATERTYPE"@[3]);
    assert("IFCDUCTFITTINGTYPE"@[3] != "IFCPIPESEGMENTTYPE"@[3]);
    assert("IFCDUCTFITTINGTYPE"@[3] != "IFCPIPEFITTINGTYPE"@[3]);
    assert("IFCDUCTFITTINGTYPE"@[3] != "IFCJUNCTIONBOXTYPE"@[3]);
    assert("IFCAIRTERMINALTYPE"@[3] != "IFCSPACEHEATERTYPE"@[3]);
    assert("IFCAIRTERMINALTYPE"@[3] != "IFCPIPESEGMENTTYPE"@[3]);
    assert("IFCAIRTERMINALTYPE"@[3] != "IFCPIPEFITTINGTYPE"@[3]);
    assert("IFCAIRTERMINALTYPE"@[3] != "IFCJUNCTIONBOXTYPE"@[3]);
    assert("IFCHEATEXCHANGERTYPE"@[3] != "IFCWASTETERMINALTYPE"@[3]);
    assert("IFCCOILTYPE"@[3] != "IFCPUMPTYPE"@[3]);
    assert("IFCCOILTYPE"@[3] != "IFCTANKTYPE"@[3]);
    assert("IFCCOILTYPE"@[3] != "IFCLAMPTYPE"@[3]);
    assert("IFCBOILERTYPE"@[3] != "IFCDAMPERTYPE"@[3]);
    assert("IFCBOILERTYPE"@[3] != "IFCOUTLETTYPE"@[3]);
    assert("IFCDAMPERTYPE"@[3] != "IFCOUTLETTYPE"@[3]);
    assert("IFCSPACEHEATERTYPE"@[3] != "IFCPIPESEGMENTTYPE"@[3]);
    assert("IFCSPACEHEATERTYPE"@[3] != "IFCPIPEFITTINGTYPE"@[3]);
    assert("IFCSPACEHEATERTYPE"@[3] != "IFCJUNCTIONBOXTYPE"@[3]);
    assert("IFCPIPESEGMENTTYPE"@[7] != "IFCPIPEFITTINGTYPE"@[7]);
    assert("IFCPIPESEGMENTTYPE"@[3] != "IFCJUNCTIONBOXTYPE"@[3]);
    assert("IFCPIPEFITTINGTYPE"@[3] != "IFCJUNCTIONBOXTYPE"@[3]);
    assert("IFCPUMPTYPE"@[3] != "IFCTANKTYPE"@[3]);
    assert("IFCPUMPTYPE"@[3] != "IFCLAMPTYPE"@[3]);
    assert("IFCTANKTYPE"@[3] != "IFCLAMPTYPE"@[3]);
    assert("IFCCABLESEGMENTTYPE"@[3] != "IFCLIGHTFIXTURETYPE"@[3]);
    assert("IFCCABLECARRIERSEGMENTTYPE"@[15] != "IFCCABLECARRIERFITTINGTYPE"@[15]);
}

/// A type object of a electrical class gives electrical, whatever its name.
pub proof fn law_electrical_type_classes(c: Seq<char>, name: Option<Seq<char>>)
    requires
        c == "IFCCABLESEGMENTTYPE"@ || c == "IFCCABLECARRIERSEGMENTTYPE"@ || c == "IFCCABLECARRIERFITTINGTYPE"@ || c == "IFCJUNCTIONBOXTYPE"@ || c == "IFCSWITCHINGDEVICETYPE"@ || c == "IFCOUTLETTYPE"@,
    ensures
        type_name_discipline(c, name) == Discipline::Electrical,
{
    reveal_strlit("IFCDUCTSEGMENTTYPE");
    reveal_strlit("IFCDUCTFITTINGTYPE");
    reveal_strlit("IFCAIRTERMINALTYPE");
    reveal_strlit("IFCAIRTERMINALBOXTYPE");
    reveal_strlit("IFCFANTYPE");
    reveal_strlit("IFCHEATEXCHANGERTYPE");
    reveal_strlit("IFCCOILTYPE");
    reveal_strlit("IFCBOILERTYPE");
    reveal_strlit("IFCCHILLERTYPE");
    reveal_strlit("IFCDAMPERTYPE");
    reveal_strlit("IFCSPACEHEATERTYPE");
    reveal_strlit("IFCPIPESEGMENTTYPE");
    reveal_strlit("IFCPIPEFITTINGTYPE");
    reveal_strlit("IFCSANITARYTERMINALTYPE");
    reveal_strlit("IFCVALVETYPE");
    reveal_strlit("IFCWASTETERMINALTYPE");
    reveal_strlit("IFCPUMPTYPE");
    reveal_strlit("IFCTANKTYPE");
    reveal_strlit("IFCCABLESEGMENTTYPE");
    reveal_strlit("IFCCABLECARRIERSEGMENTTYPE");
    reveal_strlit("IFCCABLECARRIERFITTINGTYPE");
    reveal_strlit("IFCJUNCTIONBOXTYPE");
    reveal_strlit("IFCSWITCHINGDEVICETYPE");
    reveal_strlit("IFCOUTLETTYPE");
    reveal_strlit("IFCLIGHTFIXTURETYPE");
    reveal_strlit("IFCLAMPTYPE");
    assert("IFCDUCTSEGMENTTYPE"@.len() == 18);
    assert("IFCDUCTFITTINGTYPE"@.len() == 18);
    assert("IFCAIRTERMINALTYPE"@.len() == 18);
    assert("IFCAIRTERMINALBOXTYPE"@.len() == 21);
    assert("IFCFANTYPE"@.len() == 10);
    assert("IFCHEATEXCHANGERTYPE"@.len() == 20);
    assert("IFCCOILTYPE"@.len() == 11);
    assert("IFCBOILERTYPE"@.len() == 13);
    assert("IFCCHILLERTYPE"@.len() == 14);
    assert("IFCDAMPERTYPE"@.len() == 13);
    assert("IFCSPACEHEATERTYPE"@.len() == 18);
    assert("IFCPIPESEGMENTTYPE"@.len() == 18);
    assert("IFCPIPEFITTINGTYPE"@.len() == 18);
    assert("IFCSANITARYTERMINALTYPE"@.len() == 23);
    assert("IFCVALVETYPE"@.len() == 12);
    assert("IFCWASTETERMINALTYPE"@.len() == 20);
    assert("IFCPUMPTYPE"@.len() == 11);
    assert("IFCTANKTYPE"@.len() == 11);
    assert("IFCCABLESEGMENTTYPE"@.len() == 19);
    assert("IFCCABLECARRIERSEGMENTTYPE"@.len() == 26);
    assert("IFCCABLECARRIERFITTINGTYPE"@.len() == 26);
    assert("IFCJUNCTIONBOXTYPE"@.len() == 18);
    assert("IFCSWITCHINGDEVICETYPE"@.len() == 22);
    assert("IFCOUTLETTYPE"@.len() == 13);
    assert("IFCLIGHTFIXTURETYPE"@.len() == 19);
    assert("IFCLAMPTYPE"@.len() == 11);
    assert("IFCDUCTSEGMENTTYPE"@[7] != "IFCDUCTFITTINGTYPE"@[7]);
    assert("IFCDUCTSEGMENTTYPE"@[3] != "IFCAIRTERMINALTYPE"@[3]);
    assert("IFCDUCTSEGMENTTYPE"@[3] != "IFCSPACEHEATERTYPE"@[3]);
    assert("IFCDUCTSEGMENTTYPE"@[3] != "IFCPIPESEGMENTTYPE"@[3]);
    assert("IFCDUCTSEGMENTTYPE"@[3] != "IFCPIPEFITTINGTYPE"@[3]);
    assert("IFCDUCTSEGMENTTYPE"@[3] != "IFCJUNCTIONBOXTYPE"@[3]);
    assert("IFCDUCTFITTINGTYPE"@[3] != "IFCAIRTERMINALTYPE"@[3]);
    assert("IFCDUCTFITTINGTYPE"@[3] != "IFCSPACEHEATERTYPE"@[3]);
    assert("IFCDUCTFITTINGTYPE"@[3] != "IFCPIPESEGMENTTYPE"@[3]);
    assert("IFCDUCTFITTINGTYPE"@[3] != "IFCPIPEFITTINGTYPE"@[3]);
    assert("IFCDUCTFITTINGTYPE"@[3] != "IFCJUNCTIONBOXTYPE"@[3]);
    assert("IFCAIRTERMINALTYPE"@[3] != "IFCSPACEHEATERTYPE"@[3]);
    assert("IFCAIRTERMINALTYPE"@[3] != "IFCPIPESEGMENTTYPE"@[3]);
    assert("IFCAIRTERMINALTYPE"@[3] != "IFCPIPEFITTINGTYPE"@[3]);
    assert("IFCAIRTERMINALTYPE"@[3] != "IFCJUNCTIONBOXTYPE"@[3]);
    assert("IFCHEATEXCHANGERTYPE"@[3] != "IFCWASTETERMINALTYPE"@[3]);
    assert("IFCCOILTYPE"@[3] != "IFCPUMPTYPE"@[3]);
    assert("IFCCOILTYPE"@[3] != "IFCTANKTYPE"@[3]);
    assert("IFCCOILTYPE"@[3] != "IFCLAMPTYPE"@[3]);
    assert("IFCBOILERTYPE"@[3] != "IFCDAMPERTYPE"@[3]);
    assert("IFCBOILERTYPE"@[3] != "IFCOUTLETTYPE"@[3]);
    assert("IFCDAMPERTYPE"@[3] != "IFCOUTLETTYPE"@[3]);
    assert("IFCSPACEHEATERTYPE"@[3] != "IFCPIPESEGMENTTYPE"@[3]);
    assert("IFCSPACEHEATERTYPE"@[3] != "IFCPIPEFITTINGTYPE"@[3]);
    assert("IFCSPACEHEATERTYPE"@[3] != "IFCJUNCTIONBOXTYPE"@[3]);
    assert("IFCPIPESEGMENTTYPE"@[7] != "IFCPIPEFITTINGTYPE"@[7]);
    assert("IFCPIPESEGMENTTYPE"@[3] != "IFCJUNCTIONBOXTYPE"@[3]);
    assert("IFCPIPEFITTINGTYPE"@[3] != "IFCJUNCTIONBOXTYPE"@[3]);
    assert("IFCPUMPTYPE"@[3] != "IFCTANKTYPE"@[3]);
    assert("IFCPUMPTYPE"@[3] != "IFCLAMPTYPE"@[3]);
    assert("IFCTANKTYPE"@[3] != "IFCLAMPTYPE"@[3]);
    assert("IFCCABLESEGMENTTYPE"@[3] != "IFCLIGHTFIXTURETYPE"@[3]);
    assert("IFCCABLECARRIERSEGMENTTYPE"@[15] != "IFCCABLECARRIERFITTINGTYPE"@[15]);
}

/// A type object of a lighting class gives lighting, whatever its name.
pub proof fn law_lighting_type_classes(c: Seq<char>, name: Option<Seq<char>>)
    requires
        c == "IFCLIGHTFIXTURETYPE"@ || c == "IFCLAMPTYPE"@,
    ensures
        type_name_discipline(c, name) == Discipline::Lighting,
{
    reveal_strlit("IFCDUCTSEGMENTTYPE");
    reveal_strlit("IFCDUCTFITTINGTYPE");
    reveal_strlit("IFCAIRTERMINALTYPE");
    reveal_strlit("IFCAIRTERMINALBOXTYPE");
    reveal_strlit("IFCFANTYPE");
    reveal_strlit("IFCHEATEXCHANGERTYPE");
    reveal_strlit("IFCCOILTYPE");
    reveal_strlit("IFCBOILERTYPE");
    reveal_strlit("IFCCHILLERTYPE");
    reveal_strlit("IFCDAMPERTYPE");
    reveal_strlit("IFCSPACEHEATERTYPE");
    reveal_strlit("IFCPIPESEGMENTTYPE");
    reveal_strlit("IFCPIPEFITTINGTYPE");
    reveal_strlit("IFCSANITARYTERMINALTYPE");
    reveal_strlit("IFCVALVETYPE");
    reveal_strlit("IFCWASTETERMINALTYPE");
    reveal_strlit("IFCPUMPTYPE");
    reveal_strlit("IFCTANKTYPE");
    reveal_strlit("IFCCABLESEGMENTTYPE");
    reveal_strlit("IFCCABLECARRIERSEGMENTTYPE");
    reveal_strlit("IFCCABLECARRIERFITTINGTYPE");
    reveal_strlit("IFCJUNCTIONBOXTYPE");
    reveal_strlit("IFCSWITCHINGDEVICETYPE");
    reveal_strlit("IFCOUTLETTYPE");
    reveal_strlit("IFCLIGHTFIXTURETYPE");
    reveal_strlit("IFCLAMPTYPE");
    assert("IFCDUCTSEGMENTTYPE"@.len() == 18);
    assert("IFCDUCTFITTINGTYPE"@.len() == 18);
    assert("IFCAIRTERMINALTYPE"@.len() == 18);
    assert("IFCAIRTERMINALBOXTYPE"@.len() == 21);
    assert("IFCFANTYPE"@.len() == 10);
    assert("IFCHEATEXCHANGERTYPE"@.len() == 20);
    assert("IFCCOILTYPE"@.len() == 11);
    assert("IFCBOILERTYPE"@.len() == 13);
    assert("IFCCHILLERTYPE"@.len() == 14);
    assert("IFCDAMPERTYPE"@.len() == 13);
    assert("IFCSPACEHEATERTYPE"@.len() == 18);
    assert("IFCPIPESEGMENTTYPE"@.len() == 18);
    assert("IFCPIPEFITTINGTYPE"@.len() == 18);
    assert("IFCSANITARYTERMINALTYPE"@.len() == 23);
    assert("IFCVALVETYPE"@.len() == 12);
    assert("IFCWASTETERMINALTYPE"@.len() == 20);
    assert("IFCPUMPTYPE"@.len() == 11);
    assert("IFCTANKTYPE"@.len() == 11);
    assert("IFCCABLESEGMENTTYPE"@.len() == 19);
    assert("IFCCABLECARRIERSEGMENTTYPE"@.len() == 26);
    assert("IFCCABLECARRIERFITTINGTYPE"@.len() == 26);
    assert("IFCJUNCTIONBOXTYPE"@.len() == 18);
    assert("IFCSWITCHINGDEVICETYPE"@.len() == 22);
    assert("IFCOUTLETTYPE"@.len() == 13);
    assert("IFCLIGHTFIXTURETYPE"@.len() == 19);
    assert("IFCLAMPTYPE"@.len() == 11);
    assert("IFCDUCTSEGMENTTYPE"@[7] != "IFCDUCTFITTINGTYPE"@[7]);
    assert("IFCDUCTSEGMENTTYPE"@[3] != "IFCAIRTERMINALTYPE"@[3]);
    assert("IFCDUCTSEGMENTTYPE"@[3] != "IFCSPACEHEATERTYPE"@[3]);
    assert("IFCDUCTSEGMENTTYPE"@[3] != "IFCPIPESEGMENTTYPE"@[3]);
    assert("IFCDUCTSEGMENTTYPE"@[3] != "IFCPIPEFITTINGTYPE"@[3]);
    assert("IFCDUCTSEGMENTTYPE"@[3] != "IFCJUNCTIONBOXTYPE"@[3]);
    assert("IFCDUCTFITTINGTYPE"@[3] != "IFCAIRTERMINALTYPE"@[3]);
    assert("IFCDUCTFITTINGTYPE"@[3] != "IFCSPACEHEATERTYPE"@[3]);
    assert("IFCDUCTFITTINGTYPE"@[3] != "IFCPIPESEGMENTTYPE"@[3]);
    assert("IFCDUCTFITTINGTYPE"@[3] != "IFCPIPEFITTINGTYPE"@[3]);
    assert("IFCDUCTFITTINGTYPE"@[3] != "IFCJUNCTIONBOXTYPE"@[3]);
    assert("IFCAIRTERMINALTYPE"@[3] != "IFCSPACEHEATERTYPE"@[3]);
    assert("IFCAIRTERMINALTYPE"@[3] != "IFCPIPESEGMENTTYPE"@[3]);
    assert("IFCAIRTERMINALTYPE"@[3] != "IFCPIPEFITTINGTYPE"@[3]);
    assert("IFCAIRTERMINALTYPE"@[3] != "IFCJUNCTIONBOXTYPE"@[3]);
    assert("IFCHEATEXCHANGERTYPE"@[3] != "IFCWASTETERMINALTYPE"@[3]);
    assert("IFCCOILTYPE"@[3] != "IFCPUMPTYPE"@[3]);
    assert("IFCCOILTYPE"@[3] != "IFCTANKTYPE"@[3]);
    assert("IFCCOILTYPE"@[3] != "IFCLAMPTYPE"@[3]);
    assert("IFCBOILERTYPE"@[3] != "IFCDAMPERTYPE"@[3]);
    assert("IFCBOILERTYPE"@[3] != "IFCOUTLETTYPE"@[3]);
    assert("IFCDAMPERTYPE"@[3] != "IFCOUTLETTYPE"@[3]);
    assert("IFCSPACEHEATERTYPE"@[3] != "IFCPIPESEGMENTTYPE"@[3]);
    assert("IFCSPACEHEATERTYPE"@[3] != "IFCPIPEFITTINGTYPE"@[3]);
    assert("IFCSPACEHEATERTYPE"@[3] != "IFCJUNCTIONBOXTYPE"@[3]);
    assert("IFCPIPESEGMENTTYPE"@[7] != "IFCPIPEFITTINGTYPE"@[7]);
    assert("IFCPIPESEGMENTTYPE"@[3] != "IFCJUNCTIONBOXTYPE"@[3]);
    assert("IFCPIPEFITTINGTYPE"@[3] != "IFCJUNCTIONBOXTYPE"@[3]);
    assert("IFCPUMPTYPE"@[3] != "IFCTANKTYPE"@[3]);
    assert("IFCPUMPTYPE"@[3] != "IFCLAMPTYPE"@[3]);
    assert("IFCTANKTYPE"@[3] != "IFCLAMPTYPE"@[3]);
    assert("IFCCABLESEGMENTTYPE"@[3] != "IFCLIGHTFIXTURETYPE"@[3]);
    assert("IFCCABLECARRIERSEGMENTTYPE"@[15] != "IFCCABLECARRIERFITTINGTYPE"@[15]);
}

/// A type object of any other class is classified by the keywords of its
/// name, and as `Other` when it has none.
pub proof fn law_other_type_classes(c: Seq<char>, name: Seq<char>)
    requires
        !(c == "IFCDUCTSEGMENTTYPE"@ || c == "IFCDUCTFITTINGTYPE"@ || c == "IFCAIRTERMINALTYPE"@ || c == "IFCAIRTERMINALBOXTYPE"@ || c == "IFCFANTYPE"@ || c == "IFCHEATEXCHANGERTYPE"@ || c == "IFCCOILTYPE"@ || c == "IFCBOILERTYPE"@ || c == "IFCCHILLERTYPE"@ || c == "IFCDAMPERTYPE"@ || c == "IFCSPACEHEATERTYPE"@ || c == "IFCPIPESEGMENTTYPE"@ || c == "IFCPIPEFITTINGTYPE"@ || c == "IFCSANITARYTERMINALTYPE"@ || c == "IFCVALVETYPE"@ || c == "IFCWASTETERMINALTYPE"@ || c == "IFCPUMPTYPE"@ || c == "IFCTANKTYPE"@ || c == "IFCCABLESEGMENTTYPE"@ || c == "IFCCABLECARRIERSEGMENTTYPE"@ || c == "IFCCABLECARRIERFITTINGTYPE"@ || c == "IFCJUNCTIONBOXTYPE"@ || c == "IFCSWITCHINGDEVICETYPE"@ || c == "IFCOUTLETTYPE"@ || c == "IFCLIGHTFIXTURETYPE"@ || c == "IFCLAMPTYPE"@),
    ensures
        type_name_discipline(c, Some(name)) == name_discipline(name),
        type_name_discipline(c, None) == Discipline::Other,
{
}

/// A name holding a lighting keyword (in any ASCII case), and none of
/// the keywords tried before, is classified as lighting.
pub proof fn law_lighting_names(name: Seq<char>)
    requires
        has_substring(ascii_lower(name), "troffer"@) || has_substring(ascii_lower(name), "fixture"@) || has_substring(ascii_lower(name), " lamp"@),
    ensures
        name_discipline(name) == Discipline::Lighting,
{
}

/// A name holding an HVAC keyword (in any ASCII case), and none of
/// the keywords tried before, is classified as HVAC.
pub proof fn law_hvac_names(name: Seq<char>)
    requires
        !(has_substring(ascii_lower(name), "troffer"@) || has_substring(ascii_lower(name), "fixture"@) || has_substring(ascii_lower(name), " lamp"@)),
        has_substring(ascii_lower(name), "diffuser"@) || has_substring(ascii_lower(name), "duct"@) || has_substring(ascii_lower(name), "hvac"@) || has_substring(ascii_lower(name), "supply air"@) || has_substring(ascii_lower(name), "return air"@) || has_substring(ascii_lower(name), "vav"@) || has_substring(ascii_lower(name), "fan "@) || has_substring(ascii_lower(name), "coil"@) || has_substring(ascii_lower(name), "damper"@),
    ensures
        name_discipline(name) == Discipline::Hvac,
{
}

/// A name holding a plumbing keyword (in any ASCII case), and none of
/// the keywords tried before, is classified as plumbing.
pub proof fn law_plumbing_names(name: Seq<char>)
    requires
        !(has_substring(ascii_lower(name), "troffer"@) || has_substring(ascii_lower(name), "fixture"@) || has_substring(ascii_lower(name), " lamp"@)),
        !(has_substring(ascii_lower(name), "diffuser"@) || has_substring(ascii_lower(name), "duct"@) || has_substring(ascii_lower(name), "hvac"@) || has_substring(ascii_lower(name), "supply air"@) || has_substring(ascii_lower(name), "return air"@) || has_substring(ascii_lower(name), "vav"@) || has_substring(ascii_lower(name), "fan "@) || has_substring(ascii_lower(name), "coil"@) || has_substring(ascii_lower(name), "damper"@)),
        has_substring(ascii_lower(name), "pipe"@) || has_substring(ascii_lower(name), "plumb"@) || has_substring(ascii_lower(name), "sanitary"@) || has_substring(ascii_lower(name), "waste"@) || has_substring(ascii_lower(name), "water"@) || has_substring(ascii_lower(name), "hydronic"@) || has_substring(ascii_lower(name), "sprinkler"@),
    ensures
        name_discipline(name) == Discipline::Plumbing,
{
}

/// A name holding an electrical keyword (in any ASCII case), and none of
/// the keywords tried before, is classified as electrical.
pub proof fn law_electrical_names(name: Seq<char>)
    requires
        !(has_substring(ascii_lower(name), "troffer"@) || has_substring(ascii_lower(name), "fixture"@) || has_substring(ascii_lower(name), " lamp"@)),
        !(has_substring(ascii_lower(name), "diffuser"@) || has_substring(ascii_lower(name), "duct"@) || has_substring(ascii_lower(name), "hvac"@) || has_substring(ascii_lower(name), "supply air"@) || has_substring(ascii_lower(name), "return air"@) || has_substring(ascii_lower(name), "vav"@) || has_substring(ascii_lower(name), "fan "@) || has_substring(ascii_lower(name), "coil"@) || has_substring(ascii_lower(name), "damper"@)),
        !(has_substring(ascii_lower(name), "pipe"@) || has_substring(ascii_lower(name), "plumb"@) || has_substring(ascii_lower(name), "sanitary"@) || has_substring(ascii_lower(name), "waste"@) || has_substring(ascii_lower(name), "water"@) || has_substring(ascii_lower(name), "hydronic"@) || has_substring(ascii_lower(name), "sprinkler"@)),
        has_substring(ascii_lower(name), "cable"@) || has_substring(ascii_lower(name), "conduit"@) || has_substring(ascii_lower(name), "electric"@) || has_substring(ascii_lower(name), "circuit"@) || has_substring(ascii_lower(name), "panel"@) || has_substring(ascii_lower(name), "junction"@) || has_substring(ascii_lower(name), "outlet"@),
    ensures
        name_discipline(name) == Discipline::Electrical,
{
}

/// A name holding no keyword is classified as `Other`.
pub proof fn law_other_names(name: Seq<char>)
    requires
        !(has_substring(ascii_lower(name), "troffer"@) || has_substring(ascii_lower(name), "fixture"@) || has_substring(ascii_lower(name), " lamp"@)),
        !(has_substring(ascii_lower(name), "diffuser"@) || has_substring(ascii_lower(name), "duct"@) || has_substring(ascii_lower(name), "hvac"@) || has_substring(ascii_lower(name), "supply air"@) || has_substring(ascii_lower(name), "return air"@) || has_substring(ascii_lower(name), "vav"@) || has_substring(ascii_lower(name), "fan "@) || has_substring(ascii_lower(name), "coil"@) || has_substring(ascii_lower(name), "damper"@)),
        !(has_substring(ascii_lower(name), "pipe"@) || has_substring(ascii_lower(name), "plumb"@) || has_substring(ascii_lower(name), "sanitary"@) || has_substring(ascii_lower(name), "waste"@) || has_substring(ascii_lower(name), "water"@) || has_substring(ascii_lower(name), "hydronic"@) || has_substring(ascii_lower(name), "sprinkler"@)),
        !(has_substring(ascii_lower(name), "cable"@) || has_substring(ascii_lower(name), "conduit"@) || has_substring(ascii_lower(name), "electric"@) || has_substring(ascii_lower(name), "circuit"@) || has_substring(ascii_lower(name), "panel"@) || has_substring(ascii_lower(name), "junction"@) || has_substring(ascii_lower(name), "outlet"@)),
    ensures
        name_discipline(name) == Discipline::Other,
{
}

} // verus!
