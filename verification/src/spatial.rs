//! The spatial structure entries of the web viewer's loader: which entity
//! types become nodes of the spatial tree, what each node is called, and
//! the kind of node a type makes.

use vstd::prelude::*;

use crate::model::attribute::{text_of, DecodedEntity};
use crate::model::ifc_type::{str_to_uppercase, to_uppercase};
use crate::text::{chars_eq_str, chars_of, decimal, decimal_chars, push_chars, push_str, string_from_chars};

verus! {

/// The kind of a spatial tree node.
#[derive(Clone, Copy, Debug, PartialEq, Eq, Structural)]
pub enum SpatialKind {
    Project,
    Site,
    Building,
    Storey,
    Space,
    Element,
}

/// The node kind of an upper-cased entity type name.
pub open spec fn kind_of_upper(u: Seq<char>) -> SpatialKind {
    if u == "IFCPROJECT"@ {
        SpatialKind::Project
    } else if u == "IFCSITE"@ {
        SpatialKind::Site
    } else if u == "IFCBUILDING"@ {
        SpatialKind::Building
    } else if u == "IFCBUILDINGSTOREY"@ {
        SpatialKind::Storey
    } else if u == "IFCSPACE"@ {
        SpatialKind::Space
    } else {
        SpatialKind::Element
    }
}

/// The node kind of an already upper-cased entity type name.
pub fn kind_from_upper(upper: &str) -> (r: SpatialKind)
    ensures
        r == kind_of_upper(upper@),
{
    let u = chars_of(upper);
    if chars_eq_str(&u, "IFCPROJECT") {
        SpatialKind::Project
    } else if chars_eq_str(&u, "IFCSITE") {
        SpatialKind::Site
    } else if chars_eq_str(&u, "IFCBUILDING") {
        SpatialKind::Building
    } else if chars_eq_str(&u, "IFCBUILDINGSTOREY") {
        SpatialKind::Storey
    } else if chars_eq_str(&u, "IFCSPACE") {
        SpatialKind::Space
    } else {
        SpatialKind::Element
    }
}

/// The node kind of an entity type name, in any case (upper-cased with
/// `str::to_uppercase`).
pub fn node_kind(entity_type: &str) -> (r: SpatialKind)
    ensures
        r == kind_of_upper(str_to_uppercase(entity_type@)),
{
    let upper = to_uppercase(entity_type);
    kind_from_upper(upper.as_str())
}

/// The name of a spatial tree entry, or `None` for a type that makes no
/// entry: project, site and building take their Name or a generic word;
/// storeys and spaces their Name or `"Storey #<id>"` / `"Space #<id>"`;
/// element assemblies and light fixtures their Name or `"<type> #<id>"`.
pub open spec fn spatial_label(upper: Seq<char>, written_type: Seq<char>, id: u32, name: Option<Seq<char>>) -> Option<Seq<char>> {
    let or_else = |d: Seq<char>| match name {
        Some(n) => n,
        None => d,
    };
    if upper == "IFCPROJECT"@ {
        Some(or_else("Project"@))
    } else if upper == "IFCSITE"@ {
        Some(or_else("Site"@))
    } else if upper == "IFCBUILDING"@ {
        Some(or_else("Building"@))
    } else if upper == "IFCBUILDINGSTOREY"@ {
        Some(or_else("Storey #"@ + decimal(id as nat)))
    } else if upper == "IFCSPACE"@ {
        Some(or_else("Space #"@ + decimal(id as nat)))
    } else if upper == "IFCELEMENTASSEMBLY"@ || upper == "IFCLIGHTFIXTURE"@ {
        Some(or_else(written_type + " #"@ + decimal(id as nat)))
    } else {
        None
    }
}

/// [`spatial_label`] for an already upper-cased type name and the entity's
/// Name attribute.
pub fn spatial_label_for(upper: &str, written_type: &str, id: u32, name: Option<&str>) -> (r: Option<String>)
    ensures
        match r {
            Some(s) => spatial_label(upper@, written_type@, id, match name {
                Some(n) => Some(n@),
                None => None,
            }) == Some(s@),
            None => spatial_label(upper@, written_type@, id, match name {
                Some(n) => Some(n@),
                None => None,
            }) is None,
        },
{
    let u = chars_of(upper);
    let mut fallback: Vec<char> = Vec::new();
    if chars_eq_str(&u, "IFCPROJECT") {
        push_str(&mut fallback, "Project");
    } else if chars_eq_str(&u, "IFCSITE") {
        push_str(&mut fallback, "Site");
    } else if chars_eq_str(&u, "IFCBUILDING") {
        push_str(&mut fallback, "Building");
    } else if chars_eq_str(&u, "IFCBUILDINGSTOREY") {
        push_str(&mut fallback, "Storey #");
        let d = decimal_chars(id as u64);
        push_chars(&mut fallback, &d);
    } else if chars_eq_str(&u, "IFCSPACE") {
        push_str(&mut fallback, "Space #");
        let d = decimal_chars(id as u64);
        push_chars(&mut fallback, &d);
    } else if chars_eq_str(&u, "IFCELEMENTASSEMBLY") || chars_eq_str(&u, "IFCLIGHTFIXTURE") {
        push_str(&mut fallback, written_type);
        push_str(&mut fallback, " #");
        let d = decimal_chars(id as u64);
        push_chars(&mut fallback, &d);
    } else {
        return None;
    }
    proof {
        assert(Seq::<char>::empty() + "Project"@ =~= "Project"@);
        assert(Seq::<char>::empty() + "Site"@ =~= "Site"@);
        assert(Seq::<char>::empty() + "Building"@ =~= "Building"@);
        assert(Seq::<char>::empty() + "Storey #"@ =~= "Storey #"@);
        assert(Seq::<char>::empty() + "Space #"@ =~= "Space #"@);
        assert(Seq::<char>::empty() + written_type@ =~= written_type@);
    }
    match name {
        Some(n) => Some(n.to_string()),
        None => Some(string_from_chars(&fallback)),
    }
}

/// The spatial tree entry name of a decoded entity whose type name (as
/// written in the file) is `written_type`; its Name is attribute 2.
pub fn spatial_label_of(written_type: &str, id: u32, entity: &DecodedEntity) -> (r: Option<String>)
    ensures
        match r {
            Some(s) => spatial_label(str_to_uppercase(written_type@), written_type@, id, match entity.attr(2) {
                Some(v) => text_of(v),
                None => None,
            }) == Some(s@),
            None => spatial_label(str_to_uppercase(written_type@), written_type@, id, match entity.attr(2) {
                Some(v) => text_of(v),
                None => None,
            }) is None,
        },
{
    let upper = to_uppercase(written_type);
    let name = entity.get_string(2);
    spatial_label_for(upper.as_str(), written_type, id, name)
}

} // verus!
