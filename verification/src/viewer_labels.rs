//! Labels shown by the native viewer's panels: the toolbar's short filter
//! labels, the sources panel's discipline column and the hierarchy's entity
//! rows.

use vstd::prelude::*;

use crate::federation::source::{Discipline, ViewFilter};
use crate::text::{chars_eq_str, chars_of, decimal, decimal_chars, has_prefix, push_chars, push_str, string_from_chars};

verus! {

/// The toolbar's compact label of a filter.
pub open spec fn spec_short_label(filter: ViewFilter) -> Seq<char> {
    match filter {
        ViewFilter::All => "All"@,
        ViewFilter::Architecture => "Arch"@,
        ViewFilter::Discipline(Discipline::Electrical) => "Elec"@,
        ViewFilter::Discipline(Discipline::Plumbing) => "Plumb"@,
        ViewFilter::Discipline(Discipline::Hvac) => "HVAC"@,
        ViewFilter::Discipline(Discipline::Lighting) => "Light"@,
        ViewFilter::Discipline(Discipline::Other) => "Other"@,
    }
}

/// Compact label of a filter for the toolbar buttons.
pub fn short_label(filter: ViewFilter) -> (r: &'static str)
    ensures
        r@ == spec_short_label(filter),
{
    match filter {
        ViewFilter::All => "All",
        ViewFilter::Architecture => "Arch",
        ViewFilter::Discipline(Discipline::Electrical) => "Elec",
        ViewFilter::Discipline(Discipline::Plumbing) => "Plumb",
        ViewFilter::Discipline(Discipline::Hvac) => "HVAC",
        ViewFilter::Discipline(Discipline::Lighting) => "Light",
        ViewFilter::Discipline(Discipline::Other) => "Other",
    }
}

/// The sources panel's discipline column: `"(per-entity)"` without a
/// whole-file hint, else icon, space, short label.
pub open spec fn spec_discipline_label(d: Option<Discipline>) -> Seq<char> {
    match d {
        None => "(per-entity)"@,
        Some(d) => d.spec_icon() + " "@ + d.spec_short(),
    }
}

/// Discipline column text of the sources panel.
pub fn discipline_label(d: Option<Discipline>) -> (r: String)
    ensures
        r@ == spec_discipline_label(d),
{
    match d {
        None => "(per-entity)".to_owned(),
        Some(d) => {
            let mut v: Vec<char> = Vec::new();
            push_str(&mut v, d.icon());
            push_str(&mut v, " ");
            push_str(&mut v, d.short());
            string_from_chars(&v)
        },
    }
}

/// The entity type with a leading `"Ifc"` removed when present.
pub open spec fn short_type(entity_type: Seq<char>) -> Seq<char> {
    if has_prefix(entity_type, "Ifc"@) {
        entity_type.subrange(3, entity_type.len() as int)
    } else {
        entity_type
    }
}

/// A hierarchy row: `"<type> · <name>"` when the entity has a name that is
/// neither empty nor `"$"`, else `"<type> #<id>"`, where `<type>` drops a
/// leading `"Ifc"`.
pub open spec fn spec_display_label(entity_type: Seq<char>, name: Option<Seq<char>>, id: nat) -> Seq<char> {
    match name {
        Some(n) if n.len() > 0 && n != "$"@ => short_type(entity_type) + " · "@ + n,
        _ => short_type(entity_type) + " #"@ + decimal(id),
    }
}

/// Text of an entity's row in the hierarchy panel.
pub fn display_label(entity_type: &str, name: Option<&str>, id: u64) -> (r: String)
    ensures
        r@ == spec_display_label(
            entity_type@,
            match name {
                Some(n) => Some(n@),
                None => None,
            },
            id as nat,
        ),
{
    let t = chars_of(entity_type);
    let mut v: Vec<char> = Vec::new();
    let starts = t.len() >= 3 && t[0] == 'I' && t[1] == 'f' && t[2] == 'c';
    proof {
        reveal_strlit("Ifc");
        assert("Ifc"@ =~= seq!['I', 'f', 'c']);
        if t@.len() >= 3 {
            assert(starts == (t@.subrange(0, 3) =~= "Ifc"@));
        } else {
            assert(!has_prefix(t@, "Ifc"@));
        }
    }
    let mut i: usize = if starts { 3 } else { 0 };
    let ghost i0 = i;
    while i < t.len()
        invariant
            i0 <= i <= t@.len(),
            v@ == t@.subrange(i0 as int, i as int),
        decreases t@.len() - i,
    {
        v.push(t[i]);
        i = i + 1;
        assert(v@ =~= t@.subrange(i0 as int, i as int));
    }
    assert(v@ == short_type(entity_type@));
    match name {
        Some(n) => {
            let nc = chars_of(n);
            if nc.len() > 0 && !chars_eq_str(&nc, "$") {
                push_str(&mut v, " · ");
                push_chars(&mut v, &nc);
                return string_from_chars(&v);
            }
        },
        None => {},
    }
    push_str(&mut v, " #");
    let digits = decimal_chars(id);
    push_chars(&mut v, &digits);
    string_from_chars(&v)
}

} // verus!
