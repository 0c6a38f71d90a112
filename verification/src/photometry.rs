//! Picking out the photometric data a model embeds for its light fixtures:
//! the LDT text kept in `Pset_Photometry`, and the sector a floodlight
//! panel belongs to by its name.

use vstd::prelude::*;

use crate::ffi::{Property, PropertySet};
use crate::model::ifc_type::{str_to_uppercase, to_uppercase};
use crate::step_lines::{first_index, lemma_first_index};
use crate::text::{chars_eq_str, chars_of, string_from_chars};

verus! {

/// The pieces of `s` between occurrences of `c`, as `str::split` gives
/// them (always at least one).
pub open spec fn pieces(s: Seq<char>, c: char) -> Seq<Seq<char>>
    decreases s.len(),
{
    match first_index(s, c) {
        None => seq![s],
        Some(k) => {
            proof {
                lemma_first_index(s, c);
            }
            seq![s.subrange(0, k)] + pieces(s.subrange(k + 1, s.len() as int), c)
        },
    }
}

/// The sector of a floodlight panel named like `FLA-R1-NORTH-P01`: the
/// third `-`-separated piece, upper-cased (as `str::to_uppercase` does it);
/// `UNKNOWN` for a name with fewer pieces.
pub open spec fn spec_sector(name: Seq<char>) -> Seq<char> {
    let p = pieces(name, '-');
    if p.len() >= 3 {
        str_to_uppercase(p[2])
    } else {
        "UNKNOWN"@
    }
}

/// Position of the first `c` in `s[lo..]`, relative to `lo`.
fn find_from(s: &Vec<char>, lo: usize, c: char) -> (r: Option<usize>)
    requires
        lo <= s@.len(),
    ensures
        match r {
            Some(k) => first_index(s@.subrange(lo as int, s@.len() as int), c) == Some(k as int)
                && lo + k < s@.len(),
            None => first_index(s@.subrange(lo as int, s@.len() as int), c) is None,
        },
{
    let ghost w = s@.subrange(lo as int, s@.len() as int);
    proof {
        lemma_first_index(w, c);
    }
    let mut k = lo;
    while k < s.len()
        invariant
            lo <= k <= s@.len(),
            w == s@.subrange(lo as int, s@.len() as int),
            forall|j: int| lo <= j < k ==> s@[j] != c,
            match first_index(w, c) {
                Some(f) => 0 <= f < w.len() && w[f] == c && forall|j: int| 0 <= j < f ==> w[j] != c,
                None => forall|j: int| 0 <= j < w.len() ==> w[j] != c,
            },
        decreases s@.len() - k,
    {
        if s[k] == c {
            proof {
                assert(w[k - lo] == c);
                match first_index(w, c) {
                    Some(f) => {
                        assert(w[f] == s@[lo + f]);
                        if f > k - lo {
                            assert(w[k - lo] != c);
                        }
                    },
                    None => {},
                }
            }
            return Some(k - lo);
        }
        k = k + 1;
    }
    proof {
        match first_index(w, c) {
            Some(f) => {
                assert(w[f] == s@[lo + f]);
            },
            None => {},
        }
    }
    None
}

/// The sector of a floodlight panel, from its name (see [`spec_sector`]).
pub fn extract_sector(panel_name: &str) -> (r: String)
    ensures
        r@ == spec_sector(panel_name@),
{
    let s = chars_of(panel_name);
    let n = s.len();
    let ghost p0 = pieces(s@, '-');
    assert(s@.subrange(0, n as int) =~= s@);
    let k1 = match find_from(&s, 0, '-') {
        Some(k) => k,
        None => {
            assert(p0 == seq![s@]);
            proof {
                reveal_strlit("UNKNOWN");
            }
            return "UNKNOWN".to_string();
        },
    };
    let ghost r1 = s@.subrange(k1 + 1, n as int);
    assert(first_index(s@, '-') == Some(k1 as int));
    assert(p0 == seq![s@.subrange(0, k1 as int)] + pieces(r1, '-'));
    let k2 = match find_from(&s, k1 + 1, '-') {
        Some(k) => k1 + 1 + k,
        None => {
            assert(pieces(r1, '-') == seq![r1]);
            assert(p0.len() == 2);
            return "UNKNOWN".to_string();
        },
    };
    let ghost r2 = s@.subrange(k2 + 1, n as int);
    assert(r1.subrange(0, k2 - k1 - 1) =~= s@.subrange(k1 + 1, k2 as int));
    assert(r1.subrange(k2 - k1, r1.len() as int) =~= r2);
    assert(first_index(r1, '-') == Some(k2 - k1 - 1));
    assert(pieces(r1, '-') == seq![s@.subrange(k1 + 1, k2 as int)] + pieces(r2, '-'));
    let k3 = match find_from(&s, k2 + 1, '-') {
        Some(k) => k2 + 1 + k,
        None => n,
    };
    proof {
        let p2 = pieces(r2, '-');
        if k3 < n {
            assert(r2.subrange(0, k3 - k2 - 1) =~= s@.subrange(k2 + 1, k3 as int));
            assert(p2[0] == s@.subrange(k2 + 1, k3 as int));
        } else {
            assert(r2 =~= s@.subrange(k2 + 1, k3 as int));
            assert(p2 == seq![r2]);
        }
        assert(p0[2] == p2[0]);
        assert(p0.len() >= 3);
    }
    let mut third: Vec<char> = Vec::new();
    let mut k = k2 + 1;
    while k < k3
        invariant
            k2 + 1 <= k <= k3 <= s@.len(),
            third@ == s@.subrange(k2 + 1, k as int),
        decreases k3 - k,
    {
        third.push(s[k]);
        k = k + 1;
        assert(third@ =~= s@.subrange(k2 + 1, k as int));
    }
    let third_text = string_from_chars(&third);
    to_uppercase(third_text.as_str())
}

/// The property set holding embedded photometry, whose LDT text is not
/// shown to the user.
pub open spec fn is_photometry_set(ps: PropertySet) -> bool {
    ps.name@ == "Pset_Photometry"@
}

/// The first property set with the given name.
pub open spec fn first_set_named(sets: Seq<PropertySet>, name: Seq<char>) -> Option<PropertySet>
    decreases sets.len(),
{
    if sets.len() == 0 {
        None
    } else if sets[0].name@ == name {
        Some(sets[0])
    } else {
        first_set_named(sets.drop_first(), name)
    }
}

/// The first property with the given name.
pub open spec fn first_property_named(ps: Seq<Property>, name: Seq<char>) -> Option<Property>
    decreases ps.len(),
{
    if ps.len() == 0 {
        None
    } else if ps[0].name@ == name {
        Some(ps[0])
    } else {
        first_property_named(ps.drop_first(), name)
    }
}

/// The embedded LDT text of an entity: the `EulumdatData` value of its
/// first `Pset_Photometry` property set.
pub open spec fn spec_photometry_ldt(sets: Seq<PropertySet>) -> Option<Seq<char>> {
    match first_set_named(sets, "Pset_Photometry"@) {
        Some(ps) => match first_property_named(ps.properties@, "EulumdatData"@) {
            Some(p) => Some(p.value@),
            None => None,
        },
        None => None,
    }
}

/// The embedded LDT (EULUMDAT) text of an entity's property sets, if any.
pub fn photometry_ldt(sets: &Vec<PropertySet>) -> (r: Option<String>)
    ensures
        match r {
            Some(t) => spec_photometry_ldt(sets@) == Some(t@),
            None => spec_photometry_ldt(sets@) is None,
        },
{
    let mut i: usize = 0;
    assert(sets@.skip(0) =~= sets@);
    while i < sets.len()
        invariant
            i <= sets@.len(),
            first_set_named(sets@, "Pset_Photometry"@) == first_set_named(sets@.skip(i as int), "Pset_Photometry"@),
        decreases sets@.len() - i,
    {
        assert(sets@.skip(i as int)[0] == sets@[i as int]);
        assert(sets@.skip(i as int).drop_first() =~= sets@.skip(i + 1));
        if chars_eq_str(&chars_of(sets[i].name.as_str()), "Pset_Photometry") {
            let props = &sets[i].properties;
            let mut j: usize = 0;
            assert(props@.skip(0) =~= props@);
            assert(first_set_named(sets@, "Pset_Photometry"@) == Some(sets@[i as int]));
            while j < props.len()
                invariant
                    i < sets@.len(),
                    *props == sets@[i as int].properties,
                    first_set_named(sets@, "Pset_Photometry"@) == Some(sets@[i as int]),
                    j <= props@.len(),
                    first_property_named(props@, "EulumdatData"@) == first_property_named(props@.skip(j as int), "EulumdatData"@),
                decreases props@.len() - j,
            {
                assert(props@.skip(j as int)[0] == props@[j as int]);
                assert(props@.skip(j as int).drop_first() =~= props@.skip(j + 1));
                if chars_eq_str(&chars_of(props[j].name.as_str()), "EulumdatData") {
                    assert(first_property_named(props@, "EulumdatData"@) == Some(props@[j as int]));
                    return Some(props[j].value.clone());
                }
                j = j + 1;
            }
            assert(props@.skip(j as int) =~= Seq::<Property>::empty());
            return None;
        }
        i = i + 1;
    }
    assert(sets@.skip(i as int) =~= Seq::<PropertySet>::empty());
    None
}

/// The property sets other than `Pset_Photometry`, in order.
pub open spec fn shown_sets(sets: Seq<PropertySet>) -> Seq<PropertySet>
    decreases sets.len(),
{
    if sets.len() == 0 {
        Seq::empty()
    } else {
        shown_sets(sets.drop_last()) + if is_photometry_set(sets.last()) {
            Seq::empty()
        } else {
            seq![sets.last()]
        }
    }
}

/// The property sets to display: all but `Pset_Photometry`, whose raw LDT
/// text is not readable, in order.
pub fn without_photometry(sets: Vec<PropertySet>) -> (r: Vec<PropertySet>)
    ensures
        r@ == shown_sets(sets@),
{
    let ghost all = sets@;
    let mut rest = sets;
    let mut rev: Vec<PropertySet> = Vec::new();
    while rest.len() > 0
        invariant
            rest@.len() <= all.len(),
            rest@ == all.subrange(0, rest@.len() as int),
            rev@.len() == all.len() - rest@.len(),
            forall|q: int| 0 <= q < rev@.len() ==> #[trigger] rev@[q] == all[all.len() - 1 - q],
        decreases rest@.len(),
    {
        let ps = rest.pop().unwrap();
        rev.push(ps);
        assert(rest@ =~= all.subrange(0, rest@.len() as int));
    }
    let mut out: Vec<PropertySet> = Vec::new();
    assert(out@ =~= shown_sets(all.subrange(0, 0)));
    while rev.len() > 0
        invariant
            rev@.len() <= all.len(),
            forall|q: int| 0 <= q < rev@.len() ==> #[trigger] rev@[q] == all[all.len() - 1 - q],
            out@ == shown_sets(all.subrange(0, all.len() - rev@.len())),
        decreases rev@.len(),
    {
        let ghost k = all.len() - rev@.len();
        let ps = rev.pop().unwrap();
        assert(ps == all[k]);
        assert(all.subrange(0, k + 1).drop_last() =~= all.subrange(0, k));
        let photometric = chars_eq_str(&chars_of(ps.name.as_str()), "Pset_Photometry");
        if !photometric {
            out.push(ps);
        }
        assert(out@ =~= shown_sets(all.subrange(0, k + 1)));
    }
    assert(all.subrange(0, all.len() as int) =~= all);
    out
}

/// No displayed property set is the photometry set, and every other set is
/// displayed.
pub proof fn law_photometry_hidden_rest_shown(sets: Seq<PropertySet>, ps: PropertySet)
    ensures
        shown_sets(sets).contains(ps) <==> (sets.contains(ps) && !is_photometry_set(ps)),
    decreases sets.len(),
{
    if sets.len() > 0 {
        let init = sets.drop_last();
        law_photometry_hidden_rest_shown(init, ps);
        assert(sets =~= init.push(sets.last()));
        let tail = if is_photometry_set(sets.last()) { Seq::<PropertySet>::empty() } else { seq![sets.last()] };
        let sh = shown_sets(init) + tail;
        assert(shown_sets(sets) == sh);
        if sh.contains(ps) {
            let k = choose|k: int| 0 <= k < sh.len() && sh[k] == ps;
            if k < shown_sets(init).len() {
                assert(shown_sets(init)[k] == ps);
                assert(shown_sets(init).contains(ps));
                let m = choose|m: int| 0 <= m < init.len() && init[m] == ps;
                assert(sets[m] == ps);
            } else {
                assert(tail[k - shown_sets(init).len()] == ps);
                assert(sets[sets.len() - 1] == ps);
            }
        }
        if sets.contains(ps) && !is_photometry_set(ps) {
            let m = choose|m: int| 0 <= m < sets.len() && sets[m] == ps;
            if m < sets.len() - 1 {
                assert(init[m] == ps);
                assert(init.contains(ps));
                let k = choose|k: int| 0 <= k < shown_sets(init).len() && shown_sets(init)[k] == ps;
                assert(sh[k] == ps);
            } else {
                assert(sh[sh.len() - 1] == ps);
            }
        }
    }
}

} // verus!
