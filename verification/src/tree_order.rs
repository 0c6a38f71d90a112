//! The order of a spatial tree node's children: spatial nodes before
//! elements; storeys by elevation, highest first; everything else by entity
//! type, then by name; ties keep their order.

use vstd::prelude::*;

use crate::hierarchy::{
    copy_positions, lemma_insert_keeps, lemma_text_lt_asymmetric, lemma_text_lt_irreflexive,
    lemma_text_lt_total, lemma_text_lt_transitive, text_lt, text_lt_exec,
};
use crate::spatial::SpatialKind;
use crate::text::{chars_eq, chars_of};

verus! {

/// One child of a spatial tree node as the ordering sees it. A storey's
/// elevation is given as a rank: a higher rank for a higher elevation,
/// equal ranks for equal elevations, `None` for a storey without one.
#[derive(Clone, Debug)]
pub struct TreeChild {
    pub id: u64,
    pub kind: SpatialKind,
    pub entity_type: String,
    pub name: String,
    pub elevation_rank: Option<i64>,
}

/// Project, site, building, storey and space nodes are spatial.
pub open spec fn is_spatial(k: SpatialKind) -> bool {
    !(k is Element)
}

/// Storey `a` comes before storey `b` by elevation: the higher one first,
/// and one with an elevation before one without.
pub open spec fn higher(a: Option<i64>, b: Option<i64>) -> bool {
    match (a, b) {
        (Some(x), Some(y)) => x > y,
        (Some(_), None) => true,
        _ => false,
    }
}

/// Child `i` is placed before child `j`: spatial nodes first; two storeys by
/// elevation; two other children by entity type, then by name; equal ones
/// in the order they came (the sort is stable).
pub open spec fn child_before(cs: Seq<TreeChild>, i: int, j: int) -> bool {
    let a = cs[i];
    let b = cs[j];
    if is_spatial(a.kind) != is_spatial(b.kind) {
        is_spatial(a.kind)
    } else if a.kind is Storey && b.kind is Storey {
        higher(a.elevation_rank, b.elevation_rank) || (a.elevation_rank == b.elevation_rank && i < j)
    } else {
        ||| text_lt(a.entity_type@, b.entity_type@)
        ||| a.entity_type@ == b.entity_type@ && text_lt(a.name@, b.name@)
        ||| a.entity_type@ == b.entity_type@ && a.name@ == b.name@ && i < j
    }
}

/// The comparison is a total order on the children: all storeys carry the
/// same entity type text, and no other spatial child carries it (else a
/// storey and another spatial child could be ordered both ways round).
pub open spec fn storey_types_agree(cs: Seq<TreeChild>) -> bool {
    forall|i: int, j: int|
        0 <= i < cs.len() && 0 <= j < cs.len() && #[trigger] cs[i].kind is Storey && is_spatial(
            #[trigger] cs[j].kind,
        ) ==> (cs[j].kind is Storey <==> cs[j].entity_type@ == cs[i].entity_type@)
}

/// Under [`storey_types_agree`], [`child_before`] is a strict total order on
/// positions.
pub proof fn lemma_child_before_order(cs: Seq<TreeChild>, i: int, j: int, k: int)
    requires
        storey_types_agree(cs),
        0 <= i < cs.len(),
        0 <= j < cs.len(),
        0 <= k < cs.len(),
    ensures
        !child_before(cs, i, i),
        child_before(cs, i, j) ==> !child_before(cs, j, i),
        child_before(cs, i, j) && child_before(cs, j, k) ==> child_before(cs, i, k),
        i != j ==> child_before(cs, i, j) || child_before(cs, j, i),
{
    let (ti, tj, tk) = (cs[i].entity_type@, cs[j].entity_type@, cs[k].entity_type@);
    let (ni, nj, nk) = (cs[i].name@, cs[j].name@, cs[k].name@);
    let (ki, kj, kk) = (cs[i].kind, cs[j].kind, cs[k].kind);
    lemma_text_lt_irreflexive(ti);
    lemma_text_lt_irreflexive(ni);
    lemma_text_lt_asymmetric(ti, tj);
    lemma_text_lt_asymmetric(ni, nj);
    lemma_text_lt_total(ti, tj);
    lemma_text_lt_total(ni, nj);
    lemma_text_lt_asymmetric(ti, tk);
    lemma_text_lt_asymmetric(tj, tk);
    if text_lt(ti, tj) && text_lt(tj, tk) {
        lemma_text_lt_transitive(ti, tj, tk);
    }
    if text_lt(ni, nj) && text_lt(nj, nk) {
        lemma_text_lt_transitive(ni, nj, nk);
    }
    if ki is Storey && is_spatial(kj) {
        assert(cs[j].kind is Storey <==> tj == ti);
    }
    if kj is Storey && is_spatial(ki) {
        assert(cs[i].kind is Storey <==> ti == tj);
    }
    if ki is Storey && is_spatial(kk) {
        assert(cs[k].kind is Storey <==> tk == ti);
    }
    if kk is Storey && is_spatial(ki) {
        assert(cs[i].kind is Storey <==> ti == tk);
    }
    if kj is Storey && is_spatial(kk) {
        assert(cs[k].kind is Storey <==> tk == tj);
    }
    if kk is Storey && is_spatial(kj) {
        assert(cs[j].kind is Storey <==> tj == tk);
    }
}

/// Executable [`child_before`].
fn child_before_exec(cs: &Vec<TreeChild>, i: usize, j: usize) -> (r: bool)
    requires
        i < cs@.len(),
        j < cs@.len(),
    ensures
        r == child_before(cs@, i as int, j as int),
{
    let a = &cs[i];
    let b = &cs[j];
    let a_spatial = !matches!(a.kind, SpatialKind::Element);
    let b_spatial = !matches!(b.kind, SpatialKind::Element);
    if a_spatial != b_spatial {
        return a_spatial;
    }
    if matches!(a.kind, SpatialKind::Storey) && matches!(b.kind, SpatialKind::Storey) {
        return match (a.elevation_rank, b.elevation_rank) {
            (Some(x), Some(y)) => x > y || (x == y && i < j),
            (Some(_), None) => true,
            (None, Some(_)) => false,
            (None, None) => i < j,
        };
    }
    let ta = chars_of(a.entity_type.as_str());
    let tb = chars_of(b.entity_type.as_str());
    if text_lt_exec(&ta, &tb) {
        return true;
    }
    if !chars_eq(&ta, &tb) {
        return false;
    }
    let na = chars_of(a.name.as_str());
    let nb = chars_of(b.name.as_str());
    if text_lt_exec(&na, &nb) {
        true
    } else {
        chars_eq(&na, &nb) && i < j
    }
}

/// Positions listed in strictly increasing [`child_before`] order.
pub open spec fn children_in_order(cs: Seq<TreeChild>, m: Seq<usize>) -> bool {
    forall|p: int, q: int| 0 <= p < q < m.len() ==> child_before(cs, #[trigger] m[p] as int, #[trigger] m[q] as int)
}

/// `m` lists every position of `cs` once, in [`child_before`] order.
pub open spec fn is_child_order(cs: Seq<TreeChild>, m: Seq<usize>) -> bool {
    &&& m.len() == cs.len()
    &&& forall|p: int| 0 <= p < m.len() ==> #[trigger] m[p] < cs.len()
    &&& forall|x: usize| x < cs.len() ==> #[trigger] m.contains(x)
    &&& children_in_order(cs, m)
}

/// Adds position `i` (after every position already listed) to an ordered
/// list, at its place in the child order.
fn insert_child(cs: &Vec<TreeChild>, m: &Vec<usize>, i: usize) -> (r: Vec<usize>)
    requires
        storey_types_agree(cs@),
        i < cs@.len(),
        forall|p: int| 0 <= p < m@.len() ==> #[trigger] m@[p] < i,
        children_in_order(cs@, m@),
    ensures
        r@.len() == m@.len() + 1,
        forall|p: int| 0 <= p < r@.len() ==> #[trigger] r@[p] <= i,
        children_in_order(cs@, r@),
        forall|x: usize| #[trigger] r@.contains(x) <==> (m@.contains(x) || x == i),
{
    let mut q: usize = 0;
    while q < m.len() && !child_before_exec(cs, i, m[q])
        invariant
            i < cs@.len(),
            q <= m@.len(),
            forall|p: int| 0 <= p < m@.len() ==> #[trigger] m@[p] < i,
            forall|p: int| 0 <= p < q ==> !child_before(cs@, i as int, #[trigger] m@[p] as int),
        decreases m@.len() - q,
    {
        q = q + 1;
    }
    let mut r = copy_positions(m);
    r.insert(q, i);
    proof {
        let t = m@.insert(q as int, i);
        assert(r@ == t);
        assert forall|p: int| 0 <= p < t.len() implies #[trigger] t[p] <= i by {
            if p < q {
                assert(t[p] == m@[p]);
            } else if p > q {
                assert(t[p] == m@[p - 1]);
            }
        }
        assert forall|p1: int, p2: int| 0 <= p1 < p2 < t.len() implies child_before(cs@, #[trigger] t[p1] as int, #[trigger] t[p2] as int) by {
            if p2 < q {
                assert(t[p1] == m@[p1] && t[p2] == m@[p2]);
            } else if p1 > q {
                assert(t[p1] == m@[p1 - 1] && t[p2] == m@[p2 - 1]);
            } else if p2 == q {
                assert(t[p1] == m@[p1]);
                lemma_child_before_order(cs@, i as int, m@[p1] as int, i as int);
            } else if p1 == q {
                assert(t[p2] == m@[p2 - 1]);
                assert(child_before(cs@, i as int, m@[q as int] as int));
                if p2 - 1 > q {
                    lemma_child_before_order(cs@, i as int, m@[q as int] as int, m@[p2 - 1] as int);
                }
            } else {
                assert(t[p1] == m@[p1]);
                assert(t[p2] == m@[p2 - 1]);
                lemma_child_before_order(cs@, m@[p1] as int, i as int, m@[p2 - 1] as int);
                lemma_child_before_order(cs@, i as int, m@[p1] as int, i as int);
                assert(child_before(cs@, i as int, m@[q as int] as int));
                if p2 - 1 > q {
                    lemma_child_before_order(cs@, i as int, m@[q as int] as int, m@[p2 - 1] as int);
                }
            }
        }
        assert forall|x: usize| #[trigger] t.contains(x) <==> (m@.contains(x) || x == i) by {
            lemma_insert_keeps(m@, q as int, i, x);
        }
    }
    r
}

/// The positions of the children in the order they are shown.
pub fn child_order(cs: &Vec<TreeChild>) -> (m: Vec<usize>)
    requires
        storey_types_agree(cs@),
    ensures
        is_child_order(cs@, m@),
{
    let mut m: Vec<usize> = Vec::new();
    let mut i: usize = 0;
    while i < cs.len()
        invariant
            storey_types_agree(cs@),
            i <= cs@.len(),
            m@.len() == i,
            forall|p: int| 0 <= p < m@.len() ==> #[trigger] m@[p] < i,
            forall|x: usize| x < i ==> #[trigger] m@.contains(x),
            children_in_order(cs@, m@),
        decreases cs@.len() - i,
    {
        let r = insert_child(cs, &m, i);
        proof {
            assert forall|x: usize| x < i + 1 implies #[trigger] r@.contains(x) by {
                if x < i {
                    assert(m@.contains(x));
                }
            }
            assert forall|p: int| 0 <= p < r@.len() implies #[trigger] r@[p] < i + 1 by {
                assert(r@[p] <= i);
            }
        }
        m = r;
        i = i + 1;
    }
    m
}

/// A copy of a child, field by field.
fn copy_child(c: &TreeChild) -> (r: TreeChild)
    ensures
        r == *c,
{
    TreeChild {
        id: c.id,
        kind: c.kind,
        entity_type: c.entity_type.clone(),
        name: c.name.clone(),
        elevation_rank: c.elevation_rank,
    }
}

/// The children in the order they are shown: spatial nodes before
/// elements, storeys by elevation (highest first), the rest by entity type
/// and then name, ties in the order given.
pub fn order_children(c: Vec<TreeChild>) -> (r: Vec<TreeChild>)
    requires
        storey_types_agree(c@),
    ensures
        exists|m: Seq<usize>| is_child_order(c@, m) && r@ == m.map_values(|p: usize| c@[p as int]),
{
    let m = child_order(&c);
    let mut r: Vec<TreeChild> = Vec::new();
    let mut k: usize = 0;
    while k < m.len()
        invariant
            is_child_order(c@, m@),
            k <= m@.len(),
            r@ == m@.take(k as int).map_values(|p: usize| c@[p as int]),
        decreases m@.len() - k,
    {
        let p = m[k];
        let child = copy_child(&c[p]);
        r.push(child);
        k = k + 1;
        assert(r@ =~= m@.take(k as int).map_values(|p: usize| c@[p as int]));
    }
    assert(m@.take(k as int) =~= m@);
    r
}

} // verus!
