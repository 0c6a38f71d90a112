//! The hierarchy panel's model: entities grouped by the storey that
//! contains them, groups in storey-name order, entities within a group
//! ordered by type then name (stable), and the per-storey expansion state.

use vstd::prelude::*;

use crate::text::{chars_eq, chars_of, decimal, decimal_chars, push_chars, push_str, string_from_chars};

verus! {

/// Lexicographic order on character sequences, comparing characters by code point; a
/// proper prefix comes first. This is the order of `str`'s `Ord` (byte-wise
/// on UTF-8, which preserves code-point order).
pub open spec fn text_lt(a: Seq<char>, b: Seq<char>) -> bool
    decreases a.len(),
{
    if a.len() == 0 {
        b.len() > 0
    } else if b.len() == 0 {
        false
    } else if a[0] != b[0] {
        a[0] < b[0]
    } else {
        text_lt(a.drop_first(), b.drop_first())
    }
}

/// No text comes before itself.
pub proof fn lemma_text_lt_irreflexive(a: Seq<char>)
    ensures
        !text_lt(a, a),
    decreases a.len(),
{
    if a.len() > 0 {
        lemma_text_lt_irreflexive(a.drop_first());
    }
}

/// Of two texts, at most one comes before the other.
pub proof fn lemma_text_lt_asymmetric(a: Seq<char>, b: Seq<char>)
    ensures
        text_lt(a, b) ==> !text_lt(b, a),
    decreases a.len(),
{
    if a.len() > 0 && b.len() > 0 && a[0] == b[0] {
        lemma_text_lt_asymmetric(a.drop_first(), b.drop_first());
    }
}

/// The text order is transitive.
pub proof fn lemma_text_lt_transitive(a: Seq<char>, b: Seq<char>, c: Seq<char>)
    requires
        text_lt(a, b),
        text_lt(b, c),
    ensures
        text_lt(a, c),
    decreases a.len(),
{
    if a.len() > 0 && a[0] == b[0] && b[0] == c[0] {
        lemma_text_lt_transitive(a.drop_first(), b.drop_first(), c.drop_first());
    }
}

/// Two different texts are ordered one way or the other.
pub proof fn lemma_text_lt_total(a: Seq<char>, b: Seq<char>)
    ensures
        a == b || text_lt(a, b) || text_lt(b, a),
    decreases a.len(),
{
    if a.len() == 0 && b.len() == 0 {
        assert(a =~= b);
    } else if a.len() > 0 && b.len() > 0 && a[0] == b[0] {
        lemma_text_lt_total(a.drop_first(), b.drop_first());
        if a.drop_first() == b.drop_first() {
            assert(a =~= seq![a[0]] + a.drop_first());
            assert(b =~= seq![b[0]] + b.drop_first());
        }
    }
}

/// Executable [`text_lt`].
pub fn text_lt_exec(a: &Vec<char>, b: &Vec<char>) -> (r: bool)
    ensures
        r == text_lt(a@, b@),
{
    let mut k: usize = 0;
    assert(a@.skip(0) =~= a@);
    assert(b@.skip(0) =~= b@);
    while k < a.len() && k < b.len() && a[k] == b[k]
        invariant
            k <= a@.len(),
            k <= b@.len(),
            text_lt(a@, b@) == text_lt(a@.skip(k as int), b@.skip(k as int)),
        decreases a@.len() - k,
    {
        assert(a@.skip(k as int).drop_first() =~= a@.skip(k + 1));
        assert(b@.skip(k as int).drop_first() =~= b@.skip(k + 1));
        k = k + 1;
    }
    if k == a.len() {
        k < b.len()
    } else if k == b.len() {
        false
    } else {
        assert(a@.skip(k as int)[0] == a@[k as int]);
        assert(b@.skip(k as int)[0] == b@[k as int]);
        a[k] < b[k]
    }
}

/// One entity of the scene as the hierarchy panel shows it.
#[derive(Clone, Debug)]
pub struct HierarchyEntry {
    pub id: u64,
    pub entity_type: String,
    pub name: Option<String>,
    pub storey: Option<String>,
}

/// The group an entity is listed under: its storey's name, or
/// `"<unassigned>"` when it has none.
pub open spec fn storey_key(e: HierarchyEntry) -> Seq<char> {
    match e.storey {
        Some(s) => s@,
        None => "<unassigned>"@,
    }
}

/// An optional string as optional text.
pub open spec fn opt_text(n: Option<String>) -> Option<Seq<char>> {
    match n {
        Some(x) => Some(x@),
        None => None,
    }
}

/// The entity's name as text, if it has one.
pub open spec fn name_view(e: HierarchyEntry) -> Option<Seq<char>> {
    opt_text(e.name)
}

/// Order on optional names: no name first, then names in text order.
pub open spec fn name_lt(a: Option<Seq<char>>, b: Option<Seq<char>>) -> bool {
    match (a, b) {
        (None, Some(_)) => true,
        (Some(x), Some(y)) => text_lt(x, y),
        _ => false,
    }
}

/// Entity `i` is listed before entity `j`: by type, then by name, then by
/// position in the scene (the sort is stable).
pub open spec fn entry_before(es: Seq<HierarchyEntry>, i: int, j: int) -> bool {
    ||| text_lt(es[i].entity_type@, es[j].entity_type@)
    ||| es[i].entity_type@ == es[j].entity_type@ && name_lt(name_view(es[i]), name_view(es[j]))
    ||| es[i].entity_type@ == es[j].entity_type@ && name_view(es[i]) == name_view(es[j]) && i < j
}

/// The listing order is a strict total order on positions.
pub proof fn lemma_entry_before_order(es: Seq<HierarchyEntry>, i: int, j: int, k: int)
    ensures
        !entry_before(es, i, i),
        entry_before(es, i, j) ==> !entry_before(es, j, i),
        entry_before(es, i, j) && entry_before(es, j, k) ==> entry_before(es, i, k),
        i != j ==> entry_before(es, i, j) || entry_before(es, j, i),
{
    let (ti, tj, tk) = (es[i].entity_type@, es[j].entity_type@, es[k].entity_type@);
    lemma_text_lt_irreflexive(ti);
    lemma_text_lt_asymmetric(ti, tj);
    lemma_text_lt_total(ti, tj);
    let (ni, nj, nk) = (name_view(es[i]), name_view(es[j]), name_view(es[k]));
    if let (Some(x), Some(y)) = (ni, nj) {
        lemma_text_lt_irreflexive(x);
        lemma_text_lt_asymmetric(x, y);
        lemma_text_lt_total(x, y);
    }
    if let Some(x) = ni {
        lemma_text_lt_irreflexive(x);
    }
    if entry_before(es, i, j) && entry_before(es, j, k) {
        if text_lt(ti, tj) && text_lt(tj, tk) {
            lemma_text_lt_transitive(ti, tj, tk);
        }
        if let (Some(x), Some(y), Some(z)) = (ni, nj, nk) {
            if text_lt(x, y) && text_lt(y, z) {
                lemma_text_lt_transitive(x, y, z);
            }
        }
    }
}

/// The group key of an entity.
fn key_of(e: &HierarchyEntry) -> (r: Vec<char>)
    ensures
        r@ == storey_key(*e),
{
    match &e.storey {
        Some(st) => chars_of(st.as_str()),
        None => chars_of("<unassigned>"),
    }
}

/// Executable [`entry_before`].
fn entry_before_exec(es: &Vec<HierarchyEntry>, i: usize, j: usize) -> (r: bool)
    requires
        i < es@.len(),
        j < es@.len(),
    ensures
        r == entry_before(es@, i as int, j as int),
{
    let ti = chars_of(es[i].entity_type.as_str());
    let tj = chars_of(es[j].entity_type.as_str());
    if text_lt_exec(&ti, &tj) {
        return true;
    }
    if !chars_eq(&ti, &tj) {
        return false;
    }
    match (&es[i].name, &es[j].name) {
        (None, Some(_)) => true,
        (Some(x), Some(y)) => {
            let xv = chars_of(x.as_str());
            let yv = chars_of(y.as_str());
            if text_lt_exec(&xv, &yv) {
                true
            } else if chars_eq(&xv, &yv) {
                i < j
            } else {
                false
            }
        },
        (None, None) => i < j,
        (Some(_), None) => false,
    }
}

/// Positions listed in strictly increasing [`entry_before`] order.
pub open spec fn listed_in_order(es: Seq<HierarchyEntry>, m: Seq<usize>) -> bool {
    forall|p: int, q: int| 0 <= p < q < m.len() ==> entry_before(es, #[trigger] m[p] as int, #[trigger] m[q] as int)
}

/// A copy of a list of positions.
pub(crate) fn copy_positions(m: &Vec<usize>) -> (r: Vec<usize>)
    ensures
        r@ == m@,
{
    let mut r: Vec<usize> = Vec::new();
    let mut k: usize = 0;
    while k < m.len()
        invariant
            k <= m@.len(),
            r@ == m@.take(k as int),
        decreases m@.len() - k,
    {
        r.push(m[k]);
        k = k + 1;
        assert(r@ =~= m@.take(k as int));
    }
    assert(m@.take(k as int) =~= m@);
    r
}

/// Inserting into a sequence keeps what it held.
pub(crate) proof fn lemma_insert_keeps(s: Seq<usize>, q: int, x: usize, y: usize)
    requires
        0 <= q <= s.len(),
    ensures
        s.insert(q, x).contains(y) <==> (s.contains(y) || y == x),
{
    let t = s.insert(q, x);
    if s.contains(y) {
        let k = choose|k: int| 0 <= k < s.len() && s[k] == y;
        if k < q {
            assert(t[k] == y);
        } else {
            assert(t[k + 1] == y);
        }
    }
    if y == x {
        assert(t[q] == x);
    }
    if t.contains(y) {
        let k = choose|k: int| 0 <= k < t.len() && t[k] == y;
        if k < q {
            assert(s[k] == y);
        } else if k > q {
            assert(s[k - 1] == y);
        }
    }
}

/// Adds position `i` (after every position already listed) to an ordered
/// list, at its place in the listing order.
fn insert_member(es: &Vec<HierarchyEntry>, m: &Vec<usize>, i: usize) -> (r: Vec<usize>)
    requires
        i < es@.len(),
        forall|p: int| 0 <= p < m@.len() ==> #[trigger] m@[p] < i,
        listed_in_order(es@, m@),
    ensures
        r@.len() == m@.len() + 1,
        forall|p: int| 0 <= p < r@.len() ==> #[trigger] r@[p] <= i,
        listed_in_order(es@, r@),
        forall|x: usize| #[trigger] r@.contains(x) <==> (m@.contains(x) || x == i),
{
    let mut q: usize = 0;
    while q < m.len() && !entry_before_exec(es, i, m[q])
        invariant
            i < es@.len(),
            q <= m@.len(),
            forall|p: int| 0 <= p < m@.len() ==> #[trigger] m@[p] < i,
            forall|p: int| 0 <= p < q ==> !entry_before(es@, i as int, #[trigger] m@[p] as int),
        decreases m@.len() - q,
    {
        q = q + 1;
    }
    let mut r = copy_positions(m);
    r.insert(q, i);
    proof {
        let t = m@.insert(q as int, i);
        assert(r@ == t);
        assert forall|p: int| 0 <= p < t.len() implies #[trigger] t[p] <= i by {
            if p < q {
                assert(t[p] == m@[p]);
            } else if p > q {
                assert(t[p] == m@[p - 1]);
            }
        }
        assert forall|p1: int, p2: int| 0 <= p1 < p2 < t.len() implies entry_before(es@, #[trigger] t[p1] as int, #[trigger] t[p2] as int) by {
            if p2 < q {
                assert(t[p1] == m@[p1] && t[p2] == m@[p2]);
            } else if p1 > q {
                assert(t[p1] == m@[p1 - 1] && t[p2] == m@[p2 - 1]);
            } else if p2 == q {
                assert(t[p1] == m@[p1]);
                lemma_entry_before_order(es@, i as int, m@[p1] as int, i as int);
            } else if p1 == q {
                assert(t[p2] == m@[p2 - 1]);
                assert(entry_before(es@, i as int, m@[q as int] as int));
                if p2 - 1 > q {
                    lemma_entry_before_order(es@, i as int, m@[q as int] as int, m@[p2 - 1] as int);
                }
            } else {
                assert(t[p1] == m@[p1]);
                assert(t[p2] == m@[p2 - 1]);
                lemma_entry_before_order(es@, m@[p1] as int, i as int, m@[p2 - 1] as int);
                lemma_entry_before_order(es@, i as int, m@[p1] as int, i as int);
                assert(entry_before(es@, i as int, m@[q as int] as int));
                if p2 - 1 > q {
                    lemma_entry_before_order(es@, i as int, m@[q as int] as int, m@[p2 - 1] as int);
                }
            }
        }
        assert forall|x: usize| #[trigger] t.contains(x) <==> (m@.contains(x) || x == i) by {
            lemma_insert_keeps(m@, q as int, i, x);
        }
    }
    r
}

/// The entities listed under one storey, as positions in the scene's
/// entity list.
#[derive(Clone, Debug)]
pub struct StoreyGroup {
    pub storey: String,
    pub members: Vec<usize>,
}

impl StoreyGroup {
    /// The collapsing header of the group: `"<storey> (<count>)"`.
    pub fn header(&self) -> (r: String)
        ensures
            r@ == self.storey@ + " ("@ + decimal(self.members@.len()) + ")"@,
    {
        let mut v: Vec<char> = chars_of(self.storey.as_str());
        push_str(&mut v, " (");
        let d = decimal_chars(self.members.len() as u64);
        push_chars(&mut v, &d);
        push_str(&mut v, ")");
        string_from_chars(&v)
    }
}

/// `gs` is the hierarchy of `es`: one group per storey key in strictly
/// increasing key order, none empty; each group lists exactly the entities
/// with its key, in listing order; every entity is listed.
pub open spec fn is_storey_grouping(es: Seq<HierarchyEntry>, gs: Seq<StoreyGroup>) -> bool {
    &&& forall|a: int, b: int| 0 <= a < b < gs.len() ==> text_lt((#[trigger] gs[a]).storey@, (#[trigger] gs[b]).storey@)
    &&& forall|a: int| 0 <= a < gs.len() ==> (#[trigger] gs[a]).members@.len() > 0
    &&& forall|a: int, p: int| 0 <= a < gs.len() && 0 <= p < gs[a].members@.len() ==> (#[trigger] gs[a].members@[p]) < es.len()
        && storey_key(es[gs[a].members@[p] as int]) == gs[a].storey@
    &&& forall|a: int| 0 <= a < gs.len() ==> listed_in_order(es, (#[trigger] gs[a]).members@)
    &&& forall|i: int| 0 <= i < es.len() ==> #[trigger] is_listed(gs, i)
}

/// Position `i` is listed in some group.
pub open spec fn is_listed(gs: Seq<StoreyGroup>, i: int) -> bool {
    exists|a: int| 0 <= a < gs.len() && (#[trigger] gs[a]).members@.contains(i as usize)
}

/// In a hierarchy every entity appears exactly once: in one group only,
/// and at one position of that group.
pub proof fn law_each_entity_listed_once(es: Seq<HierarchyEntry>, gs: Seq<StoreyGroup>, i: int, a: int, b: int, p: int, q: int)
    requires
        is_storey_grouping(es, gs),
        0 <= a < gs.len(),
        0 <= b < gs.len(),
        0 <= p < gs[a].members@.len(),
        0 <= q < gs[b].members@.len(),
        gs[a].members@[p] == i,
        gs[b].members@[q] == i,
    ensures
        a == b,
        p == q,
{
    let k = storey_key(es[i]);
    assert(gs[a].storey@ == k);
    assert(gs[b].storey@ == k);
    lemma_text_lt_irreflexive(k);
    if a < b {
        assert(text_lt(gs[a].storey@, gs[b].storey@));
    } else if b < a {
        assert(text_lt(gs[b].storey@, gs[a].storey@));
    }
    lemma_entry_before_order(es, i, i, i);
    if p < q {
        assert(listed_in_order(es, gs[a].members@));
        assert(entry_before(es, gs[a].members@[p] as int, gs[a].members@[q] as int));
    } else if q < p {
        assert(listed_in_order(es, gs[a].members@));
        assert(entry_before(es, gs[a].members@[q] as int, gs[a].members@[p] as int));
    }
}

/// The keys are in strictly increasing order.
pub open spec fn keys_increasing(keys: Seq<Vec<char>>) -> bool {
    forall|a: int, b: int| 0 <= a < b < keys.len() ==> text_lt((#[trigger] keys[a])@, (#[trigger] keys[b])@)
}

/// The groups built from the first `i` entities: `mems[a]` lists, in
/// order, entities before `i` with key `keys[a]`, and is not empty.
pub open spec fn groups_so_far(es: Seq<HierarchyEntry>, keys: Seq<Vec<char>>, mems: Seq<Vec<usize>>, i: int) -> bool {
    &&& keys.len() == mems.len()
    &&& keys_increasing(keys)
    &&& forall|a: int| 0 <= a < mems.len() ==> (#[trigger] mems[a])@.len() > 0
    &&& forall|a: int, p: int| 0 <= a < mems.len() && 0 <= p < mems[a]@.len() ==> (#[trigger] mems[a]@[p]) < i
        && storey_key(es[mems[a]@[p] as int]) == keys[a]@
    &&& forall|a: int| 0 <= a < mems.len() ==> listed_in_order(es, (#[trigger] mems[a])@)
}

/// Every entity before `i` is listed in group `at[j]`.
pub open spec fn all_placed(mems: Seq<Vec<usize>>, at: Seq<int>, i: int) -> bool {
    &&& at.len() == i
    &&& forall|j: int| 0 <= j < i ==> 0 <= #[trigger] at[j] < mems.len() && mems[at[j]]@.contains(j as usize)
}

/// Groups the scene's entities by storey for the hierarchy panel.
pub fn group_by_storey(es: &Vec<HierarchyEntry>) -> (r: Vec<StoreyGroup>)
    ensures
        is_storey_grouping(es@, r@),
{
    let mut keys: Vec<Vec<char>> = Vec::new();
    let mut mems: Vec<Vec<usize>> = Vec::new();
    let ghost mut at: Seq<int> = Seq::empty();
    let mut i: usize = 0;
    while i < es.len()
        invariant
            i <= es@.len(),
            groups_so_far(es@, keys@, mems@, i as int),
            all_placed(mems@, at, i as int),
        decreases es@.len() - i,
    {
        let key = key_of(&es[i]);
        let mut g: usize = 0;
        while g < keys.len() && !chars_eq(&keys[g], &key)
            invariant
                g <= keys@.len(),
                forall|a: int| 0 <= a < g ==> (#[trigger] keys@[a])@ != key@,
            decreases keys@.len() - g,
        {
            g = g + 1;
        }
        if g < keys.len() {
            let nm = insert_member(es, &mems[g], i);
            let ghost old_mems = mems@;
            mems.set(g, nm);
            proof {
                assert forall|a: int, p: int| 0 <= a < mems@.len() && 0 <= p < mems@[a]@.len() implies (#[trigger] mems@[a]@[p]) < i + 1
                    && storey_key(es@[mems@[a]@[p] as int]) == keys@[a]@ by {
                    if a == g {
                        let x = mems@[a]@[p];
                        assert(mems@[a]@.contains(x));
                        if x != i {
                            assert(old_mems[a]@.contains(x));
                        }
                    } else {
                        assert(mems@[a] == old_mems[a]);
                    }
                }
                assert forall|a: int| 0 <= a < mems@.len() implies (#[trigger] mems@[a])@.len() > 0
                    && listed_in_order(es@, mems@[a]@) by {
                    if a != g {
                        assert(mems@[a] == old_mems[a]);
                    }
                }
                assert forall|j: int| 0 <= j < i + 1 implies 0 <= #[trigger] at.push(g as int)[j] < mems@.len()
                    && mems@[at.push(g as int)[j]]@.contains(j as usize) by {
                    if j < i {
                        assert(at.push(g as int)[j] == at[j]);
                        assert(old_mems[at[j]]@.contains(j as usize));
                        if at[j] != g {
                            assert(mems@[at[j]] == old_mems[at[j]]);
                        }
                    } else {
                        assert(mems@[g as int]@.contains(i));
                    }
                }
                at = at.push(g as int);
            }
        } else {
            let mut p: usize = 0;
            while p < keys.len() && !text_lt_exec(&key, &keys[p])
                invariant
                    p <= keys@.len(),
                    forall|a: int| 0 <= a < p ==> !text_lt(key@, (#[trigger] keys@[a])@),
                decreases keys@.len() - p,
            {
                p = p + 1;
            }
            let ghost old_keys = keys@;
            let ghost old_mems = mems@;
            let mut fresh: Vec<usize> = Vec::new();
            fresh.push(i);
            keys.insert(p, key);
            mems.insert(p, fresh);
            proof {
                assert forall|a: int, b: int| 0 <= a < b < keys@.len() implies text_lt((#[trigger] keys@[a])@, (#[trigger] keys@[b])@) by {
                    if b < p {
                        assert(keys@[a] == old_keys[a] && keys@[b] == old_keys[b]);
                    } else if a > p {
                        assert(keys@[a] == old_keys[a - 1] && keys@[b] == old_keys[b - 1]);
                    } else if b == p {
                        assert(keys@[a] == old_keys[a]);
                        lemma_text_lt_total(key@, old_keys[a]@);
                    } else if a == p {
                        assert(keys@[b] == old_keys[b - 1]);
                        if b - 1 > p {
                            lemma_text_lt_transitive(key@, old_keys[p as int]@, old_keys[b - 1]@);
                        }
                    } else {
                        assert(keys@[a] == old_keys[a] && keys@[b] == old_keys[b - 1]);
                    }
                }
                assert forall|a: int, q: int| 0 <= a < mems@.len() && 0 <= q < mems@[a]@.len() implies (#[trigger] mems@[a]@[q]) < i + 1
                    && storey_key(es@[mems@[a]@[q] as int]) == keys@[a]@ by {
                    if a < p {
                        assert(mems@[a] == old_mems[a] && keys@[a] == old_keys[a]);
                    } else if a > p {
                        assert(mems@[a] == old_mems[a - 1] && keys@[a] == old_keys[a - 1]);
                    }
                }
                assert forall|a: int| 0 <= a < mems@.len() implies (#[trigger] mems@[a])@.len() > 0
                    && listed_in_order(es@, mems@[a]@) by {
                    if a < p {
                        assert(mems@[a] == old_mems[a]);
                    } else if a > p {
                        assert(mems@[a] == old_mems[a - 1]);
                    }
                }
                let at2 = Seq::new((i + 1) as nat, |j: int| if j == i { p as int } else if at[j] >= p { at[j] + 1 } else { at[j] });
                assert forall|j: int| 0 <= j < i + 1 implies 0 <= #[trigger] at2[j] < mems@.len()
                    && mems@[at2[j]]@.contains(j as usize) by {
                    if j < i {
                        assert(old_mems[at[j]]@.contains(j as usize));
                        if at[j] >= p {
                            assert(mems@[at[j] + 1] == old_mems[at[j]]);
                        } else {
                            assert(mems@[at[j]] == old_mems[at[j]]);
                        }
                    } else {
                        assert(mems@[p as int]@[0] == i);
                    }
                }
                at = at2;
            }
        }
        i = i + 1;
    }
    let mut out: Vec<StoreyGroup> = Vec::new();
    let mut a: usize = 0;
    while a < keys.len()
        invariant
            a <= keys@.len(),
            keys@.len() == mems@.len(),
            out@.len() == a,
            forall|b: int| 0 <= b < a ==> (#[trigger] out@[b]).storey@ == keys@[b]@ && out@[b].members@ == mems@[b]@,
        decreases keys@.len() - a,
    {
        out.push(StoreyGroup { storey: string_from_chars(&keys[a]), members: copy_positions(&mems[a]) });
        a = a + 1;
    }
    proof {
        assert forall|x: int, y: int| 0 <= x < y < out@.len() implies text_lt((#[trigger] out@[x]).storey@, (#[trigger] out@[y]).storey@) by {
            assert(text_lt(keys@[x]@, keys@[y]@));
        }
        assert forall|x: int| 0 <= x < out@.len() implies (#[trigger] out@[x]).members@.len() > 0
            && listed_in_order(es@, out@[x].members@) by {
            assert(out@[x].members@ == mems@[x]@);
        }
        assert forall|x: int, q: int| 0 <= x < out@.len() && 0 <= q < out@[x].members@.len() implies (#[trigger] out@[x].members@[q]) < es@.len()
            && storey_key(es@[out@[x].members@[q] as int]) == out@[x].storey@ by {
            assert(out@[x].members@ == mems@[x]@);
            assert(mems@[x]@[q] < i);
        }
        assert forall|j: int| 0 <= j < es@.len() implies #[trigger] is_listed(out@, j) by {
            assert(out@[at[j]].members@ == mems@[at[j]]@);
        }
    }
    out
}

/// Whether one storey's group is expanded.
#[derive(Clone, Debug)]
struct StoreyExpansion {
    storey: String,
    open: bool,
}

/// The expansion state the entries record: later entries win.
spec fn expansion_map(s: Seq<StoreyExpansion>) -> Map<Seq<char>, bool>
    decreases s.len(),
{
    if s.len() == 0 {
        Map::empty()
    } else {
        expansion_map(s.drop_last()).insert(s.last().storey@, s.last().open)
    }
}

/// No storey is recorded twice.
spec fn storeys_unique(s: Seq<StoreyExpansion>) -> bool {
    forall|a: int, b: int| 0 <= a < b < s.len() ==> (#[trigger] s[a]).storey@ != (#[trigger] s[b]).storey@
}

/// A storey that no entry names is not in the map.
proof fn lemma_expansion_absent(s: Seq<StoreyExpansion>, k: Seq<char>)
    requires
        forall|a: int| 0 <= a < s.len() ==> (#[trigger] s[a]).storey@ != k,
    ensures
        !expansion_map(s).dom().contains(k),
    decreases s.len(),
{
    if s.len() > 0 {
        lemma_expansion_absent(s.drop_last(), k);
    }
}

/// With unique storeys, the map holds each entry's state.
proof fn lemma_expansion_at(s: Seq<StoreyExpansion>, idx: int)
    requires
        storeys_unique(s),
        0 <= idx < s.len(),
    ensures
        expansion_map(s).dom().contains(s[idx].storey@),
        expansion_map(s)[s[idx].storey@] == s[idx].open,
    decreases s.len(),
{
    if idx < s.len() - 1 {
        assert(s.drop_last()[idx] == s[idx]);
        assert(s.last() == s[s.len() - 1]);
        lemma_expansion_at(s.drop_last(), idx);
    }
}

/// With unique storeys, changing one entry's state updates the map at that
/// storey only.
proof fn lemma_expansion_update(s: Seq<StoreyExpansion>, idx: int, e: StoreyExpansion)
    requires
        storeys_unique(s),
        0 <= idx < s.len(),
        e.storey@ == s[idx].storey@,
    ensures
        expansion_map(s.update(idx, e)) == expansion_map(s).insert(e.storey@, e.open),
    decreases s.len(),
{
    let t = s.update(idx, e);
    if idx == s.len() - 1 {
        assert(t.drop_last() =~= s.drop_last());
        assert(expansion_map(t) =~= expansion_map(s).insert(e.storey@, e.open));
    } else {
        assert(t.drop_last() =~= s.drop_last().update(idx, e));
        assert(s.drop_last()[idx] == s[idx]);
        lemma_expansion_update(s.drop_last(), idx, e);
        assert(s.last() == s[s.len() - 1]);
        assert(s.last().storey@ != e.storey@);
        assert(expansion_map(t) =~= expansion_map(s).insert(e.storey@, e.open));
    }
}

/// Which storey groups of the hierarchy panel are expanded (in memory
/// only; a storey seen for the first time starts collapsed).
pub struct HierarchyState {
    expanded: Vec<StoreyExpansion>,
}

impl HierarchyState {
    /// Each storey is recorded once.
    #[verifier::type_invariant]
    spec fn storeys_recorded_once(self) -> bool {
        storeys_unique(self.expanded@)
    }

    /// Storey name to expanded.
    pub closed spec fn expanded_view(self) -> Map<Seq<char>, bool> {
        expansion_map(self.expanded@)
    }

    /// A state that records no storey.
    pub fn new() -> (r: Self)
        ensures
            r.expanded_view() == Map::<Seq<char>, bool>::empty(),
    {
        HierarchyState { expanded: Vec::new() }
    }

    /// Position of the entry for `key`, if there is one.
    fn find(&self, key: &Vec<char>) -> (r: Option<usize>)
        ensures
            match r {
                Some(i) => i < self.expanded@.len() && self.expanded@[i as int].storey@ == key@,
                None => forall|a: int| 0 <= a < self.expanded@.len() ==> (#[trigger] self.expanded@[a]).storey@ != key@,
            },
    {
        let mut i: usize = 0;
        while i < self.expanded.len()
            invariant
                i <= self.expanded@.len(),
                forall|a: int| 0 <= a < i ==> (#[trigger] self.expanded@[a]).storey@ != key@,
            decreases self.expanded@.len() - i,
        {
            let name = chars_of(self.expanded[i].storey.as_str());
            if chars_eq(&name, key) {
                return Some(i);
            }
            i = i + 1;
        }
        None
    }

    /// Whether the storey's group is expanded; a storey not seen before is
    /// recorded as collapsed.
    pub fn expanded_entry(&mut self, storey: &str) -> (r: bool)
        ensures
            old(self).expanded_view().dom().contains(storey@) ==> r == old(self).expanded_view()[storey@]
                && final(self).expanded_view() == old(self).expanded_view(),
            !old(self).expanded_view().dom().contains(storey@) ==> !r
                && final(self).expanded_view() == old(self).expanded_view().insert(storey@, false),
    {
        proof {
            use_type_invariant(&*self);
        }
        let key = chars_of(storey);
        match self.find(&key) {
            Some(i) => {
                proof {
                    lemma_expansion_at(self.expanded@, i as int);
                }
                self.expanded[i].open
            },
            None => {
                proof {
                    lemma_expansion_absent(self.expanded@, storey@);
                }
                let mut entries: Vec<StoreyExpansion> = Vec::new();
                std::mem::swap(&mut entries, &mut self.expanded);
                let ghost before = entries@;
                entries.push(StoreyExpansion { storey: storey.to_string(), open: false });
                proof {
                    assert(entries@.drop_last() =~= before);
                    assert forall|a: int, b: int| 0 <= a < b < entries@.len() implies (#[trigger] entries@[a]).storey@ != (#[trigger] entries@[b]).storey@ by {
                        if b < before.len() {
                            assert(entries@[a] == before[a] && entries@[b] == before[b]);
                        } else {
                            assert(entries@[a] == before[a]);
                        }
                    }
                }
                self.expanded = entries;
                false
            },
        }
    }

    /// Records whether the storey's group is expanded.
    pub fn set_expanded(&mut self, storey: &str, open: bool)
        ensures
            final(self).expanded_view() == old(self).expanded_view().insert(storey@, open),
    {
        proof {
            use_type_invariant(&*self);
        }
        let key = chars_of(storey);
        let found = self.find(&key);
        let mut entries: Vec<StoreyExpansion> = Vec::new();
        std::mem::swap(&mut entries, &mut self.expanded);
        let ghost before = entries@;
        let e = StoreyExpansion { storey: storey.to_string(), open };
        match found {
            Some(i) => {
                proof {
                    lemma_expansion_update(before, i as int, e);
                }
                entries.set(i, e);
                proof {
                    assert forall|a: int, b: int| 0 <= a < b < entries@.len() implies (#[trigger] entries@[a]).storey@ != (#[trigger] entries@[b]).storey@ by {
                        assert(entries@[a].storey@ == before[a].storey@);
                        assert(entries@[b].storey@ == before[b].storey@);
                    }
                }
            },
            None => {
                entries.push(e);
                proof {
                    assert(entries@.drop_last() =~= before);
                    assert forall|a: int, b: int| 0 <= a < b < entries@.len() implies (#[trigger] entries@[a]).storey@ != (#[trigger] entries@[b]).storey@ by {
                        if b < before.len() {
                            assert(entries@[a] == before[a] && entries@[b] == before[b]);
                        } else {
                            assert(entries@[a] == before[a]);
                        }
                    }
                }
            },
        }
        self.expanded = entries;
    }
}

impl Default for HierarchyState {
    fn default() -> (r: Self)
        ensures
            r.expanded_view() == Map::<Seq<char>, bool>::empty(),
    {
        HierarchyState::new()
    }
}

} // verus!
