//! Parsing, equality and inheritance queries on [`IfcType`].

use vstd::prelude::*;

pub use super::ifc_type_table::IfcType;
use super::ifc_type_table::{lemma_tag_eq, lookup_upper, type_eq};
use crate::text::{ascii_upper, chars_of, is_ascii_text};

verus! {

/// The Unicode upper-case form of a string, as `str::to_uppercase` computes
/// it.
pub uninterp spec fn str_to_uppercase(s: Seq<char>) -> Seq<char>;

/// Calls `str::to_uppercase`. Its result is named by [`str_to_uppercase`]:
/// the same characters always give the same upper-case form. For ASCII
/// text the Unicode upper-case mapping is the ASCII one (`a`..`z` to
/// `A`..`Z`, everything else kept).
#[verifier::external_body]
pub(crate) fn to_uppercase(s: &str) -> (r: String)
    ensures
        r@ == str_to_uppercase(s@),
        is_ascii_text(s@) ==> r@ == ascii_upper(s@),
{
    s.to_uppercase()
}

/// A parent is always strictly shallower than its child.
pub proof fn lemma_parent_rank(t: IfcType)
    ensures
        t.spec_parent() matches Some(p) ==> p.rank() < t.rank() && !(p is Unknown),
{
}

/// `r` is what parsing gives for a name whose upper-case form is `upper` and
/// whose spelling as given is `spelling`: the named variant with that wire
/// name, else an unknown type keeping the spelling as given.
pub open spec fn parsed_as(r: IfcType, upper: Seq<char>, spelling: Seq<char>) -> bool {
    match lookup_upper(upper) {
        Some(t) => r == t,
        None => r matches IfcType::Unknown(x) && x@ == spelling,
    }
}

impl IfcType {
    /// `self` equals `p` or reaches `p` by parent steps.
    pub open spec fn subtype_chain(self, p: IfcType) -> bool
        decreases self.rank(),
    {
        if self == p {
            true
        } else {
            match self.spec_parent() {
                Some(q) => {
                    proof {
                        lemma_parent_rank(self);
                    }
                    q.subtype_chain(p)
                },
                None => false,
            }
        }
    }

    /// True if this named type equals `p` or has `p` as an ancestor; unknown
    /// types are subtypes of nothing.
    pub open spec fn spec_is_subtype_of(self, p: IfcType) -> bool {
        !(self is Unknown) && self.subtype_chain(p)
    }

    /// Spatial containers that only group children: subtypes of
    /// `IfcSpatialElement` other than `IfcSpace` and `IfcSite`.
    pub open spec fn spec_is_non_geometric_spatial(self) -> bool {
        !(self is IfcSpace || self is IfcSite) && self.spec_is_subtype_of(IfcType::IfcSpatialElement)
    }

    /// Products carry geometry, except the non-geometric spatial containers.
    pub open spec fn spec_has_geometry(self) -> bool {
        self.spec_is_subtype_of(IfcType::IfcProduct) && !self.spec_is_non_geometric_spatial()
    }

    /// Parse a type name: the upper-cased name is looked up in the wire-name
    /// table; an unknown name becomes `Unknown` with the spelling as given.
    pub fn parse(s: &str) -> (r: Self)
        ensures
            parsed_as(r, str_to_uppercase(s@), s@),
            is_ascii_text(s@) ==> parsed_as(r, ascii_upper(s@), s@),
    {
        let upper = to_uppercase(s);
        Self::from_upper_name(upper.as_str(), s)
    }

    /// The table lookup behind [`IfcType::parse`], given the already
    /// upper-cased name and the spelling as given.
    pub fn from_upper_name(upper: &str, spelling: &str) -> (r: Self)
        ensures
            parsed_as(r, upper@, spelling@),
    {
        let u = chars_of(upper);
        match super::ifc_type_table::find_upper(&u) {
            Some(t) => t,
            None => IfcType::Unknown(spelling.to_owned()),
        }
    }

    /// True if this type equals `parent` or any of its ancestors does.
    pub fn is_subtype_of(&self, parent: IfcType) -> (r: bool)
        ensures
            r == self.spec_is_subtype_of(parent),
    {
        if let IfcType::Unknown(_) = self {
            return false;
        }
        if eq_named(self, &parent) {
            return true;
        }
        proof {
            lemma_parent_rank(*self);
        }
        let mut cur = self.parent();
        loop
            invariant
                !(*self is Unknown),
                *self != parent,
                match cur {
                    Some(c) => !(c is Unknown) && (self.subtype_chain(parent) == c.subtype_chain(parent)),
                    None => !self.subtype_chain(parent),
                },
            decreases
                match cur {
                    Some(c) => c.rank() + 1,
                    None => 0,
                },
        {
            match cur {
                Some(t) => {
                    if eq_named(&t, &parent) {
                        return true;
                    }
                    proof {
                        lemma_parent_rank(t);
                    }
                    cur = t.parent();
                },
                None => {
                    return false;
                },
            }
        }
    }

    /// Check if this type represents a product that can carry geometry:
    /// anything under `IfcProduct` except spatial containers other than
    /// `IfcSpace` and `IfcSite`.
    pub fn has_geometry(&self) -> (r: bool)
        ensures
            r == self.spec_has_geometry(),
    {
        if !self.is_subtype_of(IfcType::IfcProduct) {
            return false;
        }
        !is_non_geometric_spatial(self)
    }

    /// Check if this type is a spatial structure element.
    pub fn is_spatial(&self) -> (r: bool)
        ensures
            r == self.spec_is_spatial(),
    {
        match self {
            IfcType::IfcProject | IfcType::IfcSite | IfcType::IfcBuilding
            | IfcType::IfcBuildingStorey | IfcType::IfcSpace | IfcType::IfcFacility
            | IfcType::IfcFacilityPart => true,
            _ => false,
        }
    }
}

/// Spatial containers that exist only to group children, not to render.
fn is_non_geometric_spatial(t: &IfcType) -> (r: bool)
    ensures
        r == t.spec_is_non_geometric_spatial(),
{
    if let IfcType::IfcSpace | IfcType::IfcSite = t {
        return false;
    }
    t.is_subtype_of(IfcType::IfcSpatialElement)
}

/// Equality of a named type with any type, by declaration position.
fn eq_named(a: &IfcType, b: &IfcType) -> (r: bool)
    requires
        !(*a is Unknown),
    ensures
        r == (*a == *b),
{
    proof {
        lemma_tag_eq(*a, *b);
    }
    a.tag() == b.tag()
}


/// Every named type is a subtype of itself.
pub proof fn law_subtype_reflexive(t: IfcType)
    requires
        !(t is Unknown),
    ensures
        t.spec_is_subtype_of(t),
{
}

/// The type reached by `n` steps up the parent chain, if the chain is that
/// long.
pub open spec fn parent_iter(t: IfcType, n: nat) -> Option<IfcType>
    decreases n,
{
    if n == 0 {
        Some(t)
    } else {
        match parent_iter(t, (n - 1) as nat) {
            Some(u) => u.spec_parent(),
            None => None,
        }
    }
}

/// No type sits deeper than eight steps below the root.
proof fn lemma_rank_bound(t: IfcType)
    ensures
        t.rank() <= 8,
{
}

/// Every type with a parent has a parent that is `IfcRoot` or has a parent
/// itself.
proof fn lemma_parent_not_stranded(t: IfcType)
    ensures
        t.spec_parent() matches Some(p) ==> p == IfcType::IfcRoot || p.spec_parent() is Some,
{
}

/// `n` steps up the chain lose at least `n` levels and never reach an
/// unknown type.
proof fn lemma_parent_iter_rank(t: IfcType, n: nat)
    ensures
        parent_iter(t, n) matches Some(u) ==> u.rank() + n <= t.rank() && (n > 0 ==> !(u is Unknown)),
    decreases n,
{
    if n > 0 {
        lemma_parent_iter_rank(t, (n - 1) as nat);
        if let Some(u) = parent_iter(t, (n - 1) as nat) {
            lemma_parent_rank(u);
        }
    }
}

/// A type with a parent descends from `IfcRoot`.
proof fn lemma_reaches_root(t: IfcType)
    requires
        t.spec_parent() is Some,
    ensures
        t.spec_is_subtype_of(IfcType::IfcRoot),
    decreases t.rank(),
{
    lemma_parent_rank(t);
    lemma_parent_not_stranded(t);
    let p = t.spec_parent()->0;
    if p == IfcType::IfcRoot {
        assert(p.subtype_chain(IfcType::IfcRoot));
    } else {
        lemma_reaches_root(p);
    }
}

/// The parent chain is a tree rooted at `IfcRoot`: from any type it ends
/// after at most nine steps, never visits a type twice, never meets an
/// unknown type, and every type with a parent descends from `IfcRoot`.
pub proof fn law_parent_chain(t: IfcType, i: nat, j: nat)
    ensures
        parent_iter(t, 9) is None,
        i < j && parent_iter(t, i) is Some && parent_iter(t, j) is Some ==> parent_iter(t, i) != parent_iter(t, j),
        j > 0 && parent_iter(t, j) is Some ==> !(parent_iter(t, j)->0 is Unknown),
        t.spec_parent() is Some ==> t.spec_is_subtype_of(IfcType::IfcRoot),
{
    lemma_rank_bound(t);
    lemma_parent_iter_rank(t, 9);
    lemma_parent_iter_rank(t, j);
    if i < j {
        if let (Some(a), Some(b)) = (parent_iter(t, i), parent_iter(t, j)) {
            lemma_parent_iter_rank(a, (j - i) as nat);
            lemma_parent_iter_shift(t, i, (j - i) as nat);
        }
    }
    if t.spec_parent() is Some {
        lemma_reaches_root(t);
    }
}

/// Steps up the chain compose: `i + k` steps from `t` are `k` steps from
/// where `i` steps lead.
proof fn lemma_parent_iter_shift(t: IfcType, i: nat, k: nat)
    requires
        parent_iter(t, i) is Some,
    ensures
        parent_iter(t, i + k) == parent_iter(parent_iter(t, i)->0, k),
    decreases k,
{
    if k > 0 {
        lemma_parent_iter_shift(t, i, (k - 1) as nat);
        assert((i + k - 1) as nat == i + (k - 1) as nat);
    }
}

/// A type is a subtype of its direct parent.
pub proof fn law_subtype_of_parent(t: IfcType, p: IfcType)
    requires
        t.spec_parent() == Some(p),
    ensures
        t.spec_is_subtype_of(p),
{
    lemma_parent_rank(t);
    assert(p.subtype_chain(p));
}

/// Walking the chain only ever moves to shallower types.
proof fn lemma_chain_rank(a: IfcType, b: IfcType)
    requires
        a.subtype_chain(b),
    ensures
        b.rank() <= a.rank(),
        b.rank() == a.rank() ==> a == b,
        !(a is Unknown) ==> !(b is Unknown),
    decreases a.rank(),
{
    lemma_parent_rank(a);
    if a != b {
        let q = a.spec_parent().unwrap();
        lemma_chain_rank(q, b);
    }
}

/// The subtype relation is transitive.
pub proof fn law_subtype_transitive(a: IfcType, b: IfcType, c: IfcType)
    requires
        a.spec_is_subtype_of(b),
        b.spec_is_subtype_of(c),
    ensures
        a.spec_is_subtype_of(c),
    decreases a.rank(),
{
    lemma_parent_rank(a);
    if a != b {
        let q = a.spec_parent().unwrap();
        law_subtype_transitive(q, b, c);
    }
}

/// Two types that are subtypes of each other are equal.
pub proof fn law_subtype_antisymmetric(a: IfcType, b: IfcType)
    requires
        a.spec_is_subtype_of(b),
        b.spec_is_subtype_of(a),
    ensures
        a == b,
{
    lemma_chain_rank(a, b);
    lemma_chain_rank(b, a);
}

/// Whatever has geometry is a product, and the pure spatial containers
/// (every `IfcSpatialElement` subtype but `IfcSpace` and `IfcSite`) never do.
pub proof fn law_geometry_only_on_products(t: IfcType)
    ensures
        t.spec_has_geometry() ==> t.spec_is_subtype_of(IfcType::IfcProduct),
        t.spec_is_subtype_of(IfcType::IfcSpatialElement) && !(t is IfcSpace) && !(t is IfcSite)
            ==> !t.spec_has_geometry(),
{
}

/// Unknown types are subtypes of nothing and never carry geometry.
pub proof fn law_unknown_is_nothing(t: IfcType, p: IfcType)
    requires
        t is Unknown,
    ensures
        !t.spec_is_subtype_of(p),
        !t.spec_has_geometry(),
{
}

impl PartialEq for IfcType {
    fn eq(&self, other: &Self) -> (r: bool) {
        match (self, other) {
            (IfcType::Unknown(x), IfcType::Unknown(y)) => {
                let same: bool = String::eq(x, y);
                assert(same == (x@ == y@));
                same
            },
            (IfcType::Unknown(_), _) => false,
            _ => eq_named(self, other),
        }
    }
}

impl vstd::std_specs::cmp::PartialEqSpecImpl for IfcType {
    open spec fn obeys_eq_spec() -> bool {
        true
    }

    open spec fn eq_spec(&self, other: &Self) -> bool {
        type_eq(*self, *other)
    }
}

impl Eq for IfcType {
}

impl Default for IfcType {
    fn default() -> (r: Self)
        ensures
            r matches IfcType::Unknown(s) && s@ == Seq::<char>::empty(),
    {
        IfcType::Unknown(String::new())
    }
}

impl std::str::FromStr for IfcType {
    type Err = std::convert::Infallible;

    fn from_str(s: &str) -> (r: Result<Self, Self::Err>)
        ensures
            r matches Ok(t) && parsed_as(t, str_to_uppercase(s@), s@),
    {
        Ok(Self::parse(s))
    }
}

} // verus!
