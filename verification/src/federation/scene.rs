//! Federation registry: owns the list of loaded sources and answers
//! "should this mesh be visible right now?" for the renderer.

use vstd::prelude::*;

use super::source::{Discipline, SourceInfo, ViewFilter};

verus! {

/// Opaque stable identifier for a loaded file: the first file gets id `0`,
/// the next `1`, and so on.
#[derive(Clone, Copy, Debug, PartialEq, Eq, Structural, Hash, PartialOrd, Ord)]
pub struct SourceId(pub u32);

impl Default for SourceId {
    fn default() -> (r: Self)
        ensures
            r == SourceId(0),
    {
        SourceId(0)
    }
}

/// The tag a mesh is filtered by: a whole-file discipline hint overrides the
/// per-entity tag, except when the hint is `Other` (architectural file),
/// where the per-entity tag still decides.
pub open spec fn effective_discipline(hint: Option<Discipline>, entity: Discipline) -> Discipline {
    match hint {
        Some(d) => if d != Discipline::Other { d } else { entity },
        None => entity,
    }
}

/// Does a source take part in the whole-file "visible triangles" count under
/// filter `f`?
pub open spec fn counts_as_visible(f: ViewFilter, info: SourceInfo) -> bool {
    info.visible && match info.discipline {
        Some(d) => f.spec_shows(d),
        None => true,
    }
}

/// Sum of the triangle counts of a sequence of sources.
pub open spec fn sum_triangles(s: Seq<SourceInfo>) -> nat
    decreases s.len(),
{
    if s.len() == 0 {
        0
    } else {
        sum_triangles(s.drop_last()) + s.last().triangle_count as nat
    }
}

/// Sum of the triangle counts of the sources that count as visible under `f`.
pub open spec fn sum_visible_triangles(f: ViewFilter, s: Seq<SourceInfo>) -> nat
    decreases s.len(),
{
    if s.len() == 0 {
        0
    } else {
        sum_visible_triangles(f, s.drop_last()) + if counts_as_visible(f, s.last()) {
            s.last().triangle_count as nat
        } else {
            0
        }
    }
}

/// Triangle sums grow along prefixes.
proof fn lemma_sums_monotone(f: ViewFilter, s: Seq<SourceInfo>, i: int)
    requires
        0 <= i <= s.len(),
    ensures
        sum_triangles(s.take(i)) <= sum_triangles(s),
        sum_visible_triangles(f, s.take(i)) <= sum_visible_triangles(f, s),
    decreases s.len() - i,
{
    if i < s.len() {
        lemma_sums_monotone(f, s, i + 1);
        assert(s.take(i + 1).drop_last() =~= s.take(i));
    } else {
        assert(s.take(i) =~= s);
    }
}

/// The visible-triangle count never exceeds the total triangle count.
pub proof fn law_visible_at_most_total(f: ViewFilter, s: Seq<SourceInfo>)
    ensures
        sum_visible_triangles(f, s) <= sum_triangles(s),
    decreases s.len(),
{
    if s.len() > 0 {
        law_visible_at_most_total(f, s.drop_last());
    }
}

/// Which sources count toward the visible triangles: a hidden source never;
/// a visible source without a whole-file hint, or with the `Other` hint,
/// under every filter; any visible source under `All`; a visible source
/// hinted with an MEP discipline not under `Architecture`, and under a
/// discipline filter exactly when the hint is that discipline.
pub proof fn law_counting_rule(f: ViewFilter, info: SourceInfo, d: Discipline, e: Discipline)
    ensures
        !info.visible ==> !counts_as_visible(f, info),
        info.visible && info.discipline is None ==> counts_as_visible(f, info),
        info.visible && info.discipline == Some(Discipline::Other) ==> counts_as_visible(f, info),
        info.visible ==> counts_as_visible(ViewFilter::All, info),
        info.visible && info.discipline == Some(d) && d != Discipline::Other
            ==> !counts_as_visible(ViewFilter::Architecture, info),
        info.visible && info.discipline == Some(d) && d != Discipline::Other ==> (counts_as_visible(
            ViewFilter::Discipline(e),
            info,
        ) <==> d == e),
{
}

/// When every source is visible and carries no whole-file hint, all
/// triangles are visible under every filter.
pub proof fn law_unhinted_sources_all_visible(f: ViewFilter, s: Seq<SourceInfo>)
    requires
        forall|i: int| 0 <= i < s.len() ==> (#[trigger] s[i]).visible && s[i].discipline is None,
    ensures
        sum_visible_triangles(f, s) == sum_triangles(s),
    decreases s.len(),
{
    if s.len() > 0 {
        law_unhinted_sources_all_visible(f, s.drop_last());
        assert(s.last() == s[s.len() - 1]);
    }
}

/// When every source is hidden, no triangle is visible.
pub proof fn law_hidden_sources_show_nothing(f: ViewFilter, s: Seq<SourceInfo>)
    requires
        forall|i: int| 0 <= i < s.len() ==> !(#[trigger] s[i]).visible,
    ensures
        sum_visible_triangles(f, s) == 0,
    decreases s.len(),
{
    if s.len() > 0 {
        law_hidden_sources_show_nothing(f, s.drop_last());
        assert(s.last() == s[s.len() - 1]);
    }
}

/// Registering a source adds its triangle count to the total, and to the
/// visible count exactly when it counts as visible.
pub proof fn law_register_adds_triangles(f: ViewFilter, s: Seq<SourceInfo>, info: SourceInfo)
    ensures
        sum_triangles(s.push(info)) == sum_triangles(s) + info.triangle_count,
        sum_visible_triangles(f, s.push(info)) == sum_visible_triangles(f, s) + if counts_as_visible(f, info) {
            info.triangle_count as nat
        } else {
            0
        },
{
    assert(s.push(info).drop_last() =~= s);
}

/// Registry of loaded IFC files plus the current viewport filter.
#[derive(Clone, Debug)]
pub struct FederatedScene {
    sources: Vec<SourceInfo>,
    /// Current viewport filter.
    pub filter: ViewFilter,
}

impl Default for FederatedScene {
    fn default() -> (r: Self)
        ensures
            r.sources_view() == Seq::<SourceInfo>::empty(),
            r.filter_view() == ViewFilter::All,
    {
        FederatedScene { sources: Vec::new(), filter: ViewFilter::All }
    }
}

impl FederatedScene {
    /// The registered sources, in registration order (index = source id).
    pub closed spec fn sources_view(self) -> Seq<SourceInfo> {
        self.sources@
    }

    /// The current viewport filter.
    pub closed spec fn filter_view(self) -> ViewFilter {
        self.filter
    }

    /// The visibility rule: an unknown source falls back to the filter on the
    /// entity tag; a hidden source shows nothing; otherwise the filter decides
    /// on the effective tag (whole-file hint over entity tag).
    pub open spec fn spec_visible(self, source: SourceId, entity: Discipline) -> bool {
        if (source.0 as int) < self.sources_view().len() {
            let info = self.sources_view()[source.0 as int];
            info.visible && self.filter_view().spec_shows(effective_discipline(info.discipline, entity))
        } else {
            self.filter_view().spec_shows(entity)
        }
    }

    /// An empty registry with the `All` filter.
    pub fn new() -> (r: Self)
        ensures
            r.sources_view() == Seq::<SourceInfo>::empty(),
            r.filter_view() == ViewFilter::All,
    {
        FederatedScene { sources: Vec::new(), filter: ViewFilter::All }
    }

    /// Add a new source. The returned id is the number of sources before the
    /// call (taken modulo 2^32, the width of an id).
    pub fn register(&mut self, info: SourceInfo) -> (r: SourceId)
        ensures
            r.0 == old(self).sources_view().len() as u32,
            final(self).sources_view() == old(self).sources_view().push(info),
            final(self).filter_view() == old(self).filter_view(),
    {
        let id = SourceId(self.sources.len() as u32);
        self.sources.push(info);
        id
    }

    /// The current viewport filter.
    pub fn filter(&self) -> (r: ViewFilter)
        ensures
            r == self.filter_view(),
    {
        self.filter
    }

    /// Switch the viewport filter; the sources are unchanged.
    pub fn set_filter(&mut self, filter: ViewFilter)
        ensures
            final(self).filter_view() == filter,
            final(self).sources_view() == old(self).sources_view(),
    {
        self.filter = filter;
    }

    /// The registered sources, indexed by source id.
    pub fn sources(&self) -> (r: &[SourceInfo])
        ensures
            r@ == self.sources_view(),
    {
        self.sources.as_slice()
    }

    /// Mutable access to the registered sources; their number cannot change.
    pub fn sources_mut(&mut self) -> (r: &mut [SourceInfo])
        ensures
            r@ == old(self).sources_view(),
            final(r)@ == final(self).sources_view(),
            final(self).filter_view() == old(self).filter_view(),
    {
        self.sources.as_mut_slice()
    }

    /// The source with the given id, if it was registered.
    pub fn source(&self, id: SourceId) -> (r: Option<&SourceInfo>)
        ensures
            (id.0 as int) < self.sources_view().len() ==> r == Some(&self.sources_view()[id.0 as int]),
            (id.0 as int) >= self.sources_view().len() ==> r is None,
    {
        let idx = id.0 as usize;
        if idx < self.sources.len() {
            Some(&self.sources[idx])
        } else {
            None
        }
    }

    /// Mutable access to the source with the given id, if it was registered.
    pub fn source_mut(&mut self, id: SourceId) -> (r: Option<&mut SourceInfo>)
        ensures
            (id.0 as int) < old(self).sources_view().len() ==> {
                &&& r is Some
                &&& *r->0 == old(self).sources_view()[id.0 as int]
                &&& final(self).sources_view() == old(self).sources_view().update(
                    id.0 as int,
                    *final(r->0),
                )
                &&& final(self).filter_view() == old(self).filter_view()
            },
            (id.0 as int) >= old(self).sources_view().len() ==> {
                &&& r is None
                &&& *final(self) == *old(self)
            },
    {
        let idx = id.0 as usize;
        if idx < self.sources.len() {
            Some(&mut self.sources[idx])
        } else {
            None
        }
    }

    /// Tombstone a source: its slot is replaced by a fresh entry named
    /// `"(removed)"`, so every other source keeps its id. Returns the removed
    /// metadata, or `None` for an unknown id.
    pub fn remove(&mut self, id: SourceId) -> (r: Option<SourceInfo>)
        ensures
            final(self).filter_view() == old(self).filter_view(),
            (id.0 as int) < old(self).sources_view().len() ==> {
                &&& r == Some(old(self).sources_view()[id.0 as int])
                &&& final(self).sources_view().len() == old(self).sources_view().len()
                &&& final(self).sources_view()[id.0 as int].spec_is_fresh("(removed)"@)
                &&& forall|j: int| 0 <= j < old(self).sources_view().len() && j != id.0
                    ==> #[trigger] final(self).sources_view()[j] == old(self).sources_view()[j]
            },
            (id.0 as int) >= old(self).sources_view().len() ==> {
                &&& r is None
                &&& final(self).sources_view() == old(self).sources_view()
            },
    {
        let idx = id.0 as usize;
        if idx >= self.sources.len() {
            return None;
        }
        let mut tomb = SourceInfo::new("(removed)");
        std::mem::swap(&mut self.sources[idx], &mut tomb);
        Some(tomb)
    }

    /// Drop every source (ids start again at `0`); the filter is kept.
    pub fn clear(&mut self)
        ensures
            final(self).sources_view() == Seq::<SourceInfo>::empty(),
            final(self).filter_view() == old(self).filter_view(),
    {
        self.sources.clear();
    }

    /// Decide whether a mesh from `source` with per-entity tag
    /// `entity_discipline` should be drawn under the current filter.
    pub fn visible(&self, source: SourceId, entity_discipline: Discipline) -> (r: bool)
        ensures
            r == self.spec_visible(source, entity_discipline),
    {
        let info = match self.source(source) {
            Some(info) => info,
            None => {
                return self.filter.shows(entity_discipline);
            },
        };
        if !info.visible {
            return false;
        }
        let effective = match info.discipline {
            Some(d) if d != Discipline::Other => d,
            _ => entity_discipline,
        };
        self.filter.shows(effective)
    }

    /// Sum of the triangle counts of all sources.
    pub fn total_triangles(&self) -> (r: usize)
        requires
            sum_triangles(self.sources_view()) <= usize::MAX,
        ensures
            r == sum_triangles(self.sources_view()),
    {
        let mut total: usize = 0;
        let mut i: usize = 0;
        while i < self.sources.len()
            invariant
                i <= self.sources@.len(),
                sum_triangles(self.sources@) <= usize::MAX,
                total == sum_triangles(self.sources@.take(i as int)),
            decreases self.sources@.len() - i,
        {
            proof {
                lemma_sums_monotone(self.filter, self.sources@, i + 1);
                assert(self.sources@.take(i + 1).drop_last() =~= self.sources@.take(i as int));
            }
            total = total + self.sources[i].triangle_count;
            i = i + 1;
        }
        assert(self.sources@.take(i as int) =~= self.sources@);
        total
    }

    /// Sum of the triangle counts of the visible sources whose whole-file
    /// discipline (if any) the current filter shows.
    pub fn visible_triangles(&self) -> (r: usize)
        requires
            sum_visible_triangles(self.filter_view(), self.sources_view()) <= usize::MAX,
        ensures
            r == sum_visible_triangles(self.filter_view(), self.sources_view()),
    {
        let mut total: usize = 0;
        let mut i: usize = 0;
        while i < self.sources.len()
            invariant
                i <= self.sources@.len(),
                sum_visible_triangles(self.filter, self.sources@) <= usize::MAX,
                total == sum_visible_triangles(self.filter, self.sources@.take(i as int)),
            decreases self.sources@.len() - i,
        {
            proof {
                lemma_sums_monotone(self.filter, self.sources@, i + 1);
                assert(self.sources@.take(i + 1).drop_last() =~= self.sources@.take(i as int));
            }
            let s = &self.sources[i];
            let counted = s.visible && match s.discipline {
                Some(d) => self.filter.shows(d),
                None => true,
            };
            if counted {
                total = total + s.triangle_count;
            }
            i = i + 1;
        }
        assert(self.sources@.take(i as int) =~= self.sources@);
        total
    }
}


/// A source registered while fewer than 2^32 sources exist is found again
/// under the id registration returned.
pub proof fn law_registered_source_found(before: Seq<SourceInfo>, info: SourceInfo, after: FederatedScene, id: SourceId)
    requires
        before.len() < u32::MAX,
        after.sources_view() == before.push(info),
        id.0 == before.len() as u32,
    ensures
        (id.0 as int) < after.sources_view().len(),
        after.sources_view()[id.0 as int] == info,
{
}

/// A hidden source shows none of its meshes, whatever their tags.
pub proof fn law_hidden_source_shows_nothing(scene: FederatedScene, id: SourceId, entity: Discipline)
    requires
        (id.0 as int) < scene.sources_view().len(),
        !scene.sources_view()[id.0 as int].visible,
    ensures
        !scene.spec_visible(id, entity),
{
}

/// A visible source with a non-`Other` whole-file discipline is shown or
/// hidden as a whole: the per-entity tags of its meshes do not matter.
pub proof fn law_whole_file_hint_overrides(scene: FederatedScene, id: SourceId, e1: Discipline, e2: Discipline)
    requires
        (id.0 as int) < scene.sources_view().len(),
        scene.sources_view()[id.0 as int].discipline matches Some(d) && d != Discipline::Other,
    ensures
        scene.spec_visible(id, e1) == scene.spec_visible(id, e2),
        scene.spec_visible(id, e1) == (scene.sources_view()[id.0 as int].visible
            && scene.filter_view().spec_shows(scene.sources_view()[id.0 as int].discipline->0)),
{
}

/// In a visible source without a whole-file hint, or with the architectural
/// hint `Other`, each mesh's own tag decides.
pub proof fn law_entity_tag_decides_without_hint(scene: FederatedScene, id: SourceId, entity: Discipline)
    requires
        (id.0 as int) < scene.sources_view().len(),
        scene.sources_view()[id.0 as int].visible,
        scene.sources_view()[id.0 as int].discipline is None || scene.sources_view()[id.0 as int].discipline == Some(Discipline::Other),
    ensures
        scene.spec_visible(id, entity) == scene.filter_view().spec_shows(entity),
{
}

/// Meshes of a source not (yet) registered are judged by the filter alone.
pub proof fn law_unknown_source_uses_filter(scene: FederatedScene, id: SourceId, entity: Discipline)
    requires
        (id.0 as int) >= scene.sources_view().len(),
    ensures
        scene.spec_visible(id, entity) == scene.filter_view().spec_shows(entity),
{
}

} // verus!
