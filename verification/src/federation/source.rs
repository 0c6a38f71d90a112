//! Discipline enum, view filter, and per-file source metadata.

use vstd::prelude::*;

use crate::text::{ascii_lower, has_substring, contains_str, lower_chars_of};

verus! {

/// MEP discipline categorisation for a renderable element.
///
/// `Other` stands for architectural / structural / generic content.
#[derive(Clone, Copy, Debug, PartialEq, Eq, Structural, Hash)]
pub enum Discipline {
    Other,
    Electrical,
    Plumbing,
    Hvac,
    Lighting,
}

impl Default for Discipline {
    fn default() -> (r: Self)
        ensures
            r == Discipline::Other,
    {
        Discipline::Other
    }
}

impl Discipline {
    /// The short label of a discipline, as a character sequence.
    pub open spec fn spec_short(self) -> Seq<char> {
        match self {
            Discipline::Other => "Other"@,
            Discipline::Electrical => "Electrical"@,
            Discipline::Plumbing => "Plumbing"@,
            Discipline::Hvac => "HVAC"@,
            Discipline::Lighting => "Lighting"@,
        }
    }

    /// The icon of a discipline, as a character sequence.
    pub open spec fn spec_icon(self) -> Seq<char> {
        match self {
            Discipline::Other => "📦"@,
            Discipline::Electrical => "⚡"@,
            Discipline::Plumbing => "🔧"@,
            Discipline::Hvac => "💨"@,
            Discipline::Lighting => "💡"@,
        }
    }

    /// Short single-token label (used by status bars and CLIs).
    pub fn short(self) -> (r: &'static str)
        ensures
            r@ == self.spec_short(),
    {
        match self {
            Discipline::Other => "Other",
            Discipline::Electrical => "Electrical",
            Discipline::Plumbing => "Plumbing",
            Discipline::Hvac => "HVAC",
            Discipline::Lighting => "Lighting",
        }
    }

    /// Pictogram shown next to the discipline in toolbars.
    pub fn icon(self) -> (r: &'static str)
        ensures
            r@ == self.spec_icon(),
    {
        match self {
            Discipline::Other => "📦",
            Discipline::Electrical => "⚡",
            Discipline::Plumbing => "🔧",
            Discipline::Hvac => "💨",
            Discipline::Lighting => "💡",
        }
    }
}

/// Viewport-level UI mode deciding which discipline tags are drawn.
#[derive(Clone, Copy, Debug, PartialEq, Eq, Structural, Hash)]
pub enum ViewFilter {
    /// Show every triangle.
    All,
    /// Hide all MEP; only the building shell remains.
    Architecture,
    /// Show this discipline plus the always-visible architectural context.
    Discipline(Discipline),
}

impl Default for ViewFilter {
    fn default() -> (r: Self)
        ensures
            r == ViewFilter::All,
    {
        ViewFilter::All
    }
}

impl ViewFilter {
    /// The visibility rule: `All` shows everything, `Architecture` shows only
    /// `Other`, `Discipline(d)` shows `d` and `Other`.
    pub open spec fn spec_shows(self, tag: Discipline) -> bool {
        match self {
            ViewFilter::All => true,
            ViewFilter::Architecture => tag == Discipline::Other,
            ViewFilter::Discipline(d) => tag == d || tag == Discipline::Other,
        }
    }

    /// The status-bar label of a filter.
    pub open spec fn spec_label(self) -> Seq<char> {
        match self {
            ViewFilter::All => "All disciplines"@,
            ViewFilter::Architecture => "Architecture only (no MEP)"@,
            ViewFilter::Discipline(Discipline::Electrical) => "Electrical only"@,
            ViewFilter::Discipline(Discipline::Plumbing) => "Plumbing only"@,
            ViewFilter::Discipline(Discipline::Hvac) => "HVAC only"@,
            ViewFilter::Discipline(Discipline::Lighting) => "Lighting only"@,
            ViewFilter::Discipline(Discipline::Other) => "Other only"@,
        }
    }

    /// The icon of a filter.
    pub open spec fn spec_icon(self) -> Seq<char> {
        match self {
            ViewFilter::All => "🏗"@,
            ViewFilter::Architecture => "🏛"@,
            ViewFilter::Discipline(d) => d.spec_icon(),
        }
    }

    /// Should a triangle/mesh with the given tag be drawn?
    pub fn shows(self, tag: Discipline) -> (r: bool)
        ensures
            r == self.spec_shows(tag),
    {
        match self {
            ViewFilter::All => true,
            ViewFilter::Architecture => tag == Discipline::Other,
            ViewFilter::Discipline(d) => tag == d || tag == Discipline::Other,
        }
    }

    /// Human-readable label for status bars and tooltips.
    pub fn label(self) -> (r: &'static str)
        ensures
            r@ == self.spec_label(),
    {
        match self {
            ViewFilter::All => "All disciplines",
            ViewFilter::Architecture => "Architecture only (no MEP)",
            ViewFilter::Discipline(Discipline::Electrical) => "Electrical only",
            ViewFilter::Discipline(Discipline::Plumbing) => "Plumbing only",
            ViewFilter::Discipline(Discipline::Hvac) => "HVAC only",
            ViewFilter::Discipline(Discipline::Lighting) => "Lighting only",
            ViewFilter::Discipline(Discipline::Other) => "Other only",
        }
    }

    /// Pictogram for the filter.
    pub fn icon(self) -> (r: &'static str)
        ensures
            r@ == self.spec_icon(),
    {
        match self {
            ViewFilter::All => "🏗",
            ViewFilter::Architecture => "🏛",
            ViewFilter::Discipline(d) => d.icon(),
        }
    }

    /// All variants in the order the toolbar should display them.
    pub fn all_variants() -> (r: [ViewFilter; 6])
        ensures
            r@ == seq![
                ViewFilter::All,
                ViewFilter::Architecture,
                ViewFilter::Discipline(Discipline::Electrical),
                ViewFilter::Discipline(Discipline::Plumbing),
                ViewFilter::Discipline(Discipline::Hvac),
                ViewFilter::Discipline(Discipline::Lighting),
            ],
    {
        let r = [
            ViewFilter::All,
            ViewFilter::Architecture,
            ViewFilter::Discipline(Discipline::Electrical),
            ViewFilter::Discipline(Discipline::Plumbing),
            ViewFilter::Discipline(Discipline::Hvac),
            ViewFilter::Discipline(Discipline::Lighting),
        ];
        assert(r@ =~= seq![
            ViewFilter::All,
            ViewFilter::Architecture,
            ViewFilter::Discipline(Discipline::Electrical),
            ViewFilter::Discipline(Discipline::Plumbing),
            ViewFilter::Discipline(Discipline::Hvac),
            ViewFilter::Discipline(Discipline::Lighting),
        ]);
        r
    }
}

/// Every filter keeps the architectural context (`Other`) visible.
pub proof fn law_every_filter_shows_other(f: ViewFilter)
    ensures
        f.spec_shows(Discipline::Other),
{
}

/// `All` shows every tag, `Architecture` only `Other`, and a discipline
/// filter its own discipline plus `Other`; so for an MEP tag a discipline
/// filter shows it exactly when it is that filter's discipline.
pub proof fn law_filter_shape(tag: Discipline, d: Discipline)
    ensures
        ViewFilter::All.spec_shows(tag),
        ViewFilter::Architecture.spec_shows(tag) <==> tag == Discipline::Other,
        ViewFilter::Discipline(d).spec_shows(tag) <==> (tag == d || tag == Discipline::Other),
        tag != Discipline::Other ==> (ViewFilter::Discipline(d).spec_shows(tag)
            != ViewFilter::Architecture.spec_shows(tag)) == (tag == d),
{
}

/// Per-loaded-file metadata: display name, optional on-disk path, the
/// whole-file discipline hint, entity and triangle counts and the
/// per-source visibility toggle.
#[derive(Clone, Debug)]
pub struct SourceInfo {
    pub display_name: String,
    pub path: Option<String>,
    pub discipline: Option<Discipline>,
    pub entity_count: usize,
    pub triangle_count: usize,
    pub visible: bool,
}

impl SourceInfo {
    /// A fresh source: no path, no discipline hint, zero counts, visible.
    pub open spec fn spec_is_fresh(self, name: Seq<char>) -> bool {
        &&& self.display_name@ == name
        &&& self.path is None
        &&& self.discipline is None
        &&& self.entity_count == 0
        &&& self.triangle_count == 0
        &&& self.visible
    }

    /// Create the metadata of a freshly loaded file.
    pub fn new(display_name: &str) -> (r: Self)
        ensures
            r.spec_is_fresh(display_name@),
    {
        SourceInfo {
            display_name: display_name.to_owned(),
            path: None,
            discipline: None,
            entity_count: 0,
            triangle_count: 0,
            visible: true,
        }
    }
}

/// The whole-file discipline rule on a lower-cased file stem. Keywords are
/// tried most specific first.
pub open spec fn stem_discipline(stem: Seq<char>) -> Option<Discipline> {
    if has_substring(stem, "light"@) || has_substring(stem, "lumin"@) || has_substring(stem, "_lit"@) {
        Some(Discipline::Lighting)
    } else if has_substring(stem, "electr"@) || has_substring(stem, "_el"@)
        || has_substring(stem, "_eled"@) || has_substring(stem, "_elec"@) {
        Some(Discipline::Electrical)
    } else if has_substring(stem, "hvac"@) || has_substring(stem, "_air"@)
        || has_substring(stem, "_duct"@) || has_substring(stem, "ventil"@)
        || has_substring(stem, "_heat"@) || has_substring(stem, "_cool"@) {
        Some(Discipline::Hvac)
    } else if has_substring(stem, "plumb"@) || has_substring(stem, "sanit"@)
        || has_substring(stem, "_pipe"@) || has_substring(stem, "waste"@)
        || has_substring(stem, "water"@) {
        Some(Discipline::Plumbing)
    } else if has_substring(stem, "_arc"@) || has_substring(stem, "_arch"@)
        || has_substring(stem, "architect"@) || has_substring(stem, "_shell"@)
        || has_substring(stem, "_struct"@) || has_substring(stem, "_str_"@) {
        Some(Discipline::Other)
    } else {
        None
    }
}

/// A file stem holding a lighting keyword (in any ASCII case), and none of
/// the keywords tried before, gives the Lighting discipline.
pub proof fn law_lighting_stems(stem: Seq<char>)
    requires
        has_substring(ascii_lower(stem), "light"@) || has_substring(ascii_lower(stem), "lumin"@) || has_substring(ascii_lower(stem), "_lit"@),
    ensures
        stem_discipline(ascii_lower(stem)) == Some(Discipline::Lighting),
{
}

/// A file stem holding an electrical keyword (in any ASCII case), and none of
/// the keywords tried before, gives the Electrical discipline.
pub proof fn law_electrical_stems(stem: Seq<char>)
    requires
        !(has_substring(ascii_lower(stem), "light"@) || has_substring(ascii_lower(stem), "lumin"@) || has_substring(ascii_lower(stem), "_lit"@)),
        has_substring(ascii_lower(stem), "electr"@) || has_substring(ascii_lower(stem), "_el"@) || has_substring(ascii_lower(stem), "_eled"@) || has_substring(ascii_lower(stem), "_elec"@),
    ensures
        stem_discipline(ascii_lower(stem)) == Some(Discipline::Electrical),
{
}

/// A file stem holding an HVAC keyword (in any ASCII case), and none of
/// the keywords tried before, gives the Hvac discipline.
pub proof fn law_hvac_stems(stem: Seq<char>)
    requires
        !(has_substring(ascii_lower(stem), "light"@) || has_substring(ascii_lower(stem), "lumin"@) || has_substring(ascii_lower(stem), "_lit"@)),
        !(has_substring(ascii_lower(stem), "electr"@) || has_substring(ascii_lower(stem), "_el"@) || has_substring(ascii_lower(stem), "_eled"@) || has_substring(ascii_lower(stem), "_elec"@)),
        has_substring(ascii_lower(stem), "hvac"@) || has_substring(ascii_lower(stem), "_air"@) || has_substring(ascii_lower(stem), "_duct"@) || has_substring(ascii_lower(stem), "ventil"@) || has_substring(ascii_lower(stem), "_heat"@) || has_substring(ascii_lower(stem), "_cool"@),
    ensures
        stem_discipline(ascii_lower(stem)) == Some(Discipline::Hvac),
{
}

/// A file stem holding a plumbing keyword (in any ASCII case), and none of
/// the keywords tried before, gives the Plumbing discipline.
pub proof fn law_plumbing_stems(stem: Seq<char>)
    requires
        !(has_substring(ascii_lower(stem), "light"@) || has_substring(ascii_lower(stem), "lumin"@) || has_substring(ascii_lower(stem), "_lit"@)),
        !(has_substring(ascii_lower(stem), "electr"@) || has_substring(ascii_lower(stem), "_el"@) || has_substring(ascii_lower(stem), "_eled"@) || has_substring(ascii_lower(stem), "_elec"@)),
        !(has_substring(ascii_lower(stem), "hvac"@) || has_substring(ascii_lower(stem), "_air"@) || has_substring(ascii_lower(stem), "_duct"@) || has_substring(ascii_lower(stem), "ventil"@) || has_substring(ascii_lower(stem), "_heat"@) || has_substring(ascii_lower(stem), "_cool"@)),
        has_substring(ascii_lower(stem), "plumb"@) || has_substring(ascii_lower(stem), "sanit"@) || has_substring(ascii_lower(stem), "_pipe"@) || has_substring(ascii_lower(stem), "waste"@) || has_substring(ascii_lower(stem), "water"@),
    ensures
        stem_discipline(ascii_lower(stem)) == Some(Discipline::Plumbing),
{
}

/// A file stem holding an architectural or structural keyword (in any ASCII case), and none of
/// the keywords tried before, gives the Other discipline.
pub proof fn law_other_stems(stem: Seq<char>)
    requires
        !(has_substring(ascii_lower(stem), "light"@) || has_substring(ascii_lower(stem), "lumin"@) || has_substring(ascii_lower(stem), "_lit"@)),
        !(has_substring(ascii_lower(stem), "electr"@) || has_substring(ascii_lower(stem), "_el"@) || has_substring(ascii_lower(stem), "_eled"@) || has_substring(ascii_lower(stem), "_elec"@)),
        !(has_substring(ascii_lower(stem), "hvac"@) || has_substring(ascii_lower(stem), "_air"@) || has_substring(ascii_lower(stem), "_duct"@) || has_substring(ascii_lower(stem), "ventil"@) || has_substring(ascii_lower(stem), "_heat"@) || has_substring(ascii_lower(stem), "_cool"@)),
        !(has_substring(ascii_lower(stem), "plumb"@) || has_substring(ascii_lower(stem), "sanit"@) || has_substring(ascii_lower(stem), "_pipe"@) || has_substring(ascii_lower(stem), "waste"@) || has_substring(ascii_lower(stem), "water"@)),
        has_substring(ascii_lower(stem), "_arc"@) || has_substring(ascii_lower(stem), "_arch"@) || has_substring(ascii_lower(stem), "architect"@) || has_substring(ascii_lower(stem), "_shell"@) || has_substring(ascii_lower(stem), "_struct"@) || has_substring(ascii_lower(stem), "_str_"@),
    ensures
        stem_discipline(ascii_lower(stem)) == Some(Discipline::Other),
{
}

/// A file stem holding no keyword gives no discipline.
pub proof fn law_stems_without_keyword(stem: Seq<char>)
    requires
        !(has_substring(ascii_lower(stem), "light"@) || has_substring(ascii_lower(stem), "lumin"@) || has_substring(ascii_lower(stem), "_lit"@)),
        !(has_substring(ascii_lower(stem), "electr"@) || has_substring(ascii_lower(stem), "_el"@) || has_substring(ascii_lower(stem), "_eled"@) || has_substring(ascii_lower(stem), "_elec"@)),
        !(has_substring(ascii_lower(stem), "hvac"@) || has_substring(ascii_lower(stem), "_air"@) || has_substring(ascii_lower(stem), "_duct"@) || has_substring(ascii_lower(stem), "ventil"@) || has_substring(ascii_lower(stem), "_heat"@) || has_substring(ascii_lower(stem), "_cool"@)),
        !(has_substring(ascii_lower(stem), "plumb"@) || has_substring(ascii_lower(stem), "sanit"@) || has_substring(ascii_lower(stem), "_pipe"@) || has_substring(ascii_lower(stem), "waste"@) || has_substring(ascii_lower(stem), "water"@)),
        !(has_substring(ascii_lower(stem), "_arc"@) || has_substring(ascii_lower(stem), "_arch"@) || has_substring(ascii_lower(stem), "architect"@) || has_substring(ascii_lower(stem), "_shell"@) || has_substring(ascii_lower(stem), "_struct"@) || has_substring(ascii_lower(stem), "_str_"@)),
    ensures
        stem_discipline(ascii_lower(stem)) is None,
{
}

/// Infer a discipline from a file stem (the file name without its
/// extension). Matching is ASCII-case-insensitive; `None` when no keyword
/// matches.
pub fn discipline_from_stem(stem: &str) -> (r: Option<Discipline>)
    ensures
        r == stem_discipline(ascii_lower(stem@)),
{
    let s = lower_chars_of(stem);
    if contains_str(&s, "light") || contains_str(&s, "lumin") || contains_str(&s, "_lit") {
        return Some(Discipline::Lighting);
    }
    if contains_str(&s, "electr") || contains_str(&s, "_el") || contains_str(&s, "_eled")
        || contains_str(&s, "_elec") {
        return Some(Discipline::Electrical);
    }
    if contains_str(&s, "hvac") || contains_str(&s, "_air") || contains_str(&s, "_duct")
        || contains_str(&s, "ventil") || contains_str(&s, "_heat") || contains_str(&s, "_cool") {
        return Some(Discipline::Hvac);
    }
    if contains_str(&s, "plumb") || contains_str(&s, "sanit") || contains_str(&s, "_pipe")
        || contains_str(&s, "waste") || contains_str(&s, "water") {
        return Some(Discipline::Plumbing);
    }
    if contains_str(&s, "_arc") || contains_str(&s, "_arch") || contains_str(&s, "architect")
        || contains_str(&s, "_shell") || contains_str(&s, "_struct") || contains_str(&s, "_str_") {
        return Some(Discipline::Other);
    }
    None
}

/// A piece of a path that a file stem can be: a contiguous part of the
/// path's text. (Which characters separate components depends on the
/// platform and on the path's prefix, so nothing more is said of it here.)
pub open spec fn is_stem_candidate(path: Seq<char>, stem: Seq<char>) -> bool {
    exists|i: int, j: int| 0 <= i <= j <= path.len() && stem == path.subrange(i, j)
}

/// Position of the last `c` in `s`.
pub open spec fn last_index_of(s: Seq<char>, c: char) -> Option<int>
    decreases s.len(),
{
    if s.len() == 0 {
        None
    } else if s.last() == c {
        Some(s.len() - 1)
    } else {
        last_index_of(s.drop_last(), c)
    }
}

/// The text after the last `/` of a path (all of it when it has none).
pub open spec fn last_piece(path: Seq<char>) -> Seq<char> {
    match last_index_of(path, '/') {
        Some(k) => path.subrange(k + 1, path.len() as int),
        None => path,
    }
}

/// The stem of a file name as `Path::file_stem` documents it: the part
/// before the last `.`; the whole name when it has no `.`, or when its only
/// `.` is the leading one.
pub open spec fn stem_of_name(name: Seq<char>) -> Seq<char> {
    match last_index_of(name, '.') {
        Some(k) => if k == 0 {
            name
        } else {
            name.subrange(0, k)
        },
        None => name,
    }
}

/// A path whose last component is the same on every platform: no `\`
/// (a separator on Windows), no `:` (a Windows drive prefix), no leading
/// `//` (a Windows UNC prefix), and a last `/`-separated piece that is a
/// file name (not empty, `.` or `..`).
pub open spec fn has_portable_name(path: Seq<char>) -> bool {
    &&& !path.contains('\\')
    &&& !path.contains(':')
    &&& !(path.len() >= 2 && path[0] == '/' && path[1] == '/')
    &&& last_piece(path) != ""@
    &&& last_piece(path) != "."@
    &&& last_piece(path) != ".."@
}

/// Calls `std::path::Path::file_stem` on the path and keeps the stem when it
/// is valid UTF-8. The stem is a non-empty part of the path's last
/// component, so a contiguous piece of the path's text. For a path
/// whose last component is the same on every platform (see
/// [`has_portable_name`]) that component is the text after the last `/`
/// and the stem is as `file_stem` documents it; for other paths, which
/// piece comes back depends on the platform's separators and prefixes and
/// is not stated.
#[verifier::external_body]
fn path_file_stem(path: &str) -> (r: Option<String>)
    ensures
        r matches Some(s) ==> is_stem_candidate(path@, s@) && s@.len() > 0,
        has_portable_name(path@) ==> r is Some && r->0@ == stem_of_name(last_piece(path@)),
{
    std::path::Path::new(path).file_stem().and_then(|s| s.to_str()).map(|s| s.to_string())
}

/// Infer a discipline from the on-disk filename: the file stem (or the empty
/// stem when the path has none) goes through [`discipline_from_stem`], so
/// directories, the extension and ASCII case do not matter.
pub fn discipline_from_filename(path: &str) -> (r: Option<Discipline>)
    ensures
        has_portable_name(path@) ==> r == stem_discipline(ascii_lower(stem_of_name(last_piece(path@)))),
        exists|stem: Seq<char>| #[trigger] is_stem_candidate(path@, stem) && r == stem_discipline(ascii_lower(stem)),
{
    let stem = path_file_stem(path);
    match stem {
        Some(s) => {
            let d = discipline_from_stem(s.as_str());
            assert(is_stem_candidate(path@, s@));
            d
        },
        None => {
            proof {
                reveal_strlit("");
                assert(""@ =~= path@.subrange(0, 0));
                assert(is_stem_candidate(path@, ""@));
            }
            discipline_from_stem("")
        },
    }
}

} // verus!
