//! CSS classes of CAD drawing layers in the SVG views.

use vstd::prelude::*;

use crate::text::{ascii_lower, contains_str, has_substring, lower_chars_of};

verus! {

/// The CSS class of a layer name (matched ASCII-case-insensitively) in the
/// Lisp drawing export: walls, slabs/floors, doors, windows, else none.
pub open spec fn spec_layer_to_css_class(layer: Seq<char>) -> Seq<char> {
    let l = ascii_lower(layer);
    if has_substring(l, "wall"@) {
        "wall"@
    } else if has_substring(l, "slab"@) || has_substring(l, "floor"@) {
        "slab"@
    } else if has_substring(l, "door"@) {
        "door"@
    } else if has_substring(l, "window"@) {
        "window"@
    } else {
        ""@
    }
}

/// The CSS class of a layer in the web Lisp panel: as
/// [`spec_layer_to_css_class`], with furnishing layers as `"furniture"`.
pub open spec fn spec_layer_css_class(layer: Seq<char>) -> Seq<char> {
    let l = ascii_lower(layer);
    if has_substring(l, "wall"@) {
        "wall"@
    } else if has_substring(l, "slab"@) || has_substring(l, "floor"@) {
        "slab"@
    } else if has_substring(l, "door"@) {
        "door"@
    } else if has_substring(l, "window"@) {
        "window"@
    } else if has_substring(l, "furnish"@) {
        "furniture"@
    } else {
        ""@
    }
}

/// CSS class for the lines of a drawing layer in the Lisp SVG export.
pub fn layer_to_css_class(layer: &str) -> (r: &'static str)
    ensures
        r@ == spec_layer_to_css_class(layer@),
{
    let lower = lower_chars_of(layer);
    if contains_str(&lower, "wall") {
        "wall"
    } else if contains_str(&lower, "slab") || contains_str(&lower, "floor") {
        "slab"
    } else if contains_str(&lower, "door") {
        "door"
    } else if contains_str(&lower, "window") {
        "window"
    } else {
        ""
    }
}

/// CSS class for the lines of a drawing layer in the web Lisp panel.
pub fn layer_css_class(layer: &str) -> (r: &'static str)
    ensures
        r@ == spec_layer_css_class(layer@),
{
    let l = lower_chars_of(layer);
    if contains_str(&l, "wall") {
        "wall"
    } else if contains_str(&l, "slab") || contains_str(&l, "floor") {
        "slab"
    } else if contains_str(&l, "door") {
        "door"
    } else if contains_str(&l, "window") {
        "window"
    } else if contains_str(&l, "furnish") {
        "furniture"
    } else {
        ""
    }
}

/// The web panel's classes agree with the export's wherever the export
/// assigns one.
pub proof fn law_layer_classes_agree(layer: Seq<char>)
    ensures
        spec_layer_to_css_class(layer) != ""@ ==> spec_layer_css_class(layer) == spec_layer_to_css_class(layer),
{
}

} // verus!
