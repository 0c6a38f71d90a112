use bimifc::drawing::{layer_css_class, layer_to_css_class};
use bimifc::federation::source::{Discipline, ViewFilter};
use bimifc::lighting_mode::LightingMode;
use bimifc::step_string::decode_ifc_string;
use bimifc::viewer_labels::{discipline_label, display_label, short_label};

#[test]
fn decode_unicode_hex_sequence() {
    assert_eq!(decode_ifc_string("Caf\\X2\\00E9\\X0\\"), "Café");
    assert_eq!(decode_ifc_string("\\X2\\00410042\\X0\\!"), "AB!");
}

#[test]
fn decode_doubled_quote() {
    assert_eq!(decode_ifc_string("It''s"), "It's");
    assert_eq!(decode_ifc_string("'a'"), "'a'");
}

#[test]
fn decode_extended_character() {
    assert_eq!(decode_ifc_string("x\\S\\ay"), "xáy");
    assert_eq!(decode_ifc_string("\\S\\D"), "Ä");
    assert_eq!(decode_ifc_string("\\S\\é"), "é");
    assert_eq!(decode_ifc_string("\\S\\"), "");
}

#[test]
fn decode_other_backslashes_are_copied() {
    assert_eq!(decode_ifc_string("a\\b"), "a\\b");
    assert_eq!(decode_ifc_string("\\Xy"), "\\Xy");
    assert_eq!(decode_ifc_string("a\\X"), "a\\X ");
}

#[test]
fn decode_skips_what_names_no_character() {
    assert_eq!(decode_ifc_string("\\X2\\D800\\X0\\x"), "x");
    assert_eq!(decode_ifc_string("\\X2\\zzzz\\X0\\x"), "x");
    assert_eq!(decode_ifc_string("\\X2\\004\\X0\\x"), "x");
    assert_eq!(decode_ifc_string("\\X2qrest"), "rest");
}

#[test]
fn decode_hex_chunk_with_plus_sign() {
    assert_eq!(decode_ifc_string("\\X2\\+041\\X0\\"), "A");
}

#[test]
fn decode_unterminated_payload_runs_to_end() {
    assert_eq!(decode_ifc_string("\\X2\\0041"), "A");
}

#[test]
fn decode_plain_text_unchanged() {
    assert_eq!(decode_ifc_string("Wall-01 (Ground)"), "Wall-01 (Ground)");
    assert_eq!(decode_ifc_string(""), "");
}

#[test]
fn toolbar_short_labels() {
    assert_eq!(short_label(ViewFilter::All), "All");
    assert_eq!(short_label(ViewFilter::Architecture), "Arch");
    assert_eq!(short_label(ViewFilter::Discipline(Discipline::Electrical)), "Elec");
    assert_eq!(short_label(ViewFilter::Discipline(Discipline::Plumbing)), "Plumb");
    assert_eq!(short_label(ViewFilter::Discipline(Discipline::Hvac)), "HVAC");
    assert_eq!(short_label(ViewFilter::Discipline(Discipline::Lighting)), "Light");
    assert_eq!(short_label(ViewFilter::Discipline(Discipline::Other)), "Other");
}

#[test]
fn source_discipline_labels() {
    assert_eq!(discipline_label(None), "(per-entity)");
    assert_eq!(discipline_label(Some(Discipline::Hvac)), "💨 HVAC");
    assert_eq!(discipline_label(Some(Discipline::Lighting)), "💡 Lighting");
}

#[test]
fn hierarchy_display_labels() {
    assert_eq!(display_label("IfcWall", Some("Wall-01"), 5), "Wall · Wall-01");
    assert_eq!(display_label("IfcWall", Some("$"), 5), "Wall #5");
    assert_eq!(display_label("IfcWall", Some(""), 5), "Wall #5");
    assert_eq!(display_label("IfcWall", None, 123), "Wall #123");
    assert_eq!(display_label("Door", None, 7), "Door #7");
    assert_eq!(display_label("Ifc", None, 0), " #0");
}

#[test]
fn layer_classes() {
    assert_eq!(layer_to_css_class("A-WALL-EXT"), "wall");
    assert_eq!(layer_to_css_class("Floor Plan"), "slab");
    assert_eq!(layer_to_css_class("SLAB"), "slab");
    assert_eq!(layer_to_css_class("DOORS"), "door");
    assert_eq!(layer_to_css_class("Windows"), "window");
    assert_eq!(layer_to_css_class("Furniture"), "");
    assert_eq!(layer_css_class("Furniture"), "");
    assert_eq!(layer_css_class("Furnishing"), "furniture");
    assert_eq!(layer_to_css_class("Furnishing"), "");
    assert_eq!(layer_css_class("wall-door"), "wall");
    assert_eq!(layer_css_class("Grid"), "");
}

#[test]
fn layer_classes_agree_outside_furniture() {
    for layer in ["A-WALL", "Floor", "door", "WINDOW", "grid", ""] {
        assert_eq!(layer_to_css_class(layer), layer_css_class(layer));
    }
}

#[test]
fn lighting_mode_cycle_and_labels() {
    let m = LightingMode::default();
    assert_eq!(m, LightingMode::Architectural);
    assert_eq!(m.next(), LightingMode::Photometric);
    assert_eq!(m.next().next(), LightingMode::Combined);
    assert_eq!(m.next().next().next(), m);
    assert_eq!(LightingMode::Architectural.label(), "Architectural");
    assert_eq!(LightingMode::Photometric.label(), "Photometric");
    assert_eq!(LightingMode::Combined.label(), "Combined");
}
