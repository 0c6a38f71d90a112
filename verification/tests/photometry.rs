use bimifc::ffi::{Property, PropertySet};
use bimifc::photometry::{extract_sector, photometry_ldt, without_photometry};

fn prop(name: &str, value: &str) -> Property {
    Property { name: name.to_string(), value: value.to_string(), unit: None }
}

fn pset(name: &str, props: Vec<Property>) -> PropertySet {
    PropertySet { name: name.to_string(), properties: props }
}

#[test]
fn sector_from_panel_name() {
    assert_eq!(extract_sector("FLA-R1-NORTH-P01"), "NORTH");
    assert_eq!(extract_sector("FLA-R2-ne-P07"), "NE");
    assert_eq!(extract_sector("FLA-R1-east"), "EAST");
    assert_eq!(extract_sector("FLA--X"), "X");
    assert_eq!(extract_sector("FLA-R1-"), "");
    assert_eq!(extract_sector("FLA-R1"), "UNKNOWN");
    assert_eq!(extract_sector("Panel"), "UNKNOWN");
    assert_eq!(extract_sector(""), "UNKNOWN");
}

#[test]
fn ldt_from_photometry_set() {
    let sets = vec![
        pset("Pset_LightFixtureTypeCommon", vec![prop("EulumdatData", "not this")]),
        pset("Pset_Photometry", vec![prop("Other", "x"), prop("EulumdatData", "LDT-1")]),
        pset("Pset_Photometry", vec![prop("EulumdatData", "LDT-2")]),
    ];
    assert_eq!(photometry_ldt(&sets), Some("LDT-1".to_string()));
    let no_data = vec![
        pset("Pset_Photometry", vec![prop("Other", "x")]),
        pset("Pset_Photometry", vec![prop("EulumdatData", "LDT-2")]),
    ];
    assert_eq!(photometry_ldt(&no_data), None);
    assert_eq!(photometry_ldt(&Vec::new()), None);
}

#[test]
fn photometry_sets_are_hidden() {
    let sets = vec![
        pset("Pset_A", vec![]),
        pset("Pset_Photometry", vec![prop("EulumdatData", "LDT")]),
        pset("Pset_B", vec![prop("x", "1")]),
    ];
    let shown = without_photometry(sets);
    let names: Vec<&str> = shown.iter().map(|s| s.name.as_str()).collect();
    assert_eq!(names, vec!["Pset_A", "Pset_B"]);
    assert_eq!(shown[1].properties.len(), 1);
}
