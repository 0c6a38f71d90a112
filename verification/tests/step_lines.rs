use bimifc::step_lines::{parse_entity_line, scan_entity_lines};

#[test]
fn entity_line_headers() {
    assert_eq!(parse_entity_line("#12= IFCWALL('2O2Fr$t4X7Zf8NOew3FLOH',$);"), Some((12, "IFCWALL".to_string())));
    assert_eq!(parse_entity_line("  #5=IFCPROJECT ( 'x' )\t"), Some((5, "IFCPROJECT".to_string())));
    assert_eq!(parse_entity_line("#+7=X"), Some((7, "X".to_string())));
    assert_eq!(parse_entity_line("#1="), Some((1, String::new())));
    assert_eq!(parse_entity_line("#9=IFCCARTESIANPOINT((0.,0.,0.))"), Some((9, "IFCCARTESIANPOINT".to_string())));
}

#[test]
fn lines_that_are_not_entity_headers() {
    assert_eq!(parse_entity_line("ENDSEC;"), None);
    assert_eq!(parse_entity_line(""), None);
    assert_eq!(parse_entity_line("#12 = IFCWALL(x)"), None);
    assert_eq!(parse_entity_line("#abc=IFCWALL(x)"), None);
    assert_eq!(parse_entity_line("#=IFCWALL(x)"), None);
    assert_eq!(parse_entity_line("#1 IFCWALL(x)"), None);
    assert_eq!(parse_entity_line("#4294967296=IFCWALL(x)"), None);
    assert_eq!(parse_entity_line("#4294967295=IFCWALL(x)"), Some((4294967295, "IFCWALL".to_string())));
}

#[test]
fn scan_whole_text() {
    let text = "ISO-10303-21;\r\nDATA;\r\n#1=IFCPROJECT('a');\r\n#2= IFCSITE($);\n\n#3=IFCWALL\nENDSEC;\n";
    assert_eq!(
        scan_entity_lines(text),
        vec![(1, "IFCPROJECT".to_string()), (2, "IFCSITE".to_string()), (3, "IFCWALL".to_string())]
    );
    assert!(scan_entity_lines("").is_empty());
    assert!(scan_entity_lines("\n\n").is_empty());
}
