use bimifc::hierarchy::{group_by_storey, HierarchyEntry, HierarchyState};

fn entry(id: u64, ty: &str, name: Option<&str>, storey: Option<&str>) -> HierarchyEntry {
    HierarchyEntry {
        id,
        entity_type: ty.to_string(),
        name: name.map(|n| n.to_string()),
        storey: storey.map(|s| s.to_string()),
    }
}

#[test]
fn groups_sorted_by_storey_with_unassigned_group() {
    let es = vec![
        entry(1, "IfcWall", Some("W2"), Some("Level 2")),
        entry(2, "IfcDoor", None, None),
        entry(3, "IfcWall", Some("W1"), Some("Level 1")),
        entry(4, "IfcSlab", None, Some("Level 1")),
    ];
    let groups = group_by_storey(&es);
    let names: Vec<&str> = groups.iter().map(|g| g.storey.as_str()).collect();
    assert_eq!(names, vec!["<unassigned>", "Level 1", "Level 2"]);
    assert_eq!(groups[0].members, vec![1]);
    assert_eq!(groups[1].members, vec![3, 2]);
    assert_eq!(groups[2].members, vec![0]);
}

#[test]
fn entries_sorted_by_type_then_name_stably() {
    let es = vec![
        entry(1, "IfcWall", Some("B"), Some("L")),
        entry(2, "IfcWall", None, Some("L")),
        entry(3, "IfcDoor", Some("Z"), Some("L")),
        entry(4, "IfcWall", Some("A"), Some("L")),
        entry(5, "IfcWall", Some("B"), Some("L")),
        entry(6, "IfcWall", None, Some("L")),
    ];
    let groups = group_by_storey(&es);
    assert_eq!(groups.len(), 1);
    // Door first; then walls without a name (in scene order), then A, B, B.
    assert_eq!(groups[0].members, vec![2, 1, 5, 3, 0, 4]);
}

#[test]
fn byte_order_of_names() {
    let es = vec![
        entry(1, "x", None, Some("b")),
        entry(2, "x", None, Some("B")),
        entry(3, "x", None, Some("ab")),
        entry(4, "x", None, Some("a")),
    ];
    let groups = group_by_storey(&es);
    let names: Vec<&str> = groups.iter().map(|g| g.storey.as_str()).collect();
    assert_eq!(names, vec!["B", "a", "ab", "b"]);
}

#[test]
fn empty_scene_has_no_groups() {
    assert!(group_by_storey(&Vec::new()).is_empty());
}

#[test]
fn group_headers_show_counts() {
    let es = vec![
        entry(1, "IfcWall", None, Some("Ground Floor")),
        entry(2, "IfcWall", None, Some("Ground Floor")),
    ];
    let groups = group_by_storey(&es);
    assert_eq!(groups[0].header(), "Ground Floor (2)");
}

#[test]
fn expansion_state_starts_collapsed_and_reads_back() {
    let mut st = HierarchyState::default();
    assert!(!st.expanded_entry("Level 1"));
    st.set_expanded("Level 1", true);
    assert!(st.expanded_entry("Level 1"));
    assert!(!st.expanded_entry("Level 2"));
    st.set_expanded("Level 1", false);
    assert!(!st.expanded_entry("Level 1"));
    st.set_expanded("Level 3", true);
    assert!(st.expanded_entry("Level 3"));
    assert!(!HierarchyState::new().expanded_entry("Level 3"));
}
