use bimifc::spatial::SpatialKind;
use bimifc::tree_order::{child_order, order_children, TreeChild};

fn child(id: u64, kind: SpatialKind, entity_type: &str, name: &str, elevation_rank: Option<i64>) -> TreeChild {
    TreeChild { id, kind, entity_type: entity_type.to_string(), name: name.to_string(), elevation_rank }
}

#[test]
fn spatial_children_come_first_and_storeys_go_highest_first() {
    let cs = vec![
        child(1, SpatialKind::Element, "IFCWALL", "W2", None),
        child(2, SpatialKind::Storey, "IFCBUILDINGSTOREY", "Ground", Some(0)),
        child(3, SpatialKind::Element, "IFCDOOR", "D1", None),
        child(4, SpatialKind::Storey, "IFCBUILDINGSTOREY", "Roof", Some(2)),
        child(5, SpatialKind::Element, "IFCWALL", "W1", None),
        child(6, SpatialKind::Storey, "IFCBUILDINGSTOREY", "Unknown", None),
        child(7, SpatialKind::Storey, "IFCBUILDINGSTOREY", "First", Some(1)),
        child(8, SpatialKind::Space, "IFCSPACE", "Hall", None),
    ];
    let ids: Vec<u64> = order_children(cs).iter().map(|c| c.id).collect();
    assert_eq!(ids, vec![4, 7, 2, 6, 8, 3, 5, 1]);
}

#[test]
fn ties_keep_their_order() {
    let cs = vec![
        child(1, SpatialKind::Element, "IFCWALL", "A", None),
        child(2, SpatialKind::Storey, "IFCBUILDINGSTOREY", "S1", Some(3)),
        child(3, SpatialKind::Element, "IFCWALL", "A", None),
        child(4, SpatialKind::Storey, "IFCBUILDINGSTOREY", "S2", Some(3)),
    ];
    assert_eq!(child_order(&cs), vec![1, 3, 0, 2]);
    assert!(order_children(vec![]).is_empty());
}
