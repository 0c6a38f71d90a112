use bimifc::federation::classify::{classify_by_entity_class, classify_by_name, classify_by_type_name};
use bimifc::federation::scene::{FederatedScene, SourceId};
use bimifc::federation::source::{discipline_from_filename, discipline_from_stem, Discipline, SourceInfo, ViewFilter};

#[test]
fn modern_entity_classes() {
    assert_eq!(classify_by_entity_class("IFCPIPESEGMENT"), Discipline::Plumbing);
    assert_eq!(classify_by_entity_class("IFCAIRTERMINAL"), Discipline::Hvac);
    assert_eq!(classify_by_entity_class("IFCLIGHTFIXTURE"), Discipline::Lighting);
    assert_eq!(classify_by_entity_class("IFCCABLESEGMENT"), Discipline::Electrical);
    assert_eq!(classify_by_entity_class("IFCWALL"), Discipline::Other);
}

#[test]
fn ifc2x3_via_type_object() {
    assert_eq!(
        classify_by_type_name("IFCDUCTSEGMENTTYPE", Some("Spiro kanaler, Frzinkade")),
        Discipline::Hvac
    );
    assert_eq!(
        classify_by_type_name("IFCPRODUCTTYPE", Some("Pipe Types: Waste 50mm")),
        Discipline::Plumbing
    );
    assert_eq!(classify_by_type_name("IFCRANDOMTYPE", None), Discipline::Other);
}

#[test]
fn revit_name_heuristic() {
    assert_eq!(classify_by_name("Rectangular Duct:Mitered Elbows / Tees"), Discipline::Hvac);
    assert_eq!(classify_by_name("Pipe Types: Waste:577155"), Discipline::Plumbing);
    assert_eq!(classify_by_name("M_Troffer Light - Parabolic Rectangular"), Discipline::Lighting);
}

fn register(scene: &mut FederatedScene, name: &str, d: Option<Discipline>) -> SourceId {
    let mut info = SourceInfo::new(name);
    info.discipline = d;
    info.triangle_count = 100;
    scene.register(info)
}

#[test]
fn whole_file_discipline_overrides_entity() {
    let mut scene = FederatedScene::new();
    let air = register(&mut scene, "LTU_A-House_Air.ifc", Some(Discipline::Hvac));

    scene.filter = ViewFilter::Discipline(Discipline::Hvac);
    assert!(scene.visible(air, Discipline::Other));

    scene.filter = ViewFilter::Discipline(Discipline::Plumbing);
    assert!(!scene.visible(air, Discipline::Other));
}

#[test]
fn per_entity_classification_when_no_override() {
    let mut scene = FederatedScene::new();
    let federated = register(&mut scene, "NBU_MedicalClinic.ifc", None);

    scene.filter = ViewFilter::Discipline(Discipline::Hvac);
    assert!(scene.visible(federated, Discipline::Hvac));
    assert!(scene.visible(federated, Discipline::Other));
    assert!(!scene.visible(federated, Discipline::Plumbing));
}

#[test]
fn whole_file_visibility_toggle() {
    let mut scene = FederatedScene::new();
    let air = register(&mut scene, "Air.ifc", Some(Discipline::Hvac));
    scene.filter = ViewFilter::All;
    assert!(scene.visible(air, Discipline::Hvac));
    scene.source_mut(air).unwrap().visible = false;
    assert!(!scene.visible(air, Discipline::Hvac));
}

#[test]
fn ltu_filenames_classify() {
    assert_eq!(discipline_from_filename("LTU_A-House_Air.ifc"), Some(Discipline::Hvac));
    assert_eq!(discipline_from_filename("LTU_A-House_Heating.ifc"), Some(Discipline::Hvac));
    assert_eq!(discipline_from_filename("LTU_A-House_Plumbing.ifc"), Some(Discipline::Plumbing));
    assert_eq!(discipline_from_filename("LTU_A-House_Sanitation.ifc"), Some(Discipline::Plumbing));
    assert_eq!(discipline_from_filename("LTU_A-House_redesign.ifc"), None);
}

#[test]
fn architecture_keywords() {
    assert_eq!(discipline_from_filename("building_arc.ifc"), Some(Discipline::Other));
    assert_eq!(discipline_from_filename("ProjectX_Architecture.ifc"), Some(Discipline::Other));
}

#[test]
fn view_filter_rules() {
    assert!(ViewFilter::All.shows(Discipline::Hvac));
    assert!(ViewFilter::All.shows(Discipline::Other));

    assert!(ViewFilter::Architecture.shows(Discipline::Other));
    assert!(!ViewFilter::Architecture.shows(Discipline::Hvac));

    let hvac = ViewFilter::Discipline(Discipline::Hvac);
    assert!(hvac.shows(Discipline::Hvac));
    assert!(hvac.shows(Discipline::Other));
    assert!(!hvac.shows(Discipline::Plumbing));
}

#[test]
fn filename_stem_ignores_directories_and_extension() {
    // The stem comes from the last path component without its extension.
    assert_eq!(discipline_from_filename("light/models/plain.ifc"), None);
    assert_eq!(discipline_from_filename("models/Lobby_Lighting.ifc"), Some(Discipline::Lighting));
    assert_eq!(discipline_from_filename("plain.lighting"), None);
    assert_eq!(discipline_from_filename(""), None);
    assert_eq!(discipline_from_filename("plumbing/model.ifc"), None);
    assert_eq!(discipline_from_filename("x/.hvac"), Some(Discipline::Hvac));
    assert_eq!(discipline_from_filename("a_pipe.b.ifc"), Some(Discipline::Plumbing));
}

#[test]
fn stem_keywords_in_priority_order() {
    // "light" wins over "_air"; matching ignores ASCII case.
    assert_eq!(discipline_from_stem("LIGHT_AIR"), Some(Discipline::Lighting));
    assert_eq!(discipline_from_stem("x_Elec"), Some(Discipline::Electrical));
    assert_eq!(discipline_from_stem("ventilation"), Some(Discipline::Hvac));
    assert_eq!(discipline_from_stem("x_struct"), Some(Discipline::Other));
    assert_eq!(discipline_from_stem("facade"), None);
}

#[test]
fn name_keywords_case_insensitive() {
    assert_eq!(classify_by_name("SUPPLY AIR grille"), Discipline::Hvac);
    assert_eq!(classify_by_name("Conduit run"), Discipline::Electrical);
    assert_eq!(classify_by_name("Table"), Discipline::Other);
    // "fan " needs the trailing space.
    assert_eq!(classify_by_name("fancy"), Discipline::Other);
    assert_eq!(classify_by_entity_class("ifcpipesegment"), Discipline::Other);
}

#[test]
fn type_object_class_beats_name() {
    assert_eq!(classify_by_type_name("IFCLAMPTYPE", Some("water pump")), Discipline::Lighting);
    assert_eq!(classify_by_type_name("IFCWALLTYPE", Some("Cable tray")), Discipline::Electrical);
    assert_eq!(classify_by_type_name("IFCWALLTYPE", Some("Plain")), Discipline::Other);
}

#[test]
fn every_filter_keeps_architectural_context() {
    for f in ViewFilter::all_variants() {
        assert!(f.shows(Discipline::Other));
    }
    assert_eq!(ViewFilter::all_variants().len(), 6);
    assert_eq!(ViewFilter::all_variants()[0], ViewFilter::All);
}

#[test]
fn labels_and_icons() {
    assert_eq!(Discipline::Hvac.short(), "HVAC");
    assert_eq!(Discipline::Lighting.icon(), "💡");
    assert_eq!(ViewFilter::Architecture.label(), "Architecture only (no MEP)");
    assert_eq!(ViewFilter::Discipline(Discipline::Other).label(), "Other only");
    assert_eq!(ViewFilter::Discipline(Discipline::Plumbing).icon(), "🔧");
    assert_eq!(ViewFilter::All.icon(), "🏗");
    assert_eq!(Discipline::default(), Discipline::Other);
    assert_eq!(ViewFilter::default(), ViewFilter::All);
}

#[test]
fn fresh_source_defaults() {
    let s = SourceInfo::new("a.ifc");
    assert_eq!(s.display_name, "a.ifc");
    assert!(s.path.is_none());
    assert!(s.discipline.is_none());
    assert_eq!(s.entity_count, 0);
    assert_eq!(s.triangle_count, 0);
    assert!(s.visible);
}

#[test]
fn register_assigns_consecutive_ids_and_lookup_finds_them() {
    let mut scene = FederatedScene::new();
    let a = register(&mut scene, "a.ifc", None);
    let b = register(&mut scene, "b.ifc", Some(Discipline::Hvac));
    assert_eq!(a, SourceId(0));
    assert_eq!(b, SourceId(1));
    assert_eq!(scene.source(b).unwrap().display_name, "b.ifc");
    assert!(scene.source(SourceId(2)).is_none());
    assert_eq!(scene.sources().len(), 2);
    assert_eq!(SourceId::default(), SourceId(0));
}

#[test]
fn remove_tombstones_and_keeps_ids() {
    let mut scene = FederatedScene::new();
    let a = register(&mut scene, "a.ifc", None);
    let b = register(&mut scene, "b.ifc", Some(Discipline::Hvac));
    let removed = scene.remove(a).unwrap();
    assert_eq!(removed.display_name, "a.ifc");
    assert_eq!(scene.sources().len(), 2);
    assert_eq!(scene.source(a).unwrap().display_name, "(removed)");
    assert!(scene.source(a).unwrap().visible);
    assert_eq!(scene.source(b).unwrap().display_name, "b.ifc");
    assert!(scene.remove(SourceId(7)).is_none());
    scene.clear();
    assert!(scene.sources().is_empty());
}

#[test]
fn triangle_totals() {
    let mut scene = FederatedScene::new();
    register(&mut scene, "arch.ifc", None);
    register(&mut scene, "air.ifc", Some(Discipline::Hvac));
    let pipes = register(&mut scene, "pipes.ifc", Some(Discipline::Plumbing));
    assert_eq!(scene.total_triangles(), 300);
    scene.filter = ViewFilter::Discipline(Discipline::Hvac);
    assert_eq!(scene.visible_triangles(), 200);
    scene.filter = ViewFilter::All;
    scene.source_mut(pipes).unwrap().visible = false;
    assert_eq!(scene.visible_triangles(), 200);
    assert!(scene.visible_triangles() <= scene.total_triangles());
}

#[test]
fn architecture_hint_defers_to_entity_tag() {
    let mut scene = FederatedScene::new();
    let arch = register(&mut scene, "house_arch.ifc", Some(Discipline::Other));
    scene.filter = ViewFilter::Architecture;
    assert!(scene.visible(arch, Discipline::Other));
    assert!(!scene.visible(arch, Discipline::Hvac));
    // An id never registered follows the filter alone.
    assert!(!scene.visible(SourceId(9), Discipline::Hvac));
    assert!(scene.visible(SourceId(9), Discipline::Other));
}

#[test]
fn sources_mut_edits_in_place() {
    let mut scene = FederatedScene::new();
    register(&mut scene, "a.ifc", None);
    scene.sources_mut()[0].triangle_count = 5;
    assert_eq!(scene.total_triangles(), 5);
}
