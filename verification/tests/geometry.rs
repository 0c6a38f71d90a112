use bimifc::geometry::face_set_text::find_nth_top_level_comma;
use bimifc::geometry::processors::{
    ExtrudedAreaSolidProcessor, FaceBasedSurfaceModelProcessor, FacetedBrepProcessor,
    RevolvedAreaSolidProcessor, SweptDiskSolidProcessor, TriangulatedFaceSetProcessor,
};
use bimifc::model::ifc_type::IfcType;

#[test]
fn test_extruded_area_solid_processor_creation() {
    let processor = ExtrudedAreaSolidProcessor::new();
    assert_eq!(
        processor.supported_types(),
        vec![IfcType::IfcExtrudedAreaSolid]
    );
}

#[test]
fn test_triangulated_face_set_processor_creation() {
    let processor = TriangulatedFaceSetProcessor::new();
    assert_eq!(
        processor.supported_types(),
        vec![IfcType::IfcTriangulatedFaceSet]
    );
}

#[test]
fn test_faceted_brep_processor_creation() {
    let processor = FacetedBrepProcessor::new();
    assert_eq!(
        processor.supported_types(),
        vec![IfcType::IfcFacetedBrep]
    );
}

#[test]
fn test_swept_disk_solid_processor_creation() {
    let processor = SweptDiskSolidProcessor::new();
    assert_eq!(
        processor.supported_types(),
        vec![IfcType::IfcSweptDiskSolid]
    );
}

#[test]
fn test_revolved_area_solid_processor_creation() {
    let processor = RevolvedAreaSolidProcessor::new();
    assert_eq!(
        processor.supported_types(),
        vec![IfcType::IfcRevolvedAreaSolid]
    );
}

#[test]
fn default_processors_match_new() {
    assert_eq!(
        TriangulatedFaceSetProcessor::default().supported_types(),
        TriangulatedFaceSetProcessor::new().supported_types()
    );
    let _ = FaceBasedSurfaceModelProcessor::new();
    let _ = FaceBasedSurfaceModelProcessor::default();
}

#[test]
fn nth_top_level_comma_skips_nested_lists() {
    let text = "IFCX(#1,(1,2,3),.T.,((1,2,3)))";
    assert_eq!(find_nth_top_level_comma(text, 1), Some(7));
    assert_eq!(find_nth_top_level_comma(text, 2), Some(15));
    assert_eq!(find_nth_top_level_comma(text, 3), Some(19));
    assert_eq!(find_nth_top_level_comma(text, 4), None);
}

#[test]
fn nth_top_level_comma_needs_an_open_paren() {
    assert_eq!(find_nth_top_level_comma("a,b,c", 1), None);
    assert_eq!(find_nth_top_level_comma("", 1), None);
}

#[test]
fn nth_top_level_comma_counts_bytes() {
    // "é" takes two bytes, so the comma after it is at byte 4.
    assert_eq!(find_nth_top_level_comma("(é,x)", 1), Some(3));
}

#[test]
fn fast_indices_convert_to_zero_based() {
    let raw = b"IFCTRIANGULATEDFACESET(#10,$,.T.,((1,2,3),(2,3,4)),$)";
    assert_eq!(
        TriangulatedFaceSetProcessor::parse_indices_fast(raw),
        Some(vec![0, 1, 2, 1, 2, 3])
    );
}

#[test]
fn fast_indices_trim_and_accept_plus_and_saturate() {
    let raw = b"IFCTRIANGULATEDFACESET(#10,$,.T.,(( 1 , +2,0 ),(5,,6)))";
    assert_eq!(
        TriangulatedFaceSetProcessor::parse_indices_fast(raw),
        Some(vec![0, 1, 0, 4, 5])
    );
}

#[test]
fn fast_indices_reject_bad_tokens_and_missing_parts() {
    let bad_token = b"IFCTRIANGULATEDFACESET(#10,$,.T.,((1,x,3)))";
    assert_eq!(TriangulatedFaceSetProcessor::parse_indices_fast(bad_token), None);
    let too_big = b"IFCTRIANGULATEDFACESET(#10,$,.T.,((4294967296,1,2)))";
    assert_eq!(TriangulatedFaceSetProcessor::parse_indices_fast(too_big), None);
    let no_fourth = b"IFCTRIANGULATEDFACESET(#10,$,.T.)";
    assert_eq!(TriangulatedFaceSetProcessor::parse_indices_fast(no_fourth), None);
    let no_nested = b"IFCTRIANGULATEDFACESET(#10,$,.T.,(1,2,3))";
    assert_eq!(TriangulatedFaceSetProcessor::parse_indices_fast(no_nested), None);
    let empty_groups = b"IFCTRIANGULATEDFACESET(#10,$,.T.,(( ),( )))";
    assert_eq!(TriangulatedFaceSetProcessor::parse_indices_fast(empty_groups), None);
}

#[test]
fn fast_indices_reject_invalid_utf8() {
    let raw: &[u8] = &[b'I', b'(', 0xFF, b',', b',', b',', b'(', b'(', b'1', b')', b')', b')'];
    assert_eq!(TriangulatedFaceSetProcessor::parse_indices_fast(raw), None);
}

#[test]
fn fast_indices_largest_index() {
    let raw = b"IFCTRIANGULATEDFACESET(#1,$,$,((4294967295,1,1)))";
    assert_eq!(
        TriangulatedFaceSetProcessor::parse_indices_fast(raw),
        Some(vec![4294967294, 0, 0])
    );
}
