//! The geometry processors and the IFC representation types each handles.

use vstd::prelude::*;

use crate::model::ifc_type::IfcType;

verus! {

/// Processor for `IfcExtrudedAreaSolid`: a profile swept along a direction.
#[derive(Clone, Copy, Debug)]
pub struct ExtrudedAreaSolidProcessor;

/// Processor for `IfcFacetedBrep`: boundary representations of planar faces.
#[derive(Clone, Copy, Debug)]
pub struct FacetedBrepProcessor;

/// Processor for `IfcRevolvedAreaSolid`: a profile revolved about an axis.
#[derive(Clone, Copy, Debug)]
pub struct RevolvedAreaSolidProcessor;

/// Processor for `IfcSweptDiskSolid`: a circular profile swept along a curve.
#[derive(Clone, Copy, Debug)]
pub struct SweptDiskSolidProcessor;

/// Processor for `IfcTriangulatedFaceSet`: explicit triangle meshes (IFC4+).
#[derive(Clone, Copy, Debug)]
pub struct TriangulatedFaceSetProcessor;

/// Processor for face-based and shell-based surface models; it triangulates
/// each face the way the faceted-brep processor does.
#[derive(Clone, Copy, Debug)]
pub struct FaceBasedSurfaceModelProcessor {
    brep: FacetedBrepProcessor,
}

impl ExtrudedAreaSolidProcessor {
    pub fn new() -> (r: Self)
        ensures
            r == ExtrudedAreaSolidProcessor,
    {
        ExtrudedAreaSolidProcessor
    }

    /// The representation types this processor handles.
    pub fn supported_types(&self) -> (r: Vec<IfcType>)
        ensures
            r@ == seq![IfcType::IfcExtrudedAreaSolid],
    {
        let mut v: Vec<IfcType> = Vec::new();
        v.push(IfcType::IfcExtrudedAreaSolid);
        assert(v@ =~= seq![IfcType::IfcExtrudedAreaSolid]);
        v
    }
}

impl FacetedBrepProcessor {
    pub fn new() -> (r: Self)
        ensures
            r == FacetedBrepProcessor,
    {
        FacetedBrepProcessor
    }

    /// The representation types this processor handles.
    pub fn supported_types(&self) -> (r: Vec<IfcType>)
        ensures
            r@ == seq![IfcType::IfcFacetedBrep],
    {
        let mut v: Vec<IfcType> = Vec::new();
        v.push(IfcType::IfcFacetedBrep);
        assert(v@ =~= seq![IfcType::IfcFacetedBrep]);
        v
    }
}

impl RevolvedAreaSolidProcessor {
    pub fn new() -> (r: Self)
        ensures
            r == RevolvedAreaSolidProcessor,
    {
        RevolvedAreaSolidProcessor
    }

    /// The representation types this processor handles.
    pub fn supported_types(&self) -> (r: Vec<IfcType>)
        ensures
            r@ == seq![IfcType::IfcRevolvedAreaSolid],
    {
        let mut v: Vec<IfcType> = Vec::new();
        v.push(IfcType::IfcRevolvedAreaSolid);
        assert(v@ =~= seq![IfcType::IfcRevolvedAreaSolid]);
        v
    }
}

impl SweptDiskSolidProcessor {
    pub fn new() -> (r: Self)
        ensures
            r == SweptDiskSolidProcessor,
    {
        SweptDiskSolidProcessor
    }

    /// The representation types this processor handles.
    pub fn supported_types(&self) -> (r: Vec<IfcType>)
        ensures
            r@ == seq![IfcType::IfcSweptDiskSolid],
    {
        let mut v: Vec<IfcType> = Vec::new();
        v.push(IfcType::IfcSweptDiskSolid);
        assert(v@ =~= seq![IfcType::IfcSweptDiskSolid]);
        v
    }
}

impl TriangulatedFaceSetProcessor {
    pub fn new() -> (r: Self)
        ensures
            r == TriangulatedFaceSetProcessor,
    {
        TriangulatedFaceSetProcessor
    }

    /// The representation types this processor handles.
    pub fn supported_types(&self) -> (r: Vec<IfcType>)
        ensures
            r@ == seq![IfcType::IfcTriangulatedFaceSet],
    {
        let mut v: Vec<IfcType> = Vec::new();
        v.push(IfcType::IfcTriangulatedFaceSet);
        assert(v@ =~= seq![IfcType::IfcTriangulatedFaceSet]);
        v
    }
}

impl FaceBasedSurfaceModelProcessor {
    /// The faceted-brep processor used for each face.
    pub closed spec fn spec_brep(self) -> FacetedBrepProcessor {
        self.brep
    }

    pub fn new() -> (r: Self)
        ensures
            r.spec_brep() == FacetedBrepProcessor,
    {
        FaceBasedSurfaceModelProcessor { brep: FacetedBrepProcessor::new() }
    }
}

impl Default for ExtrudedAreaSolidProcessor {
    fn default() -> (r: Self) {
        Self::new()
    }
}

impl Default for FacetedBrepProcessor {
    fn default() -> (r: Self) {
        Self::new()
    }
}

impl Default for RevolvedAreaSolidProcessor {
    fn default() -> (r: Self) {
        Self::new()
    }
}

impl Default for SweptDiskSolidProcessor {
    fn default() -> (r: Self) {
        Self::new()
    }
}

impl Default for TriangulatedFaceSetProcessor {
    fn default() -> (r: Self) {
        Self::new()
    }
}

impl Default for FaceBasedSurfaceModelProcessor {
    fn default() -> (r: Self) {
        Self::new()
    }
}

} // verus!
