//! The inheritance table, stated group by group: which types have which
//! direct parent in the IFC schema, and which have none.

use vstd::prelude::*;

use super::ifc_type_table::IfcType;

verus! {

/// The direct subtypes of `IfcRoot`: each has `IfcRoot` as its parent, and so
/// is a subtype of it.
pub proof fn law_children_of_ifc_root(t: IfcType)
    requires
        t is IfcObjectDefinition,
    ensures
        t.spec_parent() == Some(IfcType::IfcRoot),
        t.spec_is_subtype_of(IfcType::IfcRoot),
{
    reveal_with_fuel(IfcType::subtype_chain, 2);
}

/// The direct subtypes of `IfcObjectDefinition`: each has `IfcObjectDefinition` as its parent, and so
/// is a subtype of it.
pub proof fn law_children_of_ifc_object_definition(t: IfcType)
    requires
        t is IfcObject,
    ensures
        t.spec_parent() == Some(IfcType::IfcObjectDefinition),
        t.spec_is_subtype_of(IfcType::IfcObjectDefinition),
{
    reveal_with_fuel(IfcType::subtype_chain, 2);
}

/// The direct subtypes of `IfcObject`: each has `IfcObject` as its parent, and so
/// is a subtype of it.
pub proof fn law_children_of_ifc_object(t: IfcType)
    requires
        t is IfcProduct,
    ensures
        t.spec_parent() == Some(IfcType::IfcObject),
        t.spec_is_subtype_of(IfcType::IfcObject),
{
    reveal_with_fuel(IfcType::subtype_chain, 2);
}

/// The direct subtypes of `IfcProduct`: each has `IfcProduct` as its parent, and so
/// is a subtype of it.
pub proof fn law_children_of_ifc_product(t: IfcType)
    requires
        t is IfcSpatialElement || t is IfcElement || t is IfcAnnotation || t is IfcPort,
    ensures
        t.spec_parent() == Some(IfcType::IfcProduct),
        t.spec_is_subtype_of(IfcType::IfcProduct),
{
    reveal_with_fuel(IfcType::subtype_chain, 2);
}

/// The direct subtypes of `IfcSpatialElement`: each has `IfcSpatialElement` as its parent, and so
/// is a subtype of it.
pub proof fn law_children_of_ifc_spatial_element(t: IfcType)
    requires
        t is IfcSpatialStructureElement || t is IfcExternalSpatialStructureElement || t is IfcSpatialZone,
    ensures
        t.spec_parent() == Some(IfcType::IfcSpatialElement),
        t.spec_is_subtype_of(IfcType::IfcSpatialElement),
{
    reveal_with_fuel(IfcType::subtype_chain, 2);
}

/// The direct subtypes of `IfcExternalSpatialStructureElement`: each has `IfcExternalSpatialStructureElement` as its parent, and so
/// is a subtype of it.
pub proof fn law_children_of_ifc_external_spatial_structure_element(t: IfcType)
    requires
        t is IfcExternalSpatialElement,
    ensures
        t.spec_parent() == Some(IfcType::IfcExternalSpatialStructureElement),
        t.spec_is_subtype_of(IfcType::IfcExternalSpatialStructureElement),
{
    reveal_with_fuel(IfcType::subtype_chain, 2);
}

/// The direct subtypes of `IfcSpatialStructureElement`: each has `IfcSpatialStructureElement` as its parent, and so
/// is a subtype of it.
pub proof fn law_children_of_ifc_spatial_structure_element(t: IfcType)
    requires
        t is IfcSite || t is IfcBuilding || t is IfcBuildingStorey || t is IfcSpace || t is IfcFacility || t is IfcFacilityPart,
    ensures
        t.spec_parent() == Some(IfcType::IfcSpatialStructureElement),
        t.spec_is_subtype_of(IfcType::IfcSpatialStructureElement),
{
    reveal_with_fuel(IfcType::subtype_chain, 2);
}

/// The direct subtypes of `IfcFacility`: each has `IfcFacility` as its parent, and so
/// is a subtype of it.
pub proof fn law_children_of_ifc_facility(t: IfcType)
    requires
        t is IfcBridge || t is IfcRoad || t is IfcRailway,
    ensures
        t.spec_parent() == Some(IfcType::IfcFacility),
        t.spec_is_subtype_of(IfcType::IfcFacility),
{
    reveal_with_fuel(IfcType::subtype_chain, 2);
}

/// The direct subtypes of `IfcFacilityPart`: each has `IfcFacilityPart` as its parent, and so
/// is a subtype of it.
pub proof fn law_children_of_ifc_facility_part(t: IfcType)
    requires
        t is IfcBridgePart || t is IfcRoadPart || t is IfcRailwayPart,
    ensures
        t.spec_parent() == Some(IfcType::IfcFacilityPart),
        t.spec_is_subtype_of(IfcType::IfcFacilityPart),
{
    reveal_with_fuel(IfcType::subtype_chain, 2);
}

/// The direct subtypes of `IfcElement`: each has `IfcElement` as its parent, and so
/// is a subtype of it.
pub proof fn law_children_of_ifc_element(t: IfcType)
    requires
        t is IfcBuiltElement || t is IfcCivilElement || t is IfcGeographicElement || t is IfcElementAssembly || t is IfcFurnishingElement || t is IfcFeatureElement || t is IfcDistributionElement || t is IfcGeotechnicalElement || t is IfcEarthworksElement,
    ensures
        t.spec_parent() == Some(IfcType::IfcElement),
        t.spec_is_subtype_of(IfcType::IfcElement),
{
    reveal_with_fuel(IfcType::subtype_chain, 2);
}

/// The direct subtypes of `IfcFurnishingElement`: each has `IfcFurnishingElement` as its parent, and so
/// is a subtype of it.
pub proof fn law_children_of_ifc_furnishing_element(t: IfcType)
    requires
        t is IfcFurniture || t is IfcSystemFurnitureElement,
    ensures
        t.spec_parent() == Some(IfcType::IfcFurnishingElement),
        t.spec_is_subtype_of(IfcType::IfcFurnishingElement),
{
    reveal_with_fuel(IfcType::subtype_chain, 2);
}

/// The direct subtypes of `IfcBuiltElement`: each has `IfcBuiltElement` as its parent, and so
/// is a subtype of it.
pub proof fn law_children_of_ifc_built_element(t: IfcType)
    requires
        t is IfcBuildingElementProxy || t is IfcWall || t is IfcCurtainWall || t is IfcSlab || t is IfcRoof || t is IfcBeam || t is IfcColumn || t is IfcDoor || t is IfcWindow || t is IfcStair || t is IfcStairFlight || t is IfcRamp || t is IfcRampFlight || t is IfcRailing || t is IfcCovering || t is IfcPlate || t is IfcMember || t is IfcFooting || t is IfcPile || t is IfcDeepFoundation || t is IfcPavement || t is IfcCourse || t is IfcKerb,
    ensures
        t.spec_parent() == Some(IfcType::IfcBuiltElement),
        t.spec_is_subtype_of(IfcType::IfcBuiltElement),
{
    reveal_with_fuel(IfcType::subtype_chain, 2);
}

/// The direct subtypes of `IfcWall`: each has `IfcWall` as its parent, and so
/// is a subtype of it.
pub proof fn law_children_of_ifc_wall(t: IfcType)
    requires
        t is IfcWallStandardCase,
    ensures
        t.spec_parent() == Some(IfcType::IfcWall),
        t.spec_is_subtype_of(IfcType::IfcWall),
{
    reveal_with_fuel(IfcType::subtype_chain, 2);
}

/// The direct subtypes of `IfcFeatureElement`: each has `IfcFeatureElement` as its parent, and so
/// is a subtype of it.
pub proof fn law_children_of_ifc_feature_element(t: IfcType)
    requires
        t is IfcFeatureElementSubtraction || t is IfcFeatureElementAddition,
    ensures
        t.spec_parent() == Some(IfcType::IfcFeatureElement),
        t.spec_is_subtype_of(IfcType::IfcFeatureElement),
{
    reveal_with_fuel(IfcType::subtype_chain, 2);
}

/// The direct subtypes of `IfcFeatureElementSubtraction`: each has `IfcFeatureElementSubtraction` as its parent, and so
/// is a subtype of it.
pub proof fn law_children_of_ifc_feature_element_subtraction(t: IfcType)
    requires
        t is IfcOpeningElement || t is IfcVoidingFeature || t is IfcEarthworksCut,
    ensures
        t.spec_parent() == Some(IfcType::IfcFeatureElementSubtraction),
        t.spec_is_subtype_of(IfcType::IfcFeatureElementSubtraction),
{
    reveal_with_fuel(IfcType::subtype_chain, 2);
}

/// The direct subtypes of `IfcOpeningElement`: each has `IfcOpeningElement` as its parent, and so
/// is a subtype of it.
pub proof fn law_children_of_ifc_opening_element(t: IfcType)
    requires
        t is IfcOpeningStandardCase,
    ensures
        t.spec_parent() == Some(IfcType::IfcOpeningElement),
        t.spec_is_subtype_of(IfcType::IfcOpeningElement),
{
    reveal_with_fuel(IfcType::subtype_chain, 2);
}

/// The direct subtypes of `IfcFeatureElementAddition`: each has `IfcFeatureElementAddition` as its parent, and so
/// is a subtype of it.
pub proof fn law_children_of_ifc_feature_element_addition(t: IfcType)
    requires
        t is IfcProjectionElement,
    ensures
        t.spec_parent() == Some(IfcType::IfcFeatureElementAddition),
        t.spec_is_subtype_of(IfcType::IfcFeatureElementAddition),
{
    reveal_with_fuel(IfcType::subtype_chain, 2);
}

/// The direct subtypes of `IfcDistributionElement`: each has `IfcDistributionElement` as its parent, and so
/// is a subtype of it.
pub proof fn law_children_of_ifc_distribution_element(t: IfcType)
    requires
        t is IfcDistributionFlowElement || t is IfcDistributionControlElement,
    ensures
        t.spec_parent() == Some(IfcType::IfcDistributionElement),
        t.spec_is_subtype_of(IfcType::IfcDistributionElement),
{
    reveal_with_fuel(IfcType::subtype_chain, 2);
}

/// The direct subtypes of `IfcDistributionFlowElement`: each has `IfcDistributionFlowElement` as its parent, and so
/// is a subtype of it.
pub proof fn law_children_of_ifc_distribution_flow_element(t: IfcType)
    requires
        t is IfcFlowSegment || t is IfcFlowFitting || t is IfcFlowTerminal || t is IfcFlowController || t is IfcFlowMovingDevice || t is IfcFlowStorageDevice || t is IfcFlowTreatmentDevice || t is IfcEnergyConversionDevice,
    ensures
        t.spec_parent() == Some(IfcType::IfcDistributionFlowElement),
        t.spec_is_subtype_of(IfcType::IfcDistributionFlowElement),
{
    reveal_with_fuel(IfcType::subtype_chain, 2);
}

/// The direct subtypes of `IfcFlowSegment`: each has `IfcFlowSegment` as its parent, and so
/// is a subtype of it.
pub proof fn law_children_of_ifc_flow_segment(t: IfcType)
    requires
        t is IfcCableSegment || t is IfcCableCarrierSegment || t is IfcPipeSegment,
    ensures
        t.spec_parent() == Some(IfcType::IfcFlowSegment),
        t.spec_is_subtype_of(IfcType::IfcFlowSegment),
{
    reveal_with_fuel(IfcType::subtype_chain, 2);
}

/// The direct subtypes of `IfcFlowFitting`: each has `IfcFlowFitting` as its parent, and so
/// is a subtype of it.
pub proof fn law_children_of_ifc_flow_fitting(t: IfcType)
    requires
        t is IfcCableCarrierFitting || t is IfcPipeFitting,
    ensures
        t.spec_parent() == Some(IfcType::IfcFlowFitting),
        t.spec_is_subtype_of(IfcType::IfcFlowFitting),
{
    reveal_with_fuel(IfcType::subtype_chain, 2);
}

/// The direct subtypes of `IfcEnergyConversionDevice`: each has `IfcEnergyConversionDevice` as its parent, and so
/// is a subtype of it.
pub proof fn law_children_of_ifc_energy_conversion_device(t: IfcType)
    requires
        t is IfcSpaceHeater,
    ensures
        t.spec_parent() == Some(IfcType::IfcEnergyConversionDevice),
        t.spec_is_subtype_of(IfcType::IfcEnergyConversionDevice),
{
    reveal_with_fuel(IfcType::subtype_chain, 2);
}

/// The direct subtypes of `IfcFlowTerminal`: each has `IfcFlowTerminal` as its parent, and so
/// is a subtype of it.
pub proof fn law_children_of_ifc_flow_terminal(t: IfcType)
    requires
        t is IfcAirTerminal || t is IfcLightFixture,
    ensures
        t.spec_parent() == Some(IfcType::IfcFlowTerminal),
        t.spec_is_subtype_of(IfcType::IfcFlowTerminal),
{
    reveal_with_fuel(IfcType::subtype_chain, 2);
}

/// The direct subtypes of `IfcGeotechnicalElement`: each has `IfcGeotechnicalElement` as its parent, and so
/// is a subtype of it.
pub proof fn law_children_of_ifc_geotechnical_element(t: IfcType)
    requires
        t is IfcGeotechnicalAssembly || t is IfcSolidStratum || t is IfcVoidStratum || t is IfcWaterStratum,
    ensures
        t.spec_parent() == Some(IfcType::IfcGeotechnicalElement),
        t.spec_is_subtype_of(IfcType::IfcGeotechnicalElement),
{
    reveal_with_fuel(IfcType::subtype_chain, 2);
}

/// The direct subtypes of `IfcGeotechnicalAssembly`: each has `IfcGeotechnicalAssembly` as its parent, and so
/// is a subtype of it.
pub proof fn law_children_of_ifc_geotechnical_assembly(t: IfcType)
    requires
        t is IfcBorehole || t is IfcGeomodel || t is IfcGeoslice,
    ensures
        t.spec_parent() == Some(IfcType::IfcGeotechnicalAssembly),
        t.spec_is_subtype_of(IfcType::IfcGeotechnicalAssembly),
{
    reveal_with_fuel(IfcType::subtype_chain, 2);
}

/// The direct subtypes of `IfcEarthworksElement`: each has `IfcEarthworksElement` as its parent, and so
/// is a subtype of it.
pub proof fn law_children_of_ifc_earthworks_element(t: IfcType)
    requires
        t is IfcEarthworksFill,
    ensures
        t.spec_parent() == Some(IfcType::IfcEarthworksElement),
        t.spec_is_subtype_of(IfcType::IfcEarthworksElement),
{
    reveal_with_fuel(IfcType::subtype_chain, 2);
}

/// Types outside the product tree, part 1: they have no parent.
pub proof fn law_without_parent_0(t: IfcType)
    requires
        t is IfcRoot || t is IfcProject || t is IfcExtrudedAreaSolid || t is IfcExtrudedAreaSolidTapered || t is IfcRevolvedAreaSolid || t is IfcRevolvedAreaSolidTapered || t is IfcSweptDiskSolid || t is IfcSweptDiskSolidPolygonal || t is IfcSurfaceCurveSweptAreaSolid || t is IfcFixedReferenceSweptAreaSolid || t is IfcFacetedBrep || t is IfcFacetedBrepWithVoids || t is IfcAdvancedBrep || t is IfcAdvancedBrepWithVoids || t is IfcTriangulatedFaceSet || t is IfcPolygonalFaceSet || t is IfcTessellatedFaceSet || t is IfcBooleanResult || t is IfcBooleanClippingResult || t is IfcMappedItem || t is IfcRepresentationMap || t is IfcBlock || t is IfcRectangularPyramid || t is IfcRightCircularCone || t is IfcRightCircularCylinder || t is IfcSphere || t is IfcHalfSpaceSolid || t is IfcPolygonalBoundedHalfSpace || t is IfcBoxedHalfSpace || t is IfcArbitraryClosedProfileDef || t is IfcArbitraryProfileDefWithVoids || t is IfcRectangleProfileDef || t is IfcRectangleHollowProfileDef || t is IfcCircleProfileDef || t is IfcCircleHollowProfileDef || t is IfcEllipseProfileDef || t is IfcIShapeProfileDef || t is IfcLShapeProfileDef || t is IfcTShapeProfileDef || t is IfcUShapeProfileDef,
    ensures
        t.spec_parent() is None,
{
}

/// Types outside the product tree, part 2: they have no parent.
pub proof fn law_without_parent_1(t: IfcType)
    requires
        t is IfcCShapeProfileDef || t is IfcZShapeProfileDef || t is IfcAsymmetricIShapeProfileDef || t is IfcTrapeziumProfileDef || t is IfcCompositeProfileDef || t is IfcDerivedProfileDef || t is IfcCenterLineProfileDef || t is IfcPolyline || t is IfcCompositeCurve || t is IfcCompositeCurveSegment || t is IfcTrimmedCurve || t is IfcCircle || t is IfcEllipse || t is IfcLine || t is IfcBSplineCurve || t is IfcBSplineCurveWithKnots || t is IfcRationalBSplineCurveWithKnots || t is IfcIndexedPolyCurve || t is IfcPlane || t is IfcCurveBoundedPlane || t is IfcCylindricalSurface || t is IfcBSplineSurface || t is IfcBSplineSurfaceWithKnots || t is IfcRationalBSplineSurfaceWithKnots || t is IfcCartesianPoint || t is IfcDirection || t is IfcVector || t is IfcCartesianPointList2D || t is IfcCartesianPointList3D || t is IfcAxis2Placement2D || t is IfcAxis2Placement3D || t is IfcLocalPlacement || t is IfcCartesianTransformationOperator3D || t is IfcCartesianTransformationOperator3DnonUniform || t is IfcShapeRepresentation || t is IfcProductDefinitionShape || t is IfcGeometricRepresentationContext || t is IfcGeometricRepresentationSubContext || t is IfcClosedShell || t is IfcOpenShell,
    ensures
        t.spec_parent() is None,
{
}

/// Types outside the product tree, part 3: they have no parent.
pub proof fn law_without_parent_2(t: IfcType)
    requires
        t is IfcFace || t is IfcFaceBound || t is IfcFaceOuterBound || t is IfcPolyLoop || t is IfcEdgeLoop || t is IfcOrientedEdge || t is IfcEdgeCurve || t is IfcVertexPoint || t is IfcConnectedFaceSet || t is IfcRelContainedInSpatialStructure || t is IfcRelAggregates || t is IfcRelDefinesByProperties || t is IfcRelDefinesByType || t is IfcRelAssociatesMaterial || t is IfcRelVoidsElement || t is IfcRelFillsElement || t is IfcRelConnectsPathElements || t is IfcRelSpaceBoundary || t is IfcRelAssignsToGroup || t is IfcPropertySet || t is IfcPropertySingleValue || t is IfcPropertyEnumeratedValue || t is IfcPropertyBoundedValue || t is IfcPropertyListValue || t is IfcPropertyTableValue || t is IfcComplexProperty || t is IfcElementQuantity || t is IfcQuantityLength || t is IfcQuantityArea || t is IfcQuantityVolume || t is IfcQuantityCount || t is IfcQuantityWeight || t is IfcQuantityTime || t is IfcMaterial || t is IfcMaterialLayer || t is IfcMaterialLayerSet || t is IfcMaterialLayerSetUsage || t is IfcMaterialList || t is IfcMaterialConstituentSet || t is IfcMaterialConstituent,
    ensures
        t.spec_parent() is None,
{
}

/// Types outside the product tree, part 4: they have no parent.
pub proof fn law_without_parent_3(t: IfcType)
    requires
        t is IfcMaterialProfile || t is IfcMaterialProfileSet || t is IfcMaterialProfileSetUsage || t is IfcStyledItem || t is IfcSurfaceStyle || t is IfcSurfaceStyleRendering || t is IfcColourRgb || t is IfcPresentationLayerAssignment || t is IfcLightFixtureType || t is IfcLightSource || t is IfcLightSourceAmbient || t is IfcLightSourceDirectional || t is IfcLightSourceGoniometric || t is IfcLightSourcePositional || t is IfcLightSourceSpot || t is IfcLightIntensityDistribution || t is IfcLightDistributionData || t is IfcUnitAssignment || t is IfcSIUnit || t is IfcConversionBasedUnit || t is IfcDerivedUnit || t is IfcMeasureWithUnit || t is IfcWallType || t is IfcSlabType || t is IfcBeamType || t is IfcColumnType || t is IfcDoorType || t is IfcWindowType || t is IfcCoveringType || t is IfcRailingType || t is IfcStairType || t is IfcStairFlightType || t is IfcRampType || t is IfcRampFlightType || t is IfcRoofType || t is IfcMemberType || t is IfcPlateType || t is IfcFootingType || t is IfcPileType || t is IfcBuildingElementProxyType,
    ensures
        t.spec_parent() is None,
{
}

/// Types outside the product tree, part 5: they have no parent.
pub proof fn law_without_parent_4(t: IfcType)
    requires
        t is IfcAlignment || t is IfcAlignmentCant || t is IfcAlignmentHorizontal || t is IfcAlignmentVertical || t is IfcAlignmentSegment,
    ensures
        t.spec_parent() is None,
{
}

/// An unknown type has no parent and is a subtype of nothing.
pub proof fn law_unknown_has_no_parent(t: IfcType, p: IfcType)
    requires
        t is Unknown,
    ensures
        t.spec_parent() is None,
        !t.spec_is_subtype_of(p),
{
}

/// Products outside the spatial containers, and sites and spaces, carry
/// geometry (part 1).
pub proof fn law_products_with_geometry_0(t: IfcType)
    requires
        t is IfcSite || t is IfcSpace || t is IfcElement || t is IfcBuiltElement || t is IfcCivilElement || t is IfcGeographicElement || t is IfcAnnotation || t is IfcPort || t is IfcElementAssembly || t is IfcFurnishingElement || t is IfcFurniture || t is IfcSystemFurnitureElement || t is IfcBuildingElementProxy || t is IfcWall || t is IfcWallStandardCase || t is IfcCurtainWall || t is IfcSlab || t is IfcRoof || t is IfcBeam || t is IfcColumn || t is IfcDoor || t is IfcWindow || t is IfcStair || t is IfcStairFlight || t is IfcRamp,
    ensures
        t.spec_has_geometry(),
{
    reveal_with_fuel(IfcType::subtype_chain, 10);
}

/// Products outside the spatial containers, and sites and spaces, carry
/// geometry (part 2).
pub proof fn law_products_with_geometry_1(t: IfcType)
    requires
        t is IfcRampFlight || t is IfcRailing || t is IfcCovering || t is IfcPlate || t is IfcMember || t is IfcFooting || t is IfcPile || t is IfcDeepFoundation || t is IfcFeatureElement || t is IfcFeatureElementSubtraction || t is IfcFeatureElementAddition || t is IfcOpeningElement || t is IfcOpeningStandardCase || t is IfcVoidingFeature || t is IfcProjectionElement || t is IfcDistributionElement || t is IfcDistributionFlowElement || t is IfcDistributionControlElement || t is IfcFlowSegment || t is IfcFlowFitting || t is IfcFlowTerminal || t is IfcFlowController || t is IfcFlowMovingDevice || t is IfcFlowStorageDevice || t is IfcFlowTreatmentDevice,
    ensures
        t.spec_has_geometry(),
{
    reveal_with_fuel(IfcType::subtype_chain, 10);
}

/// Products outside the spatial containers, and sites and spaces, carry
/// geometry (part 3).
pub proof fn law_products_with_geometry_2(t: IfcType)
    requires
        t is IfcEnergyConversionDevice || t is IfcCableSegment || t is IfcCableCarrierSegment || t is IfcCableCarrierFitting || t is IfcPipeSegment || t is IfcPipeFitting || t is IfcSpaceHeater || t is IfcAirTerminal || t is IfcLightFixture || t is IfcGeotechnicalElement || t is IfcGeotechnicalAssembly || t is IfcBorehole || t is IfcGeomodel || t is IfcGeoslice || t is IfcSolidStratum || t is IfcVoidStratum || t is IfcWaterStratum || t is IfcEarthworksElement || t is IfcEarthworksCut || t is IfcEarthworksFill || t is IfcPavement || t is IfcCourse || t is IfcKerb,
    ensures
        t.spec_has_geometry(),
{
    reveal_with_fuel(IfcType::subtype_chain, 10);
}

/// Spatial containers other than sites and spaces carry no geometry.
pub proof fn law_spatial_containers_without_geometry(t: IfcType)
    requires
        t is IfcSpatialElement || t is IfcSpatialStructureElement || t is IfcExternalSpatialStructureElement || t is IfcExternalSpatialElement || t is IfcSpatialZone || t is IfcBuilding || t is IfcBuildingStorey || t is IfcFacility || t is IfcFacilityPart || t is IfcBridge || t is IfcBridgePart || t is IfcRoad || t is IfcRoadPart || t is IfcRailway || t is IfcRailwayPart,
    ensures
        !t.spec_has_geometry(),
{
    reveal_with_fuel(IfcType::subtype_chain, 10);
}

/// The project and the abstract roots above `IfcProduct` carry no geometry.
pub proof fn law_non_products_without_geometry(t: IfcType)
    requires
        t is IfcRoot || t is IfcObjectDefinition || t is IfcObject || t is IfcProject,
    ensures
        !t.spec_has_geometry(),
{
    reveal_with_fuel(IfcType::subtype_chain, 10);
}

} // verus!
