//! The IFC entity type enumeration, its name table and its inheritance graph.

use vstd::prelude::*;

use crate::text::{chars_eq_str, chars_of};

verus! {

/// IFC entity type enumeration.
///
/// Covers the common IFC entity types; unknown types keep their own
/// type-name string. The abstract parents (`IfcRoot` down to `IfcElement`
/// and friends) exist so that [`IfcType::is_subtype_of`] can walk the
/// inheritance chain.
#[derive(Clone, Debug, Hash)]
pub enum IfcType {
    IfcRoot,
    IfcObjectDefinition,
    IfcObject,
    IfcProduct,
    IfcElement,
    IfcBuiltElement,
    IfcSpatialElement,
    IfcSpatialStructureElement,
    IfcExternalSpatialStructureElement,
    IfcExternalSpatialElement,
    IfcSpatialZone,
    IfcCivilElement,
    IfcGeographicElement,
    IfcAnnotation,
    IfcPort,
    IfcFeatureElement,
    IfcFeatureElementAddition,
    IfcFeatureElementSubtraction,
    IfcGeotechnicalAssembly,
    IfcProject,
    IfcSite,
    IfcBuilding,
    IfcBuildingStorey,
    IfcSpace,
    IfcWall,
    IfcWallStandardCase,
    IfcCurtainWall,
    IfcSlab,
    IfcRoof,
    IfcBeam,
    IfcColumn,
    IfcDoor,
    IfcWindow,
    IfcStair,
    IfcStairFlight,
    IfcRamp,
    IfcRampFlight,
    IfcRailing,
    IfcCovering,
    IfcPlate,
    IfcMember,
    IfcFooting,
    IfcPile,
    IfcBuildingElementProxy,
    IfcElementAssembly,
    IfcDistributionElement,
    IfcDistributionFlowElement,
    IfcFlowTerminal,
    IfcFlowSegment,
    IfcFlowFitting,
    IfcFlowController,
    IfcFlowMovingDevice,
    IfcFlowStorageDevice,
    IfcFlowTreatmentDevice,
    IfcEnergyConversionDevice,
    IfcDistributionControlElement,
    IfcCableSegment,
    IfcCableCarrierSegment,
    IfcCableCarrierFitting,
    IfcPipeSegment,
    IfcPipeFitting,
    IfcSpaceHeater,
    IfcAirTerminal,
    IfcFurnishingElement,
    IfcFurniture,
    IfcSystemFurnitureElement,
    IfcOpeningElement,
    IfcOpeningStandardCase,
    IfcVoidingFeature,
    IfcProjectionElement,
    IfcExtrudedAreaSolid,
    IfcExtrudedAreaSolidTapered,
    IfcRevolvedAreaSolid,
    IfcRevolvedAreaSolidTapered,
    IfcSweptDiskSolid,
    IfcSweptDiskSolidPolygonal,
    IfcSurfaceCurveSweptAreaSolid,
    IfcFixedReferenceSweptAreaSolid,
    IfcFacetedBrep,
    IfcFacetedBrepWithVoids,
    IfcAdvancedBrep,
    IfcAdvancedBrepWithVoids,
    IfcTriangulatedFaceSet,
    IfcPolygonalFaceSet,
    IfcTessellatedFaceSet,
    IfcBooleanResult,
    IfcBooleanClippingResult,
    IfcMappedItem,
    IfcRepresentationMap,
    IfcBlock,
    IfcRectangularPyramid,
    IfcRightCircularCone,
    IfcRightCircularCylinder,
    IfcSphere,
    IfcHalfSpaceSolid,
    IfcPolygonalBoundedHalfSpace,
    IfcBoxedHalfSpace,
    IfcArbitraryClosedProfileDef,
    IfcArbitraryProfileDefWithVoids,
    IfcRectangleProfileDef,
    IfcRectangleHollowProfileDef,
    IfcCircleProfileDef,
    IfcCircleHollowProfileDef,
    IfcEllipseProfileDef,
    IfcIShapeProfileDef,
    IfcLShapeProfileDef,
    IfcTShapeProfileDef,
    IfcUShapeProfileDef,
    IfcCShapeProfileDef,
    IfcZShapeProfileDef,
    IfcAsymmetricIShapeProfileDef,
    IfcTrapeziumProfileDef,
    IfcCompositeProfileDef,
    IfcDerivedProfileDef,
    IfcCenterLineProfileDef,
    IfcPolyline,
    IfcCompositeCurve,
    IfcCompositeCurveSegment,
    IfcTrimmedCurve,
    IfcCircle,
    IfcEllipse,
    IfcLine,
    IfcBSplineCurve,
    IfcBSplineCurveWithKnots,
    IfcRationalBSplineCurveWithKnots,
    IfcIndexedPolyCurve,
    IfcPlane,
    IfcCurveBoundedPlane,
    IfcCylindricalSurface,
    IfcBSplineSurface,
    IfcBSplineSurfaceWithKnots,
    IfcRationalBSplineSurfaceWithKnots,
    IfcCartesianPoint,
    IfcDirection,
    IfcVector,
    IfcCartesianPointList2D,
    IfcCartesianPointList3D,
    IfcAxis2Placement2D,
    IfcAxis2Placement3D,
    IfcLocalPlacement,
    IfcCartesianTransformationOperator3D,
    IfcCartesianTransformationOperator3DnonUniform,
    IfcShapeRepresentation,
    IfcProductDefinitionShape,
    IfcGeometricRepresentationContext,
    IfcGeometricRepresentationSubContext,
    IfcClosedShell,
    IfcOpenShell,
    IfcFace,
    IfcFaceBound,
    IfcFaceOuterBound,
    IfcPolyLoop,
    IfcEdgeLoop,
    IfcOrientedEdge,
    IfcEdgeCurve,
    IfcVertexPoint,
    IfcConnectedFaceSet,
    IfcRelContainedInSpatialStructure,
    IfcRelAggregates,
    IfcRelDefinesByProperties,
    IfcRelDefinesByType,
    IfcRelAssociatesMaterial,
    IfcRelVoidsElement,
    IfcRelFillsElement,
    IfcRelConnectsPathElements,
    IfcRelSpaceBoundary,
    IfcRelAssignsToGroup,
    IfcPropertySet,
    IfcPropertySingleValue,
    IfcPropertyEnumeratedValue,
    IfcPropertyBoundedValue,
    IfcPropertyListValue,
    IfcPropertyTableValue,
    IfcComplexProperty,
    IfcElementQuantity,
    IfcQuantityLength,
    IfcQuantityArea,
    IfcQuantityVolume,
    IfcQuantityCount,
    IfcQuantityWeight,
    IfcQuantityTime,
    IfcMaterial,
    IfcMaterialLayer,
    IfcMaterialLayerSet,
    IfcMaterialLayerSetUsage,
    IfcMaterialList,
    IfcMaterialConstituentSet,
    IfcMaterialConstituent,
    IfcMaterialProfile,
    IfcMaterialProfileSet,
    IfcMaterialProfileSetUsage,
    IfcStyledItem,
    IfcSurfaceStyle,
    IfcSurfaceStyleRendering,
    IfcColourRgb,
    IfcPresentationLayerAssignment,
    IfcLightFixture,
    IfcLightFixtureType,
    IfcLightSource,
    IfcLightSourceAmbient,
    IfcLightSourceDirectional,
    IfcLightSourceGoniometric,
    IfcLightSourcePositional,
    IfcLightSourceSpot,
    IfcLightIntensityDistribution,
    IfcLightDistributionData,
    IfcUnitAssignment,
    IfcSIUnit,
    IfcConversionBasedUnit,
    IfcDerivedUnit,
    IfcMeasureWithUnit,
    IfcWallType,
    IfcSlabType,
    IfcBeamType,
    IfcColumnType,
    IfcDoorType,
    IfcWindowType,
    IfcCoveringType,
    IfcRailingType,
    IfcStairType,
    IfcStairFlightType,
    IfcRampType,
    IfcRampFlightType,
    IfcRoofType,
    IfcMemberType,
    IfcPlateType,
    IfcFootingType,
    IfcPileType,
    IfcBuildingElementProxyType,
    IfcAlignment,
    IfcAlignmentCant,
    IfcAlignmentHorizontal,
    IfcAlignmentVertical,
    IfcAlignmentSegment,
    IfcRoad,
    IfcRoadPart,
    IfcBridge,
    IfcBridgePart,
    IfcRailway,
    IfcRailwayPart,
    IfcFacility,
    IfcFacilityPart,
    IfcGeotechnicalElement,
    IfcBorehole,
    IfcGeomodel,
    IfcGeoslice,
    IfcSolidStratum,
    IfcVoidStratum,
    IfcWaterStratum,
    IfcEarthworksCut,
    IfcEarthworksFill,
    IfcEarthworksElement,
    IfcPavement,
    IfcCourse,
    IfcKerb,
    IfcDeepFoundation,
    /// Unknown type: stores the type name string as written.
    Unknown(String),
}

/// Position of a named variant in the declaration order; `Unknown` gets the
/// position after the last named variant.
pub open spec fn type_tag(t: IfcType) -> u16 {
    match t {
        IfcType::IfcRoot => 0,
        IfcType::IfcObjectDefinition => 1,
        IfcType::IfcObject => 2,
        IfcType::IfcProduct => 3,
        IfcType::IfcElement => 4,
        IfcType::IfcBuiltElement => 5,
        IfcType::IfcSpatialElement => 6,
        IfcType::IfcSpatialStructureElement => 7,
        IfcType::IfcExternalSpatialStructureElement => 8,
        IfcType::IfcExternalSpatialElement => 9,
        IfcType::IfcSpatialZone => 10,
        IfcType::IfcCivilElement => 11,
        IfcType::IfcGeographicElement => 12,
        IfcType::IfcAnnotation => 13,
        IfcType::IfcPort => 14,
        IfcType::IfcFeatureElement => 15,
        IfcType::IfcFeatureElementAddition => 16,
        IfcType::IfcFeatureElementSubtraction => 17,
        IfcType::IfcGeotechnicalAssembly => 18,
        IfcType::IfcProject => 19,
        IfcType::IfcSite => 20,
        IfcType::IfcBuilding => 21,
        IfcType::IfcBuildingStorey => 22,
        IfcType::IfcSpace => 23,
        IfcType::IfcWall => 24,
        IfcType::IfcWallStandardCase => 25,
        IfcType::IfcCurtainWall => 26,
        IfcType::IfcSlab => 27,
        IfcType::IfcRoof => 28,
        IfcType::IfcBeam => 29,
        IfcType::IfcColumn => 30,
        IfcType::IfcDoor => 31,
        IfcType::IfcWindow => 32,
        IfcType::IfcStair => 33,
        IfcType::IfcStairFlight => 34,
        IfcType::IfcRamp => 35,
        IfcType::IfcRampFlight => 36,
        IfcType::IfcRailing => 37,
        IfcType::IfcCovering => 38,
        IfcType::IfcPlate => 39,
        IfcType::IfcMember => 40,
        IfcType::IfcFooting => 41,
        IfcType::IfcPile => 42,
        IfcType::IfcBuildingElementProxy => 43,
        IfcType::IfcElementAssembly => 44,
        IfcType::IfcDistributionElement => 45,
        IfcType::IfcDistributionFlowElement => 46,
        IfcType::IfcFlowTerminal => 47,
        IfcType::IfcFlowSegment => 48,
        IfcType::IfcFlowFitting => 49,
        IfcType::IfcFlowController => 50,
        IfcType::IfcFlowMovingDevice => 51,
        IfcType::IfcFlowStorageDevice => 52,
        IfcType::IfcFlowTreatmentDevice => 53,
        IfcType::IfcEnergyConversionDevice => 54,
        IfcType::IfcDistributionControlElement => 55,
        IfcType::IfcCableSegment => 56,
        IfcType::IfcCableCarrierSegment => 57,
        IfcType::IfcCableCarrierFitting => 58,
        IfcType::IfcPipeSegment => 59,
        IfcType::IfcPipeFitting => 60,
        IfcType::IfcSpaceHeater => 61,
        IfcType::IfcAirTerminal => 62,
        IfcType::IfcFurnishingElement => 63,
        IfcType::IfcFurniture => 64,
        IfcType::IfcSystemFurnitureElement => 65,
        IfcType::IfcOpeningElement => 66,
        IfcType::IfcOpeningStandardCase => 67,
        IfcType::IfcVoidingFeature => 68,
        IfcType::IfcProjectionElement => 69,
        IfcType::IfcExtrudedAreaSolid => 70,
        IfcType::IfcExtrudedAreaSolidTapered => 71,
        IfcType::IfcRevolvedAreaSolid => 72,
        IfcType::IfcRevolvedAreaSolidTapered => 73,
        IfcType::IfcSweptDiskSolid => 74,
        IfcType::IfcSweptDiskSolidPolygonal => 75,
        IfcType::IfcSurfaceCurveSweptAreaSolid => 76,
        IfcType::IfcFixedReferenceSweptAreaSolid => 77,
        IfcType::IfcFacetedBrep => 78,
        IfcType::IfcFacetedBrepWithVoids => 79,
        IfcType::IfcAdvancedBrep => 80,
        IfcType::IfcAdvancedBrepWithVoids => 81,
        IfcType::IfcTriangulatedFaceSet => 82,
        IfcType::IfcPolygonalFaceSet => 83,
        IfcType::IfcTessellatedFaceSet => 84,
        IfcType::IfcBooleanResult => 85,
        IfcType::IfcBooleanClippingResult => 86,
        IfcType::IfcMappedItem => 87,
        IfcType::IfcRepresentationMap => 88,
        IfcType::IfcBlock => 89,
        IfcType::IfcRectangularPyramid => 90,
        IfcType::IfcRightCircularCone => 91,
        IfcType::IfcRightCircularCylinder => 92,
        IfcType::IfcSphere => 93,
        IfcType::IfcHalfSpaceSolid => 94,
        IfcType::IfcPolygonalBoundedHalfSpace => 95,
        IfcType::IfcBoxedHalfSpace => 96,
        IfcType::IfcArbitraryClosedProfileDef => 97,
        IfcType::IfcArbitraryProfileDefWithVoids => 98,
        IfcType::IfcRectangleProfileDef => 99,
        IfcType::IfcRectangleHollowProfileDef => 100,
        IfcType::IfcCircleProfileDef => 101,
        IfcType::IfcCircleHollowProfileDef => 102,
        IfcType::IfcEllipseProfileDef => 103,
        IfcType::IfcIShapeProfileDef => 104,
        IfcType::IfcLShapeProfileDef => 105,
        IfcType::IfcTShapeProfileDef => 106,
        IfcType::IfcUShapeProfileDef => 107,
        IfcType::IfcCShapeProfileDef => 108,
        IfcType::IfcZShapeProfileDef => 109,
        IfcType::IfcAsymmetricIShapeProfileDef => 110,
        IfcType::IfcTrapeziumProfileDef => 111,
        IfcType::IfcCompositeProfileDef => 112,
        IfcType::IfcDerivedProfileDef => 113,
        IfcType::IfcCenterLineProfileDef => 114,
        IfcType::IfcPolyline => 115,
        IfcType::IfcCompositeCurve => 116,
        IfcType::IfcCompositeCurveSegment => 117,
        IfcType::IfcTrimmedCurve => 118,
        IfcType::IfcCircle => 119,
        IfcType::IfcEllipse => 120,
        IfcType::IfcLine => 121,
        IfcType::IfcBSplineCurve => 122,
        IfcType::IfcBSplineCurveWithKnots => 123,
        IfcType::IfcRationalBSplineCurveWithKnots => 124,
        IfcType::IfcIndexedPolyCurve => 125,
        IfcType::IfcPlane => 126,
        IfcType::IfcCurveBoundedPlane => 127,
        IfcType::IfcCylindricalSurface => 128,
        IfcType::IfcBSplineSurface => 129,
        IfcType::IfcBSplineSurfaceWithKnots => 130,
        IfcType::IfcRationalBSplineSurfaceWithKnots => 131,
        IfcType::IfcCartesianPoint => 132,
        IfcType::IfcDirection => 133,
        IfcType::IfcVector => 134,
        IfcType::IfcCartesianPointList2D => 135,
        IfcType::IfcCartesianPointList3D => 136,
        IfcType::IfcAxis2Placement2D => 137,
        IfcType::IfcAxis2Placement3D => 138,
        IfcType::IfcLocalPlacement => 139,
        IfcType::IfcCartesianTransformationOperator3D => 140,
        IfcType::IfcCartesianTransformationOperator3DnonUniform => 141,
        IfcType::IfcShapeRepresentation => 142,
        IfcType::IfcProductDefinitionShape => 143,
        IfcType::IfcGeometricRepresentationContext => 144,
        IfcType::IfcGeometricRepresentationSubContext => 145,
        IfcType::IfcClosedShell => 146,
        IfcType::IfcOpenShell => 147,
        IfcType::IfcFace => 148,
        IfcType::IfcFaceBound => 149,
        IfcType::IfcFaceOuterBound => 150,
        IfcType::IfcPolyLoop => 151,
        IfcType::IfcEdgeLoop => 152,
        IfcType::IfcOrientedEdge => 153,
        IfcType::IfcEdgeCurve => 154,
        IfcType::IfcVertexPoint => 155,
        IfcType::IfcConnectedFaceSet => 156,
        IfcType::IfcRelContainedInSpatialStructure => 157,
        IfcType::IfcRelAggregates => 158,
        IfcType::IfcRelDefinesByProperties => 159,
        IfcType::IfcRelDefinesByType => 160,
        IfcType::IfcRelAssociatesMaterial => 161,
        IfcType::IfcRelVoidsElement => 162,
        IfcType::IfcRelFillsElement => 163,
        IfcType::IfcRelConnectsPathElements => 164,
        IfcType::IfcRelSpaceBoundary => 165,
        IfcType::IfcRelAssignsToGroup => 166,
        IfcType::IfcPropertySet => 167,
        IfcType::IfcPropertySingleValue => 168,
        IfcType::IfcPropertyEnumeratedValue => 169,
        IfcType::IfcPropertyBoundedValue => 170,
        IfcType::IfcPropertyListValue => 171,
        IfcType::IfcPropertyTableValue => 172,
        IfcType::IfcComplexProperty => 173,
        IfcType::IfcElementQuantity => 174,
        IfcType::IfcQuantityLength => 175,
        IfcType::IfcQuantityArea => 176,
        IfcType::IfcQuantityVolume => 177,
        IfcType::IfcQuantityCount => 178,
        IfcType::IfcQuantityWeight => 179,
        IfcType::IfcQuantityTime => 180,
        IfcType::IfcMaterial => 181,
        IfcType::IfcMaterialLayer => 182,
        IfcType::IfcMaterialLayerSet => 183,
        IfcType::IfcMaterialLayerSetUsage => 184,
        IfcType::IfcMaterialList => 185,
        IfcType::IfcMaterialConstituentSet => 186,
        IfcType::IfcMaterialConstituent => 187,
        IfcType::IfcMaterialProfile => 188,
        IfcType::IfcMaterialProfileSet => 189,
        IfcType::IfcMaterialProfileSetUsage => 190,
        IfcType::IfcStyledItem => 191,
        IfcType::IfcSurfaceStyle => 192,
        IfcType::IfcSurfaceStyleRendering => 193,
        IfcType::IfcColourRgb => 194,
        IfcType::IfcPresentationLayerAssignment => 195,
        IfcType::IfcLightFixture => 196,
        IfcType::IfcLightFixtureType => 197,
        IfcType::IfcLightSource => 198,
        IfcType::IfcLightSourceAmbient => 199,
        IfcType::IfcLightSourceDirectional => 200,
        IfcType::IfcLightSourceGoniometric => 201,
        IfcType::IfcLightSourcePositional => 202,
        IfcType::IfcLightSourceSpot => 203,
        IfcType::IfcLightIntensityDistribution => 204,
        IfcType::IfcLightDistributionData => 205,
        IfcType::IfcUnitAssignment => 206,
        IfcType::IfcSIUnit => 207,
        IfcType::IfcConversionBasedUnit => 208,
        IfcType::IfcDerivedUnit => 209,
        IfcType::IfcMeasureWithUnit => 210,
        IfcType::IfcWallType => 211,
        IfcType::IfcSlabType => 212,
        IfcType::IfcBeamType => 213,
        IfcType::IfcColumnType => 214,
        IfcType::IfcDoorType => 215,
        IfcType::IfcWindowType => 216,
        IfcType::IfcCoveringType => 217,
        IfcType::IfcRailingType => 218,
        IfcType::IfcStairType => 219,
        IfcType::IfcStairFlightType => 220,
        IfcType::IfcRampType => 221,
        IfcType::IfcRampFlightType => 222,
        IfcType::IfcRoofType => 223,
        IfcType::IfcMemberType => 224,
        IfcType::IfcPlateType => 225,
        IfcType::IfcFootingType => 226,
        IfcType::IfcPileType => 227,
        IfcType::IfcBuildingElementProxyType => 228,
        IfcType::IfcAlignment => 229,
        IfcType::IfcAlignmentCant => 230,
        IfcType::IfcAlignmentHorizontal => 231,
        IfcType::IfcAlignmentVertical => 232,
        IfcType::IfcAlignmentSegment => 233,
        IfcType::IfcRoad => 234,
        IfcType::IfcRoadPart => 235,
        IfcType::IfcBridge => 236,
        IfcType::IfcBridgePart => 237,
        IfcType::IfcRailway => 238,
        IfcType::IfcRailwayPart => 239,
        IfcType::IfcFacility => 240,
        IfcType::IfcFacilityPart => 241,
        IfcType::IfcGeotechnicalElement => 242,
        IfcType::IfcBorehole => 243,
        IfcType::IfcGeomodel => 244,
        IfcType::IfcGeoslice => 245,
        IfcType::IfcSolidStratum => 246,
        IfcType::IfcVoidStratum => 247,
        IfcType::IfcWaterStratum => 248,
        IfcType::IfcEarthworksCut => 249,
        IfcType::IfcEarthworksFill => 250,
        IfcType::IfcEarthworksElement => 251,
        IfcType::IfcPavement => 252,
        IfcType::IfcCourse => 253,
        IfcType::IfcKerb => 254,
        IfcType::IfcDeepFoundation => 255,
        IfcType::Unknown(_) => 256,
    }
}

/// The named variant at a declaration position.
pub open spec fn type_at_tag(k: u16) -> IfcType
    recommends
        k < 256,
{
    if k == 0 {
        IfcType::IfcRoot
    } else if k == 1 {
        IfcType::IfcObjectDefinition
    } else if k == 2 {
        IfcType::IfcObject
    } else if k == 3 {
        IfcType::IfcProduct
    } else if k == 4 {
        IfcType::IfcElement
    } else if k == 5 {
        IfcType::IfcBuiltElement
    } else if k == 6 {
        IfcType::IfcSpatialElement
    } else if k == 7 {
        IfcType::IfcSpatialStructureElement
    } else if k == 8 {
        IfcType::IfcExternalSpatialStructureElement
    } else if k == 9 {
        IfcType::IfcExternalSpatialElement
    } else if k == 10 {
        IfcType::IfcSpatialZone
    } else if k == 11 {
        IfcType::IfcCivilElement
    } else if k == 12 {
        IfcType::IfcGeographicElement
    } else if k == 13 {
        IfcType::IfcAnnotation
    } else if k == 14 {
        IfcType::IfcPort
    } else if k == 15 {
        IfcType::IfcFeatureElement
    } else if k == 16 {
        IfcType::IfcFeatureElementAddition
    } else if k == 17 {
        IfcType::IfcFeatureElementSubtraction
    } else if k == 18 {
        IfcType::IfcGeotechnicalAssembly
    } else if k == 19 {
        IfcType::IfcProject
    } else if k == 20 {
        IfcType::IfcSite
    } else if k == 21 {
        IfcType::IfcBuilding
    } else if k == 22 {
        IfcType::IfcBuildingStorey
    } else if k == 23 {
        IfcType::IfcSpace
    } else if k == 24 {
        IfcType::IfcWall
    } else if k == 25 {
        IfcType::IfcWallStandardCase
    } else if k == 26 {
        IfcType::IfcCurtainWall
    } else if k == 27 {
        IfcType::IfcSlab
    } else if k == 28 {
        IfcType::IfcRoof
    } else if k == 29 {
        IfcType::IfcBeam
    } else if k == 30 {
        IfcType::IfcColumn
    } else if k == 31 {
        IfcType::IfcDoor
    } else if k == 32 {
        IfcType::IfcWindow
    } else if k == 33 {
        IfcType::IfcStair
    } else if k == 34 {
        IfcType::IfcStairFlight
    } else if k == 35 {
        IfcType::IfcRamp
    } else if k == 36 {
        IfcType::IfcRampFlight
    } else if k == 37 {
        IfcType::IfcRailing
    } else if k == 38 {
        IfcType::IfcCovering
    } else if k == 39 {
        IfcType::IfcPlate
    } else if k == 40 {
        IfcType::IfcMember
    } else if k == 41 {
        IfcType::IfcFooting
    } else if k == 42 {
        IfcType::IfcPile
    } else if k == 43 {
        IfcType::IfcBuildingElementProxy
    } else if k == 44 {
        IfcType::IfcElementAssembly
    } else if k == 45 {
        IfcType::IfcDistributionElement
    } else if k == 46 {
        IfcType::IfcDistributionFlowElement
    } else if k == 47 {
        IfcType::IfcFlowTerminal
    } else if k == 48 {
        IfcType::IfcFlowSegment
    } else if k == 49 {
        IfcType::IfcFlowFitting
    } else if k == 50 {
        IfcType::IfcFlowController
    } else if k == 51 {
        IfcType::IfcFlowMovingDevice
    } else if k == 52 {
        IfcType::IfcFlowStorageDevice
    } else if k == 53 {
        IfcType::IfcFlowTreatmentDevice
    } else if k == 54 {
        IfcType::IfcEnergyConversionDevice
    } else if k == 55 {
        IfcType::IfcDistributionControlElement
    } else if k == 56 {
        IfcType::IfcCableSegment
    } else if k == 57 {
        IfcType::IfcCableCarrierSegment
    } else if k == 58 {
        IfcType::IfcCableCarrierFitting
    } else if k == 59 {
        IfcType::IfcPipeSegment
    } else if k == 60 {
        IfcType::IfcPipeFitting
    } else if k == 61 {
        IfcType::IfcSpaceHeater
    } else if k == 62 {
        IfcType::IfcAirTerminal
    } else if k == 63 {
        IfcType::IfcFurnishingElement
    } else if k == 64 {
        IfcType::IfcFurniture
    } else if k == 65 {
        IfcType::IfcSystemFurnitureElement
    } else if k == 66 {
        IfcType::IfcOpeningElement
    } else if k == 67 {
        IfcType::IfcOpeningStandardCase
    } else if k == 68 {
        IfcType::IfcVoidingFeature
    } else if k == 69 {
        IfcType::IfcProjectionElement
    } else if k == 70 {
        IfcType::IfcExtrudedAreaSolid
    } else if k == 71 {
        IfcType::IfcExtrudedAreaSolidTapered
    } else if k == 72 {
        IfcType::IfcRevolvedAreaSolid
    } else if k == 73 {
        IfcType::IfcRevolvedAreaSolidTapered
    } else if k == 74 {
        IfcType::IfcSweptDiskSolid
    } else if k == 75 {
        IfcType::IfcSweptDiskSolidPolygonal
    } else if k == 76 {
        IfcType::IfcSurfaceCurveSweptAreaSolid
    } else if k == 77 {
        IfcType::IfcFixedReferenceSweptAreaSolid
    } else if k == 78 {
        IfcType::IfcFacetedBrep
    } else if k == 79 {
        IfcType::IfcFacetedBrepWithVoids
    } else if k == 80 {
        IfcType::IfcAdvancedBrep
    } else if k == 81 {
        IfcType::IfcAdvancedBrepWithVoids
    } else if k == 82 {
        IfcType::IfcTriangulatedFaceSet
    } else if k == 83 {
        IfcType::IfcPolygonalFaceSet
    } else if k == 84 {
        IfcType::IfcTessellatedFaceSet
    } else if k == 85 {
        IfcType::IfcBooleanResult
    } else if k == 86 {
        IfcType::IfcBooleanClippingResult
    } else if k == 87 {
        IfcType::IfcMappedItem
    } else if k == 88 {
        IfcType::IfcRepresentationMap
    } else if k == 89 {
        IfcType::IfcBlock
    } else if k == 90 {
        IfcType::IfcRectangularPyramid
    } else if k == 91 {
        IfcType::IfcRightCircularCone
    } else if k == 92 {
        IfcType::IfcRightCircularCylinder
    } else if k == 93 {
        IfcType::IfcSphere
    } else if k == 94 {
        IfcType::IfcHalfSpaceSolid
    } else if k == 95 {
        IfcType::IfcPolygonalBoundedHalfSpace
    } else if k == 96 {
        IfcType::IfcBoxedHalfSpace
    } else if k == 97 {
        IfcType::IfcArbitraryClosedProfileDef
    } else if k == 98 {
        IfcType::IfcArbitraryProfileDefWithVoids
    } else if k == 99 {
        IfcType::IfcRectangleProfileDef
    } else if k == 100 {
        IfcType::IfcRectangleHollowProfileDef
    } else if k == 101 {
        IfcType::IfcCircleProfileDef
    } else if k == 102 {
        IfcType::IfcCircleHollowProfileDef
    } else if k == 103 {
        IfcType::IfcEllipseProfileDef
    } else if k == 104 {
        IfcType::IfcIShapeProfileDef
    } else if k == 105 {
        IfcType::IfcLShapeProfileDef
    } else if k == 106 {
        IfcType::IfcTShapeProfileDef
    } else if k == 107 {
        IfcType::IfcUShapeProfileDef
    } else if k == 108 {
        IfcType::IfcCShapeProfileDef
    } else if k == 109 {
        IfcType::IfcZShapeProfileDef
    } else if k == 110 {
        IfcType::IfcAsymmetricIShapeProfileDef
    } else if k == 111 {
        IfcType::IfcTrapeziumProfileDef
    } else if k == 112 {
        IfcType::IfcCompositeProfileDef
    } else if k == 113 {
        IfcType::IfcDerivedProfileDef
    } else if k == 114 {
        IfcType::IfcCenterLineProfileDef
    } else if k == 115 {
        IfcType::IfcPolyline
    } else if k == 116 {
        IfcType::IfcCompositeCurve
    } else if k == 117 {
        IfcType::IfcCompositeCurveSegment
    } else if k == 118 {
        IfcType::IfcTrimmedCurve
    } else if k == 119 {
        IfcType::IfcCircle
    } else if k == 120 {
        IfcType::IfcEllipse
    } else if k == 121 {
        IfcType::IfcLine
    } else if k == 122 {
        IfcType::IfcBSplineCurve
    } else if k == 123 {
        IfcType::IfcBSplineCurveWithKnots
    } else if k == 124 {
        IfcType::IfcRationalBSplineCurveWithKnots
    } else if k == 125 {
        IfcType::IfcIndexedPolyCurve
    } else if k == 126 {
        IfcType::IfcPlane
    } else if k == 127 {
        IfcType::IfcCurveBoundedPlane
    } else if k == 128 {
        IfcType::IfcCylindricalSurface
    } else if k == 129 {
        IfcType::IfcBSplineSurface
    } else if k == 130 {
        IfcType::IfcBSplineSurfaceWithKnots
    } else if k == 131 {
        IfcType::IfcRationalBSplineSurfaceWithKnots
    } else if k == 132 {
        IfcType::IfcCartesianPoint
    } else if k == 133 {
        IfcType::IfcDirection
    } else if k == 134 {
        IfcType::IfcVector
    } else if k == 135 {
        IfcType::IfcCartesianPointList2D
    } else if k == 136 {
        IfcType::IfcCartesianPointList3D
    } else if k == 137 {
        IfcType::IfcAxis2Placement2D
    } else if k == 138 {
        IfcType::IfcAxis2Placement3D
    } else if k == 139 {
        IfcType::IfcLocalPlacement
    } else if k == 140 {
        IfcType::IfcCartesianTransformationOperator3D
    } else if k == 141 {
        IfcType::IfcCartesianTransformationOperator3DnonUniform
    } else if k == 142 {
        IfcType::IfcShapeRepresentation
    } else if k == 143 {
        IfcType::IfcProductDefinitionShape
    } else if k == 144 {
        IfcType::IfcGeometricRepresentationContext
    } else if k == 145 {
        IfcType::IfcGeometricRepresentationSubContext
    } else if k == 146 {
        IfcType::IfcClosedShell
    } else if k == 147 {
        IfcType::IfcOpenShell
    } else if k == 148 {
        IfcType::IfcFace
    } else if k == 149 {
        IfcType::IfcFaceBound
    } else if k == 150 {
        IfcType::IfcFaceOuterBound
    } else if k == 151 {
        IfcType::IfcPolyLoop
    } else if k == 152 {
        IfcType::IfcEdgeLoop
    } else if k == 153 {
        IfcType::IfcOrientedEdge
    } else if k == 154 {
        IfcType::IfcEdgeCurve
    } else if k == 155 {
        IfcType::IfcVertexPoint
    } else if k == 156 {
        IfcType::IfcConnectedFaceSet
    } else if k == 157 {
        IfcType::IfcRelContainedInSpatialStructure
    } else if k == 158 {
        IfcType::IfcRelAggregates
    } else if k == 159 {
        IfcType::IfcRelDefinesByProperties
    } else if k == 160 {
        IfcType::IfcRelDefinesByType
    } else if k == 161 {
        IfcType::IfcRelAssociatesMaterial
    } else if k == 162 {
        IfcType::IfcRelVoidsElement
    } else if k == 163 {
        IfcType::IfcRelFillsElement
    } else if k == 164 {
        IfcType::IfcRelConnectsPathElements
    } else if k == 165 {
        IfcType::IfcRelSpaceBoundary
    } else if k == 166 {
        IfcType::IfcRelAssignsToGroup
    } else if k == 167 {
        IfcType::IfcPropertySet
    } else if k == 168 {
        IfcType::IfcPropertySingleValue
    } else if k == 169 {
        IfcType::IfcPropertyEnumeratedValue
    } else if k == 170 {
        IfcType::IfcPropertyBoundedValue
    } else if k == 171 {
        IfcType::IfcPropertyListValue
    } else if k == 172 {
        IfcType::IfcPropertyTableValue
    } else if k == 173 {
        IfcType::IfcComplexProperty
    } else if k == 174 {
        IfcType::IfcElementQuantity
    } else if k == 175 {
        IfcType::IfcQuantityLength
    } else if k == 176 {
        IfcType::IfcQuantityArea
    } else if k == 177 {
        IfcType::IfcQuantityVolume
    } else if k == 178 {
        IfcType::IfcQuantityCount
    } else if k == 179 {
        IfcType::IfcQuantityWeight
    } else if k == 180 {
        IfcType::IfcQuantityTime
    } else if k == 181 {
        IfcType::IfcMaterial
    } else if k == 182 {
        IfcType::IfcMaterialLayer
    } else if k == 183 {
        IfcType::IfcMaterialLayerSet
    } else if k == 184 {
        IfcType::IfcMaterialLayerSetUsage
    } else if k == 185 {
        IfcType::IfcMaterialList
    } else if k == 186 {
        IfcType::IfcMaterialConstituentSet
    } else if k == 187 {
        IfcType::IfcMaterialConstituent
    } else if k == 188 {
        IfcType::IfcMaterialProfile
    } else if k == 189 {
        IfcType::IfcMaterialProfileSet
    } else if k == 190 {
        IfcType::IfcMaterialProfileSetUsage
    } else if k == 191 {
        IfcType::IfcStyledItem
    } else if k == 192 {
        IfcType::IfcSurfaceStyle
    } else if k == 193 {
        IfcType::IfcSurfaceStyleRendering
    } else if k == 194 {
        IfcType::IfcColourRgb
    } else if k == 195 {
        IfcType::IfcPresentationLayerAssignment
    } else if k == 196 {
        IfcType::IfcLightFixture
    } else if k == 197 {
        IfcType::IfcLightFixtureType
    } else if k == 198 {
        IfcType::IfcLightSource
    } else if k == 199 {
        IfcType::IfcLightSourceAmbient
    } else if k == 200 {
        IfcType::IfcLightSourceDirectional
    } else if k == 201 {
        IfcType::IfcLightSourceGoniometric
    } else if k == 202 {
        IfcType::IfcLightSourcePositional
    } else if k == 203 {
        IfcType::IfcLightSourceSpot
    } else if k == 204 {
        IfcType::IfcLightIntensityDistribution
    } else if k == 205 {
        IfcType::IfcLightDistributionData
    } else if k == 206 {
        IfcType::IfcUnitAssignment
    } else if k == 207 {
        IfcType::IfcSIUnit
    } else if k == 208 {
        IfcType::IfcConversionBasedUnit
    } else if k == 209 {
        IfcType::IfcDerivedUnit
    } else if k == 210 {
        IfcType::IfcMeasureWithUnit
    } else if k == 211 {
        IfcType::IfcWallType
    } else if k == 212 {
        IfcType::IfcSlabType
    } else if k == 213 {
        IfcType::IfcBeamType
    } else if k == 214 {
        IfcType::IfcColumnType
    } else if k == 215 {
        IfcType::IfcDoorType
    } else if k == 216 {
        IfcType::IfcWindowType
    } else if k == 217 {
        IfcType::IfcCoveringType
    } else if k == 218 {
        IfcType::IfcRailingType
    } else if k == 219 {
        IfcType::IfcStairType
    } else if k == 220 {
        IfcType::IfcStairFlightType
    } else if k == 221 {
        IfcType::IfcRampType
    } else if k == 222 {
        IfcType::IfcRampFlightType
    } else if k == 223 {
        IfcType::IfcRoofType
    } else if k == 224 {
        IfcType::IfcMemberType
    } else if k == 225 {
        IfcType::IfcPlateType
    } else if k == 226 {
        IfcType::IfcFootingType
    } else if k == 227 {
        IfcType::IfcPileType
    } else if k == 228 {
        IfcType::IfcBuildingElementProxyType
    } else if k == 229 {
        IfcType::IfcAlignment
    } else if k == 230 {
        IfcType::IfcAlignmentCant
    } else if k == 231 {
        IfcType::IfcAlignmentHorizontal
    } else if k == 232 {
        IfcType::IfcAlignmentVertical
    } else if k == 233 {
        IfcType::IfcAlignmentSegment
    } else if k == 234 {
        IfcType::IfcRoad
    } else if k == 235 {
        IfcType::IfcRoadPart
    } else if k == 236 {
        IfcType::IfcBridge
    } else if k == 237 {
        IfcType::IfcBridgePart
    } else if k == 238 {
        IfcType::IfcRailway
    } else if k == 239 {
        IfcType::IfcRailwayPart
    } else if k == 240 {
        IfcType::IfcFacility
    } else if k == 241 {
        IfcType::IfcFacilityPart
    } else if k == 242 {
        IfcType::IfcGeotechnicalElement
    } else if k == 243 {
        IfcType::IfcBorehole
    } else if k == 244 {
        IfcType::IfcGeomodel
    } else if k == 245 {
        IfcType::IfcGeoslice
    } else if k == 246 {
        IfcType::IfcSolidStratum
    } else if k == 247 {
        IfcType::IfcVoidStratum
    } else if k == 248 {
        IfcType::IfcWaterStratum
    } else if k == 249 {
        IfcType::IfcEarthworksCut
    } else if k == 250 {
        IfcType::IfcEarthworksFill
    } else if k == 251 {
        IfcType::IfcEarthworksElement
    } else if k == 252 {
        IfcType::IfcPavement
    } else if k == 253 {
        IfcType::IfcCourse
    } else if k == 254 {
        IfcType::IfcKerb
    } else if k == 255 {
        IfcType::IfcDeepFoundation
    } else {
        IfcType::IfcRoot
    }
}

/// Named variants are determined by their declaration position.
pub proof fn lemma_tag_identifies(t: IfcType)
    ensures
        !(t is Unknown) ==> type_tag(t) < 256 && type_at_tag(type_tag(t)) == t,
        t is Unknown ==> type_tag(t) == 256,
{
}

/// Two types, at least one of them named, are equal exactly when their
/// declaration positions are.
pub proof fn lemma_tag_eq(a: IfcType, b: IfcType)
    requires
        !(a is Unknown),
    ensures
        (type_tag(a) == type_tag(b)) == (a == b),
{
    lemma_tag_identifies(a);
    lemma_tag_identifies(b);
}

/// Equality as `==` on `IfcType` computes it: named variants by variant,
/// unknown types by the characters of their names.
pub open spec fn type_eq(a: IfcType, b: IfcType) -> bool {
    match (a, b) {
        (IfcType::Unknown(x), IfcType::Unknown(y)) => x@ == y@,
        _ => a == b,
    }
}

impl IfcType {
    /// Direct parent in the EXPRESS inheritance graph, for the subtree rooted
    /// at `IfcRoot` that geometry eligibility depends on; `None` elsewhere.
    pub open spec fn spec_parent(self) -> Option<IfcType> {
        match self {
            IfcType::IfcObjectDefinition => Some(IfcType::IfcRoot),
            IfcType::IfcObject => Some(IfcType::IfcObjectDefinition),
            IfcType::IfcProduct => Some(IfcType::IfcObject),
            IfcType::IfcSpatialElement => Some(IfcType::IfcProduct),
            IfcType::IfcSpatialStructureElement => Some(IfcType::IfcSpatialElement),
            IfcType::IfcExternalSpatialStructureElement => Some(IfcType::IfcSpatialElement),
            IfcType::IfcExternalSpatialElement => Some(IfcType::IfcExternalSpatialStructureElement),
            IfcType::IfcSpatialZone => Some(IfcType::IfcSpatialElement),
            IfcType::IfcSite => Some(IfcType::IfcSpatialStructureElement),
            IfcType::IfcBuilding => Some(IfcType::IfcSpatialStructureElement),
            IfcType::IfcBuildingStorey => Some(IfcType::IfcSpatialStructureElement),
            IfcType::IfcSpace => Some(IfcType::IfcSpatialStructureElement),
            IfcType::IfcFacility => Some(IfcType::IfcSpatialStructureElement),
            IfcType::IfcFacilityPart => Some(IfcType::IfcSpatialStructureElement),
            IfcType::IfcBridge => Some(IfcType::IfcFacility),
            IfcType::IfcBridgePart => Some(IfcType::IfcFacilityPart),
            IfcType::IfcRoad => Some(IfcType::IfcFacility),
            IfcType::IfcRoadPart => Some(IfcType::IfcFacilityPart),
            IfcType::IfcRailway => Some(IfcType::IfcFacility),
            IfcType::IfcRailwayPart => Some(IfcType::IfcFacilityPart),
            IfcType::IfcElement => Some(IfcType::IfcProduct),
            IfcType::IfcBuiltElement => Some(IfcType::IfcElement),
            IfcType::IfcCivilElement => Some(IfcType::IfcElement),
            IfcType::IfcGeographicElement => Some(IfcType::IfcElement),
            IfcType::IfcAnnotation => Some(IfcType::IfcProduct),
            IfcType::IfcPort => Some(IfcType::IfcProduct),
            IfcType::IfcElementAssembly => Some(IfcType::IfcElement),
            IfcType::IfcFurnishingElement => Some(IfcType::IfcElement),
            IfcType::IfcFurniture => Some(IfcType::IfcFurnishingElement),
            IfcType::IfcSystemFurnitureElement => Some(IfcType::IfcFurnishingElement),
            IfcType::IfcBuildingElementProxy => Some(IfcType::IfcBuiltElement),
            IfcType::IfcWall => Some(IfcType::IfcBuiltElement),
            IfcType::IfcWallStandardCase => Some(IfcType::IfcWall),
            IfcType::IfcCurtainWall => Some(IfcType::IfcBuiltElement),
            IfcType::IfcSlab => Some(IfcType::IfcBuiltElement),
            IfcType::IfcRoof => Some(IfcType::IfcBuiltElement),
            IfcType::IfcBeam => Some(IfcType::IfcBuiltElement),
            IfcType::IfcColumn => Some(IfcType::IfcBuiltElement),
            IfcType::IfcDoor => Some(IfcType::IfcBuiltElement),
            IfcType::IfcWindow => Some(IfcType::IfcBuiltElement),
            IfcType::IfcStair => Some(IfcType::IfcBuiltElement),
            IfcType::IfcStairFlight => Some(IfcType::IfcBuiltElement),
            IfcType::IfcRamp => Some(IfcType::IfcBuiltElement),
            IfcType::IfcRampFlight => Some(IfcType::IfcBuiltElement),
            IfcType::IfcRailing => Some(IfcType::IfcBuiltElement),
            IfcType::IfcCovering => Some(IfcType::IfcBuiltElement),
            IfcType::IfcPlate => Some(IfcType::IfcBuiltElement),
            IfcType::IfcMember => Some(IfcType::IfcBuiltElement),
            IfcType::IfcFooting => Some(IfcType::IfcBuiltElement),
            IfcType::IfcPile => Some(IfcType::IfcBuiltElement),
            IfcType::IfcDeepFoundation => Some(IfcType::IfcBuiltElement),
            IfcType::IfcFeatureElement => Some(IfcType::IfcElement),
            IfcType::IfcFeatureElementSubtraction => Some(IfcType::IfcFeatureElement),
            IfcType::IfcFeatureElementAddition => Some(IfcType::IfcFeatureElement),
            IfcType::IfcOpeningElement => Some(IfcType::IfcFeatureElementSubtraction),
            IfcType::IfcOpeningStandardCase => Some(IfcType::IfcOpeningElement),
            IfcType::IfcVoidingFeature => Some(IfcType::IfcFeatureElementSubtraction),
            IfcType::IfcProjectionElement => Some(IfcType::IfcFeatureElementAddition),
            IfcType::IfcDistributionElement => Some(IfcType::IfcElement),
            IfcType::IfcDistributionFlowElement => Some(IfcType::IfcDistributionElement),
            IfcType::IfcDistributionControlElement => Some(IfcType::IfcDistributionElement),
            IfcType::IfcFlowSegment => Some(IfcType::IfcDistributionFlowElement),
            IfcType::IfcFlowFitting => Some(IfcType::IfcDistributionFlowElement),
            IfcType::IfcFlowTerminal => Some(IfcType::IfcDistributionFlowElement),
            IfcType::IfcFlowController => Some(IfcType::IfcDistributionFlowElement),
            IfcType::IfcFlowMovingDevice => Some(IfcType::IfcDistributionFlowElement),
            IfcType::IfcFlowStorageDevice => Some(IfcType::IfcDistributionFlowElement),
            IfcType::IfcFlowTreatmentDevice => Some(IfcType::IfcDistributionFlowElement),
            IfcType::IfcEnergyConversionDevice => Some(IfcType::IfcDistributionFlowElement),
            IfcType::IfcCableSegment => Some(IfcType::IfcFlowSegment),
            IfcType::IfcCableCarrierSegment => Some(IfcType::IfcFlowSegment),
            IfcType::IfcCableCarrierFitting => Some(IfcType::IfcFlowFitting),
            IfcType::IfcPipeSegment => Some(IfcType::IfcFlowSegment),
            IfcType::IfcPipeFitting => Some(IfcType::IfcFlowFitting),
            IfcType::IfcSpaceHeater => Some(IfcType::IfcEnergyConversionDevice),
            IfcType::IfcAirTerminal => Some(IfcType::IfcFlowTerminal),
            IfcType::IfcLightFixture => Some(IfcType::IfcFlowTerminal),
            IfcType::IfcGeotechnicalElement => Some(IfcType::IfcElement),
            IfcType::IfcGeotechnicalAssembly => Some(IfcType::IfcGeotechnicalElement),
            IfcType::IfcBorehole => Some(IfcType::IfcGeotechnicalAssembly),
            IfcType::IfcGeomodel => Some(IfcType::IfcGeotechnicalAssembly),
            IfcType::IfcGeoslice => Some(IfcType::IfcGeotechnicalAssembly),
            IfcType::IfcSolidStratum => Some(IfcType::IfcGeotechnicalElement),
            IfcType::IfcVoidStratum => Some(IfcType::IfcGeotechnicalElement),
            IfcType::IfcWaterStratum => Some(IfcType::IfcGeotechnicalElement),
            IfcType::IfcEarthworksElement => Some(IfcType::IfcElement),
            IfcType::IfcEarthworksCut => Some(IfcType::IfcFeatureElementSubtraction),
            IfcType::IfcEarthworksFill => Some(IfcType::IfcEarthworksElement),
            IfcType::IfcPavement => Some(IfcType::IfcBuiltElement),
            IfcType::IfcCourse => Some(IfcType::IfcBuiltElement),
            IfcType::IfcKerb => Some(IfcType::IfcBuiltElement),
            _ => None,
        }
    }

    /// Depth in the inheritance graph (number of parent steps to a root).
    pub open spec fn rank(self) -> nat {
        match self {
            IfcType::IfcObjectDefinition => 1,
            IfcType::IfcObject => 2,
            IfcType::IfcProduct => 3,
            IfcType::IfcElement => 4,
            IfcType::IfcBuiltElement => 5,
            IfcType::IfcSpatialElement => 4,
            IfcType::IfcSpatialStructureElement => 5,
            IfcType::IfcExternalSpatialStructureElement => 5,
            IfcType::IfcExternalSpatialElement => 6,
            IfcType::IfcSpatialZone => 5,
            IfcType::IfcCivilElement => 5,
            IfcType::IfcGeographicElement => 5,
            IfcType::IfcAnnotation => 4,
            IfcType::IfcPort => 4,
            IfcType::IfcFeatureElement => 5,
            IfcType::IfcFeatureElementAddition => 6,
            IfcType::IfcFeatureElementSubtraction => 6,
            IfcType::IfcGeotechnicalAssembly => 6,
            IfcType::IfcSite => 6,
            IfcType::IfcBuilding => 6,
            IfcType::IfcBuildingStorey => 6,
            IfcType::IfcSpace => 6,
            IfcType::IfcWall => 6,
            IfcType::IfcWallStandardCase => 7,
            IfcType::IfcCurtainWall => 6,
            IfcType::IfcSlab => 6,
            IfcType::IfcRoof => 6,
            IfcType::IfcBeam => 6,
            IfcType::IfcColumn => 6,
            IfcType::IfcDoor => 6,
            IfcType::IfcWindow => 6,
            IfcType::IfcStair => 6,
            IfcType::IfcStairFlight => 6,
            IfcType::IfcRamp => 6,
            IfcType::IfcRampFlight => 6,
            IfcType::IfcRailing => 6,
            IfcType::IfcCovering => 6,
            IfcType::IfcPlate => 6,
            IfcType::IfcMember => 6,
            IfcType::IfcFooting => 6,
            IfcType::IfcPile => 6,
            IfcType::IfcBuildingElementProxy => 6,
            IfcType::IfcElementAssembly => 5,
            IfcType::IfcDistributionElement => 5,
            IfcType::IfcDistributionFlowElement => 6,
            IfcType::IfcFlowTerminal => 7,
            IfcType::IfcFlowSegment => 7,
            IfcType::IfcFlowFitting => 7,
            IfcType::IfcFlowController => 7,
            IfcType::IfcFlowMovingDevice => 7,
            IfcType::IfcFlowStorageDevice => 7,
            IfcType::IfcFlowTreatmentDevice => 7,
            IfcType::IfcEnergyConversionDevice => 7,
            IfcType::IfcDistributionControlElement => 6,
            IfcType::IfcCableSegment => 8,
            IfcType::IfcCableCarrierSegment => 8,
            IfcType::IfcCableCarrierFitting => 8,
            IfcType::IfcPipeSegment => 8,
            IfcType::IfcPipeFitting => 8,
            IfcType::IfcSpaceHeater => 8,
            IfcType::IfcAirTerminal => 8,
            IfcType::IfcFurnishingElement => 5,
            IfcType::IfcFurniture => 6,
            IfcType::IfcSystemFurnitureElement => 6,
            IfcType::IfcOpeningElement => 7,
            IfcType::IfcOpeningStandardCase => 8,
            IfcType::IfcVoidingFeature => 7,
            IfcType::IfcProjectionElement => 7,
            IfcType::IfcLightFixture => 8,
            IfcType::IfcRoad => 7,
            IfcType::IfcRoadPart => 7,
            IfcType::IfcBridge => 7,
            IfcType::IfcBridgePart => 7,
            IfcType::IfcRailway => 7,
            IfcType::IfcRailwayPart => 7,
            IfcType::IfcFacility => 6,
            IfcType::IfcFacilityPart => 6,
            IfcType::IfcGeotechnicalElement => 5,
            IfcType::IfcBorehole => 7,
            IfcType::IfcGeomodel => 7,
            IfcType::IfcGeoslice => 7,
            IfcType::IfcSolidStratum => 6,
            IfcType::IfcVoidStratum => 6,
            IfcType::IfcWaterStratum => 6,
            IfcType::IfcEarthworksCut => 7,
            IfcType::IfcEarthworksFill => 6,
            IfcType::IfcEarthworksElement => 5,
            IfcType::IfcPavement => 6,
            IfcType::IfcCourse => 6,
            IfcType::IfcKerb => 6,
            IfcType::IfcDeepFoundation => 6,
            _ => 0,
        }
    }

    /// The type name: the stored string of an unknown type, else the
    /// upper-case wire name (the variant name in upper case).
    pub open spec fn spec_name(self) -> Seq<char> {
        match self {
            IfcType::Unknown(s) => s@,
            IfcType::IfcRoot => "IFCROOT"@,
            IfcType::IfcObjectDefinition => "IFCOBJECTDEFINITION"@,
            IfcType::IfcObject => "IFCOBJECT"@,
            IfcType::IfcProduct => "IFCPRODUCT"@,
            IfcType::IfcElement => "IFCELEMENT"@,
            IfcType::IfcBuiltElement => "IFCBUILTELEMENT"@,
            IfcType::IfcSpatialElement => "IFCSPATIALELEMENT"@,
            IfcType::IfcSpatialStructureElement => "IFCSPATIALSTRUCTUREELEMENT"@,
            IfcType::IfcExternalSpatialStructureElement => "IFCEXTERNALSPATIALSTRUCTUREELEMENT"@,
            IfcType::IfcExternalSpatialElement => "IFCEXTERNALSPATIALELEMENT"@,
            IfcType::IfcSpatialZone => "IFCSPATIALZONE"@,
            IfcType::IfcCivilElement => "IFCCIVILELEMENT"@,
            IfcType::IfcGeographicElement => "IFCGEOGRAPHICELEMENT"@,
            IfcType::IfcAnnotation => "IFCANNOTATION"@,
            IfcType::IfcPort => "IFCPORT"@,
            IfcType::IfcFeatureElement => "IFCFEATUREELEMENT"@,
            IfcType::IfcFeatureElementAddition => "IFCFEATUREELEMENTADDITION"@,
            IfcType::IfcFeatureElementSubtraction => "IFCFEATUREELEMENTSUBTRACTION"@,
            IfcType::IfcGeotechnicalAssembly => "IFCGEOTECHNICALASSEMBLY"@,
            IfcType::IfcProject => "IFCPROJECT"@,
            IfcType::IfcSite => "IFCSITE"@,
            IfcType::IfcBuilding => "IFCBUILDING"@,
            IfcType::IfcBuildingStorey => "IFCBUILDINGSTOREY"@,
            IfcType::IfcSpace => "IFCSPACE"@,
            IfcType::IfcWall => "IFCWALL"@,
            IfcType::IfcWallStandardCase => "IFCWALLSTANDARDCASE"@,
            IfcType::IfcCurtainWall => "IFCCURTAINWALL"@,
            IfcType::IfcSlab => "IFCSLAB"@,
            IfcType::IfcRoof => "IFCROOF"@,
            IfcType::IfcBeam => "IFCBEAM"@,
            IfcType::IfcColumn => "IFCCOLUMN"@,
            IfcType::IfcDoor => "IFCDOOR"@,
            IfcType::IfcWindow => "IFCWINDOW"@,
            IfcType::IfcStair => "IFCSTAIR"@,
            IfcType::IfcStairFlight => "IFCSTAIRFLIGHT"@,
            IfcType::IfcRamp => "IFCRAMP"@,
            IfcType::IfcRampFlight => "IFCRAMPFLIGHT"@,
            IfcType::IfcRailing => "IFCRAILING"@,
            IfcType::IfcCovering => "IFCCOVERING"@,
            IfcType::IfcPlate => "IFCPLATE"@,
            IfcType::IfcMember => "IFCMEMBER"@,
            IfcType::IfcFooting => "IFCFOOTING"@,
            IfcType::IfcPile => "IFCPILE"@,
            IfcType::IfcBuildingElementProxy => "IFCBUILDINGELEMENTPROXY"@,
            IfcType::IfcElementAssembly => "IFCELEMENTASSEMBLY"@,
            IfcType::IfcDistributionElement => "IFCDISTRIBUTIONELEMENT"@,
            IfcType::IfcDistributionFlowElement => "IFCDISTRIBUTIONFLOWELEMENT"@,
            IfcType::IfcFlowTerminal => "IFCFLOWTERMINAL"@,
            IfcType::IfcFlowSegment => "IFCFLOWSEGMENT"@,
            IfcType::IfcFlowFitting => "IFCFLOWFITTING"@,
            IfcType::IfcFlowController => "IFCFLOWCONTROLLER"@,
            IfcType::IfcFlowMovingDevice => "IFCFLOWMOVINGDEVICE"@,
            IfcType::IfcFlowStorageDevice => "IFCFLOWSTORAGEDEVICE"@,
            IfcType::IfcFlowTreatmentDevice => "IFCFLOWTREATMENTDEVICE"@,
            IfcType::IfcEnergyConversionDevice => "IFCENERGYCONVERSIONDEVICE"@,
            IfcType::IfcDistributionControlElement => "IFCDISTRIBUTIONCONTROLELEMENT"@,
            IfcType::IfcCableSegment => "IFCCABLESEGMENT"@,
            IfcType::IfcCableCarrierSegment => "IFCCABLECARRIERSEGMENT"@,
            IfcType::IfcCableCarrierFitting => "IFCCABLECARRIERFITTING"@,
            IfcType::IfcPipeSegment => "IFCPIPESEGMENT"@,
            IfcType::IfcPipeFitting => "IFCPIPEFITTING"@,
            IfcType::IfcSpaceHeater => "IFCSPACEHEATER"@,
            IfcType::IfcAirTerminal => "IFCAIRTERMINAL"@,
            IfcType::IfcFurnishingElement => "IFCFURNISHINGELEMENT"@,
            IfcType::IfcFurniture => "IFCFURNITURE"@,
            IfcType::IfcSystemFurnitureElement => "IFCSYSTEMFURNITUREELEMENT"@,
            IfcType::IfcOpeningElement => "IFCOPENINGELEMENT"@,
            IfcType::IfcOpeningStandardCase => "IFCOPENINGSTANDARDCASE"@,
            IfcType::IfcVoidingFeature => "IFCVOIDINGFEATURE"@,
            IfcType::IfcProjectionElement => "IFCPROJECTIONELEMENT"@,
            IfcType::IfcExtrudedAreaSolid => "IFCEXTRUDEDAREASOLID"@,
            IfcType::IfcExtrudedAreaSolidTapered => "IFCEXTRUDEDAREASOLIDTAPERED"@,
            IfcType::IfcRevolvedAreaSolid => "IFCREVOLVEDAREASOLID"@,
            IfcType::IfcRevolvedAreaSolidTapered => "IFCREVOLVEDAREASOLIDTAPERED"@,
            IfcType::IfcSweptDiskSolid => "IFCSWEPTDISKSOLID"@,
            IfcType::IfcSweptDiskSolidPolygonal => "IFCSWEPTDISKSOLIDPOLYGONAL"@,
            IfcType::IfcSurfaceCurveSweptAreaSolid => "IFCSURFACECURVESWEPTAREASOLID"@,
            IfcType::IfcFixedReferenceSweptAreaSolid => "IFCFIXEDREFERENCESWEPTAREASOLID"@,
            IfcType::IfcFacetedBrep => "IFCFACETEDBREP"@,
            IfcType::IfcFacetedBrepWithVoids => "IFCFACETEDBREPWITHVOIDS"@,
            IfcType::IfcAdvancedBrep => "IFCADVANCEDBREP"@,
            IfcType::IfcAdvancedBrepWithVoids => "IFCADVANCEDBREPWITHVOIDS"@,
            IfcType::IfcTriangulatedFaceSet => "IFCTRIANGULATEDFACESET"@,
            IfcType::IfcPolygonalFaceSet => "IFCPOLYGONALFACESET"@,
            IfcType::IfcTessellatedFaceSet => "IFCTESSELLATEDFACESET"@,
            IfcType::IfcBooleanResult => "IFCBOOLEANRESULT"@,
            IfcType::IfcBooleanClippingResult => "IFCBOOLEANCLIPPINGRESULT"@,
            IfcType::IfcMappedItem => "IFCMAPPEDITEM"@,
            IfcType::IfcRepresentationMap => "IFCREPRESENTATIONMAP"@,
            IfcType::IfcBlock => "IFCBLOCK"@,
            IfcType::IfcRectangularPyramid => "IFCRECTANGULARPYRAMID"@,
            IfcType::IfcRightCircularCone => "IFCRIGHTCIRCULARCONE"@,
            IfcType::IfcRightCircularCylinder => "IFCRIGHTCIRCULARCYLINDER"@,
            IfcType::IfcSphere => "IFCSPHERE"@,
            IfcType::IfcHalfSpaceSolid => "IFCHALFSPACESOLID"@,
            IfcType::IfcPolygonalBoundedHalfSpace => "IFCPOLYGONALBOUNDEDHALFSPACE"@,
            IfcType::IfcBoxedHalfSpace => "IFCBOXEDHALFSPACE"@,
            IfcType::IfcArbitraryClosedProfileDef => "IFCARBITRARYCLOSEDPROFILEDEF"@,
            IfcType::IfcArbitraryProfileDefWithVoids => "IFCARBITRARYPROFILEDEFWITHVOIDS"@,
            IfcType::IfcRectangleProfileDef => "IFCRECTANGLEPROFILEDEF"@,
            IfcType::IfcRectangleHollowProfileDef => "IFCRECTANGLEHOLLOWPROFILEDEF"@,
            IfcType::IfcCircleProfileDef => "IFCCIRCLEPROFILEDEF"@,
            IfcType::IfcCircleHollowProfileDef => "IFCCIRCLEHOLLOWPROFILEDEF"@,
            IfcType::IfcEllipseProfileDef => "IFCELLIPSEPROFILEDEF"@,
            IfcType::IfcIShapeProfileDef => "IFCISHAPEPROFILEDEF"@,
            IfcType::IfcLShapeProfileDef => "IFCLSHAPEPROFILEDEF"@,
            IfcType::IfcTShapeProfileDef => "IFCTSHAPEPROFILEDEF"@,
            IfcType::IfcUShapeProfileDef => "IFCUSHAPEPROFILEDEF"@,
            IfcType::IfcCShapeProfileDef => "IFCCSHAPEPROFILEDEF"@,
            IfcType::IfcZShapeProfileDef => "IFCZSHAPEPROFILEDEF"@,
            IfcType::IfcAsymmetricIShapeProfileDef => "IFCASYMMETRICISHAPEPROFILEDEF"@,
            IfcType::IfcTrapeziumProfileDef => "IFCTRAPEZIUMPROFILEDEF"@,
            IfcType::IfcCompositeProfileDef => "IFCCOMPOSITEPROFILEDEF"@,
            IfcType::IfcDerivedProfileDef => "IFCDERIVEDPROFILEDEF"@,
            IfcType::IfcCenterLineProfileDef => "IFCCENTERLINEPROFILEDEF"@,
            IfcType::IfcPolyline => "IFCPOLYLINE"@,
            IfcType::IfcCompositeCurve => "IFCCOMPOSITECURVE"@,
            IfcType::IfcCompositeCurveSegment => "IFCCOMPOSITECURVESEGMENT"@,
            IfcType::IfcTrimmedCurve => "IFCTRIMMEDCURVE"@,
            IfcType::IfcCircle => "IFCCIRCLE"@,
            IfcType::IfcEllipse => "IFCELLIPSE"@,
            IfcType::IfcLine => "IFCLINE"@,
            IfcType::IfcBSplineCurve => "IFCBSPLINECURVE"@,
            IfcType::IfcBSplineCurveWithKnots => "IFCBSPLINECURVEWITHKNOTS"@,
            IfcType::IfcRationalBSplineCurveWithKnots => "IFCRATIONALBSPLINECURVEWITHKNOTS"@,
            IfcType::IfcIndexedPolyCurve => "IFCINDEXEDPOLYCURVE"@,
            IfcType::IfcPlane => "IFCPLANE"@,
            IfcType::IfcCurveBoundedPlane => "IFCCURVEBOUNDEDPLANE"@,
            IfcType::IfcCylindricalSurface => "IFCCYLINDRICALSURFACE"@,
            IfcType::IfcBSplineSurface => "IFCBSPLINESURFACE"@,
            IfcType::IfcBSplineSurfaceWithKnots => "IFCBSPLINESURFACEWITHKNOTS"@,
            IfcType::IfcRationalBSplineSurfaceWithKnots => "IFCRATIONALBSPLINESURFACEWITHKNOTS"@,
            IfcType::IfcCartesianPoint => "IFCCARTESIANPOINT"@,
            IfcType::IfcDirection => "IFCDIRECTION"@,
            IfcType::IfcVector => "IFCVECTOR"@,
            IfcType::IfcCartesianPointList2D => "IFCCARTESIANPOINTLIST2D"@,
            IfcType::IfcCartesianPointList3D => "IFCCARTESIANPOINTLIST3D"@,
            IfcType::IfcAxis2Placement2D => "IFCAXIS2PLACEMENT2D"@,
            IfcType::IfcAxis2Placement3D => "IFCAXIS2PLACEMENT3D"@,
            IfcType::IfcLocalPlacement => "IFCLOCALPLACEMENT"@,
            IfcType::IfcCartesianTransformationOperator3D => "IFCCARTESIANTRANSFORMATIONOPERATOR3D"@,
            IfcType::IfcCartesianTransformationOperator3DnonUniform => "IFCCARTESIANTRANSFORMATIONOPERATOR3DNONUNIFORM"@,
            IfcType::IfcShapeRepresentation => "IFCSHAPEREPRESENTATION"@,
            IfcType::IfcProductDefinitionShape => "IFCPRODUCTDEFINITIONSHAPE"@,
            IfcType::IfcGeometricRepresentationContext => "IFCGEOMETRICREPRESENTATIONCONTEXT"@,
            IfcType::IfcGeometricRepresentationSubContext => "IFCGEOMETRICREPRESENTATIONSUBCONTEXT"@,
            IfcType::IfcClosedShell => "IFCCLOSEDSHELL"@,
            IfcType::IfcOpenShell => "IFCOPENSHELL"@,
            IfcType::IfcFace => "IFCFACE"@,
            IfcType::IfcFaceBound => "IFCFACEBOUND"@,
            IfcType::IfcFaceOuterBound => "IFCFACEOUTERBOUND"@,
            IfcType::IfcPolyLoop => "IFCPOLYLOOP"@,
            IfcType::IfcEdgeLoop => "IFCEDGELOOP"@,
            IfcType::IfcOrientedEdge => "IFCORIENTEDEDGE"@,
            IfcType::IfcEdgeCurve => "IFCEDGECURVE"@,
            IfcType::IfcVertexPoint => "IFCVERTEXPOINT"@,
            IfcType::IfcConnectedFaceSet => "IFCCONNECTEDFACESET"@,
            IfcType::IfcRelContainedInSpatialStructure => "IFCRELCONTAINEDINSPATIALSTRUCTURE"@,
            IfcType::IfcRelAggregates => "IFCRELAGGREGATES"@,
            IfcType::IfcRelDefinesByProperties => "IFCRELDEFINESBYPROPERTIES"@,
            IfcType::IfcRelDefinesByType => "IFCRELDEFINESBYTYPE"@,
            IfcType::IfcRelAssociatesMaterial => "IFCRELASSOCIATESMATERIAL"@,
            IfcType::IfcRelVoidsElement => "IFCRELVOIDSELEMENT"@,
            IfcType::IfcRelFillsElement => "IFCRELFILLSELEMENT"@,
            IfcType::IfcRelConnectsPathElements => "IFCRELCONNECTSPATHELEMENTS"@,
            IfcType::IfcRelSpaceBoundary => "IFCRELSPACEBOUNDARY"@,
            IfcType::IfcRelAssignsToGroup => "IFCRELASSIGNSTOGROUP"@,
            IfcType::IfcPropertySet => "IFCPROPERTYSET"@,
            IfcType::IfcPropertySingleValue => "IFCPROPERTYSINGLEVALUE"@,
            IfcType::IfcPropertyEnumeratedValue => "IFCPROPERTYENUMERATEDVALUE"@,
            IfcType::IfcPropertyBoundedValue => "IFCPROPERTYBOUNDEDVALUE"@,
            IfcType::IfcPropertyListValue => "IFCPROPERTYLISTVALUE"@,
            IfcType::IfcPropertyTableValue => "IFCPROPERTYTABLEVALUE"@,
            IfcType::IfcComplexProperty => "IFCCOMPLEXPROPERTY"@,
            IfcType::IfcElementQuantity => "IFCELEMENTQUANTITY"@,
            IfcType::IfcQuantityLength => "IFCQUANTITYLENGTH"@,
            IfcType::IfcQuantityArea => "IFCQUANTITYAREA"@,
            IfcType::IfcQuantityVolume => "IFCQUANTITYVOLUME"@,
            IfcType::IfcQuantityCount => "IFCQUANTITYCOUNT"@,
            IfcType::IfcQuantityWeight => "IFCQUANTITYWEIGHT"@,
            IfcType::IfcQuantityTime => "IFCQUANTITYTIME"@,
            IfcType::IfcMaterial => "IFCMATERIAL"@,
            IfcType::IfcMaterialLayer => "IFCMATERIALLAYER"@,
            IfcType::IfcMaterialLayerSet => "IFCMATERIALLAYERSET"@,
            IfcType::IfcMaterialLayerSetUsage => "IFCMATERIALLAYERSETUSAGE"@,
            IfcType::IfcMaterialList => "IFCMATERIALLIST"@,
            IfcType::IfcMaterialConstituentSet => "IFCMATERIALCONSTITUENTSET"@,
            IfcType::IfcMaterialConstituent => "IFCMATERIALCONSTITUENT"@,
            IfcType::IfcMaterialProfile => "IFCMATERIALPROFILE"@,
            IfcType::IfcMaterialProfileSet => "IFCMATERIALPROFILESET"@,
            IfcType::IfcMaterialProfileSetUsage => "IFCMATERIALPROFILESETUSAGE"@,
            IfcType::IfcStyledItem => "IFCSTYLEDITEM"@,
            IfcType::IfcSurfaceStyle => "IFCSURFACESTYLE"@,
            IfcType::IfcSurfaceStyleRendering => "IFCSURFACESTYLERENDERING"@,
            IfcType::IfcColourRgb => "IFCCOLOURRGB"@,
            IfcType::IfcPresentationLayerAssignment => "IFCPRESENTATIONLAYERASSIGNMENT"@,
            IfcType::IfcLightFixture => "IFCLIGHTFIXTURE"@,
            IfcType::IfcLightFixtureType => "IFCLIGHTFIXTURETYPE"@,
            IfcType::IfcLightSource => "IFCLIGHTSOURCE"@,
            IfcType::IfcLightSourceAmbient => "IFCLIGHTSOURCEAMBIENT"@,
            IfcType::IfcLightSourceDirectional => "IFCLIGHTSOURCEDIRECTIONAL"@,
            IfcType::IfcLightSourceGoniometric => "IFCLIGHTSOURCEGONIOMETRIC"@,
            IfcType::IfcLightSourcePositional => "IFCLIGHTSOURCEPOSITIONAL"@,
            IfcType::IfcLightSourceSpot => "IFCLIGHTSOURCESPOT"@,
            IfcType::IfcLightIntensityDistribution => "IFCLIGHTINTENSITYDISTRIBUTION"@,
            IfcType::IfcLightDistributionData => "IFCLIGHTDISTRIBUTIONDATA"@,
            IfcType::IfcUnitAssignment => "IFCUNITASSIGNMENT"@,
            IfcType::IfcSIUnit => "IFCSIUNIT"@,
            IfcType::IfcConversionBasedUnit => "IFCCONVERSIONBASEDUNIT"@,
            IfcType::IfcDerivedUnit => "IFCDERIVEDUNIT"@,
            IfcType::IfcMeasureWithUnit => "IFCMEASUREWITHUNIT"@,
            IfcType::IfcWallType => "IFCWALLTYPE"@,
            IfcType::IfcSlabType => "IFCSLABTYPE"@,
            IfcType::IfcBeamType => "IFCBEAMTYPE"@,
            IfcType::IfcColumnType => "IFCCOLUMNTYPE"@,
            IfcType::IfcDoorType => "IFCDOORTYPE"@,
            IfcType::IfcWindowType => "IFCWINDOWTYPE"@,
            IfcType::IfcCoveringType => "IFCCOVERINGTYPE"@,
            IfcType::IfcRailingType => "IFCRAILINGTYPE"@,
            IfcType::IfcStairType => "IFCSTAIRTYPE"@,
            IfcType::IfcStairFlightType => "IFCSTAIRFLIGHTTYPE"@,
            IfcType::IfcRampType => "IFCRAMPTYPE"@,
            IfcType::IfcRampFlightType => "IFCRAMPFLIGHTTYPE"@,
            IfcType::IfcRoofType => "IFCROOFTYPE"@,
            IfcType::IfcMemberType => "IFCMEMBERTYPE"@,
            IfcType::IfcPlateType => "IFCPLATETYPE"@,
            IfcType::IfcFootingType => "IFCFOOTINGTYPE"@,
            IfcType::IfcPileType => "IFCPILETYPE"@,
            IfcType::IfcBuildingElementProxyType => "IFCBUILDINGELEMENTPROXYTYPE"@,
            IfcType::IfcAlignment => "IFCALIGNMENT"@,
            IfcType::IfcAlignmentCant => "IFCALIGNMENTCANT"@,
            IfcType::IfcAlignmentHorizontal => "IFCALIGNMENTHORIZONTAL"@,
            IfcType::IfcAlignmentVertical => "IFCALIGNMENTVERTICAL"@,
            IfcType::IfcAlignmentSegment => "IFCALIGNMENTSEGMENT"@,
            IfcType::IfcRoad => "IFCROAD"@,
            IfcType::IfcRoadPart => "IFCROADPART"@,
            IfcType::IfcBridge => "IFCBRIDGE"@,
            IfcType::IfcBridgePart => "IFCBRIDGEPART"@,
            IfcType::IfcRailway => "IFCRAILWAY"@,
            IfcType::IfcRailwayPart => "IFCRAILWAYPART"@,
            IfcType::IfcFacility => "IFCFACILITY"@,
            IfcType::IfcFacilityPart => "IFCFACILITYPART"@,
            IfcType::IfcGeotechnicalElement => "IFCGEOTECHNICALELEMENT"@,
            IfcType::IfcBorehole => "IFCBOREHOLE"@,
            IfcType::IfcGeomodel => "IFCGEOMODEL"@,
            IfcType::IfcGeoslice => "IFCGEOSLICE"@,
            IfcType::IfcSolidStratum => "IFCSOLIDSTRATUM"@,
            IfcType::IfcVoidStratum => "IFCVOIDSTRATUM"@,
            IfcType::IfcWaterStratum => "IFCWATERSTRATUM"@,
            IfcType::IfcEarthworksCut => "IFCEARTHWORKSCUT"@,
            IfcType::IfcEarthworksFill => "IFCEARTHWORKSFILL"@,
            IfcType::IfcEarthworksElement => "IFCEARTHWORKSELEMENT"@,
            IfcType::IfcPavement => "IFCPAVEMENT"@,
            IfcType::IfcCourse => "IFCCOURSE"@,
            IfcType::IfcKerb => "IFCKERB"@,
            IfcType::IfcDeepFoundation => "IFCDEEPFOUNDATION"@,
        }
    }

    /// Is this one of the spatial structure types?
    pub open spec fn spec_is_spatial(self) -> bool {
        ||| self is IfcProject
        ||| self is IfcSite
        ||| self is IfcBuilding
        ||| self is IfcBuildingStorey
        ||| self is IfcSpace
        ||| self is IfcFacility
        ||| self is IfcFacilityPart
    }
}

/// Wire-name table, part 1 of 8.
pub open spec fn lookup_upper_0(u: Seq<char>) -> Option<IfcType> {
    if u == "IFCPROJECT"@ {
        Some(IfcType::IfcProject)
    } else if u == "IFCSITE"@ {
        Some(IfcType::IfcSite)
    } else if u == "IFCBUILDING"@ {
        Some(IfcType::IfcBuilding)
    } else if u == "IFCBUILDINGSTOREY"@ {
        Some(IfcType::IfcBuildingStorey)
    } else if u == "IFCSPACE"@ {
        Some(IfcType::IfcSpace)
    } else if u == "IFCWALL"@ {
        Some(IfcType::IfcWall)
    } else if u == "IFCWALLSTANDARDCASE"@ {
        Some(IfcType::IfcWallStandardCase)
    } else if u == "IFCCURTAINWALL"@ {
        Some(IfcType::IfcCurtainWall)
    } else if u == "IFCSLAB"@ {
        Some(IfcType::IfcSlab)
    } else if u == "IFCROOF"@ {
        Some(IfcType::IfcRoof)
    } else if u == "IFCBEAM"@ {
        Some(IfcType::IfcBeam)
    } else if u == "IFCCOLUMN"@ {
        Some(IfcType::IfcColumn)
    } else if u == "IFCDOOR"@ {
        Some(IfcType::IfcDoor)
    } else if u == "IFCWINDOW"@ {
        Some(IfcType::IfcWindow)
    } else if u == "IFCSTAIR"@ {
        Some(IfcType::IfcStair)
    } else if u == "IFCSTAIRFLIGHT"@ {
        Some(IfcType::IfcStairFlight)
    } else if u == "IFCRAMP"@ {
        Some(IfcType::IfcRamp)
    } else if u == "IFCRAMPFLIGHT"@ {
        Some(IfcType::IfcRampFlight)
    } else if u == "IFCRAILING"@ {
        Some(IfcType::IfcRailing)
    } else if u == "IFCCOVERING"@ {
        Some(IfcType::IfcCovering)
    } else if u == "IFCPLATE"@ {
        Some(IfcType::IfcPlate)
    } else if u == "IFCMEMBER"@ {
        Some(IfcType::IfcMember)
    } else if u == "IFCFOOTING"@ {
        Some(IfcType::IfcFooting)
    } else if u == "IFCPILE"@ {
        Some(IfcType::IfcPile)
    } else if u == "IFCBUILDINGELEMENTPROXY"@ {
        Some(IfcType::IfcBuildingElementProxy)
    } else if u == "IFCELEMENTASSEMBLY"@ {
        Some(IfcType::IfcElementAssembly)
    } else if u == "IFCDISTRIBUTIONELEMENT"@ {
        Some(IfcType::IfcDistributionElement)
    } else if u == "IFCDISTRIBUTIONFLOWELEMENT"@ {
        Some(IfcType::IfcDistributionFlowElement)
    } else if u == "IFCFLOWTERMINAL"@ {
        Some(IfcType::IfcFlowTerminal)
    } else if u == "IFCFLOWSEGMENT"@ {
        Some(IfcType::IfcFlowSegment)
    } else {
        None
    }
}

/// Wire-name table, part 2 of 8.
pub open spec fn lookup_upper_1(u: Seq<char>) -> Option<IfcType> {
    if u == "IFCFLOWFITTING"@ {
        Some(IfcType::IfcFlowFitting)
    } else if u == "IFCFLOWCONTROLLER"@ {
        Some(IfcType::IfcFlowController)
    } else if u == "IFCFLOWMOVINGDEVICE"@ {
        Some(IfcType::IfcFlowMovingDevice)
    } else if u == "IFCFLOWSTORAGEDEVICE"@ {
        Some(IfcType::IfcFlowStorageDevice)
    } else if u == "IFCFLOWTREATMENTDEVICE"@ {
        Some(IfcType::IfcFlowTreatmentDevice)
    } else if u == "IFCENERGYCONVERSIONDEVICE"@ {
        Some(IfcType::IfcEnergyConversionDevice)
    } else if u == "IFCDISTRIBUTIONCONTROLELEMENT"@ {
        Some(IfcType::IfcDistributionControlElement)
    } else if u == "IFCCABLESEGMENT"@ {
        Some(IfcType::IfcCableSegment)
    } else if u == "IFCCABLECARRIERSEGMENT"@ {
        Some(IfcType::IfcCableCarrierSegment)
    } else if u == "IFCCABLECARRIERFITTING"@ {
        Some(IfcType::IfcCableCarrierFitting)
    } else if u == "IFCPIPESEGMENT"@ {
        Some(IfcType::IfcPipeSegment)
    } else if u == "IFCPIPEFITTING"@ {
        Some(IfcType::IfcPipeFitting)
    } else if u == "IFCSPACEHEATER"@ {
        Some(IfcType::IfcSpaceHeater)
    } else if u == "IFCAIRTERMINAL"@ {
        Some(IfcType::IfcAirTerminal)
    } else if u == "IFCFURNISHINGELEMENT"@ {
        Some(IfcType::IfcFurnishingElement)
    } else if u == "IFCFURNITURE"@ {
        Some(IfcType::IfcFurniture)
    } else if u == "IFCSYSTEMFURNITUREELEMENT"@ {
        Some(IfcType::IfcSystemFurnitureElement)
    } else if u == "IFCOPENINGELEMENT"@ {
        Some(IfcType::IfcOpeningElement)
    } else if u == "IFCOPENINGSTANDARDCASE"@ {
        Some(IfcType::IfcOpeningStandardCase)
    } else if u == "IFCVOIDINGFEATURE"@ {
        Some(IfcType::IfcVoidingFeature)
    } else if u == "IFCPROJECTIONELEMENT"@ {
        Some(IfcType::IfcProjectionElement)
    } else if u == "IFCEXTRUDEDAREASOLID"@ {
        Some(IfcType::IfcExtrudedAreaSolid)
    } else if u == "IFCEXTRUDEDAREASOLIDTAPERED"@ {
        Some(IfcType::IfcExtrudedAreaSolidTapered)
    } else if u == "IFCREVOLVEDAREASOLID"@ {
        Some(IfcType::IfcRevolvedAreaSolid)
    } else if u == "IFCREVOLVEDAREASOLIDTAPERED"@ {
        Some(IfcType::IfcRevolvedAreaSolidTapered)
    } else if u == "IFCSWEPTDISKSOLID"@ {
        Some(IfcType::IfcSweptDiskSolid)
    } else if u == "IFCSWEPTDISKSOLIDPOLYGONAL"@ {
        Some(IfcType::IfcSweptDiskSolidPolygonal)
    } else if u == "IFCSURFACECURVESWEPTAREASOLID"@ {
        Some(IfcType::IfcSurfaceCurveSweptAreaSolid)
    } else if u == "IFCFIXEDREFERENCESWEPTAREASOLID"@ {
        Some(IfcType::IfcFixedReferenceSweptAreaSolid)
    } else if u == "IFCFACETEDBREP"@ {
        Some(IfcType::IfcFacetedBrep)
    } else {
        None
    }
}

/// Wire-name table, part 3 of 8.
pub open spec fn lookup_upper_2(u: Seq<char>) -> Option<IfcType> {
    if u == "IFCFACETEDBREPWITHVOIDS"@ {
        Some(IfcType::IfcFacetedBrepWithVoids)
    } else if u == "IFCADVANCEDBREP"@ {
        Some(IfcType::IfcAdvancedBrep)
    } else if u == "IFCADVANCEDBREPWITHVOIDS"@ {
        Some(IfcType::IfcAdvancedBrepWithVoids)
    } else if u == "IFCTRIANGULATEDFACESET"@ {
        Some(IfcType::IfcTriangulatedFaceSet)
    } else if u == "IFCPOLYGONALFACESET"@ {
        Some(IfcType::IfcPolygonalFaceSet)
    } else if u == "IFCTESSELLATEDFACESET"@ {
        Some(IfcType::IfcTessellatedFaceSet)
    } else if u == "IFCBOOLEANRESULT"@ {
        Some(IfcType::IfcBooleanResult)
    } else if u == "IFCBOOLEANCLIPPINGRESULT"@ {
        Some(IfcType::IfcBooleanClippingResult)
    } else if u == "IFCMAPPEDITEM"@ {
        Some(IfcType::IfcMappedItem)
    } else if u == "IFCREPRESENTATIONMAP"@ {
        Some(IfcType::IfcRepresentationMap)
    } else if u == "IFCBLOCK"@ {
        Some(IfcType::IfcBlock)
    } else if u == "IFCRECTANGULARPYRAMID"@ {
        Some(IfcType::IfcRectangularPyramid)
    } else if u == "IFCRIGHTCIRCULARCONE"@ {
        Some(IfcType::IfcRightCircularCone)
    } else if u == "IFCRIGHTCIRCULARCYLINDER"@ {
        Some(IfcType::IfcRightCircularCylinder)
    } else if u == "IFCSPHERE"@ {
        Some(IfcType::IfcSphere)
    } else if u == "IFCHALFSPACESOLID"@ {
        Some(IfcType::IfcHalfSpaceSolid)
    } else if u == "IFCPOLYGONALBOUNDEDHALFSPACE"@ {
        Some(IfcType::IfcPolygonalBoundedHalfSpace)
    } else if u == "IFCBOXEDHALFSPACE"@ {
        Some(IfcType::IfcBoxedHalfSpace)
    } else if u == "IFCARBITRARYCLOSEDPROFILEDEF"@ {
        Some(IfcType::IfcArbitraryClosedProfileDef)
    } else if u == "IFCARBITRARYPROFILEDEFWITHVOIDS"@ {
        Some(IfcType::IfcArbitraryProfileDefWithVoids)
    } else if u == "IFCRECTANGLEPROFILEDEF"@ {
        Some(IfcType::IfcRectangleProfileDef)
    } else if u == "IFCRECTANGLEHOLLOWPROFILEDEF"@ {
        Some(IfcType::IfcRectangleHollowProfileDef)
    } else if u == "IFCCIRCLEPROFILEDEF"@ {
        Some(IfcType::IfcCircleProfileDef)
    } else if u == "IFCCIRCLEHOLLOWPROFILEDEF"@ {
        Some(IfcType::IfcCircleHollowProfileDef)
    } else if u == "IFCELLIPSEPROFILEDEF"@ {
        Some(IfcType::IfcEllipseProfileDef)
    } else if u == "IFCISHAPEPROFILEDEF"@ {
        Some(IfcType::IfcIShapeProfileDef)
    } else if u == "IFCLSHAPEPROFILEDEF"@ {
        Some(IfcType::IfcLShapeProfileDef)
    } else if u == "IFCTSHAPEPROFILEDEF"@ {
        Some(IfcType::IfcTShapeProfileDef)
    } else if u == "IFCUSHAPEPROFILEDEF"@ {
        Some(IfcType::IfcUShapeProfileDef)
    } else if u == "IFCCSHAPEPROFILEDEF"@ {
        Some(IfcType::IfcCShapeProfileDef)
    } else {
        None
    }
}

/// Wire-name table, part 4 of 8.
pub open spec fn lookup_upper_3(u: Seq<char>) -> Option<IfcType> {
    if u == "IFCZSHAPEPROFILEDEF"@ {
        Some(IfcType::IfcZShapeProfileDef)
    } else if u == "IFCASYMMETRICISHAPEPROFILEDEF"@ {
        Some(IfcType::IfcAsymmetricIShapeProfileDef)
    } else if u == "IFCTRAPEZIUMPROFILEDEF"@ {
        Some(IfcType::IfcTrapeziumProfileDef)
    } else if u == "IFCCOMPOSITEPROFILEDEF"@ {
        Some(IfcType::IfcCompositeProfileDef)
    } else if u == "IFCDERIVEDPROFILEDEF"@ {
        Some(IfcType::IfcDerivedProfileDef)
    } else if u == "IFCCENTERLINEPROFILEDEF"@ {
        Some(IfcType::IfcCenterLineProfileDef)
    } else if u == "IFCPOLYLINE"@ {
        Some(IfcType::IfcPolyline)
    } else if u == "IFCCOMPOSITECURVE"@ {
        Some(IfcType::IfcCompositeCurve)
    } else if u == "IFCCOMPOSITECURVESEGMENT"@ {
        Some(IfcType::IfcCompositeCurveSegment)
    } else if u == "IFCTRIMMEDCURVE"@ {
        Some(IfcType::IfcTrimmedCurve)
    } else if u == "IFCCIRCLE"@ {
        Some(IfcType::IfcCircle)
    } else if u == "IFCELLIPSE"@ {
        Some(IfcType::IfcEllipse)
    } else if u == "IFCLINE"@ {
        Some(IfcType::IfcLine)
    } else if u == "IFCBSPLINECURVE"@ {
        Some(IfcType::IfcBSplineCurve)
    } else if u == "IFCBSPLINECURVEWITHKNOTS"@ {
        Some(IfcType::IfcBSplineCurveWithKnots)
    } else if u == "IFCRATIONALBSPLINECURVEWITHKNOTS"@ {
        Some(IfcType::IfcRationalBSplineCurveWithKnots)
    } else if u == "IFCINDEXEDPOLYCURVE"@ {
        Some(IfcType::IfcIndexedPolyCurve)
    } else if u == "IFCPLANE"@ {
        Some(IfcType::IfcPlane)
    } else if u == "IFCCURVEBOUNDEDPLANE"@ {
        Some(IfcType::IfcCurveBoundedPlane)
    } else if u == "IFCCYLINDRICALSURFACE"@ {
        Some(IfcType::IfcCylindricalSurface)
    } else if u == "IFCBSPLINESURFACE"@ {
        Some(IfcType::IfcBSplineSurface)
    } else if u == "IFCBSPLINESURFACEWITHKNOTS"@ {
        Some(IfcType::IfcBSplineSurfaceWithKnots)
    } else if u == "IFCRATIONALBSPLINESURFACEWITHKNOTS"@ {
        Some(IfcType::IfcRationalBSplineSurfaceWithKnots)
    } else if u == "IFCCARTESIANPOINT"@ {
        Some(IfcType::IfcCartesianPoint)
    } else if u == "IFCDIRECTION"@ {
        Some(IfcType::IfcDirection)
    } else if u == "IFCVECTOR"@ {
        Some(IfcType::IfcVector)
    } else if u == "IFCCARTESIANPOINTLIST2D"@ {
        Some(IfcType::IfcCartesianPointList2D)
    } else if u == "IFCCARTESIANPOINTLIST3D"@ {
        Some(IfcType::IfcCartesianPointList3D)
    } else if u == "IFCAXIS2PLACEMENT2D"@ {
        Some(IfcType::IfcAxis2Placement2D)
    } else if u == "IFCAXIS2PLACEMENT3D"@ {
        Some(IfcType::IfcAxis2Placement3D)
    } else {
        None
    }
}

/// Wire-name table, part 5 of 8.
pub open spec fn lookup_upper_4(u: Seq<char>) -> Option<IfcType> {
    if u == "IFCLOCALPLACEMENT"@ {
        Some(IfcType::IfcLocalPlacement)
    } else if u == "IFCCARTESIANTRANSFORMATIONOPERATOR3D"@ {
        Some(IfcType::IfcCartesianTransformationOperator3D)
    } else if u == "IFCSHAPEREPRESENTATION"@ {
        Some(IfcType::IfcShapeRepresentation)
    } else if u == "IFCPRODUCTDEFINITIONSHAPE"@ {
        Some(IfcType::IfcProductDefinitionShape)
    } else if u == "IFCGEOMETRICREPRESENTATIONCONTEXT"@ {
        Some(IfcType::IfcGeometricRepresentationContext)
    } else if u == "IFCGEOMETRICREPRESENTATIONSUBCONTEXT"@ {
        Some(IfcType::IfcGeometricRepresentationSubContext)
    } else if u == "IFCCLOSEDSHELL"@ {
        Some(IfcType::IfcClosedShell)
    } else if u == "IFCOPENSHELL"@ {
        Some(IfcType::IfcOpenShell)
    } else if u == "IFCFACE"@ {
        Some(IfcType::IfcFace)
    } else if u == "IFCFACEBOUND"@ {
        Some(IfcType::IfcFaceBound)
    } else if u == "IFCFACEOUTERBOUND"@ {
        Some(IfcType::IfcFaceOuterBound)
    } else if u == "IFCPOLYLOOP"@ {
        Some(IfcType::IfcPolyLoop)
    } else if u == "IFCEDGELOOP"@ {
        Some(IfcType::IfcEdgeLoop)
    } else if u == "IFCORIENTEDEDGE"@ {
        Some(IfcType::IfcOrientedEdge)
    } else if u == "IFCEDGECURVE"@ {
        Some(IfcType::IfcEdgeCurve)
    } else if u == "IFCVERTEXPOINT"@ {
        Some(IfcType::IfcVertexPoint)
    } else if u == "IFCCONNECTEDFACESET"@ {
        Some(IfcType::IfcConnectedFaceSet)
    } else if u == "IFCRELCONTAINEDINSPATIALSTRUCTURE"@ {
        Some(IfcType::IfcRelContainedInSpatialStructure)
    } else if u == "IFCRELAGGREGATES"@ {
        Some(IfcType::IfcRelAggregates)
    } else if u == "IFCRELDEFINESBYPROPERTIES"@ {
        Some(IfcType::IfcRelDefinesByProperties)
    } else if u == "IFCRELDEFINESBYTYPE"@ {
        Some(IfcType::IfcRelDefinesByType)
    } else if u == "IFCRELASSOCIATESMATERIAL"@ {
        Some(IfcType::IfcRelAssociatesMaterial)
    } else if u == "IFCRELVOIDSELEMENT"@ {
        Some(IfcType::IfcRelVoidsElement)
    } else if u == "IFCRELFILLSELEMENT"@ {
        Some(IfcType::IfcRelFillsElement)
    } else if u == "IFCRELCONNECTSPATHELEMENTS"@ {
        Some(IfcType::IfcRelConnectsPathElements)
    } else if u == "IFCRELSPACEBOUNDARY"@ {
        Some(IfcType::IfcRelSpaceBoundary)
    } else if u == "IFCRELASSIGNSTOGROUP"@ {
        Some(IfcType::IfcRelAssignsToGroup)
    } else if u == "IFCPROPERTYSET"@ {
        Some(IfcType::IfcPropertySet)
    } else if u == "IFCPROPERTYSINGLEVALUE"@ {
        Some(IfcType::IfcPropertySingleValue)
    } else if u == "IFCPROPERTYENUMERATEDVALUE"@ {
        Some(IfcType::IfcPropertyEnumeratedValue)
    } else {
        None
    }
}

/// Wire-name table, part 6 of 8.
pub open spec fn lookup_upper_5(u: Seq<char>) -> Option<IfcType> {
    if u == "IFCPROPERTYBOUNDEDVALUE"@ {
        Some(IfcType::IfcPropertyBoundedValue)
    } else if u == "IFCPROPERTYLISTVALUE"@ {
        Some(IfcType::IfcPropertyListValue)
    } else if u == "IFCPROPERTYTABLEVALUE"@ {
        Some(IfcType::IfcPropertyTableValue)
    } else if u == "IFCCOMPLEXPROPERTY"@ {
        Some(IfcType::IfcComplexProperty)
    } else if u == "IFCELEMENTQUANTITY"@ {
        Some(IfcType::IfcElementQuantity)
    } else if u == "IFCQUANTITYLENGTH"@ {
        Some(IfcType::IfcQuantityLength)
    } else if u == "IFCQUANTITYAREA"@ {
        Some(IfcType::IfcQuantityArea)
    } else if u == "IFCQUANTITYVOLUME"@ {
        Some(IfcType::IfcQuantityVolume)
    } else if u == "IFCQUANTITYCOUNT"@ {
        Some(IfcType::IfcQuantityCount)
    } else if u == "IFCQUANTITYWEIGHT"@ {
        Some(IfcType::IfcQuantityWeight)
    } else if u == "IFCQUANTITYTIME"@ {
        Some(IfcType::IfcQuantityTime)
    } else if u == "IFCMATERIAL"@ {
        Some(IfcType::IfcMaterial)
    } else if u == "IFCMATERIALLAYER"@ {
        Some(IfcType::IfcMaterialLayer)
    } else if u == "IFCMATERIALLAYERSET"@ {
        Some(IfcType::IfcMaterialLayerSet)
    } else if u == "IFCMATERIALLAYERSETUSAGE"@ {
        Some(IfcType::IfcMaterialLayerSetUsage)
    } else if u == "IFCMATERIALLIST"@ {
        Some(IfcType::IfcMaterialList)
    } else if u == "IFCMATERIALCONSTITUENTSET"@ {
        Some(IfcType::IfcMaterialConstituentSet)
    } else if u == "IFCMATERIALCONSTITUENT"@ {
        Some(IfcType::IfcMaterialConstituent)
    } else if u == "IFCMATERIALPROFILE"@ {
        Some(IfcType::IfcMaterialProfile)
    } else if u == "IFCMATERIALPROFILESET"@ {
        Some(IfcType::IfcMaterialProfileSet)
    } else if u == "IFCMATERIALPROFILESETUSAGE"@ {
        Some(IfcType::IfcMaterialProfileSetUsage)
    } else if u == "IFCSTYLEDITEM"@ {
        Some(IfcType::IfcStyledItem)
    } else if u == "IFCSURFACESTYLE"@ {
        Some(IfcType::IfcSurfaceStyle)
    } else if u == "IFCSURFACESTYLERENDERING"@ {
        Some(IfcType::IfcSurfaceStyleRendering)
    } else if u == "IFCCOLOURRGB"@ {
        Some(IfcType::IfcColourRgb)
    } else if u == "IFCPRESENTATIONLAYERASSIGNMENT"@ {
        Some(IfcType::IfcPresentationLayerAssignment)
    } else if u == "IFCLIGHTFIXTURE"@ {
        Some(IfcType::IfcLightFixture)
    } else if u == "IFCLIGHTFIXTURETYPE"@ {
        Some(IfcType::IfcLightFixtureType)
    } else if u == "IFCLIGHTSOURCE"@ {
        Some(IfcType::IfcLightSource)
    } else if u == "IFCLIGHTSOURCEAMBIENT"@ {
        Some(IfcType::IfcLightSourceAmbient)
    } else {
        None
    }
}

/// Wire-name table, part 7 of 8.
pub open spec fn lookup_upper_6(u: Seq<char>) -> Option<IfcType> {
    if u == "IFCLIGHTSOURCEDIRECTIONAL"@ {
        Some(IfcType::IfcLightSourceDirectional)
    } else if u == "IFCLIGHTSOURCEGONIOMETRIC"@ {
        Some(IfcType::IfcLightSourceGoniometric)
    } else if u == "IFCLIGHTSOURCEPOSITIONAL"@ {
        Some(IfcType::IfcLightSourcePositional)
    } else if u == "IFCLIGHTSOURCESPOT"@ {
        Some(IfcType::IfcLightSourceSpot)
    } else if u == "IFCLIGHTINTENSITYDISTRIBUTION"@ {
        Some(IfcType::IfcLightIntensityDistribution)
    } else if u == "IFCLIGHTDISTRIBUTIONDATA"@ {
        Some(IfcType::IfcLightDistributionData)
    } else if u == "IFCUNITASSIGNMENT"@ {
        Some(IfcType::IfcUnitAssignment)
    } else if u == "IFCSIUNIT"@ {
        Some(IfcType::IfcSIUnit)
    } else if u == "IFCCONVERSIONBASEDUNIT"@ {
        Some(IfcType::IfcConversionBasedUnit)
    } else if u == "IFCDERIVEDUNIT"@ {
        Some(IfcType::IfcDerivedUnit)
    } else if u == "IFCMEASUREWITHUNIT"@ {
        Some(IfcType::IfcMeasureWithUnit)
    } else if u == "IFCWALLTYPE"@ {
        Some(IfcType::IfcWallType)
    } else if u == "IFCSLABTYPE"@ {
        Some(IfcType::IfcSlabType)
    } else if u == "IFCBEAMTYPE"@ {
        Some(IfcType::IfcBeamType)
    } else if u == "IFCCOLUMNTYPE"@ {
        Some(IfcType::IfcColumnType)
    } else if u == "IFCDOORTYPE"@ {
        Some(IfcType::IfcDoorType)
    } else if u == "IFCWINDOWTYPE"@ {
        Some(IfcType::IfcWindowType)
    } else if u == "IFCCOVERINGTYPE"@ {
        Some(IfcType::IfcCoveringType)
    } else if u == "IFCRAILINGTYPE"@ {
        Some(IfcType::IfcRailingType)
    } else if u == "IFCSTAIRTYPE"@ {
        Some(IfcType::IfcStairType)
    } else if u == "IFCSTAIRFLIGHTTYPE"@ {
        Some(IfcType::IfcStairFlightType)
    } else if u == "IFCRAMPTYPE"@ {
        Some(IfcType::IfcRampType)
    } else if u == "IFCRAMPFLIGHTTYPE"@ {
        Some(IfcType::IfcRampFlightType)
    } else if u == "IFCROOFTYPE"@ {
        Some(IfcType::IfcRoofType)
    } else if u == "IFCMEMBERTYPE"@ {
        Some(IfcType::IfcMemberType)
    } else if u == "IFCPLATETYPE"@ {
        Some(IfcType::IfcPlateType)
    } else if u == "IFCFOOTINGTYPE"@ {
        Some(IfcType::IfcFootingType)
    } else if u == "IFCPILETYPE"@ {
        Some(IfcType::IfcPileType)
    } else if u == "IFCBUILDINGELEMENTPROXYTYPE"@ {
        Some(IfcType::IfcBuildingElementProxyType)
    } else if u == "IFCALIGNMENT"@ {
        Some(IfcType::IfcAlignment)
    } else {
        None
    }
}

/// Wire-name table, part 8 of 8.
pub open spec fn lookup_upper_7(u: Seq<char>) -> Option<IfcType> {
    if u == "IFCALIGNMENTCANT"@ {
        Some(IfcType::IfcAlignmentCant)
    } else if u == "IFCALIGNMENTHORIZONTAL"@ {
        Some(IfcType::IfcAlignmentHorizontal)
    } else if u == "IFCALIGNMENTVERTICAL"@ {
        Some(IfcType::IfcAlignmentVertical)
    } else if u == "IFCALIGNMENTSEGMENT"@ {
        Some(IfcType::IfcAlignmentSegment)
    } else if u == "IFCROAD"@ {
        Some(IfcType::IfcRoad)
    } else if u == "IFCROADPART"@ {
        Some(IfcType::IfcRoadPart)
    } else if u == "IFCBRIDGE"@ {
        Some(IfcType::IfcBridge)
    } else if u == "IFCBRIDGEPART"@ {
        Some(IfcType::IfcBridgePart)
    } else if u == "IFCRAILWAY"@ {
        Some(IfcType::IfcRailway)
    } else if u == "IFCRAILWAYPART"@ {
        Some(IfcType::IfcRailwayPart)
    } else if u == "IFCFACILITY"@ {
        Some(IfcType::IfcFacility)
    } else if u == "IFCFACILITYPART"@ {
        Some(IfcType::IfcFacilityPart)
    } else if u == "IFCGEOTECHNICALELEMENT"@ {
        Some(IfcType::IfcGeotechnicalElement)
    } else if u == "IFCBOREHOLE"@ {
        Some(IfcType::IfcBorehole)
    } else if u == "IFCGEOMODEL"@ {
        Some(IfcType::IfcGeomodel)
    } else if u == "IFCGEOSLICE"@ {
        Some(IfcType::IfcGeoslice)
    } else if u == "IFCSOLIDSTRATUM"@ {
        Some(IfcType::IfcSolidStratum)
    } else if u == "IFCVOIDSTRATUM"@ {
        Some(IfcType::IfcVoidStratum)
    } else if u == "IFCWATERSTRATUM"@ {
        Some(IfcType::IfcWaterStratum)
    } else if u == "IFCEARTHWORKSCUT"@ {
        Some(IfcType::IfcEarthworksCut)
    } else if u == "IFCEARTHWORKSFILL"@ {
        Some(IfcType::IfcEarthworksFill)
    } else if u == "IFCEARTHWORKSELEMENT"@ {
        Some(IfcType::IfcEarthworksElement)
    } else if u == "IFCPAVEMENT"@ {
        Some(IfcType::IfcPavement)
    } else if u == "IFCCOURSE"@ {
        Some(IfcType::IfcCourse)
    } else if u == "IFCKERB"@ {
        Some(IfcType::IfcKerb)
    } else if u == "IFCDEEPFOUNDATION"@ {
        Some(IfcType::IfcDeepFoundation)
    } else {
        None
    }
}

/// The named variant whose upper-case wire name is `u`, if any.
pub open spec fn lookup_upper(u: Seq<char>) -> Option<IfcType> {
    if lookup_upper_0(u) is Some {
        lookup_upper_0(u)
    } else if lookup_upper_1(u) is Some {
        lookup_upper_1(u)
    } else if lookup_upper_2(u) is Some {
        lookup_upper_2(u)
    } else if lookup_upper_3(u) is Some {
        lookup_upper_3(u)
    } else if lookup_upper_4(u) is Some {
        lookup_upper_4(u)
    } else if lookup_upper_5(u) is Some {
        lookup_upper_5(u)
    } else if lookup_upper_6(u) is Some {
        lookup_upper_6(u)
    } else {
        lookup_upper_7(u)
    }
}

fn find_upper_0(u: &Vec<char>) -> (r: Option<IfcType>)
    ensures
        r == lookup_upper_0(u@),
{
    if chars_eq_str(u, "IFCPROJECT") {
        Some(IfcType::IfcProject)
    } else if chars_eq_str(u, "IFCSITE") {
        Some(IfcType::IfcSite)
    } else if chars_eq_str(u, "IFCBUILDING") {
        Some(IfcType::IfcBuilding)
    } else if chars_eq_str(u, "IFCBUILDINGSTOREY") {
        Some(IfcType::IfcBuildingStorey)
    } else if chars_eq_str(u, "IFCSPACE") {
        Some(IfcType::IfcSpace)
    } else if chars_eq_str(u, "IFCWALL") {
        Some(IfcType::IfcWall)
    } else if chars_eq_str(u, "IFCWALLSTANDARDCASE") {
        Some(IfcType::IfcWallStandardCase)
    } else if chars_eq_str(u, "IFCCURTAINWALL") {
        Some(IfcType::IfcCurtainWall)
    } else if chars_eq_str(u, "IFCSLAB") {
        Some(IfcType::IfcSlab)
    } else if chars_eq_str(u, "IFCROOF") {
        Some(IfcType::IfcRoof)
    } else if chars_eq_str(u, "IFCBEAM") {
        Some(IfcType::IfcBeam)
    } else if chars_eq_str(u, "IFCCOLUMN") {
        Some(IfcType::IfcColumn)
    } else if chars_eq_str(u, "IFCDOOR") {
        Some(IfcType::IfcDoor)
    } else if chars_eq_str(u, "IFCWINDOW") {
        Some(IfcType::IfcWindow)
    } else if chars_eq_str(u, "IFCSTAIR") {
        Some(IfcType::IfcStair)
    } else if chars_eq_str(u, "IFCSTAIRFLIGHT") {
        Some(IfcType::IfcStairFlight)
    } else if chars_eq_str(u, "IFCRAMP") {
        Some(IfcType::IfcRamp)
    } else if chars_eq_str(u, "IFCRAMPFLIGHT") {
        Some(IfcType::IfcRampFlight)
    } else if chars_eq_str(u, "IFCRAILING") {
        Some(IfcType::IfcRailing)
    } else if chars_eq_str(u, "IFCCOVERING") {
        Some(IfcType::IfcCovering)
    } else if chars_eq_str(u, "IFCPLATE") {
        Some(IfcType::IfcPlate)
    } else if chars_eq_str(u, "IFCMEMBER") {
        Some(IfcType::IfcMember)
    } else if chars_eq_str(u, "IFCFOOTING") {
        Some(IfcType::IfcFooting)
    } else if chars_eq_str(u, "IFCPILE") {
        Some(IfcType::IfcPile)
    } else if chars_eq_str(u, "IFCBUILDINGELEMENTPROXY") {
        Some(IfcType::IfcBuildingElementProxy)
    } else if chars_eq_str(u, "IFCELEMENTASSEMBLY") {
        Some(IfcType::IfcElementAssembly)
    } else if chars_eq_str(u, "IFCDISTRIBUTIONELEMENT") {
        Some(IfcType::IfcDistributionElement)
    } else if chars_eq_str(u, "IFCDISTRIBUTIONFLOWELEMENT") {
        Some(IfcType::IfcDistributionFlowElement)
    } else if chars_eq_str(u, "IFCFLOWTERMINAL") {
        Some(IfcType::IfcFlowTerminal)
    } else if chars_eq_str(u, "IFCFLOWSEGMENT") {
        Some(IfcType::IfcFlowSegment)
    } else {
        None
    }
}

fn find_upper_1(u: &Vec<char>) -> (r: Option<IfcType>)
    ensures
        r == lookup_upper_1(u@),
{
    if chars_eq_str(u, "IFCFLOWFITTING") {
        Some(IfcType::IfcFlowFitting)
    } else if chars_eq_str(u, "IFCFLOWCONTROLLER") {
        Some(IfcType::IfcFlowController)
    } else if chars_eq_str(u, "IFCFLOWMOVINGDEVICE") {
        Some(IfcType::IfcFlowMovingDevice)
    } else if chars_eq_str(u, "IFCFLOWSTORAGEDEVICE") {
        Some(IfcType::IfcFlowStorageDevice)
    } else if chars_eq_str(u, "IFCFLOWTREATMENTDEVICE") {
        Some(IfcType::IfcFlowTreatmentDevice)
    } else if chars_eq_str(u, "IFCENERGYCONVERSIONDEVICE") {
        Some(IfcType::IfcEnergyConversionDevice)
    } else if chars_eq_str(u, "IFCDISTRIBUTIONCONTROLELEMENT") {
        Some(IfcType::IfcDistributionControlElement)
    } else if chars_eq_str(u, "IFCCABLESEGMENT") {
        Some(IfcType::IfcCableSegment)
    } else if chars_eq_str(u, "IFCCABLECARRIERSEGMENT") {
        Some(IfcType::IfcCableCarrierSegment)
    } else if chars_eq_str(u, "IFCCABLECARRIERFITTING") {
        Some(IfcType::IfcCableCarrierFitting)
    } else if chars_eq_str(u, "IFCPIPESEGMENT") {
        Some(IfcType::IfcPipeSegment)
    } else if chars_eq_str(u, "IFCPIPEFITTING") {
        Some(IfcType::IfcPipeFitting)
    } else if chars_eq_str(u, "IFCSPACEHEATER") {
        Some(IfcType::IfcSpaceHeater)
    } else if chars_eq_str(u, "IFCAIRTERMINAL") {
        Some(IfcType::IfcAirTerminal)
    } else if chars_eq_str(u, "IFCFURNISHINGELEMENT") {
        Some(IfcType::IfcFurnishingElement)
    } else if chars_eq_str(u, "IFCFURNITURE") {
        Some(IfcType::IfcFurniture)
    } else if chars_eq_str(u, "IFCSYSTEMFURNITUREELEMENT") {
        Some(IfcType::IfcSystemFurnitureElement)
    } else if chars_eq_str(u, "IFCOPENINGELEMENT") {
        Some(IfcType::IfcOpeningElement)
    } else if chars_eq_str(u, "IFCOPENINGSTANDARDCASE") {
        Some(IfcType::IfcOpeningStandardCase)
    } else if chars_eq_str(u, "IFCVOIDINGFEATURE") {
        Some(IfcType::IfcVoidingFeature)
    } else if chars_eq_str(u, "IFCPROJECTIONELEMENT") {
        Some(IfcType::IfcProjectionElement)
    } else if chars_eq_str(u, "IFCEXTRUDEDAREASOLID") {
        Some(IfcType::IfcExtrudedAreaSolid)
    } else if chars_eq_str(u, "IFCEXTRUDEDAREASOLIDTAPERED") {
        Some(IfcType::IfcExtrudedAreaSolidTapered)
    } else if chars_eq_str(u, "IFCREVOLVEDAREASOLID") {
        Some(IfcType::IfcRevolvedAreaSolid)
    } else if chars_eq_str(u, "IFCREVOLVEDAREASOLIDTAPERED") {
        Some(IfcType::IfcRevolvedAreaSolidTapered)
    } else if chars_eq_str(u, "IFCSWEPTDISKSOLID") {
        Some(IfcType::IfcSweptDiskSolid)
    } else if chars_eq_str(u, "IFCSWEPTDISKSOLIDPOLYGONAL") {
        Some(IfcType::IfcSweptDiskSolidPolygonal)
    } else if chars_eq_str(u, "IFCSURFACECURVESWEPTAREASOLID") {
        Some(IfcType::IfcSurfaceCurveSweptAreaSolid)
    } else if chars_eq_str(u, "IFCFIXEDREFERENCESWEPTAREASOLID") {
        Some(IfcType::IfcFixedReferenceSweptAreaSolid)
    } else if chars_eq_str(u, "IFCFACETEDBREP") {
        Some(IfcType::IfcFacetedBrep)
    } else {
        None
    }
}

fn find_upper_2(u: &Vec<char>) -> (r: Option<IfcType>)
    ensures
        r == lookup_upper_2(u@),
{
    if chars_eq_str(u, "IFCFACETEDBREPWITHVOIDS") {
        Some(IfcType::IfcFacetedBrepWithVoids)
    } else if chars_eq_str(u, "IFCADVANCEDBREP") {
        Some(IfcType::IfcAdvancedBrep)
    } else if chars_eq_str(u, "IFCADVANCEDBREPWITHVOIDS") {
        Some(IfcType::IfcAdvancedBrepWithVoids)
    } else if chars_eq_str(u, "IFCTRIANGULATEDFACESET") {
        Some(IfcType::IfcTriangulatedFaceSet)
    } else if chars_eq_str(u, "IFCPOLYGONALFACESET") {
        Some(IfcType::IfcPolygonalFaceSet)
    } else if chars_eq_str(u, "IFCTESSELLATEDFACESET") {
        Some(IfcType::IfcTessellatedFaceSet)
    } else if chars_eq_str(u, "IFCBOOLEANRESULT") {
        Some(IfcType::IfcBooleanResult)
    } else if chars_eq_str(u, "IFCBOOLEANCLIPPINGRESULT") {
        Some(IfcType::IfcBooleanClippingResult)
    } else if chars_eq_str(u, "IFCMAPPEDITEM") {
        Some(IfcType::IfcMappedItem)
    } else if chars_eq_str(u, "IFCREPRESENTATIONMAP") {
        Some(IfcType::IfcRepresentationMap)
    } else if chars_eq_str(u, "IFCBLOCK") {
        Some(IfcType::IfcBlock)
    } else if chars_eq_str(u, "IFCRECTANGULARPYRAMID") {
        Some(IfcType::IfcRectangularPyramid)
    } else if chars_eq_str(u, "IFCRIGHTCIRCULARCONE") {
        Some(IfcType::IfcRightCircularCone)
    } else if chars_eq_str(u, "IFCRIGHTCIRCULARCYLINDER") {
        Some(IfcType::IfcRightCircularCylinder)
    } else if chars_eq_str(u, "IFCSPHERE") {
        Some(IfcType::IfcSphere)
    } else if chars_eq_str(u, "IFCHALFSPACESOLID") {
        Some(IfcType::IfcHalfSpaceSolid)
    } else if chars_eq_str(u, "IFCPOLYGONALBOUNDEDHALFSPACE") {
        Some(IfcType::IfcPolygonalBoundedHalfSpace)
    } else if chars_eq_str(u, "IFCBOXEDHALFSPACE") {
        Some(IfcType::IfcBoxedHalfSpace)
    } else if chars_eq_str(u, "IFCARBITRARYCLOSEDPROFILEDEF") {
        Some(IfcType::IfcArbitraryClosedProfileDef)
    } else if chars_eq_str(u, "IFCARBITRARYPROFILEDEFWITHVOIDS") {
        Some(IfcType::IfcArbitraryProfileDefWithVoids)
    } else if chars_eq_str(u, "IFCRECTANGLEPROFILEDEF") {
        Some(IfcType::IfcRectangleProfileDef)
    } else if chars_eq_str(u, "IFCRECTANGLEHOLLOWPROFILEDEF") {
        Some(IfcType::IfcRectangleHollowProfileDef)
    } else if chars_eq_str(u, "IFCCIRCLEPROFILEDEF") {
        Some(IfcType::IfcCircleProfileDef)
    } else if chars_eq_str(u, "IFCCIRCLEHOLLOWPROFILEDEF") {
        Some(IfcType::IfcCircleHollowProfileDef)
    } else if chars_eq_str(u, "IFCELLIPSEPROFILEDEF") {
        Some(IfcType::IfcEllipseProfileDef)
    } else if chars_eq_str(u, "IFCISHAPEPROFILEDEF") {
        Some(IfcType::IfcIShapeProfileDef)
    } else if chars_eq_str(u, "IFCLSHAPEPROFILEDEF") {
        Some(IfcType::IfcLShapeProfileDef)
    } else if chars_eq_str(u, "IFCTSHAPEPROFILEDEF") {
        Some(IfcType::IfcTShapeProfileDef)
    } else if chars_eq_str(u, "IFCUSHAPEPROFILEDEF") {
        Some(IfcType::IfcUShapeProfileDef)
    } else if chars_eq_str(u, "IFCCSHAPEPROFILEDEF") {
        Some(IfcType::IfcCShapeProfileDef)
    } else {
        None
    }
}

fn find_upper_3(u: &Vec<char>) -> (r: Option<IfcType>)
    ensures
        r == lookup_upper_3(u@),
{
    if chars_eq_str(u, "IFCZSHAPEPROFILEDEF") {
        Some(IfcType::IfcZShapeProfileDef)
    } else if chars_eq_str(u, "IFCASYMMETRICISHAPEPROFILEDEF") {
        Some(IfcType::IfcAsymmetricIShapeProfileDef)
    } else if chars_eq_str(u, "IFCTRAPEZIUMPROFILEDEF") {
        Some(IfcType::IfcTrapeziumProfileDef)
    } else if chars_eq_str(u, "IFCCOMPOSITEPROFILEDEF") {
        Some(IfcType::IfcCompositeProfileDef)
    } else if chars_eq_str(u, "IFCDERIVEDPROFILEDEF") {
        Some(IfcType::IfcDerivedProfileDef)
    } else if chars_eq_str(u, "IFCCENTERLINEPROFILEDEF") {
        Some(IfcType::IfcCenterLineProfileDef)
    } else if chars_eq_str(u, "IFCPOLYLINE") {
        Some(IfcType::IfcPolyline)
    } else if chars_eq_str(u, "IFCCOMPOSITECURVE") {
        Some(IfcType::IfcCompositeCurve)
    } else if chars_eq_str(u, "IFCCOMPOSITECURVESEGMENT") {
        Some(IfcType::IfcCompositeCurveSegment)
    } else if chars_eq_str(u, "IFCTRIMMEDCURVE") {
        Some(IfcType::IfcTrimmedCurve)
    } else if chars_eq_str(u, "IFCCIRCLE") {
        Some(IfcType::IfcCircle)
    } else if chars_eq_str(u, "IFCELLIPSE") {
        Some(IfcType::IfcEllipse)
    } else if chars_eq_str(u, "IFCLINE") {
        Some(IfcType::IfcLine)
    } else if chars_eq_str(u, "IFCBSPLINECURVE") {
        Some(IfcType::IfcBSplineCurve)
    } else if chars_eq_str(u, "IFCBSPLINECURVEWITHKNOTS") {
        Some(IfcType::IfcBSplineCurveWithKnots)
    } else if chars_eq_str(u, "IFCRATIONALBSPLINECURVEWITHKNOTS") {
        Some(IfcType::IfcRationalBSplineCurveWithKnots)
    } else if chars_eq_str(u, "IFCINDEXEDPOLYCURVE") {
        Some(IfcType::IfcIndexedPolyCurve)
    } else if chars_eq_str(u, "IFCPLANE") {
        Some(IfcType::IfcPlane)
    } else if chars_eq_str(u, "IFCCURVEBOUNDEDPLANE") {
        Some(IfcType::IfcCurveBoundedPlane)
    } else if chars_eq_str(u, "IFCCYLINDRICALSURFACE") {
        Some(IfcType::IfcCylindricalSurface)
    } else if chars_eq_str(u, "IFCBSPLINESURFACE") {
        Some(IfcType::IfcBSplineSurface)
    } else if chars_eq_str(u, "IFCBSPLINESURFACEWITHKNOTS") {
        Some(IfcType::IfcBSplineSurfaceWithKnots)
    } else if chars_eq_str(u, "IFCRATIONALBSPLINESURFACEWITHKNOTS") {
        Some(IfcType::IfcRationalBSplineSurfaceWithKnots)
    } else if chars_eq_str(u, "IFCCARTESIANPOINT") {
        Some(IfcType::IfcCartesianPoint)
    } else if chars_eq_str(u, "IFCDIRECTION") {
        Some(IfcType::IfcDirection)
    } else if chars_eq_str(u, "IFCVECTOR") {
        Some(IfcType::IfcVector)
    } else if chars_eq_str(u, "IFCCARTESIANPOINTLIST2D") {
        Some(IfcType::IfcCartesianPointList2D)
    } else if chars_eq_str(u, "IFCCARTESIANPOINTLIST3D") {
        Some(IfcType::IfcCartesianPointList3D)
    } else if chars_eq_str(u, "IFCAXIS2PLACEMENT2D") {
        Some(IfcType::IfcAxis2Placement2D)
    } else if chars_eq_str(u, "IFCAXIS2PLACEMENT3D") {
        Some(IfcType::IfcAxis2Placement3D)
    } else {
        None
    }
}

fn find_upper_4(u: &Vec<char>) -> (r: Option<IfcType>)
    ensures
        r == lookup_upper_4(u@),
{
    if chars_eq_str(u, "IFCLOCALPLACEMENT") {
        Some(IfcType::IfcLocalPlacement)
    } else if chars_eq_str(u, "IFCCARTESIANTRANSFORMATIONOPERATOR3D") {
        Some(IfcType::IfcCartesianTransformationOperator3D)
    } else if chars_eq_str(u, "IFCSHAPEREPRESENTATION") {
        Some(IfcType::IfcShapeRepresentation)
    } else if chars_eq_str(u, "IFCPRODUCTDEFINITIONSHAPE") {
        Some(IfcType::IfcProductDefinitionShape)
    } else if chars_eq_str(u, "IFCGEOMETRICREPRESENTATIONCONTEXT") {
        Some(IfcType::IfcGeometricRepresentationContext)
    } else if chars_eq_str(u, "IFCGEOMETRICREPRESENTATIONSUBCONTEXT") {
        Some(IfcType::IfcGeometricRepresentationSubContext)
    } else if chars_eq_str(u, "IFCCLOSEDSHELL") {
        Some(IfcType::IfcClosedShell)
    } else if chars_eq_str(u, "IFCOPENSHELL") {
        Some(IfcType::IfcOpenShell)
    } else if chars_eq_str(u, "IFCFACE") {
        Some(IfcType::IfcFace)
    } else if chars_eq_str(u, "IFCFACEBOUND") {
        Some(IfcType::IfcFaceBound)
    } else if chars_eq_str(u, "IFCFACEOUTERBOUND") {
        Some(IfcType::IfcFaceOuterBound)
    } else if chars_eq_str(u, "IFCPOLYLOOP") {
        Some(IfcType::IfcPolyLoop)
    } else if chars_eq_str(u, "IFCEDGELOOP") {
        Some(IfcType::IfcEdgeLoop)
    } else if chars_eq_str(u, "IFCORIENTEDEDGE") {
        Some(IfcType::IfcOrientedEdge)
    } else if chars_eq_str(u, "IFCEDGECURVE") {
        Some(IfcType::IfcEdgeCurve)
    } else if chars_eq_str(u, "IFCVERTEXPOINT") {
        Some(IfcType::IfcVertexPoint)
    } else if chars_eq_str(u, "IFCCONNECTEDFACESET") {
        Some(IfcType::IfcConnectedFaceSet)
    } else if chars_eq_str(u, "IFCRELCONTAINEDINSPATIALSTRUCTURE") {
        Some(IfcType::IfcRelContainedInSpatialStructure)
    } else if chars_eq_str(u, "IFCRELAGGREGATES") {
        Some(IfcType::IfcRelAggregates)
    } else if chars_eq_str(u, "IFCRELDEFINESBYPROPERTIES") {
        Some(IfcType::IfcRelDefinesByProperties)
    } else if chars_eq_str(u, "IFCRELDEFINESBYTYPE") {
        Some(IfcType::IfcRelDefinesByType)
    } else if chars_eq_str(u, "IFCRELASSOCIATESMATERIAL") {
        Some(IfcType::IfcRelAssociatesMaterial)
    } else if chars_eq_str(u, "IFCRELVOIDSELEMENT") {
        Some(IfcType::IfcRelVoidsElement)
    } else if chars_eq_str(u, "IFCRELFILLSELEMENT") {
        Some(IfcType::IfcRelFillsElement)
    } else if chars_eq_str(u, "IFCRELCONNECTSPATHELEMENTS") {
        Some(IfcType::IfcRelConnectsPathElements)
    } else if chars_eq_str(u, "IFCRELSPACEBOUNDARY") {
        Some(IfcType::IfcRelSpaceBoundary)
    } else if chars_eq_str(u, "IFCRELASSIGNSTOGROUP") {
        Some(IfcType::IfcRelAssignsToGroup)
    } else if chars_eq_str(u, "IFCPROPERTYSET") {
        Some(IfcType::IfcPropertySet)
    } else if chars_eq_str(u, "IFCPROPERTYSINGLEVALUE") {
        Some(IfcType::IfcPropertySingleValue)
    } else if chars_eq_str(u, "IFCPROPERTYENUMERATEDVALUE") {
        Some(IfcType::IfcPropertyEnumeratedValue)
    } else {
        None
    }
}

fn find_upper_5(u: &Vec<char>) -> (r: Option<IfcType>)
    ensures
        r == lookup_upper_5(u@),
{
    if chars_eq_str(u, "IFCPROPERTYBOUNDEDVALUE") {
        Some(IfcType::IfcPropertyBoundedValue)
    } else if chars_eq_str(u, "IFCPROPERTYLISTVALUE") {
        Some(IfcType::IfcPropertyListValue)
    } else if chars_eq_str(u, "IFCPROPERTYTABLEVALUE") {
        Some(IfcType::IfcPropertyTableValue)
    } else if chars_eq_str(u, "IFCCOMPLEXPROPERTY") {
        Some(IfcType::IfcComplexProperty)
    } else if chars_eq_str(u, "IFCELEMENTQUANTITY") {
        Some(IfcType::IfcElementQuantity)
    } else if chars_eq_str(u, "IFCQUANTITYLENGTH") {
        Some(IfcType::IfcQuantityLength)
    } else if chars_eq_str(u, "IFCQUANTITYAREA") {
        Some(IfcType::IfcQuantityArea)
    } else if chars_eq_str(u, "IFCQUANTITYVOLUME") {
        Some(IfcType::IfcQuantityVolume)
    } else if chars_eq_str(u, "IFCQUANTITYCOUNT") {
        Some(IfcType::IfcQuantityCount)
    } else if chars_eq_str(u, "IFCQUANTITYWEIGHT") {
        Some(IfcType::IfcQuantityWeight)
    } else if chars_eq_str(u, "IFCQUANTITYTIME") {
        Some(IfcType::IfcQuantityTime)
    } else if chars_eq_str(u, "IFCMATERIAL") {
        Some(IfcType::IfcMaterial)
    } else if chars_eq_str(u, "IFCMATERIALLAYER") {
        Some(IfcType::IfcMaterialLayer)
    } else if chars_eq_str(u, "IFCMATERIALLAYERSET") {
        Some(IfcType::IfcMaterialLayerSet)
    } else if chars_eq_str(u, "IFCMATERIALLAYERSETUSAGE") {
        Some(IfcType::IfcMaterialLayerSetUsage)
    } else if chars_eq_str(u, "IFCMATERIALLIST") {
        Some(IfcType::IfcMaterialList)
    } else if chars_eq_str(u, "IFCMATERIALCONSTITUENTSET") {
        Some(IfcType::IfcMaterialConstituentSet)
    } else if chars_eq_str(u, "IFCMATERIALCONSTITUENT") {
        Some(IfcType::IfcMaterialConstituent)
    } else if chars_eq_str(u, "IFCMATERIALPROFILE") {
        Some(IfcType::IfcMaterialProfile)
    } else if chars_eq_str(u, "IFCMATERIALPROFILESET") {
        Some(IfcType::IfcMaterialProfileSet)
    } else if chars_eq_str(u, "IFCMATERIALPROFILESETUSAGE") {
        Some(IfcType::IfcMaterialProfileSetUsage)
    } else if chars_eq_str(u, "IFCSTYLEDITEM") {
        Some(IfcType::IfcStyledItem)
    } else if chars_eq_str(u, "IFCSURFACESTYLE") {
        Some(IfcType::IfcSurfaceStyle)
    } else if chars_eq_str(u, "IFCSURFACESTYLERENDERING") {
        Some(IfcType::IfcSurfaceStyleRendering)
    } else if chars_eq_str(u, "IFCCOLOURRGB") {
        Some(IfcType::IfcColourRgb)
    } else if chars_eq_str(u, "IFCPRESENTATIONLAYERASSIGNMENT") {
        Some(IfcType::IfcPresentationLayerAssignment)
    } else if chars_eq_str(u, "IFCLIGHTFIXTURE") {
        Some(IfcType::IfcLightFixture)
    } else if chars_eq_str(u, "IFCLIGHTFIXTURETYPE") {
        Some(IfcType::IfcLightFixtureType)
    } else if chars_eq_str(u, "IFCLIGHTSOURCE") {
        Some(IfcType::IfcLightSource)
    } else if chars_eq_str(u, "IFCLIGHTSOURCEAMBIENT") {
        Some(IfcType::IfcLightSourceAmbient)
    } else {
        None
    }
}

fn find_upper_6(u: &Vec<char>) -> (r: Option<IfcType>)
    ensures
        r == lookup_upper_6(u@),
{
    if chars_eq_str(u, "IFCLIGHTSOURCEDIRECTIONAL") {
        Some(IfcType::IfcLightSourceDirectional)
    } else if chars_eq_str(u, "IFCLIGHTSOURCEGONIOMETRIC") {
        Some(IfcType::IfcLightSourceGoniometric)
    } else if chars_eq_str(u, "IFCLIGHTSOURCEPOSITIONAL") {
        Some(IfcType::IfcLightSourcePositional)
    } else if chars_eq_str(u, "IFCLIGHTSOURCESPOT") {
        Some(IfcType::IfcLightSourceSpot)
    } else if chars_eq_str(u, "IFCLIGHTINTENSITYDISTRIBUTION") {
        Some(IfcType::IfcLightIntensityDistribution)
    } else if chars_eq_str(u, "IFCLIGHTDISTRIBUTIONDATA") {
        Some(IfcType::IfcLightDistributionData)
    } else if chars_eq_str(u, "IFCUNITASSIGNMENT") {
        Some(IfcType::IfcUnitAssignment)
    } else if chars_eq_str(u, "IFCSIUNIT") {
        Some(IfcType::IfcSIUnit)
    } else if chars_eq_str(u, "IFCCONVERSIONBASEDUNIT") {
        Some(IfcType::IfcConversionBasedUnit)
    } else if chars_eq_str(u, "IFCDERIVEDUNIT") {
        Some(IfcType::IfcDerivedUnit)
    } else if chars_eq_str(u, "IFCMEASUREWITHUNIT") {
        Some(IfcType::IfcMeasureWithUnit)
    } else if chars_eq_str(u, "IFCWALLTYPE") {
        Some(IfcType::IfcWallType)
    } else if chars_eq_str(u, "IFCSLABTYPE") {
        Some(IfcType::IfcSlabType)
    } else if chars_eq_str(u, "IFCBEAMTYPE") {
        Some(IfcType::IfcBeamType)
    } else if chars_eq_str(u, "IFCCOLUMNTYPE") {
        Some(IfcType::IfcColumnType)
    } else if chars_eq_str(u, "IFCDOORTYPE") {
        Some(IfcType::IfcDoorType)
    } else if chars_eq_str(u, "IFCWINDOWTYPE") {
        Some(IfcType::IfcWindowType)
    } else if chars_eq_str(u, "IFCCOVERINGTYPE") {
        Some(IfcType::IfcCoveringType)
    } else if chars_eq_str(u, "IFCRAILINGTYPE") {
        Some(IfcType::IfcRailingType)
    } else if chars_eq_str(u, "IFCSTAIRTYPE") {
        Some(IfcType::IfcStairType)
    } else if chars_eq_str(u, "IFCSTAIRFLIGHTTYPE") {
        Some(IfcType::IfcStairFlightType)
    } else if chars_eq_str(u, "IFCRAMPTYPE") {
        Some(IfcType::IfcRampType)
    } else if chars_eq_str(u, "IFCRAMPFLIGHTTYPE") {
        Some(IfcType::IfcRampFlightType)
    } else if chars_eq_str(u, "IFCROOFTYPE") {
        Some(IfcType::IfcRoofType)
    } else if chars_eq_str(u, "IFCMEMBERTYPE") {
        Some(IfcType::IfcMemberType)
    } else if chars_eq_str(u, "IFCPLATETYPE") {
        Some(IfcType::IfcPlateType)
    } else if chars_eq_str(u, "IFCFOOTINGTYPE") {
        Some(IfcType::IfcFootingType)
    } else if chars_eq_str(u, "IFCPILETYPE") {
        Some(IfcType::IfcPileType)
    } else if chars_eq_str(u, "IFCBUILDINGELEMENTPROXYTYPE") {
        Some(IfcType::IfcBuildingElementProxyType)
    } else if chars_eq_str(u, "IFCALIGNMENT") {
        Some(IfcType::IfcAlignment)
    } else {
        None
    }
}

fn find_upper_7(u: &Vec<char>) -> (r: Option<IfcType>)
    ensures
        r == lookup_upper_7(u@),
{
    if chars_eq_str(u, "IFCALIGNMENTCANT") {
        Some(IfcType::IfcAlignmentCant)
    } else if chars_eq_str(u, "IFCALIGNMENTHORIZONTAL") {
        Some(IfcType::IfcAlignmentHorizontal)
    } else if chars_eq_str(u, "IFCALIGNMENTVERTICAL") {
        Some(IfcType::IfcAlignmentVertical)
    } else if chars_eq_str(u, "IFCALIGNMENTSEGMENT") {
        Some(IfcType::IfcAlignmentSegment)
    } else if chars_eq_str(u, "IFCROAD") {
        Some(IfcType::IfcRoad)
    } else if chars_eq_str(u, "IFCROADPART") {
        Some(IfcType::IfcRoadPart)
    } else if chars_eq_str(u, "IFCBRIDGE") {
        Some(IfcType::IfcBridge)
    } else if chars_eq_str(u, "IFCBRIDGEPART") {
        Some(IfcType::IfcBridgePart)
    } else if chars_eq_str(u, "IFCRAILWAY") {
        Some(IfcType::IfcRailway)
    } else if chars_eq_str(u, "IFCRAILWAYPART") {
        Some(IfcType::IfcRailwayPart)
    } else if chars_eq_str(u, "IFCFACILITY") {
        Some(IfcType::IfcFacility)
    } else if chars_eq_str(u, "IFCFACILITYPART") {
        Some(IfcType::IfcFacilityPart)
    } else if chars_eq_str(u, "IFCGEOTECHNICALELEMENT") {
        Some(IfcType::IfcGeotechnicalElement)
    } else if chars_eq_str(u, "IFCBOREHOLE") {
        Some(IfcType::IfcBorehole)
    } else if chars_eq_str(u, "IFCGEOMODEL") {
        Some(IfcType::IfcGeomodel)
    } else if chars_eq_str(u, "IFCGEOSLICE") {
        Some(IfcType::IfcGeoslice)
    } else if chars_eq_str(u, "IFCSOLIDSTRATUM") {
        Some(IfcType::IfcSolidStratum)
    } else if chars_eq_str(u, "IFCVOIDSTRATUM") {
        Some(IfcType::IfcVoidStratum)
    } else if chars_eq_str(u, "IFCWATERSTRATUM") {
        Some(IfcType::IfcWaterStratum)
    } else if chars_eq_str(u, "IFCEARTHWORKSCUT") {
        Some(IfcType::IfcEarthworksCut)
    } else if chars_eq_str(u, "IFCEARTHWORKSFILL") {
        Some(IfcType::IfcEarthworksFill)
    } else if chars_eq_str(u, "IFCEARTHWORKSELEMENT") {
        Some(IfcType::IfcEarthworksElement)
    } else if chars_eq_str(u, "IFCPAVEMENT") {
        Some(IfcType::IfcPavement)
    } else if chars_eq_str(u, "IFCCOURSE") {
        Some(IfcType::IfcCourse)
    } else if chars_eq_str(u, "IFCKERB") {
        Some(IfcType::IfcKerb)
    } else if chars_eq_str(u, "IFCDEEPFOUNDATION") {
        Some(IfcType::IfcDeepFoundation)
    } else {
        None
    }
}

pub(crate) fn find_upper(u: &Vec<char>) -> (r: Option<IfcType>)
    ensures
        r == lookup_upper(u@),
{
    let r0 = find_upper_0(u);
    if r0.is_some() {
        return r0;
    }
    let r1 = find_upper_1(u);
    if r1.is_some() {
        return r1;
    }
    let r2 = find_upper_2(u);
    if r2.is_some() {
        return r2;
    }
    let r3 = find_upper_3(u);
    if r3.is_some() {
        return r3;
    }
    let r4 = find_upper_4(u);
    if r4.is_some() {
        return r4;
    }
    let r5 = find_upper_5(u);
    if r5.is_some() {
        return r5;
    }
    let r6 = find_upper_6(u);
    if r6.is_some() {
        return r6;
    }
    find_upper_7(u)
}

impl IfcType {
    /// Declaration position of the variant (see [`type_tag`]).
    pub(crate) fn tag(&self) -> (r: u16)
        ensures
            r == type_tag(*self),
    {
        match self {
            IfcType::IfcRoot => 0,
            IfcType::IfcObjectDefinition => 1,
            IfcType::IfcObject => 2,
            IfcType::IfcProduct => 3,
            IfcType::IfcElement => 4,
            IfcType::IfcBuiltElement => 5,
            IfcType::IfcSpatialElement => 6,
            IfcType::IfcSpatialStructureElement => 7,
            IfcType::IfcExternalSpatialStructureElement => 8,
            IfcType::IfcExternalSpatialElement => 9,
            IfcType::IfcSpatialZone => 10,
            IfcType::IfcCivilElement => 11,
            IfcType::IfcGeographicElement => 12,
            IfcType::IfcAnnotation => 13,
            IfcType::IfcPort => 14,
            IfcType::IfcFeatureElement => 15,
            IfcType::IfcFeatureElementAddition => 16,
            IfcType::IfcFeatureElementSubtraction => 17,
            IfcType::IfcGeotechnicalAssembly => 18,
            IfcType::IfcProject => 19,
            IfcType::IfcSite => 20,
            IfcType::IfcBuilding => 21,
            IfcType::IfcBuildingStorey => 22,
            IfcType::IfcSpace => 23,
            IfcType::IfcWall => 24,
            IfcType::IfcWallStandardCase => 25,
            IfcType::IfcCurtainWall => 26,
            IfcType::IfcSlab => 27,
            IfcType::IfcRoof => 28,
            IfcType::IfcBeam => 29,
            IfcType::IfcColumn => 30,
            IfcType::IfcDoor => 31,
            IfcType::IfcWindow => 32,
            IfcType::IfcStair => 33,
            IfcType::IfcStairFlight => 34,
            IfcType::IfcRamp => 35,
            IfcType::IfcRampFlight => 36,
            IfcType::IfcRailing => 37,
            IfcType::IfcCovering => 38,
            IfcType::IfcPlate => 39,
            IfcType::IfcMember => 40,
            IfcType::IfcFooting => 41,
            IfcType::IfcPile => 42,
            IfcType::IfcBuildingElementProxy => 43,
            IfcType::IfcElementAssembly => 44,
            IfcType::IfcDistributionElement => 45,
            IfcType::IfcDistributionFlowElement => 46,
            IfcType::IfcFlowTerminal => 47,
            IfcType::IfcFlowSegment => 48,
            IfcType::IfcFlowFitting => 49,
            IfcType::IfcFlowController => 50,
            IfcType::IfcFlowMovingDevice => 51,
            IfcType::IfcFlowStorageDevice => 52,
            IfcType::IfcFlowTreatmentDevice => 53,
            IfcType::IfcEnergyConversionDevice => 54,
            IfcType::IfcDistributionControlElement => 55,
            IfcType::IfcCableSegment => 56,
            IfcType::IfcCableCarrierSegment => 57,
            IfcType::IfcCableCarrierFitting => 58,
            IfcType::IfcPipeSegment => 59,
            IfcType::IfcPipeFitting => 60,
            IfcType::IfcSpaceHeater => 61,
            IfcType::IfcAirTerminal => 62,
            IfcType::IfcFurnishingElement => 63,
            IfcType::IfcFurniture => 64,
            IfcType::IfcSystemFurnitureElement => 65,
            IfcType::IfcOpeningElement => 66,
            IfcType::IfcOpeningStandardCase => 67,
            IfcType::IfcVoidingFeature => 68,
            IfcType::IfcProjectionElement => 69,
            IfcType::IfcExtrudedAreaSolid => 70,
            IfcType::IfcExtrudedAreaSolidTapered => 71,
            IfcType::IfcRevolvedAreaSolid => 72,
            IfcType::IfcRevolvedAreaSolidTapered => 73,
            IfcType::IfcSweptDiskSolid => 74,
            IfcType::IfcSweptDiskSolidPolygonal => 75,
            IfcType::IfcSurfaceCurveSweptAreaSolid => 76,
            IfcType::IfcFixedReferenceSweptAreaSolid => 77,
            IfcType::IfcFacetedBrep => 78,
            IfcType::IfcFacetedBrepWithVoids => 79,
            IfcType::IfcAdvancedBrep => 80,
            IfcType::IfcAdvancedBrepWithVoids => 81,
            IfcType::IfcTriangulatedFaceSet => 82,
            IfcType::IfcPolygonalFaceSet => 83,
            IfcType::IfcTessellatedFaceSet => 84,
            IfcType::IfcBooleanResult => 85,
            IfcType::IfcBooleanClippingResult => 86,
            IfcType::IfcMappedItem => 87,
            IfcType::IfcRepresentationMap => 88,
            IfcType::IfcBlock => 89,
            IfcType::IfcRectangularPyramid => 90,
            IfcType::IfcRightCircularCone => 91,
            IfcType::IfcRightCircularCylinder => 92,
            IfcType::IfcSphere => 93,
            IfcType::IfcHalfSpaceSolid => 94,
            IfcType::IfcPolygonalBoundedHalfSpace => 95,
            IfcType::IfcBoxedHalfSpace => 96,
            IfcType::IfcArbitraryClosedProfileDef => 97,
            IfcType::IfcArbitraryProfileDefWithVoids => 98,
            IfcType::IfcRectangleProfileDef => 99,
            IfcType::IfcRectangleHollowProfileDef => 100,
            IfcType::IfcCircleProfileDef => 101,
            IfcType::IfcCircleHollowProfileDef => 102,
            IfcType::IfcEllipseProfileDef => 103,
            IfcType::IfcIShapeProfileDef => 104,
            IfcType::IfcLShapeProfileDef => 105,
            IfcType::IfcTShapeProfileDef => 106,
            IfcType::IfcUShapeProfileDef => 107,
            IfcType::IfcCShapeProfileDef => 108,
            IfcType::IfcZShapeProfileDef => 109,
            IfcType::IfcAsymmetricIShapeProfileDef => 110,
            IfcType::IfcTrapeziumProfileDef => 111,
            IfcType::IfcCompositeProfileDef => 112,
            IfcType::IfcDerivedProfileDef => 113,
            IfcType::IfcCenterLineProfileDef => 114,
            IfcType::IfcPolyline => 115,
            IfcType::IfcCompositeCurve => 116,
            IfcType::IfcCompositeCurveSegment => 117,
            IfcType::IfcTrimmedCurve => 118,
            IfcType::IfcCircle => 119,
            IfcType::IfcEllipse => 120,
            IfcType::IfcLine => 121,
            IfcType::IfcBSplineCurve => 122,
            IfcType::IfcBSplineCurveWithKnots => 123,
            IfcType::IfcRationalBSplineCurveWithKnots => 124,
            IfcType::IfcIndexedPolyCurve => 125,
            IfcType::IfcPlane => 126,
            IfcType::IfcCurveBoundedPlane => 127,
            IfcType::IfcCylindricalSurface => 128,
            IfcType::IfcBSplineSurface => 129,
            IfcType::IfcBSplineSurfaceWithKnots => 130,
            IfcType::IfcRationalBSplineSurfaceWithKnots => 131,
            IfcType::IfcCartesianPoint => 132,
            IfcType::IfcDirection => 133,
            IfcType::IfcVector => 134,
            IfcType::IfcCartesianPointList2D => 135,
            IfcType::IfcCartesianPointList3D => 136,
            IfcType::IfcAxis2Placement2D => 137,
            IfcType::IfcAxis2Placement3D => 138,
            IfcType::IfcLocalPlacement => 139,
            IfcType::IfcCartesianTransformationOperator3D => 140,
            IfcType::IfcCartesianTransformationOperator3DnonUniform => 141,
            IfcType::IfcShapeRepresentation => 142,
            IfcType::IfcProductDefinitionShape => 143,
            IfcType::IfcGeometricRepresentationContext => 144,
            IfcType::IfcGeometricRepresentationSubContext => 145,
            IfcType::IfcClosedShell => 146,
            IfcType::IfcOpenShell => 147,
            IfcType::IfcFace => 148,
            IfcType::IfcFaceBound => 149,
            IfcType::IfcFaceOuterBound => 150,
            IfcType::IfcPolyLoop => 151,
            IfcType::IfcEdgeLoop => 152,
            IfcType::IfcOrientedEdge => 153,
            IfcType::IfcEdgeCurve => 154,
            IfcType::IfcVertexPoint => 155,
            IfcType::IfcConnectedFaceSet => 156,
            IfcType::IfcRelContainedInSpatialStructure => 157,
            IfcType::IfcRelAggregates => 158,
            IfcType::IfcRelDefinesByProperties => 159,
            IfcType::IfcRelDefinesByType => 160,
            IfcType::IfcRelAssociatesMaterial => 161,
            IfcType::IfcRelVoidsElement => 162,
            IfcType::IfcRelFillsElement => 163,
            IfcType::IfcRelConnectsPathElements => 164,
            IfcType::IfcRelSpaceBoundary => 165,
            IfcType::IfcRelAssignsToGroup => 166,
            IfcType::IfcPropertySet => 167,
            IfcType::IfcPropertySingleValue => 168,
            IfcType::IfcPropertyEnumeratedValue => 169,
            IfcType::IfcPropertyBoundedValue => 170,
            IfcType::IfcPropertyListValue => 171,
            IfcType::IfcPropertyTableValue => 172,
            IfcType::IfcComplexProperty => 173,
            IfcType::IfcElementQuantity => 174,
            IfcType::IfcQuantityLength => 175,
            IfcType::IfcQuantityArea => 176,
            IfcType::IfcQuantityVolume => 177,
            IfcType::IfcQuantityCount => 178,
            IfcType::IfcQuantityWeight => 179,
            IfcType::IfcQuantityTime => 180,
            IfcType::IfcMaterial => 181,
            IfcType::IfcMaterialLayer => 182,
            IfcType::IfcMaterialLayerSet => 183,
            IfcType::IfcMaterialLayerSetUsage => 184,
            IfcType::IfcMaterialList => 185,
            IfcType::IfcMaterialConstituentSet => 186,
            IfcType::IfcMaterialConstituent => 187,
            IfcType::IfcMaterialProfile => 188,
            IfcType::IfcMaterialProfileSet => 189,
            IfcType::IfcMaterialProfileSetUsage => 190,
            IfcType::IfcStyledItem => 191,
            IfcType::IfcSurfaceStyle => 192,
            IfcType::IfcSurfaceStyleRendering => 193,
            IfcType::IfcColourRgb => 194,
            IfcType::IfcPresentationLayerAssignment => 195,
            IfcType::IfcLightFixture => 196,
            IfcType::IfcLightFixtureType => 197,
            IfcType::IfcLightSource => 198,
            IfcType::IfcLightSourceAmbient => 199,
            IfcType::IfcLightSourceDirectional => 200,
            IfcType::IfcLightSourceGoniometric => 201,
            IfcType::IfcLightSourcePositional => 202,
            IfcType::IfcLightSourceSpot => 203,
            IfcType::IfcLightIntensityDistribution => 204,
            IfcType::IfcLightDistributionData => 205,
            IfcType::IfcUnitAssignment => 206,
            IfcType::IfcSIUnit => 207,
            IfcType::IfcConversionBasedUnit => 208,
            IfcType::IfcDerivedUnit => 209,
            IfcType::IfcMeasureWithUnit => 210,
            IfcType::IfcWallType => 211,
            IfcType::IfcSlabType => 212,
            IfcType::IfcBeamType => 213,
            IfcType::IfcColumnType => 214,
            IfcType::IfcDoorType => 215,
            IfcType::IfcWindowType => 216,
            IfcType::IfcCoveringType => 217,
            IfcType::IfcRailingType => 218,
            IfcType::IfcStairType => 219,
            IfcType::IfcStairFlightType => 220,
            IfcType::IfcRampType => 221,
            IfcType::IfcRampFlightType => 222,
            IfcType::IfcRoofType => 223,
            IfcType::IfcMemberType => 224,
            IfcType::IfcPlateType => 225,
            IfcType::IfcFootingType => 226,
            IfcType::IfcPileType => 227,
            IfcType::IfcBuildingElementProxyType => 228,
            IfcType::IfcAlignment => 229,
            IfcType::IfcAlignmentCant => 230,
            IfcType::IfcAlignmentHorizontal => 231,
            IfcType::IfcAlignmentVertical => 232,
            IfcType::IfcAlignmentSegment => 233,
            IfcType::IfcRoad => 234,
            IfcType::IfcRoadPart => 235,
            IfcType::IfcBridge => 236,
            IfcType::IfcBridgePart => 237,
            IfcType::IfcRailway => 238,
            IfcType::IfcRailwayPart => 239,
            IfcType::IfcFacility => 240,
            IfcType::IfcFacilityPart => 241,
            IfcType::IfcGeotechnicalElement => 242,
            IfcType::IfcBorehole => 243,
            IfcType::IfcGeomodel => 244,
            IfcType::IfcGeoslice => 245,
            IfcType::IfcSolidStratum => 246,
            IfcType::IfcVoidStratum => 247,
            IfcType::IfcWaterStratum => 248,
            IfcType::IfcEarthworksCut => 249,
            IfcType::IfcEarthworksFill => 250,
            IfcType::IfcEarthworksElement => 251,
            IfcType::IfcPavement => 252,
            IfcType::IfcCourse => 253,
            IfcType::IfcKerb => 254,
            IfcType::IfcDeepFoundation => 255,
            IfcType::Unknown(_) => 256,
        }
    }

    /// Direct parent in the EXPRESS type hierarchy; `None` for types outside
    /// the `IfcRoot` subtree that geometry decisions need (and for the roots).
    pub fn parent(&self) -> (r: Option<Self>)
        ensures
            r == self.spec_parent(),
    {
        match self {
            IfcType::IfcObjectDefinition => Some(IfcType::IfcRoot),
            IfcType::IfcObject => Some(IfcType::IfcObjectDefinition),
            IfcType::IfcProduct => Some(IfcType::IfcObject),
            IfcType::IfcSpatialElement => Some(IfcType::IfcProduct),
            IfcType::IfcSpatialStructureElement => Some(IfcType::IfcSpatialElement),
            IfcType::IfcExternalSpatialStructureElement => Some(IfcType::IfcSpatialElement),
            IfcType::IfcExternalSpatialElement => Some(IfcType::IfcExternalSpatialStructureElement),
            IfcType::IfcSpatialZone => Some(IfcType::IfcSpatialElement),
            IfcType::IfcSite => Some(IfcType::IfcSpatialStructureElement),
            IfcType::IfcBuilding => Some(IfcType::IfcSpatialStructureElement),
            IfcType::IfcBuildingStorey => Some(IfcType::IfcSpatialStructureElement),
            IfcType::IfcSpace => Some(IfcType::IfcSpatialStructureElement),
            IfcType::IfcFacility => Some(IfcType::IfcSpatialStructureElement),
            IfcType::IfcFacilityPart => Some(IfcType::IfcSpatialStructureElement),
            IfcType::IfcBridge => Some(IfcType::IfcFacility),
            IfcType::IfcBridgePart => Some(IfcType::IfcFacilityPart),
            IfcType::IfcRoad => Some(IfcType::IfcFacility),
            IfcType::IfcRoadPart => Some(IfcType::IfcFacilityPart),
            IfcType::IfcRailway => Some(IfcType::IfcFacility),
            IfcType::IfcRailwayPart => Some(IfcType::IfcFacilityPart),
            IfcType::IfcElement => Some(IfcType::IfcProduct),
            IfcType::IfcBuiltElement => Some(IfcType::IfcElement),
            IfcType::IfcCivilElement => Some(IfcType::IfcElement),
            IfcType::IfcGeographicElement => Some(IfcType::IfcElement),
            IfcType::IfcAnnotation => Some(IfcType::IfcProduct),
            IfcType::IfcPort => Some(IfcType::IfcProduct),
            IfcType::IfcElementAssembly => Some(IfcType::IfcElement),
            IfcType::IfcFurnishingElement => Some(IfcType::IfcElement),
            IfcType::IfcFurniture => Some(IfcType::IfcFurnishingElement),
            IfcType::IfcSystemFurnitureElement => Some(IfcType::IfcFurnishingElement),
            IfcType::IfcBuildingElementProxy => Some(IfcType::IfcBuiltElement),
            IfcType::IfcWall => Some(IfcType::IfcBuiltElement),
            IfcType::IfcWallStandardCase => Some(IfcType::IfcWall),
            IfcType::IfcCurtainWall => Some(IfcType::IfcBuiltElement),
            IfcType::IfcSlab => Some(IfcType::IfcBuiltElement),
            IfcType::IfcRoof => Some(IfcType::IfcBuiltElement),
            IfcType::IfcBeam => Some(IfcType::IfcBuiltElement),
            IfcType::IfcColumn => Some(IfcType::IfcBuiltElement),
            IfcType::IfcDoor => Some(IfcType::IfcBuiltElement),
            IfcType::IfcWindow => Some(IfcType::IfcBuiltElement),
            IfcType::IfcStair => Some(IfcType::IfcBuiltElement),
            IfcType::IfcStairFlight => Some(IfcType::IfcBuiltElement),
            IfcType::IfcRamp => Some(IfcType::IfcBuiltElement),
            IfcType::IfcRampFlight => Some(IfcType::IfcBuiltElement),
            IfcType::IfcRailing => Some(IfcType::IfcBuiltElement),
            IfcType::IfcCovering => Some(IfcType::IfcBuiltElement),
            IfcType::IfcPlate => Some(IfcType::IfcBuiltElement),
            IfcType::IfcMember => Some(IfcType::IfcBuiltElement),
            IfcType::IfcFooting => Some(IfcType::IfcBuiltElement),
            IfcType::IfcPile => Some(IfcType::IfcBuiltElement),
            IfcType::IfcDeepFoundation => Some(IfcType::IfcBuiltElement),
            IfcType::IfcFeatureElement => Some(IfcType::IfcElement),
            IfcType::IfcFeatureElementSubtraction => Some(IfcType::IfcFeatureElement),
            IfcType::IfcFeatureElementAddition => Some(IfcType::IfcFeatureElement),
            IfcType::IfcOpeningElement => Some(IfcType::IfcFeatureElementSubtraction),
            IfcType::IfcOpeningStandardCase => Some(IfcType::IfcOpeningElement),
            IfcType::IfcVoidingFeature => Some(IfcType::IfcFeatureElementSubtraction),
            IfcType::IfcProjectionElement => Some(IfcType::IfcFeatureElementAddition),
            IfcType::IfcDistributionElement => Some(IfcType::IfcElement),
            IfcType::IfcDistributionFlowElement => Some(IfcType::IfcDistributionElement),
            IfcType::IfcDistributionControlElement => Some(IfcType::IfcDistributionElement),
            IfcType::IfcFlowSegment => Some(IfcType::IfcDistributionFlowElement),
            IfcType::IfcFlowFitting => Some(IfcType::IfcDistributionFlowElement),
            IfcType::IfcFlowTerminal => Some(IfcType::IfcDistributionFlowElement),
            IfcType::IfcFlowController => Some(IfcType::IfcDistributionFlowElement),
            IfcType::IfcFlowMovingDevice => Some(IfcType::IfcDistributionFlowElement),
            IfcType::IfcFlowStorageDevice => Some(IfcType::IfcDistributionFlowElement),
            IfcType::IfcFlowTreatmentDevice => Some(IfcType::IfcDistributionFlowElement),
            IfcType::IfcEnergyConversionDevice => Some(IfcType::IfcDistributionFlowElement),
            IfcType::IfcCableSegment => Some(IfcType::IfcFlowSegment),
            IfcType::IfcCableCarrierSegment => Some(IfcType::IfcFlowSegment),
            IfcType::IfcCableCarrierFitting => Some(IfcType::IfcFlowFitting),
            IfcType::IfcPipeSegment => Some(IfcType::IfcFlowSegment),
            IfcType::IfcPipeFitting => Some(IfcType::IfcFlowFitting),
            IfcType::IfcSpaceHeater => Some(IfcType::IfcEnergyConversionDevice),
            IfcType::IfcAirTerminal => Some(IfcType::IfcFlowTerminal),
            IfcType::IfcLightFixture => Some(IfcType::IfcFlowTerminal),
            IfcType::IfcGeotechnicalElement => Some(IfcType::IfcElement),
            IfcType::IfcGeotechnicalAssembly => Some(IfcType::IfcGeotechnicalElement),
            IfcType::IfcBorehole => Some(IfcType::IfcGeotechnicalAssembly),
            IfcType::IfcGeomodel => Some(IfcType::IfcGeotechnicalAssembly),
            IfcType::IfcGeoslice => Some(IfcType::IfcGeotechnicalAssembly),
            IfcType::IfcSolidStratum => Some(IfcType::IfcGeotechnicalElement),
            IfcType::IfcVoidStratum => Some(IfcType::IfcGeotechnicalElement),
            IfcType::IfcWaterStratum => Some(IfcType::IfcGeotechnicalElement),
            IfcType::IfcEarthworksElement => Some(IfcType::IfcElement),
            IfcType::IfcEarthworksCut => Some(IfcType::IfcFeatureElementSubtraction),
            IfcType::IfcEarthworksFill => Some(IfcType::IfcEarthworksElement),
            IfcType::IfcPavement => Some(IfcType::IfcBuiltElement),
            IfcType::IfcCourse => Some(IfcType::IfcBuiltElement),
            IfcType::IfcKerb => Some(IfcType::IfcBuiltElement),
            _ => None,
        }
    }

    /// Get the type name as a string: the stored name of an unknown type,
    /// the upper-case wire name (the variant name in upper case) of a known
    /// one.
    pub fn name(&self) -> (r: &str)
        ensures
            r@ == self.spec_name(),
    {
        match self {
            IfcType::Unknown(s) => s.as_str(),
            IfcType::IfcRoot => "IFCROOT",
            IfcType::IfcObjectDefinition => "IFCOBJECTDEFINITION",
            IfcType::IfcObject => "IFCOBJECT",
            IfcType::IfcProduct => "IFCPRODUCT",
            IfcType::IfcElement => "IFCELEMENT",
            IfcType::IfcBuiltElement => "IFCBUILTELEMENT",
            IfcType::IfcSpatialElement => "IFCSPATIALELEMENT",
            IfcType::IfcSpatialStructureElement => "IFCSPATIALSTRUCTUREELEMENT",
            IfcType::IfcExternalSpatialStructureElement => "IFCEXTERNALSPATIALSTRUCTUREELEMENT",
            IfcType::IfcExternalSpatialElement => "IFCEXTERNALSPATIALELEMENT",
            IfcType::IfcSpatialZone => "IFCSPATIALZONE",
            IfcType::IfcCivilElement => "IFCCIVILELEMENT",
            IfcType::IfcGeographicElement => "IFCGEOGRAPHICELEMENT",
            IfcType::IfcAnnotation => "IFCANNOTATION",
            IfcType::IfcPort => "IFCPORT",
            IfcType::IfcFeatureElement => "IFCFEATUREELEMENT",
            IfcType::IfcFeatureElementAddition => "IFCFEATUREELEMENTADDITION",
            IfcType::IfcFeatureElementSubtraction => "IFCFEATUREELEMENTSUBTRACTION",
            IfcType::IfcGeotechnicalAssembly => "IFCGEOTECHNICALASSEMBLY",
            IfcType::IfcProject => "IFCPROJECT",
            IfcType::IfcSite => "IFCSITE",
            IfcType::IfcBuilding => "IFCBUILDING",
            IfcType::IfcBuildingStorey => "IFCBUILDINGSTOREY",
            IfcType::IfcSpace => "IFCSPACE",
            IfcType::IfcWall => "IFCWALL",
            IfcType::IfcWallStandardCase => "IFCWALLSTANDARDCASE",
            IfcType::IfcCurtainWall => "IFCCURTAINWALL",
            IfcType::IfcSlab => "IFCSLAB",
            IfcType::IfcRoof => "IFCROOF",
            IfcType::IfcBeam => "IFCBEAM",
            IfcType::IfcColumn => "IFCCOLUMN",
            IfcType::IfcDoor => "IFCDOOR",
            IfcType::IfcWindow => "IFCWINDOW",
            IfcType::IfcStair => "IFCSTAIR",
            IfcType::IfcStairFlight => "IFCSTAIRFLIGHT",
            IfcType::IfcRamp => "IFCRAMP",
            IfcType::IfcRampFlight => "IFCRAMPFLIGHT",
            IfcType::IfcRailing => "IFCRAILING",
            IfcType::IfcCovering => "IFCCOVERING",
            IfcType::IfcPlate => "IFCPLATE",
            IfcType::IfcMember => "IFCMEMBER",
            IfcType::IfcFooting => "IFCFOOTING",
            IfcType::IfcPile => "IFCPILE",
            IfcType::IfcBuildingElementProxy => "IFCBUILDINGELEMENTPROXY",
            IfcType::IfcElementAssembly => "IFCELEMENTASSEMBLY",
            IfcType::IfcDistributionElement => "IFCDISTRIBUTIONELEMENT",
            IfcType::IfcDistributionFlowElement => "IFCDISTRIBUTIONFLOWELEMENT",
            IfcType::IfcFlowTerminal => "IFCFLOWTERMINAL",
            IfcType::IfcFlowSegment => "IFCFLOWSEGMENT",
            IfcType::IfcFlowFitting => "IFCFLOWFITTING",
            IfcType::IfcFlowController => "IFCFLOWCONTROLLER",
            IfcType::IfcFlowMovingDevice => "IFCFLOWMOVINGDEVICE",
            IfcType::IfcFlowStorageDevice => "IFCFLOWSTORAGEDEVICE",
            IfcType::IfcFlowTreatmentDevice => "IFCFLOWTREATMENTDEVICE",
            IfcType::IfcEnergyConversionDevice => "IFCENERGYCONVERSIONDEVICE",
            IfcType::IfcDistributionControlElement => "IFCDISTRIBUTIONCONTROLELEMENT",
            IfcType::IfcCableSegment => "IFCCABLESEGMENT",
            IfcType::IfcCableCarrierSegment => "IFCCABLECARRIERSEGMENT",
            IfcType::IfcCableCarrierFitting => "IFCCABLECARRIERFITTING",
            IfcType::IfcPipeSegment => "IFCPIPESEGMENT",
            IfcType::IfcPipeFitting => "IFCPIPEFITTING",
            IfcType::IfcSpaceHeater => "IFCSPACEHEATER",
            IfcType::IfcAirTerminal => "IFCAIRTERMINAL",
            IfcType::IfcFurnishingElement => "IFCFURNISHINGELEMENT",
            IfcType::IfcFurniture => "IFCFURNITURE",
            IfcType::IfcSystemFurnitureElement => "IFCSYSTEMFURNITUREELEMENT",
            IfcType::IfcOpeningElement => "IFCOPENINGELEMENT",
            IfcType::IfcOpeningStandardCase => "IFCOPENINGSTANDARDCASE",
            IfcType::IfcVoidingFeature => "IFCVOIDINGFEATURE",
            IfcType::IfcProjectionElement => "IFCPROJECTIONELEMENT",
            IfcType::IfcExtrudedAreaSolid => "IFCEXTRUDEDAREASOLID",
            IfcType::IfcExtrudedAreaSolidTapered => "IFCEXTRUDEDAREASOLIDTAPERED",
            IfcType::IfcRevolvedAreaSolid => "IFCREVOLVEDAREASOLID",
            IfcType::IfcRevolvedAreaSolidTapered => "IFCREVOLVEDAREASOLIDTAPERED",
            IfcType::IfcSweptDiskSolid => "IFCSWEPTDISKSOLID",
            IfcType::IfcSweptDiskSolidPolygonal => "IFCSWEPTDISKSOLIDPOLYGONAL",
            IfcType::IfcSurfaceCurveSweptAreaSolid => "IFCSURFACECURVESWEPTAREASOLID",
            IfcType::IfcFixedReferenceSweptAreaSolid => "IFCFIXEDREFERENCESWEPTAREASOLID",
            IfcType::IfcFacetedBrep => "IFCFACETEDBREP",
            IfcType::IfcFacetedBrepWithVoids => "IFCFACETEDBREPWITHVOIDS",
            IfcType::IfcAdvancedBrep => "IFCADVANCEDBREP",
            IfcType::IfcAdvancedBrepWithVoids => "IFCADVANCEDBREPWITHVOIDS",
            IfcType::IfcTriangulatedFaceSet => "IFCTRIANGULATEDFACESET",
            IfcType::IfcPolygonalFaceSet => "IFCPOLYGONALFACESET",
            IfcType::IfcTessellatedFaceSet => "IFCTESSELLATEDFACESET",
            IfcType::IfcBooleanResult => "IFCBOOLEANRESULT",
            IfcType::IfcBooleanClippingResult => "IFCBOOLEANCLIPPINGRESULT",
            IfcType::IfcMappedItem => "IFCMAPPEDITEM",
            IfcType::IfcRepresentationMap => "IFCREPRESENTATIONMAP",
            IfcType::IfcBlock => "IFCBLOCK",
            IfcType::IfcRectangularPyramid => "IFCRECTANGULARPYRAMID",
            IfcType::IfcRightCircularCone => "IFCRIGHTCIRCULARCONE",
            IfcType::IfcRightCircularCylinder => "IFCRIGHTCIRCULARCYLINDER",
            IfcType::IfcSphere => "IFCSPHERE",
            IfcType::IfcHalfSpaceSolid => "IFCHALFSPACESOLID",
            IfcType::IfcPolygonalBoundedHalfSpace => "IFCPOLYGONALBOUNDEDHALFSPACE",
            IfcType::IfcBoxedHalfSpace => "IFCBOXEDHALFSPACE",
            IfcType::IfcArbitraryClosedProfileDef => "IFCARBITRARYCLOSEDPROFILEDEF",
            IfcType::IfcArbitraryProfileDefWithVoids => "IFCARBITRARYPROFILEDEFWITHVOIDS",
            IfcType::IfcRectangleProfileDef => "IFCRECTANGLEPROFILEDEF",
            IfcType::IfcRectangleHollowProfileDef => "IFCRECTANGLEHOLLOWPROFILEDEF",
            IfcType::IfcCircleProfileDef => "IFCCIRCLEPROFILEDEF",
            IfcType::IfcCircleHollowProfileDef => "IFCCIRCLEHOLLOWPROFILEDEF",
            IfcType::IfcEllipseProfileDef => "IFCELLIPSEPROFILEDEF",
            IfcType::IfcIShapeProfileDef => "IFCISHAPEPROFILEDEF",
            IfcType::IfcLShapeProfileDef => "IFCLSHAPEPROFILEDEF",
            IfcType::IfcTShapeProfileDef => "IFCTSHAPEPROFILEDEF",
            IfcType::IfcUShapeProfileDef => "IFCUSHAPEPROFILEDEF",
            IfcType::IfcCShapeProfileDef => "IFCCSHAPEPROFILEDEF",
            IfcType::IfcZShapeProfileDef => "IFCZSHAPEPROFILEDEF",
            IfcType::IfcAsymmetricIShapeProfileDef => "IFCASYMMETRICISHAPEPROFILEDEF",
            IfcType::IfcTrapeziumProfileDef => "IFCTRAPEZIUMPROFILEDEF",
            IfcType::IfcCompositeProfileDef => "IFCCOMPOSITEPROFILEDEF",
            IfcType::IfcDerivedProfileDef => "IFCDERIVEDPROFILEDEF",
            IfcType::IfcCenterLineProfileDef => "IFCCENTERLINEPROFILEDEF",
            IfcType::IfcPolyline => "IFCPOLYLINE",
            IfcType::IfcCompositeCurve => "IFCCOMPOSITECURVE",
            IfcType::IfcCompositeCurveSegment => "IFCCOMPOSITECURVESEGMENT",
            IfcType::IfcTrimmedCurve => "IFCTRIMMEDCURVE",
            IfcType::IfcCircle => "IFCCIRCLE",
            IfcType::IfcEllipse => "IFCELLIPSE",
            IfcType::IfcLine => "IFCLINE",
            IfcType::IfcBSplineCurve => "IFCBSPLINECURVE",
            IfcType::IfcBSplineCurveWithKnots => "IFCBSPLINECURVEWITHKNOTS",
            IfcType::IfcRationalBSplineCurveWithKnots => "IFCRATIONALBSPLINECURVEWITHKNOTS",
            IfcType::IfcIndexedPolyCurve => "IFCINDEXEDPOLYCURVE",
            IfcType::IfcPlane => "IFCPLANE",
            IfcType::IfcCurveBoundedPlane => "IFCCURVEBOUNDEDPLANE",
            IfcType::IfcCylindricalSurface => "IFCCYLINDRICALSURFACE",
            IfcType::IfcBSplineSurface => "IFCBSPLINESURFACE",
            IfcType::IfcBSplineSurfaceWithKnots => "IFCBSPLINESURFACEWITHKNOTS",
            IfcType::IfcRationalBSplineSurfaceWithKnots => "IFCRATIONALBSPLINESURFACEWITHKNOTS",
            IfcType::IfcCartesianPoint => "IFCCARTESIANPOINT",
            IfcType::IfcDirection => "IFCDIRECTION",
            IfcType::IfcVector => "IFCVECTOR",
            IfcType::IfcCartesianPointList2D => "IFCCARTESIANPOINTLIST2D",
            IfcType::IfcCartesianPointList3D => "IFCCARTESIANPOINTLIST3D",
            IfcType::IfcAxis2Placement2D => "IFCAXIS2PLACEMENT2D",
            IfcType::IfcAxis2Placement3D => "IFCAXIS2PLACEMENT3D",
            IfcType::IfcLocalPlacement => "IFCLOCALPLACEMENT",
            IfcType::IfcCartesianTransformationOperator3D => "IFCCARTESIANTRANSFORMATIONOPERATOR3D",
            IfcType::IfcCartesianTransformationOperator3DnonUniform => "IFCCARTESIANTRANSFORMATIONOPERATOR3DNONUNIFORM",
            IfcType::IfcShapeRepresentation => "IFCSHAPEREPRESENTATION",
            IfcType::IfcProductDefinitionShape => "IFCPRODUCTDEFINITIONSHAPE",
            IfcType::IfcGeometricRepresentationContext => "IFCGEOMETRICREPRESENTATIONCONTEXT",
            IfcType::IfcGeometricRepresentationSubContext => "IFCGEOMETRICREPRESENTATIONSUBCONTEXT",
            IfcType::IfcClosedShell => "IFCCLOSEDSHELL",
            IfcType::IfcOpenShell => "IFCOPENSHELL",
            IfcType::IfcFace => "IFCFACE",
            IfcType::IfcFaceBound => "IFCFACEBOUND",
            IfcType::IfcFaceOuterBound => "IFCFACEOUTERBOUND",
            IfcType::IfcPolyLoop => "IFCPOLYLOOP",
            IfcType::IfcEdgeLoop => "IFCEDGELOOP",
            IfcType::IfcOrientedEdge => "IFCORIENTEDEDGE",
            IfcType::IfcEdgeCurve => "IFCEDGECURVE",
            IfcType::IfcVertexPoint => "IFCVERTEXPOINT",
            IfcType::IfcConnectedFaceSet => "IFCCONNECTEDFACESET",
            IfcType::IfcRelContainedInSpatialStructure => "IFCRELCONTAINEDINSPATIALSTRUCTURE",
            IfcType::IfcRelAggregates => "IFCRELAGGREGATES",
            IfcType::IfcRelDefinesByProperties => "IFCRELDEFINESBYPROPERTIES",
            IfcType::IfcRelDefinesByType => "IFCRELDEFINESBYTYPE",
            IfcType::IfcRelAssociatesMaterial => "IFCRELASSOCIATESMATERIAL",
            IfcType::IfcRelVoidsElement => "IFCRELVOIDSELEMENT",
            IfcType::IfcRelFillsElement => "IFCRELFILLSELEMENT",
            IfcType::IfcRelConnectsPathElements => "IFCRELCONNECTSPATHELEMENTS",
            IfcType::IfcRelSpaceBoundary => "IFCRELSPACEBOUNDARY",
            IfcType::IfcRelAssignsToGroup => "IFCRELASSIGNSTOGROUP",
            IfcType::IfcPropertySet => "IFCPROPERTYSET",
            IfcType::IfcPropertySingleValue => "IFCPROPERTYSINGLEVALUE",
            IfcType::IfcPropertyEnumeratedValue => "IFCPROPERTYENUMERATEDVALUE",
            IfcType::IfcPropertyBoundedValue => "IFCPROPERTYBOUNDEDVALUE",
            IfcType::IfcPropertyListValue => "IFCPROPERTYLISTVALUE",
            IfcType::IfcPropertyTableValue => "IFCPROPERTYTABLEVALUE",
            IfcType::IfcComplexProperty => "IFCCOMPLEXPROPERTY",
            IfcType::IfcElementQuantity => "IFCELEMENTQUANTITY",
            IfcType::IfcQuantityLength => "IFCQUANTITYLENGTH",
            IfcType::IfcQuantityArea => "IFCQUANTITYAREA",
            IfcType::IfcQuantityVolume => "IFCQUANTITYVOLUME",
            IfcType::IfcQuantityCount => "IFCQUANTITYCOUNT",
            IfcType::IfcQuantityWeight => "IFCQUANTITYWEIGHT",
            IfcType::IfcQuantityTime => "IFCQUANTITYTIME",
            IfcType::IfcMaterial => "IFCMATERIAL",
            IfcType::IfcMaterialLayer => "IFCMATERIALLAYER",
            IfcType::IfcMaterialLayerSet => "IFCMATERIALLAYERSET",
            IfcType::IfcMaterialLayerSetUsage => "IFCMATERIALLAYERSETUSAGE",
            IfcType::IfcMaterialList => "IFCMATERIALLIST",
            IfcType::IfcMaterialConstituentSet => "IFCMATERIALCONSTITUENTSET",
            IfcType::IfcMaterialConstituent => "IFCMATERIALCONSTITUENT",
            IfcType::IfcMaterialProfile => "IFCMATERIALPROFILE",
            IfcType::IfcMaterialProfileSet => "IFCMATERIALPROFILESET",
            IfcType::IfcMaterialProfileSetUsage => "IFCMATERIALPROFILESETUSAGE",
            IfcType::IfcStyledItem => "IFCSTYLEDITEM",
            IfcType::IfcSurfaceStyle => "IFCSURFACESTYLE",
            IfcType::IfcSurfaceStyleRendering => "IFCSURFACESTYLERENDERING",
            IfcType::IfcColourRgb => "IFCCOLOURRGB",
            IfcType::IfcPresentationLayerAssignment => "IFCPRESENTATIONLAYERASSIGNMENT",
            IfcType::IfcLightFixture => "IFCLIGHTFIXTURE",
            IfcType::IfcLightFixtureType => "IFCLIGHTFIXTURETYPE",
            IfcType::IfcLightSource => "IFCLIGHTSOURCE",
            IfcType::IfcLightSourceAmbient => "IFCLIGHTSOURCEAMBIENT",
            IfcType::IfcLightSourceDirectional => "IFCLIGHTSOURCEDIRECTIONAL",
            IfcType::IfcLightSourceGoniometric => "IFCLIGHTSOURCEGONIOMETRIC",
            IfcType::IfcLightSourcePositional => "IFCLIGHTSOURCEPOSITIONAL",
            IfcType::IfcLightSourceSpot => "IFCLIGHTSOURCESPOT",
            IfcType::IfcLightIntensityDistribution => "IFCLIGHTINTENSITYDISTRIBUTION",
            IfcType::IfcLightDistributionData => "IFCLIGHTDISTRIBUTIONDATA",
            IfcType::IfcUnitAssignment => "IFCUNITASSIGNMENT",
            IfcType::IfcSIUnit => "IFCSIUNIT",
            IfcType::IfcConversionBasedUnit => "IFCCONVERSIONBASEDUNIT",
            IfcType::IfcDerivedUnit => "IFCDERIVEDUNIT",
            IfcType::IfcMeasureWithUnit => "IFCMEASUREWITHUNIT",
            IfcType::IfcWallType => "IFCWALLTYPE",
            IfcType::IfcSlabType => "IFCSLABTYPE",
            IfcType::IfcBeamType => "IFCBEAMTYPE",
            IfcType::IfcColumnType => "IFCCOLUMNTYPE",
            IfcType::IfcDoorType => "IFCDOORTYPE",
            IfcType::IfcWindowType => "IFCWINDOWTYPE",
            IfcType::IfcCoveringType => "IFCCOVERINGTYPE",
            IfcType::IfcRailingType => "IFCRAILINGTYPE",
            IfcType::IfcStairType => "IFCSTAIRTYPE",
            IfcType::IfcStairFlightType => "IFCSTAIRFLIGHTTYPE",
            IfcType::IfcRampType => "IFCRAMPTYPE",
            IfcType::IfcRampFlightType => "IFCRAMPFLIGHTTYPE",
            IfcType::IfcRoofType => "IFCROOFTYPE",
            IfcType::IfcMemberType => "IFCMEMBERTYPE",
            IfcType::IfcPlateType => "IFCPLATETYPE",
            IfcType::IfcFootingType => "IFCFOOTINGTYPE",
            IfcType::IfcPileType => "IFCPILETYPE",
            IfcType::IfcBuildingElementProxyType => "IFCBUILDINGELEMENTPROXYTYPE",
            IfcType::IfcAlignment => "IFCALIGNMENT",
            IfcType::IfcAlignmentCant => "IFCALIGNMENTCANT",
            IfcType::IfcAlignmentHorizontal => "IFCALIGNMENTHORIZONTAL",
            IfcType::IfcAlignmentVertical => "IFCALIGNMENTVERTICAL",
            IfcType::IfcAlignmentSegment => "IFCALIGNMENTSEGMENT",
            IfcType::IfcRoad => "IFCROAD",
            IfcType::IfcRoadPart => "IFCROADPART",
            IfcType::IfcBridge => "IFCBRIDGE",
            IfcType::IfcBridgePart => "IFCBRIDGEPART",
            IfcType::IfcRailway => "IFCRAILWAY",
            IfcType::IfcRailwayPart => "IFCRAILWAYPART",
            IfcType::IfcFacility => "IFCFACILITY",
            IfcType::IfcFacilityPart => "IFCFACILITYPART",
            IfcType::IfcGeotechnicalElement => "IFCGEOTECHNICALELEMENT",
            IfcType::IfcBorehole => "IFCBOREHOLE",
            IfcType::IfcGeomodel => "IFCGEOMODEL",
            IfcType::IfcGeoslice => "IFCGEOSLICE",
            IfcType::IfcSolidStratum => "IFCSOLIDSTRATUM",
            IfcType::IfcVoidStratum => "IFCVOIDSTRATUM",
            IfcType::IfcWaterStratum => "IFCWATERSTRATUM",
            IfcType::IfcEarthworksCut => "IFCEARTHWORKSCUT",
            IfcType::IfcEarthworksFill => "IFCEARTHWORKSFILL",
            IfcType::IfcEarthworksElement => "IFCEARTHWORKSELEMENT",
            IfcType::IfcPavement => "IFCPAVEMENT",
            IfcType::IfcCourse => "IFCCOURSE",
            IfcType::IfcKerb => "IFCKERB",
            IfcType::IfcDeepFoundation => "IFCDEEPFOUNDATION",
        }
    }
}

} // verus!
