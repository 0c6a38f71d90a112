//! Wire names read back: parsing the name of any named variant that
//! parsing can return gives that same variant.

use vstd::prelude::*;

use super::ifc_type_table::{
    lookup_upper, lookup_upper_0, lookup_upper_1, lookup_upper_2, lookup_upper_3, lookup_upper_4,
    lookup_upper_5, lookup_upper_6, lookup_upper_7, IfcType,
};

verus! {

broadcast use vstd::string::group_string_axioms;

/// The lengths of a run of wire names.
spec fn wire_name_lengths_0() -> bool {
    &&& "IFCPROJECT"@.len() == 10
    &&& "IFCSITE"@.len() == 7
    &&& "IFCBUILDING"@.len() == 11
    &&& "IFCBUILDINGSTOREY"@.len() == 17
    &&& "IFCSPACE"@.len() == 8
    &&& "IFCWALL"@.len() == 7
    &&& "IFCWALLSTANDARDCASE"@.len() == 19
    &&& "IFCCURTAINWALL"@.len() == 14
    &&& "IFCSLAB"@.len() == 7
    &&& "IFCROOF"@.len() == 7
    &&& "IFCBEAM"@.len() == 7
    &&& "IFCCOLUMN"@.len() == 9
    &&& "IFCDOOR"@.len() == 7
    &&& "IFCWINDOW"@.len() == 9
    &&& "IFCSTAIR"@.len() == 8
    &&& "IFCSTAIRFLIGHT"@.len() == 14
    &&& "IFCRAMP"@.len() == 7
    &&& "IFCRAMPFLIGHT"@.len() == 13
    &&& "IFCRAILING"@.len() == 10
    &&& "IFCCOVERING"@.len() == 11
    &&& "IFCPLATE"@.len() == 8
    &&& "IFCMEMBER"@.len() == 9
    &&& "IFCFOOTING"@.len() == 10
    &&& "IFCPILE"@.len() == 7
    &&& "IFCBUILDINGELEMENTPROXY"@.len() == 23
    &&& "IFCELEMENTASSEMBLY"@.len() == 18
    &&& "IFCDISTRIBUTIONELEMENT"@.len() == 22
    &&& "IFCDISTRIBUTIONFLOWELEMENT"@.len() == 26
    &&& "IFCFLOWTERMINAL"@.len() == 15
    &&& "IFCFLOWSEGMENT"@.len() == 14
}

proof fn lemma_wire_name_lengths_0()
    ensures
        wire_name_lengths_0(),
{
    reveal_strlit("IFCPROJECT");
    reveal_strlit("IFCSITE");
    reveal_strlit("IFCBUILDING");
    reveal_strlit("IFCBUILDINGSTOREY");
    reveal_strlit("IFCSPACE");
    reveal_strlit("IFCWALL");
    reveal_strlit("IFCWALLSTANDARDCASE");
    reveal_strlit("IFCCURTAINWALL");
    reveal_strlit("IFCSLAB");
    reveal_strlit("IFCROOF");
    reveal_strlit("IFCBEAM");
    reveal_strlit("IFCCOLUMN");
    reveal_strlit("IFCDOOR");
    reveal_strlit("IFCWINDOW");
    reveal_strlit("IFCSTAIR");
    reveal_strlit("IFCSTAIRFLIGHT");
    reveal_strlit("IFCRAMP");
    reveal_strlit("IFCRAMPFLIGHT");
    reveal_strlit("IFCRAILING");
    reveal_strlit("IFCCOVERING");
    reveal_strlit("IFCPLATE");
    reveal_strlit("IFCMEMBER");
    reveal_strlit("IFCFOOTING");
    reveal_strlit("IFCPILE");
    reveal_strlit("IFCBUILDINGELEMENTPROXY");
    reveal_strlit("IFCELEMENTASSEMBLY");
    reveal_strlit("IFCDISTRIBUTIONELEMENT");
    reveal_strlit("IFCDISTRIBUTIONFLOWELEMENT");
    reveal_strlit("IFCFLOWTERMINAL");
    reveal_strlit("IFCFLOWSEGMENT");
}

/// The lengths of a run of wire names.
spec fn wire_name_lengths_1() -> bool {
    &&& "IFCFLOWFITTING"@.len() == 14
    &&& "IFCFLOWCONTROLLER"@.len() == 17
    &&& "IFCFLOWMOVINGDEVICE"@.len() == 19
    &&& "IFCFLOWSTORAGEDEVICE"@.len() == 20
    &&& "IFCFLOWTREATMENTDEVICE"@.len() == 22
    &&& "IFCENERGYCONVERSIONDEVICE"@.len() == 25
    &&& "IFCDISTRIBUTIONCONTROLELEMENT"@.len() == 29
    &&& "IFCCABLESEGMENT"@.len() == 15
    &&& "IFCCABLECARRIERSEGMENT"@.len() == 22
    &&& "IFCCABLECARRIERFITTING"@.len() == 22
    &&& "IFCPIPESEGMENT"@.len() == 14
    &&& "IFCPIPEFITTING"@.len() == 14
    &&& "IFCSPACEHEATER"@.len() == 14
    &&& "IFCAIRTERMINAL"@.len() == 14
    &&& "IFCFURNISHINGELEMENT"@.len() == 20
    &&& "IFCFURNITURE"@.len() == 12
    &&& "IFCSYSTEMFURNITUREELEMENT"@.len() == 25
    &&& "IFCOPENINGELEMENT"@.len() == 17
    &&& "IFCOPENINGSTANDARDCASE"@.len() == 22
    &&& "IFCVOIDINGFEATURE"@.len() == 17
    &&& "IFCPROJECTIONELEMENT"@.len() == 20
    &&& "IFCEXTRUDEDAREASOLID"@.len() == 20
    &&& "IFCEXTRUDEDAREASOLIDTAPERED"@.len() == 27
    &&& "IFCREVOLVEDAREASOLID"@.len() == 20
    &&& "IFCREVOLVEDAREASOLIDTAPERED"@.len() == 27
    &&& "IFCSWEPTDISKSOLID"@.len() == 17
    &&& "IFCSWEPTDISKSOLIDPOLYGONAL"@.len() == 26
    &&& "IFCSURFACECURVESWEPTAREASOLID"@.len() == 29
    &&& "IFCFIXEDREFERENCESWEPTAREASOLID"@.len() == 31
    &&& "IFCFACETEDBREP"@.len() == 14
}

proof fn lemma_wire_name_lengths_1()
    ensures
        wire_name_lengths_1(),
{
    reveal_strlit("IFCFLOWFITTING");
    reveal_strlit("IFCFLOWCONTROLLER");
    reveal_strlit("IFCFLOWMOVINGDEVICE");
    reveal_strlit("IFCFLOWSTORAGEDEVICE");
    reveal_strlit("IFCFLOWTREATMENTDEVICE");
    reveal_strlit("IFCENERGYCONVERSIONDEVICE");
    reveal_strlit("IFCDISTRIBUTIONCONTROLELEMENT");
    reveal_strlit("IFCCABLESEGMENT");
    reveal_strlit("IFCCABLECARRIERSEGMENT");
    reveal_strlit("IFCCABLECARRIERFITTING");
    reveal_strlit("IFCPIPESEGMENT");
    reveal_strlit("IFCPIPEFITTING");
    reveal_strlit("IFCSPACEHEATER");
    reveal_strlit("IFCAIRTERMINAL");
    reveal_strlit("IFCFURNISHINGELEMENT");
    reveal_strlit("IFCFURNITURE");
    reveal_strlit("IFCSYSTEMFURNITUREELEMENT");
    reveal_strlit("IFCOPENINGELEMENT");
    reveal_strlit("IFCOPENINGSTANDARDCASE");
    reveal_strlit("IFCVOIDINGFEATURE");
    reveal_strlit("IFCPROJECTIONELEMENT");
    reveal_strlit("IFCEXTRUDEDAREASOLID");
    reveal_strlit("IFCEXTRUDEDAREASOLIDTAPERED");
    reveal_strlit("IFCREVOLVEDAREASOLID");
    reveal_strlit("IFCREVOLVEDAREASOLIDTAPERED");
    reveal_strlit("IFCSWEPTDISKSOLID");
    reveal_strlit("IFCSWEPTDISKSOLIDPOLYGONAL");
    reveal_strlit("IFCSURFACECURVESWEPTAREASOLID");
    reveal_strlit("IFCFIXEDREFERENCESWEPTAREASOLID");
    reveal_strlit("IFCFACETEDBREP");
}

/// The lengths of a run of wire names.
spec fn wire_name_lengths_2() -> bool {
    &&& "IFCFACETEDBREPWITHVOIDS"@.len() == 23
    &&& "IFCADVANCEDBREP"@.len() == 15
    &&& "IFCADVANCEDBREPWITHVOIDS"@.len() == 24
    &&& "IFCTRIANGULATEDFACESET"@.len() == 22
    &&& "IFCPOLYGONALFACESET"@.len() == 19
    &&& "IFCTESSELLATEDFACESET"@.len() == 21
    &&& "IFCBOOLEANRESULT"@.len() == 16
    &&& "IFCBOOLEANCLIPPINGRESULT"@.len() == 24
    &&& "IFCMAPPEDITEM"@.len() == 13
    &&& "IFCREPRESENTATIONMAP"@.len() == 20
    &&& "IFCBLOCK"@.len() == 8
    &&& "IFCRECTANGULARPYRAMID"@.len() == 21
    &&& "IFCRIGHTCIRCULARCONE"@.len() == 20
    &&& "IFCRIGHTCIRCULARCYLINDER"@.len() == 24
    &&& "IFCSPHERE"@.len() == 9
    &&& "IFCHALFSPACESOLID"@.len() == 17
    &&& "IFCPOLYGONALBOUNDEDHALFSPACE"@.len() == 28
    &&& "IFCBOXEDHALFSPACE"@.len() == 17
    &&& "IFCARBITRARYCLOSEDPROFILEDEF"@.len() == 28
    &&& "IFCARBITRARYPROFILEDEFWITHVOIDS"@.len() == 31
    &&& "IFCRECTANGLEPROFILEDEF"@.len() == 22
    &&& "IFCRECTANGLEHOLLOWPROFILEDEF"@.len() == 28
    &&& "IFCCIRCLEPROFILEDEF"@.len() == 19
    &&& "IFCCIRCLEHOLLOWPROFILEDEF"@.len() == 25
    &&& "IFCELLIPSEPROFILEDEF"@.len() == 20
    &&& "IFCISHAPEPROFILEDEF"@.len() == 19
    &&& "IFCLSHAPEPROFILEDEF"@.len() == 19
    &&& "IFCTSHAPEPROFILEDEF"@.len() == 19
    &&& "IFCUSHAPEPROFILEDEF"@.len() == 19
    &&& "IFCCSHAPEPROFILEDEF"@.len() == 19
}

proof fn lemma_wire_name_lengths_2()
    ensures
        wire_name_lengths_2(),
{
    reveal_strlit("IFCFACETEDBREPWITHVOIDS");
    reveal_strlit("IFCADVANCEDBREP");
    reveal_strlit("IFCADVANCEDBREPWITHVOIDS");
    reveal_strlit("IFCTRIANGULATEDFACESET");
    reveal_strlit("IFCPOLYGONALFACESET");
    reveal_strlit("IFCTESSELLATEDFACESET");
    reveal_strlit("IFCBOOLEANRESULT");
    reveal_strlit("IFCBOOLEANCLIPPINGRESULT");
    reveal_strlit("IFCMAPPEDITEM");
    reveal_strlit("IFCREPRESENTATIONMAP");
    reveal_strlit("IFCBLOCK");
    reveal_strlit("IFCRECTANGULARPYRAMID");
    reveal_strlit("IFCRIGHTCIRCULARCONE");
    reveal_strlit("IFCRIGHTCIRCULARCYLINDER");
    reveal_strlit("IFCSPHERE");
    reveal_strlit("IFCHALFSPACESOLID");
    reveal_strlit("IFCPOLYGONALBOUNDEDHALFSPACE");
    reveal_strlit("IFCBOXEDHALFSPACE");
    reveal_strlit("IFCARBITRARYCLOSEDPROFILEDEF");
    reveal_strlit("IFCARBITRARYPROFILEDEFWITHVOIDS");
    reveal_strlit("IFCRECTANGLEPROFILEDEF");
    reveal_strlit("IFCRECTANGLEHOLLOWPROFILEDEF");
    reveal_strlit("IFCCIRCLEPROFILEDEF");
    reveal_strlit("IFCCIRCLEHOLLOWPROFILEDEF");
    reveal_strlit("IFCELLIPSEPROFILEDEF");
    reveal_strlit("IFCISHAPEPROFILEDEF");
    reveal_strlit("IFCLSHAPEPROFILEDEF");
    reveal_strlit("IFCTSHAPEPROFILEDEF");
    reveal_strlit("IFCUSHAPEPROFILEDEF");
    reveal_strlit("IFCCSHAPEPROFILEDEF");
}

/// The lengths of a run of wire names.
spec fn wire_name_lengths_3() -> bool {
    &&& "IFCZSHAPEPROFILEDEF"@.len() == 19
    &&& "IFCASYMMETRICISHAPEPROFILEDEF"@.len() == 29
    &&& "IFCTRAPEZIUMPROFILEDEF"@.len() == 22
    &&& "IFCCOMPOSITEPROFILEDEF"@.len() == 22
    &&& "IFCDERIVEDPROFILEDEF"@.len() == 20
    &&& "IFCCENTERLINEPROFILEDEF"@.len() == 23
    &&& "IFCPOLYLINE"@.len() == 11
    &&& "IFCCOMPOSITECURVE"@.len() == 17
    &&& "IFCCOMPOSITECURVESEGMENT"@.len() == 24
    &&& "IFCTRIMMEDCURVE"@.len() == 15
    &&& "IFCCIRCLE"@.len() == 9
    &&& "IFCELLIPSE"@.len() == 10
    &&& "IFCLINE"@.len() == 7
    &&& "IFCBSPLINECURVE"@.len() == 15
    &&& "IFCBSPLINECURVEWITHKNOTS"@.len() == 24
    &&& "IFCRATIONALBSPLINECURVEWITHKNOTS"@.len() == 32
    &&& "IFCINDEXEDPOLYCURVE"@.len() == 19
    &&& "IFCPLANE"@.len() == 8
    &&& "IFCCURVEBOUNDEDPLANE"@.len() == 20
    &&& "IFCCYLINDRICALSURFACE"@.len() == 21
    &&& "IFCBSPLINESURFACE"@.len() == 17
    &&& "IFCBSPLINESURFACEWITHKNOTS"@.len() == 26
    &&& "IFCRATIONALBSPLINESURFACEWITHKNOTS"@.len() == 34
    &&& "IFCCARTESIANPOINT"@.len() == 17
    &&& "IFCDIRECTION"@.len() == 12
    &&& "IFCVECTOR"@.len() == 9
    &&& "IFCCARTESIANPOINTLIST2D"@.len() == 23
    &&& "IFCCARTESIANPOINTLIST3D"@.len() == 23
    &&& "IFCAXIS2PLACEMENT2D"@.len() == 19
    &&& "IFCAXIS2PLACEMENT3D"@.len() == 19
}

proof fn lemma_wire_name_lengths_3()
    ensures
        wire_name_lengths_3(),
{
    reveal_strlit("IFCZSHAPEPROFILEDEF");
    reveal_strlit("IFCASYMMETRICISHAPEPROFILEDEF");
    reveal_strlit("IFCTRAPEZIUMPROFILEDEF");
    reveal_strlit("IFCCOMPOSITEPROFILEDEF");
    reveal_strlit("IFCDERIVEDPROFILEDEF");
    reveal_strlit("IFCCENTERLINEPROFILEDEF");
    reveal_strlit("IFCPOLYLINE");
    reveal_strlit("IFCCOMPOSITECURVE");
    reveal_strlit("IFCCOMPOSITECURVESEGMENT");
    reveal_strlit("IFCTRIMMEDCURVE");
    reveal_strlit("IFCCIRCLE");
    reveal_strlit("IFCELLIPSE");
    reveal_strlit("IFCLINE");
    reveal_strlit("IFCBSPLINECURVE");
    reveal_strlit("IFCBSPLINECURVEWITHKNOTS");
    reveal_strlit("IFCRATIONALBSPLINECURVEWITHKNOTS");
    reveal_strlit("IFCINDEXEDPOLYCURVE");
    reveal_strlit("IFCPLANE");
    reveal_strlit("IFCCURVEBOUNDEDPLANE");
    reveal_strlit("IFCCYLINDRICALSURFACE");
    reveal_strlit("IFCBSPLINESURFACE");
    reveal_strlit("IFCBSPLINESURFACEWITHKNOTS");
    reveal_strlit("IFCRATIONALBSPLINESURFACEWITHKNOTS");
    reveal_strlit("IFCCARTESIANPOINT");
    reveal_strlit("IFCDIRECTION");
    reveal_strlit("IFCVECTOR");
    reveal_strlit("IFCCARTESIANPOINTLIST2D");
    reveal_strlit("IFCCARTESIANPOINTLIST3D");
    reveal_strlit("IFCAXIS2PLACEMENT2D");
    reveal_strlit("IFCAXIS2PLACEMENT3D");
}

/// The lengths of a run of wire names.
spec fn wire_name_lengths_4() -> bool {
    &&& "IFCLOCALPLACEMENT"@.len() == 17
    &&& "IFCCARTESIANTRANSFORMATIONOPERATOR3D"@.len() == 36
    &&& "IFCSHAPEREPRESENTATION"@.len() == 22
    &&& "IFCPRODUCTDEFINITIONSHAPE"@.len() == 25
    &&& "IFCGEOMETRICREPRESENTATIONCONTEXT"@.len() == 33
    &&& "IFCGEOMETRICREPRESENTATIONSUBCONTEXT"@.len() == 36
    &&& "IFCCLOSEDSHELL"@.len() == 14
    &&& "IFCOPENSHELL"@.len() == 12
    &&& "IFCFACE"@.len() == 7
    &&& "IFCFACEBOUND"@.len() == 12
    &&& "IFCFACEOUTERBOUND"@.len() == 17
    &&& "IFCPOLYLOOP"@.len() == 11
    &&& "IFCEDGELOOP"@.len() == 11
    &&& "IFCORIENTEDEDGE"@.len() == 15
    &&& "IFCEDGECURVE"@.len() == 12
    &&& "IFCVERTEXPOINT"@.len() == 14
    &&& "IFCCONNECTEDFACESET"@.len() == 19
    &&& "IFCRELCONTAINEDINSPATIALSTRUCTURE"@.len() == 33
    &&& "IFCRELAGGREGATES"@.len() == 16
    &&& "IFCRELDEFINESBYPROPERTIES"@.len() == 25
    &&& "IFCRELDEFINESBYTYPE"@.len() == 19
    &&& "IFCRELASSOCIATESMATERIAL"@.len() == 24
    &&& "IFCRELVOIDSELEMENT"@.len() == 18
    &&& "IFCRELFILLSELEMENT"@.len() == 18
    &&& "IFCRELCONNECTSPATHELEMENTS"@.len() == 26
    &&& "IFCRELSPACEBOUNDARY"@.len() == 19
    &&& "IFCRELASSIGNSTOGROUP"@.len() == 20
    &&& "IFCPROPERTYSET"@.len() == 14
    &&& "IFCPROPERTYSINGLEVALUE"@.len() == 22
    &&& "IFCPROPERTYENUMERATEDVALUE"@.len() == 26
}

proof fn lemma_wire_name_lengths_4()
    ensures
        wire_name_lengths_4(),
{
    reveal_strlit("IFCLOCALPLACEMENT");
    reveal_strlit("IFCCARTESIANTRANSFORMATIONOPERATOR3D");
    reveal_strlit("IFCSHAPEREPRESENTATION");
    reveal_strlit("IFCPRODUCTDEFINITIONSHAPE");
    reveal_strlit("IFCGEOMETRICREPRESENTATIONCONTEXT");
    reveal_strlit("IFCGEOMETRICREPRESENTATIONSUBCONTEXT");
    reveal_strlit("IFCCLOSEDSHELL");
    reveal_strlit("IFCOPENSHELL");
    reveal_strlit("IFCFACE");
    reveal_strlit("IFCFACEBOUND");
    reveal_strlit("IFCFACEOUTERBOUND");
    reveal_strlit("IFCPOLYLOOP");
    reveal_strlit("IFCEDGELOOP");
    reveal_strlit("IFCORIENTEDEDGE");
    reveal_strlit("IFCEDGECURVE");
    reveal_strlit("IFCVERTEXPOINT");
    reveal_strlit("IFCCONNECTEDFACESET");
    reveal_strlit("IFCRELCONTAINEDINSPATIALSTRUCTURE");
    reveal_strlit("IFCRELAGGREGATES");
    reveal_strlit("IFCRELDEFINESBYPROPERTIES");
    reveal_strlit("IFCRELDEFINESBYTYPE");
    reveal_strlit("IFCRELASSOCIATESMATERIAL");
    reveal_strlit("IFCRELVOIDSELEMENT");
    reveal_strlit("IFCRELFILLSELEMENT");
    reveal_strlit("IFCRELCONNECTSPATHELEMENTS");
    reveal_strlit("IFCRELSPACEBOUNDARY");
    reveal_strlit("IFCRELASSIGNSTOGROUP");
    reveal_strlit("IFCPROPERTYSET");
    reveal_strlit("IFCPROPERTYSINGLEVALUE");
    reveal_strlit("IFCPROPERTYENUMERATEDVALUE");
}

/// The lengths of a run of wire names.
spec fn wire_name_lengths_5() -> bool {
    &&& "IFCPROPERTYBOUNDEDVALUE"@.len() == 23
    &&& "IFCPROPERTYLISTVALUE"@.len() == 20
    &&& "IFCPROPERTYTABLEVALUE"@.len() == 21
    &&& "IFCCOMPLEXPROPERTY"@.len() == 18
    &&& "IFCELEMENTQUANTITY"@.len() == 18
    &&& "IFCQUANTITYLENGTH"@.len() == 17
    &&& "IFCQUANTITYAREA"@.len() == 15
    &&& "IFCQUANTITYVOLUME"@.len() == 17
    &&& "IFCQUANTITYCOUNT"@.len() == 16
    &&& "IFCQUANTITYWEIGHT"@.len() == 17
    &&& "IFCQUANTITYTIME"@.len() == 15
    &&& "IFCMATERIAL"@.len() == 11
    &&& "IFCMATERIALLAYER"@.len() == 16
    &&& "IFCMATERIALLAYERSET"@.len() == 19
    &&& "IFCMATERIALLAYERSETUSAGE"@.len() == 24
    &&& "IFCMATERIALLIST"@.len() == 15
    &&& "IFCMATERIALCONSTITUENTSET"@.len() == 25
    &&& "IFCMATERIALCONSTITUENT"@.len() == 22
    &&& "IFCMATERIALPROFILE"@.len() == 18
    &&& "IFCMATERIALPROFILESET"@.len() == 21
    &&& "IFCMATERIALPROFILESETUSAGE"@.len() == 26
    &&& "IFCSTYLEDITEM"@.len() == 13
    &&& "IFCSURFACESTYLE"@.len() == 15
    &&& "IFCSURFACESTYLERENDERING"@.len() == 24
    &&& "IFCCOLOURRGB"@.len() == 12
    &&& "IFCPRESENTATIONLAYERASSIGNMENT"@.len() == 30
    &&& "IFCLIGHTFIXTURE"@.len() == 15
    &&& "IFCLIGHTFIXTURETYPE"@.len() == 19
    &&& "IFCLIGHTSOURCE"@.len() == 14
    &&& "IFCLIGHTSOURCEAMBIENT"@.len() == 21
}

proof fn lemma_wire_name_lengths_5()
    ensures
        wire_name_lengths_5(),
{
    reveal_strlit("IFCPROPERTYBOUNDEDVALUE");
    reveal_strlit("IFCPROPERTYLISTVALUE");
    reveal_strlit("IFCPROPERTYTABLEVALUE");
    reveal_strlit("IFCCOMPLEXPROPERTY");
    reveal_strlit("IFCELEMENTQUANTITY");
    reveal_strlit("IFCQUANTITYLENGTH");
    reveal_strlit("IFCQUANTITYAREA");
    reveal_strlit("IFCQUANTITYVOLUME");
    reveal_strlit("IFCQUANTITYCOUNT");
    reveal_strlit("IFCQUANTITYWEIGHT");
    reveal_strlit("IFCQUANTITYTIME");
    reveal_strlit("IFCMATERIAL");
    reveal_strlit("IFCMATERIALLAYER");
    reveal_strlit("IFCMATERIALLAYERSET");
    reveal_strlit("IFCMATERIALLAYERSETUSAGE");
    reveal_strlit("IFCMATERIALLIST");
    reveal_strlit("IFCMATERIALCONSTITUENTSET");
    reveal_strlit("IFCMATERIALCONSTITUENT");
    reveal_strlit("IFCMATERIALPROFILE");
    reveal_strlit("IFCMATERIALPROFILESET");
    reveal_strlit("IFCMATERIALPROFILESETUSAGE");
    reveal_strlit("IFCSTYLEDITEM");
    reveal_strlit("IFCSURFACESTYLE");
    reveal_strlit("IFCSURFACESTYLERENDERING");
    reveal_strlit("IFCCOLOURRGB");
    reveal_strlit("IFCPRESENTATIONLAYERASSIGNMENT");
    reveal_strlit("IFCLIGHTFIXTURE");
    reveal_strlit("IFCLIGHTFIXTURETYPE");
    reveal_strlit("IFCLIGHTSOURCE");
    reveal_strlit("IFCLIGHTSOURCEAMBIENT");
}

/// The lengths of a run of wire names.
spec fn wire_name_lengths_6() -> bool {
    &&& "IFCLIGHTSOURCEDIRECTIONAL"@.len() == 25
    &&& "IFCLIGHTSOURCEGONIOMETRIC"@.len() == 25
    &&& "IFCLIGHTSOURCEPOSITIONAL"@.len() == 24
    &&& "IFCLIGHTSOURCESPOT"@.len() == 18
    &&& "IFCLIGHTINTENSITYDISTRIBUTION"@.len() == 29
    &&& "IFCLIGHTDISTRIBUTIONDATA"@.len() == 24
    &&& "IFCUNITASSIGNMENT"@.len() == 17
    &&& "IFCSIUNIT"@.len() == 9
    &&& "IFCCONVERSIONBASEDUNIT"@.len() == 22
    &&& "IFCDERIVEDUNIT"@.len() == 14
    &&& "IFCMEASUREWITHUNIT"@.len() == 18
    &&& "IFCWALLTYPE"@.len() == 11
    &&& "IFCSLABTYPE"@.len() == 11
    &&& "IFCBEAMTYPE"@.len() == 11
    &&& "IFCCOLUMNTYPE"@.len() == 13
    &&& "IFCDOORTYPE"@.len() == 11
    &&& "IFCWINDOWTYPE"@.len() == 13
    &&& "IFCCOVERINGTYPE"@.len() == 15
    &&& "IFCRAILINGTYPE"@.len() == 14
    &&& "IFCSTAIRTYPE"@.len() == 12
    &&& "IFCSTAIRFLIGHTTYPE"@.len() == 18
    &&& "IFCRAMPTYPE"@.len() == 11
    &&& "IFCRAMPFLIGHTTYPE"@.len() == 17
    &&& "IFCROOFTYPE"@.len() == 11
    &&& "IFCMEMBERTYPE"@.len() == 13
    &&& "IFCPLATETYPE"@.len() == 12
    &&& "IFCFOOTINGTYPE"@.len() == 14
    &&& "IFCPILETYPE"@.len() == 11
    &&& "IFCBUILDINGELEMENTPROXYTYPE"@.len() == 27
    &&& "IFCALIGNMENT"@.len() == 12
}

proof fn lemma_wire_name_lengths_6()
    ensures
        wire_name_lengths_6(),
{
    reveal_strlit("IFCLIGHTSOURCEDIRECTIONAL");
    reveal_strlit("IFCLIGHTSOURCEGONIOMETRIC");
    reveal_strlit("IFCLIGHTSOURCEPOSITIONAL");
    reveal_strlit("IFCLIGHTSOURCESPOT");
    reveal_strlit("IFCLIGHTINTENSITYDISTRIBUTION");
    reveal_strlit("IFCLIGHTDISTRIBUTIONDATA");
    reveal_strlit("IFCUNITASSIGNMENT");
    reveal_strlit("IFCSIUNIT");
    reveal_strlit("IFCCONVERSIONBASEDUNIT");
    reveal_strlit("IFCDERIVEDUNIT");
    reveal_strlit("IFCMEASUREWITHUNIT");
    reveal_strlit("IFCWALLTYPE");
    reveal_strlit("IFCSLABTYPE");
    reveal_strlit("IFCBEAMTYPE");
    reveal_strlit("IFCCOLUMNTYPE");
    reveal_strlit("IFCDOORTYPE");
    reveal_strlit("IFCWINDOWTYPE");
    reveal_strlit("IFCCOVERINGTYPE");
    reveal_strlit("IFCRAILINGTYPE");
    reveal_strlit("IFCSTAIRTYPE");
    reveal_strlit("IFCSTAIRFLIGHTTYPE");
    reveal_strlit("IFCRAMPTYPE");
    reveal_strlit("IFCRAMPFLIGHTTYPE");
    reveal_strlit("IFCROOFTYPE");
    reveal_strlit("IFCMEMBERTYPE");
    reveal_strlit("IFCPLATETYPE");
    reveal_strlit("IFCFOOTINGTYPE");
    reveal_strlit("IFCPILETYPE");
    reveal_strlit("IFCBUILDINGELEMENTPROXYTYPE");
    reveal_strlit("IFCALIGNMENT");
}

/// The lengths of a run of wire names.
spec fn wire_name_lengths_7() -> bool {
    &&& "IFCALIGNMENTCANT"@.len() == 16
    &&& "IFCALIGNMENTHORIZONTAL"@.len() == 22
    &&& "IFCALIGNMENTVERTICAL"@.len() == 20
    &&& "IFCALIGNMENTSEGMENT"@.len() == 19
    &&& "IFCROAD"@.len() == 7
    &&& "IFCROADPART"@.len() == 11
    &&& "IFCBRIDGE"@.len() == 9
    &&& "IFCBRIDGEPART"@.len() == 13
    &&& "IFCRAILWAY"@.len() == 10
    &&& "IFCRAILWAYPART"@.len() == 14
    &&& "IFCFACILITY"@.len() == 11
    &&& "IFCFACILITYPART"@.len() == 15
    &&& "IFCGEOTECHNICALELEMENT"@.len() == 22
    &&& "IFCBOREHOLE"@.len() == 11
    &&& "IFCGEOMODEL"@.len() == 11
    &&& "IFCGEOSLICE"@.len() == 11
    &&& "IFCSOLIDSTRATUM"@.len() == 15
    &&& "IFCVOIDSTRATUM"@.len() == 14
    &&& "IFCWATERSTRATUM"@.len() == 15
    &&& "IFCEARTHWORKSCUT"@.len() == 16
    &&& "IFCEARTHWORKSFILL"@.len() == 17
    &&& "IFCEARTHWORKSELEMENT"@.len() == 20
    &&& "IFCPAVEMENT"@.len() == 11
    &&& "IFCCOURSE"@.len() == 9
    &&& "IFCKERB"@.len() == 7
    &&& "IFCDEEPFOUNDATION"@.len() == 17
}

proof fn lemma_wire_name_lengths_7()
    ensures
        wire_name_lengths_7(),
{
    reveal_strlit("IFCALIGNMENTCANT");
    reveal_strlit("IFCALIGNMENTHORIZONTAL");
    reveal_strlit("IFCALIGNMENTVERTICAL");
    reveal_strlit("IFCALIGNMENTSEGMENT");
    reveal_strlit("IFCROAD");
    reveal_strlit("IFCROADPART");
    reveal_strlit("IFCBRIDGE");
    reveal_strlit("IFCBRIDGEPART");
    reveal_strlit("IFCRAILWAY");
    reveal_strlit("IFCRAILWAYPART");
    reveal_strlit("IFCFACILITY");
    reveal_strlit("IFCFACILITYPART");
    reveal_strlit("IFCGEOTECHNICALELEMENT");
    reveal_strlit("IFCBOREHOLE");
    reveal_strlit("IFCGEOMODEL");
    reveal_strlit("IFCGEOSLICE");
    reveal_strlit("IFCSOLIDSTRATUM");
    reveal_strlit("IFCVOIDSTRATUM");
    reveal_strlit("IFCWATERSTRATUM");
    reveal_strlit("IFCEARTHWORKSCUT");
    reveal_strlit("IFCEARTHWORKSFILL");
    reveal_strlit("IFCEARTHWORKSELEMENT");
    reveal_strlit("IFCPAVEMENT");
    reveal_strlit("IFCCOURSE");
    reveal_strlit("IFCKERB");
    reveal_strlit("IFCDEEPFOUNDATION");
}

/// The a position where two wire names of equal length differ, for a run of such pairs.
spec fn wire_names_differ_0() -> bool {
    &&& "IFCPROJECT"@[3] != "IFCRAILING"@[3]
    &&& "IFCPROJECT"@[3] != "IFCFOOTING"@[3]
    &&& "IFCPROJECT"@[3] != "IFCELLIPSE"@[3]
    &&& "IFCPROJECT"@[3] != "IFCRAILWAY"@[3]
    &&& "IFCSITE"@[3] != "IFCWALL"@[3]
    &&& "IFCSITE"@[4] != "IFCSLAB"@[4]
    &&& "IFCSITE"@[3] != "IFCROOF"@[3]
    &&& "IFCSITE"@[3] != "IFCBEAM"@[3]
    &&& "IFCSITE"@[3] != "IFCDOOR"@[3]
    &&& "IFCSITE"@[3] != "IFCRAMP"@[3]
    &&& "IFCSITE"@[3] != "IFCPILE"@[3]
    &&& "IFCSITE"@[3] != "IFCLINE"@[3]
    &&& "IFCSITE"@[3] != "IFCFACE"@[3]
    &&& "IFCSITE"@[3] != "IFCROAD"@[3]
    &&& "IFCSITE"@[3] != "IFCKERB"@[3]
    &&& "IFCBUILDING"@[3] != "IFCCOVERING"@[3]
    &&& "IFCBUILDING"@[3] != "IFCPOLYLINE"@[3]
    &&& "IFCBUILDING"@[3] != "IFCPOLYLOOP"@[3]
    &&& "IFCBUILDING"@[3] != "IFCEDGELOOP"@[3]
    &&& "IFCBUILDING"@[3] != "IFCMATERIAL"@[3]
    &&& "IFCBUILDING"@[3] != "IFCWALLTYPE"@[3]
    &&& "IFCBUILDING"@[3] != "IFCSLABTYPE"@[3]
    &&& "IFCBUILDING"@[4] != "IFCBEAMTYPE"@[4]
    &&& "IFCBUILDING"@[3] != "IFCDOORTYPE"@[3]
    &&& "IFCBUILDING"@[3] != "IFCRAMPTYPE"@[3]
    &&& "IFCBUILDING"@[3] != "IFCROOFTYPE"@[3]
    &&& "IFCBUILDING"@[3] != "IFCPILETYPE"@[3]
    &&& "IFCBUILDING"@[3] != "IFCROADPART"@[3]
    &&& "IFCBUILDING"@[3] != "IFCFACILITY"@[3]
    &&& "IFCBUILDING"@[4] != "IFCBOREHOLE"@[4]
}

proof fn lemma_wire_names_differ_0()
    ensures
        wire_names_differ_0(),
{
    reveal_strlit("IFCPROJECT");
    reveal_strlit("IFCRAILING");
    reveal_strlit("IFCFOOTING");
    reveal_strlit("IFCELLIPSE");
    reveal_strlit("IFCRAILWAY");
    reveal_strlit("IFCSITE");
    reveal_strlit("IFCWALL");
    reveal_strlit("IFCSLAB");
    reveal_strlit("IFCROOF");
    reveal_strlit("IFCBEAM");
    reveal_strlit("IFCDOOR");
    reveal_strlit("IFCRAMP");
    reveal_strlit("IFCPILE");
    reveal_strlit("IFCLINE");
    reveal_strlit("IFCFACE");
    reveal_strlit("IFCROAD");
    reveal_strlit("IFCKERB");
    reveal_strlit("IFCBUILDING");
    reveal_strlit("IFCCOVERING");
    reveal_strlit("IFCPOLYLINE");
    reveal_strlit("IFCPOLYLOOP");
    reveal_strlit("IFCEDGELOOP");
    reveal_strlit("IFCMATERIAL");
    reveal_strlit("IFCWALLTYPE");
    reveal_strlit("IFCSLABTYPE");
    reveal_strlit("IFCBEAMTYPE");
    reveal_strlit("IFCDOORTYPE");
    reveal_strlit("IFCRAMPTYPE");
    reveal_strlit("IFCROOFTYPE");
    reveal_strlit("IFCPILETYPE");
    reveal_strlit("IFCROADPART");
    reveal_strlit("IFCFACILITY");
    reveal_strlit("IFCBOREHOLE");
}

/// The a position where two wire names of equal length differ, for a run of such pairs.
spec fn wire_names_differ_1() -> bool {
    &&& "IFCBUILDING"@[3] != "IFCGEOMODEL"@[3]
    &&& "IFCBUILDING"@[3] != "IFCGEOSLICE"@[3]
    &&& "IFCBUILDING"@[3] != "IFCPAVEMENT"@[3]
    &&& "IFCBUILDINGSTOREY"@[3] != "IFCFLOWCONTROLLER"@[3]
    &&& "IFCBUILDINGSTOREY"@[3] != "IFCOPENINGELEMENT"@[3]
    &&& "IFCBUILDINGSTOREY"@[3] != "IFCVOIDINGFEATURE"@[3]
    &&& "IFCBUILDINGSTOREY"@[3] != "IFCSWEPTDISKSOLID"@[3]
    &&& "IFCBUILDINGSTOREY"@[3] != "IFCHALFSPACESOLID"@[3]
    &&& "IFCBUILDINGSTOREY"@[4] != "IFCBOXEDHALFSPACE"@[4]
    &&& "IFCBUILDINGSTOREY"@[3] != "IFCCOMPOSITECURVE"@[3]
    &&& "IFCBUILDINGSTOREY"@[4] != "IFCBSPLINESURFACE"@[4]
    &&& "IFCBUILDINGSTOREY"@[3] != "IFCCARTESIANPOINT"@[3]
    &&& "IFCBUILDINGSTOREY"@[3] != "IFCLOCALPLACEMENT"@[3]
    &&& "IFCBUILDINGSTOREY"@[3] != "IFCFACEOUTERBOUND"@[3]
    &&& "IFCBUILDINGSTOREY"@[3] != "IFCQUANTITYLENGTH"@[3]
    &&& "IFCBUILDINGSTOREY"@[3] != "IFCQUANTITYVOLUME"@[3]
    &&& "IFCBUILDINGSTOREY"@[3] != "IFCQUANTITYWEIGHT"@[3]
    &&& "IFCBUILDINGSTOREY"@[3] != "IFCUNITASSIGNMENT"@[3]
    &&& "IFCBUILDINGSTOREY"@[3] != "IFCRAMPFLIGHTTYPE"@[3]
    &&& "IFCBUILDINGSTOREY"@[3] != "IFCEARTHWORKSFILL"@[3]
    &&& "IFCBUILDINGSTOREY"@[3] != "IFCDEEPFOUNDATION"@[3]
    &&& "IFCSPACE"@[4] != "IFCSTAIR"@[4]
    &&& "IFCSPACE"@[3] != "IFCPLATE"@[3]
    &&& "IFCSPACE"@[3] != "IFCBLOCK"@[3]
    &&& "IFCSPACE"@[3] != "IFCPLANE"@[3]
    &&& "IFCWALL"@[3] != "IFCSLAB"@[3]
    &&& "IFCWALL"@[3] != "IFCROOF"@[3]
    &&& "IFCWALL"@[3] != "IFCBEAM"@[3]
    &&& "IFCWALL"@[3] != "IFCDOOR"@[3]
    &&& "IFCWALL"@[3] != "IFCRAMP"@[3]
}

proof fn lemma_wire_names_differ_1()
    ensures
        wire_names_differ_1(),
{
    reveal_strlit("IFCBUILDING");
    reveal_strlit("IFCGEOMODEL");
    reveal_strlit("IFCGEOSLICE");
    reveal_strlit("IFCPAVEMENT");
    reveal_strlit("IFCBUILDINGSTOREY");
    reveal_strlit("IFCFLOWCONTROLLER");
    reveal_strlit("IFCOPENINGELEMENT");
    reveal_strlit("IFCVOIDINGFEATURE");
    reveal_strlit("IFCSWEPTDISKSOLID");
    reveal_strlit("IFCHALFSPACESOLID");
    reveal_strlit("IFCBOXEDHALFSPACE");
    reveal_strlit("IFCCOMPOSITECURVE");
    reveal_strlit("IFCBSPLINESURFACE");
    reveal_strlit("IFCCARTESIANPOINT");
    reveal_strlit("IFCLOCALPLACEMENT");
    reveal_strlit("IFCFACEOUTERBOUND");
    reveal_strlit("IFCQUANTITYLENGTH");
    reveal_strlit("IFCQUANTITYVOLUME");
    reveal_strlit("IFCQUANTITYWEIGHT");
    reveal_strlit("IFCUNITASSIGNMENT");
    reveal_strlit("IFCRAMPFLIGHTTYPE");
    reveal_strlit("IFCEARTHWORKSFILL");
    reveal_strlit("IFCDEEPFOUNDATION");
    reveal_strlit("IFCSPACE");
    reveal_strlit("IFCSTAIR");
    reveal_strlit("IFCPLATE");
    reveal_strlit("IFCBLOCK");
    reveal_strlit("IFCPLANE");
    reveal_strlit("IFCWALL");
    reveal_strlit("IFCSLAB");
    reveal_strlit("IFCROOF");
    reveal_strlit("IFCBEAM");
    reveal_strlit("IFCDOOR");
    reveal_strlit("IFCRAMP");
}

/// The a position where two wire names of equal length differ, for a run of such pairs.
spec fn wire_names_differ_2() -> bool {
    &&& "IFCWALL"@[3] != "IFCPILE"@[3]
    &&& "IFCWALL"@[3] != "IFCLINE"@[3]
    &&& "IFCWALL"@[3] != "IFCFACE"@[3]
    &&& "IFCWALL"@[3] != "IFCROAD"@[3]
    &&& "IFCWALL"@[3] != "IFCKERB"@[3]
    &&& "IFCWALLSTANDARDCASE"@[3] != "IFCFLOWMOVINGDEVICE"@[3]
    &&& "IFCWALLSTANDARDCASE"@[3] != "IFCPOLYGONALFACESET"@[3]
    &&& "IFCWALLSTANDARDCASE"@[3] != "IFCCIRCLEPROFILEDEF"@[3]
    &&& "IFCWALLSTANDARDCASE"@[3] != "IFCISHAPEPROFILEDEF"@[3]
    &&& "IFCWALLSTANDARDCASE"@[3] != "IFCLSHAPEPROFILEDEF"@[3]
    &&& "IFCWALLSTANDARDCASE"@[3] != "IFCTSHAPEPROFILEDEF"@[3]
    &&& "IFCWALLSTANDARDCASE"@[3] != "IFCUSHAPEPROFILEDEF"@[3]
    &&& "IFCWALLSTANDARDCASE"@[3] != "IFCCSHAPEPROFILEDEF"@[3]
    &&& "IFCWALLSTANDARDCASE"@[3] != "IFCZSHAPEPROFILEDEF"@[3]
    &&& "IFCWALLSTANDARDCASE"@[3] != "IFCINDEXEDPOLYCURVE"@[3]
    &&& "IFCWALLSTANDARDCASE"@[3] != "IFCAXIS2PLACEMENT2D"@[3]
    &&& "IFCWALLSTANDARDCASE"@[3] != "IFCAXIS2PLACEMENT3D"@[3]
    &&& "IFCWALLSTANDARDCASE"@[3] != "IFCCONNECTEDFACESET"@[3]
    &&& "IFCWALLSTANDARDCASE"@[3] != "IFCRELDEFINESBYTYPE"@[3]
    &&& "IFCWALLSTANDARDCASE"@[3] != "IFCRELSPACEBOUNDARY"@[3]
    &&& "IFCWALLSTANDARDCASE"@[3] != "IFCMATERIALLAYERSET"@[3]
    &&& "IFCWALLSTANDARDCASE"@[3] != "IFCLIGHTFIXTURETYPE"@[3]
    &&& "IFCWALLSTANDARDCASE"@[3] != "IFCALIGNMENTSEGMENT"@[3]
    &&& "IFCCURTAINWALL"@[3] != "IFCSTAIRFLIGHT"@[3]
    &&& "IFCCURTAINWALL"@[3] != "IFCFLOWSEGMENT"@[3]
    &&& "IFCCURTAINWALL"@[3] != "IFCFLOWFITTING"@[3]
    &&& "IFCCURTAINWALL"@[3] != "IFCPIPESEGMENT"@[3]
    &&& "IFCCURTAINWALL"@[3] != "IFCPIPEFITTING"@[3]
    &&& "IFCCURTAINWALL"@[3] != "IFCSPACEHEATER"@[3]
    &&& "IFCCURTAINWALL"@[3] != "IFCAIRTERMINAL"@[3]
}

proof fn lemma_wire_names_differ_2()
    ensures
        wire_names_differ_2(),
{
    reveal_strlit("IFCWALL");
    reveal_strlit("IFCPILE");
    reveal_strlit("IFCLINE");
    reveal_strlit("IFCFACE");
    reveal_strlit("IFCROAD");
    reveal_strlit("IFCKERB");
    reveal_strlit("IFCWALLSTANDARDCASE");
    reveal_strlit("IFCFLOWMOVINGDEVICE");
    reveal_strlit("IFCPOLYGONALFACESET");
    reveal_strlit("IFCCIRCLEPROFILEDEF");
    reveal_strlit("IFCISHAPEPROFILEDEF");
    reveal_strlit("IFCLSHAPEPROFILEDEF");
    reveal_strlit("IFCTSHAPEPROFILEDEF");
    reveal_strlit("IFCUSHAPEPROFILEDEF");
    reveal_strlit("IFCCSHAPEPROFILEDEF");
    reveal_strlit("IFCZSHAPEPROFILEDEF");
    reveal_strlit("IFCINDEXEDPOLYCURVE");
    reveal_strlit("IFCAXIS2PLACEMENT2D");
    reveal_strlit("IFCAXIS2PLACEMENT3D");
    reveal_strlit("IFCCONNECTEDFACESET");
    reveal_strlit("IFCRELDEFINESBYTYPE");
    reveal_strlit("IFCRELSPACEBOUNDARY");
    reveal_strlit("IFCMATERIALLAYERSET");
    reveal_strlit("IFCLIGHTFIXTURETYPE");
    reveal_strlit("IFCALIGNMENTSEGMENT");
    reveal_strlit("IFCCURTAINWALL");
    reveal_strlit("IFCSTAIRFLIGHT");
    reveal_strlit("IFCFLOWSEGMENT");
    reveal_strlit("IFCFLOWFITTING");
    reveal_strlit("IFCPIPESEGMENT");
    reveal_strlit("IFCPIPEFITTING");
    reveal_strlit("IFCSPACEHEATER");
    reveal_strlit("IFCAIRTERMINAL");
}

/// The a position where two wire names of equal length differ, for a run of such pairs.
spec fn wire_names_differ_3() -> bool {
    &&& "IFCCURTAINWALL"@[3] != "IFCFACETEDBREP"@[3]
    &&& "IFCCURTAINWALL"@[4] != "IFCCLOSEDSHELL"@[4]
    &&& "IFCCURTAINWALL"@[3] != "IFCVERTEXPOINT"@[3]
    &&& "IFCCURTAINWALL"@[3] != "IFCPROPERTYSET"@[3]
    &&& "IFCCURTAINWALL"@[3] != "IFCLIGHTSOURCE"@[3]
    &&& "IFCCURTAINWALL"@[3] != "IFCDERIVEDUNIT"@[3]
    &&& "IFCCURTAINWALL"@[3] != "IFCRAILINGTYPE"@[3]
    &&& "IFCCURTAINWALL"@[3] != "IFCFOOTINGTYPE"@[3]
    &&& "IFCCURTAINWALL"@[3] != "IFCRAILWAYPART"@[3]
    &&& "IFCCURTAINWALL"@[3] != "IFCVOIDSTRATUM"@[3]
    &&& "IFCSLAB"@[3] != "IFCROOF"@[3]
    &&& "IFCSLAB"@[3] != "IFCBEAM"@[3]
    &&& "IFCSLAB"@[3] != "IFCDOOR"@[3]
    &&& "IFCSLAB"@[3] != "IFCRAMP"@[3]
    &&& "IFCSLAB"@[3] != "IFCPILE"@[3]
    &&& "IFCSLAB"@[3] != "IFCLINE"@[3]
    &&& "IFCSLAB"@[3] != "IFCFACE"@[3]
    &&& "IFCSLAB"@[3] != "IFCROAD"@[3]
    &&& "IFCSLAB"@[3] != "IFCKERB"@[3]
    &&& "IFCROOF"@[3] != "IFCBEAM"@[3]
    &&& "IFCROOF"@[3] != "IFCDOOR"@[3]
    &&& "IFCROOF"@[4] != "IFCRAMP"@[4]
    &&& "IFCROOF"@[3] != "IFCPILE"@[3]
    &&& "IFCROOF"@[3] != "IFCLINE"@[3]
    &&& "IFCROOF"@[3] != "IFCFACE"@[3]
    &&& "IFCROOF"@[5] != "IFCROAD"@[5]
    &&& "IFCROOF"@[3] != "IFCKERB"@[3]
    &&& "IFCBEAM"@[3] != "IFCDOOR"@[3]
    &&& "IFCBEAM"@[3] != "IFCRAMP"@[3]
    &&& "IFCBEAM"@[3] != "IFCPILE"@[3]
}

proof fn lemma_wire_names_differ_3()
    ensures
        wire_names_differ_3(),
{
    reveal_strlit("IFCCURTAINWALL");
    reveal_strlit("IFCFACETEDBREP");
    reveal_strlit("IFCCLOSEDSHELL");
    reveal_strlit("IFCVERTEXPOINT");
    reveal_strlit("IFCPROPERTYSET");
    reveal_strlit("IFCLIGHTSOURCE");
    reveal_strlit("IFCDERIVEDUNIT");
    reveal_strlit("IFCRAILINGTYPE");
    reveal_strlit("IFCFOOTINGTYPE");
    reveal_strlit("IFCRAILWAYPART");
    reveal_strlit("IFCVOIDSTRATUM");
    reveal_strlit("IFCSLAB");
    reveal_strlit("IFCROOF");
    reveal_strlit("IFCBEAM");
    reveal_strlit("IFCDOOR");
    reveal_strlit("IFCRAMP");
    reveal_strlit("IFCPILE");
    reveal_strlit("IFCLINE");
    reveal_strlit("IFCFACE");
    reveal_strlit("IFCROAD");
    reveal_strlit("IFCKERB");
}

/// The a position where two wire names of equal length differ, for a run of such pairs.
spec fn wire_names_differ_4() -> bool {
    &&& "IFCBEAM"@[3] != "IFCLINE"@[3]
    &&& "IFCBEAM"@[3] != "IFCFACE"@[3]
    &&& "IFCBEAM"@[3] != "IFCROAD"@[3]
    &&& "IFCBEAM"@[3] != "IFCKERB"@[3]
    &&& "IFCCOLUMN"@[3] != "IFCWINDOW"@[3]
    &&& "IFCCOLUMN"@[3] != "IFCMEMBER"@[3]
    &&& "IFCCOLUMN"@[3] != "IFCSPHERE"@[3]
    &&& "IFCCOLUMN"@[4] != "IFCCIRCLE"@[4]
    &&& "IFCCOLUMN"@[3] != "IFCVECTOR"@[3]
    &&& "IFCCOLUMN"@[3] != "IFCSIUNIT"@[3]
    &&& "IFCCOLUMN"@[3] != "IFCBRIDGE"@[3]
    &&& "IFCCOLUMN"@[5] != "IFCCOURSE"@[5]
    &&& "IFCDOOR"@[3] != "IFCRAMP"@[3]
    &&& "IFCDOOR"@[3] != "IFCPILE"@[3]
    &&& "IFCDOOR"@[3] != "IFCLINE"@[3]
    &&& "IFCDOOR"@[3] != "IFCFACE"@[3]
    &&& "IFCDOOR"@[3] != "IFCROAD"@[3]
    &&& "IFCDOOR"@[3] != "IFCKERB"@[3]
    &&& "IFCWINDOW"@[3] != "IFCMEMBER"@[3]
    &&& "IFCWINDOW"@[3] != "IFCSPHERE"@[3]
    &&& "IFCWINDOW"@[3] != "IFCCIRCLE"@[3]
    &&& "IFCWINDOW"@[3] != "IFCVECTOR"@[3]
    &&& "IFCWINDOW"@[3] != "IFCSIUNIT"@[3]
    &&& "IFCWINDOW"@[3] != "IFCBRIDGE"@[3]
    &&& "IFCWINDOW"@[3] != "IFCCOURSE"@[3]
    &&& "IFCSTAIR"@[3] != "IFCPLATE"@[3]
    &&& "IFCSTAIR"@[3] != "IFCBLOCK"@[3]
    &&& "IFCSTAIR"@[3] != "IFCPLANE"@[3]
    &&& "IFCSTAIRFLIGHT"@[3] != "IFCFLOWSEGMENT"@[3]
    &&& "IFCSTAIRFLIGHT"@[3] != "IFCFLOWFITTING"@[3]
}

proof fn lemma_wire_names_differ_4()
    ensures
        wire_names_differ_4(),
{
    reveal_strlit("IFCBEAM");
    reveal_strlit("IFCLINE");
    reveal_strlit("IFCFACE");
    reveal_strlit("IFCROAD");
    reveal_strlit("IFCKERB");
    reveal_strlit("IFCCOLUMN");
    reveal_strlit("IFCWINDOW");
    reveal_strlit("IFCMEMBER");
    reveal_strlit("IFCSPHERE");
    reveal_strlit("IFCCIRCLE");
    reveal_strlit("IFCVECTOR");
    reveal_strlit("IFCSIUNIT");
    reveal_strlit("IFCBRIDGE");
    reveal_strlit("IFCCOURSE");
    reveal_strlit("IFCDOOR");
    reveal_strlit("IFCRAMP");
    reveal_strlit("IFCPILE");
    reveal_strlit("IFCSTAIR");
    reveal_strlit("IFCPLATE");
    reveal_strlit("IFCBLOCK");
    reveal_strlit("IFCPLANE");
    reveal_strlit("IFCSTAIRFLIGHT");
    reveal_strlit("IFCFLOWSEGMENT");
    reveal_strlit("IFCFLOWFITTING");
}

/// The a position where two wire names of equal length differ, for a run of such pairs.
spec fn wire_names_differ_5() -> bool {
    &&& "IFCSTAIRFLIGHT"@[3] != "IFCPIPESEGMENT"@[3]
    &&& "IFCSTAIRFLIGHT"@[3] != "IFCPIPEFITTING"@[3]
    &&& "IFCSTAIRFLIGHT"@[4] != "IFCSPACEHEATER"@[4]
    &&& "IFCSTAIRFLIGHT"@[3] != "IFCAIRTERMINAL"@[3]
    &&& "IFCSTAIRFLIGHT"@[3] != "IFCFACETEDBREP"@[3]
    &&& "IFCSTAIRFLIGHT"@[3] != "IFCCLOSEDSHELL"@[3]
    &&& "IFCSTAIRFLIGHT"@[3] != "IFCVERTEXPOINT"@[3]
    &&& "IFCSTAIRFLIGHT"@[3] != "IFCPROPERTYSET"@[3]
    &&& "IFCSTAIRFLIGHT"@[3] != "IFCLIGHTSOURCE"@[3]
    &&& "IFCSTAIRFLIGHT"@[3] != "IFCDERIVEDUNIT"@[3]
    &&& "IFCSTAIRFLIGHT"@[3] != "IFCRAILINGTYPE"@[3]
    &&& "IFCSTAIRFLIGHT"@[3] != "IFCFOOTINGTYPE"@[3]
    &&& "IFCSTAIRFLIGHT"@[3] != "IFCRAILWAYPART"@[3]
    &&& "IFCSTAIRFLIGHT"@[3] != "IFCVOIDSTRATUM"@[3]
    &&& "IFCRAMP"@[3] != "IFCPILE"@[3]
    &&& "IFCRAMP"@[3] != "IFCLINE"@[3]
    &&& "IFCRAMP"@[3] != "IFCFACE"@[3]
    &&& "IFCRAMP"@[4] != "IFCROAD"@[4]
    &&& "IFCRAMP"@[3] != "IFCKERB"@[3]
    &&& "IFCRAMPFLIGHT"@[3] != "IFCMAPPEDITEM"@[3]
    &&& "IFCRAMPFLIGHT"@[3] != "IFCSTYLEDITEM"@[3]
    &&& "IFCRAMPFLIGHT"@[3] != "IFCCOLUMNTYPE"@[3]
    &&& "IFCRAMPFLIGHT"@[3] != "IFCWINDOWTYPE"@[3]
    &&& "IFCRAMPFLIGHT"@[3] != "IFCMEMBERTYPE"@[3]
    &&& "IFCRAMPFLIGHT"@[3] != "IFCBRIDGEPART"@[3]
    &&& "IFCRAILING"@[3] != "IFCFOOTING"@[3]
    &&& "IFCRAILING"@[3] != "IFCELLIPSE"@[3]
    &&& "IFCRAILING"@[7] != "IFCRAILWAY"@[7]
    &&& "IFCCOVERING"@[3] != "IFCPOLYLINE"@[3]
    &&& "IFCCOVERING"@[3] != "IFCPOLYLOOP"@[3]
}

proof fn lemma_wire_names_differ_5()
    ensures
        wire_names_differ_5(),
{
    reveal_strlit("IFCSTAIRFLIGHT");
    reveal_strlit("IFCPIPESEGMENT");
    reveal_strlit("IFCPIPEFITTING");
    reveal_strlit("IFCSPACEHEATER");
    reveal_strlit("IFCAIRTERMINAL");
    reveal_strlit("IFCFACETEDBREP");
    reveal_strlit("IFCCLOSEDSHELL");
    reveal_strlit("IFCVERTEXPOINT");
    reveal_strlit("IFCPROPERTYSET");
    reveal_strlit("IFCLIGHTSOURCE");
    reveal_strlit("IFCDERIVEDUNIT");
    reveal_strlit("IFCRAILINGTYPE");
    reveal_strlit("IFCFOOTINGTYPE");
    reveal_strlit("IFCRAILWAYPART");
    reveal_strlit("IFCVOIDSTRATUM");
    reveal_strlit("IFCRAMP");
    reveal_strlit("IFCPILE");
    reveal_strlit("IFCLINE");
    reveal_strlit("IFCFACE");
    reveal_strlit("IFCROAD");
    reveal_strlit("IFCKERB");
    reveal_strlit("IFCRAMPFLIGHT");
    reveal_strlit("IFCMAPPEDITEM");
    reveal_strlit("IFCSTYLEDITEM");
    reveal_strlit("IFCCOLUMNTYPE");
    reveal_strlit("IFCWINDOWTYPE");
    reveal_strlit("IFCMEMBERTYPE");
    reveal_strlit("IFCBRIDGEPART");
    reveal_strlit("IFCRAILING");
    reveal_strlit("IFCFOOTING");
    reveal_strlit("IFCELLIPSE");
    reveal_strlit("IFCRAILWAY");
    reveal_strlit("IFCCOVERING");
    reveal_strlit("IFCPOLYLINE");
    reveal_strlit("IFCPOLYLOOP");
}

/// The a position where two wire names of equal length differ, for a run of such pairs.
spec fn wire_names_differ_6() -> bool {
    &&& "IFCCOVERING"@[3] != "IFCEDGELOOP"@[3]
    &&& "IFCCOVERING"@[3] != "IFCMATERIAL"@[3]
    &&& "IFCCOVERING"@[3] != "IFCWALLTYPE"@[3]
    &&& "IFCCOVERING"@[3] != "IFCSLABTYPE"@[3]
    &&& "IFCCOVERING"@[3] != "IFCBEAMTYPE"@[3]
    &&& "IFCCOVERING"@[3] != "IFCDOORTYPE"@[3]
    &&& "IFCCOVERING"@[3] != "IFCRAMPTYPE"@[3]
    &&& "IFCCOVERING"@[3] != "IFCROOFTYPE"@[3]
    &&& "IFCCOVERING"@[3] != "IFCPILETYPE"@[3]
    &&& "IFCCOVERING"@[3] != "IFCROADPART"@[3]
    &&& "IFCCOVERING"@[3] != "IFCFACILITY"@[3]
    &&& "IFCCOVERING"@[3] != "IFCBOREHOLE"@[3]
    &&& "IFCCOVERING"@[3] != "IFCGEOMODEL"@[3]
    &&& "IFCCOVERING"@[3] != "IFCGEOSLICE"@[3]
    &&& "IFCCOVERING"@[3] != "IFCPAVEMENT"@[3]
    &&& "IFCPLATE"@[3] != "IFCBLOCK"@[3]
    &&& "IFCPLATE"@[6] != "IFCPLANE"@[6]
    &&& "IFCMEMBER"@[3] != "IFCSPHERE"@[3]
    &&& "IFCMEMBER"@[3] != "IFCCIRCLE"@[3]
    &&& "IFCMEMBER"@[3] != "IFCVECTOR"@[3]
    &&& "IFCMEMBER"@[3] != "IFCSIUNIT"@[3]
    &&& "IFCMEMBER"@[3] != "IFCBRIDGE"@[3]
    &&& "IFCMEMBER"@[3] != "IFCCOURSE"@[3]
    &&& "IFCFOOTING"@[3] != "IFCELLIPSE"@[3]
    &&& "IFCFOOTING"@[3] != "IFCRAILWAY"@[3]
    &&& "IFCPILE"@[3] != "IFCLINE"@[3]
    &&& "IFCPILE"@[3] != "IFCFACE"@[3]
    &&& "IFCPILE"@[3] != "IFCROAD"@[3]
    &&& "IFCPILE"@[3] != "IFCKERB"@[3]
    &&& "IFCBUILDINGELEMENTPROXY"@[3] != "IFCFACETEDBREPWITHVOIDS"@[3]
}

proof fn lemma_wire_names_differ_6()
    ensures
        wire_names_differ_6(),
{
    reveal_strlit("IFCCOVERING");
    reveal_strlit("IFCEDGELOOP");
    reveal_strlit("IFCMATERIAL");
    reveal_strlit("IFCWALLTYPE");
    reveal_strlit("IFCSLABTYPE");
    reveal_strlit("IFCBEAMTYPE");
    reveal_strlit("IFCDOORTYPE");
    reveal_strlit("IFCRAMPTYPE");
    reveal_strlit("IFCROOFTYPE");
    reveal_strlit("IFCPILETYPE");
    reveal_strlit("IFCROADPART");
    reveal_strlit("IFCFACILITY");
    reveal_strlit("IFCBOREHOLE");
    reveal_strlit("IFCGEOMODEL");
    reveal_strlit("IFCGEOSLICE");
    reveal_strlit("IFCPAVEMENT");
    reveal_strlit("IFCPLATE");
    reveal_strlit("IFCBLOCK");
    reveal_strlit("IFCPLANE");
    reveal_strlit("IFCMEMBER");
    reveal_strlit("IFCSPHERE");
    reveal_strlit("IFCCIRCLE");
    reveal_strlit("IFCVECTOR");
    reveal_strlit("IFCSIUNIT");
    reveal_strlit("IFCBRIDGE");
    reveal_strlit("IFCCOURSE");
    reveal_strlit("IFCFOOTING");
    reveal_strlit("IFCELLIPSE");
    reveal_strlit("IFCRAILWAY");
    reveal_strlit("IFCPILE");
    reveal_strlit("IFCLINE");
    reveal_strlit("IFCFACE");
    reveal_strlit("IFCROAD");
    reveal_strlit("IFCKERB");
    reveal_strlit("IFCBUILDINGELEMENTPROXY");
    reveal_strlit("IFCFACETEDBREPWITHVOIDS");
}

/// The a position where two wire names of equal length differ, for a run of such pairs.
spec fn wire_names_differ_7() -> bool {
    &&& "IFCBUILDINGELEMENTPROXY"@[3] != "IFCCENTERLINEPROFILEDEF"@[3]
    &&& "IFCBUILDINGELEMENTPROXY"@[3] != "IFCCARTESIANPOINTLIST2D"@[3]
    &&& "IFCBUILDINGELEMENTPROXY"@[3] != "IFCCARTESIANPOINTLIST3D"@[3]
    &&& "IFCBUILDINGELEMENTPROXY"@[3] != "IFCPROPERTYBOUNDEDVALUE"@[3]
    &&& "IFCELEMENTASSEMBLY"@[3] != "IFCRELVOIDSELEMENT"@[3]
    &&& "IFCELEMENTASSEMBLY"@[3] != "IFCRELFILLSELEMENT"@[3]
    &&& "IFCELEMENTASSEMBLY"@[3] != "IFCCOMPLEXPROPERTY"@[3]
    &&& "IFCELEMENTASSEMBLY"@[10] != "IFCELEMENTQUANTITY"@[10]
    &&& "IFCELEMENTASSEMBLY"@[3] != "IFCMATERIALPROFILE"@[3]
    &&& "IFCELEMENTASSEMBLY"@[3] != "IFCLIGHTSOURCESPOT"@[3]
    &&& "IFCELEMENTASSEMBLY"@[3] != "IFCMEASUREWITHUNIT"@[3]
    &&& "IFCELEMENTASSEMBLY"@[3] != "IFCSTAIRFLIGHTTYPE"@[3]
    &&& "IFCDISTRIBUTIONELEMENT"@[3] != "IFCFLOWTREATMENTDEVICE"@[3]
    &&& "IFCDISTRIBUTIONELEMENT"@[3] != "IFCCABLECARRIERSEGMENT"@[3]
    &&& "IFCDISTRIBUTIONELEMENT"@[3] != "IFCCABLECARRIERFITTING"@[3]
    &&& "IFCDISTRIBUTIONELEMENT"@[3] != "IFCOPENINGSTANDARDCASE"@[3]
    &&& "IFCDISTRIBUTIONELEMENT"@[3] != "IFCTRIANGULATEDFACESET"@[3]
    &&& "IFCDISTRIBUTIONELEMENT"@[3] != "IFCRECTANGLEPROFILEDEF"@[3]
    &&& "IFCDISTRIBUTIONELEMENT"@[3] != "IFCTRAPEZIUMPROFILEDEF"@[3]
    &&& "IFCDISTRIBUTIONELEMENT"@[3] != "IFCCOMPOSITEPROFILEDEF"@[3]
    &&& "IFCDISTRIBUTIONELEMENT"@[3] != "IFCSHAPEREPRESENTATION"@[3]
    &&& "IFCDISTRIBUTIONELEMENT"@[3] != "IFCPROPERTYSINGLEVALUE"@[3]
    &&& "IFCDISTRIBUTIONELEMENT"@[3] != "IFCMATERIALCONSTITUENT"@[3]
    &&& "IFCDISTRIBUTIONELEMENT"@[3] != "IFCCONVERSIONBASEDUNIT"@[3]
    &&& "IFCDISTRIBUTIONELEMENT"@[3] != "IFCALIGNMENTHORIZONTAL"@[3]
    &&& "IFCDISTRIBUTIONELEMENT"@[3] != "IFCGEOTECHNICALELEMENT"@[3]
    &&& "IFCDISTRIBUTIONFLOWELEMENT"@[3] != "IFCSWEPTDISKSOLIDPOLYGONAL"@[3]
    &&& "IFCDISTRIBUTIONFLOWELEMENT"@[3] != "IFCBSPLINESURFACEWITHKNOTS"@[3]
    &&& "IFCDISTRIBUTIONFLOWELEMENT"@[3] != "IFCRELCONNECTSPATHELEMENTS"@[3]
    &&& "IFCDISTRIBUTIONFLOWELEMENT"@[3] != "IFCPROPERTYENUMERATEDVALUE"@[3]
}

proof fn lemma_wire_names_differ_7()
    ensures
        wire_names_differ_7(),
{
    reveal_strlit("IFCBUILDINGELEMENTPROXY");
    reveal_strlit("IFCCENTERLINEPROFILEDEF");
    reveal_strlit("IFCCARTESIANPOINTLIST2D");
    reveal_strlit("IFCCARTESIANPOINTLIST3D");
    reveal_strlit("IFCPROPERTYBOUNDEDVALUE");
    reveal_strlit("IFCELEMENTASSEMBLY");
    reveal_strlit("IFCRELVOIDSELEMENT");
    reveal_strlit("IFCRELFILLSELEMENT");
    reveal_strlit("IFCCOMPLEXPROPERTY");
    reveal_strlit("IFCELEMENTQUANTITY");
    reveal_strlit("IFCMATERIALPROFILE");
    reveal_strlit("IFCLIGHTSOURCESPOT");
    reveal_strlit("IFCMEASUREWITHUNIT");
    reveal_strlit("IFCSTAIRFLIGHTTYPE");
    reveal_strlit("IFCDISTRIBUTIONELEMENT");
    reveal_strlit("IFCFLOWTREATMENTDEVICE");
    reveal_strlit("IFCCABLECARRIERSEGMENT");
    reveal_strlit("IFCCABLECARRIERFITTING");
    reveal_strlit("IFCOPENINGSTANDARDCASE");
    reveal_strlit("IFCTRIANGULATEDFACESET");
    reveal_strlit("IFCRECTANGLEPROFILEDEF");
    reveal_strlit("IFCTRAPEZIUMPROFILEDEF");
    reveal_strlit("IFCCOMPOSITEPROFILEDEF");
    reveal_strlit("IFCSHAPEREPRESENTATION");
    reveal_strlit("IFCPROPERTYSINGLEVALUE");
    reveal_strlit("IFCMATERIALCONSTITUENT");
    reveal_strlit("IFCCONVERSIONBASEDUNIT");
    reveal_strlit("IFCALIGNMENTHORIZONTAL");
    reveal_strlit("IFCGEOTECHNICALELEMENT");
    reveal_strlit("IFCDISTRIBUTIONFLOWELEMENT");
    reveal_strlit("IFCSWEPTDISKSOLIDPOLYGONAL");
    reveal_strlit("IFCBSPLINESURFACEWITHKNOTS");
    reveal_strlit("IFCRELCONNECTSPATHELEMENTS");
    reveal_strlit("IFCPROPERTYENUMERATEDVALUE");
}

/// The a position where two wire names of equal length differ, for a run of such pairs.
spec fn wire_names_differ_8() -> bool {
    &&& "IFCDISTRIBUTIONFLOWELEMENT"@[3] != "IFCMATERIALPROFILESETUSAGE"@[3]
    &&& "IFCFLOWTERMINAL"@[3] != "IFCCABLESEGMENT"@[3]
    &&& "IFCFLOWTERMINAL"@[3] != "IFCADVANCEDBREP"@[3]
    &&& "IFCFLOWTERMINAL"@[3] != "IFCTRIMMEDCURVE"@[3]
    &&& "IFCFLOWTERMINAL"@[3] != "IFCBSPLINECURVE"@[3]
    &&& "IFCFLOWTERMINAL"@[3] != "IFCORIENTEDEDGE"@[3]
    &&& "IFCFLOWTERMINAL"@[3] != "IFCQUANTITYAREA"@[3]
    &&& "IFCFLOWTERMINAL"@[3] != "IFCQUANTITYTIME"@[3]
    &&& "IFCFLOWTERMINAL"@[3] != "IFCMATERIALLIST"@[3]
    &&& "IFCFLOWTERMINAL"@[3] != "IFCSURFACESTYLE"@[3]
    &&& "IFCFLOWTERMINAL"@[3] != "IFCLIGHTFIXTURE"@[3]
    &&& "IFCFLOWTERMINAL"@[3] != "IFCCOVERINGTYPE"@[3]
    &&& "IFCFLOWTERMINAL"@[4] != "IFCFACILITYPART"@[4]
    &&& "IFCFLOWTERMINAL"@[3] != "IFCSOLIDSTRATUM"@[3]
    &&& "IFCFLOWTERMINAL"@[3] != "IFCWATERSTRATUM"@[3]
    &&& "IFCFLOWSEGMENT"@[7] != "IFCFLOWFITTING"@[7]
    &&& "IFCFLOWSEGMENT"@[3] != "IFCPIPESEGMENT"@[3]
    &&& "IFCFLOWSEGMENT"@[3] != "IFCPIPEFITTING"@[3]
    &&& "IFCFLOWSEGMENT"@[3] != "IFCSPACEHEATER"@[3]
    &&& "IFCFLOWSEGMENT"@[3] != "IFCAIRTERMINAL"@[3]
    &&& "IFCFLOWSEGMENT"@[4] != "IFCFACETEDBREP"@[4]
    &&& "IFCFLOWSEGMENT"@[3] != "IFCCLOSEDSHELL"@[3]
    &&& "IFCFLOWSEGMENT"@[3] != "IFCVERTEXPOINT"@[3]
    &&& "IFCFLOWSEGMENT"@[3] != "IFCPROPERTYSET"@[3]
    &&& "IFCFLOWSEGMENT"@[3] != "IFCLIGHTSOURCE"@[3]
    &&& "IFCFLOWSEGMENT"@[3] != "IFCDERIVEDUNIT"@[3]
    &&& "IFCFLOWSEGMENT"@[3] != "IFCRAILINGTYPE"@[3]
    &&& "IFCFLOWSEGMENT"@[4] != "IFCFOOTINGTYPE"@[4]
    &&& "IFCFLOWSEGMENT"@[3] != "IFCRAILWAYPART"@[3]
    &&& "IFCFLOWSEGMENT"@[3] != "IFCVOIDSTRATUM"@[3]
}

proof fn lemma_wire_names_differ_8()
    ensures
        wire_names_differ_8(),
{
    reveal_strlit("IFCDISTRIBUTIONFLOWELEMENT");
    reveal_strlit("IFCMATERIALPROFILESETUSAGE");
    reveal_strlit("IFCFLOWTERMINAL");
    reveal_strlit("IFCCABLESEGMENT");
    reveal_strlit("IFCADVANCEDBREP");
    reveal_strlit("IFCTRIMMEDCURVE");
    reveal_strlit("IFCBSPLINECURVE");
    reveal_strlit("IFCORIENTEDEDGE");
    reveal_strlit("IFCQUANTITYAREA");
    reveal_strlit("IFCQUANTITYTIME");
    reveal_strlit("IFCMATERIALLIST");
    reveal_strlit("IFCSURFACESTYLE");
    reveal_strlit("IFCLIGHTFIXTURE");
    reveal_strlit("IFCCOVERINGTYPE");
    reveal_strlit("IFCFACILITYPART");
    reveal_strlit("IFCSOLIDSTRATUM");
    reveal_strlit("IFCWATERSTRATUM");
    reveal_strlit("IFCFLOWSEGMENT");
    reveal_strlit("IFCFLOWFITTING");
    reveal_strlit("IFCPIPESEGMENT");
    reveal_strlit("IFCPIPEFITTING");
    reveal_strlit("IFCSPACEHEATER");
    reveal_strlit("IFCAIRTERMINAL");
    reveal_strlit("IFCFACETEDBREP");
    reveal_strlit("IFCCLOSEDSHELL");
    reveal_strlit("IFCVERTEXPOINT");
    reveal_strlit("IFCPROPERTYSET");
    reveal_strlit("IFCLIGHTSOURCE");
    reveal_strlit("IFCDERIVEDUNIT");
    reveal_strlit("IFCRAILINGTYPE");
    reveal_strlit("IFCFOOTINGTYPE");
    reveal_strlit("IFCRAILWAYPART");
    reveal_strlit("IFCVOIDSTRATUM");
}

/// The a position where two wire names of equal length differ, for a run of such pairs.
spec fn wire_names_differ_9() -> bool {
    &&& "IFCFLOWFITTING"@[3] != "IFCPIPESEGMENT"@[3]
    &&& "IFCFLOWFITTING"@[3] != "IFCPIPEFITTING"@[3]
    &&& "IFCFLOWFITTING"@[3] != "IFCSPACEHEATER"@[3]
    &&& "IFCFLOWFITTING"@[3] != "IFCAIRTERMINAL"@[3]
    &&& "IFCFLOWFITTING"@[4] != "IFCFACETEDBREP"@[4]
    &&& "IFCFLOWFITTING"@[3] != "IFCCLOSEDSHELL"@[3]
    &&& "IFCFLOWFITTING"@[3] != "IFCVERTEXPOINT"@[3]
    &&& "IFCFLOWFITTING"@[3] != "IFCPROPERTYSET"@[3]
    &&& "IFCFLOWFITTING"@[3] != "IFCLIGHTSOURCE"@[3]
    &&& "IFCFLOWFITTING"@[3] != "IFCDERIVEDUNIT"@[3]
    &&& "IFCFLOWFITTING"@[3] != "IFCRAILINGTYPE"@[3]
    &&& "IFCFLOWFITTING"@[4] != "IFCFOOTINGTYPE"@[4]
    &&& "IFCFLOWFITTING"@[3] != "IFCRAILWAYPART"@[3]
    &&& "IFCFLOWFITTING"@[3] != "IFCVOIDSTRATUM"@[3]
    &&& "IFCFLOWCONTROLLER"@[3] != "IFCOPENINGELEMENT"@[3]
    &&& "IFCFLOWCONTROLLER"@[3] != "IFCVOIDINGFEATURE"@[3]
    &&& "IFCFLOWCONTROLLER"@[3] != "IFCSWEPTDISKSOLID"@[3]
    &&& "IFCFLOWCONTROLLER"@[3] != "IFCHALFSPACESOLID"@[3]
    &&& "IFCFLOWCONTROLLER"@[3] != "IFCBOXEDHALFSPACE"@[3]
    &&& "IFCFLOWCONTROLLER"@[3] != "IFCCOMPOSITECURVE"@[3]
    &&& "IFCFLOWCONTROLLER"@[3] != "IFCBSPLINESURFACE"@[3]
    &&& "IFCFLOWCONTROLLER"@[3] != "IFCCARTESIANPOINT"@[3]
    &&& "IFCFLOWCONTROLLER"@[3] != "IFCLOCALPLACEMENT"@[3]
    &&& "IFCFLOWCONTROLLER"@[4] != "IFCFACEOUTERBOUND"@[4]
    &&& "IFCFLOWCONTROLLER"@[3] != "IFCQUANTITYLENGTH"@[3]
    &&& "IFCFLOWCONTROLLER"@[3] != "IFCQUANTITYVOLUME"@[3]
    &&& "IFCFLOWCONTROLLER"@[3] != "IFCQUANTITYWEIGHT"@[3]
    &&& "IFCFLOWCONTROLLER"@[3] != "IFCUNITASSIGNMENT"@[3]
    &&& "IFCFLOWCONTROLLER"@[3] != "IFCRAMPFLIGHTTYPE"@[3]
    &&& "IFCFLOWCONTROLLER"@[3] != "IFCEARTHWORKSFILL"@[3]
}

proof fn lemma_wire_names_differ_9()
    ensures
        wire_names_differ_9(),
{
    reveal_strlit("IFCFLOWFITTING");
    reveal_strlit("IFCPIPESEGMENT");
    reveal_strlit("IFCPIPEFITTING");
    reveal_strlit("IFCSPACEHEATER");
    reveal_strlit("IFCAIRTERMINAL");
    reveal_strlit("IFCFACETEDBREP");
    reveal_strlit("IFCCLOSEDSHELL");
    reveal_strlit("IFCVERTEXPOINT");
    reveal_strlit("IFCPROPERTYSET");
    reveal_strlit("IFCLIGHTSOURCE");
    reveal_strlit("IFCDERIVEDUNIT");
    reveal_strlit("IFCRAILINGTYPE");
    reveal_strlit("IFCFOOTINGTYPE");
    reveal_strlit("IFCRAILWAYPART");
    reveal_strlit("IFCVOIDSTRATUM");
    reveal_strlit("IFCFLOWCONTROLLER");
    reveal_strlit("IFCOPENINGELEMENT");
    reveal_strlit("IFCVOIDINGFEATURE");
    reveal_strlit("IFCSWEPTDISKSOLID");
    reveal_strlit("IFCHALFSPACESOLID");
    reveal_strlit("IFCBOXEDHALFSPACE");
    reveal_strlit("IFCCOMPOSITECURVE");
    reveal_strlit("IFCBSPLINESURFACE");
    reveal_strlit("IFCCARTESIANPOINT");
    reveal_strlit("IFCLOCALPLACEMENT");
    reveal_strlit("IFCFACEOUTERBOUND");
    reveal_strlit("IFCQUANTITYLENGTH");
    reveal_strlit("IFCQUANTITYVOLUME");
    reveal_strlit("IFCQUANTITYWEIGHT");
    reveal_strlit("IFCUNITASSIGNMENT");
    reveal_strlit("IFCRAMPFLIGHTTYPE");
    reveal_strlit("IFCEARTHWORKSFILL");
}

/// The a position where two wire names of equal length differ, for a run of such pairs.
spec fn wire_names_differ_10() -> bool {
    &&& "IFCFLOWCONTROLLER"@[3] != "IFCDEEPFOUNDATION"@[3]
    &&& "IFCFLOWMOVINGDEVICE"@[3] != "IFCPOLYGONALFACESET"@[3]
    &&& "IFCFLOWMOVINGDEVICE"@[3] != "IFCCIRCLEPROFILEDEF"@[3]
    &&& "IFCFLOWMOVINGDEVICE"@[3] != "IFCISHAPEPROFILEDEF"@[3]
    &&& "IFCFLOWMOVINGDEVICE"@[3] != "IFCLSHAPEPROFILEDEF"@[3]
    &&& "IFCFLOWMOVINGDEVICE"@[3] != "IFCTSHAPEPROFILEDEF"@[3]
    &&& "IFCFLOWMOVINGDEVICE"@[3] != "IFCUSHAPEPROFILEDEF"@[3]
    &&& "IFCFLOWMOVINGDEVICE"@[3] != "IFCCSHAPEPROFILEDEF"@[3]
    &&& "IFCFLOWMOVINGDEVICE"@[3] != "IFCZSHAPEPROFILEDEF"@[3]
    &&& "IFCFLOWMOVINGDEVICE"@[3] != "IFCINDEXEDPOLYCURVE"@[3]
    &&& "IFCFLOWMOVINGDEVICE"@[3] != "IFCAXIS2PLACEMENT2D"@[3]
    &&& "IFCFLOWMOVINGDEVICE"@[3] != "IFCAXIS2PLACEMENT3D"@[3]
    &&& "IFCFLOWMOVINGDEVICE"@[3] != "IFCCONNECTEDFACESET"@[3]
    &&& "IFCFLOWMOVINGDEVICE"@[3] != "IFCRELDEFINESBYTYPE"@[3]
    &&& "IFCFLOWMOVINGDEVICE"@[3] != "IFCRELSPACEBOUNDARY"@[3]
    &&& "IFCFLOWMOVINGDEVICE"@[3] != "IFCMATERIALLAYERSET"@[3]
    &&& "IFCFLOWMOVINGDEVICE"@[3] != "IFCLIGHTFIXTURETYPE"@[3]
    &&& "IFCFLOWMOVINGDEVICE"@[3] != "IFCALIGNMENTSEGMENT"@[3]
    &&& "IFCFLOWSTORAGEDEVICE"@[4] != "IFCFURNISHINGELEMENT"@[4]
    &&& "IFCFLOWSTORAGEDEVICE"@[3] != "IFCPROJECTIONELEMENT"@[3]
    &&& "IFCFLOWSTORAGEDEVICE"@[3] != "IFCEXTRUDEDAREASOLID"@[3]
    &&& "IFCFLOWSTORAGEDEVICE"@[3] != "IFCREVOLVEDAREASOLID"@[3]
    &&& "IFCFLOWSTORAGEDEVICE"@[3] != "IFCREPRESENTATIONMAP"@[3]
    &&& "IFCFLOWSTORAGEDEVICE"@[3] != "IFCRIGHTCIRCULARCONE"@[3]
    &&& "IFCFLOWSTORAGEDEVICE"@[3] != "IFCELLIPSEPROFILEDEF"@[3]
    &&& "IFCFLOWSTORAGEDEVICE"@[3] != "IFCDERIVEDPROFILEDEF"@[3]
    &&& "IFCFLOWSTORAGEDEVICE"@[3] != "IFCCURVEBOUNDEDPLANE"@[3]
    &&& "IFCFLOWSTORAGEDEVICE"@[3] != "IFCRELASSIGNSTOGROUP"@[3]
    &&& "IFCFLOWSTORAGEDEVICE"@[3] != "IFCPROPERTYLISTVALUE"@[3]
    &&& "IFCFLOWSTORAGEDEVICE"@[3] != "IFCALIGNMENTVERTICAL"@[3]
}

proof fn lemma_wire_names_differ_10()
    ensures
        wire_names_differ_10(),
{
    reveal_strlit("IFCFLOWCONTROLLER");
    reveal_strlit("IFCDEEPFOUNDATION");
    reveal_strlit("IFCFLOWMOVINGDEVICE");
    reveal_strlit("IFCPOLYGONALFACESET");
    reveal_strlit("IFCCIRCLEPROFILEDEF");
    reveal_strlit("IFCISHAPEPROFILEDEF");
    reveal_strlit("IFCLSHAPEPROFILEDEF");
    reveal_strlit("IFCTSHAPEPROFILEDEF");
    reveal_strlit("IFCUSHAPEPROFILEDEF");
    reveal_strlit("IFCCSHAPEPROFILEDEF");
    reveal_strlit("IFCZSHAPEPROFILEDEF");
    reveal_strlit("IFCINDEXEDPOLYCURVE");
    reveal_strlit("IFCAXIS2PLACEMENT2D");
    reveal_strlit("IFCAXIS2PLACEMENT3D");
    reveal_strlit("IFCCONNECTEDFACESET");
    reveal_strlit("IFCRELDEFINESBYTYPE");
    reveal_strlit("IFCRELSPACEBOUNDARY");
    reveal_strlit("IFCMATERIALLAYERSET");
    reveal_strlit("IFCLIGHTFIXTURETYPE");
    reveal_strlit("IFCALIGNMENTSEGMENT");
    reveal_strlit("IFCFLOWSTORAGEDEVICE");
    reveal_strlit("IFCFURNISHINGELEMENT");
    reveal_strlit("IFCPROJECTIONELEMENT");
    reveal_strlit("IFCEXTRUDEDAREASOLID");
    reveal_strlit("IFCREVOLVEDAREASOLID");
    reveal_strlit("IFCREPRESENTATIONMAP");
    reveal_strlit("IFCRIGHTCIRCULARCONE");
    reveal_strlit("IFCELLIPSEPROFILEDEF");
    reveal_strlit("IFCDERIVEDPROFILEDEF");
    reveal_strlit("IFCCURVEBOUNDEDPLANE");
    reveal_strlit("IFCRELASSIGNSTOGROUP");
    reveal_strlit("IFCPROPERTYLISTVALUE");
    reveal_strlit("IFCALIGNMENTVERTICAL");
}

/// The a position where two wire names of equal length differ, for a run of such pairs.
spec fn wire_names_differ_11() -> bool {
    &&& "IFCFLOWSTORAGEDEVICE"@[3] != "IFCEARTHWORKSELEMENT"@[3]
    &&& "IFCFLOWTREATMENTDEVICE"@[3] != "IFCCABLECARRIERSEGMENT"@[3]
    &&& "IFCFLOWTREATMENTDEVICE"@[3] != "IFCCABLECARRIERFITTING"@[3]
    &&& "IFCFLOWTREATMENTDEVICE"@[3] != "IFCOPENINGSTANDARDCASE"@[3]
    &&& "IFCFLOWTREATMENTDEVICE"@[3] != "IFCTRIANGULATEDFACESET"@[3]
    &&& "IFCFLOWTREATMENTDEVICE"@[3] != "IFCRECTANGLEPROFILEDEF"@[3]
    &&& "IFCFLOWTREATMENTDEVICE"@[3] != "IFCTRAPEZIUMPROFILEDEF"@[3]
    &&& "IFCFLOWTREATMENTDEVICE"@[3] != "IFCCOMPOSITEPROFILEDEF"@[3]
    &&& "IFCFLOWTREATMENTDEVICE"@[3] != "IFCSHAPEREPRESENTATION"@[3]
    &&& "IFCFLOWTREATMENTDEVICE"@[3] != "IFCPROPERTYSINGLEVALUE"@[3]
    &&& "IFCFLOWTREATMENTDEVICE"@[3] != "IFCMATERIALCONSTITUENT"@[3]
    &&& "IFCFLOWTREATMENTDEVICE"@[3] != "IFCCONVERSIONBASEDUNIT"@[3]
    &&& "IFCFLOWTREATMENTDEVICE"@[3] != "IFCALIGNMENTHORIZONTAL"@[3]
    &&& "IFCFLOWTREATMENTDEVICE"@[3] != "IFCGEOTECHNICALELEMENT"@[3]
    &&& "IFCENERGYCONVERSIONDEVICE"@[3] != "IFCSYSTEMFURNITUREELEMENT"@[3]
    &&& "IFCENERGYCONVERSIONDEVICE"@[3] != "IFCCIRCLEHOLLOWPROFILEDEF"@[3]
    &&& "IFCENERGYCONVERSIONDEVICE"@[3] != "IFCPRODUCTDEFINITIONSHAPE"@[3]
    &&& "IFCENERGYCONVERSIONDEVICE"@[3] != "IFCRELDEFINESBYPROPERTIES"@[3]
    &&& "IFCENERGYCONVERSIONDEVICE"@[3] != "IFCMATERIALCONSTITUENTSET"@[3]
    &&& "IFCENERGYCONVERSIONDEVICE"@[3] != "IFCLIGHTSOURCEDIRECTIONAL"@[3]
    &&& "IFCENERGYCONVERSIONDEVICE"@[3] != "IFCLIGHTSOURCEGONIOMETRIC"@[3]
    &&& "IFCDISTRIBUTIONCONTROLELEMENT"@[3] != "IFCSURFACECURVESWEPTAREASOLID"@[3]
    &&& "IFCDISTRIBUTIONCONTROLELEMENT"@[3] != "IFCASYMMETRICISHAPEPROFILEDEF"@[3]
    &&& "IFCDISTRIBUTIONCONTROLELEMENT"@[3] != "IFCLIGHTINTENSITYDISTRIBUTION"@[3]
    &&& "IFCCABLESEGMENT"@[3] != "IFCADVANCEDBREP"@[3]
    &&& "IFCCABLESEGMENT"@[3] != "IFCTRIMMEDCURVE"@[3]
    &&& "IFCCABLESEGMENT"@[3] != "IFCBSPLINECURVE"@[3]
    &&& "IFCCABLESEGMENT"@[3] != "IFCORIENTEDEDGE"@[3]
    &&& "IFCCABLESEGMENT"@[3] != "IFCQUANTITYAREA"@[3]
    &&& "IFCCABLESEGMENT"@[3] != "IFCQUANTITYTIME"@[3]
}

proof fn lemma_wire_names_differ_11()
    ensures
        wire_names_differ_11(),
{
    reveal_strlit("IFCFLOWSTORAGEDEVICE");
    reveal_strlit("IFCEARTHWORKSELEMENT");
    reveal_strlit("IFCFLOWTREATMENTDEVICE");
    reveal_strlit("IFCCABLECARRIERSEGMENT");
    reveal_strlit("IFCCABLECARRIERFITTING");
    reveal_strlit("IFCOPENINGSTANDARDCASE");
    reveal_strlit("IFCTRIANGULATEDFACESET");
    reveal_strlit("IFCRECTANGLEPROFILEDEF");
    reveal_strlit("IFCTRAPEZIUMPROFILEDEF");
    reveal_strlit("IFCCOMPOSITEPROFILEDEF");
    reveal_strlit("IFCSHAPEREPRESENTATION");
    reveal_strlit("IFCPROPERTYSINGLEVALUE");
    reveal_strlit("IFCMATERIALCONSTITUENT");
    reveal_strlit("IFCCONVERSIONBASEDUNIT");
    reveal_strlit("IFCALIGNMENTHORIZONTAL");
    reveal_strlit("IFCGEOTECHNICALELEMENT");
    reveal_strlit("IFCENERGYCONVERSIONDEVICE");
    reveal_strlit("IFCSYSTEMFURNITUREELEMENT");
    reveal_strlit("IFCCIRCLEHOLLOWPROFILEDEF");
    reveal_strlit("IFCPRODUCTDEFINITIONSHAPE");
    reveal_strlit("IFCRELDEFINESBYPROPERTIES");
    reveal_strlit("IFCMATERIALCONSTITUENTSET");
    reveal_strlit("IFCLIGHTSOURCEDIRECTIONAL");
    reveal_strlit("IFCLIGHTSOURCEGONIOMETRIC");
    reveal_strlit("IFCDISTRIBUTIONCONTROLELEMENT");
    reveal_strlit("IFCSURFACECURVESWEPTAREASOLID");
    reveal_strlit("IFCASYMMETRICISHAPEPROFILEDEF");
    reveal_strlit("IFCLIGHTINTENSITYDISTRIBUTION");
    reveal_strlit("IFCCABLESEGMENT");
    reveal_strlit("IFCADVANCEDBREP");
    reveal_strlit("IFCTRIMMEDCURVE");
    reveal_strlit("IFCBSPLINECURVE");
    reveal_strlit("IFCORIENTEDEDGE");
    reveal_strlit("IFCQUANTITYAREA");
    reveal_strlit("IFCQUANTITYTIME");
}

/// The a position where two wire names of equal length differ, for a run of such pairs.
spec fn wire_names_differ_12() -> bool {
    &&& "IFCCABLESEGMENT"@[3] != "IFCMATERIALLIST"@[3]
    &&& "IFCCABLESEGMENT"@[3] != "IFCSURFACESTYLE"@[3]
    &&& "IFCCABLESEGMENT"@[3] != "IFCLIGHTFIXTURE"@[3]
    &&& "IFCCABLESEGMENT"@[4] != "IFCCOVERINGTYPE"@[4]
    &&& "IFCCABLESEGMENT"@[3] != "IFCFACILITYPART"@[3]
    &&& "IFCCABLESEGMENT"@[3] != "IFCSOLIDSTRATUM"@[3]
    &&& "IFCCABLESEGMENT"@[3] != "IFCWATERSTRATUM"@[3]
    &&& "IFCCABLECARRIERSEGMENT"@[15] != "IFCCABLECARRIERFITTING"@[15]
    &&& "IFCCABLECARRIERSEGMENT"@[3] != "IFCOPENINGSTANDARDCASE"@[3]
    &&& "IFCCABLECARRIERSEGMENT"@[3] != "IFCTRIANGULATEDFACESET"@[3]
    &&& "IFCCABLECARRIERSEGMENT"@[3] != "IFCRECTANGLEPROFILEDEF"@[3]
    &&& "IFCCABLECARRIERSEGMENT"@[3] != "IFCTRAPEZIUMPROFILEDEF"@[3]
    &&& "IFCCABLECARRIERSEGMENT"@[4] != "IFCCOMPOSITEPROFILEDEF"@[4]
    &&& "IFCCABLECARRIERSEGMENT"@[3] != "IFCSHAPEREPRESENTATION"@[3]
    &&& "IFCCABLECARRIERSEGMENT"@[3] != "IFCPROPERTYSINGLEVALUE"@[3]
    &&& "IFCCABLECARRIERSEGMENT"@[3] != "IFCMATERIALCONSTITUENT"@[3]
    &&& "IFCCABLECARRIERSEGMENT"@[4] != "IFCCONVERSIONBASEDUNIT"@[4]
    &&& "IFCCABLECARRIERSEGMENT"@[3] != "IFCALIGNMENTHORIZONTAL"@[3]
    &&& "IFCCABLECARRIERSEGMENT"@[3] != "IFCGEOTECHNICALELEMENT"@[3]
    &&& "IFCCABLECARRIERFITTING"@[3] != "IFCOPENINGSTANDARDCASE"@[3]
    &&& "IFCCABLECARRIERFITTING"@[3] != "IFCTRIANGULATEDFACESET"@[3]
    &&& "IFCCABLECARRIERFITTING"@[3] != "IFCRECTANGLEPROFILEDEF"@[3]
    &&& "IFCCABLECARRIERFITTING"@[3] != "IFCTRAPEZIUMPROFILEDEF"@[3]
    &&& "IFCCABLECARRIERFITTING"@[4] != "IFCCOMPOSITEPROFILEDEF"@[4]
    &&& "IFCCABLECARRIERFITTING"@[3] != "IFCSHAPEREPRESENTATION"@[3]
    &&& "IFCCABLECARRIERFITTING"@[3] != "IFCPROPERTYSINGLEVALUE"@[3]
    &&& "IFCCABLECARRIERFITTING"@[3] != "IFCMATERIALCONSTITUENT"@[3]
    &&& "IFCCABLECARRIERFITTING"@[4] != "IFCCONVERSIONBASEDUNIT"@[4]
    &&& "IFCCABLECARRIERFITTING"@[3] != "IFCALIGNMENTHORIZONTAL"@[3]
    &&& "IFCCABLECARRIERFITTING"@[3] != "IFCGEOTECHNICALELEMENT"@[3]
}

proof fn lemma_wire_names_differ_12()
    ensures
        wire_names_differ_12(),
{
    reveal_strlit("IFCCABLESEGMENT");
    reveal_strlit("IFCMATERIALLIST");
    reveal_strlit("IFCSURFACESTYLE");
    reveal_strlit("IFCLIGHTFIXTURE");
    reveal_strlit("IFCCOVERINGTYPE");
    reveal_strlit("IFCFACILITYPART");
    reveal_strlit("IFCSOLIDSTRATUM");
    reveal_strlit("IFCWATERSTRATUM");
    reveal_strlit("IFCCABLECARRIERSEGMENT");
    reveal_strlit("IFCCABLECARRIERFITTING");
    reveal_strlit("IFCOPENINGSTANDARDCASE");
    reveal_strlit("IFCTRIANGULATEDFACESET");
    reveal_strlit("IFCRECTANGLEPROFILEDEF");
    reveal_strlit("IFCTRAPEZIUMPROFILEDEF");
    reveal_strlit("IFCCOMPOSITEPROFILEDEF");
    reveal_strlit("IFCSHAPEREPRESENTATION");
    reveal_strlit("IFCPROPERTYSINGLEVALUE");
    reveal_strlit("IFCMATERIALCONSTITUENT");
    reveal_strlit("IFCCONVERSIONBASEDUNIT");
    reveal_strlit("IFCALIGNMENTHORIZONTAL");
    reveal_strlit("IFCGEOTECHNICALELEMENT");
}

/// The a position where two wire names of equal length differ, for a run of such pairs.
spec fn wire_names_differ_13() -> bool {
    &&& "IFCPIPESEGMENT"@[7] != "IFCPIPEFITTING"@[7]
    &&& "IFCPIPESEGMENT"@[3] != "IFCSPACEHEATER"@[3]
    &&& "IFCPIPESEGMENT"@[3] != "IFCAIRTERMINAL"@[3]
    &&& "IFCPIPESEGMENT"@[3] != "IFCFACETEDBREP"@[3]
    &&& "IFCPIPESEGMENT"@[3] != "IFCCLOSEDSHELL"@[3]
    &&& "IFCPIPESEGMENT"@[3] != "IFCVERTEXPOINT"@[3]
    &&& "IFCPIPESEGMENT"@[4] != "IFCPROPERTYSET"@[4]
    &&& "IFCPIPESEGMENT"@[3] != "IFCLIGHTSOURCE"@[3]
    &&& "IFCPIPESEGMENT"@[3] != "IFCDERIVEDUNIT"@[3]
    &&& "IFCPIPESEGMENT"@[3] != "IFCRAILINGTYPE"@[3]
    &&& "IFCPIPESEGMENT"@[3] != "IFCFOOTINGTYPE"@[3]
    &&& "IFCPIPESEGMENT"@[3] != "IFCRAILWAYPART"@[3]
    &&& "IFCPIPESEGMENT"@[3] != "IFCVOIDSTRATUM"@[3]
    &&& "IFCPIPEFITTING"@[3] != "IFCSPACEHEATER"@[3]
    &&& "IFCPIPEFITTING"@[3] != "IFCAIRTERMINAL"@[3]
    &&& "IFCPIPEFITTING"@[3] != "IFCFACETEDBREP"@[3]
    &&& "IFCPIPEFITTING"@[3] != "IFCCLOSEDSHELL"@[3]
    &&& "IFCPIPEFITTING"@[3] != "IFCVERTEXPOINT"@[3]
    &&& "IFCPIPEFITTING"@[4] != "IFCPROPERTYSET"@[4]
    &&& "IFCPIPEFITTING"@[3] != "IFCLIGHTSOURCE"@[3]
    &&& "IFCPIPEFITTING"@[3] != "IFCDERIVEDUNIT"@[3]
    &&& "IFCPIPEFITTING"@[3] != "IFCRAILINGTYPE"@[3]
    &&& "IFCPIPEFITTING"@[3] != "IFCFOOTINGTYPE"@[3]
    &&& "IFCPIPEFITTING"@[3] != "IFCRAILWAYPART"@[3]
    &&& "IFCPIPEFITTING"@[3] != "IFCVOIDSTRATUM"@[3]
    &&& "IFCSPACEHEATER"@[3] != "IFCAIRTERMINAL"@[3]
    &&& "IFCSPACEHEATER"@[3] != "IFCFACETEDBREP"@[3]
    &&& "IFCSPACEHEATER"@[3] != "IFCCLOSEDSHELL"@[3]
    &&& "IFCSPACEHEATER"@[3] != "IFCVERTEXPOINT"@[3]
    &&& "IFCSPACEHEATER"@[3] != "IFCPROPERTYSET"@[3]
}

proof fn lemma_wire_names_differ_13()
    ensures
        wire_names_differ_13(),
{
    reveal_strlit("IFCPIPESEGMENT");
    reveal_strlit("IFCPIPEFITTING");
    reveal_strlit("IFCSPACEHEATER");
    reveal_strlit("IFCAIRTERMINAL");
    reveal_strlit("IFCFACETEDBREP");
    reveal_strlit("IFCCLOSEDSHELL");
    reveal_strlit("IFCVERTEXPOINT");
    reveal_strlit("IFCPROPERTYSET");
    reveal_strlit("IFCLIGHTSOURCE");
    reveal_strlit("IFCDERIVEDUNIT");
    reveal_strlit("IFCRAILINGTYPE");
    reveal_strlit("IFCFOOTINGTYPE");
    reveal_strlit("IFCRAILWAYPART");
    reveal_strlit("IFCVOIDSTRATUM");
}

/// The a position where two wire names of equal length differ, for a run of such pairs.
spec fn wire_names_differ_14() -> bool {
    &&& "IFCSPACEHEATER"@[3] != "IFCLIGHTSOURCE"@[3]
    &&& "IFCSPACEHEATER"@[3] != "IFCDERIVEDUNIT"@[3]
    &&& "IFCSPACEHEATER"@[3] != "IFCRAILINGTYPE"@[3]
    &&& "IFCSPACEHEATER"@[3] != "IFCFOOTINGTYPE"@[3]
    &&& "IFCSPACEHEATER"@[3] != "IFCRAILWAYPART"@[3]
    &&& "IFCSPACEHEATER"@[3] != "IFCVOIDSTRATUM"@[3]
    &&& "IFCAIRTERMINAL"@[3] != "IFCFACETEDBREP"@[3]
    &&& "IFCAIRTERMINAL"@[3] != "IFCCLOSEDSHELL"@[3]
    &&& "IFCAIRTERMINAL"@[3] != "IFCVERTEXPOINT"@[3]
    &&& "IFCAIRTERMINAL"@[3] != "IFCPROPERTYSET"@[3]
    &&& "IFCAIRTERMINAL"@[3] != "IFCLIGHTSOURCE"@[3]
    &&& "IFCAIRTERMINAL"@[3] != "IFCDERIVEDUNIT"@[3]
    &&& "IFCAIRTERMINAL"@[3] != "IFCRAILINGTYPE"@[3]
    &&& "IFCAIRTERMINAL"@[3] != "IFCFOOTINGTYPE"@[3]
    &&& "IFCAIRTERMINAL"@[3] != "IFCRAILWAYPART"@[3]
    &&& "IFCAIRTERMINAL"@[3] != "IFCVOIDSTRATUM"@[3]
    &&& "IFCFURNISHINGELEMENT"@[3] != "IFCPROJECTIONELEMENT"@[3]
    &&& "IFCFURNISHINGELEMENT"@[3] != "IFCEXTRUDEDAREASOLID"@[3]
    &&& "IFCFURNISHINGELEMENT"@[3] != "IFCREVOLVEDAREASOLID"@[3]
    &&& "IFCFURNISHINGELEMENT"@[3] != "IFCREPRESENTATIONMAP"@[3]
    &&& "IFCFURNISHINGELEMENT"@[3] != "IFCRIGHTCIRCULARCONE"@[3]
    &&& "IFCFURNISHINGELEMENT"@[3] != "IFCELLIPSEPROFILEDEF"@[3]
    &&& "IFCFURNISHINGELEMENT"@[3] != "IFCDERIVEDPROFILEDEF"@[3]
    &&& "IFCFURNISHINGELEMENT"@[3] != "IFCCURVEBOUNDEDPLANE"@[3]
    &&& "IFCFURNISHINGELEMENT"@[3] != "IFCRELASSIGNSTOGROUP"@[3]
    &&& "IFCFURNISHINGELEMENT"@[3] != "IFCPROPERTYLISTVALUE"@[3]
    &&& "IFCFURNISHINGELEMENT"@[3] != "IFCALIGNMENTVERTICAL"@[3]
    &&& "IFCFURNISHINGELEMENT"@[3] != "IFCEARTHWORKSELEMENT"@[3]
    &&& "IFCFURNITURE"@[3] != "IFCDIRECTION"@[3]
    &&& "IFCFURNITURE"@[3] != "IFCOPENSHELL"@[3]
}

proof fn lemma_wire_names_differ_14()
    ensures
        wire_names_differ_14(),
{
    reveal_strlit("IFCSPACEHEATER");
    reveal_strlit("IFCLIGHTSOURCE");
    reveal_strlit("IFCDERIVEDUNIT");
    reveal_strlit("IFCRAILINGTYPE");
    reveal_strlit("IFCFOOTINGTYPE");
    reveal_strlit("IFCRAILWAYPART");
    reveal_strlit("IFCVOIDSTRATUM");
    reveal_strlit("IFCAIRTERMINAL");
    reveal_strlit("IFCFACETEDBREP");
    reveal_strlit("IFCCLOSEDSHELL");
    reveal_strlit("IFCVERTEXPOINT");
    reveal_strlit("IFCPROPERTYSET");
    reveal_strlit("IFCFURNISHINGELEMENT");
    reveal_strlit("IFCPROJECTIONELEMENT");
    reveal_strlit("IFCEXTRUDEDAREASOLID");
    reveal_strlit("IFCREVOLVEDAREASOLID");
    reveal_strlit("IFCREPRESENTATIONMAP");
    reveal_strlit("IFCRIGHTCIRCULARCONE");
    reveal_strlit("IFCELLIPSEPROFILEDEF");
    reveal_strlit("IFCDERIVEDPROFILEDEF");
    reveal_strlit("IFCCURVEBOUNDEDPLANE");
    reveal_strlit("IFCRELASSIGNSTOGROUP");
    reveal_strlit("IFCPROPERTYLISTVALUE");
    reveal_strlit("IFCALIGNMENTVERTICAL");
    reveal_strlit("IFCEARTHWORKSELEMENT");
    reveal_strlit("IFCFURNITURE");
    reveal_strlit("IFCDIRECTION");
    reveal_strlit("IFCOPENSHELL");
}

/// The a position where two wire names of equal length differ, for a run of such pairs.
spec fn wire_names_differ_15() -> bool {
    &&& "IFCFURNITURE"@[4] != "IFCFACEBOUND"@[4]
    &&& "IFCFURNITURE"@[3] != "IFCEDGECURVE"@[3]
    &&& "IFCFURNITURE"@[3] != "IFCCOLOURRGB"@[3]
    &&& "IFCFURNITURE"@[3] != "IFCSTAIRTYPE"@[3]
    &&& "IFCFURNITURE"@[3] != "IFCPLATETYPE"@[3]
    &&& "IFCFURNITURE"@[3] != "IFCALIGNMENT"@[3]
    &&& "IFCSYSTEMFURNITUREELEMENT"@[3] != "IFCCIRCLEHOLLOWPROFILEDEF"@[3]
    &&& "IFCSYSTEMFURNITUREELEMENT"@[3] != "IFCPRODUCTDEFINITIONSHAPE"@[3]
    &&& "IFCSYSTEMFURNITUREELEMENT"@[3] != "IFCRELDEFINESBYPROPERTIES"@[3]
    &&& "IFCSYSTEMFURNITUREELEMENT"@[3] != "IFCMATERIALCONSTITUENTSET"@[3]
    &&& "IFCSYSTEMFURNITUREELEMENT"@[3] != "IFCLIGHTSOURCEDIRECTIONAL"@[3]
    &&& "IFCSYSTEMFURNITUREELEMENT"@[3] != "IFCLIGHTSOURCEGONIOMETRIC"@[3]
    &&& "IFCOPENINGELEMENT"@[3] != "IFCVOIDINGFEATURE"@[3]
    &&& "IFCOPENINGELEMENT"@[3] != "IFCSWEPTDISKSOLID"@[3]
    &&& "IFCOPENINGELEMENT"@[3] != "IFCHALFSPACESOLID"@[3]
    &&& "IFCOPENINGELEMENT"@[3] != "IFCBOXEDHALFSPACE"@[3]
    &&& "IFCOPENINGELEMENT"@[3] != "IFCCOMPOSITECURVE"@[3]
    &&& "IFCOPENINGELEMENT"@[3] != "IFCBSPLINESURFACE"@[3]
    &&& "IFCOPENINGELEMENT"@[3] != "IFCCARTESIANPOINT"@[3]
    &&& "IFCOPENINGELEMENT"@[3] != "IFCLOCALPLACEMENT"@[3]
    &&& "IFCOPENINGELEMENT"@[3] != "IFCFACEOUTERBOUND"@[3]
    &&& "IFCOPENINGELEMENT"@[3] != "IFCQUANTITYLENGTH"@[3]
    &&& "IFCOPENINGELEMENT"@[3] != "IFCQUANTITYVOLUME"@[3]
    &&& "IFCOPENINGELEMENT"@[3] != "IFCQUANTITYWEIGHT"@[3]
    &&& "IFCOPENINGELEMENT"@[3] != "IFCUNITASSIGNMENT"@[3]
    &&& "IFCOPENINGELEMENT"@[3] != "IFCRAMPFLIGHTTYPE"@[3]
    &&& "IFCOPENINGELEMENT"@[3] != "IFCEARTHWORKSFILL"@[3]
    &&& "IFCOPENINGELEMENT"@[3] != "IFCDEEPFOUNDATION"@[3]
    &&& "IFCOPENINGSTANDARDCASE"@[3] != "IFCTRIANGULATEDFACESET"@[3]
    &&& "IFCOPENINGSTANDARDCASE"@[3] != "IFCRECTANGLEPROFILEDEF"@[3]
}

proof fn lemma_wire_names_differ_15()
    ensures
        wire_names_differ_15(),
{
    reveal_strlit("IFCFURNITURE");
    reveal_strlit("IFCFACEBOUND");
    reveal_strlit("IFCEDGECURVE");
    reveal_strlit("IFCCOLOURRGB");
    reveal_strlit("IFCSTAIRTYPE");
    reveal_strlit("IFCPLATETYPE");
    reveal_strlit("IFCALIGNMENT");
    reveal_strlit("IFCSYSTEMFURNITUREELEMENT");
    reveal_strlit("IFCCIRCLEHOLLOWPROFILEDEF");
    reveal_strlit("IFCPRODUCTDEFINITIONSHAPE");
    reveal_strlit("IFCRELDEFINESBYPROPERTIES");
    reveal_strlit("IFCMATERIALCONSTITUENTSET");
    reveal_strlit("IFCLIGHTSOURCEDIRECTIONAL");
    reveal_strlit("IFCLIGHTSOURCEGONIOMETRIC");
    reveal_strlit("IFCOPENINGELEMENT");
    reveal_strlit("IFCVOIDINGFEATURE");
    reveal_strlit("IFCSWEPTDISKSOLID");
    reveal_strlit("IFCHALFSPACESOLID");
    reveal_strlit("IFCBOXEDHALFSPACE");
    reveal_strlit("IFCCOMPOSITECURVE");
    reveal_strlit("IFCBSPLINESURFACE");
    reveal_strlit("IFCCARTESIANPOINT");
    reveal_strlit("IFCLOCALPLACEMENT");
    reveal_strlit("IFCFACEOUTERBOUND");
    reveal_strlit("IFCQUANTITYLENGTH");
    reveal_strlit("IFCQUANTITYVOLUME");
    reveal_strlit("IFCQUANTITYWEIGHT");
    reveal_strlit("IFCUNITASSIGNMENT");
    reveal_strlit("IFCRAMPFLIGHTTYPE");
    reveal_strlit("IFCEARTHWORKSFILL");
    reveal_strlit("IFCDEEPFOUNDATION");
    reveal_strlit("IFCOPENINGSTANDARDCASE");
    reveal_strlit("IFCTRIANGULATEDFACESET");
    reveal_strlit("IFCRECTANGLEPROFILEDEF");
}

/// The a position where two wire names of equal length differ, for a run of such pairs.
spec fn wire_names_differ_16() -> bool {
    &&& "IFCOPENINGSTANDARDCASE"@[3] != "IFCTRAPEZIUMPROFILEDEF"@[3]
    &&& "IFCOPENINGSTANDARDCASE"@[3] != "IFCCOMPOSITEPROFILEDEF"@[3]
    &&& "IFCOPENINGSTANDARDCASE"@[3] != "IFCSHAPEREPRESENTATION"@[3]
    &&& "IFCOPENINGSTANDARDCASE"@[3] != "IFCPROPERTYSINGLEVALUE"@[3]
    &&& "IFCOPENINGSTANDARDCASE"@[3] != "IFCMATERIALCONSTITUENT"@[3]
    &&& "IFCOPENINGSTANDARDCASE"@[3] != "IFCCONVERSIONBASEDUNIT"@[3]
    &&& "IFCOPENINGSTANDARDCASE"@[3] != "IFCALIGNMENTHORIZONTAL"@[3]
    &&& "IFCOPENINGSTANDARDCASE"@[3] != "IFCGEOTECHNICALELEMENT"@[3]
    &&& "IFCVOIDINGFEATURE"@[3] != "IFCSWEPTDISKSOLID"@[3]
    &&& "IFCVOIDINGFEATURE"@[3] != "IFCHALFSPACESOLID"@[3]
    &&& "IFCVOIDINGFEATURE"@[3] != "IFCBOXEDHALFSPACE"@[3]
    &&& "IFCVOIDINGFEATURE"@[3] != "IFCCOMPOSITECURVE"@[3]
    &&& "IFCVOIDINGFEATURE"@[3] != "IFCBSPLINESURFACE"@[3]
    &&& "IFCVOIDINGFEATURE"@[3] != "IFCCARTESIANPOINT"@[3]
    &&& "IFCVOIDINGFEATURE"@[3] != "IFCLOCALPLACEMENT"@[3]
    &&& "IFCVOIDINGFEATURE"@[3] != "IFCFACEOUTERBOUND"@[3]
    &&& "IFCVOIDINGFEATURE"@[3] != "IFCQUANTITYLENGTH"@[3]
    &&& "IFCVOIDINGFEATURE"@[3] != "IFCQUANTITYVOLUME"@[3]
    &&& "IFCVOIDINGFEATURE"@[3] != "IFCQUANTITYWEIGHT"@[3]
    &&& "IFCVOIDINGFEATURE"@[3] != "IFCUNITASSIGNMENT"@[3]
    &&& "IFCVOIDINGFEATURE"@[3] != "IFCRAMPFLIGHTTYPE"@[3]
    &&& "IFCVOIDINGFEATURE"@[3] != "IFCEARTHWORKSFILL"@[3]
    &&& "IFCVOIDINGFEATURE"@[3] != "IFCDEEPFOUNDATION"@[3]
    &&& "IFCPROJECTIONELEMENT"@[3] != "IFCEXTRUDEDAREASOLID"@[3]
    &&& "IFCPROJECTIONELEMENT"@[3] != "IFCREVOLVEDAREASOLID"@[3]
    &&& "IFCPROJECTIONELEMENT"@[3] != "IFCREPRESENTATIONMAP"@[3]
    &&& "IFCPROJECTIONELEMENT"@[3] != "IFCRIGHTCIRCULARCONE"@[3]
    &&& "IFCPROJECTIONELEMENT"@[3] != "IFCELLIPSEPROFILEDEF"@[3]
    &&& "IFCPROJECTIONELEMENT"@[3] != "IFCDERIVEDPROFILEDEF"@[3]
    &&& "IFCPROJECTIONELEMENT"@[3] != "IFCCURVEBOUNDEDPLANE"@[3]
}

proof fn lemma_wire_names_differ_16()
    ensures
        wire_names_differ_16(),
{
    reveal_strlit("IFCOPENINGSTANDARDCASE");
    reveal_strlit("IFCTRAPEZIUMPROFILEDEF");
    reveal_strlit("IFCCOMPOSITEPROFILEDEF");
    reveal_strlit("IFCSHAPEREPRESENTATION");
    reveal_strlit("IFCPROPERTYSINGLEVALUE");
    reveal_strlit("IFCMATERIALCONSTITUENT");
    reveal_strlit("IFCCONVERSIONBASEDUNIT");
    reveal_strlit("IFCALIGNMENTHORIZONTAL");
    reveal_strlit("IFCGEOTECHNICALELEMENT");
    reveal_strlit("IFCVOIDINGFEATURE");
    reveal_strlit("IFCSWEPTDISKSOLID");
    reveal_strlit("IFCHALFSPACESOLID");
    reveal_strlit("IFCBOXEDHALFSPACE");
    reveal_strlit("IFCCOMPOSITECURVE");
    reveal_strlit("IFCBSPLINESURFACE");
    reveal_strlit("IFCCARTESIANPOINT");
    reveal_strlit("IFCLOCALPLACEMENT");
    reveal_strlit("IFCFACEOUTERBOUND");
    reveal_strlit("IFCQUANTITYLENGTH");
    reveal_strlit("IFCQUANTITYVOLUME");
    reveal_strlit("IFCQUANTITYWEIGHT");
    reveal_strlit("IFCUNITASSIGNMENT");
    reveal_strlit("IFCRAMPFLIGHTTYPE");
    reveal_strlit("IFCEARTHWORKSFILL");
    reveal_strlit("IFCDEEPFOUNDATION");
    reveal_strlit("IFCPROJECTIONELEMENT");
    reveal_strlit("IFCEXTRUDEDAREASOLID");
    reveal_strlit("IFCREVOLVEDAREASOLID");
    reveal_strlit("IFCREPRESENTATIONMAP");
    reveal_strlit("IFCRIGHTCIRCULARCONE");
    reveal_strlit("IFCELLIPSEPROFILEDEF");
    reveal_strlit("IFCDERIVEDPROFILEDEF");
    reveal_strlit("IFCCURVEBOUNDEDPLANE");
}

/// The a position where two wire names of equal length differ, for a run of such pairs.
spec fn wire_names_differ_17() -> bool {
    &&& "IFCPROJECTIONELEMENT"@[3] != "IFCRELASSIGNSTOGROUP"@[3]
    &&& "IFCPROJECTIONELEMENT"@[6] != "IFCPROPERTYLISTVALUE"@[6]
    &&& "IFCPROJECTIONELEMENT"@[3] != "IFCALIGNMENTVERTICAL"@[3]
    &&& "IFCPROJECTIONELEMENT"@[3] != "IFCEARTHWORKSELEMENT"@[3]
    &&& "IFCEXTRUDEDAREASOLID"@[3] != "IFCREVOLVEDAREASOLID"@[3]
    &&& "IFCEXTRUDEDAREASOLID"@[3] != "IFCREPRESENTATIONMAP"@[3]
    &&& "IFCEXTRUDEDAREASOLID"@[3] != "IFCRIGHTCIRCULARCONE"@[3]
    &&& "IFCEXTRUDEDAREASOLID"@[4] != "IFCELLIPSEPROFILEDEF"@[4]
    &&& "IFCEXTRUDEDAREASOLID"@[3] != "IFCDERIVEDPROFILEDEF"@[3]
    &&& "IFCEXTRUDEDAREASOLID"@[3] != "IFCCURVEBOUNDEDPLANE"@[3]
    &&& "IFCEXTRUDEDAREASOLID"@[3] != "IFCRELASSIGNSTOGROUP"@[3]
    &&& "IFCEXTRUDEDAREASOLID"@[3] != "IFCPROPERTYLISTVALUE"@[3]
    &&& "IFCEXTRUDEDAREASOLID"@[3] != "IFCALIGNMENTVERTICAL"@[3]
    &&& "IFCEXTRUDEDAREASOLID"@[4] != "IFCEARTHWORKSELEMENT"@[4]
    &&& "IFCEXTRUDEDAREASOLIDTAPERED"@[3] != "IFCREVOLVEDAREASOLIDTAPERED"@[3]
    &&& "IFCEXTRUDEDAREASOLIDTAPERED"@[3] != "IFCBUILDINGELEMENTPROXYTYPE"@[3]
    &&& "IFCREVOLVEDAREASOLID"@[5] != "IFCREPRESENTATIONMAP"@[5]
    &&& "IFCREVOLVEDAREASOLID"@[4] != "IFCRIGHTCIRCULARCONE"@[4]
    &&& "IFCREVOLVEDAREASOLID"@[3] != "IFCELLIPSEPROFILEDEF"@[3]
    &&& "IFCREVOLVEDAREASOLID"@[3] != "IFCDERIVEDPROFILEDEF"@[3]
    &&& "IFCREVOLVEDAREASOLID"@[3] != "IFCCURVEBOUNDEDPLANE"@[3]
    &&& "IFCREVOLVEDAREASOLID"@[5] != "IFCRELASSIGNSTOGROUP"@[5]
    &&& "IFCREVOLVEDAREASOLID"@[3] != "IFCPROPERTYLISTVALUE"@[3]
    &&& "IFCREVOLVEDAREASOLID"@[3] != "IFCALIGNMENTVERTICAL"@[3]
    &&& "IFCREVOLVEDAREASOLID"@[3] != "IFCEARTHWORKSELEMENT"@[3]
    &&& "IFCREVOLVEDAREASOLIDTAPERED"@[3] != "IFCBUILDINGELEMENTPROXYTYPE"@[3]
    &&& "IFCSWEPTDISKSOLID"@[3] != "IFCHALFSPACESOLID"@[3]
    &&& "IFCSWEPTDISKSOLID"@[3] != "IFCBOXEDHALFSPACE"@[3]
    &&& "IFCSWEPTDISKSOLID"@[3] != "IFCCOMPOSITECURVE"@[3]
    &&& "IFCSWEPTDISKSOLID"@[3] != "IFCBSPLINESURFACE"@[3]
}

proof fn lemma_wire_names_differ_17()
    ensures
        wire_names_differ_17(),
{
    reveal_strlit("IFCPROJECTIONELEMENT");
    reveal_strlit("IFCRELASSIGNSTOGROUP");
    reveal_strlit("IFCPROPERTYLISTVALUE");
    reveal_strlit("IFCALIGNMENTVERTICAL");
    reveal_strlit("IFCEARTHWORKSELEMENT");
    reveal_strlit("IFCEXTRUDEDAREASOLID");
    reveal_strlit("IFCREVOLVEDAREASOLID");
    reveal_strlit("IFCREPRESENTATIONMAP");
    reveal_strlit("IFCRIGHTCIRCULARCONE");
    reveal_strlit("IFCELLIPSEPROFILEDEF");
    reveal_strlit("IFCDERIVEDPROFILEDEF");
    reveal_strlit("IFCCURVEBOUNDEDPLANE");
    reveal_strlit("IFCEXTRUDEDAREASOLIDTAPERED");
    reveal_strlit("IFCREVOLVEDAREASOLIDTAPERED");
    reveal_strlit("IFCBUILDINGELEMENTPROXYTYPE");
    reveal_strlit("IFCSWEPTDISKSOLID");
    reveal_strlit("IFCHALFSPACESOLID");
    reveal_strlit("IFCBOXEDHALFSPACE");
    reveal_strlit("IFCCOMPOSITECURVE");
    reveal_strlit("IFCBSPLINESURFACE");
}

/// The a position where two wire names of equal length differ, for a run of such pairs.
spec fn wire_names_differ_18() -> bool {
    &&& "IFCSWEPTDISKSOLID"@[3] != "IFCCARTESIANPOINT"@[3]
    &&& "IFCSWEPTDISKSOLID"@[3] != "IFCLOCALPLACEMENT"@[3]
    &&& "IFCSWEPTDISKSOLID"@[3] != "IFCFACEOUTERBOUND"@[3]
    &&& "IFCSWEPTDISKSOLID"@[3] != "IFCQUANTITYLENGTH"@[3]
    &&& "IFCSWEPTDISKSOLID"@[3] != "IFCQUANTITYVOLUME"@[3]
    &&& "IFCSWEPTDISKSOLID"@[3] != "IFCQUANTITYWEIGHT"@[3]
    &&& "IFCSWEPTDISKSOLID"@[3] != "IFCUNITASSIGNMENT"@[3]
    &&& "IFCSWEPTDISKSOLID"@[3] != "IFCRAMPFLIGHTTYPE"@[3]
    &&& "IFCSWEPTDISKSOLID"@[3] != "IFCEARTHWORKSFILL"@[3]
    &&& "IFCSWEPTDISKSOLID"@[3] != "IFCDEEPFOUNDATION"@[3]
    &&& "IFCSWEPTDISKSOLIDPOLYGONAL"@[3] != "IFCBSPLINESURFACEWITHKNOTS"@[3]
    &&& "IFCSWEPTDISKSOLIDPOLYGONAL"@[3] != "IFCRELCONNECTSPATHELEMENTS"@[3]
    &&& "IFCSWEPTDISKSOLIDPOLYGONAL"@[3] != "IFCPROPERTYENUMERATEDVALUE"@[3]
    &&& "IFCSWEPTDISKSOLIDPOLYGONAL"@[3] != "IFCMATERIALPROFILESETUSAGE"@[3]
    &&& "IFCSURFACECURVESWEPTAREASOLID"@[3] != "IFCASYMMETRICISHAPEPROFILEDEF"@[3]
    &&& "IFCSURFACECURVESWEPTAREASOLID"@[3] != "IFCLIGHTINTENSITYDISTRIBUTION"@[3]
    &&& "IFCFIXEDREFERENCESWEPTAREASOLID"@[3] != "IFCARBITRARYPROFILEDEFWITHVOIDS"@[3]
    &&& "IFCFACETEDBREP"@[3] != "IFCCLOSEDSHELL"@[3]
    &&& "IFCFACETEDBREP"@[3] != "IFCVERTEXPOINT"@[3]
    &&& "IFCFACETEDBREP"@[3] != "IFCPROPERTYSET"@[3]
    &&& "IFCFACETEDBREP"@[3] != "IFCLIGHTSOURCE"@[3]
    &&& "IFCFACETEDBREP"@[3] != "IFCDERIVEDUNIT"@[3]
    &&& "IFCFACETEDBREP"@[3] != "IFCRAILINGTYPE"@[3]
    &&& "IFCFACETEDBREP"@[4] != "IFCFOOTINGTYPE"@[4]
    &&& "IFCFACETEDBREP"@[3] != "IFCRAILWAYPART"@[3]
    &&& "IFCFACETEDBREP"@[3] != "IFCVOIDSTRATUM"@[3]
    &&& "IFCFACETEDBREPWITHVOIDS"@[3] != "IFCCENTERLINEPROFILEDEF"@[3]
    &&& "IFCFACETEDBREPWITHVOIDS"@[3] != "IFCCARTESIANPOINTLIST2D"@[3]
    &&& "IFCFACETEDBREPWITHVOIDS"@[3] != "IFCCARTESIANPOINTLIST3D"@[3]
    &&& "IFCFACETEDBREPWITHVOIDS"@[3] != "IFCPROPERTYBOUNDEDVALUE"@[3]
}

proof fn lemma_wire_names_differ_18()
    ensures
        wire_names_differ_18(),
{
    reveal_strlit("IFCSWEPTDISKSOLID");
    reveal_strlit("IFCCARTESIANPOINT");
    reveal_strlit("IFCLOCALPLACEMENT");
    reveal_strlit("IFCFACEOUTERBOUND");
    reveal_strlit("IFCQUANTITYLENGTH");
    reveal_strlit("IFCQUANTITYVOLUME");
    reveal_strlit("IFCQUANTITYWEIGHT");
    reveal_strlit("IFCUNITASSIGNMENT");
    reveal_strlit("IFCRAMPFLIGHTTYPE");
    reveal_strlit("IFCEARTHWORKSFILL");
    reveal_strlit("IFCDEEPFOUNDATION");
    reveal_strlit("IFCSWEPTDISKSOLIDPOLYGONAL");
    reveal_strlit("IFCBSPLINESURFACEWITHKNOTS");
    reveal_strlit("IFCRELCONNECTSPATHELEMENTS");
    reveal_strlit("IFCPROPERTYENUMERATEDVALUE");
    reveal_strlit("IFCMATERIALPROFILESETUSAGE");
    reveal_strlit("IFCSURFACECURVESWEPTAREASOLID");
    reveal_strlit("IFCASYMMETRICISHAPEPROFILEDEF");
    reveal_strlit("IFCLIGHTINTENSITYDISTRIBUTION");
    reveal_strlit("IFCFIXEDREFERENCESWEPTAREASOLID");
    reveal_strlit("IFCARBITRARYPROFILEDEFWITHVOIDS");
    reveal_strlit("IFCFACETEDBREP");
    reveal_strlit("IFCCLOSEDSHELL");
    reveal_strlit("IFCVERTEXPOINT");
    reveal_strlit("IFCPROPERTYSET");
    reveal_strlit("IFCLIGHTSOURCE");
    reveal_strlit("IFCDERIVEDUNIT");
    reveal_strlit("IFCRAILINGTYPE");
    reveal_strlit("IFCFOOTINGTYPE");
    reveal_strlit("IFCRAILWAYPART");
    reveal_strlit("IFCVOIDSTRATUM");
    reveal_strlit("IFCFACETEDBREPWITHVOIDS");
    reveal_strlit("IFCCENTERLINEPROFILEDEF");
    reveal_strlit("IFCCARTESIANPOINTLIST2D");
    reveal_strlit("IFCCARTESIANPOINTLIST3D");
    reveal_strlit("IFCPROPERTYBOUNDEDVALUE");
}

/// The a position where two wire names of equal length differ, for a run of such pairs.
spec fn wire_names_differ_19() -> bool {
    &&& "IFCADVANCEDBREP"@[3] != "IFCTRIMMEDCURVE"@[3]
    &&& "IFCADVANCEDBREP"@[3] != "IFCBSPLINECURVE"@[3]
    &&& "IFCADVANCEDBREP"@[3] != "IFCORIENTEDEDGE"@[3]
    &&& "IFCADVANCEDBREP"@[3] != "IFCQUANTITYAREA"@[3]
    &&& "IFCADVANCEDBREP"@[3] != "IFCQUANTITYTIME"@[3]
    &&& "IFCADVANCEDBREP"@[3] != "IFCMATERIALLIST"@[3]
    &&& "IFCADVANCEDBREP"@[3] != "IFCSURFACESTYLE"@[3]
    &&& "IFCADVANCEDBREP"@[3] != "IFCLIGHTFIXTURE"@[3]
    &&& "IFCADVANCEDBREP"@[3] != "IFCCOVERINGTYPE"@[3]
    &&& "IFCADVANCEDBREP"@[3] != "IFCFACILITYPART"@[3]
    &&& "IFCADVANCEDBREP"@[3] != "IFCSOLIDSTRATUM"@[3]
    &&& "IFCADVANCEDBREP"@[3] != "IFCWATERSTRATUM"@[3]
    &&& "IFCADVANCEDBREPWITHVOIDS"@[3] != "IFCBOOLEANCLIPPINGRESULT"@[3]
    &&& "IFCADVANCEDBREPWITHVOIDS"@[3] != "IFCRIGHTCIRCULARCYLINDER"@[3]
    &&& "IFCADVANCEDBREPWITHVOIDS"@[3] != "IFCCOMPOSITECURVESEGMENT"@[3]
    &&& "IFCADVANCEDBREPWITHVOIDS"@[3] != "IFCBSPLINECURVEWITHKNOTS"@[3]
    &&& "IFCADVANCEDBREPWITHVOIDS"@[3] != "IFCRELASSOCIATESMATERIAL"@[3]
    &&& "IFCADVANCEDBREPWITHVOIDS"@[3] != "IFCMATERIALLAYERSETUSAGE"@[3]
    &&& "IFCADVANCEDBREPWITHVOIDS"@[3] != "IFCSURFACESTYLERENDERING"@[3]
    &&& "IFCADVANCEDBREPWITHVOIDS"@[3] != "IFCLIGHTSOURCEPOSITIONAL"@[3]
    &&& "IFCADVANCEDBREPWITHVOIDS"@[3] != "IFCLIGHTDISTRIBUTIONDATA"@[3]
    &&& "IFCTRIANGULATEDFACESET"@[3] != "IFCRECTANGLEPROFILEDEF"@[3]
    &&& "IFCTRIANGULATEDFACESET"@[5] != "IFCTRAPEZIUMPROFILEDEF"@[5]
    &&& "IFCTRIANGULATEDFACESET"@[3] != "IFCCOMPOSITEPROFILEDEF"@[3]
    &&& "IFCTRIANGULATEDFACESET"@[3] != "IFCSHAPEREPRESENTATION"@[3]
    &&& "IFCTRIANGULATEDFACESET"@[3] != "IFCPROPERTYSINGLEVALUE"@[3]
    &&& "IFCTRIANGULATEDFACESET"@[3] != "IFCMATERIALCONSTITUENT"@[3]
    &&& "IFCTRIANGULATEDFACESET"@[3] != "IFCCONVERSIONBASEDUNIT"@[3]
    &&& "IFCTRIANGULATEDFACESET"@[3] != "IFCALIGNMENTHORIZONTAL"@[3]
    &&& "IFCTRIANGULATEDFACESET"@[3] != "IFCGEOTECHNICALELEMENT"@[3]
}

proof fn lemma_wire_names_differ_19()
    ensures
        wire_names_differ_19(),
{
    reveal_strlit("IFCADVANCEDBREP");
    reveal_strlit("IFCTRIMMEDCURVE");
    reveal_strlit("IFCBSPLINECURVE");
    reveal_strlit("IFCORIENTEDEDGE");
    reveal_strlit("IFCQUANTITYAREA");
    reveal_strlit("IFCQUANTITYTIME");
    reveal_strlit("IFCMATERIALLIST");
    reveal_strlit("IFCSURFACESTYLE");
    reveal_strlit("IFCLIGHTFIXTURE");
    reveal_strlit("IFCCOVERINGTYPE");
    reveal_strlit("IFCFACILITYPART");
    reveal_strlit("IFCSOLIDSTRATUM");
    reveal_strlit("IFCWATERSTRATUM");
    reveal_strlit("IFCADVANCEDBREPWITHVOIDS");
    reveal_strlit("IFCBOOLEANCLIPPINGRESULT");
    reveal_strlit("IFCRIGHTCIRCULARCYLINDER");
    reveal_strlit("IFCCOMPOSITECURVESEGMENT");
    reveal_strlit("IFCBSPLINECURVEWITHKNOTS");
    reveal_strlit("IFCRELASSOCIATESMATERIAL");
    reveal_strlit("IFCMATERIALLAYERSETUSAGE");
    reveal_strlit("IFCSURFACESTYLERENDERING");
    reveal_strlit("IFCLIGHTSOURCEPOSITIONAL");
    reveal_strlit("IFCLIGHTDISTRIBUTIONDATA");
    reveal_strlit("IFCTRIANGULATEDFACESET");
    reveal_strlit("IFCRECTANGLEPROFILEDEF");
    reveal_strlit("IFCTRAPEZIUMPROFILEDEF");
    reveal_strlit("IFCCOMPOSITEPROFILEDEF");
    reveal_strlit("IFCSHAPEREPRESENTATION");
    reveal_strlit("IFCPROPERTYSINGLEVALUE");
    reveal_strlit("IFCMATERIALCONSTITUENT");
    reveal_strlit("IFCCONVERSIONBASEDUNIT");
    reveal_strlit("IFCALIGNMENTHORIZONTAL");
    reveal_strlit("IFCGEOTECHNICALELEMENT");
}

/// The a position where two wire names of equal length differ, for a run of such pairs.
spec fn wire_names_differ_20() -> bool {
    &&& "IFCPOLYGONALFACESET"@[3] != "IFCCIRCLEPROFILEDEF"@[3]
    &&& "IFCPOLYGONALFACESET"@[3] != "IFCISHAPEPROFILEDEF"@[3]
    &&& "IFCPOLYGONALFACESET"@[3] != "IFCLSHAPEPROFILEDEF"@[3]
    &&& "IFCPOLYGONALFACESET"@[3] != "IFCTSHAPEPROFILEDEF"@[3]
    &&& "IFCPOLYGONALFACESET"@[3] != "IFCUSHAPEPROFILEDEF"@[3]
    &&& "IFCPOLYGONALFACESET"@[3] != "IFCCSHAPEPROFILEDEF"@[3]
    &&& "IFCPOLYGONALFACESET"@[3] != "IFCZSHAPEPROFILEDEF"@[3]
    &&& "IFCPOLYGONALFACESET"@[3] != "IFCINDEXEDPOLYCURVE"@[3]
    &&& "IFCPOLYGONALFACESET"@[3] != "IFCAXIS2PLACEMENT2D"@[3]
    &&& "IFCPOLYGONALFACESET"@[3] != "IFCAXIS2PLACEMENT3D"@[3]
    &&& "IFCPOLYGONALFACESET"@[3] != "IFCCONNECTEDFACESET"@[3]
    &&& "IFCPOLYGONALFACESET"@[3] != "IFCRELDEFINESBYTYPE"@[3]
    &&& "IFCPOLYGONALFACESET"@[3] != "IFCRELSPACEBOUNDARY"@[3]
    &&& "IFCPOLYGONALFACESET"@[3] != "IFCMATERIALLAYERSET"@[3]
    &&& "IFCPOLYGONALFACESET"@[3] != "IFCLIGHTFIXTURETYPE"@[3]
    &&& "IFCPOLYGONALFACESET"@[3] != "IFCALIGNMENTSEGMENT"@[3]
    &&& "IFCTESSELLATEDFACESET"@[3] != "IFCRECTANGULARPYRAMID"@[3]
    &&& "IFCTESSELLATEDFACESET"@[3] != "IFCCYLINDRICALSURFACE"@[3]
    &&& "IFCTESSELLATEDFACESET"@[3] != "IFCPROPERTYTABLEVALUE"@[3]
    &&& "IFCTESSELLATEDFACESET"@[3] != "IFCMATERIALPROFILESET"@[3]
    &&& "IFCTESSELLATEDFACESET"@[3] != "IFCLIGHTSOURCEAMBIENT"@[3]
    &&& "IFCBOOLEANRESULT"@[3] != "IFCRELAGGREGATES"@[3]
    &&& "IFCBOOLEANRESULT"@[3] != "IFCQUANTITYCOUNT"@[3]
    &&& "IFCBOOLEANRESULT"@[3] != "IFCMATERIALLAYER"@[3]
    &&& "IFCBOOLEANRESULT"@[3] != "IFCALIGNMENTCANT"@[3]
    &&& "IFCBOOLEANRESULT"@[3] != "IFCEARTHWORKSCUT"@[3]
    &&& "IFCBOOLEANCLIPPINGRESULT"@[3] != "IFCRIGHTCIRCULARCYLINDER"@[3]
    &&& "IFCBOOLEANCLIPPINGRESULT"@[3] != "IFCCOMPOSITECURVESEGMENT"@[3]
    &&& "IFCBOOLEANCLIPPINGRESULT"@[4] != "IFCBSPLINECURVEWITHKNOTS"@[4]
    &&& "IFCBOOLEANCLIPPINGRESULT"@[3] != "IFCRELASSOCIATESMATERIAL"@[3]
}

proof fn lemma_wire_names_differ_20()
    ensures
        wire_names_differ_20(),
{
    reveal_strlit("IFCPOLYGONALFACESET");
    reveal_strlit("IFCCIRCLEPROFILEDEF");
    reveal_strlit("IFCISHAPEPROFILEDEF");
    reveal_strlit("IFCLSHAPEPROFILEDEF");
    reveal_strlit("IFCTSHAPEPROFILEDEF");
    reveal_strlit("IFCUSHAPEPROFILEDEF");
    reveal_strlit("IFCCSHAPEPROFILEDEF");
    reveal_strlit("IFCZSHAPEPROFILEDEF");
    reveal_strlit("IFCINDEXEDPOLYCURVE");
    reveal_strlit("IFCAXIS2PLACEMENT2D");
    reveal_strlit("IFCAXIS2PLACEMENT3D");
    reveal_strlit("IFCCONNECTEDFACESET");
    reveal_strlit("IFCRELDEFINESBYTYPE");
    reveal_strlit("IFCRELSPACEBOUNDARY");
    reveal_strlit("IFCMATERIALLAYERSET");
    reveal_strlit("IFCLIGHTFIXTURETYPE");
    reveal_strlit("IFCALIGNMENTSEGMENT");
    reveal_strlit("IFCTESSELLATEDFACESET");
    reveal_strlit("IFCRECTANGULARPYRAMID");
    reveal_strlit("IFCCYLINDRICALSURFACE");
    reveal_strlit("IFCPROPERTYTABLEVALUE");
    reveal_strlit("IFCMATERIALPROFILESET");
    reveal_strlit("IFCLIGHTSOURCEAMBIENT");
    reveal_strlit("IFCBOOLEANRESULT");
    reveal_strlit("IFCRELAGGREGATES");
    reveal_strlit("IFCQUANTITYCOUNT");
    reveal_strlit("IFCMATERIALLAYER");
    reveal_strlit("IFCALIGNMENTCANT");
    reveal_strlit("IFCEARTHWORKSCUT");
    reveal_strlit("IFCBOOLEANCLIPPINGRESULT");
    reveal_strlit("IFCRIGHTCIRCULARCYLINDER");
    reveal_strlit("IFCCOMPOSITECURVESEGMENT");
    reveal_strlit("IFCBSPLINECURVEWITHKNOTS");
    reveal_strlit("IFCRELASSOCIATESMATERIAL");
}

/// The a position where two wire names of equal length differ, for a run of such pairs.
spec fn wire_names_differ_21() -> bool {
    &&& "IFCBOOLEANCLIPPINGRESULT"@[3] != "IFCMATERIALLAYERSETUSAGE"@[3]
    &&& "IFCBOOLEANCLIPPINGRESULT"@[3] != "IFCSURFACESTYLERENDERING"@[3]
    &&& "IFCBOOLEANCLIPPINGRESULT"@[3] != "IFCLIGHTSOURCEPOSITIONAL"@[3]
    &&& "IFCBOOLEANCLIPPINGRESULT"@[3] != "IFCLIGHTDISTRIBUTIONDATA"@[3]
    &&& "IFCMAPPEDITEM"@[3] != "IFCSTYLEDITEM"@[3]
    &&& "IFCMAPPEDITEM"@[3] != "IFCCOLUMNTYPE"@[3]
    &&& "IFCMAPPEDITEM"@[3] != "IFCWINDOWTYPE"@[3]
    &&& "IFCMAPPEDITEM"@[4] != "IFCMEMBERTYPE"@[4]
    &&& "IFCMAPPEDITEM"@[3] != "IFCBRIDGEPART"@[3]
    &&& "IFCREPRESENTATIONMAP"@[4] != "IFCRIGHTCIRCULARCONE"@[4]
    &&& "IFCREPRESENTATIONMAP"@[3] != "IFCELLIPSEPROFILEDEF"@[3]
    &&& "IFCREPRESENTATIONMAP"@[3] != "IFCDERIVEDPROFILEDEF"@[3]
    &&& "IFCREPRESENTATIONMAP"@[3] != "IFCCURVEBOUNDEDPLANE"@[3]
    &&& "IFCREPRESENTATIONMAP"@[5] != "IFCRELASSIGNSTOGROUP"@[5]
    &&& "IFCREPRESENTATIONMAP"@[3] != "IFCPROPERTYLISTVALUE"@[3]
    &&& "IFCREPRESENTATIONMAP"@[3] != "IFCALIGNMENTVERTICAL"@[3]
    &&& "IFCREPRESENTATIONMAP"@[3] != "IFCEARTHWORKSELEMENT"@[3]
    &&& "IFCBLOCK"@[3] != "IFCPLANE"@[3]
    &&& "IFCRECTANGULARPYRAMID"@[3] != "IFCCYLINDRICALSURFACE"@[3]
    &&& "IFCRECTANGULARPYRAMID"@[3] != "IFCPROPERTYTABLEVALUE"@[3]
    &&& "IFCRECTANGULARPYRAMID"@[3] != "IFCMATERIALPROFILESET"@[3]
    &&& "IFCRECTANGULARPYRAMID"@[3] != "IFCLIGHTSOURCEAMBIENT"@[3]
    &&& "IFCRIGHTCIRCULARCONE"@[3] != "IFCELLIPSEPROFILEDEF"@[3]
    &&& "IFCRIGHTCIRCULARCONE"@[3] != "IFCDERIVEDPROFILEDEF"@[3]
    &&& "IFCRIGHTCIRCULARCONE"@[3] != "IFCCURVEBOUNDEDPLANE"@[3]
    &&& "IFCRIGHTCIRCULARCONE"@[4] != "IFCRELASSIGNSTOGROUP"@[4]
    &&& "IFCRIGHTCIRCULARCONE"@[3] != "IFCPROPERTYLISTVALUE"@[3]
    &&& "IFCRIGHTCIRCULARCONE"@[3] != "IFCALIGNMENTVERTICAL"@[3]
    &&& "IFCRIGHTCIRCULARCONE"@[3] != "IFCEARTHWORKSELEMENT"@[3]
    &&& "IFCRIGHTCIRCULARCYLINDER"@[3] != "IFCCOMPOSITECURVESEGMENT"@[3]
}

proof fn lemma_wire_names_differ_21()
    ensures
        wire_names_differ_21(),
{
    reveal_strlit("IFCBOOLEANCLIPPINGRESULT");
    reveal_strlit("IFCMATERIALLAYERSETUSAGE");
    reveal_strlit("IFCSURFACESTYLERENDERING");
    reveal_strlit("IFCLIGHTSOURCEPOSITIONAL");
    reveal_strlit("IFCLIGHTDISTRIBUTIONDATA");
    reveal_strlit("IFCMAPPEDITEM");
    reveal_strlit("IFCSTYLEDITEM");
    reveal_strlit("IFCCOLUMNTYPE");
    reveal_strlit("IFCWINDOWTYPE");
    reveal_strlit("IFCMEMBERTYPE");
    reveal_strlit("IFCBRIDGEPART");
    reveal_strlit("IFCREPRESENTATIONMAP");
    reveal_strlit("IFCRIGHTCIRCULARCONE");
    reveal_strlit("IFCELLIPSEPROFILEDEF");
    reveal_strlit("IFCDERIVEDPROFILEDEF");
    reveal_strlit("IFCCURVEBOUNDEDPLANE");
    reveal_strlit("IFCRELASSIGNSTOGROUP");
    reveal_strlit("IFCPROPERTYLISTVALUE");
    reveal_strlit("IFCALIGNMENTVERTICAL");
    reveal_strlit("IFCEARTHWORKSELEMENT");
    reveal_strlit("IFCBLOCK");
    reveal_strlit("IFCPLANE");
    reveal_strlit("IFCRECTANGULARPYRAMID");
    reveal_strlit("IFCCYLINDRICALSURFACE");
    reveal_strlit("IFCPROPERTYTABLEVALUE");
    reveal_strlit("IFCMATERIALPROFILESET");
    reveal_strlit("IFCLIGHTSOURCEAMBIENT");
    reveal_strlit("IFCRIGHTCIRCULARCYLINDER");
    reveal_strlit("IFCCOMPOSITECURVESEGMENT");
}

/// The a position where two wire names of equal length differ, for a run of such pairs.
spec fn wire_names_differ_22() -> bool {
    &&& "IFCRIGHTCIRCULARCYLINDER"@[3] != "IFCBSPLINECURVEWITHKNOTS"@[3]
    &&& "IFCRIGHTCIRCULARCYLINDER"@[4] != "IFCRELASSOCIATESMATERIAL"@[4]
    &&& "IFCRIGHTCIRCULARCYLINDER"@[3] != "IFCMATERIALLAYERSETUSAGE"@[3]
    &&& "IFCRIGHTCIRCULARCYLINDER"@[3] != "IFCSURFACESTYLERENDERING"@[3]
    &&& "IFCRIGHTCIRCULARCYLINDER"@[3] != "IFCLIGHTSOURCEPOSITIONAL"@[3]
    &&& "IFCRIGHTCIRCULARCYLINDER"@[3] != "IFCLIGHTDISTRIBUTIONDATA"@[3]
    &&& "IFCSPHERE"@[3] != "IFCCIRCLE"@[3]
    &&& "IFCSPHERE"@[3] != "IFCVECTOR"@[3]
    &&& "IFCSPHERE"@[4] != "IFCSIUNIT"@[4]
    &&& "IFCSPHERE"@[3] != "IFCBRIDGE"@[3]
    &&& "IFCSPHERE"@[3] != "IFCCOURSE"@[3]
    &&& "IFCHALFSPACESOLID"@[3] != "IFCBOXEDHALFSPACE"@[3]
    &&& "IFCHALFSPACESOLID"@[3] != "IFCCOMPOSITECURVE"@[3]
    &&& "IFCHALFSPACESOLID"@[3] != "IFCBSPLINESURFACE"@[3]
    &&& "IFCHALFSPACESOLID"@[3] != "IFCCARTESIANPOINT"@[3]
    &&& "IFCHALFSPACESOLID"@[3] != "IFCLOCALPLACEMENT"@[3]
    &&& "IFCHALFSPACESOLID"@[3] != "IFCFACEOUTERBOUND"@[3]
    &&& "IFCHALFSPACESOLID"@[3] != "IFCQUANTITYLENGTH"@[3]
    &&& "IFCHALFSPACESOLID"@[3] != "IFCQUANTITYVOLUME"@[3]
    &&& "IFCHALFSPACESOLID"@[3] != "IFCQUANTITYWEIGHT"@[3]
    &&& "IFCHALFSPACESOLID"@[3] != "IFCUNITASSIGNMENT"@[3]
    &&& "IFCHALFSPACESOLID"@[3] != "IFCRAMPFLIGHTTYPE"@[3]
    &&& "IFCHALFSPACESOLID"@[3] != "IFCEARTHWORKSFILL"@[3]
    &&& "IFCHALFSPACESOLID"@[3] != "IFCDEEPFOUNDATION"@[3]
    &&& "IFCPOLYGONALBOUNDEDHALFSPACE"@[3] != "IFCARBITRARYCLOSEDPROFILEDEF"@[3]
    &&& "IFCPOLYGONALBOUNDEDHALFSPACE"@[3] != "IFCRECTANGLEHOLLOWPROFILEDEF"@[3]
    &&& "IFCBOXEDHALFSPACE"@[3] != "IFCCOMPOSITECURVE"@[3]
    &&& "IFCBOXEDHALFSPACE"@[4] != "IFCBSPLINESURFACE"@[4]
    &&& "IFCBOXEDHALFSPACE"@[3] != "IFCCARTESIANPOINT"@[3]
    &&& "IFCBOXEDHALFSPACE"@[3] != "IFCLOCALPLACEMENT"@[3]
}

proof fn lemma_wire_names_differ_22()
    ensures
        wire_names_differ_22(),
{
    reveal_strlit("IFCRIGHTCIRCULARCYLINDER");
    reveal_strlit("IFCBSPLINECURVEWITHKNOTS");
    reveal_strlit("IFCRELASSOCIATESMATERIAL");
    reveal_strlit("IFCMATERIALLAYERSETUSAGE");
    reveal_strlit("IFCSURFACESTYLERENDERING");
    reveal_strlit("IFCLIGHTSOURCEPOSITIONAL");
    reveal_strlit("IFCLIGHTDISTRIBUTIONDATA");
    reveal_strlit("IFCSPHERE");
    reveal_strlit("IFCCIRCLE");
    reveal_strlit("IFCVECTOR");
    reveal_strlit("IFCSIUNIT");
    reveal_strlit("IFCBRIDGE");
    reveal_strlit("IFCCOURSE");
    reveal_strlit("IFCHALFSPACESOLID");
    reveal_strlit("IFCBOXEDHALFSPACE");
    reveal_strlit("IFCCOMPOSITECURVE");
    reveal_strlit("IFCBSPLINESURFACE");
    reveal_strlit("IFCCARTESIANPOINT");
    reveal_strlit("IFCLOCALPLACEMENT");
    reveal_strlit("IFCFACEOUTERBOUND");
    reveal_strlit("IFCQUANTITYLENGTH");
    reveal_strlit("IFCQUANTITYVOLUME");
    reveal_strlit("IFCQUANTITYWEIGHT");
    reveal_strlit("IFCUNITASSIGNMENT");
    reveal_strlit("IFCRAMPFLIGHTTYPE");
    reveal_strlit("IFCEARTHWORKSFILL");
    reveal_strlit("IFCDEEPFOUNDATION");
    reveal_strlit("IFCPOLYGONALBOUNDEDHALFSPACE");
    reveal_strlit("IFCARBITRARYCLOSEDPROFILEDEF");
    reveal_strlit("IFCRECTANGLEHOLLOWPROFILEDEF");
}

/// The a position where two wire names of equal length differ, for a run of such pairs.
spec fn wire_names_differ_23() -> bool {
    &&& "IFCBOXEDHALFSPACE"@[3] != "IFCFACEOUTERBOUND"@[3]
    &&& "IFCBOXEDHALFSPACE"@[3] != "IFCQUANTITYLENGTH"@[3]
    &&& "IFCBOXEDHALFSPACE"@[3] != "IFCQUANTITYVOLUME"@[3]
    &&& "IFCBOXEDHALFSPACE"@[3] != "IFCQUANTITYWEIGHT"@[3]
    &&& "IFCBOXEDHALFSPACE"@[3] != "IFCUNITASSIGNMENT"@[3]
    &&& "IFCBOXEDHALFSPACE"@[3] != "IFCRAMPFLIGHTTYPE"@[3]
    &&& "IFCBOXEDHALFSPACE"@[3] != "IFCEARTHWORKSFILL"@[3]
    &&& "IFCBOXEDHALFSPACE"@[3] != "IFCDEEPFOUNDATION"@[3]
    &&& "IFCARBITRARYCLOSEDPROFILEDEF"@[3] != "IFCRECTANGLEHOLLOWPROFILEDEF"@[3]
    &&& "IFCRECTANGLEPROFILEDEF"@[3] != "IFCTRAPEZIUMPROFILEDEF"@[3]
    &&& "IFCRECTANGLEPROFILEDEF"@[3] != "IFCCOMPOSITEPROFILEDEF"@[3]
    &&& "IFCRECTANGLEPROFILEDEF"@[3] != "IFCSHAPEREPRESENTATION"@[3]
    &&& "IFCRECTANGLEPROFILEDEF"@[3] != "IFCPROPERTYSINGLEVALUE"@[3]
    &&& "IFCRECTANGLEPROFILEDEF"@[3] != "IFCMATERIALCONSTITUENT"@[3]
    &&& "IFCRECTANGLEPROFILEDEF"@[3] != "IFCCONVERSIONBASEDUNIT"@[3]
    &&& "IFCRECTANGLEPROFILEDEF"@[3] != "IFCALIGNMENTHORIZONTAL"@[3]
    &&& "IFCRECTANGLEPROFILEDEF"@[3] != "IFCGEOTECHNICALELEMENT"@[3]
    &&& "IFCCIRCLEPROFILEDEF"@[3] != "IFCISHAPEPROFILEDEF"@[3]
    &&& "IFCCIRCLEPROFILEDEF"@[3] != "IFCLSHAPEPROFILEDEF"@[3]
    &&& "IFCCIRCLEPROFILEDEF"@[3] != "IFCTSHAPEPROFILEDEF"@[3]
    &&& "IFCCIRCLEPROFILEDEF"@[3] != "IFCUSHAPEPROFILEDEF"@[3]
    &&& "IFCCIRCLEPROFILEDEF"@[4] != "IFCCSHAPEPROFILEDEF"@[4]
    &&& "IFCCIRCLEPROFILEDEF"@[3] != "IFCZSHAPEPROFILEDEF"@[3]
    &&& "IFCCIRCLEPROFILEDEF"@[3] != "IFCINDEXEDPOLYCURVE"@[3]
    &&& "IFCCIRCLEPROFILEDEF"@[3] != "IFCAXIS2PLACEMENT2D"@[3]
    &&& "IFCCIRCLEPROFILEDEF"@[3] != "IFCAXIS2PLACEMENT3D"@[3]
    &&& "IFCCIRCLEPROFILEDEF"@[4] != "IFCCONNECTEDFACESET"@[4]
    &&& "IFCCIRCLEPROFILEDEF"@[3] != "IFCRELDEFINESBYTYPE"@[3]
    &&& "IFCCIRCLEPROFILEDEF"@[3] != "IFCRELSPACEBOUNDARY"@[3]
    &&& "IFCCIRCLEPROFILEDEF"@[3] != "IFCMATERIALLAYERSET"@[3]
}

proof fn lemma_wire_names_differ_23()
    ensures
        wire_names_differ_23(),
{
    reveal_strlit("IFCBOXEDHALFSPACE");
    reveal_strlit("IFCFACEOUTERBOUND");
    reveal_strlit("IFCQUANTITYLENGTH");
    reveal_strlit("IFCQUANTITYVOLUME");
    reveal_strlit("IFCQUANTITYWEIGHT");
    reveal_strlit("IFCUNITASSIGNMENT");
    reveal_strlit("IFCRAMPFLIGHTTYPE");
    reveal_strlit("IFCEARTHWORKSFILL");
    reveal_strlit("IFCDEEPFOUNDATION");
    reveal_strlit("IFCARBITRARYCLOSEDPROFILEDEF");
    reveal_strlit("IFCRECTANGLEHOLLOWPROFILEDEF");
    reveal_strlit("IFCRECTANGLEPROFILEDEF");
    reveal_strlit("IFCTRAPEZIUMPROFILEDEF");
    reveal_strlit("IFCCOMPOSITEPROFILEDEF");
    reveal_strlit("IFCSHAPEREPRESENTATION");
    reveal_strlit("IFCPROPERTYSINGLEVALUE");
    reveal_strlit("IFCMATERIALCONSTITUENT");
    reveal_strlit("IFCCONVERSIONBASEDUNIT");
    reveal_strlit("IFCALIGNMENTHORIZONTAL");
    reveal_strlit("IFCGEOTECHNICALELEMENT");
    reveal_strlit("IFCCIRCLEPROFILEDEF");
    reveal_strlit("IFCISHAPEPROFILEDEF");
    reveal_strlit("IFCLSHAPEPROFILEDEF");
    reveal_strlit("IFCTSHAPEPROFILEDEF");
    reveal_strlit("IFCUSHAPEPROFILEDEF");
    reveal_strlit("IFCCSHAPEPROFILEDEF");
    reveal_strlit("IFCZSHAPEPROFILEDEF");
    reveal_strlit("IFCINDEXEDPOLYCURVE");
    reveal_strlit("IFCAXIS2PLACEMENT2D");
    reveal_strlit("IFCAXIS2PLACEMENT3D");
    reveal_strlit("IFCCONNECTEDFACESET");
    reveal_strlit("IFCRELDEFINESBYTYPE");
    reveal_strlit("IFCRELSPACEBOUNDARY");
    reveal_strlit("IFCMATERIALLAYERSET");
}

/// The a position where two wire names of equal length differ, for a run of such pairs.
spec fn wire_names_differ_24() -> bool {
    &&& "IFCCIRCLEPROFILEDEF"@[3] != "IFCLIGHTFIXTURETYPE"@[3]
    &&& "IFCCIRCLEPROFILEDEF"@[3] != "IFCALIGNMENTSEGMENT"@[3]
    &&& "IFCCIRCLEHOLLOWPROFILEDEF"@[3] != "IFCPRODUCTDEFINITIONSHAPE"@[3]
    &&& "IFCCIRCLEHOLLOWPROFILEDEF"@[3] != "IFCRELDEFINESBYPROPERTIES"@[3]
    &&& "IFCCIRCLEHOLLOWPROFILEDEF"@[3] != "IFCMATERIALCONSTITUENTSET"@[3]
    &&& "IFCCIRCLEHOLLOWPROFILEDEF"@[3] != "IFCLIGHTSOURCEDIRECTIONAL"@[3]
    &&& "IFCCIRCLEHOLLOWPROFILEDEF"@[3] != "IFCLIGHTSOURCEGONIOMETRIC"@[3]
    &&& "IFCELLIPSEPROFILEDEF"@[3] != "IFCDERIVEDPROFILEDEF"@[3]
    &&& "IFCELLIPSEPROFILEDEF"@[3] != "IFCCURVEBOUNDEDPLANE"@[3]
    &&& "IFCELLIPSEPROFILEDEF"@[3] != "IFCRELASSIGNSTOGROUP"@[3]
    &&& "IFCELLIPSEPROFILEDEF"@[3] != "IFCPROPERTYLISTVALUE"@[3]
    &&& "IFCELLIPSEPROFILEDEF"@[3] != "IFCALIGNMENTVERTICAL"@[3]
    &&& "IFCELLIPSEPROFILEDEF"@[4] != "IFCEARTHWORKSELEMENT"@[4]
    &&& "IFCISHAPEPROFILEDEF"@[3] != "IFCLSHAPEPROFILEDEF"@[3]
    &&& "IFCISHAPEPROFILEDEF"@[3] != "IFCTSHAPEPROFILEDEF"@[3]
    &&& "IFCISHAPEPROFILEDEF"@[3] != "IFCUSHAPEPROFILEDEF"@[3]
    &&& "IFCISHAPEPROFILEDEF"@[3] != "IFCCSHAPEPROFILEDEF"@[3]
    &&& "IFCISHAPEPROFILEDEF"@[3] != "IFCZSHAPEPROFILEDEF"@[3]
    &&& "IFCISHAPEPROFILEDEF"@[4] != "IFCINDEXEDPOLYCURVE"@[4]
    &&& "IFCISHAPEPROFILEDEF"@[3] != "IFCAXIS2PLACEMENT2D"@[3]
    &&& "IFCISHAPEPROFILEDEF"@[3] != "IFCAXIS2PLACEMENT3D"@[3]
    &&& "IFCISHAPEPROFILEDEF"@[3] != "IFCCONNECTEDFACESET"@[3]
    &&& "IFCISHAPEPROFILEDEF"@[3] != "IFCRELDEFINESBYTYPE"@[3]
    &&& "IFCISHAPEPROFILEDEF"@[3] != "IFCRELSPACEBOUNDARY"@[3]
    &&& "IFCISHAPEPROFILEDEF"@[3] != "IFCMATERIALLAYERSET"@[3]
    &&& "IFCISHAPEPROFILEDEF"@[3] != "IFCLIGHTFIXTURETYPE"@[3]
    &&& "IFCISHAPEPROFILEDEF"@[3] != "IFCALIGNMENTSEGMENT"@[3]
    &&& "IFCLSHAPEPROFILEDEF"@[3] != "IFCTSHAPEPROFILEDEF"@[3]
    &&& "IFCLSHAPEPROFILEDEF"@[3] != "IFCUSHAPEPROFILEDEF"@[3]
    &&& "IFCLSHAPEPROFILEDEF"@[3] != "IFCCSHAPEPROFILEDEF"@[3]
}

proof fn lemma_wire_names_differ_24()
    ensures
        wire_names_differ_24(),
{
    reveal_strlit("IFCCIRCLEPROFILEDEF");
    reveal_strlit("IFCLIGHTFIXTURETYPE");
    reveal_strlit("IFCALIGNMENTSEGMENT");
    reveal_strlit("IFCCIRCLEHOLLOWPROFILEDEF");
    reveal_strlit("IFCPRODUCTDEFINITIONSHAPE");
    reveal_strlit("IFCRELDEFINESBYPROPERTIES");
    reveal_strlit("IFCMATERIALCONSTITUENTSET");
    reveal_strlit("IFCLIGHTSOURCEDIRECTIONAL");
    reveal_strlit("IFCLIGHTSOURCEGONIOMETRIC");
    reveal_strlit("IFCELLIPSEPROFILEDEF");
    reveal_strlit("IFCDERIVEDPROFILEDEF");
    reveal_strlit("IFCCURVEBOUNDEDPLANE");
    reveal_strlit("IFCRELASSIGNSTOGROUP");
    reveal_strlit("IFCPROPERTYLISTVALUE");
    reveal_strlit("IFCALIGNMENTVERTICAL");
    reveal_strlit("IFCEARTHWORKSELEMENT");
    reveal_strlit("IFCISHAPEPROFILEDEF");
    reveal_strlit("IFCLSHAPEPROFILEDEF");
    reveal_strlit("IFCTSHAPEPROFILEDEF");
    reveal_strlit("IFCUSHAPEPROFILEDEF");
    reveal_strlit("IFCCSHAPEPROFILEDEF");
    reveal_strlit("IFCZSHAPEPROFILEDEF");
    reveal_strlit("IFCINDEXEDPOLYCURVE");
    reveal_strlit("IFCAXIS2PLACEMENT2D");
    reveal_strlit("IFCAXIS2PLACEMENT3D");
    reveal_strlit("IFCCONNECTEDFACESET");
    reveal_strlit("IFCRELDEFINESBYTYPE");
    reveal_strlit("IFCRELSPACEBOUNDARY");
    reveal_strlit("IFCMATERIALLAYERSET");
}

/// The a position where two wire names of equal length differ, for a run of such pairs.
spec fn wire_names_differ_25() -> bool {
    &&& "IFCLSHAPEPROFILEDEF"@[3] != "IFCZSHAPEPROFILEDEF"@[3]
    &&& "IFCLSHAPEPROFILEDEF"@[3] != "IFCINDEXEDPOLYCURVE"@[3]
    &&& "IFCLSHAPEPROFILEDEF"@[3] != "IFCAXIS2PLACEMENT2D"@[3]
    &&& "IFCLSHAPEPROFILEDEF"@[3] != "IFCAXIS2PLACEMENT3D"@[3]
    &&& "IFCLSHAPEPROFILEDEF"@[3] != "IFCCONNECTEDFACESET"@[3]
    &&& "IFCLSHAPEPROFILEDEF"@[3] != "IFCRELDEFINESBYTYPE"@[3]
    &&& "IFCLSHAPEPROFILEDEF"@[3] != "IFCRELSPACEBOUNDARY"@[3]
    &&& "IFCLSHAPEPROFILEDEF"@[3] != "IFCMATERIALLAYERSET"@[3]
    &&& "IFCLSHAPEPROFILEDEF"@[4] != "IFCLIGHTFIXTURETYPE"@[4]
    &&& "IFCLSHAPEPROFILEDEF"@[3] != "IFCALIGNMENTSEGMENT"@[3]
    &&& "IFCTSHAPEPROFILEDEF"@[3] != "IFCUSHAPEPROFILEDEF"@[3]
    &&& "IFCTSHAPEPROFILEDEF"@[3] != "IFCCSHAPEPROFILEDEF"@[3]
    &&& "IFCTSHAPEPROFILEDEF"@[3] != "IFCZSHAPEPROFILEDEF"@[3]
    &&& "IFCTSHAPEPROFILEDEF"@[3] != "IFCINDEXEDPOLYCURVE"@[3]
    &&& "IFCTSHAPEPROFILEDEF"@[3] != "IFCAXIS2PLACEMENT2D"@[3]
    &&& "IFCTSHAPEPROFILEDEF"@[3] != "IFCAXIS2PLACEMENT3D"@[3]
    &&& "IFCTSHAPEPROFILEDEF"@[3] != "IFCCONNECTEDFACESET"@[3]
    &&& "IFCTSHAPEPROFILEDEF"@[3] != "IFCRELDEFINESBYTYPE"@[3]
    &&& "IFCTSHAPEPROFILEDEF"@[3] != "IFCRELSPACEBOUNDARY"@[3]
    &&& "IFCTSHAPEPROFILEDEF"@[3] != "IFCMATERIALLAYERSET"@[3]
    &&& "IFCTSHAPEPROFILEDEF"@[3] != "IFCLIGHTFIXTURETYPE"@[3]
    &&& "IFCTSHAPEPROFILEDEF"@[3] != "IFCALIGNMENTSEGMENT"@[3]
    &&& "IFCUSHAPEPROFILEDEF"@[3] != "IFCCSHAPEPROFILEDEF"@[3]
    &&& "IFCUSHAPEPROFILEDEF"@[3] != "IFCZSHAPEPROFILEDEF"@[3]
    &&& "IFCUSHAPEPROFILEDEF"@[3] != "IFCINDEXEDPOLYCURVE"@[3]
    &&& "IFCUSHAPEPROFILEDEF"@[3] != "IFCAXIS2PLACEMENT2D"@[3]
    &&& "IFCUSHAPEPROFILEDEF"@[3] != "IFCAXIS2PLACEMENT3D"@[3]
    &&& "IFCUSHAPEPROFILEDEF"@[3] != "IFCCONNECTEDFACESET"@[3]
    &&& "IFCUSHAPEPROFILEDEF"@[3] != "IFCRELDEFINESBYTYPE"@[3]
    &&& "IFCUSHAPEPROFILEDEF"@[3] != "IFCRELSPACEBOUNDARY"@[3]
}

proof fn lemma_wire_names_differ_25()
    ensures
        wire_names_differ_25(),
{
    reveal_strlit("IFCLSHAPEPROFILEDEF");
    reveal_strlit("IFCZSHAPEPROFILEDEF");
    reveal_strlit("IFCINDEXEDPOLYCURVE");
    reveal_strlit("IFCAXIS2PLACEMENT2D");
    reveal_strlit("IFCAXIS2PLACEMENT3D");
    reveal_strlit("IFCCONNECTEDFACESET");
    reveal_strlit("IFCRELDEFINESBYTYPE");
    reveal_strlit("IFCRELSPACEBOUNDARY");
    reveal_strlit("IFCMATERIALLAYERSET");
    reveal_strlit("IFCLIGHTFIXTURETYPE");
    reveal_strlit("IFCALIGNMENTSEGMENT");
    reveal_strlit("IFCTSHAPEPROFILEDEF");
    reveal_strlit("IFCUSHAPEPROFILEDEF");
    reveal_strlit("IFCCSHAPEPROFILEDEF");
}

/// The a position where two wire names of equal length differ, for a run of such pairs.
spec fn wire_names_differ_26() -> bool {
    &&& "IFCUSHAPEPROFILEDEF"@[3] != "IFCMATERIALLAYERSET"@[3]
    &&& "IFCUSHAPEPROFILEDEF"@[3] != "IFCLIGHTFIXTURETYPE"@[3]
    &&& "IFCUSHAPEPROFILEDEF"@[3] != "IFCALIGNMENTSEGMENT"@[3]
    &&& "IFCCSHAPEPROFILEDEF"@[3] != "IFCZSHAPEPROFILEDEF"@[3]
    &&& "IFCCSHAPEPROFILEDEF"@[3] != "IFCINDEXEDPOLYCURVE"@[3]
    &&& "IFCCSHAPEPROFILEDEF"@[3] != "IFCAXIS2PLACEMENT2D"@[3]
    &&& "IFCCSHAPEPROFILEDEF"@[3] != "IFCAXIS2PLACEMENT3D"@[3]
    &&& "IFCCSHAPEPROFILEDEF"@[4] != "IFCCONNECTEDFACESET"@[4]
    &&& "IFCCSHAPEPROFILEDEF"@[3] != "IFCRELDEFINESBYTYPE"@[3]
    &&& "IFCCSHAPEPROFILEDEF"@[3] != "IFCRELSPACEBOUNDARY"@[3]
    &&& "IFCCSHAPEPROFILEDEF"@[3] != "IFCMATERIALLAYERSET"@[3]
    &&& "IFCCSHAPEPROFILEDEF"@[3] != "IFCLIGHTFIXTURETYPE"@[3]
    &&& "IFCCSHAPEPROFILEDEF"@[3] != "IFCALIGNMENTSEGMENT"@[3]
    &&& "IFCZSHAPEPROFILEDEF"@[3] != "IFCINDEXEDPOLYCURVE"@[3]
    &&& "IFCZSHAPEPROFILEDEF"@[3] != "IFCAXIS2PLACEMENT2D"@[3]
    &&& "IFCZSHAPEPROFILEDEF"@[3] != "IFCAXIS2PLACEMENT3D"@[3]
    &&& "IFCZSHAPEPROFILEDEF"@[3] != "IFCCONNECTEDFACESET"@[3]
    &&& "IFCZSHAPEPROFILEDEF"@[3] != "IFCRELDEFINESBYTYPE"@[3]
    &&& "IFCZSHAPEPROFILEDEF"@[3] != "IFCRELSPACEBOUNDARY"@[3]
    &&& "IFCZSHAPEPROFILEDEF"@[3] != "IFCMATERIALLAYERSET"@[3]
    &&& "IFCZSHAPEPROFILEDEF"@[3] != "IFCLIGHTFIXTURETYPE"@[3]
    &&& "IFCZSHAPEPROFILEDEF"@[3] != "IFCALIGNMENTSEGMENT"@[3]
    &&& "IFCASYMMETRICISHAPEPROFILEDEF"@[3] != "IFCLIGHTINTENSITYDISTRIBUTION"@[3]
    &&& "IFCTRAPEZIUMPROFILEDEF"@[3] != "IFCCOMPOSITEPROFILEDEF"@[3]
    &&& "IFCTRAPEZIUMPROFILEDEF"@[3] != "IFCSHAPEREPRESENTATION"@[3]
    &&& "IFCTRAPEZIUMPROFILEDEF"@[3] != "IFCPROPERTYSINGLEVALUE"@[3]
    &&& "IFCTRAPEZIUMPROFILEDEF"@[3] != "IFCMATERIALCONSTITUENT"@[3]
    &&& "IFCTRAPEZIUMPROFILEDEF"@[3] != "IFCCONVERSIONBASEDUNIT"@[3]
    &&& "IFCTRAPEZIUMPROFILEDEF"@[3] != "IFCALIGNMENTHORIZONTAL"@[3]
    &&& "IFCTRAPEZIUMPROFILEDEF"@[3] != "IFCGEOTECHNICALELEMENT"@[3]
}

proof fn lemma_wire_names_differ_26()
    ensures
        wire_names_differ_26(),
{
    reveal_strlit("IFCUSHAPEPROFILEDEF");
    reveal_strlit("IFCMATERIALLAYERSET");
    reveal_strlit("IFCLIGHTFIXTURETYPE");
    reveal_strlit("IFCALIGNMENTSEGMENT");
    reveal_strlit("IFCCSHAPEPROFILEDEF");
    reveal_strlit("IFCZSHAPEPROFILEDEF");
    reveal_strlit("IFCINDEXEDPOLYCURVE");
    reveal_strlit("IFCAXIS2PLACEMENT2D");
    reveal_strlit("IFCAXIS2PLACEMENT3D");
    reveal_strlit("IFCCONNECTEDFACESET");
    reveal_strlit("IFCRELDEFINESBYTYPE");
    reveal_strlit("IFCRELSPACEBOUNDARY");
    reveal_strlit("IFCASYMMETRICISHAPEPROFILEDEF");
    reveal_strlit("IFCLIGHTINTENSITYDISTRIBUTION");
    reveal_strlit("IFCTRAPEZIUMPROFILEDEF");
    reveal_strlit("IFCCOMPOSITEPROFILEDEF");
    reveal_strlit("IFCSHAPEREPRESENTATION");
    reveal_strlit("IFCPROPERTYSINGLEVALUE");
    reveal_strlit("IFCMATERIALCONSTITUENT");
    reveal_strlit("IFCCONVERSIONBASEDUNIT");
    reveal_strlit("IFCALIGNMENTHORIZONTAL");
    reveal_strlit("IFCGEOTECHNICALELEMENT");
}

/// The a position where two wire names of equal length differ, for a run of such pairs.
spec fn wire_names_differ_27() -> bool {
    &&& "IFCCOMPOSITEPROFILEDEF"@[3] != "IFCSHAPEREPRESENTATION"@[3]
    &&& "IFCCOMPOSITEPROFILEDEF"@[3] != "IFCPROPERTYSINGLEVALUE"@[3]
    &&& "IFCCOMPOSITEPROFILEDEF"@[3] != "IFCMATERIALCONSTITUENT"@[3]
    &&& "IFCCOMPOSITEPROFILEDEF"@[5] != "IFCCONVERSIONBASEDUNIT"@[5]
    &&& "IFCCOMPOSITEPROFILEDEF"@[3] != "IFCALIGNMENTHORIZONTAL"@[3]
    &&& "IFCCOMPOSITEPROFILEDEF"@[3] != "IFCGEOTECHNICALELEMENT"@[3]
    &&& "IFCDERIVEDPROFILEDEF"@[3] != "IFCCURVEBOUNDEDPLANE"@[3]
    &&& "IFCDERIVEDPROFILEDEF"@[3] != "IFCRELASSIGNSTOGROUP"@[3]
    &&& "IFCDERIVEDPROFILEDEF"@[3] != "IFCPROPERTYLISTVALUE"@[3]
    &&& "IFCDERIVEDPROFILEDEF"@[3] != "IFCALIGNMENTVERTICAL"@[3]
    &&& "IFCDERIVEDPROFILEDEF"@[3] != "IFCEARTHWORKSELEMENT"@[3]
    &&& "IFCCENTERLINEPROFILEDEF"@[4] != "IFCCARTESIANPOINTLIST2D"@[4]
    &&& "IFCCENTERLINEPROFILEDEF"@[4] != "IFCCARTESIANPOINTLIST3D"@[4]
    &&& "IFCCENTERLINEPROFILEDEF"@[3] != "IFCPROPERTYBOUNDEDVALUE"@[3]
    &&& "IFCPOLYLINE"@[8] != "IFCPOLYLOOP"@[8]
    &&& "IFCPOLYLINE"@[3] != "IFCEDGELOOP"@[3]
    &&& "IFCPOLYLINE"@[3] != "IFCMATERIAL"@[3]
    &&& "IFCPOLYLINE"@[3] != "IFCWALLTYPE"@[3]
    &&& "IFCPOLYLINE"@[3] != "IFCSLABTYPE"@[3]
    &&& "IFCPOLYLINE"@[3] != "IFCBEAMTYPE"@[3]
    &&& "IFCPOLYLINE"@[3] != "IFCDOORTYPE"@[3]
    &&& "IFCPOLYLINE"@[3] != "IFCRAMPTYPE"@[3]
    &&& "IFCPOLYLINE"@[3] != "IFCROOFTYPE"@[3]
    &&& "IFCPOLYLINE"@[4] != "IFCPILETYPE"@[4]
    &&& "IFCPOLYLINE"@[3] != "IFCROADPART"@[3]
    &&& "IFCPOLYLINE"@[3] != "IFCFACILITY"@[3]
    &&& "IFCPOLYLINE"@[3] != "IFCBOREHOLE"@[3]
    &&& "IFCPOLYLINE"@[3] != "IFCGEOMODEL"@[3]
    &&& "IFCPOLYLINE"@[3] != "IFCGEOSLICE"@[3]
    &&& "IFCPOLYLINE"@[4] != "IFCPAVEMENT"@[4]
}

proof fn lemma_wire_names_differ_27()
    ensures
        wire_names_differ_27(),
{
    reveal_strlit("IFCCOMPOSITEPROFILEDEF");
    reveal_strlit("IFCSHAPEREPRESENTATION");
    reveal_strlit("IFCPROPERTYSINGLEVALUE");
    reveal_strlit("IFCMATERIALCONSTITUENT");
    reveal_strlit("IFCCONVERSIONBASEDUNIT");
    reveal_strlit("IFCALIGNMENTHORIZONTAL");
    reveal_strlit("IFCGEOTECHNICALELEMENT");
    reveal_strlit("IFCDERIVEDPROFILEDEF");
    reveal_strlit("IFCCURVEBOUNDEDPLANE");
    reveal_strlit("IFCRELASSIGNSTOGROUP");
    reveal_strlit("IFCPROPERTYLISTVALUE");
    reveal_strlit("IFCALIGNMENTVERTICAL");
    reveal_strlit("IFCEARTHWORKSELEMENT");
    reveal_strlit("IFCCENTERLINEPROFILEDEF");
    reveal_strlit("IFCCARTESIANPOINTLIST2D");
    reveal_strlit("IFCCARTESIANPOINTLIST3D");
    reveal_strlit("IFCPROPERTYBOUNDEDVALUE");
    reveal_strlit("IFCPOLYLINE");
    reveal_strlit("IFCPOLYLOOP");
    reveal_strlit("IFCEDGELOOP");
    reveal_strlit("IFCMATERIAL");
    reveal_strlit("IFCWALLTYPE");
    reveal_strlit("IFCSLABTYPE");
    reveal_strlit("IFCBEAMTYPE");
    reveal_strlit("IFCDOORTYPE");
    reveal_strlit("IFCRAMPTYPE");
    reveal_strlit("IFCROOFTYPE");
    reveal_strlit("IFCPILETYPE");
    reveal_strlit("IFCROADPART");
    reveal_strlit("IFCFACILITY");
    reveal_strlit("IFCBOREHOLE");
    reveal_strlit("IFCGEOMODEL");
    reveal_strlit("IFCGEOSLICE");
    reveal_strlit("IFCPAVEMENT");
}

/// The a position where two wire names of equal length differ, for a run of such pairs.
spec fn wire_names_differ_28() -> bool {
    &&& "IFCCOMPOSITECURVE"@[3] != "IFCBSPLINESURFACE"@[3]
    &&& "IFCCOMPOSITECURVE"@[4] != "IFCCARTESIANPOINT"@[4]
    &&& "IFCCOMPOSITECURVE"@[3] != "IFCLOCALPLACEMENT"@[3]
    &&& "IFCCOMPOSITECURVE"@[3] != "IFCFACEOUTERBOUND"@[3]
    &&& "IFCCOMPOSITECURVE"@[3] != "IFCQUANTITYLENGTH"@[3]
    &&& "IFCCOMPOSITECURVE"@[3] != "IFCQUANTITYVOLUME"@[3]
    &&& "IFCCOMPOSITECURVE"@[3] != "IFCQUANTITYWEIGHT"@[3]
    &&& "IFCCOMPOSITECURVE"@[3] != "IFCUNITASSIGNMENT"@[3]
    &&& "IFCCOMPOSITECURVE"@[3] != "IFCRAMPFLIGHTTYPE"@[3]
    &&& "IFCCOMPOSITECURVE"@[3] != "IFCEARTHWORKSFILL"@[3]
    &&& "IFCCOMPOSITECURVE"@[3] != "IFCDEEPFOUNDATION"@[3]
    &&& "IFCCOMPOSITECURVESEGMENT"@[3] != "IFCBSPLINECURVEWITHKNOTS"@[3]
    &&& "IFCCOMPOSITECURVESEGMENT"@[3] != "IFCRELASSOCIATESMATERIAL"@[3]
    &&& "IFCCOMPOSITECURVESEGMENT"@[3] != "IFCMATERIALLAYERSETUSAGE"@[3]
    &&& "IFCCOMPOSITECURVESEGMENT"@[3] != "IFCSURFACESTYLERENDERING"@[3]
    &&& "IFCCOMPOSITECURVESEGMENT"@[3] != "IFCLIGHTSOURCEPOSITIONAL"@[3]
    &&& "IFCCOMPOSITECURVESEGMENT"@[3] != "IFCLIGHTDISTRIBUTIONDATA"@[3]
    &&& "IFCTRIMMEDCURVE"@[3] != "IFCBSPLINECURVE"@[3]
    &&& "IFCTRIMMEDCURVE"@[3] != "IFCORIENTEDEDGE"@[3]
    &&& "IFCTRIMMEDCURVE"@[3] != "IFCQUANTITYAREA"@[3]
    &&& "IFCTRIMMEDCURVE"@[3] != "IFCQUANTITYTIME"@[3]
    &&& "IFCTRIMMEDCURVE"@[3] != "IFCMATERIALLIST"@[3]
    &&& "IFCTRIMMEDCURVE"@[3] != "IFCSURFACESTYLE"@[3]
    &&& "IFCTRIMMEDCURVE"@[3] != "IFCLIGHTFIXTURE"@[3]
    &&& "IFCTRIMMEDCURVE"@[3] != "IFCCOVERINGTYPE"@[3]
    &&& "IFCTRIMMEDCURVE"@[3] != "IFCFACILITYPART"@[3]
    &&& "IFCTRIMMEDCURVE"@[3] != "IFCSOLIDSTRATUM"@[3]
    &&& "IFCTRIMMEDCURVE"@[3] != "IFCWATERSTRATUM"@[3]
    &&& "IFCCIRCLE"@[3] != "IFCVECTOR"@[3]
    &&& "IFCCIRCLE"@[3] != "IFCSIUNIT"@[3]
}

proof fn lemma_wire_names_differ_28()
    ensures
        wire_names_differ_28(),
{
    reveal_strlit("IFCCOMPOSITECURVE");
    reveal_strlit("IFCBSPLINESURFACE");
    reveal_strlit("IFCCARTESIANPOINT");
    reveal_strlit("IFCLOCALPLACEMENT");
    reveal_strlit("IFCFACEOUTERBOUND");
    reveal_strlit("IFCQUANTITYLENGTH");
    reveal_strlit("IFCQUANTITYVOLUME");
    reveal_strlit("IFCQUANTITYWEIGHT");
    reveal_strlit("IFCUNITASSIGNMENT");
    reveal_strlit("IFCRAMPFLIGHTTYPE");
    reveal_strlit("IFCEARTHWORKSFILL");
    reveal_strlit("IFCDEEPFOUNDATION");
    reveal_strlit("IFCCOMPOSITECURVESEGMENT");
    reveal_strlit("IFCBSPLINECURVEWITHKNOTS");
    reveal_strlit("IFCRELASSOCIATESMATERIAL");
    reveal_strlit("IFCMATERIALLAYERSETUSAGE");
    reveal_strlit("IFCSURFACESTYLERENDERING");
    reveal_strlit("IFCLIGHTSOURCEPOSITIONAL");
    reveal_strlit("IFCLIGHTDISTRIBUTIONDATA");
    reveal_strlit("IFCTRIMMEDCURVE");
    reveal_strlit("IFCBSPLINECURVE");
    reveal_strlit("IFCORIENTEDEDGE");
    reveal_strlit("IFCQUANTITYAREA");
    reveal_strlit("IFCQUANTITYTIME");
    reveal_strlit("IFCMATERIALLIST");
    reveal_strlit("IFCSURFACESTYLE");
    reveal_strlit("IFCLIGHTFIXTURE");
    reveal_strlit("IFCCOVERINGTYPE");
    reveal_strlit("IFCFACILITYPART");
    reveal_strlit("IFCSOLIDSTRATUM");
    reveal_strlit("IFCWATERSTRATUM");
    reveal_strlit("IFCCIRCLE");
    reveal_strlit("IFCVECTOR");
    reveal_strlit("IFCSIUNIT");
}

/// The a position where two wire names of equal length differ, for a run of such pairs.
spec fn wire_names_differ_29() -> bool {
    &&& "IFCCIRCLE"@[3] != "IFCBRIDGE"@[3]
    &&& "IFCCIRCLE"@[4] != "IFCCOURSE"@[4]
    &&& "IFCELLIPSE"@[3] != "IFCRAILWAY"@[3]
    &&& "IFCLINE"@[3] != "IFCFACE"@[3]
    &&& "IFCLINE"@[3] != "IFCROAD"@[3]
    &&& "IFCLINE"@[3] != "IFCKERB"@[3]
    &&& "IFCBSPLINECURVE"@[3] != "IFCORIENTEDEDGE"@[3]
    &&& "IFCBSPLINECURVE"@[3] != "IFCQUANTITYAREA"@[3]
    &&& "IFCBSPLINECURVE"@[3] != "IFCQUANTITYTIME"@[3]
    &&& "IFCBSPLINECURVE"@[3] != "IFCMATERIALLIST"@[3]
    &&& "IFCBSPLINECURVE"@[3] != "IFCSURFACESTYLE"@[3]
    &&& "IFCBSPLINECURVE"@[3] != "IFCLIGHTFIXTURE"@[3]
    &&& "IFCBSPLINECURVE"@[3] != "IFCCOVERINGTYPE"@[3]
    &&& "IFCBSPLINECURVE"@[3] != "IFCFACILITYPART"@[3]
    &&& "IFCBSPLINECURVE"@[3] != "IFCSOLIDSTRATUM"@[3]
    &&& "IFCBSPLINECURVE"@[3] != "IFCWATERSTRATUM"@[3]
    &&& "IFCBSPLINECURVEWITHKNOTS"@[3] != "IFCRELASSOCIATESMATERIAL"@[3]
    &&& "IFCBSPLINECURVEWITHKNOTS"@[3] != "IFCMATERIALLAYERSETUSAGE"@[3]
    &&& "IFCBSPLINECURVEWITHKNOTS"@[3] != "IFCSURFACESTYLERENDERING"@[3]
    &&& "IFCBSPLINECURVEWITHKNOTS"@[3] != "IFCLIGHTSOURCEPOSITIONAL"@[3]
    &&& "IFCBSPLINECURVEWITHKNOTS"@[3] != "IFCLIGHTDISTRIBUTIONDATA"@[3]
    &&& "IFCINDEXEDPOLYCURVE"@[3] != "IFCAXIS2PLACEMENT2D"@[3]
    &&& "IFCINDEXEDPOLYCURVE"@[3] != "IFCAXIS2PLACEMENT3D"@[3]
    &&& "IFCINDEXEDPOLYCURVE"@[3] != "IFCCONNECTEDFACESET"@[3]
    &&& "IFCINDEXEDPOLYCURVE"@[3] != "IFCRELDEFINESBYTYPE"@[3]
    &&& "IFCINDEXEDPOLYCURVE"@[3] != "IFCRELSPACEBOUNDARY"@[3]
    &&& "IFCINDEXEDPOLYCURVE"@[3] != "IFCMATERIALLAYERSET"@[3]
    &&& "IFCINDEXEDPOLYCURVE"@[3] != "IFCLIGHTFIXTURETYPE"@[3]
    &&& "IFCINDEXEDPOLYCURVE"@[3] != "IFCALIGNMENTSEGMENT"@[3]
    &&& "IFCCURVEBOUNDEDPLANE"@[3] != "IFCRELASSIGNSTOGROUP"@[3]
}

proof fn lemma_wire_names_differ_29()
    ensures
        wire_names_differ_29(),
{
    reveal_strlit("IFCCIRCLE");
    reveal_strlit("IFCBRIDGE");
    reveal_strlit("IFCCOURSE");
    reveal_strlit("IFCELLIPSE");
    reveal_strlit("IFCRAILWAY");
    reveal_strlit("IFCLINE");
    reveal_strlit("IFCFACE");
    reveal_strlit("IFCROAD");
    reveal_strlit("IFCKERB");
    reveal_strlit("IFCBSPLINECURVE");
    reveal_strlit("IFCORIENTEDEDGE");
    reveal_strlit("IFCQUANTITYAREA");
    reveal_strlit("IFCQUANTITYTIME");
    reveal_strlit("IFCMATERIALLIST");
    reveal_strlit("IFCSURFACESTYLE");
    reveal_strlit("IFCLIGHTFIXTURE");
    reveal_strlit("IFCCOVERINGTYPE");
    reveal_strlit("IFCFACILITYPART");
    reveal_strlit("IFCSOLIDSTRATUM");
    reveal_strlit("IFCWATERSTRATUM");
    reveal_strlit("IFCBSPLINECURVEWITHKNOTS");
    reveal_strlit("IFCRELASSOCIATESMATERIAL");
    reveal_strlit("IFCMATERIALLAYERSETUSAGE");
    reveal_strlit("IFCSURFACESTYLERENDERING");
    reveal_strlit("IFCLIGHTSOURCEPOSITIONAL");
    reveal_strlit("IFCLIGHTDISTRIBUTIONDATA");
    reveal_strlit("IFCINDEXEDPOLYCURVE");
    reveal_strlit("IFCAXIS2PLACEMENT2D");
    reveal_strlit("IFCAXIS2PLACEMENT3D");
    reveal_strlit("IFCCONNECTEDFACESET");
    reveal_strlit("IFCRELDEFINESBYTYPE");
    reveal_strlit("IFCRELSPACEBOUNDARY");
    reveal_strlit("IFCMATERIALLAYERSET");
    reveal_strlit("IFCLIGHTFIXTURETYPE");
    reveal_strlit("IFCALIGNMENTSEGMENT");
    reveal_strlit("IFCCURVEBOUNDEDPLANE");
    reveal_strlit("IFCRELASSIGNSTOGROUP");
}

/// The a position where two wire names of equal length differ, for a run of such pairs.
spec fn wire_names_differ_30() -> bool {
    &&& "IFCCURVEBOUNDEDPLANE"@[3] != "IFCPROPERTYLISTVALUE"@[3]
    &&& "IFCCURVEBOUNDEDPLANE"@[3] != "IFCALIGNMENTVERTICAL"@[3]
    &&& "IFCCURVEBOUNDEDPLANE"@[3] != "IFCEARTHWORKSELEMENT"@[3]
    &&& "IFCCYLINDRICALSURFACE"@[3] != "IFCPROPERTYTABLEVALUE"@[3]
    &&& "IFCCYLINDRICALSURFACE"@[3] != "IFCMATERIALPROFILESET"@[3]
    &&& "IFCCYLINDRICALSURFACE"@[3] != "IFCLIGHTSOURCEAMBIENT"@[3]
    &&& "IFCBSPLINESURFACE"@[3] != "IFCCARTESIANPOINT"@[3]
    &&& "IFCBSPLINESURFACE"@[3] != "IFCLOCALPLACEMENT"@[3]
    &&& "IFCBSPLINESURFACE"@[3] != "IFCFACEOUTERBOUND"@[3]
    &&& "IFCBSPLINESURFACE"@[3] != "IFCQUANTITYLENGTH"@[3]
    &&& "IFCBSPLINESURFACE"@[3] != "IFCQUANTITYVOLUME"@[3]
    &&& "IFCBSPLINESURFACE"@[3] != "IFCQUANTITYWEIGHT"@[3]
    &&& "IFCBSPLINESURFACE"@[3] != "IFCUNITASSIGNMENT"@[3]
    &&& "IFCBSPLINESURFACE"@[3] != "IFCRAMPFLIGHTTYPE"@[3]
    &&& "IFCBSPLINESURFACE"@[3] != "IFCEARTHWORKSFILL"@[3]
    &&& "IFCBSPLINESURFACE"@[3] != "IFCDEEPFOUNDATION"@[3]
    &&& "IFCBSPLINESURFACEWITHKNOTS"@[3] != "IFCRELCONNECTSPATHELEMENTS"@[3]
    &&& "IFCBSPLINESURFACEWITHKNOTS"@[3] != "IFCPROPERTYENUMERATEDVALUE"@[3]
    &&& "IFCBSPLINESURFACEWITHKNOTS"@[3] != "IFCMATERIALPROFILESETUSAGE"@[3]
    &&& "IFCCARTESIANPOINT"@[3] != "IFCLOCALPLACEMENT"@[3]
    &&& "IFCCARTESIANPOINT"@[3] != "IFCFACEOUTERBOUND"@[3]
    &&& "IFCCARTESIANPOINT"@[3] != "IFCQUANTITYLENGTH"@[3]
    &&& "IFCCARTESIANPOINT"@[3] != "IFCQUANTITYVOLUME"@[3]
    &&& "IFCCARTESIANPOINT"@[3] != "IFCQUANTITYWEIGHT"@[3]
    &&& "IFCCARTESIANPOINT"@[3] != "IFCUNITASSIGNMENT"@[3]
    &&& "IFCCARTESIANPOINT"@[3] != "IFCRAMPFLIGHTTYPE"@[3]
    &&& "IFCCARTESIANPOINT"@[3] != "IFCEARTHWORKSFILL"@[3]
    &&& "IFCCARTESIANPOINT"@[3] != "IFCDEEPFOUNDATION"@[3]
    &&& "IFCDIRECTION"@[3] != "IFCOPENSHELL"@[3]
    &&& "IFCDIRECTION"@[3] != "IFCFACEBOUND"@[3]
}

proof fn lemma_wire_names_differ_30()
    ensures
        wire_names_differ_30(),
{
    reveal_strlit("IFCCURVEBOUNDEDPLANE");
    reveal_strlit("IFCPROPERTYLISTVALUE");
    reveal_strlit("IFCALIGNMENTVERTICAL");
    reveal_strlit("IFCEARTHWORKSELEMENT");
    reveal_strlit("IFCCYLINDRICALSURFACE");
    reveal_strlit("IFCPROPERTYTABLEVALUE");
    reveal_strlit("IFCMATERIALPROFILESET");
    reveal_strlit("IFCLIGHTSOURCEAMBIENT");
    reveal_strlit("IFCBSPLINESURFACE");
    reveal_strlit("IFCCARTESIANPOINT");
    reveal_strlit("IFCLOCALPLACEMENT");
    reveal_strlit("IFCFACEOUTERBOUND");
    reveal_strlit("IFCQUANTITYLENGTH");
    reveal_strlit("IFCQUANTITYVOLUME");
    reveal_strlit("IFCQUANTITYWEIGHT");
    reveal_strlit("IFCUNITASSIGNMENT");
    reveal_strlit("IFCRAMPFLIGHTTYPE");
    reveal_strlit("IFCEARTHWORKSFILL");
    reveal_strlit("IFCDEEPFOUNDATION");
    reveal_strlit("IFCBSPLINESURFACEWITHKNOTS");
    reveal_strlit("IFCRELCONNECTSPATHELEMENTS");
    reveal_strlit("IFCPROPERTYENUMERATEDVALUE");
    reveal_strlit("IFCMATERIALPROFILESETUSAGE");
    reveal_strlit("IFCDIRECTION");
    reveal_strlit("IFCOPENSHELL");
    reveal_strlit("IFCFACEBOUND");
}

/// The a position where two wire names of equal length differ, for a run of such pairs.
spec fn wire_names_differ_31() -> bool {
    &&& "IFCDIRECTION"@[3] != "IFCEDGECURVE"@[3]
    &&& "IFCDIRECTION"@[3] != "IFCCOLOURRGB"@[3]
    &&& "IFCDIRECTION"@[3] != "IFCSTAIRTYPE"@[3]
    &&& "IFCDIRECTION"@[3] != "IFCPLATETYPE"@[3]
    &&& "IFCDIRECTION"@[3] != "IFCALIGNMENT"@[3]
    &&& "IFCVECTOR"@[3] != "IFCSIUNIT"@[3]
    &&& "IFCVECTOR"@[3] != "IFCBRIDGE"@[3]
    &&& "IFCVECTOR"@[3] != "IFCCOURSE"@[3]
    &&& "IFCCARTESIANPOINTLIST2D"@[21] != "IFCCARTESIANPOINTLIST3D"@[21]
    &&& "IFCCARTESIANPOINTLIST2D"@[3] != "IFCPROPERTYBOUNDEDVALUE"@[3]
    &&& "IFCCARTESIANPOINTLIST3D"@[3] != "IFCPROPERTYBOUNDEDVALUE"@[3]
    &&& "IFCAXIS2PLACEMENT2D"@[17] != "IFCAXIS2PLACEMENT3D"@[17]
    &&& "IFCAXIS2PLACEMENT2D"@[3] != "IFCCONNECTEDFACESET"@[3]
    &&& "IFCAXIS2PLACEMENT2D"@[3] != "IFCRELDEFINESBYTYPE"@[3]
    &&& "IFCAXIS2PLACEMENT2D"@[3] != "IFCRELSPACEBOUNDARY"@[3]
    &&& "IFCAXIS2PLACEMENT2D"@[3] != "IFCMATERIALLAYERSET"@[3]
    &&& "IFCAXIS2PLACEMENT2D"@[3] != "IFCLIGHTFIXTURETYPE"@[3]
    &&& "IFCAXIS2PLACEMENT2D"@[4] != "IFCALIGNMENTSEGMENT"@[4]
    &&& "IFCAXIS2PLACEMENT3D"@[3] != "IFCCONNECTEDFACESET"@[3]
    &&& "IFCAXIS2PLACEMENT3D"@[3] != "IFCRELDEFINESBYTYPE"@[3]
    &&& "IFCAXIS2PLACEMENT3D"@[3] != "IFCRELSPACEBOUNDARY"@[3]
    &&& "IFCAXIS2PLACEMENT3D"@[3] != "IFCMATERIALLAYERSET"@[3]
    &&& "IFCAXIS2PLACEMENT3D"@[3] != "IFCLIGHTFIXTURETYPE"@[3]
    &&& "IFCAXIS2PLACEMENT3D"@[4] != "IFCALIGNMENTSEGMENT"@[4]
    &&& "IFCLOCALPLACEMENT"@[3] != "IFCFACEOUTERBOUND"@[3]
    &&& "IFCLOCALPLACEMENT"@[3] != "IFCQUANTITYLENGTH"@[3]
    &&& "IFCLOCALPLACEMENT"@[3] != "IFCQUANTITYVOLUME"@[3]
    &&& "IFCLOCALPLACEMENT"@[3] != "IFCQUANTITYWEIGHT"@[3]
    &&& "IFCLOCALPLACEMENT"@[3] != "IFCUNITASSIGNMENT"@[3]
    &&& "IFCLOCALPLACEMENT"@[3] != "IFCRAMPFLIGHTTYPE"@[3]
}

proof fn lemma_wire_names_differ_31()
    ensures
        wire_names_differ_31(),
{
    reveal_strlit("IFCDIRECTION");
    reveal_strlit("IFCEDGECURVE");
    reveal_strlit("IFCCOLOURRGB");
    reveal_strlit("IFCSTAIRTYPE");
    reveal_strlit("IFCPLATETYPE");
    reveal_strlit("IFCALIGNMENT");
    reveal_strlit("IFCVECTOR");
    reveal_strlit("IFCSIUNIT");
    reveal_strlit("IFCBRIDGE");
    reveal_strlit("IFCCOURSE");
    reveal_strlit("IFCCARTESIANPOINTLIST2D");
    reveal_strlit("IFCCARTESIANPOINTLIST3D");
    reveal_strlit("IFCPROPERTYBOUNDEDVALUE");
    reveal_strlit("IFCAXIS2PLACEMENT2D");
    reveal_strlit("IFCAXIS2PLACEMENT3D");
    reveal_strlit("IFCCONNECTEDFACESET");
    reveal_strlit("IFCRELDEFINESBYTYPE");
    reveal_strlit("IFCRELSPACEBOUNDARY");
    reveal_strlit("IFCMATERIALLAYERSET");
    reveal_strlit("IFCLIGHTFIXTURETYPE");
    reveal_strlit("IFCALIGNMENTSEGMENT");
    reveal_strlit("IFCLOCALPLACEMENT");
    reveal_strlit("IFCFACEOUTERBOUND");
    reveal_strlit("IFCQUANTITYLENGTH");
    reveal_strlit("IFCQUANTITYVOLUME");
    reveal_strlit("IFCQUANTITYWEIGHT");
    reveal_strlit("IFCUNITASSIGNMENT");
    reveal_strlit("IFCRAMPFLIGHTTYPE");
}

/// The a position where two wire names of equal length differ, for a run of such pairs.
spec fn wire_names_differ_32() -> bool {
    &&& "IFCLOCALPLACEMENT"@[3] != "IFCEARTHWORKSFILL"@[3]
    &&& "IFCLOCALPLACEMENT"@[3] != "IFCDEEPFOUNDATION"@[3]
    &&& "IFCCARTESIANTRANSFORMATIONOPERATOR3D"@[3] != "IFCGEOMETRICREPRESENTATIONSUBCONTEXT"@[3]
    &&& "IFCSHAPEREPRESENTATION"@[3] != "IFCPROPERTYSINGLEVALUE"@[3]
    &&& "IFCSHAPEREPRESENTATION"@[3] != "IFCMATERIALCONSTITUENT"@[3]
    &&& "IFCSHAPEREPRESENTATION"@[3] != "IFCCONVERSIONBASEDUNIT"@[3]
    &&& "IFCSHAPEREPRESENTATION"@[3] != "IFCALIGNMENTHORIZONTAL"@[3]
    &&& "IFCSHAPEREPRESENTATION"@[3] != "IFCGEOTECHNICALELEMENT"@[3]
    &&& "IFCPRODUCTDEFINITIONSHAPE"@[3] != "IFCRELDEFINESBYPROPERTIES"@[3]
    &&& "IFCPRODUCTDEFINITIONSHAPE"@[3] != "IFCMATERIALCONSTITUENTSET"@[3]
    &&& "IFCPRODUCTDEFINITIONSHAPE"@[3] != "IFCLIGHTSOURCEDIRECTIONAL"@[3]
    &&& "IFCPRODUCTDEFINITIONSHAPE"@[3] != "IFCLIGHTSOURCEGONIOMETRIC"@[3]
    &&& "IFCGEOMETRICREPRESENTATIONCONTEXT"@[3] != "IFCRELCONTAINEDINSPATIALSTRUCTURE"@[3]
    &&& "IFCCLOSEDSHELL"@[3] != "IFCVERTEXPOINT"@[3]
    &&& "IFCCLOSEDSHELL"@[3] != "IFCPROPERTYSET"@[3]
    &&& "IFCCLOSEDSHELL"@[3] != "IFCLIGHTSOURCE"@[3]
    &&& "IFCCLOSEDSHELL"@[3] != "IFCDERIVEDUNIT"@[3]
    &&& "IFCCLOSEDSHELL"@[3] != "IFCRAILINGTYPE"@[3]
    &&& "IFCCLOSEDSHELL"@[3] != "IFCFOOTINGTYPE"@[3]
    &&& "IFCCLOSEDSHELL"@[3] != "IFCRAILWAYPART"@[3]
    &&& "IFCCLOSEDSHELL"@[3] != "IFCVOIDSTRATUM"@[3]
    &&& "IFCOPENSHELL"@[3] != "IFCFACEBOUND"@[3]
    &&& "IFCOPENSHELL"@[3] != "IFCEDGECURVE"@[3]
    &&& "IFCOPENSHELL"@[3] != "IFCCOLOURRGB"@[3]
    &&& "IFCOPENSHELL"@[3] != "IFCSTAIRTYPE"@[3]
    &&& "IFCOPENSHELL"@[3] != "IFCPLATETYPE"@[3]
    &&& "IFCOPENSHELL"@[3] != "IFCALIGNMENT"@[3]
    &&& "IFCFACE"@[3] != "IFCROAD"@[3]
    &&& "IFCFACE"@[3] != "IFCKERB"@[3]
    &&& "IFCFACEBOUND"@[3] != "IFCEDGECURVE"@[3]
}

proof fn lemma_wire_names_differ_32()
    ensures
        wire_names_differ_32(),
{
    reveal_strlit("IFCLOCALPLACEMENT");
    reveal_strlit("IFCEARTHWORKSFILL");
    reveal_strlit("IFCDEEPFOUNDATION");
    reveal_strlit("IFCCARTESIANTRANSFORMATIONOPERATOR3D");
    reveal_strlit("IFCGEOMETRICREPRESENTATIONSUBCONTEXT");
    reveal_strlit("IFCSHAPEREPRESENTATION");
    reveal_strlit("IFCPROPERTYSINGLEVALUE");
    reveal_strlit("IFCMATERIALCONSTITUENT");
    reveal_strlit("IFCCONVERSIONBASEDUNIT");
    reveal_strlit("IFCALIGNMENTHORIZONTAL");
    reveal_strlit("IFCGEOTECHNICALELEMENT");
    reveal_strlit("IFCPRODUCTDEFINITIONSHAPE");
    reveal_strlit("IFCRELDEFINESBYPROPERTIES");
    reveal_strlit("IFCMATERIALCONSTITUENTSET");
    reveal_strlit("IFCLIGHTSOURCEDIRECTIONAL");
    reveal_strlit("IFCLIGHTSOURCEGONIOMETRIC");
    reveal_strlit("IFCGEOMETRICREPRESENTATIONCONTEXT");
    reveal_strlit("IFCRELCONTAINEDINSPATIALSTRUCTURE");
    reveal_strlit("IFCCLOSEDSHELL");
    reveal_strlit("IFCVERTEXPOINT");
    reveal_strlit("IFCPROPERTYSET");
    reveal_strlit("IFCLIGHTSOURCE");
    reveal_strlit("IFCDERIVEDUNIT");
    reveal_strlit("IFCRAILINGTYPE");
    reveal_strlit("IFCFOOTINGTYPE");
    reveal_strlit("IFCRAILWAYPART");
    reveal_strlit("IFCVOIDSTRATUM");
    reveal_strlit("IFCOPENSHELL");
    reveal_strlit("IFCFACEBOUND");
    reveal_strlit("IFCEDGECURVE");
    reveal_strlit("IFCCOLOURRGB");
    reveal_strlit("IFCSTAIRTYPE");
    reveal_strlit("IFCPLATETYPE");
    reveal_strlit("IFCALIGNMENT");
    reveal_strlit("IFCFACE");
    reveal_strlit("IFCROAD");
    reveal_strlit("IFCKERB");
}

/// The a position where two wire names of equal length differ, for a run of such pairs.
spec fn wire_names_differ_33() -> bool {
    &&& "IFCFACEBOUND"@[3] != "IFCCOLOURRGB"@[3]
    &&& "IFCFACEBOUND"@[3] != "IFCSTAIRTYPE"@[3]
    &&& "IFCFACEBOUND"@[3] != "IFCPLATETYPE"@[3]
    &&& "IFCFACEBOUND"@[3] != "IFCALIGNMENT"@[3]
    &&& "IFCFACEOUTERBOUND"@[3] != "IFCQUANTITYLENGTH"@[3]
    &&& "IFCFACEOUTERBOUND"@[3] != "IFCQUANTITYVOLUME"@[3]
    &&& "IFCFACEOUTERBOUND"@[3] != "IFCQUANTITYWEIGHT"@[3]
    &&& "IFCFACEOUTERBOUND"@[3] != "IFCUNITASSIGNMENT"@[3]
    &&& "IFCFACEOUTERBOUND"@[3] != "IFCRAMPFLIGHTTYPE"@[3]
    &&& "IFCFACEOUTERBOUND"@[3] != "IFCEARTHWORKSFILL"@[3]
    &&& "IFCFACEOUTERBOUND"@[3] != "IFCDEEPFOUNDATION"@[3]
    &&& "IFCPOLYLOOP"@[3] != "IFCEDGELOOP"@[3]
    &&& "IFCPOLYLOOP"@[3] != "IFCMATERIAL"@[3]
    &&& "IFCPOLYLOOP"@[3] != "IFCWALLTYPE"@[3]
    &&& "IFCPOLYLOOP"@[3] != "IFCSLABTYPE"@[3]
    &&& "IFCPOLYLOOP"@[3] != "IFCBEAMTYPE"@[3]
    &&& "IFCPOLYLOOP"@[3] != "IFCDOORTYPE"@[3]
    &&& "IFCPOLYLOOP"@[3] != "IFCRAMPTYPE"@[3]
    &&& "IFCPOLYLOOP"@[3] != "IFCROOFTYPE"@[3]
    &&& "IFCPOLYLOOP"@[4] != "IFCPILETYPE"@[4]
    &&& "IFCPOLYLOOP"@[3] != "IFCROADPART"@[3]
    &&& "IFCPOLYLOOP"@[3] != "IFCFACILITY"@[3]
    &&& "IFCPOLYLOOP"@[3] != "IFCBOREHOLE"@[3]
    &&& "IFCPOLYLOOP"@[3] != "IFCGEOMODEL"@[3]
    &&& "IFCPOLYLOOP"@[3] != "IFCGEOSLICE"@[3]
    &&& "IFCPOLYLOOP"@[4] != "IFCPAVEMENT"@[4]
    &&& "IFCEDGELOOP"@[3] != "IFCMATERIAL"@[3]
    &&& "IFCEDGELOOP"@[3] != "IFCWALLTYPE"@[3]
    &&& "IFCEDGELOOP"@[3] != "IFCSLABTYPE"@[3]
    &&& "IFCEDGELOOP"@[3] != "IFCBEAMTYPE"@[3]
}

proof fn lemma_wire_names_differ_33()
    ensures
        wire_names_differ_33(),
{
    reveal_strlit("IFCFACEBOUND");
    reveal_strlit("IFCCOLOURRGB");
    reveal_strlit("IFCSTAIRTYPE");
    reveal_strlit("IFCPLATETYPE");
    reveal_strlit("IFCALIGNMENT");
    reveal_strlit("IFCFACEOUTERBOUND");
    reveal_strlit("IFCQUANTITYLENGTH");
    reveal_strlit("IFCQUANTITYVOLUME");
    reveal_strlit("IFCQUANTITYWEIGHT");
    reveal_strlit("IFCUNITASSIGNMENT");
    reveal_strlit("IFCRAMPFLIGHTTYPE");
    reveal_strlit("IFCEARTHWORKSFILL");
    reveal_strlit("IFCDEEPFOUNDATION");
    reveal_strlit("IFCPOLYLOOP");
    reveal_strlit("IFCEDGELOOP");
    reveal_strlit("IFCMATERIAL");
    reveal_strlit("IFCWALLTYPE");
    reveal_strlit("IFCSLABTYPE");
    reveal_strlit("IFCBEAMTYPE");
    reveal_strlit("IFCDOORTYPE");
    reveal_strlit("IFCRAMPTYPE");
    reveal_strlit("IFCROOFTYPE");
    reveal_strlit("IFCPILETYPE");
    reveal_strlit("IFCROADPART");
    reveal_strlit("IFCFACILITY");
    reveal_strlit("IFCBOREHOLE");
    reveal_strlit("IFCGEOMODEL");
    reveal_strlit("IFCGEOSLICE");
    reveal_strlit("IFCPAVEMENT");
}

/// The a position where two wire names of equal length differ, for a run of such pairs.
spec fn wire_names_differ_34() -> bool {
    &&& "IFCEDGELOOP"@[3] != "IFCDOORTYPE"@[3]
    &&& "IFCEDGELOOP"@[3] != "IFCRAMPTYPE"@[3]
    &&& "IFCEDGELOOP"@[3] != "IFCROOFTYPE"@[3]
    &&& "IFCEDGELOOP"@[3] != "IFCPILETYPE"@[3]
    &&& "IFCEDGELOOP"@[3] != "IFCROADPART"@[3]
    &&& "IFCEDGELOOP"@[3] != "IFCFACILITY"@[3]
    &&& "IFCEDGELOOP"@[3] != "IFCBOREHOLE"@[3]
    &&& "IFCEDGELOOP"@[3] != "IFCGEOMODEL"@[3]
    &&& "IFCEDGELOOP"@[3] != "IFCGEOSLICE"@[3]
    &&& "IFCEDGELOOP"@[3] != "IFCPAVEMENT"@[3]
    &&& "IFCORIENTEDEDGE"@[3] != "IFCQUANTITYAREA"@[3]
    &&& "IFCORIENTEDEDGE"@[3] != "IFCQUANTITYTIME"@[3]
    &&& "IFCORIENTEDEDGE"@[3] != "IFCMATERIALLIST"@[3]
    &&& "IFCORIENTEDEDGE"@[3] != "IFCSURFACESTYLE"@[3]
    &&& "IFCORIENTEDEDGE"@[3] != "IFCLIGHTFIXTURE"@[3]
    &&& "IFCORIENTEDEDGE"@[3] != "IFCCOVERINGTYPE"@[3]
    &&& "IFCORIENTEDEDGE"@[3] != "IFCFACILITYPART"@[3]
    &&& "IFCORIENTEDEDGE"@[3] != "IFCSOLIDSTRATUM"@[3]
    &&& "IFCORIENTEDEDGE"@[3] != "IFCWATERSTRATUM"@[3]
    &&& "IFCEDGECURVE"@[3] != "IFCCOLOURRGB"@[3]
    &&& "IFCEDGECURVE"@[3] != "IFCSTAIRTYPE"@[3]
    &&& "IFCEDGECURVE"@[3] != "IFCPLATETYPE"@[3]
    &&& "IFCEDGECURVE"@[3] != "IFCALIGNMENT"@[3]
    &&& "IFCVERTEXPOINT"@[3] != "IFCPROPERTYSET"@[3]
    &&& "IFCVERTEXPOINT"@[3] != "IFCLIGHTSOURCE"@[3]
    &&& "IFCVERTEXPOINT"@[3] != "IFCDERIVEDUNIT"@[3]
    &&& "IFCVERTEXPOINT"@[3] != "IFCRAILINGTYPE"@[3]
    &&& "IFCVERTEXPOINT"@[3] != "IFCFOOTINGTYPE"@[3]
    &&& "IFCVERTEXPOINT"@[3] != "IFCRAILWAYPART"@[3]
    &&& "IFCVERTEXPOINT"@[4] != "IFCVOIDSTRATUM"@[4]
}

proof fn lemma_wire_names_differ_34()
    ensures
        wire_names_differ_34(),
{
    reveal_strlit("IFCEDGELOOP");
    reveal_strlit("IFCDOORTYPE");
    reveal_strlit("IFCRAMPTYPE");
    reveal_strlit("IFCROOFTYPE");
    reveal_strlit("IFCPILETYPE");
    reveal_strlit("IFCROADPART");
    reveal_strlit("IFCFACILITY");
    reveal_strlit("IFCBOREHOLE");
    reveal_strlit("IFCGEOMODEL");
    reveal_strlit("IFCGEOSLICE");
    reveal_strlit("IFCPAVEMENT");
    reveal_strlit("IFCORIENTEDEDGE");
    reveal_strlit("IFCQUANTITYAREA");
    reveal_strlit("IFCQUANTITYTIME");
    reveal_strlit("IFCMATERIALLIST");
    reveal_strlit("IFCSURFACESTYLE");
    reveal_strlit("IFCLIGHTFIXTURE");
    reveal_strlit("IFCCOVERINGTYPE");
    reveal_strlit("IFCFACILITYPART");
    reveal_strlit("IFCSOLIDSTRATUM");
    reveal_strlit("IFCWATERSTRATUM");
    reveal_strlit("IFCEDGECURVE");
    reveal_strlit("IFCCOLOURRGB");
    reveal_strlit("IFCSTAIRTYPE");
    reveal_strlit("IFCPLATETYPE");
    reveal_strlit("IFCALIGNMENT");
    reveal_strlit("IFCVERTEXPOINT");
    reveal_strlit("IFCPROPERTYSET");
    reveal_strlit("IFCLIGHTSOURCE");
    reveal_strlit("IFCDERIVEDUNIT");
    reveal_strlit("IFCRAILINGTYPE");
    reveal_strlit("IFCFOOTINGTYPE");
    reveal_strlit("IFCRAILWAYPART");
    reveal_strlit("IFCVOIDSTRATUM");
}

/// The a position where two wire names of equal length differ, for a run of such pairs.
spec fn wire_names_differ_35() -> bool {
    &&& "IFCCONNECTEDFACESET"@[3] != "IFCRELDEFINESBYTYPE"@[3]
    &&& "IFCCONNECTEDFACESET"@[3] != "IFCRELSPACEBOUNDARY"@[3]
    &&& "IFCCONNECTEDFACESET"@[3] != "IFCMATERIALLAYERSET"@[3]
    &&& "IFCCONNECTEDFACESET"@[3] != "IFCLIGHTFIXTURETYPE"@[3]
    &&& "IFCCONNECTEDFACESET"@[3] != "IFCALIGNMENTSEGMENT"@[3]
    &&& "IFCRELAGGREGATES"@[3] != "IFCQUANTITYCOUNT"@[3]
    &&& "IFCRELAGGREGATES"@[3] != "IFCMATERIALLAYER"@[3]
    &&& "IFCRELAGGREGATES"@[3] != "IFCALIGNMENTCANT"@[3]
    &&& "IFCRELAGGREGATES"@[3] != "IFCEARTHWORKSCUT"@[3]
    &&& "IFCRELDEFINESBYPROPERTIES"@[3] != "IFCMATERIALCONSTITUENTSET"@[3]
    &&& "IFCRELDEFINESBYPROPERTIES"@[3] != "IFCLIGHTSOURCEDIRECTIONAL"@[3]
    &&& "IFCRELDEFINESBYPROPERTIES"@[3] != "IFCLIGHTSOURCEGONIOMETRIC"@[3]
    &&& "IFCRELDEFINESBYTYPE"@[6] != "IFCRELSPACEBOUNDARY"@[6]
    &&& "IFCRELDEFINESBYTYPE"@[3] != "IFCMATERIALLAYERSET"@[3]
    &&& "IFCRELDEFINESBYTYPE"@[3] != "IFCLIGHTFIXTURETYPE"@[3]
    &&& "IFCRELDEFINESBYTYPE"@[3] != "IFCALIGNMENTSEGMENT"@[3]
    &&& "IFCRELASSOCIATESMATERIAL"@[3] != "IFCMATERIALLAYERSETUSAGE"@[3]
    &&& "IFCRELASSOCIATESMATERIAL"@[3] != "IFCSURFACESTYLERENDERING"@[3]
    &&& "IFCRELASSOCIATESMATERIAL"@[3] != "IFCLIGHTSOURCEPOSITIONAL"@[3]
    &&& "IFCRELASSOCIATESMATERIAL"@[3] != "IFCLIGHTDISTRIBUTIONDATA"@[3]
    &&& "IFCRELVOIDSELEMENT"@[6] != "IFCRELFILLSELEMENT"@[6]
    &&& "IFCRELVOIDSELEMENT"@[3] != "IFCCOMPLEXPROPERTY"@[3]
    &&& "IFCRELVOIDSELEMENT"@[3] != "IFCELEMENTQUANTITY"@[3]
    &&& "IFCRELVOIDSELEMENT"@[3] != "IFCMATERIALPROFILE"@[3]
    &&& "IFCRELVOIDSELEMENT"@[3] != "IFCLIGHTSOURCESPOT"@[3]
    &&& "IFCRELVOIDSELEMENT"@[3] != "IFCMEASUREWITHUNIT"@[3]
    &&& "IFCRELVOIDSELEMENT"@[3] != "IFCSTAIRFLIGHTTYPE"@[3]
    &&& "IFCRELFILLSELEMENT"@[3] != "IFCCOMPLEXPROPERTY"@[3]
    &&& "IFCRELFILLSELEMENT"@[3] != "IFCELEMENTQUANTITY"@[3]
    &&& "IFCRELFILLSELEMENT"@[3] != "IFCMATERIALPROFILE"@[3]
}

proof fn lemma_wire_names_differ_35()
    ensures
        wire_names_differ_35(),
{
    reveal_strlit("IFCCONNECTEDFACESET");
    reveal_strlit("IFCRELDEFINESBYTYPE");
    reveal_strlit("IFCRELSPACEBOUNDARY");
    reveal_strlit("IFCMATERIALLAYERSET");
    reveal_strlit("IFCLIGHTFIXTURETYPE");
    reveal_strlit("IFCALIGNMENTSEGMENT");
    reveal_strlit("IFCRELAGGREGATES");
    reveal_strlit("IFCQUANTITYCOUNT");
    reveal_strlit("IFCMATERIALLAYER");
    reveal_strlit("IFCALIGNMENTCANT");
    reveal_strlit("IFCEARTHWORKSCUT");
    reveal_strlit("IFCRELDEFINESBYPROPERTIES");
    reveal_strlit("IFCMATERIALCONSTITUENTSET");
    reveal_strlit("IFCLIGHTSOURCEDIRECTIONAL");
    reveal_strlit("IFCLIGHTSOURCEGONIOMETRIC");
    reveal_strlit("IFCRELASSOCIATESMATERIAL");
    reveal_strlit("IFCMATERIALLAYERSETUSAGE");
    reveal_strlit("IFCSURFACESTYLERENDERING");
    reveal_strlit("IFCLIGHTSOURCEPOSITIONAL");
    reveal_strlit("IFCLIGHTDISTRIBUTIONDATA");
    reveal_strlit("IFCRELVOIDSELEMENT");
    reveal_strlit("IFCRELFILLSELEMENT");
    reveal_strlit("IFCCOMPLEXPROPERTY");
    reveal_strlit("IFCELEMENTQUANTITY");
    reveal_strlit("IFCMATERIALPROFILE");
    reveal_strlit("IFCLIGHTSOURCESPOT");
    reveal_strlit("IFCMEASUREWITHUNIT");
    reveal_strlit("IFCSTAIRFLIGHTTYPE");
}

/// The a position where two wire names of equal length differ, for a run of such pairs.
spec fn wire_names_differ_36() -> bool {
    &&& "IFCRELFILLSELEMENT"@[3] != "IFCLIGHTSOURCESPOT"@[3]
    &&& "IFCRELFILLSELEMENT"@[3] != "IFCMEASUREWITHUNIT"@[3]
    &&& "IFCRELFILLSELEMENT"@[3] != "IFCSTAIRFLIGHTTYPE"@[3]
    &&& "IFCRELCONNECTSPATHELEMENTS"@[3] != "IFCPROPERTYENUMERATEDVALUE"@[3]
    &&& "IFCRELCONNECTSPATHELEMENTS"@[3] != "IFCMATERIALPROFILESETUSAGE"@[3]
    &&& "IFCRELSPACEBOUNDARY"@[3] != "IFCMATERIALLAYERSET"@[3]
    &&& "IFCRELSPACEBOUNDARY"@[3] != "IFCLIGHTFIXTURETYPE"@[3]
    &&& "IFCRELSPACEBOUNDARY"@[3] != "IFCALIGNMENTSEGMENT"@[3]
    &&& "IFCRELASSIGNSTOGROUP"@[3] != "IFCPROPERTYLISTVALUE"@[3]
    &&& "IFCRELASSIGNSTOGROUP"@[3] != "IFCALIGNMENTVERTICAL"@[3]
    &&& "IFCRELASSIGNSTOGROUP"@[3] != "IFCEARTHWORKSELEMENT"@[3]
    &&& "IFCPROPERTYSET"@[3] != "IFCLIGHTSOURCE"@[3]
    &&& "IFCPROPERTYSET"@[3] != "IFCDERIVEDUNIT"@[3]
    &&& "IFCPROPERTYSET"@[3] != "IFCRAILINGTYPE"@[3]
    &&& "IFCPROPERTYSET"@[3] != "IFCFOOTINGTYPE"@[3]
    &&& "IFCPROPERTYSET"@[3] != "IFCRAILWAYPART"@[3]
    &&& "IFCPROPERTYSET"@[3] != "IFCVOIDSTRATUM"@[3]
    &&& "IFCPROPERTYSINGLEVALUE"@[3] != "IFCMATERIALCONSTITUENT"@[3]
    &&& "IFCPROPERTYSINGLEVALUE"@[3] != "IFCCONVERSIONBASEDUNIT"@[3]
    &&& "IFCPROPERTYSINGLEVALUE"@[3] != "IFCALIGNMENTHORIZONTAL"@[3]
    &&& "IFCPROPERTYSINGLEVALUE"@[3] != "IFCGEOTECHNICALELEMENT"@[3]
    &&& "IFCPROPERTYENUMERATEDVALUE"@[3] != "IFCMATERIALPROFILESETUSAGE"@[3]
    &&& "IFCPROPERTYLISTVALUE"@[3] != "IFCALIGNMENTVERTICAL"@[3]
    &&& "IFCPROPERTYLISTVALUE"@[3] != "IFCEARTHWORKSELEMENT"@[3]
    &&& "IFCPROPERTYTABLEVALUE"@[3] != "IFCMATERIALPROFILESET"@[3]
    &&& "IFCPROPERTYTABLEVALUE"@[3] != "IFCLIGHTSOURCEAMBIENT"@[3]
    &&& "IFCCOMPLEXPROPERTY"@[3] != "IFCELEMENTQUANTITY"@[3]
    &&& "IFCCOMPLEXPROPERTY"@[3] != "IFCMATERIALPROFILE"@[3]
    &&& "IFCCOMPLEXPROPERTY"@[3] != "IFCLIGHTSOURCESPOT"@[3]
    &&& "IFCCOMPLEXPROPERTY"@[3] != "IFCMEASUREWITHUNIT"@[3]
}

proof fn lemma_wire_names_differ_36()
    ensures
        wire_names_differ_36(),
{
    reveal_strlit("IFCRELFILLSELEMENT");
    reveal_strlit("IFCLIGHTSOURCESPOT");
    reveal_strlit("IFCMEASUREWITHUNIT");
    reveal_strlit("IFCSTAIRFLIGHTTYPE");
    reveal_strlit("IFCRELCONNECTSPATHELEMENTS");
    reveal_strlit("IFCPROPERTYENUMERATEDVALUE");
    reveal_strlit("IFCMATERIALPROFILESETUSAGE");
    reveal_strlit("IFCRELSPACEBOUNDARY");
    reveal_strlit("IFCMATERIALLAYERSET");
    reveal_strlit("IFCLIGHTFIXTURETYPE");
    reveal_strlit("IFCALIGNMENTSEGMENT");
    reveal_strlit("IFCRELASSIGNSTOGROUP");
    reveal_strlit("IFCPROPERTYLISTVALUE");
    reveal_strlit("IFCALIGNMENTVERTICAL");
    reveal_strlit("IFCEARTHWORKSELEMENT");
    reveal_strlit("IFCPROPERTYSET");
    reveal_strlit("IFCLIGHTSOURCE");
    reveal_strlit("IFCDERIVEDUNIT");
    reveal_strlit("IFCRAILINGTYPE");
    reveal_strlit("IFCFOOTINGTYPE");
    reveal_strlit("IFCRAILWAYPART");
    reveal_strlit("IFCVOIDSTRATUM");
    reveal_strlit("IFCPROPERTYSINGLEVALUE");
    reveal_strlit("IFCMATERIALCONSTITUENT");
    reveal_strlit("IFCCONVERSIONBASEDUNIT");
    reveal_strlit("IFCALIGNMENTHORIZONTAL");
    reveal_strlit("IFCGEOTECHNICALELEMENT");
    reveal_strlit("IFCPROPERTYTABLEVALUE");
    reveal_strlit("IFCMATERIALPROFILESET");
    reveal_strlit("IFCLIGHTSOURCEAMBIENT");
    reveal_strlit("IFCCOMPLEXPROPERTY");
    reveal_strlit("IFCELEMENTQUANTITY");
    reveal_strlit("IFCMATERIALPROFILE");
}

/// The a position where two wire names of equal length differ, for a run of such pairs.
spec fn wire_names_differ_37() -> bool {
    &&& "IFCCOMPLEXPROPERTY"@[3] != "IFCSTAIRFLIGHTTYPE"@[3]
    &&& "IFCELEMENTQUANTITY"@[3] != "IFCMATERIALPROFILE"@[3]
    &&& "IFCELEMENTQUANTITY"@[3] != "IFCLIGHTSOURCESPOT"@[3]
    &&& "IFCELEMENTQUANTITY"@[3] != "IFCMEASUREWITHUNIT"@[3]
    &&& "IFCELEMENTQUANTITY"@[3] != "IFCSTAIRFLIGHTTYPE"@[3]
    &&& "IFCQUANTITYLENGTH"@[11] != "IFCQUANTITYVOLUME"@[11]
    &&& "IFCQUANTITYLENGTH"@[11] != "IFCQUANTITYWEIGHT"@[11]
    &&& "IFCQUANTITYLENGTH"@[3] != "IFCUNITASSIGNMENT"@[3]
    &&& "IFCQUANTITYLENGTH"@[3] != "IFCRAMPFLIGHTTYPE"@[3]
    &&& "IFCQUANTITYLENGTH"@[3] != "IFCEARTHWORKSFILL"@[3]
    &&& "IFCQUANTITYLENGTH"@[3] != "IFCDEEPFOUNDATION"@[3]
    &&& "IFCQUANTITYAREA"@[11] != "IFCQUANTITYTIME"@[11]
    &&& "IFCQUANTITYAREA"@[3] != "IFCMATERIALLIST"@[3]
    &&& "IFCQUANTITYAREA"@[3] != "IFCSURFACESTYLE"@[3]
    &&& "IFCQUANTITYAREA"@[3] != "IFCLIGHTFIXTURE"@[3]
    &&& "IFCQUANTITYAREA"@[3] != "IFCCOVERINGTYPE"@[3]
    &&& "IFCQUANTITYAREA"@[3] != "IFCFACILITYPART"@[3]
    &&& "IFCQUANTITYAREA"@[3] != "IFCSOLIDSTRATUM"@[3]
    &&& "IFCQUANTITYAREA"@[3] != "IFCWATERSTRATUM"@[3]
    &&& "IFCQUANTITYVOLUME"@[11] != "IFCQUANTITYWEIGHT"@[11]
    &&& "IFCQUANTITYVOLUME"@[3] != "IFCUNITASSIGNMENT"@[3]
    &&& "IFCQUANTITYVOLUME"@[3] != "IFCRAMPFLIGHTTYPE"@[3]
    &&& "IFCQUANTITYVOLUME"@[3] != "IFCEARTHWORKSFILL"@[3]
    &&& "IFCQUANTITYVOLUME"@[3] != "IFCDEEPFOUNDATION"@[3]
    &&& "IFCQUANTITYCOUNT"@[3] != "IFCMATERIALLAYER"@[3]
    &&& "IFCQUANTITYCOUNT"@[3] != "IFCALIGNMENTCANT"@[3]
    &&& "IFCQUANTITYCOUNT"@[3] != "IFCEARTHWORKSCUT"@[3]
    &&& "IFCQUANTITYWEIGHT"@[3] != "IFCUNITASSIGNMENT"@[3]
    &&& "IFCQUANTITYWEIGHT"@[3] != "IFCRAMPFLIGHTTYPE"@[3]
    &&& "IFCQUANTITYWEIGHT"@[3] != "IFCEARTHWORKSFILL"@[3]
}

proof fn lemma_wire_names_differ_37()
    ensures
        wire_names_differ_37(),
{
    reveal_strlit("IFCCOMPLEXPROPERTY");
    reveal_strlit("IFCSTAIRFLIGHTTYPE");
    reveal_strlit("IFCELEMENTQUANTITY");
    reveal_strlit("IFCMATERIALPROFILE");
    reveal_strlit("IFCLIGHTSOURCESPOT");
    reveal_strlit("IFCMEASUREWITHUNIT");
    reveal_strlit("IFCQUANTITYLENGTH");
    reveal_strlit("IFCQUANTITYVOLUME");
    reveal_strlit("IFCQUANTITYWEIGHT");
    reveal_strlit("IFCUNITASSIGNMENT");
    reveal_strlit("IFCRAMPFLIGHTTYPE");
    reveal_strlit("IFCEARTHWORKSFILL");
    reveal_strlit("IFCDEEPFOUNDATION");
    reveal_strlit("IFCQUANTITYAREA");
    reveal_strlit("IFCQUANTITYTIME");
    reveal_strlit("IFCMATERIALLIST");
    reveal_strlit("IFCSURFACESTYLE");
    reveal_strlit("IFCLIGHTFIXTURE");
    reveal_strlit("IFCCOVERINGTYPE");
    reveal_strlit("IFCFACILITYPART");
    reveal_strlit("IFCSOLIDSTRATUM");
    reveal_strlit("IFCWATERSTRATUM");
    reveal_strlit("IFCQUANTITYCOUNT");
    reveal_strlit("IFCMATERIALLAYER");
    reveal_strlit("IFCALIGNMENTCANT");
    reveal_strlit("IFCEARTHWORKSCUT");
}

/// The a position where two wire names of equal length differ, for a run of such pairs.
spec fn wire_names_differ_38() -> bool {
    &&& "IFCQUANTITYWEIGHT"@[3] != "IFCDEEPFOUNDATION"@[3]
    &&& "IFCQUANTITYTIME"@[3] != "IFCMATERIALLIST"@[3]
    &&& "IFCQUANTITYTIME"@[3] != "IFCSURFACESTYLE"@[3]
    &&& "IFCQUANTITYTIME"@[3] != "IFCLIGHTFIXTURE"@[3]
    &&& "IFCQUANTITYTIME"@[3] != "IFCCOVERINGTYPE"@[3]
    &&& "IFCQUANTITYTIME"@[3] != "IFCFACILITYPART"@[3]
    &&& "IFCQUANTITYTIME"@[3] != "IFCSOLIDSTRATUM"@[3]
    &&& "IFCQUANTITYTIME"@[3] != "IFCWATERSTRATUM"@[3]
    &&& "IFCMATERIAL"@[3] != "IFCWALLTYPE"@[3]
    &&& "IFCMATERIAL"@[3] != "IFCSLABTYPE"@[3]
    &&& "IFCMATERIAL"@[3] != "IFCBEAMTYPE"@[3]
    &&& "IFCMATERIAL"@[3] != "IFCDOORTYPE"@[3]
    &&& "IFCMATERIAL"@[3] != "IFCRAMPTYPE"@[3]
    &&& "IFCMATERIAL"@[3] != "IFCROOFTYPE"@[3]
    &&& "IFCMATERIAL"@[3] != "IFCPILETYPE"@[3]
    &&& "IFCMATERIAL"@[3] != "IFCROADPART"@[3]
    &&& "IFCMATERIAL"@[3] != "IFCFACILITY"@[3]
    &&& "IFCMATERIAL"@[3] != "IFCBOREHOLE"@[3]
    &&& "IFCMATERIAL"@[3] != "IFCGEOMODEL"@[3]
    &&& "IFCMATERIAL"@[3] != "IFCGEOSLICE"@[3]
    &&& "IFCMATERIAL"@[3] != "IFCPAVEMENT"@[3]
    &&& "IFCMATERIALLAYER"@[3] != "IFCALIGNMENTCANT"@[3]
    &&& "IFCMATERIALLAYER"@[3] != "IFCEARTHWORKSCUT"@[3]
    &&& "IFCMATERIALLAYERSET"@[3] != "IFCLIGHTFIXTURETYPE"@[3]
    &&& "IFCMATERIALLAYERSET"@[3] != "IFCALIGNMENTSEGMENT"@[3]
    &&& "IFCMATERIALLAYERSETUSAGE"@[3] != "IFCSURFACESTYLERENDERING"@[3]
    &&& "IFCMATERIALLAYERSETUSAGE"@[3] != "IFCLIGHTSOURCEPOSITIONAL"@[3]
    &&& "IFCMATERIALLAYERSETUSAGE"@[3] != "IFCLIGHTDISTRIBUTIONDATA"@[3]
    &&& "IFCMATERIALLIST"@[3] != "IFCSURFACESTYLE"@[3]
    &&& "IFCMATERIALLIST"@[3] != "IFCLIGHTFIXTURE"@[3]
}

proof fn lemma_wire_names_differ_38()
    ensures
        wire_names_differ_38(),
{
    reveal_strlit("IFCQUANTITYWEIGHT");
    reveal_strlit("IFCDEEPFOUNDATION");
    reveal_strlit("IFCQUANTITYTIME");
    reveal_strlit("IFCMATERIALLIST");
    reveal_strlit("IFCSURFACESTYLE");
    reveal_strlit("IFCLIGHTFIXTURE");
    reveal_strlit("IFCCOVERINGTYPE");
    reveal_strlit("IFCFACILITYPART");
    reveal_strlit("IFCSOLIDSTRATUM");
    reveal_strlit("IFCWATERSTRATUM");
    reveal_strlit("IFCMATERIAL");
    reveal_strlit("IFCWALLTYPE");
    reveal_strlit("IFCSLABTYPE");
    reveal_strlit("IFCBEAMTYPE");
    reveal_strlit("IFCDOORTYPE");
    reveal_strlit("IFCRAMPTYPE");
    reveal_strlit("IFCROOFTYPE");
    reveal_strlit("IFCPILETYPE");
    reveal_strlit("IFCROADPART");
    reveal_strlit("IFCFACILITY");
    reveal_strlit("IFCBOREHOLE");
    reveal_strlit("IFCGEOMODEL");
    reveal_strlit("IFCGEOSLICE");
    reveal_strlit("IFCPAVEMENT");
    reveal_strlit("IFCMATERIALLAYER");
    reveal_strlit("IFCALIGNMENTCANT");
    reveal_strlit("IFCEARTHWORKSCUT");
    reveal_strlit("IFCMATERIALLAYERSET");
    reveal_strlit("IFCLIGHTFIXTURETYPE");
    reveal_strlit("IFCALIGNMENTSEGMENT");
    reveal_strlit("IFCMATERIALLAYERSETUSAGE");
    reveal_strlit("IFCSURFACESTYLERENDERING");
    reveal_strlit("IFCLIGHTSOURCEPOSITIONAL");
    reveal_strlit("IFCLIGHTDISTRIBUTIONDATA");
}

/// The a position where two wire names of equal length differ, for a run of such pairs.
spec fn wire_names_differ_39() -> bool {
    &&& "IFCMATERIALLIST"@[3] != "IFCCOVERINGTYPE"@[3]
    &&& "IFCMATERIALLIST"@[3] != "IFCFACILITYPART"@[3]
    &&& "IFCMATERIALLIST"@[3] != "IFCSOLIDSTRATUM"@[3]
    &&& "IFCMATERIALLIST"@[3] != "IFCWATERSTRATUM"@[3]
    &&& "IFCMATERIALCONSTITUENTSET"@[3] != "IFCLIGHTSOURCEDIRECTIONAL"@[3]
    &&& "IFCMATERIALCONSTITUENTSET"@[3] != "IFCLIGHTSOURCEGONIOMETRIC"@[3]
    &&& "IFCMATERIALCONSTITUENT"@[3] != "IFCCONVERSIONBASEDUNIT"@[3]
    &&& "IFCMATERIALCONSTITUENT"@[3] != "IFCALIGNMENTHORIZONTAL"@[3]
    &&& "IFCMATERIALCONSTITUENT"@[3] != "IFCGEOTECHNICALELEMENT"@[3]
    &&& "IFCMATERIALPROFILE"@[3] != "IFCLIGHTSOURCESPOT"@[3]
    &&& "IFCMATERIALPROFILE"@[4] != "IFCMEASUREWITHUNIT"@[4]
    &&& "IFCMATERIALPROFILE"@[3] != "IFCSTAIRFLIGHTTYPE"@[3]
    &&& "IFCMATERIALPROFILESET"@[3] != "IFCLIGHTSOURCEAMBIENT"@[3]
    &&& "IFCSTYLEDITEM"@[3] != "IFCCOLUMNTYPE"@[3]
    &&& "IFCSTYLEDITEM"@[3] != "IFCWINDOWTYPE"@[3]
    &&& "IFCSTYLEDITEM"@[3] != "IFCMEMBERTYPE"@[3]
    &&& "IFCSTYLEDITEM"@[3] != "IFCBRIDGEPART"@[3]
    &&& "IFCSURFACESTYLE"@[3] != "IFCLIGHTFIXTURE"@[3]
    &&& "IFCSURFACESTYLE"@[3] != "IFCCOVERINGTYPE"@[3]
    &&& "IFCSURFACESTYLE"@[3] != "IFCFACILITYPART"@[3]
    &&& "IFCSURFACESTYLE"@[4] != "IFCSOLIDSTRATUM"@[4]
    &&& "IFCSURFACESTYLE"@[3] != "IFCWATERSTRATUM"@[3]
    &&& "IFCSURFACESTYLERENDERING"@[3] != "IFCLIGHTSOURCEPOSITIONAL"@[3]
    &&& "IFCSURFACESTYLERENDERING"@[3] != "IFCLIGHTDISTRIBUTIONDATA"@[3]
    &&& "IFCCOLOURRGB"@[3] != "IFCSTAIRTYPE"@[3]
    &&& "IFCCOLOURRGB"@[3] != "IFCPLATETYPE"@[3]
    &&& "IFCCOLOURRGB"@[3] != "IFCALIGNMENT"@[3]
    &&& "IFCLIGHTFIXTURE"@[3] != "IFCCOVERINGTYPE"@[3]
    &&& "IFCLIGHTFIXTURE"@[3] != "IFCFACILITYPART"@[3]
    &&& "IFCLIGHTFIXTURE"@[3] != "IFCSOLIDSTRATUM"@[3]
}

proof fn lemma_wire_names_differ_39()
    ensures
        wire_names_differ_39(),
{
    reveal_strlit("IFCMATERIALLIST");
    reveal_strlit("IFCCOVERINGTYPE");
    reveal_strlit("IFCFACILITYPART");
    reveal_strlit("IFCSOLIDSTRATUM");
    reveal_strlit("IFCWATERSTRATUM");
    reveal_strlit("IFCMATERIALCONSTITUENTSET");
    reveal_strlit("IFCLIGHTSOURCEDIRECTIONAL");
    reveal_strlit("IFCLIGHTSOURCEGONIOMETRIC");
    reveal_strlit("IFCMATERIALCONSTITUENT");
    reveal_strlit("IFCCONVERSIONBASEDUNIT");
    reveal_strlit("IFCALIGNMENTHORIZONTAL");
    reveal_strlit("IFCGEOTECHNICALELEMENT");
    reveal_strlit("IFCMATERIALPROFILE");
    reveal_strlit("IFCLIGHTSOURCESPOT");
    reveal_strlit("IFCMEASUREWITHUNIT");
    reveal_strlit("IFCSTAIRFLIGHTTYPE");
    reveal_strlit("IFCMATERIALPROFILESET");
    reveal_strlit("IFCLIGHTSOURCEAMBIENT");
    reveal_strlit("IFCSTYLEDITEM");
    reveal_strlit("IFCCOLUMNTYPE");
    reveal_strlit("IFCWINDOWTYPE");
    reveal_strlit("IFCMEMBERTYPE");
    reveal_strlit("IFCBRIDGEPART");
    reveal_strlit("IFCSURFACESTYLE");
    reveal_strlit("IFCLIGHTFIXTURE");
    reveal_strlit("IFCSURFACESTYLERENDERING");
    reveal_strlit("IFCLIGHTSOURCEPOSITIONAL");
    reveal_strlit("IFCLIGHTDISTRIBUTIONDATA");
    reveal_strlit("IFCCOLOURRGB");
    reveal_strlit("IFCSTAIRTYPE");
    reveal_strlit("IFCPLATETYPE");
    reveal_strlit("IFCALIGNMENT");
}

/// The a position where two wire names of equal length differ, for a run of such pairs.
spec fn wire_names_differ_40() -> bool {
    &&& "IFCLIGHTFIXTURE"@[3] != "IFCWATERSTRATUM"@[3]
    &&& "IFCLIGHTFIXTURETYPE"@[3] != "IFCALIGNMENTSEGMENT"@[3]
    &&& "IFCLIGHTSOURCE"@[3] != "IFCDERIVEDUNIT"@[3]
    &&& "IFCLIGHTSOURCE"@[3] != "IFCRAILINGTYPE"@[3]
    &&& "IFCLIGHTSOURCE"@[3] != "IFCFOOTINGTYPE"@[3]
    &&& "IFCLIGHTSOURCE"@[3] != "IFCRAILWAYPART"@[3]
    &&& "IFCLIGHTSOURCE"@[3] != "IFCVOIDSTRATUM"@[3]
    &&& "IFCLIGHTSOURCEDIRECTIONAL"@[14] != "IFCLIGHTSOURCEGONIOMETRIC"@[14]
    &&& "IFCLIGHTSOURCEPOSITIONAL"@[8] != "IFCLIGHTDISTRIBUTIONDATA"@[8]
    &&& "IFCLIGHTSOURCESPOT"@[3] != "IFCMEASUREWITHUNIT"@[3]
    &&& "IFCLIGHTSOURCESPOT"@[3] != "IFCSTAIRFLIGHTTYPE"@[3]
    &&& "IFCUNITASSIGNMENT"@[3] != "IFCRAMPFLIGHTTYPE"@[3]
    &&& "IFCUNITASSIGNMENT"@[3] != "IFCEARTHWORKSFILL"@[3]
    &&& "IFCUNITASSIGNMENT"@[3] != "IFCDEEPFOUNDATION"@[3]
    &&& "IFCSIUNIT"@[3] != "IFCBRIDGE"@[3]
    &&& "IFCSIUNIT"@[3] != "IFCCOURSE"@[3]
    &&& "IFCCONVERSIONBASEDUNIT"@[3] != "IFCALIGNMENTHORIZONTAL"@[3]
    &&& "IFCCONVERSIONBASEDUNIT"@[3] != "IFCGEOTECHNICALELEMENT"@[3]
    &&& "IFCDERIVEDUNIT"@[3] != "IFCRAILINGTYPE"@[3]
    &&& "IFCDERIVEDUNIT"@[3] != "IFCFOOTINGTYPE"@[3]
    &&& "IFCDERIVEDUNIT"@[3] != "IFCRAILWAYPART"@[3]
    &&& "IFCDERIVEDUNIT"@[3] != "IFCVOIDSTRATUM"@[3]
    &&& "IFCMEASUREWITHUNIT"@[3] != "IFCSTAIRFLIGHTTYPE"@[3]
    &&& "IFCWALLTYPE"@[3] != "IFCSLABTYPE"@[3]
    &&& "IFCWALLTYPE"@[3] != "IFCBEAMTYPE"@[3]
    &&& "IFCWALLTYPE"@[3] != "IFCDOORTYPE"@[3]
    &&& "IFCWALLTYPE"@[3] != "IFCRAMPTYPE"@[3]
    &&& "IFCWALLTYPE"@[3] != "IFCROOFTYPE"@[3]
    &&& "IFCWALLTYPE"@[3] != "IFCPILETYPE"@[3]
    &&& "IFCWALLTYPE"@[3] != "IFCROADPART"@[3]
}

proof fn lemma_wire_names_differ_40()
    ensures
        wire_names_differ_40(),
{
    reveal_strlit("IFCLIGHTFIXTURE");
    reveal_strlit("IFCWATERSTRATUM");
    reveal_strlit("IFCLIGHTFIXTURETYPE");
    reveal_strlit("IFCALIGNMENTSEGMENT");
    reveal_strlit("IFCLIGHTSOURCE");
    reveal_strlit("IFCDERIVEDUNIT");
    reveal_strlit("IFCRAILINGTYPE");
    reveal_strlit("IFCFOOTINGTYPE");
    reveal_strlit("IFCRAILWAYPART");
    reveal_strlit("IFCVOIDSTRATUM");
    reveal_strlit("IFCLIGHTSOURCEDIRECTIONAL");
    reveal_strlit("IFCLIGHTSOURCEGONIOMETRIC");
    reveal_strlit("IFCLIGHTSOURCEPOSITIONAL");
    reveal_strlit("IFCLIGHTDISTRIBUTIONDATA");
    reveal_strlit("IFCLIGHTSOURCESPOT");
    reveal_strlit("IFCMEASUREWITHUNIT");
    reveal_strlit("IFCSTAIRFLIGHTTYPE");
    reveal_strlit("IFCUNITASSIGNMENT");
    reveal_strlit("IFCRAMPFLIGHTTYPE");
    reveal_strlit("IFCEARTHWORKSFILL");
    reveal_strlit("IFCDEEPFOUNDATION");
    reveal_strlit("IFCSIUNIT");
    reveal_strlit("IFCBRIDGE");
    reveal_strlit("IFCCOURSE");
    reveal_strlit("IFCCONVERSIONBASEDUNIT");
    reveal_strlit("IFCALIGNMENTHORIZONTAL");
    reveal_strlit("IFCGEOTECHNICALELEMENT");
    reveal_strlit("IFCWALLTYPE");
    reveal_strlit("IFCSLABTYPE");
    reveal_strlit("IFCBEAMTYPE");
    reveal_strlit("IFCDOORTYPE");
    reveal_strlit("IFCRAMPTYPE");
    reveal_strlit("IFCROOFTYPE");
    reveal_strlit("IFCPILETYPE");
    reveal_strlit("IFCROADPART");
}

/// The a position where two wire names of equal length differ, for a run of such pairs.
spec fn wire_names_differ_41() -> bool {
    &&& "IFCWALLTYPE"@[3] != "IFCFACILITY"@[3]
    &&& "IFCWALLTYPE"@[3] != "IFCBOREHOLE"@[3]
    &&& "IFCWALLTYPE"@[3] != "IFCGEOMODEL"@[3]
    &&& "IFCWALLTYPE"@[3] != "IFCGEOSLICE"@[3]
    &&& "IFCWALLTYPE"@[3] != "IFCPAVEMENT"@[3]
    &&& "IFCSLABTYPE"@[3] != "IFCBEAMTYPE"@[3]
    &&& "IFCSLABTYPE"@[3] != "IFCDOORTYPE"@[3]
    &&& "IFCSLABTYPE"@[3] != "IFCRAMPTYPE"@[3]
    &&& "IFCSLABTYPE"@[3] != "IFCROOFTYPE"@[3]
    &&& "IFCSLABTYPE"@[3] != "IFCPILETYPE"@[3]
    &&& "IFCSLABTYPE"@[3] != "IFCROADPART"@[3]
    &&& "IFCSLABTYPE"@[3] != "IFCFACILITY"@[3]
    &&& "IFCSLABTYPE"@[3] != "IFCBOREHOLE"@[3]
    &&& "IFCSLABTYPE"@[3] != "IFCGEOMODEL"@[3]
    &&& "IFCSLABTYPE"@[3] != "IFCGEOSLICE"@[3]
    &&& "IFCSLABTYPE"@[3] != "IFCPAVEMENT"@[3]
    &&& "IFCBEAMTYPE"@[3] != "IFCDOORTYPE"@[3]
    &&& "IFCBEAMTYPE"@[3] != "IFCRAMPTYPE"@[3]
    &&& "IFCBEAMTYPE"@[3] != "IFCROOFTYPE"@[3]
    &&& "IFCBEAMTYPE"@[3] != "IFCPILETYPE"@[3]
    &&& "IFCBEAMTYPE"@[3] != "IFCROADPART"@[3]
    &&& "IFCBEAMTYPE"@[3] != "IFCFACILITY"@[3]
    &&& "IFCBEAMTYPE"@[4] != "IFCBOREHOLE"@[4]
    &&& "IFCBEAMTYPE"@[3] != "IFCGEOMODEL"@[3]
    &&& "IFCBEAMTYPE"@[3] != "IFCGEOSLICE"@[3]
    &&& "IFCBEAMTYPE"@[3] != "IFCPAVEMENT"@[3]
    &&& "IFCCOLUMNTYPE"@[3] != "IFCWINDOWTYPE"@[3]
    &&& "IFCCOLUMNTYPE"@[3] != "IFCMEMBERTYPE"@[3]
    &&& "IFCCOLUMNTYPE"@[3] != "IFCBRIDGEPART"@[3]
    &&& "IFCDOORTYPE"@[3] != "IFCRAMPTYPE"@[3]
}

proof fn lemma_wire_names_differ_41()
    ensures
        wire_names_differ_41(),
{
    reveal_strlit("IFCWALLTYPE");
    reveal_strlit("IFCFACILITY");
    reveal_strlit("IFCBOREHOLE");
    reveal_strlit("IFCGEOMODEL");
    reveal_strlit("IFCGEOSLICE");
    reveal_strlit("IFCPAVEMENT");
    reveal_strlit("IFCSLABTYPE");
    reveal_strlit("IFCBEAMTYPE");
    reveal_strlit("IFCDOORTYPE");
    reveal_strlit("IFCRAMPTYPE");
    reveal_strlit("IFCROOFTYPE");
    reveal_strlit("IFCPILETYPE");
    reveal_strlit("IFCROADPART");
    reveal_strlit("IFCCOLUMNTYPE");
    reveal_strlit("IFCWINDOWTYPE");
    reveal_strlit("IFCMEMBERTYPE");
    reveal_strlit("IFCBRIDGEPART");
}

/// The a position where two wire names of equal length differ, for a run of such pairs.
spec fn wire_names_differ_42() -> bool {
    &&& "IFCDOORTYPE"@[3] != "IFCROOFTYPE"@[3]
    &&& "IFCDOORTYPE"@[3] != "IFCPILETYPE"@[3]
    &&& "IFCDOORTYPE"@[3] != "IFCROADPART"@[3]
    &&& "IFCDOORTYPE"@[3] != "IFCFACILITY"@[3]
    &&& "IFCDOORTYPE"@[3] != "IFCBOREHOLE"@[3]
    &&& "IFCDOORTYPE"@[3] != "IFCGEOMODEL"@[3]
    &&& "IFCDOORTYPE"@[3] != "IFCGEOSLICE"@[3]
    &&& "IFCDOORTYPE"@[3] != "IFCPAVEMENT"@[3]
    &&& "IFCWINDOWTYPE"@[3] != "IFCMEMBERTYPE"@[3]
    &&& "IFCWINDOWTYPE"@[3] != "IFCBRIDGEPART"@[3]
    &&& "IFCCOVERINGTYPE"@[3] != "IFCFACILITYPART"@[3]
    &&& "IFCCOVERINGTYPE"@[3] != "IFCSOLIDSTRATUM"@[3]
    &&& "IFCCOVERINGTYPE"@[3] != "IFCWATERSTRATUM"@[3]
    &&& "IFCRAILINGTYPE"@[3] != "IFCFOOTINGTYPE"@[3]
    &&& "IFCRAILINGTYPE"@[7] != "IFCRAILWAYPART"@[7]
    &&& "IFCRAILINGTYPE"@[3] != "IFCVOIDSTRATUM"@[3]
    &&& "IFCSTAIRTYPE"@[3] != "IFCPLATETYPE"@[3]
    &&& "IFCSTAIRTYPE"@[3] != "IFCALIGNMENT"@[3]
    &&& "IFCRAMPTYPE"@[4] != "IFCROOFTYPE"@[4]
    &&& "IFCRAMPTYPE"@[3] != "IFCPILETYPE"@[3]
    &&& "IFCRAMPTYPE"@[4] != "IFCROADPART"@[4]
    &&& "IFCRAMPTYPE"@[3] != "IFCFACILITY"@[3]
    &&& "IFCRAMPTYPE"@[3] != "IFCBOREHOLE"@[3]
    &&& "IFCRAMPTYPE"@[3] != "IFCGEOMODEL"@[3]
    &&& "IFCRAMPTYPE"@[3] != "IFCGEOSLICE"@[3]
    &&& "IFCRAMPTYPE"@[3] != "IFCPAVEMENT"@[3]
    &&& "IFCRAMPFLIGHTTYPE"@[3] != "IFCEARTHWORKSFILL"@[3]
    &&& "IFCRAMPFLIGHTTYPE"@[3] != "IFCDEEPFOUNDATION"@[3]
    &&& "IFCROOFTYPE"@[3] != "IFCPILETYPE"@[3]
    &&& "IFCROOFTYPE"@[5] != "IFCROADPART"@[5]
}

proof fn lemma_wire_names_differ_42()
    ensures
        wire_names_differ_42(),
{
    reveal_strlit("IFCDOORTYPE");
    reveal_strlit("IFCROOFTYPE");
    reveal_strlit("IFCPILETYPE");
    reveal_strlit("IFCROADPART");
    reveal_strlit("IFCFACILITY");
    reveal_strlit("IFCBOREHOLE");
    reveal_strlit("IFCGEOMODEL");
    reveal_strlit("IFCGEOSLICE");
    reveal_strlit("IFCPAVEMENT");
    reveal_strlit("IFCWINDOWTYPE");
    reveal_strlit("IFCMEMBERTYPE");
    reveal_strlit("IFCBRIDGEPART");
    reveal_strlit("IFCCOVERINGTYPE");
    reveal_strlit("IFCFACILITYPART");
    reveal_strlit("IFCSOLIDSTRATUM");
    reveal_strlit("IFCWATERSTRATUM");
    reveal_strlit("IFCRAILINGTYPE");
    reveal_strlit("IFCFOOTINGTYPE");
    reveal_strlit("IFCRAILWAYPART");
    reveal_strlit("IFCVOIDSTRATUM");
    reveal_strlit("IFCSTAIRTYPE");
    reveal_strlit("IFCPLATETYPE");
    reveal_strlit("IFCALIGNMENT");
    reveal_strlit("IFCRAMPTYPE");
    reveal_strlit("IFCRAMPFLIGHTTYPE");
    reveal_strlit("IFCEARTHWORKSFILL");
    reveal_strlit("IFCDEEPFOUNDATION");
}

/// The a position where two wire names of equal length differ, for a run of such pairs.
spec fn wire_names_differ_43() -> bool {
    &&& "IFCROOFTYPE"@[3] != "IFCFACILITY"@[3]
    &&& "IFCROOFTYPE"@[3] != "IFCBOREHOLE"@[3]
    &&& "IFCROOFTYPE"@[3] != "IFCGEOMODEL"@[3]
    &&& "IFCROOFTYPE"@[3] != "IFCGEOSLICE"@[3]
    &&& "IFCROOFTYPE"@[3] != "IFCPAVEMENT"@[3]
    &&& "IFCMEMBERTYPE"@[3] != "IFCBRIDGEPART"@[3]
    &&& "IFCPLATETYPE"@[3] != "IFCALIGNMENT"@[3]
    &&& "IFCFOOTINGTYPE"@[3] != "IFCRAILWAYPART"@[3]
    &&& "IFCFOOTINGTYPE"@[3] != "IFCVOIDSTRATUM"@[3]
    &&& "IFCPILETYPE"@[3] != "IFCROADPART"@[3]
    &&& "IFCPILETYPE"@[3] != "IFCFACILITY"@[3]
    &&& "IFCPILETYPE"@[3] != "IFCBOREHOLE"@[3]
    &&& "IFCPILETYPE"@[3] != "IFCGEOMODEL"@[3]
    &&& "IFCPILETYPE"@[3] != "IFCGEOSLICE"@[3]
    &&& "IFCPILETYPE"@[4] != "IFCPAVEMENT"@[4]
    &&& "IFCALIGNMENTCANT"@[3] != "IFCEARTHWORKSCUT"@[3]
    &&& "IFCALIGNMENTHORIZONTAL"@[3] != "IFCGEOTECHNICALELEMENT"@[3]
    &&& "IFCALIGNMENTVERTICAL"@[3] != "IFCEARTHWORKSELEMENT"@[3]
    &&& "IFCROAD"@[3] != "IFCKERB"@[3]
    &&& "IFCROADPART"@[3] != "IFCFACILITY"@[3]
    &&& "IFCROADPART"@[3] != "IFCBOREHOLE"@[3]
    &&& "IFCROADPART"@[3] != "IFCGEOMODEL"@[3]
    &&& "IFCROADPART"@[3] != "IFCGEOSLICE"@[3]
    &&& "IFCROADPART"@[3] != "IFCPAVEMENT"@[3]
    &&& "IFCBRIDGE"@[3] != "IFCCOURSE"@[3]
    &&& "IFCRAILWAYPART"@[3] != "IFCVOIDSTRATUM"@[3]
    &&& "IFCFACILITY"@[3] != "IFCBOREHOLE"@[3]
    &&& "IFCFACILITY"@[3] != "IFCGEOMODEL"@[3]
    &&& "IFCFACILITY"@[3] != "IFCGEOSLICE"@[3]
    &&& "IFCFACILITY"@[3] != "IFCPAVEMENT"@[3]
}

proof fn lemma_wire_names_differ_43()
    ensures
        wire_names_differ_43(),
{
    reveal_strlit("IFCROOFTYPE");
    reveal_strlit("IFCFACILITY");
    reveal_strlit("IFCBOREHOLE");
    reveal_strlit("IFCGEOMODEL");
    reveal_strlit("IFCGEOSLICE");
    reveal_strlit("IFCPAVEMENT");
    reveal_strlit("IFCMEMBERTYPE");
    reveal_strlit("IFCBRIDGEPART");
    reveal_strlit("IFCPLATETYPE");
    reveal_strlit("IFCALIGNMENT");
    reveal_strlit("IFCFOOTINGTYPE");
    reveal_strlit("IFCRAILWAYPART");
    reveal_strlit("IFCVOIDSTRATUM");
    reveal_strlit("IFCPILETYPE");
    reveal_strlit("IFCROADPART");
    reveal_strlit("IFCALIGNMENTCANT");
    reveal_strlit("IFCEARTHWORKSCUT");
    reveal_strlit("IFCALIGNMENTHORIZONTAL");
    reveal_strlit("IFCGEOTECHNICALELEMENT");
    reveal_strlit("IFCALIGNMENTVERTICAL");
    reveal_strlit("IFCEARTHWORKSELEMENT");
    reveal_strlit("IFCROAD");
    reveal_strlit("IFCKERB");
    reveal_strlit("IFCBRIDGE");
    reveal_strlit("IFCCOURSE");
}

/// The a position where two wire names of equal length differ, for a run of such pairs.
spec fn wire_names_differ_44() -> bool {
    &&& "IFCFACILITYPART"@[3] != "IFCSOLIDSTRATUM"@[3]
    &&& "IFCFACILITYPART"@[3] != "IFCWATERSTRATUM"@[3]
    &&& "IFCBOREHOLE"@[3] != "IFCGEOMODEL"@[3]
    &&& "IFCBOREHOLE"@[3] != "IFCGEOSLICE"@[3]
    &&& "IFCBOREHOLE"@[3] != "IFCPAVEMENT"@[3]
    &&& "IFCGEOMODEL"@[6] != "IFCGEOSLICE"@[6]
    &&& "IFCGEOMODEL"@[3] != "IFCPAVEMENT"@[3]
    &&& "IFCGEOSLICE"@[3] != "IFCPAVEMENT"@[3]
    &&& "IFCSOLIDSTRATUM"@[3] != "IFCWATERSTRATUM"@[3]
    &&& "IFCEARTHWORKSFILL"@[3] != "IFCDEEPFOUNDATION"@[3]
}

proof fn lemma_wire_names_differ_44()
    ensures
        wire_names_differ_44(),
{
    reveal_strlit("IFCFACILITYPART");
    reveal_strlit("IFCSOLIDSTRATUM");
    reveal_strlit("IFCWATERSTRATUM");
    reveal_strlit("IFCBOREHOLE");
    reveal_strlit("IFCGEOMODEL");
    reveal_strlit("IFCGEOSLICE");
    reveal_strlit("IFCPAVEMENT");
    reveal_strlit("IFCEARTHWORKSFILL");
    reveal_strlit("IFCDEEPFOUNDATION");
}

/// The wire names of the parse table tell each other apart: each has its
/// length, and two names of equal length differ at some position.
proof fn lemma_wire_names_distinct()
    ensures
        wire_name_lengths_0(),
        wire_name_lengths_1(),
        wire_name_lengths_2(),
        wire_name_lengths_3(),
        wire_name_lengths_4(),
        wire_name_lengths_5(),
        wire_name_lengths_6(),
        wire_name_lengths_7(),
        wire_names_differ_0(),
        wire_names_differ_1(),
        wire_names_differ_2(),
        wire_names_differ_3(),
        wire_names_differ_4(),
        wire_names_differ_5(),
        wire_names_differ_6(),
        wire_names_differ_7(),
        wire_names_differ_8(),
        wire_names_differ_9(),
        wire_names_differ_10(),
        wire_names_differ_11(),
        wire_names_differ_12(),
        wire_names_differ_13(),
        wire_names_differ_14(),
        wire_names_differ_15(),
        wire_names_differ_16(),
        wire_names_differ_17(),
        wire_names_differ_18(),
        wire_names_differ_19(),
        wire_names_differ_20(),
        wire_names_differ_21(),
        wire_names_differ_22(),
        wire_names_differ_23(),
        wire_names_differ_24(),
        wire_names_differ_25(),
        wire_names_differ_26(),
        wire_names_differ_27(),
        wire_names_differ_28(),
        wire_names_differ_29(),
        wire_names_differ_30(),
        wire_names_differ_31(),
        wire_names_differ_32(),
        wire_names_differ_33(),
        wire_names_differ_34(),
        wire_names_differ_35(),
        wire_names_differ_36(),
        wire_names_differ_37(),
        wire_names_differ_38(),
        wire_names_differ_39(),
        wire_names_differ_40(),
        wire_names_differ_41(),
        wire_names_differ_42(),
        wire_names_differ_43(),
        wire_names_differ_44(),
{
    lemma_wire_name_lengths_0();
    lemma_wire_name_lengths_1();
    lemma_wire_name_lengths_2();
    lemma_wire_name_lengths_3();
    lemma_wire_name_lengths_4();
    lemma_wire_name_lengths_5();
    lemma_wire_name_lengths_6();
    lemma_wire_name_lengths_7();
    lemma_wire_names_differ_0();
    lemma_wire_names_differ_1();
    lemma_wire_names_differ_2();
    lemma_wire_names_differ_3();
    lemma_wire_names_differ_4();
    lemma_wire_names_differ_5();
    lemma_wire_names_differ_6();
    lemma_wire_names_differ_7();
    lemma_wire_names_differ_8();
    lemma_wire_names_differ_9();
    lemma_wire_names_differ_10();
    lemma_wire_names_differ_11();
    lemma_wire_names_differ_12();
    lemma_wire_names_differ_13();
    lemma_wire_names_differ_14();
    lemma_wire_names_differ_15();
    lemma_wire_names_differ_16();
    lemma_wire_names_differ_17();
    lemma_wire_names_differ_18();
    lemma_wire_names_differ_19();
    lemma_wire_names_differ_20();
    lemma_wire_names_differ_21();
    lemma_wire_names_differ_22();
    lemma_wire_names_differ_23();
    lemma_wire_names_differ_24();
    lemma_wire_names_differ_25();
    lemma_wire_names_differ_26();
    lemma_wire_names_differ_27();
    lemma_wire_names_differ_28();
    lemma_wire_names_differ_29();
    lemma_wire_names_differ_30();
    lemma_wire_names_differ_31();
    lemma_wire_names_differ_32();
    lemma_wire_names_differ_33();
    lemma_wire_names_differ_34();
    lemma_wire_names_differ_35();
    lemma_wire_names_differ_36();
    lemma_wire_names_differ_37();
    lemma_wire_names_differ_38();
    lemma_wire_names_differ_39();
    lemma_wire_names_differ_40();
    lemma_wire_names_differ_41();
    lemma_wire_names_differ_42();
    lemma_wire_names_differ_43();
    lemma_wire_names_differ_44();
}

proof fn lemma_roundtrip_ifcproject()
    ensures
        lookup_upper(IfcType::IfcProject.spec_name()) == Some(IfcType::IfcProject),
{
    lemma_wire_names_distinct();
    assert(IfcType::IfcProject.spec_name() == "IFCPROJECT"@);
}

proof fn lemma_roundtrip_ifcsite()
    ensures
        lookup_upper(IfcType::IfcSite.spec_name()) == Some(IfcType::IfcSite),
{
    lemma_wire_names_distinct();
    assert(IfcType::IfcSite.spec_name() == "IFCSITE"@);
}

proof fn lemma_roundtrip_ifcbuilding()
    ensures
        lookup_upper(IfcType::IfcBuilding.spec_name()) == Some(IfcType::IfcBuilding),
{
    lemma_wire_names_distinct();
    assert(IfcType::IfcBuilding.spec_name() == "IFCBUILDING"@);
}

proof fn lemma_roundtrip_ifcbuildingstorey()
    ensures
        lookup_upper(IfcType::IfcBuildingStorey.spec_name()) == Some(IfcType::IfcBuildingStorey),
{
    lemma_wire_names_distinct();
    assert(IfcType::IfcBuildingStorey.spec_name() == "IFCBUILDINGSTOREY"@);
}

proof fn lemma_roundtrip_ifcspace()
    ensures
        lookup_upper(IfcType::IfcSpace.spec_name()) == Some(IfcType::IfcSpace),
{
    lemma_wire_names_distinct();
    assert(IfcType::IfcSpace.spec_name() == "IFCSPACE"@);
}

proof fn lemma_roundtrip_ifcwall()
    ensures
        lookup_upper(IfcType::IfcWall.spec_name()) == Some(IfcType::IfcWall),
{
    lemma_wire_names_distinct();
    assert(IfcType::IfcWall.spec_name() == "IFCWALL"@);
}

proof fn lemma_roundtrip_ifcwallstandardcase()
    ensures
        lookup_upper(IfcType::IfcWallStandardCase.spec_name()) == Some(IfcType::IfcWallStandardCase),
{
    lemma_wire_names_distinct();
    assert(IfcType::IfcWallStandardCase.spec_name() == "IFCWALLSTANDARDCASE"@);
}

proof fn lemma_roundtrip_ifccurtainwall()
    ensures
        lookup_upper(IfcType::IfcCurtainWall.spec_name()) == Some(IfcType::IfcCurtainWall),
{
    lemma_wire_names_distinct();
    assert(IfcType::IfcCurtainWall.spec_name() == "IFCCURTAINWALL"@);
}

proof fn lemma_roundtrip_ifcslab()
    ensures
        lookup_upper(IfcType::IfcSlab.spec_name()) == Some(IfcType::IfcSlab),
{
    lemma_wire_names_distinct();
    assert(IfcType::IfcSlab.spec_name() == "IFCSLAB"@);
}

proof fn lemma_roundtrip_ifcroof()
    ensures
        lookup_upper(IfcType::IfcRoof.spec_name()) == Some(IfcType::IfcRoof),
{
    lemma_wire_names_distinct();
    assert(IfcType::IfcRoof.spec_name() == "IFCROOF"@);
}

proof fn lemma_roundtrip_ifcbeam()
    ensures
        lookup_upper(IfcType::IfcBeam.spec_name()) == Some(IfcType::IfcBeam),
{
    lemma_wire_names_distinct();
    assert(IfcType::IfcBeam.spec_name() == "IFCBEAM"@);
}

proof fn lemma_roundtrip_ifccolumn()
    ensures
        lookup_upper(IfcType::IfcColumn.spec_name()) == Some(IfcType::IfcColumn),
{
    lemma_wire_names_distinct();
    assert(IfcType::IfcColumn.spec_name() == "IFCCOLUMN"@);
}

proof fn lemma_roundtrip_ifcdoor()
    ensures
        lookup_upper(IfcType::IfcDoor.spec_name()) == Some(IfcType::IfcDoor),
{
    lemma_wire_names_distinct();
    assert(IfcType::IfcDoor.spec_name() == "IFCDOOR"@);
}

proof fn lemma_roundtrip_ifcwindow()
    ensures
        lookup_upper(IfcType::IfcWindow.spec_name()) == Some(IfcType::IfcWindow),
{
    lemma_wire_names_distinct();
    assert(IfcType::IfcWindow.spec_name() == "IFCWINDOW"@);
}

proof fn lemma_roundtrip_ifcstair()
    ensures
        lookup_upper(IfcType::IfcStair.spec_name()) == Some(IfcType::IfcStair),
{
    lemma_wire_names_distinct();
    assert(IfcType::IfcStair.spec_name() == "IFCSTAIR"@);
}

proof fn lemma_roundtrip_ifcstairflight()
    ensures
        lookup_upper(IfcType::IfcStairFlight.spec_name()) == Some(IfcType::IfcStairFlight),
{
    lemma_wire_names_distinct();
    assert(IfcType::IfcStairFlight.spec_name() == "IFCSTAIRFLIGHT"@);
}

proof fn lemma_roundtrip_ifcramp()
    ensures
        lookup_upper(IfcType::IfcRamp.spec_name()) == Some(IfcType::IfcRamp),
{
    lemma_wire_names_distinct();
    assert(IfcType::IfcRamp.spec_name() == "IFCRAMP"@);
}

proof fn lemma_roundtrip_ifcrampflight()
    ensures
        lookup_upper(IfcType::IfcRampFlight.spec_name()) == Some(IfcType::IfcRampFlight),
{
    lemma_wire_names_distinct();
    assert(IfcType::IfcRampFlight.spec_name() == "IFCRAMPFLIGHT"@);
}

proof fn lemma_roundtrip_ifcrailing()
    ensures
        lookup_upper(IfcType::IfcRailing.spec_name()) == Some(IfcType::IfcRailing),
{
    lemma_wire_names_distinct();
    assert(IfcType::IfcRailing.spec_name() == "IFCRAILING"@);
}

proof fn lemma_roundtrip_ifccovering()
    ensures
        lookup_upper(IfcType::IfcCovering.spec_name()) == Some(IfcType::IfcCovering),
{
    lemma_wire_names_distinct();
    assert(IfcType::IfcCovering.spec_name() == "IFCCOVERING"@);
}

proof fn lemma_roundtrip_ifcplate()
    ensures
        lookup_upper(IfcType::IfcPlate.spec_name()) == Some(IfcType::IfcPlate),
{
    lemma_wire_names_distinct();
    assert(IfcType::IfcPlate.spec_name() == "IFCPLATE"@);
}

proof fn lemma_roundtrip_ifcmember()
    ensures
        lookup_upper(IfcType::IfcMember.spec_name()) == Some(IfcType::IfcMember),
{
    lemma_wire_names_distinct();
    assert(IfcType::IfcMember.spec_name() == "IFCMEMBER"@);
}

proof fn lemma_roundtrip_ifcfooting()
    ensures
        lookup_upper(IfcType::IfcFooting.spec_name()) == Some(IfcType::IfcFooting),
{
    lemma_wire_names_distinct();
    assert(IfcType::IfcFooting.spec_name() == "IFCFOOTING"@);
}

proof fn lemma_roundtrip_ifcpile()
    ensures
        lookup_upper(IfcType::IfcPile.spec_name()) == Some(IfcType::IfcPile),
{
    lemma_wire_names_distinct();
    assert(IfcType::IfcPile.spec_name() == "IFCPILE"@);
}

proof fn lemma_roundtrip_ifcbuildingelementproxy()
    ensures
        lookup_upper(IfcType::IfcBuildingElementProxy.spec_name()) == Some(IfcType::IfcBuildingElementProxy),
{
    lemma_wire_names_distinct();
    assert(IfcType::IfcBuildingElementProxy.spec_name() == "IFCBUILDINGELEMENTPROXY"@);
}

proof fn lemma_roundtrip_ifcelementassembly()
    ensures
        lookup_upper(IfcType::IfcElementAssembly.spec_name()) == Some(IfcType::IfcElementAssembly),
{
    lemma_wire_names_distinct();
    assert(IfcType::IfcElementAssembly.spec_name() == "IFCELEMENTASSEMBLY"@);
}

proof fn lemma_roundtrip_ifcdistributionelement()
    ensures
        lookup_upper(IfcType::IfcDistributionElement.spec_name()) == Some(IfcType::IfcDistributionElement),
{
    lemma_wire_names_distinct();
    assert(IfcType::IfcDistributionElement.spec_name() == "IFCDISTRIBUTIONELEMENT"@);
}

proof fn lemma_roundtrip_ifcdistributionflowelement()
    ensures
        lookup_upper(IfcType::IfcDistributionFlowElement.spec_name()) == Some(IfcType::IfcDistributionFlowElement),
{
    lemma_wire_names_distinct();
    assert(IfcType::IfcDistributionFlowElement.spec_name() == "IFCDISTRIBUTIONFLOWELEMENT"@);
}

proof fn lemma_roundtrip_ifcflowterminal()
    ensures
        lookup_upper(IfcType::IfcFlowTerminal.spec_name()) == Some(IfcType::IfcFlowTerminal),
{
    lemma_wire_names_distinct();
    assert(IfcType::IfcFlowTerminal.spec_name() == "IFCFLOWTERMINAL"@);
}

proof fn lemma_roundtrip_ifcflowsegment()
    ensures
        lookup_upper(IfcType::IfcFlowSegment.spec_name()) == Some(IfcType::IfcFlowSegment),
{
    lemma_wire_names_distinct();
    assert(IfcType::IfcFlowSegment.spec_name() == "IFCFLOWSEGMENT"@);
}

proof fn lemma_roundtrip_ifcflowfitting()
    ensures
        lookup_upper(IfcType::IfcFlowFitting.spec_name()) == Some(IfcType::IfcFlowFitting),
{
    lemma_wire_names_distinct();
    assert(IfcType::IfcFlowFitting.spec_name() == "IFCFLOWFITTING"@);
}

proof fn lemma_roundtrip_ifcflowcontroller()
    ensures
        lookup_upper(IfcType::IfcFlowController.spec_name()) == Some(IfcType::IfcFlowController),
{
    lemma_wire_names_distinct();
    assert(IfcType::IfcFlowController.spec_name() == "IFCFLOWCONTROLLER"@);
}

proof fn lemma_roundtrip_ifcflowmovingdevice()
    ensures
        lookup_upper(IfcType::IfcFlowMovingDevice.spec_name()) == Some(IfcType::IfcFlowMovingDevice),
{
    lemma_wire_names_distinct();
    assert(IfcType::IfcFlowMovingDevice.spec_name() == "IFCFLOWMOVINGDEVICE"@);
}

proof fn lemma_roundtrip_ifcflowstoragedevice()
    ensures
        lookup_upper(IfcType::IfcFlowStorageDevice.spec_name()) == Some(IfcType::IfcFlowStorageDevice),
{
    lemma_wire_names_distinct();
    assert(IfcType::IfcFlowStorageDevice.spec_name() == "IFCFLOWSTORAGEDEVICE"@);
}

proof fn lemma_roundtrip_ifcflowtreatmentdevice()
    ensures
        lookup_upper(IfcType::IfcFlowTreatmentDevice.spec_name()) == Some(IfcType::IfcFlowTreatmentDevice),
{
    lemma_wire_names_distinct();
    assert(IfcType::IfcFlowTreatmentDevice.spec_name() == "IFCFLOWTREATMENTDEVICE"@);
}

proof fn lemma_roundtrip_ifcenergyconversiondevice()
    ensures
        lookup_upper(IfcType::IfcEnergyConversionDevice.spec_name()) == Some(IfcType::IfcEnergyConversionDevice),
{
    lemma_wire_names_distinct();
    assert(IfcType::IfcEnergyConversionDevice.spec_name() == "IFCENERGYCONVERSIONDEVICE"@);
}

proof fn lemma_roundtrip_ifcdistributioncontrolelement()
    ensures
        lookup_upper(IfcType::IfcDistributionControlElement.spec_name()) == Some(IfcType::IfcDistributionControlElement),
{
    lemma_wire_names_distinct();
    assert(IfcType::IfcDistributionControlElement.spec_name() == "IFCDISTRIBUTIONCONTROLELEMENT"@);
}

proof fn lemma_roundtrip_ifccablesegment()
    ensures
        lookup_upper(IfcType::IfcCableSegment.spec_name()) == Some(IfcType::IfcCableSegment),
{
    lemma_wire_names_distinct();
    assert(IfcType::IfcCableSegment.spec_name() == "IFCCABLESEGMENT"@);
}

proof fn lemma_roundtrip_ifccablecarriersegment()
    ensures
        lookup_upper(IfcType::IfcCableCarrierSegment.spec_name()) == Some(IfcType::IfcCableCarrierSegment),
{
    lemma_wire_names_distinct();
    assert(IfcType::IfcCableCarrierSegment.spec_name() == "IFCCABLECARRIERSEGMENT"@);
}

proof fn lemma_roundtrip_ifccablecarrierfitting()
    ensures
        lookup_upper(IfcType::IfcCableCarrierFitting.spec_name()) == Some(IfcType::IfcCableCarrierFitting),
{
    lemma_wire_names_distinct();
    assert(IfcType::IfcCableCarrierFitting.spec_name() == "IFCCABLECARRIERFITTING"@);
}

proof fn lemma_roundtrip_ifcpipesegment()
    ensures
        lookup_upper(IfcType::IfcPipeSegment.spec_name()) == Some(IfcType::IfcPipeSegment),
{
    lemma_wire_names_distinct();
    assert(IfcType::IfcPipeSegment.spec_name() == "IFCPIPESEGMENT"@);
}

proof fn lemma_roundtrip_ifcpipefitting()
    ensures
        lookup_upper(IfcType::IfcPipeFitting.spec_name()) == Some(IfcType::IfcPipeFitting),
{
    lemma_wire_names_distinct();
    assert(IfcType::IfcPipeFitting.spec_name() == "IFCPIPEFITTING"@);
}

proof fn lemma_roundtrip_ifcspaceheater()
    ensures
        lookup_upper(IfcType::IfcSpaceHeater.spec_name()) == Some(IfcType::IfcSpaceHeater),
{
    lemma_wire_names_distinct();
    assert(IfcType::IfcSpaceHeater.spec_name() == "IFCSPACEHEATER"@);
}

proof fn lemma_roundtrip_ifcairterminal()
    ensures
        lookup_upper(IfcType::IfcAirTerminal.spec_name()) == Some(IfcType::IfcAirTerminal),
{
    lemma_wire_names_distinct();
    assert(IfcType::IfcAirTerminal.spec_name() == "IFCAIRTERMINAL"@);
}

proof fn lemma_roundtrip_ifcfurnishingelement()
    ensures
        lookup_upper(IfcType::IfcFurnishingElement.spec_name()) == Some(IfcType::IfcFurnishingElement),
{
    lemma_wire_names_distinct();
    assert(IfcType::IfcFurnishingElement.spec_name() == "IFCFURNISHINGELEMENT"@);
}

proof fn lemma_roundtrip_ifcfurniture()
    ensures
        lookup_upper(IfcType::IfcFurniture.spec_name()) == Some(IfcType::IfcFurniture),
{
    lemma_wire_names_distinct();
    assert(IfcType::IfcFurniture.spec_name() == "IFCFURNITURE"@);
}

proof fn lemma_roundtrip_ifcsystemfurnitureelement()
    ensures
        lookup_upper(IfcType::IfcSystemFurnitureElement.spec_name()) == Some(IfcType::IfcSystemFurnitureElement),
{
    lemma_wire_names_distinct();
    assert(IfcType::IfcSystemFurnitureElement.spec_name() == "IFCSYSTEMFURNITUREELEMENT"@);
}

proof fn lemma_roundtrip_ifcopeningelement()
    ensures
        lookup_upper(IfcType::IfcOpeningElement.spec_name()) == Some(IfcType::IfcOpeningElement),
{
    lemma_wire_names_distinct();
    assert(IfcType::IfcOpeningElement.spec_name() == "IFCOPENINGELEMENT"@);
}

proof fn lemma_roundtrip_ifcopeningstandardcase()
    ensures
        lookup_upper(IfcType::IfcOpeningStandardCase.spec_name()) == Some(IfcType::IfcOpeningStandardCase),
{
    lemma_wire_names_distinct();
    assert(IfcType::IfcOpeningStandardCase.spec_name() == "IFCOPENINGSTANDARDCASE"@);
}

proof fn lemma_roundtrip_ifcvoidingfeature()
    ensures
        lookup_upper(IfcType::IfcVoidingFeature.spec_name()) == Some(IfcType::IfcVoidingFeature),
{
    lemma_wire_names_distinct();
    assert(IfcType::IfcVoidingFeature.spec_name() == "IFCVOIDINGFEATURE"@);
}

proof fn lemma_roundtrip_ifcprojectionelement()
    ensures
        lookup_upper(IfcType::IfcProjectionElement.spec_name()) == Some(IfcType::IfcProjectionElement),
{
    lemma_wire_names_distinct();
    assert(IfcType::IfcProjectionElement.spec_name() == "IFCPROJECTIONELEMENT"@);
}

proof fn lemma_roundtrip_ifcextrudedareasolid()
    ensures
        lookup_upper(IfcType::IfcExtrudedAreaSolid.spec_name()) == Some(IfcType::IfcExtrudedAreaSolid),
{
    lemma_wire_names_distinct();
    assert(IfcType::IfcExtrudedAreaSolid.spec_name() == "IFCEXTRUDEDAREASOLID"@);
}

proof fn lemma_roundtrip_ifcextrudedareasolidtapered()
    ensures
        lookup_upper(IfcType::IfcExtrudedAreaSolidTapered.spec_name()) == Some(IfcType::IfcExtrudedAreaSolidTapered),
{
    lemma_wire_names_distinct();
    assert(IfcType::IfcExtrudedAreaSolidTapered.spec_name() == "IFCEXTRUDEDAREASOLIDTAPERED"@);
}

proof fn lemma_roundtrip_ifcrevolvedareasolid()
    ensures
        lookup_upper(IfcType::IfcRevolvedAreaSolid.spec_name()) == Some(IfcType::IfcRevolvedAreaSolid),
{
    lemma_wire_names_distinct();
    assert(IfcType::IfcRevolvedAreaSolid.spec_name() == "IFCREVOLVEDAREASOLID"@);
}

proof fn lemma_roundtrip_ifcrevolvedareasolidtapered()
    ensures
        lookup_upper(IfcType::IfcRevolvedAreaSolidTapered.spec_name()) == Some(IfcType::IfcRevolvedAreaSolidTapered),
{
    lemma_wire_names_distinct();
    assert(IfcType::IfcRevolvedAreaSolidTapered.spec_name() == "IFCREVOLVEDAREASOLIDTAPERED"@);
}

proof fn lemma_roundtrip_ifcsweptdisksolid()
    ensures
        lookup_upper(IfcType::IfcSweptDiskSolid.spec_name()) == Some(IfcType::IfcSweptDiskSolid),
{
    lemma_wire_names_distinct();
    assert(IfcType::IfcSweptDiskSolid.spec_name() == "IFCSWEPTDISKSOLID"@);
}

proof fn lemma_roundtrip_ifcsweptdisksolidpolygonal()
    ensures
        lookup_upper(IfcType::IfcSweptDiskSolidPolygonal.spec_name()) == Some(IfcType::IfcSweptDiskSolidPolygonal),
{
    lemma_wire_names_distinct();
    assert(IfcType::IfcSweptDiskSolidPolygonal.spec_name() == "IFCSWEPTDISKSOLIDPOLYGONAL"@);
}

proof fn lemma_roundtrip_ifcsurfacecurvesweptareasolid()
    ensures
        lookup_upper(IfcType::IfcSurfaceCurveSweptAreaSolid.spec_name()) == Some(IfcType::IfcSurfaceCurveSweptAreaSolid),
{
    lemma_wire_names_distinct();
    assert(IfcType::IfcSurfaceCurveSweptAreaSolid.spec_name() == "IFCSURFACECURVESWEPTAREASOLID"@);
}

proof fn lemma_roundtrip_ifcfixedreferencesweptareasolid()
    ensures
        lookup_upper(IfcType::IfcFixedReferenceSweptAreaSolid.spec_name()) == Some(IfcType::IfcFixedReferenceSweptAreaSolid),
{
    lemma_wire_names_distinct();
    assert(IfcType::IfcFixedReferenceSweptAreaSolid.spec_name() == "IFCFIXEDREFERENCESWEPTAREASOLID"@);
}

proof fn lemma_roundtrip_ifcfacetedbrep()
    ensures
        lookup_upper(IfcType::IfcFacetedBrep.spec_name()) == Some(IfcType::IfcFacetedBrep),
{
    lemma_wire_names_distinct();
    assert(IfcType::IfcFacetedBrep.spec_name() == "IFCFACETEDBREP"@);
}

proof fn lemma_roundtrip_ifcfacetedbrepwithvoids()
    ensures
        lookup_upper(IfcType::IfcFacetedBrepWithVoids.spec_name()) == Some(IfcType::IfcFacetedBrepWithVoids),
{
    lemma_wire_names_distinct();
    assert(IfcType::IfcFacetedBrepWithVoids.spec_name() == "IFCFACETEDBREPWITHVOIDS"@);
}

proof fn lemma_roundtrip_ifcadvancedbrep()
    ensures
        lookup_upper(IfcType::IfcAdvancedBrep.spec_name()) == Some(IfcType::IfcAdvancedBrep),
{
    lemma_wire_names_distinct();
    assert(IfcType::IfcAdvancedBrep.spec_name() == "IFCADVANCEDBREP"@);
}

proof fn lemma_roundtrip_ifcadvancedbrepwithvoids()
    ensures
        lookup_upper(IfcType::IfcAdvancedBrepWithVoids.spec_name()) == Some(IfcType::IfcAdvancedBrepWithVoids),
{
    lemma_wire_names_distinct();
    assert(IfcType::IfcAdvancedBrepWithVoids.spec_name() == "IFCADVANCEDBREPWITHVOIDS"@);
}

proof fn lemma_roundtrip_ifctriangulatedfaceset()
    ensures
        lookup_upper(IfcType::IfcTriangulatedFaceSet.spec_name()) == Some(IfcType::IfcTriangulatedFaceSet),
{
    lemma_wire_names_distinct();
    assert(IfcType::IfcTriangulatedFaceSet.spec_name() == "IFCTRIANGULATEDFACESET"@);
}

proof fn lemma_roundtrip_ifcpolygonalfaceset()
    ensures
        lookup_upper(IfcType::IfcPolygonalFaceSet.spec_name()) == Some(IfcType::IfcPolygonalFaceSet),
{
    lemma_wire_names_distinct();
    assert(IfcType::IfcPolygonalFaceSet.spec_name() == "IFCPOLYGONALFACESET"@);
}

proof fn lemma_roundtrip_ifctessellatedfaceset()
    ensures
        lookup_upper(IfcType::IfcTessellatedFaceSet.spec_name()) == Some(IfcType::IfcTessellatedFaceSet),
{
    lemma_wire_names_distinct();
    assert(IfcType::IfcTessellatedFaceSet.spec_name() == "IFCTESSELLATEDFACESET"@);
}

proof fn lemma_roundtrip_ifcbooleanresult()
    ensures
        lookup_upper(IfcType::IfcBooleanResult.spec_name()) == Some(IfcType::IfcBooleanResult),
{
    lemma_wire_names_distinct();
    assert(IfcType::IfcBooleanResult.spec_name() == "IFCBOOLEANRESULT"@);
}

proof fn lemma_roundtrip_ifcbooleanclippingresult()
    ensures
        lookup_upper(IfcType::IfcBooleanClippingResult.spec_name()) == Some(IfcType::IfcBooleanClippingResult),
{
    lemma_wire_names_distinct();
    assert(IfcType::IfcBooleanClippingResult.spec_name() == "IFCBOOLEANCLIPPINGRESULT"@);
}

proof fn lemma_roundtrip_ifcmappeditem()
    ensures
        lookup_upper(IfcType::IfcMappedItem.spec_name()) == Some(IfcType::IfcMappedItem),
{
    lemma_wire_names_distinct();
    assert(IfcType::IfcMappedItem.spec_name() == "IFCMAPPEDITEM"@);
}

proof fn lemma_roundtrip_ifcrepresentationmap()
    ensures
        lookup_upper(IfcType::IfcRepresentationMap.spec_name()) == Some(IfcType::IfcRepresentationMap),
{
    lemma_wire_names_distinct();
    assert(IfcType::IfcRepresentationMap.spec_name() == "IFCREPRESENTATIONMAP"@);
}

proof fn lemma_roundtrip_ifcblock()
    ensures
        lookup_upper(IfcType::IfcBlock.spec_name()) == Some(IfcType::IfcBlock),
{
    lemma_wire_names_distinct();
    assert(IfcType::IfcBlock.spec_name() == "IFCBLOCK"@);
}

proof fn lemma_roundtrip_ifcrectangularpyramid()
    ensures
        lookup_upper(IfcType::IfcRectangularPyramid.spec_name()) == Some(IfcType::IfcRectangularPyramid),
{
    lemma_wire_names_distinct();
    assert(IfcType::IfcRectangularPyramid.spec_name() == "IFCRECTANGULARPYRAMID"@);
}

proof fn lemma_roundtrip_ifcrightcircularcone()
    ensures
        lookup_upper(IfcType::IfcRightCircularCone.spec_name()) == Some(IfcType::IfcRightCircularCone),
{
    lemma_wire_names_distinct();
    assert(IfcType::IfcRightCircularCone.spec_name() == "IFCRIGHTCIRCULARCONE"@);
}

proof fn lemma_roundtrip_ifcrightcircularcylinder()
    ensures
        lookup_upper(IfcType::IfcRightCircularCylinder.spec_name()) == Some(IfcType::IfcRightCircularCylinder),
{
    lemma_wire_names_distinct();
    assert(IfcType::IfcRightCircularCylinder.spec_name() == "IFCRIGHTCIRCULARCYLINDER"@);
}

proof fn lemma_roundtrip_ifcsphere()
    ensures
        lookup_upper(IfcType::IfcSphere.spec_name()) == Some(IfcType::IfcSphere),
{
    lemma_wire_names_distinct();
    assert(IfcType::IfcSphere.spec_name() == "IFCSPHERE"@);
}

proof fn lemma_roundtrip_ifchalfspacesolid()
    ensures
        lookup_upper(IfcType::IfcHalfSpaceSolid.spec_name()) == Some(IfcType::IfcHalfSpaceSolid),
{
    lemma_wire_names_distinct();
    assert(IfcType::IfcHalfSpaceSolid.spec_name() == "IFCHALFSPACESOLID"@);
}

proof fn lemma_roundtrip_ifcpolygonalboundedhalfspace()
    ensures
        lookup_upper(IfcType::IfcPolygonalBoundedHalfSpace.spec_name()) == Some(IfcType::IfcPolygonalBoundedHalfSpace),
{
    lemma_wire_names_distinct();
    assert(IfcType::IfcPolygonalBoundedHalfSpace.spec_name() == "IFCPOLYGONALBOUNDEDHALFSPACE"@);
}

proof fn lemma_roundtrip_ifcboxedhalfspace()
    ensures
        lookup_upper(IfcType::IfcBoxedHalfSpace.spec_name()) == Some(IfcType::IfcBoxedHalfSpace),
{
    lemma_wire_names_distinct();
    assert(IfcType::IfcBoxedHalfSpace.spec_name() == "IFCBOXEDHALFSPACE"@);
}

proof fn lemma_roundtrip_ifcarbitraryclosedprofiledef()
    ensures
        lookup_upper(IfcType::IfcArbitraryClosedProfileDef.spec_name()) == Some(IfcType::IfcArbitraryClosedProfileDef),
{
    lemma_wire_names_distinct();
    assert(IfcType::IfcArbitraryClosedProfileDef.spec_name() == "IFCARBITRARYCLOSEDPROFILEDEF"@);
}

proof fn lemma_roundtrip_ifcarbitraryprofiledefwithvoids()
    ensures
        lookup_upper(IfcType::IfcArbitraryProfileDefWithVoids.spec_name()) == Some(IfcType::IfcArbitraryProfileDefWithVoids),
{
    lemma_wire_names_distinct();
    assert(IfcType::IfcArbitraryProfileDefWithVoids.spec_name() == "IFCARBITRARYPROFILEDEFWITHVOIDS"@);
}

proof fn lemma_roundtrip_ifcrectangleprofiledef()
    ensures
        lookup_upper(IfcType::IfcRectangleProfileDef.spec_name()) == Some(IfcType::IfcRectangleProfileDef),
{
    lemma_wire_names_distinct();
    assert(IfcType::IfcRectangleProfileDef.spec_name() == "IFCRECTANGLEPROFILEDEF"@);
}

proof fn lemma_roundtrip_ifcrectanglehollowprofiledef()
    ensures
        lookup_upper(IfcType::IfcRectangleHollowProfileDef.spec_name()) == Some(IfcType::IfcRectangleHollowProfileDef),
{
    lemma_wire_names_distinct();
    assert(IfcType::IfcRectangleHollowProfileDef.spec_name() == "IFCRECTANGLEHOLLOWPROFILEDEF"@);
}

proof fn lemma_roundtrip_ifccircleprofiledef()
    ensures
        lookup_upper(IfcType::IfcCircleProfileDef.spec_name()) == Some(IfcType::IfcCircleProfileDef),
{
    lemma_wire_names_distinct();
    assert(IfcType::IfcCircleProfileDef.spec_name() == "IFCCIRCLEPROFILEDEF"@);
}

proof fn lemma_roundtrip_ifccirclehollowprofiledef()
    ensures
        lookup_upper(IfcType::IfcCircleHollowProfileDef.spec_name()) == Some(IfcType::IfcCircleHollowProfileDef),
{
    lemma_wire_names_distinct();
    assert(IfcType::IfcCircleHollowProfileDef.spec_name() == "IFCCIRCLEHOLLOWPROFILEDEF"@);
}

proof fn lemma_roundtrip_ifcellipseprofiledef()
    ensures
        lookup_upper(IfcType::IfcEllipseProfileDef.spec_name()) == Some(IfcType::IfcEllipseProfileDef),
{
    lemma_wire_names_distinct();
    assert(IfcType::IfcEllipseProfileDef.spec_name() == "IFCELLIPSEPROFILEDEF"@);
}

proof fn lemma_roundtrip_ifcishapeprofiledef()
    ensures
        lookup_upper(IfcType::IfcIShapeProfileDef.spec_name()) == Some(IfcType::IfcIShapeProfileDef),
{
    lemma_wire_names_distinct();
    assert(IfcType::IfcIShapeProfileDef.spec_name() == "IFCISHAPEPROFILEDEF"@);
}

proof fn lemma_roundtrip_ifclshapeprofiledef()
    ensures
        lookup_upper(IfcType::IfcLShapeProfileDef.spec_name()) == Some(IfcType::IfcLShapeProfileDef),
{
    lemma_wire_names_distinct();
    assert(IfcType::IfcLShapeProfileDef.spec_name() == "IFCLSHAPEPROFILEDEF"@);
}

proof fn lemma_roundtrip_ifctshapeprofiledef()
    ensures
        lookup_upper(IfcType::IfcTShapeProfileDef.spec_name()) == Some(IfcType::IfcTShapeProfileDef),
{
    lemma_wire_names_distinct();
    assert(IfcType::IfcTShapeProfileDef.spec_name() == "IFCTSHAPEPROFILEDEF"@);
}

proof fn lemma_roundtrip_ifcushapeprofiledef()
    ensures
        lookup_upper(IfcType::IfcUShapeProfileDef.spec_name()) == Some(IfcType::IfcUShapeProfileDef),
{
    lemma_wire_names_distinct();
    assert(IfcType::IfcUShapeProfileDef.spec_name() == "IFCUSHAPEPROFILEDEF"@);
}

proof fn lemma_roundtrip_ifccshapeprofiledef()
    ensures
        lookup_upper(IfcType::IfcCShapeProfileDef.spec_name()) == Some(IfcType::IfcCShapeProfileDef),
{
    lemma_wire_names_distinct();
    assert(IfcType::IfcCShapeProfileDef.spec_name() == "IFCCSHAPEPROFILEDEF"@);
}

proof fn lemma_roundtrip_ifczshapeprofiledef()
    ensures
        lookup_upper(IfcType::IfcZShapeProfileDef.spec_name()) == Some(IfcType::IfcZShapeProfileDef),
{
    lemma_wire_names_distinct();
    assert(IfcType::IfcZShapeProfileDef.spec_name() == "IFCZSHAPEPROFILEDEF"@);
}

proof fn lemma_roundtrip_ifcasymmetricishapeprofiledef()
    ensures
        lookup_upper(IfcType::IfcAsymmetricIShapeProfileDef.spec_name()) == Some(IfcType::IfcAsymmetricIShapeProfileDef),
{
    lemma_wire_names_distinct();
    assert(IfcType::IfcAsymmetricIShapeProfileDef.spec_name() == "IFCASYMMETRICISHAPEPROFILEDEF"@);
}

proof fn lemma_roundtrip_ifctrapeziumprofiledef()
    ensures
        lookup_upper(IfcType::IfcTrapeziumProfileDef.spec_name()) == Some(IfcType::IfcTrapeziumProfileDef),
{
    lemma_wire_names_distinct();
    assert(IfcType::IfcTrapeziumProfileDef.spec_name() == "IFCTRAPEZIUMPROFILEDEF"@);
}

proof fn lemma_roundtrip_ifccompositeprofiledef()
    ensures
        lookup_upper(IfcType::IfcCompositeProfileDef.spec_name()) == Some(IfcType::IfcCompositeProfileDef),
{
    lemma_wire_names_distinct();
    assert(IfcType::IfcCompositeProfileDef.spec_name() == "IFCCOMPOSITEPROFILEDEF"@);
}

proof fn lemma_roundtrip_ifcderivedprofiledef()
    ensures
        lookup_upper(IfcType::IfcDerivedProfileDef.spec_name()) == Some(IfcType::IfcDerivedProfileDef),
{
    lemma_wire_names_distinct();
    assert(IfcType::IfcDerivedProfileDef.spec_name() == "IFCDERIVEDPROFILEDEF"@);
}

proof fn lemma_roundtrip_ifccenterlineprofiledef()
    ensures
        lookup_upper(IfcType::IfcCenterLineProfileDef.spec_name()) == Some(IfcType::IfcCenterLineProfileDef),
{
    lemma_wire_names_distinct();
    assert(IfcType::IfcCenterLineProfileDef.spec_name() == "IFCCENTERLINEPROFILEDEF"@);
}

proof fn lemma_roundtrip_ifcpolyline()
    ensures
        lookup_upper(IfcType::IfcPolyline.spec_name()) == Some(IfcType::IfcPolyline),
{
    lemma_wire_names_distinct();
    assert(IfcType::IfcPolyline.spec_name() == "IFCPOLYLINE"@);
}

proof fn lemma_roundtrip_ifccompositecurve()
    ensures
        lookup_upper(IfcType::IfcCompositeCurve.spec_name()) == Some(IfcType::IfcCompositeCurve),
{
    lemma_wire_names_distinct();
    assert(IfcType::IfcCompositeCurve.spec_name() == "IFCCOMPOSITECURVE"@);
}

proof fn lemma_roundtrip_ifccompositecurvesegment()
    ensures
        lookup_upper(IfcType::IfcCompositeCurveSegment.spec_name()) == Some(IfcType::IfcCompositeCurveSegment),
{
    lemma_wire_names_distinct();
    assert(IfcType::IfcCompositeCurveSegment.spec_name() == "IFCCOMPOSITECURVESEGMENT"@);
}

proof fn lemma_roundtrip_ifctrimmedcurve()
    ensures
        lookup_upper(IfcType::IfcTrimmedCurve.spec_name()) == Some(IfcType::IfcTrimmedCurve),
{
    lemma_wire_names_distinct();
    assert(IfcType::IfcTrimmedCurve.spec_name() == "IFCTRIMMEDCURVE"@);
}

proof fn lemma_roundtrip_ifccircle()
    ensures
        lookup_upper(IfcType::IfcCircle.spec_name()) == Some(IfcType::IfcCircle),
{
    lemma_wire_names_distinct();
    assert(IfcType::IfcCircle.spec_name() == "IFCCIRCLE"@);
}

proof fn lemma_roundtrip_ifcellipse()
    ensures
        lookup_upper(IfcType::IfcEllipse.spec_name()) == Some(IfcType::IfcEllipse),
{
    lemma_wire_names_distinct();
    assert(IfcType::IfcEllipse.spec_name() == "IFCELLIPSE"@);
}

proof fn lemma_roundtrip_ifcline()
    ensures
        lookup_upper(IfcType::IfcLine.spec_name()) == Some(IfcType::IfcLine),
{
    lemma_wire_names_distinct();
    assert(IfcType::IfcLine.spec_name() == "IFCLINE"@);
}

proof fn lemma_roundtrip_ifcbsplinecurve()
    ensures
        lookup_upper(IfcType::IfcBSplineCurve.spec_name()) == Some(IfcType::IfcBSplineCurve),
{
    lemma_wire_names_distinct();
    assert(IfcType::IfcBSplineCurve.spec_name() == "IFCBSPLINECURVE"@);
}

proof fn lemma_roundtrip_ifcbsplinecurvewithknots()
    ensures
        lookup_upper(IfcType::IfcBSplineCurveWithKnots.spec_name()) == Some(IfcType::IfcBSplineCurveWithKnots),
{
    lemma_wire_names_distinct();
    assert(IfcType::IfcBSplineCurveWithKnots.spec_name() == "IFCBSPLINECURVEWITHKNOTS"@);
}

proof fn lemma_roundtrip_ifcrationalbsplinecurvewithknots()
    ensures
        lookup_upper(IfcType::IfcRationalBSplineCurveWithKnots.spec_name()) == Some(IfcType::IfcRationalBSplineCurveWithKnots),
{
    lemma_wire_names_distinct();
    assert(IfcType::IfcRationalBSplineCurveWithKnots.spec_name() == "IFCRATIONALBSPLINECURVEWITHKNOTS"@);
}

proof fn lemma_roundtrip_ifcindexedpolycurve()
    ensures
        lookup_upper(IfcType::IfcIndexedPolyCurve.spec_name()) == Some(IfcType::IfcIndexedPolyCurve),
{
    lemma_wire_names_distinct();
    assert(IfcType::IfcIndexedPolyCurve.spec_name() == "IFCINDEXEDPOLYCURVE"@);
}

proof fn lemma_roundtrip_ifcplane()
    ensures
        lookup_upper(IfcType::IfcPlane.spec_name()) == Some(IfcType::IfcPlane),
{
    lemma_wire_names_distinct();
    assert(IfcType::IfcPlane.spec_name() == "IFCPLANE"@);
}

proof fn lemma_roundtrip_ifccurveboundedplane()
    ensures
        lookup_upper(IfcType::IfcCurveBoundedPlane.spec_name()) == Some(IfcType::IfcCurveBoundedPlane),
{
    lemma_wire_names_distinct();
    assert(IfcType::IfcCurveBoundedPlane.spec_name() == "IFCCURVEBOUNDEDPLANE"@);
}

proof fn lemma_roundtrip_ifccylindricalsurface()
    ensures
        lookup_upper(IfcType::IfcCylindricalSurface.spec_name()) == Some(IfcType::IfcCylindricalSurface),
{
    lemma_wire_names_distinct();
    assert(IfcType::IfcCylindricalSurface.spec_name() == "IFCCYLINDRICALSURFACE"@);
}

proof fn lemma_roundtrip_ifcbsplinesurface()
    ensures
        lookup_upper(IfcType::IfcBSplineSurface.spec_name()) == Some(IfcType::IfcBSplineSurface),
{
    lemma_wire_names_distinct();
    assert(IfcType::IfcBSplineSurface.spec_name() == "IFCBSPLINESURFACE"@);
}

proof fn lemma_roundtrip_ifcbsplinesurfacewithknots()
    ensures
        lookup_upper(IfcType::IfcBSplineSurfaceWithKnots.spec_name()) == Some(IfcType::IfcBSplineSurfaceWithKnots),
{
    lemma_wire_names_distinct();
    assert(IfcType::IfcBSplineSurfaceWithKnots.spec_name() == "IFCBSPLINESURFACEWITHKNOTS"@);
}

proof fn lemma_roundtrip_ifcrationalbsplinesurfacewithknots()
    ensures
        lookup_upper(IfcType::IfcRationalBSplineSurfaceWithKnots.spec_name()) == Some(IfcType::IfcRationalBSplineSurfaceWithKnots),
{
    lemma_wire_names_distinct();
    assert(IfcType::IfcRationalBSplineSurfaceWithKnots.spec_name() == "IFCRATIONALBSPLINESURFACEWITHKNOTS"@);
}

proof fn lemma_roundtrip_ifccartesianpoint()
    ensures
        lookup_upper(IfcType::IfcCartesianPoint.spec_name()) == Some(IfcType::IfcCartesianPoint),
{
    lemma_wire_names_distinct();
    assert(IfcType::IfcCartesianPoint.spec_name() == "IFCCARTESIANPOINT"@);
}

proof fn lemma_roundtrip_ifcdirection()
    ensures
        lookup_upper(IfcType::IfcDirection.spec_name()) == Some(IfcType::IfcDirection),
{
    lemma_wire_names_distinct();
    assert(IfcType::IfcDirection.spec_name() == "IFCDIRECTION"@);
}

proof fn lemma_roundtrip_ifcvector()
    ensures
        lookup_upper(IfcType::IfcVector.spec_name()) == Some(IfcType::IfcVector),
{
    lemma_wire_names_distinct();
    assert(IfcType::IfcVector.spec_name() == "IFCVECTOR"@);
}

proof fn lemma_roundtrip_ifccartesianpointlist2d()
    ensures
        lookup_upper(IfcType::IfcCartesianPointList2D.spec_name()) == Some(IfcType::IfcCartesianPointList2D),
{
    lemma_wire_names_distinct();
    assert(IfcType::IfcCartesianPointList2D.spec_name() == "IFCCARTESIANPOINTLIST2D"@);
}

proof fn lemma_roundtrip_ifccartesianpointlist3d()
    ensures
        lookup_upper(IfcType::IfcCartesianPointList3D.spec_name()) == Some(IfcType::IfcCartesianPointList3D),
{
    lemma_wire_names_distinct();
    assert(IfcType::IfcCartesianPointList3D.spec_name() == "IFCCARTESIANPOINTLIST3D"@);
}

proof fn lemma_roundtrip_ifcaxis2placement2d()
    ensures
        lookup_upper(IfcType::IfcAxis2Placement2D.spec_name()) == Some(IfcType::IfcAxis2Placement2D),
{
    lemma_wire_names_distinct();
    assert(IfcType::IfcAxis2Placement2D.spec_name() == "IFCAXIS2PLACEMENT2D"@);
}

proof fn lemma_roundtrip_ifcaxis2placement3d()
    ensures
        lookup_upper(IfcType::IfcAxis2Placement3D.spec_name()) == Some(IfcType::IfcAxis2Placement3D),
{
    lemma_wire_names_distinct();
    assert(IfcType::IfcAxis2Placement3D.spec_name() == "IFCAXIS2PLACEMENT3D"@);
}

proof fn lemma_roundtrip_ifclocalplacement()
    ensures
        lookup_upper(IfcType::IfcLocalPlacement.spec_name()) == Some(IfcType::IfcLocalPlacement),
{
    lemma_wire_names_distinct();
    assert(IfcType::IfcLocalPlacement.spec_name() == "IFCLOCALPLACEMENT"@);
}

proof fn lemma_roundtrip_ifccartesiantransformationoperator3d()
    ensures
        lookup_upper(IfcType::IfcCartesianTransformationOperator3D.spec_name()) == Some(IfcType::IfcCartesianTransformationOperator3D),
{
    lemma_wire_names_distinct();
    assert(IfcType::IfcCartesianTransformationOperator3D.spec_name() == "IFCCARTESIANTRANSFORMATIONOPERATOR3D"@);
}

proof fn lemma_roundtrip_ifcshaperepresentation()
    ensures
        lookup_upper(IfcType::IfcShapeRepresentation.spec_name()) == Some(IfcType::IfcShapeRepresentation),
{
    lemma_wire_names_distinct();
    assert(IfcType::IfcShapeRepresentation.spec_name() == "IFCSHAPEREPRESENTATION"@);
}

proof fn lemma_roundtrip_ifcproductdefinitionshape()
    ensures
        lookup_upper(IfcType::IfcProductDefinitionShape.spec_name()) == Some(IfcType::IfcProductDefinitionShape),
{
    lemma_wire_names_distinct();
    assert(IfcType::IfcProductDefinitionShape.spec_name() == "IFCPRODUCTDEFINITIONSHAPE"@);
}

proof fn lemma_roundtrip_ifcgeometricrepresentationcontext()
    ensures
        lookup_upper(IfcType::IfcGeometricRepresentationContext.spec_name()) == Some(IfcType::IfcGeometricRepresentationContext),
{
    lemma_wire_names_distinct();
    assert(IfcType::IfcGeometricRepresentationContext.spec_name() == "IFCGEOMETRICREPRESENTATIONCONTEXT"@);
}

proof fn lemma_roundtrip_ifcgeometricrepresentationsubcontext()
    ensures
        lookup_upper(IfcType::IfcGeometricRepresentationSubContext.spec_name()) == Some(IfcType::IfcGeometricRepresentationSubContext),
{
    lemma_wire_names_distinct();
    assert(IfcType::IfcGeometricRepresentationSubContext.spec_name() == "IFCGEOMETRICREPRESENTATIONSUBCONTEXT"@);
}

proof fn lemma_roundtrip_ifcclosedshell()
    ensures
        lookup_upper(IfcType::IfcClosedShell.spec_name()) == Some(IfcType::IfcClosedShell),
{
    lemma_wire_names_distinct();
    assert(IfcType::IfcClosedShell.spec_name() == "IFCCLOSEDSHELL"@);
}

proof fn lemma_roundtrip_ifcopenshell()
    ensures
        lookup_upper(IfcType::IfcOpenShell.spec_name()) == Some(IfcType::IfcOpenShell),
{
    lemma_wire_names_distinct();
    assert(IfcType::IfcOpenShell.spec_name() == "IFCOPENSHELL"@);
}

proof fn lemma_roundtrip_ifcface()
    ensures
        lookup_upper(IfcType::IfcFace.spec_name()) == Some(IfcType::IfcFace),
{
    lemma_wire_names_distinct();
    assert(IfcType::IfcFace.spec_name() == "IFCFACE"@);
}

proof fn lemma_roundtrip_ifcfacebound()
    ensures
        lookup_upper(IfcType::IfcFaceBound.spec_name()) == Some(IfcType::IfcFaceBound),
{
    lemma_wire_names_distinct();
    assert(IfcType::IfcFaceBound.spec_name() == "IFCFACEBOUND"@);
}

proof fn lemma_roundtrip_ifcfaceouterbound()
    ensures
        lookup_upper(IfcType::IfcFaceOuterBound.spec_name()) == Some(IfcType::IfcFaceOuterBound),
{
    lemma_wire_names_distinct();
    assert(IfcType::IfcFaceOuterBound.spec_name() == "IFCFACEOUTERBOUND"@);
}

proof fn lemma_roundtrip_ifcpolyloop()
    ensures
        lookup_upper(IfcType::IfcPolyLoop.spec_name()) == Some(IfcType::IfcPolyLoop),
{
    lemma_wire_names_distinct();
    assert(IfcType::IfcPolyLoop.spec_name() == "IFCPOLYLOOP"@);
}

proof fn lemma_roundtrip_ifcedgeloop()
    ensures
        lookup_upper(IfcType::IfcEdgeLoop.spec_name()) == Some(IfcType::IfcEdgeLoop),
{
    lemma_wire_names_distinct();
    assert(IfcType::IfcEdgeLoop.spec_name() == "IFCEDGELOOP"@);
}

proof fn lemma_roundtrip_ifcorientededge()
    ensures
        lookup_upper(IfcType::IfcOrientedEdge.spec_name()) == Some(IfcType::IfcOrientedEdge),
{
    lemma_wire_names_distinct();
    assert(IfcType::IfcOrientedEdge.spec_name() == "IFCORIENTEDEDGE"@);
}

proof fn lemma_roundtrip_ifcedgecurve()
    ensures
        lookup_upper(IfcType::IfcEdgeCurve.spec_name()) == Some(IfcType::IfcEdgeCurve),
{
    lemma_wire_names_distinct();
    assert(IfcType::IfcEdgeCurve.spec_name() == "IFCEDGECURVE"@);
}

proof fn lemma_roundtrip_ifcvertexpoint()
    ensures
        lookup_upper(IfcType::IfcVertexPoint.spec_name()) == Some(IfcType::IfcVertexPoint),
{
    lemma_wire_names_distinct();
    assert(IfcType::IfcVertexPoint.spec_name() == "IFCVERTEXPOINT"@);
}

proof fn lemma_roundtrip_ifcconnectedfaceset()
    ensures
        lookup_upper(IfcType::IfcConnectedFaceSet.spec_name()) == Some(IfcType::IfcConnectedFaceSet),
{
    lemma_wire_names_distinct();
    assert(IfcType::IfcConnectedFaceSet.spec_name() == "IFCCONNECTEDFACESET"@);
}

proof fn lemma_roundtrip_ifcrelcontainedinspatialstructure()
    ensures
        lookup_upper(IfcType::IfcRelContainedInSpatialStructure.spec_name()) == Some(IfcType::IfcRelContainedInSpatialStructure),
{
    lemma_wire_names_distinct();
    assert(IfcType::IfcRelContainedInSpatialStructure.spec_name() == "IFCRELCONTAINEDINSPATIALSTRUCTURE"@);
}

proof fn lemma_roundtrip_ifcrelaggregates()
    ensures
        lookup_upper(IfcType::IfcRelAggregates.spec_name()) == Some(IfcType::IfcRelAggregates),
{
    lemma_wire_names_distinct();
    assert(IfcType::IfcRelAggregates.spec_name() == "IFCRELAGGREGATES"@);
}

proof fn lemma_roundtrip_ifcreldefinesbyproperties()
    ensures
        lookup_upper(IfcType::IfcRelDefinesByProperties.spec_name()) == Some(IfcType::IfcRelDefinesByProperties),
{
    lemma_wire_names_distinct();
    assert(IfcType::IfcRelDefinesByProperties.spec_name() == "IFCRELDEFINESBYPROPERTIES"@);
}

proof fn lemma_roundtrip_ifcreldefinesbytype()
    ensures
        lookup_upper(IfcType::IfcRelDefinesByType.spec_name()) == Some(IfcType::IfcRelDefinesByType),
{
    lemma_wire_names_distinct();
    assert(IfcType::IfcRelDefinesByType.spec_name() == "IFCRELDEFINESBYTYPE"@);
}

proof fn lemma_roundtrip_ifcrelassociatesmaterial()
    ensures
        lookup_upper(IfcType::IfcRelAssociatesMaterial.spec_name()) == Some(IfcType::IfcRelAssociatesMaterial),
{
    lemma_wire_names_distinct();
    assert(IfcType::IfcRelAssociatesMaterial.spec_name() == "IFCRELASSOCIATESMATERIAL"@);
}

proof fn lemma_roundtrip_ifcrelvoidselement()
    ensures
        lookup_upper(IfcType::IfcRelVoidsElement.spec_name()) == Some(IfcType::IfcRelVoidsElement),
{
    lemma_wire_names_distinct();
    assert(IfcType::IfcRelVoidsElement.spec_name() == "IFCRELVOIDSELEMENT"@);
}

proof fn lemma_roundtrip_ifcrelfillselement()
    ensures
        lookup_upper(IfcType::IfcRelFillsElement.spec_name()) == Some(IfcType::IfcRelFillsElement),
{
    lemma_wire_names_distinct();
    assert(IfcType::IfcRelFillsElement.spec_name() == "IFCRELFILLSELEMENT"@);
}

proof fn lemma_roundtrip_ifcrelconnectspathelements()
    ensures
        lookup_upper(IfcType::IfcRelConnectsPathElements.spec_name()) == Some(IfcType::IfcRelConnectsPathElements),
{
    lemma_wire_names_distinct();
    assert(IfcType::IfcRelConnectsPathElements.spec_name() == "IFCRELCONNECTSPATHELEMENTS"@);
}

proof fn lemma_roundtrip_ifcrelspaceboundary()
    ensures
        lookup_upper(IfcType::IfcRelSpaceBoundary.spec_name()) == Some(IfcType::IfcRelSpaceBoundary),
{
    lemma_wire_names_distinct();
    assert(IfcType::IfcRelSpaceBoundary.spec_name() == "IFCRELSPACEBOUNDARY"@);
}

proof fn lemma_roundtrip_ifcrelassignstogroup()
    ensures
        lookup_upper(IfcType::IfcRelAssignsToGroup.spec_name()) == Some(IfcType::IfcRelAssignsToGroup),
{
    lemma_wire_names_distinct();
    assert(IfcType::IfcRelAssignsToGroup.spec_name() == "IFCRELASSIGNSTOGROUP"@);
}

proof fn lemma_roundtrip_ifcpropertyset()
    ensures
        lookup_upper(IfcType::IfcPropertySet.spec_name()) == Some(IfcType::IfcPropertySet),
{
    lemma_wire_names_distinct();
    assert(IfcType::IfcPropertySet.spec_name() == "IFCPROPERTYSET"@);
}

proof fn lemma_roundtrip_ifcpropertysinglevalue()
    ensures
        lookup_upper(IfcType::IfcPropertySingleValue.spec_name()) == Some(IfcType::IfcPropertySingleValue),
{
    lemma_wire_names_distinct();
    assert(IfcType::IfcPropertySingleValue.spec_name() == "IFCPROPERTYSINGLEVALUE"@);
}

proof fn lemma_roundtrip_ifcpropertyenumeratedvalue()
    ensures
        lookup_upper(IfcType::IfcPropertyEnumeratedValue.spec_name()) == Some(IfcType::IfcPropertyEnumeratedValue),
{
    lemma_wire_names_distinct();
    assert(IfcType::IfcPropertyEnumeratedValue.spec_name() == "IFCPROPERTYENUMERATEDVALUE"@);
}

proof fn lemma_roundtrip_ifcpropertyboundedvalue()
    ensures
        lookup_upper(IfcType::IfcPropertyBoundedValue.spec_name()) == Some(IfcType::IfcPropertyBoundedValue),
{
    lemma_wire_names_distinct();
    assert(IfcType::IfcPropertyBoundedValue.spec_name() == "IFCPROPERTYBOUNDEDVALUE"@);
}

proof fn lemma_roundtrip_ifcpropertylistvalue()
    ensures
        lookup_upper(IfcType::IfcPropertyListValue.spec_name()) == Some(IfcType::IfcPropertyListValue),
{
    lemma_wire_names_distinct();
    assert(IfcType::IfcPropertyListValue.spec_name() == "IFCPROPERTYLISTVALUE"@);
}

proof fn lemma_roundtrip_ifcpropertytablevalue()
    ensures
        lookup_upper(IfcType::IfcPropertyTableValue.spec_name()) == Some(IfcType::IfcPropertyTableValue),
{
    lemma_wire_names_distinct();
    assert(IfcType::IfcPropertyTableValue.spec_name() == "IFCPROPERTYTABLEVALUE"@);
}

proof fn lemma_roundtrip_ifccomplexproperty()
    ensures
        lookup_upper(IfcType::IfcComplexProperty.spec_name()) == Some(IfcType::IfcComplexProperty),
{
    lemma_wire_names_distinct();
    assert(IfcType::IfcComplexProperty.spec_name() == "IFCCOMPLEXPROPERTY"@);
}

proof fn lemma_roundtrip_ifcelementquantity()
    ensures
        lookup_upper(IfcType::IfcElementQuantity.spec_name()) == Some(IfcType::IfcElementQuantity),
{
    lemma_wire_names_distinct();
    assert(IfcType::IfcElementQuantity.spec_name() == "IFCELEMENTQUANTITY"@);
}

proof fn lemma_roundtrip_ifcquantitylength()
    ensures
        lookup_upper(IfcType::IfcQuantityLength.spec_name()) == Some(IfcType::IfcQuantityLength),
{
    lemma_wire_names_distinct();
    assert(IfcType::IfcQuantityLength.spec_name() == "IFCQUANTITYLENGTH"@);
}

proof fn lemma_roundtrip_ifcquantityarea()
    ensures
        lookup_upper(IfcType::IfcQuantityArea.spec_name()) == Some(IfcType::IfcQuantityArea),
{
    lemma_wire_names_distinct();
    assert(IfcType::IfcQuantityArea.spec_name() == "IFCQUANTITYAREA"@);
}

proof fn lemma_roundtrip_ifcquantityvolume()
    ensures
        lookup_upper(IfcType::IfcQuantityVolume.spec_name()) == Some(IfcType::IfcQuantityVolume),
{
    lemma_wire_names_distinct();
    assert(IfcType::IfcQuantityVolume.spec_name() == "IFCQUANTITYVOLUME"@);
}

proof fn lemma_roundtrip_ifcquantitycount()
    ensures
        lookup_upper(IfcType::IfcQuantityCount.spec_name()) == Some(IfcType::IfcQuantityCount),
{
    lemma_wire_names_distinct();
    assert(IfcType::IfcQuantityCount.spec_name() == "IFCQUANTITYCOUNT"@);
}

proof fn lemma_roundtrip_ifcquantityweight()
    ensures
        lookup_upper(IfcType::IfcQuantityWeight.spec_name()) == Some(IfcType::IfcQuantityWeight),
{
    lemma_wire_names_distinct();
    assert(IfcType::IfcQuantityWeight.spec_name() == "IFCQUANTITYWEIGHT"@);
}

proof fn lemma_roundtrip_ifcquantitytime()
    ensures
        lookup_upper(IfcType::IfcQuantityTime.spec_name()) == Some(IfcType::IfcQuantityTime),
{
    lemma_wire_names_distinct();
    assert(IfcType::IfcQuantityTime.spec_name() == "IFCQUANTITYTIME"@);
}

proof fn lemma_roundtrip_ifcmaterial()
    ensures
        lookup_upper(IfcType::IfcMaterial.spec_name()) == Some(IfcType::IfcMaterial),
{
    lemma_wire_names_distinct();
    assert(IfcType::IfcMaterial.spec_name() == "IFCMATERIAL"@);
}

proof fn lemma_roundtrip_ifcmateriallayer()
    ensures
        lookup_upper(IfcType::IfcMaterialLayer.spec_name()) == Some(IfcType::IfcMaterialLayer),
{
    lemma_wire_names_distinct();
    assert(IfcType::IfcMaterialLayer.spec_name() == "IFCMATERIALLAYER"@);
}

proof fn lemma_roundtrip_ifcmateriallayerset()
    ensures
        lookup_upper(IfcType::IfcMaterialLayerSet.spec_name()) == Some(IfcType::IfcMaterialLayerSet),
{
    lemma_wire_names_distinct();
    assert(IfcType::IfcMaterialLayerSet.spec_name() == "IFCMATERIALLAYERSET"@);
}

proof fn lemma_roundtrip_ifcmateriallayersetusage()
    ensures
        lookup_upper(IfcType::IfcMaterialLayerSetUsage.spec_name()) == Some(IfcType::IfcMaterialLayerSetUsage),
{
    lemma_wire_names_distinct();
    assert(IfcType::IfcMaterialLayerSetUsage.spec_name() == "IFCMATERIALLAYERSETUSAGE"@);
}

proof fn lemma_roundtrip_ifcmateriallist()
    ensures
        lookup_upper(IfcType::IfcMaterialList.spec_name()) == Some(IfcType::IfcMaterialList),
{
    lemma_wire_names_distinct();
    assert(IfcType::IfcMaterialList.spec_name() == "IFCMATERIALLIST"@);
}

proof fn lemma_roundtrip_ifcmaterialconstituentset()
    ensures
        lookup_upper(IfcType::IfcMaterialConstituentSet.spec_name()) == Some(IfcType::IfcMaterialConstituentSet),
{
    lemma_wire_names_distinct();
    assert(IfcType::IfcMaterialConstituentSet.spec_name() == "IFCMATERIALCONSTITUENTSET"@);
}

proof fn lemma_roundtrip_ifcmaterialconstituent()
    ensures
        lookup_upper(IfcType::IfcMaterialConstituent.spec_name()) == Some(IfcType::IfcMaterialConstituent),
{
    lemma_wire_names_distinct();
    assert(IfcType::IfcMaterialConstituent.spec_name() == "IFCMATERIALCONSTITUENT"@);
}

proof fn lemma_roundtrip_ifcmaterialprofile()
    ensures
        lookup_upper(IfcType::IfcMaterialProfile.spec_name()) == Some(IfcType::IfcMaterialProfile),
{
    lemma_wire_names_distinct();
    assert(IfcType::IfcMaterialProfile.spec_name() == "IFCMATERIALPROFILE"@);
}

proof fn lemma_roundtrip_ifcmaterialprofileset()
    ensures
        lookup_upper(IfcType::IfcMaterialProfileSet.spec_name()) == Some(IfcType::IfcMaterialProfileSet),
{
    lemma_wire_names_distinct();
    assert(IfcType::IfcMaterialProfileSet.spec_name() == "IFCMATERIALPROFILESET"@);
}

proof fn lemma_roundtrip_ifcmaterialprofilesetusage()
    ensures
        lookup_upper(IfcType::IfcMaterialProfileSetUsage.spec_name()) == Some(IfcType::IfcMaterialProfileSetUsage),
{
    lemma_wire_names_distinct();
    assert(IfcType::IfcMaterialProfileSetUsage.spec_name() == "IFCMATERIALPROFILESETUSAGE"@);
}

proof fn lemma_roundtrip_ifcstyleditem()
    ensures
        lookup_upper(IfcType::IfcStyledItem.spec_name()) == Some(IfcType::IfcStyledItem),
{
    lemma_wire_names_distinct();
    assert(IfcType::IfcStyledItem.spec_name() == "IFCSTYLEDITEM"@);
}

proof fn lemma_roundtrip_ifcsurfacestyle()
    ensures
        lookup_upper(IfcType::IfcSurfaceStyle.spec_name()) == Some(IfcType::IfcSurfaceStyle),
{
    lemma_wire_names_distinct();
    assert(IfcType::IfcSurfaceStyle.spec_name() == "IFCSURFACESTYLE"@);
}

proof fn lemma_roundtrip_ifcsurfacestylerendering()
    ensures
        lookup_upper(IfcType::IfcSurfaceStyleRendering.spec_name()) == Some(IfcType::IfcSurfaceStyleRendering),
{
    lemma_wire_names_distinct();
    assert(IfcType::IfcSurfaceStyleRendering.spec_name() == "IFCSURFACESTYLERENDERING"@);
}

proof fn lemma_roundtrip_ifccolourrgb()
    ensures
        lookup_upper(IfcType::IfcColourRgb.spec_name()) == Some(IfcType::IfcColourRgb),
{
    lemma_wire_names_distinct();
    assert(IfcType::IfcColourRgb.spec_name() == "IFCCOLOURRGB"@);
}

proof fn lemma_roundtrip_ifcpresentationlayerassignment()
    ensures
        lookup_upper(IfcType::IfcPresentationLayerAssignment.spec_name()) == Some(IfcType::IfcPresentationLayerAssignment),
{
    lemma_wire_names_distinct();
    assert(IfcType::IfcPresentationLayerAssignment.spec_name() == "IFCPRESENTATIONLAYERASSIGNMENT"@);
}

proof fn lemma_roundtrip_ifclightfixture()
    ensures
        lookup_upper(IfcType::IfcLightFixture.spec_name()) == Some(IfcType::IfcLightFixture),
{
    lemma_wire_names_distinct();
    assert(IfcType::IfcLightFixture.spec_name() == "IFCLIGHTFIXTURE"@);
}

proof fn lemma_roundtrip_ifclightfixturetype()
    ensures
        lookup_upper(IfcType::IfcLightFixtureType.spec_name()) == Some(IfcType::IfcLightFixtureType),
{
    lemma_wire_names_distinct();
    assert(IfcType::IfcLightFixtureType.spec_name() == "IFCLIGHTFIXTURETYPE"@);
}

proof fn lemma_roundtrip_ifclightsource()
    ensures
        lookup_upper(IfcType::IfcLightSource.spec_name()) == Some(IfcType::IfcLightSource),
{
    lemma_wire_names_distinct();
    assert(IfcType::IfcLightSource.spec_name() == "IFCLIGHTSOURCE"@);
}

proof fn lemma_roundtrip_ifclightsourceambient()
    ensures
        lookup_upper(IfcType::IfcLightSourceAmbient.spec_name()) == Some(IfcType::IfcLightSourceAmbient),
{
    lemma_wire_names_distinct();
    assert(IfcType::IfcLightSourceAmbient.spec_name() == "IFCLIGHTSOURCEAMBIENT"@);
}

proof fn lemma_roundtrip_ifclightsourcedirectional()
    ensures
        lookup_upper(IfcType::IfcLightSourceDirectional.spec_name()) == Some(IfcType::IfcLightSourceDirectional),
{
    lemma_wire_names_distinct();
    assert(IfcType::IfcLightSourceDirectional.spec_name() == "IFCLIGHTSOURCEDIRECTIONAL"@);
}

proof fn lemma_roundtrip_ifclightsourcegoniometric()
    ensures
        lookup_upper(IfcType::IfcLightSourceGoniometric.spec_name()) == Some(IfcType::IfcLightSourceGoniometric),
{
    lemma_wire_names_distinct();
    assert(IfcType::IfcLightSourceGoniometric.spec_name() == "IFCLIGHTSOURCEGONIOMETRIC"@);
}

proof fn lemma_roundtrip_ifclightsourcepositional()
    ensures
        lookup_upper(IfcType::IfcLightSourcePositional.spec_name()) == Some(IfcType::IfcLightSourcePositional),
{
    lemma_wire_names_distinct();
    assert(IfcType::IfcLightSourcePositional.spec_name() == "IFCLIGHTSOURCEPOSITIONAL"@);
}

proof fn lemma_roundtrip_ifclightsourcespot()
    ensures
        lookup_upper(IfcType::IfcLightSourceSpot.spec_name()) == Some(IfcType::IfcLightSourceSpot),
{
    lemma_wire_names_distinct();
    assert(IfcType::IfcLightSourceSpot.spec_name() == "IFCLIGHTSOURCESPOT"@);
}

proof fn lemma_roundtrip_ifclightintensitydistribution()
    ensures
        lookup_upper(IfcType::IfcLightIntensityDistribution.spec_name()) == Some(IfcType::IfcLightIntensityDistribution),
{
    lemma_wire_names_distinct();
    assert(IfcType::IfcLightIntensityDistribution.spec_name() == "IFCLIGHTINTENSITYDISTRIBUTION"@);
}

proof fn lemma_roundtrip_ifclightdistributiondata()
    ensures
        lookup_upper(IfcType::IfcLightDistributionData.spec_name()) == Some(IfcType::IfcLightDistributionData),
{
    lemma_wire_names_distinct();
    assert(IfcType::IfcLightDistributionData.spec_name() == "IFCLIGHTDISTRIBUTIONDATA"@);
}

proof fn lemma_roundtrip_ifcunitassignment()
    ensures
        lookup_upper(IfcType::IfcUnitAssignment.spec_name()) == Some(IfcType::IfcUnitAssignment),
{
    lemma_wire_names_distinct();
    assert(IfcType::IfcUnitAssignment.spec_name() == "IFCUNITASSIGNMENT"@);
}

proof fn lemma_roundtrip_ifcsiunit()
    ensures
        lookup_upper(IfcType::IfcSIUnit.spec_name()) == Some(IfcType::IfcSIUnit),
{
    lemma_wire_names_distinct();
    assert(IfcType::IfcSIUnit.spec_name() == "IFCSIUNIT"@);
}

proof fn lemma_roundtrip_ifcconversionbasedunit()
    ensures
        lookup_upper(IfcType::IfcConversionBasedUnit.spec_name()) == Some(IfcType::IfcConversionBasedUnit),
{
    lemma_wire_names_distinct();
    assert(IfcType::IfcConversionBasedUnit.spec_name() == "IFCCONVERSIONBASEDUNIT"@);
}

proof fn lemma_roundtrip_ifcderivedunit()
    ensures
        lookup_upper(IfcType::IfcDerivedUnit.spec_name()) == Some(IfcType::IfcDerivedUnit),
{
    lemma_wire_names_distinct();
    assert(IfcType::IfcDerivedUnit.spec_name() == "IFCDERIVEDUNIT"@);
}

proof fn lemma_roundtrip_ifcmeasurewithunit()
    ensures
        lookup_upper(IfcType::IfcMeasureWithUnit.spec_name()) == Some(IfcType::IfcMeasureWithUnit),
{
    lemma_wire_names_distinct();
    assert(IfcType::IfcMeasureWithUnit.spec_name() == "IFCMEASUREWITHUNIT"@);
}

proof fn lemma_roundtrip_ifcwalltype()
    ensures
        lookup_upper(IfcType::IfcWallType.spec_name()) == Some(IfcType::IfcWallType),
{
    lemma_wire_names_distinct();
    assert(IfcType::IfcWallType.spec_name() == "IFCWALLTYPE"@);
}

proof fn lemma_roundtrip_ifcslabtype()
    ensures
        lookup_upper(IfcType::IfcSlabType.spec_name()) == Some(IfcType::IfcSlabType),
{
    lemma_wire_names_distinct();
    assert(IfcType::IfcSlabType.spec_name() == "IFCSLABTYPE"@);
}

proof fn lemma_roundtrip_ifcbeamtype()
    ensures
        lookup_upper(IfcType::IfcBeamType.spec_name()) == Some(IfcType::IfcBeamType),
{
    lemma_wire_names_distinct();
    assert(IfcType::IfcBeamType.spec_name() == "IFCBEAMTYPE"@);
}

proof fn lemma_roundtrip_ifccolumntype()
    ensures
        lookup_upper(IfcType::IfcColumnType.spec_name()) == Some(IfcType::IfcColumnType),
{
    lemma_wire_names_distinct();
    assert(IfcType::IfcColumnType.spec_name() == "IFCCOLUMNTYPE"@);
}

proof fn lemma_roundtrip_ifcdoortype()
    ensures
        lookup_upper(IfcType::IfcDoorType.spec_name()) == Some(IfcType::IfcDoorType),
{
    lemma_wire_names_distinct();
    assert(IfcType::IfcDoorType.spec_name() == "IFCDOORTYPE"@);
}

proof fn lemma_roundtrip_ifcwindowtype()
    ensures
        lookup_upper(IfcType::IfcWindowType.spec_name()) == Some(IfcType::IfcWindowType),
{
    lemma_wire_names_distinct();
    assert(IfcType::IfcWindowType.spec_name() == "IFCWINDOWTYPE"@);
}

proof fn lemma_roundtrip_ifccoveringtype()
    ensures
        lookup_upper(IfcType::IfcCoveringType.spec_name()) == Some(IfcType::IfcCoveringType),
{
    lemma_wire_names_distinct();
    assert(IfcType::IfcCoveringType.spec_name() == "IFCCOVERINGTYPE"@);
}

proof fn lemma_roundtrip_ifcrailingtype()
    ensures
        lookup_upper(IfcType::IfcRailingType.spec_name()) == Some(IfcType::IfcRailingType),
{
    lemma_wire_names_distinct();
    assert(IfcType::IfcRailingType.spec_name() == "IFCRAILINGTYPE"@);
}

proof fn lemma_roundtrip_ifcstairtype()
    ensures
        lookup_upper(IfcType::IfcStairType.spec_name()) == Some(IfcType::IfcStairType),
{
    lemma_wire_names_distinct();
    assert(IfcType::IfcStairType.spec_name() == "IFCSTAIRTYPE"@);
}

proof fn lemma_roundtrip_ifcstairflighttype()
    ensures
        lookup_upper(IfcType::IfcStairFlightType.spec_name()) == Some(IfcType::IfcStairFlightType),
{
    lemma_wire_names_distinct();
    assert(IfcType::IfcStairFlightType.spec_name() == "IFCSTAIRFLIGHTTYPE"@);
}

proof fn lemma_roundtrip_ifcramptype()
    ensures
        lookup_upper(IfcType::IfcRampType.spec_name()) == Some(IfcType::IfcRampType),
{
    lemma_wire_names_distinct();
    assert(IfcType::IfcRampType.spec_name() == "IFCRAMPTYPE"@);
}

proof fn lemma_roundtrip_ifcrampflighttype()
    ensures
        lookup_upper(IfcType::IfcRampFlightType.spec_name()) == Some(IfcType::IfcRampFlightType),
{
    lemma_wire_names_distinct();
    assert(IfcType::IfcRampFlightType.spec_name() == "IFCRAMPFLIGHTTYPE"@);
}

proof fn lemma_roundtrip_ifcrooftype()
    ensures
        lookup_upper(IfcType::IfcRoofType.spec_name()) == Some(IfcType::IfcRoofType),
{
    lemma_wire_names_distinct();
    assert(IfcType::IfcRoofType.spec_name() == "IFCROOFTYPE"@);
}

proof fn lemma_roundtrip_ifcmembertype()
    ensures
        lookup_upper(IfcType::IfcMemberType.spec_name()) == Some(IfcType::IfcMemberType),
{
    lemma_wire_names_distinct();
    assert(IfcType::IfcMemberType.spec_name() == "IFCMEMBERTYPE"@);
}

proof fn lemma_roundtrip_ifcplatetype()
    ensures
        lookup_upper(IfcType::IfcPlateType.spec_name()) == Some(IfcType::IfcPlateType),
{
    lemma_wire_names_distinct();
    assert(IfcType::IfcPlateType.spec_name() == "IFCPLATETYPE"@);
}

proof fn lemma_roundtrip_ifcfootingtype()
    ensures
        lookup_upper(IfcType::IfcFootingType.spec_name()) == Some(IfcType::IfcFootingType),
{
    lemma_wire_names_distinct();
    assert(IfcType::IfcFootingType.spec_name() == "IFCFOOTINGTYPE"@);
}

proof fn lemma_roundtrip_ifcpiletype()
    ensures
        lookup_upper(IfcType::IfcPileType.spec_name()) == Some(IfcType::IfcPileType),
{
    lemma_wire_names_distinct();
    assert(IfcType::IfcPileType.spec_name() == "IFCPILETYPE"@);
}

proof fn lemma_roundtrip_ifcbuildingelementproxytype()
    ensures
        lookup_upper(IfcType::IfcBuildingElementProxyType.spec_name()) == Some(IfcType::IfcBuildingElementProxyType),
{
    lemma_wire_names_distinct();
    assert(IfcType::IfcBuildingElementProxyType.spec_name() == "IFCBUILDINGELEMENTPROXYTYPE"@);
}

proof fn lemma_roundtrip_ifcalignment()
    ensures
        lookup_upper(IfcType::IfcAlignment.spec_name()) == Some(IfcType::IfcAlignment),
{
    lemma_wire_names_distinct();
    assert(IfcType::IfcAlignment.spec_name() == "IFCALIGNMENT"@);
}

proof fn lemma_roundtrip_ifcalignmentcant()
    ensures
        lookup_upper(IfcType::IfcAlignmentCant.spec_name()) == Some(IfcType::IfcAlignmentCant),
{
    lemma_wire_names_distinct();
    assert(IfcType::IfcAlignmentCant.spec_name() == "IFCALIGNMENTCANT"@);
}

proof fn lemma_roundtrip_ifcalignmenthorizontal()
    ensures
        lookup_upper(IfcType::IfcAlignmentHorizontal.spec_name()) == Some(IfcType::IfcAlignmentHorizontal),
{
    lemma_wire_names_distinct();
    assert(IfcType::IfcAlignmentHorizontal.spec_name() == "IFCALIGNMENTHORIZONTAL"@);
}

proof fn lemma_roundtrip_ifcalignmentvertical()
    ensures
        lookup_upper(IfcType::IfcAlignmentVertical.spec_name()) == Some(IfcType::IfcAlignmentVertical),
{
    lemma_wire_names_distinct();
    assert(IfcType::IfcAlignmentVertical.spec_name() == "IFCALIGNMENTVERTICAL"@);
}

proof fn lemma_roundtrip_ifcalignmentsegment()
    ensures
        lookup_upper(IfcType::IfcAlignmentSegment.spec_name()) == Some(IfcType::IfcAlignmentSegment),
{
    lemma_wire_names_distinct();
    assert(IfcType::IfcAlignmentSegment.spec_name() == "IFCALIGNMENTSEGMENT"@);
}

proof fn lemma_roundtrip_ifcroad()
    ensures
        lookup_upper(IfcType::IfcRoad.spec_name()) == Some(IfcType::IfcRoad),
{
    lemma_wire_names_distinct();
    assert(IfcType::IfcRoad.spec_name() == "IFCROAD"@);
}

proof fn lemma_roundtrip_ifcroadpart()
    ensures
        lookup_upper(IfcType::IfcRoadPart.spec_name()) == Some(IfcType::IfcRoadPart),
{
    lemma_wire_names_distinct();
    assert(IfcType::IfcRoadPart.spec_name() == "IFCROADPART"@);
}

proof fn lemma_roundtrip_ifcbridge()
    ensures
        lookup_upper(IfcType::IfcBridge.spec_name()) == Some(IfcType::IfcBridge),
{
    lemma_wire_names_distinct();
    assert(IfcType::IfcBridge.spec_name() == "IFCBRIDGE"@);
}

proof fn lemma_roundtrip_ifcbridgepart()
    ensures
        lookup_upper(IfcType::IfcBridgePart.spec_name()) == Some(IfcType::IfcBridgePart),
{
    lemma_wire_names_distinct();
    assert(IfcType::IfcBridgePart.spec_name() == "IFCBRIDGEPART"@);
}

proof fn lemma_roundtrip_ifcrailway()
    ensures
        lookup_upper(IfcType::IfcRailway.spec_name()) == Some(IfcType::IfcRailway),
{
    lemma_wire_names_distinct();
    assert(IfcType::IfcRailway.spec_name() == "IFCRAILWAY"@);
}

proof fn lemma_roundtrip_ifcrailwaypart()
    ensures
        lookup_upper(IfcType::IfcRailwayPart.spec_name()) == Some(IfcType::IfcRailwayPart),
{
    lemma_wire_names_distinct();
    assert(IfcType::IfcRailwayPart.spec_name() == "IFCRAILWAYPART"@);
}

proof fn lemma_roundtrip_ifcfacility()
    ensures
        lookup_upper(IfcType::IfcFacility.spec_name()) == Some(IfcType::IfcFacility),
{
    lemma_wire_names_distinct();
    assert(IfcType::IfcFacility.spec_name() == "IFCFACILITY"@);
}

proof fn lemma_roundtrip_ifcfacilitypart()
    ensures
        lookup_upper(IfcType::IfcFacilityPart.spec_name()) == Some(IfcType::IfcFacilityPart),
{
    lemma_wire_names_distinct();
    assert(IfcType::IfcFacilityPart.spec_name() == "IFCFACILITYPART"@);
}

proof fn lemma_roundtrip_ifcgeotechnicalelement()
    ensures
        lookup_upper(IfcType::IfcGeotechnicalElement.spec_name()) == Some(IfcType::IfcGeotechnicalElement),
{
    lemma_wire_names_distinct();
    assert(IfcType::IfcGeotechnicalElement.spec_name() == "IFCGEOTECHNICALELEMENT"@);
}

proof fn lemma_roundtrip_ifcborehole()
    ensures
        lookup_upper(IfcType::IfcBorehole.spec_name()) == Some(IfcType::IfcBorehole),
{
    lemma_wire_names_distinct();
    assert(IfcType::IfcBorehole.spec_name() == "IFCBOREHOLE"@);
}

proof fn lemma_roundtrip_ifcgeomodel()
    ensures
        lookup_upper(IfcType::IfcGeomodel.spec_name()) == Some(IfcType::IfcGeomodel),
{
    lemma_wire_names_distinct();
    assert(IfcType::IfcGeomodel.spec_name() == "IFCGEOMODEL"@);
}

proof fn lemma_roundtrip_ifcgeoslice()
    ensures
        lookup_upper(IfcType::IfcGeoslice.spec_name()) == Some(IfcType::IfcGeoslice),
{
    lemma_wire_names_distinct();
    assert(IfcType::IfcGeoslice.spec_name() == "IFCGEOSLICE"@);
}

proof fn lemma_roundtrip_ifcsolidstratum()
    ensures
        lookup_upper(IfcType::IfcSolidStratum.spec_name()) == Some(IfcType::IfcSolidStratum),
{
    lemma_wire_names_distinct();
    assert(IfcType::IfcSolidStratum.spec_name() == "IFCSOLIDSTRATUM"@);
}

proof fn lemma_roundtrip_ifcvoidstratum()
    ensures
        lookup_upper(IfcType::IfcVoidStratum.spec_name()) == Some(IfcType::IfcVoidStratum),
{
    lemma_wire_names_distinct();
    assert(IfcType::IfcVoidStratum.spec_name() == "IFCVOIDSTRATUM"@);
}

proof fn lemma_roundtrip_ifcwaterstratum()
    ensures
        lookup_upper(IfcType::IfcWaterStratum.spec_name()) == Some(IfcType::IfcWaterStratum),
{
    lemma_wire_names_distinct();
    assert(IfcType::IfcWaterStratum.spec_name() == "IFCWATERSTRATUM"@);
}

proof fn lemma_roundtrip_ifcearthworkscut()
    ensures
        lookup_upper(IfcType::IfcEarthworksCut.spec_name()) == Some(IfcType::IfcEarthworksCut),
{
    lemma_wire_names_distinct();
    assert(IfcType::IfcEarthworksCut.spec_name() == "IFCEARTHWORKSCUT"@);
}

proof fn lemma_roundtrip_ifcearthworksfill()
    ensures
        lookup_upper(IfcType::IfcEarthworksFill.spec_name()) == Some(IfcType::IfcEarthworksFill),
{
    lemma_wire_names_distinct();
    assert(IfcType::IfcEarthworksFill.spec_name() == "IFCEARTHWORKSFILL"@);
}

proof fn lemma_roundtrip_ifcearthworkselement()
    ensures
        lookup_upper(IfcType::IfcEarthworksElement.spec_name()) == Some(IfcType::IfcEarthworksElement),
{
    lemma_wire_names_distinct();
    assert(IfcType::IfcEarthworksElement.spec_name() == "IFCEARTHWORKSELEMENT"@);
}

proof fn lemma_roundtrip_ifcpavement()
    ensures
        lookup_upper(IfcType::IfcPavement.spec_name()) == Some(IfcType::IfcPavement),
{
    lemma_wire_names_distinct();
    assert(IfcType::IfcPavement.spec_name() == "IFCPAVEMENT"@);
}

proof fn lemma_roundtrip_ifccourse()
    ensures
        lookup_upper(IfcType::IfcCourse.spec_name()) == Some(IfcType::IfcCourse),
{
    lemma_wire_names_distinct();
    assert(IfcType::IfcCourse.spec_name() == "IFCCOURSE"@);
}

proof fn lemma_roundtrip_ifckerb()
    ensures
        lookup_upper(IfcType::IfcKerb.spec_name()) == Some(IfcType::IfcKerb),
{
    lemma_wire_names_distinct();
    assert(IfcType::IfcKerb.spec_name() == "IFCKERB"@);
}

proof fn lemma_roundtrip_ifcdeepfoundation()
    ensures
        lookup_upper(IfcType::IfcDeepFoundation.spec_name()) == Some(IfcType::IfcDeepFoundation),
{
    lemma_wire_names_distinct();
    assert(IfcType::IfcDeepFoundation.spec_name() == "IFCDEEPFOUNDATION"@);
}

/// Variants of the parse table, part 1 of 8.
spec fn parse_yields_0(t: IfcType) -> bool {
    match t {
        IfcType::IfcProject => true,
        IfcType::IfcSite => true,
        IfcType::IfcBuilding => true,
        IfcType::IfcBuildingStorey => true,
        IfcType::IfcSpace => true,
        IfcType::IfcWall => true,
        IfcType::IfcWallStandardCase => true,
        IfcType::IfcCurtainWall => true,
        IfcType::IfcSlab => true,
        IfcType::IfcRoof => true,
        IfcType::IfcBeam => true,
        IfcType::IfcColumn => true,
        IfcType::IfcDoor => true,
        IfcType::IfcWindow => true,
        IfcType::IfcStair => true,
        IfcType::IfcStairFlight => true,
        IfcType::IfcRamp => true,
        IfcType::IfcRampFlight => true,
        IfcType::IfcRailing => true,
        IfcType::IfcCovering => true,
        IfcType::IfcPlate => true,
        IfcType::IfcMember => true,
        IfcType::IfcFooting => true,
        IfcType::IfcPile => true,
        IfcType::IfcBuildingElementProxy => true,
        IfcType::IfcElementAssembly => true,
        IfcType::IfcDistributionElement => true,
        IfcType::IfcDistributionFlowElement => true,
        IfcType::IfcFlowTerminal => true,
        IfcType::IfcFlowSegment => true,
        _ => false,
    }
}

/// Variants of the parse table, part 2 of 8.
spec fn parse_yields_1(t: IfcType) -> bool {
    match t {
        IfcType::IfcFlowFitting => true,
        IfcType::IfcFlowController => true,
        IfcType::IfcFlowMovingDevice => true,
        IfcType::IfcFlowStorageDevice => true,
        IfcType::IfcFlowTreatmentDevice => true,
        IfcType::IfcEnergyConversionDevice => true,
        IfcType::IfcDistributionControlElement => true,
        IfcType::IfcCableSegment => true,
        IfcType::IfcCableCarrierSegment => true,
        IfcType::IfcCableCarrierFitting => true,
        IfcType::IfcPipeSegment => true,
        IfcType::IfcPipeFitting => true,
        IfcType::IfcSpaceHeater => true,
        IfcType::IfcAirTerminal => true,
        IfcType::IfcFurnishingElement => true,
        IfcType::IfcFurniture => true,
        IfcType::IfcSystemFurnitureElement => true,
        IfcType::IfcOpeningElement => true,
        IfcType::IfcOpeningStandardCase => true,
        IfcType::IfcVoidingFeature => true,
        IfcType::IfcProjectionElement => true,
        IfcType::IfcExtrudedAreaSolid => true,
        IfcType::IfcExtrudedAreaSolidTapered => true,
        IfcType::IfcRevolvedAreaSolid => true,
        IfcType::IfcRevolvedAreaSolidTapered => true,
        IfcType::IfcSweptDiskSolid => true,
        IfcType::IfcSweptDiskSolidPolygonal => true,
        IfcType::IfcSurfaceCurveSweptAreaSolid => true,
        IfcType::IfcFixedReferenceSweptAreaSolid => true,
        IfcType::IfcFacetedBrep => true,
        _ => false,
    }
}

/// Variants of the parse table, part 3 of 8.
spec fn parse_yields_2(t: IfcType) -> bool {
    match t {
        IfcType::IfcFacetedBrepWithVoids => true,
        IfcType::IfcAdvancedBrep => true,
        IfcType::IfcAdvancedBrepWithVoids => true,
        IfcType::IfcTriangulatedFaceSet => true,
        IfcType::IfcPolygonalFaceSet => true,
        IfcType::IfcTessellatedFaceSet => true,
        IfcType::IfcBooleanResult => true,
        IfcType::IfcBooleanClippingResult => true,
        IfcType::IfcMappedItem => true,
        IfcType::IfcRepresentationMap => true,
        IfcType::IfcBlock => true,
        IfcType::IfcRectangularPyramid => true,
        IfcType::IfcRightCircularCone => true,
        IfcType::IfcRightCircularCylinder => true,
        IfcType::IfcSphere => true,
        IfcType::IfcHalfSpaceSolid => true,
        IfcType::IfcPolygonalBoundedHalfSpace => true,
        IfcType::IfcBoxedHalfSpace => true,
        IfcType::IfcArbitraryClosedProfileDef => true,
        IfcType::IfcArbitraryProfileDefWithVoids => true,
        IfcType::IfcRectangleProfileDef => true,
        IfcType::IfcRectangleHollowProfileDef => true,
        IfcType::IfcCircleProfileDef => true,
        IfcType::IfcCircleHollowProfileDef => true,
        IfcType::IfcEllipseProfileDef => true,
        IfcType::IfcIShapeProfileDef => true,
        IfcType::IfcLShapeProfileDef => true,
        IfcType::IfcTShapeProfileDef => true,
        IfcType::IfcUShapeProfileDef => true,
        IfcType::IfcCShapeProfileDef => true,
        _ => false,
    }
}

/// Variants of the parse table, part 4 of 8.
spec fn parse_yields_3(t: IfcType) -> bool {
    match t {
        IfcType::IfcZShapeProfileDef => true,
        IfcType::IfcAsymmetricIShapeProfileDef => true,
        IfcType::IfcTrapeziumProfileDef => true,
        IfcType::IfcCompositeProfileDef => true,
        IfcType::IfcDerivedProfileDef => true,
        IfcType::IfcCenterLineProfileDef => true,
        IfcType::IfcPolyline => true,
        IfcType::IfcCompositeCurve => true,
        IfcType::IfcCompositeCurveSegment => true,
        IfcType::IfcTrimmedCurve => true,
        IfcType::IfcCircle => true,
        IfcType::IfcEllipse => true,
        IfcType::IfcLine => true,
        IfcType::IfcBSplineCurve => true,
        IfcType::IfcBSplineCurveWithKnots => true,
        IfcType::IfcRationalBSplineCurveWithKnots => true,
        IfcType::IfcIndexedPolyCurve => true,
        IfcType::IfcPlane => true,
        IfcType::IfcCurveBoundedPlane => true,
        IfcType::IfcCylindricalSurface => true,
        IfcType::IfcBSplineSurface => true,
        IfcType::IfcBSplineSurfaceWithKnots => true,
        IfcType::IfcRationalBSplineSurfaceWithKnots => true,
        IfcType::IfcCartesianPoint => true,
        IfcType::IfcDirection => true,
        IfcType::IfcVector => true,
        IfcType::IfcCartesianPointList2D => true,
        IfcType::IfcCartesianPointList3D => true,
        IfcType::IfcAxis2Placement2D => true,
        IfcType::IfcAxis2Placement3D => true,
        _ => false,
    }
}

/// Variants of the parse table, part 5 of 8.
spec fn parse_yields_4(t: IfcType) -> bool {
    match t {
        IfcType::IfcLocalPlacement => true,
        IfcType::IfcCartesianTransformationOperator3D => true,
        IfcType::IfcShapeRepresentation => true,
        IfcType::IfcProductDefinitionShape => true,
        IfcType::IfcGeometricRepresentationContext => true,
        IfcType::IfcGeometricRepresentationSubContext => true,
        IfcType::IfcClosedShell => true,
        IfcType::IfcOpenShell => true,
        IfcType::IfcFace => true,
        IfcType::IfcFaceBound => true,
        IfcType::IfcFaceOuterBound => true,
        IfcType::IfcPolyLoop => true,
        IfcType::IfcEdgeLoop => true,
        IfcType::IfcOrientedEdge => true,
        IfcType::IfcEdgeCurve => true,
        IfcType::IfcVertexPoint => true,
        IfcType::IfcConnectedFaceSet => true,
        IfcType::IfcRelContainedInSpatialStructure => true,
        IfcType::IfcRelAggregates => true,
        IfcType::IfcRelDefinesByProperties => true,
        IfcType::IfcRelDefinesByType => true,
        IfcType::IfcRelAssociatesMaterial => true,
        IfcType::IfcRelVoidsElement => true,
        IfcType::IfcRelFillsElement => true,
        IfcType::IfcRelConnectsPathElements => true,
        IfcType::IfcRelSpaceBoundary => true,
        IfcType::IfcRelAssignsToGroup => true,
        IfcType::IfcPropertySet => true,
        IfcType::IfcPropertySingleValue => true,
        IfcType::IfcPropertyEnumeratedValue => true,
        _ => false,
    }
}

/// Variants of the parse table, part 6 of 8.
spec fn parse_yields_5(t: IfcType) -> bool {
    match t {
        IfcType::IfcPropertyBoundedValue => true,
        IfcType::IfcPropertyListValue => true,
        IfcType::IfcPropertyTableValue => true,
        IfcType::IfcComplexProperty => true,
        IfcType::IfcElementQuantity => true,
        IfcType::IfcQuantityLength => true,
        IfcType::IfcQuantityArea => true,
        IfcType::IfcQuantityVolume => true,
        IfcType::IfcQuantityCount => true,
        IfcType::IfcQuantityWeight => true,
        IfcType::IfcQuantityTime => true,
        IfcType::IfcMaterial => true,
        IfcType::IfcMaterialLayer => true,
        IfcType::IfcMaterialLayerSet => true,
        IfcType::IfcMaterialLayerSetUsage => true,
        IfcType::IfcMaterialList => true,
        IfcType::IfcMaterialConstituentSet => true,
        IfcType::IfcMaterialConstituent => true,
        IfcType::IfcMaterialProfile => true,
        IfcType::IfcMaterialProfileSet => true,
        IfcType::IfcMaterialProfileSetUsage => true,
        IfcType::IfcStyledItem => true,
        IfcType::IfcSurfaceStyle => true,
        IfcType::IfcSurfaceStyleRendering => true,
        IfcType::IfcColourRgb => true,
        IfcType::IfcPresentationLayerAssignment => true,
        IfcType::IfcLightFixture => true,
        IfcType::IfcLightFixtureType => true,
        IfcType::IfcLightSource => true,
        IfcType::IfcLightSourceAmbient => true,
        _ => false,
    }
}

/// Variants of the parse table, part 7 of 8.
spec fn parse_yields_6(t: IfcType) -> bool {
    match t {
        IfcType::IfcLightSourceDirectional => true,
        IfcType::IfcLightSourceGoniometric => true,
        IfcType::IfcLightSourcePositional => true,
        IfcType::IfcLightSourceSpot => true,
        IfcType::IfcLightIntensityDistribution => true,
        IfcType::IfcLightDistributionData => true,
        IfcType::IfcUnitAssignment => true,
        IfcType::IfcSIUnit => true,
        IfcType::IfcConversionBasedUnit => true,
        IfcType::IfcDerivedUnit => true,
        IfcType::IfcMeasureWithUnit => true,
        IfcType::IfcWallType => true,
        IfcType::IfcSlabType => true,
        IfcType::IfcBeamType => true,
        IfcType::IfcColumnType => true,
        IfcType::IfcDoorType => true,
        IfcType::IfcWindowType => true,
        IfcType::IfcCoveringType => true,
        IfcType::IfcRailingType => true,
        IfcType::IfcStairType => true,
        IfcType::IfcStairFlightType => true,
        IfcType::IfcRampType => true,
        IfcType::IfcRampFlightType => true,
        IfcType::IfcRoofType => true,
        IfcType::IfcMemberType => true,
        IfcType::IfcPlateType => true,
        IfcType::IfcFootingType => true,
        IfcType::IfcPileType => true,
        IfcType::IfcBuildingElementProxyType => true,
        IfcType::IfcAlignment => true,
        _ => false,
    }
}

/// Variants of the parse table, part 8 of 8.
spec fn parse_yields_7(t: IfcType) -> bool {
    match t {
        IfcType::IfcAlignmentCant => true,
        IfcType::IfcAlignmentHorizontal => true,
        IfcType::IfcAlignmentVertical => true,
        IfcType::IfcAlignmentSegment => true,
        IfcType::IfcRoad => true,
        IfcType::IfcRoadPart => true,
        IfcType::IfcBridge => true,
        IfcType::IfcBridgePart => true,
        IfcType::IfcRailway => true,
        IfcType::IfcRailwayPart => true,
        IfcType::IfcFacility => true,
        IfcType::IfcFacilityPart => true,
        IfcType::IfcGeotechnicalElement => true,
        IfcType::IfcBorehole => true,
        IfcType::IfcGeomodel => true,
        IfcType::IfcGeoslice => true,
        IfcType::IfcSolidStratum => true,
        IfcType::IfcVoidStratum => true,
        IfcType::IfcWaterStratum => true,
        IfcType::IfcEarthworksCut => true,
        IfcType::IfcEarthworksFill => true,
        IfcType::IfcEarthworksElement => true,
        IfcType::IfcPavement => true,
        IfcType::IfcCourse => true,
        IfcType::IfcKerb => true,
        IfcType::IfcDeepFoundation => true,
        _ => false,
    }
}

/// The variants that parsing can return: those of the parse table.
spec fn parse_yields(t: IfcType) -> bool {
    ||| parse_yields_0(t)
    ||| parse_yields_1(t)
    ||| parse_yields_2(t)
    ||| parse_yields_3(t)
    ||| parse_yields_4(t)
    ||| parse_yields_5(t)
    ||| parse_yields_6(t)
    ||| parse_yields_7(t)
}

proof fn lemma_lookup_part_0_yields(s: Seq<char>)
    ensures
        lookup_upper_0(s) is Some ==> parse_yields(lookup_upper_0(s)->0),
{
}

proof fn lemma_lookup_part_1_yields(s: Seq<char>)
    ensures
        lookup_upper_1(s) is Some ==> parse_yields(lookup_upper_1(s)->0),
{
}

proof fn lemma_lookup_part_2_yields(s: Seq<char>)
    ensures
        lookup_upper_2(s) is Some ==> parse_yields(lookup_upper_2(s)->0),
{
}

proof fn lemma_lookup_part_3_yields(s: Seq<char>)
    ensures
        lookup_upper_3(s) is Some ==> parse_yields(lookup_upper_3(s)->0),
{
}

proof fn lemma_lookup_part_4_yields(s: Seq<char>)
    ensures
        lookup_upper_4(s) is Some ==> parse_yields(lookup_upper_4(s)->0),
{
}

proof fn lemma_lookup_part_5_yields(s: Seq<char>)
    ensures
        lookup_upper_5(s) is Some ==> parse_yields(lookup_upper_5(s)->0),
{
}

proof fn lemma_lookup_part_6_yields(s: Seq<char>)
    ensures
        lookup_upper_6(s) is Some ==> parse_yields(lookup_upper_6(s)->0),
{
}

proof fn lemma_lookup_part_7_yields(s: Seq<char>)
    ensures
        lookup_upper_7(s) is Some ==> parse_yields(lookup_upper_7(s)->0),
{
}

proof fn lemma_roundtrip_part_0(t: IfcType)
    requires
        parse_yields_0(t),
    ensures
        lookup_upper(t.spec_name()) == Some(t),
{
    match t {
        IfcType::IfcProject => lemma_roundtrip_ifcproject(),
        IfcType::IfcSite => lemma_roundtrip_ifcsite(),
        IfcType::IfcBuilding => lemma_roundtrip_ifcbuilding(),
        IfcType::IfcBuildingStorey => lemma_roundtrip_ifcbuildingstorey(),
        IfcType::IfcSpace => lemma_roundtrip_ifcspace(),
        IfcType::IfcWall => lemma_roundtrip_ifcwall(),
        IfcType::IfcWallStandardCase => lemma_roundtrip_ifcwallstandardcase(),
        IfcType::IfcCurtainWall => lemma_roundtrip_ifccurtainwall(),
        IfcType::IfcSlab => lemma_roundtrip_ifcslab(),
        IfcType::IfcRoof => lemma_roundtrip_ifcroof(),
        IfcType::IfcBeam => lemma_roundtrip_ifcbeam(),
        IfcType::IfcColumn => lemma_roundtrip_ifccolumn(),
        IfcType::IfcDoor => lemma_roundtrip_ifcdoor(),
        IfcType::IfcWindow => lemma_roundtrip_ifcwindow(),
        IfcType::IfcStair => lemma_roundtrip_ifcstair(),
        IfcType::IfcStairFlight => lemma_roundtrip_ifcstairflight(),
        IfcType::IfcRamp => lemma_roundtrip_ifcramp(),
        IfcType::IfcRampFlight => lemma_roundtrip_ifcrampflight(),
        IfcType::IfcRailing => lemma_roundtrip_ifcrailing(),
        IfcType::IfcCovering => lemma_roundtrip_ifccovering(),
        IfcType::IfcPlate => lemma_roundtrip_ifcplate(),
        IfcType::IfcMember => lemma_roundtrip_ifcmember(),
        IfcType::IfcFooting => lemma_roundtrip_ifcfooting(),
        IfcType::IfcPile => lemma_roundtrip_ifcpile(),
        IfcType::IfcBuildingElementProxy => lemma_roundtrip_ifcbuildingelementproxy(),
        IfcType::IfcElementAssembly => lemma_roundtrip_ifcelementassembly(),
        IfcType::IfcDistributionElement => lemma_roundtrip_ifcdistributionelement(),
        IfcType::IfcDistributionFlowElement => lemma_roundtrip_ifcdistributionflowelement(),
        IfcType::IfcFlowTerminal => lemma_roundtrip_ifcflowterminal(),
        IfcType::IfcFlowSegment => lemma_roundtrip_ifcflowsegment(),
        _ => {},
    }
}

proof fn lemma_roundtrip_part_1(t: IfcType)
    requires
        parse_yields_1(t),
    ensures
        lookup_upper(t.spec_name()) == Some(t),
{
    match t {
        IfcType::IfcFlowFitting => lemma_roundtrip_ifcflowfitting(),
        IfcType::IfcFlowController => lemma_roundtrip_ifcflowcontroller(),
        IfcType::IfcFlowMovingDevice => lemma_roundtrip_ifcflowmovingdevice(),
        IfcType::IfcFlowStorageDevice => lemma_roundtrip_ifcflowstoragedevice(),
        IfcType::IfcFlowTreatmentDevice => lemma_roundtrip_ifcflowtreatmentdevice(),
        IfcType::IfcEnergyConversionDevice => lemma_roundtrip_ifcenergyconversiondevice(),
        IfcType::IfcDistributionControlElement => lemma_roundtrip_ifcdistributioncontrolelement(),
        IfcType::IfcCableSegment => lemma_roundtrip_ifccablesegment(),
        IfcType::IfcCableCarrierSegment => lemma_roundtrip_ifccablecarriersegment(),
        IfcType::IfcCableCarrierFitting => lemma_roundtrip_ifccablecarrierfitting(),
        IfcType::IfcPipeSegment => lemma_roundtrip_ifcpipesegment(),
        IfcType::IfcPipeFitting => lemma_roundtrip_ifcpipefitting(),
        IfcType::IfcSpaceHeater => lemma_roundtrip_ifcspaceheater(),
        IfcType::IfcAirTerminal => lemma_roundtrip_ifcairterminal(),
        IfcType::IfcFurnishingElement => lemma_roundtrip_ifcfurnishingelement(),
        IfcType::IfcFurniture => lemma_roundtrip_ifcfurniture(),
        IfcType::IfcSystemFurnitureElement => lemma_roundtrip_ifcsystemfurnitureelement(),
        IfcType::IfcOpeningElement => lemma_roundtrip_ifcopeningelement(),
        IfcType::IfcOpeningStandardCase => lemma_roundtrip_ifcopeningstandardcase(),
        IfcType::IfcVoidingFeature => lemma_roundtrip_ifcvoidingfeature(),
        IfcType::IfcProjectionElement => lemma_roundtrip_ifcprojectionelement(),
        IfcType::IfcExtrudedAreaSolid => lemma_roundtrip_ifcextrudedareasolid(),
        IfcType::IfcExtrudedAreaSolidTapered => lemma_roundtrip_ifcextrudedareasolidtapered(),
        IfcType::IfcRevolvedAreaSolid => lemma_roundtrip_ifcrevolvedareasolid(),
        IfcType::IfcRevolvedAreaSolidTapered => lemma_roundtrip_ifcrevolvedareasolidtapered(),
        IfcType::IfcSweptDiskSolid => lemma_roundtrip_ifcsweptdisksolid(),
        IfcType::IfcSweptDiskSolidPolygonal => lemma_roundtrip_ifcsweptdisksolidpolygonal(),
        IfcType::IfcSurfaceCurveSweptAreaSolid => lemma_roundtrip_ifcsurfacecurvesweptareasolid(),
        IfcType::IfcFixedReferenceSweptAreaSolid => lemma_roundtrip_ifcfixedreferencesweptareasolid(),
        IfcType::IfcFacetedBrep => lemma_roundtrip_ifcfacetedbrep(),
        _ => {},
    }
}

proof fn lemma_roundtrip_part_2(t: IfcType)
    requires
        parse_yields_2(t),
    ensures
        lookup_upper(t.spec_name()) == Some(t),
{
    match t {
        IfcType::IfcFacetedBrepWithVoids => lemma_roundtrip_ifcfacetedbrepwithvoids(),
        IfcType::IfcAdvancedBrep => lemma_roundtrip_ifcadvancedbrep(),
        IfcType::IfcAdvancedBrepWithVoids => lemma_roundtrip_ifcadvancedbrepwithvoids(),
        IfcType::IfcTriangulatedFaceSet => lemma_roundtrip_ifctriangulatedfaceset(),
        IfcType::IfcPolygonalFaceSet => lemma_roundtrip_ifcpolygonalfaceset(),
        IfcType::IfcTessellatedFaceSet => lemma_roundtrip_ifctessellatedfaceset(),
        IfcType::IfcBooleanResult => lemma_roundtrip_ifcbooleanresult(),
        IfcType::IfcBooleanClippingResult => lemma_roundtrip_ifcbooleanclippingresult(),
        IfcType::IfcMappedItem => lemma_roundtrip_ifcmappeditem(),
        IfcType::IfcRepresentationMap => lemma_roundtrip_ifcrepresentationmap(),
        IfcType::IfcBlock => lemma_roundtrip_ifcblock(),
        IfcType::IfcRectangularPyramid => lemma_roundtrip_ifcrectangularpyramid(),
        IfcType::IfcRightCircularCone => lemma_roundtrip_ifcrightcircularcone(),
        IfcType::IfcRightCircularCylinder => lemma_roundtrip_ifcrightcircularcylinder(),
        IfcType::IfcSphere => lemma_roundtrip_ifcsphere(),
        IfcType::IfcHalfSpaceSolid => lemma_roundtrip_ifchalfspacesolid(),
        IfcType::IfcPolygonalBoundedHalfSpace => lemma_roundtrip_ifcpolygonalboundedhalfspace(),
        IfcType::IfcBoxedHalfSpace => lemma_roundtrip_ifcboxedhalfspace(),
        IfcType::IfcArbitraryClosedProfileDef => lemma_roundtrip_ifcarbitraryclosedprofiledef(),
        IfcType::IfcArbitraryProfileDefWithVoids => lemma_roundtrip_ifcarbitraryprofiledefwithvoids(),
        IfcType::IfcRectangleProfileDef => lemma_roundtrip_ifcrectangleprofiledef(),
        IfcType::IfcRectangleHollowProfileDef => lemma_roundtrip_ifcrectanglehollowprofiledef(),
        IfcType::IfcCircleProfileDef => lemma_roundtrip_ifccircleprofiledef(),
        IfcType::IfcCircleHollowProfileDef => lemma_roundtrip_ifccirclehollowprofiledef(),
        IfcType::IfcEllipseProfileDef => lemma_roundtrip_ifcellipseprofiledef(),
        IfcType::IfcIShapeProfileDef => lemma_roundtrip_ifcishapeprofiledef(),
        IfcType::IfcLShapeProfileDef => lemma_roundtrip_ifclshapeprofiledef(),
        IfcType::IfcTShapeProfileDef => lemma_roundtrip_ifctshapeprofiledef(),
        IfcType::IfcUShapeProfileDef => lemma_roundtrip_ifcushapeprofiledef(),
        IfcType::IfcCShapeProfileDef => lemma_roundtrip_ifccshapeprofiledef(),
        _ => {},
    }
}

proof fn lemma_roundtrip_part_3(t: IfcType)
    requires
        parse_yields_3(t),
    ensures
        lookup_upper(t.spec_name()) == Some(t),
{
    match t {
        IfcType::IfcZShapeProfileDef => lemma_roundtrip_ifczshapeprofiledef(),
        IfcType::IfcAsymmetricIShapeProfileDef => lemma_roundtrip_ifcasymmetricishapeprofiledef(),
        IfcType::IfcTrapeziumProfileDef => lemma_roundtrip_ifctrapeziumprofiledef(),
        IfcType::IfcCompositeProfileDef => lemma_roundtrip_ifccompositeprofiledef(),
        IfcType::IfcDerivedProfileDef => lemma_roundtrip_ifcderivedprofiledef(),
        IfcType::IfcCenterLineProfileDef => lemma_roundtrip_ifccenterlineprofiledef(),
        IfcType::IfcPolyline => lemma_roundtrip_ifcpolyline(),
        IfcType::IfcCompositeCurve => lemma_roundtrip_ifccompositecurve(),
        IfcType::IfcCompositeCurveSegment => lemma_roundtrip_ifccompositecurvesegment(),
        IfcType::IfcTrimmedCurve => lemma_roundtrip_ifctrimmedcurve(),
        IfcType::IfcCircle => lemma_roundtrip_ifccircle(),
        IfcType::IfcEllipse => lemma_roundtrip_ifcellipse(),
        IfcType::IfcLine => lemma_roundtrip_ifcline(),
        IfcType::IfcBSplineCurve => lemma_roundtrip_ifcbsplinecurve(),
        IfcType::IfcBSplineCurveWithKnots => lemma_roundtrip_ifcbsplinecurvewithknots(),
        IfcType::IfcRationalBSplineCurveWithKnots => lemma_roundtrip_ifcrationalbsplinecurvewithknots(),
        IfcType::IfcIndexedPolyCurve => lemma_roundtrip_ifcindexedpolycurve(),
        IfcType::IfcPlane => lemma_roundtrip_ifcplane(),
        IfcType::IfcCurveBoundedPlane => lemma_roundtrip_ifccurveboundedplane(),
        IfcType::IfcCylindricalSurface => lemma_roundtrip_ifccylindricalsurface(),
        IfcType::IfcBSplineSurface => lemma_roundtrip_ifcbsplinesurface(),
        IfcType::IfcBSplineSurfaceWithKnots => lemma_roundtrip_ifcbsplinesurfacewithknots(),
        IfcType::IfcRationalBSplineSurfaceWithKnots => lemma_roundtrip_ifcrationalbsplinesurfacewithknots(),
        IfcType::IfcCartesianPoint => lemma_roundtrip_ifccartesianpoint(),
        IfcType::IfcDirection => lemma_roundtrip_ifcdirection(),
        IfcType::IfcVector => lemma_roundtrip_ifcvector(),
        IfcType::IfcCartesianPointList2D => lemma_roundtrip_ifccartesianpointlist2d(),
        IfcType::IfcCartesianPointList3D => lemma_roundtrip_ifccartesianpointlist3d(),
        IfcType::IfcAxis2Placement2D => lemma_roundtrip_ifcaxis2placement2d(),
        IfcType::IfcAxis2Placement3D => lemma_roundtrip_ifcaxis2placement3d(),
        _ => {},
    }
}

proof fn lemma_roundtrip_part_4(t: IfcType)
    requires
        parse_yields_4(t),
    ensures
        lookup_upper(t.spec_name()) == Some(t),
{
    match t {
        IfcType::IfcLocalPlacement => lemma_roundtrip_ifclocalplacement(),
        IfcType::IfcCartesianTransformationOperator3D => lemma_roundtrip_ifccartesiantransformationoperator3d(),
        IfcType::IfcShapeRepresentation => lemma_roundtrip_ifcshaperepresentation(),
        IfcType::IfcProductDefinitionShape => lemma_roundtrip_ifcproductdefinitionshape(),
        IfcType::IfcGeometricRepresentationContext => lemma_roundtrip_ifcgeometricrepresentationcontext(),
        IfcType::IfcGeometricRepresentationSubContext => lemma_roundtrip_ifcgeometricrepresentationsubcontext(),
        IfcType::IfcClosedShell => lemma_roundtrip_ifcclosedshell(),
        IfcType::IfcOpenShell => lemma_roundtrip_ifcopenshell(),
        IfcType::IfcFace => lemma_roundtrip_ifcface(),
        IfcType::IfcFaceBound => lemma_roundtrip_ifcfacebound(),
        IfcType::IfcFaceOuterBound => lemma_roundtrip_ifcfaceouterbound(),
        IfcType::IfcPolyLoop => lemma_roundtrip_ifcpolyloop(),
        IfcType::IfcEdgeLoop => lemma_roundtrip_ifcedgeloop(),
        IfcType::IfcOrientedEdge => lemma_roundtrip_ifcorientededge(),
        IfcType::IfcEdgeCurve => lemma_roundtrip_ifcedgecurve(),
        IfcType::IfcVertexPoint => lemma_roundtrip_ifcvertexpoint(),
        IfcType::IfcConnectedFaceSet => lemma_roundtrip_ifcconnectedfaceset(),
        IfcType::IfcRelContainedInSpatialStructure => lemma_roundtrip_ifcrelcontainedinspatialstructure(),
        IfcType::IfcRelAggregates => lemma_roundtrip_ifcrelaggregates(),
        IfcType::IfcRelDefinesByProperties => lemma_roundtrip_ifcreldefinesbyproperties(),
        IfcType::IfcRelDefinesByType => lemma_roundtrip_ifcreldefinesbytype(),
        IfcType::IfcRelAssociatesMaterial => lemma_roundtrip_ifcrelassociatesmaterial(),
        IfcType::IfcRelVoidsElement => lemma_roundtrip_ifcrelvoidselement(),
        IfcType::IfcRelFillsElement => lemma_roundtrip_ifcrelfillselement(),
        IfcType::IfcRelConnectsPathElements => lemma_roundtrip_ifcrelconnectspathelements(),
        IfcType::IfcRelSpaceBoundary => lemma_roundtrip_ifcrelspaceboundary(),
        IfcType::IfcRelAssignsToGroup => lemma_roundtrip_ifcrelassignstogroup(),
        IfcType::IfcPropertySet => lemma_roundtrip_ifcpropertyset(),
        IfcType::IfcPropertySingleValue => lemma_roundtrip_ifcpropertysinglevalue(),
        IfcType::IfcPropertyEnumeratedValue => lemma_roundtrip_ifcpropertyenumeratedvalue(),
        _ => {},
    }
}

proof fn lemma_roundtrip_part_5(t: IfcType)
    requires
        parse_yields_5(t),
    ensures
        lookup_upper(t.spec_name()) == Some(t),
{
    match t {
        IfcType::IfcPropertyBoundedValue => lemma_roundtrip_ifcpropertyboundedvalue(),
        IfcType::IfcPropertyListValue => lemma_roundtrip_ifcpropertylistvalue(),
        IfcType::IfcPropertyTableValue => lemma_roundtrip_ifcpropertytablevalue(),
        IfcType::IfcComplexProperty => lemma_roundtrip_ifccomplexproperty(),
        IfcType::IfcElementQuantity => lemma_roundtrip_ifcelementquantity(),
        IfcType::IfcQuantityLength => lemma_roundtrip_ifcquantitylength(),
        IfcType::IfcQuantityArea => lemma_roundtrip_ifcquantityarea(),
        IfcType::IfcQuantityVolume => lemma_roundtrip_ifcquantityvolume(),
        IfcType::IfcQuantityCount => lemma_roundtrip_ifcquantitycount(),
        IfcType::IfcQuantityWeight => lemma_roundtrip_ifcquantityweight(),
        IfcType::IfcQuantityTime => lemma_roundtrip_ifcquantitytime(),
        IfcType::IfcMaterial => lemma_roundtrip_ifcmaterial(),
        IfcType::IfcMaterialLayer => lemma_roundtrip_ifcmateriallayer(),
        IfcType::IfcMaterialLayerSet => lemma_roundtrip_ifcmateriallayerset(),
        IfcType::IfcMaterialLayerSetUsage => lemma_roundtrip_ifcmateriallayersetusage(),
        IfcType::IfcMaterialList => lemma_roundtrip_ifcmateriallist(),
        IfcType::IfcMaterialConstituentSet => lemma_roundtrip_ifcmaterialconstituentset(),
        IfcType::IfcMaterialConstituent => lemma_roundtrip_ifcmaterialconstituent(),
        IfcType::IfcMaterialProfile => lemma_roundtrip_ifcmaterialprofile(),
        IfcType::IfcMaterialProfileSet => lemma_roundtrip_ifcmaterialprofileset(),
        IfcType::IfcMaterialProfileSetUsage => lemma_roundtrip_ifcmaterialprofilesetusage(),
        IfcType::IfcStyledItem => lemma_roundtrip_ifcstyleditem(),
        IfcType::IfcSurfaceStyle => lemma_roundtrip_ifcsurfacestyle(),
        IfcType::IfcSurfaceStyleRendering => lemma_roundtrip_ifcsurfacestylerendering(),
        IfcType::IfcColourRgb => lemma_roundtrip_ifccolourrgb(),
        IfcType::IfcPresentationLayerAssignment => lemma_roundtrip_ifcpresentationlayerassignment(),
        IfcType::IfcLightFixture => lemma_roundtrip_ifclightfixture(),
        IfcType::IfcLightFixtureType => lemma_roundtrip_ifclightfixturetype(),
        IfcType::IfcLightSource => lemma_roundtrip_ifclightsource(),
        IfcType::IfcLightSourceAmbient => lemma_roundtrip_ifclightsourceambient(),
        _ => {},
    }
}

proof fn lemma_roundtrip_part_6(t: IfcType)
    requires
        parse_yields_6(t),
    ensures
        lookup_upper(t.spec_name()) == Some(t),
{
    match t {
        IfcType::IfcLightSourceDirectional => lemma_roundtrip_ifclightsourcedirectional(),
        IfcType::IfcLightSourceGoniometric => lemma_roundtrip_ifclightsourcegoniometric(),
        IfcType::IfcLightSourcePositional => lemma_roundtrip_ifclightsourcepositional(),
        IfcType::IfcLightSourceSpot => lemma_roundtrip_ifclightsourcespot(),
        IfcType::IfcLightIntensityDistribution => lemma_roundtrip_ifclightintensitydistribution(),
        IfcType::IfcLightDistributionData => lemma_roundtrip_ifclightdistributiondata(),
        IfcType::IfcUnitAssignment => lemma_roundtrip_ifcunitassignment(),
        IfcType::IfcSIUnit => lemma_roundtrip_ifcsiunit(),
        IfcType::IfcConversionBasedUnit => lemma_roundtrip_ifcconversionbasedunit(),
        IfcType::IfcDerivedUnit => lemma_roundtrip_ifcderivedunit(),
        IfcType::IfcMeasureWithUnit => lemma_roundtrip_ifcmeasurewithunit(),
        IfcType::IfcWallType => lemma_roundtrip_ifcwalltype(),
        IfcType::IfcSlabType => lemma_roundtrip_ifcslabtype(),
        IfcType::IfcBeamType => lemma_roundtrip_ifcbeamtype(),
        IfcType::IfcColumnType => lemma_roundtrip_ifccolumntype(),
        IfcType::IfcDoorType => lemma_roundtrip_ifcdoortype(),
        IfcType::IfcWindowType => lemma_roundtrip_ifcwindowtype(),
        IfcType::IfcCoveringType => lemma_roundtrip_ifccoveringtype(),
        IfcType::IfcRailingType => lemma_roundtrip_ifcrailingtype(),
        IfcType::IfcStairType => lemma_roundtrip_ifcstairtype(),
        IfcType::IfcStairFlightType => lemma_roundtrip_ifcstairflighttype(),
        IfcType::IfcRampType => lemma_roundtrip_ifcramptype(),
        IfcType::IfcRampFlightType => lemma_roundtrip_ifcrampflighttype(),
        IfcType::IfcRoofType => lemma_roundtrip_ifcrooftype(),
        IfcType::IfcMemberType => lemma_roundtrip_ifcmembertype(),
        IfcType::IfcPlateType => lemma_roundtrip_ifcplatetype(),
        IfcType::IfcFootingType => lemma_roundtrip_ifcfootingtype(),
        IfcType::IfcPileType => lemma_roundtrip_ifcpiletype(),
        IfcType::IfcBuildingElementProxyType => lemma_roundtrip_ifcbuildingelementproxytype(),
        IfcType::IfcAlignment => lemma_roundtrip_ifcalignment(),
        _ => {},
    }
}

proof fn lemma_roundtrip_part_7(t: IfcType)
    requires
        parse_yields_7(t),
    ensures
        lookup_upper(t.spec_name()) == Some(t),
{
    match t {
        IfcType::IfcAlignmentCant => lemma_roundtrip_ifcalignmentcant(),
        IfcType::IfcAlignmentHorizontal => lemma_roundtrip_ifcalignmenthorizontal(),
        IfcType::IfcAlignmentVertical => lemma_roundtrip_ifcalignmentvertical(),
        IfcType::IfcAlignmentSegment => lemma_roundtrip_ifcalignmentsegment(),
        IfcType::IfcRoad => lemma_roundtrip_ifcroad(),
        IfcType::IfcRoadPart => lemma_roundtrip_ifcroadpart(),
        IfcType::IfcBridge => lemma_roundtrip_ifcbridge(),
        IfcType::IfcBridgePart => lemma_roundtrip_ifcbridgepart(),
        IfcType::IfcRailway => lemma_roundtrip_ifcrailway(),
        IfcType::IfcRailwayPart => lemma_roundtrip_ifcrailwaypart(),
        IfcType::IfcFacility => lemma_roundtrip_ifcfacility(),
        IfcType::IfcFacilityPart => lemma_roundtrip_ifcfacilitypart(),
        IfcType::IfcGeotechnicalElement => lemma_roundtrip_ifcgeotechnicalelement(),
        IfcType::IfcBorehole => lemma_roundtrip_ifcborehole(),
        IfcType::IfcGeomodel => lemma_roundtrip_ifcgeomodel(),
        IfcType::IfcGeoslice => lemma_roundtrip_ifcgeoslice(),
        IfcType::IfcSolidStratum => lemma_roundtrip_ifcsolidstratum(),
        IfcType::IfcVoidStratum => lemma_roundtrip_ifcvoidstratum(),
        IfcType::IfcWaterStratum => lemma_roundtrip_ifcwaterstratum(),
        IfcType::IfcEarthworksCut => lemma_roundtrip_ifcearthworkscut(),
        IfcType::IfcEarthworksFill => lemma_roundtrip_ifcearthworksfill(),
        IfcType::IfcEarthworksElement => lemma_roundtrip_ifcearthworkselement(),
        IfcType::IfcPavement => lemma_roundtrip_ifcpavement(),
        IfcType::IfcCourse => lemma_roundtrip_ifccourse(),
        IfcType::IfcKerb => lemma_roundtrip_ifckerb(),
        IfcType::IfcDeepFoundation => lemma_roundtrip_ifcdeepfoundation(),
        _ => {},
    }
}

/// The wire name of a variant of the parse table is parsed to it.
proof fn lemma_roundtrip(t: IfcType)
    requires
        parse_yields(t),
    ensures
        lookup_upper(t.spec_name()) == Some(t),
{
    if parse_yields_0(t) {
        lemma_roundtrip_part_0(t);
    }
    if parse_yields_1(t) {
        lemma_roundtrip_part_1(t);
    }
    if parse_yields_2(t) {
        lemma_roundtrip_part_2(t);
    }
    if parse_yields_3(t) {
        lemma_roundtrip_part_3(t);
    }
    if parse_yields_4(t) {
        lemma_roundtrip_part_4(t);
    }
    if parse_yields_5(t) {
        lemma_roundtrip_part_5(t);
    }
    if parse_yields_6(t) {
        lemma_roundtrip_part_6(t);
    }
    if parse_yields_7(t) {
        lemma_roundtrip_part_7(t);
    }
}

/// Parsing the wire name of a named variant that parsing can return gives
/// that variant back.
pub proof fn law_name_parses_back(t: IfcType)
    requires
        !(t is Unknown),
        (exists|s: Seq<char>| lookup_upper(s) == Some(t)),
    ensures
        lookup_upper(t.spec_name()) == Some(t),
{
    let s = choose|s: Seq<char>| lookup_upper(s) == Some(t);
    lemma_lookup_part_0_yields(s);
    lemma_lookup_part_1_yields(s);
    lemma_lookup_part_2_yields(s);
    lemma_lookup_part_3_yields(s);
    lemma_lookup_part_4_yields(s);
    lemma_lookup_part_5_yields(s);
    lemma_lookup_part_6_yields(s);
    lemma_lookup_part_7_yields(s);
    lemma_roundtrip(t);
}

} // verus!
