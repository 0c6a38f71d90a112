//! The model API exposed to native front ends: plain record types, the
//! error type, and [`IfcModel`], an entity table with the queries the
//! Swift/Kotlin bindings call.

use vstd::prelude::*;

use crate::model::ifc_type::{parsed_as, str_to_uppercase, to_uppercase, IfcType};
use crate::model::ifc_type_table::lookup_upper;
use crate::model::types::ModelMetadata as HeaderMetadata;
use crate::text::{ascii_upper, is_ascii_text, decimal, decimal_chars, push_chars, push_str, str_eq, string_from_chars};

verus! {

/// Errors of the model API.
#[derive(Clone, Debug)]
pub enum IfcError {
    ParseError { message: String },
    IoError { message: String },
    EntityNotFound { id: u32 },
}

impl IfcError {
    /// The human-readable message of an error.
    pub open spec fn spec_message(self) -> Seq<char> {
        match self {
            IfcError::ParseError { message } => "Parse error: "@ + message@,
            IfcError::IoError { message } => "IO error: "@ + message@,
            IfcError::EntityNotFound { id } => "Entity not found: #"@ + decimal(id as nat),
        }
    }

    /// The human-readable message of an error, e.g.
    /// `"Entity not found: #42"`.
    pub fn message(&self) -> (r: String)
        ensures
            r@ == self.spec_message(),
    {
        let mut v: Vec<char> = Vec::new();
        match self {
            IfcError::ParseError { message } => {
                push_str(&mut v, "Parse error: ");
                push_str(&mut v, message.as_str());
            },
            IfcError::IoError { message } => {
                push_str(&mut v, "IO error: ");
                push_str(&mut v, message.as_str());
            },
            IfcError::EntityNotFound { id } => {
                push_str(&mut v, "Entity not found: #");
                let d = decimal_chars(*id as u64);
                push_chars(&mut v, &d);
            },
        }
        string_from_chars(&v)
    }
}

/// Header metadata of a model.
#[derive(Clone, Debug)]
pub struct ModelMetadata {
    pub schema_version: String,
    pub originating_system: Option<String>,
    pub preprocessor_version: Option<String>,
    pub file_name: Option<String>,
    pub file_description: Option<String>,
    pub author: Option<String>,
    pub organization: Option<String>,
    pub timestamp: Option<String>,
}

/// Summary of one entity.
#[derive(Clone, Debug)]
pub struct EntityInfo {
    pub id: u32,
    pub ifc_type: String,
    pub has_geometry: bool,
    pub is_spatial: bool,
}

/// One property of a property set.
#[derive(Clone, Debug)]
pub struct Property {
    pub name: String,
    pub value: String,
    pub unit: Option<String>,
}

/// A named property set.
#[derive(Clone, Debug)]
pub struct PropertySet {
    pub name: String,
    pub properties: Vec<Property>,
}

/// Number of entities of one IFC type.
#[derive(Clone, Debug)]
pub struct TypeCount {
    pub ifc_type: String,
    pub count: u32,
}

/// Element type for IFC export.
#[derive(Clone, Debug)]
pub enum FfiElementKind {
    Wall,
    Door,
    Window,
    Opening,
    Furniture { category: String },
}

/// Project metadata for the IFC file header.
#[derive(Clone, Debug)]
pub struct FfiProjectInfo {
    pub project_name: String,
    pub site_name: String,
    pub building_name: String,
    pub storey_name: String,
    pub author: String,
    pub organization: String,
}

/// IFC file writer handle (converts room-scan geometry to IFC 2x3).
#[derive(Clone, Copy, Debug)]
pub struct IfcWriter;

impl IfcWriter {
    /// Create a new IFC writer.
    pub fn new() -> (r: Self)
        ensures
            r == IfcWriter,
    {
        IfcWriter
    }
}

/// What the model knows of one entity: its id and type, the string
/// attributes the property reader exposes (GlobalId, Name, Description,
/// ObjectType, Tag), the storey that contains it and its property sets.
#[derive(Clone, Debug)]
pub struct EntityRecord {
    pub id: u32,
    pub ifc_type: IfcType,
    pub global_id: Option<String>,
    pub name: Option<String>,
    pub description: Option<String>,
    pub object_type: Option<String>,
    pub tag: Option<String>,
    pub storey: Option<u32>,
    pub property_sets: Vec<PropertySet>,
}

/// No two records share an id.
pub open spec fn ids_unique(es: Seq<EntityRecord>) -> bool {
    forall|i: int, j: int| 0 <= i < j < es.len() ==> #[trigger] es[i].id != #[trigger] es[j].id
}

/// Index of the first record with the given id at or after `i`.
pub open spec fn index_of_from(es: Seq<EntityRecord>, id: u32, i: int) -> Option<int>
    decreases es.len() - i,
{
    if i < 0 || i >= es.len() {
        None
    } else if es[i].id == id {
        Some(i)
    } else {
        index_of_from(es, id, i + 1)
    }
}

/// The record with the given id.
pub open spec fn record_of(es: Seq<EntityRecord>, id: u32) -> Option<EntityRecord> {
    match index_of_from(es, id, 0) {
        Some(i) => Some(es[i]),
        None => None,
    }
}

/// Ids of the records, in model order.
pub open spec fn ids_of(es: Seq<EntityRecord>) -> Seq<u32> {
    Seq::new(es.len(), |i: int| es[i].id)
}

/// Ids of the records whose type can carry geometry, in model order.
pub open spec fn geometry_ids(es: Seq<EntityRecord>) -> Seq<u32>
    decreases es.len(),
{
    if es.len() == 0 {
        Seq::empty()
    } else {
        geometry_ids(es.drop_last()) + if es.last().ifc_type.spec_has_geometry() {
            seq![es.last().id]
        } else {
            Seq::empty()
        }
    }
}

/// Ids of the records contained in the given storey, in model order.
pub open spec fn storey_element_ids(es: Seq<EntityRecord>, storey: u32) -> Seq<u32>
    decreases es.len(),
{
    if es.len() == 0 {
        Seq::empty()
    } else {
        storey_element_ids(es.drop_last(), storey) + if es.last().storey == Some(storey) {
            seq![es.last().id]
        } else {
            Seq::empty()
        }
    }
}

/// The first property with the given name, in order.
pub open spec fn first_named(ps: Seq<Property>, name: Seq<char>) -> Option<Property>
    decreases ps.len(),
{
    if ps.len() == 0 {
        None
    } else if ps[0].name@ == name {
        Some(ps[0])
    } else {
        first_named(ps.drop_first(), name)
    }
}

/// The first property with the given name over the property sets, in
/// order.
pub open spec fn property_in_sets(sets: Seq<PropertySet>, name: Seq<char>) -> Option<Property>
    decreases sets.len(),
{
    if sets.len() == 0 {
        None
    } else {
        match first_named(sets[0].properties@, name) {
            Some(p) => Some(p),
            None => property_in_sets(sets.drop_first(), name),
        }
    }
}

/// The record's type is the one a name parses to (see [`parsed_as`]).
pub open spec fn type_matches(t: IfcType, upper: Seq<char>, spelling: Seq<char>) -> bool {
    match lookup_upper(upper) {
        Some(k) => t == k,
        None => t matches IfcType::Unknown(x) && x@ == spelling,
    }
}

/// Number of records whose type is the one the name parses to.
pub open spec fn count_type(es: Seq<EntityRecord>, upper: Seq<char>, spelling: Seq<char>) -> nat
    decreases es.len(),
{
    if es.len() == 0 {
        0
    } else {
        count_type(es.drop_last(), upper, spelling) + if type_matches(es.last().ifc_type, upper, spelling) {
            1nat
        } else {
            0nat
        }
    }
}

/// Ids of the records whose type is the one the name parses to, in model
/// order.
pub open spec fn typed_ids(es: Seq<EntityRecord>, upper: Seq<char>, spelling: Seq<char>) -> Seq<u32>
    decreases es.len(),
{
    if es.len() == 0 {
        Seq::empty()
    } else {
        typed_ids(es.drop_last(), upper, spelling) + if type_matches(es.last().ifc_type, upper, spelling) {
            seq![es.last().id]
        } else {
            Seq::empty()
        }
    }
}

/// Listing the entities of a type gives as many ids as counting them.
pub proof fn law_listed_as_many_as_counted(es: Seq<EntityRecord>, upper: Seq<char>, spelling: Seq<char>)
    ensures
        typed_ids(es, upper, spelling).len() == count_type(es, upper, spelling),
    decreases es.len(),
{
    if es.len() > 0 {
        law_listed_as_many_as_counted(es.drop_last(), upper, spelling);
    }
}

/// A clone of an optional string equal to it.
fn clone_opt_string(s: &Option<String>) -> (r: Option<String>)
    ensures
        r == *s,
{
    match s {
        Some(x) => Some(x.clone()),
        None => None,
    }
}

/// A copy of a property equal to it.
fn clone_property(p: &Property) -> (r: Property)
    ensures
        r == *p,
{
    Property { name: p.name.clone(), value: p.value.clone(), unit: clone_opt_string(&p.unit) }
}

/// A copy of a property set equal to it.
fn clone_property_set(ps: &PropertySet) -> (r: PropertySet)
    ensures
        r.name == ps.name,
        r.properties@ == ps.properties@,
{
    let mut props: Vec<Property> = Vec::new();
    let mut i: usize = 0;
    while i < ps.properties.len()
        invariant
            i <= ps.properties@.len(),
            props@ == ps.properties@.take(i as int),
        decreases ps.properties@.len() - i,
    {
        props.push(clone_property(&ps.properties[i]));
        i = i + 1;
        assert(props@ =~= ps.properties@.take(i as int));
    }
    assert(ps.properties@.take(i as int) =~= ps.properties@);
    PropertySet { name: ps.name.clone(), properties: props }
}

/// An IFC model held as an entity table with unique ids, plus its header
/// metadata.
pub struct IfcModel {
    metadata: HeaderMetadata,
    entities: Vec<EntityRecord>,
}

impl IfcModel {
    /// Ids are unique.
    #[verifier::type_invariant]
    spec fn unique(self) -> bool {
        ids_unique(self.entities@)
    }

    /// The entity records, in model order.
    pub closed spec fn entities_view(self) -> Seq<EntityRecord> {
        self.entities@
    }

    /// The header metadata.
    pub closed spec fn metadata_view(self) -> HeaderMetadata {
        self.metadata
    }

    /// Build a model from header metadata and entity records; `None` when
    /// two records share an id.
    pub fn from_entities(metadata: HeaderMetadata, entities: Vec<EntityRecord>) -> (r: Option<Self>)
        ensures
            ids_unique(entities@) ==> (r matches Some(m) && m.entities_view() == entities@
                && m.metadata_view() == metadata),
            !ids_unique(entities@) ==> r is None,
    {
        let n = entities.len();
        let mut i: usize = 0;
        while i < n
            invariant
                n == entities@.len(),
                i <= n,
                forall|a: int, b: int| 0 <= a < b < n && a < i ==> #[trigger] entities@[a].id != #[trigger] entities@[b].id,
            decreases n - i,
        {
            let mut j: usize = i + 1;
            while j < n
                invariant
                    n == entities@.len(),
                    i < n,
                    i < j <= n,
                    forall|a: int, b: int| 0 <= a < b < n && a < i ==> #[trigger] entities@[a].id != #[trigger] entities@[b].id,
                    forall|b: int| i < b < j ==> entities@[i as int].id != #[trigger] entities@[b].id,
                decreases n - j,
            {
                if entities[i].id == entities[j].id {
                    return None;
                }
                j = j + 1;
            }
            i = i + 1;
        }
        Some(IfcModel { metadata, entities })
    }

    /// Index of the record with the given id.
    fn index_of(&self, id: u32) -> (r: Option<usize>)
        ensures
            match r {
                Some(i) => index_of_from(self.entities_view(), id, 0) == Some(i as int)
                    && i < self.entities_view().len(),
                None => index_of_from(self.entities_view(), id, 0) is None,
            },
    {
        let mut i: usize = 0;
        while i < self.entities.len()
            invariant
                i <= self.entities@.len(),
                index_of_from(self.entities@, id, 0) == index_of_from(self.entities@, id, i as int),
            decreases self.entities@.len() - i,
        {
            if self.entities[i].id == id {
                return Some(i);
            }
            i = i + 1;
        }
        None
    }

    /// Header metadata of the model.
    pub fn metadata(&self) -> (r: ModelMetadata)
        ensures
            r.schema_version == self.metadata_view().schema_version,
            r.originating_system == self.metadata_view().originating_system,
            r.preprocessor_version == self.metadata_view().preprocessor_version,
            r.file_name == self.metadata_view().file_name,
            r.file_description == self.metadata_view().file_description,
            r.author == self.metadata_view().author,
            r.organization == self.metadata_view().organization,
            r.timestamp == self.metadata_view().timestamp,
    {
        let m = &self.metadata;
        ModelMetadata {
            schema_version: m.schema_version.clone(),
            originating_system: clone_opt_string(&m.originating_system),
            preprocessor_version: clone_opt_string(&m.preprocessor_version),
            file_name: clone_opt_string(&m.file_name),
            file_description: clone_opt_string(&m.file_description),
            author: clone_opt_string(&m.author),
            organization: clone_opt_string(&m.organization),
            timestamp: clone_opt_string(&m.timestamp),
        }
    }

    /// The schema version named in the header.
    pub fn schema_version(&self) -> (r: String)
        ensures
            r == self.metadata_view().schema_version,
    {
        self.metadata.schema_version.clone()
    }

    /// Number of entities, as a `u32` (truncated modulo 2^32).
    pub fn entity_count(&self) -> (r: u32)
        ensures
            r == self.entities_view().len() as u32,
    {
        self.entities.len() as u32
    }

    /// Ids of all entities, in model order.
    pub fn all_entity_ids(&self) -> (r: Vec<u32>)
        ensures
            r@ == ids_of(self.entities_view()),
    {
        let mut v: Vec<u32> = Vec::new();
        let mut i: usize = 0;
        while i < self.entities.len()
            invariant
                i <= self.entities@.len(),
                v@ == ids_of(self.entities@.take(i as int)),
            decreases self.entities@.len() - i,
        {
            v.push(self.entities[i].id);
            i = i + 1;
            assert(v@ =~= ids_of(self.entities@.take(i as int)));
        }
        assert(self.entities@.take(i as int) =~= self.entities@);
        v
    }

    /// Summary of the entity with the given id: its id, type name, and
    /// whether its type carries geometry and is spatial.
    pub fn get_entity(&self, id: u32) -> (r: Option<EntityInfo>)
        ensures
            match record_of(self.entities_view(), id) {
                Some(rec) => r matches Some(info) && info.id == rec.id && info.id == id
                    && info.ifc_type@ == rec.ifc_type.spec_name()
                    && info.has_geometry == rec.ifc_type.spec_has_geometry()
                    && info.is_spatial == rec.ifc_type.spec_is_spatial(),
                None => r is None,
            },
    {
        match self.index_of(id) {
            Some(i) => {
                proof {
                    lemma_index_of_from(self.entities@, id, 0);
                }
                let rec = &self.entities[i];
                Some(EntityInfo {
                    id: rec.id,
                    ifc_type: rec.ifc_type.name().to_owned(),
                    has_geometry: rec.ifc_type.has_geometry(),
                    is_spatial: rec.ifc_type.is_spatial(),
                })
            },
            None => None,
        }
    }

    /// Number of entities whose type is the one `type_label` parses to
    /// (see [`IfcType::parse`]), as a `u32` (truncated modulo 2^32).
    pub fn count_by_type(&self, type_label: &str) -> (r: u32)
        ensures
            r == count_type(self.entities_view(), str_to_uppercase(type_label@), type_label@) as u32,
            is_ascii_text(type_label@) ==> r == count_type(self.entities_view(), ascii_upper(type_label@), type_label@) as u32,
    {
        let upper_text = to_uppercase(type_label);
        let t = IfcType::from_upper_name(upper_text.as_str(), type_label);
        let ghost upper = upper_text@;
        let mut c: usize = 0;
        let mut i: usize = 0;
        while i < self.entities.len()
            invariant
                parsed_as(t, upper, type_label@),
                i <= self.entities@.len(),
                c == count_type(self.entities@.take(i as int), upper, type_label@),
                c <= i,
            decreases self.entities@.len() - i,
        {
            assert(self.entities@.take(i + 1).drop_last() =~= self.entities@.take(i as int));
            let same = same_type_as_parsed(&self.entities[i].ifc_type, &t, Ghost(upper), Ghost(type_label@));
            if same {
                c = c + 1;
            }
            i = i + 1;
        }
        assert(self.entities@.take(i as int) =~= self.entities@);
        c as u32
    }

    /// Ids of the entities whose type is the one the name parses to (see
    /// [`IfcType::parse`]), in model order.
    pub fn entities_by_type(&self, type_label: &str) -> (r: Vec<u32>)
        ensures
            r@ == typed_ids(self.entities_view(), str_to_uppercase(type_label@), type_label@),
            is_ascii_text(type_label@) ==> r@ == typed_ids(self.entities_view(), ascii_upper(type_label@), type_label@),
    {
        let upper_text = to_uppercase(type_label);
        let t = IfcType::from_upper_name(upper_text.as_str(), type_label);
        let ghost upper = upper_text@;
        let mut ids: Vec<u32> = Vec::new();
        let mut i: usize = 0;
        while i < self.entities.len()
            invariant
                parsed_as(t, upper, type_label@),
                i <= self.entities@.len(),
                ids@ == typed_ids(self.entities@.take(i as int), upper, type_label@),
            decreases self.entities@.len() - i,
        {
            assert(self.entities@.take(i + 1).drop_last() =~= self.entities@.take(i as int));
            let same = same_type_as_parsed(&self.entities[i].ifc_type, &t, Ghost(upper), Ghost(type_label@));
            if same {
                ids.push(self.entities[i].id);
            }
            i = i + 1;
            assert(ids@ =~= typed_ids(self.entities@.take(i as int), upper, type_label@));
        }
        assert(self.entities@.take(i as int) =~= self.entities@);
        ids
    }

    /// Name attribute of the entity with the given id.
    pub fn entity_name(&self, id: u32) -> (r: Option<String>)
        ensures
            r == match record_of(self.entities_view(), id) {
                Some(rec) => rec.name,
                None => None,
            },
    {
        match self.index_of(id) {
            Some(i) => clone_opt_string(&self.entities[i].name),
            None => None,
        }
    }

    /// GlobalId attribute of the entity with the given id.
    pub fn entity_global_id(&self, id: u32) -> (r: Option<String>)
        ensures
            r == match record_of(self.entities_view(), id) {
                Some(rec) => rec.global_id,
                None => None,
            },
    {
        match self.index_of(id) {
            Some(i) => clone_opt_string(&self.entities[i].global_id),
            None => None,
        }
    }

    /// Description attribute of the entity with the given id.
    pub fn entity_description(&self, id: u32) -> (r: Option<String>)
        ensures
            r == match record_of(self.entities_view(), id) {
                Some(rec) => rec.description,
                None => None,
            },
    {
        match self.index_of(id) {
            Some(i) => clone_opt_string(&self.entities[i].description),
            None => None,
        }
    }

    /// ObjectType attribute of the entity with the given id.
    pub fn entity_object_type(&self, id: u32) -> (r: Option<String>)
        ensures
            r == match record_of(self.entities_view(), id) {
                Some(rec) => rec.object_type,
                None => None,
            },
    {
        match self.index_of(id) {
            Some(i) => clone_opt_string(&self.entities[i].object_type),
            None => None,
        }
    }

    /// Tag attribute of the entity with the given id.
    pub fn entity_tag(&self, id: u32) -> (r: Option<String>)
        ensures
            r == match record_of(self.entities_view(), id) {
                Some(rec) => rec.tag,
                None => None,
            },
    {
        match self.index_of(id) {
            Some(i) => clone_opt_string(&self.entities[i].tag),
            None => None,
        }
    }

    /// Property sets of the entity with the given id (none for an unknown
    /// id).
    pub fn property_sets(&self, id: u32) -> (r: Vec<PropertySet>)
        ensures
            match record_of(self.entities_view(), id) {
                Some(rec) => r@.len() == rec.property_sets@.len() && forall|k: int| 0 <= k < r@.len()
                    ==> (#[trigger] r@[k]).name == rec.property_sets@[k].name
                    && r@[k].properties@ == rec.property_sets@[k].properties@,
                None => r@.len() == 0,
            },
    {
        let mut out: Vec<PropertySet> = Vec::new();
        match self.index_of(id) {
            Some(i) => {
                let sets = &self.entities[i].property_sets;
                let mut k: usize = 0;
                while k < sets.len()
                    invariant
                        k <= sets@.len(),
                        out@.len() == k,
                        forall|j: int| 0 <= j < k ==> (#[trigger] out@[j]).name == sets@[j].name
                            && out@[j].properties@ == sets@[j].properties@,
                    decreases sets@.len() - k,
                {
                    out.push(clone_property_set(&sets[k]));
                    k = k + 1;
                }
                out
            },
            None => out,
        }
    }

    /// The first property with the given name, searching the entity's
    /// property sets in order (none for an unknown id or name).
    pub fn get_property(&self, id: u32, name: &str) -> (r: Option<Property>)
        ensures
            r == match record_of(self.entities_view(), id) {
                Some(rec) => property_in_sets(rec.property_sets@, name@),
                None => None,
            },
    {
        match self.index_of(id) {
            Some(i) => {
                proof {
                    lemma_index_of_from(self.entities@, id, 0);
                }
                let sets = &self.entities[i].property_sets;
                let ghost target = property_in_sets(sets@, name@);
                assert(record_of(self.entities@, id) == Some(self.entities@[i as int]));
                let mut k: usize = 0;
                assert(sets@.skip(0) =~= sets@);
                while k < sets.len()
                    invariant
                        target == match record_of(self.entities_view(), id) {
                            Some(rec) => property_in_sets(rec.property_sets@, name@),
                            None => None,
                        },
                        k <= sets@.len(),
                        target == property_in_sets(sets@.skip(k as int), name@),
                    decreases sets@.len() - k,
                {
                    let ps = &sets[k].properties;
                    let mut j: usize = 0;
                    assert(sets@.skip(k as int)[0] == sets@[k as int]);
                    assert(ps@.skip(0) =~= ps@);
                    while j < ps.len()
                        invariant
                            target == match record_of(self.entities_view(), id) {
                                Some(rec) => property_in_sets(rec.property_sets@, name@),
                                None => None,
                            },
                            k < sets@.len(),
                            *ps == sets@[k as int].properties,
                            target == property_in_sets(sets@.skip(k as int), name@),
                            sets@.skip(k as int)[0] == sets@[k as int],
                            j <= ps@.len(),
                            first_named(ps@, name@) == first_named(ps@.skip(j as int), name@),
                        decreases ps@.len() - j,
                    {
                        assert(ps@.skip(j as int).drop_first() =~= ps@.skip(j + 1));
                        if str_eq(ps[j].name.as_str(), name) {
                            proof {
                                assert(ps@.skip(j as int)[0] == ps@[j as int]);
                                assert(first_named(ps@, name@) == Some(ps@[j as int]));
                                assert(sets@.skip(k as int)[0].properties@ == ps@);
                                assert(property_in_sets(sets@.skip(k as int), name@) == Some(ps@[j as int]));
                                assert(target == Some(ps@[j as int]));
                            }
                            return Some(clone_property(&ps[j]));
                        }
                        j = j + 1;
                    }
                    assert(sets@.skip(k as int).drop_first() =~= sets@.skip(k + 1));
                    assert(ps@.skip(j as int) =~= Seq::<Property>::empty());
                    k = k + 1;
                }
                assert(sets@.skip(k as int) =~= Seq::<PropertySet>::empty());
                None
            },
            None => None,
        }
    }

    /// The storey that contains the element with the given id.
    pub fn containing_storey(&self, element_id: u32) -> (r: Option<u32>)
        ensures
            r == match record_of(self.entities_view(), element_id) {
                Some(rec) => rec.storey,
                None => None,
            },
    {
        match self.index_of(element_id) {
            Some(i) => self.entities[i].storey,
            None => None,
        }
    }

    /// Ids of the elements contained in the given storey, in model order.
    pub fn elements_in_storey(&self, storey_id: u32) -> (r: Vec<u32>)
        ensures
            r@ == storey_element_ids(self.entities_view(), storey_id),
    {
        let mut v: Vec<u32> = Vec::new();
        let mut i: usize = 0;
        while i < self.entities.len()
            invariant
                i <= self.entities@.len(),
                v@ == storey_element_ids(self.entities@.take(i as int), storey_id),
            decreases self.entities@.len() - i,
        {
            assert(self.entities@.take(i + 1).drop_last() =~= self.entities@.take(i as int));
            if self.entities[i].storey == Some(storey_id) {
                v.push(self.entities[i].id);
            }
            i = i + 1;
            assert(v@ =~= storey_element_ids(self.entities@.take(i as int), storey_id));
        }
        assert(self.entities@.take(i as int) =~= self.entities@);
        v
    }

    /// Ids of every entity whose type can carry geometry, in model order.
    pub fn all_geometry_ids(&self) -> (r: Vec<u32>)
        ensures
            r@ == geometry_ids(self.entities_view()),
    {
        let mut v: Vec<u32> = Vec::new();
        let mut i: usize = 0;
        while i < self.entities.len()
            invariant
                i <= self.entities@.len(),
                v@ == geometry_ids(self.entities@.take(i as int)),
            decreases self.entities@.len() - i,
        {
            assert(self.entities@.take(i + 1).drop_last() =~= self.entities@.take(i as int));
            if self.entities[i].ifc_type.has_geometry() {
                v.push(self.entities[i].id);
            }
            i = i + 1;
            assert(v@ =~= geometry_ids(self.entities@.take(i as int)));
        }
        assert(self.entities@.take(i as int) =~= self.entities@);
        v
    }
}

/// [`index_of_from`] finds a record with the requested id.
pub proof fn lemma_index_of_from(es: Seq<EntityRecord>, id: u32, i: int)
    ensures
        index_of_from(es, id, i) matches Some(k) ==> (0 <= i <= k < es.len() && es[k].id == id),
    decreases es.len() - i,
{
    if 0 <= i < es.len() && es[i].id != id {
        lemma_index_of_from(es, id, i + 1);
    }
}

/// Counting by a recognised type name ignores ASCII case: two names with
/// the same ASCII upper case that names a known type count the same
/// entities (the count of [`IfcModel::count_by_type`] for ASCII names).
pub proof fn law_count_ignores_ascii_case(es: Seq<EntityRecord>, a: Seq<char>, b: Seq<char>)
    requires
        ascii_upper(a) == ascii_upper(b),
        lookup_upper(ascii_upper(a)) is Some,
    ensures
        count_type(es, ascii_upper(a), a) == count_type(es, ascii_upper(b), b),
    decreases es.len(),
{
    if es.len() > 0 {
        law_count_ignores_ascii_case(es.drop_last(), a, b);
    }
}

/// With unique ids, the record found for a record's id is that record.
proof fn lemma_index_of_unique(es: Seq<EntityRecord>, k: int, i: int)
    requires
        ids_unique(es),
        0 <= i <= k < es.len(),
    ensures
        index_of_from(es, es[k].id, i) == Some(k),
    decreases k - i,
{
    if i < k {
        assert(es[i].id != es[k].id);
        lemma_index_of_unique(es, k, i + 1);
    }
}

/// The entity with the given id exists and its type can carry geometry.
pub open spec fn has_geometry_by_id(es: Seq<EntityRecord>, id: u32) -> bool {
    record_of(es, id) matches Some(rec) && rec.ifc_type.spec_has_geometry()
}

/// [`has_geometry_by_id`] as a predicate on ids.
pub open spec fn geometry_pred(es: Seq<EntityRecord>) -> spec_fn(u32) -> bool {
    |id: u32| has_geometry_by_id(es, id)
}

/// The geometry ids of the first `n` records are their ids filtered by
/// the whole model's geometry predicate.
proof fn lemma_geometry_prefix(es: Seq<EntityRecord>, n: int)
    requires
        ids_unique(es),
        0 <= n <= es.len(),
    ensures
        geometry_ids(es.take(n)) == ids_of(es.take(n)).filter(geometry_pred(es)),
    decreases n,
{
    reveal(Seq::filter);
    if n == 0 {
        assert(ids_of(es.take(0)) =~= Seq::<u32>::empty());
        assert(geometry_ids(es.take(0)) =~= Seq::<u32>::empty());
    } else {
        lemma_geometry_prefix(es, n - 1);
        let t = es.take(n);
        assert(t.drop_last() =~= es.take(n - 1));
        assert(ids_of(t).drop_last() =~= ids_of(es.take(n - 1)));
        assert(ids_of(t).last() == es[n - 1].id);
        lemma_index_of_unique(es, n - 1, 0);
        assert(geometry_pred(es)(es[n - 1].id) == es[n - 1].ifc_type.spec_has_geometry());
        if es[n - 1].ifc_type.spec_has_geometry() {
            assert(geometry_ids(t) =~= ids_of(es.take(n - 1)).filter(geometry_pred(es)).push(es[n - 1].id));
        } else {
            assert(geometry_ids(t) =~= ids_of(es.take(n - 1)).filter(geometry_pred(es)));
        }
    }
}

/// The geometry ids are the model's ids, in model order, keeping those
/// whose entity has a type that can carry geometry.
pub proof fn law_geometry_ids_filter_all_ids(es: Seq<EntityRecord>)
    requires
        ids_unique(es),
    ensures
        geometry_ids(es) == ids_of(es).filter(geometry_pred(es)),
{
    lemma_geometry_prefix(es, es.len() as int);
    assert(es.take(es.len() as int) =~= es);
}

/// Whether a record's type is the one a name was parsed to.
fn same_type_as_parsed(a: &IfcType, t: &IfcType, Ghost(upper): Ghost<Seq<char>>, Ghost(spelling): Ghost<Seq<char>>) -> (r: bool)
    requires
        parsed_as(*t, upper, spelling),
    ensures
        r == type_matches(*a, upper, spelling),
{
    let r = *a == *t;
    proof {
        crate::model::ifc_type_table::lemma_tag_identifies(*a);
        crate::model::ifc_type_table::lemma_tag_identifies(*t);
    }
    r
}


/// Position of a name among distinct names.
fn find_name(names: &Vec<Vec<char>>, name: &Vec<char>) -> (r: Option<usize>)
    ensures
        match r {
            Some(j) => j < names@.len() && names@[j as int]@ == name@,
            None => forall|a: int| 0 <= a < names@.len() ==> (#[trigger] names@[a])@ != name@,
        },
{
    let mut j: usize = 0;
    while j < names.len()
        invariant
            j <= names@.len(),
            forall|a: int| 0 <= a < j ==> (#[trigger] names@[a])@ != name@,
        decreases names@.len() - j,
    {
        if crate::text::chars_eq(&names[j], name) {
            return Some(j);
        }
        j = j + 1;
    }
    None
}

/// Number of records whose type name is `n`.
pub open spec fn name_count(es: Seq<EntityRecord>, n: Seq<char>) -> nat
    decreases es.len(),
{
    if es.len() == 0 {
        0
    } else {
        name_count(es.drop_last(), n) + if es.last().ifc_type.spec_name() == n {
            1nat
        } else {
            0nat
        }
    }
}

/// A name that no record carries has count zero.
proof fn lemma_name_count_zero(es: Seq<EntityRecord>, n: Seq<char>)
    requires
        forall|m: int| 0 <= m < es.len() ==> (#[trigger] es[m]).ifc_type.spec_name() != n,
    ensures
        name_count(es, n) == 0,
    decreases es.len(),
{
    if es.len() > 0 {
        assert forall|m: int| 0 <= m < es.drop_last().len() implies (#[trigger] es.drop_last()[m]).ifc_type.spec_name() != n by {
            assert(es.drop_last()[m] == es[m]);
        }
        lemma_name_count_zero(es.drop_last(), n);
        assert(es[es.len() - 1].ifc_type.spec_name() != n);
    }
}

/// Counts only grow along prefixes.
proof fn lemma_name_count_prefix(es: Seq<EntityRecord>, n: Seq<char>, i: int)
    requires
        0 <= i <= es.len(),
    ensures
        name_count(es.take(i), n) <= name_count(es, n),
    decreases es.len() - i,
{
    if i < es.len() {
        lemma_name_count_prefix(es, n, i + 1);
        assert(es.take(i + 1).drop_last() =~= es.take(i));
    } else {
        assert(es.take(i) =~= es);
    }
}

/// The per-type statistics `r` of the records `es`: one entry per distinct
/// type name with its number of records, ordered by decreasing count.
pub open spec fn is_type_statistics(es: Seq<EntityRecord>, r: Seq<TypeCount>) -> bool {
    &&& forall|a: int, b: int| 0 <= a < b < r.len() ==> (#[trigger] r[a]).ifc_type@ != (#[trigger] r[b]).ifc_type@
    &&& forall|a: int| 0 <= a < r.len() ==> (#[trigger] r[a]).count == name_count(es, r[a].ifc_type@)
        && name_count(es, r[a].ifc_type@) > 0
    &&& forall|k: int| 0 <= k < es.len() ==> exists|a: int| 0 <= a < r.len()
        && (#[trigger] r[a]).ifc_type@ == (#[trigger] es[k]).ifc_type.spec_name()
    &&& forall|a: int, b: int| 0 <= a < b < r.len() ==> (#[trigger] r[a]).count >= (#[trigger] r[b]).count
}

/// `out` lists, without repetition, exactly the first `j` names with
/// their counts: entry `a` is name `src[a]`, and name `b` is entry `pos[b]`.
pub open spec fn covers(out: Seq<TypeCount>, names: Seq<Vec<char>>, counts: Seq<u32>, j: int, src: Seq<int>, pos: Seq<int>) -> bool {
    &&& out.len() == j
    &&& src.len() == j
    &&& pos.len() == j
    &&& forall|a: int, b: int| 0 <= a < b < j ==> (#[trigger] out[a]).ifc_type@ != (#[trigger] out[b]).ifc_type@
    &&& forall|a: int| 0 <= a < j ==> 0 <= #[trigger] src[a] < j && out[a].ifc_type@ == names[src[a]]@
        && out[a].count == counts[src[a]]
    &&& forall|b: int| 0 <= b < j ==> 0 <= #[trigger] pos[b] < j && out[pos[b]].ifc_type@ == names[b]@
}

/// Counts never increase along the list.
pub open spec fn sorted_by_count(out: Seq<TypeCount>) -> bool {
    forall|a: int, b: int| 0 <= a < b < out.len() ==> (#[trigger] out[a]).count >= (#[trigger] out[b]).count
}

/// Insert `tc` after every entry with a count at least as large, keeping
/// the list ordered by decreasing count; returns the position used.
fn insert_by_count(out: &mut Vec<TypeCount>, tc: TypeCount) -> (p: usize)
    requires
        sorted_by_count(old(out)@),
    ensures
        p <= old(out)@.len(),
        final(out)@ == old(out)@.insert(p as int, tc),
        sorted_by_count(final(out)@),
{
    let c = tc.count;
    let mut p: usize = 0;
    while p < out.len() && out[p].count >= c
        invariant
            p <= out@.len(),
            forall|q: int| 0 <= q < p ==> (#[trigger] out@[q]).count >= c,
        decreases out@.len() - p,
    {
        p = p + 1;
    }
    let ghost old_out = out@;
    let ghost t = tc;
    out.insert(p, tc);
    proof {
        old_out.insert_ensures(p as int, t);
        assert forall|q: int| p <= q < old_out.len() implies (#[trigger] old_out[q]).count < c by {
            assert(old_out[p as int].count < c);
        }
        assert forall|a: int, b: int| 0 <= a < b < out@.len() implies (#[trigger] out@[a]).count >= (#[trigger] out@[b]).count by {
            if a < p && b > p {
                assert(out@[b] == old_out[b - 1]);
            } else if a == p && b > p {
                assert(out@[b] == old_out[b - 1]);
            } else if a > p {
                assert(out@[a] == old_out[a - 1]);
                assert(out@[b] == old_out[b - 1]);
            }
        }
    }
    p
}

/// No name is listed twice after inserting a name not listed before.
proof fn lemma_insert_distinct(old_out: Seq<TypeCount>, j: int, p: int, t: TypeCount)
    requires
        old_out.len() == j,
        forall|a: int, b: int| 0 <= a < b < j ==> (#[trigger] old_out[a]).ifc_type@ != (#[trigger] old_out[b]).ifc_type@,
        forall|a: int| 0 <= a < j ==> (#[trigger] old_out[a]).ifc_type@ != t.ifc_type@,
        0 <= p <= j,
    ensures
        forall|a: int, b: int| 0 <= a < b < j + 1 ==> (#[trigger] old_out.insert(p, t)[a]).ifc_type@ != (#[trigger] old_out.insert(p, t)[b]).ifc_type@,
{
    let out = old_out.insert(p, t);
    old_out.insert_ensures(p, t);
    assert forall|a: int, b: int| 0 <= a < b < j + 1 implies (#[trigger] out[a]).ifc_type@ != (#[trigger] out[b]).ifc_type@ by {
        let oa = if a < p { a } else { a - 1 };
        let ob = if b < p { b } else { b - 1 };
        if a != p && b != p {
            assert(out[a] == old_out[oa]);
            assert(out[b] == old_out[ob]);
        } else if a == p {
            assert(out[b] == old_out[ob]);
        } else {
            assert(out[a] == old_out[oa]);
        }
    }
}

/// The positions of the names after inserting name `j` at entry `p`.
pub open spec fn pos_after_insert(pos: Seq<int>, j: int, p: int) -> Seq<int> {
    Seq::new((j + 1) as nat, |b: int| if b == j { p } else if pos[b] < p { pos[b] } else { pos[b] + 1 })
}

/// Inserting the next name with its count anywhere keeps the coverage.
proof fn lemma_covers_insert(old_out: Seq<TypeCount>, names: Seq<Vec<char>>, counts: Seq<u32>, j: int, p: int, t: TypeCount, src: Seq<int>, pos: Seq<int>)
    requires
        0 <= j < names.len(),
        names.len() == counts.len(),
        forall|a: int, b: int| 0 <= a < b < names.len() ==> (#[trigger] names[a])@ != (#[trigger] names[b])@,
        covers(old_out, names, counts, j, src, pos),
        0 <= p <= j,
        t.ifc_type@ == names[j]@,
        t.count == counts[j],
    ensures
        covers(old_out.insert(p, t), names, counts, j + 1, src.insert(p, j), pos_after_insert(pos, j, p)),
{
    let out = old_out.insert(p, t);
    let src2 = src.insert(p, j);
    let pos2 = pos_after_insert(pos, j, p);
    old_out.insert_ensures(p, t);
    src.insert_ensures(p, j);
    assert forall|a: int| 0 <= a < j implies (#[trigger] old_out[a]).ifc_type@ != t.ifc_type@ by {
        assert(0 <= src[a] < j);
        assert(names[src[a]]@ != names[j]@);
    }
    lemma_insert_distinct(old_out, j, p, t);
    assert forall|a: int| 0 <= a < j + 1 implies 0 <= #[trigger] src2[a] < j + 1 && out[a].ifc_type@ == names[src2[a]]@
        && out[a].count == counts[src2[a]] by {
        if a < p {
            assert(src2[a] == src[a]);
            assert(out[a] == old_out[a]);
        } else if a > p {
            assert(src2[a] == src[a - 1]);
            assert(out[a] == old_out[a - 1]);
        }
    }
    assert forall|b: int| 0 <= b < j + 1 implies 0 <= #[trigger] pos2[b] < j + 1 && out[pos2[b]].ifc_type@ == names[b]@ by {
        if b < j {
            assert(0 <= pos[b] < j);
            if pos[b] < p {
                assert(out[pos[b]] == old_out[pos[b]]);
            } else {
                assert(out[pos[b] + 1] == old_out[pos[b]]);
            }
        }
    }
}

impl IfcModel {
    /// Entity count per IFC type name, most frequent first (the order of
    /// equally frequent types is not specified).
    #[verifier::spinoff_prover]
    #[verifier::rlimit(40)]
    pub fn type_statistics(&self) -> (r: Vec<TypeCount>)
        requires
            forall|n: Seq<char>| #[trigger] name_count(self.entities_view(), n) <= u32::MAX,
        ensures
            is_type_statistics(self.entities_view(), r@),
    {
        let ghost es = self.entities@;
        assert(self.entities_view() == es);
        let mut names: Vec<Vec<char>> = Vec::new();
        let mut counts: Vec<u32> = Vec::new();
        let mut k: usize = 0;
        while k < self.entities.len()
            invariant
                es == self.entities@,
                forall|n: Seq<char>| #[trigger] name_count(es, n) <= u32::MAX,
                k <= es.len(),
                names@.len() == counts@.len(),
                forall|a: int, b: int| 0 <= a < b < names@.len() ==> (#[trigger] names@[a])@ != (#[trigger] names@[b])@,
                forall|a: int| 0 <= a < names@.len() ==> counts@[a] == name_count(es.take(k as int), (#[trigger] names@[a])@)
                    && counts@[a] > 0,
                forall|m: int| 0 <= m < k ==> exists|a: int| 0 <= a < names@.len()
                    && (#[trigger] names@[a])@ == (#[trigger] es[m]).ifc_type.spec_name(),
            decreases es.len() - k,
        {
            let name = crate::text::chars_of(self.entities[k].ifc_type.name());
            let ghost nm = name@;
            assert(es.take(k + 1).drop_last() =~= es.take(k as int));
            assert(es.take(k + 1).last() == es[k as int]);
            let ghost old_names = names@;
            let ghost old_counts = counts@;
            proof {
                assert forall|x: Seq<char>| #[trigger] name_count(es.take(k + 1), x)
                    == name_count(es.take(k as int), x) + if nm == x { 1nat } else { 0nat } by {}
            }
            match find_name(&names, &name) {
                Some(j) => {
                    proof {
                        lemma_name_count_prefix(es, nm, k + 1);
                    }
                    let c = counts[j];
                    counts.set(j, c + 1);
                    proof {
                        assert forall|a: int| 0 <= a < names@.len() implies counts@[a] == name_count(es.take(k + 1), (#[trigger] names@[a])@)
                            && counts@[a] > 0 by {
                            if a != j {
                                assert(names@[a]@ != nm);
                            }
                        }
                        assert forall|m: int| 0 <= m < k + 1 implies exists|a: int| 0 <= a < names@.len()
                            && (#[trigger] names@[a])@ == (#[trigger] es[m]).ifc_type.spec_name() by {
                            if m == k {
                                assert(names@[j as int]@ == es[m].ifc_type.spec_name());
                            }
                        }
                    }
                },
                None => {
                    names.push(name);
                    counts.push(1);
                    proof {
                        assert(name_count(es.take(k as int), nm) == 0) by {
                            assert forall|m: int| 0 <= m < es.take(k as int).len() implies (#[trigger] es.take(k as int)[m]).ifc_type.spec_name() != nm by {
                                assert(es.take(k as int)[m] == es[m]);
                                let a = choose|a: int| 0 <= a < old_names.len() && (#[trigger] old_names[a])@ == es[m].ifc_type.spec_name();
                            }
                            lemma_name_count_zero(es.take(k as int), nm);
                        }
                        assert forall|a: int| 0 <= a < names@.len() implies counts@[a] == name_count(es.take(k + 1), (#[trigger] names@[a])@)
                            && counts@[a] > 0 by {
                            if a < old_names.len() {
                                assert(names@[a] == old_names[a]);
                                assert(old_names[a]@ != nm);
                            }
                        }
                        assert forall|m: int| 0 <= m < k + 1 implies exists|a: int| 0 <= a < names@.len()
                            && (#[trigger] names@[a])@ == (#[trigger] es[m]).ifc_type.spec_name() by {
                            if m == k {
                                assert(names@[old_names.len() as int]@ == es[m].ifc_type.spec_name());
                            } else {
                                let a = choose|a: int| 0 <= a < old_names.len() && (#[trigger] old_names[a])@ == es[m].ifc_type.spec_name();
                                assert(names@[a] == old_names[a]);
                            }
                        }
                    }
                },
            }
            k = k + 1;
        }
        assert(es.take(k as int) =~= es);
        let mut out: Vec<TypeCount> = Vec::new();
        let mut j: usize = 0;
        let ghost mut src: Seq<int> = Seq::empty();
        let ghost mut pos: Seq<int> = Seq::empty();
        while j < names.len()
            invariant
                names@.len() == counts@.len(),
                forall|a: int, b: int| 0 <= a < b < names@.len() ==> (#[trigger] names@[a])@ != (#[trigger] names@[b])@,
                forall|a: int| 0 <= a < names@.len() ==> counts@[a] == name_count(es, (#[trigger] names@[a])@)
                    && counts@[a] > 0,
                j <= names@.len(),
                covers(out@, names@, counts@, j as int, src, pos),
                sorted_by_count(out@),
            decreases names@.len() - j,
        {
            let c = counts[j];
            let tc = TypeCount { ifc_type: string_from_chars(&names[j]), count: c };
            let ghost old_out = out@;
            let ghost t = tc;
            let p = insert_by_count(&mut out, tc);
            proof {
                lemma_covers_insert(old_out, names@, counts@, j as int, p as int, t, src, pos);
                src = src.insert(p as int, j as int);
                pos = pos_after_insert(pos, j as int, p as int);
            }
            j = j + 1;
        }
        proof {
            assert forall|a: int| 0 <= a < out@.len() implies (#[trigger] out@[a]).count == name_count(es, out@[a].ifc_type@)
                && name_count(es, out@[a].ifc_type@) > 0 by {
                assert(0 <= src[a] < j);
                assert(names@[src[a]]@ == out@[a].ifc_type@);
            }
            assert forall|m: int| 0 <= m < es.len() implies exists|a: int| 0 <= a < out@.len()
                && (#[trigger] out@[a]).ifc_type@ == (#[trigger] es[m]).ifc_type.spec_name() by {
                let b = choose|b: int| 0 <= b < names@.len() && (#[trigger] names@[b])@ == (#[trigger] es[m]).ifc_type.spec_name();
                assert(0 <= pos[b] < j);
                assert(out@[pos[b]].ifc_type@ == es[m].ifc_type.spec_name());
            }
        }
        out
    }
}

} // verus!
