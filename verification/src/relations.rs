//! The relationship index the web viewer's loader builds in its first pass
//! over a model: which objects aggregate which, which elements each spatial
//! structure contains, and which property definitions and type objects are
//! attached to each object.

use vstd::prelude::*;

use crate::model::attribute::{refs_of, AttributeValue, DecodedEntity};
use crate::model::ifc_type::IfcType;
use crate::model::types::EntityId;
use std::collections::HashMap;

verus! {

/// The ids of a list of entity references.
pub open spec fn id_values(s: Seq<EntityId>) -> Seq<u32> {
    Seq::new(s.len(), |i: int| s[i].0)
}

/// The entity reference at attribute `i`, as an id.
pub open spec fn ref_at(e: DecodedEntity, i: int) -> Option<u32> {
    match e.attr(i) {
        Some(AttributeValue::EntityRef(id)) => Some(id.0),
        _ => None,
    }
}

/// The ids referenced by the list at attribute `i` (other items skipped).
pub open spec fn list_refs(e: DecodedEntity, i: int) -> Option<Seq<u32>> {
    match e.attr(i) {
        Some(AttributeValue::List(l)) => Some(id_values(refs_of(l@))),
        _ => None,
    }
}

/// `(key, v)` for each `v` in order.
pub open spec fn keyed(key: u32, vs: Seq<u32>) -> Seq<(u32, u32)> {
    Seq::new(vs.len(), |i: int| (key, vs[i]))
}

/// `(k, value)` for each `k` in order.
pub open spec fn valued(ks: Seq<u32>, value: u32) -> Seq<(u32, u32)> {
    Seq::new(ks.len(), |i: int| (ks[i], value))
}

/// The pairs a relationship entity of type `kind` contributes: when the
/// entity is of that type and both the single reference at `one` and the
/// list at `many` are present, one pair per listed id, the single id
/// first (`one_first`) or second.
pub open spec fn rel_pairs(e: DecodedEntity, kind: IfcType, one: int, many: int, one_first: bool) -> Seq<(u32, u32)> {
    if e.ifc_type == kind {
        match (ref_at(e, one), list_refs(e, many)) {
            (Some(x), Some(ys)) => if one_first { keyed(x, ys) } else { valued(ys, x) },
            _ => Seq::empty(),
        }
    } else {
        Seq::empty()
    }
}

/// `(parent, child)` pairs of an `IfcRelAggregates` (RelatingObject at 4,
/// RelatedObjects at 5).
pub open spec fn aggregate_pairs(e: DecodedEntity) -> Seq<(u32, u32)> {
    rel_pairs(e, IfcType::IfcRelAggregates, 4, 5, true)
}

/// `(structure, element)` pairs of an `IfcRelContainedInSpatialStructure`
/// (RelatedElements at 4, RelatingStructure at 5).
pub open spec fn containment_pairs(e: DecodedEntity) -> Seq<(u32, u32)> {
    rel_pairs(e, IfcType::IfcRelContainedInSpatialStructure, 5, 4, true)
}

/// `(object, property definition)` pairs of an `IfcRelDefinesByProperties`
/// (RelatedObjects at 4, RelatingPropertyDefinition at 5).
pub open spec fn property_pairs(e: DecodedEntity) -> Seq<(u32, u32)> {
    rel_pairs(e, IfcType::IfcRelDefinesByProperties, 5, 4, false)
}

/// `(object, type object)` pairs of an `IfcRelDefinesByType`
/// (RelatedObjects at 4, RelatingType at 5).
pub open spec fn type_pairs(e: DecodedEntity) -> Seq<(u32, u32)> {
    rel_pairs(e, IfcType::IfcRelDefinesByType, 5, 4, false)
}

/// The second items of the pairs whose first item is `key`, in order.
pub open spec fn values_for(pairs: Seq<(u32, u32)>, key: u32) -> Seq<u32>
    decreases pairs.len(),
{
    if pairs.len() == 0 {
        Seq::empty()
    } else {
        values_for(pairs.drop_last(), key) + if pairs.last().0 == key {
            seq![pairs.last().1]
        } else {
            Seq::empty()
        }
    }
}

/// The second item of the last pair whose first item is `key`.
pub open spec fn last_value(pairs: Seq<(u32, u32)>, key: u32) -> Option<u32>
    decreases pairs.len(),
{
    if pairs.len() == 0 {
        None
    } else if pairs.last().0 == key {
        Some(pairs.last().1)
    } else {
        last_value(pairs.drop_last(), key)
    }
}

/// The first item of the last pair whose second item is `value`.
pub open spec fn last_key(pairs: Seq<(u32, u32)>, value: u32) -> Option<u32>
    decreases pairs.len(),
{
    if pairs.len() == 0 {
        None
    } else if pairs.last().1 == value {
        Some(pairs.last().0)
    } else {
        last_key(pairs.drop_last(), value)
    }
}

/// The entity references of the list at `index`, as ids.
fn list_ids(e: &DecodedEntity, index: usize) -> (r: Option<Vec<u32>>)
    ensures
        match r {
            Some(v) => list_refs(*e, index as int) == Some(v@),
            None => list_refs(*e, index as int) is None,
        },
{
    match e.get_refs(index) {
        Some(refs) => {
            let mut out: Vec<u32> = Vec::new();
            let mut k: usize = 0;
            while k < refs.len()
                invariant
                    k <= refs@.len(),
                    out@ == id_values(refs@.take(k as int)),
                decreases refs@.len() - k,
            {
                out.push(refs[k].0);
                k = k + 1;
                assert(out@ =~= id_values(refs@.take(k as int)));
            }
            assert(refs@.take(k as int) =~= refs@);
            Some(out)
        },
        None => None,
    }
}

/// The structure recorded for an element lists that element among its
/// contained elements (the last containment wins, and it is kept).
pub proof fn law_structure_lists_its_element(pairs: Seq<(u32, u32)>, element: u32)
    ensures
        last_key(pairs, element) matches Some(s) ==> values_for(pairs, s).contains(element),
    decreases pairs.len(),
{
    if pairs.len() > 0 {
        let init = pairs.drop_last();
        law_structure_lists_its_element(init, element);
        if pairs.last().1 == element {
            let s = pairs.last().0;
            let v = values_for(pairs, s);
            assert(v[v.len() - 1] == element);
        } else if let Some(s) = last_key(init, element) {
            let v0 = values_for(init, s);
            let k = choose|k: int| 0 <= k < v0.len() && v0[k] == element;
            assert(values_for(pairs, s)[k] == element);
        }
    }
}

/// The list a map holds under `k` (empty when it holds none).
pub open spec fn list_at(m: Map<u32, Vec<u32>>, k: u32) -> Seq<u32> {
    if m.contains_key(k) {
        m[k]@
    } else {
        Seq::empty()
    }
}

/// The value a map holds under `k`.
pub open spec fn value_at(m: Map<u32, u32>, k: u32) -> Option<u32> {
    if m.contains_key(k) {
        Some(m[k])
    } else {
        None
    }
}

/// A copy of a list of ids.
fn copy_ids(v: &Vec<u32>) -> (r: Vec<u32>)
    ensures
        r@ == v@,
{
    let mut out: Vec<u32> = Vec::new();
    let mut k: usize = 0;
    while k < v.len()
        invariant
            k <= v@.len(),
            out@ == v@.take(k as int),
        decreases v@.len() - k,
    {
        out.push(v[k]);
        k = k + 1;
        assert(out@ =~= v@.take(k as int));
    }
    assert(v@.take(k as int) =~= v@);
    out
}

/// The list a map holds under `k`, copied.
fn list_get(m: &HashMap<u32, Vec<u32>>, k: u32) -> (r: Vec<u32>)
    ensures
        r@ == list_at(m@, k),
{
    broadcast use vstd::std_specs::hash::group_hash_axioms;
    match m.get(&k) {
        Some(v) => copy_ids(v),
        None => Vec::new(),
    }
}

/// The value a map holds under `k`.
fn value_get(m: &HashMap<u32, u32>, k: u32) -> (r: Option<u32>)
    ensures
        r == value_at(m@, k),
{
    broadcast use vstd::std_specs::hash::group_hash_axioms;
    match m.get(&k) {
        Some(v) => Some(*v),
        None => None,
    }
}

/// The relationships read so far: children per parent, contained elements
/// per structure, the structure per element, property definitions per
/// object and the type object per object. Beside the maps the index keeps,
/// as ghost state, the relationship pairs in reading order, which the maps
/// are built from.
pub struct RelationIndex {
    aggregates: HashMap<u32, Vec<u32>>,
    contained_in: HashMap<u32, Vec<u32>>,
    element_to_storey: HashMap<u32, u32>,
    element_properties: HashMap<u32, Vec<u32>>,
    element_to_type: HashMap<u32, u32>,
    aggregate_log: Ghost<Seq<(u32, u32)>>,
    containment_log: Ghost<Seq<(u32, u32)>>,
    property_log: Ghost<Seq<(u32, u32)>>,
    type_log: Ghost<Seq<(u32, u32)>>,
}

impl RelationIndex {
    /// `(parent, child)` pairs.
    pub closed spec fn aggregates_view(self) -> Seq<(u32, u32)> {
        self.aggregate_log@
    }

    /// `(structure, element)` pairs.
    pub closed spec fn containment_view(self) -> Seq<(u32, u32)> {
        self.containment_log@
    }

    /// `(object, property definition)` pairs.
    pub closed spec fn properties_view(self) -> Seq<(u32, u32)> {
        self.property_log@
    }

    /// `(object, type object)` pairs.
    pub closed spec fn types_view(self) -> Seq<(u32, u32)> {
        self.type_log@
    }

    /// The maps hold what the pairs read so far give.
    pub closed spec fn wf(self) -> bool {
        &&& forall|k: u32| #[trigger] list_at(self.aggregates@, k) == values_for(self.aggregate_log@, k)
        &&& forall|k: u32| #[trigger] list_at(self.contained_in@, k) == values_for(self.containment_log@, k)
        &&& forall|k: u32| #[trigger] value_at(self.element_to_storey@, k) == last_key(self.containment_log@, k)
        &&& forall|k: u32| #[trigger] list_at(self.element_properties@, k) == values_for(self.property_log@, k)
        &&& forall|k: u32| #[trigger] value_at(self.element_to_type@, k) == last_value(self.type_log@, k)
    }

    /// An index with no relationships.
    pub fn new() -> (r: Self)
        ensures
            r.wf(),
            r.aggregates_view() == Seq::<(u32, u32)>::empty(),
            r.containment_view() == Seq::<(u32, u32)>::empty(),
            r.properties_view() == Seq::<(u32, u32)>::empty(),
            r.types_view() == Seq::<(u32, u32)>::empty(),
    {
        RelationIndex {
            aggregates: HashMap::new(),
            contained_in: HashMap::new(),
            element_to_storey: HashMap::new(),
            element_properties: HashMap::new(),
            element_to_type: HashMap::new(),
            aggregate_log: Ghost(Seq::empty()),
            containment_log: Ghost(Seq::empty()),
            property_log: Ghost(Seq::empty()),
            type_log: Ghost(Seq::empty()),
        }
    }

    /// Records an aggregation: `children` go after what `parent` already
    /// aggregates.
    fn add_aggregation(&mut self, parent: u32, children: &Vec<u32>)
        requires
            old(self).wf(),
        ensures
            final(self).wf(),
            final(self).aggregates_view() == old(self).aggregates_view() + keyed(parent, children@),
            final(self).containment_view() == old(self).containment_view(),
            final(self).properties_view() == old(self).properties_view(),
            final(self).types_view() == old(self).types_view(),
    {
        broadcast use vstd::std_specs::hash::group_hash_axioms;
        let ghost start = self.aggregate_log@;
        let mut v = list_get(&self.aggregates, parent);
        let mut i: usize = 0;
        while i < children.len()
            invariant
                old(self).wf(),
                i <= children@.len(),
                self.aggregates@ == old(self).aggregates@,
                start == old(self).aggregate_log@,
                self.aggregate_log@ == start + keyed(parent, children@.take(i as int)),
                v@ == values_for(self.aggregate_log@, parent),
                forall|k: u32| k != parent ==> #[trigger] values_for(self.aggregate_log@, k) == values_for(start, k),
                self.contained_in == old(self).contained_in,
                self.element_to_storey == old(self).element_to_storey,
                self.element_properties == old(self).element_properties,
                self.element_to_type == old(self).element_to_type,
                self.containment_log == old(self).containment_log,
                self.property_log == old(self).property_log,
                self.type_log == old(self).type_log,
            decreases children@.len() - i,
        {
            let c = children[i];
            v.push(c);
            let ghost prev = self.aggregate_log@;
            proof {
                self.aggregate_log = Ghost(prev.push((parent, c)));
                assert(self.aggregate_log@.drop_last() =~= prev);
                assert(start + keyed(parent, children@.take(i + 1)) =~= prev.push((parent, c)));
                assert forall|k: u32| k != parent implies #[trigger] values_for(self.aggregate_log@, k) == values_for(start, k) by {
                    assert(values_for(prev, k) == values_for(start, k));
                    assert(values_for(self.aggregate_log@, k) =~= values_for(prev, k));
                }
                assert(v@ =~= values_for(self.aggregate_log@, parent));
            }
            i = i + 1;
        }
        assert(children@.take(i as int) =~= children@);
        self.aggregates.insert(parent, v);
        proof {
            assert forall|k: u32| #[trigger] list_at(self.aggregates@, k) == values_for(self.aggregate_log@, k) by {
                if k != parent {
                    assert(list_at(old(self).aggregates@, k) == values_for(start, k));
                    assert(values_for(self.aggregate_log@, k) == values_for(start, k));
                }
            }
        }
    }

    /// Records a containment: each element goes into `structure`, which
    /// becomes the element's structure.
    fn add_containment(&mut self, structure: u32, elements: &Vec<u32>)
        requires
            old(self).wf(),
        ensures
            final(self).wf(),
            final(self).containment_view() == old(self).containment_view() + keyed(structure, elements@),
            final(self).aggregates_view() == old(self).aggregates_view(),
            final(self).properties_view() == old(self).properties_view(),
            final(self).types_view() == old(self).types_view(),
    {
        broadcast use vstd::std_specs::hash::group_hash_axioms;
        let ghost start = self.containment_log@;
        let mut v = list_get(&self.contained_in, structure);
        let mut i: usize = 0;
        while i < elements.len()
            invariant
                old(self).wf(),
                i <= elements@.len(),
                self.contained_in@ == old(self).contained_in@,
                start == old(self).containment_log@,
                self.containment_log@ == start + keyed(structure, elements@.take(i as int)),
                v@ == values_for(self.containment_log@, structure),
                forall|k: u32| k != structure ==> #[trigger] values_for(self.containment_log@, k) == values_for(start, k),
                forall|k: u32| #[trigger] value_at(self.element_to_storey@, k) == last_key(self.containment_log@, k),
                self.aggregates == old(self).aggregates,
                self.element_properties == old(self).element_properties,
                self.element_to_type == old(self).element_to_type,
                self.aggregate_log == old(self).aggregate_log,
                self.property_log == old(self).property_log,
                self.type_log == old(self).type_log,
            decreases elements@.len() - i,
        {
            let e = elements[i];
            v.push(e);
            let ghost m0 = self.element_to_storey@;
            self.element_to_storey.insert(e, structure);
            let ghost prev = self.containment_log@;
            proof {
                self.containment_log = Ghost(prev.push((structure, e)));
                assert(self.containment_log@.drop_last() =~= prev);
                assert(start + keyed(structure, elements@.take(i + 1)) =~= prev.push((structure, e)));
                assert forall|k: u32| k != structure implies #[trigger] values_for(self.containment_log@, k) == values_for(start, k) by {
                    assert(values_for(prev, k) == values_for(start, k));
                    assert(values_for(self.containment_log@, k) =~= values_for(prev, k));
                }
                assert(v@ =~= values_for(self.containment_log@, structure));
                assert forall|k: u32| #[trigger] value_at(self.element_to_storey@, k) == last_key(self.containment_log@, k) by {
                    if k != e {
                        assert(value_at(m0, k) == last_key(prev, k));
                    }
                }
            }
            i = i + 1;
        }
        assert(elements@.take(i as int) =~= elements@);
        self.contained_in.insert(structure, v);
        proof {
            assert forall|k: u32| #[trigger] list_at(self.contained_in@, k) == values_for(self.containment_log@, k) by {
                if k != structure {
                    assert(list_at(old(self).contained_in@, k) == values_for(start, k));
                    assert(values_for(self.containment_log@, k) == values_for(start, k));
                }
            }
        }
    }

    /// Records property definitions: `definition` goes after each object's
    /// definitions so far.
    fn add_properties(&mut self, objects: &Vec<u32>, definition: u32)
        requires
            old(self).wf(),
        ensures
            final(self).wf(),
            final(self).properties_view() == old(self).properties_view() + valued(objects@, definition),
            final(self).aggregates_view() == old(self).aggregates_view(),
            final(self).containment_view() == old(self).containment_view(),
            final(self).types_view() == old(self).types_view(),
    {
        broadcast use vstd::std_specs::hash::group_hash_axioms;
        let ghost start = self.property_log@;
        let mut i: usize = 0;
        while i < objects.len()
            invariant
                old(self).wf(),
                i <= objects@.len(),
                start == old(self).property_log@,
                self.property_log@ == start + valued(objects@.take(i as int), definition),
                forall|k: u32| #[trigger] list_at(self.element_properties@, k) == values_for(self.property_log@, k),
                self.aggregates == old(self).aggregates,
                self.contained_in == old(self).contained_in,
                self.element_to_storey == old(self).element_to_storey,
                self.element_to_type == old(self).element_to_type,
                self.aggregate_log == old(self).aggregate_log,
                self.containment_log == old(self).containment_log,
                self.type_log == old(self).type_log,
            decreases objects@.len() - i,
        {
            let o = objects[i];
            let mut v = list_get(&self.element_properties, o);
            v.push(definition);
            let ghost m0 = self.element_properties@;
            self.element_properties.insert(o, v);
            let ghost prev = self.property_log@;
            proof {
                self.property_log = Ghost(prev.push((o, definition)));
                assert(self.property_log@.drop_last() =~= prev);
                assert(start + valued(objects@.take(i + 1), definition) =~= prev.push((o, definition)));
                assert forall|k: u32| #[trigger] list_at(self.element_properties@, k) == values_for(self.property_log@, k) by {
                    assert(list_at(m0, k) == values_for(prev, k));
                    if k == o {
                        assert(list_at(self.element_properties@, k) =~= values_for(self.property_log@, k));
                    } else {
                        assert(values_for(self.property_log@, k) =~= values_for(prev, k));
                    }
                }
            }
            i = i + 1;
        }
        assert(objects@.take(i as int) =~= objects@);
    }

    /// Records type objects: `ty` becomes each object's type.
    fn add_types(&mut self, objects: &Vec<u32>, ty: u32)
        requires
            old(self).wf(),
        ensures
            final(self).wf(),
            final(self).types_view() == old(self).types_view() + valued(objects@, ty),
            final(self).aggregates_view() == old(self).aggregates_view(),
            final(self).containment_view() == old(self).containment_view(),
            final(self).properties_view() == old(self).properties_view(),
    {
        broadcast use vstd::std_specs::hash::group_hash_axioms;
        let ghost start = self.type_log@;
        let mut i: usize = 0;
        while i < objects.len()
            invariant
                old(self).wf(),
                i <= objects@.len(),
                start == old(self).type_log@,
                self.type_log@ == start + valued(objects@.take(i as int), ty),
                forall|k: u32| #[trigger] value_at(self.element_to_type@, k) == last_value(self.type_log@, k),
                self.aggregates == old(self).aggregates,
                self.contained_in == old(self).contained_in,
                self.element_to_storey == old(self).element_to_storey,
                self.element_properties == old(self).element_properties,
                self.aggregate_log == old(self).aggregate_log,
                self.containment_log == old(self).containment_log,
                self.property_log == old(self).property_log,
            decreases objects@.len() - i,
        {
            let o = objects[i];
            let ghost m0 = self.element_to_type@;
            self.element_to_type.insert(o, ty);
            let ghost prev = self.type_log@;
            proof {
                self.type_log = Ghost(prev.push((o, ty)));
                assert(self.type_log@.drop_last() =~= prev);
                assert(start + valued(objects@.take(i + 1), ty) =~= prev.push((o, ty)));
                assert forall|k: u32| #[trigger] value_at(self.element_to_type@, k) == last_value(self.type_log@, k) by {
                    if k != o {
                        assert(value_at(m0, k) == last_value(prev, k));
                    }
                }
            }
            i = i + 1;
        }
        assert(objects@.take(i as int) =~= objects@);
    }

    /// Records what a decoded entity relates, if it is one of the four
    /// relationship types; any other entity changes nothing.
    pub fn add(&mut self, e: &DecodedEntity)
        requires
            old(self).wf(),
        ensures
            final(self).wf(),
            final(self).aggregates_view() == old(self).aggregates_view() + aggregate_pairs(*e),
            final(self).containment_view() == old(self).containment_view() + containment_pairs(*e),
            final(self).properties_view() == old(self).properties_view() + property_pairs(*e),
            final(self).types_view() == old(self).types_view() + type_pairs(*e),
    {
        proof {
            assert(self.aggregate_log@ + Seq::<(u32, u32)>::empty() =~= self.aggregate_log@);
            assert(self.containment_log@ + Seq::<(u32, u32)>::empty() =~= self.containment_log@);
            assert(self.property_log@ + Seq::<(u32, u32)>::empty() =~= self.property_log@);
            assert(self.type_log@ + Seq::<(u32, u32)>::empty() =~= self.type_log@);
        }
        match &e.ifc_type {
            IfcType::IfcRelAggregates => {
                match (e.get_ref(4), list_ids(e, 5)) {
                    (Some(p), Some(cs)) => self.add_aggregation(p.0, &cs),
                    _ => {},
                }
            },
            IfcType::IfcRelContainedInSpatialStructure => {
                match (e.get_ref(5), list_ids(e, 4)) {
                    (Some(st), Some(es)) => self.add_containment(st.0, &es),
                    _ => {},
                }
            },
            IfcType::IfcRelDefinesByProperties => {
                match (e.get_ref(5), list_ids(e, 4)) {
                    (Some(d), Some(os)) => self.add_properties(&os, d.0),
                    _ => {},
                }
            },
            IfcType::IfcRelDefinesByType => {
                match (e.get_ref(5), list_ids(e, 4)) {
                    (Some(t), Some(os)) => self.add_types(&os, t.0),
                    _ => {},
                }
            },
            _ => {},
        }
    }

    /// The objects aggregated under `parent`, in reading order.
    pub fn children_of(&self, parent: u32) -> (r: Vec<u32>)
        requires
            self.wf(),
        ensures
            r@ == values_for(self.aggregates_view(), parent),
    {
        list_get(&self.aggregates, parent)
    }

    /// The elements contained in a spatial structure, in reading order.
    pub fn contained_elements(&self, structure: u32) -> (r: Vec<u32>)
        requires
            self.wf(),
        ensures
            r@ == values_for(self.containment_view(), structure),
    {
        list_get(&self.contained_in, structure)
    }

    /// The spatial structure that contains an element: the last one
    /// recorded for it.
    pub fn structure_of(&self, element: u32) -> (r: Option<u32>)
        requires
            self.wf(),
        ensures
            r == last_key(self.containment_view(), element),
    {
        value_get(&self.element_to_storey, element)
    }

    /// The property definitions attached to an object, in reading order.
    pub fn property_definitions(&self, object: u32) -> (r: Vec<u32>)
        requires
            self.wf(),
        ensures
            r@ == values_for(self.properties_view(), object),
    {
        list_get(&self.element_properties, object)
    }

    /// The type object of an object: the last one recorded for it.
    pub fn type_of(&self, object: u32) -> (r: Option<u32>)
        requires
            self.wf(),
        ensures
            r == last_value(self.types_view(), object),
    {
        value_get(&self.element_to_type, object)
    }

    /// The property definitions to show for an element: its own, then (when
    /// it has a type object) the type's, then the type entity's
    /// `HasPropertySets` (attribute 5) when the type entity could be read.
    pub fn element_property_definitions(&self, element: u32, type_entity: Option<&DecodedEntity>) -> (r: Vec<u32>)
        requires
            self.wf(),
        ensures
            r@ == values_for(self.properties_view(), element) + match last_value(self.types_view(), element) {
                Some(t) => values_for(self.properties_view(), t) + match type_entity {
                    Some(te) => match list_refs(*te, 5) {
                        Some(ids) => ids,
                        None => Seq::empty(),
                    },
                    None => Seq::empty(),
                },
                None => Seq::empty(),
            },
    {
        let mut ids = self.property_definitions(element);
        let ghost own = ids@;
        match self.type_of(element) {
            Some(t) => {
                let from_type = self.property_definitions(t);
                let mut k: usize = 0;
                while k < from_type.len()
                    invariant
                        k <= from_type@.len(),
                        ids@ == own + from_type@.take(k as int),
                    decreases from_type@.len() - k,
                {
                    ids.push(from_type[k]);
                    k = k + 1;
                    assert(ids@ =~= own + from_type@.take(k as int));
                }
                assert(from_type@.take(k as int) =~= from_type@);
                let ghost mid = ids@;
                let extra = match type_entity {
                    Some(te) => list_ids(te, 5),
                    None => None,
                };
                match extra {
                    Some(more) => {
                        let mut j: usize = 0;
                        while j < more.len()
                            invariant
                                j <= more@.len(),
                                ids@ == mid + more@.take(j as int),
                            decreases more@.len() - j,
                        {
                            ids.push(more[j]);
                            j = j + 1;
                            assert(ids@ =~= mid + more@.take(j as int));
                        }
                        assert(more@.take(j as int) =~= more@);
                        assert(ids@ =~= own + (from_type@ + more@));
                    },
                    None => {
                        assert(ids@ =~= own + (from_type@ + Seq::<u32>::empty()));
                    },
                }
                ids
            },
            None => {
                assert(ids@ =~= own + Seq::<u32>::empty());
                ids
            },
        }
    }
}

} // verus!
