//! Decoded STEP attribute values and decoded entities, with the typed
//! accessors the geometry and property code reads them through.

use vstd::prelude::*;

use super::ifc_type::{str_to_uppercase, to_uppercase, IfcType};
use super::types::EntityId;

verus! {

/// One value of an IFC entity's attribute list.
#[derive(Debug)]
pub enum AttributeValue {
    /// Null value (`$`).
    Null,
    /// Derived value (`*`).
    Derived,
    /// Entity reference (`#123`).
    EntityRef(EntityId),
    /// Boolean value.
    Bool(bool),
    /// Integer value.
    Integer(i64),
    /// Floating point value, held as the IEEE 754 bit pattern of its `f64`
    /// (`f64::to_bits`); no accessor here reads it.
    Float(u64),
    /// String value.
    String(String),
    /// Enumeration value (`.VALUE.`).
    Enum(String),
    /// List of values.
    List(Vec<AttributeValue>),
    /// Typed value like `IFCLABEL('text')`.
    TypedValue(String, Vec<AttributeValue>),
}

impl Default for AttributeValue {
    fn default() -> (r: Self)
        ensures
            r is Null,
    {
        AttributeValue::Null
    }
}

/// The text of a value: a string, or the text of a typed value's first
/// argument.
pub open spec fn text_of(v: AttributeValue) -> Option<Seq<char>>
    decreases v,
{
    match v {
        AttributeValue::String(s) => Some(s@),
        AttributeValue::TypedValue(_, args) => if args@.len() > 0 {
            text_of(args@[0])
        } else {
            None
        },
        _ => None,
    }
}

/// The truth value an upper-cased enumeration word spells: `TRUE` or `T`,
/// `FALSE` or `F`.
pub open spec fn bool_word(upper: Seq<char>) -> Option<bool> {
    if upper == "TRUE"@ || upper == "T"@ {
        Some(true)
    } else if upper == "FALSE"@ || upper == "F"@ {
        Some(false)
    } else {
        None
    }
}

/// The truth value of an attribute: a boolean, or an enumeration whose
/// upper-case form (as `str::to_uppercase` gives it) is a truth word.
pub open spec fn bool_of(v: AttributeValue) -> Option<bool> {
    match v {
        AttributeValue::Bool(b) => Some(b),
        AttributeValue::Enum(s) => bool_word(str_to_uppercase(s@)),
        _ => None,
    }
}

/// The truth value an already upper-cased enumeration word spells.
pub fn bool_from_upper(upper: &str) -> (r: Option<bool>)
    ensures
        r == bool_word(upper@),
{
    let u = crate::text::chars_of(upper);
    proof {
        reveal_strlit("TRUE");
        reveal_strlit("T");
        reveal_strlit("FALSE");
        reveal_strlit("F");
    }
    if crate::text::chars_eq_str(&u, "TRUE") || crate::text::chars_eq_str(&u, "T") {
        Some(true)
    } else if crate::text::chars_eq_str(&u, "FALSE") || crate::text::chars_eq_str(&u, "F") {
        Some(false)
    } else {
        None
    }
}

impl AttributeValue {
    /// The entity reference, if this is one.
    pub fn as_entity_ref(&self) -> (r: Option<EntityId>)
        ensures
            r == match *self {
                AttributeValue::EntityRef(id) => Some(id),
                _ => None,
            },
    {
        match self {
            AttributeValue::EntityRef(id) => Some(*id),
            _ => None,
        }
    }

    /// The string, looking through typed values to their first argument.
    pub fn as_string(&self) -> (r: Option<&str>)
        ensures
            match r {
                Some(s) => text_of(*self) == Some(s@),
                None => text_of(*self) is None,
            },
        decreases self,
    {
        match self {
            AttributeValue::String(s) => Some(s.as_str()),
            AttributeValue::TypedValue(_, args) => {
                if args.len() > 0 {
                    args[0].as_string()
                } else {
                    None
                }
            },
            _ => None,
        }
    }

    /// The integer, if this is one.
    pub fn as_integer(&self) -> (r: Option<i64>)
        ensures
            r == match *self {
                AttributeValue::Integer(i) => Some(i),
                _ => None,
            },
    {
        match self {
            AttributeValue::Integer(i) => Some(*i),
            _ => None,
        }
    }

    /// The truth value of a boolean or of an enumeration `.T.`/`.TRUE.`/
    /// `.F.`/`.FALSE.` (in any case).
    pub fn as_bool(&self) -> (r: Option<bool>)
        ensures
            r == bool_of(*self),
    {
        match self {
            AttributeValue::Bool(b) => Some(*b),
            AttributeValue::Enum(s) => {
                let upper = to_uppercase(s.as_str());
                bool_from_upper(upper.as_str())
            },
            _ => None,
        }
    }

    /// The enumeration word, if this is one.
    pub fn as_enum(&self) -> (r: Option<&str>)
        ensures
            match r {
                Some(s) => *self matches AttributeValue::Enum(e) && e@ == s@,
                None => !(*self is Enum),
            },
    {
        match self {
            AttributeValue::Enum(s) => Some(s.as_str()),
            _ => None,
        }
    }

    /// The list's items, if this is a list.
    pub fn as_list(&self) -> (r: Option<&[AttributeValue]>)
        ensures
            match r {
                Some(items) => *self matches AttributeValue::List(l) && items@ == l@,
                None => !(*self is List),
            },
    {
        match self {
            AttributeValue::List(list) => Some(list.as_slice()),
            _ => None,
        }
    }

    /// True for the null value `$`.
    pub fn is_null(&self) -> (r: bool)
        ensures
            r == (*self is Null),
    {
        match self {
            AttributeValue::Null => true,
            _ => false,
        }
    }

    /// True for the derived value `*`.
    pub fn is_derived(&self) -> (r: bool)
        ensures
            r == (*self is Derived),
    {
        match self {
            AttributeValue::Derived => true,
            _ => false,
        }
    }
}

/// A decoded IFC entity: its id, its type and its attribute values in
/// order.
#[derive(Debug)]
pub struct DecodedEntity {
    pub id: EntityId,
    pub ifc_type: IfcType,
    pub attributes: Vec<AttributeValue>,
}

/// The entity references among a list's items, in order.
pub open spec fn refs_of(s: Seq<AttributeValue>) -> Seq<EntityId>
    decreases s.len(),
{
    if s.len() == 0 {
        Seq::empty()
    } else {
        refs_of(s.drop_last()) + match s.last() {
            AttributeValue::EntityRef(id) => seq![id],
            _ => Seq::empty(),
        }
    }
}

impl DecodedEntity {
    /// The attribute at `index`, if there is one.
    pub open spec fn attr(self, index: int) -> Option<AttributeValue> {
        if 0 <= index < self.attributes@.len() {
            Some(self.attributes@[index])
        } else {
            None
        }
    }

    /// The attribute at `index`.
    pub fn get(&self, index: usize) -> (r: Option<&AttributeValue>)
        ensures
            match r {
                Some(v) => self.attr(index as int) == Some(*v),
                None => self.attr(index as int) is None,
            },
    {
        if index < self.attributes.len() {
            Some(&self.attributes[index])
        } else {
            None
        }
    }

    /// The entity reference at `index`.
    pub fn get_ref(&self, index: usize) -> (r: Option<EntityId>)
        ensures
            r == match self.attr(index as int) {
                Some(AttributeValue::EntityRef(id)) => Some(id),
                _ => None,
            },
    {
        match self.get(index) {
            Some(v) => v.as_entity_ref(),
            None => None,
        }
    }

    /// The string at `index` (see [`AttributeValue::as_string`]).
    pub fn get_string(&self, index: usize) -> (r: Option<&str>)
        ensures
            match r {
                Some(s) => self.attr(index as int) matches Some(v) && text_of(v) == Some(s@),
                None => self.attr(index as int) matches Some(v) ==> text_of(v) is None,
            },
    {
        match self.get(index) {
            Some(v) => v.as_string(),
            None => None,
        }
    }

    /// The integer at `index`.
    pub fn get_integer(&self, index: usize) -> (r: Option<i64>)
        ensures
            r == match self.attr(index as int) {
                Some(AttributeValue::Integer(i)) => Some(i),
                _ => None,
            },
    {
        match self.get(index) {
            Some(v) => v.as_integer(),
            None => None,
        }
    }

    /// The list items at `index`.
    pub fn get_list(&self, index: usize) -> (r: Option<&[AttributeValue]>)
        ensures
            match r {
                Some(items) => self.attr(index as int) matches Some(AttributeValue::List(l)) && items@ == l@,
                None => !(self.attr(index as int) matches Some(AttributeValue::List(_))),
            },
    {
        match self.get(index) {
            Some(v) => v.as_list(),
            None => None,
        }
    }

    /// The truth value at `index` (see [`AttributeValue::as_bool`]).
    pub fn get_bool(&self, index: usize) -> (r: Option<bool>)
        ensures
            r == match self.attr(index as int) {
                Some(v) => bool_of(v),
                None => None,
            },
    {
        match self.get(index) {
            Some(v) => v.as_bool(),
            None => None,
        }
    }

    /// The enumeration word at `index`.
    pub fn get_enum(&self, index: usize) -> (r: Option<&str>)
        ensures
            match r {
                Some(s) => self.attr(index as int) matches Some(AttributeValue::Enum(e)) && e@ == s@,
                None => !(self.attr(index as int) matches Some(AttributeValue::Enum(_))),
            },
    {
        match self.get(index) {
            Some(v) => v.as_enum(),
            None => None,
        }
    }

    /// The entity references in the list at `index`, skipping other items.
    pub fn get_refs(&self, index: usize) -> (r: Option<Vec<EntityId>>)
        ensures
            match self.attr(index as int) {
                Some(AttributeValue::List(l)) => r matches Some(ids) && ids@ == refs_of(l@),
                _ => r is None,
            },
    {
        match self.get_list(index) {
            Some(items) => {
                let mut ids: Vec<EntityId> = Vec::new();
                let mut k: usize = 0;
                while k < items.len()
                    invariant
                        k <= items@.len(),
                        ids@ == refs_of(items@.take(k as int)),
                    decreases items@.len() - k,
                {
                    assert(items@.take(k + 1).drop_last() =~= items@.take(k as int));
                    match items[k].as_entity_ref() {
                        Some(id) => ids.push(id),
                        None => {},
                    }
                    k = k + 1;
                    assert(ids@ =~= refs_of(items@.take(k as int)));
                }
                assert(items@.take(k as int) =~= items@);
                Some(ids)
            },
            None => None,
        }
    }
}

} // verus!
