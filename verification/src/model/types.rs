//! Entity identifiers and model metadata.

use vstd::prelude::*;

use crate::text::{decimal, decimal_chars, string_from_chars};

verus! {

/// Type-safe entity identifier: the raw STEP id, `#123` becomes
/// `EntityId(123)`.
#[derive(Clone, Copy, PartialEq, Eq, Structural, Hash, Debug)]
pub struct EntityId(pub u32);

impl Default for EntityId {
    fn default() -> (r: Self)
        ensures
            r == EntityId(0),
    {
        EntityId(0)
    }
}

impl EntityId {
    /// The STEP spelling of the id: `#` followed by its decimal digits.
    pub open spec fn spec_display(self) -> Seq<char> {
        seq!['#'] + decimal(self.0 as nat)
    }

    /// The STEP spelling of the id, e.g. `"#123"`.
    pub fn display_string(&self) -> (r: String)
        ensures
            r@ == self.spec_display(),
    {
        let mut v: Vec<char> = Vec::new();
        v.push('#');
        let digits = decimal_chars(self.0 as u64);
        let mut i: usize = 0;
        while i < digits.len()
            invariant
                i <= digits@.len(),
                v@ == seq!['#'] + digits@.take(i as int),
            decreases digits@.len() - i,
        {
            v.push(digits[i]);
            i = i + 1;
            assert(v@ =~= seq!['#'] + digits@.take(i as int));
        }
        assert(digits@.take(i as int) =~= digits@);
        string_from_chars(&v)
    }
}

impl From<u32> for EntityId {
    fn from(id: u32) -> (r: Self) {
        EntityId(id)
    }
}

impl vstd::std_specs::convert::FromSpecImpl<u32> for EntityId {
    open spec fn obeys_from_spec() -> bool {
        true
    }

    open spec fn from_spec(v: u32) -> Self {
        EntityId(v)
    }
}

impl From<EntityId> for u32 {
    fn from(id: EntityId) -> (r: Self) {
        id.0
    }
}

impl vstd::std_specs::convert::FromSpecImpl<EntityId> for u32 {
    open spec fn obeys_from_spec() -> bool {
        true
    }

    open spec fn from_spec(v: EntityId) -> Self {
        v.0
    }
}

impl From<EntityId> for u64 {
    fn from(id: EntityId) -> (r: Self) {
        id.0 as u64
    }
}

impl vstd::std_specs::convert::FromSpecImpl<EntityId> for u64 {
    open spec fn obeys_from_spec() -> bool {
        true
    }

    open spec fn from_spec(v: EntityId) -> Self {
        v.0 as u64
    }
}

/// Model metadata extracted from the IFC header.
#[derive(Clone, Debug)]
pub struct ModelMetadata {
    /// IFC schema version (e.g. "IFC2X3", "IFC4", "IFC4X3").
    pub schema_version: String,
    /// Originating system (CAD application).
    pub originating_system: Option<String>,
    /// Preprocessor version.
    pub preprocessor_version: Option<String>,
    /// File name from the header.
    pub file_name: Option<String>,
    /// File description.
    pub file_description: Option<String>,
    /// Author.
    pub author: Option<String>,
    /// Organization.
    pub organization: Option<String>,
    /// Timestamp.
    pub timestamp: Option<String>,
}

impl Default for ModelMetadata {
    fn default() -> (r: Self)
        ensures
            r.schema_version@ == Seq::<char>::empty(),
            r.originating_system is None,
            r.preprocessor_version is None,
            r.file_name is None,
            r.file_description is None,
            r.author is None,
            r.organization is None,
            r.timestamp is None,
    {
        ModelMetadata {
            schema_version: String::new(),
            originating_system: None,
            preprocessor_version: None,
            file_name: None,
            file_description: None,
            author: None,
            organization: None,
            timestamp: None,
        }
    }
}

} // verus!
