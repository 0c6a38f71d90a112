//! Core IFC data types: entity ids, the entity type enumeration, decoded
//! attribute values and entities, unit names and model metadata.

pub mod attribute;
pub mod ifc_type;
pub mod ifc_type_table;
pub mod types;
pub mod units;
pub mod ifc_type_names;
pub mod ifc_type_tree;
