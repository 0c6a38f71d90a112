//! Verified core of the bimifc IFC toolkit.

pub mod drawing;
pub mod federation;
pub mod ffi;
pub mod geometry;
pub mod hierarchy;
pub mod lighting_mode;
pub mod model;
pub mod photometry;
pub mod property_sets;
pub mod relations;
pub mod spatial;
pub mod step_lines;
pub mod step_string;
pub mod text;
pub mod tree_order;
pub mod viewer_labels;
