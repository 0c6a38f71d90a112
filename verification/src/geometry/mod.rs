//! Geometry processors and the STEP text fast paths they use.

pub mod face_set_text;
pub mod processors;
