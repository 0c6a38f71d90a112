//! Multi-file IFC federation: discipline tags, the view filter, per-file
//! source metadata and the registry that decides per-mesh visibility.

pub mod classify;
pub mod scene;
pub mod source;
