# bimifc

The verified core of an IFC (Industry Foundation Classes) building-model
toolkit, written in Verus.

- `src/model`: the IFC entity type enumeration with its wire names,
  case-insensitive parsing and inheritance queries; entity ids; decoded
  attribute values and entities; unit names.
- `src/federation`: discipline tags, the viewport filter, per-file source
  metadata, the classification rules and the multi-file scene that decides
  per-mesh visibility.
- `src/geometry`: the geometry processors' identities and the fast path
  that reads triangle indices straight from STEP text.
- `src/step_string.rs`: decoding of STEP string escapes; `src/step_lines.rs`:
  the entity headers (`#<id>=<TYPE>`) of a STEP text, line by line.
- `src/relations.rs`, `src/spatial.rs`, `src/photometry.rs`: the loader's
  relationship index, spatial tree entries and embedded photometry;
  `src/property_sets.rs`: the assembly of an element's property sets;
  `src/tree_order.rs`: the order of a spatial tree node's children.
- `src/ffi.rs`: the model API offered to native front ends, over an entity
  table.
- `src/hierarchy.rs`, `src/viewer_labels.rs`, `src/drawing.rs`,
  `src/lighting_mode.rs`: the decisions behind the viewer panels.
- `app/`: serde forms of the library's types, the standard error type, the
  floating-point attribute reads, property value formatting and storey
  elevation ranks.
