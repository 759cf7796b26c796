//! Conversion between a chunked binary triangle-mesh interchange format and a
//! compact little-endian collision-mesh format.
//!
//! The parser walks a stream of self-describing chunks, decodes vertex,
//! wedge and face records, and resolves the two-level triangle -> wedge ->
//! vertex indirection into a flat index buffer.  The encoder packs a parsed
//! mesh into the target byte layout.  Both are pure functions of their
//! inputs; 32-bit float coordinates are carried as their raw little-endian
//! bit patterns, which the byte layouts preserve exactly.

pub mod cmf;
pub mod codec;
pub mod converter;
pub mod laws;
pub mod pskx;
