//! A verified model of a test-fixture builder synthesizer.
//!
//! From the schema of a record type the library assembles a companion
//! builder able to mass-produce instances of that record with
//! deterministic, index-driven field values: schema extraction from a
//! raw field listing, per-field default-generator selection keyed on
//! the field's declared type name, and the runtime operations of the
//! assembled builder (an index allocator, single and bulk build calls,
//! generator overrides, and fixed slots for excluded fields).

pub mod assemble;
pub mod builder;
pub mod digits;
pub mod laws;
pub mod schema;
pub mod select;
pub mod value;
