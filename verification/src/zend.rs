//! The raw value layer: mirrors the engine's C structures as plain,
//! safely-typed records, keeping the field names and the packed encodings.

pub mod compile;
pub mod hash;
pub mod memory;
pub mod module;
pub mod string;
pub mod types;
