//! An in-memory registry of short links: a map from 32-bit keys to URLs,
//! with random key generation, overwrite on collision, and lookup.

mod table;

pub mod laws;
pub mod registry;

pub use registry::{index, LinkError, Registry};
