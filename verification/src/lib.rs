//! Deterministic Core Wasm bindings for a Wasmtime host: declarations of
//! functions and types are lowered to a scalar and opaque-resource ABI and
//! rendered as guest source, host linker glue and an ABI manifest.

pub mod functions;
pub mod generators;
pub mod outside;
pub mod prelude;
pub mod primitives;
pub mod text;
pub mod types;
