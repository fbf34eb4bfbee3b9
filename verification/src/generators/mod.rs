//! Binding generators.

pub mod wasmtime_core_wasm;
