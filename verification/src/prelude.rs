//! The items a user of the generator names most often.

pub use crate::functions::{Function, FunctionList};
pub use crate::generators::wasmtime_core_wasm::lowering::WasmtimeCoreWasmError;
pub use crate::primitives::Primitive;
pub use crate::types::{CustomType, Type, TypeIdent, TypeMap};
