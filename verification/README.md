# fp-bindgen: Core Wasm bindings for a Wasmtime host

Declarations of functions (imports the host provides, exports the guest
provides) and of types are lowered to a scalar and opaque-resource Core Wasm
ABI and rendered as four files: the guest crate's `Cargo.toml`, the guest
source, private Wasmtime 45 linker glue for the host, and a TOML ABI manifest.

The library under `src/` is verified with Verus:

- `text` — string helpers (joining, decimal numbers, indentation) with
  exact contracts;
- `primitives`, `types`, `functions` — primitives, type identifiers, type
  declarations, the key-ordered `TypeMap` and the name-ordered `FunctionList`;
- `generators::wasmtime_core_wasm` — lowering (`lowering`), the checks a
  declaration set must pass (`checks`), the renderers of each file (`guest`,
  `host`, `manifest`, shared pieces in `common`), `render_bindings`, and the
  laws that hold of every rendering (`laws`);
- `outside` — the two results taken from other crates: the snake case of a
  resource name (Inflector) and whether a name is a plain identifier (syn).

`app/` writes the rendered files to a directory.
