//! Deterministic scalar and opaque-resource Core Wasm bindings for a
//! Wasmtime 45 host.
//!
//! This target emits source text only and never selects an allocation,
//! serialization, or async transport protocol, except for explicit scalar
//! operation handles on imports.

pub mod abi_laws;
pub mod checks;
pub mod common;
pub mod guest;
pub mod host;
pub mod laws;
pub mod lowering;
pub mod manifest;

use vstd::prelude::*;
use crate::types::{Type, TypeIdent, TypeMap};
use crate::functions::{Function, FunctionList};
use crate::outside::{snake_case_of, parses_as_ident, to_snake_case, is_plain_ident};
use crate::text::views;
use self::lowering::{
    WasmtimeCoreWasmError, ErrorModel, lower_functions_spec, lower_functions,
    resource_entry, entry_resource,
};
use self::checks::{
    definitions_error, collision_error, owned_export_error, validate_type_definitions,
    validate_owned_resource_release_names, check_owned_exports,
};
use self::guest::{GUEST_CARGO, guest_source_spec, render_guest_cargo, render_guest_source};
use self::host::{host_linker_spec, render_host_linker};
use self::manifest::{manifest_spec, render_manifest};

verus! {

/// The four generated files.
#[derive(Debug)]
pub struct RenderedBindings {
    pub guest_cargo: String,
    pub guest_source: String,
    pub host_linker: String,
    pub manifest: String,
}

/// The texts of the four generated files.
pub struct RenderedModel {
    pub guest_cargo: Seq<char>,
    pub guest_source: Seq<char>,
    pub host_linker: Seq<char>,
    pub manifest: Seq<char>,
}

impl View for RenderedBindings {
    type V = RenderedModel;

    open spec fn view(&self) -> RenderedModel {
        RenderedModel {
            guest_cargo: self.guest_cargo@,
            guest_source: self.guest_source@,
            host_linker: self.host_linker@,
            manifest: self.manifest@,
        }
    }
}

pub open spec fn rendered_view(r: Result<RenderedBindings, WasmtimeCoreWasmError>) -> Result<RenderedModel, ErrorModel> {
    match r {
        Ok(b) => Ok(b@),
        Err(e) => Err(e@),
    }
}

/// What rendering yields for the declarations: the first failure of, in
/// turn, the imports, the exports, the type definitions, the release names
/// and the exports' owned resources; otherwise the four files. `snakes[i]`
/// is the snake case of the name of the resource in entry `i` of `types`,
/// and `plain[i]` whether that name parses as a plain identifier.
pub open spec fn bindings_spec(
    imports: Seq<Function>,
    exports: Seq<Function>,
    types: Seq<(TypeIdent, Type)>,
    snakes: Seq<Seq<char>>,
    plain: Seq<bool>,
) -> Result<RenderedModel, ErrorModel> {
    match lower_functions_spec(imports, types, snakes, "import"@, true) {
        Err(e) => Err(e),
        Ok(li) => match lower_functions_spec(exports, types, snakes, "export"@, false) {
            Err(e) => Err(e),
            Ok(le) => match definitions_error(types, plain) {
                Some(e) => Err(e),
                None => match collision_error(types, snakes) {
                    Some(e) => Err(e),
                    None => match owned_export_error(le) {
                        Some(e) => Err(e),
                        None => Ok(
                            RenderedModel {
                                guest_cargo: GUEST_CARGO@,
                                guest_source: guest_source_spec(li, le, types, snakes),
                                host_linker: host_linker_spec(li, le, types, snakes),
                                manifest: manifest_spec(li, le, types, snakes),
                            },
                        ),
                    },
                },
            },
        },
    }
}

/// The snake case of the name of each declared resource (empty for other entries).
pub open spec fn snake_names(types: Seq<(TypeIdent, Type)>) -> Seq<Seq<char>> {
    Seq::new(
        types.len(),
        |i: int|
            if resource_entry(types, i) {
                snake_case_of(entry_resource(types, i).ident.name@)
            } else {
                Seq::empty()
            },
    )
}

/// Whether the name of each declared resource parses as a plain identifier
/// (`false` for other entries).
pub open spec fn plain_names(types: Seq<(TypeIdent, Type)>) -> Seq<bool> {
    Seq::new(
        types.len(),
        |i: int|
            if resource_entry(types, i) {
                parses_as_ident(entry_resource(types, i).ident.name@)
            } else {
                false
            },
    )
}

/// Renders the bindings for the given declarations, where `snakes[i]` is
/// the snake case of the name of the resource declared in entry `i` of
/// `types` and `plain[i]` whether that name is a plain identifier.
pub fn render_bindings_with_names(
    import_functions: &FunctionList,
    export_functions: &FunctionList,
    types: &TypeMap,
    snakes: &Vec<String>,
    plain: &Vec<bool>,
) -> (r: Result<RenderedBindings, WasmtimeCoreWasmError>)
    requires
        snakes@.len() == types@.len(),
        plain@.len() == types@.len(),
    ensures
        rendered_view(r) == bindings_spec(
            import_functions@,
            export_functions@,
            types@,
            views(snakes@),
            plain@,
        ),
{
    let imports = match lower_functions(import_functions, types, snakes, "import", true) {
        Ok(l) => l,
        Err(e) => return Err(e),
    };
    let exports = match lower_functions(export_functions, types, snakes, "export", false) {
        Ok(l) => l,
        Err(e) => return Err(e),
    };
    match validate_type_definitions(types, plain) {
        Ok(()) => {},
        Err(e) => return Err(e),
    }
    match validate_owned_resource_release_names(types, snakes) {
        Ok(()) => {},
        Err(e) => return Err(e),
    }
    match check_owned_exports(&exports) {
        Ok(()) => {},
        Err(e) => return Err(e),
    }
    Ok(
        RenderedBindings {
            guest_cargo: render_guest_cargo(),
            guest_source: render_guest_source(&imports, &exports, types, snakes),
            host_linker: render_host_linker(&imports, &exports, types, snakes),
            manifest: render_manifest(&imports, &exports, types, snakes),
        },
    )
}

/// Lowers the declarations to the Core Wasm ABI and renders the guest
/// crate manifest, the guest source, the Wasmtime host glue and the ABI
/// manifest; nothing is rendered when a check fails.
pub fn render_bindings(
    import_functions: &FunctionList,
    export_functions: &FunctionList,
    types: &TypeMap,
) -> (r: Result<RenderedBindings, WasmtimeCoreWasmError>)
    ensures
        rendered_view(r) == bindings_spec(
            import_functions@,
            export_functions@,
            types@,
            snake_names(types@),
            plain_names(types@),
        ),
{
    let entries = types.entries();
    let mut snakes: Vec<String> = Vec::new();
    let mut plain: Vec<bool> = Vec::new();
    let mut i: usize = 0;
    while i < entries.len()
        invariant
            entries@ == types@,
            i <= types@.len(),
            snakes@.len() == i,
            plain@.len() == i,
            forall|k: int| 0 <= k < i ==> #[trigger] snakes@[k]@ == snake_names(types@)[k],
            forall|k: int| 0 <= k < i ==> #[trigger] plain@[k] == plain_names(types@)[k],
        decreases types@.len() - i,
    {
        match &entries[i].1 {
            Type::Resource(resource) => {
                snakes.push(to_snake_case(resource.ident.name.as_str()));
                plain.push(is_plain_ident(resource.ident.name.as_str()));
            },
            _ => {
                snakes.push(String::new());
                plain.push(false);
            },
        }
        i = i + 1;
    }
    proof {
        assert(views(snakes@) =~= snake_names(types@));
        assert(plain@ =~= plain_names(types@));
    }
    render_bindings_with_names(import_functions, export_functions, types, &snakes, &plain)
}

} // verus!
