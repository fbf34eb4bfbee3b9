use fp_bindgen::functions::{Function, FunctionArg, FunctionList};
use fp_bindgen::generators::wasmtime_core_wasm::lowering::WasmtimeCoreWasmError;
use fp_bindgen::generators::wasmtime_core_wasm::manifest::{ABI_NAMESPACE, SCHEMA};
use fp_bindgen::generators::wasmtime_core_wasm::{render_bindings, RenderedBindings};
use fp_bindgen::types::{Resource, Type, TypeIdent, TypeMap};

/// The identifier of a type as a declaration writes it.
fn type_ident(ty: &syn::Type) -> TypeIdent {
    match ty {
        syn::Type::Path(path) => {
            let segment = path.path.segments.last().expect("a type path has a segment");
            let name = segment.ident.to_string();
            match &segment.arguments {
                syn::PathArguments::AngleBracketed(arguments) => {
                    let args = arguments
                        .args
                        .iter()
                        .map(|argument| match argument {
                            syn::GenericArgument::Type(ty) => type_ident(ty),
                            _ => panic!("only type arguments are supported"),
                        })
                        .collect();
                    TypeIdent::with_args(&name, args)
                }
                _ => TypeIdent::from(&name),
            }
        }
        syn::Type::Array(array) => {
            let item = type_ident(&array.elem);
            let len = match &array.len {
                syn::Expr::Lit(syn::ExprLit { lit: syn::Lit::Int(len), .. }) => {
                    len.base10_parse::<usize>().unwrap()
                }
                _ => panic!("array lengths must be literals"),
            };
            TypeIdent::array_of(&item.name, len)
        }
        syn::Type::Tuple(tuple) if tuple.elems.is_empty() => TypeIdent::from("()"),
        _ => panic!("unsupported type in a declaration"),
    }
}

/// A function declared as Rust source, such as `fn alpha() -> bool;`.
fn function(declaration: &str) -> Function {
    let signature: syn::Signature =
        syn::parse_str(declaration.trim().trim_end_matches(';')).expect("a function signature");
    let args = signature
        .inputs
        .iter()
        .map(|input| match input {
            syn::FnArg::Typed(typed) => {
                let name = match &*typed.pat {
                    syn::Pat::Ident(ident) => ident.ident.to_string(),
                    _ => panic!("arguments must be named"),
                };
                FunctionArg::new(&name, type_ident(&typed.ty))
            }
            syn::FnArg::Receiver(_) => panic!("functions take no receiver"),
        })
        .collect();
    let return_type = match &signature.output {
        syn::ReturnType::Default => None,
        syn::ReturnType::Type(_, ty) => Some(type_ident(ty)),
    };
    Function::new(
        &signature.ident.to_string(),
        args,
        return_type,
        signature.asyncness.is_some(),
    )
}

fn declare(list: &mut FunctionList, declaration: &str) {
    list.add_function(function(declaration));
}

fn scalar_functions() -> (FunctionList, FunctionList) {
    let mut imports = FunctionList::new();
    declare(&mut imports, "fn zeta(flag: bool, count: i32, total: u64, ratio: f32, precise: f64);");
    declare(&mut imports, "fn alpha() -> bool;");
    let mut exports = FunctionList::new();
    declare(&mut exports, "fn guest_value(value: u64) -> f64;");
    (imports, exports)
}

fn resource_types() -> TypeMap {
    let mut types = TypeMap::new();
    for name in ["Archive", "Entry"] {
        types.insert(TypeIdent::from(name), Type::Resource(Resource::new(name)));
    }
    types
}

fn owned_resource_types() -> TypeMap {
    let mut types = resource_types();
    types.insert(TypeIdent::from("Archive"), Type::Resource(Resource::owned("Archive")));
    types
}

fn render(imports: &FunctionList, exports: &FunctionList, types: &TypeMap) -> RenderedBindings {
    render_bindings(imports, exports, types).unwrap()
}

#[test]
fn scalar_fixture_is_typed_bidirectional_and_free_of_legacy_runtime_words() {
    let (imports, exports) = scalar_functions();
    let rendered = render(&imports, &exports, &TypeMap::new());
    assert!(rendered
        .guest_cargo
        .contains("crate-type = [\"cdylib\", \"rlib\"]"));
    assert!(rendered.guest_source.contains("pub fn zeta(flag: bool, count: i32, total: u64, ratio: f32, precise: f64) -> Result<(), AbiError>"));
    assert!(rendered
        .guest_source
        .contains("#[no_mangle]\npub extern \"C\" fn guest_value(value: i64) -> f64"));
    assert!(rendered.host_linker.contains("fn zeta(&mut self, flag: bool, count: i32, total: u64, ratio: f32, precise: f64) -> wasmtime::Result<()>"));
    assert!(rendered
        .host_linker
        .contains("T: KernalApiV1Imports + Send + 'static"));
    assert!(rendered.host_linker.contains("invoke_guest_value"));
    assert!(!rendered.guest_source.contains("OperationCancelled"));
    for legacy in ["FatPtr", "MessagePack", "Wasmer", "Tokio", "rmp"] {
        assert!(!rendered.guest_source.contains(legacy));
        assert!(!rendered.host_linker.contains(legacy));
        assert!(!rendered.manifest.contains(legacy));
    }
}

#[test]
fn resource_declarations_render_nominal_opaque_handles_on_both_sides() {
    let mut types = TypeMap::new();
    types.insert(TypeIdent::from("Archive"), Type::Resource(Resource::new("Archive")));
    let rendered = render(&FunctionList::new(), &FunctionList::new(), &types);

    assert!(rendered.guest_source.contains("pub mod resources {"));
    assert!(rendered.guest_source.contains("pub struct Archive(u64);"));
    assert!(rendered
        .guest_source
        .contains("pub(crate) fn from_abi(raw: u64) -> Self"));
    assert!(rendered.host_linker.contains("pub(crate) mod resources {"));
    assert!(rendered
        .host_linker
        .contains("pub(crate) struct Archive(pub(crate) u64);"));
    let manifest: toml::Value = rendered.manifest.parse().unwrap();
    assert_eq!(manifest["resources"][0]["name"].as_str(), Some("Archive"));
    assert_eq!(
        manifest["resources"][0]["kind"].as_str(),
        Some("opaque_host_handle")
    );
    assert_eq!(manifest["resources"][0]["abi"].as_str(), Some("i64"));
}

#[test]
fn stream_declaration_is_an_owned_handle_with_distinct_manifest_policy() {
    let mut types = TypeMap::new();
    types.insert(TypeIdent::from("Input"), Type::Resource(Resource::stream("Input")));
    let rendered = render(&FunctionList::new(), &FunctionList::new(), &types);
    assert!(rendered
        .guest_source
        .contains("pub struct Input(::core::option::Option<u64>)"));
    assert!(rendered.guest_source.contains("resource_release_input"));
    let manifest: toml::Value = rendered.manifest.parse().unwrap();
    assert_eq!(
        manifest["resources"][0]["ownership"].as_str(),
        Some("stream")
    );
    assert!(!rendered.guest_source.contains("Vec<u8>"));
    assert!(!rendered.host_linker.contains("MessagePack"));
}

#[test]
fn resources_lower_to_nominal_signatures_and_i64_in_both_directions() {
    let mut imports = FunctionList::new();
    declare(&mut imports, "fn open_entry(archive: Archive, index: u32) -> Entry;");
    let mut exports = FunctionList::new();
    declare(&mut exports, "fn visit_entry(entry: Entry) -> Archive;");
    let rendered = render(&imports, &exports, &resource_types());
    syn::parse_file(&rendered.guest_source).unwrap();
    syn::parse_file(&rendered.host_linker).unwrap();
    assert!(rendered.guest_source.contains("pub fn open_entry(archive: resources::Archive, index: u32) -> Result<resources::Entry, AbiError>"));
    assert!(rendered
        .guest_source
        .contains("__kernal_api_v1_import_open_entry(archive: i64, index: i32) -> i64"));
    assert!(rendered
        .guest_source
        .contains("pub visit_entry: fn(resources::Entry) -> resources::Archive"));
    assert!(rendered
        .guest_source
        .contains("pub extern \"C\" fn visit_entry(entry: i64) -> i64"));
    assert!(rendered
        .guest_source
        .contains("super::resources::Archive::encode_i64(archive)"));
    assert!(rendered
        .guest_source
        .contains("super::resources::Entry::decode_i64(raw)"));
    assert!(rendered.host_linker.contains("fn open_entry(&mut self, archive: resources::Archive, index: u32) -> wasmtime::Result<resources::Entry>"));
    assert!(rendered
        .host_linker
        .contains("resources::Archive::decode_i64(archive)?"));
    assert!(rendered.host_linker.contains(
        "resources::Entry::encode_i64(caller.data_mut().open_entry(archive, index)?)"
    ));
    assert!(rendered.host_linker.contains("get_typed_func::<i64, i64>"));
    let manifest: toml::Value = rendered.manifest.parse().unwrap();
    for record in [&manifest["imports"][0], &manifest["exports"][0]] {
        for field in ["params", "results"] {
            assert_eq!(record[field][0]["kind"].as_str(), Some("resource"));
            assert_eq!(record[field][0]["abi"].as_str(), Some("i64"));
        }
    }
    assert_eq!(
        manifest["imports"][0]["params"][0]["semantic"].as_str(),
        Some("Archive")
    );
    assert_eq!(
        manifest["imports"][0]["results"][0]["semantic"].as_str(),
        Some("Entry")
    );
    assert_eq!(
        manifest["exports"][0]["params"][0]["semantic"].as_str(),
        Some("Entry")
    );
    assert_eq!(
        manifest["exports"][0]["results"][0]["semantic"].as_str(),
        Some("Archive")
    );
}

#[test]
fn async_resource_import_preserves_typed_completion() {
    let mut imports = FunctionList::new();
    declare(&mut imports, "async fn next_entry(archive: Archive) -> Entry;");
    let rendered = render(&imports, &FunctionList::new(), &resource_types());
    syn::parse_file(&rendered.guest_source).unwrap();
    syn::parse_file(&rendered.host_linker).unwrap();
    assert!(rendered.guest_source.contains("pub fn next_entry(archive: resources::Archive) -> Result<PendingOperation<resources::Entry>, AbiError>"));
    assert!(rendered
        .guest_source
        .contains("|raw| super::resources::Entry::decode_i64(raw)"));
    assert!(rendered.host_linker.contains(
        "fn next_entry(&mut self, archive: resources::Archive) -> wasmtime::Result<u64>"
    ));
    let manifest: toml::Value = rendered.manifest.parse().unwrap();
    assert_eq!(manifest["imports"][0]["async"].as_bool(), Some(true));
    assert_eq!(
        manifest["imports"][0]["results"][0]["semantic"].as_str(),
        Some("operation")
    );
    assert_eq!(
        manifest["imports"][0]["operation_result"]["semantic"].as_str(),
        Some("Entry")
    );
    assert_eq!(
        manifest["imports"][0]["operation_result"]["kind"].as_str(),
        Some("resource")
    );
    assert_eq!(
        manifest["imports"][0]["operation_result"]["abi"].as_str(),
        Some("i64")
    );
}

#[test]
fn owned_resources_borrow_until_async_completion_and_emit_release_contract() {
    let mut imports = FunctionList::new();
    declare(&mut imports, "async fn next_entry(archive: Archive) -> Entry;");
    let rendered = render(&imports, &FunctionList::new(), &owned_resource_types());
    syn::parse_file(&rendered.guest_source).unwrap();
    syn::parse_file(&rendered.host_linker).unwrap();
    assert!(rendered
        .guest_source
        .contains("pub struct Archive(::core::option::Option<u64>);"));
    assert!(rendered.guest_source.contains("pub fn close(mut self)"));
    assert!(rendered
        .guest_source
        .contains("impl ::core::ops::Drop for Archive"));
    assert!(rendered
        .guest_source
        .contains("pub struct PendingOperation<'a, T>"));
    assert!(rendered.guest_source.contains("pub fn next_entry<'a>(archive: &'a resources::Archive) -> Result<PendingOperation<'a, resources::Entry>, AbiError>"));
    assert!(rendered.guest_source.contains("resource_release_archive"));
    assert!(rendered.host_linker.contains("fn resource_release_archive(&mut self, resource: resources::Archive) -> wasmtime::Result<i32>;"));
    let manifest: toml::Value = rendered.manifest.parse().unwrap();
    assert_eq!(
        manifest["resources"][0]["ownership"].as_str(),
        Some("owned")
    );
    assert_eq!(
        manifest["imports"][5]["name"].as_str(),
        Some("resource_release_archive")
    );
    assert_eq!(
        manifest["imports"][5]["resource_control"].as_str(),
        Some("release")
    );
}

#[test]
fn owned_resources_reject_implicit_export_transfer_and_control_collisions() {
    let mut exports = FunctionList::new();
    declare(&mut exports, "fn pass(archive: Archive) -> Entry;");
    assert!(matches!(
        render_bindings(&FunctionList::new(), &exports, &owned_resource_types()),
        Err(WasmtimeCoreWasmError::OwnedResourceExport { .. })
    ));
    let mut imports = FunctionList::new();
    declare(&mut imports, "fn resource_release_archive();");
    assert!(matches!(
        render_bindings(&imports, &FunctionList::new(), &owned_resource_types()),
        Err(WasmtimeCoreWasmError::ReservedOperationControl { .. })
    ));

    let mut colliding = TypeMap::new();
    for name in ["HTTPServer", "HttpServer"] {
        colliding.insert(TypeIdent::from(name), Type::Resource(Resource::owned(name)));
    }
    assert!(matches!(
        render_bindings(&FunctionList::new(), &FunctionList::new(), &colliding),
        Err(WasmtimeCoreWasmError::ResourceReleaseNameCollision { .. })
    ));
}

#[test]
fn resource_signatures_require_declarations_and_reject_value_containers() {
    for declaration in [
        "fn unknown(value: Undeclared);",
        "fn unknown() -> Undeclared;",
        "async fn unknown() -> Undeclared;",
        "fn list(value: Vec<Archive>);",
        "fn generic(value: Archive<u64>);",
        "fn optional() -> Option<Archive>;",
        "fn array(value: [Archive; 2]);",
    ] {
        let mut imports = FunctionList::new();
        declare(&mut imports, declaration);
        assert!(
            matches!(
                render_bindings(&imports, &FunctionList::new(), &resource_types()),
                Err(WasmtimeCoreWasmError::UnsupportedValue { .. })
            ),
            "{declaration}"
        );
    }
    let mut exports = FunctionList::new();
    declare(&mut exports, "async fn unsupported() -> Archive;");
    assert!(matches!(
        render_bindings(&FunctionList::new(), &exports, &resource_types()),
        Err(WasmtimeCoreWasmError::AsyncFunction { .. })
    ));
}

#[test]
fn wasmtime45_resource_fixture_is_exact_generated_host_golden() {
    let mut imports = FunctionList::new();
    declare(&mut imports, "fn open_entry(archive: Archive) -> Entry;");
    let mut exports = FunctionList::new();
    declare(&mut exports, "fn visit_entry(entry: Entry) -> Entry;");
    let rendered = render(&imports, &exports, &owned_resource_types());
    assert_eq!(rendered.host_linker, r####"// Generated private Wasmtime 45 glue for Core Wasm ABI `kernal-api:v1`.
// Host trait and invocation helpers use semantic scalar and resource types.

pub(crate) mod resources {
    #[repr(transparent)]
    #[derive(Clone, Copy, Debug, Eq, Hash, PartialEq)]
    pub(crate) struct Archive(pub(crate) u64);

    impl Archive {
        pub(crate) fn decode_i64(raw: i64) -> ::wasmtime::Result<Self> { ::std::result::Result::Ok(Self(raw as u64)) }
        pub(crate) fn encode_i64(self) -> i64 { self.0 as i64 }
    }

    #[repr(transparent)]
    #[derive(Clone, Copy, Debug, Eq, Hash, PartialEq)]
    pub(crate) struct Entry(pub(crate) u64);

    impl Entry {
        pub(crate) fn decode_i64(raw: i64) -> ::wasmtime::Result<Self> { ::std::result::Result::Ok(Self(raw as u64)) }
        pub(crate) fn encode_i64(self) -> i64 { self.0 as i64 }
    }

 }



pub(crate) trait KernalApiV1Imports {
    fn open_entry(&mut self, archive: resources::Archive) -> wasmtime::Result<resources::Entry>;
    /// Atomically revoke this guest-owned handle through the host's canonical scope/generation registry.
    fn resource_release_archive(&mut self, resource: resources::Archive) -> wasmtime::Result<i32>;
}

pub(crate) fn link_kernal_api_v1<T>(linker: &mut wasmtime::Linker<T>) -> wasmtime::Result<()>
where
    T: KernalApiV1Imports + Send + 'static,
{
    linker.func_wrap(
        "kernal-api:v1",
        "open_entry",
        |mut caller: wasmtime::Caller<'_, T>,
         archive: i64|
         -> wasmtime::Result<i64> {
            let archive = resources::Archive::decode_i64(archive)?;
            Ok(resources::Entry::encode_i64(caller.data_mut().open_entry(archive)?))
        },
    )?;
    linker.func_wrap(
        "kernal-api:v1",
        "resource_release_archive",
        |mut caller: wasmtime::Caller<'_, T>, resource: i64| -> wasmtime::Result<i32> {
            caller.data_mut().resource_release_archive(resources::Archive::decode_i64(resource)?)
        },
    )?;
    Ok(())
}

pub(crate) fn invoke_visit_entry<T>(
    store: &mut wasmtime::Store<T>,
    instance: &wasmtime::Instance,
    entry: resources::Entry,
) -> wasmtime::Result<resources::Entry> {
    let function = instance.get_typed_func::<i64, i64>(&mut *store, "visit_entry")?;
    let raw = function.call(&mut *store, resources::Entry::encode_i64(entry))?;
    resources::Entry::decode_i64(raw)
}
"####);
}

#[test]
fn resource_declaration_must_match_its_type_map_identity() {
    let mut types = TypeMap::new();
    types.insert(TypeIdent::from("Archive"), Type::Resource(Resource::new("Other")));
    assert!(matches!(
        render_bindings(&FunctionList::new(), &FunctionList::new(), &types),
        Err(WasmtimeCoreWasmError::UnsupportedTypeDefinition { .. })
    ));
}

#[test]
fn resource_declaration_is_isolated_from_generated_binding_names() {
    let mut types = TypeMap::new();
    types.insert(TypeIdent::from("OnceLock"), Type::Resource(Resource::new("OnceLock")));
    let rendered = render(&FunctionList::new(), &FunctionList::new(), &types);
    assert!(rendered.guest_source.contains("pub struct OnceLock(u64);"));
}

#[test]
fn resource_declaration_must_be_a_plain_rust_identifier() {
    let mut types = TypeMap::new();
    types.insert(TypeIdent::from("not-valid"), Type::Resource(Resource::new("not-valid")));
    assert!(matches!(
        render_bindings(&FunctionList::new(), &FunctionList::new(), &types),
        Err(WasmtimeCoreWasmError::InvalidResourceName { .. })
    ));
}

#[test]
fn resource_declaration_cannot_shadow_or_alias_a_primitive_identifier() {
    for name in ["u64", "r#Archive"] {
        let mut types = TypeMap::new();
        types.insert(TypeIdent::from(name), Type::Resource(Resource::new(name)));
        assert!(matches!(
            render_bindings(&FunctionList::new(), &FunctionList::new(), &types),
            Err(WasmtimeCoreWasmError::InvalidResourceName { .. })
        ));
    }
}

#[test]
fn manifest_is_parseable_toml_with_canonical_sorted_records() {
    let (imports, exports) = scalar_functions();
    let first = render(&imports, &exports, &TypeMap::new());
    let manifest: toml::Value = toml::from_str(&first.manifest).unwrap();
    assert_eq!(manifest["schema"].as_str(), Some(SCHEMA));
    assert_eq!(manifest["namespace"].as_str(), Some(ABI_NAMESPACE));
    assert_eq!(manifest["imports"][0]["name"].as_str(), Some("alpha"));
    assert_eq!(
        manifest["imports"][1]["params"][2]["semantic"].as_str(),
        Some("u64")
    );
    assert_eq!(
        first.manifest,
        r#"schema = "fp-bindgen.core-wasm-abi"
schema_revision = 1
generator_revision = 1
abi_version = 1
namespace = "kernal-api:v1"

[[imports]]
namespace = "kernal-api:v1"
name = "alpha"
direction = "guest-to-host"
params = []
results = [{ semantic = "bool", abi = "i32" }]

[[imports]]
namespace = "kernal-api:v1"
name = "zeta"
direction = "guest-to-host"
params = [{ semantic = "bool", abi = "i32" }, { semantic = "i32", abi = "i32" }, { semantic = "u64", abi = "i64" }, { semantic = "f32", abi = "f32" }, { semantic = "f64", abi = "f64" }]
results = [{ semantic = "()", abi = "unit" }]

[[exports]]
namespace = "kernal-api:v1"
name = "guest_value"
direction = "host-to-guest"
params = [{ semantic = "u64", abi = "i64" }]
results = [{ semantic = "f64", abi = "f64" }]
"#
    );
    let mut reordered = FunctionList::new();
    declare(&mut reordered, "fn alpha() -> bool;");
    declare(&mut reordered, "fn zeta(flag: bool, count: i32, total: u64, ratio: f32, precise: f64);");
    let second = render(&reordered, &exports, &TypeMap::new());
    assert_eq!(first.manifest, second.manifest);
    assert_eq!(first.guest_source, second.guest_source);
    assert_eq!(first.host_linker, second.host_linker);
}

#[test]
fn invalid_bool_and_narrow_values_use_checked_decoder_paths() {
    let (imports, exports) = scalar_functions();
    let rendered = render(&imports, &exports, &TypeMap::new());
    assert!(rendered
        .guest_source
        .contains("match value { 0 => Ok(false), 1 => Ok(true)"));
    let mut narrow_imports = FunctionList::new();
    declare(&mut narrow_imports, "fn narrow(value: u8) -> u16;");
    let narrow = render(&narrow_imports, &FunctionList::new(), &TypeMap::new());
    assert!(narrow
        .host_linker
        .contains("u16_from_i32(value: i32) -> wasmtime::Result<u16>"));
    assert!(rendered.guest_source.contains("u64_to_i64"));
    assert!(rendered.host_linker.contains("u64_from_i64"));
}

#[test]
fn non_scalar_async_export_and_reserved_values_are_rejected_before_output() {
    for declaration in [
        "fn takes_string(value: String);",
        "fn takes_array(value: [u8; 4]);",
        "fn takes_list(value: Vec<u8>);",
        "fn takes_result(value: Result<u32, u32>);",
        "fn takes_struct(value: Payload);",
    ] {
        let mut imports = FunctionList::new();
        declare(&mut imports, declaration);
        assert!(matches!(
            render_bindings(&imports, &FunctionList::new(), &TypeMap::new()),
            Err(WasmtimeCoreWasmError::UnsupportedValue { .. })
        ));
    }
    let mut async_exports = FunctionList::new();
    declare(&mut async_exports, "async fn later() -> i32;");
    assert!(matches!(
        render_bindings(&FunctionList::new(), &async_exports, &TypeMap::new()),
        Err(WasmtimeCoreWasmError::AsyncFunction { .. })
    ));
    let mut reserved_imports = FunctionList::new();
    declare(&mut reserved_imports, "fn poll_operation();");
    assert!(matches!(
        render_bindings(&reserved_imports, &FunctionList::new(), &TypeMap::new()),
        Err(WasmtimeCoreWasmError::ReservedOperationControl { .. })
    ));
}
