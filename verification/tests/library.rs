use fp_bindgen::functions::{Function, FunctionArg, FunctionList};
use fp_bindgen::generators::wasmtime_core_wasm::lowering::{
    lower_primitive, resource_release_import_name, WasmtimeCoreWasmError,
};
use fp_bindgen::generators::wasmtime_core_wasm::manifest::{ABI_NAMESPACE, SCHEMA};
use fp_bindgen::generators::wasmtime_core_wasm::{render_bindings, render_bindings_with_names};
use fp_bindgen::primitives::Primitive;
use fp_bindgen::text::{
    concat_all, decimal_string, indent, join, replace_separators, trim_leading_separators,
};
use fp_bindgen::types::{
    format_bounds, is_runtime_bound, path_to_string, CustomType, Enum, ParamBound, Resource,
    ResourceOwnership, Struct, Type, TypeIdent, TypeMap, TypeParam,
};

fn scalar(name: &str, args: &[(&str, &str)], ret: Option<&str>, is_async: bool) -> Function {
    let args = args
        .iter()
        .map(|(name, ty)| FunctionArg::new(name, TypeIdent::from(ty)))
        .collect();
    Function::new(name, args, ret.map(TypeIdent::from), is_async)
}

fn list(functions: Vec<Function>) -> FunctionList {
    let mut list = FunctionList::new();
    for function in functions {
        list.add_function(function);
    }
    list
}

fn strings(items: &[&str]) -> Vec<String> {
    items.iter().map(|item| item.to_string()).collect()
}

#[test]
fn decimal_string_spells_numbers_in_base_ten() {
    assert_eq!(decimal_string(0), "0");
    assert_eq!(decimal_string(7), "7");
    assert_eq!(decimal_string(10), "10");
    assert_eq!(decimal_string(1234), "1234");
    assert_eq!(decimal_string(4294967295), "4294967295");
}

#[test]
fn indent_prefixes_non_empty_lines_and_ends_each_line() {
    assert_eq!(indent("a\n\nb", 2), "  a\n\n  b\n");
    assert_eq!(indent("x\r\ny\n", 1), " x\n y\n");
    assert_eq!(indent("", 4), "");
    assert_eq!(indent("single", 0), "single\n");
}

#[test]
fn separators_are_replaced_and_trimmed_like_std() {
    assert_eq!(replace_separators("a, b, c", "|"), "a|b|c");
    assert_eq!(replace_separators("a,b", "|"), "a,b");
    assert_eq!(replace_separators(", , x", "-"), "--x");
    assert_eq!(trim_leading_separators(", , a, b"), "a, b");
    assert_eq!(trim_leading_separators("a, b"), "a, b");
    assert_eq!(trim_leading_separators(","), ",");
}

#[test]
fn join_and_concat_follow_slice_join() {
    assert_eq!(join(&strings(&["a", "b", "c"]), ", "), "a, b, c");
    assert_eq!(join(&strings(&[]), ", "), "");
    assert_eq!(join(&strings(&["only"]), "::"), "only");
    assert_eq!(concat_all(&strings(&["ab", "", "c"])), "abc");
}

#[test]
fn primitive_names_round_trip() {
    let all = [
        (Primitive::Bool, "bool"),
        (Primitive::F32, "f32"),
        (Primitive::F64, "f64"),
        (Primitive::I8, "i8"),
        (Primitive::I16, "i16"),
        (Primitive::I32, "i32"),
        (Primitive::I64, "i64"),
        (Primitive::U8, "u8"),
        (Primitive::U16, "u16"),
        (Primitive::U32, "u32"),
        (Primitive::U64, "u64"),
    ];
    for (primitive, name) in all {
        assert_eq!(primitive.name(), name);
        assert_eq!(primitive.as_str(), name);
        assert_eq!(Primitive::from_name(name), Some(primitive));
    }
    assert_eq!(Primitive::from_name("usize"), None);
    assert_eq!(Primitive::from_name("String"), None);
}

#[test]
fn type_ident_text_spells_arguments_and_arrays() {
    assert_eq!(TypeIdent::from("Archive").to_text(), "Archive");
    let map = TypeIdent::with_args(
        "BTreeMap",
        vec![TypeIdent::from("String"), TypeIdent::with_args("Vec", vec![TypeIdent::from("u8")])],
    );
    assert_eq!(map.to_text(), "BTreeMap<String, Vec<u8>>");
    let array = TypeIdent::array_of("u8", 3);
    assert_eq!(array.to_text(), "[u8; 3]");
    assert!(array.is_array());
    assert!(!map.is_array());
    assert_eq!(TypeIdent::from("u16").as_primitive(), Some(Primitive::U16));
    assert_eq!(TypeIdent::from("Archive").as_primitive(), None);
    assert!(map.same_as(&TypeIdent::with_args(
        "BTreeMap",
        vec![TypeIdent::from("String"), TypeIdent::with_args("Vec", vec![TypeIdent::from("u8")])],
    )));
    assert!(!map.same_as(&TypeIdent::from("BTreeMap")));
}

#[test]
fn type_names_follow_rust_spelling() {
    assert_eq!(Type::Alias("Handle".to_string(), TypeIdent::from("u64")).name(), "Handle");
    assert_eq!(Type::Array(Primitive::U8, 4).name(), "[u8; 4]");
    assert_eq!(
        Type::Container("Option".to_string(), TypeIdent::from("Archive")).name(),
        "Option<Archive>"
    );
    assert_eq!(
        Type::Custom(CustomType { ident: TypeIdent::from("Point") }).name(),
        "Point"
    );
    assert_eq!(Type::Enum(Enum { ident: TypeIdent::from("Mode") }).name(), "Mode");
    assert_eq!(Type::List("Vec".to_string(), TypeIdent::from("u8")).name(), "Vec<u8>");
    assert_eq!(
        Type::Dict(
            "BTreeMap".to_string(),
            TypeIdent::from("String"),
            TypeIdent::from("u32")
        )
        .name(),
        "BTreeMap<String, u32>"
    );
    assert_eq!(Type::Primitive(Primitive::F64).name(), "f64");
    assert_eq!(Type::Resource(Resource::owned("Archive")).name(), "Archive");
    assert_eq!(Type::String.name(), "String");
    assert_eq!(
        Type::Struct(Struct { ident: TypeIdent::with_args("Pair", vec![TypeIdent::from("u8")]) })
            .name(),
        "Pair<u8>"
    );
    assert_eq!(
        Type::Tuple(vec![TypeIdent::from("u8"), TypeIdent::from("bool")]).name(),
        "(u8, bool)"
    );
    assert_eq!(Type::Tuple(vec![]).name(), "()");
    assert_eq!(Type::Unit.name(), "()");
}

#[test]
fn resource_constructors_set_name_and_ownership() {
    let transport = Resource::new("Archive");
    assert_eq!(transport.ident.name, "Archive");
    assert_eq!(transport.ownership, ResourceOwnership::Transport);
    assert!(!transport.is_owned());
    assert!(!transport.is_stream());
    let owned = Resource::owned("Archive");
    assert_eq!(owned.ownership, ResourceOwnership::Owned);
    assert!(owned.is_owned());
    assert!(!owned.is_stream());
    let stream = Resource::stream("Input");
    assert_eq!(stream.ownership, ResourceOwnership::Stream);
    assert!(stream.is_owned());
    assert!(stream.is_stream());
}

#[test]
fn type_map_reads_back_what_was_inserted_and_keeps_keys_ordered() {
    let mut types = TypeMap::new();
    assert_eq!(types.len(), 0);
    types.insert(TypeIdent::from("Zeta"), Type::Unit);
    types.insert(TypeIdent::from("Alpha"), Type::Primitive(Primitive::U8));
    types.insert(TypeIdent::from("Mid"), Type::Resource(Resource::new("Mid")));
    let names: Vec<String> = types.entries().iter().map(|(key, _)| key.to_text()).collect();
    assert_eq!(names, vec!["Alpha", "Mid", "Zeta"]);
    assert_eq!(types.position(&TypeIdent::from("Mid")), Some(1));
    assert_eq!(types.position(&TypeIdent::from("Other")), None);
    assert!(matches!(types.get(&TypeIdent::from("Mid")), Some(Type::Resource(_))));
    assert!(types.get(&TypeIdent::from("Other")).is_none());

    types.insert(TypeIdent::from("Alpha"), Type::String);
    assert_eq!(types.len(), 3);
    let alpha = types.position(&TypeIdent::from("Alpha")).unwrap();
    assert!(matches!(types.entries()[alpha].1, Type::String));
    assert!(matches!(types.entries()[2].1, Type::Unit));
    assert!(matches!(types.get(&TypeIdent::from("Alpha")), Some(Type::String)));
}

#[test]
fn function_list_keeps_names_unique_and_ordered() {
    let mut functions = FunctionList::new();
    functions.add_function(scalar("zeta", &[], None, false));
    functions.add_function(scalar("alpha", &[("x", "u8")], None, false));
    functions.add_function(scalar("alpha", &[], Some("bool"), true));
    let names: Vec<&str> = functions.functions().iter().map(|f| f.name.as_str()).collect();
    assert_eq!(names, vec!["alpha", "zeta"]);
    let alpha = &functions.functions()[0];
    assert_eq!(alpha.args.len(), 1);
    assert!(alpha.return_type.is_none());
    assert!(!alpha.is_async);
}

#[test]
fn rendering_does_not_depend_on_declaration_order() {
    let forward = list(vec![
        scalar("alpha", &[("flag", "bool")], Some("u32"), false),
        scalar("beta", &[], None, true),
        scalar("gamma", &[("value", "i64")], Some("f64"), false),
    ]);
    let backward = list(vec![
        scalar("gamma", &[("value", "i64")], Some("f64"), false),
        scalar("beta", &[], None, true),
        scalar("alpha", &[("flag", "bool")], Some("u32"), false),
    ]);
    let exports = list(vec![scalar("guest", &[("n", "u16")], Some("u16"), false)]);
    let mut types = TypeMap::new();
    types.insert(TypeIdent::from("Archive"), Type::Resource(Resource::owned("Archive")));
    let first = render_bindings(&forward, &exports, &types).unwrap();
    let second = render_bindings(&backward, &exports, &types).unwrap();
    assert_eq!(first.guest_cargo, second.guest_cargo);
    assert_eq!(first.guest_source, second.guest_source);
    assert_eq!(first.host_linker, second.host_linker);
    assert_eq!(first.manifest, second.manifest);
}

#[test]
fn async_exports_are_rejected_with_their_name() {
    let exports = list(vec![scalar("later", &[], Some("i32"), true)]);
    match render_bindings(&FunctionList::new(), &exports, &TypeMap::new()) {
        Err(WasmtimeCoreWasmError::AsyncFunction { direction, function }) => {
            assert_eq!(direction, "export");
            assert_eq!(function, "later");
        }
        other => panic!("expected an async export error, got {other:?}"),
    }
}

#[test]
fn reserved_names_are_rejected_in_both_directions() {
    let imports = list(vec![scalar("take_operation_result", &[], None, false)]);
    match render_bindings(&imports, &FunctionList::new(), &TypeMap::new()) {
        Err(WasmtimeCoreWasmError::ReservedOperationControl { direction, function }) => {
            assert_eq!(direction, "import");
            assert_eq!(function, "take_operation_result");
        }
        other => panic!("expected a reserved name error, got {other:?}"),
    }
    let mut types = TypeMap::new();
    types.insert(TypeIdent::from("HttpServer"), Type::Resource(Resource::owned("HttpServer")));
    let exports = list(vec![scalar("resource_release_http_server", &[], None, false)]);
    match render_bindings(&FunctionList::new(), &exports, &types) {
        Err(WasmtimeCoreWasmError::ReservedOperationControl { direction, function }) => {
            assert_eq!(direction, "export");
            assert_eq!(function, "resource_release_http_server");
        }
        other => panic!("expected a reserved release name error, got {other:?}"),
    }
}

#[test]
fn unsupported_values_name_their_position_and_type() {
    let imports = list(vec![scalar("takes_string", &[("value", "String")], None, false)]);
    match render_bindings(&imports, &FunctionList::new(), &TypeMap::new()) {
        Err(WasmtimeCoreWasmError::UnsupportedValue { direction, function, position, ty }) => {
            assert_eq!(direction, "import");
            assert_eq!(function, "takes_string");
            assert_eq!(position, "argument `value`");
            assert_eq!(ty, "String");
        }
        other => panic!("expected an unsupported value error, got {other:?}"),
    }
    let exports = list(vec![Function::new(
        "bytes",
        vec![],
        Some(TypeIdent::with_args("Vec", vec![TypeIdent::from("u8")])),
        false,
    )]);
    match render_bindings(&FunctionList::new(), &exports, &TypeMap::new()) {
        Err(WasmtimeCoreWasmError::UnsupportedValue { direction, function, position, ty }) => {
            assert_eq!(direction, "export");
            assert_eq!(function, "bytes");
            assert_eq!(position, "return");
            assert_eq!(ty, "Vec<u8>");
        }
        other => panic!("expected an unsupported return error, got {other:?}"),
    }
}

#[test]
fn unit_returns_lower_to_nothing() {
    let imports = list(vec![scalar("reset", &[], Some("()"), false)]);
    let rendered = render_bindings(&imports, &FunctionList::new(), &TypeMap::new()).unwrap();
    assert!(rendered.guest_source.contains("pub fn reset() -> Result<(), AbiError>"));
}

#[test]
fn value_type_definitions_are_rejected() {
    let mut types = TypeMap::new();
    types.insert(TypeIdent::from("Text"), Type::String);
    match render_bindings(&FunctionList::new(), &FunctionList::new(), &types) {
        Err(WasmtimeCoreWasmError::UnsupportedTypeDefinition { name, ty }) => {
            assert_eq!(name, "Text");
            assert_eq!(ty, "String");
        }
        other => panic!("expected an unsupported definition error, got {other:?}"),
    }
    let mut accepted = TypeMap::new();
    accepted.insert(TypeIdent::from("u8"), Type::Primitive(Primitive::U8));
    accepted.insert(TypeIdent::from("()"), Type::Unit);
    assert!(render_bindings(&FunctionList::new(), &FunctionList::new(), &accepted).is_ok());
}

#[test]
fn invalid_resource_names_are_rejected() {
    for name in ["not-valid", "r#Archive", "u64", "fn", "_"] {
        let mut types = TypeMap::new();
        types.insert(TypeIdent::from(name), Type::Resource(Resource::new(name)));
        match render_bindings(&FunctionList::new(), &FunctionList::new(), &types) {
            Err(WasmtimeCoreWasmError::InvalidResourceName { name: reported }) => {
                assert_eq!(reported, name);
            }
            other => panic!("expected an invalid name error for {name}, got {other:?}"),
        }
    }
}

#[test]
fn release_names_use_the_snake_case_of_the_resource() {
    assert_eq!(resource_release_import_name("http_server"), "resource_release_http_server");
    let mut types = TypeMap::new();
    types.insert(TypeIdent::from("HTTPServer"), Type::Resource(Resource::owned("HTTPServer")));
    types.insert(TypeIdent::from("HttpServer"), Type::Resource(Resource::owned("HttpServer")));
    match render_bindings(&FunctionList::new(), &FunctionList::new(), &types) {
        Err(WasmtimeCoreWasmError::ResourceReleaseNameCollision {
            release,
            first_resource,
            second_resource,
        }) => {
            assert_eq!(release, "resource_release_http_server");
            assert_eq!(first_resource, "HTTPServer");
            assert_eq!(second_resource, "HttpServer");
        }
        other => panic!("expected a release name collision, got {other:?}"),
    }
    let mut single = TypeMap::new();
    single.insert(TypeIdent::from("HttpServer"), Type::Resource(Resource::owned("HttpServer")));
    let rendered = render_bindings(&FunctionList::new(), &FunctionList::new(), &single).unwrap();
    assert!(rendered.manifest.contains("resource_release_http_server"));
    assert!(rendered
        .guest_source
        .contains("__kernal_api_v1_import_resource_release_http_server"));
}

#[test]
fn owned_resources_cannot_cross_an_export() {
    let mut types = TypeMap::new();
    types.insert(TypeIdent::from("Archive"), Type::Resource(Resource::owned("Archive")));
    types.insert(TypeIdent::from("Entry"), Type::Resource(Resource::new("Entry")));
    let exports = list(vec![scalar("pass", &[("entry", "Entry")], Some("Archive"), false)]);
    match render_bindings(&FunctionList::new(), &exports, &types) {
        Err(WasmtimeCoreWasmError::OwnedResourceExport { function, resource }) => {
            assert_eq!(function, "pass");
            assert_eq!(resource, "Archive");
        }
        other => panic!("expected an owned export error, got {other:?}"),
    }
}

#[test]
fn checks_report_the_first_failure_in_order() {
    let imports = list(vec![scalar("bad", &[("s", "String")], None, false)]);
    let exports = list(vec![scalar("later", &[], None, true)]);
    let mut types = TypeMap::new();
    types.insert(TypeIdent::from("Text"), Type::String);
    assert!(matches!(
        render_bindings(&imports, &exports, &types),
        Err(WasmtimeCoreWasmError::UnsupportedValue { .. })
    ));
    assert!(matches!(
        render_bindings(&FunctionList::new(), &exports, &types),
        Err(WasmtimeCoreWasmError::AsyncFunction { .. })
    ));
    assert!(matches!(
        render_bindings(&FunctionList::new(), &FunctionList::new(), &types),
        Err(WasmtimeCoreWasmError::UnsupportedTypeDefinition { .. })
    ));
}

#[test]
fn rendering_with_given_names_uses_those_names() {
    let mut types = TypeMap::new();
    types.insert(TypeIdent::from("Archive"), Type::Resource(Resource::owned("Archive")));
    let snakes = vec!["tar_ball".to_string()];
    let rendered = render_bindings_with_names(
        &FunctionList::new(),
        &FunctionList::new(),
        &types,
        &snakes,
        &vec![true],
    )
    .unwrap();
    assert!(rendered.manifest.contains("resource_release_tar_ball"));
    match render_bindings_with_names(
        &FunctionList::new(),
        &FunctionList::new(),
        &types,
        &snakes,
        &vec![false],
    ) {
        Err(WasmtimeCoreWasmError::InvalidResourceName { name }) => assert_eq!(name, "Archive"),
        other => panic!("expected an invalid name error, got {other:?}"),
    }
}

#[test]
fn manifest_names_schema_and_namespace() {
    let rendered =
        render_bindings(&FunctionList::new(), &FunctionList::new(), &TypeMap::new()).unwrap();
    assert!(rendered.manifest.contains(SCHEMA));
    assert!(rendered.manifest.contains(ABI_NAMESPACE));
    assert_eq!(ABI_NAMESPACE, "kernal-api:v1");
    assert_eq!(SCHEMA, "fp-bindgen.core-wasm-abi");
}

#[test]
fn primitives_lower_to_their_core_wasm_carrier() {
    let cases = [
        (Primitive::Bool, "i32"),
        (Primitive::I8, "i32"),
        (Primitive::U32, "i32"),
        (Primitive::I64, "i64"),
        (Primitive::U64, "i64"),
        (Primitive::F32, "f32"),
        (Primitive::F64, "f64"),
    ];
    for (primitive, abi) in cases {
        let lowered = lower_primitive(primitive).unwrap();
        assert_eq!(lowered.abi(), abi);
        assert_eq!(lowered.semantic(), primitive.name());
        assert!(!lowered.is_resource());
    }
}

#[test]
fn bounds_keep_trait_paths_and_serializable_is_not_a_runtime_bound() {
    assert_eq!(path_to_string(&strings(&["fp_bindgen", "prelude", "Serializable"])), "fp_bindgen::prelude::Serializable");
    assert_eq!(path_to_string(&strings(&["Clone"])), "Clone");
    let param = TypeParam {
        bounds: vec![
            ParamBound::Trait(strings(&["Clone"])),
            ParamBound::Other,
            ParamBound::Trait(strings(&["std", "fmt", "Debug"])),
        ],
    };
    assert_eq!(format_bounds(&param), vec!["Clone", "std::fmt::Debug"]);
    assert!(!is_runtime_bound("Serializable"));
    assert!(!is_runtime_bound("fp_bindgen::prelude::Serializable"));
    assert!(is_runtime_bound("Clone"));
    assert!(is_runtime_bound("prelude::Serializable"));
}
