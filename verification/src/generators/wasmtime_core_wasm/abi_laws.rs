//! What the rendered files promise about the ABI, stated over every
//! declaration set: reserved control names, the ownership each resource
//! records, the operation handle of async imports, the signature through
//! which the host looks up an export, and the guest's bool codec.

use vstd::prelude::*;
use crate::types::{TypeIdent, Type, ResourceOwnership, ident_text};
use crate::functions::Function;
use crate::text::{contains_text, lemma_contains_left, lemma_contains_right, lemma_contains_self, lemma_contains_trans};
use super::lowering::{
    FunctionModel, ErrorModel, LoweredModel, lower_function_spec, lower_functions_spec, lemma_lower_functions_err_extends,
    resource_entry, entry_resource, abi_of,
};
use super::manifest::{manifest_spec, resource_records, resource_record, ownership_text};
use super::laws::lemma_rendered_declarations_are_admissible;
use super::host::{host_registration_spec, registration_result_spec, decoded_argument_spec, host_invocation_spec};
use super::guest::{guest_raw_import_spec, guest_source_spec, guest_resource_types_spec};
use super::host::{host_registrations_spec, host_invocations_spec, any_async, helper_used, used_helpers, helper_order, helper_source, host_helpers_spec, host_linker_spec, HOST_BOOL_HELPERS};
use crate::primitives::Primitive;
use crate::text::lemma_join_contains_part;
use super::manifest::manifest_record_spec;
use super::common::{abi_arguments_spec, wasm_call_params_spec, semantic_arguments_spec, semantic_return_spec, wasm_function_params_spec, abi_result_only_spec, decode_expression_spec};
use crate::text::{seq_join, replace_sep, trim_leading_sep};
use super::bindings_spec;

verus! {

/// Whether `name` is one of the four operation controls that the generator
/// adds for async imports.
pub open spec fn names_operation_control(name: Seq<char>) -> bool {
    ||| name == "poll_operation"@
    ||| name == "take_operation_result"@
    ||| name == "yield_operation"@
    ||| name == "cancel_operation"@
}

/// A function named after an operation control (`poll_operation`,
/// `take_operation_result`, `yield_operation`, `cancel_operation`) never
/// lowers: once the async check has passed, it is refused as a reserved
/// name, in either direction and whatever the declared types.
pub proof fn lemma_operation_control_names_are_refused(
    f: Function,
    types: Seq<(TypeIdent, Type)>,
    snakes: Seq<Seq<char>>,
    direction: Seq<char>,
    allow_async: bool,
)
    requires
        names_operation_control(f.name@),
        allow_async || !f.is_async,
    ensures
        lower_function_spec(f, types, snakes, direction, allow_async) == Err::<FunctionModel, ErrorModel>(
            ErrorModel::ReservedOperationControl { direction, function: f.name@ },
        ),
{
}

/// Rendering refuses an import named after an operation control, reporting
/// the import by name, unless an earlier import failed first.
pub proof fn lemma_control_named_import_is_refused(
    imports: Seq<Function>,
    exports: Seq<Function>,
    types: Seq<(TypeIdent, Type)>,
    snakes: Seq<Seq<char>>,
    plain: Seq<bool>,
    i: int,
)
    requires
        0 <= i < imports.len(),
        names_operation_control(imports[i].name@),
        lower_functions_spec(imports.take(i), types, snakes, "import"@, true) is Ok,
    ensures
        bindings_spec(imports, exports, types, snakes, plain) == Err::<super::RenderedModel, ErrorModel>(
            ErrorModel::ReservedOperationControl { direction: "import"@, function: imports[i].name@ },
        ),
{
    assert(imports.take(i + 1).drop_last() =~= imports.take(i));
    assert(imports.take(i + 1).last() == imports[i]);
    lemma_operation_control_names_are_refused(imports[i], types, snakes, "import"@, true);
    lemma_lower_functions_err_extends(imports, types, snakes, "import"@, true, i + 1);
}

/// Rendering refuses a (non-async) export named after an operation control,
/// reporting the export by name, unless the imports or an earlier export
/// failed first.
pub proof fn lemma_control_named_export_is_refused(
    imports: Seq<Function>,
    exports: Seq<Function>,
    types: Seq<(TypeIdent, Type)>,
    snakes: Seq<Seq<char>>,
    plain: Seq<bool>,
    i: int,
)
    requires
        0 <= i < exports.len(),
        names_operation_control(exports[i].name@),
        !exports[i].is_async,
        lower_functions_spec(imports, types, snakes, "import"@, true) is Ok,
        lower_functions_spec(exports.take(i), types, snakes, "export"@, false) is Ok,
    ensures
        bindings_spec(imports, exports, types, snakes, plain) == Err::<super::RenderedModel, ErrorModel>(
            ErrorModel::ReservedOperationControl { direction: "export"@, function: exports[i].name@ },
        ),
{
    assert(exports.take(i + 1).drop_last() =~= exports.take(i));
    assert(exports.take(i + 1).last() == exports[i]);
    lemma_operation_control_names_are_refused(exports[i], types, snakes, "export"@, false);
    lemma_lower_functions_err_extends(exports, types, snakes, "export"@, false, i + 1);
}

/// No successful rendering has an import or export named after an
/// operation control.
pub proof fn lemma_rendered_functions_avoid_control_names(
    imports: Seq<Function>,
    exports: Seq<Function>,
    types: Seq<(TypeIdent, Type)>,
    snakes: Seq<Seq<char>>,
    plain: Seq<bool>,
)
    requires
        bindings_spec(imports, exports, types, snakes, plain) is Ok,
    ensures
        forall|i: int| 0 <= i < imports.len() ==> !names_operation_control((#[trigger] imports[i]).name@),
        forall|i: int| 0 <= i < exports.len() ==> !names_operation_control((#[trigger] exports[i]).name@),
{
    lemma_rendered_declarations_are_admissible(imports, exports, types, snakes, plain);
}

proof fn lemma_resource_records_contain(types: Seq<(TypeIdent, Type)>, n: int, i: int)
    requires
        0 <= i < n <= types.len(),
        resource_entry(types, i),
    ensures
        contains_text(
            resource_records(types, n),
            resource_record(
                ident_text(entry_resource(types, i).ident),
                ownership_text(entry_resource(types, i).ownership),
            ),
        ),
    decreases n,
{
    let record = resource_record(
        ident_text(entry_resource(types, i).ident),
        ownership_text(entry_resource(types, i).ownership),
    );
    if i == n - 1 {
        lemma_contains_self(record);
        lemma_contains_right(resource_records(types, n - 1), record, record);
    } else {
        lemma_resource_records_contain(types, n - 1, i);
        if resource_entry(types, n - 1) {
            lemma_contains_left(
                resource_records(types, n - 1),
                resource_record(
                    ident_text(entry_resource(types, n - 1).ident),
                    ownership_text(entry_resource(types, n - 1).ownership),
                ),
                record,
            );
        }
    }
}

/// The manifest text of a resource record naming `name` with ownership `ownership`.
pub open spec fn resource_record_text(name: Seq<char>, ownership: Seq<char>) -> Seq<char> {
    "[[resources]]\nname = \""@ + name + "\"\nkind = \"opaque_host_handle\"\nownership = \""@ + ownership
        + "\"\nabi = \"i64\"\n"@
}

/// Every declared resource has a manifest record that names it as an
/// opaque host handle carried as `i64`, with the ownership it was declared
/// with: `transport` for a transport handle, `owned` for an owned one and
/// `stream` for a stream.
pub proof fn lemma_manifest_records_resource_ownership(
    imports: Seq<FunctionModel>,
    exports: Seq<FunctionModel>,
    types: Seq<(TypeIdent, Type)>,
    snakes: Seq<Seq<char>>,
    i: int,
)
    requires
        0 <= i < types.len(),
        types[i].1 is Resource,
    ensures
        ({
            let r = types[i].1->Resource_0;
            let manifest = manifest_spec(imports, exports, types, snakes);
            &&& r.ownership == ResourceOwnership::Transport ==> contains_text(
                manifest,
                resource_record_text(ident_text(r.ident), "transport"@),
            )
            &&& r.ownership == ResourceOwnership::Owned ==> contains_text(
                manifest,
                resource_record_text(ident_text(r.ident), "owned"@),
            )
            &&& r.ownership == ResourceOwnership::Stream ==> contains_text(
                manifest,
                resource_record_text(ident_text(r.ident), "stream"@),
            )
        }),
{
    broadcast use lemma_contains_left, lemma_contains_right;

    let r = types[i].1->Resource_0;
    let name = ident_text(r.ident);
    let own = ownership_text(r.ownership);
    let record = resource_record(name, own);
    lemma_resource_records_contain(types, types.len() as int, i);
    reveal_strlit("\"\nkind = \"opaque_host_handle\"\nownership = \"");
    reveal_strlit("\"\nabi = \"i64\"\n\n");
    reveal_strlit("\"\nabi = \"i64\"\n");
    reveal_strlit("\n");
    assert(record =~= resource_record_text(name, own) + "\n"@);
    lemma_contains_self(resource_record_text(name, own));
    lemma_contains_trans(resource_records(types, types.len() as int), record, resource_record_text(name, own));
    assert(contains_text(manifest_spec(imports, exports, types, snakes), resource_record_text(name, own)));
}


/// An async import crosses the ABI as an `i64` operation handle on every
/// side, whatever its completion type: the host's linker registration
/// closure returns `wasmtime::Result<i64>`, the guest's raw import returns
/// `i64`, and the manifest records an `i64` operation as its result.
pub proof fn lemma_async_import_is_an_operation_handle(f: FunctionModel)
    requires
        f.is_async,
    ensures
        contains_text(host_registration_spec(f), "-> wasmtime::Result<i64> {\n            "@),
        contains_text(guest_raw_import_spec(f), ") -> i64;"@),
        contains_text(
            manifest_record_spec("imports"@, "guest-to-host"@, f),
            "results = [{ semantic = \"operation\", abi = \"i64\" }]\n"@,
        ),
{
    broadcast use lemma_contains_left, lemma_contains_right;

    let t = "-> wasmtime::Result<i64> {\n            "@;
    reveal_strlit("-> wasmtime::Result<i64> {\n            ");
    reveal_strlit("i64");
    reveal_strlit("> {\n            ");
    let decoded = seq_join(
        f.args.map_values(|a: (Seq<char>, LoweredModel)| decoded_argument_spec(a)),
        "\n            "@,
    );
    let decoded = if decoded.len() == 0 {
        Seq::empty()
    } else {
        decoded + "\n            "@
    };
    let result = registration_result_spec(f);
    let abi_arguments = abi_arguments_spec(f);
    let abi_arguments = if abi_arguments.len() == 0 {
        Seq::empty()
    } else {
        ", "@ + abi_arguments
    };
    if abi_arguments.len() == 0 {
        let head = "|mut caller: wasmtime::Caller<'_, T>| -> wasmtime::Result<"@;
        reveal_strlit("|mut caller: wasmtime::Caller<'_, T>| -> wasmtime::Result<");
        let closure = head + "i64"@ + "> {\n            "@ + result + "\n        }"@;
        let k: int = 38;
        assert(closure.subrange(k, k + t.len()) =~= t);
        assert(contains_text(closure, t));
    } else {
        let arguments = replace_sep(trim_leading_sep(abi_arguments), ",\n         "@);
        let head = "|mut caller: wasmtime::Caller<'_, T>,\n         "@ + arguments;
        reveal_strlit("|\n         -> wasmtime::Result<");
        let closure = head + "|\n         -> wasmtime::Result<"@ + "i64"@ + "> {\n            "@ + decoded + result
            + "\n        }"@;
        let k: int = head.len() as int + 11;
        assert(closure.subrange(k, k + t.len()) =~= t);
        assert(contains_text(closure, t));
    }
    assert(contains_text(host_registration_spec(f), t));

    let u = ") -> i64;"@;
    reveal_strlit(") -> i64;");
    reveal_strlit(")");
    reveal_strlit(" -> i64");
    reveal_strlit(";");
    let raw = guest_raw_import_spec(f);
    let k: int = raw.len() as int - 9;
    assert(raw.subrange(k, k + u.len()) =~= u);

    let v = "results = [{ semantic = \"operation\", abi = \"i64\" }]\n"@;
    reveal_strlit("results = [{ semantic = \"operation\", abi = \"i64\" }]\n");
    reveal_strlit("]\nresults = [");
    reveal_strlit("{ semantic = \"operation\", abi = \"i64\" }");
    reveal_strlit("]\n");
    let params = seq_join(
        f.args.map_values(|a: (Seq<char>, LoweredModel)| super::common::manifest_value_spec(a.1)),
        ", "@,
    );
    let head = "[["@ + "imports"@ + "]]\nnamespace = \"kernal-api:v1\"\nname = \""@ + f.name + "\"\ndirection = \""@
        + "guest-to-host"@ + "\"\nparams = ["@ + params;
    let k: int = head.len() as int + 2;
    let record = manifest_record_spec("imports"@, "guest-to-host"@, f);
    assert(record.subrange(k, k + v.len()) =~= v);
}

/// The parameter types of an export's Core Wasm signature as Wasmtime's
/// typed functions name them: `()` for none, the single ABI type, or the
/// tuple of the ABI types in argument order.
pub open spec fn export_params_text(f: FunctionModel) -> Seq<char> {
    let abis = Seq::new(f.args.len(), |i: int| abi_of(f.args[i].1));
    if abis.len() == 0 {
        "()"@
    } else if abis.len() == 1 {
        abis[0]
    } else {
        "("@ + seq_join(abis, ", "@) + ")"@
    }
}

/// The result type of an export's Core Wasm signature: its ABI type, or `()`
/// when it returns nothing.
pub open spec fn export_result_text(f: FunctionModel) -> Seq<char> {
    match f.ret {
        Some(t) => abi_of(t),
        None => "()"@,
    }
}

/// The host looks each guest export up by its name with the export's own
/// Core Wasm signature: the first type argument of `get_typed_func` is the
/// export's parameter types and the second its result type.
pub proof fn lemma_host_invocation_uses_export_signature(f: FunctionModel)
    ensures
        contains_text(
            host_invocation_spec(f),
            "instance.get_typed_func::<"@ + export_params_text(f) + ", "@ + export_result_text(f)
                + ">(&mut *store, \""@ + f.name + "\")"@,
        ),
{
    broadcast use lemma_contains_left, lemma_contains_right;

    assert(f.args.map_values(|a: (Seq<char>, LoweredModel)| abi_of(a.1)) =~= Seq::new(
        f.args.len(),
        |i: int| abi_of(f.args[i].1),
    ));
    assert(wasm_function_params_spec(f) == export_params_text(f));
    assert(abi_result_only_spec(f) == export_result_text(f));
    let t = "instance.get_typed_func::<"@ + export_params_text(f) + ", "@ + export_result_text(f)
        + ">(&mut *store, \""@ + f.name + "\")"@;
    reveal_strlit("instance.get_typed_func::<");
    reveal_strlit("> {\n    let function = instance.get_typed_func::<");
    reveal_strlit("\")");
    reveal_strlit("\")?;\n    let raw = function.call(&mut *store, ");
    let call_arguments = wasm_call_params_spec(f);
    let result = match f.ret {
        Some(t) => decode_expression_spec("raw"@, t),
        None => "Ok(())"@,
    };
    let arguments = semantic_arguments_spec(f);
    let arguments = if arguments.len() == 0 {
        Seq::empty()
    } else {
        ",\n    "@ + replace_sep(arguments, ",\n    "@)
    };
    let head = "pub(crate) fn invoke_"@ + f.name
        + "<T>(\n    store: &mut wasmtime::Store<T>,\n    instance: &wasmtime::Instance"@ + arguments
        + ",\n) -> wasmtime::Result<"@ + semantic_return_spec(f);
    let whole = host_invocation_spec(f);
    let k: int = head.len() as int + 23;
    assert(whole.subrange(k, k + t.len()) =~= t);
}

/// The guest's bool decoder, as it stands in the guest source: 0 is false,
/// 1 is true, anything else is refused.
pub open spec fn guest_bool_decoder() -> Seq<char> {
    "fn bool_from_i32(value: i32) -> Result<bool, AbiError> { match value { 0 => Ok(false), 1 => Ok(true), value => Err(AbiError::InvalidBoolean(value)) } }"@
}

/// The guest's bool encoder, as it stands in the guest source: `i32::from`,
/// which maps false to 0 and true to 1.
pub open spec fn guest_bool_encoder() -> Seq<char> {
    "fn bool_to_i32(value: bool) -> i32 { i32::from(value) }"@
}

proof fn lemma_scalar_codecs_hold_bool_codec()
    ensures
        contains_text("fn bool_from_i32(value: i32) -> Result<bool, AbiError> { match value { 0 => Ok(false), 1 => Ok(true), value => Err(AbiError::InvalidBoolean(value)) } }\nfn i8_from_i32(value: i32) -> Result<i8, AbiError> { value.try_into().map_err(|_| AbiError::OutOfRange { ty: \"i8\", value }) }\nfn i16_from_i32(value: i32) -> Result<i16, AbiError> { value.try_into().map_err(|_| AbiError::OutOfRange { ty: \"i16\", value }) }\nfn u8_from_i32(value: i32) -> Result<u8, AbiError> { value.try_into().map_err(|_| AbiError::OutOfRange { ty: \"u8\", value }) }\nfn u16_from_i32(value: i32) -> Result<u16, AbiError> { value.try_into().map_err(|_| AbiError::OutOfRange { ty: \"u16\", value }) }\n\nfn i32_from_i32(value: i32) -> Result<i32, AbiError> { Ok(value) }\nfn u32_from_i32(value: i32) -> Result<u32, AbiError> { Ok(value as u32) }\nfn i64_from_i64(value: i64) -> Result<i64, AbiError> { Ok(value) }\nfn u64_from_i64(value: i64) -> Result<u64, AbiError> { Ok(value as u64) }\nfn f32_from_f32(value: f32) -> Result<f32, AbiError> { Ok(value) }\nfn f64_from_f64(value: f64) -> Result<f64, AbiError> { Ok(value) }\nfn bool_to_i32(value: bool) -> i32 { i32::from(value) }\nfn i8_to_i32(value: i8) -> i32 { value as i32 }\nfn i16_to_i32(value: i16) -> i32 { value as i32 }\nfn i32_to_i32(value: i32) -> i32 { value }\nfn u8_to_i32(value: u8) -> i32 { value as i32 }\nfn u16_to_i32(value: u16) -> i32 { value as i32 }\nfn u32_to_i32(value: u32) -> i32 { value as i32 }\nfn i64_to_i64(value: i64) -> i64 { value }\nfn u64_to_i64(value: u64) -> i64 { value as i64 }\nfn f32_to_f32(value: f32) -> f32 { value }\nfn f64_to_f64(value: f64) -> f64 { value }\n\nmod raw_imports {\n    #[link(wasm_import_module = \"kernal-api:v1\")]\n    extern \"C\" {\n"@, guest_bool_decoder()),
        contains_text("fn bool_from_i32(value: i32) -> Result<bool, AbiError> { match value { 0 => Ok(false), 1 => Ok(true), value => Err(AbiError::InvalidBoolean(value)) } }\nfn i8_from_i32(value: i32) -> Result<i8, AbiError> { value.try_into().map_err(|_| AbiError::OutOfRange { ty: \"i8\", value }) }\nfn i16_from_i32(value: i32) -> Result<i16, AbiError> { value.try_into().map_err(|_| AbiError::OutOfRange { ty: \"i16\", value }) }\nfn u8_from_i32(value: i32) -> Result<u8, AbiError> { value.try_into().map_err(|_| AbiError::OutOfRange { ty: \"u8\", value }) }\nfn u16_from_i32(value: i32) -> Result<u16, AbiError> { value.try_into().map_err(|_| AbiError::OutOfRange { ty: \"u16\", value }) }\n\nfn i32_from_i32(value: i32) -> Result<i32, AbiError> { Ok(value) }\nfn u32_from_i32(value: i32) -> Result<u32, AbiError> { Ok(value as u32) }\nfn i64_from_i64(value: i64) -> Result<i64, AbiError> { Ok(value) }\nfn u64_from_i64(value: i64) -> Result<u64, AbiError> { Ok(value as u64) }\nfn f32_from_f32(value: f32) -> Result<f32, AbiError> { Ok(value) }\nfn f64_from_f64(value: f64) -> Result<f64, AbiError> { Ok(value) }\nfn bool_to_i32(value: bool) -> i32 { i32::from(value) }\nfn i8_to_i32(value: i8) -> i32 { value as i32 }\nfn i16_to_i32(value: i16) -> i32 { value as i32 }\nfn i32_to_i32(value: i32) -> i32 { value }\nfn u8_to_i32(value: u8) -> i32 { value as i32 }\nfn u16_to_i32(value: u16) -> i32 { value as i32 }\nfn u32_to_i32(value: u32) -> i32 { value as i32 }\nfn i64_to_i64(value: i64) -> i64 { value }\nfn u64_to_i64(value: u64) -> i64 { value as i64 }\nfn f32_to_f32(value: f32) -> f32 { value }\nfn f64_to_f64(value: f64) -> f64 { value }\n\nmod raw_imports {\n    #[link(wasm_import_module = \"kernal-api:v1\")]\n    extern \"C\" {\n"@, guest_bool_encoder()),
{
    reveal_strlit("fn bool_from_i32(value: i32) -> Result<bool, AbiError> { match value { 0 => Ok(false), 1 => Ok(true), value => Err(AbiError::InvalidBoolean(value)) } }\nfn i8_from_i32(value: i32) -> Result<i8, AbiError> { value.try_into().map_err(|_| AbiError::OutOfRange { ty: \"i8\", value }) }\nfn i16_from_i32(value: i32) -> Result<i16, AbiError> { value.try_into().map_err(|_| AbiError::OutOfRange { ty: \"i16\", value }) }\nfn u8_from_i32(value: i32) -> Result<u8, AbiError> { value.try_into().map_err(|_| AbiError::OutOfRange { ty: \"u8\", value }) }\nfn u16_from_i32(value: i32) -> Result<u16, AbiError> { value.try_into().map_err(|_| AbiError::OutOfRange { ty: \"u16\", value }) }\n\nfn i32_from_i32(value: i32) -> Result<i32, AbiError> { Ok(value) }\nfn u32_from_i32(value: i32) -> Result<u32, AbiError> { Ok(value as u32) }\nfn i64_from_i64(value: i64) -> Result<i64, AbiError> { Ok(value) }\nfn u64_from_i64(value: i64) -> Result<u64, AbiError> { Ok(value as u64) }\nfn f32_from_f32(value: f32) -> Result<f32, AbiError> { Ok(value) }\nfn f64_from_f64(value: f64) -> Result<f64, AbiError> { Ok(value) }\nfn bool_to_i32(value: bool) -> i32 { i32::from(value) }\nfn i8_to_i32(value: i8) -> i32 { value as i32 }\nfn i16_to_i32(value: i16) -> i32 { value as i32 }\nfn i32_to_i32(value: i32) -> i32 { value }\nfn u8_to_i32(value: u8) -> i32 { value as i32 }\nfn u16_to_i32(value: u16) -> i32 { value as i32 }\nfn u32_to_i32(value: u32) -> i32 { value as i32 }\nfn i64_to_i64(value: i64) -> i64 { value }\nfn u64_to_i64(value: u64) -> i64 { value as i64 }\nfn f32_to_f32(value: f32) -> f32 { value }\nfn f64_to_f64(value: f64) -> f64 { value }\n\nmod raw_imports {\n    #[link(wasm_import_module = \"kernal-api:v1\")]\n    extern \"C\" {\n");
    reveal_strlit("fn bool_from_i32(value: i32) -> Result<bool, AbiError> { match value { 0 => Ok(false), 1 => Ok(true), value => Err(AbiError::InvalidBoolean(value)) } }");
    reveal_strlit("fn bool_to_i32(value: bool) -> i32 { i32::from(value) }");
    let codecs = "fn bool_from_i32(value: i32) -> Result<bool, AbiError> { match value { 0 => Ok(false), 1 => Ok(true), value => Err(AbiError::InvalidBoolean(value)) } }\nfn i8_from_i32(value: i32) -> Result<i8, AbiError> { value.try_into().map_err(|_| AbiError::OutOfRange { ty: \"i8\", value }) }\nfn i16_from_i32(value: i32) -> Result<i16, AbiError> { value.try_into().map_err(|_| AbiError::OutOfRange { ty: \"i16\", value }) }\nfn u8_from_i32(value: i32) -> Result<u8, AbiError> { value.try_into().map_err(|_| AbiError::OutOfRange { ty: \"u8\", value }) }\nfn u16_from_i32(value: i32) -> Result<u16, AbiError> { value.try_into().map_err(|_| AbiError::OutOfRange { ty: \"u16\", value }) }\n\nfn i32_from_i32(value: i32) -> Result<i32, AbiError> { Ok(value) }\nfn u32_from_i32(value: i32) -> Result<u32, AbiError> { Ok(value as u32) }\nfn i64_from_i64(value: i64) -> Result<i64, AbiError> { Ok(value) }\nfn u64_from_i64(value: i64) -> Result<u64, AbiError> { Ok(value as u64) }\nfn f32_from_f32(value: f32) -> Result<f32, AbiError> { Ok(value) }\nfn f64_from_f64(value: f64) -> Result<f64, AbiError> { Ok(value) }\nfn bool_to_i32(value: bool) -> i32 { i32::from(value) }\nfn i8_to_i32(value: i8) -> i32 { value as i32 }\nfn i16_to_i32(value: i16) -> i32 { value as i32 }\nfn i32_to_i32(value: i32) -> i32 { value }\nfn u8_to_i32(value: u8) -> i32 { value as i32 }\nfn u16_to_i32(value: u16) -> i32 { value as i32 }\nfn u32_to_i32(value: u32) -> i32 { value as i32 }\nfn i64_to_i64(value: i64) -> i64 { value }\nfn u64_to_i64(value: u64) -> i64 { value as i64 }\nfn f32_to_f32(value: f32) -> f32 { value }\nfn f64_to_f64(value: f64) -> f64 { value }\n\nmod raw_imports {\n    #[link(wasm_import_module = \"kernal-api:v1\")]\n    extern \"C\" {\n"@;
    let d = guest_bool_decoder();
    let e = guest_bool_encoder();
    let k: int = 0;
    assert(codecs.subrange(k, k + d.len()) =~= d);
    let k2: int = 1079;
    assert(codecs.subrange(k2, k2 + e.len()) =~= e);
}

/// Every guest source carries a bool codec whose encoder is the inverse of
/// its decoder: the encoder sends `i32::from(value)` (true as 1, false as 0)
/// and the decoder reads 0 as false and 1 as true, whatever is declared.
pub proof fn lemma_guest_bool_codec_round_trips(
    imports: Seq<FunctionModel>,
    exports: Seq<FunctionModel>,
    types: Seq<(TypeIdent, Type)>,
    snakes: Seq<Seq<char>>,
)
    ensures
        contains_text(guest_source_spec(imports, exports, types, snakes), guest_bool_decoder()),
        contains_text(guest_source_spec(imports, exports, types, snakes), guest_bool_encoder()),
{
    let has_async_imports = any_async(imports);
    let operation_error_variants = if has_async_imports {
        "            InvalidOperationState(i32),\n            OperationCancelled,\n"@
    } else {
        Seq::empty()
    };
    let resources = guest_resource_types_spec(types, snakes);
    let head = "// Generated Core Wasm guest bindings for `kernal-api:v1`.\n// Public APIs use semantic scalar and resource types; raw ABI values stay private.\n\nuse std::sync::OnceLock;\n\n#[derive(Clone, Debug, Eq, PartialEq)]\npub enum AbiError {\n    InvalidBoolean(i32),\n    OutOfRange { ty: &'static str, value: i32 },\n    ResourceClosed { resource: &'static str },\n    ResourceReleaseRejected { resource: &'static str, status: i32 },\n"@ + operation_error_variants + "}\n\n#[derive(Clone, Debug, Eq, PartialEq)]\npub enum ExportInstallError {\n    AlreadyInstalled,\n}\n\n"@ + resources;
    let codecs = "fn bool_from_i32(value: i32) -> Result<bool, AbiError> { match value { 0 => Ok(false), 1 => Ok(true), value => Err(AbiError::InvalidBoolean(value)) } }\nfn i8_from_i32(value: i32) -> Result<i8, AbiError> { value.try_into().map_err(|_| AbiError::OutOfRange { ty: \"i8\", value }) }\nfn i16_from_i32(value: i32) -> Result<i16, AbiError> { value.try_into().map_err(|_| AbiError::OutOfRange { ty: \"i16\", value }) }\nfn u8_from_i32(value: i32) -> Result<u8, AbiError> { value.try_into().map_err(|_| AbiError::OutOfRange { ty: \"u8\", value }) }\nfn u16_from_i32(value: i32) -> Result<u16, AbiError> { value.try_into().map_err(|_| AbiError::OutOfRange { ty: \"u16\", value }) }\n\nfn i32_from_i32(value: i32) -> Result<i32, AbiError> { Ok(value) }\nfn u32_from_i32(value: i32) -> Result<u32, AbiError> { Ok(value as u32) }\nfn i64_from_i64(value: i64) -> Result<i64, AbiError> { Ok(value) }\nfn u64_from_i64(value: i64) -> Result<u64, AbiError> { Ok(value as u64) }\nfn f32_from_f32(value: f32) -> Result<f32, AbiError> { Ok(value) }\nfn f64_from_f64(value: f64) -> Result<f64, AbiError> { Ok(value) }\nfn bool_to_i32(value: bool) -> i32 { i32::from(value) }\nfn i8_to_i32(value: i8) -> i32 { value as i32 }\nfn i16_to_i32(value: i16) -> i32 { value as i32 }\nfn i32_to_i32(value: i32) -> i32 { value }\nfn u8_to_i32(value: u8) -> i32 { value as i32 }\nfn u16_to_i32(value: u16) -> i32 { value as i32 }\nfn u32_to_i32(value: u32) -> i32 { value as i32 }\nfn i64_to_i64(value: i64) -> i64 { value }\nfn u64_to_i64(value: u64) -> i64 { value as i64 }\nfn f32_to_f32(value: f32) -> f32 { value }\nfn f64_to_f64(value: f64) -> f64 { value }\n\nmod raw_imports {\n    #[link(wasm_import_module = \"kernal-api:v1\")]\n    extern \"C\" {\n"@;
    lemma_scalar_codecs_hold_bool_codec();
    lemma_contains_right(head, codecs, guest_bool_decoder());
    lemma_contains_right(head, codecs, guest_bool_encoder());
    broadcast use lemma_contains_left;
    assert(contains_text(guest_source_spec(imports, exports, types, snakes), guest_bool_decoder()));
    assert(contains_text(guest_source_spec(imports, exports, types, snakes), guest_bool_encoder()));
}


/// The host's bool decoder arms: 0 is false and 1 is true.
pub open spec fn host_bool_decoder() -> Seq<char> {
    "fn bool_from_i32(value: i32) -> wasmtime::Result<bool> {\n    match value {\n        0 => Ok(false),\n        1 => Ok(true),"@
}

/// The host's bool encoder: `i32::from`, which maps false to 0 and true to 1.
pub open spec fn host_bool_encoder() -> Seq<char> {
    "fn bool_to_i32(value: bool) -> i32 {\n    i32::from(value)\n}"@
}

proof fn lemma_first_used_helper(ps: Seq<Primitive>, imports: Seq<FunctionModel>, exports: Seq<FunctionModel>)
    requires
        ps.len() > 0,
        helper_used(imports, exports, ps[0]),
    ensures
        used_helpers(ps, imports, exports).len() > 0,
        used_helpers(ps, imports, exports)[0] == helper_source(ps[0]),
    decreases ps.len(),
{
    assert(ps.last() == ps[ps.len() - 1]);
    if ps.len() == 1 {
        assert(used_helpers(ps.drop_last(), imports, exports).len() == 0);
    } else {
        assert(ps.drop_last()[0] == ps[0]);
        lemma_first_used_helper(ps.drop_last(), imports, exports);
    }
}

proof fn lemma_host_bool_helpers_hold_codec()
    ensures
        contains_text(HOST_BOOL_HELPERS@, host_bool_decoder()),
        contains_text(HOST_BOOL_HELPERS@, host_bool_encoder()),
{
    reveal_strlit("fn bool_from_i32(value: i32) -> wasmtime::Result<bool> {\n    match value {\n        0 => Ok(false),\n        1 => Ok(true),\n        value => Err(wasmtime::Error::msg(format!(\n            \"invalid bool ABI value: {value}\"\n        ))),\n    }\n}\nfn bool_to_i32(value: bool) -> i32 {\n    i32::from(value)\n}");
    reveal_strlit("fn bool_from_i32(value: i32) -> wasmtime::Result<bool> {\n    match value {\n        0 => Ok(false),\n        1 => Ok(true),");
    reveal_strlit("fn bool_to_i32(value: bool) -> i32 {\n    i32::from(value)\n}");
    let h = HOST_BOOL_HELPERS@;
    let d = host_bool_decoder();
    let e = host_bool_encoder();
    let k: int = 0;
    assert(h.subrange(k, k + d.len()) =~= d);
    let k2: int = 240;
    assert(h.subrange(k2, k2 + e.len()) =~= e);
}

/// Whenever a bool crosses the ABI, the host glue carries a bool codec
/// whose encoder is the inverse of its decoder: it sends `i32::from(value)`
/// (true as 1, false as 0) and reads 0 as false and 1 as true, as the guest
/// does.
pub proof fn lemma_host_bool_codec_round_trips(
    imports: Seq<FunctionModel>,
    exports: Seq<FunctionModel>,
    types: Seq<(TypeIdent, Type)>,
    snakes: Seq<Seq<char>>,
)
    requires
        helper_used(imports, exports, Primitive::Bool),
    ensures
        contains_text(host_linker_spec(imports, exports, types, snakes), host_bool_decoder()),
        contains_text(host_linker_spec(imports, exports, types, snakes), host_bool_encoder()),
{
    lemma_first_used_helper(helper_order(), imports, exports);
    lemma_join_contains_part(used_helpers(helper_order(), imports, exports), "\n"@, 0);
    lemma_host_bool_helpers_hold_codec();
    lemma_contains_trans(host_helpers_spec(imports, exports), HOST_BOOL_HELPERS@, host_bool_decoder());
    lemma_contains_trans(host_helpers_spec(imports, exports), HOST_BOOL_HELPERS@, host_bool_encoder());
    broadcast use lemma_contains_left, lemma_contains_right;
    assert(contains_text(host_linker_spec(imports, exports, types, snakes), host_bool_decoder()));
    assert(contains_text(host_linker_spec(imports, exports, types, snakes), host_bool_encoder()));
}


/// The host glue holds the linker registration of every import and the
/// invocation helper of every export.
pub proof fn lemma_host_linker_holds_every_function(
    imports: Seq<FunctionModel>,
    exports: Seq<FunctionModel>,
    types: Seq<(TypeIdent, Type)>,
    snakes: Seq<Seq<char>>,
)
    ensures
        forall|i: int|
            0 <= i < imports.len() ==> contains_text(
                host_linker_spec(imports, exports, types, snakes),
                host_registration_spec(#[trigger] imports[i]),
            ),
        forall|i: int|
            0 <= i < exports.len() ==> contains_text(
                host_linker_spec(imports, exports, types, snakes),
                host_invocation_spec(#[trigger] exports[i]),
            ),
{
    broadcast use lemma_contains_left, lemma_contains_right;

    assert forall|i: int| 0 <= i < imports.len() implies contains_text(
        host_linker_spec(imports, exports, types, snakes),
        host_registration_spec(#[trigger] imports[i]),
    ) by {
        let parts = imports.map_values(|f: FunctionModel| host_registration_spec(f));
        lemma_join_contains_part(parts, "\n"@, i);
        assert(contains_text(host_registrations_spec(imports), host_registration_spec(imports[i])));
    }
    assert forall|i: int| 0 <= i < exports.len() implies contains_text(
        host_linker_spec(imports, exports, types, snakes),
        host_invocation_spec(#[trigger] exports[i]),
    ) by {
        let parts = exports.map_values(|f: FunctionModel| host_invocation_spec(f));
        lemma_join_contains_part(parts, "\n\n"@, i);
        assert(contains_text(host_invocations_spec(exports), host_invocation_spec(exports[i])));
    }
}

} // verus!
