//! The private Wasmtime 45 host glue: resource handle types, scalar codec
//! helpers, the host import trait, linker registrations and typed
//! invocation helpers for guest exports.

use vstd::prelude::*;
use crate::primitives::Primitive;
use crate::types::{TypeIdent, Type, TypeMap, ident_text};
use crate::text::{seq_join, views, join, replace_sep, trim_leading_sep, indent_spec, replace_separators, trim_leading_separators, indent};
use super::lowering::{
    LoweredType, LoweredModel, LoweredFunction, FunctionModel, function_views, release_name, owned_entry,
    resource_entry, entry_resource, resource_release_import_name,
};
use super::common::{
    semantic_arguments_spec, abi_arguments_spec, abi_result_only_spec,
    semantic_return_spec, encode_function_spec, decode_expression_spec, wasm_function_params_spec,
    wasm_call_params_spec, render_semantic_arguments, render_abi_arguments,
    render_abi_result_only, semantic_return, encode_function, decode_expression,
    render_wasm_function_params, render_wasm_call_params,
};

verus! {

/// The host codec helpers of `bool`.
pub const HOST_BOOL_HELPERS: &'static str = "fn bool_from_i32(value: i32) -> wasmtime::Result<bool> {\n    match value {\n        0 => Ok(false),\n        1 => Ok(true),\n        value => Err(wasmtime::Error::msg(format!(\n            \"invalid bool ABI value: {value}\"\n        ))),\n    }\n}\nfn bool_to_i32(value: bool) -> i32 {\n    i32::from(value)\n}";

/// The host codec helpers of `i8`.
pub const HOST_I8_HELPERS: &'static str = "fn i8_from_i32(value: i32) -> wasmtime::Result<i8> {\n    value\n        .try_into()\n        .map_err(|_| wasmtime::Error::msg(format!(\"invalid i8 ABI value: {value}\")))\n}\nfn i8_to_i32(value: i8) -> i32 {\n    value as i32\n}";

/// The host codec helpers of `i16`.
pub const HOST_I16_HELPERS: &'static str = "fn i16_from_i32(value: i32) -> wasmtime::Result<i16> {\n    value\n        .try_into()\n        .map_err(|_| wasmtime::Error::msg(format!(\"invalid i16 ABI value: {value}\")))\n}\nfn i16_to_i32(value: i16) -> i32 {\n    value as i32\n}";

/// The host codec helpers of `i32`.
pub const HOST_I32_HELPERS: &'static str = "fn i32_from_i32(value: i32) -> wasmtime::Result<i32> {\n    Ok(value)\n}\nfn i32_to_i32(value: i32) -> i32 {\n    value\n}";

/// The host codec helpers of `u8`.
pub const HOST_U8_HELPERS: &'static str = "fn u8_from_i32(value: i32) -> wasmtime::Result<u8> {\n    value\n        .try_into()\n        .map_err(|_| wasmtime::Error::msg(format!(\"invalid u8 ABI value: {value}\")))\n}\nfn u8_to_i32(value: u8) -> i32 {\n    value as i32\n}";

/// The host codec helpers of `u16`.
pub const HOST_U16_HELPERS: &'static str = "fn u16_from_i32(value: i32) -> wasmtime::Result<u16> {\n    value\n        .try_into()\n        .map_err(|_| wasmtime::Error::msg(format!(\"invalid u16 ABI value: {value}\")))\n}\nfn u16_to_i32(value: u16) -> i32 {\n    value as i32\n}";

/// The host codec helpers of `u32`.
pub const HOST_U32_HELPERS: &'static str = "fn u32_from_i32(value: i32) -> wasmtime::Result<u32> {\n    Ok(value as u32)\n}\nfn u32_to_i32(value: u32) -> i32 {\n    value as i32\n}";

/// The host codec helpers of `i64`.
pub const HOST_I64_HELPERS: &'static str = "fn i64_from_i64(value: i64) -> wasmtime::Result<i64> {\n    Ok(value)\n}\nfn i64_to_i64(value: i64) -> i64 {\n    value\n}";

/// The host codec helpers of `u64`.
pub const HOST_U64_HELPERS: &'static str = "fn u64_from_i64(value: i64) -> wasmtime::Result<u64> {\n    Ok(value as u64)\n}\nfn u64_to_i64(value: u64) -> i64 {\n    value as i64\n}";

/// The host codec helpers of `f32`.
pub const HOST_F32_HELPERS: &'static str = "fn f32_from_f32(value: f32) -> wasmtime::Result<f32> {\n    Ok(value)\n}\nfn f32_to_f32(value: f32) -> f32 {\n    value\n}";

/// The host codec helpers of `f64`.
pub const HOST_F64_HELPERS: &'static str = "fn f64_from_f64(value: f64) -> wasmtime::Result<f64> {\n    Ok(value)\n}\nfn f64_to_f64(value: f64) -> f64 {\n    value\n}";

/// The host trait methods behind the operation controls of async imports.
pub const HOST_OPERATION_TRAIT_METHODS: &'static str = "    fn poll_operation(&mut self, operation: u64) -> wasmtime::Result<i32>;\n    fn take_operation_result(&mut self, operation: u64) -> wasmtime::Result<i64>;\n    fn yield_operation(&mut self, operation: u64) -> wasmtime::Result<()>;\n    fn cancel_operation(&mut self, operation: u64) -> wasmtime::Result<()>;\n";

/// The linker registrations of the operation controls of async imports.
pub const HOST_OPERATION_REGISTRATIONS: &'static str = "    linker.func_wrap(\n        \"kernal-api:v1\",\n        \"poll_operation\",\n        |mut caller: wasmtime::Caller<'_, T>, operation: i64| -> wasmtime::Result<i32> {\n            caller.data_mut().poll_operation(operation as u64)\n        },\n    )?;\n    linker.func_wrap(\n        \"kernal-api:v1\",\n        \"take_operation_result\",\n        |mut caller: wasmtime::Caller<'_, T>, operation: i64| -> wasmtime::Result<i64> {\n            caller.data_mut().take_operation_result(operation as u64)\n        },\n    )?;\n    linker.func_wrap(\n        \"kernal-api:v1\",\n        \"yield_operation\",\n        |mut caller: wasmtime::Caller<'_, T>, operation: i64| -> wasmtime::Result<()> {\n            caller.data_mut().yield_operation(operation as u64)\n        },\n    )?;\n    linker.func_wrap(\n        \"kernal-api:v1\",\n        \"cancel_operation\",\n        |mut caller: wasmtime::Caller<'_, T>, operation: i64| -> wasmtime::Result<()> {\n            caller.data_mut().cancel_operation(operation as u64)\n        },\n    )?;\n";

/// Renders the host trait methods of the operation controls.
pub fn render_host_operation_trait_methods() -> (r: String)
    ensures
        r@ == HOST_OPERATION_TRAIT_METHODS@,
{
    String::from_str(HOST_OPERATION_TRAIT_METHODS)
}

/// Renders the linker registrations of the operation controls.
pub fn render_host_operation_registrations() -> (r: String)
    ensures
        r@ == HOST_OPERATION_REGISTRATIONS@,
{
    String::from_str(HOST_OPERATION_REGISTRATIONS)
}

/// The codec helpers the host needs for a scalar.
pub open spec fn helper_source(p: Primitive) -> Seq<char> {
    match p {
        Primitive::Bool => HOST_BOOL_HELPERS@,
        Primitive::I8 => HOST_I8_HELPERS@,
        Primitive::I16 => HOST_I16_HELPERS@,
        Primitive::I32 => HOST_I32_HELPERS@,
        Primitive::U8 => HOST_U8_HELPERS@,
        Primitive::U16 => HOST_U16_HELPERS@,
        Primitive::U32 => HOST_U32_HELPERS@,
        Primitive::I64 => HOST_I64_HELPERS@,
        Primitive::U64 => HOST_U64_HELPERS@,
        Primitive::F32 => HOST_F32_HELPERS@,
        Primitive::F64 => HOST_F64_HELPERS@,
    }
}

fn host_helper_source(p: Primitive) -> (r: &'static str)
    ensures
        r@ == helper_source(p),
{
    match p {
        Primitive::Bool => HOST_BOOL_HELPERS,
        Primitive::I8 => HOST_I8_HELPERS,
        Primitive::I16 => HOST_I16_HELPERS,
        Primitive::I32 => HOST_I32_HELPERS,
        Primitive::U8 => HOST_U8_HELPERS,
        Primitive::U16 => HOST_U16_HELPERS,
        Primitive::U32 => HOST_U32_HELPERS,
        Primitive::I64 => HOST_I64_HELPERS,
        Primitive::U64 => HOST_U64_HELPERS,
        Primitive::F32 => HOST_F32_HELPERS,
        Primitive::F64 => HOST_F64_HELPERS,
    }
}


/// The order in which host codec helpers are emitted.
pub open spec fn helper_order() -> Seq<Primitive> {
    seq![
        Primitive::Bool,
        Primitive::I8,
        Primitive::I16,
        Primitive::I32,
        Primitive::U8,
        Primitive::U16,
        Primitive::U32,
        Primitive::I64,
        Primitive::U64,
        Primitive::F32,
        Primitive::F64,
    ]
}

/// Whether an argument or the result of `f` is the scalar `p`.
pub open spec fn function_uses_scalar(f: FunctionModel, p: Primitive) -> bool {
    (exists|j: int| 0 <= j < f.args.len() && #[trigger] f.args[j].1 == LoweredModel::Scalar(p)) || f.ret
        == Some(LoweredModel::Scalar(p))
}

pub open spec fn uses_scalar(fs: Seq<FunctionModel>, p: Primitive) -> bool {
    exists|i: int| 0 <= i < fs.len() && #[trigger] function_uses_scalar(fs[i], p)
}

/// Whether some function of `fs` is async.
pub open spec fn any_async(fs: Seq<FunctionModel>) -> bool {
    exists|i: int| 0 <= i < fs.len() && #[trigger] fs[i].is_async
}

/// Whether the host needs the codec helpers of `p`: some import or export
/// carries it, or (for `u64`) an async import returns an operation handle.
pub open spec fn helper_used(imports: Seq<FunctionModel>, exports: Seq<FunctionModel>, p: Primitive) -> bool {
    uses_scalar(imports, p) || uses_scalar(exports, p) || (p == Primitive::U64 && any_async(imports))
}

/// The helper sources of the primitives of `ps` that are used, in order.
pub open spec fn used_helpers(ps: Seq<Primitive>, imports: Seq<FunctionModel>, exports: Seq<FunctionModel>) -> Seq<Seq<char>>
    decreases ps.len(),
{
    if ps.len() == 0 {
        Seq::empty()
    } else if helper_used(imports, exports, ps.last()) {
        used_helpers(ps.drop_last(), imports, exports).push(helper_source(ps.last()))
    } else {
        used_helpers(ps.drop_last(), imports, exports)
    }
}

pub open spec fn host_helpers_spec(imports: Seq<FunctionModel>, exports: Seq<FunctionModel>) -> Seq<char> {
    seq_join(used_helpers(helper_order(), imports, exports), "\n"@)
}

fn function_uses(f: &LoweredFunction, p: Primitive) -> (r: bool)
    ensures
        r == function_uses_scalar(f@, p),
{
    let mut j: usize = 0;
    while j < f.args.len()
        invariant
            j <= f.args@.len(),
            forall|k: int| 0 <= k < j ==> f@.args[k].1 != LoweredModel::Scalar(p),
        decreases f.args@.len() - j,
    {
        if let LoweredType::Scalar(q) = &f.args[j].ty {
            if *q == p {
                proof {
                    assert(f@.args[j as int].1 == LoweredModel::Scalar(p));
                }
                return true;
            }
        }
        j = j + 1;
    }
    match &f.return_type {
        Some(LoweredType::Scalar(q)) => *q == p,
        _ => false,
    }
}

fn scalar_used(fs: &Vec<LoweredFunction>, p: Primitive) -> (r: bool)
    ensures
        r == uses_scalar(function_views(fs@), p),
{
    let mut i: usize = 0;
    while i < fs.len()
        invariant
            i <= fs@.len(),
            forall|k: int| 0 <= k < i ==> !function_uses_scalar(#[trigger] function_views(fs@)[k], p),
        decreases fs@.len() - i,
    {
        if function_uses(&fs[i], p) {
            proof {
                assert(function_uses_scalar(function_views(fs@)[i as int], p));
            }
            return true;
        }
        i = i + 1;
    }
    false
}

/// Whether some function of `fs` is async.
pub fn has_async(fs: &Vec<LoweredFunction>) -> (r: bool)
    ensures
        r == any_async(function_views(fs@)),
{
    let mut i: usize = 0;
    while i < fs.len()
        invariant
            i <= fs@.len(),
            forall|k: int| 0 <= k < i ==> !(#[trigger] function_views(fs@)[k]).is_async,
        decreases fs@.len() - i,
    {
        if fs[i].is_async {
            proof {
                assert(function_views(fs@)[i as int].is_async);
            }
            return true;
        }
        i = i + 1;
    }
    false
}

fn helper_order_vec() -> (r: Vec<Primitive>)
    ensures
        r@ == helper_order(),
{
    let r = vec![
        Primitive::Bool,
        Primitive::I8,
        Primitive::I16,
        Primitive::I32,
        Primitive::U8,
        Primitive::U16,
        Primitive::U32,
        Primitive::I64,
        Primitive::U64,
        Primitive::F32,
        Primitive::F64,
    ];
    proof {
        assert(r@ =~= helper_order());
    }
    r
}

/// The scalar codec helpers the host glue needs, in a fixed order.
pub fn render_host_helpers(imports: &Vec<LoweredFunction>, exports: &Vec<LoweredFunction>) -> (r: String)
    ensures
        r@ == host_helpers_spec(function_views(imports@), function_views(exports@)),
{
    let order = helper_order_vec();
    let async_imports = has_async(imports);
    let ghost iv = function_views(imports@);
    let ghost ev = function_views(exports@);
    let mut parts: Vec<String> = Vec::new();
    let mut i: usize = 0;
    while i < order.len()
        invariant
            order@ == helper_order(),
            iv == function_views(imports@),
            ev == function_views(exports@),
            async_imports == any_async(iv),
            i <= order@.len(),
            views(parts@) == used_helpers(order@.take(i as int), iv, ev),
        decreases order@.len() - i,
    {
        proof {
            assert(order@.take(i + 1).drop_last() =~= order@.take(i as int));
            assert(order@.take(i + 1).last() == order@[i as int]);
        }
        let p = order[i];
        let used = scalar_used(imports, p) || scalar_used(exports, p) || (p == Primitive::U64 && async_imports);
        if used {
            let ghost before = parts@;
            parts.push(String::from_str(host_helper_source(p)));
            proof {
                assert(views(parts@) =~= views(before).push(helper_source(p)));
            }
        }
        i = i + 1;
    }
    proof {
        assert(order@.take(order@.len() as int) =~= order@);
    }
    join(&parts, "\n")
}

/// The host handle type of one resource.
pub open spec fn host_resource_piece(ident: Seq<char>) -> Seq<char> {
    "#[repr(transparent)]\n#[derive(Clone, Copy, Debug, Eq, Hash, PartialEq)]\npub(crate) struct "@ + ident
        + "(pub(crate) u64);\n\nimpl "@ + ident
        + " {\n    pub(crate) fn decode_i64(raw: i64) -> ::wasmtime::Result<Self> { ::std::result::Result::Ok(Self(raw as u64)) }\n    pub(crate) fn encode_i64(self) -> i64 { self.0 as i64 }\n}\n\n"@
}

/// The host handle types of the resources among the first `n` entries.
pub open spec fn host_resource_defs(types: Seq<(TypeIdent, Type)>, n: int) -> Seq<char>
    decreases n,
{
    if n <= 0 {
        Seq::empty()
    } else if resource_entry(types, n - 1) {
        host_resource_defs(types, n - 1) + host_resource_piece(ident_text(entry_resource(types, n - 1).ident))
    } else {
        host_resource_defs(types, n - 1)
    }
}

/// The host `resources` module; empty when no resource is declared.
pub open spec fn host_resource_types_spec(types: Seq<(TypeIdent, Type)>) -> Seq<char> {
    let definitions = host_resource_defs(types, types.len() as int);
    if definitions.len() == 0 {
        definitions
    } else {
        "pub(crate) mod resources {\n"@ + indent_spec(definitions, 4) + " }\n\n"@
    }
}

pub fn render_host_resource_types(types: &TypeMap) -> (r: String)
    ensures
        r@ == host_resource_types_spec(types@),
{
    let entries = types.entries();
    let mut definitions = String::new();
    let mut i: usize = 0;
    while i < entries.len()
        invariant
            entries@ == types@,
            i <= types@.len(),
            definitions@ == host_resource_defs(types@, i as int),
        decreases types@.len() - i,
    {
        if let Type::Resource(resource) = &entries[i].1 {
            let ident = resource.ident.to_text();
            definitions.append("#[repr(transparent)]\n#[derive(Clone, Copy, Debug, Eq, Hash, PartialEq)]\npub(crate) struct ");
            definitions.append(ident.as_str());
            definitions.append("(pub(crate) u64);\n\nimpl ");
            definitions.append(ident.as_str());
            definitions.append(" {\n    pub(crate) fn decode_i64(raw: i64) -> ::wasmtime::Result<Self> { ::std::result::Result::Ok(Self(raw as u64)) }\n    pub(crate) fn encode_i64(self) -> i64 { self.0 as i64 }\n}\n\n");
        }
        i = i + 1;
    }
    if definitions.unicode_len() == 0 {
        definitions
    } else {
        let mut r = String::from_str("pub(crate) mod resources {\n");
        let body = indent(definitions.as_str(), 4);
        r.append(body.as_str());
        r.append(" }\n\n");
        r
    }
}

/// The host trait method that releases one owned resource.
pub open spec fn release_trait_piece(release: Seq<char>, ident: Seq<char>) -> Seq<char> {
    "    /// Atomically revoke this guest-owned handle through the host's canonical scope/generation registry.\n    fn "@
        + release + "(&mut self, resource: resources::"@ + ident + ") -> wasmtime::Result<i32>;\n"@
}

pub open spec fn release_trait_methods(types: Seq<(TypeIdent, Type)>, snakes: Seq<Seq<char>>, n: int) -> Seq<char>
    decreases n,
{
    if n <= 0 {
        Seq::empty()
    } else if owned_entry(types, n - 1) {
        release_trait_methods(types, snakes, n - 1) + release_trait_piece(
            release_name(snakes[n - 1]),
            ident_text(entry_resource(types, n - 1).ident),
        )
    } else {
        release_trait_methods(types, snakes, n - 1)
    }
}

pub fn render_host_resource_release_trait_methods(types: &TypeMap, snakes: &Vec<String>) -> (r: String)
    requires
        snakes@.len() == types@.len(),
    ensures
        r@ == release_trait_methods(types@, views(snakes@), types@.len() as int),
{
    let entries = types.entries();
    let mut r = String::new();
    let mut i: usize = 0;
    while i < entries.len()
        invariant
            entries@ == types@,
            snakes@.len() == types@.len(),
            i <= types@.len(),
            r@ == release_trait_methods(types@, views(snakes@), i as int),
        decreases types@.len() - i,
    {
        if let Type::Resource(resource) = &entries[i].1 {
            if resource.is_owned() {
                let release = resource_release_import_name(snakes[i].as_str());
                let ident = resource.ident.to_text();
                r.append("    /// Atomically revoke this guest-owned handle through the host's canonical scope/generation registry.\n    fn ");
                r.append(release.as_str());
                r.append("(&mut self, resource: resources::");
                r.append(ident.as_str());
                r.append(") -> wasmtime::Result<i32>;\n");
            }
        }
        proof {
            assert(views(snakes@)[i as int] == snakes@[i as int]@);
        }
        i = i + 1;
    }
    r
}

/// The linker registration of the release import of one owned resource.
pub open spec fn release_registration_piece(release: Seq<char>, ident: Seq<char>) -> Seq<char> {
    "    linker.func_wrap(\n        \"kernal-api:v1\",\n        \""@ + release
        + "\",\n        |mut caller: wasmtime::Caller<'_, T>, resource: i64| -> wasmtime::Result<i32> {\n            caller.data_mut()."@
        + release + "(resources::"@ + ident + "::decode_i64(resource)?)\n        },\n    )?;\n"@
}

pub open spec fn release_registrations(types: Seq<(TypeIdent, Type)>, snakes: Seq<Seq<char>>, n: int) -> Seq<char>
    decreases n,
{
    if n <= 0 {
        Seq::empty()
    } else if owned_entry(types, n - 1) {
        release_registrations(types, snakes, n - 1) + release_registration_piece(
            release_name(snakes[n - 1]),
            ident_text(entry_resource(types, n - 1).ident),
        )
    } else {
        release_registrations(types, snakes, n - 1)
    }
}

pub fn render_host_resource_release_registrations(types: &TypeMap, snakes: &Vec<String>) -> (r: String)
    requires
        snakes@.len() == types@.len(),
    ensures
        r@ == release_registrations(types@, views(snakes@), types@.len() as int),
{
    let entries = types.entries();
    let mut r = String::new();
    let mut i: usize = 0;
    while i < entries.len()
        invariant
            entries@ == types@,
            snakes@.len() == types@.len(),
            i <= types@.len(),
            r@ == release_registrations(types@, views(snakes@), i as int),
        decreases types@.len() - i,
    {
        if let Type::Resource(resource) = &entries[i].1 {
            if resource.is_owned() {
                let release = resource_release_import_name(snakes[i].as_str());
                let ident = resource.ident.to_text();
                r.append("    linker.func_wrap(\n        \"kernal-api:v1\",\n        \"");
                r.append(release.as_str());
                r.append("\",\n        |mut caller: wasmtime::Caller<'_, T>, resource: i64| -> wasmtime::Result<i32> {\n            caller.data_mut().");
                r.append(release.as_str());
                r.append("(resources::");
                r.append(ident.as_str());
                r.append("::decode_i64(resource)?)\n        },\n    )?;\n");
            }
        }
        proof {
            assert(views(snakes@)[i as int] == snakes@[i as int]@);
        }
        i = i + 1;
    }
    r
}

/// The host trait method of one import: async imports return an operation handle.
pub open spec fn host_trait_method_spec(f: FunctionModel) -> Seq<char> {
    let arguments = semantic_arguments_spec(f);
    let arguments = if arguments.len() == 0 {
        Seq::empty()
    } else {
        ", "@ + arguments
    };
    "    fn "@ + f.name + "(&mut self"@ + arguments + ") -> wasmtime::Result<"@ + (if f.is_async {
        "u64"@
    } else {
        semantic_return_spec(f)
    }) + ">;"@
}

pub fn render_host_trait_method(f: &LoweredFunction) -> (r: String)
    ensures
        r@ == host_trait_method_spec(f@),
{
    let arguments = render_semantic_arguments(f);
    let arguments = if arguments.unicode_len() == 0 {
        String::new()
    } else {
        let mut a = String::from_str(", ");
        a.append(arguments.as_str());
        a
    };
    let mut r = String::from_str("    fn ");
    r.append(f.name.as_str());
    r.append("(&mut self");
    r.append(arguments.as_str());
    r.append(") -> wasmtime::Result<");
    if f.is_async {
        r.append("u64");
    } else {
        let ret = semantic_return(f);
        r.append(ret.as_str());
    }
    r.append(">;");
    r
}

pub open spec fn decoded_argument_spec(a: (Seq<char>, LoweredModel)) -> Seq<char> {
    "let "@ + a.0 + " = "@ + decode_expression_spec(a.0, a.1) + "?;"@
}

pub open spec fn argument_names_spec(f: FunctionModel) -> Seq<char> {
    seq_join(f.args.map_values(|a: (Seq<char>, LoweredModel)| a.0), ", "@)
}

/// The call of the host trait method, encoded for the ABI.
pub open spec fn registration_result_spec(f: FunctionModel) -> Seq<char> {
    let names = argument_names_spec(f);
    if f.is_async {
        "Ok(caller.data_mut()."@ + f.name + "("@ + names + ")? as i64)"@
    } else {
        match f.ret {
            Some(t) => "Ok("@ + encode_function_spec(t) + "(caller.data_mut()."@ + f.name + "("@ + names
                + ")?))"@,
            None => "caller.data_mut()."@ + f.name + "("@ + names + ")?;\n            Ok(())"@,
        }
    }
}

/// The linker registration of one import: a closure that decodes the ABI
/// arguments, calls the host trait and encodes the result.
pub open spec fn host_registration_spec(f: FunctionModel) -> Seq<char> {
    let decoded = seq_join(
        f.args.map_values(|a: (Seq<char>, LoweredModel)| decoded_argument_spec(a)),
        "\n            "@,
    );
    let decoded = if decoded.len() == 0 {
        Seq::empty()
    } else {
        decoded + "\n            "@
    };
    let result = registration_result_spec(f);
    let abi_arguments = abi_arguments_spec(f);
    let abi_arguments = if abi_arguments.len() == 0 {
        Seq::empty()
    } else {
        ", "@ + abi_arguments
    };
    let result_type = if f.is_async {
        "i64"@
    } else {
        abi_result_only_spec(f)
    };
    let closure = if abi_arguments.len() == 0 {
        "|mut caller: wasmtime::Caller<'_, T>| -> wasmtime::Result<"@ + result_type
            + "> {\n            "@ + result + "\n        }"@
    } else {
        let arguments = replace_sep(trim_leading_sep(abi_arguments), ",\n         "@);
        "|mut caller: wasmtime::Caller<'_, T>,\n         "@ + arguments + "|\n         -> wasmtime::Result<"@
            + result_type + "> {\n            "@ + decoded + result + "\n        }"@
    };
    "    linker.func_wrap(\n        \"kernal-api:v1\",\n        \""@ + f.name + "\",\n        "@ + closure
        + ",\n    )?;"@
}

fn render_argument_names(f: &LoweredFunction) -> (r: String)
    ensures
        r@ == argument_names_spec(f@),
{
    let mut parts: Vec<String> = Vec::new();
    let mut i: usize = 0;
    while i < f.args.len()
        invariant
            i <= f.args@.len(),
            parts@.len() == i,
            forall|j: int| 0 <= j < i ==> #[trigger] parts@[j]@ == f@.args[j].0,
        decreases f.args@.len() - i,
    {
        parts.push(f.args[i].name.clone());
        i = i + 1;
    }
    proof {
        assert(views(parts@) =~= f@.args.map_values(|a: (Seq<char>, LoweredModel)| a.0));
    }
    join(&parts, ", ")
}

fn render_registration_result(f: &LoweredFunction) -> (r: String)
    ensures
        r@ == registration_result_spec(f@),
{
    let names = render_argument_names(f);
    if f.is_async {
        let mut r = String::from_str("Ok(caller.data_mut().");
        r.append(f.name.as_str());
        r.append("(");
        r.append(names.as_str());
        r.append(")? as i64)");
        r
    } else {
        match &f.return_type {
            Some(t) => {
                let mut r = String::from_str("Ok(");
                let encoder = encode_function(t);
                r.append(encoder.as_str());
                r.append("(caller.data_mut().");
                r.append(f.name.as_str());
                r.append("(");
                r.append(names.as_str());
                r.append(")?))");
                r
            },
            None => {
                let mut r = String::from_str("caller.data_mut().");
                r.append(f.name.as_str());
                r.append("(");
                r.append(names.as_str());
                r.append(")?;\n            Ok(())");
                r
            },
        }
    }
}

pub fn render_host_registration(f: &LoweredFunction) -> (r: String)
    ensures
        r@ == host_registration_spec(f@),
{
    let mut parts: Vec<String> = Vec::new();
    let mut i: usize = 0;
    while i < f.args.len()
        invariant
            i <= f.args@.len(),
            parts@.len() == i,
            forall|j: int| 0 <= j < i ==> #[trigger] parts@[j]@ == decoded_argument_spec(f@.args[j]),
        decreases f.args@.len() - i,
    {
        let mut part = String::from_str("let ");
        part.append(f.args[i].name.as_str());
        part.append(" = ");
        let decoded = decode_expression(f.args[i].name.as_str(), &f.args[i].ty);
        part.append(decoded.as_str());
        part.append("?;");
        parts.push(part);
        i = i + 1;
    }
    proof {
        assert(views(parts@) =~= f@.args.map_values(|a: (Seq<char>, LoweredModel)| decoded_argument_spec(a)));
    }
    let decoded = join(&parts, "\n            ");
    let decoded = if decoded.unicode_len() == 0 {
        String::new()
    } else {
        let mut d = decoded;
        d.append("\n            ");
        d
    };
    let result = render_registration_result(f);
    let abi_arguments = render_abi_arguments(f);
    let abi_arguments = if abi_arguments.unicode_len() == 0 {
        String::new()
    } else {
        let mut a = String::from_str(", ");
        a.append(abi_arguments.as_str());
        a
    };
    let result_type = if f.is_async {
        "i64"
    } else {
        render_abi_result_only(f)
    };
    let closure = if abi_arguments.unicode_len() == 0 {
        let mut c = String::from_str("|mut caller: wasmtime::Caller<'_, T>| -> wasmtime::Result<");
        c.append(result_type);
        c.append("> {\n            ");
        c.append(result.as_str());
        c.append("\n        }");
        c
    } else {
        let trimmed = trim_leading_separators(abi_arguments.as_str());
        let arguments = replace_separators(trimmed.as_str(), ",\n         ");
        let mut c = String::from_str("|mut caller: wasmtime::Caller<'_, T>,\n         ");
        c.append(arguments.as_str());
        c.append("|\n         -> wasmtime::Result<");
        c.append(result_type);
        c.append("> {\n            ");
        c.append(decoded.as_str());
        c.append(result.as_str());
        c.append("\n        }");
        c
    };
    let mut r = String::from_str("    linker.func_wrap(\n        \"kernal-api:v1\",\n        \"");
    r.append(f.name.as_str());
    r.append("\",\n        ");
    r.append(closure.as_str());
    r.append(",\n    )?;");
    r
}

/// The typed helper through which the host invokes one guest export.
pub open spec fn host_invocation_spec(f: FunctionModel) -> Seq<char> {
    let call_arguments = wasm_call_params_spec(f);
    let result = match f.ret {
        Some(t) => decode_expression_spec("raw"@, t),
        None => "Ok(())"@,
    };
    let arguments = semantic_arguments_spec(f);
    let arguments = if arguments.len() == 0 {
        Seq::empty()
    } else {
        ",\n    "@ + replace_sep(arguments, ",\n    "@)
    };
    "pub(crate) fn invoke_"@ + f.name
        + "<T>(\n    store: &mut wasmtime::Store<T>,\n    instance: &wasmtime::Instance"@ + arguments
        + ",\n) -> wasmtime::Result<"@ + semantic_return_spec(f)
        + "> {\n    let function = instance.get_typed_func::<"@ + wasm_function_params_spec(f) + ", "@
        + abi_result_only_spec(f) + ">(&mut *store, \""@ + f.name
        + "\")?;\n    let raw = function.call(&mut *store, "@ + call_arguments + ")?;\n    "@ + result
        + "\n}"@
}

pub fn render_host_invocation(f: &LoweredFunction) -> (r: String)
    ensures
        r@ == host_invocation_spec(f@),
{
    let call_arguments = render_wasm_call_params(f);
    let result = match &f.return_type {
        Some(t) => decode_expression("raw", t),
        None => String::from_str("Ok(())"),
    };
    let arguments = render_semantic_arguments(f);
    let arguments = if arguments.unicode_len() == 0 {
        String::new()
    } else {
        let mut a = String::from_str(",\n    ");
        let replaced = replace_separators(arguments.as_str(), ",\n    ");
        a.append(replaced.as_str());
        a
    };
    let mut r = String::from_str("pub(crate) fn invoke_");
    r.append(f.name.as_str());
    r.append("<T>(\n    store: &mut wasmtime::Store<T>,\n    instance: &wasmtime::Instance");
    r.append(arguments.as_str());
    r.append(",\n) -> wasmtime::Result<");
    let ret = semantic_return(f);
    r.append(ret.as_str());
    r.append("> {\n    let function = instance.get_typed_func::<");
    let params = render_wasm_function_params(f);
    r.append(params.as_str());
    r.append(", ");
    r.append(render_abi_result_only(f));
    r.append(">(&mut *store, \"");
    r.append(f.name.as_str());
    r.append("\")?;\n    let raw = function.call(&mut *store, ");
    r.append(call_arguments.as_str());
    r.append(")?;\n    ");
    r.append(result.as_str());
    r.append("\n}");
    r
}

pub open spec fn host_trait_methods_spec(fs: Seq<FunctionModel>) -> Seq<char> {
    seq_join(fs.map_values(|f: FunctionModel| host_trait_method_spec(f)), "\n"@)
}

pub open spec fn host_registrations_spec(fs: Seq<FunctionModel>) -> Seq<char> {
    seq_join(fs.map_values(|f: FunctionModel| host_registration_spec(f)), "\n"@)
}

pub open spec fn host_invocations_spec(fs: Seq<FunctionModel>) -> Seq<char> {
    seq_join(fs.map_values(|f: FunctionModel| host_invocation_spec(f)), "\n\n"@)
}

/// The whole host glue.
pub open spec fn host_linker_spec(
    imports: Seq<FunctionModel>,
    exports: Seq<FunctionModel>,
    types: Seq<(TypeIdent, Type)>,
    snakes: Seq<Seq<char>>,
) -> Seq<char> {
    let has_async_imports = any_async(imports);
    let operation_trait_methods = if has_async_imports {
        HOST_OPERATION_TRAIT_METHODS@
    } else {
        Seq::empty()
    };
    let operation_registrations = if has_async_imports {
        HOST_OPERATION_REGISTRATIONS@
    } else {
        Seq::empty()
    };
    "// Generated private Wasmtime 45 glue for Core Wasm ABI `kernal-api:v1`.\n// Host trait and invocation helpers use semantic scalar and resource types.\n\n"@
        + host_resource_types_spec(types) + host_helpers_spec(imports, exports)
        + "\n\npub(crate) trait KernalApiV1Imports {\n"@ + host_trait_methods_spec(imports) + "\n"@
        + operation_trait_methods + release_trait_methods(types, snakes, types.len() as int)
        + "}\n\npub(crate) fn link_kernal_api_v1<T>(linker: &mut wasmtime::Linker<T>) -> wasmtime::Result<()>\nwhere\n    T: KernalApiV1Imports + Send + 'static,\n{\n"@
        + host_registrations_spec(imports) + "\n"@ + operation_registrations + release_registrations(
        types,
        snakes,
        types.len() as int,
    ) + "    Ok(())\n}\n\n"@ + host_invocations_spec(exports) + "\n"@
}

fn render_trait_methods(fs: &Vec<LoweredFunction>) -> (r: String)
    ensures
        r@ == host_trait_methods_spec(function_views(fs@)),
{
    let mut parts: Vec<String> = Vec::new();
    let mut i: usize = 0;
    while i < fs.len()
        invariant
            i <= fs@.len(),
            parts@.len() == i,
            forall|j: int| 0 <= j < i ==> #[trigger] parts@[j]@ == host_trait_method_spec(fs@[j]@),
        decreases fs@.len() - i,
    {
        parts.push(render_host_trait_method(&fs[i]));
        i = i + 1;
    }
    proof {
        assert(views(parts@) =~= function_views(fs@).map_values(|f: FunctionModel| host_trait_method_spec(f)));
    }
    join(&parts, "\n")
}

fn render_registrations(fs: &Vec<LoweredFunction>) -> (r: String)
    ensures
        r@ == host_registrations_spec(function_views(fs@)),
{
    let mut parts: Vec<String> = Vec::new();
    let mut i: usize = 0;
    while i < fs.len()
        invariant
            i <= fs@.len(),
            parts@.len() == i,
            forall|j: int| 0 <= j < i ==> #[trigger] parts@[j]@ == host_registration_spec(fs@[j]@),
        decreases fs@.len() - i,
    {
        parts.push(render_host_registration(&fs[i]));
        i = i + 1;
    }
    proof {
        assert(views(parts@) =~= function_views(fs@).map_values(|f: FunctionModel| host_registration_spec(f)));
    }
    join(&parts, "\n")
}

fn render_invocations(fs: &Vec<LoweredFunction>) -> (r: String)
    ensures
        r@ == host_invocations_spec(function_views(fs@)),
{
    let mut parts: Vec<String> = Vec::new();
    let mut i: usize = 0;
    while i < fs.len()
        invariant
            i <= fs@.len(),
            parts@.len() == i,
            forall|j: int| 0 <= j < i ==> #[trigger] parts@[j]@ == host_invocation_spec(fs@[j]@),
        decreases fs@.len() - i,
    {
        parts.push(render_host_invocation(&fs[i]));
        i = i + 1;
    }
    proof {
        assert(views(parts@) =~= function_views(fs@).map_values(|f: FunctionModel| host_invocation_spec(f)));
    }
    join(&parts, "\n\n")
}

/// Renders the Wasmtime 45 host glue.
pub fn render_host_linker(
    imports: &Vec<LoweredFunction>,
    exports: &Vec<LoweredFunction>,
    types: &TypeMap,
    snakes: &Vec<String>,
) -> (r: String)
    requires
        snakes@.len() == types@.len(),
    ensures
        r@ == host_linker_spec(function_views(imports@), function_views(exports@), types@, views(snakes@)),
{
    let has_async_imports = has_async(imports);
    let helpers = render_host_helpers(imports, exports);
    let trait_methods = render_trait_methods(imports);
    let registrations = render_registrations(imports);
    let operation_trait_methods = if has_async_imports {
        render_host_operation_trait_methods()
    } else {
        String::new()
    };
    let operation_registrations = if has_async_imports {
        render_host_operation_registrations()
    } else {
        String::new()
    };
    let resource_trait_methods = render_host_resource_release_trait_methods(types, snakes);
    let resource_registrations = render_host_resource_release_registrations(types, snakes);
    let invocations = render_invocations(exports);
    let resources = render_host_resource_types(types);
    let mut r = String::from_str(
        "// Generated private Wasmtime 45 glue for Core Wasm ABI `kernal-api:v1`.\n// Host trait and invocation helpers use semantic scalar and resource types.\n\n",
    );
    r.append(resources.as_str());
    r.append(helpers.as_str());
    r.append("\n\npub(crate) trait KernalApiV1Imports {\n");
    r.append(trait_methods.as_str());
    r.append("\n");
    r.append(operation_trait_methods.as_str());
    r.append(resource_trait_methods.as_str());
    r.append(
        "}\n\npub(crate) fn link_kernal_api_v1<T>(linker: &mut wasmtime::Linker<T>) -> wasmtime::Result<()>\nwhere\n    T: KernalApiV1Imports + Send + 'static,\n{\n",
    );
    r.append(registrations.as_str());
    r.append("\n");
    r.append(operation_registrations.as_str());
    r.append(resource_registrations.as_str());
    r.append("    Ok(())\n}\n\n");
    r.append(invocations.as_str());
    r.append("\n");
    r
}

} // verus!
