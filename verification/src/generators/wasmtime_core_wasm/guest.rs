//! The guest crate: its manifest, and the guest source with typed imports,
//! resource handle types, the async operation protocol and export wrappers.

use vstd::prelude::*;
use crate::primitives::Primitive;
use crate::types::{TypeIdent, Type, TypeMap, ident_text};
use crate::text::{seq_join, views, join, indent_spec, indent};
use super::lowering::{
    LoweredType, LoweredModel, LoweredFunction, FunctionModel, function_views, release_name, owned_entry,
    resource_entry, entry_resource, resource_release_import_name, is_owned_resource, semantic_of,
};
use super::common::{
    rust_type_spec, abi_arguments_spec, abi_result_spec, semantic_return_spec, encode_function_spec,
    encode_expression_spec, decode_expression_spec, raw_import_name_spec,
    render_abi_arguments, render_abi_result, semantic_return, encode_function, encode_expression,
    decode_expression, raw_import_name,
};
use super::host::{any_async, has_async};

verus! {

/// The guest crate's `Cargo.toml`.
pub const GUEST_CARGO: &'static str = "[package]\nname = \"kernal-api-v1-bindings\"\nversion = \"0.1.0\"\nedition = \"2021\"\npublish = false\n\n[lib]\ncrate-type = [\"cdylib\", \"rlib\"]\n";

/// The raw imports of the operation controls of async imports.
pub const GUEST_OPERATION_RAW_IMPORTS: &'static str = "        #[link_name = \"poll_operation\"]\n        pub(super) fn __kernal_api_v1_import_poll_operation(operation: i64) -> i32;\n        #[link_name = \"take_operation_result\"]\n        pub(super) fn __kernal_api_v1_import_take_operation_result(operation: i64) -> i64;\n        #[link_name = \"yield_operation\"]\n        pub(super) fn __kernal_api_v1_import_yield_operation(operation: i64);\n        #[link_name = \"cancel_operation\"]\n        pub(super) fn __kernal_api_v1_import_cancel_operation(operation: i64);\n";

/// Renders the guest crate's `Cargo.toml`.
pub fn render_guest_cargo() -> (r: String)
    ensures
        r@ == GUEST_CARGO@,
{
    String::from_str(GUEST_CARGO)
}

/// Renders the raw imports of the operation controls.
pub fn render_guest_operation_raw_imports() -> (r: String)
    ensures
        r@ == GUEST_OPERATION_RAW_IMPORTS@,
{
    String::from_str(GUEST_OPERATION_RAW_IMPORTS)
}

/// The guest-side name of the raw release import of an owned resource.
pub open spec fn guest_release_raw_name(snake: Seq<char>) -> Seq<char> {
    "__kernal_api_v1_import_"@ + release_name(snake)
}

pub fn guest_resource_release_raw_name(snake: &str) -> (r: String)
    ensures
        r@ == guest_release_raw_name(snake@),
{
    let mut r = String::from_str("__kernal_api_v1_import_");
    let release = resource_release_import_name(snake);
    r.append(release.as_str());
    r
}

/// The guest handle type of an owned resource: it releases itself once.
pub open spec fn guest_owned_piece(ident: Seq<char>, raw: Seq<char>) -> Seq<char> {
    "#[derive(Debug, Eq, Hash, PartialEq)]\npub struct "@ + ident + "(::core::option::Option<u64>);\n\nimpl "@ + ident + " {\n    pub(crate) fn from_abi(raw: u64) -> Self { Self(::core::option::Option::Some(raw)) }\n    pub(crate) fn decode_i64(raw: i64) -> ::core::result::Result<Self, super::AbiError> { ::core::result::Result::Ok(Self::from_abi(raw as u64)) }\n    pub(crate) fn encode_i64(&self) -> ::core::result::Result<i64, super::AbiError> { self.0.map(|raw| raw as i64).ok_or(super::AbiError::ResourceClosed { resource: \""@ + ident + "\" }) }\n    pub fn close(mut self) -> ::core::result::Result<(), super::AbiError> { self.release() }\n    fn release(&mut self) -> ::core::result::Result<(), super::AbiError> { let raw = self.0.take().ok_or(super::AbiError::ResourceClosed { resource: \""@ + ident + "\" })?; let status = unsafe { super::raw_imports::"@ + raw + "(raw as i64) }; if status == 0 { ::core::result::Result::Ok(()) } else { ::core::result::Result::Err(super::AbiError::ResourceReleaseRejected { resource: \""@ + ident + "\", status }) } }\n}\n\nimpl ::core::ops::Drop for "@ + ident + " { fn drop(&mut self) { if self.0.is_some() { let _ = self.release(); } } }\n\n"@
}

/// The guest handle type of a transport resource.
pub open spec fn guest_transport_piece(ident: Seq<char>) -> Seq<char> {
    "#[repr(transparent)]\n#[derive(Clone, Copy, Debug, Eq, Hash, PartialEq)]\npub struct "@ + ident + "(u64);\n\nimpl "@ + ident + " {\n    pub(crate) fn from_abi(raw: u64) -> Self { Self(raw) }\n    pub(crate) fn into_abi(self) -> u64 { self.0 }\n    pub(crate) fn decode_i64(raw: i64) -> ::std::result::Result<Self, super::AbiError> { ::std::result::Result::Ok(Self::from_abi(raw as u64)) }\n    pub(crate) fn encode_i64(self) -> i64 { self.into_abi() as i64 }\n}\n\n"@
}

/// The guest handle types of the resources among the first `n` entries.
pub open spec fn guest_resource_defs(types: Seq<(TypeIdent, Type)>, snakes: Seq<Seq<char>>, n: int) -> Seq<char>
    decreases n,
{
    if n <= 0 {
        Seq::empty()
    } else if owned_entry(types, n - 1) {
        guest_resource_defs(types, snakes, n - 1) + guest_owned_piece(
            ident_text(entry_resource(types, n - 1).ident),
            guest_release_raw_name(snakes[n - 1]),
        )
    } else if resource_entry(types, n - 1) {
        guest_resource_defs(types, snakes, n - 1) + guest_transport_piece(
            ident_text(entry_resource(types, n - 1).ident),
        )
    } else {
        guest_resource_defs(types, snakes, n - 1)
    }
}

/// The guest `resources` module; empty when no resource is declared.
pub open spec fn guest_resource_types_spec(types: Seq<(TypeIdent, Type)>, snakes: Seq<Seq<char>>) -> Seq<char> {
    let definitions = guest_resource_defs(types, snakes, types.len() as int);
    if definitions.len() == 0 {
        definitions
    } else {
        "pub mod resources {\n"@ + indent_spec(definitions, 4) + " }\n\n"@
    }
}

pub fn render_guest_resource_types(types: &TypeMap, snakes: &Vec<String>) -> (r: String)
    requires
        snakes@.len() == types@.len(),
    ensures
        r@ == guest_resource_types_spec(types@, views(snakes@)),
{
    let entries = types.entries();
    let mut definitions = String::new();
    let mut i: usize = 0;
    while i < entries.len()
        invariant
            entries@ == types@,
            snakes@.len() == types@.len(),
            i <= types@.len(),
            definitions@ == guest_resource_defs(types@, views(snakes@), i as int),
        decreases types@.len() - i,
    {
        proof {
            assert(views(snakes@)[i as int] == snakes@[i as int]@);
        }
        if let Type::Resource(resource) = &entries[i].1 {
            let ident = resource.ident.to_text();
            if resource.is_owned() {
                let raw = guest_resource_release_raw_name(snakes[i].as_str());
                definitions.append("#[derive(Debug, Eq, Hash, PartialEq)]\npub struct ");
                definitions.append(ident.as_str());
                definitions.append("(::core::option::Option<u64>);\n\nimpl ");
                definitions.append(ident.as_str());
                definitions.append(" {\n    pub(crate) fn from_abi(raw: u64) -> Self { Self(::core::option::Option::Some(raw)) }\n    pub(crate) fn decode_i64(raw: i64) -> ::core::result::Result<Self, super::AbiError> { ::core::result::Result::Ok(Self::from_abi(raw as u64)) }\n    pub(crate) fn encode_i64(&self) -> ::core::result::Result<i64, super::AbiError> { self.0.map(|raw| raw as i64).ok_or(super::AbiError::ResourceClosed { resource: \"");
                definitions.append(ident.as_str());
                definitions.append("\" }) }\n    pub fn close(mut self) -> ::core::result::Result<(), super::AbiError> { self.release() }\n    fn release(&mut self) -> ::core::result::Result<(), super::AbiError> { let raw = self.0.take().ok_or(super::AbiError::ResourceClosed { resource: \"");
                definitions.append(ident.as_str());
                definitions.append("\" })?; let status = unsafe { super::raw_imports::");
                definitions.append(raw.as_str());
                definitions.append("(raw as i64) }; if status == 0 { ::core::result::Result::Ok(()) } else { ::core::result::Result::Err(super::AbiError::ResourceReleaseRejected { resource: \"");
                definitions.append(ident.as_str());
                definitions.append("\", status }) } }\n}\n\nimpl ::core::ops::Drop for ");
                definitions.append(ident.as_str());
                definitions.append(" { fn drop(&mut self) { if self.0.is_some() { let _ = self.release(); } } }\n\n");
            } else {
                definitions.append("#[repr(transparent)]\n#[derive(Clone, Copy, Debug, Eq, Hash, PartialEq)]\npub struct ");
                definitions.append(ident.as_str());
                definitions.append("(u64);\n\nimpl ");
                definitions.append(ident.as_str());
                definitions.append(" {\n    pub(crate) fn from_abi(raw: u64) -> Self { Self(raw) }\n    pub(crate) fn into_abi(self) -> u64 { self.0 }\n    pub(crate) fn decode_i64(raw: i64) -> ::std::result::Result<Self, super::AbiError> { ::std::result::Result::Ok(Self::from_abi(raw as u64)) }\n    pub(crate) fn encode_i64(self) -> i64 { self.into_abi() as i64 }\n}\n\n");
            }
        }
        i = i + 1;
    }
    if definitions.unicode_len() == 0 {
        definitions
    } else {
        let mut r = String::from_str("pub mod resources {\n");
        let body = indent(definitions.as_str(), 4);
        r.append(body.as_str());
        r.append(" }\n\n");
        r
    }
}

/// The raw release import of one owned resource.
pub open spec fn release_raw_import_piece(release: Seq<char>, raw: Seq<char>) -> Seq<char> {
    "        #[link_name = \""@ + release + "\"]\n        pub(super) fn "@ + raw + "(resource: i64) -> i32;\n"@
}

pub open spec fn release_raw_imports(types: Seq<(TypeIdent, Type)>, snakes: Seq<Seq<char>>, n: int) -> Seq<char>
    decreases n,
{
    if n <= 0 {
        Seq::empty()
    } else if owned_entry(types, n - 1) {
        release_raw_imports(types, snakes, n - 1) + release_raw_import_piece(
            release_name(snakes[n - 1]),
            guest_release_raw_name(snakes[n - 1]),
        )
    } else {
        release_raw_imports(types, snakes, n - 1)
    }
}

pub fn render_guest_resource_release_raw_imports(types: &TypeMap, snakes: &Vec<String>) -> (r: String)
    requires
        snakes@.len() == types@.len(),
    ensures
        r@ == release_raw_imports(types@, views(snakes@), types@.len() as int),
{
    let entries = types.entries();
    let mut r = String::new();
    let mut i: usize = 0;
    while i < entries.len()
        invariant
            entries@ == types@,
            snakes@.len() == types@.len(),
            i <= types@.len(),
            r@ == release_raw_imports(types@, views(snakes@), i as int),
        decreases types@.len() - i,
    {
        proof {
            assert(views(snakes@)[i as int] == snakes@[i as int]@);
        }
        if let Type::Resource(resource) = &entries[i].1 {
            if resource.is_owned() {
                let release = resource_release_import_name(snakes[i].as_str());
                let raw = guest_resource_release_raw_name(snakes[i].as_str());
                r.append("        #[link_name = \"");
                r.append(release.as_str());
                r.append("\"]\n        pub(super) fn ");
                r.append(raw.as_str());
                r.append("(resource: i64) -> i32;\n");
            }
        }
        i = i + 1;
    }
    r
}

/// The raw import declaration of one import; async imports return an
/// operation handle.
pub open spec fn guest_raw_import_spec(f: FunctionModel) -> Seq<char> {
    let result = if f.is_async {
        " -> i64"@
    } else {
        abi_result_spec(f)
    };
    "        #[link_name = \""@ + f.name + "\"]\n        pub(super) fn "@ + raw_import_name_spec(f) + "("@ + abi_arguments_spec(f) + ")"@ + result + ";"@
}

pub fn render_guest_raw_import(f: &LoweredFunction) -> (r: String)
    ensures
        r@ == guest_raw_import_spec(f@),
{
    let raw = raw_import_name(f);
    let arguments = render_abi_arguments(f);
    let result = if f.is_async {
        String::from_str(" -> i64")
    } else {
        render_abi_result(f)
    };
    let mut r = String::from_str("        #[link_name = \"");
    r.append(f.name.as_str());
    r.append("\"]\n        pub(super) fn ");
    r.append(raw.as_str());
    r.append("(");
    r.append(arguments.as_str());
    r.append(")");
    r.append(result.as_str());
    r.append(";");
    r
}

/// One semantic argument of a guest import: owned resources are borrowed
/// (for the operation's lifetime when the import is async).
pub open spec fn guest_semantic_argument_spec(a: (Seq<char>, LoweredModel), is_async: bool) -> Seq<char> {
    if is_owned_resource(a.1) {
        let borrow = if is_async {
            "&'a "@
        } else {
            "&"@
        };
        a.0 + ": "@ + borrow + "resources::"@ + semantic_of(a.1)
    } else {
        a.0 + ": "@ + rust_type_spec(a.1)
    }
}

pub open spec fn guest_semantic_arguments_spec(f: FunctionModel) -> Seq<char> {
    seq_join(
        f.args.map_values(|a: (Seq<char>, LoweredModel)| guest_semantic_argument_spec(a, f.is_async)),
        ", "@,
    )
}

pub fn render_guest_semantic_arguments(f: &LoweredFunction) -> (r: String)
    ensures
        r@ == guest_semantic_arguments_spec(f@),
{
    let mut parts: Vec<String> = Vec::new();
    let mut i: usize = 0;
    while i < f.args.len()
        invariant
            i <= f.args@.len(),
            parts@.len() == i,
            forall|j: int|
                0 <= j < i ==> #[trigger] parts@[j]@ == guest_semantic_argument_spec(f@.args[j], f.is_async),
        decreases f.args@.len() - i,
    {
        let argument = &f.args[i];
        if argument.ty.is_owned_resource() {
            let borrow = if f.is_async {
                "&'a "
            } else {
                "&"
            };
            let mut part = String::new();
            part.append(argument.name.as_str());
            part.append(": ");
            part.append(borrow);
            part.append("resources::");
            part.append(argument.ty.semantic_str());
            parts.push(part);
        } else {
            let mut part = argument.name.clone();
            part.append(": ");
            let ty = argument.ty.rust_type();
            part.append(ty.as_str());
            parts.push(part);
        }
        i = i + 1;
    }
    proof {
        assert(views(parts@) =~= f@.args.map_values(
            |a: (Seq<char>, LoweredModel)| guest_semantic_argument_spec(a, f@.is_async),
        ));
    }
    join(&parts, ", ")
}

/// The decoder an async import's pending operation applies to its result.
pub open spec fn operation_result_decoder_spec(f: FunctionModel) -> Seq<char> {
    match f.ret {
        Some(t) => match t {
            LoweredModel::Resource(_, _) => "|raw| super::"@ + decode_expression_spec("raw"@, t),
            LoweredModel::Scalar(p) => match p {
                Primitive::Bool => "|raw| super::bool_from_i32(raw as i32)"@,
                Primitive::I8 => "|raw| super::i8_from_i32(raw as i32)"@,
                Primitive::I16 => "|raw| super::i16_from_i32(raw as i32)"@,
                Primitive::I32 => "|raw| super::i32_from_i32(raw as i32)"@,
                Primitive::U8 => "|raw| super::u8_from_i32(raw as i32)"@,
                Primitive::U16 => "|raw| super::u16_from_i32(raw as i32)"@,
                Primitive::U32 => "|raw| super::u32_from_i32(raw as i32)"@,
                Primitive::I64 => "|raw| super::i64_from_i64(raw)"@,
                Primitive::U64 => "|raw| super::u64_from_i64(raw)"@,
                Primitive::F32 => "|raw| super::f32_from_f32(f32::from_bits(raw as u32))"@,
                Primitive::F64 => "|raw| super::f64_from_f64(f64::from_bits(raw as u64))"@,
            },
        },
        None => "|_| Ok(())"@,
    }
}

pub fn render_operation_result_decoder(f: &LoweredFunction) -> (r: String)
    ensures
        r@ == operation_result_decoder_spec(f@),
{
    match &f.return_type {
        Some(t) => match t {
            LoweredType::Resource { .. } => {
                let mut r = String::from_str("|raw| super::");
                let decoded = decode_expression("raw", t);
                r.append(decoded.as_str());
                r
            },
            LoweredType::Scalar(p) => String::from_str(
                match p {
                    Primitive::Bool => "|raw| super::bool_from_i32(raw as i32)",
                    Primitive::I8 => "|raw| super::i8_from_i32(raw as i32)",
                    Primitive::I16 => "|raw| super::i16_from_i32(raw as i32)",
                    Primitive::I32 => "|raw| super::i32_from_i32(raw as i32)",
                    Primitive::U8 => "|raw| super::u8_from_i32(raw as i32)",
                    Primitive::U16 => "|raw| super::u16_from_i32(raw as i32)",
                    Primitive::U32 => "|raw| super::u32_from_i32(raw as i32)",
                    Primitive::I64 => "|raw| super::i64_from_i64(raw)",
                    Primitive::U64 => "|raw| super::u64_from_i64(raw)",
                    Primitive::F32 => "|raw| super::f32_from_f32(f32::from_bits(raw as u32))",
                    Primitive::F64 => "|raw| super::f64_from_f64(f64::from_bits(raw as u64))",
                },
            ),
        },
        None => String::from_str("|_| Ok(())"),
    }
}

/// One argument as the typed import passes it to the raw import.
pub open spec fn call_argument_spec(a: (Seq<char>, LoweredModel)) -> Seq<char> {
    if is_owned_resource(a.1) {
        "super::resources::"@ + semantic_of(a.1) + "::encode_i64("@ + a.0 + ")?"@
    } else {
        "super::"@ + encode_expression_spec(a.0, a.1)
    }
}

/// Whether some argument of `f` is an owned resource.
pub open spec fn borrows_owned(f: FunctionModel) -> bool {
    exists|j: int| 0 <= j < f.args.len() && is_owned_resource(#[trigger] f.args[j].1)
}

/// The typed guest wrapper of one import. Async imports return a pending
/// operation, which borrows owned resource arguments until it completes.
pub open spec fn guest_typed_import_spec(f: FunctionModel, has_async_owned_borrow: bool) -> Seq<char> {
    let call_arguments = seq_join(
        f.args.map_values(|a: (Seq<char>, LoweredModel)| call_argument_spec(a)),
        ", "@,
    );
    let call = "unsafe { raw_imports::"@ + raw_import_name_spec(f) + "("@ + call_arguments + ") }"@;
    if f.is_async {
        let borrows = borrows_owned(f);
        let pending = if has_async_owned_borrow {
            if borrows {
                "PendingOperation<'a, "@ + semantic_return_spec(f) + ">"@
            } else {
                "PendingOperation<'static, "@ + semantic_return_spec(f) + ">"@
            }
        } else {
            "PendingOperation<"@ + semantic_return_spec(f) + ">"@
        };
        let lifetime = if borrows {
            "<'a>"@
        } else {
            Seq::empty()
        };
        "    pub fn "@ + f.name + lifetime + "("@ + guest_semantic_arguments_spec(f) + ") -> Result<"@ + pending + ", AbiError> {\n        let operation = "@ + call + ";\n        Ok(PendingOperation::new(operation as u64, "@ + operation_result_decoder_spec(f) + "))\n    }"@
    } else {
        let body = match f.ret {
            Some(t) => "let raw = "@ + call + ";\n        "@ + ("super::"@ + decode_expression_spec("raw"@, t)),
            None => call + ";\n        Ok(())"@,
        };
        "    pub fn "@ + f.name + "("@ + guest_semantic_arguments_spec(f) + ") -> Result<"@ + semantic_return_spec(f) + ", AbiError> {\n        "@ + body + "\n    }"@
    }
}

fn render_call_argument(argument: &super::lowering::LoweredArgument) -> (r: String)
    ensures
        r@ == call_argument_spec((argument.name@, argument.ty@)),
{
    if argument.ty.is_owned_resource() {
        let mut r = String::from_str("super::resources::");
        r.append(argument.ty.semantic_str());
        r.append("::encode_i64(");
        r.append(argument.name.as_str());
        r.append(")?");
        r
    } else {
        let mut r = String::from_str("super::");
        let encoded = encode_expression(argument.name.as_str(), &argument.ty);
        r.append(encoded.as_str());
        r
    }
}

pub fn render_guest_typed_import(f: &LoweredFunction, has_async_owned_borrow: bool) -> (r: String)
    ensures
        r@ == guest_typed_import_spec(f@, has_async_owned_borrow),
{
    let mut parts: Vec<String> = Vec::new();
    let mut borrows = false;
    let mut i: usize = 0;
    while i < f.args.len()
        invariant
            i <= f.args@.len(),
            parts@.len() == i,
            forall|j: int| 0 <= j < i ==> #[trigger] parts@[j]@ == call_argument_spec(f@.args[j]),
            borrows == exists|j: int| 0 <= j < i && is_owned_resource(#[trigger] f@.args[j].1),
        decreases f.args@.len() - i,
    {
        parts.push(render_call_argument(&f.args[i]));
        if f.args[i].ty.is_owned_resource() {
            borrows = true;
        }
        proof {
            assert(f@.args[i as int] == (f.args@[i as int].name@, f.args@[i as int].ty@));
        }
        i = i + 1;
    }
    proof {
        assert(views(parts@) =~= f@.args.map_values(|a: (Seq<char>, LoweredModel)| call_argument_spec(a)));
    }
    let call_arguments = join(&parts, ", ");
    let mut call = String::from_str("unsafe { raw_imports::");
    let raw = raw_import_name(f);
    call.append(raw.as_str());
    call.append("(");
    call.append(call_arguments.as_str());
    call.append(") }");
    let arguments = render_guest_semantic_arguments(f);
    let sr = semantic_return(f);
    if f.is_async {
        let pending = if has_async_owned_borrow {
            if borrows {
                let mut p = String::from_str("PendingOperation<'a, ");
                p.append(sr.as_str());
                p.append(">");
                p
            } else {
                let mut p = String::from_str("PendingOperation<'static, ");
                p.append(sr.as_str());
                p.append(">");
                p
            }
        } else {
            let mut p = String::from_str("PendingOperation<");
            p.append(sr.as_str());
            p.append(">");
            p
        };
        let lifetime = if borrows {
            "<'a>"
        } else {
            ""
        };
        proof {
            reveal_strlit("");
        }
        let decoder = render_operation_result_decoder(f);
        let mut r = String::from_str("    pub fn ");
        r.append(f.name.as_str());
        r.append(lifetime);
        r.append("(");
        r.append(arguments.as_str());
        r.append(") -> Result<");
        r.append(pending.as_str());
        r.append(", AbiError> {\n        let operation = ");
        r.append(call.as_str());
        r.append(";\n        Ok(PendingOperation::new(operation as u64, ");
        r.append(decoder.as_str());
        r.append("))\n    }");
        r
    } else {
        let body = match &f.return_type {
            Some(t) => {
                let mut b = String::from_str("let raw = ");
                b.append(call.as_str());
                b.append(";\n        ");
                let mut decoded = String::from_str("super::");
                let d = decode_expression("raw", t);
                decoded.append(d.as_str());
                b.append(decoded.as_str());
                b
            },
            None => {
                let mut b = call;
                b.append(";\n        Ok(())");
                b
            },
        };
        let mut r = String::from_str("    pub fn ");
        r.append(f.name.as_str());
        r.append("(");
        r.append(arguments.as_str());
        r.append(") -> Result<");
        r.append(sr.as_str());
        r.append(", AbiError> {\n        ");
        r.append(body.as_str());
        r.append("\n    }");
        r
    }
}

/// The pending-operation type behind async imports; with owned borrows it
/// carries the lifetime of the borrowed handles.
pub open spec fn operation_support_spec(has_owned_borrows: bool) -> Seq<char> {
    let generics = if has_owned_borrows {
        "<'a, T>"@
    } else {
        "<T>"@
    };
    let marker = if has_owned_borrows {
        "    _borrow: ::std::marker::PhantomData<&'a ()>,\n"@
    } else {
        Seq::empty()
    };
    let initialize_marker = if has_owned_borrows {
        ", _borrow: ::std::marker::PhantomData"@
    } else {
        Seq::empty()
    };
    "pub struct PendingOperation"@ + generics + " {\n    operation: Option<u64>,\n    decode: fn(i64) -> Result<T, AbiError>,\n"@ + marker + "}\n\nimpl"@ + generics + " PendingOperation"@ + generics + " {\n    fn new(operation: u64, decode: fn(i64) -> Result<T, AbiError>) -> Self { Self { operation: Some(operation), decode"@ + initialize_marker + " } }\n\n    pub fn poll(&mut self) -> Result<Option<T>, AbiError> {\n        let operation = self.operation.ok_or(AbiError::OperationCancelled)?;\n        match unsafe { raw_imports::__kernal_api_v1_import_poll_operation(operation as i64) } {\n            0 => Ok(None),\n            1 => {\n                self.operation = None;\n                (self.decode)(unsafe { raw_imports::__kernal_api_v1_import_take_operation_result(operation as i64) }).map(Some)\n            }\n            2 => { self.operation = None; Err(AbiError::OperationCancelled) }\n            state => Err(AbiError::InvalidOperationState(state)),\n        }\n    }\n\n    pub fn yield_now(&self) -> Result<(), AbiError> {\n        let operation = self.operation.ok_or(AbiError::OperationCancelled)?;\n        unsafe { raw_imports::__kernal_api_v1_import_yield_operation(operation as i64) };\n        Ok(())\n    }\n\n    pub fn cancel(&mut self) -> Result<(), AbiError> {\n        let operation = self.operation.take().ok_or(AbiError::OperationCancelled)?;\n        unsafe { raw_imports::__kernal_api_v1_import_cancel_operation(operation as i64) };\n        Ok(())\n    }\n}\n\nimpl"@ + generics + " Drop for PendingOperation"@ + generics + " {\n    fn drop(&mut self) {\n        if let Some(operation) = self.operation.take() {\n            unsafe { raw_imports::__kernal_api_v1_import_cancel_operation(operation as i64) };\n        }\n    }\n}\n\n"@
}

pub fn render_guest_operation_support(has_owned_borrows: bool) -> (r: String)
    ensures
        r@ == operation_support_spec(has_owned_borrows),
{
    proof {
        reveal_strlit("");
    }
    let generics = if has_owned_borrows {
        "<'a, T>"
    } else {
        "<T>"
    };
    let marker = if has_owned_borrows {
        "    _borrow: ::std::marker::PhantomData<&'a ()>,\n"
    } else {
        ""
    };
    let initialize_marker = if has_owned_borrows {
        ", _borrow: ::std::marker::PhantomData"
    } else {
        ""
    };
    let mut r = String::from_str("pub struct PendingOperation");
    r.append(generics);
    r.append(" {\n    operation: Option<u64>,\n    decode: fn(i64) -> Result<T, AbiError>,\n");
    r.append(marker);
    r.append("}\n\nimpl");
    r.append(generics);
    r.append(" PendingOperation");
    r.append(generics);
    r.append(" {\n    fn new(operation: u64, decode: fn(i64) -> Result<T, AbiError>) -> Self { Self { operation: Some(operation), decode");
    r.append(initialize_marker);
    r.append(" } }\n\n    pub fn poll(&mut self) -> Result<Option<T>, AbiError> {\n        let operation = self.operation.ok_or(AbiError::OperationCancelled)?;\n        match unsafe { raw_imports::__kernal_api_v1_import_poll_operation(operation as i64) } {\n            0 => Ok(None),\n            1 => {\n                self.operation = None;\n                (self.decode)(unsafe { raw_imports::__kernal_api_v1_import_take_operation_result(operation as i64) }).map(Some)\n            }\n            2 => { self.operation = None; Err(AbiError::OperationCancelled) }\n            state => Err(AbiError::InvalidOperationState(state)),\n        }\n    }\n\n    pub fn yield_now(&self) -> Result<(), AbiError> {\n        let operation = self.operation.ok_or(AbiError::OperationCancelled)?;\n        unsafe { raw_imports::__kernal_api_v1_import_yield_operation(operation as i64) };\n        Ok(())\n    }\n\n    pub fn cancel(&mut self) -> Result<(), AbiError> {\n        let operation = self.operation.take().ok_or(AbiError::OperationCancelled)?;\n        unsafe { raw_imports::__kernal_api_v1_import_cancel_operation(operation as i64) };\n        Ok(())\n    }\n}\n\nimpl");
    r.append(generics);
    r.append(" Drop for PendingOperation");
    r.append(generics);
    r.append(" {\n    fn drop(&mut self) {\n        if let Some(operation) = self.operation.take() {\n            unsafe { raw_imports::__kernal_api_v1_import_cancel_operation(operation as i64) };\n        }\n    }\n}\n\n");
    r
}

/// The field of the exports table that holds one export's implementation.
pub open spec fn guest_export_field_spec(f: FunctionModel) -> Seq<char> {
    let arguments = seq_join(f.args.map_values(|a: (Seq<char>, LoweredModel)| rust_type_spec(a.1)), ", "@);
    "    pub "@ + f.name + ": fn("@ + arguments + ") -> "@ + semantic_return_spec(f) + ","@
}

pub fn render_guest_export_field(f: &LoweredFunction) -> (r: String)
    ensures
        r@ == guest_export_field_spec(f@),
{
    let mut parts: Vec<String> = Vec::new();
    let mut i: usize = 0;
    while i < f.args.len()
        invariant
            i <= f.args@.len(),
            parts@.len() == i,
            forall|j: int| 0 <= j < i ==> #[trigger] parts@[j]@ == rust_type_spec(f@.args[j].1),
        decreases f.args@.len() - i,
    {
        parts.push(f.args[i].ty.rust_type());
        i = i + 1;
    }
    proof {
        assert(views(parts@) =~= f@.args.map_values(|a: (Seq<char>, LoweredModel)| rust_type_spec(a.1)));
    }
    let arguments = join(&parts, ", ");
    let sr = semantic_return(f);
    let mut r = String::from_str("    pub ");
    r.append(f.name.as_str());
    r.append(": fn(");
    r.append(arguments.as_str());
    r.append(") -> ");
    r.append(sr.as_str());
    r.append(",");
    r
}

pub open spec fn export_decoded_argument_spec(a: (Seq<char>, LoweredModel)) -> Seq<char> {
    "let "@ + a.0 + " = require_abi("@ + decode_expression_spec(a.0, a.1) + ");"@
}

/// The `extern "C"` wrapper of one export: it decodes the ABI arguments,
/// calls the installed implementation and encodes its result.
pub open spec fn guest_export_wrapper_spec(f: FunctionModel) -> Seq<char> {
    let decoded = seq_join(
        f.args.map_values(|a: (Seq<char>, LoweredModel)| export_decoded_argument_spec(a)),
        "\n    "@,
    );
    let names = seq_join(f.args.map_values(|a: (Seq<char>, LoweredModel)| a.0), ", "@);
    let result = match f.ret {
        Some(t) => encode_function_spec(t) + "(result)"@,
        None => Seq::empty(),
    };
    "#[no_mangle]\npub extern \"C\" fn "@ + f.name + "("@ + abi_arguments_spec(f) + ")"@ + abi_result_spec(f) + " {\n    "@ + decoded + "\n    let result = (installed_exports()."@ + f.name + ")("@ + names + ");\n    "@ + result + "\n}"@
}

pub fn render_guest_export_wrapper(f: &LoweredFunction) -> (r: String)
    ensures
        r@ == guest_export_wrapper_spec(f@),
{
    let mut decoded_parts: Vec<String> = Vec::new();
    let mut name_parts: Vec<String> = Vec::new();
    let mut i: usize = 0;
    while i < f.args.len()
        invariant
            i <= f.args@.len(),
            decoded_parts@.len() == i,
            name_parts@.len() == i,
            forall|j: int| 0 <= j < i ==> #[trigger] decoded_parts@[j]@ == export_decoded_argument_spec(f@.args[j]),
            forall|j: int| 0 <= j < i ==> #[trigger] name_parts@[j]@ == f@.args[j].0,
        decreases f.args@.len() - i,
    {
        let mut part = String::from_str("let ");
        part.append(f.args[i].name.as_str());
        part.append(" = require_abi(");
        let decoded = decode_expression(f.args[i].name.as_str(), &f.args[i].ty);
        part.append(decoded.as_str());
        part.append(");");
        decoded_parts.push(part);
        name_parts.push(f.args[i].name.clone());
        i = i + 1;
    }
    proof {
        assert(views(decoded_parts@) =~= f@.args.map_values(
            |a: (Seq<char>, LoweredModel)| export_decoded_argument_spec(a),
        ));
        assert(views(name_parts@) =~= f@.args.map_values(|a: (Seq<char>, LoweredModel)| a.0));
    }
    let decoded = join(&decoded_parts, "\n    ");
    let names = join(&name_parts, ", ");
    let result = match &f.return_type {
        Some(t) => {
            let mut e = encode_function(t);
            e.append("(result)");
            e
        },
        None => String::new(),
    };
    let arguments = render_abi_arguments(f);
    let abi_result = render_abi_result(f);
    let mut r = String::from_str("#[no_mangle]\npub extern \"C\" fn ");
    r.append(f.name.as_str());
    r.append("(");
    r.append(arguments.as_str());
    r.append(")");
    r.append(abi_result.as_str());
    r.append(" {\n    ");
    r.append(decoded.as_str());
    r.append("\n    let result = (installed_exports().");
    r.append(f.name.as_str());
    r.append(")(");
    r.append(names.as_str());
    r.append(");\n    ");
    r.append(result.as_str());
    r.append("\n}");
    r
}

/// Whether some async import borrows an owned resource.
pub open spec fn any_async_owned_borrow(imports: Seq<FunctionModel>) -> bool {
    exists|i: int| 0 <= i < imports.len() && (#[trigger] imports[i]).is_async && borrows_owned(imports[i])
}

/// Whether `types` declares a resource.
pub open spec fn declares_resource(types: Seq<(TypeIdent, Type)>) -> bool {
    exists|i: int| 0 <= i < types.len() && #[trigger] resource_entry(types, i)
}

pub open spec fn guest_raw_imports_spec(imports: Seq<FunctionModel>) -> Seq<char> {
    seq_join(imports.map_values(|f: FunctionModel| guest_raw_import_spec(f)), "\n"@)
}

pub open spec fn guest_typed_imports_spec(imports: Seq<FunctionModel>, has_async_owned_borrow: bool) -> Seq<char> {
    seq_join(
        imports.map_values(|f: FunctionModel| guest_typed_import_spec(f, has_async_owned_borrow)),
        "\n\n"@,
    )
}

pub open spec fn guest_export_fields_spec(exports: Seq<FunctionModel>) -> Seq<char> {
    seq_join(exports.map_values(|f: FunctionModel| guest_export_field_spec(f)), "\n"@)
}

pub open spec fn guest_export_wrappers_spec(exports: Seq<FunctionModel>) -> Seq<char> {
    seq_join(exports.map_values(|f: FunctionModel| guest_export_wrapper_spec(f)), "\n\n"@)
}

/// The whole guest source.
pub open spec fn guest_source_spec(
    imports: Seq<FunctionModel>,
    exports: Seq<FunctionModel>,
    types: Seq<(TypeIdent, Type)>,
    snakes: Seq<Seq<char>>,
) -> Seq<char> {
    let has_async_imports = any_async(imports);
    let has_async_owned_borrow = any_async_owned_borrow(imports);
    let raw_imports = guest_raw_imports_spec(imports);
    let imports_text = guest_typed_imports_spec(imports, has_async_owned_borrow);
    let export_fields = guest_export_fields_spec(exports);
    let export_wrappers = guest_export_wrappers_spec(exports);
    let operation_raw_imports = if has_async_imports {
        GUEST_OPERATION_RAW_IMPORTS@
    } else {
        Seq::empty()
    };
    let operation_support = if has_async_imports {
        operation_support_spec(has_async_owned_borrow)
    } else {
        Seq::empty()
    };
    let resource_release_raw_imports = release_raw_imports(types, snakes, types.len() as int);
    let import_uses = if has_async_imports {
        "raw_imports, AbiError, PendingOperation"@
    } else {
        "raw_imports, AbiError"@
    };
    let import_uses = if declares_resource(types) {
        import_uses + ", resources"@
    } else {
        import_uses
    };
    let operation_error_variants = if has_async_imports {
        "            InvalidOperationState(i32),\n            OperationCancelled,\n"@
    } else {
        Seq::empty()
    };
    let resources = guest_resource_types_spec(types, snakes);
    "// Generated Core Wasm guest bindings for `kernal-api:v1`.\n// Public APIs use semantic scalar and resource types; raw ABI values stay private.\n\nuse std::sync::OnceLock;\n\n#[derive(Clone, Debug, Eq, PartialEq)]\npub enum AbiError {\n    InvalidBoolean(i32),\n    OutOfRange { ty: &'static str, value: i32 },\n    ResourceClosed { resource: &'static str },\n    ResourceReleaseRejected { resource: &'static str, status: i32 },\n"@ + operation_error_variants + "}\n\n#[derive(Clone, Debug, Eq, PartialEq)]\npub enum ExportInstallError {\n    AlreadyInstalled,\n}\n\n"@ + resources + "fn bool_from_i32(value: i32) -> Result<bool, AbiError> { match value { 0 => Ok(false), 1 => Ok(true), value => Err(AbiError::InvalidBoolean(value)) } }\nfn i8_from_i32(value: i32) -> Result<i8, AbiError> { value.try_into().map_err(|_| AbiError::OutOfRange { ty: \"i8\", value }) }\nfn i16_from_i32(value: i32) -> Result<i16, AbiError> { value.try_into().map_err(|_| AbiError::OutOfRange { ty: \"i16\", value }) }\nfn u8_from_i32(value: i32) -> Result<u8, AbiError> { value.try_into().map_err(|_| AbiError::OutOfRange { ty: \"u8\", value }) }\nfn u16_from_i32(value: i32) -> Result<u16, AbiError> { value.try_into().map_err(|_| AbiError::OutOfRange { ty: \"u16\", value }) }\n\nfn i32_from_i32(value: i32) -> Result<i32, AbiError> { Ok(value) }\nfn u32_from_i32(value: i32) -> Result<u32, AbiError> { Ok(value as u32) }\nfn i64_from_i64(value: i64) -> Result<i64, AbiError> { Ok(value) }\nfn u64_from_i64(value: i64) -> Result<u64, AbiError> { Ok(value as u64) }\nfn f32_from_f32(value: f32) -> Result<f32, AbiError> { Ok(value) }\nfn f64_from_f64(value: f64) -> Result<f64, AbiError> { Ok(value) }\nfn bool_to_i32(value: bool) -> i32 { i32::from(value) }\nfn i8_to_i32(value: i8) -> i32 { value as i32 }\nfn i16_to_i32(value: i16) -> i32 { value as i32 }\nfn i32_to_i32(value: i32) -> i32 { value }\nfn u8_to_i32(value: u8) -> i32 { value as i32 }\nfn u16_to_i32(value: u16) -> i32 { value as i32 }\nfn u32_to_i32(value: u32) -> i32 { value as i32 }\nfn i64_to_i64(value: i64) -> i64 { value }\nfn u64_to_i64(value: u64) -> i64 { value as i64 }\nfn f32_to_f32(value: f32) -> f32 { value }\nfn f64_to_f64(value: f64) -> f64 { value }\n\nmod raw_imports {\n    #[link(wasm_import_module = \"kernal-api:v1\")]\n    extern \"C\" {\n"@ + raw_imports + "\n"@ + operation_raw_imports + "\n"@ + resource_release_raw_imports + "\n    }\n}\n\n"@ + operation_support + "\npub mod imports {\n    use super::{"@ + import_uses + "};\n\n"@ + imports_text + "\n}\n\npub struct KernalApiV1Exports {\n"@ + export_fields + "\n}\n\nstatic EXPORTS: OnceLock<KernalApiV1Exports> = OnceLock::new();\n\npub fn install_exports(exports: KernalApiV1Exports) -> Result<(), ExportInstallError> { EXPORTS.set(exports).map_err(|_| ExportInstallError::AlreadyInstalled) }\n\nfn installed_exports() -> &'static KernalApiV1Exports { EXPORTS.get().expect(\"install KernalApiV1Exports before invoking guest exports\") }\nfn require_abi<T>(value: Result<T, AbiError>) -> T { value.expect(\"host passed an invalid scalar Core Wasm ABI value\") }\n\n"@ + export_wrappers + "\n"@
}

fn async_owned_borrow(imports: &Vec<LoweredFunction>) -> (r: bool)
    ensures
        r == any_async_owned_borrow(function_views(imports@)),
{
    let ghost fs = function_views(imports@);
    let mut i: usize = 0;
    while i < imports.len()
        invariant
            i <= imports@.len(),
            fs == function_views(imports@),
            forall|k: int| 0 <= k < i ==> !((#[trigger] fs[k]).is_async && borrows_owned(fs[k])),
        decreases imports@.len() - i,
    {
        if imports[i].is_async {
            let f = &imports[i];
            let mut j: usize = 0;
            while j < f.args.len()
                invariant
                    j <= f.args@.len(),
                    i < imports@.len(),
                    fs == function_views(imports@),
                    *f == imports@[i as int],
                    f.is_async,
                    forall|k: int| 0 <= k < j ==> !is_owned_resource(#[trigger] f@.args[k].1),
                decreases f.args@.len() - j,
            {
                if f.args[j].ty.is_owned_resource() {
                    proof {
                        assert(is_owned_resource(f@.args[j as int].1));
                        assert(fs[i as int] == f@);
                    }
                    return true;
                }
                j = j + 1;
            }
            proof {
                assert(fs[i as int] == f@);
            }
        }
        i = i + 1;
    }
    false
}

fn has_resources(types: &TypeMap) -> (r: bool)
    ensures
        r == declares_resource(types@),
{
    let entries = types.entries();
    let mut i: usize = 0;
    while i < entries.len()
        invariant
            entries@ == types@,
            i <= types@.len(),
            forall|k: int| 0 <= k < i ==> !(#[trigger] resource_entry(types@, k)),
        decreases types@.len() - i,
    {
        if let Type::Resource(_) = &entries[i].1 {
            proof {
                assert(resource_entry(types@, i as int));
            }
            return true;
        }
        i = i + 1;
    }
    false
}

fn render_raw_imports(imports: &Vec<LoweredFunction>) -> (r: String)
    ensures
        r@ == guest_raw_imports_spec(function_views(imports@)),
{
    let mut parts: Vec<String> = Vec::new();
    let mut i: usize = 0;
    while i < imports.len()
        invariant
            i <= imports@.len(),
            parts@.len() == i,
            forall|j: int| 0 <= j < i ==> #[trigger] parts@[j]@ == guest_raw_import_spec(imports@[j]@),
        decreases imports@.len() - i,
    {
        parts.push(render_guest_raw_import(&imports[i]));
        i = i + 1;
    }
    proof {
        assert(views(parts@) =~= function_views(imports@).map_values(|f: FunctionModel| guest_raw_import_spec(f)));
    }
    join(&parts, "\n")
}

fn render_typed_imports(imports: &Vec<LoweredFunction>, has_async_owned_borrow: bool) -> (r: String)
    ensures
        r@ == guest_typed_imports_spec(function_views(imports@), has_async_owned_borrow),
{
    let mut parts: Vec<String> = Vec::new();
    let mut i: usize = 0;
    while i < imports.len()
        invariant
            i <= imports@.len(),
            parts@.len() == i,
            forall|j: int|
                0 <= j < i ==> #[trigger] parts@[j]@ == guest_typed_import_spec(imports@[j]@, has_async_owned_borrow),
        decreases imports@.len() - i,
    {
        parts.push(render_guest_typed_import(&imports[i], has_async_owned_borrow));
        i = i + 1;
    }
    proof {
        assert(views(parts@) =~= function_views(imports@).map_values(
            |f: FunctionModel| guest_typed_import_spec(f, has_async_owned_borrow),
        ));
    }
    join(&parts, "\n\n")
}

fn render_export_fields(exports: &Vec<LoweredFunction>) -> (r: String)
    ensures
        r@ == guest_export_fields_spec(function_views(exports@)),
{
    let mut parts: Vec<String> = Vec::new();
    let mut i: usize = 0;
    while i < exports.len()
        invariant
            i <= exports@.len(),
            parts@.len() == i,
            forall|j: int| 0 <= j < i ==> #[trigger] parts@[j]@ == guest_export_field_spec(exports@[j]@),
        decreases exports@.len() - i,
    {
        parts.push(render_guest_export_field(&exports[i]));
        i = i + 1;
    }
    proof {
        assert(views(parts@) =~= function_views(exports@).map_values(|f: FunctionModel| guest_export_field_spec(f)));
    }
    join(&parts, "\n")
}

fn render_export_wrappers(exports: &Vec<LoweredFunction>) -> (r: String)
    ensures
        r@ == guest_export_wrappers_spec(function_views(exports@)),
{
    let mut parts: Vec<String> = Vec::new();
    let mut i: usize = 0;
    while i < exports.len()
        invariant
            i <= exports@.len(),
            parts@.len() == i,
            forall|j: int| 0 <= j < i ==> #[trigger] parts@[j]@ == guest_export_wrapper_spec(exports@[j]@),
        decreases exports@.len() - i,
    {
        parts.push(render_guest_export_wrapper(&exports[i]));
        i = i + 1;
    }
    proof {
        assert(views(parts@) =~= function_views(exports@).map_values(|f: FunctionModel| guest_export_wrapper_spec(f)));
    }
    join(&parts, "\n\n")
}

/// Renders the guest source.
pub fn render_guest_source(
    imports: &Vec<LoweredFunction>,
    exports: &Vec<LoweredFunction>,
    types: &TypeMap,
    snakes: &Vec<String>,
) -> (r: String)
    requires
        snakes@.len() == types@.len(),
    ensures
        r@ == guest_source_spec(function_views(imports@), function_views(exports@), types@, views(snakes@)),
{
    proof {
        reveal_strlit("");
    }
    let has_async_imports = has_async(imports);
    let has_async_owned_borrow = async_owned_borrow(imports);
    let raw_imports = render_raw_imports(imports);
    let imports_text = render_typed_imports(imports, has_async_owned_borrow);
    let export_fields = render_export_fields(exports);
    let export_wrappers = render_export_wrappers(exports);
    let operation_raw_imports = if has_async_imports {
        render_guest_operation_raw_imports()
    } else {
        String::new()
    };
    let operation_support = if has_async_imports {
        render_guest_operation_support(has_async_owned_borrow)
    } else {
        String::new()
    };
    let resource_release_raw_imports = render_guest_resource_release_raw_imports(types, snakes);
    let mut import_uses = if has_async_imports {
        String::from_str("raw_imports, AbiError, PendingOperation")
    } else {
        String::from_str("raw_imports, AbiError")
    };
    if has_resources(types) {
        import_uses.append(", resources");
    }
    let operation_error_variants = if has_async_imports {
        "            InvalidOperationState(i32),\n            OperationCancelled,\n"
    } else {
        ""
    };
    let resources = render_guest_resource_types(types, snakes);
    let mut r = String::from_str("// Generated Core Wasm guest bindings for `kernal-api:v1`.\n// Public APIs use semantic scalar and resource types; raw ABI values stay private.\n\nuse std::sync::OnceLock;\n\n#[derive(Clone, Debug, Eq, PartialEq)]\npub enum AbiError {\n    InvalidBoolean(i32),\n    OutOfRange { ty: &'static str, value: i32 },\n    ResourceClosed { resource: &'static str },\n    ResourceReleaseRejected { resource: &'static str, status: i32 },\n");
    r.append(operation_error_variants);
    r.append("}\n\n#[derive(Clone, Debug, Eq, PartialEq)]\npub enum ExportInstallError {\n    AlreadyInstalled,\n}\n\n");
    r.append(resources.as_str());
    r.append("fn bool_from_i32(value: i32) -> Result<bool, AbiError> { match value { 0 => Ok(false), 1 => Ok(true), value => Err(AbiError::InvalidBoolean(value)) } }\nfn i8_from_i32(value: i32) -> Result<i8, AbiError> { value.try_into().map_err(|_| AbiError::OutOfRange { ty: \"i8\", value }) }\nfn i16_from_i32(value: i32) -> Result<i16, AbiError> { value.try_into().map_err(|_| AbiError::OutOfRange { ty: \"i16\", value }) }\nfn u8_from_i32(value: i32) -> Result<u8, AbiError> { value.try_into().map_err(|_| AbiError::OutOfRange { ty: \"u8\", value }) }\nfn u16_from_i32(value: i32) -> Result<u16, AbiError> { value.try_into().map_err(|_| AbiError::OutOfRange { ty: \"u16\", value }) }\n\nfn i32_from_i32(value: i32) -> Result<i32, AbiError> { Ok(value) }\nfn u32_from_i32(value: i32) -> Result<u32, AbiError> { Ok(value as u32) }\nfn i64_from_i64(value: i64) -> Result<i64, AbiError> { Ok(value) }\nfn u64_from_i64(value: i64) -> Result<u64, AbiError> { Ok(value as u64) }\nfn f32_from_f32(value: f32) -> Result<f32, AbiError> { Ok(value) }\nfn f64_from_f64(value: f64) -> Result<f64, AbiError> { Ok(value) }\nfn bool_to_i32(value: bool) -> i32 { i32::from(value) }\nfn i8_to_i32(value: i8) -> i32 { value as i32 }\nfn i16_to_i32(value: i16) -> i32 { value as i32 }\nfn i32_to_i32(value: i32) -> i32 { value }\nfn u8_to_i32(value: u8) -> i32 { value as i32 }\nfn u16_to_i32(value: u16) -> i32 { value as i32 }\nfn u32_to_i32(value: u32) -> i32 { value as i32 }\nfn i64_to_i64(value: i64) -> i64 { value }\nfn u64_to_i64(value: u64) -> i64 { value as i64 }\nfn f32_to_f32(value: f32) -> f32 { value }\nfn f64_to_f64(value: f64) -> f64 { value }\n\nmod raw_imports {\n    #[link(wasm_import_module = \"kernal-api:v1\")]\n    extern \"C\" {\n");
    r.append(raw_imports.as_str());
    r.append("\n");
    r.append(operation_raw_imports.as_str());
    r.append("\n");
    r.append(resource_release_raw_imports.as_str());
    r.append("\n    }\n}\n\n");
    r.append(operation_support.as_str());
    r.append("\npub mod imports {\n    use super::{");
    r.append(import_uses.as_str());
    r.append("};\n\n");
    r.append(imports_text.as_str());
    r.append("\n}\n\npub struct KernalApiV1Exports {\n");
    r.append(export_fields.as_str());
    r.append("\n}\n\nstatic EXPORTS: OnceLock<KernalApiV1Exports> = OnceLock::new();\n\npub fn install_exports(exports: KernalApiV1Exports) -> Result<(), ExportInstallError> { EXPORTS.set(exports).map_err(|_| ExportInstallError::AlreadyInstalled) }\n\nfn installed_exports() -> &'static KernalApiV1Exports { EXPORTS.get().expect(\"install KernalApiV1Exports before invoking guest exports\") }\nfn require_abi<T>(value: Result<T, AbiError>) -> T { value.expect(\"host passed an invalid scalar Core Wasm ABI value\") }\n\n");
    r.append(export_wrappers.as_str());
    r.append("\n");
    r
}

} // verus!
