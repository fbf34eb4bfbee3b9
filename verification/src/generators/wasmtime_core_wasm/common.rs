//! Pieces of generated text that guest source, host glue and manifest share:
//! type spellings, argument lists and the scalar codec function names.

use vstd::prelude::*;
use crate::primitives::Primitive;
use crate::text::{seq_join, views, join};
use super::lowering::{
    LoweredType, LoweredModel, LoweredFunction, FunctionModel, semantic_of, abi_of, is_resource,
};

verus! {

/// The Rust type of a lowered value in generated code.
pub open spec fn rust_type_spec(t: LoweredModel) -> Seq<char> {
    if is_resource(t) {
        "resources::"@ + semantic_of(t)
    } else {
        semantic_of(t)
    }
}

/// The manifest record of a lowered value.
pub open spec fn manifest_value_spec(t: LoweredModel) -> Seq<char> {
    if is_resource(t) {
        "{ semantic = \""@ + semantic_of(t) + "\", abi = \"i64\", kind = \"resource\" }"@
    } else {
        "{ semantic = \""@ + semantic_of(t) + "\", abi = \""@ + abi_of(t) + "\" }"@
    }
}

/// The guest-side name of the raw import of `f`.
pub open spec fn raw_import_name_spec(f: FunctionModel) -> Seq<char> {
    "__kernal_api_v1_import_"@ + f.name
}

pub open spec fn semantic_argument_spec(a: (Seq<char>, LoweredModel)) -> Seq<char> {
    a.0 + ": "@ + rust_type_spec(a.1)
}

/// `name: Type` for each argument, joined with `", "`.
pub open spec fn semantic_arguments_spec(f: FunctionModel) -> Seq<char> {
    seq_join(f.args.map_values(|a: (Seq<char>, LoweredModel)| semantic_argument_spec(a)), ", "@)
}

pub open spec fn abi_argument_spec(a: (Seq<char>, LoweredModel)) -> Seq<char> {
    a.0 + ": "@ + abi_of(a.1)
}

/// `name: abi` for each argument, joined with `", "`.
pub open spec fn abi_arguments_spec(f: FunctionModel) -> Seq<char> {
    seq_join(f.args.map_values(|a: (Seq<char>, LoweredModel)| abi_argument_spec(a)), ", "@)
}

/// A parameter list as Wasmtime's typed functions take it: `()` for none,
/// the single item, or a parenthesised tuple.
pub open spec fn tuple_spec(items: Seq<Seq<char>>) -> Seq<char> {
    if items.len() == 0 {
        "()"@
    } else if items.len() == 1 {
        items[0]
    } else {
        "("@ + seq_join(items, ", "@) + ")"@
    }
}

pub open spec fn wasm_function_params_spec(f: FunctionModel) -> Seq<char> {
    tuple_spec(f.args.map_values(|a: (Seq<char>, LoweredModel)| abi_of(a.1)))
}

pub open spec fn wasm_call_params_spec(f: FunctionModel) -> Seq<char> {
    tuple_spec(f.args.map_values(|a: (Seq<char>, LoweredModel)| encode_expression_spec(a.0, a.1)))
}

/// The ABI result type of `f`; `()` when it returns nothing.
pub open spec fn abi_result_only_spec(f: FunctionModel) -> Seq<char> {
    match f.ret {
        Some(t) => abi_of(t),
        None => "()"@,
    }
}

pub open spec fn abi_result_spec(f: FunctionModel) -> Seq<char> {
    " -> "@ + abi_result_only_spec(f)
}

/// The semantic Rust result type of `f`; `()` when it returns nothing.
pub open spec fn semantic_return_spec(f: FunctionModel) -> Seq<char> {
    match f.ret {
        Some(t) => rust_type_spec(t),
        None => "()"@,
    }
}

/// The generated encoder of a scalar primitive.
pub open spec fn encoder_name(p: Primitive) -> Seq<char> {
    match p {
        Primitive::Bool => "bool_to_i32"@,
        Primitive::I8 => "i8_to_i32"@,
        Primitive::I16 => "i16_to_i32"@,
        Primitive::I32 => "i32_to_i32"@,
        Primitive::U8 => "u8_to_i32"@,
        Primitive::U16 => "u16_to_i32"@,
        Primitive::U32 => "u32_to_i32"@,
        Primitive::I64 => "i64_to_i64"@,
        Primitive::U64 => "u64_to_i64"@,
        Primitive::F32 => "f32_to_f32"@,
        Primitive::F64 => "f64_to_f64"@,
    }
}

/// The generated decoder of a scalar primitive.
pub open spec fn decoder_name(p: Primitive) -> Seq<char> {
    match p {
        Primitive::Bool => "bool_from_i32"@,
        Primitive::I8 => "i8_from_i32"@,
        Primitive::I16 => "i16_from_i32"@,
        Primitive::I32 => "i32_from_i32"@,
        Primitive::U8 => "u8_from_i32"@,
        Primitive::U16 => "u16_from_i32"@,
        Primitive::U32 => "u32_from_i32"@,
        Primitive::I64 => "i64_from_i64"@,
        Primitive::U64 => "u64_from_i64"@,
        Primitive::F32 => "f32_from_f32"@,
        Primitive::F64 => "f64_from_f64"@,
    }
}

/// The function that encodes a lowered value for the ABI.
pub open spec fn encode_function_spec(t: LoweredModel) -> Seq<char> {
    match t {
        LoweredModel::Resource(name, _) => "resources::"@ + name + "::encode_i64"@,
        LoweredModel::Scalar(p) => encoder_name(p),
    }
}

pub open spec fn encode_expression_spec(name: Seq<char>, t: LoweredModel) -> Seq<char> {
    encode_function_spec(t) + "("@ + name + ")"@
}

/// The expression that decodes the ABI value `name` into a lowered value.
pub open spec fn decode_expression_spec(name: Seq<char>, t: LoweredModel) -> Seq<char> {
    match t {
        LoweredModel::Resource(sem, _) => "resources::"@ + sem + "::decode_i64("@ + name + ")"@,
        LoweredModel::Scalar(p) => decoder_name(p) + "("@ + name + ")"@,
    }
}

impl LoweredType {
    /// The Rust type of this value in generated code.
    pub fn rust_type(&self) -> (r: String)
        ensures
            r@ == rust_type_spec(self@),
    {
        if self.is_resource() {
            let mut r = String::from_str("resources::");
            r.append(self.semantic_str());
            r
        } else {
            self.semantic()
        }
    }

    /// The manifest record of this value.
    pub fn manifest(&self) -> (r: String)
        ensures
            r@ == manifest_value_spec(self@),
    {
        let mut r = String::from_str("{ semantic = \"");
        r.append(self.semantic_str());
        if self.is_resource() {
            r.append("\", abi = \"i64\", kind = \"resource\" }");
        } else {
            r.append("\", abi = \"");
            r.append(self.abi());
            r.append("\" }");
        }
        r
    }
}

pub fn raw_import_name(f: &LoweredFunction) -> (r: String)
    ensures
        r@ == raw_import_name_spec(f@),
{
    let mut r = String::from_str("__kernal_api_v1_import_");
    r.append(f.name.as_str());
    r
}

pub fn render_semantic_arguments(f: &LoweredFunction) -> (r: String)
    ensures
        r@ == semantic_arguments_spec(f@),
{
    let mut parts: Vec<String> = Vec::new();
    let mut i: usize = 0;
    while i < f.args.len()
        invariant
            i <= f.args@.len(),
            parts@.len() == i,
            forall|j: int| 0 <= j < i ==> #[trigger] parts@[j]@ == semantic_argument_spec(f@.args[j]),
        decreases f.args@.len() - i,
    {
        let mut part = f.args[i].name.clone();
        part.append(": ");
        let ty = f.args[i].ty.rust_type();
        part.append(ty.as_str());
        parts.push(part);
        i = i + 1;
    }
    proof {
        assert(views(parts@) =~= f@.args.map_values(|a: (Seq<char>, LoweredModel)| semantic_argument_spec(a)));
    }
    join(&parts, ", ")
}

pub fn render_abi_arguments(f: &LoweredFunction) -> (r: String)
    ensures
        r@ == abi_arguments_spec(f@),
{
    render_abi_arguments_only(f)
}

pub fn render_abi_arguments_only(f: &LoweredFunction) -> (r: String)
    ensures
        r@ == abi_arguments_spec(f@),
{
    let mut parts: Vec<String> = Vec::new();
    let mut i: usize = 0;
    while i < f.args.len()
        invariant
            i <= f.args@.len(),
            parts@.len() == i,
            forall|j: int| 0 <= j < i ==> #[trigger] parts@[j]@ == abi_argument_spec(f@.args[j]),
        decreases f.args@.len() - i,
    {
        let mut part = f.args[i].name.clone();
        part.append(": ");
        part.append(f.args[i].ty.abi());
        parts.push(part);
        i = i + 1;
    }
    proof {
        assert(views(parts@) =~= f@.args.map_values(|a: (Seq<char>, LoweredModel)| abi_argument_spec(a)));
    }
    join(&parts, ", ")
}

fn render_tuple(items: &Vec<String>) -> (r: String)
    ensures
        r@ == tuple_spec(views(items@)),
{
    if items.len() == 0 {
        String::from_str("()")
    } else if items.len() == 1 {
        items[0].clone()
    } else {
        let mut r = String::from_str("(");
        let inner = join(items, ", ");
        r.append(inner.as_str());
        r.append(")");
        r
    }
}

pub fn render_wasm_function_params(f: &LoweredFunction) -> (r: String)
    ensures
        r@ == wasm_function_params_spec(f@),
{
    let mut parts: Vec<String> = Vec::new();
    let mut i: usize = 0;
    while i < f.args.len()
        invariant
            i <= f.args@.len(),
            parts@.len() == i,
            forall|j: int| 0 <= j < i ==> #[trigger] parts@[j]@ == abi_of(f@.args[j].1),
        decreases f.args@.len() - i,
    {
        parts.push(String::from_str(f.args[i].ty.abi()));
        i = i + 1;
    }
    proof {
        assert(views(parts@) =~= f@.args.map_values(|a: (Seq<char>, LoweredModel)| abi_of(a.1)));
    }
    render_tuple(&parts)
}

pub fn render_wasm_call_params(f: &LoweredFunction) -> (r: String)
    ensures
        r@ == wasm_call_params_spec(f@),
{
    let mut parts: Vec<String> = Vec::new();
    let mut i: usize = 0;
    while i < f.args.len()
        invariant
            i <= f.args@.len(),
            parts@.len() == i,
            forall|j: int|
                0 <= j < i ==> #[trigger] parts@[j]@ == encode_expression_spec(f@.args[j].0, f@.args[j].1),
        decreases f.args@.len() - i,
    {
        parts.push(encode_expression(f.args[i].name.as_str(), &f.args[i].ty));
        i = i + 1;
    }
    proof {
        assert(views(parts@) =~= f@.args.map_values(
            |a: (Seq<char>, LoweredModel)| encode_expression_spec(a.0, a.1),
        ));
    }
    render_tuple(&parts)
}

pub fn render_abi_result_only(f: &LoweredFunction) -> (r: &'static str)
    ensures
        r@ == abi_result_only_spec(f@),
{
    match &f.return_type {
        Some(t) => t.abi(),
        None => "()",
    }
}

pub fn render_abi_result(f: &LoweredFunction) -> (r: String)
    ensures
        r@ == abi_result_spec(f@),
{
    let mut r = String::from_str(" -> ");
    r.append(render_abi_result_only(f));
    r
}

pub fn semantic_return(f: &LoweredFunction) -> (r: String)
    ensures
        r@ == semantic_return_spec(f@),
{
    match &f.return_type {
        Some(t) => t.rust_type(),
        None => String::from_str("()"),
    }
}

fn encoder(p: Primitive) -> (r: &'static str)
    ensures
        r@ == encoder_name(p),
{
    match p {
        Primitive::Bool => "bool_to_i32",
        Primitive::I8 => "i8_to_i32",
        Primitive::I16 => "i16_to_i32",
        Primitive::I32 => "i32_to_i32",
        Primitive::U8 => "u8_to_i32",
        Primitive::U16 => "u16_to_i32",
        Primitive::U32 => "u32_to_i32",
        Primitive::I64 => "i64_to_i64",
        Primitive::U64 => "u64_to_i64",
        Primitive::F32 => "f32_to_f32",
        Primitive::F64 => "f64_to_f64",
    }
}

fn decoder(p: Primitive) -> (r: &'static str)
    ensures
        r@ == decoder_name(p),
{
    match p {
        Primitive::Bool => "bool_from_i32",
        Primitive::I8 => "i8_from_i32",
        Primitive::I16 => "i16_from_i32",
        Primitive::I32 => "i32_from_i32",
        Primitive::U8 => "u8_from_i32",
        Primitive::U16 => "u16_from_i32",
        Primitive::U32 => "u32_from_i32",
        Primitive::I64 => "i64_from_i64",
        Primitive::U64 => "u64_from_i64",
        Primitive::F32 => "f32_from_f32",
        Primitive::F64 => "f64_from_f64",
    }
}

pub fn encode_function(t: &LoweredType) -> (r: String)
    ensures
        r@ == encode_function_spec(t@),
{
    match t {
        LoweredType::Resource { name, .. } => {
            let mut r = String::from_str("resources::");
            r.append(name.as_str());
            r.append("::encode_i64");
            r
        },
        LoweredType::Scalar(p) => String::from_str(encoder(*p)),
    }
}

pub fn encode_expression(name: &str, t: &LoweredType) -> (r: String)
    ensures
        r@ == encode_expression_spec(name@, t@),
{
    let mut r = encode_function(t);
    r.append("(");
    r.append(name);
    r.append(")");
    r
}

pub fn decode_expression(name: &str, t: &LoweredType) -> (r: String)
    ensures
        r@ == decode_expression_spec(name@, t@),
{
    match t {
        LoweredType::Resource { name: sem, .. } => {
            let mut r = String::from_str("resources::");
            r.append(sem.as_str());
            r.append("::decode_i64(");
            r.append(name);
            r.append(")");
            r
        },
        LoweredType::Scalar(p) => {
            let mut r = String::from_str(decoder(*p));
            r.append("(");
            r.append(name);
            r.append(")");
            r
        },
    }
}

} // verus!
