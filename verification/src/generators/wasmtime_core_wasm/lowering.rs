//! Lowering of declared functions to the scalar and resource ABI, and the
//! checks that a declaration set must pass before anything is rendered.

use vstd::prelude::*;
use crate::primitives::{Primitive, primitive_name, primitive_named};
use crate::types::{
    TypeIdent, Type, TypeMap, Resource, ident_text, resource_owned, find_key,
};
use crate::functions::{Function, FunctionArg, FunctionList};
use crate::text::{str_eq, views};

verus! {

/// Why a declaration set cannot be lowered to the Core Wasm ABI.
#[derive(Debug)]
pub enum WasmtimeCoreWasmError {
    AsyncFunction { direction: &'static str, function: String },
    ReservedOperationControl { direction: &'static str, function: String },
    UnsupportedValue { direction: &'static str, function: String, position: String, ty: String },
    UnsupportedTypeDefinition { name: String, ty: String },
    InvalidResourceName { name: String },
    ResourceReleaseNameCollision { release: String, first_resource: String, second_resource: String },
    OwnedResourceExport { function: String, resource: String },
}

/// The content of a `WasmtimeCoreWasmError`, with texts as sequences.
pub enum ErrorModel {
    AsyncFunction { direction: Seq<char>, function: Seq<char> },
    ReservedOperationControl { direction: Seq<char>, function: Seq<char> },
    UnsupportedValue { direction: Seq<char>, function: Seq<char>, position: Seq<char>, ty: Seq<char> },
    UnsupportedTypeDefinition { name: Seq<char>, ty: Seq<char> },
    InvalidResourceName { name: Seq<char> },
    ResourceReleaseNameCollision { release: Seq<char>, first_resource: Seq<char>, second_resource: Seq<char> },
    OwnedResourceExport { function: Seq<char>, resource: Seq<char> },
}

impl View for WasmtimeCoreWasmError {
    type V = ErrorModel;

    open spec fn view(&self) -> ErrorModel {
        match self {
            WasmtimeCoreWasmError::AsyncFunction { direction, function } => ErrorModel::AsyncFunction {
                direction: direction@,
                function: function@,
            },
            WasmtimeCoreWasmError::ReservedOperationControl {
                direction,
                function,
            } => ErrorModel::ReservedOperationControl { direction: direction@, function: function@ },
            WasmtimeCoreWasmError::UnsupportedValue {
                direction,
                function,
                position,
                ty,
            } => ErrorModel::UnsupportedValue {
                direction: direction@,
                function: function@,
                position: position@,
                ty: ty@,
            },
            WasmtimeCoreWasmError::UnsupportedTypeDefinition {
                name,
                ty,
            } => ErrorModel::UnsupportedTypeDefinition { name: name@, ty: ty@ },
            WasmtimeCoreWasmError::InvalidResourceName { name } => ErrorModel::InvalidResourceName {
                name: name@,
            },
            WasmtimeCoreWasmError::ResourceReleaseNameCollision {
                release,
                first_resource,
                second_resource,
            } => ErrorModel::ResourceReleaseNameCollision {
                release: release@,
                first_resource: first_resource@,
                second_resource: second_resource@,
            },
            WasmtimeCoreWasmError::OwnedResourceExport {
                function,
                resource,
            } => ErrorModel::OwnedResourceExport { function: function@, resource: resource@ },
        }
    }
}

/// A value type after lowering: a scalar primitive, or a declared resource
/// (with whether it is owned), carried as an `i64` handle.
#[derive(Debug)]
pub enum LoweredType {
    Scalar(Primitive),
    Resource { name: String, owned: bool },
}

/// The content of a `LoweredType`.
pub enum LoweredModel {
    Scalar(Primitive),
    Resource(Seq<char>, bool),
}

impl View for LoweredType {
    type V = LoweredModel;

    open spec fn view(&self) -> LoweredModel {
        match self {
            LoweredType::Scalar(p) => LoweredModel::Scalar(*p),
            LoweredType::Resource { name, owned } => LoweredModel::Resource(name@, *owned),
        }
    }
}

/// The Rust spelling of the lowered type's semantic side.
pub open spec fn semantic_of(t: LoweredModel) -> Seq<char> {
    match t {
        LoweredModel::Scalar(p) => primitive_name(p),
        LoweredModel::Resource(name, _) => name,
    }
}

/// The Core Wasm value type that carries a lowered type.
pub open spec fn abi_of(t: LoweredModel) -> Seq<char> {
    match t {
        LoweredModel::Scalar(p) => match p {
            Primitive::I64 | Primitive::U64 => "i64"@,
            Primitive::F32 => "f32"@,
            Primitive::F64 => "f64"@,
            _ => "i32"@,
        },
        LoweredModel::Resource(_, _) => "i64"@,
    }
}

pub open spec fn is_resource(t: LoweredModel) -> bool {
    t is Resource
}

pub open spec fn is_owned_resource(t: LoweredModel) -> bool {
    match t {
        LoweredModel::Resource(_, owned) => owned,
        _ => false,
    }
}

impl LoweredType {
    pub fn semantic(&self) -> (r: String)
        ensures
            r@ == semantic_of(self@),
    {
        match self {
            LoweredType::Scalar(p) => p.name(),
            LoweredType::Resource { name, .. } => name.clone(),
        }
    }

    pub fn semantic_str(&self) -> (r: &str)
        ensures
            r@ == semantic_of(self@),
    {
        match self {
            LoweredType::Scalar(p) => p.as_str(),
            LoweredType::Resource { name, .. } => name.as_str(),
        }
    }

    pub fn abi(&self) -> (r: &'static str)
        ensures
            r@ == abi_of(self@),
    {
        match self {
            LoweredType::Scalar(p) => match p {
                Primitive::I64 | Primitive::U64 => "i64",
                Primitive::F32 => "f32",
                Primitive::F64 => "f64",
                _ => "i32",
            },
            LoweredType::Resource { .. } => "i64",
        }
    }

    pub fn is_resource(&self) -> (r: bool)
        ensures
            r == is_resource(self@),
    {
        match self {
            LoweredType::Resource { .. } => true,
            _ => false,
        }
    }

    pub fn is_owned_resource(&self) -> (r: bool)
        ensures
            r == is_owned_resource(self@),
    {
        match self {
            LoweredType::Resource { owned, .. } => *owned,
            _ => false,
        }
    }

    pub fn copy(&self) -> (r: LoweredType)
        ensures
            r@ == self@,
    {
        match self {
            LoweredType::Scalar(p) => LoweredType::Scalar(*p),
            LoweredType::Resource { name, owned } => LoweredType::Resource {
                name: name.clone(),
                owned: *owned,
            },
        }
    }
}

/// A lowered argument.
#[derive(Debug)]
pub struct LoweredArgument {
    pub name: String,
    pub ty: LoweredType,
}

/// A lowered function: name, asyncness, lowered arguments and the lowered
/// return type (`None` for `()`).
#[derive(Debug)]
pub struct LoweredFunction {
    pub name: String,
    pub is_async: bool,
    pub args: Vec<LoweredArgument>,
    pub return_type: Option<LoweredType>,
}

/// The content of a `LoweredFunction`.
pub struct FunctionModel {
    pub name: Seq<char>,
    pub is_async: bool,
    pub args: Seq<(Seq<char>, LoweredModel)>,
    pub ret: Option<LoweredModel>,
}

pub open spec fn arg_views(args: Seq<LoweredArgument>) -> Seq<(Seq<char>, LoweredModel)> {
    args.map_values(|a: LoweredArgument| (a.name@, a.ty@))
}

pub open spec fn option_view(t: Option<LoweredType>) -> Option<LoweredModel> {
    match t {
        Some(t) => Some(t@),
        None => None,
    }
}

impl View for LoweredFunction {
    type V = FunctionModel;

    open spec fn view(&self) -> FunctionModel {
        FunctionModel {
            name: self.name@,
            is_async: self.is_async,
            args: arg_views(self.args@),
            ret: option_view(self.return_type),
        }
    }
}

pub open spec fn function_views(fs: Seq<LoweredFunction>) -> Seq<FunctionModel> {
    fs.map_values(|f: LoweredFunction| f@)
}

/// The names of the operation controls that async imports use.
pub open spec fn is_operation_control(name: Seq<char>) -> bool {
    name == "poll_operation"@ || name == "take_operation_result"@ || name == "yield_operation"@ || name
        == "cancel_operation"@
}

/// The import through which the guest releases the owned resource whose
/// name has snake case `snake`.
pub open spec fn release_name(snake: Seq<char>) -> Seq<char> {
    "resource_release_"@ + snake
}

/// Whether entry `i` of `types` declares an owned resource.
pub open spec fn owned_entry(types: Seq<(TypeIdent, Type)>, i: int) -> bool {
    types[i].1 matches Type::Resource(r) && resource_owned(r)
}

/// Whether entry `i` of `types` declares a resource.
pub open spec fn resource_entry(types: Seq<(TypeIdent, Type)>, i: int) -> bool {
    types[i].1 is Resource
}

/// The resource declared by entry `i`.
pub open spec fn entry_resource(types: Seq<(TypeIdent, Type)>, i: int) -> Resource {
    types[i].1->Resource_0
}

/// Whether `name` is the release import of an owned resource in `types`;
/// `snakes[i]` is the snake case of the name of the resource in entry `i`.
pub open spec fn is_release_name(types: Seq<(TypeIdent, Type)>, snakes: Seq<Seq<char>>, name: Seq<char>) -> bool {
    exists|i: int| 0 <= i < types.len() && owned_entry(types, i) && #[trigger] release_name(snakes[i]) == name
}

/// Whether a function name is reserved for a generated control import.
pub open spec fn is_reserved(types: Seq<(TypeIdent, Type)>, snakes: Seq<Seq<char>>, name: Seq<char>) -> bool {
    is_operation_control(name) || is_release_name(types, snakes, name)
}

pub open spec fn unsupported(direction: Seq<char>, function: Seq<char>, position: Seq<char>, ty: TypeIdent) -> ErrorModel {
    ErrorModel::UnsupportedValue { direction, function, position, ty: ident_text(ty) }
}

/// Whether a type identifier is the unit type `()`.
pub open spec fn is_unit_ident(ty: TypeIdent) -> bool {
    ty.name@ == "()"@ && ty.array is None && ty.generic_args@.len() == 0
}

/// Whether `ty` is the key of a resource declaration in `types`.
pub open spec fn declared_resource(types: Seq<(TypeIdent, Type)>, ty: TypeIdent) -> bool {
    match find_key(types, ident_text(ty)) {
        Some(i) => resource_entry(types, i),
        None => false,
    }
}

/// Lowering of a value type: arrays, generic types and `()` are refused;
/// a declared resource lowers to its handle; a primitive to its scalar;
/// anything else is refused.
pub open spec fn lower_value_spec(
    ty: TypeIdent,
    types: Seq<(TypeIdent, Type)>,
    direction: Seq<char>,
    function: Seq<char>,
    position: Seq<char>,
) -> Result<LoweredModel, ErrorModel> {
    if ty.array is Some || ty.generic_args@.len() > 0 || ty.name@ == "()"@ {
        Err(unsupported(direction, function, position, ty))
    } else if declared_resource(types, ty) {
        Ok(LoweredModel::Resource(ty.name@, resource_owned(entry_resource(types, find_key(types, ident_text(ty))->0))))
    } else {
        match primitive_named(ty.name@) {
            Some(p) => Ok(LoweredModel::Scalar(p)),
            None => Err(unsupported(direction, function, position, ty)),
        }
    }
}

/// The position text of an argument in error reports.
pub open spec fn argument_position(name: Seq<char>) -> Seq<char> {
    "argument `"@ + name + "`"@
}

/// Lowering of the arguments of `function`, in order; the first failure wins.
pub open spec fn lower_args_spec(
    args: Seq<FunctionArg>,
    types: Seq<(TypeIdent, Type)>,
    direction: Seq<char>,
    function: Seq<char>,
) -> Result<Seq<(Seq<char>, LoweredModel)>, ErrorModel>
    decreases args.len(),
{
    if args.len() == 0 {
        Ok(Seq::empty())
    } else {
        match lower_args_spec(args.drop_last(), types, direction, function) {
            Err(e) => Err(e),
            Ok(lowered) => {
                let a = args.last();
                match lower_value_spec(a.ty, types, direction, function, argument_position(a.name@)) {
                    Err(e) => Err(e),
                    Ok(t) => Ok(lowered.push((a.name@, t))),
                }
            },
        }
    }
}

/// Lowering of a return type: `()` lowers to nothing.
pub open spec fn lower_return_spec(
    ty: Option<TypeIdent>,
    types: Seq<(TypeIdent, Type)>,
    direction: Seq<char>,
    function: Seq<char>,
) -> Result<Option<LoweredModel>, ErrorModel> {
    match ty {
        None => Ok(None),
        Some(t) => if is_unit_ident(t) {
            Ok(None)
        } else {
            match lower_value_spec(t, types, direction, function, "return"@) {
                Err(e) => Err(e),
                Ok(l) => Ok(Some(l)),
            }
        },
    }
}

/// Lowering of one function: async is refused where not allowed, control
/// names are reserved, then arguments and the return type are lowered.
pub open spec fn lower_function_spec(
    f: Function,
    types: Seq<(TypeIdent, Type)>,
    snakes: Seq<Seq<char>>,
    direction: Seq<char>,
    allow_async: bool,
) -> Result<FunctionModel, ErrorModel> {
    if f.is_async && !allow_async {
        Err(ErrorModel::AsyncFunction { direction, function: f.name@ })
    } else if is_reserved(types, snakes, f.name@) {
        Err(ErrorModel::ReservedOperationControl { direction, function: f.name@ })
    } else {
        match lower_args_spec(f.args@, types, direction, f.name@) {
            Err(e) => Err(e),
            Ok(args) => match lower_return_spec(f.return_type, types, direction, f.name@) {
                Err(e) => Err(e),
                Ok(ret) => Ok(FunctionModel { name: f.name@, is_async: f.is_async, args, ret }),
            },
        }
    }
}

/// Lowering of a list of functions, in order; the first failure wins.
pub open spec fn lower_functions_spec(
    fs: Seq<Function>,
    types: Seq<(TypeIdent, Type)>,
    snakes: Seq<Seq<char>>,
    direction: Seq<char>,
    allow_async: bool,
) -> Result<Seq<FunctionModel>, ErrorModel>
    decreases fs.len(),
{
    if fs.len() == 0 {
        Ok(Seq::empty())
    } else {
        match lower_functions_spec(fs.drop_last(), types, snakes, direction, allow_async) {
            Err(e) => Err(e),
            Ok(lowered) => match lower_function_spec(fs.last(), types, snakes, direction, allow_async) {
                Err(e) => Err(e),
                Ok(l) => Ok(lowered.push(l)),
            },
        }
    }
}

pub open spec fn lowered_result_view(r: Result<LoweredType, WasmtimeCoreWasmError>) -> Result<LoweredModel, ErrorModel> {
    match r {
        Ok(t) => Ok(t@),
        Err(e) => Err(e@),
    }
}

fn unsupported_value(direction: &'static str, function: &str, position: String, ty: &TypeIdent) -> (r:
    WasmtimeCoreWasmError)
    ensures
        r@ == unsupported(direction@, function@, position@, *ty),
{
    WasmtimeCoreWasmError::UnsupportedValue {
        direction,
        function: String::from_str(function),
        position,
        ty: ty.to_text(),
    }
}

/// The lowering of a scalar primitive; every primitive has one.
pub fn lower_primitive(primitive: Primitive) -> (r: Option<LoweredType>)
    ensures
        r matches Some(t) && t@ == LoweredModel::Scalar(primitive),
{
    Some(LoweredType::Scalar(primitive))
}

/// Lowers one value type.
pub fn lower_value_type(
    ty: &TypeIdent,
    types: &TypeMap,
    direction: &'static str,
    function: &str,
    position: String,
) -> (r: Result<LoweredType, WasmtimeCoreWasmError>)
    ensures
        lowered_result_view(r) == lower_value_spec(*ty, types@, direction@, function@, position@),
{
    if ty.is_array() || ty.generic_args.len() > 0 || str_eq(ty.name.as_str(), "()") {
        return Err(unsupported_value(direction, function, position, ty));
    }
    let entries = types.entries();
    match types.position(ty) {
        Some(i) => {
            if let Type::Resource(resource) = &entries[i].1 {
                return Ok(LoweredType::Resource { name: ty.name.clone(), owned: resource.is_owned() });
            }
        },
        None => {},
    }
    match ty.as_primitive() {
        Some(p) => match lower_primitive(p) {
            Some(t) => Ok(t),
            None => Err(unsupported_value(direction, function, position, ty)),
        },
        None => Err(unsupported_value(direction, function, position, ty)),
    }
}


/// The name of the import that releases the owned resource whose name has
/// snake case `snake`.
pub fn resource_release_import_name(snake: &str) -> (r: String)
    ensures
        r@ == release_name(snake@),
{
    let mut r = String::from_str("resource_release_");
    r.append(snake);
    r
}

/// The release import names of the owned resources in `types`, in key order.
pub fn owned_resource_release_names(types: &TypeMap, snakes: &Vec<String>) -> (r: Vec<String>)
    requires
        snakes@.len() == types@.len(),
    ensures
        forall|name: Seq<char>| views(r@).contains(name) <==> is_release_name(types@, views(snakes@), name),
{
    let entries = types.entries();
    let mut names: Vec<String> = Vec::new();
    let mut i: usize = 0;
    while i < entries.len()
        invariant
            entries@ == types@,
            snakes@.len() == types@.len(),
            i <= types@.len(),
            forall|name: Seq<char>|
                views(names@).contains(name) <==> exists|k: int|
                    0 <= k < i && owned_entry(types@, k) && #[trigger] release_name(views(snakes@)[k]) == name,
        decreases types@.len() - i,
    {
        proof {
            assert(views(snakes@)[i as int] == snakes@[i as int]@);
        }
        let ghost before = views(names@);
        if let Type::Resource(resource) = &entries[i].1 {
            if resource.is_owned() {
                let release = resource_release_import_name(snakes[i].as_str());
                names.push(release);
                proof {
                    assert(views(names@) =~= before.push(release_name(views(snakes@)[i as int])));
                    assert forall|name: Seq<char>| views(names@).contains(name) <==> exists|k: int|
                        0 <= k < i + 1 && owned_entry(types@, k) && #[trigger] release_name(views(snakes@)[k]) == name by {
                        if views(names@).contains(name) && !before.contains(name) {
                            assert(release_name(views(snakes@)[i as int]) == name);
                        }
                        if before.contains(name) {
                            assert(views(names@).contains(name)) by {
                                let x = choose|x: int| 0 <= x < before.len() && before[x] == name;
                                assert(views(names@)[x] == name);
                            }
                        }
                        if exists|k: int| 0 <= k < i + 1 && owned_entry(types@, k) && #[trigger] release_name(views(snakes@)[k]) == name {
                            let k = choose|k: int| 0 <= k < i + 1 && owned_entry(types@, k) && #[trigger] release_name(views(snakes@)[k]) == name;
                            if k == i {
                                assert(views(names@)[before.len() as int] == name);
                            }
                        }
                    }
                }
            }
        }
        i = i + 1;
    }
    names
}

/// Whether `name` is reserved for a generated control import.
pub fn is_reserved_name(types: &TypeMap, snakes: &Vec<String>, name: &str) -> (r: bool)
    requires
        snakes@.len() == types@.len(),
    ensures
        r == is_reserved(types@, views(snakes@), name@),
{
    if str_eq(name, "poll_operation") || str_eq(name, "take_operation_result") || str_eq(
        name,
        "yield_operation",
    ) || str_eq(name, "cancel_operation") {
        return true;
    }
    let releases = owned_resource_release_names(types, snakes);
    let mut i: usize = 0;
    while i < releases.len()
        invariant
            i <= releases@.len(),
            forall|k: int| 0 <= k < i ==> views(releases@)[k] != name@,
            forall|n: Seq<char>| views(releases@).contains(n) <==> is_release_name(types@, views(snakes@), n),
        decreases releases@.len() - i,
    {
        if str_eq(releases[i].as_str(), name) {
            proof {
                assert(views(releases@)[i as int] == name@);
                assert(views(releases@).contains(name@));
            }
            return true;
        }
        i = i + 1;
    }
    proof {
        if views(releases@).contains(name@) {
            let x = choose|x: int| 0 <= x < views(releases@).len() && views(releases@)[x] == name@;
            assert(views(releases@)[x] != name@);
        }
    }
    false
}

/// Lowers a return type; `()` lowers to nothing.
pub fn lower_return_type(
    ty: &TypeIdent,
    types: &TypeMap,
    direction: &'static str,
    function: &str,
) -> (r: Result<Option<LoweredType>, WasmtimeCoreWasmError>)
    ensures
        match r {
            Ok(t) => lower_return_spec(Some(*ty), types@, direction@, function@) == Ok::<
                Option<LoweredModel>,
                ErrorModel,
            >(option_view(t)),
            Err(e) => lower_return_spec(Some(*ty), types@, direction@, function@) == Err::<
                Option<LoweredModel>,
                ErrorModel,
            >(e@),
        },
{
    if str_eq(ty.name.as_str(), "()") && !ty.is_array() && ty.generic_args.len() == 0 {
        return Ok(None);
    }
    match lower_value_type(ty, types, direction, function, String::from_str("return")) {
        Ok(t) => Ok(Some(t)),
        Err(e) => Err(e),
    }
}

pub open spec fn lowered_function_view(r: Result<LoweredFunction, WasmtimeCoreWasmError>) -> Result<FunctionModel, ErrorModel> {
    match r {
        Ok(f) => Ok(f@),
        Err(e) => Err(e@),
    }
}

pub open spec fn lowered_functions_view(r: Result<Vec<LoweredFunction>, WasmtimeCoreWasmError>) -> Result<Seq<FunctionModel>, ErrorModel> {
    match r {
        Ok(fs) => Ok(function_views(fs@)),
        Err(e) => Err(e@),
    }
}

fn argument_position_text(name: &str) -> (r: String)
    ensures
        r@ == argument_position(name@),
{
    let mut r = String::from_str("argument `");
    r.append(name);
    r.append("`");
    r
}

/// Lowers one function.
pub fn lower_function(
    function: &Function,
    types: &TypeMap,
    snakes: &Vec<String>,
    direction: &'static str,
    allow_async: bool,
) -> (r: Result<LoweredFunction, WasmtimeCoreWasmError>)
    requires
        snakes@.len() == types@.len(),
    ensures
        lowered_function_view(r) == lower_function_spec(*function, types@, views(snakes@), direction@, allow_async),
{
    if function.is_async && !allow_async {
        return Err(WasmtimeCoreWasmError::AsyncFunction { direction, function: function.name.clone() });
    }
    if is_reserved_name(types, snakes, function.name.as_str()) {
        return Err(
            WasmtimeCoreWasmError::ReservedOperationControl { direction, function: function.name.clone() },
        );
    }
    let mut args: Vec<LoweredArgument> = Vec::new();
    let mut i: usize = 0;
    proof {
        assert(function.args@.take(0) =~= Seq::<FunctionArg>::empty());
        assert(arg_views(args@) =~= Seq::empty());
    }
    while i < function.args.len()
        invariant
            i <= function.args@.len(),
            !(function.is_async && !allow_async),
            !is_reserved(types@, views(snakes@), function.name@),
            lower_args_spec(function.args@.take(i as int), types@, direction@, function.name@) == Ok::<
                Seq<(Seq<char>, LoweredModel)>,
                ErrorModel,
            >(arg_views(args@)),
        decreases function.args@.len() - i,
    {
        proof {
            assert(function.args@.take(i + 1).drop_last() =~= function.args@.take(i as int));
        }
        let argument = &function.args[i];
        let position = argument_position_text(argument.name.as_str());
        match lower_value_type(&argument.ty, types, direction, function.name.as_str(), position) {
            Ok(t) => {
                let ghost before = args@;
                let ghost tv = t@;
                args.push(LoweredArgument { name: argument.name.clone(), ty: t });
                proof {
                    assert(arg_views(args@) =~= arg_views(before).push((argument.name@, tv)));
                }
            },
            Err(e) => {
                proof {
                    assert(function.args@.take(i + 1).last() == function.args@[i as int]);
                    lemma_lower_args_err_extends(function.args@, types@, direction@, function.name@, i as int + 1);
                }
                return Err(e);
            },
        }
        i = i + 1;
    }
    proof {
        assert(function.args@.take(function.args@.len() as int) =~= function.args@);
    }
    let return_type = match &function.return_type {
        None => None,
        Some(ty) => match lower_return_type(ty, types, direction, function.name.as_str()) {
            Ok(t) => t,
            Err(e) => {
                return Err(e);
            },
        },
    };
    Ok(LoweredFunction { name: function.name.clone(), is_async: function.is_async, args, return_type })
}

/// A failure while lowering a prefix of the arguments is the failure of the whole list.
proof fn lemma_lower_args_err_extends(
    args: Seq<FunctionArg>,
    types: Seq<(TypeIdent, Type)>,
    direction: Seq<char>,
    function: Seq<char>,
    k: int,
)
    requires
        0 <= k <= args.len(),
        lower_args_spec(args.take(k), types, direction, function) is Err,
    ensures
        lower_args_spec(args, types, direction, function) == lower_args_spec(args.take(k), types, direction, function),
    decreases args.len() - k,
{
    if k < args.len() {
        assert(args.take(k + 1).drop_last() =~= args.take(k));
        lemma_lower_args_err_extends(args, types, direction, function, k + 1);
    } else {
        assert(args.take(k) =~= args);
    }
}

/// A failure while lowering a prefix of the functions is the failure of the whole list.
pub proof fn lemma_lower_functions_err_extends(
    fs: Seq<Function>,
    types: Seq<(TypeIdent, Type)>,
    snakes: Seq<Seq<char>>,
    direction: Seq<char>,
    allow_async: bool,
    k: int,
)
    requires
        0 <= k <= fs.len(),
        lower_functions_spec(fs.take(k), types, snakes, direction, allow_async) is Err,
    ensures
        lower_functions_spec(fs, types, snakes, direction, allow_async) == lower_functions_spec(
            fs.take(k),
            types,
            snakes,
            direction,
            allow_async,
        ),
    decreases fs.len() - k,
{
    if k < fs.len() {
        assert(fs.take(k + 1).drop_last() =~= fs.take(k));
        lemma_lower_functions_err_extends(fs, types, snakes, direction, allow_async, k + 1);
    } else {
        assert(fs.take(k) =~= fs);
    }
}

/// Lowers every function of `functions`, in name order, stopping at the
/// first failure.
pub fn lower_functions(
    functions: &FunctionList,
    types: &TypeMap,
    snakes: &Vec<String>,
    direction: &'static str,
    allow_async: bool,
) -> (r: Result<Vec<LoweredFunction>, WasmtimeCoreWasmError>)
    requires
        snakes@.len() == types@.len(),
    ensures
        lowered_functions_view(r) == lower_functions_spec(functions@, types@, views(snakes@), direction@, allow_async),
{
    let list = functions.functions();
    let mut lowered: Vec<LoweredFunction> = Vec::new();
    let mut i: usize = 0;
    proof {
        assert(list@.take(0) =~= Seq::<Function>::empty());
        assert(function_views(lowered@) =~= Seq::empty());
    }
    while i < list.len()
        invariant
            list@ == functions@,
            snakes@.len() == types@.len(),
            i <= list@.len(),
            lower_functions_spec(list@.take(i as int), types@, views(snakes@), direction@, allow_async)
                == Ok::<Seq<FunctionModel>, ErrorModel>(function_views(lowered@)),
        decreases list@.len() - i,
    {
        proof {
            assert(list@.take(i + 1).drop_last() =~= list@.take(i as int));
        }
        match lower_function(&list[i], types, snakes, direction, allow_async) {
            Ok(f) => {
                let ghost before = lowered@;
                let ghost fv = f@;
                lowered.push(f);
                proof {
                    assert(function_views(lowered@) =~= function_views(before).push(fv));
                }
            },
            Err(e) => {
                proof {
                    assert(list@.take(i + 1).last() == list@[i as int]);
                    lemma_lower_functions_err_extends(list@, types@, views(snakes@), direction@, allow_async, i as int + 1);
                }
                return Err(e);
            },
        }
        i = i + 1;
    }
    proof {
        assert(list@.take(list@.len() as int) =~= list@);
    }
    Ok(lowered)
}

} // verus!
