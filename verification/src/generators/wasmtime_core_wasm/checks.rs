//! Whole-declaration checks: type definitions, release-name collisions and
//! owned resources crossing into exports.

use vstd::prelude::*;
use crate::primitives::primitive_named;
use crate::types::{TypeIdent, Type, TypeMap, Resource, ident_text, ident_same, type_text};
use crate::text::{str_eq, views};
use super::lowering::{
    WasmtimeCoreWasmError, ErrorModel, LoweredModel, LoweredFunction, FunctionModel, release_name,
    owned_entry, entry_resource, is_owned_resource, semantic_of, function_views, resource_release_import_name,
};

verus! {

/// Whether a name is written as a raw identifier (`r#...`).
pub open spec fn is_raw_name(name: Seq<char>) -> bool {
    name.len() >= 2 && name[0] == 'r' && name[1] == '#'
}

/// Whether a resource declaration cannot be used as a generated type name:
/// an array, a generic, a primitive spelling, a raw identifier, or a name
/// syn does not parse as a plain identifier (`plain_ident`).
pub open spec fn invalid_resource_name(r: Resource, plain_ident: bool) -> bool {
    r.ident.array is Some || r.ident.generic_args@.len() > 0 || primitive_named(r.ident.name@) is Some
        || is_raw_name(r.ident.name@) || !plain_ident
}

/// The failure of one type definition, if any: primitives and `()` are
/// accepted, a resource only under its own identifier and with a valid name,
/// anything else is refused.
pub open spec fn entry_error(key: TypeIdent, ty: Type, plain_ident: bool) -> Option<ErrorModel> {
    match ty {
        Type::Primitive(_) => None,
        Type::Unit => None,
        Type::Resource(r) => if ident_same(r.ident, key) {
            if invalid_resource_name(r, plain_ident) {
                Some(ErrorModel::InvalidResourceName { name: ident_text(r.ident) })
            } else {
                None
            }
        } else {
            Some(ErrorModel::UnsupportedTypeDefinition { name: ident_text(key), ty: type_text(ty) })
        },
        _ => Some(ErrorModel::UnsupportedTypeDefinition { name: ident_text(key), ty: type_text(ty) }),
    }
}

/// The first failing type definition in key order; `plain[i]` tells whether
/// the name of the resource in entry `i` parses as a plain identifier.
pub open spec fn definitions_error(types: Seq<(TypeIdent, Type)>, plain: Seq<bool>) -> Option<ErrorModel>
    decreases types.len(),
{
    if types.len() == 0 {
        None
    } else {
        match definitions_error(types.drop_last(), plain) {
            Some(e) => Some(e),
            None => entry_error(types.last().0, types.last().1, plain[types.len() - 1]),
        }
    }
}

/// The first owned resource among the first `j` entries whose release name is `release`.
pub open spec fn first_owned_with_release(
    types: Seq<(TypeIdent, Type)>,
    snakes: Seq<Seq<char>>,
    release: Seq<char>,
    j: int,
) -> Option<int>
    decreases j,
{
    if j <= 0 {
        None
    } else {
        match first_owned_with_release(types, snakes, release, j - 1) {
            Some(k) => Some(k),
            None => if owned_entry(types, j - 1) && release_name(snakes[j - 1]) == release {
                Some(j - 1)
            } else {
                None
            },
        }
    }
}

/// The first collision of release names among the owned resources of the
/// first `n` entries: a later resource whose release name an earlier one
/// already takes.
pub open spec fn collision_error_upto(types: Seq<(TypeIdent, Type)>, snakes: Seq<Seq<char>>, n: int) -> Option<ErrorModel>
    decreases n,
{
    if n <= 0 {
        None
    } else {
        match collision_error_upto(types, snakes, n - 1) {
            Some(e) => Some(e),
            None => {
                let release = release_name(snakes[n - 1]);
                if owned_entry(types, n - 1) {
                    match first_owned_with_release(types, snakes, release, n - 1) {
                        Some(k) => Some(
                            ErrorModel::ResourceReleaseNameCollision {
                                release,
                                first_resource: ident_text(entry_resource(types, k).ident),
                                second_resource: ident_text(entry_resource(types, n - 1).ident),
                            },
                        ),
                        None => None,
                    }
                } else {
                    None
                }
            },
        }
    }
}

pub open spec fn collision_error(types: Seq<(TypeIdent, Type)>, snakes: Seq<Seq<char>>) -> Option<ErrorModel> {
    collision_error_upto(types, snakes, types.len() as int)
}

/// The first owned resource among `ts`, in order.
pub open spec fn first_owned(ts: Seq<LoweredModel>) -> Option<LoweredModel>
    decreases ts.len(),
{
    if ts.len() == 0 {
        None
    } else {
        match first_owned(ts.drop_last()) {
            Some(t) => Some(t),
            None => if is_owned_resource(ts.last()) {
                Some(ts.last())
            } else {
                None
            },
        }
    }
}

/// The value types of a lowered function: its arguments, then its result.
pub open spec fn value_types(f: FunctionModel) -> Seq<LoweredModel> {
    f.args.map_values(|a: (Seq<char>, LoweredModel)| a.1) + match f.ret {
        Some(t) => seq![t],
        None => Seq::empty(),
    }
}

/// The first export (in order) that passes an owned resource, reported with
/// its first owned value type.
pub open spec fn owned_export_error(fs: Seq<FunctionModel>) -> Option<ErrorModel>
    decreases fs.len(),
{
    if fs.len() == 0 {
        None
    } else {
        match owned_export_error(fs.drop_last()) {
            Some(e) => Some(e),
            None => match first_owned(value_types(fs.last())) {
                Some(t) => Some(ErrorModel::OwnedResourceExport { function: fs.last().name, resource: semantic_of(t) }),
                None => None,
            },
        }
    }
}

pub open spec fn option_error_view(r: Result<(), WasmtimeCoreWasmError>) -> Option<ErrorModel> {
    match r {
        Ok(_) => None,
        Err(e) => Some(e@),
    }
}

fn is_raw_identifier(name: &str) -> (r: bool)
    ensures
        r == is_raw_name(name@),
{
    name.unicode_len() >= 2 && name.get_char(0) == 'r' && name.get_char(1) == '#'
}

/// Checks every type definition in key order.
pub fn validate_type_definitions(types: &TypeMap, plain: &Vec<bool>) -> (r: Result<(), WasmtimeCoreWasmError>)
    requires
        plain@.len() == types@.len(),
    ensures
        option_error_view(r) == definitions_error(types@, plain@),
{
    let entries = types.entries();
    let mut i: usize = 0;
    while i < entries.len()
        invariant
            entries@ == types@,
            plain@.len() == types@.len(),
            i <= types@.len(),
            definitions_error(types@.take(i as int), plain@) is None,
        decreases types@.len() - i,
    {
        proof {
            assert(types@.take(i + 1).drop_last() =~= types@.take(i as int));
        }
        let (ident, ty) = &entries[i];
        let failure = match ty {
            Type::Primitive(_) => None,
            Type::Unit => None,
            Type::Resource(resource) => {
                if resource.ident.same_as(ident) {
                    if resource.ident.is_array() || resource.ident.generic_args.len() > 0
                        || resource.ident.as_primitive().is_some() || is_raw_identifier(
                        resource.ident.name.as_str(),
                    ) || !plain[i] {
                        Some(WasmtimeCoreWasmError::InvalidResourceName { name: resource.ident.to_text() })
                    } else {
                        None
                    }
                } else {
                    Some(
                        WasmtimeCoreWasmError::UnsupportedTypeDefinition {
                            name: ident.to_text(),
                            ty: ty.name(),
                        },
                    )
                }
            },
            _ => Some(WasmtimeCoreWasmError::UnsupportedTypeDefinition { name: ident.to_text(), ty: ty.name() }),
        };
        match failure {
            Some(e) => {
                proof {
                    assert(types@.take(i + 1).last() == types@[i as int]);
                    lemma_definitions_error_extends(types@, plain@, i as int + 1);
                }
                return Err(e);
            },
            None => {},
        }
        i = i + 1;
    }
    proof {
        assert(types@.take(types@.len() as int) =~= types@);
    }
    Ok(())
}

proof fn lemma_definitions_error_extends(types: Seq<(TypeIdent, Type)>, plain: Seq<bool>, k: int)
    requires
        0 <= k <= types.len(),
        definitions_error(types.take(k), plain) is Some,
    ensures
        definitions_error(types, plain) == definitions_error(types.take(k), plain),
    decreases types.len() - k,
{
    if k < types.len() {
        assert(types.take(k + 1).drop_last() =~= types.take(k));
        lemma_definitions_error_extends(types, plain, k + 1);
    } else {
        assert(types.take(k) =~= types);
    }
}


/// The first owned resource before entry `j` whose release import is `release`.
fn find_earlier_release(types: &TypeMap, snakes: &Vec<String>, release: &str, j: usize) -> (r: Option<usize>)
    requires
        snakes@.len() == types@.len(),
        j <= types@.len(),
    ensures
        match r {
            Some(k) => first_owned_with_release(types@, views(snakes@), release@, j as int) == Some(k as int) && k < j,
            None => first_owned_with_release(types@, views(snakes@), release@, j as int) is None,
        },
{
    let entries = types.entries();
    let mut k: usize = 0;
    while k < j
        invariant
            entries@ == types@,
            snakes@.len() == types@.len(),
            k <= j <= types@.len(),
            first_owned_with_release(types@, views(snakes@), release@, k as int) is None,
        decreases j - k,
    {
        if let Type::Resource(resource) = &entries[k].1 {
            if resource.is_owned() {
                let candidate = resource_release_import_name(snakes[k].as_str());
                if str_eq(candidate.as_str(), release) {
                    proof {
                        assert(views(snakes@)[k as int] == snakes@[k as int]@);
                        lemma_first_owned_stable(types@, views(snakes@), release@, k as int + 1, j as int);
                    }
                    return Some(k);
                }
            }
        }
        proof {
            assert(views(snakes@)[k as int] == snakes@[k as int]@);
        }
        k = k + 1;
    }
    None
}

proof fn lemma_first_owned_found(types: Seq<(TypeIdent, Type)>, snakes: Seq<Seq<char>>, release: Seq<char>, j: int)
    ensures
        first_owned_with_release(types, snakes, release, j) matches Some(k) ==> 0 <= k < j && owned_entry(types, k)
            && release_name(snakes[k]) == release,
    decreases j,
{
    if j > 0 {
        lemma_first_owned_found(types, snakes, release, j - 1);
    }
}

proof fn lemma_first_owned_stable(types: Seq<(TypeIdent, Type)>, snakes: Seq<Seq<char>>, release: Seq<char>, k: int, j: int)
    requires
        0 < k <= j,
        first_owned_with_release(types, snakes, release, k) is Some,
    ensures
        first_owned_with_release(types, snakes, release, j) == first_owned_with_release(types, snakes, release, k),
    decreases j - k,
{
    if k < j {
        lemma_first_owned_stable(types, snakes, release, k, j - 1);
    }
}

proof fn lemma_collision_stable(types: Seq<(TypeIdent, Type)>, snakes: Seq<Seq<char>>, k: int, n: int)
    requires
        0 <= k <= n,
        collision_error_upto(types, snakes, k) is Some,
    ensures
        collision_error_upto(types, snakes, n) == collision_error_upto(types, snakes, k),
    decreases n - k,
{
    if k < n {
        lemma_collision_stable(types, snakes, k, n - 1);
    }
}

/// Checks that no two owned resources share a release import name.
pub fn validate_owned_resource_release_names(types: &TypeMap, snakes: &Vec<String>) -> (r: Result<(), WasmtimeCoreWasmError>)
    requires
        snakes@.len() == types@.len(),
    ensures
        option_error_view(r) == collision_error(types@, views(snakes@)),
{
    let entries = types.entries();
    let mut j: usize = 0;
    while j < entries.len()
        invariant
            entries@ == types@,
            snakes@.len() == types@.len(),
            j <= types@.len(),
            collision_error_upto(types@, views(snakes@), j as int) is None,
        decreases types@.len() - j,
    {
        if let Type::Resource(resource) = &entries[j].1 {
            if resource.is_owned() {
                let release = resource_release_import_name(snakes[j].as_str());
                proof {
                    assert(views(snakes@)[j as int] == snakes@[j as int]@);
                }
                match find_earlier_release(types, snakes, release.as_str(), j) {
                    Some(k) => {
                        let first = match &entries[k].1 {
                            Type::Resource(earlier) => earlier.ident.to_text(),
                            _ => String::new(),
                        };
                        proof {
                            lemma_first_owned_found(types@, views(snakes@), release@, j as int);
                            assert(owned_entry(types@, k as int));
                            lemma_collision_stable(types@, views(snakes@), j as int + 1, types@.len() as int);
                        }
                        return Err(
                            WasmtimeCoreWasmError::ResourceReleaseNameCollision {
                                release,
                                first_resource: first,
                                second_resource: resource.ident.to_text(),
                            },
                        );
                    },
                    None => {},
                }
            }
        }
        j = j + 1;
    }
    Ok(())
}

/// The first owned resource among the lowered types of `function`.
fn first_owned_type(function: &LoweredFunction) -> (r: Option<String>)
    ensures
        match r {
            Some(name) => first_owned(value_types(function@)) matches Some(t) && name@ == semantic_of(t),
            None => first_owned(value_types(function@)) is None,
        },
{
    let ghost ts = value_types(function@);
    let ghost argtys = function@.args.map_values(|a: (Seq<char>, LoweredModel)| a.1);
    let mut i: usize = 0;
    while i < function.args.len()
        invariant
            i <= function.args@.len(),
            ts == value_types(function@),
            argtys == function@.args.map_values(|a: (Seq<char>, LoweredModel)| a.1),
            first_owned(ts.take(i as int)) is None,
        decreases function.args@.len() - i,
    {
        proof {
            assert(ts.take(i + 1).drop_last() =~= ts.take(i as int));
            assert(ts[i as int] == function.args@[i as int].ty@);
        }
        if function.args[i].ty.is_owned_resource() {
            proof {
                lemma_first_owned_extends(ts, i as int + 1);
            }
            return Some(function.args[i].ty.semantic());
        }
        i = i + 1;
    }
    match &function.return_type {
        Some(t) => {
            proof {
                assert(ts.take(ts.len() - 1) =~= ts.drop_last());
                assert(ts.take(ts.len() as int) =~= ts);
                assert(ts.last() == t@);
            }
            if t.is_owned_resource() {
                Some(t.semantic())
            } else {
                None
            }
        },
        None => {
            proof {
                assert(ts.take(ts.len() as int) =~= ts);
            }
            None
        },
    }
}

proof fn lemma_first_owned_extends(ts: Seq<LoweredModel>, k: int)
    requires
        0 <= k <= ts.len(),
        first_owned(ts.take(k)) is Some,
    ensures
        first_owned(ts) == first_owned(ts.take(k)),
    decreases ts.len() - k,
{
    if k < ts.len() {
        assert(ts.take(k + 1).drop_last() =~= ts.take(k));
        lemma_first_owned_extends(ts, k + 1);
    } else {
        assert(ts.take(k) =~= ts);
    }
}

proof fn lemma_owned_export_extends(fs: Seq<FunctionModel>, k: int)
    requires
        0 <= k <= fs.len(),
        owned_export_error(fs.take(k)) is Some,
    ensures
        owned_export_error(fs) == owned_export_error(fs.take(k)),
    decreases fs.len() - k,
{
    if k < fs.len() {
        assert(fs.take(k + 1).drop_last() =~= fs.take(k));
        lemma_owned_export_extends(fs, k + 1);
    } else {
        assert(fs.take(k) =~= fs);
    }
}

/// Refuses exports that would pass an owned resource to or from the guest.
pub fn check_owned_exports(exports: &Vec<LoweredFunction>) -> (r: Result<(), WasmtimeCoreWasmError>)
    ensures
        option_error_view(r) == owned_export_error(function_views(exports@)),
{
    let ghost fs = function_views(exports@);
    let mut i: usize = 0;
    while i < exports.len()
        invariant
            i <= exports@.len(),
            fs == function_views(exports@),
            owned_export_error(fs.take(i as int)) is None,
        decreases exports@.len() - i,
    {
        proof {
            assert(fs.take(i + 1).drop_last() =~= fs.take(i as int));
        }
        match first_owned_type(&exports[i]) {
            Some(resource) => {
                proof {
                    assert(fs.take(i + 1).last() == exports@[i as int]@);
                    lemma_owned_export_extends(fs, i as int + 1);
                }
                return Err(WasmtimeCoreWasmError::OwnedResourceExport { function: exports[i].name.clone(), resource });
            },
            None => {},
        }
        i = i + 1;
    }
    proof {
        assert(fs.take(fs.len() as int) =~= fs);
    }
    Ok(())
}

} // verus!
