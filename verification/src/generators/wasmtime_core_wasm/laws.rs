//! What every successful rendering guarantees of its declarations, and the
//! independence of the rendered files from declaration order.

use vstd::prelude::*;
use crate::types::{TypeIdent, Type};
use crate::functions::{Function, names_sorted, lemma_same_functions_same_order};
use super::lowering::{
    FunctionModel, lower_functions_spec, lower_function_spec, is_reserved, owned_entry, release_name,
    is_owned_resource,
};
use super::checks::{
    definitions_error, entry_error, collision_error_upto, first_owned_with_release,
    owned_export_error, first_owned, value_types,
};
use super::bindings_spec;

verus! {

/// A successful lowering lowers every function, in order, under its own name.
pub proof fn lemma_lowering_succeeds_pointwise(
    fs: Seq<Function>,
    types: Seq<(TypeIdent, Type)>,
    snakes: Seq<Seq<char>>,
    direction: Seq<char>,
    allow_async: bool,
)
    requires
        lower_functions_spec(fs, types, snakes, direction, allow_async) is Ok,
    ensures
        ({
            let ls = lower_functions_spec(fs, types, snakes, direction, allow_async)->Ok_0;
            &&& ls.len() == fs.len()
            &&& forall|i: int|
                0 <= i < fs.len() ==> lower_function_spec(#[trigger] fs[i], types, snakes, direction, allow_async)
                    == Ok::<FunctionModel, super::lowering::ErrorModel>(ls[i])
        }),
    decreases fs.len(),
{
    if fs.len() > 0 {
        lemma_lowering_succeeds_pointwise(fs.drop_last(), types, snakes, direction, allow_async);
        let ls = lower_functions_spec(fs, types, snakes, direction, allow_async)->Ok_0;
        assert forall|i: int|
            0 <= i < fs.len() implies lower_function_spec(#[trigger] fs[i], types, snakes, direction, allow_async)
            == Ok::<FunctionModel, super::lowering::ErrorModel>(ls[i]) by {
            if i < fs.len() - 1 {
                assert(fs.drop_last()[i] == fs[i]);
            }
        }
    }
}

/// Every function that lowers successfully is allowed in its direction and
/// does not take a name reserved for a generated control.
pub proof fn lemma_lowered_function_is_admitted(
    f: Function,
    types: Seq<(TypeIdent, Type)>,
    snakes: Seq<Seq<char>>,
    direction: Seq<char>,
    allow_async: bool,
)
    requires
        lower_function_spec(f, types, snakes, direction, allow_async) is Ok,
    ensures
        allow_async || !f.is_async,
        !is_reserved(types, snakes, f.name@),
        lower_function_spec(f, types, snakes, direction, allow_async)->Ok_0.name == f.name@,
        lower_function_spec(f, types, snakes, direction, allow_async)->Ok_0.is_async == f.is_async,
{
}

proof fn lemma_definitions_pointwise(types: Seq<(TypeIdent, Type)>, plain: Seq<bool>)
    requires
        definitions_error(types, plain) is None,
    ensures
        forall|i: int| 0 <= i < types.len() ==> entry_error(#[trigger] types[i].0, types[i].1, plain[i]) is None,
    decreases types.len(),
{
    if types.len() > 0 {
        lemma_definitions_pointwise(types.drop_last(), plain);
        assert forall|i: int| 0 <= i < types.len() implies entry_error(#[trigger] types[i].0, types[i].1, plain[i]) is None by {
            if i < types.len() - 1 {
                assert(types.drop_last()[i] == types[i]);
            }
        }
    }
}

proof fn lemma_no_earlier_release(types: Seq<(TypeIdent, Type)>, snakes: Seq<Seq<char>>, release: Seq<char>, j: int)
    requires
        first_owned_with_release(types, snakes, release, j) is None,
    ensures
        forall|k: int| 0 <= k < j && owned_entry(types, k) ==> release_name(#[trigger] snakes[k]) != release,
    decreases j,
{
    if j > 0 {
        lemma_no_earlier_release(types, snakes, release, j - 1);
    }
}

proof fn lemma_releases_distinct(types: Seq<(TypeIdent, Type)>, snakes: Seq<Seq<char>>, n: int)
    requires
        n <= types.len(),
        collision_error_upto(types, snakes, n) is None,
    ensures
        forall|i: int, j: int|
            0 <= i < j < n && owned_entry(types, i) && owned_entry(types, j) ==> release_name(#[trigger] snakes[i])
                != release_name(#[trigger] snakes[j]),
    decreases n,
{
    if n > 0 {
        lemma_releases_distinct(types, snakes, n - 1);
        if owned_entry(types, n - 1) {
            lemma_no_earlier_release(types, snakes, release_name(snakes[n - 1]), n - 1);
        }
    }
}

proof fn lemma_no_owned(ts: Seq<super::lowering::LoweredModel>)
    requires
        first_owned(ts) is None,
    ensures
        forall|i: int| 0 <= i < ts.len() ==> !is_owned_resource(#[trigger] ts[i]),
    decreases ts.len(),
{
    if ts.len() > 0 {
        lemma_no_owned(ts.drop_last());
        assert forall|i: int| 0 <= i < ts.len() implies !is_owned_resource(#[trigger] ts[i]) by {
            if i < ts.len() - 1 {
                assert(ts.drop_last()[i] == ts[i]);
            }
        }
    }
}

proof fn lemma_exports_hold_no_owned(fs: Seq<FunctionModel>)
    requires
        owned_export_error(fs) is None,
    ensures
        forall|k: int, i: int|
            0 <= k < fs.len() && 0 <= i < value_types(fs[k]).len() ==> !is_owned_resource(
                #[trigger] value_types(fs[k])[i],
            ),
    decreases fs.len(),
{
    if fs.len() > 0 {
        lemma_exports_hold_no_owned(fs.drop_last());
        lemma_no_owned(value_types(fs.last()));
        assert forall|k: int, i: int|
            0 <= k < fs.len() && 0 <= i < value_types(fs[k]).len() implies !is_owned_resource(
                #[trigger] value_types(fs[k])[i],
            ) by {
            if k < fs.len() - 1 {
                assert(fs.drop_last()[k] == fs[k]);
            }
        }
    }
}

/// Whatever renders has passed every check: imports and exports lower
/// one-to-one, no export is async, no function takes a control name, every
/// type definition is accepted, owned resources have distinct release
/// imports, and no export passes an owned resource in either direction.
pub proof fn lemma_rendered_declarations_are_admissible(
    imports: Seq<Function>,
    exports: Seq<Function>,
    types: Seq<(TypeIdent, Type)>,
    snakes: Seq<Seq<char>>,
    plain: Seq<bool>,
)
    requires
        bindings_spec(imports, exports, types, snakes, plain) is Ok,
    ensures
        lower_functions_spec(imports, types, snakes, "import"@, true) is Ok,
        lower_functions_spec(exports, types, snakes, "export"@, false) is Ok,
        forall|i: int| 0 <= i < exports.len() ==> !(#[trigger] exports[i]).is_async,
        forall|i: int| 0 <= i < imports.len() ==> !is_reserved(types, snakes, (#[trigger] imports[i]).name@),
        forall|i: int| 0 <= i < exports.len() ==> !is_reserved(types, snakes, (#[trigger] exports[i]).name@),
        forall|i: int| 0 <= i < types.len() ==> entry_error(#[trigger] types[i].0, types[i].1, plain[i]) is None,
        forall|i: int, j: int|
            0 <= i < j < types.len() && owned_entry(types, i) && owned_entry(types, j) ==> release_name(
                #[trigger] snakes[i],
            ) != release_name(#[trigger] snakes[j]),
        ({
            let le = lower_functions_spec(exports, types, snakes, "export"@, false)->Ok_0;
            forall|k: int, i: int|
                0 <= k < le.len() && 0 <= i < value_types(le[k]).len() ==> !is_owned_resource(
                    #[trigger] value_types(le[k])[i],
                )
        }),
{
    lemma_lowering_succeeds_pointwise(imports, types, snakes, "import"@, true);
    lemma_lowering_succeeds_pointwise(exports, types, snakes, "export"@, false);
    assert forall|i: int| 0 <= i < exports.len() implies !(#[trigger] exports[i]).is_async by {
        lemma_lowered_function_is_admitted(exports[i], types, snakes, "export"@, false);
    }
    assert forall|i: int| 0 <= i < imports.len() implies !is_reserved(types, snakes, (#[trigger] imports[i]).name@) by {
        lemma_lowered_function_is_admitted(imports[i], types, snakes, "import"@, true);
    }
    assert forall|i: int| 0 <= i < exports.len() implies !is_reserved(types, snakes, (#[trigger] exports[i]).name@) by {
        lemma_lowered_function_is_admitted(exports[i], types, snakes, "export"@, false);
    }
    lemma_definitions_pointwise(types, plain);
    lemma_releases_distinct(types, snakes, types.len() as int);
    let le = lower_functions_spec(exports, types, snakes, "export"@, false)->Ok_0;
    lemma_exports_hold_no_owned(le);
}

/// Declaration order never shows in the output: import and export lists
/// holding the same functions render the same files (or fail the same way).
pub proof fn lemma_rendering_ignores_declaration_order(
    imports_a: Seq<Function>,
    imports_b: Seq<Function>,
    exports_a: Seq<Function>,
    exports_b: Seq<Function>,
    types: Seq<(TypeIdent, Type)>,
    snakes: Seq<Seq<char>>,
    plain: Seq<bool>,
)
    requires
        names_sorted(imports_a),
        names_sorted(imports_b),
        names_sorted(exports_a),
        names_sorted(exports_b),
        forall|f: Function| imports_a.contains(f) <==> imports_b.contains(f),
        forall|f: Function| exports_a.contains(f) <==> exports_b.contains(f),
    ensures
        bindings_spec(imports_a, exports_a, types, snakes, plain) == bindings_spec(
            imports_b,
            exports_b,
            types,
            snakes,
            plain,
        ),
{
    lemma_same_functions_same_order(imports_a, imports_b);
    lemma_same_functions_same_order(exports_a, exports_b);
}

} // verus!
