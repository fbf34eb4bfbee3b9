//! Function declarations and the name-ordered list that holds them.

use vstd::prelude::*;
use crate::types::TypeIdent;
use crate::text::{seq_lt, str_lt, str_eq, lemma_seq_lt_total, lemma_seq_lt_transitive, lemma_seq_lt_irreflexive};

verus! {

/// A named argument of a declared function.
#[derive(Debug)]
pub struct FunctionArg {
    pub name: String,
    pub ty: TypeIdent,
}

/// A declared function: its name, arguments, optional return type and
/// whether it is `async`.
#[derive(Debug)]
pub struct Function {
    pub name: String,
    pub args: Vec<FunctionArg>,
    pub return_type: Option<TypeIdent>,
    pub is_async: bool,
}

impl FunctionArg {
    pub fn new(name: &str, ty: TypeIdent) -> (r: FunctionArg)
        ensures
            r.name@ == name@,
            r.ty == ty,
    {
        FunctionArg { name: String::from_str(name), ty }
    }
}

impl Function {
    pub fn new(name: &str, args: Vec<FunctionArg>, return_type: Option<TypeIdent>, is_async: bool) -> (r:
        Function)
        ensures
            r.name@ == name@,
            r.args == args,
            r.return_type == return_type,
            r.is_async == is_async,
    {
        Function { name: String::from_str(name), args, return_type, is_async }
    }
}

/// Whether the names in `s` strictly increase.
pub open spec fn names_sorted(s: Seq<Function>) -> bool {
    forall|i: int, j: int| 0 <= i < j < s.len() ==> seq_lt(#[trigger] s[i].name@, #[trigger] s[j].name@)
}

/// Whether some function in `s` is named `name`.
pub open spec fn has_name(s: Seq<Function>, name: Seq<char>) -> bool {
    exists|i: int| 0 <= i < s.len() && #[trigger] s[i].name@ == name
}

/// A set of functions kept in order of their names; a name occurs at most once.
pub struct FunctionList {
    functions: Vec<Function>,
}

impl View for FunctionList {
    type V = Seq<Function>;

    closed spec fn view(&self) -> Seq<Function> {
        self.functions@
    }
}

impl FunctionList {
    #[verifier::type_invariant]
    spec fn sorted(self) -> bool {
        names_sorted(self.functions@)
    }

    pub fn new() -> (r: FunctionList)
        ensures
            r@.len() == 0,
    {
        FunctionList { functions: Vec::new() }
    }

    /// The functions in name order.
    pub fn functions(&self) -> (r: &Vec<Function>)
        ensures
            r@ == self@,
            names_sorted(self@),
    {
        proof {
            use_type_invariant(self);
        }
        &self.functions
    }

    /// Adds `function` unless a function with its name is already present,
    /// in which case the list is left unchanged.
    pub fn add_function(&mut self, function: Function)
        ensures
            names_sorted(final(self)@),
            has_name(old(self)@, function.name@) ==> final(self)@ == old(self)@,
            !has_name(old(self)@, function.name@) ==> exists|i: int|
                0 <= i <= old(self)@.len() && final(self)@ == old(self)@.take(i).push(function)
                    + old(self)@.skip(i),
            !has_name(old(self)@, function.name@) ==> forall|f: Function|
                final(self)@.contains(f) <==> (old(self)@.contains(f) || f == function),
    {
        proof {
            use_type_invariant(&*self);
        }
        let ghost old_functions = self.functions@;
        let mut i: usize = 0;
        while i < self.functions.len()
            invariant
                self.functions@ == old_functions,
                names_sorted(old_functions),
                i <= old_functions.len(),
                forall|k: int| 0 <= k < i ==> seq_lt(#[trigger] old_functions[k].name@, function.name@),
            ensures
                i <= old_functions.len(),
                forall|k: int| 0 <= k < i ==> seq_lt(#[trigger] old_functions[k].name@, function.name@),
                i < old_functions.len() ==> !seq_lt(old_functions[i as int].name@, function.name@),
            decreases old_functions.len() - i,
        {
            if !str_lt(self.functions[i].name.as_str(), function.name.as_str()) {
                break;
            }
            i = i + 1;
        }
        let found = i < self.functions.len() && str_eq(
            self.functions[i].name.as_str(),
            function.name.as_str(),
        );
        if found {
            return ;
        }
        proof {
            assert forall|k: int| i <= k < old_functions.len() implies seq_lt(
                function.name@,
                #[trigger] old_functions[k].name@,
            ) by {
                let first = old_functions[i as int].name@;
                lemma_seq_lt_total(first, function.name@);
                if k > i {
                    lemma_seq_lt_transitive(function.name@, first, old_functions[k].name@);
                }
            }
            assert(!has_name(old_functions, function.name@)) by {
                lemma_seq_lt_irreflexive(function.name@);
                if has_name(old_functions, function.name@) {
                    let k = choose|k: int|
                        0 <= k < old_functions.len() && #[trigger] old_functions[k].name@
                            == function.name@;
                    if k < i {
                        assert(seq_lt(old_functions[k].name@, function.name@));
                    } else {
                        assert(seq_lt(function.name@, old_functions[k].name@));
                    }
                }
            }
        }
        let ghost added = function;
        let mut functions = Vec::new();
        std::mem::swap(&mut functions, &mut self.functions);
        functions.insert(i, function);
        self.functions = functions;
        proof {
            let n = old_functions.take(i as int).push(added) + old_functions.skip(i as int);
            assert(self.functions@ =~= n);
            assert forall|f: Function| self.functions@.contains(f) <==> (old_functions.contains(f) || f
                == added) by {
                if old_functions.contains(f) {
                    let k = choose|k: int| 0 <= k < old_functions.len() && old_functions[k] == f;
                    if k < i {
                        assert(self.functions@[k] == f);
                    } else {
                        assert(self.functions@[k + 1] == f);
                    }
                }
                if f == added {
                    assert(self.functions@[i as int] == f);
                }
                if self.functions@.contains(f) {
                    let m = choose|m: int| 0 <= m < self.functions@.len() && self.functions@[m] == f;
                    if m < i {
                        assert(old_functions[m] == f);
                    } else if m > i {
                        assert(old_functions[m - 1] == f);
                    }
                }
            }
        }
    }
}

/// Two name-ordered lists holding the same functions are the same list: the
/// order in which functions are added never shows in a `FunctionList`, so
/// nothing rendered from it depends on declaration order.
pub proof fn lemma_same_functions_same_order(a: Seq<Function>, b: Seq<Function>)
    requires
        names_sorted(a),
        names_sorted(b),
        forall|f: Function| a.contains(f) <==> b.contains(f),
    ensures
        a == b,
    decreases a.len(),
{
    if a.len() == 0 {
        if b.len() > 0 {
            assert(b.contains(b[0]));
        }
        assert(a =~= b);
    } else {
        assert(a.contains(a[0]));
        assert(b.len() > 0);
        assert(b.contains(b[0]));
        let j = choose|j: int| 0 <= j < b.len() && b[j] == a[0];
        let k = choose|k: int| 0 <= k < a.len() && a[k] == b[0];
        if j > 0 && k > 0 {
            assert(seq_lt(b[0].name@, b[j].name@));
            assert(seq_lt(a[0].name@, a[k].name@));
            lemma_seq_lt_transitive(a[0].name@, b[0].name@, a[0].name@);
            lemma_seq_lt_irreflexive(a[0].name@);
        } else if j > 0 {
            assert(seq_lt(b[0].name@, b[j].name@));
            lemma_seq_lt_irreflexive(a[0].name@);
        } else if k > 0 {
            assert(seq_lt(a[0].name@, a[k].name@));
            lemma_seq_lt_irreflexive(a[0].name@);
        }
        assert(a[0] == b[0]);
        let ta = a.drop_first();
        let tb = b.drop_first();
        assert forall|f: Function| ta.contains(f) <==> tb.contains(f) by {
            if ta.contains(f) {
                let x = choose|x: int| 0 <= x < ta.len() && ta[x] == f;
                assert(a[x + 1] == f);
                assert(seq_lt(a[0].name@, f.name@));
                lemma_seq_lt_irreflexive(f.name@);
                assert(b.contains(f));
                let y = choose|y: int| 0 <= y < b.len() && b[y] == f;
                assert(y != 0);
                assert(tb[y - 1] == f);
            }
            if tb.contains(f) {
                let x = choose|x: int| 0 <= x < tb.len() && tb[x] == f;
                assert(b[x + 1] == f);
                assert(seq_lt(b[0].name@, f.name@));
                lemma_seq_lt_irreflexive(f.name@);
                assert(a.contains(f));
                let y = choose|y: int| 0 <= y < a.len() && a[y] == f;
                assert(y != 0);
                assert(ta[y - 1] == f);
            }
        }
        lemma_same_functions_same_order(ta, tb);
        assert(a =~= seq![a[0]] + ta);
        assert(b =~= seq![b[0]] + tb);
    }
}

} // verus!
