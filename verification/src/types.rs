//! Type identifiers, type declarations and the map of declared types.

use vstd::prelude::*;
use crate::primitives::{Primitive, primitive_name, primitive_named};
use crate::text::{decimal, decimal_string, seq_lt, str_lt, str_eq, seq_join, views, join, lemma_seq_lt_total, lemma_seq_lt_transitive, lemma_seq_lt_irreflexive};

verus! {

/// The name of a type as written in a declaration: a name, its generic
/// arguments, and the length when the type is an array of `name`.
#[derive(Debug)]
pub struct TypeIdent {
    pub name: String,
    pub generic_args: Vec<TypeIdent>,
    pub array: Option<usize>,
}

/// The text of a type identifier: `[name; len]` for an array, otherwise the
/// name followed by its generic arguments in angle brackets.
pub open spec fn ident_text(t: TypeIdent) -> Seq<char>
    decreases t,
{
    match t.array {
        Some(len) => "["@ + t.name@ + "; "@ + decimal(len as nat) + "]"@,
        None => if t.generic_args@.len() == 0 {
            t.name@
        } else {
            t.name@ + "<"@ + args_text(t.generic_args@) + ">"@
        },
    }
}

/// The texts of `args` joined with `", "`.
pub open spec fn args_text(args: Seq<TypeIdent>) -> Seq<char>
    decreases args,
{
    if args.len() == 0 {
        Seq::empty()
    } else if args.len() == 1 {
        ident_text(args[0])
    } else {
        args_text(args.drop_last()) + ", "@ + ident_text(args.last())
    }
}

/// The primitive a type identifier names, if any.
pub open spec fn ident_primitive(t: TypeIdent) -> Option<Primitive> {
    primitive_named(t.name@)
}

impl TypeIdent {
    /// A plain identifier without generic arguments.
    pub fn from(name: &str) -> (r: TypeIdent)
        ensures
            r.name@ == name@,
            r.generic_args@.len() == 0,
            r.array is None,
    {
        TypeIdent { name: String::from_str(name), generic_args: Vec::new(), array: None }
    }

    /// An identifier with generic arguments, such as `Vec<u8>`.
    pub fn with_args(name: &str, generic_args: Vec<TypeIdent>) -> (r: TypeIdent)
        ensures
            r.name@ == name@,
            r.generic_args@ == generic_args@,
            r.array is None,
    {
        TypeIdent { name: String::from_str(name), generic_args, array: None }
    }

    /// An array of `len` items of `name`, such as `[u8; 4]`.
    pub fn array_of(name: &str, len: usize) -> (r: TypeIdent)
        ensures
            r.name@ == name@,
            r.generic_args@.len() == 0,
            r.array == Some(len),
    {
        TypeIdent { name: String::from_str(name), generic_args: Vec::new(), array: Some(len) }
    }

    pub fn is_array(&self) -> (r: bool)
        ensures
            r == self.array is Some,
    {
        self.array.is_some()
    }

    pub fn as_primitive(&self) -> (r: Option<Primitive>)
        ensures
            r == ident_primitive(*self),
    {
        Primitive::from_name(self.name.as_str())
    }

    /// The text of this identifier, as its `Display` writes it.
    pub fn to_text(&self) -> (r: String)
        ensures
            r@ == ident_text(*self),
        decreases self,
    {
        match self.array {
            Some(len) => {
                let mut r = String::from_str("[");
                r.append(self.name.as_str());
                r.append("; ");
                let digits = decimal_string(len);
                r.append(digits.as_str());
                r.append("]");
                r
            },
            None => {
                let mut r = self.name.clone();
                if self.generic_args.len() > 0 {
                    r.append("<");
                    let inner = Self::list_text(&self.generic_args);
                    r.append(inner.as_str());
                    r.append(">");
                }
                r
            },
        }
    }

    /// The texts of `args` joined with `", "`.
    pub fn list_text(args: &Vec<TypeIdent>) -> (r: String)
        ensures
            r@ == args_text(args@),
        decreases args,
    {
        let mut r = String::new();
        let mut i: usize = 0;
        while i < args.len()
            invariant
                i <= args@.len(),
                r@ == args_text(args@.take(i as int)),
            decreases args@.len() - i,
        {
            proof {
                assert(args@.take(i + 1).drop_last() =~= args@.take(i as int));
            }
            if i > 0 {
                r.append(", ");
            }
            let item = args[i].to_text();
            r.append(item.as_str());
            i = i + 1;
        }
        proof {
            assert(args@.take(args@.len() as int) =~= args@);
        }
        r
    }
}


/// Structural equality of type identifiers: same name, same generic
/// arguments and same array length.
pub open spec fn ident_same(a: TypeIdent, b: TypeIdent) -> bool
    decreases a,
{
    &&& a.name@ == b.name@
    &&& a.array == b.array
    &&& args_same(a.generic_args@, b.generic_args@)
}

/// Pointwise structural equality of two argument lists.
pub open spec fn args_same(a: Seq<TypeIdent>, b: Seq<TypeIdent>) -> bool
    decreases a,
{
    if a.len() != b.len() {
        false
    } else if a.len() == 0 {
        true
    } else {
        args_same(a.drop_last(), b.drop_last()) && ident_same(a.last(), b.last())
    }
}

impl TypeIdent {
    /// Structural equality, as the derived `==` of the identifier compares.
    pub fn same_as(&self, other: &TypeIdent) -> (r: bool)
        ensures
            r == ident_same(*self, *other),
        decreases self,
    {
        if !crate::text::str_eq(self.name.as_str(), other.name.as_str()) {
            return false;
        }
        let same_len = match (self.array, other.array) {
            (Some(a), Some(b)) => a == b,
            (None, None) => true,
            _ => false,
        };
        if !same_len {
            return false;
        }
        Self::list_same(&self.generic_args, &other.generic_args)
    }

    fn list_same(a: &Vec<TypeIdent>, b: &Vec<TypeIdent>) -> (r: bool)
        ensures
            r == args_same(a@, b@),
        decreases a,
    {
        if a.len() != b.len() {
            return false;
        }
        let mut i: usize = 0;
        while i < a.len()
            invariant
                i <= a@.len(),
                a@.len() == b@.len(),
                args_same(a@.take(i as int), b@.take(i as int)),
            decreases a@.len() - i,
        {
            proof {
                assert(a@.take(i + 1).drop_last() =~= a@.take(i as int));
                assert(b@.take(i + 1).drop_last() =~= b@.take(i as int));
            }
            if !a[i].same_as(&b[i]) {
                proof {
                    if args_same(a@, b@) {
                        assert(a@.take(a@.len() as int) =~= a@);
                        assert(b@.take(b@.len() as int) =~= b@);
                        lemma_args_same_prefix(a@, b@, i as int + 1, a@.len() as int);
                    }
                }
                return false;
            }
            i = i + 1;
        }
        proof {
            assert(a@.take(a@.len() as int) =~= a@);
            assert(b@.take(b@.len() as int) =~= b@);
        }
        true
    }
}

/// Pointwise equality of two lists implies it of their prefixes.
proof fn lemma_args_same_prefix(a: Seq<TypeIdent>, b: Seq<TypeIdent>, k: int, n: int)
    requires
        0 <= k <= n <= a.len(),
        a.len() == b.len(),
        args_same(a.take(n), b.take(n)),
    ensures
        args_same(a.take(k), b.take(k)),
    decreases n - k,
{
    if k < n {
        assert(a.take(n).drop_last() =~= a.take(n - 1));
        assert(b.take(n).drop_last() =~= b.take(n - 1));
        lemma_args_same_prefix(a, b, k, n - 1);
    }
}

/// A nominal opaque capability handle owned by the host runtime.
///
/// A resource is not a serializable value. Backends must lower it through a
/// versioned handle ABI and preserve its host-owned lifecycle.
#[derive(Debug)]
pub struct Resource {
    pub ident: TypeIdent,
    /// Whether this declaration transfers an owned, host-issued capability
    /// into guest code. The Core Wasm backend gives these handles a release
    /// control and never treats their integer representation as a value.
    pub ownership: ResourceOwnership,
}

/// The ownership contract of an opaque host resource.
///
/// `Transport` preserves the nominal-handle lowering for protocols which
/// already own their lifecycle. `Owned` asks a backend to generate an explicit
/// release path; it must not be lowered by value generators. `Stream` is an
/// owned handle whose manifest records the stream policy.
#[derive(Clone, Copy, Debug, PartialEq, Eq, Structural)]
pub enum ResourceOwnership {
    Transport,
    Owned,
    Stream,
}

/// Whether a resource hands an owned capability to the guest.
pub open spec fn resource_owned(r: Resource) -> bool {
    r.ownership == ResourceOwnership::Owned || r.ownership == ResourceOwnership::Stream
}

impl Resource {
    /// A transport resource named `name`.
    pub fn new(name: &str) -> (r: Resource)
        ensures
            r.ident.name@ == name@,
            r.ident.generic_args@.len() == 0,
            r.ident.array is None,
            r.ownership == ResourceOwnership::Transport,
    {
        Resource { ident: TypeIdent::from(name), ownership: ResourceOwnership::Transport }
    }

    /// Declares a host-owned capability whose generated guest handle releases
    /// itself exactly once, either explicitly or on normal Rust drop.
    ///
    /// Store/trap teardown and generation validation remain host policy: the
    /// generated release import delegates atomically to the consuming host's
    /// canonical resource registry.
    pub fn owned(name: &str) -> (r: Resource)
        ensures
            r.ident.name@ == name@,
            r.ident.generic_args@.len() == 0,
            r.ident.array is None,
            r.ownership == ResourceOwnership::Owned,
    {
        Resource { ident: TypeIdent::from(name), ownership: ResourceOwnership::Owned }
    }

    /// Declares an owned host stream handle; it is released like an owned
    /// resource and recorded with the stream policy in the manifest.
    pub fn stream(name: &str) -> (r: Resource)
        ensures
            r.ident.name@ == name@,
            r.ident.generic_args@.len() == 0,
            r.ident.array is None,
            r.ownership == ResourceOwnership::Stream,
    {
        Resource { ident: TypeIdent::from(name), ownership: ResourceOwnership::Stream }
    }

    pub fn is_owned(&self) -> (r: bool)
        ensures
            r == resource_owned(*self),
    {
        self.ownership == ResourceOwnership::Owned || self.ownership == ResourceOwnership::Stream
    }

    pub fn is_stream(&self) -> (r: bool)
        ensures
            r == (self.ownership == ResourceOwnership::Stream),
    {
        self.ownership == ResourceOwnership::Stream
    }
}

/// A user-defined type with its own Rust spelling.
#[derive(Debug)]
pub struct CustomType {
    pub ident: TypeIdent,
}

/// A declared enum, named by its identifier.
#[derive(Debug)]
pub struct Enum {
    pub ident: TypeIdent,
}

/// A declared struct, named by its identifier.
#[derive(Debug)]
pub struct Struct {
    pub ident: TypeIdent,
}

/// A type declaration.
#[derive(Debug)]
pub enum Type {
    Alias(String, TypeIdent),
    Array(Primitive, usize),
    Container(String, TypeIdent),
    Custom(CustomType),
    Enum(Enum),
    List(String, TypeIdent),
    Dict(String, TypeIdent, TypeIdent),
    Primitive(Primitive),
    Resource(Resource),
    String,
    Struct(Struct),
    Tuple(Vec<TypeIdent>),
    Unit,
}

/// The name of a type as Rust spells it.
pub open spec fn type_text(t: Type) -> Seq<char> {
    match t {
        Type::Alias(name, _) => name@,
        Type::Array(p, size) => "["@ + primitive_name(p) + "; "@ + decimal(size as nat) + "]"@,
        Type::Container(name, ident) => name@ + "<"@ + ident_text(ident) + ">"@,
        Type::Custom(custom) => ident_text(custom.ident),
        Type::Enum(e) => ident_text(e.ident),
        Type::List(name, ident) => name@ + "<"@ + ident_text(ident) + ">"@,
        Type::Dict(name, key, value) => name@ + "<"@ + ident_text(key) + ", "@ + ident_text(value)
            + ">"@,
        Type::Primitive(p) => primitive_name(p),
        Type::Resource(r) => ident_text(r.ident),
        Type::String => "String"@,
        Type::Struct(s) => ident_text(s.ident),
        Type::Tuple(items) => "("@ + args_text(items@) + ")"@,
        Type::Unit => "()"@,
    }
}

impl Type {
    /// The name of this type as Rust spells it.
    pub fn name(&self) -> (r: String)
        ensures
            r@ == type_text(*self),
    {
        match self {
            Type::Alias(name, _) => name.clone(),
            Type::Array(primitive, size) => {
                let mut r = String::from_str("[");
                r.append(primitive.as_str());
                r.append("; ");
                let digits = decimal_string(*size);
                r.append(digits.as_str());
                r.append("]");
                r
            },
            Type::Container(name, ident) | Type::List(name, ident) => {
                let mut r = name.clone();
                r.append("<");
                let inner = ident.to_text();
                r.append(inner.as_str());
                r.append(">");
                r
            },
            Type::Custom(custom) => custom.ident.to_text(),
            Type::Enum(e) => e.ident.to_text(),
            Type::Dict(name, key, value) => {
                let mut r = name.clone();
                r.append("<");
                let k = key.to_text();
                r.append(k.as_str());
                r.append(", ");
                let v = value.to_text();
                r.append(v.as_str());
                r.append(">");
                r
            },
            Type::Primitive(primitive) => primitive.name(),
            Type::Resource(resource) => resource.ident.to_text(),
            Type::String => String::from_str("String"),
            Type::Struct(s) => s.ident.to_text(),
            Type::Tuple(items) => {
                let mut r = String::from_str("(");
                let inner = TypeIdent::list_text(items);
                r.append(inner.as_str());
                r.append(")");
                r
            },
            Type::Unit => String::from_str("()"),
        }
    }
}


/// One bound of a type parameter: a trait bound, held as the identifiers of
/// the segments of the trait's path, or a bound of another kind (a lifetime).
#[derive(Debug)]
pub enum ParamBound {
    Trait(Vec<String>),
    Other,
}

/// The bounds of a generic type parameter, in the order they are written.
#[derive(Debug)]
pub struct TypeParam {
    pub bounds: Vec<ParamBound>,
}

/// A path spelled with `::` between its segments.
pub open spec fn path_text(segments: Seq<Seq<char>>) -> Seq<char> {
    seq_join(segments, "::"@)
}

/// The paths of the trait bounds among `bounds`, in order; other bounds are
/// left out.
pub open spec fn trait_bound_texts(bounds: Seq<ParamBound>) -> Seq<Seq<char>>
    decreases bounds.len(),
{
    if bounds.len() == 0 {
        Seq::empty()
    } else {
        let rest = trait_bound_texts(bounds.drop_last());
        match bounds.last() {
            ParamBound::Trait(segments) => rest.push(path_text(views(segments@))),
            ParamBound::Other => rest,
        }
    }
}

/// Spells a path from the identifiers of its segments, joined by `::`.
pub fn path_to_string(segments: &Vec<String>) -> (r: String)
    ensures
        r@ == path_text(views(segments@)),
{
    join(segments, "::")
}

/// The paths of the trait bounds of `ty`, in the order they are written.
pub fn format_bounds(ty: &TypeParam) -> (r: Vec<String>)
    ensures
        views(r@) == trait_bound_texts(ty.bounds@),
{
    let mut r: Vec<String> = Vec::new();
    let mut i: usize = 0;
    while i < ty.bounds.len()
        invariant
            i <= ty.bounds@.len(),
            views(r@) == trait_bound_texts(ty.bounds@.take(i as int)),
        decreases ty.bounds@.len() - i,
    {
        proof {
            assert(ty.bounds@.take(i + 1).drop_last() =~= ty.bounds@.take(i as int));
        }
        match &ty.bounds[i] {
            ParamBound::Trait(segments) => {
                let ghost before = r@;
                r.push(path_to_string(segments));
                proof {
                    assert(views(r@) =~= views(before).push(r@.last()@));
                }
            },
            ParamBound::Other => {},
        }
        i = i + 1;
    }
    proof {
        assert(ty.bounds@.take(ty.bounds@.len() as int) =~= ty.bounds@);
    }
    r
}

/// Whether a bound is needed at run time: every bound but the generator's
/// own `Serializable` trait, written bare or by its full path.
pub fn is_runtime_bound(bound: &str) -> (r: bool)
    ensures
        r == (bound@ != "Serializable"@ && bound@ != "fp_bindgen::prelude::Serializable"@),
{
    !str_eq(bound, "Serializable") && !str_eq(bound, "fp_bindgen::prelude::Serializable")
}


/// Whether the keys of `s` strictly increase by their text.
pub open spec fn keys_sorted(s: Seq<(TypeIdent, Type)>) -> bool {
    forall|i: int, j: int|
        0 <= i < j < s.len() ==> seq_lt(ident_text(#[trigger] s[i].0), ident_text(#[trigger] s[j].0))
}

/// The first index at or after `i` whose key has text `key`.
pub open spec fn find_key_from(s: Seq<(TypeIdent, Type)>, key: Seq<char>, i: int) -> Option<int>
    decreases s.len() - i,
{
    if i < 0 || i >= s.len() {
        None
    } else if ident_text(s[i].0) == key {
        Some(i)
    } else {
        find_key_from(s, key, i + 1)
    }
}

/// The index of the entry whose key has text `key`, if any.
pub open spec fn find_key(s: Seq<(TypeIdent, Type)>, key: Seq<char>) -> Option<int> {
    find_key_from(s, key, 0)
}

pub proof fn lemma_find_key_from(s: Seq<(TypeIdent, Type)>, key: Seq<char>, i: int)
    requires
        0 <= i,
    ensures
        find_key_from(s, key, i) matches Some(j) ==> i <= j < s.len() && ident_text(s[j].0) == key
            && forall|k: int| i <= k < j ==> ident_text(#[trigger] s[k].0) != key,
        find_key_from(s, key, i) is None ==> forall|k: int|
            i <= k < s.len() ==> ident_text(#[trigger] s[k].0) != key,
    decreases s.len() - i,
{
    if i < s.len() {
        lemma_find_key_from(s, key, i + 1);
    }
}

/// The entry whose key has text `key`, if any.
pub open spec fn lookup(s: Seq<(TypeIdent, Type)>, key: Seq<char>) -> Option<(TypeIdent, Type)> {
    match find_key(s, key) {
        Some(i) => Some(s[i]),
        None => None,
    }
}

/// In a map sorted by key text, the entry with a given text is the one
/// `find_key` finds, and there is at most one.
pub proof fn lemma_find_key_sorted(s: Seq<(TypeIdent, Type)>, key: Seq<char>, j: int)
    requires
        keys_sorted(s),
        0 <= j < s.len(),
        ident_text(s[j].0) == key,
    ensures
        find_key(s, key) == Some(j),
{
    lemma_find_key_from(s, key, 0);
    match find_key(s, key) {
        Some(k) => {
            if k < j {
                assert(seq_lt(ident_text(s[k].0), ident_text(s[j].0)));
                lemma_seq_lt_irreflexive(key);
            }
        },
        None => {},
    }
}

proof fn lemma_lookup_after_update(s: Seq<(TypeIdent, Type)>, i: int, value: Type)
    requires
        keys_sorted(s),
        0 <= i < s.len(),
    ensures
        keys_sorted(s.update(i, (s[i].0, value))),
        lookup(s.update(i, (s[i].0, value)), ident_text(s[i].0)) == Some((s[i].0, value)),
        forall|other: Seq<char>| other != ident_text(s[i].0) ==> #[trigger] lookup(s.update(i, (s[i].0, value)), other)
            == lookup(s, other),
{
    let t = s.update(i, (s[i].0, value));
    assert(keys_sorted(t));
    lemma_find_key_sorted(t, ident_text(s[i].0), i);
    assert forall|other: Seq<char>| other != ident_text(s[i].0) implies #[trigger] lookup(t, other) == lookup(s, other) by {
        lemma_find_key_from(s, other, 0);
        lemma_find_key_from(t, other, 0);
        match find_key(s, other) {
            Some(j) => {
                lemma_find_key_sorted(t, other, j);
            },
            None => {
                match find_key(t, other) {
                    Some(j) => {
                        assert(ident_text(s[j].0) == other);
                    },
                    None => {},
                }
            },
        }
    }
}

proof fn lemma_lookup_after_insert(s: Seq<(TypeIdent, Type)>, i: int, key: TypeIdent, value: Type)
    requires
        keys_sorted(s),
        0 <= i <= s.len(),
        keys_sorted(s.take(i).push((key, value)) + s.skip(i)),
        find_key(s, ident_text(key)) is None,
    ensures
        lookup(s.take(i).push((key, value)) + s.skip(i), ident_text(key)) == Some((key, value)),
        forall|other: Seq<char>| other != ident_text(key) ==> #[trigger] lookup(s.take(i).push((key, value)) + s.skip(i), other)
            == lookup(s, other),
{
    let t = s.take(i).push((key, value)) + s.skip(i);
    assert(t[i] == (key, value));
    lemma_find_key_sorted(t, ident_text(key), i);
    assert forall|other: Seq<char>| other != ident_text(key) implies #[trigger] lookup(t, other) == lookup(s, other) by {
        lemma_find_key_from(s, other, 0);
        lemma_find_key_from(t, other, 0);
        match find_key(s, other) {
            Some(j) => {
                if j < i {
                    assert(t[j] == s[j]);
                    lemma_find_key_sorted(t, other, j);
                } else {
                    assert(t[j + 1] == s[j]);
                    lemma_find_key_sorted(t, other, j + 1);
                }
            },
            None => {
                match find_key(t, other) {
                    Some(j) => {
                        if j < i {
                            assert(t[j] == s[j]);
                        } else if j > i {
                            assert(t[j] == s[j - 1]);
                        }
                    },
                    None => {},
                }
            },
        }
    }
}

/// The declared types by identifier, kept in order of their text; two keys
/// with the same text are the same key.
pub struct TypeMap {
    entries: Vec<(TypeIdent, Type)>,
}

impl View for TypeMap {
    type V = Seq<(TypeIdent, Type)>;

    closed spec fn view(&self) -> Seq<(TypeIdent, Type)> {
        self.entries@
    }
}

impl TypeMap {
    #[verifier::type_invariant]
    spec fn sorted(self) -> bool {
        keys_sorted(self.entries@)
    }

    pub fn new() -> (r: TypeMap)
        ensures
            r@.len() == 0,
    {
        TypeMap { entries: Vec::new() }
    }

    pub fn len(&self) -> (r: usize)
        ensures
            r == self@.len(),
    {
        self.entries.len()
    }

    /// The entries in key order.
    pub fn entries(&self) -> (r: &Vec<(TypeIdent, Type)>)
        ensures
            r@ == self@,
            keys_sorted(self@),
    {
        proof {
            use_type_invariant(self);
        }
        &self.entries
    }

    /// The index of the entry whose key has the text of `key`, if any.
    pub fn position(&self, key: &TypeIdent) -> (r: Option<usize>)
        ensures
            match r {
                Some(i) => find_key(self@, ident_text(*key)) == Some(i as int) && i < self@.len(),
                None => find_key(self@, ident_text(*key)) is None,
            },
    {
        proof {
            lemma_find_key_from(self@, ident_text(*key), 0);
        }
        let text = key.to_text();
        let mut i: usize = 0;
        while i < self.entries.len()
            invariant
                i <= self@.len(),
                text@ == ident_text(*key),
                find_key(self@, text@) == find_key_from(self@, text@, i as int),
            decreases self@.len() - i,
        {
            let candidate = self.entries[i].0.to_text();
            if crate::text::str_eq(candidate.as_str(), text.as_str()) {
                return Some(i);
            }
            i = i + 1;
        }
        None
    }

    /// The value stored under `key`, if any.
    pub fn get(&self, key: &TypeIdent) -> (r: Option<&Type>)
        ensures
            match lookup(self@, ident_text(*key)) {
                Some(e) => r == Some(&e.1),
                None => r is None,
            },
    {
        match self.position(key) {
            Some(i) => Some(&self.entries[i].1),
            None => None,
        }
    }

    /// Inserts `value` under `key`. When a key with the same text is present
    /// its value is replaced and the stored key is kept; otherwise the entry
    /// is added at its place in key order.
    pub fn insert(&mut self, key: TypeIdent, value: Type)
        ensures
            keys_sorted(final(self)@),
            find_key(old(self)@, ident_text(key)) matches Some(j) ==> final(self)@ == old(self)@.update(
                j,
                (old(self)@[j].0, value),
            ),
            find_key(old(self)@, ident_text(key)) is None ==> exists|i: int|
                0 <= i <= old(self)@.len() && final(self)@ == old(self)@.take(i).push((key, value))
                    + old(self)@.skip(i),
            lookup(final(self)@, ident_text(key)) matches Some(e) && e.1 == value,
            forall|other: Seq<char>| other != ident_text(key) ==> #[trigger] lookup(final(self)@, other) == lookup(
                old(self)@,
                other,
            ),
    {
        proof {
            use_type_invariant(&*self);
        }
        let ghost old_entries = self.entries@;
        let text = key.to_text();
        let mut i: usize = 0;
        while i < self.entries.len()
            invariant
                self.entries@ == old_entries,
                keys_sorted(old_entries),
                i <= old_entries.len(),
                text@ == ident_text(key),
                forall|k: int| 0 <= k < i ==> seq_lt(ident_text(#[trigger] old_entries[k].0), text@),
            ensures
                i <= old_entries.len(),
                forall|k: int| 0 <= k < i ==> seq_lt(ident_text(#[trigger] old_entries[k].0), text@),
                i < old_entries.len() ==> !seq_lt(ident_text(old_entries[i as int].0), text@),
            decreases old_entries.len() - i,
        {
            let candidate = self.entries[i].0.to_text();
            if !str_lt(candidate.as_str(), text.as_str()) {
                break;
            }
            i = i + 1;
        }
        proof {
            lemma_find_key_from(old_entries, text@, 0);
            assert forall|k: int| 0 <= k < i implies ident_text(#[trigger] old_entries[k].0) != text@ by {
                lemma_seq_lt_irreflexive(text@);
            }
        }
        let found = if i < self.entries.len() {
            let candidate = self.entries[i].0.to_text();
            crate::text::str_eq(candidate.as_str(), text.as_str())
        } else {
            false
        };
        if found {
            proof {
                assert forall|k: int| i < k < old_entries.len() implies ident_text(
                    #[trigger] old_entries[k].0,
                ) != text@ by {
                    lemma_seq_lt_irreflexive(text@);
                }
            }
            let mut entries = Vec::new();
            std::mem::swap(&mut entries, &mut self.entries);
            let (stored, _previous) = entries.remove(i);
            entries.insert(i, (stored, value));
            self.entries = entries;
            proof {
                assert(self.entries@ =~= old_entries.update(i as int, (old_entries[i as int].0, value)));
                lemma_lookup_after_update(old_entries, i as int, value);
            }
            return ;
        }
        proof {
            assert forall|k: int| i <= k < old_entries.len() implies seq_lt(
                text@,
                ident_text(#[trigger] old_entries[k].0),
            ) by {
                let first = ident_text(old_entries[i as int].0);
                lemma_seq_lt_total(first, text@);
                if k > i {
                    lemma_seq_lt_transitive(text@, first, ident_text(old_entries[k].0));
                }
            }
        }
        let mut entries = Vec::new();
        std::mem::swap(&mut entries, &mut self.entries);
        entries.insert(i, (key, value));
        self.entries = entries;
        proof {
            let n = old_entries.take(i as int).push((key, value)) + old_entries.skip(i as int);
            assert(self.entries@ =~= n);
            lemma_lookup_after_insert(old_entries, i as int, key, value);
        }
    }
}

} // verus!
