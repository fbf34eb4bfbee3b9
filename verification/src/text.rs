//! Text primitives shared by the renderers: comparison, joining, decimal
//! formatting and the line-oriented helpers the generated sources need.

use vstd::prelude::*;

verus! {

/// Strict lexicographic order on character sequences, comparing code points.
/// This is the order of Rust's `str` comparison (UTF-8 byte order agrees with
/// code point order).
pub open spec fn seq_lt(a: Seq<char>, b: Seq<char>) -> bool
    decreases a.len(),
{
    if b.len() == 0 {
        false
    } else if a.len() == 0 {
        true
    } else if a[0] != b[0] {
        (a[0] as int) < (b[0] as int)
    } else {
        seq_lt(a.drop_first(), b.drop_first())
    }
}

pub proof fn lemma_seq_lt_irreflexive(a: Seq<char>)
    ensures
        !seq_lt(a, a),
    decreases a.len(),
{
    if a.len() > 0 {
        lemma_seq_lt_irreflexive(a.drop_first());
    }
}

pub proof fn lemma_seq_lt_total(a: Seq<char>, b: Seq<char>)
    ensures
        a != b ==> (seq_lt(a, b) || seq_lt(b, a)),
        !(seq_lt(a, b) && seq_lt(b, a)),
    decreases a.len(),
{
    if a.len() > 0 && b.len() > 0 {
        lemma_seq_lt_total(a.drop_first(), b.drop_first());
        if a[0] == b[0] {
            if a.drop_first() == b.drop_first() {
                assert(a =~= seq![a[0]] + a.drop_first());
                assert(b =~= seq![b[0]] + b.drop_first());
            }
        } else {
            assert((a[0] as int) != (b[0] as int));
        }
    } else if a.len() == 0 && b.len() == 0 {
        assert(a =~= b);
    }
}

pub proof fn lemma_seq_lt_transitive(a: Seq<char>, b: Seq<char>, c: Seq<char>)
    requires
        seq_lt(a, b),
        seq_lt(b, c),
    ensures
        seq_lt(a, c),
    decreases a.len(),
{
    if a.len() > 0 && b.len() > 0 && c.len() > 0 {
        if a[0] == b[0] && b[0] == c[0] {
            lemma_seq_lt_transitive(a.drop_first(), b.drop_first(), c.drop_first());
        }
    }
}

/// Whether two strings hold the same characters.
pub fn str_eq(a: &str, b: &str) -> (r: bool)
    ensures
        r == (a@ == b@),
{
    let n = a.unicode_len();
    let m = b.unicode_len();
    if n != m {
        return false;
    }
    let mut i: usize = 0;
    while i < n
        invariant
            n == a@.len(),
            m == b@.len(),
            n == m,
            i <= n,
            forall|j: int| 0 <= j < i ==> a@[j] == b@[j],
        decreases n - i,
    {
        if a.get_char(i) != b.get_char(i) {
            return false;
        }
        i = i + 1;
    }
    assert(a@ =~= b@);
    true
}

/// Whether `a` sorts strictly before `b`.
pub fn str_lt(a: &str, b: &str) -> (r: bool)
    ensures
        r == seq_lt(a@, b@),
{
    let n = a.unicode_len();
    let m = b.unicode_len();
    let mut i: usize = 0;
    proof {
        assert(a@.skip(0) =~= a@);
        assert(b@.skip(0) =~= b@);
    }
    while i < n && i < m
        invariant
            n == a@.len(),
            m == b@.len(),
            i <= n,
            i <= m,
            forall|j: int| 0 <= j < i ==> a@[j] == b@[j],
            seq_lt(a@, b@) == seq_lt(a@.skip(i as int), b@.skip(i as int)),
        decreases n - i,
    {
        let x = a.get_char(i);
        let y = b.get_char(i);
        if x != y {
            proof {
                assert(a@.skip(i as int)[0] == x);
                assert(b@.skip(i as int)[0] == y);
            }
            return (x as u32) < (y as u32);
        }
        proof {
            assert(a@.skip(i as int).drop_first() =~= a@.skip(i + 1));
            assert(b@.skip(i as int).drop_first() =~= b@.skip(i + 1));
        }
        i = i + 1;
    }
    i < m
}


/// `parts` joined with `sep` between neighbours.
pub open spec fn seq_join(parts: Seq<Seq<char>>, sep: Seq<char>) -> Seq<char>
    decreases parts.len(),
{
    if parts.len() == 0 {
        Seq::empty()
    } else if parts.len() == 1 {
        parts[0]
    } else {
        seq_join(parts.drop_last(), sep) + sep + parts.last()
    }
}

/// The concatenation of `parts`.
pub open spec fn seq_concat(parts: Seq<Seq<char>>) -> Seq<char>
    decreases parts.len(),
{
    if parts.len() == 0 {
        Seq::empty()
    } else {
        seq_concat(parts.drop_last()) + parts.last()
    }
}

/// The views of a vector of strings.
pub open spec fn views(v: Seq<String>) -> Seq<Seq<char>> {
    v.map_values(|s: String| s@)
}

/// Joins `parts` with `sep`, as `[..].join(sep)` does.
pub fn join(parts: &Vec<String>, sep: &str) -> (r: String)
    ensures
        r@ == seq_join(views(parts@), sep@),
{
    let mut r = String::new();
    let mut i: usize = 0;
    while i < parts.len()
        invariant
            i <= parts@.len(),
            r@ == seq_join(views(parts@).take(i as int), sep@),
        decreases parts@.len() - i,
    {
        proof {
            assert(views(parts@).take(i + 1).drop_last() =~= views(parts@).take(i as int));
        }
        if i > 0 {
            r.append(sep);
        }
        r.append(parts[i].as_str());
        i = i + 1;
    }
    proof {
        assert(views(parts@).take(parts@.len() as int) =~= views(parts@));
    }
    r
}

/// Concatenates `parts`, as `collect::<String>()` does.
pub fn concat_all(parts: &Vec<String>) -> (r: String)
    ensures
        r@ == seq_concat(views(parts@)),
{
    let mut r = String::new();
    let mut i: usize = 0;
    while i < parts.len()
        invariant
            i <= parts@.len(),
            r@ == seq_concat(views(parts@).take(i as int)),
        decreases parts@.len() - i,
    {
        proof {
            assert(views(parts@).take(i + 1).drop_last() =~= views(parts@).take(i as int));
        }
        r.append(parts[i].as_str());
        i = i + 1;
    }
    proof {
        assert(views(parts@).take(parts@.len() as int) =~= views(parts@));
    }
    r
}

/// The decimal digit `d`, for `d < 10`.
pub open spec fn digit_text(d: nat) -> Seq<char> {
    if d == 0 {
        "0"@
    } else if d == 1 {
        "1"@
    } else if d == 2 {
        "2"@
    } else if d == 3 {
        "3"@
    } else if d == 4 {
        "4"@
    } else if d == 5 {
        "5"@
    } else if d == 6 {
        "6"@
    } else if d == 7 {
        "7"@
    } else if d == 8 {
        "8"@
    } else {
        "9"@
    }
}

/// The decimal notation of `n`, without leading zeros.
pub open spec fn decimal(n: nat) -> Seq<char>
    decreases n,
{
    if n < 10 {
        digit_text(n)
    } else {
        decimal(n / 10) + digit_text(n % 10)
    }
}

fn digit_string(d: usize) -> (r: String)
    requires
        d < 10,
    ensures
        r@ == digit_text(d as nat),
{
    if d == 0 {
        String::from_str("0")
    } else if d == 1 {
        String::from_str("1")
    } else if d == 2 {
        String::from_str("2")
    } else if d == 3 {
        String::from_str("3")
    } else if d == 4 {
        String::from_str("4")
    } else if d == 5 {
        String::from_str("5")
    } else if d == 6 {
        String::from_str("6")
    } else if d == 7 {
        String::from_str("7")
    } else if d == 8 {
        String::from_str("8")
    } else {
        String::from_str("9")
    }
}

/// Formats `n` in decimal, as `n.to_string()` does.
pub fn decimal_string(n: usize) -> (r: String)
    ensures
        r@ == decimal(n as nat),
    decreases n,
{
    if n < 10 {
        digit_string(n)
    } else {
        let mut r = decimal_string(n / 10);
        let d = digit_string(n % 10);
        r.append(d.as_str());
        r
    }
}


/// Whether `s` starts with `", "`.
pub open spec fn starts_with_sep(s: Seq<char>) -> bool {
    s.len() >= 2 && s[0] == ',' && s[1] == ' '
}

/// `s` with every `", "` replaced by `rep`, scanning left to right as
/// `str::replace` does.
pub open spec fn replace_sep(s: Seq<char>, rep: Seq<char>) -> Seq<char>
    decreases s.len(),
{
    if s.len() < 2 {
        s
    } else if starts_with_sep(s) {
        rep + replace_sep(s.skip(2), rep)
    } else {
        seq![s[0]] + replace_sep(s.skip(1), rep)
    }
}

/// `s` without its leading repetitions of `", "`, as
/// `str::trim_start_matches(", ")` returns it.
pub open spec fn trim_leading_sep(s: Seq<char>) -> Seq<char>
    decreases s.len(),
{
    if starts_with_sep(s) {
        trim_leading_sep(s.skip(2))
    } else {
        s
    }
}

proof fn lemma_replace_sep_step(s: Seq<char>, rep: Seq<char>)
    requires
        s.len() >= 1,
        !starts_with_sep(s),
    ensures
        replace_sep(s, rep) == seq![s[0]] + replace_sep(s.skip(1), rep),
{
    if s.len() < 2 {
        assert(s =~= seq![s[0]] + s.skip(1));
    }
}

/// The one-character text at `i`.
fn char_at(s: &str, i: usize) -> (r: &str)
    requires
        i < s@.len(),
        s@.len() <= usize::MAX,
    ensures
        r@ == seq![s@[i as int]],
{
    let r = s.substring_char(i, i + 1);
    proof {
        assert(r@ =~= seq![s@[i as int]]);
    }
    r
}

/// Replaces every `", "` of `s` with `rep`.
pub fn replace_separators(s: &str, rep: &str) -> (r: String)
    ensures
        r@ == replace_sep(s@, rep@),
{
    let n = s.unicode_len();
    let mut r = String::new();
    let mut i: usize = 0;
    proof {
        assert(s@.skip(0) =~= s@);
    }
    while i < n
        invariant
            n == s@.len(),
            i <= n,
            replace_sep(s@, rep@) == r@ + replace_sep(s@.skip(i as int), rep@),
        decreases n - i,
    {
        let ghost rest = s@.skip(i as int);
        if i + 1 < n && s.get_char(i) == ',' && s.get_char(i + 1) == ' ' {
            proof {
                assert(starts_with_sep(rest));
                assert(rest.skip(2) =~= s@.skip(i + 2));
            }
            r.append(rep);
            i = i + 2;
        } else {
            proof {
                assert(!starts_with_sep(rest));
                lemma_replace_sep_step(rest, rep@);
                assert(rest.skip(1) =~= s@.skip(i + 1));
            }
            r.append(char_at(s, i));
            i = i + 1;
        }
    }
    proof {
        assert(s@.skip(n as int) =~= Seq::<char>::empty());
    }
    r
}

/// Removes the leading repetitions of `", "` from `s`.
pub fn trim_leading_separators(s: &str) -> (r: String)
    ensures
        r@ == trim_leading_sep(s@),
{
    let n = s.unicode_len();
    let mut i: usize = 0;
    proof {
        assert(s@.skip(0) =~= s@);
    }
    while n - i >= 2 && s.get_char(i) == ',' && s.get_char(i + 1) == ' '
        invariant
            n == s@.len(),
            i <= n,
            trim_leading_sep(s@) == trim_leading_sep(s@.skip(i as int)),
        decreases n - i,
    {
        proof {
            assert(s@.skip(i as int).skip(2) =~= s@.skip(i + 2));
        }
        i = i + 2;
    }
    let r = s.substring_char(i, n);
    proof {
        assert(r@ =~= s@.skip(i as int));
    }
    r.to_owned()
}

/// `n` spaces.
pub open spec fn spaces(n: nat) -> Seq<char> {
    Seq::new(n, |_i: int| ' ')
}

/// `n` spaces, as `" ".repeat(n)` builds them.
pub fn repeat_space(n: usize) -> (r: String)
    ensures
        r@ == spaces(n as nat),
{
    let mut r = String::new();
    let mut i: usize = 0;
    while i < n
        invariant
            i <= n,
            r@ == spaces(i as nat),
        decreases n - i,
    {
        r.append(" ");
        proof {
            reveal_strlit(" ");
            assert(" "@ =~= seq![' ']);
            assert(r@ =~= spaces((i + 1) as nat));
        }
        i = i + 1;
    }
    r
}

/// A line without its trailing carriage return, as `str::lines` yields it.
pub open spec fn strip_cr(line: Seq<char>) -> Seq<char> {
    if line.len() > 0 && line.last() == '\r' {
        line.drop_last()
    } else {
        line
    }
}

/// One indented line: empty lines stay empty, others get `prefix`; each
/// ends with a newline.
pub open spec fn indent_line(line: Seq<char>, prefix: Seq<char>) -> Seq<char> {
    if line.len() == 0 {
        "\n"@
    } else {
        prefix + line + "\n"@
    }
}

/// The lines of `current + s` (as `str::lines` splits them: at `\n` or
/// `\r\n`, with an optional final line ending) each indented by `prefix`,
/// where `current` is the unfinished line read so far.
pub open spec fn indent_from(s: Seq<char>, current: Seq<char>, prefix: Seq<char>) -> Seq<char>
    decreases s.len(),
{
    if s.len() == 0 {
        if current.len() == 0 {
            Seq::empty()
        } else {
            indent_line(current, prefix)
        }
    } else if s[0] == '\n' {
        indent_line(strip_cr(current), prefix) + indent_from(s.skip(1), Seq::empty(), prefix)
    } else {
        indent_from(s.skip(1), current.push(s[0]), prefix)
    }
}

/// Every line of `source` indented by `spaces` spaces.
pub open spec fn indent_spec(source: Seq<char>, n: nat) -> Seq<char> {
    indent_from(source, Seq::empty(), spaces(n))
}

fn indent_one(line: &str, prefix: &str) -> (r: String)
    ensures
        r@ == indent_line(line@, prefix@),
{
    if line.unicode_len() == 0 {
        String::from_str("\n")
    } else {
        let mut r = String::from_str(prefix);
        r.append(line);
        r.append("\n");
        r
    }
}

fn without_cr(line: &str) -> (r: String)
    ensures
        r@ == strip_cr(line@),
{
    let n = line.unicode_len();
    if n > 0 && line.get_char(n - 1) == '\r' {
        let r = line.substring_char(0, n - 1);
        proof {
            assert(r@ =~= line@.drop_last());
        }
        r.to_owned()
    } else {
        line.to_owned()
    }
}

/// Indents every line of `source` by `spaces` spaces, keeping empty lines
/// empty.
pub fn indent(source: &str, n: usize) -> (r: String)
    ensures
        r@ == indent_spec(source@, n as nat),
{
    let prefix = repeat_space(n);
    let len = source.unicode_len();
    let mut r = String::new();
    let mut current = String::new();
    let mut i: usize = 0;
    proof {
        assert(source@.skip(0) =~= source@);
    }
    while i < len
        invariant
            len == source@.len(),
            i <= len,
            prefix@ == spaces(n as nat),
            indent_spec(source@, n as nat) == r@ + indent_from(source@.skip(i as int), current@, prefix@),
        decreases len - i,
    {
        proof {
            assert(source@.skip(i as int).skip(1) =~= source@.skip(i + 1));
            assert(source@.skip(i as int)[0] == source@[i as int]);
        }
        let ghost before = current@;
        if source.get_char(i) == '\n' {
            let line = without_cr(current.as_str());
            let piece = indent_one(line.as_str(), prefix.as_str());
            r.append(piece.as_str());
            current = String::new();
        } else {
            let c = char_at(source, i);
            current.append(c);
            proof {
                assert(current@ =~= before.push(source@[i as int]));
            }
        }
        i = i + 1;
    }
    proof {
        assert(source@.skip(len as int) =~= Seq::<char>::empty());
    }
    if current.unicode_len() > 0 {
        let piece = indent_one(current.as_str(), prefix.as_str());
        r.append(piece.as_str());
    }
    r
}


/// Whether `t` occurs in `s` as a contiguous piece.
pub open spec fn contains_text(s: Seq<char>, t: Seq<char>) -> bool {
    exists|i: int| 0 <= i && i + t.len() <= s.len() && #[trigger] s.subrange(i, i + t.len()) == t
}

/// A piece of `a` is a piece of `a + b`.
pub broadcast proof fn lemma_contains_left(a: Seq<char>, b: Seq<char>, t: Seq<char>)
    requires
        contains_text(a, t),
    ensures
        #[trigger] contains_text(a + b, t),
{
    let i = choose|i: int| 0 <= i && i + t.len() <= a.len() && #[trigger] a.subrange(i, i + t.len()) == t;
    assert((a + b).subrange(i, i + t.len()) =~= a.subrange(i, i + t.len()));
}

/// A piece of `b` is a piece of `a + b`.
pub broadcast proof fn lemma_contains_right(a: Seq<char>, b: Seq<char>, t: Seq<char>)
    requires
        contains_text(b, t),
    ensures
        #[trigger] contains_text(a + b, t),
{
    let i = choose|i: int| 0 <= i && i + t.len() <= b.len() && #[trigger] b.subrange(i, i + t.len()) == t;
    let k = a.len() + i;
    assert((a + b).subrange(k, k + t.len()) =~= b.subrange(i, i + t.len()));
}

/// A piece of a piece of `s` is a piece of `s`.
pub proof fn lemma_contains_trans(s: Seq<char>, t: Seq<char>, u: Seq<char>)
    requires
        contains_text(s, t),
        contains_text(t, u),
    ensures
        contains_text(s, u),
{
    let i = choose|i: int| 0 <= i && i + t.len() <= s.len() && #[trigger] s.subrange(i, i + t.len()) == t;
    let j = choose|j: int| 0 <= j && j + u.len() <= t.len() && #[trigger] t.subrange(j, j + u.len()) == u;
    let k = i + j;
    assert(s.subrange(k, k + u.len()) =~= t.subrange(j, j + u.len()));
}

/// Every text contains itself.
pub proof fn lemma_contains_self(t: Seq<char>)
    ensures
        contains_text(t, t),
{
    let z: int = 0;
    assert(t.subrange(z, z + t.len()) =~= t);
}

/// Each part of a joined text is a piece of it.
pub proof fn lemma_join_contains_part(parts: Seq<Seq<char>>, sep: Seq<char>, i: int)
    requires
        0 <= i < parts.len(),
    ensures
        contains_text(seq_join(parts, sep), parts[i]),
    decreases parts.len(),
{
    lemma_contains_self(parts[i]);
    if parts.len() == 1 {
    } else if i == parts.len() - 1 {
        lemma_contains_right(seq_join(parts.drop_last(), sep) + sep, parts.last(), parts[i]);
    } else {
        lemma_join_contains_part(parts.drop_last(), sep, i);
        assert(parts.drop_last()[i] == parts[i]);
        lemma_contains_left(seq_join(parts.drop_last(), sep), sep, parts[i]);
        lemma_contains_left(seq_join(parts.drop_last(), sep) + sep, parts.last(), parts[i]);
    }
}

/// Each part of a concatenation is a piece of it.
pub proof fn lemma_concat_contains_part(parts: Seq<Seq<char>>, i: int)
    requires
        0 <= i < parts.len(),
    ensures
        contains_text(seq_concat(parts), parts[i]),
    decreases parts.len(),
{
    lemma_contains_self(parts[i]);
    if i == parts.len() - 1 {
        lemma_contains_right(seq_concat(parts.drop_last()), parts.last(), parts[i]);
    } else {
        lemma_concat_contains_part(parts.drop_last(), i);
        assert(parts.drop_last()[i] == parts[i]);
        lemma_contains_left(seq_concat(parts.drop_last()), parts.last(), parts[i]);
    }
}

} // verus!
