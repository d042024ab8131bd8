use vstd::prelude::*;

use crate::mapping::{
    binary, element, fragment, has_self, has_void, primitive_name, well_formed, Mapped,
};
use crate::signature::{
    find_semicolon, is_primitive_char, is_primitive_letter, semicolon, semicolon_bounds,
    semicolon_found, slice_text,
};
use crate::text::{chars_of, concat, concat_first, replace_char, replaced, same, views};

verus! {

/// The descriptor fragment of a class, from the name that `Class.getName()` gives it.
pub open spec fn class_fragment(name: Seq<char>) -> Seq<char> {
    if name == "boolean"@ {
        "Z"@
    } else if name == "byte"@ {
        "B"@
    } else if name == "char"@ {
        "C"@
    } else if name == "short"@ {
        "S"@
    } else if name == "int"@ {
        "I"@
    } else if name == "long"@ {
        "J"@
    } else if name == "float"@ {
        "F"@
    } else if name == "double"@ {
        "D"@
    } else if name == "void"@ {
        "V"@
    } else if name.len() > 0 && name[0] == '[' {
        replaced(name, '.', '/')
    } else {
        "L"@ + replaced(name, '.', '/') + ";"@
    }
}

/// Converts a class name into a descriptor fragment: `int` to `I`,
/// `java.lang.String` to `Ljava/lang/String;`, `[Ljava.lang.String;` to
/// `[Ljava/lang/String;`.
pub fn class_name_to_fragment(name: &str) -> (s: String)
    ensures
        s@ == class_fragment(name@),
{
    if same(name, "boolean") {
        "Z".to_owned()
    } else if same(name, "byte") {
        "B".to_owned()
    } else if same(name, "char") {
        "C".to_owned()
    } else if same(name, "short") {
        "S".to_owned()
    } else if same(name, "int") {
        "I".to_owned()
    } else if same(name, "long") {
        "J".to_owned()
    } else if same(name, "float") {
        "F".to_owned()
    } else if same(name, "double") {
        "D".to_owned()
    } else if same(name, "void") {
        "V".to_owned()
    } else if starts_with_char(name, '[') {
        replace_char(name, '.', '/')
    } else {
        let mut s = "L".to_owned();
        s.push_str(replace_char(name, '.', '/').as_str());
        s.push_str(";");
        s
    }
}

fn starts_with_char(s: &str, c: char) -> (r: bool)
    ensures
        r == (s@.len() > 0 && s@[0] == c),
{
    let chars = chars_of(s);
    chars.len() > 0 && chars[0] == c
}

/// Whether a class name is that of one of the eight primitive types.
pub open spec fn is_primitive(name: Seq<char>) -> bool {
    ||| name == "boolean"@
    ||| name == "byte"@
    ||| name == "char"@
    ||| name == "short"@
    ||| name == "int"@
    ||| name == "long"@
    ||| name == "float"@
    ||| name == "double"@
}

/// Whether a class name is that of one of the eight primitive types.
pub fn is_primitive_name(name: &str) -> (r: bool)
    ensures
        r == is_primitive(name@),
{
    same(name, "boolean") || same(name, "byte") || same(name, "char") || same(name, "short")
        || same(name, "int") || same(name, "long") || same(name, "float") || same(name, "double")
}

/// The position behind the brackets that start at `p`.
pub open spec fn after_brackets(s: Seq<char>, p: int) -> int
    decreases s.len() - p,
{
    if p < s.len() && s[p] == '[' {
        after_brackets(s, p + 1)
    } else {
        p
    }
}

/// The position behind the fragment that starts at `p`: a primitive letter or a
/// class, with any number of array brackets before it.
pub open spec fn fragment_end(s: Seq<char>, p: int) -> Option<int> {
    let b = after_brackets(s, p);
    if b >= s.len() {
        None
    } else if is_primitive_letter(s[b]) {
        Some(b + 1)
    } else if s[b] == 'L' {
        if semicolon(s, b) < s.len() {
            Some(semicolon(s, b) + 1)
        } else {
            None
        }
    } else {
        None
    }
}

/// The position behind the brackets is inside the text.
pub proof fn after_brackets_bounds(s: Seq<char>, p: int)
    requires
        0 <= p <= s.len(),
    ensures
        p <= after_brackets(s, p) <= s.len(),
    decreases s.len() - p,
{
    if p < s.len() && s[p] == '[' {
        after_brackets_bounds(s, p + 1);
    }
}

/// A fragment ends behind where it starts, and inside the text.
pub proof fn fragment_end_bounds(s: Seq<char>, p: int)
    requires
        0 <= p <= s.len(),
    ensures
        fragment_end(s, p) matches Some(q) ==> p < q <= s.len(),
{
    after_brackets_bounds(s, p);
    semicolon_bounds(s, after_brackets(s, p));
}

/// The fragments that stand in `s` from `p` on, up to the `)` that follows them,
/// and where that `)` stands.
pub open spec fn fragments_until(s: Seq<char>, p: int) -> Option<(Seq<Seq<char>>, int)>
    decreases s.len() - p,
    when 0 <= p <= s.len()
{
    if p == s.len() {
        None
    } else if s[p] == ')' {
        Some((Seq::empty(), p))
    } else {
        proof {
            fragment_end_bounds(s, p);
        }
        match fragment_end(s, p) {
            None => None,
            Some(q) => match fragments_until(s, q) {
                None => None,
                Some((rest, close)) => Some((seq![s.subrange(p, q)] + rest, close)),
            },
        }
    }
}

/// Whether a text is exactly one fragment.
pub open spec fn is_fragment(f: Seq<char>) -> bool {
    fragment_end(f, 0) == Some(f.len() as int)
}

/// Whether a text can follow the `)` that closes the parameters: one fragment, or `V`. Any
/// other text is taken as it stands where it holds no `)` of its own.
pub open spec fn is_return(ret: Seq<char>) -> bool {
    is_fragment(ret) || ret == "V"@ || !ret.contains(')')
}

/// The parameter fragments and the return fragment of a method descriptor: the
/// fragments behind the first `(`, and what stands behind the `)` that closes them.
pub open spec fn split_sig(s: Seq<char>) -> Option<(Seq<Seq<char>>, Seq<char>)> {
    match s.index_of_first('(') {
        None => None,
        Some(open) => match fragments_until(s, open + 1) {
            None => None,
            Some((params, close)) => {
                let ret = s.subrange(close + 1, s.len() as int);
                if is_return(ret) {
                    Some((params, ret))
                } else {
                    None
                }
            },
        },
    }
}

fn skip_brackets(chars: &Vec<char>, p: usize) -> (b: usize)
    requires
        p <= chars@.len(),
    ensures
        b == after_brackets(chars@, p as int),
        p <= b <= chars@.len(),
{
    let mut b: usize = p;
    while b < chars.len() && chars[b] == '['
        invariant
            p <= b <= chars@.len(),
            after_brackets(chars@, p as int) == after_brackets(chars@, b as int),
        decreases chars@.len() - b,
    {
        b += 1;
    }
    b
}

fn find_fragment_end(chars: &Vec<char>, p: usize) -> (r: Option<usize>)
    requires
        p <= chars@.len(),
    ensures
        match r {
            Some(q) => fragment_end(chars@, p as int) == Some(q as int) && p < q <= chars@.len(),
            None => fragment_end(chars@, p as int) is None,
        },
{
    let b = skip_brackets(chars, p);
    if b >= chars.len() {
        return None;
    }
    if is_primitive_char(chars[b]) {
        return Some(b + 1);
    }
    if chars[b] == 'L' {
        let end = find_semicolon(chars.as_slice(), b);
        if end < chars.len() {
            return Some(end + 1);
        }
    }
    None
}

fn index_of_first_char(chars: &Vec<char>, c: char) -> (r: Option<usize>)
    ensures
        match r {
            Some(i) => chars@.index_of_first(c) == Some(i as int) && i < chars@.len(),
            None => chars@.index_of_first(c) is None,
        },
{
    let mut i: usize = 0;
    while i < chars.len()
        invariant
            i <= chars@.len(),
            forall|k: int| 0 <= k < i ==> chars@[k] != c,
        decreases chars@.len() - i,
    {
        if chars[i] == c {
            proof {
                chars@.index_of_first_ensures(c);
                assert(chars@.contains(c));
            }
            return Some(i);
        }
        i += 1;
    }
    proof {
        chars@.index_of_first_ensures(c);
    }
    None
}

fn index_of_last_char(chars: &Vec<char>, c: char) -> (r: Option<usize>)
    ensures
        match r {
            Some(i) => chars@.index_of_last(c) == Some(i as int) && i < chars@.len(),
            None => chars@.index_of_last(c) is None,
        },
{
    let mut i: usize = chars.len();
    while i > 0
        invariant
            i <= chars@.len(),
            forall|k: int| i <= k < chars@.len() ==> chars@[k] != c,
        decreases i,
    {
        i -= 1;
        if chars[i] == c {
            proof {
                chars@.index_of_last_ensures(c);
                assert(chars@.contains(c));
            }
            return Some(i);
        }
    }
    proof {
        chars@.index_of_last_ensures(c);
    }
    None
}

fn split_fragments(chars: &Vec<char>, from: usize) -> (r: Option<(Vec<String>, usize)>)
    requires
        from <= chars@.len(),
    ensures
        match r {
            Some((v, close)) => fragments_until(chars@, from as int) == Some(
                (views(v@), close as int),
            ) && close < chars@.len(),
            None => fragments_until(chars@, from as int) is None,
        },
{
    let mut out: Vec<String> = Vec::new();
    let mut p: usize = from;
    proof {
        assert(views(out@) =~= Seq::<Seq<char>>::empty());
        match fragments_until(chars@, p as int) {
            Some((rest, close)) => {
                assert(views(out@) + rest =~= rest);
            },
            None => {},
        }
    }
    while p < chars.len() && chars[p] != ')'
        invariant
            from <= p <= chars@.len(),
            match fragments_until(chars@, p as int) {
                Some((rest, close)) => fragments_until(chars@, from as int) == Some(
                    (views(out@) + rest, close),
                ),
                None => fragments_until(chars@, from as int) is None,
            },
        decreases chars@.len() - p,
    {
        let q = match find_fragment_end(chars, p) {
            Some(q) => q,
            None => {
                return None;
            },
        };
        let text = slice_text(chars.as_slice(), p, q);
        let ghost before = out@;
        out.push(text);
        proof {
            assert(views(out@) =~= views(before) + seq![text@]);
            match fragments_until(chars@, q as int) {
                Some((rest, close)) => {
                    assert(views(out@) + rest =~= views(before) + (seq![text@] + rest));
                },
                None => {},
            }
        }
        p = q;
    }
    if p == chars.len() {
        return None;
    }
    assert(views(out@) + Seq::<Seq<char>>::empty() =~= views(out@));
    Some((out, p))
}

fn chars_between(chars: &Vec<char>, from: usize, to: usize) -> (out: Vec<char>)
    requires
        from <= to <= chars@.len(),
    ensures
        out@ == chars@.subrange(from as int, to as int),
{
    let mut out: Vec<char> = Vec::new();
    let mut k: usize = from;
    while k < to
        invariant
            from <= k <= to <= chars@.len(),
            out@ == chars@.subrange(from as int, k as int),
        decreases to - k,
    {
        out.push(chars[k]);
        k += 1;
        assert(out@ =~= chars@.subrange(from as int, k as int));
    }
    out
}

fn ends_descriptor(ret: &Vec<char>) -> (r: bool)
    ensures
        r == is_return(ret@),
{
    proof {
        reveal_strlit("V");
        ret@.index_of_first_ensures(')');
    }
    if let Some(q) = find_fragment_end(ret, 0) {
        if q == ret.len() {
            return true;
        }
    }
    if ret.len() == 1 && ret[0] == 'V' {
        assert(ret@ =~= "V"@);
        return true;
    }
    index_of_first_char(ret, ')').is_none()
}

/// Splits a method descriptor into its parameter fragments and its return fragment:
/// `(Ljava/lang/String;[I)Z` into `Ljava/lang/String;`, `[I` and `Z`.
pub fn split_method_sig(sig: &str) -> (r: Option<(Vec<String>, String)>)
    ensures
        match r {
            Some((params, ret)) => split_sig(sig@) == Some((views(params@), ret@)),
            None => split_sig(sig@) is None,
        },
{
    let chars = chars_of(sig);
    proof {
        chars@.index_of_first_ensures('(');
    }
    let open = match index_of_first_char(&chars, '(') {
        Some(i) => i,
        None => {
            return None;
        },
    };
    let n = chars.len();
    match split_fragments(&chars, open + 1) {
        None => None,
        Some((params, close)) => {
            if ends_descriptor(&chars_between(&chars, close + 1, n)) {
                Some((params, slice_text(chars.as_slice(), close + 1, n)))
            } else {
                None
            }
        },
    }
}

/// The part of a class name behind its last slash.
pub open spec fn simple_name(s: Seq<char>) -> Seq<char> {
    match s.index_of_last('/') {
        Some(i) => s.subrange(i + 1, s.len() as int),
        None => s,
    }
}

/// The name of a fragment as Java source writes it: keywords for primitives, the
/// simple name for classes, and `[]` behind the element for arrays.
pub open spec fn source_name(f: Seq<char>) -> Seq<char>
    decreases f.len(),
{
    if f.len() > 0 && f[0] == '[' {
        source_name(f.drop_first()) + "[]"@
    } else if f.len() == 1 && (is_primitive_letter(f[0]) || f[0] == 'V') {
        primitive_name(f[0])
    } else if f.len() >= 2 && f[0] == 'L' && f.last() == ';' {
        simple_name(f.subrange(1, f.len() - 1))
    } else {
        simple_name(f)
    }
}

fn source_name_of(chars: &Vec<char>, from: usize) -> (s: String)
    requires
        from <= chars@.len(),
    ensures
        s@ == source_name(chars@.skip(from as int)),
    decreases chars@.len() - from,
{
    let ghost f = chars@.skip(from as int);
    let n = chars.len();
    if from < n && chars[from] == '[' {
        assert(f.drop_first() =~= chars@.skip(from as int + 1));
        let mut s = source_name_of(chars, from + 1);
        s.push_str("[]");
        return s;
    }
    if n - from == 1 && (is_primitive_char(chars[from]) || chars[from] == 'V') {
        return crate::mapping::prim_binary_name(chars[from]).to_owned();
    }
    let (a, b): (usize, usize) = if n - from >= 2 && chars[from] == 'L' && chars[n - 1] == ';' {
        (from + 1, n - 1)
    } else {
        (from, n)
    };
    let inner = chars_between(chars, a, b);
    proof {
        if b == n {
            assert(inner@ =~= f);
        } else {
            assert(inner@ =~= f.subrange(1, f.len() - 1));
        }
        inner@.index_of_last_ensures('/');
    }
    match index_of_last_char(&inner, '/') {
        Some(i) => slice_text(inner.as_slice(), i + 1, inner.len()),
        None => {
            assert(inner@.subrange(0, inner@.len() as int) =~= inner@);
            slice_text(inner.as_slice(), 0, inner.len())
        },
    }
}

/// The name of a fragment as Java source writes it: `I` is `int`,
/// `Ljava/lang/String;` is `String`, `[[Ljava/lang/Integer;` is `Integer[][]`.
pub fn fragment_to_java_name(fragment: &str) -> (s: String)
    ensures
        s@ == source_name(fragment@),
{
    let chars = chars_of(fragment);
    assert(chars@.skip(0) =~= fragment@);
    source_name_of(&chars, 0)
}

/// The position behind the type that starts at `p` in a run of fragments, read
/// leniently: an unknown letter is a type, and a class without `;` takes the rest.
pub open spec fn lenient_end(s: Seq<char>, p: int) -> Option<int> {
    let b = after_brackets(s, p);
    if b >= s.len() {
        None
    } else if s[b] == 'L' {
        Some(
            if semicolon(s, b) < s.len() {
                semicolon(s, b) + 1
            } else {
                s.len() as int
            },
        )
    } else {
        Some(b + 1)
    }
}

/// A type of a run ends behind where it starts, and inside the text.
pub proof fn lenient_end_bounds(s: Seq<char>, p: int)
    requires
        0 <= p <= s.len(),
    ensures
        lenient_end(s, p) matches Some(q) ==> p < q <= s.len(),
{
    after_brackets_bounds(s, p);
    semicolon_bounds(s, after_brackets(s, p));
}

/// The source names of the types that a run of fragments writes from `p` on. Brackets
/// without a type behind them end the list.
pub open spec fn source_names(s: Seq<char>, p: int) -> Seq<Seq<char>>
    decreases s.len() - p,
    when 0 <= p <= s.len()
{
    if p == s.len() {
        Seq::empty()
    } else {
        proof {
            lenient_end_bounds(s, p);
        }
        match lenient_end(s, p) {
            None => Seq::empty(),
            Some(q) => seq![source_name(s.subrange(p, q))] + source_names(s, q),
        }
    }
}

/// The source names of the types that a run of fragments writes: `ILjava/lang/String;`
/// gives `int` and `String`.
pub fn arg_java_names(fragments: &str) -> (names: Vec<String>)
    ensures
        views(names@) == source_names(fragments@, 0),
{
    let chars = chars_of(fragments);
    let ghost s = fragments@;
    let mut names: Vec<String> = Vec::new();
    let mut p: usize = 0;
    assert(views(names@) =~= Seq::<Seq<char>>::empty());
    assert(Seq::<Seq<char>>::empty() + source_names(s, 0) =~= source_names(s, 0));
    while p < chars.len()
        invariant
            p <= chars@.len(),
            chars@ == s,
            s == fragments@,
            views(names@) + source_names(s, p as int) == source_names(s, 0),
        decreases chars@.len() - p,
    {
        let b = skip_brackets(&chars, p);
        if b >= chars.len() {
            assert(views(names@) + Seq::<Seq<char>>::empty() =~= views(names@));
            return names;
        }
        let q: usize = if chars[b] == 'L' {
            let end = find_semicolon(chars.as_slice(), b);
            if end < chars.len() {
                end + 1
            } else {
                chars.len()
            }
        } else {
            b + 1
        };
        let token = chars_between(&chars, p, q);
        let ghost before = names@;
        assert(token@.skip(0) =~= token@);
        names.push(source_name_of(&token, 0));
        proof {
            let name = source_name(s.subrange(p as int, q as int));
            assert(views(names@) =~= views(before) + seq![name]);
            assert(views(names@) + source_names(s, q as int) =~= views(before) + (seq![name]
                + source_names(s, q as int)));
        }
        p = q;
    }
    assert(views(names@) + Seq::<Seq<char>>::empty() =~= views(names@));
    names
}

proof fn brackets_shift(s: Seq<char>, p: int, f: Seq<char>, k: int)
    requires
        0 <= p,
        p + f.len() <= s.len(),
        s.subrange(p, p + f.len()) == f,
        0 <= k <= f.len(),
        after_brackets(f, k) < f.len(),
    ensures
        after_brackets(s, p + k) == p + after_brackets(f, k),
    decreases f.len() - k,
{
    after_brackets_bounds(f, k);
    assert(s[p + k] == f[k]) by {
        assert(s.subrange(p, p + f.len())[k] == s[p + k]);
    }
    if f[k] == '[' {
        brackets_shift(s, p, f, k + 1);
    }
}

proof fn semicolon_shift(s: Seq<char>, p: int, f: Seq<char>, k: int)
    requires
        0 <= p,
        p + f.len() <= s.len(),
        s.subrange(p, p + f.len()) == f,
        0 <= k <= f.len(),
        semicolon(f, k) < f.len(),
    ensures
        semicolon(s, p + k) == p + semicolon(f, k),
    decreases f.len() - k,
{
    semicolon_bounds(f, k);
    assert(s[p + k] == f[k]) by {
        assert(s.subrange(p, p + f.len())[k] == s[p + k]);
    }
    if f[k] != ';' {
        semicolon_shift(s, p, f, k + 1);
    }
}

proof fn fragment_is_read(s: Seq<char>, p: int, f: Seq<char>)
    requires
        0 <= p,
        p + f.len() <= s.len(),
        s.subrange(p, p + f.len()) == f,
        is_fragment(f),
    ensures
        fragment_end(s, p) == Some(p + f.len()),
        lenient_end(s, p) == Some(p + f.len()),
{
    let b = after_brackets(f, 0);
    after_brackets_bounds(f, 0);
    brackets_shift(s, p, f, 0);
    assert(s[p + b] == f[b]) by {
        assert(s.subrange(p, p + f.len())[b] == s[p + b]);
    }
    if f[b] == 'L' {
        semicolon_shift(s, p, f, b);
    }
}

proof fn fragments_are_read(s: Seq<char>, p: int, end: int, fs: Seq<Seq<char>>)
    requires
        0 <= p <= end <= s.len(),
        s.subrange(p, end) == concat(fs),
        forall|k: int| 0 <= k < fs.len() ==> is_fragment(#[trigger] fs[k]),
    ensures
        end < s.len() && s[end] == ')' ==> fragments_until(s, p) == Some((fs, end)),
        end == s.len() ==> source_names(s, p) == Seq::new(
            fs.len(),
            |k: int| source_name(fs[k]),
        ),
    decreases fs.len(),
{
    let whole = s.subrange(p, end);
    if fs.len() == 0 {
        assert(whole.len() == 0);
        assert(fs =~= Seq::<Seq<char>>::empty());
        assert(Seq::new(fs.len(), |k: int| source_name(fs[k])) =~= Seq::<Seq<char>>::empty());
    } else {
        concat_first(fs);
        let f = fs[0];
        let rest = fs.drop_first();
        assert(is_fragment(f));
        fragment_end_bounds(f, 0);
        assert(whole =~= f + concat(rest));
        assert(whole.len() == end - p);
        assert(whole.len() == f.len() + concat(rest).len());
        assert(p + f.len() <= end);
        assert(s.subrange(p, p + f.len()) =~= f) by {
            assert(whole.take(f.len() as int) =~= f);
            assert(s.subrange(p, p + f.len()) =~= whole.take(f.len() as int));
        }
        assert(s[p] == f[0]) by {
            assert(s.subrange(p, p + f.len())[0] == s[p]);
        }
        fragment_is_read(s, p, f);
        let q = p + f.len();
        assert(s.subrange(q, end) =~= concat(rest)) by {
            assert(s.subrange(q, end) =~= whole.skip(f.len() as int));
        }
        assert forall|k: int| 0 <= k < rest.len() implies is_fragment(#[trigger] rest[k]) by {
            assert(rest[k] == fs[k + 1]);
        }
        fragments_are_read(s, q, end, rest);
        assert(seq![f] + rest =~= fs);
        assert(seq![source_name(f)] + Seq::new(rest.len(), |k: int| source_name(rest[k]))
            =~= Seq::new(fs.len(), |k: int| source_name(fs[k])));
    }
}

/// Splitting undoes joining: a descriptor made of fragments and a return type is split into
/// exactly these. So the split of a well-formed descriptor does not fail.
pub proof fn split_undoes_join(params: Seq<Seq<char>>, ret: Seq<char>)
    requires
        forall|k: int| 0 <= k < params.len() ==> is_fragment(#[trigger] params[k]),
        is_return(ret),
    ensures
        split_sig(crate::signature::descriptor(params, ret)) == Some((params, ret)),
{
    let s = crate::signature::descriptor(params, ret);
    let close = 1 + concat(params).len() as int;
    s.index_of_first_ensures('(');
    assert(s[0] == '(');
    assert(s.contains('('));
    assert(s[close] == ')');
    assert(s.subrange(1, close) =~= concat(params));
    fragments_are_read(s, 1, close, params);
    assert(s.subrange(close + 1, s.len() as int) =~= ret);
}

proof fn brackets_are_cut(s: Seq<char>, p: int, q: int, k: int)
    requires
        0 <= p <= k,
        after_brackets(s, k) < q <= s.len(),
    ensures
        after_brackets(s.subrange(p, q), k - p) == after_brackets(s, k) - p,
    decreases s.len() - k,
{
    if k < s.len() {
        after_brackets_bounds(s, k);
        assert(s.subrange(p, q)[k - p] == s[k]);
        if s[k] == '[' {
            brackets_are_cut(s, p, q, k + 1);
        }
    }
}

proof fn semicolon_is_cut(s: Seq<char>, p: int, q: int, k: int)
    requires
        0 <= p <= k,
        semicolon(s, k) < q <= s.len(),
    ensures
        semicolon(s.subrange(p, q), k - p) == semicolon(s, k) - p,
    decreases s.len() - k,
{
    if k < s.len() {
        semicolon_bounds(s, k);
        assert(s.subrange(p, q)[k - p] == s[k]);
        if s[k] != ';' {
            semicolon_is_cut(s, p, q, k + 1);
        }
    }
}

proof fn fragment_is_cut(s: Seq<char>, p: int)
    requires
        0 <= p <= s.len(),
        fragment_end(s, p) is Some,
    ensures
        is_fragment(s.subrange(p, fragment_end(s, p)->0)),
{
    let b = after_brackets(s, p);
    let q = fragment_end(s, p)->0;
    after_brackets_bounds(s, p);
    fragment_end_bounds(s, p);
    semicolon_bounds(s, b);
    brackets_are_cut(s, p, q, p);
    assert(s.subrange(p, q)[b - p] == s[b]);
    if !is_primitive_letter(s[b]) {
        semicolon_is_cut(s, p, q, b);
    }
}

proof fn fragments_are_cut(s: Seq<char>, p: int)
    requires
        0 <= p <= s.len(),
        fragments_until(s, p) is Some,
    ensures
        ({
            let (fs, close) = fragments_until(s, p)->0;
            &&& p <= close < s.len()
            &&& s[close] == ')'
            &&& concat(fs) == s.subrange(p, close)
            &&& forall|k: int| 0 <= k < fs.len() ==> is_fragment(#[trigger] fs[k])
        }),
    decreases s.len() - p,
{
    let (fs, close) = fragments_until(s, p)->0;
    if s[p] == ')' {
        assert(s.subrange(p, close) =~= Seq::empty());
    } else {
        let q = fragment_end(s, p)->0;
        fragment_end_bounds(s, p);
        fragment_is_cut(s, p);
        fragments_are_cut(s, q);
        let rest = (fragments_until(s, q)->0).0;
        assert(fs.drop_first() =~= rest);
        concat_first(fs);
        assert(s.subrange(p, close) =~= s.subrange(p, q) + s.subrange(q, close));
        assert forall|k: int| 0 <= k < fs.len() implies is_fragment(#[trigger] fs[k]) by {
            if k > 0 {
                assert(fs[k] == rest[k - 1]);
            }
        }
    }
}

/// What a descriptor is split into are fragments, and a return type.
pub proof fn split_gives_fragments(s: Seq<char>)
    requires
        split_sig(s) is Some,
    ensures
        is_return((split_sig(s)->0).1),
        forall|k: int|
            0 <= k < (split_sig(s)->0).0.len() ==> is_fragment(#[trigger] (split_sig(s)->0).0[k]),
{
    let open = s.index_of_first('(')->0;
    s.index_of_first_ensures('(');
    fragments_are_cut(s, open + 1);
}

/// Joining undoes splitting: the parts that a descriptor is split into make it up again.
pub proof fn join_undoes_split(s: Seq<char>)
    requires
        s.len() > 0,
        s[0] == '(',
        split_sig(s) is Some,
    ensures
        crate::signature::descriptor((split_sig(s)->0).0, (split_sig(s)->0).1) == s,
{
    s.index_of_first_ensures('(');
    assert(s.index_of_first('(') == Some(0int));
    fragments_are_cut(s, 1);
    assert(crate::signature::descriptor((split_sig(s)->0).0, (split_sig(s)->0).1) =~= s);
}

/// The argument names of a run of fragments are the names of its fragments, in order.
pub proof fn names_of_joined_fragments(fs: Seq<Seq<char>>)
    requires
        forall|k: int| 0 <= k < fs.len() ==> is_fragment(#[trigger] fs[k]),
    ensures
        source_names(concat(fs), 0) == Seq::new(fs.len(), |k: int| source_name(fs[k])),
{
    assert(concat(fs).subrange(0, concat(fs).len() as int) =~= concat(fs));
    fragments_are_read(concat(fs), 0, concat(fs).len() as int, fs);
}

/// A declared type without `Self` and `()` has exactly one fragment.
pub proof fn declared_types_have_one_fragment(m: Mapped, class: Seq<char>)
    requires
        well_formed(m),
        !has_self(m),
        !has_void(m),
    ensures
        is_fragment(fragment(m, class)),
    decreases m,
{
    let f = fragment(m, class);
    match m {
        Mapped::Prim(c) => {},
        Mapped::Str => {
            reveal_strlit("Ljava/lang/String;");
            semicolon_found(f, 0, 17);
        },
        Mapped::Object => {
            reveal_strlit("Ljava/lang/Object;");
            semicolon_found(f, 0, 17);
        },
        Mapped::SelfRef => {},
        Mapped::OptionOf(inner) => {
            declared_types_have_one_fragment(*inner, class);
        },
        Mapped::VecOf(inner) => {
            declared_types_have_one_fragment(*inner, class);
            let g = fragment(*inner, class);
            reveal_strlit("[");
            assert(f.len() == 1 + g.len());
            assert(f.subrange(1, 1int + g.len()) =~= g);
            fragment_is_read(f, 1, g);
            assert(after_brackets(f, 0) == after_brackets(f, 1));
        },
    }
}

/// A declared type other than `Self` is a return type of a descriptor, and so is `Self`
/// where the class name does not hold both `;` and `)`.
pub proof fn declared_types_are_returns(m: Mapped, class: Seq<char>)
    requires
        well_formed(m),
        m is SelfRef || !has_self(m),
        m is SelfRef ==> !(class.contains(';') && class.contains(')')),
    ensures
        is_return(fragment(m, class)),
{
    let f = fragment(m, class);
    if m is SelfRef {
        reveal_strlit("L");
        reveal_strlit(";");
        let last = f.len() - 1;
        if class.contains(')') {
            assert forall|k: int| 0 <= k < last implies f[k] != ';' by {
                if k > 0 {
                    assert(f[k] == class[k - 1]);
                }
            }
            semicolon_found(f, 0, last);
            assert(is_fragment(f));
        } else {
            assert forall|k: int| 0 <= k < f.len() implies f[k] != ')' by {
                if 0 < k < last {
                    assert(f[k] == class[k - 1]);
                }
            }
        }
    } else {
        no_parenthesis(m, class);
    }
}

proof fn no_parenthesis(m: Mapped, class: Seq<char>)
    requires
        well_formed(m),
        !has_self(m),
    ensures
        !fragment(m, class).contains(')'),
    decreases m,
{
    reveal_strlit("Ljava/lang/String;");
    reveal_strlit("Ljava/lang/Object;");
    reveal_strlit("[");
    match m {
        Mapped::OptionOf(inner) => {
            no_parenthesis(*inner, class);
        },
        Mapped::VecOf(inner) => {
            no_parenthesis(*inner, class);
            let f = fragment(m, class);
            let g = fragment(*inner, class);
            assert forall|k: int| 0 <= k < f.len() implies f[k] != ')' by {
                if k > 0 {
                    assert(f[k] == g[k - 1]);
                }
            }
        },
        _ => {},
    }
}

/// The class name that the interface macro matches a parameter by stands for the same
/// fragment that the binding macro computes for the type.
pub proof fn binary_name_has_the_fragment(m: Mapped, class: Seq<char>)
    requires
        well_formed(m),
        !has_self(m),
    ensures
        class_fragment(binary(m)) == fragment(m, class),
        replaced(element(m), '.', '/') == fragment(m, class),
    decreases m,
{
    reveal_strlit("boolean");
    reveal_strlit("byte");
    reveal_strlit("char");
    reveal_strlit("short");
    reveal_strlit("int");
    reveal_strlit("long");
    reveal_strlit("float");
    reveal_strlit("double");
    reveal_strlit("void");
    reveal_strlit("Z");
    reveal_strlit("B");
    reveal_strlit("C");
    reveal_strlit("S");
    reveal_strlit("I");
    reveal_strlit("J");
    reveal_strlit("F");
    reveal_strlit("D");
    reveal_strlit("V");
    reveal_strlit("L");
    reveal_strlit(";");
    reveal_strlit("[");
    keywords_differ();
    match m {
        Mapped::Prim(c) => {
            assert(class_fragment(binary(m)) =~= seq![c]);
            assert(replaced(element(m), '.', '/') =~= seq![c]);
        },
        Mapped::Str => {
            reveal_strlit("java.lang.String");
            reveal_strlit("Ljava.lang.String;");
            reveal_strlit("Ljava/lang/String;");
            assert(binary(m).len() == 16 && binary(m)[0] == 'j');
            assert(class_fragment(binary(m)) =~= "Ljava/lang/String;"@);
            assert(replaced(element(m), '.', '/') =~= "Ljava/lang/String;"@);
        },
        Mapped::Object => {
            reveal_strlit("java.lang.Object");
            reveal_strlit("Ljava.lang.Object;");
            reveal_strlit("Ljava/lang/Object;");
            assert(binary(m).len() == 16 && binary(m)[0] == 'j');
            assert(class_fragment(binary(m)) =~= "Ljava/lang/Object;"@);
            assert(replaced(element(m), '.', '/') =~= "Ljava/lang/Object;"@);
        },
        Mapped::SelfRef => {},
        Mapped::OptionOf(inner) => {
            binary_name_has_the_fragment(*inner, class);
        },
        Mapped::VecOf(inner) => {
            binary_name_has_the_fragment(*inner, class);
            let name = "["@ + element(*inner);
            assert(name[0] == '[');
            assert("boolean"@[0] == 'b');
            assert(replaced(name, '.', '/') =~= "["@ + replaced(element(*inner), '.', '/'));
        },
    }
}

proof fn keywords_differ()
    ensures
        "char"@ != "byte"@,
        "long"@ != "byte"@,
        "void"@ != "byte"@,
        "long"@ != "char"@,
        "void"@ != "char"@,
        "void"@ != "long"@,
        "short"@ != "float"@,
        "boolean"@.len() == 7,
        "byte"@.len() == 4,
        "char"@.len() == 4,
        "short"@.len() == 5,
        "int"@.len() == 3,
        "long"@.len() == 4,
        "float"@.len() == 5,
        "double"@.len() == 6,
        "void"@.len() == 4,
{
    reveal_strlit("boolean");
    reveal_strlit("byte");
    reveal_strlit("char");
    reveal_strlit("short");
    reveal_strlit("int");
    reveal_strlit("long");
    reveal_strlit("float");
    reveal_strlit("double");
    reveal_strlit("void");
    assert("char"@[0] == 'c' && "byte"@[0] == 'b' && "long"@[0] == 'l' && "void"@[0] == 'v');
    assert("short"@[0] == 's' && "float"@[0] == 'f');
}

/// Each of Java's keywords for a type has its letter.
pub proof fn keywords_have_their_letters()
    ensures
        class_fragment("boolean"@) == seq!['Z'],
        class_fragment("byte"@) == seq!['B'],
        class_fragment("char"@) == seq!['C'],
        class_fragment("short"@) == seq!['S'],
        class_fragment("int"@) == seq!['I'],
        class_fragment("long"@) == seq!['J'],
        class_fragment("float"@) == seq!['F'],
        class_fragment("double"@) == seq!['D'],
        class_fragment("void"@) == seq!['V'],
{
    reveal_strlit("Z");
    reveal_strlit("B");
    reveal_strlit("C");
    reveal_strlit("S");
    reveal_strlit("I");
    reveal_strlit("J");
    reveal_strlit("F");
    reveal_strlit("D");
    reveal_strlit("V");
    keywords_differ();
}

/// Any other class has the fragment that its name makes: an array's name with slashes in
/// place of dots, and the name of any other between `L` and `;`.
pub proof fn classes_have_their_fragments(name: Seq<char>, i: int)
    requires
        !is_primitive(name),
        name != "void"@,
    ensures
        name.len() > 0 && name[0] == '[' ==> {
            &&& class_fragment(name).len() == name.len()
            &&& 0 <= i < name.len() ==> class_fragment(name)[i] == (if name[i] == '.' {
                '/'
            } else {
                name[i]
            })
        },
        !(name.len() > 0 && name[0] == '[') ==> {
            &&& class_fragment(name).len() == name.len() + 2
            &&& class_fragment(name)[0] == 'L'
            &&& class_fragment(name).last() == ';'
            &&& 0 <= i < name.len() ==> class_fragment(name)[i + 1] == (if name[i] == '.' {
                '/'
            } else {
                name[i]
            })
        },
{
    reveal_strlit("L");
    reveal_strlit(";");
}

/// The primitive types are those whose fragment is a primitive letter.
pub proof fn primitives_are_single_letters(name: Seq<char>)
    ensures
        is_primitive(name) <==> class_fragment(name).len() == 1 && is_primitive_letter(
            class_fragment(name)[0],
        ),
{
    keywords_have_their_letters();
    if !is_primitive(name) && name != "void"@ {
        classes_have_their_fragments(name, 0);
    }
}

/// A fragment is a primitive letter, a class between `L` and its first `;`, or an array of
/// a fragment; nothing else is one.
pub proof fn fragments_are_letters_classes_and_arrays(f: Seq<char>, name: Seq<char>, c: char)
    ensures
        is_primitive_letter(c) ==> is_fragment(seq![c]),
        !name.contains(';') ==> is_fragment(seq!['L'] + name + seq![';']),
        is_fragment(seq!['['] + f) <==> is_fragment(f),
        is_fragment(f) && f[0] != '[' ==> {
            ||| f.len() == 1 && is_primitive_letter(f[0])
            ||| f.len() >= 2 && f[0] == 'L' && f.last() == ';' && forall|k: int|
                0 <= k < f.len() - 1 ==> #[trigger] f[k] != ';'
        },
        is_fragment(f) ==> f.len() > 0,
{
    let l = seq!['L'] + name + seq![';'];
    if !name.contains(';') {
        assert forall|k: int| 0 <= k < l.len() - 1 implies #[trigger] l[k] != ';' by {
            if k > 0 {
                assert(name.contains(name[k - 1]) ==> l[k] == name[k - 1]);
            }
        }
        semicolon_found(l, 0, l.len() - 1);
    }
    let a = seq!['['] + f;
    leading_bracket_shifts(f, 0);
    assert(after_brackets(a, 0) == after_brackets(a, 1));
    after_brackets_bounds(f, 0);
    let b = after_brackets(f, 0);
    semicolon_shifts(f, b);
    if is_fragment(f) && f[0] != '[' && f[0] == 'L' {
        semicolon_bounds(f, 0);
    }
}

proof fn leading_bracket_shifts(f: Seq<char>, p: int)
    requires
        0 <= p <= f.len(),
    ensures
        after_brackets(seq!['['] + f, p + 1) == after_brackets(f, p) + 1,
    decreases f.len() - p,
{
    let a = seq!['['] + f;
    if p < f.len() {
        assert(a[p + 1] == f[p]);
        leading_bracket_shifts(f, p + 1);
    }
}

proof fn semicolon_shifts(f: Seq<char>, p: int)
    requires
        0 <= p <= f.len(),
    ensures
        semicolon(seq!['['] + f, p + 1) == semicolon(f, p) + 1,
    decreases f.len() - p,
{
    let a = seq!['['] + f;
    if p < f.len() {
        assert(a[p + 1] == f[p]);
        semicolon_shifts(f, p + 1);
    }
}

/// The source name of a fragment: the keyword of a letter, the part behind the last slash
/// of a class, and for an array that of its element with `[]` behind it.
pub proof fn source_names_are_those_of_java(
    f: Seq<char>,
    package: Seq<char>,
    simple: Seq<char>,
)
    ensures
        source_name(seq!['Z']) == "boolean"@ && source_name(seq!['B']) == "byte"@,
        source_name(seq!['C']) == "char"@ && source_name(seq!['S']) == "short"@,
        source_name(seq!['I']) == "int"@ && source_name(seq!['J']) == "long"@,
        source_name(seq!['F']) == "float"@ && source_name(seq!['D']) == "double"@,
        source_name(seq!['V']) == "void"@,
        source_name(seq!['['] + f) == source_name(f) + "[]"@,
        !simple.contains('/') ==> source_name(seq!['L'] + package + seq!['/'] + simple + seq![';'])
            == simple,
        !simple.contains('/') ==> source_name(seq!['L'] + simple + seq![';']) == simple,
{
    assert((seq!['['] + f).drop_first() =~= f);
    if !simple.contains('/') {
        let inner = package + seq!['/'] + simple;
        let c = seq!['L'] + package + seq!['/'] + simple + seq![';'];
        assert(c.subrange(1, c.len() - 1) =~= inner);
        inner.index_of_last_ensures('/');
        assert(inner[package.len() as int] == '/');
        let at = inner.index_of_last('/')->0;
        if at > package.len() {
            assert(inner[at] == simple[at - package.len() - 1]);
            assert(simple.contains(inner[at]));
        }
        assert(at == package.len());
        assert(inner.subrange(at + 1, inner.len() as int) =~= simple);
        let d = seq!['L'] + simple + seq![';'];
        assert(d.subrange(1, d.len() - 1) =~= simple);
        simple.index_of_last_ensures('/');
    }
}

}
