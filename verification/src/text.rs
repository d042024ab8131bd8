use vstd::prelude::*;

verus! {

/// `String::push` appends one character.
pub assume_specification[ String::push ](s: &mut String, c: char)
    ensures
        final(s)@ == old(s)@.push(c),
;

/// `String::push_str` appends a string slice.
pub assume_specification[ String::push_str ](s: &mut String, t: &str)
    ensures
        final(s)@ == old(s)@ + t@,
;

/// `==` on string slices compares their characters.
pub assume_specification[ <str as PartialEq>::eq ](a: &str, b: &str) -> (r: bool)
    ensures
        r == (a@ == b@),
;

/// The characters of `s`.
pub fn chars_of(s: &str) -> (out: Vec<char>)
    ensures
        out@ == s@,
{
    let mut out: Vec<char> = Vec::new();
    for c in it: s.chars()
        invariant
            out@ == s@.take(it.index() as int),
            it.seq() == s@,
    {
        out.push(c);
        proof { assert(out@ =~= s@.take(it.index() as int + 1)); }
    }
    proof { assert(out@ =~= s@); }
    out
}

/// Whether two string slices hold the same characters.
pub fn same(a: &str, b: &str) -> (r: bool)
    ensures
        r == (a@ == b@),
{
    a.eq(b)
}

/// Whether `s` holds the character `c`.
pub fn contains_char(s: &str, c: char) -> (r: bool)
    ensures
        r == s@.contains(c),
{
    let chars = chars_of(s);
    let mut i: usize = 0;
    while i < chars.len()
        invariant
            i <= chars.len(),
            chars@ == s@,
            forall|k: int| 0 <= k < i ==> s@[k] != c,
        decreases chars.len() - i,
    {
        if chars[i] == c {
            assert(s@[i as int] == c);
            return true;
        }
        i += 1;
    }
    false
}

/// `s` with every `from` replaced by `to`.
pub open spec fn replaced(s: Seq<char>, from: char, to: char) -> Seq<char> {
    Seq::new(s.len(), |i: int| if s[i] == from { to } else { s[i] })
}

/// `s` with every `from` replaced by `to`.
pub fn replace_char(s: &str, from: char, to: char) -> (out: String)
    ensures
        out@ == replaced(s@, from, to),
{
    let chars = chars_of(s);
    let mut out = String::new();
    let mut i: usize = 0;
    while i < chars.len()
        invariant
            i <= chars.len(),
            chars@ == s@,
            out@ == replaced(s@, from, to).take(i as int),
        decreases chars.len() - i,
    {
        if chars[i] == from {
            out.push(to);
        } else {
            out.push(chars[i]);
        }
        i += 1;
        assert(out@ =~= replaced(s@, from, to).take(i as int));
    }
    assert(out@ =~= replaced(s@, from, to));
    out
}

/// The parts one after the other.
pub open spec fn concat(parts: Seq<Seq<char>>) -> Seq<char>
    decreases parts.len(),
{
    if parts.len() == 0 {
        Seq::empty()
    } else {
        concat(parts.drop_last()) + parts.last()
    }
}

/// A concatenation starts with its first part.
pub proof fn concat_first(parts: Seq<Seq<char>>)
    requires
        parts.len() > 0,
    ensures
        concat(parts) == parts[0] + concat(parts.drop_first()),
    decreases parts.len(),
{
    if parts.len() == 1 {
        assert(parts.drop_last() =~= Seq::<Seq<char>>::empty());
        assert(parts.drop_first() =~= Seq::<Seq<char>>::empty());
        assert(concat(parts) =~= parts[0] + concat(parts.drop_first()));
    } else {
        concat_first(parts.drop_last());
        assert(parts.drop_last().drop_first() =~= parts.drop_first().drop_last());
        assert(concat(parts) =~= parts[0] + concat(parts.drop_first()));
    }
}

/// The parts one after the other, with `sep` between neighbours.
pub open spec fn joined(parts: Seq<Seq<char>>, sep: Seq<char>) -> Seq<char>
    decreases parts.len(),
{
    if parts.len() == 0 {
        Seq::empty()
    } else if parts.len() == 1 {
        parts[0]
    } else {
        joined(parts.drop_last(), sep) + sep + parts.last()
    }
}

/// The characters of each string of a vector.
pub open spec fn views(v: Seq<String>) -> Seq<Seq<char>> {
    Seq::new(v.len(), |i: int| v[i]@)
}

/// Joins the strings with `sep` between neighbours.
pub fn join(parts: &Vec<String>, sep: &str) -> (out: String)
    ensures
        out@ == joined(views(parts@), sep@),
{
    let mut out = String::new();
    let mut i: usize = 0;
    while i < parts.len()
        invariant
            i <= parts.len(),
            out@ == joined(views(parts@).take(i as int), sep@),
        decreases parts.len() - i,
    {
        if i > 0 {
            out.push_str(sep);
        }
        out.push_str(parts[i].as_str());
        proof {
            let next = views(parts@).take(i as int + 1);
            assert(next.drop_last() =~= views(parts@).take(i as int));
            assert(next.last() == parts@[i as int]@);
            if i == 0 {
                assert(out@ =~= next[0]);
            }
        }
        i += 1;
    }
    assert(views(parts@).take(i as int) =~= views(parts@));
    out
}

/// The digit of value `d` below sixteen.
pub open spec fn digit_char(d: int) -> char {
    if d < 10 {
        (48 + d) as char
    } else {
        (87 + d) as char
    }
}

/// The usual notation of `n` in base `base`.
pub open spec fn numeral(n: nat, base: nat) -> Seq<char>
    decreases n,
{
    if base < 2 || n < base {
        seq![digit_char(n as int)]
    } else {
        proof {
            assert(n / base < n) by (nonlinear_arith)
                requires
                    n >= base,
                    base >= 2,
            ;
        }
        numeral(n / base, base).push(digit_char((n % base) as int))
    }
}

/// Writes `n` in base `base`, with lower-case letters above nine.
pub fn numeral_of(n: u128, base: u128) -> (out: String)
    requires
        2 <= base <= 16,
    ensures
        out@ == numeral(n as nat, base as nat),
    decreases n,
{
    if n < base {
        let d = digit_of(n as u8);
        let mut out = String::new();
        out.push(d);
        assert(out@ =~= seq![digit_char(n as int)]);
        out
    } else {
        assert(n / base < n) by (nonlinear_arith)
            requires
                n >= base,
                base >= 2,
        ;
        let mut out = numeral_of(n / base, base);
        out.push(digit_of((n % base) as u8));
        out
    }
}

fn digit_of(d: u8) -> (c: char)
    requires
        d < 16,
    ensures
        c == digit_char(d as int),
{
    if d < 10 {
        (48u8 + d) as char
    } else {
        (87u8 + d) as char
    }
}

/// Writes `n` in decimal.
pub fn decimal(n: u128) -> (out: String)
    ensures
        out@ == numeral(n as nat, 10),
{
    numeral_of(n, 10)
}

/// Whether `s` begins with `prefix`.
pub open spec fn begins_with(s: Seq<char>, prefix: Seq<char>) -> bool {
    prefix.len() <= s.len() && s.take(prefix.len() as int) == prefix
}

/// Whether `s` begins with `prefix`.
pub fn starts_with(s: &str, prefix: &str) -> (r: bool)
    ensures
        r == begins_with(s@, prefix@),
{
    let a = chars_of(s);
    let b = chars_of(prefix);
    if b.len() > a.len() {
        return false;
    }
    let mut i: usize = 0;
    while i < b.len()
        invariant
            i <= b.len() <= a.len(),
            a@ == s@,
            b@ == prefix@,
            forall|k: int| 0 <= k < i ==> s@[k] == prefix@[k],
        decreases b.len() - i,
    {
        if a[i] != b[i] {
            assert(s@.take(prefix@.len() as int)[i as int] == s@[i as int]);
            return false;
        }
        i += 1;
    }
    assert(s@.take(prefix@.len() as int) =~= prefix@);
    true
}

/// The upper-case form of a character, which may be more than one character.
pub uninterp spec fn uppercase(c: char) -> Seq<char>;

/// The lower-case form of a text.
pub uninterp spec fn lowercase(s: Seq<char>) -> Seq<char>;

/// `char::to_uppercase`: the characters that its iterator yields, in order. They are those
/// of the Unicode Character Database, in which nothing but the underscore itself has a form
/// with an underscore in it.
#[verifier::external_body]
pub(crate) fn upper(c: char) -> (out: String)
    ensures
        out@ == uppercase(c),
        c != '_' ==> !out@.contains('_'),
{
    c.to_uppercase().to_string()
}

/// `str::to_lowercase`.
#[verifier::external_body]
pub(crate) fn lower(s: &str) -> (out: String)
    ensures
        out@ == lowercase(s@),
{
    s.to_lowercase()
}

/// The words of a name, which underscores separate, put together with each first
/// character in upper case. `word_start` says whether the first character of `s`
/// starts a word.
pub open spec fn camel(s: Seq<char>, word_start: bool) -> Seq<char>
    decreases s.len(),
{
    if s.len() == 0 {
        Seq::empty()
    } else if s[0] == '_' {
        camel(s.drop_first(), true)
    } else if word_start {
        uppercase(s[0]) + camel(s.drop_first(), false)
    } else {
        seq![s[0]] + camel(s.drop_first(), false)
    }
}

/// The same with the upper-case form of each character given: `uppers[i]` is that of
/// `s[i]`.
pub open spec fn capitalised(
    s: Seq<char>,
    uppers: Seq<Seq<char>>,
    word_start: bool,
) -> Seq<char>
    decreases s.len(),
{
    if s.len() == 0 {
        Seq::empty()
    } else if s[0] == '_' {
        capitalised(s.drop_first(), uppers.drop_first(), true)
    } else if word_start {
        uppers[0] + capitalised(s.drop_first(), uppers.drop_first(), false)
    } else {
        seq![s[0]] + capitalised(s.drop_first(), uppers.drop_first(), false)
    }
}

/// The upper-case form of each character.
pub open spec fn uppercases(s: Seq<char>) -> Seq<Seq<char>> {
    Seq::new(s.len(), |i: int| uppercase(s[i]))
}

/// The CamelCase form of a name is put together from the upper-case forms of its
/// characters.
pub proof fn camel_is_capitalised(s: Seq<char>, word_start: bool)
    ensures
        camel(s, word_start) == capitalised(s, uppercases(s), word_start),
    decreases s.len(),
{
    if s.len() > 0 {
        assert(uppercases(s).drop_first() =~= uppercases(s.drop_first()));
        camel_is_capitalised(s.drop_first(), true);
        camel_is_capitalised(s.drop_first(), false);
    }
}

/// Puts the words of a name together, each first character in the upper-case form
/// that `uppers` holds for it.
pub fn capitalise(name: &str, uppers: &Vec<String>) -> (out: String)
    requires
        uppers@.len() == name@.len(),
    ensures
        out@ == capitalised(name@, views(uppers@), true),
{
    let chars = chars_of(name);
    let ghost us = views(uppers@);
    let ghost whole = capitalised(name@, us, true);
    let mut out = String::new();
    let mut word_start = true;
    let mut i: usize = 0;
    assert(name@.skip(0) =~= name@);
    assert(us.skip(0) =~= us);
    assert(Seq::<char>::empty() + whole =~= whole);
    while i < chars.len()
        invariant
            i <= chars.len(),
            chars@ == name@,
            us == views(uppers@),
            us.len() == name@.len(),
            out@ + capitalised(name@.skip(i as int), us.skip(i as int), word_start) == whole,
        decreases chars.len() - i,
    {
        let c = chars[i];
        let ghost rest = name@.skip(i as int);
        let ghost forms = us.skip(i as int);
        let ghost before = out@;
        let ghost tail = capitalised(rest.drop_first(), forms.drop_first(), false);
        assert(rest[0] == c);
        assert(forms[0] == uppers@[i as int]@);
        assert(rest.drop_first() =~= name@.skip(i as int + 1));
        assert(forms.drop_first() =~= us.skip(i as int + 1));
        if c == '_' {
            word_start = true;
        } else if word_start {
            out.push_str(uppers[i].as_str());
            word_start = false;
            assert(out@ + tail =~= before + (forms[0] + tail));
        } else {
            out.push(c);
            assert(out@ + tail =~= before + (seq![c] + tail));
        }
        i += 1;
    }
    assert(name@.skip(i as int) =~= Seq::<char>::empty());
    assert(out@ + Seq::<char>::empty() =~= out@);
    out
}

/// The CamelCase form of a name: `user_id` becomes `UserId`. A word starts behind
/// an underscore, and nothing else. No underscore is left.
pub fn camel_case(name: &str) -> (out: String)
    ensures
        out@ == camel(name@, true),
        !out@.contains('_'),
{
    let chars = chars_of(name);
    let mut uppers: Vec<String> = Vec::new();
    let mut i: usize = 0;
    while i < chars.len()
        invariant
            i <= chars.len(),
            chars@ == name@,
            views(uppers@) == uppercases(name@).take(i as int),
            forall|k: int|
                0 <= k < i && name@[k] != '_' ==> !uppercase(#[trigger] name@[k]).contains('_'),
        decreases chars.len() - i,
    {
        let ghost before = uppers@;
        uppers.push(upper(chars[i]));
        i += 1;
        proof {
            assert(views(before) =~= views(uppers@).drop_last());
            assert(views(uppers@) =~= uppercases(name@).take(i as int));
        }
    }
    proof {
        assert(uppercases(name@).take(i as int) =~= uppercases(name@));
        assert(views(uppers@).len() == uppers@.len());
        camel_is_capitalised(name@, true);
        camel_case_holds_no_underscore(name@, true);
    }
    capitalise(name, &uppers)
}

proof fn camel_case_holds_no_underscore(s: Seq<char>, word_start: bool)
    requires
        forall|i: int| 0 <= i < s.len() && s[i] != '_' ==> !uppercase(#[trigger] s[i]).contains('_'),
    ensures
        !camel(s, word_start).contains('_'),
    decreases s.len(),
{
    if s.len() > 0 {
        let rest = s.drop_first();
        assert forall|i: int| 0 <= i < rest.len() && rest[i] != '_' implies !uppercase(
            #[trigger] rest[i],
        ).contains('_') by {
            assert(rest[i] == s[i + 1]);
        }
        camel_case_holds_no_underscore(rest, true);
        camel_case_holds_no_underscore(rest, false);
        let c = camel(s, word_start);
        if c.contains('_') {
            let k = choose|k: int| 0 <= k < c.len() && c[k] == '_';
            let tail = camel(rest, false);
            if s[0] != '_' {
                let head = if word_start {
                    uppercase(s[0])
                } else {
                    seq![s[0]]
                };
                assert(c == head + tail);
                if k < head.len() {
                    assert(head[k] == '_');
                } else {
                    assert(tail[k - head.len()] == '_');
                }
            }
        }
    }
}

/// The value of a digit, in decimal and beyond with lower-case letters.
pub open spec fn digit_value(c: char) -> int {
    if '0' <= c && c <= '9' {
        c as int - '0' as int
    } else {
        c as int - 'a' as int + 10
    }
}

/// The number that a row of digits denotes.
pub open spec fn denotes(s: Seq<char>, base: int) -> int
    decreases s.len(),
{
    if s.len() == 0 {
        0
    } else {
        denotes(s.drop_last(), base) * base + digit_value(s.last())
    }
}

/// The notation of a number denotes it: it has digits of its base only, and no leading
/// zero unless it is the zero.
pub proof fn numerals_denote_their_numbers(n: nat, base: nat)
    requires
        2 <= base <= 16,
    ensures
        numeral(n, base).len() > 0,
        denotes(numeral(n, base), base as int) == n,
        numeral(n, base)[0] == '0' ==> n == 0,
        forall|i: int|
            0 <= i < numeral(n, base).len() ==> {
                let c = #[trigger] numeral(n, base)[i];
                ('0' <= c && c <= '9' || 'a' <= c && c <= 'f') && digit_value(c) < base
            },
    decreases n,
{
    let s = numeral(n, base);
    let d = if n < base {
        n as int
    } else {
        (n % base) as int
    };
    assert(0 <= d < base) by {
        if n >= base {
            assert(n % base < base) by (nonlinear_arith)
                requires
                    base >= 2,
            ;
        }
    }
    assert(digit_char(d) as int == if d < 10 { 48 + d } else { 87 + d });
    assert(digit_value(digit_char(d)) == d);
    if n < base {
        assert(s =~= seq![digit_char(d)]);
        assert(s.drop_last() =~= Seq::empty());
        assert(denotes(s.drop_last(), base as int) == 0);
        assert(denotes(s, base as int) == 0 * (base as int) + d);
        assert(0 * (base as int) == 0) by (nonlinear_arith);
    } else {
        assert(n / base < n && n / base > 0) by (nonlinear_arith)
            requires
                n >= base,
                base >= 2,
        ;
        numerals_denote_their_numbers(n / base, base);
        let head = numeral(n / base, base);
        assert(s == head.push(digit_char(d)));
        assert(s.drop_last() =~= head);
        assert(s.last() == digit_char(d));
        assert((n / base) * base + n % base == n) by (nonlinear_arith)
            requires
                base >= 2,
        ;
        assert forall|i: int| 0 <= i < s.len() implies ({
            let c = #[trigger] s[i];
            ('0' <= c && c <= '9' || 'a' <= c && c <= 'f') && digit_value(c) < base
        }) by {
            if i < head.len() {
                assert(s[i] == head[i]);
            }
        }
    }
}

/// Parts are put together in order, each behind those before it, with the separator between
/// neighbours and nowhere else.
pub proof fn parts_are_put_together_in_order(
    parts: Seq<Seq<char>>,
    last: Seq<char>,
    sep: Seq<char>,
)
    ensures
        concat(Seq::<Seq<char>>::empty()) == Seq::<char>::empty(),
        concat(parts.push(last)) == concat(parts) + last,
        joined(Seq::<Seq<char>>::empty(), sep) == Seq::<char>::empty(),
        parts.len() == 0 ==> joined(parts.push(last), sep) == last,
        parts.len() > 0 ==> joined(parts.push(last), sep) == joined(parts, sep) + sep + last,
{
    assert(parts.push(last).drop_last() =~= parts);
    assert(parts.push(last).last() == last);
}

/// A replacement changes the one character, wherever it stands, and nothing else.
pub proof fn replacements_change_one_character(s: Seq<char>, from: char, to: char, i: int)
    requires
        0 <= i < s.len(),
    ensures
        replaced(s, from, to).len() == s.len(),
        s[i] == from ==> replaced(s, from, to)[i] == to,
        s[i] != from ==> replaced(s, from, to)[i] == s[i],
{
}

/// A text begins with a prefix where the prefix and something behind it make the text.
pub proof fn prefixes_come_first(prefix: Seq<char>, rest: Seq<char>, s: Seq<char>)
    ensures
        begins_with(prefix + rest, prefix),
        begins_with(s, prefix) ==> s == prefix + s.skip(prefix.len() as int),
{
    assert((prefix + rest).take(prefix.len() as int) =~= prefix);
    if begins_with(s, prefix) {
        assert(s =~= s.take(prefix.len() as int) + s.skip(prefix.len() as int));
    }
}

/// The CamelCase form of a name goes word by word: an underscore ends a word and is
/// dropped, the first character of a word becomes upper case, and the others stay.
pub proof fn camel_case_goes_word_by_word(a: Seq<char>, b: Seq<char>, word_start: bool)
    ensures
        camel(Seq::empty(), word_start) == Seq::<char>::empty(),
        camel(a + seq!['_'] + b, word_start) == camel(a, word_start) + camel(b, true),
        !a.contains('_') ==> camel(a, false) == a,
        a.len() > 0 && !a.contains('_') ==> camel(a, true) == uppercase(a[0]) + a.drop_first(),
    decreases a.len(),
{
    let whole = a + seq!['_'] + b;
    if a.len() == 0 {
        assert(whole.drop_first() =~= b);
        assert(whole[0] == '_');
        assert(Seq::<char>::empty() + camel(b, true) =~= camel(b, true));
    } else {
        let rest = a.drop_first();
        assert(whole[0] == a[0]);
        assert(whole.drop_first() =~= rest + seq!['_'] + b);
        camel_case_goes_word_by_word(rest, b, true);
        camel_case_goes_word_by_word(rest, b, false);
        let tail = camel(b, true);
        assert(uppercase(a[0]) + (camel(rest, false) + tail) =~= uppercase(a[0]) + camel(rest, false)
            + tail);
        assert(seq![a[0]] + (camel(rest, false) + tail) =~= seq![a[0]] + camel(rest, false) + tail);
        if !a.contains('_') {
            assert(a[0] != '_') by {
                assert(a.contains(a[0]));
            }
            assert(!rest.contains('_')) by {
                if rest.contains('_') {
                    let k = choose|k: int| 0 <= k < rest.len() && rest[k] == '_';
                    assert(a[k + 1] == '_');
                }
            }
            assert(seq![a[0]] + rest =~= a);
        }
    }
}

/// A text begins with a prefix where it is as long, and has its characters one by one.
pub proof fn prefixes_are_compared(s: Seq<char>, prefix: Seq<char>)
    ensures
        begins_with(s, prefix) <==> prefix.len() <= s.len() && forall|k: int|
            0 <= k < prefix.len() ==> s[k] == #[trigger] prefix[k],
{
    if begins_with(s, prefix) {
        assert forall|k: int| 0 <= k < prefix.len() implies s[k] == #[trigger] prefix[k] by {
            assert(s.take(prefix.len() as int)[k] == prefix[k]);
        }
    }
    if prefix.len() <= s.len() && forall|k: int|
        0 <= k < prefix.len() ==> s[k] == #[trigger] prefix[k] {
        assert(s.take(prefix.len() as int) =~= prefix);
    }
}

}
