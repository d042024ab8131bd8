use vstd::prelude::*;

use crate::text::{chars_of, concat, concat_first, decimal, numeral, replaced};

verus! {

/// What a descriptor letter stands for at the call boundary.
#[derive(Clone, Copy, PartialEq, Eq, Structural)]
pub enum Kind {
    /// `V`, valid as a return type only.
    Void,
    /// One of `Z B C S I J F D`.
    Prim(char),
    /// `L<name>;` or an array: an object reference.
    Ref,
}

/// One parsed type of a descriptor.
pub struct ParsedType {
    pub kind: Kind,
    /// The normalized fragment: dots of a class name are slashes.
    pub frag: String,
}

/// The mathematical content of a [`ParsedType`].
pub struct TypeModel {
    pub kind: Kind,
    pub frag: Seq<char>,
}

impl View for ParsedType {
    type V = TypeModel;

    open spec fn view(&self) -> TypeModel {
        TypeModel { kind: self.kind, frag: self.frag@ }
    }
}

/// The models of a run of parsed types.
pub open spec fn models(v: Seq<ParsedType>) -> Seq<TypeModel> {
    Seq::new(v.len(), |i: int| v[i]@)
}

/// The letters of the eight primitive types.
pub open spec fn is_primitive_letter(c: char) -> bool {
    c == 'Z' || c == 'B' || c == 'C' || c == 'S' || c == 'I' || c == 'J' || c == 'F' || c == 'D'
}

/// The characters a class name may be written with.
pub open spec fn is_class_name_char(c: char) -> bool {
    ||| 'a' <= c <= 'z'
    ||| 'A' <= c <= 'Z'
    ||| '0' <= c <= '9'
    ||| c == '/'
    ||| c == '.'
    ||| c == '$'
    ||| c == '_'
}

/// The first position from `from` on that holds `;`, or the length.
pub open spec fn semicolon(chars: Seq<char>, from: int) -> int
    decreases chars.len() - from,
{
    if from >= chars.len() || chars[from] == ';' {
        from
    } else {
        semicolon(chars, from + 1)
    }
}

/// The outcome of reading one type: the type or the complaint, and the position
/// that the reader has come to.
pub struct Reading {
    pub outcome: Result<TypeModel, Seq<char>>,
    pub next: int,
}

/// The type written from position `i` on.
pub open spec fn type_at(chars: Seq<char>, i: int, allow_void: bool) -> Reading {
    if i >= chars.len() {
        Reading { outcome: Err("unexpected end of signature"@), next: i }
    } else if is_primitive_letter(chars[i]) {
        Reading {
            outcome: Ok(TypeModel { kind: Kind::Prim(chars[i]), frag: seq![chars[i]] }),
            next: i + 1,
        }
    } else if chars[i] == 'V' {
        if allow_void {
            Reading { outcome: Ok(TypeModel { kind: Kind::Void, frag: "V"@ }), next: i + 1 }
        } else {
            Reading {
                outcome: Err("`V` is only valid as a return type, not as a parameter"@),
                next: i,
            }
        }
    } else if chars[i] == 'L' {
        class_at(chars, i)
    } else if chars[i] == '[' {
        array_at(chars, i)
    } else {
        Reading {
            outcome: Err(
                "unknown JNI type `"@ + seq![chars[i]]
                    + "` (expected Z B C S I J F D, `L<name>;`, `[<type>]`, or `V` as a return type)"@,
            ),
            next: i,
        }
    }
}

/// The class type `L<name>;` that starts at `i`.
pub open spec fn class_at(chars: Seq<char>, i: int) -> Reading {
    let end = semicolon(chars, i + 1);
    let name = chars.subrange(i + 1, end);
    if end >= chars.len() {
        Reading {
            outcome: Err("unterminated class name in `L<name>;` (missing `;`)"@),
            next: i,
        }
    } else if name.len() == 0 {
        Reading { outcome: Err("empty class name in `L<name>;`"@), next: i }
    } else if exists|k: int| 0 <= k < name.len() && !is_class_name_char(#[trigger] name[k]) {
        Reading {
            outcome: Err(
                "invalid character in class name `"@ + name
                    + "` (expected letters, digits, `/`, `.`, `$` or `_`)"@,
            ),
            next: i,
        }
    } else {
        Reading {
            outcome: Ok(
                TypeModel { kind: Kind::Ref, frag: "L"@ + replaced(name, '.', '/') + ";"@ },
            ),
            next: end + 1,
        }
    }
}

/// The array type that starts at `i`: one level, of a primitive or a class.
pub open spec fn array_at(chars: Seq<char>, i: int) -> Reading {
    let e = i + 1;
    if e >= chars.len() {
        Reading { outcome: Err("unterminated array type (missing element type)"@), next: e }
    } else if is_primitive_letter(chars[e]) {
        Reading {
            outcome: Ok(TypeModel { kind: Kind::Ref, frag: "["@ + seq![chars[e]] }),
            next: e + 1,
        }
    } else if chars[e] == 'L' {
        let end = semicolon(chars, e + 1);
        let name = chars.subrange(e + 1, end);
        if end >= chars.len() {
            Reading {
                outcome: Err("unterminated array element class name (missing `;`)"@),
                next: e,
            }
        } else if name.len() == 0 {
            Reading { outcome: Err("empty array element class name"@), next: e }
        } else {
            Reading {
                outcome: Ok(
                    TypeModel { kind: Kind::Ref, frag: "[L"@ + replaced(name, '.', '/') + ";"@ },
                ),
                next: end + 1,
            }
        }
    } else {
        Reading {
            outcome: Err(
                "bad array element type `"@ + seq![chars[e]]
                    + "` (expected a primitive letter or `L<name>;`)"@,
            ),
            next: e,
        }
    }
}

/// The first `;` from a position on is where the search says.
pub proof fn semicolon_bounds(chars: Seq<char>, from: int)
    requires
        0 <= from <= chars.len(),
    ensures
        from <= semicolon(chars, from) <= chars.len(),
        semicolon(chars, from) < chars.len() ==> chars[semicolon(chars, from)] == ';',
        forall|k: int| from <= k < semicolon(chars, from) ==> chars[k] != ';',
    decreases chars.len() - from,
{
    if from < chars.len() && chars[from] != ';' {
        semicolon_bounds(chars, from + 1);
    }
}

/// The search finds the first `;`.
pub proof fn semicolon_found(chars: Seq<char>, from: int, at: int)
    requires
        0 <= from <= at < chars.len(),
        chars[at] == ';',
        forall|k: int| from <= k < at ==> chars[k] != ';',
    ensures
        semicolon(chars, from) == at,
    decreases at - from,
{
    if from < at {
        semicolon_found(chars, from + 1, at);
    }
}

/// A type that is read ends behind where it started, and inside the text.
pub proof fn type_at_advances(chars: Seq<char>, i: int, allow_void: bool)
    requires
        0 <= i,
    ensures
        type_at(chars, i, allow_void).outcome is Ok ==> i < type_at(chars, i, allow_void).next
            <= chars.len(),
{
    if i < chars.len() {
        semicolon_bounds(chars, i + 1);
        if i + 1 < chars.len() {
            semicolon_bounds(chars, i + 2);
        }
    }
}

pub(crate) fn is_primitive_char(c: char) -> (r: bool)
    ensures
        r == is_primitive_letter(c),
{
    c == 'Z' || c == 'B' || c == 'C' || c == 'S' || c == 'I' || c == 'J' || c == 'F' || c == 'D'
}

fn is_name_char(c: char) -> (r: bool)
    ensures
        r == is_class_name_char(c),
{
    ('a' <= c && c <= 'z') || ('A' <= c && c <= 'Z') || ('0' <= c && c <= '9') || c == '/' || c
        == '.' || c == '$' || c == '_'
}

/// The position of the first `;` from `from` on, or the length.
pub(crate) fn find_semicolon(chars: &[char], from: usize) -> (end: usize)
    requires
        from <= chars@.len(),
    ensures
        end == semicolon(chars@, from as int),
        from <= end <= chars@.len(),
{
    let mut j: usize = from;
    while j < chars.len() && chars[j] != ';'
        invariant
            from <= j <= chars@.len(),
            semicolon(chars@, from as int) == semicolon(chars@, j as int),
        decreases chars@.len() - j,
    {
        j += 1;
    }
    j
}

fn single(c: char) -> (s: String)
    ensures
        s@ == seq![c],
{
    let mut s = String::new();
    s.push(c);
    assert(s@ =~= seq![c]);
    s
}

/// `prefix`, the class name between two positions with dots as slashes, and `;`.
fn class_fragment(prefix: &str, chars: &[char], start: usize, end: usize) -> (s: String)
    requires
        start <= end <= chars@.len(),
    ensures
        s@ == prefix@ + replaced(chars@.subrange(start as int, end as int), '.', '/') + ";"@,
{
    let mut s = prefix.to_owned();
    let ghost name = chars@.subrange(start as int, end as int);
    let mut k: usize = start;
    while k < end
        invariant
            start <= k <= end <= chars@.len(),
            name == chars@.subrange(start as int, end as int),
            s@ == prefix@ + replaced(name, '.', '/').take(k - start),
        decreases end - k,
    {
        if chars[k] == '.' {
            s.push('/');
        } else {
            s.push(chars[k]);
        }
        k += 1;
        assert(s@ =~= prefix@ + replaced(name, '.', '/').take(k - start));
    }
    assert(replaced(name, '.', '/').take(k - start) =~= replaced(name, '.', '/'));
    s.push_str(";");
    s
}

/// The text between two positions.
pub(crate) fn slice_text(chars: &[char], start: usize, end: usize) -> (s: String)
    requires
        start <= end <= chars@.len(),
    ensures
        s@ == chars@.subrange(start as int, end as int),
{
    let mut s = String::new();
    let mut k: usize = start;
    while k < end
        invariant
            start <= k <= end <= chars@.len(),
            s@ == chars@.subrange(start as int, k as int),
        decreases end - k,
    {
        s.push(chars[k]);
        k += 1;
        assert(s@ =~= chars@.subrange(start as int, k as int));
    }
    s
}

/// Whether only characters of class names stand between two positions.
fn all_name_chars(chars: &[char], start: usize, end: usize) -> (r: bool)
    requires
        start <= end <= chars@.len(),
    ensures
        r == !(exists|k: int|
            0 <= k < end - start && !is_class_name_char(
                #[trigger] chars@.subrange(start as int, end as int)[k],
            )),
{
    let ghost name = chars@.subrange(start as int, end as int);
    let mut k: usize = start;
    while k < end
        invariant
            start <= k <= end <= chars@.len(),
            name == chars@.subrange(start as int, end as int),
            forall|p: int| 0 <= p < k - start ==> is_class_name_char(#[trigger] name[p]),
        decreases end - k,
    {
        if !is_name_char(chars[k]) {
            assert(!is_class_name_char(name[k - start]));
            return false;
        }
        assert(name[k - start] == chars@[k as int]);
        k += 1;
    }
    true
}

/// Reads the type that starts at `*i` and moves `*i` behind it.
pub fn parse_type(chars: &[char], i: &mut usize, allow_void: bool) -> (r: Result<
    ParsedType,
    String,
>)
    ensures
        *final(i) == type_at(chars@, *old(i) as int, allow_void).next,
        *old(i) <= chars@.len() ==> *final(i) <= chars@.len(),
        match r {
            Ok(t) => type_at(chars@, *old(i) as int, allow_void).outcome == Ok::<
                TypeModel,
                Seq<char>,
            >(t@),
            Err(m) => type_at(chars@, *old(i) as int, allow_void).outcome == Err::<
                TypeModel,
                Seq<char>,
            >(m@),
        },
{
    if *i >= chars.len() {
        return Err("unexpected end of signature".to_owned());
    }
    let c = chars[*i];
    if is_primitive_char(c) {
        *i = *i + 1;
        return Ok(ParsedType { kind: Kind::Prim(c), frag: single(c) });
    }
    if c == 'V' {
        if allow_void {
            *i = *i + 1;
            return Ok(ParsedType { kind: Kind::Void, frag: "V".to_owned() });
        }
        return Err("`V` is only valid as a return type, not as a parameter".to_owned());
    }
    if c == 'L' {
        let start: usize = *i + 1;
        let end = find_semicolon(chars, start);
        if end >= chars.len() {
            return Err("unterminated class name in `L<name>;` (missing `;`)".to_owned());
        }
        if end == start {
            return Err("empty class name in `L<name>;`".to_owned());
        }
        if !all_name_chars(chars, start, end) {
            let mut m = "invalid character in class name `".to_owned();
            m.push_str(slice_text(chars, start, end).as_str());
            m.push_str("` (expected letters, digits, `/`, `.`, `$` or `_`)");
            return Err(m);
        }
        *i = end + 1;
        return Ok(ParsedType { kind: Kind::Ref, frag: class_fragment("L", chars, start, end) });
    }
    if c == '[' {
        *i = *i + 1;
        if *i >= chars.len() {
            return Err("unterminated array type (missing element type)".to_owned());
        }
        let e = chars[*i];
        if is_primitive_char(e) {
            *i = *i + 1;
            let mut frag = "[".to_owned();
            frag.push_str(single(e).as_str());
            return Ok(ParsedType { kind: Kind::Ref, frag });
        }
        if e == 'L' {
            let start: usize = *i + 1;
            let end = find_semicolon(chars, start);
            if end >= chars.len() {
                return Err("unterminated array element class name (missing `;`)".to_owned());
            }
            if end == start {
                return Err("empty array element class name".to_owned());
            }
            *i = end + 1;
            return Ok(
                ParsedType { kind: Kind::Ref, frag: class_fragment("[L", chars, start, end) },
            );
        }
        let mut m = "bad array element type `".to_owned();
        m.push_str(single(e).as_str());
        m.push_str("` (expected a primitive letter or `L<name>;`)");
        return Err(m);
    }
    let mut m = "unknown JNI type `".to_owned();
    m.push_str(single(c).as_str());
    m.push_str("` (expected Z B C S I J F D, `L<name>;`, `[<type>]`, or `V` as a return type)");
    Err(m)
}

/// The parameter types written from `i` on, up to and with the closing `)`.
pub open spec fn params_at(chars: Seq<char>, i: int) -> Result<(Seq<TypeModel>, int), Seq<char>>
    decreases chars.len() - i,
    when 0 <= i
{
    if i >= chars.len() {
        Err("unterminated parameter list — missing `)`"@)
    } else if chars[i] == ')' {
        Ok((Seq::empty(), i + 1))
    } else {
        proof {
            type_at_advances(chars, i, false);
        }
        let first = type_at(chars, i, false);
        match first.outcome {
            Err(m) => Err(m),
            Ok(t) => match params_at(chars, first.next) {
                Err(m) => Err(m),
                Ok((rest, j)) => Ok((seq![t] + rest, j)),
            },
        }
    }
}

/// The parameter units of one type: two for `long` and `double`, else one.
pub open spec fn unit(t: TypeModel) -> nat {
    if t.kind == Kind::Prim('J') || t.kind == Kind::Prim('D') {
        2
    } else {
        1
    }
}

/// The parameter units of a parameter list.
pub open spec fn units(ts: Seq<TypeModel>) -> nat
    decreases ts.len(),
{
    if ts.len() == 0 {
        0
    } else {
        units(ts.drop_last()) + unit(ts.last())
    }
}

/// How many parameter units a method may declare: an instance method's receiver
/// takes one of the 255.
pub open spec fn unit_limit(is_inst: bool) -> nat {
    if is_inst {
        254
    } else {
        255
    }
}

/// The complaint about a parameter list that is over the limit.
pub open spec fn too_many_message(is_inst: bool, needed: nat) -> Seq<char> {
    "too many parameters: the JVM method-descriptor limit is "@ + numeral(unit_limit(is_inst), 10)
        + " parameter units (JVMS §4.3.3; `long`/`double` count as 2 units"@ + receiver_note(is_inst)
        + ") and this signature needs "@ + numeral(needed, 10)
}

/// The remark on the receiver in [`too_many_message`].
pub open spec fn receiver_note(is_inst: bool) -> Seq<char> {
    if is_inst {
        " (the instance receiver `this` takes 1 of the 255, leaving 254)"@
    } else {
        Seq::empty()
    }
}

/// The parameters and the return type of the descriptor `(<params>)<ret>`.
pub open spec fn signature_of(chars: Seq<char>, is_inst: bool) -> Result<
    (Seq<TypeModel>, TypeModel),
    Seq<char>,
> {
    if chars.len() == 0 || chars[0] != '(' {
        Err("signature must start with `(` — e.g. \"(II)I\""@)
    } else {
        match params_at(chars, 1) {
            Err(m) => Err(m),
            Ok((params, i)) => if units(params) > unit_limit(is_inst) {
                Err(too_many_message(is_inst, units(params)))
            } else if i >= chars.len() {
                Err("missing return type after `)`"@)
            } else {
                let ret = type_at(chars, i, true);
                match ret.outcome {
                    Err(m) => Err(m),
                    Ok(t) => if ret.next != chars.len() {
                        Err(
                            "unexpected trailing characters after the return type: `"@
                                + chars.subrange(ret.next, chars.len() as int) + "`"@,
                        )
                    } else {
                        Ok((params, t))
                    },
                }
            },
        }
    }
}

proof fn units_bound(ts: Seq<TypeModel>)
    ensures
        units(ts) <= 2 * ts.len(),
    decreases ts.len(),
{
    if ts.len() > 0 {
        units_bound(ts.drop_last());
    }
}

/// Counts the parameter units of a parameter list.
pub fn count_units(params: &Vec<ParsedType>) -> (n: u128)
    ensures
        n == units(models(params@)),
{
    let mut n: u128 = 0;
    let mut k: usize = 0;
    while k < params.len()
        invariant
            k <= params.len(),
            n == units(models(params@).take(k as int)),
            n <= 2 * k,
        decreases params.len() - k,
    {
        let weight: u128 = match params[k].kind {
            Kind::Prim('J') | Kind::Prim('D') => 2,
            _ => 1,
        };
        proof {
            let next = models(params@).take(k as int + 1);
            assert(next.drop_last() =~= models(params@).take(k as int));
            assert(next.last() == params@[k as int]@);
        }
        n = n + weight;
        k += 1;
    }
    assert(models(params@).take(k as int) =~= models(params@));
    n
}

/// Parses a method descriptor `(<params>)<ret>`.
///
/// A method may declare at most 255 parameter units, where `long` and `double`
/// take two and every other parameter one; the receiver of an instance method
/// takes one of them.
pub fn parse_sig(sig: &str, is_inst: bool) -> (r: Result<(Vec<ParsedType>, ParsedType), String>)
    ensures
        match r {
            Ok((params, ret)) => signature_of(sig@, is_inst) == Ok::<
                (Seq<TypeModel>, TypeModel),
                Seq<char>,
            >((models(params@), ret@)),
            Err(m) => signature_of(sig@, is_inst) == Err::<
                (Seq<TypeModel>, TypeModel),
                Seq<char>,
            >(m@),
        },
{
    let chars = chars_of(sig);
    if chars.len() == 0 || chars[0] != '(' {
        return Err("signature must start with `(` — e.g. \"(II)I\"".to_owned());
    }
    let mut i: usize = 1;
    let mut params: Vec<ParsedType> = Vec::new();
    let slice = chars.as_slice();
    loop
        invariant_except_break
            match params_at(chars@, i as int) {
                Ok((rest, j)) => params_at(chars@, 1) == Ok::<(Seq<TypeModel>, int), Seq<char>>(
                    (models(params@) + rest, j),
                ),
                Err(m) => params_at(chars@, 1) == Err::<(Seq<TypeModel>, int), Seq<char>>(m),
            },
        invariant
            chars@ == sig@,
            slice@ == chars@,
            1 <= i <= chars@.len(),
            chars@.len() > 0 && chars@[0] == '(',
        ensures
            1 <= i <= chars@.len(),
            params_at(chars@, 1) == Ok::<(Seq<TypeModel>, int), Seq<char>>(
                (models(params@), i as int),
            ),
        decreases chars@.len() - i,
    {
        if i >= chars.len() {
            return Err("unterminated parameter list — missing `)`".to_owned());
        }
        if chars[i] == ')' {
            i += 1;
            assert(models(params@) + Seq::<TypeModel>::empty() =~= models(params@));
            break;
        }
        let ghost before = params@;
        let ghost at = i as int;
        proof {
            type_at_advances(chars@, at, false);
        }
        match parse_type(slice, &mut i, false) {
            Ok(t) => {
                params.push(t);
                proof {
                    assert(models(params@) =~= models(before) + seq![t@]);
                    match params_at(chars@, i as int) {
                        Ok((rest, j)) => {
                            assert(models(params@) + rest =~= models(before) + (seq![t@] + rest));
                        },
                        Err(m) => {},
                    }
                }
            },
            Err(m) => {
                return Err(m);
            },
        }
    }
    let needed = count_units(&params);
    let limit: u128 = if is_inst {
        254
    } else {
        255
    };
    if needed > limit {
        let mut m = "too many parameters: the JVM method-descriptor limit is ".to_owned();
        m.push_str(decimal(limit).as_str());
        m.push_str(" parameter units (JVMS §4.3.3; `long`/`double` count as 2 units");
        if is_inst {
            m.push_str(" (the instance receiver `this` takes 1 of the 255, leaving 254)");
        } else {
            assert(m@ + Seq::<char>::empty() =~= m@);
        }
        m.push_str(") and this signature needs ");
        m.push_str(decimal(needed).as_str());
        return Err(m);
    }
    if i >= chars.len() {
        return Err("missing return type after `)`".to_owned());
    }
    let ghost at = i as int;
    proof {
        type_at_advances(chars@, at, true);
    }
    match parse_type(slice, &mut i, true) {
        Err(m) => Err(m),
        Ok(ret) => {
            if i != chars.len() {
                let mut m = "unexpected trailing characters after the return type: `".to_owned();
                m.push_str(slice_text(slice, i, chars.len()).as_str());
                m.push_str("`");
                return Err(m);
            }
            Ok((params, ret))
        },
    }
}

/// Whether `s` is one type as a descriptor writes it: a primitive letter, `V` where
/// it is allowed, a class, or an array of a primitive or a class.
pub open spec fn is_type_text(s: Seq<char>, allow_void: bool) -> bool {
    ||| s.len() == 1 && (is_primitive_letter(s[0]) || allow_void && s[0] == 'V')
    ||| {
        &&& s.len() >= 3
        &&& s[0] == 'L'
        &&& s[s.len() - 1] == ';'
        &&& forall|k: int| 1 <= k < s.len() - 1 ==> is_class_name_char(#[trigger] s[k])
    }
    ||| s.len() == 2 && s[0] == '[' && is_primitive_letter(s[1])
    ||| {
        &&& s.len() >= 4
        &&& s[0] == '['
        &&& s[1] == 'L'
        &&& s[s.len() - 1] == ';'
        &&& forall|k: int| 2 <= k < s.len() - 1 ==> #[trigger] s[k] != ';'
    }
}

/// The type that `s` writes.
pub open spec fn type_of_text(s: Seq<char>) -> TypeModel {
    TypeModel {
        kind: if s.len() == 1 && s[0] == 'V' {
            Kind::Void
        } else if s.len() == 1 {
            Kind::Prim(s[0])
        } else {
            Kind::Ref
        },
        frag: replaced(s, '.', '/'),
    }
}

/// The types that the texts write.
pub open spec fn types_of_texts(texts: Seq<Seq<char>>) -> Seq<TypeModel> {
    Seq::new(texts.len(), |i: int| type_of_text(texts[i]))
}

/// The descriptor made of parameter texts and a return text.
pub open spec fn descriptor(params: Seq<Seq<char>>, ret: Seq<char>) -> Seq<char> {
    seq!['('] + concat(params) + seq![')'] + ret
}

/// The fragments of a parameter list.
pub open spec fn fragments(ts: Seq<TypeModel>) -> Seq<Seq<char>> {
    Seq::new(ts.len(), |i: int| ts[i].frag)
}

/// A well-formed type is read whole, wherever it stands, and the reader stops
/// right behind it.
pub proof fn type_text_is_read(chars: Seq<char>, i: int, s: Seq<char>, allow_void: bool)
    requires
        0 <= i,
        i + s.len() <= chars.len(),
        chars.subrange(i, i + s.len()) == s,
        is_type_text(s, allow_void),
    ensures
        type_at(chars, i, allow_void) == (Reading {
            outcome: Ok(type_of_text(s)),
            next: i + s.len(),
        }),
{
    reveal_strlit("V");
    reveal_strlit("L");
    reveal_strlit("[");
    reveal_strlit("[L");
    reveal_strlit(";");
    let n = s.len() as int;
    assert forall|k: int| 0 <= k < n implies chars[i + k] == s[k] by {
        assert(chars.subrange(i, i + n)[k] == s[k]);
    }
    assert(chars[i + 0] == s[0]);
    if n == 1 {
        assert(replaced(s, '.', '/') =~= seq![s[0]]);
        assert("V"@ =~= seq!['V']);
    } else if s[0] == 'L' {
        assert(chars[i + (n - 1)] == ';');
        assert forall|k: int| i + 1 <= k < i + n - 1 implies chars[k] != ';' by {
            assert(chars[i + (k - i)] == s[k - i]);
            assert(is_class_name_char(s[k - i]));
        }
        semicolon_found(chars, i + 1, i + n - 1);
        let name = chars.subrange(i + 1, i + n - 1);
        assert forall|k: int| 0 <= k < name.len() implies is_class_name_char(
            #[trigger] name[k],
        ) by {
            assert(chars[i + (k + 1)] == s[k + 1]);
        }
        assert("L"@ + replaced(name, '.', '/') + ";"@ =~= replaced(s, '.', '/')) by {
            assert forall|k: int| 1 <= k < n - 1 implies name[k - 1] == s[k] by {
                assert(chars[i + k] == s[k]);
            }
        }
    } else if n == 2 {
        assert(chars[i + 1] == s[1]);
        assert("["@ + seq![s[1]] =~= replaced(s, '.', '/'));
    } else {
        assert(chars[i + 1] == s[1]);
        assert(chars[i + (n - 1)] == ';');
        assert forall|k: int| i + 2 <= k < i + n - 1 implies chars[k] != ';' by {
            assert(chars[i + (k - i)] == s[k - i]);
        }
        semicolon_found(chars, i + 2, i + n - 1);
        let name = chars.subrange(i + 2, i + n - 1);
        assert("[L"@ + replaced(name, '.', '/') + ";"@ =~= replaced(s, '.', '/')) by {
            assert forall|k: int| 2 <= k < n - 1 implies name[k - 2] == s[k] by {
                assert(chars[i + k] == s[k]);
            }
        }
    }
}

/// Whatever is read as a type is a well-formed type, and is read as what it writes.
pub proof fn read_type_is_type_text(chars: Seq<char>, i: int, allow_void: bool)
    requires
        0 <= i,
        type_at(chars, i, allow_void).outcome is Ok,
    ensures
        ({
            let r = type_at(chars, i, allow_void);
            let s = chars.subrange(i, r.next);
            &&& i < r.next <= chars.len()
            &&& is_type_text(s, allow_void)
            &&& r.outcome == Ok::<TypeModel, Seq<char>>(type_of_text(s))
        }),
{
    type_at_advances(chars, i, allow_void);
    let r = type_at(chars, i, allow_void);
    let s = chars.subrange(i, r.next);
    assert(s[0] == chars[i]);
    semicolon_bounds(chars, i + 1);
    if i + 1 < chars.len() {
        semicolon_bounds(chars, i + 2);
    }
    if chars[i] == 'L' {
        let name = chars.subrange(i + 1, r.next - 1);
        assert forall|k: int| 1 <= k < s.len() - 1 implies is_class_name_char(
            #[trigger] s[k],
        ) by {
            assert(s[k] == name[k - 1]);
        }
        assert(s[s.len() - 1] == ';');
    } else if chars[i] == '[' {
        assert(s[1] == chars[i + 1]);
        if chars[i + 1] == 'L' {
            assert(s[s.len() - 1] == ';');
        }
    }
    assert(is_type_text(s, allow_void));
    assert(chars.subrange(i, i + s.len()) =~= s);
    type_text_is_read(chars, i, s, allow_void);
}

proof fn params_text_is_read(
    chars: Seq<char>,
    i: int,
    texts: Seq<Seq<char>>,
    tail: Seq<char>,
)
    requires
        0 <= i <= chars.len(),
        chars.subrange(i, chars.len() as int) == concat(texts) + seq![')'] + tail,
        forall|k: int| 0 <= k < texts.len() ==> is_type_text(#[trigger] texts[k], false),
    ensures
        params_at(chars, i) == Ok::<(Seq<TypeModel>, int), Seq<char>>(
            (types_of_texts(texts), i + concat(texts).len() + 1),
        ),
    decreases texts.len(),
{
    let whole = chars.subrange(i, chars.len() as int);
    assert(whole.len() == chars.len() - i);
    if texts.len() == 0 {
        assert(whole[0] == ')');
        assert(chars[i] == ')');
        assert(types_of_texts(texts) =~= Seq::<TypeModel>::empty());
    } else {
        concat_first(texts);
        let s = texts[0];
        let rest = texts.drop_first();
        assert(is_type_text(s, false));
        assert(whole =~= s + (concat(rest) + seq![')'] + tail));
        assert(chars.subrange(i, i + s.len()) =~= s) by {
            assert(whole.take(s.len() as int) =~= s);
            assert(chars.subrange(i, i + s.len()) =~= whole.take(s.len() as int));
        }
        type_text_is_read(chars, i, s, false);
        assert(chars[i] == s[0]) by {
            assert(chars.subrange(i, i + s.len())[0] == s[0]);
        }
        let j = i + s.len();
        assert(chars.subrange(j, chars.len() as int) =~= concat(rest) + seq![')'] + tail) by {
            assert(chars.subrange(j, chars.len() as int) =~= whole.skip(s.len() as int));
        }
        assert forall|k: int| 0 <= k < rest.len() implies is_type_text(
            #[trigger] rest[k],
            false,
        ) by {
            assert(rest[k] == texts[k + 1]);
        }
        params_text_is_read(chars, j, rest, tail);
        assert(seq![type_of_text(s)] + types_of_texts(rest) =~= types_of_texts(texts));
    }
}

/// Every descriptor of well-formed types that keeps within the unit limit is
/// accepted, and is parsed as those types.
pub proof fn well_formed_descriptors_parse(
    params: Seq<Seq<char>>,
    ret: Seq<char>,
    is_inst: bool,
)
    requires
        forall|k: int| 0 <= k < params.len() ==> is_type_text(#[trigger] params[k], false),
        is_type_text(ret, true),
    ensures
        units(types_of_texts(params)) <= unit_limit(is_inst) ==> signature_of(
            descriptor(params, ret),
            is_inst,
        ) == Ok::<(Seq<TypeModel>, TypeModel), Seq<char>>(
            (types_of_texts(params), type_of_text(ret)),
        ),
        units(types_of_texts(params)) > unit_limit(is_inst) ==> signature_of(
            descriptor(params, ret),
            is_inst,
        ) == Err::<(Seq<TypeModel>, TypeModel), Seq<char>>(
            too_many_message(is_inst, units(types_of_texts(params))),
        ),
{
    let chars = descriptor(params, ret);
    assert(chars[0] == '(');
    assert(chars.subrange(1, chars.len() as int) =~= concat(params) + seq![')'] + ret);
    params_text_is_read(chars, 1, params, ret);
    let i = 1 + concat(params).len() as int + 1;
    assert(chars.subrange(i, i + ret.len()) =~= ret);
    type_text_is_read(chars, i, ret, true);
}

proof fn read_params_are_texts(chars: Seq<char>, i: int) -> (texts: Seq<Seq<char>>)
    requires
        0 <= i <= chars.len(),
        params_at(chars, i) is Ok,
    ensures
        forall|k: int| 0 <= k < texts.len() ==> is_type_text(#[trigger] texts[k], false),
        params_at(chars, i)->Ok_0.0 == types_of_texts(texts),
        i < params_at(chars, i)->Ok_0.1 <= chars.len(),
        chars.subrange(i, params_at(chars, i)->Ok_0.1) == concat(texts) + seq![')'],
    decreases chars.len() - i,
{
    if chars[i] == ')' {
        let texts = Seq::<Seq<char>>::empty();
        assert(types_of_texts(texts) =~= Seq::<TypeModel>::empty());
        assert(chars.subrange(i, i + 1) =~= concat(texts) + seq![')']);
        texts
    } else {
        let first = type_at(chars, i, false);
        read_type_is_type_text(chars, i, false);
        let s = chars.subrange(i, first.next);
        let rest = read_params_are_texts(chars, first.next);
        let texts = seq![s] + rest;
        concat_first(texts);
        assert(texts.drop_first() =~= rest);
        assert(seq![type_of_text(s)] + types_of_texts(rest) =~= types_of_texts(texts));
        let end = params_at(chars, i)->Ok_0.1;
        assert(chars.subrange(i, end) =~= s + chars.subrange(first.next, end));
        assert(chars.subrange(i, end) =~= concat(texts) + seq![')']);
        assert forall|k: int| 0 <= k < texts.len() implies is_type_text(
            #[trigger] texts[k],
            false,
        ) by {
            if k > 0 {
                assert(texts[k] == rest[k - 1]);
            }
        }
        texts
    }
}

/// Nothing but a descriptor of well-formed types within the unit limit is accepted.
pub proof fn parsed_descriptors_are_well_formed(chars: Seq<char>, is_inst: bool)
    requires
        signature_of(chars, is_inst) is Ok,
    ensures
        exists|params: Seq<Seq<char>>, ret: Seq<char>|
            {
                &&& chars == #[trigger] descriptor(params, ret)
                &&& forall|k: int|
                    0 <= k < params.len() ==> is_type_text(#[trigger] params[k], false)
                &&& is_type_text(ret, true)
                &&& units(types_of_texts(params)) <= unit_limit(is_inst)
                &&& signature_of(chars, is_inst)->Ok_0 == (
                    types_of_texts(params),
                    type_of_text(ret),
                )
            },
{
    let params = read_params_are_texts(chars, 1);
    let i = params_at(chars, 1)->Ok_0.1;
    read_type_is_type_text(chars, i, true);
    let ret = chars.subrange(i, chars.len() as int);
    assert(chars =~= seq!['('] + chars.subrange(1, i) + ret);
    assert(chars =~= descriptor(params, ret));
}

/// Writing a parsed descriptor down in its normal form and parsing it again gives
/// the same types.
pub proof fn normal_form_reparses(chars: Seq<char>, is_inst: bool)
    requires
        signature_of(chars, is_inst) is Ok,
    ensures
        ({
            let (params, ret) = signature_of(chars, is_inst)->Ok_0;
            signature_of(descriptor(fragments(params), ret.frag), is_inst) == signature_of(
                chars,
                is_inst,
            )
        }),
{
    parsed_descriptors_are_well_formed(chars, is_inst);
    let (params, ret) = choose|params: Seq<Seq<char>>, ret: Seq<char>|
        {
            &&& chars == #[trigger] descriptor(params, ret)
            &&& forall|k: int| 0 <= k < params.len() ==> is_type_text(#[trigger] params[k], false)
            &&& is_type_text(ret, true)
            &&& units(types_of_texts(params)) <= unit_limit(is_inst)
            &&& signature_of(chars, is_inst)->Ok_0 == (types_of_texts(params), type_of_text(ret))
        };
    let normal = fragments(types_of_texts(params));
    assert forall|k: int| 0 <= k < normal.len() implies is_type_text(#[trigger] normal[k], false)
        && type_of_text(normal[k]) == type_of_text(params[k]) by {
        normal_text(params[k], false);
    }
    normal_text(ret, true);
    assert(types_of_texts(normal) =~= types_of_texts(params));
    well_formed_descriptors_parse(normal, type_of_text(ret).frag, is_inst);
}

proof fn normal_text(s: Seq<char>, allow_void: bool)
    requires
        is_type_text(s, allow_void),
    ensures
        is_type_text(replaced(s, '.', '/'), allow_void),
        type_of_text(replaced(s, '.', '/')) == type_of_text(s),
{
    let n = replaced(s, '.', '/');
    assert(replaced(n, '.', '/') =~= n);
    if s.len() >= 3 && s[0] == 'L' {
        assert forall|k: int| 1 <= k < n.len() - 1 implies is_class_name_char(#[trigger] n[k]) by {
            assert(is_class_name_char(s[k]));
        }
    } else if s.len() >= 4 {
        assert forall|k: int| 2 <= k < n.len() - 1 implies #[trigger] n[k] != ';' by {
            assert(s[k] != ';');
        }
    }
}

/// A `long` and a `double` take two units of a parameter list and every other type one, and
/// a method has 255 of them, of which the receiver of an instance method takes one.
pub proof fn units_are_counted_by_type(ts: Seq<TypeModel>, t: TypeModel)
    ensures
        units(Seq::empty()) == 0,
        units(ts.push(t)) == units(ts) + (if t.kind == Kind::Prim('J') || t.kind == Kind::Prim(
            'D',
        ) {
            2nat
        } else {
            1nat
        }),
        unit_limit(false) == 255,
        unit_limit(true) == 254,
{
    assert(ts.push(t).drop_last() =~= ts);
}

/// A parsed type shows its kind and its fragment, and a list of them each in its place.
pub proof fn parsed_types_are_what_they_show(v: Seq<ParsedType>, i: int)
    requires
        0 <= i < v.len(),
    ensures
        models(v).len() == v.len(),
        models(v)[i].kind == v[i].kind,
        models(v)[i].frag == v[i].frag@,
{
}

}
