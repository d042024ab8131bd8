use vstd::prelude::*;

use crate::gather::{
    all_invocation_questions, answers, are_answers, declaration_questions, invocation_questions,
    knows_declaration, knows_invocation,
};
use crate::reader::{PieceModel, Reader, ReaderModel};
use crate::rust_source::{OutlineModel, TypeOutline};
use crate::text::same;

verus! {

/// The delimiters of a token group.
#[derive(Clone, Copy, PartialEq, Eq, Structural)]
pub enum Delim {
    Paren,
    Brace,
    Bracket,
}

/// What one token of a macro invocation is.
pub enum TokenKind {
    /// An identifier or a keyword.
    Ident(String),
    /// A punctuation character; the flag says that the next one follows at once.
    Punct(char, bool),
    /// A literal, as its source text.
    Literal(String),
    Open(Delim),
    Close(Delim),
}

/// One token of a macro invocation, in a flat list.
pub struct Token {
    pub kind: TokenKind,
    /// How many invisible groups the token stands in; the fragments of another macro
    /// come in such groups.
    pub depth: usize,
}

/// The mathematical content of a [`TokenKind`].
pub enum Lexeme {
    Ident(Seq<char>),
    Punct(char, bool),
    Literal(Seq<char>),
    Open(Delim),
    Close(Delim),
}

/// The mathematical content of a [`Token`].
pub struct TokenModel {
    pub kind: Lexeme,
    pub depth: nat,
}

impl View for Token {
    type V = TokenModel;

    open spec fn view(&self) -> TokenModel {
        TokenModel {
            kind: match self.kind {
                TokenKind::Ident(s) => Lexeme::Ident(s@),
                TokenKind::Punct(c, joint) => Lexeme::Punct(c, joint),
                TokenKind::Literal(s) => Lexeme::Literal(s@),
                TokenKind::Open(d) => Lexeme::Open(d),
                TokenKind::Close(d) => Lexeme::Close(d),
            },
            depth: self.depth as nat,
        }
    }
}

/// The contents of a run of tokens.
pub open spec fn lexed(tokens: Seq<Token>) -> Seq<TokenModel> {
    Seq::new(tokens.len(), |i: int| tokens[i]@)
}

/// A complaint about a macro invocation and the token it is about.
pub struct MacroError {
    pub at: usize,
    pub message: String,
}

/// The mathematical content of a [`MacroError`].
pub struct Fault {
    pub at: int,
    pub message: Seq<char>,
}

impl View for MacroError {
    type V = Fault;

    open spec fn view(&self) -> Fault {
        Fault { at: self.at as int, message: self.message@ }
    }
}

/// The text of one token, and a space unless the next one follows at once.
pub open spec fn lexeme_text(l: Lexeme) -> Seq<char> {
    match l {
        Lexeme::Ident(s) => s + seq![' '],
        Lexeme::Punct(c, joint) => if joint {
            seq![c]
        } else {
            seq![c, ' ']
        },
        Lexeme::Literal(s) => s + seq![' '],
        Lexeme::Open(Delim::Paren) => seq!['(', ' '],
        Lexeme::Open(Delim::Brace) => seq!['{', ' '],
        Lexeme::Open(Delim::Bracket) => seq!['[', ' '],
        Lexeme::Close(Delim::Paren) => seq![')', ' '],
        Lexeme::Close(Delim::Brace) => seq!['}', ' '],
        Lexeme::Close(Delim::Bracket) => seq![']', ' '],
    }
}

/// The source text of the tokens from `from` up to `to`.
pub open spec fn run_text(ts: Seq<TokenModel>, from: int, to: int) -> Seq<char>
    decreases to - from,
{
    if to <= from {
        Seq::empty()
    } else {
        run_text(ts, from, to - 1) + lexeme_text(ts[to - 1].kind)
    }
}

/// In how many invisible groups the token at `p` stands; in none behind the last.
pub open spec fn depth_at(ts: Seq<TokenModel>, p: int) -> nat {
    if p < ts.len() {
        ts[p].depth
    } else {
        0
    }
}

/// Where the run of tokens starts that stand in `depth` invisible groups or more and end
/// with `k`.
pub open spec fn group_start(ts: Seq<TokenModel>, k: int, depth: nat) -> int
    decreases k,
{
    if k > 0 && ts[k - 1].depth >= depth {
        group_start(ts, k - 1, depth)
    } else {
        k
    }
}

/// Whether a type starts at `p`, in the type that starts at `from`: not before that type,
/// and not inside a path.
pub open spec fn type_may_start(ts: Seq<TokenModel>, from: int, p: int) -> bool {
    p >= from && !(p > from && punct_at(ts, p - 1, p, ':'))
}

/// Where the outermost of the invisible groups starts that end with the token at `k`,
/// that hold it at level `depth` or deeper, and with which a type starts.
pub open spec fn outermost_group(ts: Seq<TokenModel>, from: int, k: int, depth: nat) -> Option<int>
    decreases ts[k].depth + 1 - depth,
{
    if depth > ts[k].depth {
        None
    } else if type_may_start(ts, from, group_start(ts, k, depth)) {
        Some(group_start(ts, k, depth))
    } else {
        outermost_group(ts, from, k, depth + 1)
    }
}

/// Whether a path can start with that token.
pub open spec fn starts_path(l: Lexeme) -> bool {
    match l {
        Lexeme::Ident(_) => true,
        Lexeme::Punct(c, _) => c == ':' || c == '<',
        _ => false,
    }
}

/// Whether the path in the invisible group from `s` up to `k` goes on behind the group:
/// where `<` or `::` follows, the group is part of a longer path.
pub open spec fn path_goes_on(ts: Seq<TokenModel>, s: int, k: int, to: int) -> bool {
    &&& ts[k].depth == depth_at(ts, k + 1) + 1
    &&& starts_path(ts[s].kind)
    &&& punct_at(ts, k + 1, to, '<') || pair_at(ts, k + 1, to, ':', ':')
}

/// Where the invisible group starts that ends with the token at `k` and is a type of its
/// own, in the type between `from` and `to`.
pub open spec fn group_type(ts: Seq<TokenModel>, from: int, to: int, k: int) -> Option<int> {
    match outermost_group(ts, from, k, depth_at(ts, k + 1) + 1) {
        Some(s) => if path_goes_on(ts, s, k, to) {
            None
        } else {
            Some(s)
        },
        None => None,
    }
}

/// A group that is a type of its own starts inside the type.
pub proof fn group_type_bounds(ts: Seq<TokenModel>, from: int, to: int, k: int)
    ensures
        group_type(ts, from, to, k) matches Some(s) ==> from <= s <= k,
{
    outermost_group_bounds(ts, from, k, depth_at(ts, k + 1) + 1);
}

proof fn outermost_group_bounds(ts: Seq<TokenModel>, from: int, k: int, depth: nat)
    ensures
        outermost_group(ts, from, k, depth) matches Some(s) ==> from <= s <= k,
    decreases ts[k].depth + 1 - depth,
{
    if depth <= ts[k].depth {
        group_start_bounds(ts, k, depth);
        outermost_group_bounds(ts, from, k, depth + 1);
    }
}

proof fn group_start_bounds(ts: Seq<TokenModel>, k: int, depth: nat)
    ensures
        group_start(ts, k, depth) <= k,
        0 <= k ==> 0 <= group_start(ts, k, depth),
    decreases k,
{
    if k > 0 && ts[k - 1].depth >= depth {
        group_start_bounds(ts, k - 1, depth);
    }
}

/// What stands for a group that is a type of its own where the type is read: a type that
/// has no mapping, `!`, in a form that a path can follow where one does.
pub open spec fn group_text(ts: Seq<TokenModel>, k: int, to: int) -> Seq<char> {
    if pair_at(ts, k + 1, to, ':', ':') {
        "< ! > "@
    } else {
        "! "@
    }
}

/// The text by which the shape of the type between `from` and `to` is read, up to `e`. It
/// is the source text, with the invisible groups that are types of their own closed.
pub open spec fn shape_text(ts: Seq<TokenModel>, from: int, to: int, e: int) -> Seq<char>
    decreases e - from,
{
    if e <= from {
        Seq::empty()
    } else {
        proof {
            group_type_bounds(ts, from, to, e - 1);
        }
        match group_type(ts, from, to, e - 1) {
            Some(s) => shape_text(ts, from, to, s) + group_text(ts, e - 1, to),
            None => shape_text(ts, from, to, e - 1) + lexeme_text(ts[e - 1].kind),
        }
    }
}

/// The shape of a type that came through no invisible group is read by its source text.
pub proof fn plain_types_are_read_as_written(ts: Seq<TokenModel>, from: int, to: int, e: int)
    requires
        forall|k: int| from <= k < to ==> (#[trigger] ts[k]).depth == 0,
        e <= to,
    ensures
        shape_text(ts, from, to, e) == run_text(ts, from, e),
    decreases e - from,
{
    if e > from {
        assert(ts[e - 1].depth == 0);
        plain_types_are_read_as_written(ts, from, to, e - 1);
    }
}

/// Whether the punctuation `c` stands at `p`.
pub open spec fn punct_at(ts: Seq<TokenModel>, p: int, end: int, c: char) -> bool {
    p < end && (ts[p].kind matches Lexeme::Punct(x, _) && x == c)
}

/// Whether the two characters stand at `p`, one right behind the other.
pub open spec fn pair_at(ts: Seq<TokenModel>, p: int, end: int, a: char, b: char) -> bool {
    p < end && ts[p].kind == Lexeme::Punct(a, true) && punct_at(ts, p + 1, end, b)
}

/// Whether the word stands at `p`.
pub open spec fn word_at(ts: Seq<TokenModel>, p: int, end: int, w: Seq<char>) -> bool {
    p < end && ts[p].kind == Lexeme::Ident(w)
}

/// Whether a group of that kind opens at `p`.
pub open spec fn open_at(ts: Seq<TokenModel>, p: int, end: int, d: Delim) -> bool {
    p < end && ts[p].kind == Lexeme::Open(d)
}

/// The identifier at `p`.
pub open spec fn ident_at(
    known: ReaderModel,
    ts: Seq<TokenModel>,
    p: int,
    end: int,
) -> Result<Seq<char>, Fault> {
    if p < end && (ts[p].kind matches Lexeme::Ident(s) && known.is_identifier(s)) {
        Ok(ts[p].kind->Ident_0)
    } else {
        Err(Fault { at: p, message: "expected identifier"@ })
    }
}

/// The value of the string literal at `p`.
pub open spec fn string_at(
    known: ReaderModel,
    ts: Seq<TokenModel>,
    p: int,
    end: int,
) -> Option<Seq<char>> {
    if p < end {
        match ts[p].kind {
            Lexeme::Literal(s) => known.string_value(s),
            _ => None,
        }
    } else {
        None
    }
}

/// The position of the token that closes the group around `p`, where `depth` groups
/// inside it are still open.
pub open spec fn close_from(ts: Seq<TokenModel>, p: int, end: int, depth: nat) -> Option<int>
    decreases end - p,
{
    if p >= end {
        None
    } else {
        match ts[p].kind {
            Lexeme::Open(_) => close_from(ts, p + 1, end, depth + 1),
            Lexeme::Close(_) => if depth == 0 {
                Some(p)
            } else {
                close_from(ts, p + 1, end, (depth - 1) as nat)
            },
            _ => close_from(ts, p + 1, end, depth),
        }
    }
}

/// The position behind the token or group at `p`.
pub open spec fn after_tree(ts: Seq<TokenModel>, p: int, end: int) -> Option<int> {
    if p >= end {
        None
    } else {
        match ts[p].kind {
            Lexeme::Open(_) => match close_from(ts, p + 1, end, 0) {
                Some(c) => Some(c + 1),
                None => None,
            },
            Lexeme::Close(_) => None,
            _ => Some(p + 1),
        }
    }
}

/// A group closes behind where it opens, and inside the region.
pub proof fn close_from_bounds(ts: Seq<TokenModel>, p: int, end: int, depth: nat)
    ensures
        close_from(ts, p, end, depth) matches Some(c) ==> p <= c < end,
    decreases end - p,
{
    if p < end {
        match ts[p].kind {
            Lexeme::Open(_) => close_from_bounds(ts, p + 1, end, depth + 1),
            Lexeme::Close(_) => if depth > 0 {
                close_from_bounds(ts, p + 1, end, (depth - 1) as nat)
            },
            _ => close_from_bounds(ts, p + 1, end, depth),
        }
    }
}

/// What may follow a type.
#[derive(Clone, Copy, PartialEq, Eq, Structural)]
pub enum Stop {
    /// A comma, or the end of the group: a parameter type.
    Comma,
    /// A semicolon: a field type.
    Semicolon,
    /// A semicolon or an attribute in brackets: a return type.
    Tail,
}

/// Whether a type may end at `p`.
pub open spec fn stops_at(ts: Seq<TokenModel>, p: int, end: int, stop: Stop) -> bool {
    match stop {
        Stop::Comma => p >= end || punct_at(ts, p, end, ','),
        Stop::Semicolon => punct_at(ts, p, end, ';'),
        Stop::Tail => punct_at(ts, p, end, ';') || open_at(ts, p, end, Delim::Bracket),
    }
}

/// The first place from `p` on where a type that starts at `from` may end and is
/// complete. No type goes on behind a semicolon.
pub open spec fn type_end(
    known: ReaderModel,
    ts: Seq<TokenModel>,
    from: int,
    p: int,
    end: int,
    stop: Stop,
) -> Option<int>
    decreases end - p,
{
    if stops_at(ts, p, end, stop) && known.outline_of(
        shape_text(ts, from, p, p),
    ) is Some {
        Some(p)
    } else if punct_at(ts, p, end, ';') {
        None
    } else {
        proof {
            close_from_bounds(ts, p + 1, end, 0);
        }
        match after_tree(ts, p, end) {
            Some(q) => type_end(known, ts, from, q, end, stop),
            None => None,
        }
    }
}

/// A declared type: where it stands, its source text and its shape.
pub struct TypeUse {
    pub from: usize,
    pub to: usize,
    pub text: String,
    pub outline: TypeOutline,
}

/// The mathematical content of a [`TypeUse`].
pub struct TypeUseModel {
    pub from: int,
    pub to: int,
    pub text: Seq<char>,
    pub outline: OutlineModel,
}

impl View for TypeUse {
    type V = TypeUseModel;

    open spec fn view(&self) -> TypeUseModel {
        TypeUseModel {
            from: self.from as int,
            to: self.to as int,
            text: self.text@,
            outline: self.outline@,
        }
    }
}

/// The type that stands between two positions.
pub open spec fn type_between(
    known: ReaderModel,
    ts: Seq<TokenModel>,
    from: int,
    to: int,
) -> TypeUseModel {
    TypeUseModel {
        from,
        to,
        text: run_text(ts, from, to),
        outline: known.outline_of(shape_text(ts, from, to, to))->0,
    }
}

/// The type that starts at `p`.
pub open spec fn type_from(
    known: ReaderModel,
    ts: Seq<TokenModel>,
    p: int,
    end: int,
    stop: Stop,
) -> Result<
    TypeUseModel,
    Fault,
> {
    match after_tree(ts, p, end) {
        Some(q) => match type_end(known, ts, p, q, end, stop) {
            Some(to) => Ok(type_between(known, ts, p, to)),
            None => Err(Fault { at: p, message: "expected a type"@ }),
        },
        None => Err(Fault { at: p, message: "expected a type"@ }),
    }
}

/// A type ends behind where it starts, and inside the region.
pub proof fn type_end_bounds(
    known: ReaderModel,
    ts: Seq<TokenModel>,
    from: int,
    p: int,
    end: int,
    stop: Stop,
)
    requires
        p <= end,
    ensures
        type_end(known, ts, from, p, end, stop) matches Some(to) ==> p <= to <= end && stops_at(
            ts,
            to,
            end,
            stop,
        ),
    decreases end - p,
{
    close_from_bounds(ts, p + 1, end, 0);
    if let Some(q) = after_tree(ts, p, end) {
        type_end_bounds(known, ts, from, q, end, stop);
    }
}

/// What a successful [`type_from`] promises about its extent.
pub proof fn type_from_bounds(known: ReaderModel, ts: Seq<TokenModel>, p: int, end: int, stop: Stop)
    ensures
        type_from(known, ts, p, end, stop) matches Ok(t) ==> t.from == p && p < t.to <= end && stops_at(
            ts,
            t.to,
            end,
            stop,
        ),
{
    close_from_bounds(ts, p + 1, end, 0);
    if let Some(q) = after_tree(ts, p, end) {
        type_end_bounds(known, ts, p, q, end, stop);
    }
}

fn push_lexeme(out: &mut String, t: &Token)
    ensures
        final(out)@ == old(out)@ + lexeme_text(t@.kind),
{
    let ghost before = out@;
    match &t.kind {
        TokenKind::Ident(s) => {
            out.push_str(s.as_str());
            out.push(' ');
        },
        TokenKind::Punct(c, joint) => {
            out.push(*c);
            if !*joint {
                out.push(' ');
            }
        },
        TokenKind::Literal(s) => {
            out.push_str(s.as_str());
            out.push(' ');
        },
        TokenKind::Open(d) => {
            out.push(
                match d {
                    Delim::Paren => '(',
                    Delim::Brace => '{',
                    Delim::Bracket => '[',
                },
            );
            out.push(' ');
        },
        TokenKind::Close(d) => {
            out.push(
                match d {
                    Delim::Paren => ')',
                    Delim::Brace => '}',
                    Delim::Bracket => ']',
                },
            );
            out.push(' ');
        },
    }
    assert(out@ =~= before + lexeme_text(t@.kind));
}

/// The source text of the tokens between two positions.
pub fn text_between(tokens: &Vec<Token>, from: usize, to: usize) -> (s: String)
    requires
        from <= to <= tokens@.len(),
    ensures
        s@ == run_text(lexed(tokens@), from as int, to as int),
{
    let mut s = String::new();
    let mut k: usize = from;
    while k < to
        invariant
            from <= k <= to <= tokens@.len(),
            s@ == run_text(lexed(tokens@), from as int, k as int),
        decreases to - k,
    {
        push_lexeme(&mut s, &tokens[k]);
        k += 1;
    }
    s
}

fn find_group_start(tokens: &Vec<Token>, k: usize, depth: usize) -> (p: usize)
    requires
        k < tokens@.len(),
    ensures
        p == group_start(lexed(tokens@), k as int, depth as nat),
        p <= k,
{
    let mut p: usize = k;
    while p > 0 && tokens[p - 1].depth >= depth
        invariant
            p <= k < tokens@.len(),
            group_start(lexed(tokens@), k as int, depth as nat) == group_start(
                lexed(tokens@),
                p as int,
                depth as nat,
            ),
        decreases p,
    {
        assert(lexed(tokens@)[p - 1].depth == tokens@[p - 1].depth);
        p -= 1;
    }
    p
}

fn find_outermost_group(tokens: &Vec<Token>, from: usize, k: usize, next: usize) -> (r: Option<
    usize,
>)
    requires
        k < tokens@.len(),
    ensures
        match r {
            Some(s) => outermost_group(lexed(tokens@), from as int, k as int, (next + 1) as nat)
                == Some(s as int) && from <= s <= k,
            None => outermost_group(lexed(tokens@), from as int, k as int, (next + 1) as nat)
                is None,
        },
{
    let ghost ts = lexed(tokens@);
    let last = tokens[k].depth;
    let mut above: usize = next;
    assert(ts[k as int].depth == last);
    while above < last
        invariant
            k < tokens@.len(),
            ts == lexed(tokens@),
            last == ts[k as int].depth,
            outermost_group(ts, from as int, k as int, (next + 1) as nat) == outermost_group(
                ts,
                from as int,
                k as int,
                (above + 1) as nat,
            ),
        decreases last - above,
    {
        let depth: usize = above + 1;
        let s = find_group_start(tokens, k, depth);
        if s >= from && !(s > from && is_punct(tokens, s - 1, s, ':')) {
            return Some(s);
        }
        above = depth;
    }
    None
}

fn can_start_path(token: &Token) -> (r: bool)
    ensures
        r == starts_path(token@.kind),
{
    match &token.kind {
        TokenKind::Ident(_) => true,
        TokenKind::Punct(c, _) => *c == ':' || *c == '<',
        _ => false,
    }
}

fn find_group_type(tokens: &Vec<Token>, from: usize, to: usize, k: usize) -> (r: Option<usize>)
    requires
        from <= k < to <= tokens@.len(),
    ensures
        match r {
            Some(s) => group_type(lexed(tokens@), from as int, to as int, k as int) == Some(
                s as int,
            ) && from <= s <= k,
            None => group_type(lexed(tokens@), from as int, to as int, k as int) is None,
        },
{
    let depth = tokens[k].depth;
    let next: usize = if k + 1 < tokens.len() {
        tokens[k + 1].depth
    } else {
        0
    };
    match find_outermost_group(tokens, from, k, next) {
        None => None,
        Some(s) => {
            let goes_on = depth > next && depth - next == 1 && can_start_path(&tokens[s]) && (
            is_punct(tokens, k + 1, to, '<') || is_pair(tokens, k + 1, to, ':', ':'));
            if goes_on {
                None
            } else {
                Some(s)
            }
        },
    }
}

pub(crate) fn shape_between(tokens: &Vec<Token>, from: usize, to: usize, e: usize) -> (s: String)
    requires
        from <= e <= to <= tokens@.len(),
    ensures
        s@ == shape_text(lexed(tokens@), from as int, to as int, e as int),
    decreases e - from,
{
    if e == from {
        let s = String::new();
        assert(s@ =~= Seq::empty());
        return s;
    }
    let k: usize = e - 1;
    match find_group_type(tokens, from, to, k) {
        Some(start) => {
            let mut s = shape_between(tokens, from, to, start);
            if is_pair(tokens, k + 1, to, ':', ':') {
                s.push_str("< ! > ");
            } else {
                s.push_str("! ");
            }
            s
        },
        None => {
            let mut s = shape_between(tokens, from, to, k);
            push_lexeme(&mut s, &tokens[k]);
            s
        },
    }
}

pub(crate) fn is_punct(tokens: &Vec<Token>, p: usize, end: usize, c: char) -> (r: bool)
    requires
        end <= tokens@.len(),
    ensures
        r == punct_at(lexed(tokens@), p as int, end as int, c),
{
    if p < end {
        match &tokens[p].kind {
            TokenKind::Punct(x, _) => *x == c,
            _ => false,
        }
    } else {
        false
    }
}

pub(crate) fn is_pair(tokens: &Vec<Token>, p: usize, end: usize, a: char, b: char) -> (r: bool)
    requires
        end <= tokens@.len(),
    ensures
        r == pair_at(lexed(tokens@), p as int, end as int, a, b),
{
    if p < end {
        match &tokens[p].kind {
            TokenKind::Punct(x, joint) => *x == a && *joint && is_punct(tokens, p + 1, end, b),
            _ => false,
        }
    } else {
        false
    }
}

fn is_word(tokens: &Vec<Token>, p: usize, end: usize, w: &str) -> (r: bool)
    requires
        end <= tokens@.len(),
    ensures
        r == word_at(lexed(tokens@), p as int, end as int, w@),
{
    if p < end {
        match &tokens[p].kind {
            TokenKind::Ident(s) => same(s.as_str(), w),
            _ => false,
        }
    } else {
        false
    }
}

fn is_open(tokens: &Vec<Token>, p: usize, end: usize, d: Delim) -> (r: bool)
    requires
        end <= tokens@.len(),
    ensures
        r == open_at(lexed(tokens@), p as int, end as int, d),
{
    if p < end {
        match &tokens[p].kind {
            TokenKind::Open(x) => *x == d,
            _ => false,
        }
    } else {
        false
    }
}

fn complain<T>(at: usize, message: &str) -> (r: Result<T, MacroError>)
    ensures
        r is Err,
        r->Err_0@ == (Fault { at: at as int, message: message@ }),
{
    Err(MacroError { at, message: message.to_owned() })
}

fn expect_ident(
    reader: &Reader,
    tokens: &Vec<Token>,
    p: usize,
    end: usize,
) -> (r: Result<String, MacroError>)
    requires
        end <= tokens@.len(),
    ensures
        match r {
            Ok(s) => ident_at(reader@, lexed(tokens@), p as int, end as int) == Ok::<
                Seq<char>,
                Fault,
            >(s@) && p < end,
            Err(e) => ident_at(reader@, lexed(tokens@), p as int, end as int) == Err::<Seq<char>, Fault>(
                e@,
            ),
        },
{
    if p < end {
        if let TokenKind::Ident(s) = &tokens[p].kind {
            if reader.identifier(s.as_str()) {
                return Ok(s.as_str().to_owned());
            }
        }
    }
    complain(p, "expected identifier")
}

fn string_literal(reader: &Reader, tokens: &Vec<Token>, p: usize, end: usize) -> (r: Option<String>)
    requires
        end <= tokens@.len(),
    ensures
        match r {
            Some(s) => string_at(reader@, lexed(tokens@), p as int, end as int) == Some(s@) && p < end,
            None => string_at(reader@, lexed(tokens@), p as int, end as int) is None,
        },
{
    if p < end {
        if let TokenKind::Literal(s) = &tokens[p].kind {
            return reader.string(s.as_str());
        }
    }
    None
}

/// The position of the token that closes the group whose inside starts at `from`.
fn find_close(tokens: &Vec<Token>, from: usize, end: usize) -> (r: Option<usize>)
    requires
        from <= end <= tokens@.len(),
    ensures
        match r {
            Some(c) => close_from(lexed(tokens@), from as int, end as int, 0) == Some(c as int)
                && from <= c < end,
            None => close_from(lexed(tokens@), from as int, end as int, 0) is None,
        },
{
    let mut depth: usize = 0;
    let mut p: usize = from;
    while p < end
        invariant
            from <= p <= end <= tokens@.len(),
            depth <= p - from,
            close_from(lexed(tokens@), from as int, end as int, 0) == close_from(
                lexed(tokens@),
                p as int,
                end as int,
                depth as nat,
            ),
        decreases end - p,
    {
        match &tokens[p].kind {
            TokenKind::Open(_) => {
                depth += 1;
            },
            TokenKind::Close(_) => {
                if depth == 0 {
                    return Some(p);
                }
                depth -= 1;
            },
            _ => {},
        }
        p += 1;
    }
    None
}

pub(crate) fn skip_tree(tokens: &Vec<Token>, p: usize, end: usize) -> (r: Option<usize>)
    requires
        p <= end <= tokens@.len(),
    ensures
        match r {
            Some(q) => after_tree(lexed(tokens@), p as int, end as int) == Some(q as int) && p < q
                <= end,
            None => after_tree(lexed(tokens@), p as int, end as int) is None,
        },
{
    if p >= end {
        return None;
    }
    match &tokens[p].kind {
        TokenKind::Open(_) => match find_close(tokens, p + 1, end) {
            Some(c) => Some(c + 1),
            None => None,
        },
        TokenKind::Close(_) => None,
        _ => Some(p + 1),
    }
}

fn may_stop(tokens: &Vec<Token>, p: usize, end: usize, stop: Stop) -> (r: bool)
    requires
        end <= tokens@.len(),
    ensures
        r == stops_at(lexed(tokens@), p as int, end as int, stop),
{
    match stop {
        Stop::Comma => p >= end || is_punct(tokens, p, end, ','),
        Stop::Semicolon => is_punct(tokens, p, end, ';'),
        Stop::Tail => is_punct(tokens, p, end, ';') || is_open(tokens, p, end, Delim::Bracket),
    }
}

/// Reads the type that starts at `p`: the shortest run of tokens that is a type and
/// is followed by what may follow one.
fn expect_type(
    reader: &Reader,
    tokens: &Vec<Token>,
    p: usize,
    end: usize,
    stop: Stop,
) -> (r: Result<
    TypeUse,
    MacroError,
>)
    requires
        p <= end <= tokens@.len(),
    ensures
        match r {
            Ok(t) => type_from(reader@, lexed(tokens@), p as int, end as int, stop) == Ok::<
                TypeUseModel,
                Fault,
            >(t@) && p < t.to <= end,
            Err(e) => type_from(reader@, lexed(tokens@), p as int, end as int, stop) == Err::<
                TypeUseModel,
                Fault,
            >(e@),
        },
{
    let ghost ts = lexed(tokens@);
    let first = match skip_tree(tokens, p, end) {
        Some(q) => q,
        None => {
            return complain(p, "expected a type");
        },
    };
    let mut q: usize = first;
    loop
        invariant
            p < first <= q <= end <= tokens@.len(),
            ts == lexed(tokens@),
            after_tree(ts, p as int, end as int) == Some(first as int),
            type_end(reader@, ts, p as int, first as int, end as int, stop) == type_end(
    reader@,
                ts,
                p as int,
                q as int,
                end as int,
                stop,
            ),
        decreases end - q,
    {
        if may_stop(tokens, q, end, stop) {
            let shape = shape_between(tokens, p, q, q);
            if let Some(outline) = reader.outline(shape.as_str()) {
                let text = text_between(tokens, p, q);
                return Ok(TypeUse { from: p, to: q, text, outline });
            }
        }
        if is_punct(tokens, q, end, ';') {
            return complain(p, "expected a type");
        }
        match skip_tree(tokens, q, end) {
            Some(next) => {
                q = next;
            },
            None => {
                return complain(p, "expected a type");
            },
        }
    }
}

/// One declared parameter.
pub struct Param {
    pub name: String,
    pub name_at: usize,
    pub ty: TypeUse,
}

/// One method declaration: `[static] fn name(params) [-> ret] [[java_name = "…"]];`.
pub struct BindMethod {
    pub is_static: bool,
    pub name: String,
    pub name_at: usize,
    pub params: Vec<Param>,
    /// `None` where the return type is omitted.
    pub ret: Option<TypeUse>,
    /// The Java-side name where it differs, and the token that gives it.
    pub java_name: Option<(String, usize)>,
}

/// One field declaration: `[static] field name: Type;`.
pub struct BindField {
    pub is_static: bool,
    pub name: String,
    pub name_at: usize,
    pub ty: TypeUse,
}

/// A parsed declaration: `"class.Name" => Wrapper { items }`.
pub struct BindInput {
    pub class: String,
    pub name: String,
    pub methods: Vec<BindMethod>,
    pub fields: Vec<BindField>,
}

/// The mathematical content of a [`Param`].
pub struct ParamModel {
    pub name: Seq<char>,
    pub name_at: int,
    pub ty: TypeUseModel,
}

/// The mathematical content of a [`BindMethod`].
pub struct MethodModel {
    pub is_static: bool,
    pub name: Seq<char>,
    pub name_at: int,
    pub params: Seq<ParamModel>,
    pub ret: Option<TypeUseModel>,
    pub java_name: Option<(Seq<char>, int)>,
}

/// The mathematical content of a [`BindField`].
pub struct FieldModel {
    pub is_static: bool,
    pub name: Seq<char>,
    pub name_at: int,
    pub ty: TypeUseModel,
}

/// The mathematical content of a [`BindInput`].
pub struct BindModel {
    pub class: Seq<char>,
    pub name: Seq<char>,
    pub methods: Seq<MethodModel>,
    pub fields: Seq<FieldModel>,
}

impl View for Param {
    type V = ParamModel;

    open spec fn view(&self) -> ParamModel {
        ParamModel { name: self.name@, name_at: self.name_at as int, ty: self.ty@ }
    }
}

/// The contents of a parameter list.
pub open spec fn param_models(v: Seq<Param>) -> Seq<ParamModel> {
    Seq::new(v.len(), |i: int| v[i]@)
}

impl View for BindMethod {
    type V = MethodModel;

    open spec fn view(&self) -> MethodModel {
        MethodModel {
            is_static: self.is_static,
            name: self.name@,
            name_at: self.name_at as int,
            params: param_models(self.params@),
            ret: match self.ret {
                Some(t) => Some(t@),
                None => None,
            },
            java_name: match self.java_name {
                Some((s, at)) => Some((s@, at as int)),
                None => None,
            },
        }
    }
}

impl View for BindField {
    type V = FieldModel;

    open spec fn view(&self) -> FieldModel {
        FieldModel {
            is_static: self.is_static,
            name: self.name@,
            name_at: self.name_at as int,
            ty: self.ty@,
        }
    }
}

/// The contents of a list of methods.
pub open spec fn method_models(v: Seq<BindMethod>) -> Seq<MethodModel> {
    Seq::new(v.len(), |i: int| v[i]@)
}

/// The contents of a list of fields.
pub open spec fn field_models(v: Seq<BindField>) -> Seq<FieldModel> {
    Seq::new(v.len(), |i: int| v[i]@)
}

impl View for BindInput {
    type V = BindModel;

    open spec fn view(&self) -> BindModel {
        BindModel {
            class: self.class@,
            name: self.name@,
            methods: method_models(self.methods@),
            fields: field_models(self.fields@),
        }
    }
}

/// The parameter that starts at `p`: `name: Type`.
pub open spec fn param_at(
    known: ReaderModel,
    ts: Seq<TokenModel>,
    p: int,
    end: int,
) -> Result<ParamModel, Fault> {
    match ident_at(known, ts, p, end) {
        Err(e) => Err(e),
        Ok(name) => if !punct_at(ts, p + 1, end, ':') {
            Err(Fault { at: p + 1, message: "expected `:`"@ })
        } else {
            match type_from(known, ts, p + 2, end, Stop::Comma) {
                Err(e) => Err(e),
                Ok(ty) => Ok(ParamModel { name, name_at: p, ty }),
            }
        },
    }
}

/// The parameters from `p` up to the end of the parameter list, separated by commas;
/// a comma behind the last one is allowed.
pub open spec fn params_from(known: ReaderModel, ts: Seq<TokenModel>, p: int, end: int) -> Result<
    Seq<ParamModel>,
    Fault,
>
    decreases end + 1 - p,
{
    if p >= end {
        Ok(Seq::empty())
    } else {
        match param_at(known, ts, p, end) {
            Err(e) => Err(e),
            Ok(first) => {
                proof {
                    type_from_bounds(known, ts, p + 2, end, Stop::Comma);
                }
                match params_from(known, ts, first.ty.to + 1, end) {
                    Err(e) => Err(e),
                    Ok(rest) => Ok(seq![first] + rest),
                }
            },
        }
    }
}

/// The return type from `p` on, if there is one, and the position behind it.
pub open spec fn return_from(known: ReaderModel, ts: Seq<TokenModel>, p: int, end: int) -> Result<
    (Option<TypeUseModel>, int),
    Fault,
> {
    if pair_at(ts, p, end, '-', '>') {
        match type_from(known, ts, p + 2, end, Stop::Tail) {
            Err(e) => Err(e),
            Ok(ty) => Ok((Some(ty), ty.to)),
        }
    } else {
        Ok((None, p))
    }
}

/// The complaint about an unknown attribute of a method.
pub open spec fn unknown_key(key: Seq<char>) -> Seq<char> {
    "expected `java_name = \"…\"`, found `"@ + key + "`"@
}

/// The attribute `[java_name = "…"]` from `p` on, if there is one, and the position
/// behind it.
pub open spec fn alias_from(known: ReaderModel, ts: Seq<TokenModel>, p: int, end: int) -> Result<
    (Option<(Seq<char>, int)>, int),
    Fault,
> {
    if !open_at(ts, p, end, Delim::Bracket) {
        Ok((None, p))
    } else {
        match close_from(ts, p + 1, end, 0) {
            None => Err(Fault { at: p, message: "expected square brackets"@ }),
            Some(close) => match ident_at(known, ts, p + 1, close) {
                Err(e) => Err(e),
                Ok(key) => if key != "java_name"@ {
                    Err(Fault { at: p + 2, message: unknown_key(key) })
                } else if !punct_at(ts, p + 2, close, '=') {
                    Err(Fault { at: p + 2, message: "expected `=`"@ })
                } else {
                    match string_at(known, ts, p + 3, close) {
                        None => Err(Fault { at: p + 3, message: "expected string literal"@ }),
                        Some(name) => if p + 4 != close {
                            Err(
                                Fault {
                                    at: p + 4,
                                    message: "unexpected tokens after `java_name = \"…\"`"@,
                                },
                            )
                        } else {
                            Ok((Some((name, p + 3)), close + 1))
                        },
                    }
                },
            },
        }
    }
}

/// The method whose `fn` stands at `p`, and the position behind its `;`.
#[verifier::opaque]
pub open spec fn method_at(
    known: ReaderModel,
    ts: Seq<TokenModel>,
    is_static: bool,
    p: int,
    end: int,
) -> Result<
    (MethodModel, int),
    Fault,
> {
    match ident_at(known, ts, p + 1, end) {
        Err(e) => Err(e),
        Ok(name) => if !open_at(ts, p + 2, end, Delim::Paren) {
            Err(Fault { at: p + 2, message: "expected parentheses"@ })
        } else {
            match close_from(ts, p + 3, end, 0) {
                None => Err(Fault { at: p + 2, message: "expected parentheses"@ }),
                Some(close) => match params_from(known, ts, p + 3, close) {
                    Err(e) => Err(e),
                    Ok(params) => match return_from(known, ts, close + 1, end) {
                        Err(e) => Err(e),
                        Ok((ret, q)) => match alias_from(known, ts, q, end) {
                            Err(e) => Err(e),
                            Ok((java_name, r)) => if !punct_at(ts, r, end, ';') {
                                Err(Fault { at: r, message: "expected `;`"@ })
                            } else {
                                Ok(
                                    (
                                        MethodModel {
                                            is_static,
                                            name,
                                            name_at: p + 1,
                                            params,
                                            ret,
                                            java_name,
                                        },
                                        r + 1,
                                    ),
                                )
                            },
                        },
                    },
                },
            }
        },
    }
}

/// The field whose keyword stands at `p`, and the position behind its `;`.
#[verifier::opaque]
pub open spec fn field_at(
    known: ReaderModel,
    ts: Seq<TokenModel>,
    is_static: bool,
    p: int,
    end: int,
) -> Result<
    (FieldModel, int),
    Fault,
> {
    match ident_at(known, ts, p, end) {
        Err(e) => Err(e),
        Ok(keyword) => if keyword != "field"@ {
            Err(
                Fault {
                    at: p + 1,
                    message: "expected `fn`, `static fn`, `field` or `static field`"@,
                },
            )
        } else {
            match ident_at(known, ts, p + 1, end) {
                Err(e) => Err(e),
                Ok(name) => if !punct_at(ts, p + 2, end, ':') {
                    Err(Fault { at: p + 2, message: "expected `:`"@ })
                } else {
                    match type_from(known, ts, p + 3, end, Stop::Semicolon) {
                        Err(e) => Err(e),
                        Ok(ty) => Ok(
                            (FieldModel { is_static, name, name_at: p + 1, ty }, ty.to + 1),
                        ),
                    }
                },
            }
        },
    }
}

/// The position behind an optional `static` at `p`.
pub open spec fn after_static(ts: Seq<TokenModel>, p: int, end: int) -> int {
    if word_at(ts, p, end, "static"@) {
        p + 1
    } else {
        p
    }
}

/// The items from `p` up to the end of the body.
pub open spec fn items_from(known: ReaderModel, ts: Seq<TokenModel>, p: int, end: int) -> Result<
    (Seq<MethodModel>, Seq<FieldModel>),
    Fault,
>
    decreases end - p,
{
    if p >= end {
        Ok((Seq::empty(), Seq::empty()))
    } else {
        let is_static = word_at(ts, p, end, "static"@);
        let a = after_static(ts, p, end);
        if word_at(ts, a, end, "fn"@) {
            match method_at(known, ts, is_static, a, end) {
                Err(e) => Err(e),
                Ok((m, q)) => {
                    proof {
                        method_at_bounds(known, ts, is_static, a, end);
                    }
                    match items_from(known, ts, q, end) {
                        Err(e) => Err(e),
                        Ok((ms, fs)) => Ok((seq![m] + ms, fs)),
                    }
                },
            }
        } else {
            match field_at(known, ts, is_static, a, end) {
                Err(e) => Err(e),
                Ok((f, q)) => {
                    proof {
                        field_at_bounds(known, ts, is_static, a, end);
                    }
                    match items_from(known, ts, q, end) {
                        Err(e) => Err(e),
                        Ok((ms, fs)) => Ok((ms, seq![f] + fs)),
                    }
                },
            }
        }
    }
}

/// A method ends behind where it starts, and inside the body.
pub proof fn method_at_bounds(
    known: ReaderModel,
    ts: Seq<TokenModel>,
    is_static: bool,
    p: int,
    end: int,
)
    ensures
        method_at(known, ts, is_static, p, end) matches Ok((m, q)) ==> p + 3 < q <= end,
{
    reveal(method_at);
    close_from_bounds(ts, p + 3, end, 0);
    if let Some(close) = close_from(ts, p + 3, end, 0) {
        type_from_bounds(known, ts, close + 3, end, Stop::Tail);
        if let Ok((ret, q)) = return_from(known, ts, close + 1, end) {
            close_from_bounds(ts, q + 1, end, 0);
        }
    }
}

/// A field ends behind where it starts, and inside the body.
pub proof fn field_at_bounds(
    known: ReaderModel,
    ts: Seq<TokenModel>,
    is_static: bool,
    p: int,
    end: int,
)
    ensures
        field_at(known, ts, is_static, p, end) matches Ok((f, q)) ==> p + 3 < q <= end,
{
    reveal(field_at);
    type_from_bounds(known, ts, p + 3, end, Stop::Semicolon);
}

/// The declaration that the tokens of a `bind!` or `interface!` invocation make.
pub open spec fn bind_of(known: ReaderModel, ts: Seq<TokenModel>) -> Result<BindModel, Fault> {
    let n = ts.len() as int;
    match string_at(known, ts, 0, n) {
        None => Err(Fault { at: 0, message: "expected string literal"@ }),
        Some(class) => if !pair_at(ts, 1, n, '=', '>') {
            Err(Fault { at: 1, message: "expected `=>`"@ })
        } else {
            match ident_at(known, ts, 3, n) {
                Err(e) => Err(e),
                Ok(name) => if !open_at(ts, 4, n, Delim::Brace) {
                    Err(Fault { at: 4, message: "expected curly braces"@ })
                } else {
                    match close_from(ts, 5, n, 0) {
                        None => Err(Fault { at: 4, message: "expected curly braces"@ }),
                        Some(close) => match items_from(known, ts, 5, close) {
                            Err(e) => Err(e),
                            Ok((methods, fields)) => if close + 1 != n {
                                Err(
                                    Fault {
                                        at: close + 1,
                                        message: "unexpected tokens after the declaration"@,
                                    },
                                )
                            } else {
                                Ok(BindModel { class, name, methods, fields })
                            },
                        },
                    }
                },
            }
        },
    }
}

fn parse_params(reader: &Reader, tokens: &Vec<Token>, from: usize, end: usize) -> (r: Result<
    Vec<Param>,
    MacroError,
>)
    requires
        from <= end <= tokens@.len(),
    ensures
        match r {
            Ok(v) => params_from(reader@, lexed(tokens@), from as int, end as int) == Ok::<
                Seq<ParamModel>,
                Fault,
            >(param_models(v@)),
            Err(e) => params_from(reader@, lexed(tokens@), from as int, end as int) == Err::<
                Seq<ParamModel>,
                Fault,
            >(e@),
        },
{
    let ghost ts = lexed(tokens@);
    let mut params: Vec<Param> = Vec::new();
    let mut p: usize = from;
    while p < end
        invariant
            end <= tokens@.len(),
            ts == lexed(tokens@),
            match params_from(reader@, ts, p as int, end as int) {
                Ok(rest) => params_from(reader@, ts, from as int, end as int) == Ok::<
                    Seq<ParamModel>,
                    Fault,
                >(param_models(params@) + rest),
                Err(e) => params_from(reader@, ts, from as int, end as int) == Err::<
                    Seq<ParamModel>,
                    Fault,
                >(e),
            },
        decreases end - p,
    {
        let name = match expect_ident(reader, tokens, p, end) {
            Ok(s) => s,
            Err(e) => {
                return Err(e);
            },
        };
        if !is_punct(tokens, p + 1, end, ':') {
            return complain(p + 1, "expected `:`");
        }
        let ty = match expect_type(reader, tokens, p + 2, end, Stop::Comma) {
            Ok(t) => t,
            Err(e) => {
                return Err(e);
            },
        };
        let to = ty.to;
        let param = Param { name, name_at: p, ty };
        let ghost before = params@;
        proof {
            type_from_bounds(reader@, ts, p + 2, end as int, Stop::Comma);
        }
        params.push(param);
        proof {
            assert(param_models(params@) =~= param_models(before) + seq![param@]);
            match params_from(reader@, ts, to + 1, end as int) {
                Ok(rest) => {
                    assert(param_models(params@) + rest =~= param_models(before) + (seq![param@]
                        + rest));
                },
                Err(e) => {},
            }
        }
        if to >= end {
            assert(params_from(reader@, ts, to + 1, end as int) == params_from(reader@, ts, end as int, end as int));
            p = end;
        } else {
            p = to + 1;
        }
    }
    assert(param_models(params@) + Seq::<ParamModel>::empty() =~= param_models(params@));
    Ok(params)
}

fn parse_alias(reader: &Reader, tokens: &Vec<Token>, p: usize, end: usize) -> (r: Result<
    (Option<(String, usize)>, usize),
    MacroError,
>)
    requires
        p <= end <= tokens@.len(),
    ensures
        match r {
            Ok((Some((s, at)), q)) => alias_from(reader@, lexed(tokens@), p as int, end as int) == Ok::<
                (Option<(Seq<char>, int)>, int),
                Fault,
            >((Some((s@, at as int)), q as int)) && q <= end,
            Ok((None, q)) => alias_from(reader@, lexed(tokens@), p as int, end as int) == Ok::<
                (Option<(Seq<char>, int)>, int),
                Fault,
            >((None, q as int)) && q <= end,
            Err(e) => alias_from(reader@, lexed(tokens@), p as int, end as int) == Err::<
                (Option<(Seq<char>, int)>, int),
                Fault,
            >(e@),
        },
{
    if !is_open(tokens, p, end, Delim::Bracket) {
        return Ok((None, p));
    }
    let close = match find_close(tokens, p + 1, end) {
        Some(c) => c,
        None => {
            return complain(p, "expected square brackets");
        },
    };
    let key = match expect_ident(reader, tokens, p + 1, close) {
        Ok(k) => k,
        Err(e) => {
            return Err(e);
        },
    };
    if !same(key.as_str(), "java_name") {
        let mut message = "expected `java_name = \"…\"`, found `".to_owned();
        message.push_str(key.as_str());
        message.push_str("`");
        return Err(MacroError { at: p + 2, message });
    }
    if !is_punct(tokens, p + 2, close, '=') {
        return complain(p + 2, "expected `=`");
    }
    let name = match string_literal(reader, tokens, p + 3, close) {
        Some(s) => s,
        None => {
            return complain(p + 3, "expected string literal");
        },
    };
    if p + 4 != close {
        return complain(p + 4, "unexpected tokens after `java_name = \"…\"`");
    }
    Ok((Some((name, p + 3)), close + 1))
}

fn parse_method(
    reader: &Reader,
    tokens: &Vec<Token>,
    is_static: bool,
    p: usize,
    end: usize,
) -> (r: Result<
    (BindMethod, usize),
    MacroError,
>)
    requires
        p < end <= tokens@.len(),
    ensures
        match r {
            Ok((m, q)) => method_at(reader@, lexed(tokens@), is_static, p as int, end as int) == Ok::<
                (MethodModel, int),
                Fault,
            >((m@, q as int)) && p < q <= end,
            Err(e) => method_at(reader@, lexed(tokens@), is_static, p as int, end as int) == Err::<
                (MethodModel, int),
                Fault,
            >(e@),
        },
{
    proof {
        reveal(method_at);
        method_at_bounds(reader@, lexed(tokens@), is_static, p as int, end as int);
    }
    let name = match expect_ident(reader, tokens, p + 1, end) {
        Ok(s) => s,
        Err(e) => {
            return Err(e);
        },
    };
    if !is_open(tokens, p + 2, end, Delim::Paren) {
        return complain(p + 2, "expected parentheses");
    }
    let close = match find_close(tokens, p + 3, end) {
        Some(c) => c,
        None => {
            return complain(p + 2, "expected parentheses");
        },
    };
    let params = match parse_params(reader, tokens, p + 3, close) {
        Ok(v) => v,
        Err(e) => {
            return Err(e);
        },
    };
    let mut q: usize = close + 1;
    let mut ret: Option<TypeUse> = None;
    if is_pair(tokens, q, end, '-', '>') {
        match expect_type(reader, tokens, q + 2, end, Stop::Tail) {
            Ok(t) => {
                q = t.to;
                ret = Some(t);
            },
            Err(e) => {
                return Err(e);
            },
        }
    }
    let (java_name, r) = match parse_alias(reader, tokens, q, end) {
        Ok(pair) => pair,
        Err(e) => {
            return Err(e);
        },
    };
    if !is_punct(tokens, r, end, ';') {
        return complain(r, "expected `;`");
    }
    Ok((BindMethod { is_static, name, name_at: p + 1, params, ret, java_name }, r + 1))
}

fn parse_field(
    reader: &Reader,
    tokens: &Vec<Token>,
    is_static: bool,
    p: usize,
    end: usize,
) -> (r: Result<
    (BindField, usize),
    MacroError,
>)
    requires
        p <= end <= tokens@.len(),
    ensures
        match r {
            Ok((f, q)) => field_at(reader@, lexed(tokens@), is_static, p as int, end as int) == Ok::<
                (FieldModel, int),
                Fault,
            >((f@, q as int)) && p < q <= end,
            Err(e) => field_at(reader@, lexed(tokens@), is_static, p as int, end as int) == Err::<
                (FieldModel, int),
                Fault,
            >(e@),
        },
{
    proof {
        reveal(field_at);
    }
    let keyword = match expect_ident(reader, tokens, p, end) {
        Ok(k) => k,
        Err(e) => {
            return Err(e);
        },
    };
    if !same(keyword.as_str(), "field") {
        return complain(p + 1, "expected `fn`, `static fn`, `field` or `static field`");
    }
    let name = match expect_ident(reader, tokens, p + 1, end) {
        Ok(s) => s,
        Err(e) => {
            return Err(e);
        },
    };
    if !is_punct(tokens, p + 2, end, ':') {
        return complain(p + 2, "expected `:`");
    }
    proof {
        type_from_bounds(reader@, lexed(tokens@), p + 3, end as int, Stop::Semicolon);
    }
    match expect_type(reader, tokens, p + 3, end, Stop::Semicolon) {
        Ok(ty) => {
            let to = ty.to;
            Ok((BindField { is_static, name, name_at: p + 1, ty }, to + 1))
        },
        Err(e) => Err(e),
    }
}

fn parse_items(reader: &Reader, tokens: &Vec<Token>, from: usize, end: usize) -> (r: Result<
    (Vec<BindMethod>, Vec<BindField>),
    MacroError,
>)
    requires
        from <= end <= tokens@.len(),
    ensures
        match r {
            Ok((ms, fs)) => items_from(reader@, lexed(tokens@), from as int, end as int) == Ok::<
                (Seq<MethodModel>, Seq<FieldModel>),
                Fault,
            >((method_models(ms@), field_models(fs@))),
            Err(e) => items_from(reader@, lexed(tokens@), from as int, end as int) == Err::<
                (Seq<MethodModel>, Seq<FieldModel>),
                Fault,
            >(e@),
        },
{
    let ghost ts = lexed(tokens@);
    let mut methods: Vec<BindMethod> = Vec::new();
    let mut fields: Vec<BindField> = Vec::new();
    let mut p: usize = from;
    while p < end
        invariant
            p <= end <= tokens@.len(),
            ts == lexed(tokens@),
            match items_from(reader@, ts, p as int, end as int) {
                Ok((ms, fs)) => items_from(reader@, ts, from as int, end as int) == Ok::<
                    (Seq<MethodModel>, Seq<FieldModel>),
                    Fault,
                >((method_models(methods@) + ms, field_models(fields@) + fs)),
                Err(e) => items_from(reader@, ts, from as int, end as int) == Err::<
                    (Seq<MethodModel>, Seq<FieldModel>),
                    Fault,
                >(e),
            },
        decreases end - p,
    {
        let is_static = is_word(tokens, p, end, "static");
        let a: usize = if is_static {
            p + 1
        } else {
            p
        };
        if is_word(tokens, a, end, "fn") {
            match parse_method(reader, tokens, is_static, a, end) {
                Ok((m, q)) => {
                    let ghost before = methods@;
                    methods.push(m);
                    proof {
                        assert(method_models(methods@) =~= method_models(before) + seq![m@]);
                        match items_from(reader@, ts, q as int, end as int) {
                            Ok((ms, fs)) => {
                                assert(method_models(methods@) + ms =~= method_models(before)
                                    + (seq![m@] + ms));
                            },
                            Err(e) => {},
                        }
                    }
                    p = q;
                },
                Err(e) => {
                    return Err(e);
                },
            }
        } else {
            match parse_field(reader, tokens, is_static, a, end) {
                Ok((f, q)) => {
                    let ghost before = fields@;
                    fields.push(f);
                    proof {
                        assert(field_models(fields@) =~= field_models(before) + seq![f@]);
                        match items_from(reader@, ts, q as int, end as int) {
                            Ok((ms, fs)) => {
                                assert(field_models(fields@) + fs =~= field_models(before) + (
                                seq![f@] + fs));
                            },
                            Err(e) => {},
                        }
                    }
                    p = q;
                },
                Err(e) => {
                    return Err(e);
                },
            }
        }
    }
    proof {
        assert(method_models(methods@) + Seq::<MethodModel>::empty() =~= method_models(
            methods@,
        ));
        assert(field_models(fields@) + Seq::<FieldModel>::empty() =~= field_models(fields@));
    }
    Ok((methods, fields))
}

/// Whether an attempt to read a declaration gave what it should.
pub open spec fn read_as_declaration(r: Result<BindInput, MacroError>, model: Result<BindModel, Fault>) -> bool {
    match r {
        Ok(input) => model == Ok::<BindModel, Fault>(input@),
        Err(e) => model == Err::<BindModel, Fault>(e@),
    }
}

impl BindInput {
    /// Parses the tokens of a `bind!` or `interface!` invocation. What the pieces of its
    /// source text are, `syn` says, of plain ones what anyone would say; what is read is
    /// exactly what they make of the tokens.
    pub fn parse(tokens: &Vec<Token>) -> (r: Result<BindInput, MacroError>)
        ensures
            exists|pieces: Seq<PieceModel>| #[trigger]
                are_answers(pieces, lexed(tokens@)) && knows_declaration(
                    ReaderModel { pieces },
                    lexed(tokens@),
                ) && read_as_declaration(r, bind_of(ReaderModel { pieces }, lexed(tokens@))),
    {
        let reader = Reader { pieces: answers(&declaration_questions(tokens)) };
        let r = Self::read(&reader, tokens);
        assert(are_answers(reader@.pieces, lexed(tokens@)) && knows_declaration(
            ReaderModel { pieces: reader@.pieces },
            lexed(tokens@),
        ) && read_as_declaration(
            r,
            bind_of(ReaderModel { pieces: reader@.pieces }, lexed(tokens@)),
        ));
        r
    }

    /// The same, with what each piece of source text is taken for given.
    pub fn read(reader: &Reader, tokens: &Vec<Token>) -> (r: Result<BindInput, MacroError>)
        ensures
            read_as_declaration(r, bind_of(reader@, lexed(tokens@))),
    {
        let n = tokens.len();
        let class = match string_literal(reader, tokens, 0, n) {
            Some(s) => s,
            None => {
                return complain(0, "expected string literal");
            },
        };
        if !is_pair(tokens, 1, n, '=', '>') {
            return complain(1, "expected `=>`");
        }
        let name = match expect_ident(reader, tokens, 3, n) {
            Ok(s) => s,
            Err(e) => {
                return Err(e);
            },
        };
        if !is_open(tokens, 4, n, Delim::Brace) {
            return complain(4, "expected curly braces");
        }
        let close = match find_close(tokens, 5, n) {
            Some(c) => c,
            None => {
                return complain(4, "expected curly braces");
            },
        };
        let (methods, fields) = match parse_items(reader, tokens, 5, close) {
            Ok(pair) => pair,
            Err(e) => {
                return Err(e);
            },
        };
        if close + 1 != n {
            return complain(close + 1, "unexpected tokens after the declaration");
        }
        Ok(BindInput { class, name, methods, fields })
    }
}

/// The longest run of tokens from `q` that ends at `k` or before and is an
/// expression, by its end.
pub open spec fn longest_expression(
    known: ReaderModel,
    ts: Seq<TokenModel>,
    q: int,
    k: int,
) -> Option<int>
    decreases k - q,
{
    if k <= q {
        None
    } else if known.is_expression(run_text(ts, q, k)) {
        Some(k)
    } else {
        longest_expression(known, ts, q, k - 1)
    }
}

/// The complaint about the tokens from `q` to the end, which should be one
/// expression; `None` where they are.
pub open spec fn expression_fault(
    known: ReaderModel,
    ts: Seq<TokenModel>,
    q: int,
    leftover: Seq<char>,
) -> Option<
    Fault,
> {
    match longest_expression(known, ts, q, ts.len() as int) {
        None => Some(Fault { at: q, message: "expected an expression"@ }),
        Some(k) => if k == ts.len() {
            None
        } else {
            Some(Fault { at: k, message: leftover })
        },
    }
}

fn check_expression(
    reader: &Reader,
    tokens: &Vec<Token>,
    q: usize,
    leftover: &str,
) -> (r: Result<(), MacroError>)
    requires
        q <= tokens@.len(),
    ensures
        match r {
            Ok(()) => expression_fault(reader@, lexed(tokens@), q as int, leftover@) is None,
            Err(e) => expression_fault(reader@, lexed(tokens@), q as int, leftover@) == Some(e@),
        },
{
    let n = tokens.len();
    let mut k: usize = n;
    while k > q
        invariant
            q <= k <= n == tokens@.len(),
            longest_expression(reader@, lexed(tokens@), q as int, n as int) == longest_expression(
    reader@,
                lexed(tokens@),
                q as int,
                k as int,
            ),
        decreases k - q,
    {
        let text = text_between(tokens, q, k);
        if reader.expression(text.as_str()) {
            if k == n {
                return Ok(());
            }
            return complain(k, leftover);
        }
        k -= 1;
    }
    complain(q, "expected an expression")
}

/// A parsed `native!` or `native_inst!` invocation: `name, f` or `name, sig, f`.
pub struct Input {
    pub name: String,
    /// The explicit signature; `None` where it is derived from the types of `f`.
    pub sig: Option<String>,
    /// The token that `f` starts at: it goes on to the last token.
    pub f_from: usize,
    /// The source text of `f`.
    pub f: String,
}

/// The mathematical content of an [`Input`].
pub struct InputModel {
    pub name: Seq<char>,
    pub sig: Option<Seq<char>>,
    pub f_from: int,
    pub f: Seq<char>,
}

impl View for Input {
    type V = InputModel;

    open spec fn view(&self) -> InputModel {
        InputModel {
            name: self.name@,
            sig: match self.sig {
                Some(s) => Some(s@),
                None => None,
            },
            f_from: self.f_from as int,
            f: self.f@,
        }
    }
}

/// What the tokens of a `native!` or `native_inst!` invocation say. A second string
/// literal is an explicit signature.
pub open spec fn input_of(known: ReaderModel, ts: Seq<TokenModel>) -> Result<InputModel, Fault> {
    let n = ts.len() as int;
    match string_at(known, ts, 0, n) {
        None => Err(Fault { at: 0, message: "expected string literal"@ }),
        Some(name) => if !punct_at(ts, 1, n, ',') {
            Err(Fault { at: 1, message: "expected `,`"@ })
        } else {
            let sig = string_at(known, ts, 2, n);
            if sig is Some && !punct_at(ts, 3, n, ',') {
                Err(Fault { at: 3, message: "expected `,`"@ })
            } else {
                let q = if sig is Some {
                    4int
                } else {
                    2int
                };
                match expression_fault(known, ts, q, "unexpected tokens after `name[, sig], f`"@) {
                    Some(e) => Err(e),
                    None => Ok(InputModel { name, sig, f_from: q, f: run_text(ts, q, n) }),
                }
            }
        },
    }
}

/// Whether an attempt to read a native method gave what it should.
pub open spec fn read_as(r: Result<Input, MacroError>, model: Result<InputModel, Fault>) -> bool {
    match r {
        Ok(input) => model == Ok::<InputModel, Fault>(input@),
        Err(e) => model == Err::<InputModel, Fault>(e@),
    }
}

impl Input {
    /// Parses the tokens of a `native!` or `native_inst!` invocation. What the pieces of its
    /// source text are, `syn` says, of plain ones what anyone would say; what is read is
    /// exactly what they make of the tokens.
    pub fn parse(tokens: &Vec<Token>) -> (r: Result<Input, MacroError>)
        ensures
            exists|pieces: Seq<PieceModel>| #[trigger]
                are_answers(pieces, lexed(tokens@)) && knows_invocation(
                    ReaderModel { pieces },
                    lexed(tokens@),
                    r is Err,
                ) && read_as(r, input_of(ReaderModel { pieces }, lexed(tokens@))),
    {
        let mut reader = Reader { pieces: answers(&invocation_questions(tokens)) };
        let mut r = Self::read(&reader, tokens);
        if r.is_err() {
            reader = Reader { pieces: answers(&all_invocation_questions(tokens)) };
            r = Self::read(&reader, tokens);
        }
        assert(are_answers(reader@.pieces, lexed(tokens@)) && knows_invocation(
            ReaderModel { pieces: reader@.pieces },
            lexed(tokens@),
            r is Err,
        ) && read_as(r, input_of(ReaderModel { pieces: reader@.pieces }, lexed(tokens@))));
        r
    }

    /// The same, with what each piece of source text is taken for given.
    pub fn read(reader: &Reader, tokens: &Vec<Token>) -> (r: Result<Input, MacroError>)
        ensures
            read_as(r, input_of(reader@, lexed(tokens@))),
    {
        let n = tokens.len();
        let name = match string_literal(reader, tokens, 0, n) {
            Some(s) => s,
            None => {
                return complain(0, "expected string literal");
            },
        };
        if !is_punct(tokens, 1, n, ',') {
            return complain(1, "expected `,`");
        }
        let mut q: usize = 2;
        let sig = string_literal(reader, tokens, 2, n);
        if sig.is_some() {
            if !is_punct(tokens, 3, n, ',') {
                return complain(3, "expected `,`");
            }
            q = 4;
        }
        match check_expression(reader, tokens, q, "unexpected tokens after `name[, sig], f`") {
            Ok(()) => Ok(Input { name, sig, f_from: q, f: text_between(tokens, q, n) }),
            Err(e) => Err(e),
        }
    }
}

/// A parsed `async_native!` invocation: `name, f`.
pub struct AsyncInput {
    pub name: String,
    /// The token that `f` starts at: it goes on to the last token.
    pub f_from: usize,
    /// The source text of `f`.
    pub f: String,
}

/// The mathematical content of an [`AsyncInput`].
pub struct AsyncInputModel {
    pub name: Seq<char>,
    pub f_from: int,
    pub f: Seq<char>,
}

impl View for AsyncInput {
    type V = AsyncInputModel;

    open spec fn view(&self) -> AsyncInputModel {
        AsyncInputModel { name: self.name@, f_from: self.f_from as int, f: self.f@ }
    }
}

/// What the tokens of an `async_native!` invocation say.
pub open spec fn async_input_of(
    known: ReaderModel,
    ts: Seq<TokenModel>,
) -> Result<AsyncInputModel, Fault> {
    let n = ts.len() as int;
    match string_at(known, ts, 0, n) {
        None => Err(Fault { at: 0, message: "expected string literal"@ }),
        Some(name) => if !punct_at(ts, 1, n, ',') {
            Err(Fault { at: 1, message: "expected `,`"@ })
        } else {
            match expression_fault(known, ts, 2, "unexpected tokens after `name, f`"@) {
                Some(e) => Err(e),
                None => Ok(AsyncInputModel { name, f_from: 2, f: run_text(ts, 2, n) }),
            }
        },
    }
}

/// Whether an attempt to read an asynchronous native method gave what it should.
pub open spec fn read_as_async(r: Result<AsyncInput, MacroError>, model: Result<AsyncInputModel, Fault>) -> bool {
    match r {
        Ok(input) => model == Ok::<AsyncInputModel, Fault>(input@),
        Err(e) => model == Err::<AsyncInputModel, Fault>(e@),
    }
}

impl AsyncInput {
    /// Parses the tokens of an `async_native!` invocation. What the pieces of its
    /// source text are, `syn` says, of plain ones what anyone would say; what is read is
    /// exactly what they make of the tokens.
    pub fn parse(tokens: &Vec<Token>) -> (r: Result<AsyncInput, MacroError>)
        ensures
            exists|pieces: Seq<PieceModel>| #[trigger]
                are_answers(pieces, lexed(tokens@)) && knows_invocation(
                    ReaderModel { pieces },
                    lexed(tokens@),
                    r is Err,
                ) && read_as_async(r, async_input_of(ReaderModel { pieces }, lexed(tokens@))),
    {
        let mut reader = Reader { pieces: answers(&invocation_questions(tokens)) };
        let mut r = Self::read(&reader, tokens);
        if r.is_err() {
            reader = Reader { pieces: answers(&all_invocation_questions(tokens)) };
            r = Self::read(&reader, tokens);
        }
        assert(are_answers(reader@.pieces, lexed(tokens@)) && knows_invocation(
            ReaderModel { pieces: reader@.pieces },
            lexed(tokens@),
            r is Err,
        ) && read_as_async(r, async_input_of(ReaderModel { pieces: reader@.pieces }, lexed(tokens@))));
        r
    }

    /// The same, with what each piece of source text is taken for given.
    pub fn read(reader: &Reader, tokens: &Vec<Token>) -> (r: Result<AsyncInput, MacroError>)
        ensures
            read_as_async(r, async_input_of(reader@, lexed(tokens@))),
    {
        let n = tokens.len();
        let name = match string_literal(reader, tokens, 0, n) {
            Some(s) => s,
            None => {
                return complain(0, "expected string literal");
            },
        };
        if !is_punct(tokens, 1, n, ',') {
            return complain(1, "expected `,`");
        }
        match check_expression(reader, tokens, 2, "unexpected tokens after `name, f`") {
            Ok(()) => Ok(AsyncInput { name, f_from: 2, f: text_between(tokens, 2, n) }),
            Err(e) => Err(e),
        }
    }
}

/// A parsed `interface!` declaration: a [`BindInput`] without fields.
pub struct InterfaceInput {
    pub class: String,
    pub name: String,
    pub methods: Vec<BindMethod>,
}

/// The mathematical content of an [`InterfaceInput`].
pub struct InterfaceModel {
    pub class: Seq<char>,
    pub name: Seq<char>,
    pub methods: Seq<MethodModel>,
}

impl View for InterfaceInput {
    type V = InterfaceModel;

    open spec fn view(&self) -> InterfaceModel {
        InterfaceModel {
            class: self.class@,
            name: self.name@,
            methods: method_models(self.methods@),
        }
    }
}

/// An interface declaration, from a declaration of the common form.
pub open spec fn interface_of(input: BindModel) -> Result<InterfaceModel, Fault> {
    if input.fields.len() > 0 {
        Err(
            Fault {
                at: input.fields[0].name_at,
                message: "`field` declarations are not supported in interface! — an interface is implemented by trait methods on your Rust state, not by fields; bind fields with bind! instead"@,
            },
        )
    } else {
        Ok(InterfaceModel { class: input.class, name: input.name, methods: input.methods })
    }
}

impl InterfaceInput {
    /// Takes a declaration of the common form as an interface, unless it has fields.
    pub fn from_bind(input: BindInput) -> (r: Result<InterfaceInput, MacroError>)
        ensures
            match r {
                Ok(i) => interface_of(input@) == Ok::<InterfaceModel, Fault>(i@),
                Err(e) => interface_of(input@) == Err::<InterfaceModel, Fault>(e@),
            },
    {
        if input.fields.len() > 0 {
            return complain(
                input.fields[0].name_at,
                "`field` declarations are not supported in interface! — an interface is implemented by trait methods on your Rust state, not by fields; bind fields with bind! instead",
            );
        }
        Ok(InterfaceInput { class: input.class, name: input.name, methods: input.methods })
    }
}

}
