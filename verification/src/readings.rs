use vstd::prelude::*;

use crate::grammar::{
    after_static, after_tree, alias_from, async_input_of, bind_of, close_from, close_from_bounds,
    field_at, field_at_bounds, input_of, interface_of, items_from, lexed, method_at,
    method_at_bounds, param_at, params_from, return_from, run_text, shape_text, stops_at, type_end,
    type_end_bounds, type_from, type_from_bounds, word_at, AsyncInput, AsyncInputModel, BindField,
    BindInput, BindMethod, BindModel, Delim, Fault, FieldModel, Input, InputModel, InterfaceInput,
    InterfaceModel, Lexeme, MacroError, MethodModel, Param, ParamModel, Stop, Token, TokenKind,
    TokenModel, TypeUse, TypeUseModel,
};
use crate::reader::{first_outline, first_value, Piece, PieceModel, Reader, ReaderModel};

verus! {

/// Tokens show what they are, in order, and complaints the token that they are about.
pub proof fn tokens_are_what_they_show(tokens: Seq<Token>, i: int, e: MacroError)
    ensures
        lexed(tokens).len() == tokens.len(),
        0 <= i < tokens.len() ==> {
            let t = lexed(tokens)[i];
            &&& t.depth == tokens[i].depth
            &&& t.kind == (match tokens[i].kind {
                TokenKind::Ident(s) => Lexeme::Ident(s@),
                TokenKind::Punct(c, joint) => Lexeme::Punct(c, joint),
                TokenKind::Literal(s) => Lexeme::Literal(s@),
                TokenKind::Open(d) => Lexeme::Open(d),
                TokenKind::Close(d) => Lexeme::Close(d),
            })
        },
        e@.at == e.at,
        e@.message == e.message@,
{
}

/// A declared type shows where it stands, its text and its shape.
pub proof fn type_uses_are_what_they_show(t: TypeUse)
    ensures
        t@.from == t.from,
        t@.to == t.to,
        t@.text == t.text@,
        t@.outline == t.outline@,
{
}

/// Declared parameters, methods and fields show what they are; parameters keep their order.
pub proof fn items_are_what_they_show(p: Param, m: BindMethod, f: BindField, i: int)
    ensures
        p@.name == p.name@ && p@.name_at == p.name_at && p@.ty == p.ty@,
        m@.is_static == m.is_static && m@.name == m.name@ && m@.name_at == m.name_at,
        m@.params.len() == m.params@.len(),
        0 <= i < m.params@.len() ==> m@.params[i] == m.params@[i]@,
        m@.ret == (match m.ret {
            Some(t) => Some(t@),
            None => None,
        }),
        m.java_name is None <==> m@.java_name is None,
        m.java_name matches Some(pair) ==> (m@.java_name->0).0 == pair.0@ && (m@.java_name->0).1
            == pair.1,
        f@.is_static == f.is_static && f@.name == f.name@ && f@.name_at == f.name_at,
        f@.ty == f.ty@,
{
}

/// Declarations show what they are; methods and fields keep their order.
pub proof fn declarations_are_what_they_show(
    b: BindInput,
    n: InterfaceInput,
    a: Input,
    s: AsyncInput,
    i: int,
)
    ensures
        b@.class == b.class@ && b@.name == b.name@,
        b@.methods.len() == b.methods@.len() && b@.fields.len() == b.fields@.len(),
        0 <= i < b.methods@.len() ==> b@.methods[i] == b.methods@[i]@,
        0 <= i < b.fields@.len() ==> b@.fields[i] == b.fields@[i]@,
        n@.class == n.class@ && n@.name == n.name@,
        n@.methods.len() == n.methods@.len(),
        0 <= i < n.methods@.len() ==> n@.methods[i] == n.methods@[i]@,
        a@.name == a.name@ && a@.f == a.f@ && a@.f_from == a.f_from,
        a@.sig == (match a.sig {
            Some(t) => Some(t@),
            None => None,
        }),
        s@.name == s.name@ && s@.f == s.f@ && s@.f_from == s.f_from,
{
}

/// What is known of a text is what the first entry for it says, and nothing is known of a
/// text that has none.
pub proof fn first_entries_count(pieces: Seq<PieceModel>, piece: PieceModel, text: Seq<char>)
    ensures
        pieces.len() == 0 ==> first_value(pieces, text) is None && first_outline(pieces, text)
            is None,
        ({
            let all = seq![piece] + pieces;
            &&& first_value(all, text) == (match piece {
                PieceModel::Text { source, value } if source == text => Some(value),
                _ => first_value(pieces, text),
            })
            &&& first_outline(all, text) == (match piece {
                PieceModel::Type { source, outline } if source == text => Some(outline),
                _ => first_outline(pieces, text),
            })
        }),
{
    assert((seq![piece] + pieces).drop_first() =~= pieces);
}

/// A reader shows its entries in order, each as it is.
pub proof fn entries_are_what_they_show(r: Reader, i: int)
    requires
        0 <= i < r.pieces@.len(),
    ensures
        r@.pieces.len() == r.pieces@.len(),
        match r.pieces@[i] {
            Piece::Identifier(s) => r@.pieces[i] == PieceModel::Identifier(s@),
            Piece::Expression(s) => r@.pieces[i] == PieceModel::Expression(s@),
            Piece::Text { source, value } => r@.pieces[i] == (PieceModel::Text {
                source: source@,
                value: value@,
            }),
            Piece::Type { source, outline } => r@.pieces[i] == (PieceModel::Type {
                source: source@,
                outline: outline@,
            }),
        },
{
}

/// The text of a run of tokens is the texts of its tokens, one behind the other; each has a
/// space behind it, but for punctuation that the next one follows at once.
pub proof fn runs_are_written_token_by_token(ts: Seq<TokenModel>, a: int, b: int, c: int)
    requires
        a <= b <= c,
    ensures
        run_text(ts, a, c) == run_text(ts, a, b) + run_text(ts, b, c),
        run_text(ts, a, a) == Seq::<char>::empty(),
        run_text(ts, a, a + 1) == (match ts[a].kind {
            Lexeme::Ident(s) => s + seq![' '],
            Lexeme::Punct(x, joint) => if joint {
                seq![x]
            } else {
                seq![x] + seq![' ']
            },
            Lexeme::Literal(s) => s + seq![' '],
            Lexeme::Open(Delim::Paren) => seq!['(', ' '],
            Lexeme::Open(Delim::Brace) => seq!['{', ' '],
            Lexeme::Open(Delim::Bracket) => seq!['[', ' '],
            Lexeme::Close(Delim::Paren) => seq![')', ' '],
            Lexeme::Close(Delim::Brace) => seq!['}', ' '],
            Lexeme::Close(Delim::Bracket) => seq![']', ' '],
        }),
    decreases c - b,
{
    reveal_with_fuel(run_text, 2);
    if b < c {
        runs_are_written_token_by_token(ts, a, b, c - 1);
        assert(run_text(ts, a, c) =~= run_text(ts, a, b) + run_text(ts, b, c));
    } else {
        assert(run_text(ts, b, c) =~= Seq::<char>::empty());
        assert(run_text(ts, a, c) =~= run_text(ts, a, b) + run_text(ts, b, c));
    }
}

proof fn inner_groups_close_first(ts: Seq<TokenModel>, p: int, end: int, inner: nat, outer: nat)
    ensures
        close_from(ts, p, end, inner) matches Some(c) ==> close_from(ts, p, end, inner + outer + 1)
            == close_from(ts, c + 1, end, outer),
        close_from(ts, p, end, inner) is None ==> close_from(ts, p, end, inner + outer + 1) is None,
    decreases end - p,
{
    if p < end {
        match ts[p].kind {
            Lexeme::Open(_) => {
                inner_groups_close_first(ts, p + 1, end, inner + 1, outer);
            },
            Lexeme::Close(_) => {
                if inner > 0 {
                    inner_groups_close_first(ts, p + 1, end, (inner - 1) as nat, outer);
                }
            },
            _ => {
                inner_groups_close_first(ts, p + 1, end, inner, outer);
            },
        }
    }
}

/// A group ends at the first closing token that closes none of the groups inside it: plain
/// tokens are passed over, and so is each group inside.
pub proof fn groups_end_at_their_own_bracket(ts: Seq<TokenModel>, p: int, end: int)
    requires
        p < end,
    ensures
        ts[p].kind is Close ==> close_from(ts, p, end, 0) == Some(p),
        !(ts[p].kind is Close) && !(ts[p].kind is Open) ==> close_from(ts, p, end, 0)
            == close_from(ts, p + 1, end, 0),
        ts[p].kind is Open ==> close_from(ts, p, end, 0) == (match close_from(ts, p + 1, end, 0) {
            Some(c) => close_from(ts, c + 1, end, 0),
            None => None,
        }),
        close_from(ts, p, end, 0) matches Some(c) ==> p <= c < end && ts[c].kind is Close,
        close_from(ts, end, end, 0) is None,
{
    inner_groups_close_first(ts, p + 1, end, 0, 0);
    closing_tokens_close(ts, p, end, 0);
}

proof fn closing_tokens_close(ts: Seq<TokenModel>, p: int, end: int, depth: nat)
    ensures
        close_from(ts, p, end, depth) matches Some(c) ==> p <= c < end && ts[c].kind is Close,
    decreases end - p,
{
    if p < end {
        match ts[p].kind {
            Lexeme::Open(_) => closing_tokens_close(ts, p + 1, end, depth + 1),
            Lexeme::Close(_) => if depth > 0 {
                closing_tokens_close(ts, p + 1, end, (depth - 1) as nat)
            },
            _ => closing_tokens_close(ts, p + 1, end, depth),
        }
    }
}

proof fn ends_are_complete(
    known: ReaderModel,
    ts: Seq<TokenModel>,
    from: int,
    p: int,
    end: int,
    stop: Stop,
)
    ensures
        type_end(known, ts, from, p, end, stop) matches Some(to) ==> p <= to && stops_at(
            ts,
            to,
            end,
            stop,
        ) && known.outline_of(shape_text(ts, from, to, to)) is Some,
    decreases end - p,
{
    if !(stops_at(ts, p, end, stop) && known.outline_of(shape_text(ts, from, p, p)) is Some)
        && !crate::grammar::punct_at(ts, p, end, ';') {
        close_from_bounds(ts, p + 1, end, 0);
        if let Some(q) = after_tree(ts, p, end) {
            ends_are_complete(known, ts, from, q, end, stop);
        }
    }
}

/// A type that is read starts where it should, ends at a place where a type may end, has the
/// text between the two, and the shape that is known of it.
pub proof fn types_are_read_between_their_ends(
    known: ReaderModel,
    ts: Seq<TokenModel>,
    p: int,
    end: int,
    stop: Stop,
    t: TypeUseModel,
)
    requires
        type_from(known, ts, p, end, stop) == Ok::<TypeUseModel, Fault>(t),
    ensures
        t.from == p,
        p < t.to,
        t.text == run_text(ts, p, t.to),
        known.outline_of(shape_text(ts, p, t.to, t.to)) == Some(t.outline),
        match stop {
            Stop::Comma => t.to >= end || (ts[t.to].kind matches Lexeme::Punct(c, _) && c == ','),
            Stop::Semicolon => t.to < end && (ts[t.to].kind matches Lexeme::Punct(c, _) && c
                == ';'),
            Stop::Tail => t.to < end && (ts[t.to].kind == Lexeme::Open(Delim::Bracket) || (
            ts[t.to].kind matches Lexeme::Punct(c, _) && c == ';')),
        },
{
    type_from_bounds(known, ts, p, end, stop);
    let q = after_tree(ts, p, end)->0;
    ends_are_complete(known, ts, p, q, end, stop);
}

/// A parameter that is read is the name, a colon and the type that stand there.
pub proof fn parameters_are_read_as_declared(
    known: ReaderModel,
    ts: Seq<TokenModel>,
    p: int,
    end: int,
    x: ParamModel,
)
    requires
        param_at(known, ts, p, end) == Ok::<ParamModel, Fault>(x),
    ensures
        p < end,
        ts[p].kind == Lexeme::Ident(x.name),
        known.is_identifier(x.name),
        x.name_at == p,
        ts[p + 1].kind matches Lexeme::Punct(c, _) && c == ':',
        type_from(known, ts, p + 2, end, Stop::Comma) == Ok::<TypeUseModel, Fault>(x.ty),
        x.ty.from == p + 2,
        x.ty.text == run_text(ts, p + 2, x.ty.to),
{
    types_are_read_between_their_ends(known, ts, p + 2, end, Stop::Comma, x.ty);
}

/// The parameters of a list are read one after the other, from the first to the last, each
/// behind the comma of the one before.
pub proof fn parameters_are_read_in_order(
    known: ReaderModel,
    ts: Seq<TokenModel>,
    p: int,
    end: int,
    ps: Seq<ParamModel>,
)
    requires
        params_from(known, ts, p, end) == Ok::<Seq<ParamModel>, Fault>(ps),
    ensures
        ps.len() == 0 <==> p >= end,
        ps.len() > 0 ==> param_at(known, ts, p, end) == Ok::<ParamModel, Fault>(ps[0]),
        ps.len() > 0 ==> ps.last().ty.to + 1 >= end,
        forall|i: int| #![trigger ps[i]]
            0 < i < ps.len() ==> param_at(known, ts, ps[i - 1].ty.to + 1, end) == Ok::<
                ParamModel,
                Fault,
            >(ps[i]),
    decreases end + 1 - p,
{
    if p < end {
        let first = param_at(known, ts, p, end)->Ok_0;
        type_from_bounds(known, ts, p + 2, end, Stop::Comma);
        let rest = params_from(known, ts, first.ty.to + 1, end)->Ok_0;
        parameters_are_read_in_order(known, ts, first.ty.to + 1, end, rest);
        assert(ps == seq![first] + rest);
        assert forall|i: int| #![trigger ps[i]] 0 < i < ps.len() implies param_at(
            known,
            ts,
            ps[i - 1].ty.to + 1,
            end,
        ) == Ok::<ParamModel, Fault>(ps[i]) by {
            assert(ps[i] == rest[i - 1]);
            if i > 1 {
                assert(ps[i - 1] == rest[i - 2]);
            }
        }
        if rest.len() > 0 {
            assert(ps.last() == rest.last());
        }
    }
}

/// A method that is read has the name behind its `fn`, the parameters between its
/// parentheses, the return type behind its arrow, and the Java name of its attribute.
pub proof fn methods_are_read_as_declared(
    known: ReaderModel,
    ts: Seq<TokenModel>,
    is_static: bool,
    p: int,
    end: int,
    m: MethodModel,
    q: int,
)
    requires
        method_at(known, ts, is_static, p, end) == Ok::<(MethodModel, int), Fault>((m, q)),
    ensures
        m.is_static == is_static,
        m.name_at == p + 1,
        ts[p + 1].kind == Lexeme::Ident(m.name),
        known.is_identifier(m.name),
        ts[p + 2].kind == Lexeme::Open(Delim::Paren),
        ({
            let close = close_from(ts, p + 3, end, 0)->0;
            let (ret, r) = return_from(known, ts, close + 1, end)->Ok_0;
            &&& close_from(ts, p + 3, end, 0) is Some
            &&& params_from(known, ts, p + 3, close) == Ok::<Seq<ParamModel>, Fault>(m.params)
            &&& return_from(known, ts, close + 1, end) is Ok
            &&& m.ret == ret
            &&& alias_from(known, ts, r, end) == Ok::<(Option<(Seq<char>, int)>, int), Fault>(
                (m.java_name, q - 1),
            )
        }),
        ts[q - 1].kind matches Lexeme::Punct(c, _) && c == ';',
        p + 3 < q <= end,
{
    method_at_bounds(known, ts, is_static, p, end);
    reveal(method_at);
}

/// A return type is what stands behind the arrow, and there is none without an arrow; a
/// Java name is the value of the literal in the attribute `java_name`, and there is none
/// without an attribute.
pub proof fn tails_are_read_as_declared(known: ReaderModel, ts: Seq<TokenModel>, p: int, end: int)
    ensures
        ({
            let arrow = p + 1 < end && ts[p].kind == Lexeme::Punct('-', true) && (ts[p + 1].kind
                matches Lexeme::Punct(c, _) && c == '>');
            &&& !arrow ==> return_from(known, ts, p, end) == Ok::<
                (Option<TypeUseModel>, int),
                Fault,
            >((None, p))
            &&& arrow ==> return_from(known, ts, p, end) == (match type_from(
                known,
                ts,
                p + 2,
                end,
                Stop::Tail,
            ) {
                Ok(t) => Ok::<(Option<TypeUseModel>, int), Fault>((Some(t), t.to)),
                Err(e) => Err::<(Option<TypeUseModel>, int), Fault>(e),
            })
        }),
        !(p < end && ts[p].kind == Lexeme::Open(Delim::Bracket)) ==> alias_from(known, ts, p, end)
            == Ok::<(Option<(Seq<char>, int)>, int), Fault>((None, p)),
        p < end && ts[p].kind == Lexeme::Open(Delim::Bracket) ==> (alias_from(known, ts, p, end)
            matches Ok((name, q)) ==> {
            &&& name is Some
            &&& (name->0).1 == p + 3
            &&& ts[p + 1].kind == Lexeme::Ident("java_name"@)
            &&& (ts[p + 2].kind matches Lexeme::Punct(c, _) && c == '=')
            &&& (ts[p + 3].kind matches Lexeme::Literal(s) && known.string_value(s) == Some(
                (name->0).0,
            ))
            &&& q == p + 5
            &&& ts[p + 4].kind is Close
        }),
{
    if p < end && ts[p].kind == Lexeme::Open(Delim::Bracket) {
        closing_tokens_close(ts, p + 1, end, 0);
    }
}

/// A field that is read has the name behind its `field`, and the type behind the colon.
pub proof fn fields_are_read_as_declared(
    known: ReaderModel,
    ts: Seq<TokenModel>,
    is_static: bool,
    p: int,
    end: int,
    f: FieldModel,
    q: int,
)
    requires
        field_at(known, ts, is_static, p, end) == Ok::<(FieldModel, int), Fault>((f, q)),
    ensures
        f.is_static == is_static,
        f.name_at == p + 1,
        ts[p].kind == Lexeme::Ident("field"@),
        ts[p + 1].kind == Lexeme::Ident(f.name),
        known.is_identifier(f.name),
        ts[p + 2].kind matches Lexeme::Punct(c, _) && c == ':',
        type_from(known, ts, p + 3, end, Stop::Semicolon) == Ok::<TypeUseModel, Fault>(f.ty),
        q == f.ty.to + 1,
        f.ty.text == run_text(ts, p + 3, f.ty.to),
{
    reveal(field_at);
    types_are_read_between_their_ends(known, ts, p + 3, end, Stop::Semicolon, f.ty);
}

/// The items of a declaration are read one after the other, none is passed over, and each
/// is a method or a field, static where the word stands before it.
pub proof fn items_are_read_in_order(
    known: ReaderModel,
    ts: Seq<TokenModel>,
    p: int,
    end: int,
    ms: Seq<MethodModel>,
    fs: Seq<FieldModel>,
)
    requires
        items_from(known, ts, p, end) == Ok::<(Seq<MethodModel>, Seq<FieldModel>), Fault>((ms, fs)),
    ensures
        p >= end ==> ms.len() == 0 && fs.len() == 0,
        p < end ==> ({
            let is_static = ts[p].kind == Lexeme::Ident("static"@);
            let a = if is_static {
                p + 1
            } else {
                p
            };
            if a < end && ts[a].kind == Lexeme::Ident("fn"@) {
                let (m, q) = method_at(known, ts, is_static, a, end)->Ok_0;
                &&& method_at(known, ts, is_static, a, end) is Ok
                &&& ms.len() > 0 && ms[0] == m
                &&& items_from(known, ts, q, end) == Ok::<
                    (Seq<MethodModel>, Seq<FieldModel>),
                    Fault,
                >((ms.drop_first(), fs))
            } else {
                let (f, q) = field_at(known, ts, is_static, a, end)->Ok_0;
                &&& field_at(known, ts, is_static, a, end) is Ok
                &&& fs.len() > 0 && fs[0] == f
                &&& items_from(known, ts, q, end) == Ok::<
                    (Seq<MethodModel>, Seq<FieldModel>),
                    Fault,
                >((ms, fs.drop_first()))
            }
        }),
{
    if p < end {
        let is_static = word_at(ts, p, end, "static"@);
        let a = after_static(ts, p, end);
        if word_at(ts, a, end, "fn"@) {
            method_at_bounds(known, ts, is_static, a, end);
            let (m, q) = method_at(known, ts, is_static, a, end)->Ok_0;
            let (rest, _) = items_from(known, ts, q, end)->Ok_0;
            assert(ms == seq![m] + rest);
            assert(ms.drop_first() =~= rest);
        } else {
            field_at_bounds(known, ts, is_static, a, end);
            let (f, q) = field_at(known, ts, is_static, a, end)->Ok_0;
            let (_, rest) = items_from(known, ts, q, end)->Ok_0;
            assert(fs == seq![f] + rest);
            assert(fs.drop_first() =~= rest);
        }
    }
}

/// A declaration that is read has the class of its literal, the name behind the arrow and
/// the items between its braces, and nothing stands behind it.
pub proof fn declarations_are_read_whole(known: ReaderModel, ts: Seq<TokenModel>, b: BindModel)
    requires
        bind_of(known, ts) == Ok::<BindModel, Fault>(b),
    ensures
        ts.len() >= 6,
        ts[0].kind matches Lexeme::Literal(s) && known.string_value(s) == Some(b.class),
        ts[1].kind == Lexeme::Punct('=', true),
        ts[2].kind matches Lexeme::Punct(c, _) && c == '>',
        ts[3].kind == Lexeme::Ident(b.name),
        known.is_identifier(b.name),
        ts[4].kind == Lexeme::Open(Delim::Brace),
        close_from(ts, 5, ts.len() as int, 0) == Some(ts.len() - 1),
        items_from(known, ts, 5, ts.len() - 1) == Ok::<(Seq<MethodModel>, Seq<FieldModel>), Fault>(
            (b.methods, b.fields),
        ),
{
    close_from_bounds(ts, 5, ts.len() as int, 0);
}

/// An interface is its declaration, as long as that has no fields.
pub proof fn interfaces_are_their_declarations(b: BindModel)
    ensures
        b.fields.len() == 0 ==> (interface_of(b) matches Ok(i) && i.class == b.class && i.name
            == b.name && i.methods == b.methods),
        b.fields.len() > 0 ==> (interface_of(b) matches Err(e) && e.at == b.fields[0].name_at),
{
}

/// A native method that is read has the name of its first literal, the signature of its
/// second where there is one, and for a callable all the tokens behind them.
pub proof fn native_methods_are_read_whole(known: ReaderModel, ts: Seq<TokenModel>)
    ensures
        input_of(known, ts) matches Ok(x) ==> {
            let q = if ts[2].kind matches Lexeme::Literal(s) && known.string_value(s) is Some {
                4int
            } else {
                2int
            };
            &&& ts.len() > q
            &&& (ts[0].kind matches Lexeme::Literal(s) && known.string_value(s) == Some(x.name))
            &&& (ts[1].kind matches Lexeme::Punct(c, _) && c == ',')
            &&& x.sig is Some <==> q == 4
            &&& x.sig is Some ==> known.string_value(ts[2].kind->Literal_0) == x.sig
            &&& x.sig is Some ==> (ts[3].kind matches Lexeme::Punct(c, _) && c == ',')
            &&& x.f_from == q
            &&& x.f == run_text(ts, q, ts.len() as int)
            &&& known.is_expression(x.f)
        },
        async_input_of(known, ts) matches Ok(x) ==> {
            &&& ts.len() > 2
            &&& (ts[0].kind matches Lexeme::Literal(s) && known.string_value(s) == Some(x.name))
            &&& (ts[1].kind matches Lexeme::Punct(c, _) && c == ',')
            &&& x.f_from == 2
            &&& x.f == run_text(ts, 2, ts.len() as int)
            &&& known.is_expression(x.f)
        },
{
    let n = ts.len() as int;
    longest_expressions_are_expressions(known, ts, 2, n);
    longest_expressions_are_expressions(known, ts, 4, n);
}

proof fn longest_expressions_are_expressions(
    known: ReaderModel,
    ts: Seq<TokenModel>,
    q: int,
    k: int,
)
    ensures
        crate::grammar::longest_expression(known, ts, q, k) matches Some(e) ==> q < e <= k
            && known.is_expression(run_text(ts, q, e)),
    decreases k - q,
{
    if k > q {
        longest_expressions_are_expressions(known, ts, q, k - 1);
    }
}

}
