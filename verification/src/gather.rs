use vstd::prelude::*;

use crate::grammar::{
    after_static, after_tree, alias_from, async_input_of, bind_of, close_from, close_from_bounds,
    field_at, field_at_bounds, group_text, group_type, group_type_bounds, ident_at, input_of,
    is_pair, is_punct, items_from, lexed, lexeme_text, longest_expression, method_at,
    method_at_bounds, open_at, pair_at, param_at, params_from, punct_at, return_from, run_text,
    shape_between, shape_text, skip_tree, stops_at, string_at, text_between, type_end,
    type_end_bounds, type_from, type_from_bounds, word_at, AsyncInputModel, Delim, Fault,
    InputModel, Lexeme, Stop, Token, TokenKind, TokenModel,
};
use crate::plain::{
    breaks_off, is_broken_path_text, is_broken_type_text, is_keyword, is_name, is_number_text,
    is_path_text, is_plain_literal, is_plain_path, is_plain_word, is_type_text, plain_outline,
    unquoted,
};
use crate::reader::{first_outline, first_value, piece_models, Piece, PieceModel, ReaderModel};
use crate::rust_source::{
    accepts_expression, accepts_identifier, read_string, read_type, OutlineModel,
};

verus! {

/// What is asked about a piece of source text.
#[derive(Debug)]
pub enum Question {
    /// Is the text an identifier that is no keyword?
    Identifier(String),
    /// Is the text an expression?
    Expression(String),
    /// Which value does the text have as a string literal?
    Text(String),
    /// Which shape does the text have as a type?
    Type(String),
}

/// The mathematical content of a [`Question`].
pub enum QuestionModel {
    Identifier(Seq<char>),
    Expression(Seq<char>),
    Text(Seq<char>),
    Type(Seq<char>),
}

impl View for Question {
    type V = QuestionModel;

    open spec fn view(&self) -> QuestionModel {
        match self {
            Question::Identifier(s) => QuestionModel::Identifier(s@),
            Question::Expression(s) => QuestionModel::Expression(s@),
            Question::Text(s) => QuestionModel::Text(s@),
            Question::Type(s) => QuestionModel::Type(s@),
        }
    }
}

/// The contents of questions.
pub open spec fn question_models(qs: Seq<Question>) -> Seq<QuestionModel> {
    Seq::new(qs.len(), |i: int| qs[i]@)
}

/// The question that a piece answers.
pub open spec fn question_of(piece: PieceModel) -> QuestionModel {
    match piece {
        PieceModel::Identifier(s) => QuestionModel::Identifier(s),
        PieceModel::Expression(s) => QuestionModel::Expression(s),
        PieceModel::Text { source, .. } => QuestionModel::Text(source),
        PieceModel::Type { source, .. } => QuestionModel::Type(source),
    }
}

/// Whether a type may start at `from`: behind a colon or an arrow.
pub open spec fn starts_type(ts: Seq<TokenModel>, from: int) -> bool {
    ||| 0 < from <= ts.len() && punct_at(ts, from - 1, from, ':')
    ||| 1 < from <= ts.len() && pair_at(ts, from - 2, from, '-', '>')
}

/// Whether a type may end at `q`, wherever it stands.
pub open spec fn ends_type(ts: Seq<TokenModel>, q: int) -> bool {
    ||| q >= ts.len()
    ||| ts[q].kind is Close
    ||| open_at(ts, q, ts.len() as int, Delim::Bracket)
    ||| punct_at(ts, q, ts.len() as int, ',')
    ||| punct_at(ts, q, ts.len() as int, ';')
}

/// Whether `q` is reached from `a` token by token, and group by group, without passing a
/// semicolon.
pub open spec fn reaches(ts: Seq<TokenModel>, a: int, q: int) -> bool
    decreases ts.len() - a,
{
    ||| a == q
    ||| !punct_at(ts, a, ts.len() as int, ';') && {
        proof {
            close_from_bounds(ts, a + 1, ts.len() as int, 0);
        }
        match after_tree(ts, a, ts.len() as int) {
            Some(b) => reaches(ts, b, q),
            None => false,
        }
    }
}

/// Whether a type may stand between two positions.
pub open spec fn may_be_type(ts: Seq<TokenModel>, from: int, q: int) -> bool {
    &&& starts_type(ts, from)
    &&& after_tree(ts, from, ts.len() as int) matches Some(a) && reaches(ts, a, q)
    &&& ends_type(ts, q)
}

/// Whether the callable of a native method may stand between two positions: behind its
/// name, or behind its name and its signature.
pub open spec fn may_be_callable(ts: Seq<TokenModel>, q: int, k: int) -> bool {
    (q == 2 || q == 4) && q < k <= ts.len()
}

/// Whether the reading of a macro invocation may ask a question.
pub open spec fn is_question(ts: Seq<TokenModel>, x: QuestionModel) -> bool {
    match x {
        QuestionModel::Identifier(s) => exists|p: int|
            0 <= p < ts.len() && (#[trigger] ts[p]).kind == Lexeme::Ident(s),
        QuestionModel::Text(s) => exists|p: int|
            0 <= p < ts.len() && (#[trigger] ts[p]).kind == Lexeme::Literal(s),
        QuestionModel::Type(s) => exists|from: int, q: int| #[trigger]
            may_be_type(ts, from, q) && s == shape_text(ts, from, q, q),
        QuestionModel::Expression(s) => exists|q: int, k: int| #[trigger]
            may_be_callable(ts, q, k) && s == run_text(ts, q, k),
    }
}

/// Whether a piece is right, where its text is plain.
pub open spec fn is_right(piece: PieceModel) -> bool {
    match piece {
        PieceModel::Identifier(s) => is_plain_word(s) ==> !is_keyword(s),
        PieceModel::Expression(s) => !is_broken_path_text(s),
        PieceModel::Text { source, value } => {
            &&& !is_number_text(source)
            &&& is_plain_literal(source) ==> value == unquoted(source)
        },
        PieceModel::Type { source, outline } => {
            &&& !is_broken_type_text(source)
            &&& forall|t: OutlineModel| #[trigger] is_type_text(source, t) ==> outline == t
        },
    }
}

/// Whether pieces are right, and answer questions that the reading of an invocation may
/// ask.
pub open spec fn are_answers(pieces: Seq<PieceModel>, ts: Seq<TokenModel>) -> bool {
    forall|i: int|
        0 <= i < pieces.len() ==> is_right(#[trigger] pieces[i]) && is_question(
            ts,
            question_of(pieces[i]),
        )
}

/// Whether a reader has the right answer to a question, where its text is plain.
pub open spec fn answers_rightly(known: ReaderModel, x: QuestionModel) -> bool {
    match x {
        QuestionModel::Identifier(s) => is_plain_word(s) ==> known.is_identifier(s)
            == !is_keyword(s),
        QuestionModel::Expression(s) => {
            &&& is_path_text(s) ==> known.is_expression(s)
            &&& is_broken_path_text(s) ==> !known.is_expression(s)
        },
        QuestionModel::Text(s) => {
            &&& is_plain_literal(s) ==> known.string_value(s) == Some(unquoted(s))
            &&& is_number_text(s) ==> known.string_value(s) is None
        },
        QuestionModel::Type(s) => {
            &&& forall|t: OutlineModel| #[trigger]
                is_type_text(s, t) ==> known.outline_of(s) == Some(t)
            &&& is_broken_type_text(s) ==> known.outline_of(s) is None
        },
    }
}

/// Whether a reader has the right answers to all that the reading of a declaration may
/// ask, where the texts are plain.
pub open spec fn knows_declaration(known: ReaderModel, ts: Seq<TokenModel>) -> bool {
    forall|x: QuestionModel| #[trigger]
        is_question(ts, x) && !(x is Expression) ==> answers_rightly(known, x)
}

/// Whether a question is about all tokens behind the name of a native method, or behind
/// its name and its signature.
pub open spec fn is_about_the_rest(ts: Seq<TokenModel>, x: QuestionModel) -> bool {
    ||| ts.len() > 2 && x == QuestionModel::Expression(run_text(ts, 2, ts.len() as int))
    ||| ts.len() > 4 && x == QuestionModel::Expression(run_text(ts, 4, ts.len() as int))
}

/// Whether a reader has the right answers to what the reading of a native method asks,
/// where the texts are plain: to all that it may ask where `all` says so, and else to what
/// it takes where the callable is all the rest.
pub open spec fn knows_invocation(known: ReaderModel, ts: Seq<TokenModel>, all: bool) -> bool {
    forall|x: QuestionModel| #[trigger]
        is_question(ts, x) && (x is Text || x is Expression && (all || is_about_the_rest(ts, x)))
            ==> answers_rightly(known, x)
}

/// Whether all questions are questions that the reading of an invocation may ask.
pub open spec fn are_questions(qs: Seq<QuestionModel>, ts: Seq<TokenModel>) -> bool {
    forall|i: int| 0 <= i < qs.len() ==> is_question(ts, #[trigger] qs[i])
}

proof fn asked_stays(qs: Seq<QuestionModel>, x: QuestionModel, y: QuestionModel)
    requires
        qs.contains(y),
    ensures
        qs.push(x).contains(y),
{
    let i = choose|i: int| 0 <= i < qs.len() && qs[i] == y;
    assert(qs.push(x)[i] == y);
}

fn ask(qs: &mut Vec<Question>, x: Question)
    ensures
        question_models(final(qs)@) == question_models(old(qs)@).push(x@),
        question_models(final(qs)@).contains(x@),
        forall|y: QuestionModel| #[trigger]
            question_models(old(qs)@).contains(y) ==> question_models(final(qs)@).contains(y),
{
    let ghost before = question_models(qs@);
    qs.push(x);
    proof {
        let after = question_models(qs@);
        assert(after =~= before.push(x@));
        assert(after[after.len() - 1] == x@);
        assert forall|y: QuestionModel| #[trigger] before.contains(y) implies after.contains(y) by {
            asked_stays(before, x@, y);
        }
    }
}

fn can_end_type(tokens: &Vec<Token>, q: usize) -> (r: bool)
    ensures
        r == ends_type(lexed(tokens@), q as int),
{
    if q >= tokens.len() {
        return true;
    }
    match &tokens[q].kind {
        TokenKind::Close(_) => true,
        TokenKind::Open(Delim::Bracket) => true,
        TokenKind::Punct(c, _) => *c == ',' || *c == ';',
        _ => false,
    }
}

fn ask_types(tokens: &Vec<Token>, from: usize, qs: &mut Vec<Question>)
    requires
        starts_type(lexed(tokens@), from as int),
        are_questions(question_models(old(qs)@), lexed(tokens@)),
    ensures
        are_questions(question_models(final(qs)@), lexed(tokens@)),
        forall|y: QuestionModel| #[trigger]
            question_models(old(qs)@).contains(y) ==> question_models(final(qs)@).contains(y),
        forall|q: int| #[trigger]
            may_be_type(lexed(tokens@), from as int, q) ==> question_models(final(qs)@).contains(
                QuestionModel::Type(shape_text(lexed(tokens@), from as int, q, q)),
            ),
{
    let ghost ts = lexed(tokens@);
    let ghost asked = question_models(qs@);
    let n = tokens.len();
    let first = match skip_tree(tokens, from, n) {
        Some(a) => a,
        None => {
            return;
        },
    };
    let mut a: usize = first;
    let mut open: bool = true;
    while open
        invariant
            from < first <= a <= n == tokens@.len(),
            ts == lexed(tokens@),
            ts.len() == n,
            starts_type(ts, from as int),
            after_tree(ts, from as int, n as int) == Some(first as int),
            are_questions(question_models(qs@), ts),
            forall|y: QuestionModel| #[trigger]
                asked.contains(y) ==> question_models(qs@).contains(y),
            open ==> (forall|q: int| reaches(ts, a as int, q) ==> #[trigger] reaches(ts, first as int, q)),
            forall|q: int|
                #![trigger may_be_type(ts, from as int, q)]
                may_be_type(ts, from as int, q) && !(open && reaches(ts, a as int, q))
                    ==> question_models(qs@).contains(
                    QuestionModel::Type(shape_text(ts, from as int, q, q)),
                ),
        decreases n - a, (if open {
            1int
        } else {
            0int
        }),
    {
        let ghost before = question_models(qs@);
        if can_end_type(tokens, a) {
            proof {
                assert(reaches(ts, a as int, a as int));
                assert(may_be_type(ts, from as int, a as int));
            }
            let text = shape_between(tokens, from, a, a);
            proof {
                assert(is_question(ts, QuestionModel::Type(text@)));
            }
            ask(qs, Question::Type(text));
        }
        let ghost after = question_models(qs@);
        assert(forall|y: QuestionModel| #[trigger] before.contains(y) ==> after.contains(y));
        if is_punct(tokens, a, n, ';') {
            assert(forall|q: int| reaches(ts, a as int, q) ==> q == a);
            open = false;
        } else {
            match skip_tree(tokens, a, n) {
                Some(next) => {
                    assert forall|q: int|
                        #![trigger may_be_type(ts, from as int, q)]
                        may_be_type(ts, from as int, q) && !reaches(ts, next as int, q) implies after.contains(
                        QuestionModel::Type(shape_text(ts, from as int, q, q)),
                    ) by {
                        if reaches(ts, a as int, q) {
                            assert(q == a);
                        }
                    }
                    a = next;
                },
                None => {
                    assert(forall|q: int| reaches(ts, a as int, q) ==> q == a);
                    open = false;
                },
            }
        }
    }
}

/// The questions that the reading of a declaration may ask: about its identifiers, its
/// literals, and what may be a type in it.
pub fn declaration_questions(tokens: &Vec<Token>) -> (qs: Vec<Question>)
    ensures
        are_questions(question_models(qs@), lexed(tokens@)),
        forall|x: QuestionModel|
            #![trigger is_question(lexed(tokens@), x)]
            is_question(lexed(tokens@), x) && !(x is Expression) ==> question_models(qs@).contains(x),
{
    let ghost ts = lexed(tokens@);
    let n = tokens.len();
    let mut qs: Vec<Question> = Vec::new();
    let mut p: usize = 0;
    while p < n
        invariant
            p <= n == tokens@.len(),
            ts == lexed(tokens@),
            ts.len() == n,
            are_questions(question_models(qs@), ts),
            forall|k: int|
                0 <= k < p && (#[trigger] ts[k]).kind is Ident ==> question_models(qs@).contains(
                    QuestionModel::Identifier(ts[k].kind->Ident_0),
                ),
            forall|k: int|
                0 <= k < p && (#[trigger] ts[k]).kind is Literal ==> question_models(
                    qs@,
                ).contains(QuestionModel::Text(ts[k].kind->Literal_0)),
            forall|from: int, q: int| #[trigger]
                may_be_type(ts, from, q) && from <= p ==> question_models(qs@).contains(
                    QuestionModel::Type(shape_text(ts, from, q, q)),
                ),
        decreases n - p,
    {
        assert(ts[p as int] == tokens@[p as int]@);
        match &tokens[p].kind {
            TokenKind::Ident(s) => {
                assert(is_question(ts, QuestionModel::Identifier(s@)));
                ask(&mut qs, Question::Identifier(s.as_str().to_owned()));
            },
            TokenKind::Literal(s) => {
                assert(is_question(ts, QuestionModel::Text(s@)));
                ask(&mut qs, Question::Text(s.as_str().to_owned()));
            },
            TokenKind::Punct(c, _) => {
                if *c == ':' || (p > 0 && is_pair(tokens, p - 1, n, '-', '>')) {
                    ask_types(tokens, p + 1, &mut qs);
                }
            },
            _ => {},
        }
        p += 1;
    }
    proof {
        let all = question_models(qs@);
        assert forall|x: QuestionModel|
            #![trigger is_question(ts, x)]
            is_question(ts, x) && !(x is Expression) implies all.contains(x) by {
            match x {
                QuestionModel::Identifier(s) => {
                    let k = choose|k: int|
                        0 <= k < ts.len() && (#[trigger] ts[k]).kind == Lexeme::Ident(s);
                    assert(ts[k].kind == Lexeme::Ident(s));
                },
                QuestionModel::Text(s) => {
                    let k = choose|k: int|
                        0 <= k < ts.len() && (#[trigger] ts[k]).kind == Lexeme::Literal(s);
                    assert(ts[k].kind == Lexeme::Literal(s));
                },
                QuestionModel::Type(s) => {
                    let (from, q) = choose|from: int, q: int| #[trigger]
                        may_be_type(ts, from, q) && s == shape_text(ts, from, q, q);
                    assert(may_be_type(ts, from, q));
                },
                QuestionModel::Expression(_) => {},
            }
        }
    }
    qs
}

fn literal_questions(tokens: &Vec<Token>) -> (qs: Vec<Question>)
    ensures
        are_questions(question_models(qs@), lexed(tokens@)),
        forall|x: QuestionModel|
            #![trigger is_question(lexed(tokens@), x)]
            is_question(lexed(tokens@), x) && x is Text ==> question_models(qs@).contains(x),
{
    let ghost ts = lexed(tokens@);
    let n = tokens.len();
    let mut qs: Vec<Question> = Vec::new();
    let mut p: usize = 0;
    while p < n
        invariant
            p <= n == tokens@.len(),
            ts == lexed(tokens@),
            ts.len() == n,
            are_questions(question_models(qs@), ts),
            forall|k: int|
                0 <= k < p && (#[trigger] ts[k]).kind is Literal ==> question_models(
                    qs@,
                ).contains(QuestionModel::Text(ts[k].kind->Literal_0)),
        decreases n - p,
    {
        assert(ts[p as int] == tokens@[p as int]@);
        if let TokenKind::Literal(s) = &tokens[p].kind {
            assert(is_question(ts, QuestionModel::Text(s@)));
            ask(&mut qs, Question::Text(s.as_str().to_owned()));
        }
        p += 1;
    }
    assert forall|x: QuestionModel|
        #![trigger is_question(ts, x)]
        is_question(ts, x) && x is Text implies question_models(qs@).contains(x) by {
        let s = x->Text_0;
        let k = choose|k: int| 0 <= k < ts.len() && (#[trigger] ts[k]).kind == Lexeme::Literal(s);
        assert(ts[k].kind == Lexeme::Literal(s));
    }
    qs
}

/// The questions that the reading of a native method asks first: about its literals, and
/// whether all that follows them is the callable.
pub fn invocation_questions(tokens: &Vec<Token>) -> (qs: Vec<Question>)
    ensures
        are_questions(question_models(qs@), lexed(tokens@)),
        forall|x: QuestionModel|
            #![trigger is_question(lexed(tokens@), x)]
            is_question(lexed(tokens@), x) && (x is Text || is_about_the_rest(lexed(tokens@), x))
                ==> question_models(qs@).contains(x),
{
    let ghost ts = lexed(tokens@);
    let n = tokens.len();
    let mut qs = literal_questions(tokens);
    let ghost literals = question_models(qs@);
    if n > 2 {
        let text = text_between(tokens, 2, n);
        proof {
            assert(may_be_callable(ts, 2, n as int));
            assert(is_question(ts, QuestionModel::Expression(text@)));
        }
        ask(&mut qs, Question::Expression(text));
    }
    if n > 4 {
        let text = text_between(tokens, 4, n);
        proof {
            assert(may_be_callable(ts, 4, n as int));
            assert(is_question(ts, QuestionModel::Expression(text@)));
        }
        ask(&mut qs, Question::Expression(text));
    }
    assert forall|x: QuestionModel|
        #![trigger is_question(ts, x)]
        is_question(ts, x) && (x is Text || is_about_the_rest(ts, x)) implies question_models(
        qs@,
    ).contains(x) by {
        if x is Text {
            assert(literals.contains(x));
        }
    }
    qs
}

fn ask_callables(tokens: &Vec<Token>, q: usize, qs: &mut Vec<Question>)
    requires
        q == 2 || q == 4,
        are_questions(question_models(old(qs)@), lexed(tokens@)),
    ensures
        are_questions(question_models(final(qs)@), lexed(tokens@)),
        forall|y: QuestionModel| #[trigger]
            question_models(old(qs)@).contains(y) ==> question_models(final(qs)@).contains(y),
        forall|k: int| #[trigger]
            may_be_callable(lexed(tokens@), q as int, k) ==> question_models(final(qs)@).contains(
                QuestionModel::Expression(run_text(lexed(tokens@), q as int, k)),
            ),
{
    let ghost ts = lexed(tokens@);
    let ghost asked = question_models(qs@);
    let mut k: usize = tokens.len();
    while k > q
        invariant
            k <= tokens@.len(),
            ts == lexed(tokens@),
            q == 2 || q == 4,
            are_questions(question_models(qs@), ts),
            forall|y: QuestionModel| #[trigger]
                asked.contains(y) ==> question_models(qs@).contains(y),
            forall|j: int| #[trigger]
                may_be_callable(ts, q as int, j) && j > k ==> question_models(qs@).contains(
                    QuestionModel::Expression(run_text(ts, q as int, j)),
                ),
        decreases k,
    {
        let text = text_between(tokens, q, k);
        proof {
            assert(may_be_callable(ts, q as int, k as int));
            assert(is_question(ts, QuestionModel::Expression(text@)));
        }
        ask(qs, Question::Expression(text));
        k -= 1;
    }
}

/// All questions that the reading of a native method may ask.
pub fn all_invocation_questions(tokens: &Vec<Token>) -> (qs: Vec<Question>)
    ensures
        are_questions(question_models(qs@), lexed(tokens@)),
        forall|x: QuestionModel|
            #![trigger is_question(lexed(tokens@), x)]
            is_question(lexed(tokens@), x) && (x is Expression || x is Text)
                ==> question_models(qs@).contains(x),
{
    let ghost ts = lexed(tokens@);
    let mut qs = declaration_questions(tokens);
    let ghost declared = question_models(qs@);
    ask_callables(tokens, 2, &mut qs);
    ask_callables(tokens, 4, &mut qs);
    proof {
        let all = question_models(qs@);
        assert forall|x: QuestionModel|
            #![trigger is_question(ts, x)]
            is_question(ts, x) && (x is Expression || x is Text) implies all.contains(x) by {
            match x {
                QuestionModel::Expression(s) => {
                    let (q, k) = choose|q: int, k: int| #[trigger]
                        may_be_callable(ts, q, k) && s == run_text(ts, q, k);
                    assert(may_be_callable(ts, q, k));
                },
                _ => {
                    assert(declared.contains(x));
                },
            }
        }
    }
    qs
}

/// Whether the answer to a question is yes, by its text alone.
pub open spec fn is_plain_yes(x: QuestionModel) -> bool {
    match x {
        QuestionModel::Identifier(s) => is_name(s),
        QuestionModel::Expression(s) => is_path_text(s),
        QuestionModel::Text(s) => is_plain_literal(s),
        QuestionModel::Type(s) => exists|t: OutlineModel| #[trigger] is_type_text(s, t),
    }
}

/// What `syn` answers to a question; nothing where the text is not what was asked for.
fn answer(x: &Question) -> (r: Option<Piece>)
    ensures
        r matches Some(piece) ==> question_of(piece@) == x@ && is_right(piece@),
        is_plain_yes(x@) ==> r is Some,
{
    match x {
        Question::Identifier(s) => if accepts_identifier(s.as_str()) {
            Some(Piece::Identifier(s.as_str().to_owned()))
        } else {
            None
        },
        Question::Expression(s) => if accepts_expression(s.as_str()) {
            Some(Piece::Expression(s.as_str().to_owned()))
        } else {
            None
        },
        Question::Text(s) => match read_string(s.as_str()) {
            Some(value) => Some(Piece::Text { source: s.as_str().to_owned(), value }),
            None => None,
        },
        Question::Type(s) => match read_type(s.as_str()) {
            Some(outline) => Some(Piece::Type { source: s.as_str().to_owned(), outline }),
            None => None,
        },
    }
}

proof fn first_value_is_there(pieces: Seq<PieceModel>, k: int)
    requires
        0 <= k < pieces.len(),
        pieces[k] is Text,
    ensures
        first_value(pieces, pieces[k]->Text_source) is Some,
    decreases pieces.len(),
{
    let rest = pieces.drop_first();
    if k > 0 {
        assert(rest[k - 1] == pieces[k]);
        first_value_is_there(rest, k - 1);
    }
}

proof fn first_value_is_a_piece(pieces: Seq<PieceModel>, source: Seq<char>)
    ensures
        first_value(pieces, source) matches Some(value) ==> pieces.contains(
            PieceModel::Text { source, value },
        ),
    decreases pieces.len(),
{
    if let Some(value) = first_value(pieces, source) {
        let found = PieceModel::Text { source, value };
        let rest = pieces.drop_first();
        if pieces[0] != found {
            first_value_is_a_piece(rest, source);
            let k = choose|k: int| 0 <= k < rest.len() && rest[k] == found;
            assert(pieces[k + 1] == found);
        }
    }
}

proof fn first_outline_is_there(pieces: Seq<PieceModel>, k: int)
    requires
        0 <= k < pieces.len(),
        pieces[k] is Type,
    ensures
        first_outline(pieces, pieces[k]->Type_source) is Some,
    decreases pieces.len(),
{
    let rest = pieces.drop_first();
    if k > 0 {
        assert(rest[k - 1] == pieces[k]);
        first_outline_is_there(rest, k - 1);
    }
}

proof fn first_outline_is_a_piece(pieces: Seq<PieceModel>, source: Seq<char>)
    ensures
        first_outline(pieces, source) matches Some(outline) ==> pieces.contains(
            PieceModel::Type { source, outline },
        ),
    decreases pieces.len(),
{
    if let Some(outline) = first_outline(pieces, source) {
        let found = PieceModel::Type { source, outline };
        let rest = pieces.drop_first();
        if pieces[0] != found {
            first_outline_is_a_piece(rest, source);
            let k = choose|k: int| 0 <= k < rest.len() && rest[k] == found;
            assert(pieces[k + 1] == found);
        }
    }
}

/// Right pieces, among them one for a question whose answer is yes, answer it rightly.
proof fn right_pieces_answer_rightly(pieces: Seq<PieceModel>, x: QuestionModel)
    requires
        forall|k: int| 0 <= k < pieces.len() ==> is_right(#[trigger] pieces[k]),
        is_plain_yes(x) ==> exists|k: int|
            0 <= k < pieces.len() && question_of(#[trigger] pieces[k]) == x,
    ensures
        answers_rightly(ReaderModel { pieces }, x),
{
    let known = ReaderModel { pieces };
    match x {
        QuestionModel::Identifier(s) => {
            if known.is_identifier(s) {
                let k = choose|k: int|
                    0 <= k < pieces.len() && #[trigger] known.pieces[k] == PieceModel::Identifier(s);
                assert(is_right(pieces[k]));
            }
            if is_plain_yes(x) {
                let k = choose|k: int| 0 <= k < pieces.len() && question_of(#[trigger] pieces[k]) == x;
                assert(known.pieces[k] == PieceModel::Identifier(s));
            }
        },
        QuestionModel::Expression(s) => {
            if known.is_expression(s) {
                let k = choose|k: int|
                    0 <= k < pieces.len() && #[trigger] known.pieces[k] == PieceModel::Expression(s);
                assert(is_right(pieces[k]));
            }
            if is_plain_yes(x) {
                let k = choose|k: int| 0 <= k < pieces.len() && question_of(#[trigger] pieces[k]) == x;
                assert(known.pieces[k] == PieceModel::Expression(s));
            }
        },
        QuestionModel::Text(s) => {
            first_value_is_a_piece(pieces, s);
            if let Some(value) = known.string_value(s) {
                let found = PieceModel::Text { source: s, value };
                let k = choose|k: int| 0 <= k < pieces.len() && pieces[k] == found;
                assert(is_right(pieces[k]));
            }
            if is_plain_yes(x) {
                let k = choose|k: int| 0 <= k < pieces.len() && question_of(#[trigger] pieces[k]) == x;
                first_value_is_there(pieces, k);
            }
        },
        QuestionModel::Type(s) => {
            first_outline_is_a_piece(pieces, s);
            if let Some(outline) = known.outline_of(s) {
                let found = PieceModel::Type { source: s, outline };
                let k = choose|k: int| 0 <= k < pieces.len() && pieces[k] == found;
                assert(is_right(pieces[k]));
            }
            assert forall|t: OutlineModel| #[trigger] is_type_text(s, t) implies known.outline_of(s)
                == Some(t) by {
                assert(is_plain_yes(x));
                let k = choose|k: int| 0 <= k < pieces.len() && question_of(#[trigger] pieces[k]) == x;
                first_outline_is_there(pieces, k);
                assert(known.outline_of(s)->0 == t);
            }
        },
    }
}

/// What `syn` answers to questions, each of which is put once.
pub fn answers(qs: &Vec<Question>) -> (pieces: Vec<Piece>)
    ensures
        forall|ts: Seq<TokenModel>|
            are_questions(question_models(qs@), ts) ==> #[trigger] are_answers(
                piece_models(pieces@),
                ts,
            ),
        forall|x: QuestionModel| #[trigger]
            question_models(qs@).contains(x) ==> answers_rightly(
                ReaderModel { pieces: piece_models(pieces@) },
                x,
            ),
{
    let ghost asked = question_models(qs@);
    let mut pieces: Vec<Piece> = Vec::new();
    let mut i: usize = 0;
    while i < qs.len()
        invariant
            i <= qs@.len(),
            asked == question_models(qs@),
            forall|k: int|
                0 <= k < pieces@.len() ==> is_right(#[trigger] piece_models(pieces@)[k])
                    && asked.contains(question_of(piece_models(pieces@)[k])),
            forall|j: int|
                0 <= j < i && is_plain_yes(#[trigger] asked[j]) ==> exists|k: int|
                    0 <= k < pieces@.len() && question_of(#[trigger] piece_models(pieces@)[k])
                        == asked[j],
        decreases qs@.len() - i,
    {
        assert(asked[i as int] == qs@[i as int]@);
        if let Some(piece) = answer(&qs[i]) {
            let ghost before = piece_models(pieces@);
            pieces.push(piece);
            proof {
                let after = piece_models(pieces@);
                assert(after =~= before.push(piece@));
                assert(after[before.len() as int] == piece@);
                assert forall|j: int| 0 <= j < i + 1 && is_plain_yes(
                    #[trigger] asked[j],
                ) implies exists|k: int|
                    0 <= k < after.len() && question_of(#[trigger] after[k]) == asked[j] by {
                    if j < i {
                        let k = choose|k: int|
                            0 <= k < before.len() && question_of(#[trigger] before[k]) == asked[j];
                        assert(after[k] == before[k]);
                    }
                }
            }
        }
        i += 1;
    }
    proof {
        let found = piece_models(pieces@);
        assert forall|x: QuestionModel| #[trigger] asked.contains(x) implies answers_rightly(
            ReaderModel { pieces: found },
            x,
        ) by {
            let j = choose|j: int| 0 <= j < asked.len() && asked[j] == x;
            assert(asked[j] == x);
            right_pieces_answer_rightly(found, x);
        }
        assert forall|ts: Seq<TokenModel>| are_questions(asked, ts) implies #[trigger] are_answers(
            found,
            ts,
        ) by {
            assert forall|k: int| 0 <= k < found.len() implies is_right(#[trigger] found[k])
                && is_question(ts, question_of(found[k])) by {
                let x = question_of(found[k]);
                let j = choose|j: int| 0 <= j < asked.len() && asked[j] == x;
                assert(is_question(ts, asked[j]));
            }
        }
    }
    pieces
}

/// Whether two readers answer a question alike.
pub open spec fn same_answer(a: ReaderModel, b: ReaderModel, x: QuestionModel) -> bool {
    match x {
        QuestionModel::Identifier(s) => a.is_identifier(s) == b.is_identifier(s),
        QuestionModel::Expression(s) => a.is_expression(s) == b.is_expression(s),
        QuestionModel::Text(s) => a.string_value(s) == b.string_value(s),
        QuestionModel::Type(s) => a.outline_of(s) == b.outline_of(s),
    }
}

/// Whether two readers answer all questions alike that the reading of an invocation may
/// ask.
pub open spec fn agree(a: ReaderModel, b: ReaderModel, ts: Seq<TokenModel>) -> bool {
    forall|x: QuestionModel| #[trigger] is_question(ts, x) ==> same_answer(a, b, x)
}

/// Whether a region ends where a group closes, or with the tokens.
spec fn closes(ts: Seq<TokenModel>, end: int) -> bool {
    end == ts.len() || 0 <= end < ts.len() && ts[end].kind is Close
}

proof fn close_from_closes(ts: Seq<TokenModel>, p: int, end: int, depth: nat)
    requires
        0 <= p,
        end <= ts.len(),
    ensures
        close_from(ts, p, end, depth) matches Some(c) ==> closes(ts, c) && close_from(
            ts,
            p,
            ts.len() as int,
            depth,
        ) == Some(c),
    decreases end - p,
{
    if p < end {
        match ts[p].kind {
            Lexeme::Open(_) => close_from_closes(ts, p + 1, end, depth + 1),
            Lexeme::Close(_) => if depth > 0 {
                close_from_closes(ts, p + 1, end, (depth - 1) as nat)
            },
            _ => close_from_closes(ts, p + 1, end, depth),
        }
    }
}

proof fn reaches_further(ts: Seq<TokenModel>, a: int, b: int, c: int)
    requires
        reaches(ts, a, b),
        !punct_at(ts, b, ts.len() as int, ';'),
        after_tree(ts, b, ts.len() as int) == Some(c),
    ensures
        reaches(ts, a, c),
    decreases ts.len() - a,
{
    close_from_bounds(ts, a + 1, ts.len() as int, 0);
    if a == b {
        assert(reaches(ts, c, c));
    } else {
        let next = after_tree(ts, a, ts.len() as int)->0;
        reaches_further(ts, next, b, c);
    }
}

proof fn idents_agree(a: ReaderModel, b: ReaderModel, ts: Seq<TokenModel>, p: int, end: int)
    requires
        agree(a, b, ts),
        0 <= p,
        end <= ts.len(),
    ensures
        ident_at(a, ts, p, end) == ident_at(b, ts, p, end),
        string_at(a, ts, p, end) == string_at(b, ts, p, end),
{
    if p < end {
        match ts[p].kind {
            Lexeme::Ident(s) => {
                assert(is_question(ts, QuestionModel::Identifier(s)));
            },
            Lexeme::Literal(s) => {
                assert(is_question(ts, QuestionModel::Text(s)));
            },
            _ => {},
        }
    }
}

proof fn type_ends_agree(
    a: ReaderModel,
    b: ReaderModel,
    ts: Seq<TokenModel>,
    from: int,
    p: int,
    end: int,
    stop: Stop,
)
    requires
        agree(a, b, ts),
        starts_type(ts, from),
        after_tree(ts, from, ts.len() as int) matches Some(first) && reaches(ts, first, p),
        from < p <= end <= ts.len(),
        closes(ts, end),
    ensures
        type_end(a, ts, from, p, end, stop) == type_end(b, ts, from, p, end, stop),
        type_end(a, ts, from, p, end, stop) matches Some(to) ==> a.outline_of(
            shape_text(ts, from, to, to),
        ) == b.outline_of(shape_text(ts, from, to, to)),
    decreases end - p,
{
    if stops_at(ts, p, end, stop) {
        assert(ends_type(ts, p));
        assert(may_be_type(ts, from, p));
        assert(is_question(ts, QuestionModel::Type(shape_text(ts, from, p, p))));
    }
    close_from_bounds(ts, p + 1, end, 0);
    close_from_closes(ts, p + 1, end, 0);
    if !punct_at(ts, p, end, ';') {
        if let Some(q) = after_tree(ts, p, end) {
            let first = after_tree(ts, from, ts.len() as int)->0;
            reaches_further(ts, first, p, q);
            type_ends_agree(a, b, ts, from, q, end, stop);
        }
    }
}

proof fn types_agree(
    a: ReaderModel,
    b: ReaderModel,
    ts: Seq<TokenModel>,
    p: int,
    end: int,
    stop: Stop,
)
    requires
        agree(a, b, ts),
        starts_type(ts, p),
        end <= ts.len(),
        closes(ts, end),
    ensures
        type_from(a, ts, p, end, stop) == type_from(b, ts, p, end, stop),
{
    close_from_bounds(ts, p + 1, end, 0);
    close_from_closes(ts, p + 1, end, 0);
    if let Some(q) = after_tree(ts, p, end) {
        assert(reaches(ts, q, q));
        type_ends_agree(a, b, ts, p, q, end, stop);
    }
}

proof fn params_agree(a: ReaderModel, b: ReaderModel, ts: Seq<TokenModel>, p: int, end: int)
    requires
        agree(a, b, ts),
        0 <= p,
        end <= ts.len(),
        closes(ts, end),
    ensures
        params_from(a, ts, p, end) == params_from(b, ts, p, end),
    decreases end + 1 - p,
{
    if p < end {
        idents_agree(a, b, ts, p, end);
        if punct_at(ts, p + 1, end, ':') {
            assert(starts_type(ts, p + 2));
            types_agree(a, b, ts, p + 2, end, Stop::Comma);
        }
        assert(param_at(a, ts, p, end) == param_at(b, ts, p, end));
        type_from_bounds(a, ts, p + 2, end, Stop::Comma);
        if let Ok(first) = param_at(a, ts, p, end) {
            params_agree(a, b, ts, first.ty.to + 1, end);
        }
    }
}

proof fn methods_agree(
    a: ReaderModel,
    b: ReaderModel,
    ts: Seq<TokenModel>,
    is_static: bool,
    p: int,
    end: int,
)
    requires
        agree(a, b, ts),
        0 <= p,
        end <= ts.len(),
        closes(ts, end),
    ensures
        method_at(a, ts, is_static, p, end) == method_at(b, ts, is_static, p, end),
{
    reveal(method_at);
    idents_agree(a, b, ts, p + 1, end);
    close_from_bounds(ts, p + 3, end, 0);
    close_from_closes(ts, p + 3, end, 0);
    if let Some(close) = close_from(ts, p + 3, end, 0) {
        params_agree(a, b, ts, p + 3, close);
        if pair_at(ts, close + 1, end, '-', '>') {
            assert(starts_type(ts, close + 3));
            types_agree(a, b, ts, close + 3, end, Stop::Tail);
        }
        assert(return_from(a, ts, close + 1, end) == return_from(b, ts, close + 1, end));
        type_from_bounds(a, ts, close + 3, end, Stop::Tail);
        if let Ok((ret, q)) = return_from(a, ts, close + 1, end) {
            close_from_bounds(ts, q + 1, end, 0);
            if let Some(c) = close_from(ts, q + 1, end, 0) {
                idents_agree(a, b, ts, q + 1, c);
                idents_agree(a, b, ts, q + 3, c);
            }
            assert(alias_from(a, ts, q, end) == alias_from(b, ts, q, end));
        }
    }
}

proof fn fields_agree(
    a: ReaderModel,
    b: ReaderModel,
    ts: Seq<TokenModel>,
    is_static: bool,
    p: int,
    end: int,
)
    requires
        agree(a, b, ts),
        0 <= p,
        end <= ts.len(),
        closes(ts, end),
    ensures
        field_at(a, ts, is_static, p, end) == field_at(b, ts, is_static, p, end),
{
    reveal(field_at);
    idents_agree(a, b, ts, p, end);
    idents_agree(a, b, ts, p + 1, end);
    if punct_at(ts, p + 2, end, ':') {
        assert(starts_type(ts, p + 3));
        types_agree(a, b, ts, p + 3, end, Stop::Semicolon);
    }
}

proof fn items_agree(a: ReaderModel, b: ReaderModel, ts: Seq<TokenModel>, p: int, end: int)
    requires
        agree(a, b, ts),
        0 <= p,
        end <= ts.len(),
        closes(ts, end),
    ensures
        items_from(a, ts, p, end) == items_from(b, ts, p, end),
    decreases end - p,
{
    if p < end {
        let is_static = word_at(ts, p, end, "static"@);
        let at = after_static(ts, p, end);
        methods_agree(a, b, ts, is_static, at, end);
        fields_agree(a, b, ts, is_static, at, end);
        method_at_bounds(a, ts, is_static, at, end);
        field_at_bounds(a, ts, is_static, at, end);
        if word_at(ts, at, end, "fn"@) {
            if let Ok((m, q)) = method_at(a, ts, is_static, at, end) {
                items_agree(a, b, ts, q, end);
            }
        } else {
            if let Ok((f, q)) = field_at(a, ts, is_static, at, end) {
                items_agree(a, b, ts, q, end);
            }
        }
    }
}

proof fn expressions_agree(a: ReaderModel, b: ReaderModel, ts: Seq<TokenModel>, q: int, k: int)
    requires
        agree(a, b, ts),
        q == 2 || q == 4,
        k <= ts.len(),
    ensures
        longest_expression(a, ts, q, k) == longest_expression(b, ts, q, k),
    decreases k - q,
{
    if k > q {
        assert(may_be_callable(ts, q, k));
        assert(is_question(ts, QuestionModel::Expression(run_text(ts, q, k))));
        expressions_agree(a, b, ts, q, k - 1);
    }
}

/// The reading of an invocation asks no other questions: readers that answer these alike
/// read the same declaration, the same native method and the same asynchronous one, or
/// the same complaint.
pub proof fn readings_rest_on_the_questions(a: ReaderModel, b: ReaderModel, ts: Seq<TokenModel>)
    requires
        agree(a, b, ts),
    ensures
        bind_of(a, ts) == bind_of(b, ts),
        input_of(a, ts) == input_of(b, ts),
        async_input_of(a, ts) == async_input_of(b, ts),
{
    let n = ts.len() as int;
    idents_agree(a, b, ts, 0, n);
    idents_agree(a, b, ts, 2, n);
    idents_agree(a, b, ts, 3, n);
    close_from_bounds(ts, 5, n, 0);
    close_from_closes(ts, 5, n, 0);
    if let Some(close) = close_from(ts, 5, n, 0) {
        items_agree(a, b, ts, 5, close);
    }
    expressions_agree(a, b, ts, 2, n);
    expressions_agree(a, b, ts, 4, n);
}

/// Whether a piece is what anyone can say of a plain text.
pub open spec fn is_plain_fact(piece: PieceModel) -> bool {
    match piece {
        PieceModel::Identifier(s) => is_name(s),
        PieceModel::Expression(s) => is_path_text(s),
        PieceModel::Text { source, value } => is_plain_literal(source) && value == unquoted(source),
        PieceModel::Type { source, outline } => is_type_text(source, outline),
    }
}

/// Whether a reader knows only what anyone can say of plain texts.
pub open spec fn knows_plain_facts(plain: ReaderModel) -> bool {
    forall|k: int| 0 <= k < plain.pieces.len() ==> is_plain_fact(#[trigger] plain.pieces[k])
}

proof fn plain_answers_are_facts(plain: ReaderModel, s: Seq<char>)
    requires
        knows_plain_facts(plain),
    ensures
        plain.is_identifier(s) ==> is_name(s),
        plain.is_expression(s) ==> is_path_text(s),
        plain.string_value(s) matches Some(v) ==> is_plain_literal(s) && v == unquoted(s),
        plain.outline_of(s) matches Some(t) ==> is_type_text(s, t),
{
    let pieces = plain.pieces;
    first_value_is_a_piece(pieces, s);
    first_outline_is_a_piece(pieces, s);
    if let Some(value) = plain.string_value(s) {
        let found = PieceModel::Text { source: s, value };
        let k = choose|k: int| 0 <= k < pieces.len() && pieces[k] == found;
        assert(is_plain_fact(pieces[k]));
    }
    if let Some(outline) = plain.outline_of(s) {
        let found = PieceModel::Type { source: s, outline };
        let k = choose|k: int| 0 <= k < pieces.len() && pieces[k] == found;
        assert(is_plain_fact(pieces[k]));
    }
}

/// Whether a text is free of what may follow a type, and of what stands for a group that
/// is a type of its own.
spec fn is_free_of_stops(s: Seq<char>) -> bool {
    forall|i: int|
        0 <= i < s.len() ==> (#[trigger] s[i]) != ',' && s[i] != ';' && s[i] != '[' && s[i] != '!'
}

proof fn free_parts(a: Seq<char>, b: Seq<char>)
    ensures
        is_free_of_stops(a + b) <==> is_free_of_stops(a) && is_free_of_stops(b),
{
    let c = a + b;
    if is_free_of_stops(c) {
        assert forall|i: int| 0 <= i < a.len() implies (#[trigger] a[i]) != ',' && a[i] != ';'
            && a[i] != '[' && a[i] != '!' by {
            assert(c[i] == a[i]);
        }
        assert forall|i: int| 0 <= i < b.len() implies (#[trigger] b[i]) != ',' && b[i] != ';'
            && b[i] != '[' && b[i] != '!' by {
            assert(c[a.len() + i] == b[i]);
        }
    }
}

proof fn plain_tokens_are_free(ts: Seq<TokenModel>, from: int, to: int)
    requires
        plain_outline(ts, from, to) is Some,
    ensures
        forall|k: int| from <= k < to ==> is_free_of_stops(lexeme_text((#[trigger] ts[k]).kind)),
    decreases to - from,
{
    reveal_strlit("mut");
    reveal_strlit("Self");
    if punct_at(ts, from, to, '&') {
        let mutable = word_at(ts, from + 1, to, "mut"@);
        plain_tokens_are_free(ts, from + if mutable { 2int } else { 1int }, to);
    } else if !open_at(ts, from, to, Delim::Paren) && from + 1 != to {
        if pair_at(ts, from + 1, to, ':', ':') {
            plain_tokens_are_free(ts, from + 3, to);
        } else {
            plain_tokens_are_free(ts, from + 2, to - 1);
        }
    }
}

proof fn runs_are_free(ts: Seq<TokenModel>, from: int, to: int)
    requires
        forall|k: int| from <= k < to ==> is_free_of_stops(lexeme_text((#[trigger] ts[k]).kind)),
    ensures
        is_free_of_stops(run_text(ts, from, to)),
    decreases to - from,
{
    if from < to {
        runs_are_free(ts, from, to - 1);
        assert(is_free_of_stops(lexeme_text(ts[to - 1].kind)));
        free_parts(run_text(ts, from, to - 1), lexeme_text(ts[to - 1].kind));
    }
}

proof fn free_shapes_have_free_tokens(ts: Seq<TokenModel>, from: int, to: int, e: int)
    requires
        is_free_of_stops(shape_text(ts, from, to, e)),
    ensures
        forall|k: int| from <= k < e ==> is_free_of_stops(lexeme_text((#[trigger] ts[k]).kind)),
    decreases e - from,
{
    if from < e {
        group_type_bounds(ts, from, to, e - 1);
        match group_type(ts, from, to, e - 1) {
            Some(s) => {
                reveal_strlit("! ");
                reveal_strlit("< ! > ");
                free_parts(shape_text(ts, from, to, s), group_text(ts, e - 1, to));
                let text = group_text(ts, e - 1, to);
                assert(text[0] == '!' || text[2] == '!');
            },
            None => {
                free_parts(shape_text(ts, from, to, e - 1), lexeme_text(ts[e - 1].kind));
                free_shapes_have_free_tokens(ts, from, to, e - 1);
            },
        }
    }
}

/// Where a type is plain, none of its tokens may follow a type.
proof fn plain_types_do_not_stop(
    ts: Seq<TokenModel>,
    from: int,
    to: int,
    p: int,
    end: int,
    stop: Stop,
    t: OutlineModel,
)
    requires
        is_type_text(shape_text(ts, from, to, to), t),
        from <= p < to <= end,
    ensures
        !stops_at(ts, p, end, stop),
{
    let s = shape_text(ts, from, to, to);
    let (us, a, b) = choose|us: Seq<TokenModel>, a: int, b: int| #[trigger]
        plain_outline(us, a, b) == Some(t) && s == run_text(us, a, b);
    plain_tokens_are_free(us, a, b);
    runs_are_free(us, a, b);
    free_shapes_have_free_tokens(ts, from, to, to);
    assert(is_free_of_stops(lexeme_text(ts[p].kind)));
    if stops_at(ts, p, end, stop) {
        let first = lexeme_text(ts[p].kind)[0];
        assert(first == ',' || first == ';' || first == '[');
    }
}

proof fn type_ends_are_known(
    known: ReaderModel,
    ts: Seq<TokenModel>,
    from: int,
    p: int,
    end: int,
    stop: Stop,
)
    ensures
        type_end(known, ts, from, p, end, stop) matches Some(to) ==> known.outline_of(
            shape_text(ts, from, to, to),
        ) is Some,
    decreases end - p,
{
    close_from_bounds(ts, p + 1, end, 0);
    if let Some(q) = after_tree(ts, p, end) {
        type_ends_are_known(known, ts, from, q, end, stop);
    }
}

proof fn plain_words_suffice(
    known: ReaderModel,
    plain: ReaderModel,
    ts: Seq<TokenModel>,
    p: int,
    end: int,
)
    requires
        knows_declaration(known, ts),
        knows_plain_facts(plain),
        0 <= p,
        end <= ts.len(),
    ensures
        ident_at(plain, ts, p, end) is Ok ==> ident_at(known, ts, p, end) == ident_at(
            plain,
            ts,
            p,
            end,
        ),
        string_at(plain, ts, p, end) is Some ==> string_at(known, ts, p, end) == string_at(
            plain,
            ts,
            p,
            end,
        ),
{
    if p < end {
        match ts[p].kind {
            Lexeme::Ident(s) => {
                plain_answers_are_facts(plain, s);
                assert(is_question(ts, QuestionModel::Identifier(s)));
            },
            Lexeme::Literal(s) => {
                plain_answers_are_facts(plain, s);
                assert(is_question(ts, QuestionModel::Text(s)));
            },
            _ => {},
        }
    }
}

proof fn plain_type_ends_suffice(
    known: ReaderModel,
    plain: ReaderModel,
    ts: Seq<TokenModel>,
    from: int,
    p: int,
    end: int,
    stop: Stop,
)
    requires
        knows_declaration(known, ts),
        knows_plain_facts(plain),
        starts_type(ts, from),
        after_tree(ts, from, ts.len() as int) matches Some(first) && reaches(ts, first, p),
        from < p <= end <= ts.len(),
        closes(ts, end),
    ensures
        type_end(plain, ts, from, p, end, stop) matches Some(to) ==> {
            &&& type_end(known, ts, from, p, end, stop) == Some(to)
            &&& known.outline_of(shape_text(ts, from, to, to)) == plain.outline_of(
                shape_text(ts, from, to, to),
            )
        },
    decreases end - p,
{
    if let Some(to) = type_end(plain, ts, from, p, end, stop) {
        let s = shape_text(ts, from, to, to);
        type_end_bounds(plain, ts, from, p, end, stop);
        type_ends_are_known(plain, ts, from, p, end, stop);
        plain_answers_are_facts(plain, s);
        let t = plain.outline_of(s)->0;
        if p < to {
            plain_types_do_not_stop(ts, from, to, p, end, stop, t);
            close_from_bounds(ts, p + 1, end, 0);
            close_from_closes(ts, p + 1, end, 0);
            let q = after_tree(ts, p, end)->0;
            let first = after_tree(ts, from, ts.len() as int)->0;
            reaches_further(ts, first, p, q);
            plain_type_ends_suffice(known, plain, ts, from, q, end, stop);
        } else {
            assert(ends_type(ts, p));
            assert(may_be_type(ts, from, p));
            assert(is_question(ts, QuestionModel::Type(s)));
            assert(answers_rightly(known, QuestionModel::Type(s)));
        }
    }
}

proof fn plain_types_suffice(
    known: ReaderModel,
    plain: ReaderModel,
    ts: Seq<TokenModel>,
    p: int,
    end: int,
    stop: Stop,
)
    requires
        knows_declaration(known, ts),
        knows_plain_facts(plain),
        starts_type(ts, p),
        end <= ts.len(),
        closes(ts, end),
    ensures
        type_from(plain, ts, p, end, stop) is Ok ==> type_from(known, ts, p, end, stop)
            == type_from(plain, ts, p, end, stop),
{
    close_from_bounds(ts, p + 1, end, 0);
    close_from_closes(ts, p + 1, end, 0);
    if let Some(q) = after_tree(ts, p, end) {
        assert(reaches(ts, q, q));
        plain_type_ends_suffice(known, plain, ts, p, q, end, stop);
    }
}

proof fn plain_params_suffice(
    known: ReaderModel,
    plain: ReaderModel,
    ts: Seq<TokenModel>,
    p: int,
    end: int,
)
    requires
        knows_declaration(known, ts),
        knows_plain_facts(plain),
        0 <= p,
        end <= ts.len(),
        closes(ts, end),
    ensures
        params_from(plain, ts, p, end) is Ok ==> params_from(known, ts, p, end) == params_from(
            plain,
            ts,
            p,
            end,
        ),
    decreases end + 1 - p,
{
    if p < end {
        plain_words_suffice(known, plain, ts, p, end);
        if punct_at(ts, p + 1, end, ':') {
            assert(starts_type(ts, p + 2));
            plain_types_suffice(known, plain, ts, p + 2, end, Stop::Comma);
        }
        type_from_bounds(plain, ts, p + 2, end, Stop::Comma);
        if let Ok(first) = param_at(plain, ts, p, end) {
            assert(param_at(known, ts, p, end) == param_at(plain, ts, p, end));
            plain_params_suffice(known, plain, ts, first.ty.to + 1, end);
        }
    }
}

proof fn plain_methods_suffice(
    known: ReaderModel,
    plain: ReaderModel,
    ts: Seq<TokenModel>,
    is_static: bool,
    p: int,
    end: int,
)
    requires
        knows_declaration(known, ts),
        knows_plain_facts(plain),
        0 <= p,
        end <= ts.len(),
        closes(ts, end),
    ensures
        method_at(plain, ts, is_static, p, end) is Ok ==> method_at(known, ts, is_static, p, end)
            == method_at(plain, ts, is_static, p, end),
{
    reveal(method_at);
    plain_words_suffice(known, plain, ts, p + 1, end);
    close_from_bounds(ts, p + 3, end, 0);
    close_from_closes(ts, p + 3, end, 0);
    if let Some(close) = close_from(ts, p + 3, end, 0) {
        plain_params_suffice(known, plain, ts, p + 3, close);
        if pair_at(ts, close + 1, end, '-', '>') {
            assert(starts_type(ts, close + 3));
            plain_types_suffice(known, plain, ts, close + 3, end, Stop::Tail);
        }
        type_from_bounds(plain, ts, close + 3, end, Stop::Tail);
        if let Ok((ret, q)) = return_from(plain, ts, close + 1, end) {
            close_from_bounds(ts, q + 1, end, 0);
            if let Some(c) = close_from(ts, q + 1, end, 0) {
                plain_words_suffice(known, plain, ts, q + 1, c);
                plain_words_suffice(known, plain, ts, q + 3, c);
            }
        }
    }
}

proof fn plain_fields_suffice(
    known: ReaderModel,
    plain: ReaderModel,
    ts: Seq<TokenModel>,
    is_static: bool,
    p: int,
    end: int,
)
    requires
        knows_declaration(known, ts),
        knows_plain_facts(plain),
        0 <= p,
        end <= ts.len(),
        closes(ts, end),
    ensures
        field_at(plain, ts, is_static, p, end) is Ok ==> field_at(known, ts, is_static, p, end)
            == field_at(plain, ts, is_static, p, end),
{
    reveal(field_at);
    plain_words_suffice(known, plain, ts, p, end);
    plain_words_suffice(known, plain, ts, p + 1, end);
    if punct_at(ts, p + 2, end, ':') {
        assert(starts_type(ts, p + 3));
        plain_types_suffice(known, plain, ts, p + 3, end, Stop::Semicolon);
    }
}

proof fn plain_items_suffice(
    known: ReaderModel,
    plain: ReaderModel,
    ts: Seq<TokenModel>,
    p: int,
    end: int,
)
    requires
        knows_declaration(known, ts),
        knows_plain_facts(plain),
        0 <= p,
        end <= ts.len(),
        closes(ts, end),
    ensures
        items_from(plain, ts, p, end) is Ok ==> items_from(known, ts, p, end) == items_from(
            plain,
            ts,
            p,
            end,
        ),
    decreases end - p,
{
    if p < end {
        let is_static = word_at(ts, p, end, "static"@);
        let at = after_static(ts, p, end);
        plain_methods_suffice(known, plain, ts, is_static, at, end);
        plain_fields_suffice(known, plain, ts, is_static, at, end);
        method_at_bounds(plain, ts, is_static, at, end);
        field_at_bounds(plain, ts, is_static, at, end);
        if word_at(ts, at, end, "fn"@) {
            if let Ok((m, q)) = method_at(plain, ts, is_static, at, end) {
                plain_items_suffice(known, plain, ts, q, end);
            }
        } else {
            if let Ok((f, q)) = field_at(plain, ts, is_static, at, end) {
                plain_items_suffice(known, plain, ts, q, end);
            }
        }
    }
}

/// A declaration of plain pieces is read, and read in one way: what a reader makes of it
/// that knows no more than anyone can say of plain texts, every reader makes of it that has
/// the right answers.
pub proof fn plain_declarations_are_read(
    known: ReaderModel,
    plain: ReaderModel,
    ts: Seq<TokenModel>,
)
    requires
        knows_declaration(known, ts),
        knows_plain_facts(plain),
    ensures
        bind_of(plain, ts) is Ok ==> bind_of(known, ts) == bind_of(plain, ts),
{
    let n = ts.len() as int;
    plain_words_suffice(known, plain, ts, 0, n);
    plain_words_suffice(known, plain, ts, 3, n);
    close_from_bounds(ts, 5, n, 0);
    close_from_closes(ts, 5, n, 0);
    if let Some(close) = close_from(ts, 5, n, 0) {
        plain_items_suffice(known, plain, ts, 5, close);
    }
}

/// A native method is read whose name and signature are literals without escapes, and
/// whose callable is a path of names: `"name", f`, and `"name", "signature", f`.
pub proof fn plain_native_methods_are_read(known: ReaderModel, ts: Seq<TokenModel>, q: int, all: bool)
    requires
        knows_invocation(known, ts, all),
        q == 2 || q == 4,
        forall|k: int|
            0 <= k < q && k % 2 == 0 ==> ((#[trigger] ts[k]).kind matches Lexeme::Literal(s)
                && is_plain_literal(s)),
        forall|k: int| 0 <= k < q && k % 2 == 1 ==> #[trigger] punct_at(ts, k, ts.len() as int, ','),
        is_plain_path(ts, q, ts.len() as int),
    ensures
        input_of(known, ts) == Ok::<InputModel, Fault>(
            InputModel {
                name: unquoted(ts[0].kind->Literal_0),
                sig: if q == 4 {
                    Some(unquoted(ts[2].kind->Literal_0))
                } else {
                    None
                },
                f_from: q,
                f: run_text(ts, q, ts.len() as int),
            },
        ),
        q == 2 ==> async_input_of(known, ts) == Ok::<AsyncInputModel, Fault>(
            AsyncInputModel {
                name: unquoted(ts[0].kind->Literal_0),
                f_from: 2,
                f: run_text(ts, 2, ts.len() as int),
            },
        ),
{
    let n = ts.len() as int;
    let rest = QuestionModel::Expression(run_text(ts, q, n));
    assert(may_be_callable(ts, q, n));
    assert(is_question(ts, rest));
    assert(answers_rightly(known, rest));
    assert(is_question(ts, QuestionModel::Text(ts[0].kind->Literal_0)));
    assert(punct_at(ts, 1, n, ','));
    if q == 4 {
        assert(is_question(ts, QuestionModel::Text(ts[2].kind->Literal_0)));
        assert(punct_at(ts, 3, n, ','));
    }
}

proof fn broken_runs_are_no_expressions(
    known: ReaderModel,
    ts: Seq<TokenModel>,
    q: int,
    p: int,
    k: int,
)
    requires
        knows_invocation(known, ts, true),
        q == 2 || q == 4,
        is_plain_path(ts, q, p),
        breaks_off(ts, p, ts.len() as int),
        p <= k <= ts.len(),
    ensures
        longest_expression(known, ts, q, k) == Some(p),
    decreases k - p,
{
    let run = QuestionModel::Expression(run_text(ts, q, k));
    assert(may_be_callable(ts, q, k));
    assert(is_question(ts, run));
    assert(answers_rightly(known, run));
    if k > p {
        assert(breaks_off(ts, p, k));
        broken_runs_are_no_expressions(known, ts, q, p, k - 1);
    }
}

/// Behind a callable that is a path of names, a name or a comma is one token too many: the
/// invocation is refused, with a complaint about that token.
pub proof fn leftover_tokens_are_refused(
    known: ReaderModel,
    ts: Seq<TokenModel>,
    p: int,
    all: bool,
)
    requires
        knows_invocation(known, ts, all),
        is_plain_path(ts, 2, p),
        breaks_off(ts, p, ts.len() as int),
    ensures
        input_of(known, ts) is Err,
        async_input_of(known, ts) is Err,
        all && string_at(known, ts, 0, ts.len() as int) is Some && punct_at(
            ts,
            1,
            ts.len() as int,
            ',',
        ) ==> {
            &&& input_of(known, ts) == Err::<InputModel, Fault>(
                Fault { at: p, message: "unexpected tokens after `name[, sig], f`"@ },
            )
            &&& async_input_of(known, ts) == Err::<AsyncInputModel, Fault>(
                Fault { at: p, message: "unexpected tokens after `name, f`"@ },
            )
        },
{
    let n = ts.len() as int;
    let rest = QuestionModel::Expression(run_text(ts, 2, n));
    assert(may_be_callable(ts, 2, n));
    assert(is_question(ts, rest));
    assert(answers_rightly(known, rest));
    longest_is_within(known, ts, 2, n - 1);
    if all {
        broken_runs_are_no_expressions(known, ts, 2, p, n);
    }
}

proof fn longest_is_within(known: ReaderModel, ts: Seq<TokenModel>, q: int, k: int)
    ensures
        longest_expression(known, ts, q, k) matches Some(j) ==> j <= k,
    decreases k - q,
{
    if k > q {
        longest_is_within(known, ts, q, k - 1);
    }
}

}
