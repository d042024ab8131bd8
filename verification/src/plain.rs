use vstd::prelude::*;

use crate::grammar::{open_at, pair_at, punct_at, run_text, word_at, Delim, Lexeme, TokenModel};
use crate::rust_source::{OutlineModel, SegmentModel};

verus! {

/// Whether a text is printable ASCII without quotes and backslashes. Between two quotes it
/// stands for itself.
pub open spec fn is_plain_text(s: Seq<char>) -> bool {
    forall|i: int|
        0 <= i < s.len() ==> ' ' <= #[trigger] s[i] && s[i] <= '~' && s[i] != '"' && s[i] != '\\'
}

/// A text between two quotes.
pub open spec fn quoted(s: Seq<char>) -> Seq<char> {
    seq!['"'] + s + seq!['"']
}

/// What stands between the first and the last character of a text.
pub open spec fn unquoted(s: Seq<char>) -> Seq<char> {
    s.subrange(1, s.len() - 1)
}

/// Whether a source text is a string literal without escapes.
pub open spec fn is_plain_literal(s: Seq<char>) -> bool {
    &&& s.len() >= 2
    &&& s[0] == '"'
    &&& s.last() == '"'
    &&& is_plain_text(unquoted(s))
}

/// Whether a character can stand in a word.
pub open spec fn is_word_char(c: char) -> bool {
    ||| 'a' <= c && c <= 'z'
    ||| 'A' <= c && c <= 'Z'
    ||| '0' <= c && c <= '9'
    ||| c == '_'
}

/// Whether a text is one word of ASCII letters, digits and underscores.
pub open spec fn is_plain_word(s: Seq<char>) -> bool {
    &&& s.len() > 0
    &&& !('0' <= s[0] && s[0] <= '9')
    &&& forall|i: int| 0 <= i < s.len() ==> is_word_char(#[trigger] s[i])
}

/// Whether a word is a keyword of Rust, used or reserved, or the underscore.
pub open spec fn is_keyword(s: Seq<char>) -> bool {
    ||| s == "_"@ || s == "abstract"@ || s == "as"@ || s == "async"@ || s == "await"@
    ||| s == "become"@ || s == "box"@ || s == "break"@ || s == "const"@ || s == "continue"@
    ||| s == "crate"@ || s == "do"@ || s == "dyn"@ || s == "else"@ || s == "enum"@
    ||| s == "extern"@ || s == "false"@ || s == "final"@ || s == "fn"@ || s == "for"@
    ||| s == "if"@ || s == "impl"@ || s == "in"@ || s == "let"@ || s == "loop"@
    ||| s == "macro"@ || s == "match"@ || s == "mod"@ || s == "move"@ || s == "mut"@
    ||| s == "override"@ || s == "priv"@ || s == "pub"@ || s == "ref"@ || s == "return"@
    ||| s == "Self"@ || s == "self"@ || s == "static"@ || s == "struct"@ || s == "super"@
    ||| s == "trait"@ || s == "true"@ || s == "try"@ || s == "type"@ || s == "typeof"@
    ||| s == "unsafe"@ || s == "unsized"@ || s == "use"@ || s == "virtual"@ || s == "where"@
    ||| s == "while"@ || s == "yield"@
}

/// Whether a text is a word that can name something.
pub open spec fn is_name(s: Seq<char>) -> bool {
    is_plain_word(s) && !is_keyword(s)
}

/// Whether the tokens between two positions are a path of names, such as `a::b::c`.
pub open spec fn is_plain_path(ts: Seq<TokenModel>, from: int, to: int) -> bool
    decreases to - from,
{
    &&& 0 <= from < to <= ts.len()
    &&& ts[from].kind matches Lexeme::Ident(w) && is_name(w)
    &&& from + 1 == to || pair_at(ts, from + 1, to, ':', ':') && is_plain_path(ts, from + 3, to)
}

/// Whether a source text is a path of names.
pub open spec fn is_path_text(s: Seq<char>) -> bool {
    exists|ts: Seq<TokenModel>, from: int, to: int| #[trigger]
        is_plain_path(ts, from, to) && s == run_text(ts, from, to)
}

/// A segment of a path without generic arguments.
pub open spec fn bare_segment(w: Seq<char>) -> SegmentModel {
    SegmentModel { ident: w, args: None }
}

/// A path of those segments.
pub open spec fn path_of(segments: Seq<SegmentModel>) -> OutlineModel {
    OutlineModel::Path { qualified: false, segments }
}

/// The type between two positions, where it is made of names and `Self` in paths, of one
/// generic argument at a time, of references and of `()`.
pub open spec fn plain_outline(ts: Seq<TokenModel>, from: int, to: int) -> Option<OutlineModel>
    decreases to - from,
{
    if !(0 <= from < to <= ts.len()) {
        None
    } else if punct_at(ts, from, to, '&') {
        let mutable = word_at(ts, from + 1, to, "mut"@);
        match plain_outline(ts, from + if mutable { 2int } else { 1int }, to) {
            Some(t) => Some(OutlineModel::Reference { mutable, elem: Box::new(t) }),
            None => None,
        }
    } else if open_at(ts, from, to, Delim::Paren) {
        if from + 2 == to && ts[from + 1].kind == Lexeme::Close(Delim::Paren) {
            Some(OutlineModel::Tuple(0))
        } else {
            None
        }
    } else {
        match ts[from].kind {
            Lexeme::Ident(w) => if from + 1 == to && (is_name(w) || w == "Self"@) {
                Some(path_of(seq![bare_segment(w)]))
            } else if !is_name(w) {
                None
            } else if pair_at(ts, from + 1, to, ':', ':') {
                match plain_outline(ts, from + 3, to) {
                    Some(OutlineModel::Path { qualified, segments }) => Some(
                        path_of(seq![bare_segment(w)] + segments),
                    ),
                    _ => None,
                }
            } else if punct_at(ts, from + 1, to, '<') && punct_at(ts, to - 1, to, '>') {
                match plain_outline(ts, from + 2, to - 1) {
                    Some(t) => Some(
                        path_of(seq![SegmentModel { ident: w, args: Some(seq![Some(t)]) }]),
                    ),
                    None => None,
                }
            } else {
                None
            },
            _ => None,
        }
    }
}

/// Whether a source text is such a type, of that shape.
pub open spec fn is_type_text(s: Seq<char>, t: OutlineModel) -> bool {
    exists|ts: Seq<TokenModel>, from: int, to: int| #[trigger]
        plain_outline(ts, from, to) == Some(t) && s == run_text(ts, from, to)
}

/// Whether a name or a comma stands at `p`: no path and no type goes on with one.
pub open spec fn breaks_off(ts: Seq<TokenModel>, p: int, to: int) -> bool {
    &&& 0 <= p < to <= ts.len()
    &&& (ts[p].kind matches Lexeme::Ident(w) && is_name(w)) || punct_at(ts, p, to, ',')
}

/// Whether a source text starts with a path of names and does not go on as an expression.
pub open spec fn is_broken_path_text(s: Seq<char>) -> bool {
    exists|ts: Seq<TokenModel>, from: int, p: int, to: int| #[trigger]
        is_plain_path(ts, from, p) && #[trigger] breaks_off(ts, p, to) && s == run_text(
            ts,
            from,
            to,
        )
}

/// Whether a source text starts with a plain type and does not go on as one.
pub open spec fn is_broken_type_text(s: Seq<char>) -> bool {
    exists|ts: Seq<TokenModel>, from: int, p: int, to: int|
        (#[trigger] plain_outline(ts, from, p)) is Some && #[trigger] breaks_off(ts, p, to) && s
            == run_text(ts, from, to)
}

/// Whether a source text is a number in decimal digits.
pub open spec fn is_number_text(s: Seq<char>) -> bool {
    s.len() > 0 && forall|i: int| 0 <= i < s.len() ==> '0' <= #[trigger] s[i] && s[i] <= '9'
}

}
