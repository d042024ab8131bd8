use vstd::prelude::*;

use crate::rust_source::{OutlineModel, TypeOutline};
use crate::text::same;

verus! {

/// One thing that is known of a piece of source text.
pub enum Piece {
    /// The text is an identifier that is no keyword.
    Identifier(String),
    /// The text is an expression.
    Expression(String),
    /// The text is a string literal with that value.
    Text { source: String, value: String },
    /// The text is a type of that shape.
    Type { source: String, outline: TypeOutline },
}

/// What is known of the pieces of source text of a macro invocation. The first entry for a
/// text counts, and a text without an entry is nothing.
pub struct Reader {
    pub pieces: Vec<Piece>,
}

/// The mathematical content of a [`Piece`].
pub enum PieceModel {
    Identifier(Seq<char>),
    Expression(Seq<char>),
    Text { source: Seq<char>, value: Seq<char> },
    Type { source: Seq<char>, outline: OutlineModel },
}

/// The mathematical content of a [`Reader`].
pub struct ReaderModel {
    pub pieces: Seq<PieceModel>,
}

impl View for Piece {
    type V = PieceModel;

    open spec fn view(&self) -> PieceModel {
        match self {
            Piece::Identifier(s) => PieceModel::Identifier(s@),
            Piece::Expression(s) => PieceModel::Expression(s@),
            Piece::Text { source, value } => PieceModel::Text { source: source@, value: value@ },
            Piece::Type { source, outline } => PieceModel::Type {
                source: source@,
                outline: outline@,
            },
        }
    }
}

/// The contents of pieces.
pub open spec fn piece_models(pieces: Seq<Piece>) -> Seq<PieceModel> {
    Seq::new(pieces.len(), |i: int| pieces[i]@)
}

impl View for Reader {
    type V = ReaderModel;

    open spec fn view(&self) -> ReaderModel {
        ReaderModel { pieces: piece_models(self.pieces@) }
    }
}

/// The value of the first string literal in a list with that source text.
pub open spec fn first_value(pieces: Seq<PieceModel>, text: Seq<char>) -> Option<Seq<char>>
    decreases pieces.len(),
{
    if pieces.len() == 0 {
        None
    } else {
        match pieces[0] {
            PieceModel::Text { source, value } => if source == text {
                Some(value)
            } else {
                first_value(pieces.drop_first(), text)
            },
            _ => first_value(pieces.drop_first(), text),
        }
    }
}

/// The shape of the first type in a list with that source text.
pub open spec fn first_outline(pieces: Seq<PieceModel>, text: Seq<char>) -> Option<OutlineModel>
    decreases pieces.len(),
{
    if pieces.len() == 0 {
        None
    } else {
        match pieces[0] {
            PieceModel::Type { source, outline } => if source == text {
                Some(outline)
            } else {
                first_outline(pieces.drop_first(), text)
            },
            _ => first_outline(pieces.drop_first(), text),
        }
    }
}

impl ReaderModel {
    /// Whether a text is an identifier that is no keyword.
    pub open spec fn is_identifier(self, text: Seq<char>) -> bool {
        exists|i: int|
            0 <= i < self.pieces.len() && #[trigger] self.pieces[i] == PieceModel::Identifier(text)
    }

    /// Whether a text is an expression.
    pub open spec fn is_expression(self, text: Seq<char>) -> bool {
        exists|i: int|
            0 <= i < self.pieces.len() && #[trigger] self.pieces[i] == PieceModel::Expression(text)
    }

    /// The value of a string literal, `None` where the text is none.
    pub open spec fn string_value(self, text: Seq<char>) -> Option<Seq<char>> {
        first_value(self.pieces, text)
    }

    /// The shape of a type, `None` where the text is none.
    pub open spec fn outline_of(self, text: Seq<char>) -> Option<OutlineModel> {
        first_outline(self.pieces, text)
    }
}

impl Reader {
    /// Whether a text is an identifier that is no keyword.
    pub fn identifier(&self, text: &str) -> (r: bool)
        ensures
            r == self@.is_identifier(text@),
    {
        let mut i: usize = 0;
        while i < self.pieces.len()
            invariant
                i <= self.pieces@.len(),
                forall|k: int| 0 <= k < i ==> self@.pieces[k] != PieceModel::Identifier(text@),
            decreases self.pieces@.len() - i,
        {
            assert(self@.pieces[i as int] == self.pieces@[i as int]@);
            if let Piece::Identifier(s) = &self.pieces[i] {
                if same(s.as_str(), text) {
                    return true;
                }
            }
            i += 1;
        }
        false
    }

    /// Whether a text is an expression.
    pub fn expression(&self, text: &str) -> (r: bool)
        ensures
            r == self@.is_expression(text@),
    {
        let mut i: usize = 0;
        while i < self.pieces.len()
            invariant
                i <= self.pieces@.len(),
                forall|k: int| 0 <= k < i ==> self@.pieces[k] != PieceModel::Expression(text@),
            decreases self.pieces@.len() - i,
        {
            assert(self@.pieces[i as int] == self.pieces@[i as int]@);
            if let Piece::Expression(s) = &self.pieces[i] {
                if same(s.as_str(), text) {
                    return true;
                }
            }
            i += 1;
        }
        false
    }

    /// The value of a string literal, `None` where the text is none.
    pub fn string(&self, text: &str) -> (r: Option<String>)
        ensures
            match r {
                Some(s) => self@.string_value(text@) == Some(s@),
                None => self@.string_value(text@) is None,
            },
    {
        let ghost all = self@.pieces;
        let mut i: usize = 0;
        assert(all.skip(0) =~= all);
        while i < self.pieces.len()
            invariant
                i <= self.pieces@.len(),
                all == self@.pieces,
                first_value(all, text@) == first_value(all.skip(i as int), text@),
            decreases self.pieces@.len() - i,
        {
            let ghost rest = all.skip(i as int);
            assert(rest[0] == self.pieces@[i as int]@);
            assert(rest.drop_first() =~= all.skip(i as int + 1));
            if let Piece::Text { source, value } = &self.pieces[i] {
                if same(source.as_str(), text) {
                    return Some(value.as_str().to_owned());
                }
            }
            i += 1;
        }
        None
    }

    /// The shape of a type, `None` where the text is none.
    pub fn outline(&self, text: &str) -> (r: Option<TypeOutline>)
        ensures
            match r {
                Some(t) => self@.outline_of(text@) == Some(t@),
                None => self@.outline_of(text@) is None,
            },
    {
        let ghost all = self@.pieces;
        let mut i: usize = 0;
        assert(all.skip(0) =~= all);
        while i < self.pieces.len()
            invariant
                i <= self.pieces@.len(),
                all == self@.pieces,
                first_outline(all, text@) == first_outline(all.skip(i as int), text@),
            decreases self.pieces@.len() - i,
        {
            let ghost rest = all.skip(i as int);
            assert(rest[0] == self.pieces@[i as int]@);
            assert(rest.drop_first() =~= all.skip(i as int + 1));
            if let Piece::Type { source, outline } = &self.pieces[i] {
                if same(source.as_str(), text) {
                    return Some(outline.duplicate());
                }
            }
            i += 1;
        }
        None
    }
}

}
