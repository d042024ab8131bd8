use quote::ToTokens;
use syn::{parse_str, PathArguments, Type};
use vstd::prelude::*;

use crate::plain::{
    is_broken_path_text, is_broken_type_text, is_keyword, is_number_text, is_path_text,
    is_plain_literal, is_plain_word, is_type_text, unquoted,
};

verus! {

/// One segment of a path type: its identifier and, where generic arguments stand
/// behind it in angle brackets, the type that each of them is, `None` for one that
/// is no type.
pub struct Segment {
    pub ident: String,
    pub args: Option<Vec<Option<TypeOutline>>>,
}

/// The shape of a Rust type, as far as a declaration can use it.
pub enum TypeOutline {
    /// A path, such as `std::vec::Vec<T>`; `qualified` for `<T as Trait>::Name`.
    Path { qualified: bool, segments: Vec<Segment> },
    /// A reference to the type `elem`.
    Reference { mutable: bool, elem: Box<TypeOutline> },
    /// A tuple of that many types.
    Tuple(usize),
    /// Any other type.
    Other,
}

/// The mathematical content of a [`Segment`].
pub struct SegmentModel {
    pub ident: Seq<char>,
    pub args: Option<Seq<Option<OutlineModel>>>,
}

/// The mathematical content of a [`TypeOutline`].
pub enum OutlineModel {
    Path { qualified: bool, segments: Seq<SegmentModel> },
    Reference { mutable: bool, elem: Box<OutlineModel> },
    Tuple(usize),
    Other,
}

impl Segment {
    /// The content of a segment.
    pub open spec fn model(self) -> SegmentModel
        decreases self,
    {
        SegmentModel {
            ident: self.ident@,
            args: match self.args {
                Some(list) => Some(
                    Seq::new(
                        list@.len(),
                        |i: int|
                            if 0 <= i < list@.len() {
                                match list@[i] {
                                    Some(t) => Some(t.model()),
                                    None => None,
                                }
                            } else {
                                None
                            },
                    ),
                ),
                None => None,
            },
        }
    }
}

impl TypeOutline {
    /// The content of an outline.
    pub open spec fn model(self) -> OutlineModel
        decreases self,
    {
        match self {
            TypeOutline::Path { qualified, segments } => OutlineModel::Path {
                qualified,
                segments: Seq::new(
                    segments@.len(),
                    |i: int|
                        if 0 <= i < segments@.len() {
                            segments@[i].model()
                        } else {
                            SegmentModel { ident: Seq::empty(), args: None }
                        },
                ),
            },
            TypeOutline::Reference { mutable, elem } => OutlineModel::Reference {
                mutable,
                elem: Box::new(elem.model()),
            },
            TypeOutline::Tuple(n) => OutlineModel::Tuple(n),
            TypeOutline::Other => OutlineModel::Other,
        }
    }
}

impl Segment {
    /// A segment with the same content.
    pub fn duplicate(&self) -> (s: Segment)
        ensures
            s@ == self@,
        decreases *self,
    {
        let args = match &self.args {
            None => None,
            Some(list) => {
                let mut copies: Vec<Option<TypeOutline>> = Vec::new();
                let mut i: usize = 0;
                while i < list.len()
                    invariant
                        i <= list@.len(),
                        copies@.len() == i,
                        self.args == Some(*list),
                        forall|k: int| #![trigger copies@[k]]
                            0 <= k < i ==> {
                                &&& copies@[k] is Some == list@[k] is Some
                                &&& list@[k] matches Some(t) ==> copies@[k]->0@ == t@
                            },
                    decreases list@.len() - i,
                {
                    assert(decreases_to!(*self => list@[i as int])) by {
                        assert(decreases_to!(*self => self.args));
                        assert(decreases_to!(self.args => self.args->0));
                        assert(decreases_to!(*list => list@));
                    }
                    copies.push(
                        match &list[i] {
                            Some(t) => Some(t.duplicate()),
                            None => None,
                        },
                    );
                    i += 1;
                }
                Some(copies)
            },
        };
        let s = Segment { ident: self.ident.as_str().to_owned(), args };
        assert(s@.args is Some ==> s@.args->0 =~= self@.args->0);
        s
    }
}

impl TypeOutline {
    /// An outline with the same content.
    pub fn duplicate(&self) -> (t: TypeOutline)
        ensures
            t@ == self@,
        decreases *self,
    {
        match self {
            TypeOutline::Path { qualified, segments } => {
                let mut copies: Vec<Segment> = Vec::new();
                let mut i: usize = 0;
                while i < segments.len()
                    invariant
                        i <= segments@.len(),
                        copies@.len() == i,
                        *self == (TypeOutline::Path { qualified: *qualified, segments: *segments }),
                        forall|k: int| 0 <= k < i ==> (#[trigger] copies@[k])@ == segments@[k]@,
                    decreases segments@.len() - i,
                {
                    assert(decreases_to!(*self => segments@[i as int])) by {
                        assert(decreases_to!(*self => self->segments));
                        assert(decreases_to!(self->segments => segments@));
                    }
                    copies.push(segments[i].duplicate());
                    i += 1;
                }
                let t = TypeOutline::Path { qualified: *qualified, segments: copies };
                assert(t@->segments =~= self@->segments);
                t
            },
            TypeOutline::Reference { mutable, elem } => TypeOutline::Reference {
                mutable: *mutable,
                elem: Box::new(elem.duplicate()),
            },
            TypeOutline::Tuple(n) => TypeOutline::Tuple(*n),
            TypeOutline::Other => TypeOutline::Other,
        }
    }
}

impl View for Segment {
    type V = SegmentModel;

    open spec fn view(&self) -> SegmentModel {
        self.model()
    }
}

impl View for TypeOutline {
    type V = OutlineModel;

    open spec fn view(&self) -> OutlineModel {
        self.model()
    }
}

// `syn` has proc-macro2 take a text apart into tokens, and a flag of the process says
// whether the compiler does that or proc-macro2 itself. What is claimed below is claimed of
// plain texts, which both take apart alike; of other texts nothing is.

/// `syn::parse_str::<syn::Ident>`: the result says whether the text is accepted. A word is,
/// unless it is a keyword.
#[verifier::external_body]
pub(crate) fn accepts_identifier(text: &str) -> (r: bool)
    ensures
        is_plain_word(text@) ==> r == !is_keyword(text@),
{
    parse_str::<syn::Ident>(text).is_ok()
}

/// `syn::parse_str::<syn::Expr>`: the result says whether the text is accepted. A path of
/// names is; one that a name or a comma follows is not.
#[verifier::external_body]
pub(crate) fn accepts_expression(text: &str) -> (r: bool)
    ensures
        is_path_text(text@) ==> r,
        is_broken_path_text(text@) ==> !r,
{
    parse_str::<syn::Expr>(text).is_ok()
}

/// `syn::parse_str::<syn::LitStr>` and the value of what it parsed. The value of a literal
/// without escapes is what stands between its quotes; a number is none.
#[verifier::external_body]
pub(crate) fn read_string(text: &str) -> (r: Option<String>)
    ensures
        is_plain_literal(text@) ==> r is Some && r->0@ == unquoted(text@),
        is_number_text(text@) ==> r is None,
{
    parse_str::<syn::LitStr>(text).ok().map(|l| l.value())
}

/// `syn::parse_str::<syn::Type>`: the shape of the type that it parsed, and of the
/// types inside it, each parsed in the same way from its own tokens. A plain type is
/// accepted, and has the shape that its tokens show; one that a name or a comma follows is
/// not.
#[verifier::external_body]
pub(crate) fn read_type(text: &str) -> (r: Option<TypeOutline>)
    ensures
        forall|t: OutlineModel| #[trigger]
            is_type_text(text@, t) ==> r is Some && r->0@ == t,
        is_broken_type_text(text@) ==> r is None,
{
    Some(match parse_str(text).ok()? {
        Type::Path(p) => TypeOutline::Path {
            qualified: p.qself.is_some(),
            segments: p.path.segments.iter().map(|s| Segment {
                ident: s.ident.to_string(),
                args: match &s.arguments {
                    PathArguments::AngleBracketed(list) => Some(
                        list.args.iter().map(|a| read_type(&a.to_token_stream().to_string())).collect()),
                    _ => None } }).collect() },
        Type::Reference(r) => TypeOutline::Reference {
            mutable: r.mutability.is_some(),
            elem: Box::new(read_type(&r.elem.to_token_stream().to_string())?) },
        Type::Tuple(t) => TypeOutline::Tuple(t.elems.len()),
        _ => TypeOutline::Other })
}

/// The shape of the type that a text is, as `syn` reads it.
pub fn declared_type(text: &str) -> (r: Result<TypeOutline, String>)
    ensures
        forall|t: OutlineModel| #[trigger] is_type_text(text@, t) ==> r is Ok && r->Ok_0@ == t,
        is_broken_type_text(text@) ==> r is Err,
        r matches Err(m) ==> m@ == "expected a type"@,
{
    match read_type(text) {
        Some(t) => Ok(t),
        None => Err("expected a type".to_owned()),
    }
}

/// The outline of a type shows what it is: its names in order, each with its arguments in
/// order.
pub proof fn outlines_are_what_they_show(t: TypeOutline, s: Segment, i: int)
    ensures
        match t {
            TypeOutline::Path { qualified, segments } => (t@ matches OutlineModel::Path {
                qualified: q,
                segments: shown,
            } && q == qualified && shown.len() == segments@.len() && (0 <= i < segments@.len()
                ==> shown[i] == segments@[i]@)),
            TypeOutline::Reference { mutable, elem } => (t@ matches OutlineModel::Reference {
                mutable: m,
                elem: shown,
            } && m == mutable && *shown == elem@),
            TypeOutline::Tuple(n) => t@ == OutlineModel::Tuple(n),
            TypeOutline::Other => t@ == OutlineModel::Other,
        },
        s@.ident == s.ident@,
        s.args is None <==> s@.args is None,
        s.args matches Some(list) ==> {
            &&& s@.args->0.len() == list@.len()
            &&& 0 <= i < list@.len() ==> (s@.args->0[i] == match list@[i] {
                Some(a) => Some(a@),
                None => None,
            })
        },
{
}

}
