use vstd::prelude::*;

use crate::grammar::{Fault, MacroError};
use crate::plain::{is_plain_text, quoted};
use crate::text::views;

verus! {

/// A part of the text that a macro expands to.
#[derive(Debug)]
pub enum Part {
    /// Source text as it stands.
    Code(String),
    /// A string literal, by its value.
    Literal(String),
}

/// The mathematical content of a [`Part`].
pub enum PartModel {
    Code(Seq<char>),
    Literal(Seq<char>),
}

impl View for Part {
    type V = PartModel;

    open spec fn view(&self) -> PartModel {
        match self {
            Part::Code(s) => PartModel::Code(s@),
            Part::Literal(s) => PartModel::Literal(s@),
        }
    }
}

/// Source text as it stands.
pub open spec fn code(s: Seq<char>) -> PartModel {
    PartModel::Code(s)
}

/// A string literal with that value.
pub open spec fn literal(s: Seq<char>) -> PartModel {
    PartModel::Literal(s)
}

/// What a macro expands to, up to how its string literals are written.
#[derive(Debug)]
pub struct Template {
    parts: Vec<Part>,
}

impl View for Template {
    type V = Seq<PartModel>;

    closed spec fn view(&self) -> Seq<PartModel> {
        Seq::new(self.parts@.len(), |i: int| self.parts@[i]@)
    }
}

/// The values of the literals among the first `k` parts, in order.
pub open spec fn values_before(parts: Seq<PartModel>, k: int) -> Seq<Seq<char>>
    decreases k,
{
    if k <= 0 {
        Seq::empty()
    } else {
        match parts[k - 1] {
            PartModel::Code(_) => values_before(parts, k - 1),
            PartModel::Literal(s) => values_before(parts, k - 1).push(s),
        }
    }
}

/// The values of the literals of a template, in order.
pub open spec fn literal_values(parts: Seq<PartModel>) -> Seq<Seq<char>> {
    values_before(parts, parts.len() as int)
}

/// The text of the first `k` parts, with the literals written as `texts` says.
pub open spec fn text_before(parts: Seq<PartModel>, k: int, texts: Seq<Seq<char>>) -> Seq<char>
    decreases k,
{
    if k <= 0 {
        Seq::empty()
    } else {
        text_before(parts, k - 1, texts) + (match parts[k - 1] {
            PartModel::Code(s) => s,
            PartModel::Literal(_) => texts[values_before(parts, k - 1).len() as int],
        })
    }
}

/// The text of a template whose literals are written as `texts` says, one after the other.
pub open spec fn filled(parts: Seq<PartModel>, texts: Seq<Seq<char>>) -> Seq<char> {
    text_before(parts, parts.len() as int, texts)
}

proof fn values_grow(parts: Seq<PartModel>, j: int, k: int)
    requires
        0 <= j <= k <= parts.len(),
    ensures
        values_before(parts, j).len() <= values_before(parts, k).len(),
    decreases k - j,
{
    if j < k {
        values_grow(parts, j, k - 1);
    }
}

impl Template {
    /// Nothing.
    pub fn new() -> (t: Template)
        ensures
            t@ == Seq::<PartModel>::empty(),
    {
        let t = Template { parts: Vec::new() };
        assert(t@ =~= Seq::<PartModel>::empty());
        t
    }

    /// Adds source text.
    pub fn code(&mut self, s: &str)
        ensures
            final(self)@ == old(self)@.push(code(s@)),
    {
        self.parts.push(Part::Code(s.to_owned()));
        assert(self@ =~= old(self)@.push(code(s@)));
    }

    /// Adds a string literal with that value.
    pub fn literal(&mut self, s: &str)
        ensures
            final(self)@ == old(self)@.push(literal(s@)),
    {
        self.parts.push(Part::Literal(s.to_owned()));
        assert(self@ =~= old(self)@.push(literal(s@)));
    }

    /// Adds the parts of another template.
    pub fn append(&mut self, other: Template)
        ensures
            final(self)@ == old(self)@ + other@,
    {
        let mut parts = other.parts;
        self.parts.append(&mut parts);
        assert(self@ =~= old(self)@ + other@);
    }

    /// The values of the literals, in order.
    pub fn literals(&self) -> (values: Vec<String>)
        ensures
            views(values@) == literal_values(self@),
    {
        let mut values: Vec<String> = Vec::new();
        let mut k: usize = 0;
        assert(views(values@) =~= Seq::<Seq<char>>::empty());
        while k < self.parts.len()
            invariant
                k <= self.parts@.len() == self@.len(),
                views(values@) == values_before(self@, k as int),
            decreases self.parts@.len() - k,
        {
            assert(self@[k as int] == self.parts@[k as int]@);
            if let Part::Literal(s) = &self.parts[k] {
                let ghost before = values@;
                values.push(s.as_str().to_owned());
                assert(views(values@) =~= views(before).push(s@));
            }
            k += 1;
        }
        values
    }

    /// The text, with the literals written as `texts` says, one after the other.
    pub fn fill(&self, texts: &Vec<String>) -> (text: String)
        requires
            texts@.len() == literal_values(self@).len(),
        ensures
            text@ == filled(self@, views(texts@)),
    {
        let ghost ws = views(texts@);
        let count = texts.len();
        let mut text = String::new();
        let mut next: usize = 0;
        let mut k: usize = 0;
        assert(text@ =~= Seq::<char>::empty());
        while k < self.parts.len()
            invariant
                k <= self.parts@.len() == self@.len(),
                ws == views(texts@),
                count == texts@.len() == literal_values(self@).len(),
                next == values_before(self@, k as int).len(),
                text@ == text_before(self@, k as int, ws),
            decreases self.parts@.len() - k,
        {
            assert(self@[k as int] == self.parts@[k as int]@);
            match &self.parts[k] {
                Part::Code(s) => {
                    text.push_str(s.as_str());
                },
                Part::Literal(_) => {
                    proof {
                        values_grow(self@, k as int + 1, self@.len() as int);
                        assert(next < count);
                        assert(ws[next as int] == texts@[next as int]@);
                    }
                    text.push_str(texts[next].as_str());
                    next += 1;
                },
            }
            k += 1;
        }
        text
    }

    /// The text, with the literals as the compiler's tokens write them. How one with
    /// characters to escape is written is the compiler's affair.
    pub(crate) fn written(&self) -> (text: String)
        ensures
            exists|texts: Seq<Seq<char>>| #[trigger] is_writing(text@, self@, texts),
    {
        let values = self.literals();
        let mut texts: Vec<String> = Vec::new();
        let mut k: usize = 0;
        while k < values.len()
            invariant
                k <= values@.len(),
                texts@.len() == k,
                views(values@) == literal_values(self@),
                forall|j: int|
                    0 <= j < k ==> writes(#[trigger] texts@[j]@, literal_values(self@)[j]),
            decreases values@.len() - k,
        {
            assert(views(values@)[k as int] == values@[k as int]@);
            texts.push(quote_string(values[k].as_str()));
            k += 1;
        }
        let text = self.fill(&texts);
        assert forall|j: int| 0 <= j < texts@.len() implies writes(
            #[trigger] views(texts@)[j],
            literal_values(self@)[j],
        ) by {
            assert(writes(texts@[j]@, literal_values(self@)[j]));
        }
        assert(is_writing(text@, self@, views(texts@)));
        text
    }
}

/// Whether a text can be how a string literal with that value is written. One without
/// characters to escape is the value between two quotes.
pub open spec fn writes(text: Seq<char>, value: Seq<char>) -> bool {
    is_plain_text(value) ==> text == quoted(value)
}

/// Whether a text is a template with its literals written as `texts` says.
pub open spec fn is_writing(
    text: Seq<char>,
    parts: Seq<PartModel>,
    texts: Seq<Seq<char>>,
) -> bool {
    &&& texts.len() == literal_values(parts).len()
    &&& forall|k: int|
        0 <= k < texts.len() ==> writes(#[trigger] texts[k], literal_values(parts)[k])
    &&& text == filled(parts, texts)
}

/// Whether a macro expanded to a template with its literals written in some way, or
/// failed with the complaint that there is about it.
pub open spec fn expands(
    r: Result<String, MacroError>,
    template: Result<Seq<PartModel>, Fault>,
) -> bool {
    match r {
        Ok(text) => template is Ok && exists|texts: Seq<Seq<char>>|
            #[trigger] is_writing(text@, template->Ok_0, texts),
        Err(e) => template == Err::<Seq<PartModel>, Fault>(e@),
    }
}

/// Whether a template, or the complaint in its place, is the one that is called for.
pub open spec fn lays_out(
    r: Result<Template, MacroError>,
    template: Result<Seq<PartModel>, Fault>,
) -> bool {
    match r {
        Ok(t) => template == Ok::<Seq<PartModel>, Fault>(t@),
        Err(e) => template == Err::<Seq<PartModel>, Fault>(e@),
    }
}

/// The text of a template, with the literals as the compiler's tokens write them.
pub(crate) fn render(r: Result<Template, MacroError>) -> (text: Result<String, MacroError>)
    ensures
        forall|template: Result<Seq<PartModel>, Fault>|
            lays_out(r, template) ==> #[trigger] expands(text, template),
{
    match r {
        Ok(t) => {
            let text = t.written();
            let ghost texts = choose|texts: Seq<Seq<char>>|
                #[trigger] is_writing(text@, t@, texts);
            let out: Result<String, MacroError> = Ok(text);
            assert forall|template: Result<Seq<PartModel>, Fault>| lays_out(
                r,
                template,
            ) implies #[trigger] expands(out, template) by {
                assert(template == Ok::<Seq<PartModel>, Fault>(t@));
                assert(is_writing(out->Ok_0@, template->Ok_0, texts));
            }
            out
        },
        Err(e) => Err(e),
    }
}

/// `proc_macro2::Literal::string`, as source text: printable ASCII without quotes and
/// backslashes stands between two quotes as it is.
///
/// Nothing is claimed of other texts: a flag of the process says whether the compiler
/// writes the literal or proc-macro2 does, and the two may choose other escapes. Inside the
/// compiler it is called while a macro is expanded, as every function of the compiler's
/// tokens is.
#[verifier::external_body]
fn quote_string(s: &str) -> (r: String)
    ensures
        is_plain_text(s@) ==> r@ == quoted(s@),
{
    proc_macro2::Literal::string(s).to_string()
}

/// The text of a template is the text of its parts, one behind the other: code stands as it
/// is, and each literal as the next of the given texts.
pub proof fn parts_are_written_in_order(
    parts: Seq<PartModel>,
    s: Seq<char>,
    texts: Seq<Seq<char>>,
)
    ensures
        parts.len() == 0 ==> filled(parts, texts) == Seq::<char>::empty(),
        filled(parts.push(PartModel::Code(s)), texts) == filled(parts, texts) + s,
        literal_values(parts.push(PartModel::Code(s))) == literal_values(parts),
        literal_values(parts.push(PartModel::Literal(s))) == literal_values(parts).push(s),
        filled(parts.push(PartModel::Literal(s)), texts) == filled(parts, texts)
            + texts[literal_values(parts).len() as int],
{
    let n = parts.len() as int;
    earlier_parts_decide(parts, PartModel::Code(s), n, texts);
    earlier_parts_decide(parts, PartModel::Literal(s), n, texts);
}

proof fn earlier_parts_decide(
    parts: Seq<PartModel>,
    more: PartModel,
    k: int,
    texts: Seq<Seq<char>>,
)
    requires
        0 <= k <= parts.len(),
    ensures
        values_before(parts.push(more), k) == values_before(parts, k),
        text_before(parts.push(more), k, texts) == text_before(parts, k, texts),
    decreases k,
{
    if k > 0 {
        earlier_parts_decide(parts, more, k - 1, texts);
    }
}

}
