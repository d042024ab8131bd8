use vstd::prelude::*;

use crate::error::{misuse, ErrorModel, JavaError};
use crate::jni_text::{Signatures, SignaturesModel};
use crate::matching::{
    arg_matches_param, fit, letter_of, primitive_letter, unbox_primitive, unboxes, wrapper, Fit,
};
use crate::names::{class_fragment, class_name_to_fragment};
use crate::text::{concat, same, views};
use crate::value::{primitive_arg, value_arg, JavaArg, JavaValue};

verus! {

/// What the resolver waits for.
#[derive(Clone, Copy, PartialEq, Eq, Structural, Debug)]
pub enum Phase {
    Listing,
    Name,
    Params,
    Assignable,
    ArgClass,
    Boxing,
    Unboxing,
    Return,
    Lookup,
    Finished,
}

/// A question to the virtual machine about the candidates, by their numbers, and about
/// the arguments, by their positions.
pub enum Ask {
    /// How many candidates are there?
    Candidates,
    /// What is the candidate's name?
    Name(usize),
    /// What are the class names of the candidate's parameters?
    Params(usize),
    /// Does the candidate's parameter at that position accept the class of the argument
    /// at that position?
    Assignable(usize, usize),
    /// What is the class name of the argument?
    ArgClass(usize),
    /// Box the argument.
    Boxing(usize),
    /// Read the primitive with that letter out of the argument.
    Unboxing(usize, char),
    /// What is the class name of the candidate's return type?
    Return(usize),
    /// Does a lookup with this signature find the candidate?
    Lookup(usize, String),
}

/// An answer of the virtual machine.
pub enum Answer {
    Count(usize),
    Text(String),
    Names(Vec<String>),
    Flag(bool),
    Value(JavaValue),
    Found,
    /// Nothing was found, and this exception was pending after it.
    Missing(Option<JavaError>),
    /// The question could not be answered.
    Failed(JavaError),
    /// The answer had none of these forms.
    Odd,
}

/// The next thing to do: ask, or take the result, which is the exact signature and the
/// arguments to call with.
pub enum Step {
    Ask(Ask),
    Done(Result<(String, Vec<JavaArg>), JavaError>),
}

/// The mathematical content of an [`Ask`].
pub enum AskModel {
    Candidates,
    Name(int),
    Params(int),
    Assignable(int, int),
    ArgClass(int),
    Boxing(int),
    Unboxing(int, char),
    Return(int),
    Lookup(int, Seq<char>),
}

/// The mathematical content of an [`Answer`].
pub enum AnswerModel {
    Count(int),
    Text(Seq<char>),
    Names(Seq<Seq<char>>),
    Flag(bool),
    Value(JavaValue),
    Found,
    Missing(Option<ErrorModel>),
    Failed(ErrorModel),
    Odd,
}

/// The mathematical content of a [`Step`].
pub enum StepModel {
    Ask(AskModel),
    Done(Result<(Seq<char>, Seq<JavaArg>), ErrorModel>),
}

impl View for Ask {
    type V = AskModel;

    open spec fn view(&self) -> AskModel {
        match self {
            Ask::Candidates => AskModel::Candidates,
            Ask::Name(i) => AskModel::Name(*i as int),
            Ask::Params(i) => AskModel::Params(*i as int),
            Ask::Assignable(i, j) => AskModel::Assignable(*i as int, *j as int),
            Ask::ArgClass(j) => AskModel::ArgClass(*j as int),
            Ask::Boxing(j) => AskModel::Boxing(*j as int),
            Ask::Unboxing(j, c) => AskModel::Unboxing(*j as int, *c),
            Ask::Return(i) => AskModel::Return(*i as int),
            Ask::Lookup(i, s) => AskModel::Lookup(*i as int, s@),
        }
    }
}

impl View for Answer {
    type V = AnswerModel;

    open spec fn view(&self) -> AnswerModel {
        match self {
            Answer::Count(n) => AnswerModel::Count(*n as int),
            Answer::Text(s) => AnswerModel::Text(s@),
            Answer::Names(v) => AnswerModel::Names(views(v@)),
            Answer::Flag(b) => AnswerModel::Flag(*b),
            Answer::Value(v) => AnswerModel::Value(*v),
            Answer::Found => AnswerModel::Found,
            Answer::Missing(Some(e)) => AnswerModel::Missing(Some(e@)),
            Answer::Missing(None) => AnswerModel::Missing(None),
            Answer::Failed(e) => AnswerModel::Failed(e@),
            Answer::Odd => AnswerModel::Odd,
        }
    }
}

impl View for Step {
    type V = StepModel;

    open spec fn view(&self) -> StepModel {
        match self {
            Step::Ask(a) => StepModel::Ask(a@),
            Step::Done(Ok((sig, args))) => StepModel::Done(Ok((sig@, args@))),
            Step::Done(Err(e)) => StepModel::Done(Err(e@)),
        }
    }
}

/// Finds the exact signature of a method, or of a constructor, that accepts the given
/// arguments, by asking about one candidate after the other.
pub struct Resolver {
    /// The name of the method; a constructor has none.
    name: Option<String>,
    args: Vec<JavaArg>,
    count: usize,
    /// The candidate in question.
    at: usize,
    /// The class names of its parameters.
    params: Vec<String>,
    /// The arguments for its parameters, as far as they are matched.
    adjusted: Vec<JavaArg>,
    sig: String,
    phase: Phase,
    /// Which signatures are well formed.
    signatures: Signatures,
}

/// The mathematical content of a [`Resolver`].
pub struct ResolverModel {
    pub name: Option<Seq<char>>,
    pub args: Seq<JavaArg>,
    pub count: int,
    pub at: int,
    pub params: Seq<Seq<char>>,
    pub adjusted: Seq<JavaArg>,
    pub sig: Seq<char>,
    pub phase: Phase,
    pub signatures: SignaturesModel,
}

impl View for Resolver {
    type V = ResolverModel;

    closed spec fn view(&self) -> ResolverModel {
        ResolverModel {
            name: match self.name {
                Some(s) => Some(s@),
                None => None,
            },
            args: self.args@,
            count: self.count as int,
            at: self.at as int,
            params: views(self.params@),
            adjusted: self.adjusted@,
            sig: self.sig@,
            phase: self.phase,
            signatures: self.signatures@,
        }
    }
}

/// A resolver that has asked nothing but for the candidates.
pub open spec fn fresh(
    signatures: SignaturesModel,
    name: Option<Seq<char>>,
    args: Seq<JavaArg>,
) -> ResolverModel {
    ResolverModel {
        name,
        args,
        count: 0,
        at: 0,
        params: Seq::empty(),
        adjusted: Seq::empty(),
        sig: Seq::empty(),
        phase: Phase::Listing,
        signatures,
    }
}

/// What holds of a resolver between two steps: a candidate in question exists, and a
/// parameter in question belongs to a candidate with as many parameters as arguments.
pub open spec fn well_formed(m: ResolverModel) -> bool {
    &&& m.phase != Phase::Listing && m.phase != Phase::Finished ==> 0 <= m.at < m.count
    &&& m.phase == Phase::Assignable || m.phase == Phase::ArgClass || m.phase == Phase::Boxing
        || m.phase == Phase::Unboxing ==> m.params.len() == m.args.len() && m.adjusted.len()
        < m.args.len()
    &&& m.phase == Phase::Return || m.phase == Phase::Lookup ==> m.params.len() == m.args.len()
        && m.adjusted.len() == m.args.len()
}

/// The message where no candidate accepts the arguments.
pub open spec fn unresolved(m: ResolverModel) -> Seq<char> {
    match m.name {
        Some(_) => "could not resolve the method signature via reflection;          check that the argument types match the method's parameters"@,
        None => "could not resolve a constructor signature via reflection; check that the argument types match one of the class's constructors"@,
    }
}

/// The message where the candidates could not be listed.
pub open spec fn unlisted(m: ResolverModel) -> Seq<char> {
    match m.name {
        Some(_) => "Class.getMethods() did not return an array"@,
        None => "Class.getConstructors() did not return an array"@,
    }
}

/// The message where the parameters of a candidate could not be listed.
pub open spec fn no_params(m: ResolverModel) -> Seq<char> {
    match m.name {
        Some(_) => "Method.getParameterTypes() did not return an array"@,
        None => "Constructor.getParameterTypes() did not return an array"@,
    }
}

/// The end, with a failure.
pub open spec fn failed(m: ResolverModel, e: ErrorModel) -> (ResolverModel, StepModel) {
    (ResolverModel { phase: Phase::Finished, ..m }, StepModel::Done(Err(e)))
}

/// On to the candidate `i`, if there is one.
pub open spec fn candidate(m: ResolverModel, i: int) -> (ResolverModel, StepModel) {
    if i >= m.count {
        failed(m, misuse(unresolved(m)))
    } else if m.name is Some {
        (ResolverModel { at: i, phase: Phase::Name, ..m }, StepModel::Ask(AskModel::Name(i)))
    } else {
        (ResolverModel { at: i, phase: Phase::Params, ..m }, StepModel::Ask(AskModel::Params(i)))
    }
}

/// The fragments of the parameters.
pub open spec fn param_fragments(params: Seq<Seq<char>>) -> Seq<Seq<char>> {
    Seq::new(params.len(), |i: int| class_fragment(params[i]))
}

/// The signature of parameters of those classes and a return fragment.
pub open spec fn signature_text(params: Seq<Seq<char>>, ret: Seq<char>) -> Seq<char> {
    "("@ + concat(param_fragments(params)) + ")"@ + ret
}

/// On to the lookup with that return fragment, unless the signature is malformed.
pub open spec fn lookup(m: ResolverModel, ret: Seq<char>) -> (ResolverModel, StepModel) {
    let sig = signature_text(m.params, ret);
    if !m.signatures.accepts(sig) {
        candidate(m, m.at + 1)
    } else {
        (
            ResolverModel { sig, phase: Phase::Lookup, ..m },
            StepModel::Ask(AskModel::Lookup(m.at, sig)),
        )
    }
}

/// The resolver with one more argument matched.
pub open spec fn matched(m: ResolverModel, arg: JavaArg) -> ResolverModel {
    ResolverModel { adjusted: m.adjusted.push(arg), ..m }
}

/// On to the first parameter that is not matched yet. What the argument and the class
/// name decide is decided at once.
pub open spec fn position(m: ResolverModel) -> (ResolverModel, StepModel)
    decreases m.args.len() - m.adjusted.len(),
{
    let j = m.adjusted.len() as int;
    if j >= m.args.len() {
        if m.name is Some {
            (
                ResolverModel { phase: Phase::Return, ..m },
                StepModel::Ask(AskModel::Return(m.at)),
            )
        } else {
            lookup(m, "V"@)
        }
    } else {
        match fit(m.args[j], m.params[j]) {
            Fit::Exact => position(matched(m, m.args[j])),
            Fit::Boxed => (
                ResolverModel { phase: Phase::Boxing, ..m },
                StepModel::Ask(AskModel::Boxing(j)),
            ),
            Fit::ByClass => (
                ResolverModel { phase: Phase::Assignable, ..m },
                StepModel::Ask(AskModel::Assignable(m.at, j)),
            ),
            Fit::Never => candidate(m, m.at + 1),
        }
    }
}

/// One step: what the answer to the last question leads to.
pub open spec fn next(m: ResolverModel, a: AnswerModel) -> (ResolverModel, StepModel) {
    let j = m.adjusted.len() as int;
    match a {
        AnswerModel::Failed(e) => failed(m, e),
        _ => match m.phase {
            Phase::Listing => match a {
                AnswerModel::Count(n) => candidate(ResolverModel { count: n, ..m }, 0),
                _ => failed(m, misuse(unlisted(m))),
            },
            Phase::Name => match a {
                AnswerModel::Text(s) => if m.name == Some(s) {
                    (
                        ResolverModel { phase: Phase::Params, ..m },
                        StepModel::Ask(AskModel::Params(m.at)),
                    )
                } else {
                    candidate(m, m.at + 1)
                },
                _ => candidate(m, m.at + 1),
            },
            Phase::Params => match a {
                AnswerModel::Names(params) => if params.len() != m.args.len() {
                    candidate(m, m.at + 1)
                } else {
                    position(ResolverModel { params, adjusted: Seq::empty(), ..m })
                },
                _ => failed(m, misuse(no_params(m))),
            },
            Phase::Assignable => match a {
                AnswerModel::Flag(true) => position(matched(m, m.args[j])),
                AnswerModel::Flag(false) => if letter_of(m.params[j]) is Some {
                    (
                        ResolverModel { phase: Phase::ArgClass, ..m },
                        StepModel::Ask(AskModel::ArgClass(j)),
                    )
                } else {
                    candidate(m, m.at + 1)
                },
                _ => failed(m, misuse("Class.isAssignableFrom() did not return a boolean"@)),
            },
            Phase::ArgClass => match a {
                AnswerModel::Text(class) => match unboxes(m.params[j], class) {
                    Some(c) => (
                        ResolverModel { phase: Phase::Unboxing, ..m },
                        StepModel::Ask(AskModel::Unboxing(j, c)),
                    ),
                    None => candidate(m, m.at + 1),
                },
                _ => failed(m, misuse("Object.getClass() did not return a Class"@)),
            },
            Phase::Boxing => match a {
                AnswerModel::Value(JavaValue::Object(o)) => position(
                    matched(m, JavaArg::Object(o)),
                ),
                _ => failed(
                    m,
                    misuse("internal error: wrapper valueOf did not return an object"@),
                ),
            },
            Phase::Unboxing => match a {
                AnswerModel::Value(v) => match value_arg(v) {
                    Some(arg) => position(matched(m, arg)),
                    None => failed(
                        m,
                        misuse("internal error: wrapper xxxValue() did not return a primitive"@),
                    ),
                },
                _ => failed(
                    m,
                    misuse("internal error: wrapper xxxValue() did not return a primitive"@),
                ),
            },
            Phase::Return => match a {
                AnswerModel::Text(class) => lookup(m, class_fragment(class)),
                _ => failed(m, misuse("Method.getReturnType() did not return a Class"@)),
            },
            Phase::Lookup => match a {
                AnswerModel::Found => (
                    ResolverModel { phase: Phase::Finished, ..m },
                    StepModel::Done(Ok((m.sig, m.adjusted))),
                ),
                AnswerModel::Missing(Some(e)) => failed(m, e),
                _ => candidate(m, m.at + 1),
            },
            Phase::Finished => failed(m, misuse(unresolved(m))),
        },
    }
}

proof fn position_well_formed(m: ResolverModel)
    requires
        0 <= m.at < m.count,
        m.params.len() == m.args.len(),
        m.adjusted.len() <= m.args.len(),
    ensures
        well_formed(position(m).0),
    decreases m.args.len() - m.adjusted.len(),
{
    let j = m.adjusted.len() as int;
    if j < m.args.len() && fit(m.args[j], m.params[j]) == Fit::Exact {
        position_well_formed(matched(m, m.args[j]));
    }
}

/// Every step keeps a resolver well formed.
pub proof fn steps_keep_well_formed(m: ResolverModel, a: AnswerModel)
    requires
        well_formed(m),
        a matches AnswerModel::Count(n) ==> n >= 0,
    ensures
        well_formed(next(m, a).0),
{
    let j = m.adjusted.len() as int;
    match m.phase {
        Phase::Params => {
            if let AnswerModel::Names(params) = a {
                if params.len() == m.args.len() {
                    position_well_formed(
                        ResolverModel { params, adjusted: Seq::empty(), ..m },
                    );
                }
            }
        },
        Phase::Assignable => {
            position_well_formed(matched(m, m.args[j]));
        },
        Phase::Boxing => {
            if let AnswerModel::Value(JavaValue::Object(o)) = a {
                position_well_formed(matched(m, JavaArg::Object(o)));
            }
        },
        Phase::Unboxing => {
            if let AnswerModel::Value(v) = a {
                if let Some(arg) = value_arg(v) {
                    position_well_formed(matched(m, arg));
                }
            }
        },
        _ => {},
    }
}

impl Resolver {
    /// Starts to resolve the method of that name for the arguments. The first question
    /// is [`Ask::Candidates`], for the public methods of the class.
    pub fn resolve_exact_method_sig(name: String, args: Vec<JavaArg>) -> (r: Resolver)
        ensures
            r@ == fresh(SignaturesModel::Jni, Some(name@), args@),
            well_formed(r@),
    {
        Self::among(Signatures::Jni, Some(name), args)
    }

    /// Starts to resolve a constructor for the arguments. The first question is
    /// [`Ask::Candidates`], for the public constructors of the class.
    pub fn resolve_exact_ctor_sig(args: Vec<JavaArg>) -> (r: Resolver)
        ensures
            r@ == fresh(SignaturesModel::Jni, None, args@),
            well_formed(r@),
    {
        Self::among(Signatures::Jni, None, args)
    }

    /// Starts to resolve the method of that name, or a constructor, with what says which
    /// signatures are well formed.
    pub fn among(signatures: Signatures, name: Option<String>, args: Vec<JavaArg>) -> (r: Resolver)
        ensures
            r@ == fresh(
                signatures@,
                match name {
                    Some(s) => Some(s@),
                    None => None,
                },
                args@,
            ),
            well_formed(r@),
    {
        let r = Resolver {
            name,
            args,
            count: 0,
            at: 0,
            params: Vec::new(),
            adjusted: Vec::new(),
            sig: String::new(),
            phase: Phase::Listing,
            signatures,
        };
        assert(r@.params =~= Seq::empty());
        r
    }

    fn fail(&mut self, e: JavaError) -> (s: Step)
        ensures
            (final(self)@, s@) == failed(old(self)@, e@),
    {
        self.phase = Phase::Finished;
        Step::Done(Err(e))
    }

    fn candidate(&mut self, i: usize) -> (s: Step)
        ensures
            (final(self)@, s@) == candidate(old(self)@, i as int),
    {
        if i >= self.count {
            let message = if self.name.is_some() {
                "could not resolve the method signature via reflection;          check that the argument types match the method's parameters"
            } else {
                "could not resolve a constructor signature via reflection; check that the argument types match one of the class's constructors"
            };
            return self.fail(JavaError::InvalidArgument(message));
        }
        self.at = i;
        if self.name.is_some() {
            self.phase = Phase::Name;
            Step::Ask(Ask::Name(i))
        } else {
            self.phase = Phase::Params;
            Step::Ask(Ask::Params(i))
        }
    }

    fn lookup(&mut self, ret: &str) -> (s: Step)
        requires
            old(self)@.at < old(self)@.count,
        ensures
            (final(self)@, s@) == lookup(old(self)@, ret@),
    {
        let mut sig = "(".to_owned();
        let ghost fs = param_fragments(self@.params);
        let mut k: usize = 0;
        assert(fs.take(0) =~= Seq::<Seq<char>>::empty());
        assert(sig@ + Seq::<char>::empty() =~= sig@);
        while k < self.params.len()
            invariant
                k <= self.params@.len(),
                *self == *old(self),
                fs == param_fragments(self@.params),
                fs.len() == self.params@.len(),
                sig@ == "("@ + concat(fs.take(k as int)),
            decreases self.params@.len() - k,
        {
            sig.push_str(class_name_to_fragment(self.params[k].as_str()).as_str());
            proof {
                let taken = fs.take(k as int + 1);
                assert(taken.drop_last() =~= fs.take(k as int));
                assert(self@.params[k as int] == self.params@[k as int]@);
                assert(taken.last() == class_fragment(self.params@[k as int]@));
                assert(sig@ =~= "("@ + concat(taken));
            }
            k += 1;
        }
        assert(fs.take(k as int) =~= fs);
        sig.push_str(")");
        sig.push_str(ret);
        if !self.signatures.accepts(sig.as_str()) {
            let i = self.at + 1;
            return self.candidate(i);
        }
        self.sig = sig.as_str().to_owned();
        self.phase = Phase::Lookup;
        Step::Ask(Ask::Lookup(self.at, sig))
    }

    fn position(&mut self) -> (s: Step)
        requires
            old(self)@.at < old(self)@.count,
            old(self)@.params.len() == old(self)@.args.len(),
            old(self)@.adjusted.len() <= old(self)@.args.len(),
        ensures
            (final(self)@, s@) == position(old(self)@),
        decreases old(self)@.args.len() - old(self)@.adjusted.len(),
    {
        let j = self.adjusted.len();
        if j >= self.args.len() {
            if self.name.is_some() {
                self.phase = Phase::Return;
                return Step::Ask(Ask::Return(self.at));
            }
            return self.lookup("V");
        }
        assert(self@.params[j as int] == self.params@[j as int]@);
        match arg_matches_param(&self.args[j], self.params[j].as_str()) {
            Fit::Exact => {
                let arg = self.args[j];
                self.adjusted.push(arg);
                self.position()
            },
            Fit::Boxed => {
                self.phase = Phase::Boxing;
                Step::Ask(Ask::Boxing(j))
            },
            Fit::ByClass => {
                self.phase = Phase::Assignable;
                Step::Ask(Ask::Assignable(self.at, j))
            },
            Fit::Never => {
                let i = self.at + 1;
                self.candidate(i)
            },
        }
    }

    /// Takes the answer to the last question, and says what to do next.
    pub fn step(&mut self, answer: Answer) -> (s: Step)
        requires
            well_formed(old(self)@),
        ensures
            (final(self)@, s@) == next(old(self)@, answer@),
            well_formed(final(self)@),
    {
        proof {
            steps_keep_well_formed(self@, answer@);
        }
        if let Answer::Failed(e) = answer {
            return self.fail(e);
        }
        match self.phase {
            Phase::Listing => match answer {
                Answer::Count(n) => {
                    self.count = n;
                    self.candidate(0)
                },
                _ => {
                    let message = if self.name.is_some() {
                        "Class.getMethods() did not return an array"
                    } else {
                        "Class.getConstructors() did not return an array"
                    };
                    self.fail(JavaError::InvalidArgument(message))
                },
            },
            Phase::Name => {
                let hit = match (&answer, &self.name) {
                    (Answer::Text(s), Some(name)) => same(s.as_str(), name.as_str()),
                    _ => false,
                };
                if hit {
                    self.phase = Phase::Params;
                    Step::Ask(Ask::Params(self.at))
                } else {
                    let i = self.at + 1;
                    self.candidate(i)
                }
            },
            Phase::Params => match answer {
                Answer::Names(params) => {
                    if params.len() != self.args.len() {
                        let i = self.at + 1;
                        return self.candidate(i);
                    }
                    self.params = params;
                    self.adjusted = Vec::new();
                    self.position()
                },
                _ => {
                    let message = if self.name.is_some() {
                        "Method.getParameterTypes() did not return an array"
                    } else {
                        "Constructor.getParameterTypes() did not return an array"
                    };
                    self.fail(JavaError::InvalidArgument(message))
                },
            },
            Phase::Assignable => {
                let j = self.adjusted.len();
                assert(self@.params[j as int] == self.params@[j as int]@);
                match answer {
                    Answer::Flag(true) => {
                        let arg = self.args[j];
                        self.adjusted.push(arg);
                        self.position()
                    },
                    Answer::Flag(false) => {
                        if primitive_letter(self.params[j].as_str()).is_some() {
                            self.phase = Phase::ArgClass;
                            Step::Ask(Ask::ArgClass(j))
                        } else {
                            let i = self.at + 1;
                            self.candidate(i)
                        }
                    },
                    _ => self.fail(
                        JavaError::InvalidArgument(
                            "Class.isAssignableFrom() did not return a boolean",
                        ),
                    ),
                }
            },
            Phase::ArgClass => {
                let j = self.adjusted.len();
                assert(self@.params[j as int] == self.params@[j as int]@);
                match answer {
                    Answer::Text(class) => match unbox_primitive(
                        self.params[j].as_str(),
                        class.as_str(),
                    ) {
                        Some(c) => {
                            self.phase = Phase::Unboxing;
                            Step::Ask(Ask::Unboxing(j, c))
                        },
                        None => {
                            let i = self.at + 1;
                            self.candidate(i)
                        },
                    },
                    _ => self.fail(
                        JavaError::InvalidArgument("Object.getClass() did not return a Class"),
                    ),
                }
            },
            Phase::Boxing => match answer {
                Answer::Value(JavaValue::Object(o)) => {
                    self.adjusted.push(JavaArg::Object(o));
                    self.position()
                },
                _ => self.fail(
                    JavaError::InvalidArgument(
                        "internal error: wrapper valueOf did not return an object",
                    ),
                ),
            },
            Phase::Unboxing => {
                let arg = match &answer {
                    Answer::Value(v) => primitive_arg(v),
                    _ => None,
                };
                match arg {
                    Some(arg) => {
                        self.adjusted.push(arg);
                        self.position()
                    },
                    None => self.fail(
                        JavaError::InvalidArgument(
                            "internal error: wrapper xxxValue() did not return a primitive",
                        ),
                    ),
                }
            },
            Phase::Return => match answer {
                Answer::Text(class) => {
                    let frag = class_name_to_fragment(class.as_str());
                    self.lookup(frag.as_str())
                },
                _ => self.fail(
                    JavaError::InvalidArgument("Method.getReturnType() did not return a Class"),
                ),
            },
            Phase::Lookup => match answer {
                Answer::Found => {
                    self.phase = Phase::Finished;
                    let sig = self.sig.as_str().to_owned();
                    let args = copy_args(&self.adjusted);
                    Step::Done(Ok((sig, args)))
                },
                Answer::Missing(Some(e)) => self.fail(e),
                _ => {
                    let i = self.at + 1;
                    self.candidate(i)
                },
            },
            Phase::Finished => {
                let message = if self.name.is_some() {
                    "could not resolve the method signature via reflection;          check that the argument types match the method's parameters"
                } else {
                    "could not resolve a constructor signature via reflection; check that the argument types match one of the class's constructors"
                };
                self.fail(JavaError::InvalidArgument(message))
            },
        }
    }
}

fn copy_args(args: &Vec<JavaArg>) -> (out: Vec<JavaArg>)
    ensures
        out@ == args@,
{
    let mut out: Vec<JavaArg> = Vec::new();
    let mut k: usize = 0;
    while k < args.len()
        invariant
            k <= args@.len(),
            out@ == args@.take(k as int),
        decreases args@.len() - k,
    {
        out.push(args[k]);
        k += 1;
        assert(out@ =~= args@.take(k as int));
    }
    assert(out@ =~= args@);
    out
}

/// The signature of a candidate holds the fragments of its parameters, each in its place,
/// and the return fragment behind them.
pub proof fn signatures_follow_the_parameters(params: Seq<Seq<char>>, ret: Seq<char>, i: int)
    ensures
        param_fragments(params).len() == params.len(),
        0 <= i < params.len() ==> param_fragments(params)[i] == class_fragment(params[i]),
        signature_text(params, ret) == "("@ + concat(
            Seq::new(params.len(), |k: int| class_fragment(params[k])),
        ) + ")"@ + ret,
{
}

/// Questions, answers and steps show what they are.
pub proof fn steps_are_what_they_show(q: Ask, a: Answer, s: Step)
    ensures
        match q {
            Ask::Candidates => q@ == AskModel::Candidates,
            Ask::Name(i) => q@ == AskModel::Name(i as int),
            Ask::Params(i) => q@ == AskModel::Params(i as int),
            Ask::Assignable(i, j) => q@ == AskModel::Assignable(i as int, j as int),
            Ask::ArgClass(j) => q@ == AskModel::ArgClass(j as int),
            Ask::Boxing(j) => q@ == AskModel::Boxing(j as int),
            Ask::Unboxing(j, c) => q@ == AskModel::Unboxing(j as int, c),
            Ask::Return(i) => q@ == AskModel::Return(i as int),
            Ask::Lookup(i, sig) => q@ == AskModel::Lookup(i as int, sig@),
        },
        match a {
            Answer::Count(n) => a@ == AnswerModel::Count(n as int),
            Answer::Text(t) => a@ == AnswerModel::Text(t@),
            Answer::Names(v) => (a@ matches AnswerModel::Names(names) && names.len() == v@.len()
                && forall|i: int| 0 <= i < v@.len() ==> #[trigger] names[i] == v@[i]@),
            Answer::Flag(b) => a@ == AnswerModel::Flag(b),
            Answer::Value(v) => a@ == AnswerModel::Value(v),
            Answer::Found => a@ == AnswerModel::Found,
            Answer::Missing(Some(e)) => a@ == AnswerModel::Missing(Some(e@)),
            Answer::Missing(None) => a@ == AnswerModel::Missing(None),
            Answer::Failed(e) => a@ == AnswerModel::Failed(e@),
            Answer::Odd => a@ == AnswerModel::Odd,
        },
        match s {
            Step::Ask(x) => s@ == StepModel::Ask(x@),
            Step::Done(Ok((sig, args))) => s@ == StepModel::Done(Ok((sig@, args@))),
            Step::Done(Err(e)) => s@ == StepModel::Done(Err(e@)),
        },
{
}

/// A question that could not be answered ends the search with that failure, and so does an
/// exception that a lookup left behind; a lookup that found the candidate ends it with the
/// signature that was looked up and the arguments as they were matched.
pub proof fn searches_end_with_what_was_found(m: ResolverModel, e: ErrorModel)
    ensures
        next(m, AnswerModel::Failed(e)).1 == StepModel::Done(Err(e)),
        m.phase == Phase::Lookup ==> next(m, AnswerModel::Found).1 == StepModel::Done(
            Ok((m.sig, m.adjusted)),
        ),
        m.phase == Phase::Lookup ==> next(m, AnswerModel::Missing(Some(e))).1 == StepModel::Done(
            Err(e),
        ),
{
}

/// What is asked about an argument is answered for that argument: one that is accepted as
/// it is, boxed or unboxed goes to the parameter at its own position.
pub proof fn matched_arguments_keep_their_places(m: ResolverModel, o: Option<u64>, v: JavaValue)
    ensures
        m.phase == Phase::Assignable ==> next(m, AnswerModel::Flag(true)) == position(
            ResolverModel { adjusted: m.adjusted.push(m.args[m.adjusted.len() as int]), ..m },
        ),
        m.phase == Phase::Boxing ==> next(m, AnswerModel::Value(JavaValue::Object(o))) == position(
            ResolverModel { adjusted: m.adjusted.push(JavaArg::Object(o)), ..m },
        ),
        m.phase == Phase::Unboxing && value_arg(v) is Some ==> next(m, AnswerModel::Value(v))
            == position(ResolverModel { adjusted: m.adjusted.push(value_arg(v)->0), ..m }),
{
}

}
