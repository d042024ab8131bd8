use vstd::prelude::*;

use crate::error::{misuse, ErrorModel};
use crate::jni_text::SignaturesModel;
use crate::matching::{fit, letter_of, unboxes, Fit};
use crate::names::class_fragment;
use crate::resolve::{
    candidate, fresh, lookup, matched, next, position, signature_text, unresolved, AnswerModel,
    AskModel, Phase, ResolverModel, StepModel,
};
use crate::value::{value_arg, JavaArg, JavaValue};

verus! {

/// One method or constructor of a class, as reflection shows it for given arguments.
pub struct CandidateModel {
    /// Its name, if reflection gives one.
    pub name: Option<Seq<char>>,
    /// The class names of its parameters.
    pub params: Seq<Seq<char>>,
    /// Whether each parameter accepts the class of the argument at its position.
    pub assignable: Seq<bool>,
    /// The class name of its return type.
    pub ret: Seq<char>,
    /// Whether a lookup with its signature finds it.
    pub found: bool,
}

/// A class and the arguments, as the virtual machine shows them.
pub struct WorldModel {
    pub candidates: Seq<CandidateModel>,
    /// The class name of each argument.
    pub arg_class: Seq<Seq<char>>,
    /// What each argument boxes to.
    pub boxed: Seq<Option<u64>>,
    /// What each argument unboxes to.
    pub unboxed: Seq<JavaValue>,
    /// Which signatures are well formed.
    pub signatures: SignaturesModel,
}

/// Whether reading a primitive out of a wrapper gives a primitive.
pub open spec fn readers_read(w: WorldModel) -> bool {
    forall|j: int| value_arg(#[trigger] w.unboxed[j]) is Some
}

/// The answer that such a virtual machine gives.
pub open spec fn reply(w: WorldModel, q: AskModel) -> AnswerModel {
    match q {
        AskModel::Candidates => AnswerModel::Count(w.candidates.len() as int),
        AskModel::Name(i) => match w.candidates[i].name {
            Some(s) => AnswerModel::Text(s),
            None => AnswerModel::Odd,
        },
        AskModel::Params(i) => AnswerModel::Names(w.candidates[i].params),
        AskModel::Assignable(i, j) => AnswerModel::Flag(w.candidates[i].assignable[j]),
        AskModel::ArgClass(j) => AnswerModel::Text(w.arg_class[j]),
        AskModel::Boxing(j) => AnswerModel::Value(JavaValue::Object(w.boxed[j])),
        AskModel::Unboxing(j, c) => AnswerModel::Value(w.unboxed[j]),
        AskModel::Return(i) => AnswerModel::Text(w.candidates[i].ret),
        AskModel::Lookup(i, sig) => if w.candidates[i].found {
            AnswerModel::Found
        } else {
            AnswerModel::Missing(None)
        },
    }
}

/// What a resolution comes to.
pub type Resolution = Result<(Seq<char>, Seq<JavaArg>), ErrorModel>;

/// What asking and answering comes to within that many answers.
pub open spec fn drive(w: WorldModel, s: (ResolverModel, StepModel), answers: nat) -> Option<
    Resolution,
>
    decreases answers,
{
    match s.1 {
        StepModel::Done(r) => Some(r),
        StepModel::Ask(q) => if answers == 0 {
            None
        } else {
            drive(w, next(s.0, reply(w, q)), (answers - 1) as nat)
        },
    }
}

/// Whether asking and answering ends with that result.
pub open spec fn ends_with(
    w: WorldModel,
    s: (ResolverModel, StepModel),
    r: Resolution,
) -> bool {
    exists|answers: nat| #[trigger] drive(w, s, answers) == Some(r)
}

/// The argument to pass at position `j` of the candidate `i`, if it accepts the given
/// one: the argument itself, boxed, or unboxed.
pub open spec fn passed(w: WorldModel, args: Seq<JavaArg>, i: int, j: int) -> Option<JavaArg> {
    let param = w.candidates[i].params[j];
    match fit(args[j], param) {
        Fit::Exact => Some(args[j]),
        Fit::Boxed => Some(JavaArg::Object(w.boxed[j])),
        Fit::Never => None,
        Fit::ByClass => if w.candidates[i].assignable[j] {
            Some(args[j])
        } else if unboxes(param, w.arg_class[j]) is Some {
            value_arg(w.unboxed[j])
        } else {
            None
        },
    }
}

/// The arguments to pass to the candidate `i`.
pub open spec fn passed_args(w: WorldModel, args: Seq<JavaArg>, i: int) -> Seq<JavaArg> {
    Seq::new(args.len(), |j: int| passed(w, args, i, j)->0)
}

/// The signature of the candidate `i`.
pub open spec fn candidate_sig(w: WorldModel, name: Option<Seq<char>>, i: int) -> Seq<char> {
    signature_text(
        w.candidates[i].params,
        match name {
            Some(_) => class_fragment(w.candidates[i].ret),
            None => "V"@,
        },
    )
}

/// Whether the candidate `i` has the name and accepts the arguments.
pub open spec fn takes(
    w: WorldModel,
    name: Option<Seq<char>>,
    args: Seq<JavaArg>,
    i: int,
) -> bool {
    &&& name is Some ==> w.candidates[i].name == name
    &&& w.candidates[i].params.len() == args.len()
    &&& forall|j: int| 0 <= j < args.len() ==> #[trigger] passed(w, args, i, j) is Some
}

/// Whether the candidate `i` is the one to call: it accepts the arguments, and a lookup
/// with its signature finds it.
pub open spec fn accepts(
    w: WorldModel,
    name: Option<Seq<char>>,
    args: Seq<JavaArg>,
    i: int,
) -> bool {
    &&& takes(w, name, args, i)
    &&& w.signatures.accepts(candidate_sig(w, name, i))
    &&& w.candidates[i].found
}

/// The first candidate from `i` on that is the one to call, with its signature and the
/// arguments to pass.
pub open spec fn resolution_from(
    w: WorldModel,
    name: Option<Seq<char>>,
    args: Seq<JavaArg>,
    i: int,
) -> Resolution
    decreases w.candidates.len() - i,
{
    if i >= w.candidates.len() {
        Err(misuse(unresolved(fresh(w.signatures, name, args))))
    } else if accepts(w, name, args, i) {
        Ok((candidate_sig(w, name, i), passed_args(w, args, i)))
    } else {
        resolution_from(w, name, args, i + 1)
    }
}

proof fn answer_counts(w: WorldModel, m: ResolverModel, q: AskModel, r: Resolution)
    requires
        ends_with(w, next(m, reply(w, q)), r),
    ensures
        ends_with(w, (m, StepModel::Ask(q)), r),
{
    let answers = choose|answers: nat|
        #[trigger] drive(w, next(m, reply(w, q)), answers) == Some(r);
    assert(drive(w, (m, StepModel::Ask(q)), (answers + 1) as nat) == Some(r));
}

spec fn in_world(
    w: WorldModel,
    name: Option<Seq<char>>,
    args: Seq<JavaArg>,
    m: ResolverModel,
) -> bool {
    &&& m.name == name
    &&& m.args == args
    &&& m.count == w.candidates.len()
    &&& m.signatures == w.signatures
    &&& readers_read(w)
}

proof fn candidate_ends(
    w: WorldModel,
    name: Option<Seq<char>>,
    args: Seq<JavaArg>,
    m: ResolverModel,
    i: int,
)
    requires
        in_world(w, name, args, m),
        0 <= i,
    ensures
        ends_with(w, candidate(m, i), resolution_from(w, name, args, i)),
    decreases w.candidates.len() - i, 2int, 0int,
{
    let r = resolution_from(w, name, args, i);
    if i >= w.candidates.len() {
        assert(drive(w, candidate(m, i), 0) == Some(r));
    } else {
        let params = w.candidates[i].params;
        let named = ResolverModel { at: i, phase: Phase::Params, ..m };
        if name is Some ==> w.candidates[i].name == name {
            if params.len() != args.len() {
                candidate_ends(w, name, args, named, i + 1);
            } else {
                let start = ResolverModel { params, adjusted: Seq::empty(), ..named };
                assert(start.adjusted =~= passed_args(w, args, i).take(0));
                position_ends(w, name, args, start, i);
            }
            answer_counts(w, named, AskModel::Params(i), r);
        }
        if name is Some {
            let asked = ResolverModel { at: i, phase: Phase::Name, ..m };
            if w.candidates[i].name != name {
                candidate_ends(w, name, args, asked, i + 1);
            } else {
                assert(ResolverModel { phase: Phase::Params, ..asked } == named);
            }
            answer_counts(w, asked, AskModel::Name(i), r);
        }
    }
}

proof fn position_ends(
    w: WorldModel,
    name: Option<Seq<char>>,
    args: Seq<JavaArg>,
    m: ResolverModel,
    i: int,
)
    requires
        in_world(w, name, args, m),
        0 <= i < w.candidates.len(),
        m.at == i,
        name is Some ==> w.candidates[i].name == name,
        m.params == w.candidates[i].params,
        m.params.len() == args.len(),
        m.adjusted.len() <= args.len(),
        forall|k: int| 0 <= k < m.adjusted.len() ==> #[trigger] passed(w, args, i, k) is Some,
        m.adjusted == passed_args(w, args, i).take(m.adjusted.len() as int),
    ensures
        ends_with(w, position(m), resolution_from(w, name, args, i)),
    decreases w.candidates.len() - i, 1int, args.len() - m.adjusted.len(),
{
    let r = resolution_from(w, name, args, i);
    let j = m.adjusted.len() as int;
    let all = passed_args(w, args, i);
    if j == args.len() {
        assert(m.adjusted =~= all);
        assert(takes(w, name, args, i));
        if name is Some {
            let asked = ResolverModel { phase: Phase::Return, ..m };
            lookup_ends(w, name, args, asked, i);
            answer_counts(w, asked, AskModel::Return(i), r);
        } else {
            lookup_ends(w, name, args, m, i);
        }
    } else {
        assert(passed(w, args, i, j) is Some ==> all.take(j).push(passed(w, args, i, j)->0)
            =~= all.take(j + 1));
        match fit(args[j], m.params[j]) {
            Fit::Exact => {
                position_ends(w, name, args, matched(m, args[j]), i);
            },
            Fit::Boxed => {
                let asked = ResolverModel { phase: Phase::Boxing, ..m };
                position_ends(w, name, args, matched(asked, JavaArg::Object(w.boxed[j])), i);
                answer_counts(w, asked, AskModel::Boxing(j), r);
            },
            Fit::Never => {
                assert(!takes(w, name, args, i));
                candidate_ends(w, name, args, m, i + 1);
            },
            Fit::ByClass => {
                let asked = ResolverModel { phase: Phase::Assignable, ..m };
                let param = m.params[j];
                if w.candidates[i].assignable[j] {
                    position_ends(w, name, args, matched(asked, args[j]), i);
                } else if letter_of(param) is None {
                    assert(!takes(w, name, args, i));
                    candidate_ends(w, name, args, asked, i + 1);
                } else {
                    let asked_class = ResolverModel { phase: Phase::ArgClass, ..asked };
                    match unboxes(param, w.arg_class[j]) {
                        Some(c) => {
                            let asked_value = ResolverModel {
                                phase: Phase::Unboxing,
                                ..asked_class
                            };
                            let arg = value_arg(w.unboxed[j])->0;
                            position_ends(w, name, args, matched(asked_value, arg), i);
                            answer_counts(w, asked_value, AskModel::Unboxing(j, c), r);
                        },
                        None => {
                            assert(!takes(w, name, args, i));
                            candidate_ends(w, name, args, asked_class, i + 1);
                        },
                    }
                    answer_counts(w, asked_class, AskModel::ArgClass(j), r);
                }
                answer_counts(w, asked, AskModel::Assignable(i, j), r);
            },
        }
    }
}

proof fn lookup_ends(
    w: WorldModel,
    name: Option<Seq<char>>,
    args: Seq<JavaArg>,
    m: ResolverModel,
    i: int,
)
    requires
        in_world(w, name, args, m),
        0 <= i < w.candidates.len(),
        m.at == i,
        takes(w, name, args, i),
        m.params == w.candidates[i].params,
        m.adjusted == passed_args(w, args, i),
    ensures
        ends_with(
            w,
            lookup(
                m,
                match name {
                    Some(_) => class_fragment(w.candidates[i].ret),
                    None => "V"@,
                },
            ),
            resolution_from(w, name, args, i),
        ),
    decreases w.candidates.len() - i, 0int, 0int,
{
    let r = resolution_from(w, name, args, i);
    let sig = candidate_sig(w, name, i);
    if !w.signatures.accepts(sig) {
        candidate_ends(w, name, args, m, i + 1);
    } else {
        let asked = ResolverModel { sig, phase: Phase::Lookup, ..m };
        if w.candidates[i].found {
            assert(drive(w, next(asked, reply(w, AskModel::Lookup(i, sig))), 0) == Some(r));
        } else {
            candidate_ends(w, name, args, asked, i + 1);
        }
        answer_counts(w, asked, AskModel::Lookup(i, sig), r);
    }
}

/// Resolution ends, and the first candidate wins: the resolver's questions, answered by
/// a virtual machine, lead to the first candidate in the listed order that has the name,
/// accepts the arguments and is found by its signature; to the refusal where there is
/// none.
pub proof fn resolver_finds_the_first_match(
    w: WorldModel,
    name: Option<Seq<char>>,
    args: Seq<JavaArg>,
)
    requires
        readers_read(w),
    ensures
        ends_with(
            w,
            next(fresh(w.signatures, name, args), reply(w, AskModel::Candidates)),
            resolution_from(w, name, args, 0),
        ),
{
    let listed = ResolverModel { count: w.candidates.len() as int, ..fresh(w.signatures, name, args) };
    candidate_ends(w, name, args, listed, 0);
}

/// The candidate that wins is accepted, and none before it is.
pub proof fn first_match_is_first(
    w: WorldModel,
    name: Option<Seq<char>>,
    args: Seq<JavaArg>,
    i: int,
) -> (k: int)
    requires
        0 <= i,
    ensures
        resolution_from(w, name, args, i) is Ok ==> {
            &&& i <= k < w.candidates.len()
            &&& accepts(w, name, args, k)
            &&& forall|l: int| i <= l < k ==> !accepts(w, name, args, l)
            &&& resolution_from(w, name, args, i)->Ok_0 == (
                candidate_sig(w, name, k),
                passed_args(w, args, k),
            )
        },
        resolution_from(w, name, args, i) is Err ==> {
            &&& forall|l: int| i <= l < w.candidates.len() ==> !accepts(w, name, args, l)
            &&& resolution_from(w, name, args, i)->Err_0 == misuse(unresolved(fresh(w.signatures, name, args)))
        },
    decreases w.candidates.len() - i,
{
    if i >= w.candidates.len() || accepts(w, name, args, i) {
        i
    } else {
        first_match_is_first(w, name, args, i + 1)
    }
}

/// Where every parameter takes its argument as it is, the arguments are passed on
/// unchanged.
pub proof fn exact_matches_change_nothing(w: WorldModel, args: Seq<JavaArg>, i: int)
    requires
        forall|j: int|
            0 <= j < args.len() ==> fit(#[trigger] args[j], w.candidates[i].params[j]) == Fit::Exact
                || fit(args[j], w.candidates[i].params[j]) == Fit::ByClass
                && w.candidates[i].assignable[j],
    ensures
        passed_args(w, args, i) == args,
{
    assert forall|j: int| 0 <= j < args.len() implies passed_args(w, args, i)[j] == args[j] by {
        assert(fit(args[j], w.candidates[i].params[j]) == Fit::Exact || fit(
            args[j],
            w.candidates[i].params[j],
        ) == Fit::ByClass);
    }
    assert(passed_args(w, args, i) =~= args);
}

/// What a candidate is called with at a position: the given argument where the parameter
/// takes it as it is, its wrapper where the parameter takes that, and the primitive in it
/// where the parameter is the one of its class; a candidate takes no other.
pub proof fn arguments_are_passed_in_their_places(
    w: WorldModel,
    args: Seq<JavaArg>,
    i: int,
    j: int,
)
    requires
        0 <= j < args.len(),
    ensures
        passed_args(w, args, i).len() == args.len(),
        ({
            let param = w.candidates[i].params[j];
            let x = passed_args(w, args, i)[j];
            &&& fit(args[j], param) == Fit::Exact ==> x == args[j]
            &&& fit(args[j], param) == Fit::Boxed ==> x == JavaArg::Object(w.boxed[j])
            &&& fit(args[j], param) == Fit::ByClass && w.candidates[i].assignable[j] ==> x == args[j]
            &&& fit(args[j], param) == Fit::ByClass && !w.candidates[i].assignable[j] && unboxes(
                param,
                w.arg_class[j],
            ) is Some && value_arg(w.unboxed[j]) is Some ==> Some(x) == value_arg(w.unboxed[j])
            &&& fit(args[j], param) == Fit::Never ==> passed(w, args, i, j) is None
            &&& fit(args[j], param) == Fit::ByClass && !w.candidates[i].assignable[j] && unboxes(
                param,
                w.arg_class[j],
            ) is None ==> passed(w, args, i, j) is None
        }),
{
}

/// A candidate is the one to call exactly where it has the name that was asked for, as many
/// parameters as there are arguments, each of which takes its argument, and a signature
/// under which a lookup finds it; a constructor is looked up with nothing to return.
pub proof fn candidates_are_accepted_on_their_merits(
    w: WorldModel,
    name: Option<Seq<char>>,
    args: Seq<JavaArg>,
    i: int,
)
    ensures
        accepts(w, name, args, i) <==> {
            &&& name is Some ==> w.candidates[i].name == name
            &&& w.candidates[i].params.len() == args.len()
            &&& forall|j: int| 0 <= j < args.len() ==> #[trigger] passed(w, args, i, j) is Some
            &&& w.signatures.accepts(candidate_sig(w, name, i))
            &&& w.candidates[i].found
        },
        name is Some ==> candidate_sig(w, name, i) == signature_text(
            w.candidates[i].params,
            class_fragment(w.candidates[i].ret),
        ),
        name is None ==> candidate_sig(w, name, i) == signature_text(w.candidates[i].params, "V"@),
{
}

}
