use vstd::prelude::*;

use crate::error::{misuse, outcome, ErrorModel, JavaError, JniErrorKind, JniErrorModel};
use crate::jni_text::{Signatures, SignaturesModel};
use crate::names::{
    class_fragment, class_name_to_fragment, is_return, split_method_sig, split_sig,
};
use crate::resolve::{param_fragments, Answer, AnswerModel, Ask, AskModel, Phase};
use crate::resolution::{reply, WorldModel};
use crate::text::{concat, same, views};

verus! {

/// A native method that is to be registered with a class.
pub struct NativeMethod {
    pub name: String,
    pub sig: String,
    /// The address of its trampoline.
    pub trampoline: u64,
    /// The callable behind a type-derived trampoline; a method with an explicit
    /// signature has a trampoline of its own.
    pub call: Option<u64>,
}

/// The mathematical content of a [`NativeMethod`].
pub struct NativeModel {
    pub name: Seq<char>,
    pub sig: Seq<char>,
    pub trampoline: u64,
    pub call: Option<u64>,
}

impl View for NativeMethod {
    type V = NativeModel;

    open spec fn view(&self) -> NativeModel {
        NativeModel {
            name: self.name@,
            sig: self.sig@,
            trampoline: self.trampoline,
            call: self.call,
        }
    }
}

/// The contents of a batch of native methods.
pub open spec fn natives(v: Seq<NativeMethod>) -> Seq<NativeModel> {
    Seq::new(v.len(), |i: int| v[i]@)
}

/// The next thing to do in the search for a declared method: ask, or take the fragment
/// of its return type.
pub enum FindStep {
    Ask(Ask),
    Done(Result<Option<String>, JavaError>),
}

/// The mathematical content of a [`FindStep`].
pub enum FindStepModel {
    Ask(AskModel),
    Done(Result<Option<Seq<char>>, ErrorModel>),
}

impl View for FindStep {
    type V = FindStepModel;

    open spec fn view(&self) -> FindStepModel {
        match self {
            FindStep::Ask(a) => FindStepModel::Ask(a@),
            FindStep::Done(Ok(Some(s))) => FindStepModel::Done(Ok(Some(s@))),
            FindStep::Done(Ok(None)) => FindStepModel::Done(Ok(None)),
            FindStep::Done(Err(e)) => FindStepModel::Done(Err(e@)),
        }
    }
}

/// Finds the return type of a declared method by its name and parameter fragments.
pub struct ReturnFinder {
    name: String,
    params: Vec<String>,
    count: usize,
    at: usize,
    phase: Phase,
}

/// The mathematical content of a [`ReturnFinder`].
pub struct FinderModel {
    pub name: Seq<char>,
    pub params: Seq<Seq<char>>,
    pub count: int,
    pub at: int,
    pub phase: Phase,
}

impl View for ReturnFinder {
    type V = FinderModel;

    closed spec fn view(&self) -> FinderModel {
        FinderModel {
            name: self.name@,
            params: views(self.params@),
            count: self.count as int,
            at: self.at as int,
            phase: self.phase,
        }
    }
}

/// What holds of a finder between two steps: a method in question exists.
pub open spec fn finder_well_formed(m: FinderModel) -> bool {
    m.phase != Phase::Listing && m.phase != Phase::Finished ==> 0 <= m.at < m.count
}

/// The end of the search.
pub open spec fn found(m: FinderModel, r: Result<Option<Seq<char>>, ErrorModel>) -> (
    FinderModel,
    FindStepModel,
) {
    (FinderModel { phase: Phase::Finished, ..m }, FindStepModel::Done(r))
}

/// On to the method `i`, if there is one.
pub open spec fn declared(m: FinderModel, i: int) -> (FinderModel, FindStepModel) {
    if i >= m.count {
        found(m, Ok(None))
    } else {
        (FinderModel { at: i, phase: Phase::Name, ..m }, FindStepModel::Ask(AskModel::Name(i)))
    }
}

/// One step of the search.
pub open spec fn find_next(m: FinderModel, a: AnswerModel) -> (FinderModel, FindStepModel) {
    match a {
        AnswerModel::Failed(e) => found(m, Err(e)),
        _ => match m.phase {
            Phase::Listing => match a {
                AnswerModel::Count(n) => declared(FinderModel { count: n, ..m }, 0),
                _ => found(
                    m,
                    Err(misuse("Class.getDeclaredMethods() did not return an array"@)),
                ),
            },
            Phase::Name => match a {
                AnswerModel::Text(s) => if s == m.name {
                    (
                        FinderModel { phase: Phase::Params, ..m },
                        FindStepModel::Ask(AskModel::Params(m.at)),
                    )
                } else {
                    declared(m, m.at + 1)
                },
                _ => found(m, Err(misuse("Method.getName() did not return a String"@))),
            },
            Phase::Params => match a {
                AnswerModel::Names(names) => if param_fragments(names) == m.params {
                    (
                        FinderModel { phase: Phase::Return, ..m },
                        FindStepModel::Ask(AskModel::Return(m.at)),
                    )
                } else {
                    declared(m, m.at + 1)
                },
                _ => found(
                    m,
                    Err(misuse("Method.getParameterTypes() did not return an array"@)),
                ),
            },
            Phase::Return => match a {
                AnswerModel::Text(class) => found(m, Ok(Some(class_fragment(class)))),
                _ => found(m, Err(misuse("Method.getReturnType() did not return a Class"@))),
            },
            _ => found(m, Ok(None)),
        },
    }
}

/// A finder that has asked nothing but for the methods.
pub open spec fn fresh_finder(name: Seq<char>, params: Seq<Seq<char>>) -> FinderModel {
    FinderModel { name, params, count: 0, at: 0, phase: Phase::Listing }
}

fn fragments_are(names: &Vec<String>, params: &Vec<String>) -> (r: bool)
    ensures
        r == (param_fragments(views(names@)) == views(params@)),
{
    if names.len() != params.len() {
        proof {
            assert(param_fragments(views(names@)).len() != views(params@).len());
        }
        return false;
    }
    let mut k: usize = 0;
    while k < names.len()
        invariant
            k <= names@.len() == params@.len(),
            forall|l: int|
                0 <= l < k ==> param_fragments(views(names@))[l] == #[trigger] views(params@)[l],
        decreases names@.len() - k,
    {
        let frag = class_name_to_fragment(names[k].as_str());
        if !same(frag.as_str(), params[k].as_str()) {
            proof {
                assert(param_fragments(views(names@))[k as int] != views(params@)[k as int]);
            }
            return false;
        }
        k += 1;
    }
    assert(param_fragments(views(names@)) =~= views(params@));
    true
}

impl ReturnFinder {
    /// Starts the search for the declared method of that name whose parameters have
    /// those fragments. The first question is [`Ask::Candidates`], for the declared
    /// methods of the class.
    pub fn declared_method_return_fragment(name: String, params: Vec<String>) -> (f: ReturnFinder)
        ensures
            f@ == fresh_finder(name@, views(params@)),
            finder_well_formed(f@),
    {
        ReturnFinder { name, params, count: 0, at: 0, phase: Phase::Listing }
    }

    fn finish(&mut self, r: Result<Option<String>, JavaError>) -> (s: FindStep)
        ensures
            final(self)@ == (FinderModel { phase: Phase::Finished, ..old(self)@ }),
            s == FindStep::Done(r),
    {
        self.phase = Phase::Finished;
        FindStep::Done(r)
    }

    fn declared(&mut self, i: usize) -> (s: FindStep)
        ensures
            (final(self)@, s@) == declared(old(self)@, i as int),
    {
        if i >= self.count {
            return self.finish(Ok(None));
        }
        self.at = i;
        self.phase = Phase::Name;
        FindStep::Ask(Ask::Name(i))
    }

    /// Takes the answer to the last question, and says what to do next.
    pub fn step(&mut self, answer: Answer) -> (s: FindStep)
        requires
            finder_well_formed(old(self)@),
        ensures
            (final(self)@, s@) == find_next(old(self)@, answer@),
            finder_well_formed(final(self)@),
    {
        if let Answer::Failed(e) = answer {
            return self.finish(Err(e));
        }
        match self.phase {
            Phase::Listing => match answer {
                Answer::Count(n) => {
                    self.count = n;
                    self.declared(0)
                },
                _ => self.finish(
                    Err(
                        JavaError::InvalidArgument(
                            "Class.getDeclaredMethods() did not return an array",
                        ),
                    ),
                ),
            },
            Phase::Name => match answer {
                Answer::Text(s) => {
                    if same(s.as_str(), self.name.as_str()) {
                        self.phase = Phase::Params;
                        FindStep::Ask(Ask::Params(self.at))
                    } else {
                        let i = self.at + 1;
                        self.declared(i)
                    }
                },
                _ => self.finish(
                    Err(JavaError::InvalidArgument("Method.getName() did not return a String")),
                ),
            },
            Phase::Params => match answer {
                Answer::Names(names) => {
                    if fragments_are(&names, &self.params) {
                        self.phase = Phase::Return;
                        FindStep::Ask(Ask::Return(self.at))
                    } else {
                        let i = self.at + 1;
                        self.declared(i)
                    }
                },
                _ => self.finish(
                    Err(
                        JavaError::InvalidArgument(
                            "Method.getParameterTypes() did not return an array",
                        ),
                    ),
                ),
            },
            Phase::Return => match answer {
                Answer::Text(class) => {
                    let frag = class_name_to_fragment(class.as_str());
                    self.finish(Ok(Some(frag)))
                },
                _ => self.finish(
                    Err(
                        JavaError::InvalidArgument("Method.getReturnType() did not return a Class"),
                    ),
                ),
            },
            _ => self.finish(Ok(None)),
        }
    }
}

/// What the search comes to within that many answers.
pub open spec fn drive_finder(
    w: WorldModel,
    s: (FinderModel, FindStepModel),
    answers: nat,
) -> Option<Result<Option<Seq<char>>, ErrorModel>>
    decreases answers,
{
    match s.1 {
        FindStepModel::Done(r) => Some(r),
        FindStepModel::Ask(q) => if answers == 0 {
            None
        } else {
            drive_finder(w, find_next(s.0, reply(w, q)), (answers - 1) as nat)
        },
    }
}

/// Whether the search ends with that result.
pub open spec fn finder_ends_with(
    w: WorldModel,
    s: (FinderModel, FindStepModel),
    r: Option<Seq<char>>,
) -> bool {
    exists|answers: nat| #[trigger]
        drive_finder(w, s, answers) == Some(Ok::<Option<Seq<char>>, ErrorModel>(r))
}

/// The return fragment of the first method from `i` on that has the name and exactly
/// those parameter fragments.
pub open spec fn return_from(
    w: WorldModel,
    name: Seq<char>,
    params: Seq<Seq<char>>,
    i: int,
) -> Option<Seq<char>>
    decreases w.candidates.len() - i,
{
    if i >= w.candidates.len() {
        None
    } else if w.candidates[i].name == Some(name) && param_fragments(w.candidates[i].params)
        == params {
        Some(class_fragment(w.candidates[i].ret))
    } else {
        return_from(w, name, params, i + 1)
    }
}

proof fn finder_answer_counts(
    w: WorldModel,
    m: FinderModel,
    q: AskModel,
    r: Option<Seq<char>>,
)
    requires
        finder_ends_with(w, find_next(m, reply(w, q)), r),
    ensures
        finder_ends_with(w, (m, FindStepModel::Ask(q)), r),
{
    let answers = choose|answers: nat| #[trigger]
        drive_finder(w, find_next(m, reply(w, q)), answers) == Some(
            Ok::<Option<Seq<char>>, ErrorModel>(r),
        );
    assert(drive_finder(w, (m, FindStepModel::Ask(q)), (answers + 1) as nat) == Some(
        Ok::<Option<Seq<char>>, ErrorModel>(r),
    ));
}

proof fn declared_ends(w: WorldModel, m: FinderModel, i: int)
    requires
        0 <= i,
        m.count == w.candidates.len(),
        forall|k: int| 0 <= k < w.candidates.len() ==> (#[trigger] w.candidates[k]).name is Some,
    ensures
        finder_ends_with(w, declared(m, i), return_from(w, m.name, m.params, i)),
    decreases w.candidates.len() - i,
{
    let r = return_from(w, m.name, m.params, i);
    if i >= w.candidates.len() {
        assert(drive_finder(w, declared(m, i), 0) == Some(
            Ok::<Option<Seq<char>>, ErrorModel>(r),
        ));
    } else {
        let asked = FinderModel { at: i, phase: Phase::Name, ..m };
        assert(w.candidates[i].name is Some);
        if w.candidates[i].name != Some(m.name) {
            declared_ends(w, asked, i + 1);
        } else {
            let params = FinderModel { phase: Phase::Params, ..asked };
            if param_fragments(w.candidates[i].params) == m.params {
                let ret = FinderModel { phase: Phase::Return, ..params };
                assert(drive_finder(w, find_next(ret, reply(w, AskModel::Return(i))), 0) == Some(
                    Ok::<Option<Seq<char>>, ErrorModel>(r),
                ));
                finder_answer_counts(w, ret, AskModel::Return(i), r);
            } else {
                declared_ends(w, params, i + 1);
            }
            finder_answer_counts(w, params, AskModel::Params(i), r);
        }
        finder_answer_counts(w, asked, AskModel::Name(i), r);
    }
}

/// The search ends, and finds the return type of the first declared method that has the
/// name and exactly those parameters.
pub proof fn finder_finds_the_declared_method(
    w: WorldModel,
    name: Seq<char>,
    params: Seq<Seq<char>>,
)
    requires
        forall|k: int| 0 <= k < w.candidates.len() ==> (#[trigger] w.candidates[k]).name is Some,
    ensures
        finder_ends_with(
            w,
            find_next(fresh_finder(name, params), reply(w, AskModel::Candidates)),
            return_from(w, name, params, 0),
        ),
{
    let listed = FinderModel {
        count: w.candidates.len() as int,
        ..fresh_finder(name, params)
    };
    declared_ends(w, listed, 0);
}

/// Whether a return fragment is one of the generic ones, which stand for any class and
/// any array.
pub open spec fn generic_return(ret: Seq<char>) -> bool {
    ret == "Ljava/lang/Object;"@ || ret == "[Ljava/lang/Object;"@
}

/// The parameter fragments of a native method whose return type may be corrected: a
/// type-derived one with a generic return type. An explicit signature is never
/// corrected.
pub open spec fn correctable(known: SignaturesModel, m: NativeModel) -> Option<Seq<Seq<char>>> {
    if m.call is None || !known.accepts(m.sig) {
        None
    } else {
        match split_sig(m.sig) {
            Some((params, ret)) => if generic_return(ret) {
                Some(params)
            } else {
                None
            },
            None => None,
        }
    }
}

/// The parameter fragments of a native method whose return type may be corrected.
pub fn correctable_params(m: &NativeMethod) -> (r: Option<Vec<String>>)
    ensures
        match r {
            Some(v) => correctable(SignaturesModel::Jni, m@) == Some(views(v@)),
            None => correctable(SignaturesModel::Jni, m@) is None,
        },
{
    correctable_among(&Signatures::Jni, m)
}

/// The same, with what says which signatures are well formed.
pub fn correctable_among(known: &Signatures, m: &NativeMethod) -> (r: Option<Vec<String>>)
    ensures
        match r {
            Some(v) => correctable(known@, m@) == Some(views(v@)),
            None => correctable(known@, m@) is None,
        },
{
    if m.call.is_none() {
        return None;
    }
    if !known.accepts(m.sig.as_str()) {
        return None;
    }
    match split_method_sig(m.sig.as_str()) {
        Some((params, ret)) => {
            if same(ret.as_str(), "Ljava/lang/Object;") || same(
                ret.as_str(),
                "[Ljava/lang/Object;",
            ) {
                Some(params)
            } else {
                None
            }
        },
        None => None,
    }
}

/// A signature made of parameter fragments and a return fragment.
pub open spec fn joined_sig(params: Seq<Seq<char>>, ret: Seq<char>) -> Seq<char> {
    "("@ + concat(params) + ")"@ + ret
}

fn join_sig(params: &Vec<String>, ret: &str) -> (s: String)
    ensures
        s@ == joined_sig(views(params@), ret@),
{
    let mut s = "(".to_owned();
    let ghost ps = views(params@);
    let mut k: usize = 0;
    assert(ps.take(0) =~= Seq::<Seq<char>>::empty());
    assert(s@ + Seq::<char>::empty() =~= s@);
    while k < params.len()
        invariant
            k <= params@.len(),
            ps == views(params@),
            s@ == "("@ + concat(ps.take(k as int)),
        decreases params@.len() - k,
    {
        s.push_str(params[k].as_str());
        proof {
            let taken = ps.take(k as int + 1);
            assert(taken.drop_last() =~= ps.take(k as int));
            assert(taken.last() == params@[k as int]@);
            assert(s@ =~= "("@ + concat(taken));
        }
        k += 1;
    }
    assert(ps.take(k as int) =~= ps);
    s.push_str(")");
    s.push_str(ret);
    s
}

/// The signature to register a method with: with the return type that was found where
/// its own may be corrected.
pub open spec fn corrected_sig(
    known: SignaturesModel,
    m: NativeModel,
    found: Option<Seq<char>>,
) -> Seq<char> {
    match correctable(known, m) {
        Some(params) => joined_sig(params, found->0),
        None => m.sig,
    }
}

/// Whether the batch can be corrected: a method may be, and for each that may be the
/// return type was found.
pub open spec fn batch_correctable(
    known: SignaturesModel,
    ms: Seq<NativeModel>,
    found: Seq<Option<Seq<char>>>,
) -> bool {
    &&& exists|i: int| 0 <= i < ms.len() && correctable(known, #[trigger] ms[i]) is Some
    &&& forall|i: int|
        0 <= i < ms.len() && correctable(known, #[trigger] ms[i]) is Some ==> found[i] is Some
}

/// What was found for each method of a batch.
pub open spec fn found_views(v: Seq<Option<String>>) -> Seq<Option<Seq<char>>> {
    Seq::new(
        v.len(),
        |i: int|
            match v[i] {
                Some(s) => Some(s@),
                None => None,
            },
    )
}

/// The corrected signatures of a batch that was refused, given the return fragment that
/// was found for each method that may be corrected. `None` where nothing may be
/// corrected or something was not found.
pub fn resolve_derived_native_sigs(
    methods: &Vec<NativeMethod>,
    found: &Vec<Option<String>>,
) -> (r: Option<Vec<String>>)
    requires
        found@.len() == methods@.len(),
    ensures
        r is Some <==> batch_correctable(
            SignaturesModel::Jni,
            natives(methods@),
            found_views(found@),
        ),
        r matches Some(sigs) ==> views(sigs@) == corrected_sigs(
            SignaturesModel::Jni,
            natives(methods@),
            found_views(found@),
        ),
{
    corrections_among(&Signatures::Jni, methods, found)
}

/// The signatures to register the methods of a batch with.
pub open spec fn corrected_sigs(
    known: SignaturesModel,
    ms: Seq<NativeModel>,
    found: Seq<Option<Seq<char>>>,
) -> Seq<Seq<char>> {
    Seq::new(ms.len(), |i: int| corrected_sig(known, ms[i], found[i]))
}

/// The same, with what says which signatures are well formed.
pub fn corrections_among(
    known: &Signatures,
    methods: &Vec<NativeMethod>,
    found: &Vec<Option<String>>,
) -> (r: Option<Vec<String>>)
    requires
        found@.len() == methods@.len(),
    ensures
        r is Some <==> batch_correctable(known@, natives(methods@), found_views(found@)),
        r matches Some(sigs) ==> views(sigs@) == corrected_sigs(
            known@,
            natives(methods@),
            found_views(found@),
        ),
{
    let ghost ms = natives(methods@);
    let ghost fs = found_views(found@);
    let ghost all = corrected_sigs(known@, ms, fs);
    let mut sigs: Vec<String> = Vec::new();
    let mut any = false;
    let mut i: usize = 0;
    assert(views(sigs@) =~= all.take(0));
    while i < methods.len()
        invariant
            i <= methods@.len() == found@.len(),
            ms == natives(methods@),
            fs == found_views(found@),
            all == corrected_sigs(known@, ms, fs),
            views(sigs@) == all.take(i as int),
            any == exists|k: int| 0 <= k < i && correctable(known@, #[trigger] ms[k]) is Some,
            forall|k: int|
                0 <= k < i && correctable(known@, #[trigger] ms[k]) is Some ==> fs[k] is Some,
        decreases methods@.len() - i,
    {
        assert(ms[i as int] == methods@[i as int]@);
        let ghost before = sigs@;
        let sig = match correctable_among(known, &methods[i]) {
            Some(params) => {
                any = true;
                match &found[i] {
                    Some(ret) => join_sig(&params, ret.as_str()),
                    None => {
                        assert(fs[i as int] is None);
                        return None;
                    },
                }
            },
            None => methods[i].sig.as_str().to_owned(),
        };
        sigs.push(sig);
        proof {
            assert(sig@ == all[i as int]);
            assert(views(sigs@) =~= views(before).push(all[i as int]));
            assert(all.take(i as int + 1) =~= all.take(i as int).push(all[i as int]));
        }
        i += 1;
    }
    assert(all.take(i as int) =~= all);
    if any {
        Some(sigs)
    } else {
        None
    }
}

/// An explicit signature is registered as it was written, also when the rest of its
/// batch is corrected.
pub proof fn explicit_signatures_stay(
    known: SignaturesModel,
    m: NativeModel,
    found: Option<Seq<char>>,
)
    requires
        m.call is None,
    ensures
        corrected_sig(known, m, found) == m.sig,
{
}

/// A correction keeps the parameters of a signature and changes its return type only.
pub proof fn corrections_keep_parameters(known: SignaturesModel, m: NativeModel, found: Seq<char>)
    requires
        correctable(known, m) is Some,
        is_return(found),
    ensures
        split_sig(corrected_sig(known, m, Some(found))) == Some((correctable(known, m)->0, found)),
{
    let params = correctable(known, m)->0;
    crate::names::split_gives_fragments(m.sig);
    reveal_strlit("(");
    reveal_strlit(")");
    assert(joined_sig(params, found) =~= crate::signature::descriptor(params, found)) by {
        assert("("@ =~= seq!['(']);
        assert(")"@ =~= seq![')']);
    }
    crate::names::split_undoes_join(params, found);
}

/// Whether an error says that a registration named a method that the class does not
/// have.
pub open spec fn no_such_method(e: ErrorModel) -> bool {
    match e {
        ErrorModel::Jni(j) => j.kind == JniErrorKind::NoSuchMethod,
        ErrorModel::JavaException { class, .. } => occurs_in("NoSuchMethodError"@, class),
        _ => false,
    }
}

/// Whether a text stands somewhere in another.
pub open spec fn occurs_in(needle: Seq<char>, s: Seq<char>) -> bool {
    exists|p: int|
        0 <= p && p + needle.len() <= s.len() && #[trigger] s.subrange(p, p + needle.len())
            == needle
}

fn occurs(needle: &str, s: &str) -> (r: bool)
    ensures
        r == occurs_in(needle@, s@),
{
    let a = crate::text::chars_of(needle);
    let b = crate::text::chars_of(s);
    if a.len() > b.len() {
        return false;
    }
    let n = b.len();
    let last: usize = n - a.len();
    let mut p: usize = 0;
    loop
        invariant
            p <= last,
            n == b@.len(),
            last == b@.len() - a@.len(),
            a@ == needle@,
            b@ == s@,
            forall|q: int|
                0 <= q < p ==> #[trigger] s@.subrange(q, q + needle@.len()) != needle@,
        decreases last - p,
    {
        let mut k: usize = 0;
        let mut equal = true;
        while k < a.len()
            invariant
                k <= a@.len(),
                p <= last,
                n == b@.len(),
                last == b@.len() - a@.len(),
                a@ == needle@,
                b@ == s@,
                equal == forall|l: int| 0 <= l < k ==> a@[l] == #[trigger] b@[p + l],
            decreases a@.len() - k,
        {
            if a[k] != b[p + k] {
                equal = false;
                assert(a@[k as int] != b@[p + k]);
            }
            k += 1;
        }
        if equal {
            assert(s@.subrange(p as int, p + needle@.len()) =~= needle@) by {
                assert forall|l: int| 0 <= l < needle@.len() implies s@.subrange(
                    p as int,
                    p + needle@.len(),
                )[l] == needle@[l] by {
                    assert(a@[l] == b@[p + l]);
                }
            }
            return true;
        }
        proof {
            let l = choose|l: int| 0 <= l < a@.len() && a@[l] != #[trigger] b@[p + l];
            assert(s@.subrange(p as int, p + needle@.len())[l] == b@[p + l]);
        }
        if p == last {
            return false;
        }
        p += 1;
    }
}

/// Whether an error says that a registration named a method that the class does not
/// have.
pub fn is_nosuchmethod(e: &JavaError) -> (r: bool)
    ensures
        r == no_such_method(e@),
{
    match e {
        JavaError::Jni(j) => j.kind == JniErrorKind::NoSuchMethod,
        JavaError::JavaException { class, .. } => occurs("NoSuchMethodError", class.as_str()),
        _ => false,
    }
}

/// The message where two methods share a trampoline.
pub const SHARED_TRAMPOLINE: &'static str = "two native methods share the same Rust signature and would map to one trampoline; register only one of them, or give one an explicit signature: native!(name, \"(II)I\", f) (async_native! has no explicit-signature form in this version — register only one async method per Rust argument-tuple type)";

/// Whether a type-derived method shares its trampoline with another one: the callable
/// that the trampoline calls is not its own.
pub open spec fn shares_trampoline(m: NativeModel, registered: Option<u64>) -> bool {
    m.call is Some && registered is Some && registered != m.call
}

/// Checks a batch before it is registered. `registered[i]` is the callable that the
/// trampoline of the method at `i` calls.
pub fn check_trampolines(methods: &Vec<NativeMethod>, registered: &Vec<Option<u64>>) -> (r: Result<
    (),
    JavaError,
>)
    requires
        registered@.len() == methods@.len(),
    ensures
        r is Ok <==> forall|i: int|
            0 <= i < methods@.len() ==> !shares_trampoline(
                #[trigger] natives(methods@)[i],
                registered@[i],
            ),
        r matches Err(e) ==> e@ == misuse(SHARED_TRAMPOLINE@),
{
    let ghost ms = natives(methods@);
    let mut i: usize = 0;
    while i < methods.len()
        invariant
            i <= methods@.len() == registered@.len(),
            ms == natives(methods@),
            forall|k: int|
                0 <= k < i ==> !shares_trampoline(#[trigger] ms[k], registered@[k]),
        decreases methods@.len() - i,
    {
        assert(ms[i as int] == methods@[i as int]@);
        if let (Some(own), Some(other)) = (methods[i].call, registered[i]) {
            if own != other {
                assert(shares_trampoline(ms[i as int], registered@[i as int]));
                return Err(JavaError::InvalidArgument(SHARED_TRAMPOLINE));
            }
        }
        i += 1;
    }
    Ok(())
}

/// What an attempt to register a batch leads to.
pub enum RegisterStep {
    /// The registration is over.
    Done(Result<(), JavaError>),
    /// Look for corrections: the batch was refused with this error.
    Correct(JavaError),
    /// Hand the batch over with these signatures; that attempt is the last.
    Again(Vec<String>),
}

/// What a [`RegisterStep`] says.
pub enum RegisterStepModel {
    Done(Result<(), ErrorModel>),
    Correct(ErrorModel),
    Again(Seq<Seq<char>>),
}

impl View for RegisterStep {
    type V = RegisterStepModel;

    open spec fn view(&self) -> RegisterStepModel {
        match *self {
            RegisterStep::Done(r) => RegisterStepModel::Done(outcome(r)),
            RegisterStep::Correct(e) => RegisterStepModel::Correct(e@),
            RegisterStep::Again(sigs) => RegisterStepModel::Again(views(sigs@)),
        }
    }
}

/// How a registration that failed for good is reported: a method that the class does not
/// have is the Java error that the JVM raises for it, and every other error stands.
pub open spec fn refused(e: ErrorModel) -> ErrorModel {
    match e {
        ErrorModel::Jni(j) => if j.kind == JniErrorKind::NoSuchMethod {
            ErrorModel::JavaException { class: "java.lang.NoSuchMethodError"@, message: j.text }
        } else {
            e
        },
        _ => e,
    }
}

fn refusal(e: JavaError) -> (r: JavaError)
    ensures
        r@ == refused(e@),
{
    match e {
        JavaError::Jni(j) => match j.kind {
            JniErrorKind::NoSuchMethod => JavaError::JavaException {
                class: "java.lang.NoSuchMethodError".to_owned(),
                message: j.text,
            },
            _ => JavaError::Jni(j),
        },
        other => other,
    }
}

/// What the first attempt leads to: corrections are looked for where the class has no
/// such method, and every other outcome stands.
pub open spec fn first_attempt(result: Result<(), ErrorModel>) -> RegisterStepModel {
    match result {
        Ok(()) => RegisterStepModel::Done(Ok(())),
        Err(e) => if no_such_method(e) {
            RegisterStepModel::Correct(e)
        } else {
            RegisterStepModel::Done(Err(e))
        },
    }
}

/// What the first attempt leads to.
pub fn after_first_attempt(result: Result<(), JavaError>) -> (s: RegisterStep)
    ensures
        s@ == first_attempt(outcome(result)),
{
    match result {
        Ok(()) => RegisterStep::Done(Ok(())),
        Err(e) => {
            if is_nosuchmethod(&e) {
                RegisterStep::Correct(e)
            } else {
                RegisterStep::Done(Err(e))
            }
        },
    }
}

/// What the search for corrections leads to: the batch is handed over once more where
/// there are any, and the first refusal is reported where there are none.
pub open spec fn correction_step(
    refusal: ErrorModel,
    corrected: Result<Option<Seq<Seq<char>>>, ErrorModel>,
) -> RegisterStepModel {
    match corrected {
        Ok(Some(sigs)) => RegisterStepModel::Again(sigs),
        Ok(None) => RegisterStepModel::Done(Err(refused(refusal))),
        Err(e) => RegisterStepModel::Done(Err(e)),
    }
}

/// The signatures that a search for corrections gave, if it gave any.
pub open spec fn corrections_found(
    r: Result<Option<Vec<String>>, JavaError>,
) -> Result<Option<Seq<Seq<char>>>, ErrorModel> {
    match r {
        Ok(Some(sigs)) => Ok(Some(views(sigs@))),
        Ok(None) => Ok(None),
        Err(e) => Err(e@),
    }
}

/// What the search for corrections leads to.
pub fn after_corrections(
    refused: JavaError,
    corrected: Result<Option<Vec<String>>, JavaError>,
) -> (s: RegisterStep)
    ensures
        s@ == correction_step(refused@, corrections_found(corrected)),
{
    match corrected {
        Ok(Some(sigs)) => RegisterStep::Again(sigs),
        Ok(None) => RegisterStep::Done(Err(refusal(refused))),
        Err(e) => RegisterStep::Done(Err(e)),
    }
}

/// What the last attempt leads to: the registration is over, whatever came of it.
pub open spec fn last_attempt(result: Result<(), ErrorModel>) -> RegisterStepModel {
    match result {
        Ok(()) => RegisterStepModel::Done(Ok(())),
        Err(e) => RegisterStepModel::Done(Err(refused(e))),
    }
}

/// What the last attempt leads to.
pub fn after_last_attempt(result: Result<(), JavaError>) -> (s: RegisterStep)
    ensures
        s@ == last_attempt(outcome(result)),
{
    match result {
        Ok(()) => RegisterStep::Done(Ok(())),
        Err(e) => RegisterStep::Done(Err(refusal(e))),
    }
}

/// A class without the method that a batch names answers with a Java `NoSuchMethodError`,
/// on whichever attempt the registration ends; the first attempt does not end there.
pub proof fn missing_methods_raise_the_java_error(e: JniErrorModel)
    requires
        e.kind == JniErrorKind::NoSuchMethod,
    ensures
        first_attempt(Err(ErrorModel::Jni(e))) == RegisterStepModel::Correct(ErrorModel::Jni(e)),
        correction_step(ErrorModel::Jni(e), Ok(None)) == RegisterStepModel::Done(
            Err(
                ErrorModel::JavaException {
                    class: "java.lang.NoSuchMethodError"@,
                    message: e.text,
                },
            ),
        ),
        last_attempt(Err(ErrorModel::Jni(e))) == RegisterStepModel::Done(
            Err(
                ErrorModel::JavaException {
                    class: "java.lang.NoSuchMethodError"@,
                    message: e.text,
                },
            ),
        ),
{
}

/// A native method shows what it is, and a batch each in its place.
pub proof fn natives_are_what_they_show(v: Seq<NativeMethod>, i: int)
    requires
        0 <= i < v.len(),
    ensures
        natives(v).len() == v.len(),
        natives(v)[i].name == v[i].name@,
        natives(v)[i].sig == v[i].sig@,
        natives(v)[i].trampoline == v[i].trampoline,
        natives(v)[i].call == v[i].call,
{
}

/// The steps of a search and of a registration show what they are.
pub proof fn registration_steps_are_what_they_show(f: FindStep, s: RegisterStep)
    ensures
        match f {
            FindStep::Ask(a) => f@ == FindStepModel::Ask(a@),
            FindStep::Done(Ok(Some(t))) => f@ == FindStepModel::Done(Ok(Some(t@))),
            FindStep::Done(Ok(None)) => f@ == FindStepModel::Done(Ok(None)),
            FindStep::Done(Err(e)) => f@ == FindStepModel::Done(Err(e@)),
        },
        match s {
            RegisterStep::Done(Ok(())) => s@ == RegisterStepModel::Done(Ok(())),
            RegisterStep::Done(Err(e)) => s@ == RegisterStepModel::Done(Err(e@)),
            RegisterStep::Correct(e) => s@ == RegisterStepModel::Correct(e@),
            RegisterStep::Again(sigs) => (s@ matches RegisterStepModel::Again(shown) && shown.len()
                == sigs@.len() && forall|i: int|
                0 <= i < sigs@.len() ==> #[trigger] shown[i] == sigs@[i]@),
        },
{
}

/// The return type that a search finds is that of the first method with the name and with
/// parameters of exactly those fragments; without such a method it finds nothing.
pub proof fn first_declared_method_is_found(
    w: WorldModel,
    name: Seq<char>,
    params: Seq<Seq<char>>,
    from: int,
    i: int,
)
    requires
        0 <= from,
    ensures
        from <= i < w.candidates.len() && w.candidates[i].name == Some(name)
            && w.candidates[i].params.len() == params.len() && (forall|k: int|
            0 <= k < params.len() ==> class_fragment(w.candidates[i].params[k]) == #[trigger] params[k])
            && (forall|j: int| #![trigger w.candidates[j]]
            from <= j < i ==> w.candidates[j].name != Some(name) || param_fragments(
                w.candidates[j].params,
            ) != params) ==> return_from(w, name, params, from) == Some(
            class_fragment(w.candidates[i].ret),
        ),
        (forall|j: int| #![trigger w.candidates[j]]
            from <= j < w.candidates.len() ==> w.candidates[j].name != Some(name)) ==> return_from(
            w,
            name,
            params,
            from,
        ) is None,
    decreases w.candidates.len() - from,
{
    if from < w.candidates.len() {
        first_declared_method_is_found(w, name, params, from + 1, i);
        if from == i && w.candidates[i].params.len() == params.len() && (forall|k: int|
            0 <= k < params.len() ==> class_fragment(w.candidates[i].params[k])
                == #[trigger] params[k]) {
            assert(param_fragments(w.candidates[i].params) =~= params);
        }
        let c = w.candidates[from];
    }
}

/// A search that could not be answered fails with that failure.
pub proof fn find_failures_stand(m: FinderModel, e: ErrorModel)
    ensures
        find_next(m, AnswerModel::Failed(e)).1 == FindStepModel::Done(Err(e)),
{
}

/// The methods of a batch are registered each under its own signature, in order: with the
/// return type that was found for it where its own may be corrected, and as it is where it
/// may not.
pub proof fn corrections_keep_their_places(
    known: SignaturesModel,
    ms: Seq<NativeModel>,
    found: Seq<Option<Seq<char>>>,
    i: int,
    params: Seq<Seq<char>>,
    ret: Seq<char>,
)
    requires
        0 <= i < ms.len(),
    ensures
        corrected_sigs(known, ms, found).len() == ms.len(),
        correctable(known, ms[i]) is None ==> corrected_sigs(known, ms, found)[i] == ms[i].sig,
        correctable(known, ms[i]) == Some(params) && found[i] == Some(ret) ==> corrected_sigs(
            known,
            ms,
            found,
        )[i] == "("@ + concat(params) + ")"@ + ret,
        correctable(known, ms[i]) is Some <==> ms[i].call is Some && known.accepts(ms[i].sig)
            && split_sig(ms[i].sig) is Some && ((split_sig(ms[i].sig)->0).1
            == "Ljava/lang/Object;"@ || (split_sig(ms[i].sig)->0).1 == "[Ljava/lang/Object;"@),
        correctable(known, ms[i]) matches Some(ps) ==> ps == (split_sig(ms[i].sig)->0).0,
{
}

/// What was found for each method of a batch is shown in its place.
pub proof fn findings_are_what_they_show(v: Seq<Option<String>>, i: int)
    requires
        0 <= i < v.len(),
    ensures
        found_views(v).len() == v.len(),
        found_views(v)[i] == (match v[i] {
            Some(s) => Some(s@),
            None => None,
        }),
{
}

/// A registration that succeeds is over; one that is refused for another reason than a
/// missing method fails with that refusal; corrected signatures are handed over as they
/// are, and a failed search for them is what the registration fails with.
pub proof fn registrations_end_with_their_outcome(
    e: ErrorModel,
    sigs: Seq<Seq<char>>,
    failure: ErrorModel,
)
    ensures
        first_attempt(Ok(())) == RegisterStepModel::Done(Ok(())),
        last_attempt(Ok(())) == RegisterStepModel::Done(Ok(())),
        !no_such_method(e) ==> first_attempt(Err(e)) == RegisterStepModel::Done(Err(e)),
        no_such_method(e) ==> first_attempt(Err(e)) == RegisterStepModel::Correct(e),
        correction_step(e, Ok(Some(sigs))) == RegisterStepModel::Again(sigs),
        correction_step(e, Err(failure)) == RegisterStepModel::Done(Err(failure)),
        !(e is Jni) ==> last_attempt(Err(e)) == RegisterStepModel::Done(Err(e)) && correction_step(
            e,
            Ok(None),
        ) == RegisterStepModel::Done(Err(e)),
        e matches ErrorModel::Jni(j) && j.kind != JniErrorKind::NoSuchMethod ==> last_attempt(
            Err(e),
        ) == RegisterStepModel::Done(Err(e)),
{
}

/// An error is about a missing method where JNI says so, or where its class is one whose
/// name holds Java's name for that error.
pub proof fn missing_methods_are_told_by_name(
    j: JniErrorModel,
    before: Seq<char>,
    behind: Seq<char>,
    message: Seq<char>,
)
    ensures
        no_such_method(ErrorModel::Jni(j)) <==> j.kind == JniErrorKind::NoSuchMethod,
        no_such_method(
            ErrorModel::JavaException {
                class: before + "NoSuchMethodError"@ + behind,
                message,
            },
        ),
        no_such_method(ErrorModel::JavaException { class: before, message }) ==> before.len() >= 17,
        !no_such_method(ErrorModel::InvalidArgument(message)),
        !no_such_method(ErrorModel::Serde(message)),
        !no_such_method(ErrorModel::JvmStart(message)),
{
    reveal_strlit("NoSuchMethodError");
    let needle = "NoSuchMethodError"@;
    let s = before + needle + behind;
    let p = before.len() as int;
    assert(s.subrange(p, p + needle.len()) =~= needle);
    assert(occurs_in(needle, s));
}

/// Two methods share a trampoline where it calls another callable than the method's own; a
/// method with a trampoline of its own shares it with none.
pub proof fn trampolines_belong_to_one_callable(m: NativeModel, own: u64, other: u64)
    ensures
        m.call == Some(own) ==> (shares_trampoline(m, Some(other)) <==> own != other),
        m.call is None ==> !shares_trampoline(m, Some(other)),
        !shares_trampoline(m, None),
{
}

}
