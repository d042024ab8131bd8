use vstd::prelude::*;

use crate::convert::{bare, FromJava};
use crate::error::{misuse, ErrorModel, JavaError};
use crate::interface::Boxing;
use crate::text::{replace_char, replaced};
use crate::value::{arg_letter, JavaArg, JavaValue, ObjectRef};

verus! {

/// What has to be done next to take the result of a Java future. Objects are given by the
/// numbers under which they are held.
#[derive(Clone, Copy, PartialEq, Eq, Structural, Debug)]
pub enum FetchAsk {
    /// Wait for the result: call `get()`.
    Get,
    /// Read the primitive with that letter out of the wrapper object.
    Unbox(u64, char),
    /// What is the cause of this throwable?
    Cause(u64),
    /// What are the class name and the message of this throwable?
    Describe(u64),
}

/// An answer to a [`FetchAsk`].
#[derive(Debug)]
pub enum FetchReply {
    /// The value that `get()` returned.
    Got(JavaValue),
    /// The exception that was pending after `get()`, which has been cleared.
    Threw(u64),
    /// What failed, without an exception.
    Failed(JavaError),
    /// The primitive that was read.
    Unboxed(Result<JavaValue, JavaError>),
    /// The cause, if there is one and it could be found out.
    Cause(ObjectRef),
    /// The class name and the message, as far as they could be found out.
    Described(Option<String>, Option<String>),
}

/// What an answer leads to.
#[derive(Debug)]
pub enum FetchStep {
    Ask(FetchAsk),
    /// The value to convert, or the failure.
    Done(Result<JavaValue, JavaError>),
}

/// The mathematical content of a [`FetchReply`].
pub enum FetchReplyModel {
    Got(JavaValue),
    Threw(u64),
    Failed(ErrorModel),
    Unboxed(Result<JavaValue, ErrorModel>),
    Cause(ObjectRef),
    Described(Option<Seq<char>>, Option<Seq<char>>),
}

/// The mathematical content of a [`FetchStep`].
pub enum FetchStepModel {
    Ask(FetchAsk),
    Done(Result<JavaValue, ErrorModel>),
}

/// The characters of an optional string.
pub open spec fn text_of(s: Option<String>) -> Option<Seq<char>> {
    match s {
        Some(t) => Some(t@),
        None => None,
    }
}

impl View for FetchReply {
    type V = FetchReplyModel;

    open spec fn view(&self) -> FetchReplyModel {
        match self {
            FetchReply::Got(v) => FetchReplyModel::Got(*v),
            FetchReply::Threw(t) => FetchReplyModel::Threw(*t),
            FetchReply::Failed(e) => FetchReplyModel::Failed(e@),
            FetchReply::Unboxed(Ok(v)) => FetchReplyModel::Unboxed(Ok(*v)),
            FetchReply::Unboxed(Err(e)) => FetchReplyModel::Unboxed(Err(e@)),
            FetchReply::Cause(o) => FetchReplyModel::Cause(*o),
            FetchReply::Described(c, m) => FetchReplyModel::Described(text_of(*c), text_of(*m)),
        }
    }
}

impl View for FetchStep {
    type V = FetchStepModel;

    open spec fn view(&self) -> FetchStepModel {
        match self {
            FetchStep::Ask(a) => FetchStepModel::Ask(*a),
            FetchStep::Done(Ok(v)) => FetchStepModel::Done(Ok(*v)),
            FetchStep::Done(Err(e)) => FetchStepModel::Done(Err(e@)),
        }
    }
}

/// The letter of a return type that is a primitive.
pub open spec fn primitive_return(ret: Seq<char>) -> Option<char> {
    if ret.len() == 1 && crate::signature::is_primitive_letter(ret[0]) {
        Some(ret[0])
    } else {
        None
    }
}

/// The letter of a return type that is a primitive.
pub fn primitive_return_letter(ret: &str) -> (c: Option<char>)
    ensures
        c == primitive_return(ret@),
{
    let chars = crate::text::chars_of(ret);
    if chars.len() == 1 && crate::signature::is_primitive_char(chars[0]) {
        Some(chars[0])
    } else {
        None
    }
}

/// What the value of a future leads to, where the caller asked for a value with the
/// return type `ret`: a primitive is read out of its wrapper, and null is handed on to a
/// caller that accepts it.
pub open spec fn unboxed_for(ret: Seq<char>, nullable: bool, v: JavaValue) -> FetchStepModel {
    match primitive_return(ret) {
        None => FetchStepModel::Done(Ok(v)),
        Some(c) => match v {
            JavaValue::Object(Some(o)) => FetchStepModel::Ask(FetchAsk::Unbox(o, c)),
            JavaValue::Object(None) => if nullable {
                FetchStepModel::Done(Ok(v))
            } else {
                FetchStepModel::Done(
                    Err(
                        misuse(
                            "the future completed with null but a Java primitive value was expected (annotate with Option<T> to accept null)"@,
                        ),
                    ),
                )
            },
            _ => FetchStepModel::Done(Ok(v)),
        },
    }
}

/// What the value of a future leads to, where the caller asked for a value with the
/// return type `ret` and accepts null or does not.
pub fn unbox_for_annotation(ret: &str, nullable: bool, v: JavaValue) -> (s: FetchStep)
    ensures
        s@ == unboxed_for(ret@, nullable, v),
{
    match primitive_return_letter(ret) {
        None => FetchStep::Done(Ok(v)),
        Some(c) => match v {
            JavaValue::Object(Some(o)) => FetchStep::Ask(FetchAsk::Unbox(o, c)),
            JavaValue::Object(None) => if nullable {
                FetchStep::Done(Ok(v))
            } else {
                FetchStep::Done(
                    Err(
                        JavaError::InvalidArgument(
                            "the future completed with null but a Java primitive value was expected (annotate with Option<T> to accept null)",
                        ),
                    ),
                )
            },
            _ => FetchStep::Done(Ok(v)),
        },
    }
}

/// The error for a throwable, as far as its class name and message could be found out.
pub open spec fn throwable_error(
    class: Option<Seq<char>>,
    message: Option<Seq<char>>,
) -> ErrorModel {
    ErrorModel::JavaException {
        class: match class {
            Some(c) => c,
            None => "java.lang.Throwable"@,
        },
        message: match message {
            Some(m) => m,
            None => Seq::empty(),
        },
    }
}

/// The error for a throwable, as far as its class name and message could be found out.
pub fn throwable_info(class: Option<String>, message: Option<String>) -> (e: JavaError)
    ensures
        e@ == throwable_error(text_of(class), text_of(message)),
{
    let class = match class {
        Some(c) => c,
        None => "java.lang.Throwable".to_owned(),
    };
    let message = match message {
        Some(m) => m,
        None => {
            let m = String::new();
            assert(m@ =~= Seq::empty());
            m
        },
    };
    JavaError::JavaException { class, message }
}

/// What an answer leads to, for a caller that asked for a value with the return type
/// `ret` and accepts null or does not. An answer to another question leaves the question
/// open.
pub open spec fn fetch_next(
    ret: Seq<char>,
    nullable: bool,
    ask: FetchAsk,
    reply: FetchReplyModel,
) -> FetchStepModel {
    match (ask, reply) {
        (FetchAsk::Get, FetchReplyModel::Got(v)) => unboxed_for(ret, nullable, v),
        (FetchAsk::Get, FetchReplyModel::Threw(t)) => FetchStepModel::Ask(FetchAsk::Cause(t)),
        (FetchAsk::Get, FetchReplyModel::Failed(e)) => FetchStepModel::Done(Err(e)),
        (FetchAsk::Unbox(_, _), FetchReplyModel::Unboxed(r)) => FetchStepModel::Done(r),
        (FetchAsk::Cause(t), FetchReplyModel::Cause(Some(c))) => FetchStepModel::Ask(
            FetchAsk::Describe(c),
        ),
        (FetchAsk::Cause(t), FetchReplyModel::Cause(None)) => FetchStepModel::Ask(
            FetchAsk::Describe(t),
        ),
        (FetchAsk::Describe(_), FetchReplyModel::Described(class, message)) => FetchStepModel::Done(
            Err(throwable_error(class, message)),
        ),
        _ => FetchStepModel::Ask(ask),
    }
}

impl FetchAsk {
    /// Starts to take the result of a future.
    pub fn fetch_completion() -> (a: FetchAsk)
        ensures
            a == FetchAsk::Get,
    {
        FetchAsk::Get
    }

    /// What an answer leads to, for a caller that asked for a value with the return type
    /// `ret` and accepts null or does not.
    pub fn answered(self, ret: &str, nullable: bool, reply: FetchReply) -> (s: FetchStep)
        ensures
            s@ == fetch_next(ret@, nullable, self, reply@),
    {
        match (self, reply) {
            (FetchAsk::Get, FetchReply::Got(v)) => unbox_for_annotation(ret, nullable, v),
            (FetchAsk::Get, FetchReply::Threw(t)) => FetchStep::Ask(FetchAsk::Cause(t)),
            (FetchAsk::Get, FetchReply::Failed(e)) => FetchStep::Done(Err(e)),
            (FetchAsk::Unbox(_, _), FetchReply::Unboxed(r)) => FetchStep::Done(r),
            (FetchAsk::Cause(_), FetchReply::Cause(Some(c))) => FetchStep::Ask(
                FetchAsk::Describe(c),
            ),
            (FetchAsk::Cause(t), FetchReply::Cause(None)) => FetchStep::Ask(FetchAsk::Describe(t)),
            (FetchAsk::Describe(_), FetchReply::Described(class, message)) => FetchStep::Done(
                Err(throwable_info(class, message)),
            ),
            (ask, _) => FetchStep::Ask(ask),
        }
    }
}

/// A failed future is reported by the cause of its exception, and by the exception itself
/// where it has no cause. The cause of a cause is never asked for.
pub proof fn causes_are_unwrapped_once(
    ret: Seq<char>,
    nullable: bool,
    thrown: u64,
    cause: ObjectRef,
    class: Seq<char>,
    message: Seq<char>,
)
    ensures
        fetch_next(ret, nullable, FetchAsk::Get, FetchReplyModel::Threw(thrown))
            == FetchStepModel::Ask(FetchAsk::Cause(thrown)),
        fetch_next(ret, nullable, FetchAsk::Cause(thrown), FetchReplyModel::Cause(cause))
            == FetchStepModel::Ask(FetchAsk::Describe(reported(thrown, cause))),
        fetch_next(
            ret,
            nullable,
            FetchAsk::Describe(reported(thrown, cause)),
            FetchReplyModel::Described(Some(class), Some(message)),
        ) == FetchStepModel::Done(Err(ErrorModel::JavaException { class, message })),
{
}

/// The throwable that a failed future is reported by.
pub open spec fn reported(thrown: u64, cause: ObjectRef) -> u64 {
    match cause {
        Some(c) => c,
        None => thrown,
    }
}

/// How a Java future is completed with a converted value.
pub open spec fn completion(args: Seq<JavaArg>) -> Result<Boxing, ErrorModel> {
    if args.len() == 0 {
        Ok(Boxing::Keep(None))
    } else if args.len() == 1 {
        match args[0] {
            JavaArg::Object(o) => Ok(Boxing::Keep(o)),
            a => Ok(Boxing::Wrap(a)),
        }
    } else {
        Err(
            misuse(
                "async native method: the Rust async function returned more than one Java value"@,
            ),
        )
    }
}

/// How a Java future is completed with a converted value: nothing becomes null, and a
/// primitive goes into its wrapper.
pub fn complete_value(args: &Vec<JavaArg>) -> (r: Result<Boxing, JavaError>)
    ensures
        crate::error::outcome(r) == completion(args@),
{
    if args.len() == 0 {
        Ok(Boxing::Keep(None))
    } else if args.len() == 1 {
        match args[0] {
            JavaArg::Object(o) => Ok(Boxing::Keep(o)),
            a => Ok(Boxing::Wrap(a)),
        }
    } else {
        Err(
            JavaError::InvalidArgument(
                "async native method: the Rust async function returned more than one Java value",
            ),
        )
    }
}

/// A value that completes a future comes out of it: a wrapper that is asked for as the
/// primitive it holds is unboxed, and an object is handed on.
pub proof fn completed_values_are_fetched(a: JavaArg, held: u64, nullable: bool)
    ensures
        arg_letter(a) matches Some(c) ==> {
            &&& completion(seq![a]) == Ok::<Boxing, ErrorModel>(Boxing::Wrap(a))
            &&& unboxed_for(seq![c], nullable, JavaValue::Object(Some(held)))
                == FetchStepModel::Ask(FetchAsk::Unbox(held, c))
        },
        a matches JavaArg::Object(o) ==> completion(seq![a]) == Ok::<Boxing, ErrorModel>(
            Boxing::Keep(o),
        ) && unboxed_for("Ljava/lang/Object;"@, nullable, JavaValue::Object(o))
            == FetchStepModel::Done(Ok(JavaValue::Object(o))),
{
    reveal_strlit("Ljava/lang/Object;");
    assert("Ljava/lang/Object;"@.len() > 1);
}

/// A future that completes with null gives `None` to a caller that asked for an
/// `Option<T>`, whatever `T` is.
pub proof fn null_completions_are_none<T: FromJava>()
    ensures
        fetch_next(
            Option::<T>::return_type(),
            Option::<T>::nullable(),
            FetchAsk::Get,
            FetchReplyModel::Got(JavaValue::Object(None)),
        ) == FetchStepModel::Done(Ok(JavaValue::Object(None))),
        Option::<T>::received(bare(JavaValue::Object(None))) == Ok::<
            Option<T::Content>,
            ErrorModel,
        >(None),
{
}

/// A future that completes with null is an error to a caller that asked for a primitive.
pub proof fn null_completions_are_no_primitives<T: FromJava>()
    requires
        primitive_return(T::return_type()) is Some,
        !T::nullable(),
    ensures
        fetch_next(
            T::return_type(),
            T::nullable(),
            FetchAsk::Get,
            FetchReplyModel::Got(JavaValue::Object(None)),
        ) matches FetchStepModel::Done(Err(e)) && e is InvalidArgument,
{
}

/// The class, and the message, of the throwable for an error. A Java exception keeps its
/// own; any other error is a `RuntimeException` that carries its debug rendering.
pub open spec fn throwable_parts(e: ErrorModel, debug: Seq<char>) -> (Seq<char>, Seq<char>) {
    match e {
        ErrorModel::JavaException { class, message } => (class, message),
        _ => ("java.lang.RuntimeException"@, debug),
    }
}

/// The class name with slashes, and the message, of the throwable for an error. `debug`
/// is the error's debug rendering.
pub fn throwable_of(e: &JavaError, debug: String) -> (r: (String, String))
    ensures
        r.0@ == replaced(throwable_parts(e@, debug@).0, '.', '/'),
        r.1@ == throwable_parts(e@, debug@).1,
{
    match e {
        JavaError::JavaException { class, message } => (
            replace_char(class.as_str(), '.', '/'),
            message.as_str().to_owned(),
        ),
        _ => (replace_char("java.lang.RuntimeException", '.', '/'), debug),
    }
}

/// What has to be done next to make a throwable. The fallback class is
/// `java.lang.RuntimeException`.
#[derive(Clone, Copy, PartialEq, Eq, Structural, Debug)]
pub enum ThrowableAsk {
    /// Find the class.
    Find,
    /// Find the fallback class, because the class was not found.
    FindFallback,
    /// Construct an instance of that class, by its number, with the message.
    Construct(u64),
    /// Find the fallback class, because the construction failed.
    FindFallbackAgain,
    /// Construct an instance of the fallback class, by its number, with the message.
    ConstructFallback(u64),
}

/// What the number, or the failure, that came back leads to.
#[derive(Debug)]
pub enum ThrowableStep {
    Ask(ThrowableAsk),
    /// The throwable, by its number.
    Done(Result<u64, JavaError>),
}

/// The mathematical content of a [`ThrowableStep`].
pub enum ThrowableStepModel {
    Ask(ThrowableAsk),
    Done(Result<u64, ErrorModel>),
}

impl View for ThrowableStep {
    type V = ThrowableStepModel;

    open spec fn view(&self) -> ThrowableStepModel {
        match self {
            ThrowableStep::Ask(a) => ThrowableStepModel::Ask(*a),
            ThrowableStep::Done(Ok(t)) => ThrowableStepModel::Done(Ok(*t)),
            ThrowableStep::Done(Err(e)) => ThrowableStepModel::Done(Err(e@)),
        }
    }
}

/// What the number, or the failure, that came back leads to.
pub open spec fn throwable_next(
    ask: ThrowableAsk,
    r: Result<u64, ErrorModel>,
) -> ThrowableStepModel {
    match ask {
        ThrowableAsk::Find => match r {
            Ok(c) => ThrowableStepModel::Ask(ThrowableAsk::Construct(c)),
            Err(_) => ThrowableStepModel::Ask(ThrowableAsk::FindFallback),
        },
        ThrowableAsk::FindFallback => match r {
            Ok(c) => ThrowableStepModel::Ask(ThrowableAsk::Construct(c)),
            Err(e) => ThrowableStepModel::Done(Err(e)),
        },
        ThrowableAsk::Construct(_) => match r {
            Ok(t) => ThrowableStepModel::Done(Ok(t)),
            Err(_) => ThrowableStepModel::Ask(ThrowableAsk::FindFallbackAgain),
        },
        ThrowableAsk::FindFallbackAgain => match r {
            Ok(c) => ThrowableStepModel::Ask(ThrowableAsk::ConstructFallback(c)),
            Err(e) => ThrowableStepModel::Done(Err(e)),
        },
        ThrowableAsk::ConstructFallback(_) => ThrowableStepModel::Done(r),
    }
}

impl ThrowableAsk {
    /// Starts to make a throwable.
    pub fn build_throwable() -> (a: ThrowableAsk)
        ensures
            a == ThrowableAsk::Find,
    {
        ThrowableAsk::Find
    }

    /// What the number, or the failure, that came back leads to.
    pub fn answered(self, r: Result<u64, JavaError>) -> (s: ThrowableStep)
        ensures
            s@ == throwable_next(self, crate::error::outcome(r)),
    {
        match self {
            ThrowableAsk::Find => match r {
                Ok(c) => ThrowableStep::Ask(ThrowableAsk::Construct(c)),
                Err(_) => ThrowableStep::Ask(ThrowableAsk::FindFallback),
            },
            ThrowableAsk::FindFallback => match r {
                Ok(c) => ThrowableStep::Ask(ThrowableAsk::Construct(c)),
                Err(e) => ThrowableStep::Done(Err(e)),
            },
            ThrowableAsk::Construct(_) => match r {
                Ok(t) => ThrowableStep::Done(Ok(t)),
                Err(_) => ThrowableStep::Ask(ThrowableAsk::FindFallbackAgain),
            },
            ThrowableAsk::FindFallbackAgain => match r {
                Ok(c) => ThrowableStep::Ask(ThrowableAsk::ConstructFallback(c)),
                Err(e) => ThrowableStep::Done(Err(e)),
            },
            ThrowableAsk::ConstructFallback(_) => ThrowableStep::Done(r),
        }
    }
}

/// How far the making of a throwable has come. Every question is asked at most once.
pub open spec fn throwable_rank(a: ThrowableAsk) -> int {
    match a {
        ThrowableAsk::Find => 0,
        ThrowableAsk::FindFallback => 1,
        ThrowableAsk::Construct(_) => 2,
        ThrowableAsk::FindFallbackAgain => 3,
        ThrowableAsk::ConstructFallback(_) => 4,
    }
}

/// The making of a throwable goes forward, and ends; it fails only where the fallback
/// class is missing or cannot be constructed either.
pub proof fn throwables_are_made(ask: ThrowableAsk, r: Result<u64, ErrorModel>)
    ensures
        throwable_next(ask, r) matches ThrowableStepModel::Ask(b) ==> throwable_rank(b)
            > throwable_rank(ask),
        throwable_next(ask, r) matches ThrowableStepModel::Done(Err(_)) ==> r is Err && (ask
            == ThrowableAsk::FindFallback || ask == ThrowableAsk::FindFallbackAgain
            || ask is ConstructFallback),
{
}

/// What a panic carries.
#[derive(Debug)]
pub enum Payload {
    Literal(&'static str),
    Text(String),
    /// A payload that was caught and thrown again.
    Again(Box<Payload>),
    Other,
}

/// The text of a panic.
pub open spec fn panic_text(p: Payload) -> Seq<char>
    decreases p,
{
    match p {
        Payload::Literal(s) => s@,
        Payload::Text(s) => s@,
        Payload::Again(inner) => panic_text(*inner),
        Payload::Other => "unknown panic payload"@,
    }
}

/// The text of a panic.
pub fn panic_message(payload: &Payload) -> (s: String)
    ensures
        s@ == panic_text(*payload),
    decreases *payload,
{
    match payload {
        Payload::Literal(s) => {
            let t: &str = s;
            t.to_owned()
        },
        Payload::Text(s) => s.as_str().to_owned(),
        Payload::Again(inner) => panic_message(inner),
        Payload::Other => "unknown panic payload".to_owned(),
    }
}

/// How the Rust future of an asynchronous native method ended, without a result of its
/// own.
#[derive(Debug)]
pub enum Aborted {
    Panicked(Payload),
    Cancelled,
}

/// The error for a future that did not end by itself.
pub open spec fn aborted_error(a: Aborted) -> ErrorModel {
    ErrorModel::JavaException {
        class: "java.lang.RuntimeException"@,
        message: match a {
            Aborted::Panicked(p) => "async native method panicked: "@ + panic_text(p),
            Aborted::Cancelled => "async native method task was cancelled"@,
        },
    }
}

/// The error for a future that did not end by itself.
pub fn worker_error(a: &Aborted) -> (e: JavaError)
    ensures
        e@ == aborted_error(*a),
{
    let message = match a {
        Aborted::Panicked(p) => {
            let mut m = "async native method panicked: ".to_owned();
            m.push_str(panic_message(p).as_str());
            m
        },
        Aborted::Cancelled => "async native method task was cancelled".to_owned(),
    };
    JavaError::JavaException { class: "java.lang.RuntimeException".to_owned(), message }
}

/// The JNI signature of an asynchronous native method: whatever its value is, Java sees a
/// future.
pub open spec fn async_signature(args: Seq<char>) -> Seq<char> {
    "("@ + args + ")Ljava/util/concurrent/CompletableFuture;"@
}

/// The JNI signature of an asynchronous native method with those parameter fragments.
pub fn make_async_native(args: &str) -> (s: String)
    ensures
        s@ == async_signature(args@),
{
    let mut s = "(".to_owned();
    s.push_str(args);
    s.push_str(")Ljava/util/concurrent/CompletableFuture;");
    s
}

/// Where the Rust future of an asynchronous native method runs.
#[derive(Clone, Copy, PartialEq, Eq, Structural, Debug)]
pub enum Worker {
    /// As a task of the runtime that the caller is inside.
    Task,
    /// On a thread of its own.
    Thread,
}

/// What has to be done next for a call of an asynchronous native method.
#[derive(Clone, Copy, PartialEq, Eq, Structural, Debug)]
pub enum AsyncAsk {
    /// Convert the arguments.
    Convert,
    /// Get hold of the virtual machine.
    Attach,
    /// Create the Java future.
    Create,
    /// Start the worker, which completes that future.
    Start(Worker, u64),
}

/// An answer to an [`AsyncAsk`].
#[derive(Debug)]
pub enum AsyncReply {
    Converted(Result<(), JavaError>),
    Attached(Result<(), JavaError>),
    Created(Result<u64, JavaError>),
    /// Whether the worker was started.
    Started(bool),
}

/// What an answer leads to.
#[derive(Debug)]
pub enum AsyncStep {
    Ask(AsyncAsk),
    /// Throw this into Java, and return null.
    Throw(JavaError),
    /// Return the future.
    Return(u64),
    /// Complete the future with this failure, and return it.
    Fail(u64, JavaError),
}

/// The mathematical content of an [`AsyncReply`].
pub enum AsyncReplyModel {
    Converted(Result<(), ErrorModel>),
    Attached(Result<(), ErrorModel>),
    Created(Result<u64, ErrorModel>),
    Started(bool),
}

/// The mathematical content of an [`AsyncStep`].
pub enum AsyncStepModel {
    Ask(AsyncAsk),
    Throw(ErrorModel),
    Return(u64),
    Fail(u64, ErrorModel),
}

impl View for AsyncReply {
    type V = AsyncReplyModel;

    open spec fn view(&self) -> AsyncReplyModel {
        match self {
            AsyncReply::Converted(r) => AsyncReplyModel::Converted(crate::error::outcome(*r)),
            AsyncReply::Attached(r) => AsyncReplyModel::Attached(crate::error::outcome(*r)),
            AsyncReply::Created(r) => AsyncReplyModel::Created(crate::error::outcome(*r)),
            AsyncReply::Started(b) => AsyncReplyModel::Started(*b),
        }
    }
}

impl View for AsyncStep {
    type V = AsyncStepModel;

    open spec fn view(&self) -> AsyncStepModel {
        match self {
            AsyncStep::Ask(a) => AsyncStepModel::Ask(*a),
            AsyncStep::Throw(e) => AsyncStepModel::Throw(e@),
            AsyncStep::Return(f) => AsyncStepModel::Return(*f),
            AsyncStep::Fail(f, e) => AsyncStepModel::Fail(*f, e@),
        }
    }
}

/// The message where a native method is called with another number of arguments.
pub const WRONG_ARITY: &'static str = "async native method: the Rust async function takes a different number of arguments than its JNI signature declares (arity mismatch)";

/// The first step: the number of arguments has to be right.
pub open spec fn async_start(arity: int, given: int) -> AsyncStepModel {
    if arity != given {
        AsyncStepModel::Throw(misuse(WRONG_ARITY@))
    } else {
        AsyncStepModel::Ask(AsyncAsk::Convert)
    }
}

/// What an answer leads to. `inside_runtime` says whether the caller is inside a runtime
/// that can run the future. An answer to another question leaves the question open.
pub open spec fn async_next(
    ask: AsyncAsk,
    reply: AsyncReplyModel,
    inside_runtime: bool,
) -> AsyncStepModel {
    match (ask, reply) {
        (AsyncAsk::Convert, AsyncReplyModel::Converted(r)) => match r {
            Ok(()) => AsyncStepModel::Ask(AsyncAsk::Attach),
            Err(e) => AsyncStepModel::Throw(e),
        },
        (AsyncAsk::Attach, AsyncReplyModel::Attached(r)) => match r {
            Ok(()) => AsyncStepModel::Ask(AsyncAsk::Create),
            Err(e) => AsyncStepModel::Throw(e),
        },
        (AsyncAsk::Create, AsyncReplyModel::Created(r)) => match r {
            Ok(f) => AsyncStepModel::Ask(
                AsyncAsk::Start(
                    if inside_runtime {
                        Worker::Task
                    } else {
                        Worker::Thread
                    },
                    f,
                ),
            ),
            Err(e) => AsyncStepModel::Throw(e),
        },
        (AsyncAsk::Start(_, f), AsyncReplyModel::Started(started)) => if started {
            AsyncStepModel::Return(f)
        } else {
            AsyncStepModel::Fail(
                f,
                misuse("failed to spawn the async native worker thread"@),
            )
        },
        _ => AsyncStepModel::Ask(ask),
    }
}

impl AsyncAsk {
    /// Starts a call of an asynchronous native method that takes `arity` arguments and is
    /// given `given`.
    pub fn call(arity: usize, given: usize) -> (s: AsyncStep)
        ensures
            s@ == async_start(arity as int, given as int),
    {
        if arity != given {
            AsyncStep::Throw(JavaError::InvalidArgument(WRONG_ARITY))
        } else {
            AsyncStep::Ask(AsyncAsk::Convert)
        }
    }

    /// What an answer leads to.
    pub fn answered(self, reply: AsyncReply, inside_runtime: bool) -> (s: AsyncStep)
        ensures
            s@ == async_next(self, reply@, inside_runtime),
    {
        match (self, reply) {
            (AsyncAsk::Convert, AsyncReply::Converted(r)) => match r {
                Ok(()) => AsyncStep::Ask(AsyncAsk::Attach),
                Err(e) => AsyncStep::Throw(e),
            },
            (AsyncAsk::Attach, AsyncReply::Attached(r)) => match r {
                Ok(()) => AsyncStep::Ask(AsyncAsk::Create),
                Err(e) => AsyncStep::Throw(e),
            },
            (AsyncAsk::Create, AsyncReply::Created(r)) => match r {
                Ok(f) => AsyncStep::Ask(
                    AsyncAsk::Start(
                        if inside_runtime {
                            Worker::Task
                        } else {
                            Worker::Thread
                        },
                        f,
                    ),
                ),
                Err(e) => AsyncStep::Throw(e),
            },
            (AsyncAsk::Start(_, f), AsyncReply::Started(started)) => if started {
                AsyncStep::Return(f)
            } else {
                AsyncStep::Fail(
                    f,
                    JavaError::InvalidArgument("failed to spawn the async native worker thread"),
                )
            },
            (ask, _) => AsyncStep::Ask(ask),
        }
    }
}

/// Once there is a Java future, nothing is thrown any more: the future is returned, and a
/// worker that could not be started completes it with a failure.
pub proof fn created_futures_are_returned(w: Worker, f: u64, reply: AsyncReplyModel, inside: bool)
    ensures
        match async_next(AsyncAsk::Start(w, f), reply, inside) {
            AsyncStepModel::Ask(a) => a == AsyncAsk::Start(w, f),
            AsyncStepModel::Throw(_) => false,
            AsyncStepModel::Return(g) => g == f && reply == AsyncReplyModel::Started(true),
            AsyncStepModel::Fail(g, _) => g == f && reply == AsyncReplyModel::Started(false),
        },
{
}

/// No worker is started for a call with the wrong number of arguments, or before the
/// arguments are converted and the future is there.
pub proof fn workers_start_last(ask: AsyncAsk, reply: AsyncReplyModel, inside: bool, f: u64)
    requires
        !(ask is Start),
        async_next(ask, reply, inside) matches AsyncStepModel::Ask(AsyncAsk::Start(_, g)) && g == f,
    ensures
        ask == AsyncAsk::Create,
        reply == AsyncReplyModel::Created(Ok(f)),
{
}

/// For every return type that is not one of the eight primitive letters, a future that
/// completed with a value ends with exactly that value, null included.
pub proof fn completed_values_are_handed_on(
    ret: Seq<char>,
    nullable: bool,
    v: JavaValue,
)
    requires
        !(ret.len() == 1 && (ret[0] == 'Z' || ret[0] == 'B' || ret[0] == 'C' || ret[0] == 'S'
            || ret[0] == 'I' || ret[0] == 'J' || ret[0] == 'F' || ret[0] == 'D')),
    ensures
        fetch_next(ret, nullable, FetchAsk::Get, FetchReplyModel::Got(v)) == FetchStepModel::Done(
            Ok(v),
        ),
{
}

/// For a primitive return type, a wrapper is unboxed as that primitive, and what was read
/// is the value; a value that is no object is handed on, and null only to a caller that
/// accepts it.
pub proof fn completed_primitives_are_unboxed(
    c: char,
    nullable: bool,
    o: u64,
    v: JavaValue,
    r: Result<JavaValue, ErrorModel>,
    asked: char,
)
    requires
        c == 'Z' || c == 'B' || c == 'C' || c == 'S' || c == 'I' || c == 'J' || c == 'F' || c == 'D',
    ensures
        fetch_next(
            seq![c],
            nullable,
            FetchAsk::Get,
            FetchReplyModel::Got(JavaValue::Object(Some(o))),
        ) == FetchStepModel::Ask(FetchAsk::Unbox(o, c)),
        fetch_next(seq![c], nullable, FetchAsk::Unbox(o, asked), FetchReplyModel::Unboxed(r))
            == FetchStepModel::Done(r),
        !(v is Object) ==> fetch_next(seq![c], nullable, FetchAsk::Get, FetchReplyModel::Got(v))
            == FetchStepModel::Done(Ok(v)),
        fetch_next(
            seq![c],
            true,
            FetchAsk::Get,
            FetchReplyModel::Got(JavaValue::Object(None)),
        ) == FetchStepModel::Done(Ok(JavaValue::Object(None))),
        fetch_next(
            seq![c],
            false,
            FetchAsk::Get,
            FetchReplyModel::Got(JavaValue::Object(None)),
        ) matches FetchStepModel::Done(Err(ErrorModel::InvalidArgument(_))),
{
}

/// A failure to wait for a future is what its caller gets, and an exception is reported by
/// its class and message, as far as they are known.
pub proof fn failed_futures_report_their_failure(
    ret: Seq<char>,
    nullable: bool,
    e: ErrorModel,
    t: u64,
    class: Option<Seq<char>>,
    message: Option<Seq<char>>,
)
    ensures
        fetch_next(ret, nullable, FetchAsk::Get, FetchReplyModel::Failed(e)) == FetchStepModel::Done(
            Err(e),
        ),
        fetch_next(
            ret,
            nullable,
            FetchAsk::Describe(t),
            FetchReplyModel::Described(class, message),
        ) matches FetchStepModel::Done(Err(ErrorModel::JavaException { class: k, message: s })) && k
            == (if class is Some {
            class->0
        } else {
            "java.lang.Throwable"@
        }) && s == (if message is Some {
            message->0
        } else {
            Seq::empty()
        }),
        fetch_next(ret, nullable, FetchAsk::Get, FetchReplyModel::Threw(t)) == FetchStepModel::Ask(
            FetchAsk::Cause(t),
        ),
        forall|c: u64| #[trigger]
            fetch_next(ret, nullable, FetchAsk::Cause(t), FetchReplyModel::Cause(Some(c)))
                == FetchStepModel::Ask(FetchAsk::Describe(c)),
        fetch_next(ret, nullable, FetchAsk::Cause(t), FetchReplyModel::Cause(None))
            == FetchStepModel::Ask(FetchAsk::Describe(t)),
{
}

/// The steps and answers of a future show what is in them.
pub proof fn fetch_steps_are_what_they_show(
    s: FetchStep,
    v: JavaValue,
    a: FetchAsk,
    e: JavaError,
    t: u64,
    class: String,
    message: String,
)
    ensures
        s@ == FetchStepModel::Done(Ok(v)) <==> s == FetchStep::Done(Ok(v)),
        s@ == FetchStepModel::Ask(a) <==> s == FetchStep::Ask(a),
        s@ == FetchStepModel::Done(Err(e@)) ==> (s matches FetchStep::Done(Err(f)) && f@ == e@),
        FetchReply::Got(v)@ == FetchReplyModel::Got(v),
        FetchReply::Threw(t)@ == FetchReplyModel::Threw(t),
        FetchReply::Failed(e)@ == FetchReplyModel::Failed(e@),
        FetchReply::Unboxed(Ok(v))@ == FetchReplyModel::Unboxed(Ok(v)),
        FetchReply::Unboxed(Err(e))@ == FetchReplyModel::Unboxed(Err(e@)),
        FetchReply::Cause(Some(t))@ == FetchReplyModel::Cause(Some(t)),
        FetchReply::Cause(None)@ == FetchReplyModel::Cause(None),
        FetchReply::Described(Some(class), Some(message))@ == FetchReplyModel::Described(
            Some(class@),
            Some(message@),
        ),
        FetchReply::Described(None, None)@ == FetchReplyModel::Described(None, None),
{
}

/// A Java future is completed with the object that the value is, with the wrapper that
/// holds the primitive, or with null where there is no value; several values are refused.
pub proof fn futures_complete_with_their_value(o: ObjectRef, a: JavaArg, args: Seq<JavaArg>)
    ensures
        args.len() == 0 ==> completion(args) == Ok::<Boxing, ErrorModel>(Boxing::Keep(None)),
        completion(seq![JavaArg::Object(o)]) == Ok::<Boxing, ErrorModel>(Boxing::Keep(o)),
        !(a is Object) ==> completion(seq![a]) == Ok::<Boxing, ErrorModel>(Boxing::Wrap(a)),
        args.len() > 1 ==> completion(args) is Err,
{
}

/// The throwable for an error: a Java exception keeps its class and its message, and any
/// other error is shown by a `RuntimeException`.
pub proof fn throwables_show_their_error(
    e: ErrorModel,
    class: Seq<char>,
    message: Seq<char>,
    debug: Seq<char>,
)
    ensures
        throwable_parts(ErrorModel::JavaException { class, message }, debug) == (class, message),
        !(e is JavaException) ==> throwable_parts(e, debug) == (
            "java.lang.RuntimeException"@,
            debug,
        ),
{
}

/// A throwable is made of the class that was found, or of the fallback class where it was
/// not found or could not be constructed; what was constructed is the throwable, and the
/// failure of the fallback is the failure.
pub proof fn throwables_fall_back_once(c: u64, d: u64, t: u64, e: ErrorModel, f: ErrorModel)
    ensures
        throwable_next(ThrowableAsk::Find, Ok(c)) == ThrowableStepModel::Ask(
            ThrowableAsk::Construct(c),
        ),
        throwable_next(ThrowableAsk::Find, Err(e)) == ThrowableStepModel::Ask(
            ThrowableAsk::FindFallback,
        ),
        throwable_next(ThrowableAsk::FindFallback, Ok(d)) == ThrowableStepModel::Ask(
            ThrowableAsk::Construct(d),
        ),
        throwable_next(ThrowableAsk::FindFallback, Err(f)) == ThrowableStepModel::Done(Err(f)),
        throwable_next(ThrowableAsk::Construct(c), Ok(t)) == ThrowableStepModel::Done(Ok(t)),
        throwable_next(ThrowableAsk::Construct(c), Err(e)) == ThrowableStepModel::Ask(
            ThrowableAsk::FindFallbackAgain,
        ),
        throwable_next(ThrowableAsk::FindFallbackAgain, Ok(d)) == ThrowableStepModel::Ask(
            ThrowableAsk::ConstructFallback(d),
        ),
        throwable_next(ThrowableAsk::FindFallbackAgain, Err(f)) == ThrowableStepModel::Done(Err(f)),
        throwable_next(ThrowableAsk::ConstructFallback(d), Ok(t)) == ThrowableStepModel::Done(
            Ok(t),
        ),
        throwable_next(ThrowableAsk::ConstructFallback(d), Err(f)) == ThrowableStepModel::Done(
            Err(f),
        ),
{
}

/// A worker that panicked is reported with the text of its panic, however often the panic
/// was caught and thrown again; one that was cancelled is reported as such.
pub proof fn panics_keep_their_text(s: &'static str, t: String, p: Payload)
    ensures
        panic_text(Payload::Literal(s)) == s@,
        panic_text(Payload::Text(t)) == t@,
        panic_text(Payload::Again(Box::new(p))) == panic_text(p),
        aborted_error(Aborted::Panicked(p)) == (ErrorModel::JavaException {
            class: "java.lang.RuntimeException"@,
            message: "async native method panicked: "@ + panic_text(p),
        }),
        aborted_error(Aborted::Cancelled) == (ErrorModel::JavaException {
            class: "java.lang.RuntimeException"@,
            message: "async native method task was cancelled"@,
        }),
{
}

/// The signature of an asynchronous native method: its parameters between parentheses, and
/// a future behind them.
pub proof fn async_methods_return_futures(args: Seq<char>)
    ensures
        ({
            let s = async_signature(args);
            let future = "Ljava/util/concurrent/CompletableFuture;"@;
            &&& s.len() == args.len() + 2 + future.len()
            &&& s[0] == '('
            &&& s.subrange(1, args.len() as int + 1) == args
            &&& s[args.len() as int + 1] == ')'
            &&& s.skip(args.len() as int + 2) == future
        }),
{
    reveal_strlit("(");
    reveal_strlit(")Ljava/util/concurrent/CompletableFuture;");
    reveal_strlit("Ljava/util/concurrent/CompletableFuture;");
    let s = async_signature(args);
    assert(s.subrange(1, args.len() as int + 1) =~= args);
    assert(s.skip(args.len() as int + 2) =~= "Ljava/util/concurrent/CompletableFuture;"@);
}

/// A call of an asynchronous native method, from end to end: with the right number of
/// arguments they are converted, the machine is attached and the future is created, in that
/// order; the worker runs as a task inside a runtime and on a thread outside; the future is
/// what is returned; and the first failure before there is a future is thrown.
pub proof fn async_calls_go_from_end_to_end(
    arity: int,
    given: int,
    f: u64,
    e: ErrorModel,
    inside: bool,
    w: Worker,
)
    ensures
        arity == given ==> async_start(arity, given) == AsyncStepModel::Ask(AsyncAsk::Convert),
        arity != given ==> (async_start(arity, given) matches AsyncStepModel::Throw(x) && x
            is InvalidArgument),
        async_next(AsyncAsk::Convert, AsyncReplyModel::Converted(Ok(())), inside)
            == AsyncStepModel::Ask(AsyncAsk::Attach),
        async_next(AsyncAsk::Convert, AsyncReplyModel::Converted(Err(e)), inside)
            == AsyncStepModel::Throw(e),
        async_next(AsyncAsk::Attach, AsyncReplyModel::Attached(Ok(())), inside)
            == AsyncStepModel::Ask(AsyncAsk::Create),
        async_next(AsyncAsk::Attach, AsyncReplyModel::Attached(Err(e)), inside)
            == AsyncStepModel::Throw(e),
        async_next(AsyncAsk::Create, AsyncReplyModel::Created(Ok(f)), true) == AsyncStepModel::Ask(
            AsyncAsk::Start(Worker::Task, f),
        ),
        async_next(AsyncAsk::Create, AsyncReplyModel::Created(Ok(f)), false) == AsyncStepModel::Ask(
            AsyncAsk::Start(Worker::Thread, f),
        ),
        async_next(AsyncAsk::Create, AsyncReplyModel::Created(Err(e)), inside)
            == AsyncStepModel::Throw(e),
        async_next(AsyncAsk::Start(w, f), AsyncReplyModel::Started(true), inside)
            == AsyncStepModel::Return(f),
        async_next(AsyncAsk::Start(w, f), AsyncReplyModel::Started(false), inside)
            matches AsyncStepModel::Fail(g, _) && g == f,
{
}

}
