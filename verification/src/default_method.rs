use vstd::prelude::*;

use crate::error::{misuse, ErrorModel, JavaError, JniError, JniErrorModel};
use crate::text::same;
use crate::value::{JavaValue, ObjectRef};

verus! {

/// What has to be found out next to run a default method of an interface. Objects are
/// given by the numbers under which they are held.
#[derive(Clone, Copy, PartialEq, Eq, Structural, Debug)]
pub enum DefaultAsk {
    /// Look up `InvocationHandler.invokeDefault`.
    Locate,
    /// Invoke that method for the proxy, the method and the arguments.
    Invoke(ObjectRef),
    /// Is this throwable an `InvocationTargetException`?
    Wraps(u64),
    /// What is the cause of this throwable?
    Cause(u64),
    /// What are the class name and the message of this throwable?
    Describe(u64),
}

/// How the invocation went.
#[derive(Debug)]
pub enum Invoked {
    Returned(JavaValue),
    /// An exception is pending after it; the throwable could be had or not.
    Threw(Option<u64>),
    /// It failed without an exception.
    Failed(JniError),
}

/// An answer to a [`DefaultAsk`].
#[derive(Debug)]
pub enum DefaultReply {
    Located(Result<JavaValue, JavaError>),
    Invoked(Invoked),
    Wraps(Result<bool, JavaError>),
    Cause(Result<JavaValue, JavaError>),
    /// The class name, and the message where there is one.
    Described(Result<(String, Option<String>), JavaError>),
}

/// What an answer leads to.
#[derive(Debug)]
pub enum DefaultStep {
    Ask(DefaultAsk),
    /// What the default method returned, or `None` where the virtual machine cannot run
    /// default methods for a proxy.
    Done(Result<Option<ObjectRef>, JavaError>),
}

/// The mathematical content of an [`Invoked`].
pub enum InvokedModel {
    Returned(JavaValue),
    Threw(Option<u64>),
    Failed(JniErrorModel),
}

/// The mathematical content of a [`DefaultReply`].
pub enum DefaultReplyModel {
    Located(Result<JavaValue, ErrorModel>),
    Invoked(InvokedModel),
    Wraps(Result<bool, ErrorModel>),
    Cause(Result<JavaValue, ErrorModel>),
    Described(Result<(Seq<char>, Option<Seq<char>>), ErrorModel>),
}

/// The mathematical content of a [`DefaultStep`].
pub enum DefaultStepModel {
    Ask(DefaultAsk),
    Done(Result<Option<ObjectRef>, ErrorModel>),
}

impl View for Invoked {
    type V = InvokedModel;

    open spec fn view(&self) -> InvokedModel {
        match self {
            Invoked::Returned(v) => InvokedModel::Returned(*v),
            Invoked::Threw(t) => InvokedModel::Threw(*t),
            Invoked::Failed(e) => InvokedModel::Failed(
                JniErrorModel { kind: e.kind, text: e.text@ },
            ),
        }
    }
}

impl View for DefaultReply {
    type V = DefaultReplyModel;

    open spec fn view(&self) -> DefaultReplyModel {
        match self {
            DefaultReply::Located(Ok(v)) => DefaultReplyModel::Located(Ok(*v)),
            DefaultReply::Located(Err(e)) => DefaultReplyModel::Located(Err(e@)),
            DefaultReply::Invoked(i) => DefaultReplyModel::Invoked(i@),
            DefaultReply::Wraps(Ok(b)) => DefaultReplyModel::Wraps(Ok(*b)),
            DefaultReply::Wraps(Err(e)) => DefaultReplyModel::Wraps(Err(e@)),
            DefaultReply::Cause(Ok(v)) => DefaultReplyModel::Cause(Ok(*v)),
            DefaultReply::Cause(Err(e)) => DefaultReplyModel::Cause(Err(e@)),
            DefaultReply::Described(Ok((class, Some(m)))) => DefaultReplyModel::Described(
                Ok((class@, Some(m@))),
            ),
            DefaultReply::Described(Ok((class, None))) => DefaultReplyModel::Described(
                Ok((class@, None)),
            ),
            DefaultReply::Described(Err(e)) => DefaultReplyModel::Described(Err(e@)),
        }
    }
}

impl View for DefaultStep {
    type V = DefaultStepModel;

    open spec fn view(&self) -> DefaultStepModel {
        match self {
            DefaultStep::Ask(a) => DefaultStepModel::Ask(*a),
            DefaultStep::Done(Ok(v)) => DefaultStepModel::Done(Ok(*v)),
            DefaultStep::Done(Err(e)) => DefaultStepModel::Done(Err(e@)),
        }
    }
}

/// The end, with a failure.
pub open spec fn default_failed(e: ErrorModel) -> DefaultStepModel {
    DefaultStepModel::Done(Err(e))
}

/// The failure to look up `invokeDefault`: an exception keeps its class, and its message
/// says what was looked for.
pub open spec fn locate_error(e: ErrorModel) -> ErrorModel {
    match e {
        ErrorModel::JavaException { class, message } => ErrorModel::JavaException {
            class,
            message: if message.len() == 0 {
                "rjava::interface: cannot locate InvocationHandler.invokeDefault ("@ + class + ")"@
            } else {
                "rjava::interface: cannot locate InvocationHandler.invokeDefault: "@ + message
            },
        },
        _ => e,
    }
}

/// The error for a throwable of that class and message.
pub open spec fn thrown_error(
    r: Result<(Seq<char>, Option<Seq<char>>), ErrorModel>,
) -> ErrorModel {
    match r {
        Ok((class, Some(message))) => ErrorModel::JavaException { class, message },
        Ok((class, None)) => ErrorModel::JavaException { class, message: Seq::empty() },
        Err(e) => e,
    }
}

/// Whether an error says that the virtual machine is too old to have `invokeDefault`.
pub open spec fn too_old(e: ErrorModel) -> bool {
    e matches ErrorModel::JavaException { class, .. } && class
        == "java.lang.NoSuchMethodException"@
}

/// What an answer leads to. An answer to another question leaves the question open.
pub open spec fn default_next(ask: DefaultAsk, reply: DefaultReplyModel) -> DefaultStepModel {
    match (ask, reply) {
        (DefaultAsk::Locate, DefaultReplyModel::Located(r)) => match r {
            Ok(JavaValue::Object(m)) => DefaultStepModel::Ask(DefaultAsk::Invoke(m)),
            Ok(_) => default_failed(
                misuse("rjava::interface: Class.getMethod did not return a Method"@),
            ),
            Err(e) => if too_old(e) {
                DefaultStepModel::Done(Ok(None))
            } else {
                default_failed(locate_error(e))
            },
        },
        (DefaultAsk::Invoke(_), DefaultReplyModel::Invoked(r)) => match r {
            InvokedModel::Returned(JavaValue::Object(o)) => DefaultStepModel::Done(Ok(Some(o))),
            InvokedModel::Returned(JavaValue::Void) => DefaultStepModel::Done(Ok(Some(None))),
            InvokedModel::Returned(_) => default_failed(
                misuse("rjava::interface: invokeDefault returned a non-object value"@),
            ),
            InvokedModel::Threw(Some(t)) => DefaultStepModel::Ask(DefaultAsk::Wraps(t)),
            InvokedModel::Threw(None) => default_failed(
                misuse(
                    "rjava::interface: reflective invokeDefault failed with no pending exception"@,
                ),
            ),
            InvokedModel::Failed(e) => default_failed(ErrorModel::Jni(e)),
        },
        (DefaultAsk::Wraps(t), DefaultReplyModel::Wraps(r)) => match r {
            Ok(true) => DefaultStepModel::Ask(DefaultAsk::Cause(t)),
            Ok(false) => DefaultStepModel::Ask(DefaultAsk::Describe(t)),
            Err(e) => default_failed(e),
        },
        (DefaultAsk::Cause(t), DefaultReplyModel::Cause(r)) => match r {
            Ok(JavaValue::Object(Some(c))) => DefaultStepModel::Ask(DefaultAsk::Describe(c)),
            Ok(_) => DefaultStepModel::Ask(DefaultAsk::Describe(t)),
            Err(e) => default_failed(e),
        },
        (DefaultAsk::Describe(_), DefaultReplyModel::Described(r)) => default_failed(
            thrown_error(r),
        ),
        _ => DefaultStepModel::Ask(ask),
    }
}

fn cannot_locate(e: JavaError) -> (r: JavaError)
    ensures
        r@ == locate_error(e@),
{
    match e {
        JavaError::JavaException { class, message } => {
            if message.as_str().is_empty() {
                let mut m =
                    "rjava::interface: cannot locate InvocationHandler.invokeDefault (".to_owned();
                m.push_str(class.as_str());
                m.push_str(")");
                JavaError::JavaException { class, message: m }
            } else {
                let mut m =
                    "rjava::interface: cannot locate InvocationHandler.invokeDefault: ".to_owned();
                m.push_str(message.as_str());
                JavaError::JavaException { class, message: m }
            }
        },
        other => other,
    }
}

fn is_too_old(e: &JavaError) -> (r: bool)
    ensures
        r == too_old(e@),
{
    match e {
        JavaError::JavaException { class, .. } => same(
            class.as_str(),
            "java.lang.NoSuchMethodException",
        ),
        _ => false,
    }
}

fn described(r: Result<(String, Option<String>), JavaError>) -> (e: JavaError)
    ensures
        DefaultReply::Described(r)@ matches DefaultReplyModel::Described(m) && e@ == thrown_error(
            m,
        ),
{
    match r {
        Ok((class, message)) => {
            let message = match message {
                Some(m) => m,
                None => {
                    let m = String::new();
                    assert(m@ =~= Seq::empty());
                    m
                },
            };
            JavaError::JavaException { class, message }
        },
        Err(e) => e,
    }
}

impl DefaultAsk {
    /// Starts to run a default method.
    pub fn invoke_default() -> (a: DefaultAsk)
        ensures
            a == DefaultAsk::Locate,
    {
        DefaultAsk::Locate
    }

    /// What an answer leads to.
    pub fn answered(self, reply: DefaultReply) -> (s: DefaultStep)
        ensures
            s@ == default_next(self, reply@),
    {
        match (self, reply) {
            (DefaultAsk::Locate, DefaultReply::Located(r)) => match r {
                Ok(JavaValue::Object(m)) => DefaultStep::Ask(DefaultAsk::Invoke(m)),
                Ok(_) => DefaultStep::Done(
                    Err(
                        JavaError::InvalidArgument(
                            "rjava::interface: Class.getMethod did not return a Method",
                        ),
                    ),
                ),
                Err(e) => if is_too_old(&e) {
                    DefaultStep::Done(Ok(None))
                } else {
                    DefaultStep::Done(Err(cannot_locate(e)))
                },
            },
            (DefaultAsk::Invoke(_), DefaultReply::Invoked(r)) => match r {
                Invoked::Returned(JavaValue::Object(o)) => DefaultStep::Done(Ok(Some(o))),
                Invoked::Returned(JavaValue::Void) => DefaultStep::Done(Ok(Some(None))),
                Invoked::Returned(_) => DefaultStep::Done(
                    Err(
                        JavaError::InvalidArgument(
                            "rjava::interface: invokeDefault returned a non-object value",
                        ),
                    ),
                ),
                Invoked::Threw(Some(t)) => DefaultStep::Ask(DefaultAsk::Wraps(t)),
                Invoked::Threw(None) => DefaultStep::Done(
                    Err(
                        JavaError::InvalidArgument(
                            "rjava::interface: reflective invokeDefault failed with no pending exception",
                        ),
                    ),
                ),
                Invoked::Failed(e) => DefaultStep::Done(Err(JavaError::Jni(e))),
            },
            (DefaultAsk::Wraps(t), DefaultReply::Wraps(r)) => match r {
                Ok(true) => DefaultStep::Ask(DefaultAsk::Cause(t)),
                Ok(false) => DefaultStep::Ask(DefaultAsk::Describe(t)),
                Err(e) => DefaultStep::Done(Err(e)),
            },
            (DefaultAsk::Cause(t), DefaultReply::Cause(r)) => match r {
                Ok(JavaValue::Object(Some(c))) => DefaultStep::Ask(DefaultAsk::Describe(c)),
                Ok(_) => DefaultStep::Ask(DefaultAsk::Describe(t)),
                Err(e) => DefaultStep::Done(Err(e)),
            },
            (DefaultAsk::Describe(_), DefaultReply::Described(r)) => DefaultStep::Done(
                Err(described(r)),
            ),
            (ask, _) => DefaultStep::Ask(ask),
        }
    }
}

/// The virtual machine that a default method runs in: its answers.
pub struct DefaultWorld {
    pub located: Result<JavaValue, ErrorModel>,
    pub invoked: spec_fn(ObjectRef) -> InvokedModel,
    pub wraps: spec_fn(u64) -> Result<bool, ErrorModel>,
    pub cause: spec_fn(u64) -> Result<JavaValue, ErrorModel>,
    pub described: spec_fn(u64) -> Result<(Seq<char>, Option<Seq<char>>), ErrorModel>,
}

/// The answer to a question.
pub open spec fn default_reply(w: DefaultWorld, ask: DefaultAsk) -> DefaultReplyModel {
    match ask {
        DefaultAsk::Locate => DefaultReplyModel::Located(w.located),
        DefaultAsk::Invoke(m) => DefaultReplyModel::Invoked((w.invoked)(m)),
        DefaultAsk::Wraps(t) => DefaultReplyModel::Wraps((w.wraps)(t)),
        DefaultAsk::Cause(t) => DefaultReplyModel::Cause((w.cause)(t)),
        DefaultAsk::Describe(t) => DefaultReplyModel::Described((w.described)(t)),
    }
}

/// The result after at most that many questions.
pub open spec fn default_result(w: DefaultWorld, s: DefaultStepModel, fuel: nat) -> Option<
    Result<Option<ObjectRef>, ErrorModel>,
>
    decreases fuel,
{
    match s {
        DefaultStepModel::Done(r) => Some(r),
        DefaultStepModel::Ask(a) => if fuel == 0 {
            None
        } else {
            default_result(w, default_next(a, default_reply(w, a)), (fuel - 1) as nat)
        },
    }
}

/// A default method is run, or given up, with at most five questions.
pub proof fn default_methods_end(w: DefaultWorld)
    ensures
        default_result(w, DefaultStepModel::Ask(DefaultAsk::Locate), 5) is Some,
{
    reveal_with_fuel(default_result, 6);
}

/// What a default method returns is what the caller gets.
pub proof fn default_results_are_returned(w: DefaultWorld, m: ObjectRef, o: ObjectRef)
    requires
        w.located == Ok::<JavaValue, ErrorModel>(JavaValue::Object(m)),
        (w.invoked)(m) == InvokedModel::Returned(JavaValue::Object(o)),
    ensures
        default_result(w, DefaultStepModel::Ask(DefaultAsk::Locate), 5) == Some(
            Ok::<Option<ObjectRef>, ErrorModel>(Some(o)),
        ),
{
    reveal_with_fuel(default_result, 6);
}

/// An exception that a default method throws reaches the caller as itself, not as the
/// exception that reflection wraps it in.
pub proof fn default_exceptions_are_unwrapped(
    w: DefaultWorld,
    m: ObjectRef,
    thrown: u64,
    cause: u64,
    class: Seq<char>,
    message: Seq<char>,
)
    requires
        w.located == Ok::<JavaValue, ErrorModel>(JavaValue::Object(m)),
        (w.invoked)(m) == InvokedModel::Threw(Some(thrown)),
        (w.wraps)(thrown) == Ok::<bool, ErrorModel>(true),
        (w.cause)(thrown) == Ok::<JavaValue, ErrorModel>(JavaValue::Object(Some(cause))),
        (w.described)(cause) == Ok::<(Seq<char>, Option<Seq<char>>), ErrorModel>(
            (class, Some(message)),
        ),
    ensures
        default_result(w, DefaultStepModel::Ask(DefaultAsk::Locate), 5) == Some(
            Err::<Option<ObjectRef>, ErrorModel>(ErrorModel::JavaException { class, message }),
        ),
{
    reveal_with_fuel(default_result, 6);
}

/// Only a virtual machine that has no `invokeDefault` leaves a default method to the
/// handler.
pub proof fn handlers_stand_in_for_old_machines(w: DefaultWorld)
    ensures
        default_result(w, DefaultStepModel::Ask(DefaultAsk::Locate), 5) == Some(
            Ok::<Option<ObjectRef>, ErrorModel>(None),
        ) <==> w.located is Err && too_old(w.located->Err_0),
{
    reveal_with_fuel(default_result, 6);
}

/// What a default method threw reaches its caller with its own class and message: the cause
/// where reflection wrapped it, and the exception itself where it did not or there is no
/// cause.
pub proof fn default_exceptions_keep_class_and_message(
    w: DefaultWorld,
    m: ObjectRef,
    thrown: u64,
    wrapped: bool,
    cause: ObjectRef,
    class: Seq<char>,
    message: Option<Seq<char>>,
)
    requires
        w.located == Ok::<JavaValue, ErrorModel>(JavaValue::Object(m)),
        (w.invoked)(m) == InvokedModel::Threw(Some(thrown)),
        (w.wraps)(thrown) == Ok::<bool, ErrorModel>(wrapped),
        (w.cause)(thrown) == Ok::<JavaValue, ErrorModel>(JavaValue::Object(cause)),
        (w.described)(
            if wrapped && cause is Some {
                cause->0
            } else {
                thrown
            },
        ) == Ok::<(Seq<char>, Option<Seq<char>>), ErrorModel>((class, message)),
    ensures
        default_result(w, DefaultStepModel::Ask(DefaultAsk::Locate), 5) == Some(
            Err::<Option<ObjectRef>, ErrorModel>(
                ErrorModel::JavaException {
                    class,
                    message: if message is Some {
                        message->0
                    } else {
                        Seq::empty()
                    },
                },
            ),
        ),
{
    reveal_with_fuel(default_result, 6);
}

/// A default method without a result gives null, and a failure on the way to it, or in
/// asking about what it threw, is what the call fails with.
pub proof fn default_failures_are_reported(
    w: DefaultWorld,
    m: ObjectRef,
    thrown: u64,
    e: ErrorModel,
    j: crate::error::JniErrorModel,
)
    requires
        w.located == Ok::<JavaValue, ErrorModel>(JavaValue::Object(m)),
    ensures
        (w.invoked)(m) == InvokedModel::Returned(JavaValue::Void) ==> default_result(
            w,
            DefaultStepModel::Ask(DefaultAsk::Locate),
            5,
        ) == Some(Ok::<Option<ObjectRef>, ErrorModel>(Some(None))),
        (w.invoked)(m) == InvokedModel::Failed(j) ==> default_result(
            w,
            DefaultStepModel::Ask(DefaultAsk::Locate),
            5,
        ) == Some(Err::<Option<ObjectRef>, ErrorModel>(ErrorModel::Jni(j))),
        (w.invoked)(m) == InvokedModel::Threw(Some(thrown)) && (w.wraps)(thrown) == Err::<
            bool,
            ErrorModel,
        >(e) ==> default_result(w, DefaultStepModel::Ask(DefaultAsk::Locate), 5) == Some(
            Err::<Option<ObjectRef>, ErrorModel>(e),
        ),
        (w.invoked)(m) == InvokedModel::Threw(Some(thrown)) && (w.wraps)(thrown) == Ok::<
            bool,
            ErrorModel,
        >(true) && (w.cause)(thrown) == Err::<JavaValue, ErrorModel>(e) ==> default_result(
            w,
            DefaultStepModel::Ask(DefaultAsk::Locate),
            5,
        ) == Some(Err::<Option<ObjectRef>, ErrorModel>(e)),
{
    reveal_with_fuel(default_result, 6);
}

/// A virtual machine is too old where it says that there is no such method; another failure
/// to look the method up keeps the class of its exception, and any that is no exception
/// stands.
pub proof fn lookup_failures_keep_their_class(w: DefaultWorld, e: ErrorModel, message: Seq<char>)
    requires
        w.located == Err::<JavaValue, ErrorModel>(e),
    ensures
        e == (ErrorModel::JavaException { class: "java.lang.NoSuchMethodException"@, message })
            ==> default_result(w, DefaultStepModel::Ask(DefaultAsk::Locate), 5) == Some(
            Ok::<Option<ObjectRef>, ErrorModel>(None),
        ),
        !(e is JavaException) ==> default_result(w, DefaultStepModel::Ask(DefaultAsk::Locate), 5)
            == Some(Err::<Option<ObjectRef>, ErrorModel>(e)),
        e matches ErrorModel::JavaException { class, .. } && class
            != "java.lang.NoSuchMethodException"@ ==> (default_result(
            w,
            DefaultStepModel::Ask(DefaultAsk::Locate),
            5,
        ) matches Some(Err(ErrorModel::JavaException { class: shown, message: text })) && shown
            == e->class && (e->JavaException_message.len() > 0 ==> exists|before: Seq<char>|
            text == #[trigger] (before + e->JavaException_message))),
{
    reveal_with_fuel(default_result, 6);
    if e is JavaException {
        let before = "rjava::interface: cannot locate InvocationHandler.invokeDefault: "@;
        assert(before + e->JavaException_message == before + e->JavaException_message);
    }
}

}
