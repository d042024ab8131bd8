use vstd::prelude::*;

use crate::default_method::{
    default_next, DefaultAsk, DefaultReply, DefaultReplyModel, DefaultStep, DefaultStepModel,
};
use crate::error::{misuse, ErrorModel, JavaError};
use crate::interface::{
    boxed, box_value, build_arg_values, handler_args, identity_hash_code, identity_string,
    identity_text, intercept_object_method, only_argument, reserved_method, sole_argument,
    ArgSource, Boxing, Reserved,
};
use crate::text::views;
use crate::value::{JavaValue, ObjectRef};

verus! {

/// What has to be found out, or done, next for a call of a proxied method.
#[derive(Debug)]
pub enum ShellAsk {
    /// What are the class name and the identity hash of the proxy?
    Identity,
    /// What is the identity hash of the proxy?
    Hash,
    /// Is the proxy this object?
    Same(ObjectRef),
    /// What does `Method.isDefault()` return?
    IsDefault,
    /// The next question about a default method.
    Default(DefaultAsk),
    /// Call the handler with these arguments.
    Handler(Vec<ArgSource>),
}

/// An answer to a [`ShellAsk`].
#[derive(Debug)]
pub enum ShellReply {
    Identity(Result<(String, JavaValue), JavaError>),
    Hash(Result<JavaValue, JavaError>),
    Same(Result<bool, JavaError>),
    IsDefault(Result<JavaValue, JavaError>),
    Default(DefaultReply),
    Handler(Result<ObjectRef, JavaError>),
}

/// What a call of a proxied method returns.
#[derive(Debug)]
pub enum ShellValue {
    /// A new string.
    Text(String),
    /// A value, which becomes an object.
    Value(Boxing),
}

/// What an answer leads to.
#[derive(Debug)]
pub enum ShellStep {
    Ask(ShellAsk),
    Done(Result<ShellValue, JavaError>),
}

/// The mathematical content of a [`ShellAsk`].
pub enum ShellAskModel {
    Identity,
    Hash,
    Same(ObjectRef),
    IsDefault,
    Default(DefaultAsk),
    Handler(Seq<ArgSource>),
}

/// The mathematical content of a [`ShellReply`].
pub enum ShellReplyModel {
    Identity(Result<(Seq<char>, JavaValue), ErrorModel>),
    Hash(Result<JavaValue, ErrorModel>),
    Same(Result<bool, ErrorModel>),
    IsDefault(Result<JavaValue, ErrorModel>),
    Default(DefaultReplyModel),
    Handler(Result<ObjectRef, ErrorModel>),
}

/// The mathematical content of a [`ShellValue`].
pub enum ShellValueModel {
    Text(Seq<char>),
    Value(Boxing),
}

/// The mathematical content of a [`ShellStep`].
pub enum ShellStepModel {
    Ask(ShellAskModel),
    Done(Result<ShellValueModel, ErrorModel>),
}

impl View for ShellAsk {
    type V = ShellAskModel;

    open spec fn view(&self) -> ShellAskModel {
        match self {
            ShellAsk::Identity => ShellAskModel::Identity,
            ShellAsk::Hash => ShellAskModel::Hash,
            ShellAsk::Same(o) => ShellAskModel::Same(*o),
            ShellAsk::IsDefault => ShellAskModel::IsDefault,
            ShellAsk::Default(a) => ShellAskModel::Default(*a),
            ShellAsk::Handler(v) => ShellAskModel::Handler(v@),
        }
    }
}

impl View for ShellReply {
    type V = ShellReplyModel;

    open spec fn view(&self) -> ShellReplyModel {
        match self {
            ShellReply::Identity(Ok((class, v))) => ShellReplyModel::Identity(Ok((class@, *v))),
            ShellReply::Identity(Err(e)) => ShellReplyModel::Identity(Err(e@)),
            ShellReply::Hash(Ok(v)) => ShellReplyModel::Hash(Ok(*v)),
            ShellReply::Hash(Err(e)) => ShellReplyModel::Hash(Err(e@)),
            ShellReply::Same(Ok(b)) => ShellReplyModel::Same(Ok(*b)),
            ShellReply::Same(Err(e)) => ShellReplyModel::Same(Err(e@)),
            ShellReply::IsDefault(Ok(v)) => ShellReplyModel::IsDefault(Ok(*v)),
            ShellReply::IsDefault(Err(e)) => ShellReplyModel::IsDefault(Err(e@)),
            ShellReply::Default(r) => ShellReplyModel::Default(r@),
            ShellReply::Handler(Ok(o)) => ShellReplyModel::Handler(Ok(*o)),
            ShellReply::Handler(Err(e)) => ShellReplyModel::Handler(Err(e@)),
        }
    }
}

impl View for ShellStep {
    type V = ShellStepModel;

    open spec fn view(&self) -> ShellStepModel {
        match self {
            ShellStep::Ask(a) => ShellStepModel::Ask(a@),
            ShellStep::Done(Ok(ShellValue::Text(s))) => ShellStepModel::Done(
                Ok(ShellValueModel::Text(s@)),
            ),
            ShellStep::Done(Ok(ShellValue::Value(b))) => ShellStepModel::Done(
                Ok(ShellValueModel::Value(*b)),
            ),
            ShellStep::Done(Err(e)) => ShellStepModel::Done(Err(e@)),
        }
    }
}

/// A call of a proxied method.
#[derive(Debug)]
pub struct ShellCall {
    name: String,
    params: Vec<String>,
    args: Option<Vec<ObjectRef>>,
}

/// The mathematical content of a [`ShellCall`].
pub struct ShellModel {
    pub name: Seq<char>,
    /// The class names of the method's parameters.
    pub params: Seq<Seq<char>>,
    /// The argument array, which is missing where the method has no parameters.
    pub args: Option<Seq<ObjectRef>>,
}

impl View for ShellCall {
    type V = ShellModel;

    closed spec fn view(&self) -> ShellModel {
        ShellModel {
            name: self.name@,
            params: views(self.params@),
            args: match self.args {
                Some(v) => Some(v@),
                None => None,
            },
        }
    }
}

/// The end, with a failure.
pub open spec fn shell_failed(e: ErrorModel) -> ShellStepModel {
    ShellStepModel::Done(Err(e))
}

/// The end, with a value.
pub open spec fn shell_returns(v: JavaValue) -> ShellStepModel {
    ShellStepModel::Done(Ok(ShellValueModel::Value(boxed(v))))
}

/// On to the handler.
pub open spec fn to_handler(m: ShellModel) -> ShellStepModel {
    match handler_args(m.args, m.params) {
        Ok(v) => ShellStepModel::Ask(ShellAskModel::Handler(v)),
        Err(e) => shell_failed(e),
    }
}

/// The first step: a reserved method of `Object` is answered by the library, and any
/// other may be a default method.
pub open spec fn shell_start(m: ShellModel) -> ShellStepModel {
    match reserved_method(m.name, m.params) {
        Some(Reserved::ToString) => ShellStepModel::Ask(ShellAskModel::Identity),
        Some(Reserved::HashCode) => ShellStepModel::Ask(ShellAskModel::Hash),
        Some(Reserved::Equals) => match only_argument(m.args) {
            Ok(o) => ShellStepModel::Ask(ShellAskModel::Same(o)),
            Err(e) => shell_failed(e),
        },
        None => ShellStepModel::Ask(ShellAskModel::IsDefault),
    }
}

/// The error where a hash is none.
pub open spec fn no_hash() -> ErrorModel {
    misuse("rjava::interface: System.identityHashCode did not return an int"@)
}

/// What an answer leads to. An answer to another question leaves the question open.
pub open spec fn shell_next(
    m: ShellModel,
    ask: ShellAskModel,
    reply: ShellReplyModel,
) -> ShellStepModel {
    match (ask, reply) {
        (ShellAskModel::Identity, ShellReplyModel::Identity(r)) => match r {
            Ok((class, JavaValue::Int(h))) => ShellStepModel::Done(
                Ok(ShellValueModel::Text(identity_text(class, h))),
            ),
            Ok(_) => shell_failed(no_hash()),
            Err(e) => shell_failed(e),
        },
        (ShellAskModel::Hash, ShellReplyModel::Hash(r)) => match r {
            Ok(JavaValue::Int(h)) => shell_returns(JavaValue::Int(h)),
            Ok(_) => shell_failed(no_hash()),
            Err(e) => shell_failed(e),
        },
        (ShellAskModel::Same(_), ShellReplyModel::Same(r)) => match r {
            Ok(b) => shell_returns(JavaValue::Bool(b)),
            Err(e) => shell_failed(e),
        },
        (ShellAskModel::IsDefault, ShellReplyModel::IsDefault(r)) => match r {
            Ok(JavaValue::Bool(true)) => ShellStepModel::Ask(
                ShellAskModel::Default(DefaultAsk::Locate),
            ),
            Ok(JavaValue::Bool(false)) => to_handler(m),
            Ok(_) => shell_failed(
                misuse("rjava::interface: Method.isDefault() did not return a boolean"@),
            ),
            Err(e) => shell_failed(e),
        },
        (ShellAskModel::Default(a), ShellReplyModel::Default(r)) => match default_next(a, r) {
            DefaultStepModel::Ask(b) => ShellStepModel::Ask(ShellAskModel::Default(b)),
            DefaultStepModel::Done(Ok(Some(o))) => shell_returns(JavaValue::Object(o)),
            DefaultStepModel::Done(Ok(None)) => to_handler(m),
            DefaultStepModel::Done(Err(e)) => shell_failed(e),
        },
        (ShellAskModel::Handler(_), ShellReplyModel::Handler(r)) => match r {
            Ok(o) => shell_returns(JavaValue::Object(o)),
            Err(e) => shell_failed(e),
        },
        _ => ShellStepModel::Ask(ask),
    }
}

fn give_back(v: JavaValue) -> (s: ShellStep)
    ensures
        s@ == shell_returns(v),
{
    ShellStep::Done(Ok(ShellValue::Value(box_value(&v))))
}

impl ShellCall {
    /// A call of the method of that name, with parameters of those classes.
    pub fn shell_invoke(name: String, params: Vec<String>, args: Option<Vec<ObjectRef>>) -> (c:
        ShellCall)
        ensures
            c@ == (ShellModel {
                name: name@,
                params: views(params@),
                args: match args {
                    Some(v) => Some(v@),
                    None => None,
                },
            }),
    {
        ShellCall { name, params, args }
    }

    /// The first step.
    pub fn start(&self) -> (s: ShellStep)
        ensures
            s@ == shell_start(self@),
    {
        match intercept_object_method(self.name.as_str(), &self.params) {
            Some(Reserved::ToString) => ShellStep::Ask(ShellAsk::Identity),
            Some(Reserved::HashCode) => ShellStep::Ask(ShellAsk::Hash),
            Some(Reserved::Equals) => match sole_argument(self.args.as_ref()) {
                Ok(o) => ShellStep::Ask(ShellAsk::Same(o)),
                Err(e) => ShellStep::Done(Err(e)),
            },
            None => ShellStep::Ask(ShellAsk::IsDefault),
        }
    }

    fn handler(&self) -> (s: ShellStep)
        ensures
            s@ == to_handler(self@),
    {
        match build_arg_values(self.args.as_ref(), &self.params) {
            Ok(v) => ShellStep::Ask(ShellAsk::Handler(v)),
            Err(e) => ShellStep::Done(Err(e)),
        }
    }

    /// What an answer leads to.
    pub fn answered(&self, ask: ShellAsk, reply: ShellReply) -> (s: ShellStep)
        ensures
            s@ == shell_next(self@, ask@, reply@),
    {
        match (ask, reply) {
            (ShellAsk::Identity, ShellReply::Identity(r)) => match r {
                Ok((class, v)) => match identity_hash_code(&v) {
                    Ok(h) => ShellStep::Done(
                        Ok(ShellValue::Text(identity_string(class.as_str(), h))),
                    ),
                    Err(e) => ShellStep::Done(Err(e)),
                },
                Err(e) => ShellStep::Done(Err(e)),
            },
            (ShellAsk::Hash, ShellReply::Hash(r)) => match r {
                Ok(v) => match identity_hash_code(&v) {
                    Ok(h) => give_back(JavaValue::Int(h)),
                    Err(e) => ShellStep::Done(Err(e)),
                },
                Err(e) => ShellStep::Done(Err(e)),
            },
            (ShellAsk::Same(_), ShellReply::Same(r)) => match r {
                Ok(b) => give_back(JavaValue::Bool(b)),
                Err(e) => ShellStep::Done(Err(e)),
            },
            (ShellAsk::IsDefault, ShellReply::IsDefault(r)) => match r {
                Ok(JavaValue::Bool(true)) => ShellStep::Ask(ShellAsk::Default(DefaultAsk::Locate)),
                Ok(JavaValue::Bool(false)) => self.handler(),
                Ok(_) => ShellStep::Done(
                    Err(
                        JavaError::InvalidArgument(
                            "rjava::interface: Method.isDefault() did not return a boolean",
                        ),
                    ),
                ),
                Err(e) => ShellStep::Done(Err(e)),
            },
            (ShellAsk::Default(a), ShellReply::Default(r)) => match a.answered(r) {
                DefaultStep::Ask(b) => ShellStep::Ask(ShellAsk::Default(b)),
                DefaultStep::Done(Ok(Some(o))) => give_back(JavaValue::Object(o)),
                DefaultStep::Done(Ok(None)) => self.handler(),
                DefaultStep::Done(Err(e)) => ShellStep::Done(Err(e)),
            },
            (ShellAsk::Handler(_), ShellReply::Handler(r)) => match r {
                Ok(o) => give_back(JavaValue::Object(o)),
                Err(e) => ShellStep::Done(Err(e)),
            },
            (ask, _) => ShellStep::Ask(ask),
        }
    }
}

/// Whether a question belongs to the answer of a reserved method.
pub open spec fn is_reserved_question(a: ShellAskModel) -> bool {
    a is Identity || a is Hash || a is Same
}

/// A reserved method never reaches the handler, nor does it run a default method: its
/// first question is about the proxy's identity, and so is every later one.
pub proof fn reserved_methods_stay_with_the_library(
    m: ShellModel,
    ask: ShellAskModel,
    reply: ShellReplyModel,
)
    requires
        reserved_method(m.name, m.params) is Some,
    ensures
        shell_start(m) matches ShellStepModel::Ask(a) ==> is_reserved_question(a),
        is_reserved_question(ask) ==> (shell_next(m, ask, reply) matches ShellStepModel::Ask(
            b,
        ) ==> b == ask),
{
}

/// The handler is asked only for methods that are not default methods, or that the
/// virtual machine cannot run as such; and what it gets are the arguments of the call.
pub proof fn handlers_get_the_arguments(
    m: ShellModel,
    ask: ShellAskModel,
    reply: ShellReplyModel,
    args: Seq<ArgSource>,
)
    requires
        !(ask is Handler),
        shell_next(m, ask, reply) == ShellStepModel::Ask(ShellAskModel::Handler(args)),
    ensures
        handler_args(m.args, m.params) == Ok::<Seq<ArgSource>, ErrorModel>(args),
        reply == ShellReplyModel::IsDefault(Ok(JavaValue::Bool(false))) || (ask matches
            ShellAskModel::Default(a) && reply matches ShellReplyModel::Default(r) && default_next(
            a,
            r,
        ) == DefaultStepModel::Done(Ok(None))),
{
}

/// An object equals itself and nothing else: `equals` answers what the comparison of the
/// references says.
pub proof fn equality_is_identity(m: ShellModel, o: ObjectRef, is_same: bool)
    requires
        reserved_method(m.name, m.params) == Some(Reserved::Equals),
        m.args == Some(seq![o]),
    ensures
        shell_start(m) == ShellStepModel::Ask(ShellAskModel::Same(o)),
        shell_next(m, ShellAskModel::Same(o), ShellReplyModel::Same(Ok(is_same))) == shell_returns(
            JavaValue::Bool(is_same),
        ),
{
}

/// Whatever the method and its arguments are, a call whose handler returned an object ends
/// with that object, and one whose handler failed ends with that failure.
pub proof fn handler_results_are_returned(
    m: ShellModel,
    args: Seq<ArgSource>,
    o: ObjectRef,
    e: ErrorModel,
)
    ensures
        shell_next(m, ShellAskModel::Handler(args), ShellReplyModel::Handler(Ok(o)))
            == ShellStepModel::Done(Ok(ShellValueModel::Value(Boxing::Keep(o)))),
        shell_next(m, ShellAskModel::Handler(args), ShellReplyModel::Handler(Err(e)))
            == ShellStepModel::Done(Err(e)),
{
}

/// The step that a handler's result leads to, in full: no other step has that content.
pub proof fn handler_steps_are_final(
    c: ShellCall,
    args: Vec<ArgSource>,
    o: ObjectRef,
    e: JavaError,
    s: ShellStep,
)
    ensures
        s@ == shell_next(c@, ShellAsk::Handler(args)@, ShellReply::Handler(Ok(o))@) ==> s
            == ShellStep::Done(Ok(ShellValue::Value(Boxing::Keep(o)))),
        s@ == shell_next(c@, ShellAsk::Handler(args)@, ShellReply::Handler(Err(e))@) ==> (s matches
            ShellStep::Done(Err(f)) && f@ == e@),
{
}

/// A failure to find out what a call needs is what the call ends with, whatever was asked.
pub proof fn failures_end_the_call(
    m: ShellModel,
    o: ObjectRef,
    e: ErrorModel,
    class: Seq<char>,
    v: JavaValue,
)
    ensures
        shell_next(m, ShellAskModel::Identity, ShellReplyModel::Identity(Err(e)))
            == ShellStepModel::Done(Err(e)),
        shell_next(m, ShellAskModel::Hash, ShellReplyModel::Hash(Err(e))) == ShellStepModel::Done(
            Err(e),
        ),
        shell_next(m, ShellAskModel::Same(o), ShellReplyModel::Same(Err(e)))
            == ShellStepModel::Done(Err(e)),
        shell_next(m, ShellAskModel::IsDefault, ShellReplyModel::IsDefault(Err(e)))
            == ShellStepModel::Done(Err(e)),
        !(v is Int) ==> {
            &&& shell_next(m, ShellAskModel::Identity, ShellReplyModel::Identity(Ok((class, v))))
                matches ShellStepModel::Done(Err(_))
            &&& shell_next(m, ShellAskModel::Hash, ShellReplyModel::Hash(Ok(v)))
                matches ShellStepModel::Done(Err(_))
        },
        !(v is Bool) ==> (shell_next(
            m,
            ShellAskModel::IsDefault,
            ShellReplyModel::IsDefault(Ok(v)),
        ) matches ShellStepModel::Done(Err(_))),
{
}

/// `hashCode` of a proxy is its identity hash, `equals` is the comparison of the
/// references, and `toString` is the class name, an `@` and the hash in hexadecimal.
pub proof fn identity_is_answered_by_the_library(
    m: ShellModel,
    o: ObjectRef,
    class: Seq<char>,
    h: i32,
    is_same: bool,
)
    ensures
        shell_next(m, ShellAskModel::Hash, ShellReplyModel::Hash(Ok(JavaValue::Int(h))))
            == ShellStepModel::Done(
            Ok(ShellValueModel::Value(Boxing::Wrap(crate::value::JavaArg::Int(h)))),
        ),
        shell_next(m, ShellAskModel::Same(o), ShellReplyModel::Same(Ok(is_same)))
            == ShellStepModel::Done(
            Ok(ShellValueModel::Value(Boxing::Wrap(crate::value::JavaArg::Bool(is_same)))),
        ),
        shell_next(
            m,
            ShellAskModel::Identity,
            ShellReplyModel::Identity(Ok((class, JavaValue::Int(h)))),
        ) matches ShellStepModel::Done(Ok(ShellValueModel::Text(t))) && {
            &&& t.len() > class.len() + 1
            &&& t.take(class.len() as int) == class
            &&& t[class.len() as int] == '@'
            &&& crate::text::denotes(t.skip(class.len() as int + 1), 16) == (if h >= 0 {
                h as int
            } else {
                h + 0x1_0000_0000
            })
        },
{
    reveal_strlit("@");
    let n = crate::interface::hash_bits(h);
    let digits = crate::text::numeral(n, 16);
    let t = identity_text(class, h);
    crate::text::numerals_denote_their_numbers(n, 16);
    assert(t.take(class.len() as int) =~= class);
    assert(t.skip(class.len() as int + 1) =~= digits);
}

/// Where a call goes: `toString()`, `hashCode()` and `equals(Object)` are answered by the
/// library; any other method that is no default method reaches the handler, with one
/// argument for each parameter, in order, a primitive read out of its wrapper and any other
/// argument as it is.
pub proof fn calls_reach_the_handler(m: ShellModel)
    ensures
        shell_start(m) == ShellStepModel::Ask(ShellAskModel::Identity) <==> m.name == "toString"@
            && m.params.len() == 0,
        shell_start(m) == ShellStepModel::Ask(ShellAskModel::Hash) <==> m.name == "hashCode"@
            && m.params.len() == 0,
        m.name == "equals"@ && m.params == seq!["java.lang.Object"@] ==> {
            &&& m.args is None ==> shell_start(m) == ShellStepModel::Ask(ShellAskModel::Same(None))
            &&& m.args is Some && m.args->0.len() == 1 ==> shell_start(m) == ShellStepModel::Ask(
                ShellAskModel::Same(m.args->0[0]),
            )
            &&& m.args is Some && m.args->0.len() != 1 ==> (shell_start(m)
                matches ShellStepModel::Done(Err(_)))
        },
        !(m.params.len() == 0 && (m.name == "toString"@ || m.name == "hashCode"@)) && !(m.name
            == "equals"@ && m.params == seq!["java.lang.Object"@]) ==> shell_start(m)
            == ShellStepModel::Ask(ShellAskModel::IsDefault),
        ({
            let step = shell_next(
                m,
                ShellAskModel::IsDefault,
                ShellReplyModel::IsDefault(Ok(JavaValue::Bool(false))),
            );
            match m.args {
                None => step == ShellStepModel::Ask(ShellAskModel::Handler(Seq::empty())),
                Some(a) => if a.len() != m.params.len() {
                    step matches ShellStepModel::Done(Err(_))
                } else {
                    step matches ShellStepModel::Ask(ShellAskModel::Handler(given)) && {
                        &&& given.len() == a.len()
                        &&& forall|i: int| #![trigger given[i]]
                            0 <= i < given.len() ==> match crate::matching::letter_of(m.params[i]) {
                                Some(c) => given[i] == ArgSource::Unbox(a[i], c),
                                None => given[i] == ArgSource::Keep(a[i]),
                            }
                    }
                },
            }
        }),
        shell_next(
            m,
            ShellAskModel::IsDefault,
            ShellReplyModel::IsDefault(Ok(JavaValue::Bool(true))),
        ) == ShellStepModel::Ask(ShellAskModel::Default(DefaultAsk::Locate)),
{
    reveal_strlit("toString");
    reveal_strlit("hashCode");
    reveal_strlit("equals");
    assert("toString"@.len() == 8 && "hashCode"@.len() == 8 && "equals"@.len() == 6);
    assert("toString"@[0] == 't' && "hashCode"@[0] == 'h');
    if m.params.len() == 1 && m.params[0] == "java.lang.Object"@ {
        assert(m.params =~= seq!["java.lang.Object"@]);
    }
}

/// What a default method returned is what its caller gets, what it threw is what the call
/// ends with, and where it cannot be run the handler is asked instead.
pub proof fn default_methods_answer_their_calls(
    m: ShellModel,
    ask: DefaultAsk,
    reply: DefaultReplyModel,
)
    ensures
        ({
            let step = shell_next(m, ShellAskModel::Default(ask), ShellReplyModel::Default(reply));
            match default_next(ask, reply) {
                DefaultStepModel::Ask(next) => step == ShellStepModel::Ask(
                    ShellAskModel::Default(next),
                ),
                DefaultStepModel::Done(Ok(Some(o))) => step == ShellStepModel::Done(
                    Ok(ShellValueModel::Value(Boxing::Keep(o))),
                ),
                DefaultStepModel::Done(Err(e)) => step == ShellStepModel::Done(Err(e)),
                DefaultStepModel::Done(Ok(None)) => step == shell_next(
                    m,
                    ShellAskModel::IsDefault,
                    ShellReplyModel::IsDefault(Ok(JavaValue::Bool(false))),
                ),
            }
        }),
{
}

}
