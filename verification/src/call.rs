use vstd::prelude::*;

use crate::error::{method_missing, misuse, operation_error, ErrorModel, JavaError};
use crate::jni_text::{
    method_sig, method_signature_fault, parse_method_sig, refused, SignaturesModel,
};
use crate::names::{arg_java_names, source_names};
use crate::resolve::{fresh, Resolver};
use crate::text::{concat, join, joined};
use crate::value::{arg_letter, arg_value, to_jvalue, JavaArg, JavaValue};

verus! {

/// The JNI type fragment of an argument whose parameter type is not known.
pub open spec fn arg_fragment(a: JavaArg) -> Seq<char> {
    match arg_letter(a) {
        Some(c) => seq![c],
        None => "Ljava/lang/Object;"@,
    }
}

/// The JNI type fragment of an argument whose parameter type is not known.
pub fn java_arg_fragment(arg: &JavaArg) -> (s: String)
    ensures
        s@ == arg_fragment(*arg),
{
    match arg.letter() {
        Some(c) => {
            let mut s = String::new();
            s.push(c);
            assert(s@ =~= seq![c]);
            s
        },
        None => "Ljava/lang/Object;".to_owned(),
    }
}

/// The JNI type fragments of arguments whose parameter types are not known.
pub open spec fn raw_fragments(args: Seq<JavaArg>) -> Seq<char> {
    concat(Seq::new(args.len(), |i: int| arg_fragment(args[i])))
}

/// The JNI type fragments of arguments whose parameter types are not known.
pub fn java_arg_fragments(args: &Vec<JavaArg>) -> (s: String)
    ensures
        s@ == raw_fragments(args@),
{
    let mut s = String::new();
    let mut i: usize = 0;
    let ghost all = Seq::new(args@.len(), |k: int| arg_fragment(args@[k]));
    assert(s@ =~= concat(all.take(0)));
    while i < args.len()
        invariant
            i <= args@.len(),
            all == Seq::new(args@.len(), |k: int| arg_fragment(args@[k])),
            s@ == concat(all.take(i as int)),
        decreases args@.len() - i,
    {
        s.push_str(java_arg_fragment(&args[i]).as_str());
        proof {
            assert(all.take(i as int + 1).drop_last() =~= all.take(i as int));
            assert(all.take(i as int + 1).last() == arg_fragment(args@[i as int]));
        }
        i += 1;
    }
    assert(all.take(i as int) =~= all);
    s
}

/// A call that is about to be tried: the method, or the constructor where there is no
/// name, and the signature that the caller's types give it.
#[derive(Debug)]
pub struct Attempt {
    name: Option<String>,
    sig: String,
    args: Vec<JavaArg>,
}

/// The mathematical content of an [`Attempt`].
pub struct AttemptModel {
    pub name: Option<Seq<char>>,
    pub sig: Seq<char>,
    pub args: Seq<JavaArg>,
}

impl View for Attempt {
    type V = AttemptModel;

    closed spec fn view(&self) -> AttemptModel {
        AttemptModel {
            name: match self.name {
                Some(s) => Some(s@),
                None => None,
            },
            sig: self.sig@,
            args: self.args@,
        }
    }
}

/// What a first attempt leads to.
pub enum CallStep {
    /// The call is over.
    Done(Result<JavaValue, JavaError>),
    /// There is no such method: find out its exact signature, and call it with that. What
    /// that call gives is the result.
    Resolve(Resolver),
}

/// An attempt with a checked signature.
pub open spec fn attempt_with(
    name: Option<Seq<char>>,
    args: Seq<JavaArg>,
    fragments: Seq<char>,
    ret: Seq<char>,
) -> Result<AttemptModel, ErrorModel> {
    let sig = method_sig(fragments, ret);
    match method_signature_fault(sig) {
        None => Ok(AttemptModel { name, sig, args }),
        Some(f) => Err(refused(f)),
    }
}

/// The content of an attempt, or of the error.
pub open spec fn attempt_outcome(r: Result<Attempt, JavaError>) -> Result<
    AttemptModel,
    ErrorModel,
> {
    match r {
        Ok(a) => Ok(a@),
        Err(e) => Err(e@),
    }
}

impl Attempt {
    /// A method call with the signature that the argument and return fragments make.
    pub fn method(name: String, fragments: &str, ret: &str, args: Vec<JavaArg>) -> (r: Result<
        Attempt,
        JavaError,
    >)
        ensures
            attempt_outcome(r) == attempt_with(Some(name@), args@, fragments@, ret@),
    {
        match parse_method_sig(fragments, ret) {
            Ok(sig) => Ok(Attempt { name: Some(name), sig, args }),
            Err(e) => Err(e),
        }
    }

    /// A constructor call with the signature that the argument fragments make.
    pub fn constructor(fragments: &str, args: Vec<JavaArg>) -> (r: Result<Attempt, JavaError>)
        ensures
            attempt_outcome(r) == attempt_with(None, args@, fragments@, "V"@),
    {
        match parse_method_sig(fragments, "V") {
            Ok(sig) => Ok(Attempt { name: None, sig, args }),
            Err(e) => Err(e),
        }
    }

    /// A method call with converted arguments, whose parameter and return types are not
    /// known.
    pub fn raw_method(name: String, args: Vec<JavaArg>) -> (r: Result<Attempt, JavaError>)
        ensures
            attempt_outcome(r) == attempt_with(
                Some(name@),
                args@,
                raw_fragments(args@),
                "Ljava/lang/Object;"@,
            ),
    {
        let fragments = java_arg_fragments(&args);
        Attempt::method(name, fragments.as_str(), "Ljava/lang/Object;", args)
    }

    /// A constructor call with converted arguments, whose parameter types are not known.
    pub fn raw_constructor(args: Vec<JavaArg>) -> (r: Result<Attempt, JavaError>)
        ensures
            attempt_outcome(r) == attempt_with(None, args@, raw_fragments(args@), "V"@),
    {
        let fragments = java_arg_fragments(&args);
        Attempt::constructor(fragments.as_str(), args)
    }

    /// A method call with a signature that is known to be well formed.
    pub fn bound(name: String, sig: String, args: Vec<JavaArg>) -> (a: Attempt)
        ensures
            a@ == (AttemptModel { name: Some(name@), sig: sig@, args: args@ }),
    {
        Attempt { name: Some(name), sig, args }
    }

    /// The signature to call with.
    pub fn signature(&self) -> (s: &str)
        ensures
            s@ == self@.sig,
    {
        self.sig.as_str()
    }

    /// The arguments to call with.
    pub fn args(&self) -> (v: &Vec<JavaArg>)
        ensures
            v@ == self@.args,
    {
        &self.args
    }

    /// What the attempt leads to, from what the call gave. Only a method that was not
    /// found is looked for by reflection.
    pub fn answered(self, result: Result<JavaValue, JavaError>) -> (s: CallStep)
        ensures
            match result {
                Ok(v) => s == CallStep::Done(Ok(v)),
                Err(e) => if method_missing(e@) {
                    s matches CallStep::Resolve(r) && r@ == fresh(
                        SignaturesModel::Jni,
                        self@.name,
                        self@.args,
                    )
                        && crate::resolve::well_formed(r@)
                } else {
                    s == CallStep::Done(Err(e))
                },
            },
    {
        match result {
            Ok(v) => CallStep::Done(Ok(v)),
            Err(e) => if e.is_method_not_found() {
                match self.name {
                    Some(name) => CallStep::Resolve(
                        Resolver::resolve_exact_method_sig(name, self.args),
                    ),
                    None => CallStep::Resolve(Resolver::resolve_exact_ctor_sig(self.args)),
                }
            } else {
                CallStep::Done(Err(e))
            },
        }
    }
}

/// The parameter list of a call, in Java's names.
pub open spec fn parameter_list(fragments: Seq<char>) -> Seq<char> {
    joined(source_names(fragments, 0), ", "@)
}

fn parameters_of(fragments: &str) -> (s: String)
    ensures
        s@ == parameter_list(fragments@),
{
    join(&arg_java_names(fragments), ", ")
}

/// How a method call is named in an error: `calling add(int, long) on com.example.Host`.
pub open spec fn call_text(name: Seq<char>, fragments: Seq<char>, class: Option<Seq<char>>) -> Seq<
    char,
> {
    let call = "calling "@ + name + "("@ + parameter_list(fragments) + ")"@;
    match class {
        Some(c) => call + " on "@ + c,
        None => call,
    }
}

/// How a constructor call is named in an error.
pub open spec fn construction_text(fragments: Seq<char>, class: Option<Seq<char>>) -> Seq<char> {
    let c = match class {
        Some(c) => c,
        None => "<unknown class>"@,
    };
    "constructing "@ + c + "("@ + parameter_list(fragments) + ")"@
}

/// How a field access is named in an error: `reading static field MAX on com.example.Host`.
pub open spec fn field_text(
    verb: Seq<char>,
    name: Seq<char>,
    is_static: bool,
    class: Option<Seq<char>>,
) -> Seq<char> {
    let kind = if is_static {
        "static field"@
    } else {
        "field"@
    };
    let access = verb + " "@ + kind + " "@ + name;
    match class {
        Some(c) => access + " on "@ + c,
        None => access,
    }
}

/// The characters of an optional string.
pub open spec fn optional(s: Option<&str>) -> Option<Seq<char>> {
    match s {
        Some(t) => Some(t@),
        None => None,
    }
}

/// How a method call, on an object or on a class, is named in an error. `class` is the
/// class name, if it could be found out.
pub fn call_operation(name: &str, fragments: &str, class: Option<&str>) -> (s: String)
    ensures
        s@ == call_text(name@, fragments@, optional(class)),
{
    let mut s = "calling ".to_owned();
    s.push_str(name);
    s.push_str("(");
    s.push_str(parameters_of(fragments).as_str());
    s.push_str(")");
    if let Some(c) = class {
        s.push_str(" on ");
        s.push_str(c);
    }
    s
}

/// How a constructor call is named in an error.
pub fn constructor_operation(fragments: &str, class: Option<&str>) -> (s: String)
    ensures
        s@ == construction_text(fragments@, optional(class)),
{
    let mut s = "constructing ".to_owned();
    match class {
        Some(c) => s.push_str(c),
        None => s.push_str("<unknown class>"),
    }
    s.push_str("(");
    s.push_str(parameters_of(fragments).as_str());
    s.push_str(")");
    s
}

/// How a field access is named in an error. `verb` says what is done to the field.
pub fn field_operation(verb: &str, name: &str, is_static: bool, class: Option<&str>) -> (s: String)
    ensures
        s@ == field_text(verb@, name@, is_static, optional(class)),
{
    let mut s = verb.to_owned();
    s.push_str(" ");
    if is_static {
        s.push_str("static field");
    } else {
        s.push_str("field");
    }
    s.push_str(" ");
    s.push_str(name);
    if let Some(c) = class {
        s.push_str(" on ");
        s.push_str(c);
    }
    s
}

/// The value to write to a field: the first of the converted values.
pub fn field_value(args: &Vec<JavaArg>) -> (r: Result<JavaValue, JavaError>)
    ensures
        match r {
            Ok(v) => args@.len() > 0 && v == arg_value(args@[0]),
            Err(e) => args@.len() == 0 && e@ == misuse("a field value must be a single value"@),
        },
{
    if args.len() == 0 {
        Err(JavaError::InvalidArgument("a field value must be a single value"))
    } else {
        Ok(to_jvalue(&args[0]))
    }
}

/// A reflection query that has to return a truth value.
pub fn expect_flag(v: &JavaValue, message: &'static str) -> (r: Result<bool, JavaError>)
    ensures
        match r {
            Ok(b) => *v == JavaValue::Bool(b),
            Err(e) => !(*v is Bool) && e@ == misuse(message@),
        },
{
    match v {
        JavaValue::Bool(b) => Ok(*b),
        _ => Err(JavaError::InvalidArgument(message)),
    }
}

/// A reflection query that has to return an object.
pub fn expect_object(v: &JavaValue, message: &'static str) -> (r: Result<
    crate::value::ObjectRef,
    JavaError,
>)
    ensures
        match r {
            Ok(o) => *v == JavaValue::Object(o),
            Err(e) => !(*v is Object) && e@ == misuse(message@),
        },
{
    match v {
        JavaValue::Object(o) => Ok(*o),
        _ => Err(JavaError::InvalidArgument(message)),
    }
}

/// A flag that Java code keeps, and that was not found in a field of its name. It is
/// looked for in `get<Name>`, and then in `is<Name>`.
#[derive(Debug)]
pub struct FlagReader {
    name: String,
    /// Whether `get<Name>` was not found either.
    last: bool,
}

/// What to do next to read a flag.
pub enum FlagStep {
    /// Call the method of that name, which takes nothing and returns a boolean.
    Call(String, FlagReader),
    Done(Result<bool, JavaError>),
}

/// The mathematical content of a [`FlagReader`].
pub struct FlagModel {
    pub name: Seq<char>,
    pub last: bool,
}

impl View for FlagReader {
    type V = FlagModel;

    closed spec fn view(&self) -> FlagModel {
        FlagModel { name: self.name@, last: self.last }
    }
}

/// The accessor behind that prefix.
pub open spec fn accessor(prefix: Seq<char>, name: Seq<char>) -> Seq<char> {
    prefix + crate::text::camel(name, true)
}

/// The accessor of a property behind a prefix: `user_id` behind `get` is `getUserId`.
pub fn accessor_name(prefix: &str, name: &str) -> (s: String)
    ensures
        s@ == accessor(prefix@, name@),
{
    let mut s = prefix.to_owned();
    s.push_str(crate::text::camel_case(name).as_str());
    s
}

/// The message where an accessor of a flag returned something else.
pub const NO_FLAG: &'static str = "rjava::bind: a bool field accessor did not return a boolean";

impl FlagReader {
    /// What reading the field of that name leads to: a field that is not there leads on
    /// to `get<Name>`, and anything else is the result.
    pub fn instance_bool_field_get(name: String, field: Result<bool, JavaError>) -> (s: FlagStep)
        ensures
            match field {
                Err(e) if crate::error::field_missing(e@) => {
                    s matches FlagStep::Call(method, reader) && method@ == accessor("get"@, name@)
                        && reader@ == (FlagModel { name: name@, last: false })
                },
                _ => s == FlagStep::Done(field),
            },
    {
        match field {
            Err(e) => if e.is_field_not_found() {
                let method = accessor_name("get", name.as_str());
                FlagStep::Call(method, FlagReader { name, last: false })
            } else {
                FlagStep::Done(Err(e))
            },
            Ok(b) => FlagStep::Done(Ok(b)),
        }
    }

    /// What calling the accessor leads to: a `get<Name>` that is not there leads on to
    /// `is<Name>`, and anything else is the result.
    pub fn answered(self, result: Result<JavaValue, JavaError>) -> (s: FlagStep)
        ensures
            match result {
                Ok(JavaValue::Bool(b)) => s == FlagStep::Done(Ok(b)),
                Ok(_) => s matches FlagStep::Done(Err(e)) && e@ == misuse(NO_FLAG@),
                Err(e) => if method_missing(e@) && !self@.last {
                    s matches FlagStep::Call(method, reader) && method@ == accessor(
                        "is"@,
                        self@.name,
                    ) && reader@ == (FlagModel { name: self@.name, last: true })
                } else {
                    s == FlagStep::Done(Err(e))
                },
            },
    {
        match result {
            Ok(JavaValue::Bool(b)) => FlagStep::Done(Ok(b)),
            Ok(_) => FlagStep::Done(Err(JavaError::InvalidArgument(NO_FLAG))),
            Err(e) => if e.is_method_not_found() && !self.last {
                let method = accessor_name("is", self.name.as_str());
                FlagStep::Call(method, FlagReader { name: self.name, last: true })
            } else {
                FlagStep::Done(Err(e))
            },
        }
    }
}

/// A missing field keeps its error through a failed field access, so that the search for
/// a flag can tell it.
pub proof fn missing_fields_stay_visible(e: ErrorModel, operation: Seq<char>)
    requires
        crate::error::field_missing(e),
    ensures
        crate::error::field_missing(operation_error(e, operation)),
{
}

/// An argument whose parameter type is not known has the type that it is: a primitive its
/// letter, and an object `Object`. The types of several stand in the order of the arguments.
pub proof fn raw_types_follow_the_arguments(args: Seq<JavaArg>, a: JavaArg, o: Option<u64>)
    ensures
        arg_fragment(JavaArg::Object(o)) == "Ljava/lang/Object;"@,
        arg_letter(a) matches Some(c) ==> arg_fragment(a) == seq![c],
        raw_fragments(args.push(a)) == raw_fragments(args) + arg_fragment(a),
        args.len() == 0 ==> raw_fragments(args) == Seq::<char>::empty(),
{
    let all = Seq::new(args.push(a).len(), |i: int| arg_fragment(args.push(a)[i]));
    let before = Seq::new(args.len(), |i: int| arg_fragment(args[i]));
    assert(all.drop_last() =~= before);
    assert(all.last() == arg_fragment(a));
}

/// A call is tried with the name, the arguments and the signature that it was given: the
/// parameter types between parentheses, and the return type behind them.
pub proof fn attempts_keep_what_they_were_given(
    name: Option<Seq<char>>,
    args: Seq<JavaArg>,
    fragments: Seq<char>,
    ret: Seq<char>,
)
    ensures
        attempt_with(name, args, fragments, ret) matches Ok(a) ==> a.name == name && a.args == args
            && a.sig == "("@ + fragments + ")"@ + ret,
        attempt_with(name, args, fragments, ret) is Ok <==> method_signature_fault(
            "("@ + fragments + ")"@ + ret,
        ) is None,
{
}

/// An error names what was called, with the parameter types as Java names them, and where.
pub proof fn operations_name_what_was_done(
    name: Seq<char>,
    fragments: Seq<char>,
    class: Seq<char>,
    verb: Seq<char>,
)
    ensures
        call_text(name, fragments, None) == "calling "@ + name + "("@ + joined(
            source_names(fragments, 0),
            ", "@,
        ) + ")"@,
        call_text(name, fragments, Some(class)) == call_text(name, fragments, None) + " on "@ + class,
        construction_text(fragments, Some(class)) == "constructing "@ + class + "("@ + joined(
            source_names(fragments, 0),
            ", "@,
        ) + ")"@,
        field_text(verb, name, true, None) == verb + " static field "@ + name,
        field_text(verb, name, false, None) == verb + " field "@ + name,
        field_text(verb, name, true, Some(class)) == field_text(verb, name, true, None) + " on "@
            + class,
        field_text(verb, name, false, Some(class)) == field_text(verb, name, false, None) + " on "@
            + class,
{
    reveal_strlit(" ");
    reveal_strlit("field");
    reveal_strlit("static field");
    reveal_strlit(" field ");
    reveal_strlit(" static field ");
    assert(field_text(verb, name, true, None) =~= verb + " static field "@ + name);
    assert(field_text(verb, name, false, None) =~= verb + " field "@ + name);
}

/// An accessor is its prefix and the CamelCase form of the property's name.
pub proof fn accessors_carry_their_prefix(prefix: Seq<char>, name: Seq<char>)
    ensures
        accessor(prefix, name).take(prefix.len() as int) == prefix,
        accessor(prefix, name).skip(prefix.len() as int) == crate::text::camel(name, true),
{
    assert(accessor(prefix, name).take(prefix.len() as int) =~= prefix);
    assert(accessor(prefix, name).skip(prefix.len() as int) =~= crate::text::camel(name, true));
}

}
