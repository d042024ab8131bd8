use vstd::prelude::*;

use crate::error::{class_missing, misuse, ErrorModel, JavaError};
use crate::matching::{letter_of, primitive_letter};
use crate::names::{is_primitive, is_primitive_name};
use crate::text::{numeral, numeral_of, replace_char, replaced, same, views};
use crate::value::{arg_value, to_jvalue, JavaArg, JavaValue, ObjectRef};

verus! {

/// The one-time setup of the interface support: it has not run, or its outcome stands.
/// `B` is what a setup that worked gives.
#[derive(Debug)]
pub struct Bootstrap<B> {
    count: usize,
    outcome: Option<Result<B, String>>,
}

/// The mathematical content of a [`Bootstrap`].
pub struct BootstrapModel<B> {
    pub count: int,
    pub outcome: Option<Result<B, Seq<char>>>,
}

impl<B> View for Bootstrap<B> {
    type V = BootstrapModel<B>;

    closed spec fn view(&self) -> BootstrapModel<B> {
        BootstrapModel {
            count: self.count as int,
            outcome: match self.outcome {
                None => None,
                Some(Ok(b)) => Some(Ok(b)),
                Some(Err(s)) => Some(Err(s@)),
            },
        }
    }
}

/// What always holds of the setup: it ran once if there is an outcome, and not at all if
/// there is none.
pub open spec fn runs_once<B>(m: BootstrapModel<B>) -> bool {
    m.count == (if m.outcome is Some {
        1int
    } else {
        0
    })
}

/// The error that every user sees of a setup that failed.
pub open spec fn bootstrap_error(detail: Seq<char>) -> ErrorModel {
    ErrorModel::JvmStart("rjava::interface: bootstrap failed: "@ + detail)
}

impl<B> Bootstrap<B> {
    #[verifier::type_invariant]
    spec fn counted(self) -> bool {
        runs_once(self@)
    }

    /// A setup that has not run.
    pub fn new() -> (b: Self)
        ensures
            b@ == (BootstrapModel::<B> { count: 0, outcome: None }),
    {
        Bootstrap { count: 0, outcome: None }
    }

    /// Whether the setup has still to run.
    pub fn is_pending(&self) -> (r: bool)
        ensures
            r == self@.outcome is None,
            runs_once(self@),
    {
        proof {
            use_type_invariant(self);
        }
        self.outcome.is_none()
    }

    /// The outcome of the run stands from here on. A second run is ignored.
    pub fn finish(self, result: Result<B, JavaError>) -> (b: Self)
        ensures
            b@ == (match self@.outcome {
                Some(_) => self@,
                None => BootstrapModel {
                    count: 1,
                    outcome: Some(
                        match result {
                            Ok(v) => Ok(v),
                            Err(e) => Err(crate::error::error_text(e@)),
                        },
                    ),
                },
            }),
    {
        match self.outcome {
            Some(_) => self,
            None => Bootstrap {
                count: 1,
                outcome: Some(
                    match result {
                        Ok(v) => Ok(v),
                        Err(e) => Err(e.text()),
                    },
                ),
            },
        }
    }

    /// What the setup gave, or the error that it failed with; `None` before it has run.
    pub fn get(&self) -> (r: Option<Result<&B, JavaError>>)
        ensures
            match (self@.outcome, r) {
                (None, None) => true,
                (Some(Ok(b)), Some(Ok(x))) => b == *x,
                (Some(Err(s)), Some(Err(e))) => e@ == bootstrap_error(s),
                _ => false,
            },
    {
        match &self.outcome {
            None => None,
            Some(Ok(b)) => Some(Ok(b)),
            Some(Err(s)) => {
                let mut m = "rjava::interface: bootstrap failed: ".to_owned();
                m.push_str(s.as_str());
                Some(Err(JavaError::JvmStart(m)))
            },
        }
    }
}

/// How many times the setup has run: at most once.
pub fn bootstrap_count<B>(b: &Bootstrap<B>) -> (n: usize)
    ensures
        n == b@.count,
        n <= 1,
        runs_once(b@),
{
    proof {
        use_type_invariant(b);
    }
    b.count
}

/// The failure of the setup to make the directory for the shell class.
pub fn directory_error(path: &str, cause: &str) -> (e: JavaError)
    ensures
        e@ == ErrorModel::JvmStart(
            "rjava::interface: cannot create the temp class directory `"@ + path@ + "`: "@ + cause@,
        ),
{
    let mut m = "rjava::interface: cannot create the temp class directory `".to_owned();
    m.push_str(path);
    m.push_str("`: ");
    m.push_str(cause);
    JavaError::JvmStart(m)
}

/// The failure of the setup to write the shell class.
pub fn class_file_error(path: &str, cause: &str) -> (e: JavaError)
    ensures
        e@ == ErrorModel::JvmStart(
            "rjava::interface: cannot write the shell class to `"@ + path@ + "`: "@ + cause@,
        ),
{
    let mut m = "rjava::interface: cannot write the shell class to `".to_owned();
    m.push_str(path);
    m.push_str("`: ");
    m.push_str(cause);
    JavaError::JvmStart(m)
}

/// Whether parameter types that arrive match declared ones: as many, and each the same,
/// but that a declared `java.lang.Object` matches every type that is not primitive.
pub open spec fn params_match(declared: Seq<Seq<char>>, actual: Seq<Seq<char>>) -> bool {
    &&& declared.len() == actual.len()
    &&& forall|i: int|
        0 <= i < declared.len() ==> (#[trigger] declared[i] == "java.lang.Object"@ && !is_primitive(
            actual[i],
        )) || declared[i] == actual[i]
}

/// The characters of each string slice.
pub open spec fn slices(v: Seq<&str>) -> Seq<Seq<char>> {
    Seq::new(v.len(), |i: int| v[i]@)
}

/// Whether the parameter types of an arriving call match those of a declared method.
/// Nothing widens.
pub fn param_matches(declared: &[&str], actual: &[String]) -> (r: bool)
    ensures
        r == params_match(slices(declared@), views(actual@)),
{
    if declared.len() != actual.len() {
        return false;
    }
    let n = declared.len();
    let mut i: usize = 0;
    while i < n
        invariant
            i <= n,
            n == declared@.len(),
            n == actual@.len(),
            forall|k: int|
                0 <= k < i ==> (#[trigger] slices(declared@)[k] == "java.lang.Object"@
                    && !is_primitive(views(actual@)[k])) || slices(declared@)[k] == views(
                    actual@,
                )[k],
        decreases n - i,
    {
        let d: &str = declared[i];
        let a: &str = actual[i].as_str();
        if !((same(d, "java.lang.Object") && !is_primitive_name(a)) || same(d, a)) {
            assert(slices(declared@)[i as int] == d@);
            assert(views(actual@)[i as int] == a@);
            return false;
        }
        i += 1;
    }
    true
}

/// The methods of `Object` that are answered before any handler is asked.
#[derive(Clone, Copy, PartialEq, Eq, Structural, Debug)]
pub enum Reserved {
    ToString,
    HashCode,
    Equals,
}

/// The reserved method of exactly that name and those parameter types.
pub open spec fn reserved_method(name: Seq<char>, params: Seq<Seq<char>>) -> Option<Reserved> {
    if name == "toString"@ && params.len() == 0 {
        Some(Reserved::ToString)
    } else if name == "hashCode"@ && params.len() == 0 {
        Some(Reserved::HashCode)
    } else if name == "equals"@ && params.len() == 1 && params[0] == "java.lang.Object"@ {
        Some(Reserved::Equals)
    } else {
        None
    }
}

/// Which reserved method a call is for, if any.
pub fn intercept_object_method(name: &str, params: &Vec<String>) -> (r: Option<Reserved>)
    ensures
        r == reserved_method(name@, views(params@)),
{
    if same(name, "toString") && params.len() == 0 {
        Some(Reserved::ToString)
    } else if same(name, "hashCode") && params.len() == 0 {
        Some(Reserved::HashCode)
    } else if same(name, "equals") && params.len() == 1 && same(
        params[0].as_str(),
        "java.lang.Object",
    ) {
        Some(Reserved::Equals)
    } else {
        None
    }
}

/// The bits of a hash code, as an unsigned number.
pub open spec fn hash_bits(hash: i32) -> nat {
    if hash >= 0 {
        hash as nat
    } else {
        (hash + 0x1_0000_0000) as nat
    }
}

/// What `toString()` of a proxy gives: the class name and the identity hash, as `Object`
/// does it.
pub open spec fn identity_text(class: Seq<char>, hash: i32) -> Seq<char> {
    class + "@"@ + numeral(hash_bits(hash), 16)
}

/// What `toString()` of a proxy gives.
pub fn identity_string(class: &str, hash: i32) -> (s: String)
    ensures
        s@ == identity_text(class@, hash),
{
    let bits: u128 = if hash >= 0 {
        hash as u128
    } else {
        (hash as i64 + 0x1_0000_0000i64) as u128
    };
    let mut s = class.to_owned();
    s.push_str("@");
    s.push_str(numeral_of(bits, 16).as_str());
    s
}

/// The identity hash that the system returned.
pub fn identity_hash_code(v: &JavaValue) -> (r: Result<i32, JavaError>)
    ensures
        match r {
            Ok(h) => *v == JavaValue::Int(h),
            Err(e) => !(*v is Int) && e@ == misuse(
                "rjava::interface: System.identityHashCode did not return an int"@,
            ),
        },
{
    match v {
        JavaValue::Int(h) => Ok(*h),
        _ => Err(
            JavaError::InvalidArgument(
                "rjava::interface: System.identityHashCode did not return an int",
            ),
        ),
    }
}

/// The argument of `equals`: null where there is no argument array.
pub open spec fn only_argument(args: Option<Seq<ObjectRef>>) -> Result<ObjectRef, ErrorModel> {
    match args {
        None => Ok(None),
        Some(a) => if a.len() == 1 {
            Ok(a[0])
        } else {
            Err(
                misuse(
                    "rjava::interface: equals(Object) received an argument array of length != 1"@,
                ),
            )
        },
    }
}

/// The contents of an argument array, if there is one.
pub open spec fn array_of(args: Option<&Vec<ObjectRef>>) -> Option<Seq<ObjectRef>> {
    match args {
        None => None,
        Some(v) => Some(v@),
    }
}

/// The argument of `equals`.
pub fn sole_argument(args: Option<&Vec<ObjectRef>>) -> (r: Result<ObjectRef, JavaError>)
    ensures
        crate::error::outcome(r) == only_argument(array_of(args)),
{
    match args {
        None => Ok(None),
        Some(v) => if v.len() == 1 {
            Ok(v[0])
        } else {
            Err(
                JavaError::InvalidArgument(
                    "rjava::interface: equals(Object) received an argument array of length != 1",
                ),
            )
        },
    }
}

/// Where an argument of a handler comes from.
#[derive(Clone, Copy, PartialEq, Eq, Structural, Debug)]
pub enum ArgSource {
    /// The object as it is.
    Keep(ObjectRef),
    /// The primitive with that letter, which is read out of the wrapper object.
    Unbox(ObjectRef, char),
}

/// The handler's arguments for the argument array of a call: primitives are unboxed as
/// the parameter types say. Without an array there are no arguments.
pub open spec fn handler_args(args: Option<Seq<ObjectRef>>, params: Seq<Seq<char>>) -> Result<
    Seq<ArgSource>,
    ErrorModel,
> {
    match args {
        None => Ok(Seq::empty()),
        Some(a) => if a.len() != params.len() {
            Err(
                misuse(
                    "rjava::interface: the argument array length does not match the method's parameter count"@,
                ),
            )
        } else {
            Ok(
                Seq::new(
                    a.len(),
                    |i: int|
                        match letter_of(params[i]) {
                            Some(c) => ArgSource::Unbox(a[i], c),
                            None => ArgSource::Keep(a[i]),
                        },
                ),
            )
        },
    }
}

/// Where the handler's arguments come from.
pub fn build_arg_values(args: Option<&Vec<ObjectRef>>, params: &Vec<String>) -> (r: Result<
    Vec<ArgSource>,
    JavaError,
>)
    ensures
        match r {
            Ok(v) => handler_args(array_of(args), views(params@)) == Ok::<
                Seq<ArgSource>,
                ErrorModel,
            >(v@),
            Err(e) => handler_args(array_of(args), views(params@)) == Err::<
                Seq<ArgSource>,
                ErrorModel,
            >(e@),
        },
{
    let mut out: Vec<ArgSource> = Vec::new();
    let a = match args {
        None => {
            assert(out@ =~= Seq::empty());
            return Ok(out);
        },
        Some(a) => a,
    };
    if a.len() != params.len() {
        return Err(
            JavaError::InvalidArgument(
                "rjava::interface: the argument array length does not match the method's parameter count",
            ),
        );
    }
    let ghost all = handler_args(Some(a@), views(params@))->Ok_0;
    let mut i: usize = 0;
    while i < a.len()
        invariant
            i <= a@.len(),
            a@.len() == params@.len(),
            all == handler_args(Some(a@), views(params@))->Ok_0,
            out@ == all.take(i as int),
        decreases a@.len() - i,
    {
        match primitive_letter(params[i].as_str()) {
            Some(c) => out.push(ArgSource::Unbox(a[i], c)),
            None => out.push(ArgSource::Keep(a[i])),
        }
        i += 1;
        assert(out@ =~= all.take(i as int));
    }
    assert(out@ =~= all);
    Ok(out)
}

/// How a value becomes an object.
#[derive(Clone, Copy, PartialEq, Eq, Structural, Debug)]
pub enum Boxing {
    /// It is one, or null.
    Keep(ObjectRef),
    /// It goes into a wrapper object.
    Wrap(JavaArg),
}

/// How a value becomes the object that a proxied method returns: nothing becomes null.
pub open spec fn boxed(v: JavaValue) -> Boxing {
    match v {
        JavaValue::Object(o) => Boxing::Keep(o),
        JavaValue::Void => Boxing::Keep(None),
        JavaValue::Bool(x) => Boxing::Wrap(JavaArg::Bool(x)),
        JavaValue::Byte(x) => Boxing::Wrap(JavaArg::Byte(x)),
        JavaValue::Char(x) => Boxing::Wrap(JavaArg::Char(x)),
        JavaValue::Short(x) => Boxing::Wrap(JavaArg::Short(x)),
        JavaValue::Int(x) => Boxing::Wrap(JavaArg::Int(x)),
        JavaValue::Long(x) => Boxing::Wrap(JavaArg::Long(x)),
        JavaValue::Float(x) => Boxing::Wrap(JavaArg::Float(x)),
        JavaValue::Double(x) => Boxing::Wrap(JavaArg::Double(x)),
    }
}

/// How a value becomes the object that a proxied method returns.
pub fn box_value(v: &JavaValue) -> (b: Boxing)
    ensures
        b == boxed(*v),
{
    match v {
        JavaValue::Object(o) => Boxing::Keep(*o),
        JavaValue::Void => Boxing::Keep(None),
        JavaValue::Bool(x) => Boxing::Wrap(JavaArg::Bool(*x)),
        JavaValue::Byte(x) => Boxing::Wrap(JavaArg::Byte(*x)),
        JavaValue::Char(x) => Boxing::Wrap(JavaArg::Char(*x)),
        JavaValue::Short(x) => Boxing::Wrap(JavaArg::Short(*x)),
        JavaValue::Int(x) => Boxing::Wrap(JavaArg::Int(*x)),
        JavaValue::Long(x) => Boxing::Wrap(JavaArg::Long(*x)),
        JavaValue::Float(x) => Boxing::Wrap(JavaArg::Float(*x)),
        JavaValue::Double(x) => Boxing::Wrap(JavaArg::Double(*x)),
    }
}

/// The value that a method returns, from its converted result: the last value, and
/// nothing where there is none.
pub open spec fn returned(args: Seq<JavaArg>) -> JavaValue {
    if args.len() == 0 {
        JavaValue::Void
    } else {
        arg_value(args.last())
    }
}

/// The value that a method returns, from its converted result.
pub fn to_value(args: &Vec<JavaArg>) -> (v: JavaValue)
    ensures
        v == returned(args@),
{
    if args.len() == 0 {
        JavaValue::Void
    } else {
        to_jvalue(&args[args.len() - 1])
    }
}

/// A proxy needs an interface.
pub fn check_interfaces(interfaces: &Vec<String>) -> (r: Result<(), JavaError>)
    ensures
        match r {
            Ok(()) => interfaces@.len() > 0,
            Err(e) => interfaces@.len() == 0 && e@ == misuse(
                "rjava::interface::proxy requires at least one interface to implement"@,
            ),
        },
{
    if interfaces.len() == 0 {
        Err(
            JavaError::InvalidArgument(
                "rjava::interface::proxy requires at least one interface to implement",
            ),
        )
    } else {
        Ok(())
    }
}

/// The message where the name of an interface stands for no class.
pub const NO_SUCH_INTERFACE: &'static str = "rjava::interface::proxy: the name of an interface does not resolve to a class";

/// The error of a proxy whose interface could not be looked up: a name that stands for
/// no class is a misuse, and every other failure stands.
pub open spec fn lookup_error(e: ErrorModel) -> ErrorModel {
    if class_missing(e) {
        misuse(NO_SUCH_INTERFACE@)
    } else {
        e
    }
}

/// The error of a proxy whose interface could not be looked up.
pub fn interface_lookup_error(e: JavaError) -> (r: JavaError)
    ensures
        r@ == lookup_error(e@),
{
    if e.is_class_not_found() {
        JavaError::InvalidArgument(NO_SUCH_INTERFACE)
    } else {
        e
    }
}

/// Whether a declared interface is among those of a proxy. Slashes and dots in a name
/// are the same.
pub open spec fn is_among(declared: Seq<char>, interfaces: Seq<Seq<char>>) -> bool {
    exists|i: int|
        0 <= i < interfaces.len() && replaced(#[trigger] interfaces[i], '/', '.') == replaced(
            declared,
            '/',
            '.',
        )
}

/// The message where a typed proxy does not implement its declared interface.
pub const NOT_DECLARED: &'static str = "rjava::interface::proxy_typed: the declared interface (`interface!` class name) must be among the interfaces the proxy implements — the generated trait's methods can only be dispatched when the proxy implements the declared interface";

/// A typed proxy implements its declared interface.
pub fn check_declared(declared: &str, interfaces: &Vec<String>) -> (r: Result<(), JavaError>)
    ensures
        match r {
            Ok(()) => is_among(declared@, views(interfaces@)),
            Err(e) => !is_among(declared@, views(interfaces@)) && e@ == misuse(NOT_DECLARED@),
        },
{
    let dotted = replace_char(declared, '/', '.');
    let mut i: usize = 0;
    while i < interfaces.len()
        invariant
            i <= interfaces@.len(),
            dotted@ == replaced(declared@, '/', '.'),
            forall|k: int|
                0 <= k < i ==> replaced(#[trigger] views(interfaces@)[k], '/', '.') != dotted@,
        decreases interfaces@.len() - i,
    {
        let other = replace_char(interfaces[i].as_str(), '/', '.');
        assert(views(interfaces@)[i as int] == interfaces@[i as int]@);
        if same(other.as_str(), dotted.as_str()) {
            return Ok(());
        }
        i += 1;
    }
    Err(JavaError::InvalidArgument(NOT_DECLARED))
}

/// The class loader that a proxy is defined in: that of the first interface, or the
/// shell's where the interface has none.
pub fn loader_for(first: &JavaValue, shell: u64) -> (loader: u64)
    ensures
        loader == (match *first {
            JavaValue::Object(Some(o)) => o,
            _ => shell,
        }),
{
    match first {
        JavaValue::Object(Some(o)) => *o,
        _ => shell,
    }
}

/// The handler that the next shell which is constructed on a thread is bound to.
#[derive(Debug)]
pub struct Pending<H> {
    slot: Option<H>,
}

impl<H> View for Pending<H> {
    type V = Option<H>;

    closed spec fn view(&self) -> Option<H> {
        self.slot
    }
}

/// The message where a shell is constructed by something else than a proxy.
pub const NO_HANDLER: &'static str = "rjava::interface: an InvocationHandlerShell was constructed outside `interface::proxy`, so there is no pending Rust handler to bind; construct shells only through `proxy`";

impl<H> Pending<H> {
    /// Nothing is pending.
    pub fn new() -> (p: Self)
        ensures
            p@ is None,
    {
        Pending { slot: None }
    }

    /// A shell is about to be constructed for the handler.
    pub fn arm(&mut self, handler: H)
        ensures
            final(self)@ == Some(handler),
    {
        self.slot = Some(handler);
    }

    /// A shell is being constructed: it takes the handler.
    pub fn shell_init(&mut self) -> (r: Result<H, JavaError>)
        ensures
            final(self)@ is None,
            match r {
                Ok(h) => old(self)@ == Some(h),
                Err(e) => old(self)@ is None && e@ == misuse(NO_HANDLER@),
            },
    {
        match self.slot.take() {
            Some(h) => Ok(h),
            None => Err(JavaError::InvalidArgument(NO_HANDLER)),
        }
    }

    /// The construction is over, with or without success: nothing stays pending.
    pub fn disarm(&mut self)
        ensures
            final(self)@ is None,
    {
        self.slot = None;
    }
}

/// What the macro refuses to have declared is what is intercepted: a declared method never
/// hides behind a reserved one.
pub proof fn reserved_methods_are_refused(name: Seq<char>, params: Seq<Seq<char>>)
    ensures
        reserved_method(name, params) is Some <==> crate::mapping::reserved(name, params),
{
}

/// A call whose parameter types differ from a declared method's in a primitive type does
/// not match it, whichever side the primitive is on.
pub proof fn primitives_match_exactly(declared: Seq<Seq<char>>, actual: Seq<Seq<char>>, i: int)
    requires
        params_match(declared, actual),
        0 <= i < declared.len(),
        is_primitive(declared[i]) || is_primitive(actual[i]),
    ensures
        declared[i] == actual[i],
{
    if declared[i] == "java.lang.Object"@ {
        crate::matching::letters_name_primitives("java.lang.Object"@);
        reveal_strlit("java.lang.Object");
        reveal_strlit("boolean");
        reveal_strlit("byte");
        reveal_strlit("char");
        reveal_strlit("short");
        reveal_strlit("int");
        reveal_strlit("long");
        reveal_strlit("float");
        reveal_strlit("double");
        assert("java.lang.Object"@.len() == 16);
        assert("boolean"@.len() == 7 && "byte"@.len() == 4 && "char"@.len() == 4 && "short"@.len()
            == 5 && "int"@.len() == 3 && "long"@.len() == 4 && "float"@.len() == 5 && "double"@.len()
            == 6);
    }
}

/// Every declared parameter list matches itself.
pub proof fn declared_methods_match_themselves(declared: Seq<Seq<char>>)
    ensures
        params_match(declared, declared),
{
}

/// Boxing keeps the value: what goes into the wrapper is what was there.
pub proof fn boxing_keeps_the_value(v: JavaValue)
    ensures
        match boxed(v) {
            Boxing::Keep(o) => v == JavaValue::Object(o) || v == JavaValue::Void && o is None,
            Boxing::Wrap(a) => arg_value(a) == v && crate::value::arg_letter(a) is Some,
        },
{
}

/// The object that a proxied method returns: an object as it is, nothing as null, and a
/// primitive as the wrapper of the same type that holds the same.
pub proof fn returned_values_are_boxed_as_they_are(
    o: ObjectRef,
    z: bool,
    b: i8,
    c: u16,
    s: i16,
    i: i32,
    j: i64,
    f: u32,
    d: u64,
)
    ensures
        boxed(JavaValue::Object(o)) == Boxing::Keep(o),
        boxed(JavaValue::Void) == Boxing::Keep(None),
        boxed(JavaValue::Bool(z)) == Boxing::Wrap(JavaArg::Bool(z)),
        boxed(JavaValue::Byte(b)) == Boxing::Wrap(JavaArg::Byte(b)),
        boxed(JavaValue::Char(c)) == Boxing::Wrap(JavaArg::Char(c)),
        boxed(JavaValue::Short(s)) == Boxing::Wrap(JavaArg::Short(s)),
        boxed(JavaValue::Int(i)) == Boxing::Wrap(JavaArg::Int(i)),
        boxed(JavaValue::Long(j)) == Boxing::Wrap(JavaArg::Long(j)),
        boxed(JavaValue::Float(f)) == Boxing::Wrap(JavaArg::Float(f)),
        boxed(JavaValue::Double(d)) == Boxing::Wrap(JavaArg::Double(d)),
{
}

/// The result of a typed method is its last converted value, and nothing where it has none.
pub proof fn the_last_value_is_returned(args: Seq<JavaArg>, a: JavaArg)
    ensures
        returned(args.push(a)) == arg_value(a),
        args.len() == 0 ==> returned(args) == JavaValue::Void,
{
}

/// A handler gets as many arguments as the call has, in order: each object is the one that
/// stands at its place in the argument array, to be read as the primitive that the
/// parameter at that place is, or to be kept. Without an array there are none.
pub proof fn arguments_keep_their_places(
    a: Seq<ObjectRef>,
    params: Seq<Seq<char>>,
    i: int,
)
    requires
        0 <= i < a.len(),
    ensures
        handler_args(None, params) == Ok::<Seq<ArgSource>, ErrorModel>(Seq::empty()),
        a.len() != params.len() ==> handler_args(Some(a), params) is Err,
        a.len() == params.len() ==> (handler_args(Some(a), params) matches Ok(v) && v.len()
            == a.len() && match v[i] {
            ArgSource::Keep(o) => o == a[i] && letter_of(params[i]) is None,
            ArgSource::Unbox(o, c) => o == a[i] && letter_of(params[i]) == Some(c),
        }),
{
}

/// The methods that are answered without the handler are these three, and no overload of
/// them.
pub proof fn three_methods_are_reserved(name: Seq<char>, params: Seq<Seq<char>>)
    ensures
        reserved_method("toString"@, Seq::empty()) == Some(Reserved::ToString),
        reserved_method("hashCode"@, Seq::empty()) == Some(Reserved::HashCode),
        reserved_method("equals"@, seq!["java.lang.Object"@]) == Some(Reserved::Equals),
        reserved_method(name, params) is Some ==> (params.len() == 0 && (name == "toString"@ || name
            == "hashCode"@)) || (name == "equals"@ && params == seq!["java.lang.Object"@]),
{
    reveal_strlit("toString");
    reveal_strlit("hashCode");
    reveal_strlit("equals");
    assert("toString"@.len() == 8 && "hashCode"@.len() == 8 && "equals"@.len() == 6);
    assert("toString"@[0] == 't' && "hashCode"@[0] == 'h');
    if params.len() == 1 && params[0] == "java.lang.Object"@ {
        assert(params =~= seq!["java.lang.Object"@]);
    }
}

/// A call is for a declared method where it has as many parameters, and each has the
/// declared type, or is any reference where `Object` is declared.
pub proof fn calls_match_by_their_parameters(
    declared: Seq<Seq<char>>,
    actual: Seq<Seq<char>>,
    i: int,
)
    ensures
        declared.len() != actual.len() ==> !params_match(declared, actual),
        params_match(declared, actual) && 0 <= i < declared.len() ==> declared[i] == actual[i] || (
        declared[i] == "java.lang.Object"@ && letter_of(actual[i]) is None),
        declared.len() == actual.len() && (forall|k: int|
            0 <= k < declared.len() ==> #[trigger] declared[k] == actual[k] || declared[k]
                == "java.lang.Object"@ && letter_of(actual[k]) is None) ==> params_match(
            declared,
            actual,
        ),
{
    assert forall|k: int| 0 <= k < actual.len() implies (letter_of(#[trigger] actual[k]) is Some
        <==> is_primitive(actual[k])) by {
        crate::matching::letters_name_primitives(actual[k]);
    }
    if params_match(declared, actual) && 0 <= i < declared.len() {
        assert(declared[i] == declared[i]);
        crate::matching::letters_name_primitives(actual[i]);
    }
}

/// An interface that is not found is a misuse; every other failure to look one up stands.
pub proof fn lookup_failures_stand(e: ErrorModel)
    ensures
        lookup_error(e) == e || (class_missing(e) && lookup_error(e) is InvalidArgument),
        class_missing(e) ==> lookup_error(e) is InvalidArgument,
{
}

/// A declared interface is found among those of a proxy whether it is written with dots or
/// with slashes, and is not found where no name is the same.
pub proof fn interfaces_are_found_by_name(declared: Seq<char>, interfaces: Seq<Seq<char>>, i: int)
    ensures
        0 <= i < interfaces.len() && interfaces[i].len() == declared.len() && (forall|k: int|
            0 <= k < declared.len() ==> #[trigger] interfaces[i][k] == declared[k] || (interfaces[i][k]
                == '/' || interfaces[i][k] == '.') && (declared[k] == '/' || declared[k] == '.'))
            ==> is_among(declared, interfaces),
        (forall|j: int|
            0 <= j < interfaces.len() ==> (#[trigger] interfaces[j]).len() != declared.len())
            ==> !is_among(declared, interfaces),
{
    if 0 <= i < interfaces.len() && interfaces[i].len() == declared.len() && (forall|k: int|
        0 <= k < declared.len() ==> #[trigger] interfaces[i][k] == declared[k] || (interfaces[i][k]
            == '/' || interfaces[i][k] == '.') && (declared[k] == '/' || declared[k] == '.')) {
        assert(replaced(interfaces[i], '/', '.') =~= replaced(declared, '/', '.'));
    }
    if is_among(declared, interfaces) {
        let j = choose|j: int|
            0 <= j < interfaces.len() && replaced(#[trigger] interfaces[j], '/', '.') == replaced(
                declared,
                '/',
                '.',
            );
        assert(replaced(interfaces[j], '/', '.').len() == interfaces[j].len());
        assert(replaced(declared, '/', '.').len() == declared.len());
    }
}

/// The text of a proxy is its class, an at sign and the digits of its identity hash, taken
/// as an unsigned number.
pub proof fn identity_texts_name_class_and_hash(class: Seq<char>, hash: i32)
    ensures
        identity_text(class, hash).take(class.len() as int) == class,
        identity_text(class, hash)[class.len() as int] == '@',
        identity_text(class, hash).skip(class.len() as int + 1) == numeral(hash_bits(hash), 16),
        hash >= 0 ==> hash_bits(hash) == hash,
        hash < 0 ==> hash_bits(hash) == hash + 0x1_0000_0000,
{
    reveal_strlit("@");
    let t = identity_text(class, hash);
    assert(t.take(class.len() as int) =~= class);
    assert(t.skip(class.len() as int + 1) =~= numeral(hash_bits(hash), 16));
}

/// The argument of `equals` is the only one of its array, whatever it is, and null without
/// an array.
pub proof fn equals_takes_its_only_argument(o: ObjectRef, a: Seq<ObjectRef>)
    ensures
        only_argument(Some(seq![o])) == Ok::<ObjectRef, ErrorModel>(o),
        only_argument(None) == Ok::<ObjectRef, ErrorModel>(None),
        a.len() != 1 ==> only_argument(Some(a)) is Err,
{
}

}
