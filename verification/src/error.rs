use vstd::prelude::*;

use crate::text::same;

verus! {

/// What a failure of the JNI layer is about, as far as the library tells them apart.
#[derive(Clone, Copy, PartialEq, Eq, Structural, Debug)]
pub enum JniErrorKind {
    /// A method lookup found nothing.
    MethodNotFound,
    /// A field lookup found nothing.
    FieldNotFound,
    /// A registration named a method that the class does not have.
    NoSuchMethod,
    /// A class lookup found nothing.
    ClassNotFound,
    /// Any other failure.
    Other,
}

/// A failure of the JNI layer.
#[derive(Debug)]
pub struct JniError {
    pub kind: JniErrorKind,
    /// How the JNI layer words it.
    pub text: String,
}

/// The one error type of the library.
#[derive(Debug)]
pub enum JavaError {
    /// A failure of the JNI layer.
    Jni(JniError),
    /// A Java exception was thrown, and has been captured and cleared.
    JavaException {
        /// The binary name of the exception class.
        class: String,
        /// The value of `Throwable.getMessage()`, which may be empty.
        message: String,
    },
    /// A misuse of the library.
    InvalidArgument(&'static str),
    /// The virtual machine could not be created or located.
    JvmStart(String),
    /// A serialization failure, which names the offending value.
    Serde(String),
    /// A failed operation, and what it failed with.
    WithContext { source: Box<JavaError>, operation: String },
}

/// The mathematical content of a [`JniError`].
pub struct JniErrorModel {
    pub kind: JniErrorKind,
    pub text: Seq<char>,
}

/// The mathematical content of a [`JavaError`].
pub enum ErrorModel {
    Jni(JniErrorModel),
    JavaException { class: Seq<char>, message: Seq<char> },
    InvalidArgument(Seq<char>),
    JvmStart(Seq<char>),
    Serde(Seq<char>),
    WithContext { source: Box<ErrorModel>, operation: Seq<char> },
}

/// The content of an error.
pub open spec fn error_model(e: JavaError) -> ErrorModel
    decreases e,
{
    match e {
        JavaError::Jni(j) => ErrorModel::Jni(JniErrorModel { kind: j.kind, text: j.text@ }),
        JavaError::JavaException { class, message } => ErrorModel::JavaException {
            class: class@,
            message: message@,
        },
        JavaError::InvalidArgument(m) => ErrorModel::InvalidArgument(m@),
        JavaError::JvmStart(m) => ErrorModel::JvmStart(m@),
        JavaError::Serde(m) => ErrorModel::Serde(m@),
        JavaError::WithContext { source, operation } => ErrorModel::WithContext {
            source: Box::new(error_model(*source)),
            operation: operation@,
        },
    }
}

impl View for JavaError {
    type V = ErrorModel;

    open spec fn view(&self) -> ErrorModel {
        error_model(*self)
    }
}

/// An API misuse with that message.
pub open spec fn misuse(message: Seq<char>) -> ErrorModel {
    ErrorModel::InvalidArgument(message)
}

/// The content of a result whose error is a [`JavaError`].
pub open spec fn outcome<T>(r: Result<T, JavaError>) -> Result<T, ErrorModel> {
    match r {
        Ok(t) => Ok(t),
        Err(e) => Err(e@),
    }
}

/// The one-line rendering of an error. A Java exception renders as Java does, and an
/// operation comes before what it failed with.
pub open spec fn error_text(e: ErrorModel) -> Seq<char>
    decreases e,
{
    match e {
        ErrorModel::Jni(j) => "JNI error: "@ + j.text,
        ErrorModel::JavaException { class, message } => if message.len() == 0 {
            class
        } else {
            class + ": "@ + message
        },
        ErrorModel::InvalidArgument(m) => "invalid argument: "@ + m,
        ErrorModel::JvmStart(m) => "failed to start the JVM: "@ + m,
        ErrorModel::Serde(m) => "serde conversion failed: "@ + m,
        ErrorModel::WithContext { source, operation } => operation + ": "@ + error_text(*source),
    }
}

/// The error with the operation that failed, unless it names one already.
pub open spec fn contextual(e: ErrorModel, operation: Seq<char>) -> ErrorModel {
    match e {
        ErrorModel::WithContext { .. } => e,
        _ => ErrorModel::WithContext { source: Box::new(e), operation },
    }
}

/// Whether a failed dynamic operation names itself in this error: not in one that
/// names its operation already, and not in a missing field, which callers look for.
pub open spec fn wants_operation(e: ErrorModel) -> bool {
    match e {
        ErrorModel::WithContext { .. } => false,
        ErrorModel::Jni(j) => j.kind != JniErrorKind::FieldNotFound,
        _ => true,
    }
}

/// The error of a failed dynamic operation.
pub open spec fn operation_error(e: ErrorModel, operation: Seq<char>) -> ErrorModel {
    if wants_operation(e) {
        contextual(e, operation)
    } else {
        e
    }
}

/// How the JNI layer failed: with an exception that it caught, or in itself.
pub enum JniFailure {
    /// A Java exception that the JNI layer caught and cleared.
    Caught { class: String, message: String },
    /// Any other failure.
    Failed(JniError),
}

/// The error of a JNI failure: a caught exception is a Java exception.
pub open spec fn failure_error(f: JniFailure) -> ErrorModel {
    match f {
        JniFailure::Caught { class, message } => ErrorModel::JavaException {
            class: class@,
            message: message@,
        },
        JniFailure::Failed(e) => ErrorModel::Jni(JniErrorModel { kind: e.kind, text: e.text@ }),
    }
}

/// What an error came of.
#[derive(Debug)]
pub enum ErrorSource<'a> {
    /// A failure of the JNI layer.
    Jni(&'a JniError),
    /// An error of the library.
    Java(&'a JavaError),
}

/// The mathematical content of an [`ErrorSource`].
pub enum SourceModel {
    Jni(JniErrorModel),
    Java(ErrorModel),
}

impl<'a> View for ErrorSource<'a> {
    type V = SourceModel;

    open spec fn view(&self) -> SourceModel {
        match *self {
            ErrorSource::Jni(j) => SourceModel::Jni(JniErrorModel { kind: j.kind, text: j.text@ }),
            ErrorSource::Java(e) => SourceModel::Java(e@),
        }
    }
}

/// What an error came of.
pub open spec fn error_source(e: ErrorModel) -> Option<SourceModel> {
    match e {
        ErrorModel::Jni(j) => Some(SourceModel::Jni(j)),
        ErrorModel::WithContext { source, .. } => Some(SourceModel::Java(*source)),
        _ => None,
    }
}

impl JavaError {
    /// The one-line rendering of the error.
    pub fn text(&self) -> (s: String)
        ensures
            s@ == error_text(self@),
        decreases *self,
    {
        match self {
            JavaError::Jni(j) => {
                let mut s = "JNI error: ".to_owned();
                s.push_str(j.text.as_str());
                s
            },
            JavaError::JavaException { class, message } => {
                let mut s = class.as_str().to_owned();
                if !message.as_str().is_empty() {
                    s.push_str(": ");
                    s.push_str(message.as_str());
                }
                s
            },
            JavaError::InvalidArgument(m) => {
                let mut s = "invalid argument: ".to_owned();
                s.push_str(m);
                s
            },
            JavaError::JvmStart(m) => {
                let mut s = "failed to start the JVM: ".to_owned();
                s.push_str(m.as_str());
                s
            },
            JavaError::Serde(m) => {
                let mut s = "serde conversion failed: ".to_owned();
                s.push_str(m.as_str());
                s
            },
            JavaError::WithContext { source, operation } => {
                let mut s = operation.as_str().to_owned();
                s.push_str(": ");
                s.push_str(source.text().as_str());
                s
            },
        }
    }

    /// Attaches the operation that failed. An error that names its operation already is
    /// returned unchanged.
    pub fn with_operation(self, operation: String) -> (e: JavaError)
        ensures
            e@ == contextual(self@, operation@),
    {
        match self {
            JavaError::WithContext { source, operation: first } => JavaError::WithContext {
                source,
                operation: first,
            },
            other => JavaError::WithContext { source: Box::new(other), operation },
        }
    }

    /// What this error came of: the failure of the JNI layer, or the error that a failed
    /// operation failed with.
    pub fn source(&self) -> (s: Option<ErrorSource<'_>>)
        ensures
            match s {
                Some(x) => error_source(self@) == Some(x@),
                None => error_source(self@) is None,
            },
    {
        match self {
            JavaError::Jni(j) => Some(ErrorSource::Jni(j)),
            JavaError::WithContext { source, .. } => Some(ErrorSource::Java(source)),
            _ => None,
        }
    }

    /// The error of a JNI failure: an exception that the JNI layer caught is a Java
    /// exception.
    pub fn from_jni(failure: JniFailure) -> (e: JavaError)
        ensures
            e@ == failure_error(failure),
    {
        match failure {
            JniFailure::Caught { class, message } => JavaError::JavaException { class, message },
            JniFailure::Failed(e) => JavaError::Jni(e),
        }
    }

    /// Whether a failed dynamic operation should name itself in this error.
    pub fn takes_operation(&self) -> (r: bool)
        ensures
            r == wants_operation(self@),
    {
        match self {
            JavaError::WithContext { .. } => false,
            JavaError::Jni(j) => j.kind != JniErrorKind::FieldNotFound,
            _ => true,
        }
    }

    /// Whether a method lookup found nothing.
    pub fn is_method_not_found(&self) -> (r: bool)
        ensures
            r == method_missing(self@),
    {
        match self {
            JavaError::Jni(j) => j.kind == JniErrorKind::MethodNotFound,
            _ => false,
        }
    }

    /// Whether a class lookup found nothing.
    pub fn is_class_not_found(&self) -> (r: bool)
        ensures
            r == class_missing(self@),
    {
        match self {
            JavaError::Jni(j) => j.kind == JniErrorKind::ClassNotFound,
            JavaError::JavaException { class, .. } => same(
                class.as_str(),
                "java.lang.ClassNotFoundException",
            ) || same(class.as_str(), "java.lang.NoClassDefFoundError"),
            _ => false,
        }
    }

    /// Whether a field lookup found nothing.
    pub fn is_field_not_found(&self) -> (r: bool)
        ensures
            r == field_missing(self@),
    {
        match self {
            JavaError::Jni(j) => j.kind == JniErrorKind::FieldNotFound,
            _ => false,
        }
    }
}

/// Whether an error says that a method lookup found nothing.
pub open spec fn method_missing(e: ErrorModel) -> bool {
    e matches ErrorModel::Jni(j) && j.kind == JniErrorKind::MethodNotFound
}

/// Whether an error says that a field lookup found nothing.
pub open spec fn field_missing(e: ErrorModel) -> bool {
    e matches ErrorModel::Jni(j) && j.kind == JniErrorKind::FieldNotFound
}

/// Whether an error says that a class lookup found nothing: the lookup of the JNI layer,
/// or one that Java made.
pub open spec fn class_missing(e: ErrorModel) -> bool {
    match e {
        ErrorModel::Jni(j) => j.kind == JniErrorKind::ClassNotFound,
        ErrorModel::JavaException { class, .. } => class == "java.lang.ClassNotFoundException"@
            || class == "java.lang.NoClassDefFoundError"@,
        _ => false,
    }
}

/// The error of a failed dynamic operation.
pub fn operation_context(err: JavaError, operation: String) -> (e: JavaError)
    ensures
        e@ == operation_error(err@, operation@),
{
    if err.takes_operation() {
        err.with_operation(operation)
    } else {
        err
    }
}

/// The error of an operation that reports what Java threw: the exception itself, without
/// the operation. Every other error stands.
pub open spec fn reported_error(e: ErrorModel) -> ErrorModel {
    match e {
        ErrorModel::WithContext { source, .. } => if *source is JavaException {
            *source
        } else {
            e
        },
        _ => e,
    }
}

/// The error of an operation that reports what Java threw, as running `main` and making
/// a proxy do.
pub fn thrown_error(e: JavaError) -> (r: JavaError)
    ensures
        r@ == reported_error(e@),
{
    match e {
        JavaError::WithContext { source, operation } => {
            let thrown = match &*source {
                JavaError::JavaException { .. } => true,
                _ => false,
            };
            if thrown {
                *source
            } else {
                JavaError::WithContext { source, operation }
            }
        },
        other => other,
    }
}

/// An exception is reported as it was thrown, whatever the operation is called.
pub proof fn exceptions_are_reported_plainly(
    class: Seq<char>,
    message: Seq<char>,
    operation: Seq<char>,
)
    ensures
        ({
            let thrown = ErrorModel::JavaException { class, message };
            &&& reported_error(operation_error(thrown, operation)) == thrown
            &&& reported_error(thrown) == thrown
        }),
{
}

/// The error of a class loader that failed to load a class: a class that it does not find
/// is the exception that the loader throws, without the operation.
pub open spec fn loading_error(e: ErrorModel) -> ErrorModel {
    match e {
        ErrorModel::WithContext { source, .. } => match *source {
            ErrorModel::JavaException { class, .. } => if class
                == "java.lang.ClassNotFoundException"@ {
                *source
            } else {
                e
            },
            _ => e,
        },
        _ => e,
    }
}

/// The error of a class loader that failed to load a class.
pub fn load_class_error(e: JavaError) -> (r: JavaError)
    ensures
        r@ == loading_error(e@),
{
    match e {
        JavaError::WithContext { source, operation } => {
            let missing = match &*source {
                JavaError::JavaException { class, .. } => same(
                    class.as_str(),
                    "java.lang.ClassNotFoundException",
                ),
                _ => false,
            };
            if missing {
                *source
            } else {
                JavaError::WithContext { source, operation }
            }
        },
        other => other,
    }
}

/// A class loader that does not find a class fails with a plain
/// `ClassNotFoundException`, whatever the operation is called.
pub proof fn missing_classes_are_plain(message: Seq<char>, operation: Seq<char>)
    ensures
        ({
            let thrown = ErrorModel::JavaException {
                class: "java.lang.ClassNotFoundException"@,
                message,
            };
            &&& loading_error(operation_error(thrown, operation)) == thrown
            &&& loading_error(thrown) == thrown
        }),
{
}

/// The pending Java exception that was captured: what the JNI layer caught, or an
/// exception without class and message where it caught none.
pub fn capture_exception(caught: Option<JniFailure>) -> (e: JavaError)
    ensures
        e@ == (match caught {
            None => ErrorModel::JavaException { class: Seq::empty(), message: Seq::empty() },
            Some(f) => failure_error(f),
        }),
{
    match caught {
        None => JavaError::JavaException { class: String::new(), message: String::new() },
        Some(f) => JavaError::from_jni(f),
    }
}

/// The result of an operation after which an exception may be pending: the exception
/// wins over whatever the operation returned.
pub fn with_check<T>(result: Result<T, JavaError>, pending: Option<JavaError>) -> (r: Result<
    T,
    JavaError,
>)
    ensures
        r == (match pending {
            Some(e) => Err::<T, JavaError>(e),
            None => result,
        }),
{
    match pending {
        Some(e) => Err(e),
        None => result,
    }
}

/// An error never names more than one operation.
pub proof fn operations_do_not_stack(e: ErrorModel, first: Seq<char>, second: Seq<char>)
    ensures
        contextual(contextual(e, first), second) == contextual(e, first),
        operation_error(operation_error(e, first), second) == operation_error(e, first),
{
}

/// A named operation is shown before the error it failed with.
pub proof fn operation_comes_first(e: ErrorModel, operation: Seq<char>)
    requires
        !(e is WithContext),
    ensures
        error_text(contextual(e, operation)) == operation + ": "@ + error_text(e),
{
}

/// An error shows what it is: each kind with its texts, and a failed operation with what it
/// failed with.
pub proof fn errors_are_what_they_show(e: JavaError)
    ensures
        match e {
            JavaError::Jni(j) => e@ == ErrorModel::Jni(JniErrorModel { kind: j.kind, text: j.text@ }),
            JavaError::JavaException { class, message } => e@ == (ErrorModel::JavaException {
                class: class@,
                message: message@,
            }),
            JavaError::InvalidArgument(m) => e@ == ErrorModel::InvalidArgument(m@),
            JavaError::JvmStart(m) => e@ == ErrorModel::JvmStart(m@),
            JavaError::Serde(m) => e@ == ErrorModel::Serde(m@),
            JavaError::WithContext { source, operation } => (e@ matches ErrorModel::WithContext {
                source: s,
                operation: o,
            } && *s == source@ && o == operation@),
        },
{
}

/// How an error reads: an exception as its class, and its message behind a colon where it
/// has one; any other error behind what it is about; and an operation before its failure.
pub proof fn errors_read_as_java_shows_them(
    class: Seq<char>,
    message: Seq<char>,
    j: JniErrorModel,
    e: ErrorModel,
    operation: Seq<char>,
)
    ensures
        message.len() == 0 ==> error_text(ErrorModel::JavaException { class, message }) == class,
        message.len() > 0 ==> error_text(ErrorModel::JavaException { class, message }) == class
            + ": "@ + message,
        error_text(ErrorModel::Jni(j)) == "JNI error: "@ + j.text,
        error_text(ErrorModel::InvalidArgument(message)) == "invalid argument: "@ + message,
        error_text(ErrorModel::JvmStart(message)) == "failed to start the JVM: "@ + message,
        error_text(ErrorModel::Serde(message)) == "serde conversion failed: "@ + message,
        error_text(ErrorModel::WithContext { source: Box::new(e), operation }) == operation + ": "@
            + error_text(e),
{
}

/// An error takes the name of the operation that failed, and keeps itself as the source;
/// one that has a name keeps it, and a missing field stays as it is.
pub proof fn operations_wrap_their_failure(e: ErrorModel, operation: Seq<char>)
    ensures
        !(e is WithContext) ==> (contextual(e, operation) matches ErrorModel::WithContext {
            source,
            operation: o,
        } && *source == e && o == operation),
        e is WithContext ==> contextual(e, operation) == e && operation_error(e, operation) == e,
        e matches ErrorModel::Jni(j) && j.kind == JniErrorKind::FieldNotFound ==> operation_error(
            e,
            operation,
        ) == e,
        !(e is WithContext) && !(e matches ErrorModel::Jni(j) && j.kind
            == JniErrorKind::FieldNotFound) ==> operation_error(e, operation) == contextual(
            e,
            operation,
        ),
        error_source(contextual(e, operation)) is Some,
        !(e is WithContext) ==> error_source(contextual(e, operation)) == Some(SourceModel::Java(e)),
        e matches ErrorModel::Jni(j) ==> error_source(e) == Some(SourceModel::Jni(e->Jni_0)),
        !(e is WithContext) && !(e is Jni) ==> error_source(e) is None,
{
}

/// What is missing is told by the error: a method and a field by the JNI layer, and a class
/// by the JNI layer or by either of Java's two exceptions for it.
pub proof fn missing_things_are_told_apart(
    text: Seq<char>,
    kind: JniErrorKind,
    class: Seq<char>,
    message: Seq<char>,
)
    ensures
        ({
            let e = ErrorModel::Jni(JniErrorModel { kind, text });
            &&& method_missing(e) <==> kind == JniErrorKind::MethodNotFound
            &&& field_missing(e) <==> kind == JniErrorKind::FieldNotFound
            &&& class_missing(e) <==> kind == JniErrorKind::ClassNotFound
        }),
        ({
            let e = ErrorModel::JavaException { class, message };
            &&& !method_missing(e) && !field_missing(e)
            &&& class_missing(e) <==> class == "java.lang.ClassNotFoundException"@ || class
                == "java.lang.NoClassDefFoundError"@
        }),
{
}

/// Reporting what Java threw, and reporting a class that is missing, change nothing else.
pub proof fn other_errors_stand(e: ErrorModel)
    ensures
        reported_error(e) == e || (e matches ErrorModel::WithContext { source, .. } && *source
            is JavaException && reported_error(e) == *source),
        loading_error(e) == e || (e matches ErrorModel::WithContext { source, .. } && (*source
            matches ErrorModel::JavaException { class, .. } && class
            == "java.lang.ClassNotFoundException"@) && loading_error(e) == *source),
{
}

/// A JNI failure becomes the exception that it caught, or stays what it is.
pub proof fn jni_failures_keep_their_content(f: JniFailure)
    ensures
        match f {
            JniFailure::Caught { class, message } => failure_error(f) == (
            ErrorModel::JavaException { class: class@, message: message@ }),
            JniFailure::Failed(e) => failure_error(f) == ErrorModel::Jni(
                JniErrorModel { kind: e.kind, text: e.text@ },
            ),
        },
{
}

/// What Java threw is reported in place of the operation that it came from, whatever that
/// was; a class loader does so where the class was not found. Any other failure keeps its
/// operation.
pub proof fn thrown_exceptions_are_reported_bare(
    class: Seq<char>,
    message: Seq<char>,
    operation: Seq<char>,
    other: ErrorModel,
)
    ensures
        ({
            let thrown = ErrorModel::JavaException { class, message };
            let named = ErrorModel::WithContext { source: Box::new(thrown), operation };
            &&& reported_error(named) == thrown
            &&& reported_error(thrown) == thrown && loading_error(thrown) == thrown
            &&& class == "java.lang.ClassNotFoundException"@ ==> loading_error(named) == thrown
            &&& class != "java.lang.ClassNotFoundException"@ ==> loading_error(named) == named
        }),
        !(other is JavaException) ==> {
            let named = ErrorModel::WithContext { source: Box::new(other), operation };
            reported_error(named) == named && loading_error(named) == named
        },
        !(other is WithContext) ==> reported_error(other) == other && loading_error(other) == other,
{
}

}
