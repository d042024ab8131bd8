use rjava::call::{
    accessor_name, call_operation, constructor_operation, expect_flag, expect_object,
    field_operation, field_value, java_arg_fragment, java_arg_fragments, Attempt, CallStep,
    FlagReader, FlagStep,
};
use rjava::error::{
    capture_exception, load_class_error, operation_context, thrown_error, with_check, ErrorSource,
    JavaError, JniError, JniErrorKind, JniFailure,
};
use rjava::interface::{interface_lookup_error, NO_SUCH_INTERFACE};
use rjava::jni_text::{accepted, is_method_signature, parse_field_sig, parse_method_sig, Signatures};
use rjava::matching::{
    arg_matches_param, box_primitive, is_boxable_param_class, primitive_letter, reader_method,
    unbox_primitive, wrapper_class, Fit,
};
use rjava::names::{
    arg_java_names, class_name_to_fragment, fragment_to_java_name, is_primitive_name,
    split_method_sig,
};
use rjava::natives::{
    after_corrections, after_first_attempt, after_last_attempt, check_trampolines, correctable_among,
    correctable_params, corrections_among, is_nosuchmethod,
    resolve_derived_native_sigs, FindStep, NativeMethod, RegisterStep, ReturnFinder,
    SHARED_TRAMPOLINE,
};
use rjava::resolve::{Answer, Ask, Resolver, Step};
use rjava::value::{JavaArg, JavaValue};

fn missing() -> JavaError {
    JavaError::Jni(JniError { kind: JniErrorKind::MethodNotFound, text: "missing".to_string() })
}

fn field_missing() -> JavaError {
    JavaError::Jni(JniError { kind: JniErrorKind::FieldNotFound, text: "missing".to_string() })
}

fn message<T: std::fmt::Debug>(r: Result<T, JavaError>) -> String {
    match r {
        Err(JavaError::InvalidArgument(m)) => m.to_string(),
        other => panic!("expected a misuse, got {other:?}"),
    }
}

#[test]
fn operations_are_named() {
    assert_eq!(
        call_operation("parseInt", "Ljava/lang/String;", Some("java.lang.Integer")),
        "calling parseInt(String) on java.lang.Integer"
    );
    assert_eq!(call_operation("add", "I[J", None), "calling add(int, long[])");
    assert_eq!(
        constructor_operation("[Ljava/lang/String;Z", Some("a.B")),
        "constructing a.B(String[], boolean)"
    );
    assert_eq!(constructor_operation("", None), "constructing <unknown class>()");
    assert_eq!(
        field_operation("reading", "PI", true, Some("java.lang.Math")),
        "reading static field PI on java.lang.Math"
    );
    assert_eq!(field_operation("writing", "x", false, None), "writing field x");
}

#[test]
fn errors_render_like_java() {
    let e = JavaError::JavaException {
        class: "java.lang.NumberFormatException".to_string(),
        message: "For input string: \"x\"".to_string(),
    };
    assert_eq!(e.text(), "java.lang.NumberFormatException: For input string: \"x\"");
    let e = e.with_operation("calling f()".to_string());
    assert_eq!(
        e.text(),
        "calling f(): java.lang.NumberFormatException: For input string: \"x\""
    );
    let e = e.with_operation("calling g()".to_string());
    assert!(e.text().starts_with("calling f(): "));
    assert!(matches!(e.source(), Some(ErrorSource::Java(JavaError::JavaException { .. }))));
    assert_eq!(
        JavaError::JavaException { class: "a.B".to_string(), message: String::new() }.text(),
        "a.B"
    );
    assert_eq!(JavaError::InvalidArgument("bad").text(), "invalid argument: bad");
    assert_eq!(JavaError::JvmStart("x".to_string()).text(), "failed to start the JVM: x");
    assert_eq!(JavaError::Serde("x".to_string()).text(), "serde conversion failed: x");
    assert_eq!(missing().text(), "JNI error: missing");
    assert!(matches!(missing().source(), Some(ErrorSource::Jni(j)) if j.text == "missing"));
    assert!(JavaError::InvalidArgument("bad").source().is_none());
}

#[test]
fn failed_operations_name_themselves() {
    let e = operation_context(JavaError::InvalidArgument("bad"), "calling f()".to_string());
    assert_eq!(e.text(), "calling f(): invalid argument: bad");
    let e = operation_context(e, "calling g()".to_string());
    assert_eq!(e.text(), "calling f(): invalid argument: bad");
    let e = operation_context(field_missing(), "reading field x".to_string());
    assert!(e.is_field_not_found());
}

#[test]
fn exceptions_win_over_results() {
    let thrown = || JavaError::JavaException { class: "E".to_string(), message: String::new() };
    assert!(with_check(Ok(1), Some(thrown())).is_err());
    assert_eq!(with_check(Ok(1), None).unwrap(), 1);
    assert!(matches!(
        with_check::<()>(Err(missing()), Some(thrown())),
        Err(JavaError::JavaException { .. })
    ));
    assert_eq!(capture_exception(None).text(), "");
    let caught = JniFailure::Caught { class: "E".to_string(), message: "m".to_string() };
    assert_eq!(capture_exception(Some(caught)).text(), "E: m");
    assert_eq!(
        JavaError::from_jni(JniFailure::Failed(JniError {
            kind: JniErrorKind::Other,
            text: "t".to_string()
        }))
        .text(),
        "JNI error: t"
    );
}

#[test]
fn signatures_are_checked() {
    assert_eq!(parse_method_sig("ILjava/lang/String;", "V").unwrap(), "(ILjava/lang/String;)V");
    assert!(matches!(parse_method_sig("Q", "V"), Err(JavaError::Jni(e)) if !e.text.is_empty()));
    assert_eq!(parse_field_sig("[I").unwrap(), "[I");
    assert!(matches!(parse_field_sig("nothing"), Err(JavaError::Jni(e)) if !e.text.is_empty()));
    assert!(is_method_signature("()V"));
    assert!(!is_method_signature("V"));
    assert_eq!(accepted("x".to_string(), None).unwrap(), "x");
    assert_eq!(
        accepted("x".to_string(), Some("bad".to_string())).unwrap_err().text(),
        "JNI error: bad"
    );
}

#[test]
fn only_a_missing_method_is_resolved() {
    let attempt = || Attempt::method("f".to_string(), "I", "V", vec![JavaArg::Int(1)]).unwrap();
    assert_eq!(attempt().signature(), "(I)V");
    assert_eq!(attempt().args(), &vec![JavaArg::Int(1)]);
    assert!(matches!(attempt().answered(Err(missing())), CallStep::Resolve(_)));
    assert!(matches!(
        attempt().answered(Ok(JavaValue::Void)),
        CallStep::Done(Ok(JavaValue::Void))
    ));
    assert!(matches!(
        attempt().answered(Err(field_missing())),
        CallStep::Done(Err(e)) if e.is_field_not_found()
    ));
    assert!(Attempt::method("f".to_string(), "Q", "V", vec![]).is_err());
    let c = Attempt::constructor("I", vec![JavaArg::Int(1)]).unwrap();
    assert_eq!(c.signature(), "(I)V");
    let r = Attempt::raw_method("f".to_string(), vec![JavaArg::Long(1), JavaArg::Object(None)]);
    assert_eq!(r.unwrap().signature(), "(JLjava/lang/Object;)Ljava/lang/Object;");
    let r = Attempt::raw_constructor(vec![JavaArg::Bool(true)]);
    assert_eq!(r.unwrap().signature(), "(Z)V");
    let b = Attempt::bound("f".to_string(), "()I".to_string(), vec![]);
    assert_eq!(b.signature(), "()I");
}

#[test]
fn raw_fragments_of_arguments() {
    assert_eq!(java_arg_fragment(&JavaArg::Char(1)), "C");
    assert_eq!(java_arg_fragment(&JavaArg::Object(Some(1))), "Ljava/lang/Object;");
    assert_eq!(java_arg_fragments(&vec![JavaArg::Float(0), JavaArg::Double(0)]), "FD");
}

#[test]
fn a_field_takes_one_value() {
    assert_eq!(field_value(&vec![JavaArg::Int(3)]).unwrap(), JavaValue::Int(3));
    assert_eq!(message(field_value(&vec![])), "a field value must be a single value");
}

#[test]
fn queries_return_what_is_expected() {
    assert!(expect_flag(&JavaValue::Bool(true), "m").unwrap());
    assert_eq!(message(expect_flag(&JavaValue::Int(1), "m")), "m");
    assert_eq!(expect_object(&JavaValue::Object(Some(2)), "m").unwrap(), Some(2));
    assert_eq!(message(expect_object(&JavaValue::Void, "m")), "m");
}

#[test]
fn a_flag_is_looked_for_in_order() {
    let name = || "is_open".to_string();
    assert!(matches!(
        FlagReader::instance_bool_field_get(name(), Ok(true)),
        FlagStep::Done(Ok(true))
    ));
    assert!(matches!(
        FlagReader::instance_bool_field_get(name(), Err(missing())),
        FlagStep::Done(Err(_))
    ));
    let FlagStep::Call(method, reader) =
        FlagReader::instance_bool_field_get(name(), Err(field_missing()))
    else {
        panic!("a missing field leads on")
    };
    assert_eq!(method, "getIsOpen");
    let FlagStep::Call(method, reader) = reader.answered(Err(missing())) else {
        panic!("a missing getter leads on")
    };
    assert_eq!(method, "isIsOpen");
    assert!(matches!(reader.answered(Err(missing())), FlagStep::Done(Err(e)) if e.is_method_not_found()));
    let FlagStep::Call(_, reader) =
        FlagReader::instance_bool_field_get(name(), Err(field_missing()))
    else {
        panic!("a missing field leads on")
    };
    match reader.answered(Ok(JavaValue::Int(1))) {
        FlagStep::Done(Err(JavaError::InvalidArgument(m))) => {
            assert_eq!(m, "rjava::bind: a bool field accessor did not return a boolean")
        }
        _ => panic!("an int is no flag"),
    }
}

#[test]
fn accessors_are_camel_case() {
    assert_eq!(accessor_name("set", "user_id"), "setUserId");
    assert_eq!(accessor_name("get", "id"), "getId");
    assert_eq!(accessor_name("is", "straße_ß"), "isStraßeSS");
}

#[test]
fn class_names_and_fragments() {
    assert_eq!(class_name_to_fragment("int"), "I");
    assert_eq!(class_name_to_fragment("void"), "V");
    assert_eq!(class_name_to_fragment("java.lang.String"), "Ljava/lang/String;");
    assert_eq!(class_name_to_fragment("[Ljava.lang.String;"), "[Ljava/lang/String;");
    assert!(is_primitive_name("double"));
    assert!(!is_primitive_name("void"));
    assert_eq!(fragment_to_java_name("[[Ljava/util/Map;"), "Map[][]");
    assert_eq!(fragment_to_java_name("V"), "void");
    assert_eq!(arg_java_names("I[ZLa/B;"), vec!["int", "boolean[]", "B"]);
    let (params, ret) = split_method_sig("(I[JLa/B;)La/C;").unwrap();
    assert_eq!(params, vec!["I", "[J", "La/B;"]);
    assert_eq!(ret, "La/C;");
    assert!(split_method_sig("(Q)V").is_none());
    assert!(split_method_sig("no").is_none());
    assert!(split_method_sig("(I").is_none());
    assert!(split_method_sig("(I)I)V").is_none());
    assert!(split_method_sig("(I)I)").is_none());
    assert_eq!(split_method_sig("(I)"), Some((strings(&["I"]), String::new())));
    assert_eq!(split_method_sig("(I)?"), Some((strings(&["I"]), "?".to_string())));
    assert_eq!(split_method_sig("()La)b;"), Some((vec![], "La)b;".to_string())));
    assert_eq!(
        split_method_sig("(La)b;I)La(c);"),
        Some((strings(&["La)b;", "I"]), "La(c);".to_string()))
    );
}

#[test]
fn arguments_meet_parameters() {
    assert_eq!(arg_matches_param(&JavaArg::Int(1), "int"), Fit::Exact);
    assert_eq!(arg_matches_param(&JavaArg::Int(1), "long"), Fit::Never);
    assert_eq!(arg_matches_param(&JavaArg::Int(1), "java.lang.Object"), Fit::Boxed);
    assert_eq!(arg_matches_param(&JavaArg::Object(None), "int"), Fit::Never);
    assert_eq!(arg_matches_param(&JavaArg::Object(None), "java.lang.String"), Fit::Exact);
    assert_eq!(arg_matches_param(&JavaArg::Object(Some(1)), "java.lang.String"), Fit::ByClass);
    assert_eq!(unbox_primitive("int", "java.lang.Integer"), Some('I'));
    assert_eq!(unbox_primitive("long", "java.lang.Integer"), None);
    assert_eq!(
        box_primitive(&JavaArg::Char(65)),
        Some(("java/lang/Character".to_string(), "(C)Ljava/lang/Character;".to_string()))
    );
    assert_eq!(box_primitive(&JavaArg::Object(None)), None);
    assert!(is_boxable_param_class("java.lang.Short"));
    assert!(!is_boxable_param_class("java.lang.Number"));
    for (name, letter, class, reader) in [
        ("boolean", 'Z', "java.lang.Boolean", "booleanValue"),
        ("byte", 'B', "java.lang.Byte", "byteValue"),
        ("char", 'C', "java.lang.Character", "charValue"),
        ("short", 'S', "java.lang.Short", "shortValue"),
        ("int", 'I', "java.lang.Integer", "intValue"),
        ("long", 'J', "java.lang.Long", "longValue"),
        ("float", 'F', "java.lang.Float", "floatValue"),
        ("double", 'D', "java.lang.Double", "doubleValue"),
    ] {
        assert_eq!(primitive_letter(name), Some(letter));
        assert_eq!(wrapper_class(letter), class);
        assert_eq!(reader_method(letter), reader);
    }
}

/// One public method of a class.
struct Candidate {
    name: &'static str,
    params: Vec<&'static str>,
    ret: &'static str,
}

fn strings(v: &[&str]) -> Vec<String> {
    v.iter().map(|s| s.to_string()).collect()
}

/// Answers as a class with these methods does, for objects of class `Integer`.
fn answer(ask: Ask, all: &[Candidate], lookups: &mut Vec<String>) -> Answer {
    match ask {
        Ask::Candidates => Answer::Count(all.len()),
        Ask::Name(i) => Answer::Text(all[i].name.to_string()),
        Ask::Params(i) => Answer::Names(strings(&all[i].params)),
        Ask::Assignable(i, j) => Answer::Flag(
            matches!(all[i].params[j], "java.lang.Integer" | "java.lang.Object"),
        ),
        Ask::ArgClass(_) => Answer::Text("java.lang.Integer".to_string()),
        Ask::Boxing(_) => Answer::Value(JavaValue::Object(Some(99))),
        Ask::Unboxing(_, c) => {
            assert_eq!(c, 'I');
            Answer::Value(JavaValue::Int(5))
        }
        Ask::Return(i) => Answer::Text(all[i].ret.to_string()),
        Ask::Lookup(_, sig) => {
            lookups.push(sig);
            Answer::Found
        }
    }
}

fn resolve(mut r: Resolver, all: &[Candidate]) -> (Result<(String, Vec<JavaArg>), JavaError>, Vec<String>) {
    let mut lookups = Vec::new();
    let mut ask = Ask::Candidates;
    loop {
        match r.step(answer(ask, all, &mut lookups)) {
            Step::Ask(next) => ask = next,
            Step::Done(result) => return (result, lookups),
        }
    }
}

#[test]
fn the_first_matching_method_is_found() {
    let all = [
        Candidate { name: "max", params: vec!["long", "long"], ret: "long" },
        Candidate { name: "max", params: vec!["int", "int"], ret: "int" },
        Candidate { name: "max", params: vec!["java.lang.Object", "int"], ret: "int" },
    ];
    let args = vec![JavaArg::Object(Some(1)), JavaArg::Int(3)];
    let r = Resolver::resolve_exact_method_sig("max".to_string(), args);
    let (result, lookups) = resolve(r, &all);
    let (sig, adjusted) = result.unwrap();
    assert_eq!(sig, "(II)I");
    assert_eq!(adjusted, vec![JavaArg::Int(5), JavaArg::Int(3)]);
    assert_eq!(lookups, vec!["(II)I"]);
}

#[test]
fn primitives_are_boxed_for_objects() {
    let all = [
        Candidate { name: "get", params: vec!["int"], ret: "java.lang.Object" },
        Candidate { name: "add", params: vec!["java.lang.Object"], ret: "boolean" },
    ];
    let r = Resolver::resolve_exact_method_sig("add".to_string(), vec![JavaArg::Int(10)]);
    let (sig, adjusted) = resolve(r, &all).0.unwrap();
    assert_eq!(sig, "(Ljava/lang/Object;)Z");
    assert_eq!(adjusted, vec![JavaArg::Object(Some(99))]);
}

#[test]
fn no_match_is_an_error() {
    let all = [Candidate { name: "f", params: vec!["long"], ret: "void" }];
    let r = Resolver::resolve_exact_method_sig("f".to_string(), vec![JavaArg::Int(1)]);
    assert_eq!(
        message(resolve(r, &all).0),
        "could not resolve the method signature via reflection;          check that the argument types match the method's parameters"
    );
    let r = Resolver::resolve_exact_ctor_sig(vec![JavaArg::Object(None)]);
    assert_eq!(
        message(resolve(r, &all).0),
        "could not resolve a constructor signature via reflection; check that the argument types match one of the class's constructors"
    );
}

#[test]
fn constructors_are_resolved_without_a_name() {
    let all = [
        Candidate { name: "", params: vec!["long"], ret: "" },
        Candidate { name: "", params: vec!["java.lang.Integer", "java.lang.Object"], ret: "" },
    ];
    let r = Resolver::resolve_exact_ctor_sig(vec![JavaArg::Object(Some(1)), JavaArg::Object(None)]);
    let (sig, adjusted) = resolve(r, &all).0.unwrap();
    assert_eq!(sig, "(Ljava/lang/Integer;Ljava/lang/Object;)V");
    assert_eq!(adjusted, vec![JavaArg::Object(Some(1)), JavaArg::Object(None)]);
}

#[test]
fn failures_end_the_resolution() {
    let mut r = Resolver::resolve_exact_ctor_sig(vec![]);
    assert!(matches!(
        r.step(Answer::Failed(missing())),
        Step::Done(Err(e)) if e.is_method_not_found()
    ));
    let mut r = Resolver::resolve_exact_ctor_sig(vec![]);
    match r.step(Answer::Odd) {
        Step::Done(r) => assert_eq!(message(r), "Class.getConstructors() did not return an array"),
        _ => panic!("no candidates"),
    }
}

fn native(name: &str, sig: &str, call: Option<u64>) -> NativeMethod {
    NativeMethod { name: name.to_string(), sig: sig.to_string(), trampoline: 1, call }
}

#[test]
fn return_types_are_found_among_declared_methods() {
    let all = [
        Candidate { name: "create", params: vec!["int"], ret: "a.Other" },
        Candidate { name: "create", params: vec![], ret: "a.Counter" },
    ];
    let mut f = ReturnFinder::declared_method_return_fragment("create".to_string(), vec![]);
    let mut ask = Ask::Candidates;
    let mut lookups = Vec::new();
    let found = loop {
        match f.step(answer(ask, &all, &mut lookups)) {
            FindStep::Ask(next) => ask = next,
            FindStep::Done(r) => break r.unwrap(),
        }
    };
    assert_eq!(found, Some("La/Counter;".to_string()));
}

#[test]
fn generic_returns_are_corrected() {
    let batch = vec![
        native("create", "()Ljava/lang/Object;", Some(1)),
        native("add", "(II)I", Some(2)),
        native("raw", "()Ljava/lang/Object;", None),
    ];
    assert_eq!(correctable_params(&batch[0]), Some(vec![]));
    assert_eq!(correctable_params(&batch[1]), None);
    assert_eq!(correctable_params(&batch[2]), None);
    let found = vec![Some("La/Counter;".to_string()), None, None];
    assert_eq!(
        resolve_derived_native_sigs(&batch, &found),
        Some(strings(&["()La/Counter;", "(II)I", "()Ljava/lang/Object;"]))
    );
    assert_eq!(resolve_derived_native_sigs(&batch, &vec![None, None, None]), None);
    let explicit = vec![native("raw", "()Ljava/lang/Object;", None)];
    assert_eq!(resolve_derived_native_sigs(&explicit, &vec![None]), None);
}

#[test]
fn shared_trampolines_are_refused() {
    let batch = vec![native("a", "()V", Some(1)), native("b", "()V", Some(2))];
    assert!(check_trampolines(&batch, &vec![Some(1), Some(2)]).is_ok());
    assert_eq!(message(check_trampolines(&batch, &vec![Some(2), Some(2)])), SHARED_TRAMPOLINE);
    assert!(check_trampolines(&vec![native("c", "()V", None)], &vec![Some(2)]).is_ok());
}

#[test]
fn refused_registrations_are_tried_once_more() {
    let refusal = || JavaError::JavaException {
        class: "java.lang.NoSuchMethodError".to_string(),
        message: String::new(),
    };
    assert!(is_nosuchmethod(&refusal()));
    assert!(is_nosuchmethod(&JavaError::Jni(JniError {
        kind: JniErrorKind::NoSuchMethod,
        text: String::new()
    })));
    assert!(!is_nosuchmethod(&missing()));
    assert!(matches!(after_first_attempt(Ok(())), RegisterStep::Done(Ok(()))));
    assert!(matches!(after_first_attempt(Err(refusal())), RegisterStep::Correct(_)));
    assert!(matches!(after_first_attempt(Err(missing())), RegisterStep::Done(Err(_))));
    assert!(matches!(
        after_corrections(refusal(), Ok(Some(vec!["()V".to_string()]))),
        RegisterStep::Again(v) if v == vec!["()V"]
    ));
    assert!(matches!(
        after_corrections(refusal(), Ok(None)),
        RegisterStep::Done(Err(JavaError::JavaException { .. }))
    ));
    assert!(matches!(
        after_corrections(refusal(), Err(missing())),
        RegisterStep::Done(Err(JavaError::Jni(_)))
    ));
}

#[test]
fn unknown_native_methods_raise_the_java_error() {
    let refusal = || {
        JavaError::Jni(JniError {
            kind: JniErrorKind::NoSuchMethod,
            text: "Method not found: a.B.f".to_string(),
        })
    };
    assert!(matches!(after_first_attempt(Err(refusal())), RegisterStep::Correct(_)));
    for step in [after_corrections(refusal(), Ok(None)), after_last_attempt(Err(refusal()))] {
        match step {
            RegisterStep::Done(Err(JavaError::JavaException { class, message })) => {
                assert_eq!(class, "java.lang.NoSuchMethodError");
                assert_eq!(message, "Method not found: a.B.f");
            }
            _ => panic!("the registration is over"),
        }
    }
    assert!(matches!(after_last_attempt(Ok(())), RegisterStep::Done(Ok(()))));
    assert!(matches!(
        after_last_attempt(Err(missing())),
        RegisterStep::Done(Err(e)) if e.is_method_not_found()
    ));
}

#[test]
fn missing_classes_have_their_own_errors() {
    let thrown = |class: &str| JavaError::JavaException {
        class: class.to_string(),
        message: "a.B".to_string(),
    };
    let loading = "calling loadClass(String) on java.net.URLClassLoader".to_string();
    let e = thrown("java.lang.ClassNotFoundException").with_operation(loading.clone());
    assert_eq!(load_class_error(e).text(), "java.lang.ClassNotFoundException: a.B");
    let e = load_class_error(thrown("java.io.IOException").with_operation(loading.clone()));
    assert_eq!(e.text(), format!("{loading}: java.io.IOException: a.B"));
    assert_eq!(load_class_error(missing()).text(), "JNI error: missing");

    let running = "calling main(String[]) on a.Main".to_string();
    let e = thrown_error(thrown("a.Boom").with_operation(running.clone()));
    assert_eq!(e.text(), "a.Boom: a.B");
    assert_eq!(thrown_error(thrown("a.Boom")).text(), "a.Boom: a.B");
    let e = thrown_error(missing().with_operation(running.clone()));
    assert_eq!(e.text(), format!("{running}: JNI error: missing"));

    let lookup = JavaError::Jni(JniError {
        kind: JniErrorKind::ClassNotFound,
        text: "Class not found: a/B".to_string(),
    });
    for e in [lookup, thrown("java.lang.NoClassDefFoundError")] {
        match interface_lookup_error(e) {
            JavaError::InvalidArgument(m) => assert_eq!(m, NO_SUCH_INTERFACE),
            other => panic!("{other:?}"),
        }
    }
    assert!(interface_lookup_error(missing()).is_method_not_found());
}

#[test]
fn malformed_signatures_are_passed_over() {
    let all = [
        Candidate { name: "f", params: vec!["int"], ret: "int" },
        Candidate { name: "f", params: vec!["int"], ret: "void" },
    ];
    let among = |known: &[&str]| {
        let known = Signatures::Given(strings(known));
        resolve(Resolver::among(known, Some("f".to_string()), vec![JavaArg::Int(1)]), &all)
    };
    let (result, lookups) = among(&["(I)I", "(I)V"]);
    assert_eq!(result.unwrap().0, "(I)I");
    assert_eq!(lookups, vec!["(I)I"]);
    let (result, lookups) = among(&["(I)V"]);
    assert_eq!(result.unwrap().0, "(I)V");
    assert_eq!(lookups, vec!["(I)V"]);
    let (result, lookups) = among(&[]);
    assert!(result.is_err());
    assert!(lookups.is_empty());
}

#[test]
fn only_well_formed_signatures_are_corrected() {
    let m = native("create", "(I)Ljava/lang/Object;", Some(1));
    let known = Signatures::Given(strings(&["(I)Ljava/lang/Object;"]));
    let unknown = Signatures::Given(Vec::new());
    assert_eq!(correctable_among(&known, &m), Some(strings(&["I"])));
    assert_eq!(correctable_among(&unknown, &m), None);
    let batch = vec![m];
    let found = vec![Some("La/B;".to_string())];
    assert_eq!(corrections_among(&known, &batch, &found), Some(strings(&["(I)La/B;"])));
    assert_eq!(corrections_among(&unknown, &batch, &found), None);
}

#[test]
fn split_descriptors_join_again() {
    for sig in ["()V", "(I[JLa/B;)La/C;", "([[Z)[Ljava/lang/String;", "(La)b;)La)b;"] {
        let (params, ret) = split_method_sig(sig).unwrap();
        assert_eq!(format!("({}){ret}", params.concat()), sig);
    }
}
