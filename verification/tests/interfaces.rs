use rjava::default_method::{DefaultAsk, DefaultReply, DefaultStep, Invoked};
use rjava::error::{JavaError, JniError, JniErrorKind};
use rjava::interface::{
    bootstrap_count, box_value, build_arg_values, check_declared, check_interfaces,
    class_file_error, directory_error, identity_hash_code, identity_string,
    intercept_object_method, loader_for, param_matches, sole_argument, to_value, ArgSource,
    Bootstrap, Boxing, Pending, Reserved, NOT_DECLARED, NO_HANDLER,
};
use rjava::shell::{ShellAsk, ShellCall, ShellReply, ShellStep, ShellValue};
use rjava::value::{JavaArg, JavaValue};

fn strings(v: &[&str]) -> Vec<String> {
    v.iter().map(|s| s.to_string()).collect()
}

fn message<T: std::fmt::Debug>(r: Result<T, JavaError>) -> String {
    match r {
        Err(JavaError::InvalidArgument(m)) => m.to_string(),
        other => panic!("expected a misuse, got {other:?}"),
    }
}

fn exception(class: &str, message: &str) -> JavaError {
    JavaError::JavaException { class: class.to_string(), message: message.to_string() }
}

#[test]
fn the_setup_runs_once() {
    let b: Bootstrap<u8> = Bootstrap::new();
    assert!(b.is_pending());
    assert_eq!(bootstrap_count(&b), 0);
    assert!(b.get().is_none());
    let b = b.finish(Ok(7));
    assert!(!b.is_pending());
    assert_eq!(bootstrap_count(&b), 1);
    assert!(matches!(b.get(), Some(Ok(&7))));
    let b = b.finish(Ok(8));
    assert_eq!(bootstrap_count(&b), 1);
    assert!(matches!(b.get(), Some(Ok(&7))));
}

#[test]
fn a_failed_setup_stays_failed() {
    let b: Bootstrap<u8> = Bootstrap::new().finish(Err(JavaError::InvalidArgument("no")));
    for _ in 0..2 {
        match b.get() {
            Some(Err(e)) => assert_eq!(
                e.text(),
                "failed to start the JVM: rjava::interface: bootstrap failed: invalid argument: no"
            ),
            _ => panic!("the setup failed"),
        }
    }
    assert_eq!(
        directory_error("/tmp/x", "denied").text(),
        "failed to start the JVM: rjava::interface: cannot create the temp class directory `/tmp/x`: denied"
    );
    assert_eq!(
        class_file_error("/tmp/x", "full").text(),
        "failed to start the JVM: rjava::interface: cannot write the shell class to `/tmp/x`: full"
    );
}

#[test]
fn parameters_match_exactly_or_any_reference() {
    assert!(param_matches(&[], &[]));
    assert!(param_matches(&["int", "java.lang.String"], &strings(&["int", "java.lang.String"])));
    assert!(!param_matches(&["int"], &strings(&["long"])));
    assert!(!param_matches(&["int"], &strings(&["int", "int"])));
    assert!(param_matches(&["java.lang.Object"], &strings(&["java.util.Map"])));
    assert!(param_matches(&["java.lang.Object"], &strings(&["java.lang.Object"])));
    assert!(!param_matches(&["java.lang.Object"], &strings(&["int"])));
    assert!(!param_matches(&["java.util.Map"], &strings(&["java.lang.Object"])));
}

#[test]
fn object_methods_are_intercepted_by_signature() {
    assert_eq!(intercept_object_method("toString", &vec![]), Some(Reserved::ToString));
    assert_eq!(intercept_object_method("hashCode", &vec![]), Some(Reserved::HashCode));
    assert_eq!(
        intercept_object_method("equals", &strings(&["java.lang.Object"])),
        Some(Reserved::Equals)
    );
    assert_eq!(intercept_object_method("toString", &strings(&["int"])), None);
    assert_eq!(intercept_object_method("equals", &strings(&["java.lang.String"])), None);
    assert_eq!(intercept_object_method("wait", &vec![]), None);
}

#[test]
fn identities_are_shown_as_object_does() {
    assert_eq!(identity_string("a.B", 255), "a.B@ff");
    assert_eq!(identity_string("a.B", 0), "a.B@0");
    assert_eq!(identity_string("a.B", -1), "a.B@ffffffff");
    assert_eq!(identity_hash_code(&JavaValue::Int(5)).unwrap(), 5);
    assert_eq!(
        message(identity_hash_code(&JavaValue::Long(5))),
        "rjava::interface: System.identityHashCode did not return an int"
    );
}

#[test]
fn equals_takes_one_argument() {
    assert_eq!(sole_argument(None).unwrap(), None);
    assert_eq!(sole_argument(Some(&vec![Some(3)])).unwrap(), Some(3));
    assert_eq!(
        message(sole_argument(Some(&vec![None, None]))),
        "rjava::interface: equals(Object) received an argument array of length != 1"
    );
}

#[test]
fn arguments_are_unboxed_by_parameter_type() {
    assert_eq!(
        build_arg_values(Some(&vec![Some(1), None]), &strings(&["int", "java.lang.String"])).unwrap(),
        vec![ArgSource::Unbox(Some(1), 'I'), ArgSource::Keep(None)]
    );
    assert!(build_arg_values(None, &strings(&["int"])).unwrap().is_empty());
    assert_eq!(
        message(build_arg_values(Some(&vec![]), &strings(&["int"]))),
        "rjava::interface: the argument array length does not match the method's parameter count"
    );
}

#[test]
fn results_are_boxed() {
    assert_eq!(box_value(&JavaValue::Void), Boxing::Keep(None));
    assert_eq!(box_value(&JavaValue::Object(Some(2))), Boxing::Keep(Some(2)));
    assert_eq!(box_value(&JavaValue::Int(2)), Boxing::Wrap(JavaArg::Int(2)));
    assert_eq!(box_value(&JavaValue::Char(2)), Boxing::Wrap(JavaArg::Char(2)));
    assert_eq!(to_value(&vec![]), JavaValue::Void);
    assert_eq!(to_value(&vec![JavaArg::Int(1), JavaArg::Long(2)]), JavaValue::Long(2));
}

#[test]
fn proxies_name_their_interfaces() {
    assert!(check_interfaces(&strings(&["a.B"])).is_ok());
    assert_eq!(
        message(check_interfaces(&vec![])),
        "rjava::interface::proxy requires at least one interface to implement"
    );
    assert!(check_declared("a/B", &strings(&["x.Y", "a.B"])).is_ok());
    assert!(check_declared("a.B", &strings(&["a/B"])).is_ok());
    assert_eq!(message(check_declared("a.B", &strings(&["a.C"]))), NOT_DECLARED);
    assert_eq!(loader_for(&JavaValue::Object(Some(3)), 9), 3);
    assert_eq!(loader_for(&JavaValue::Object(None), 9), 9);
}

#[test]
fn a_handler_is_bound_once() {
    let mut p: Pending<&str> = Pending::new();
    assert_eq!(message(p.shell_init()), NO_HANDLER);
    p.arm("h");
    assert_eq!(p.shell_init().unwrap(), "h");
    assert_eq!(message(p.shell_init()), NO_HANDLER);
    p.arm("h");
    p.disarm();
    assert_eq!(message(p.shell_init()), NO_HANDLER);
}

#[test]
fn default_methods_run_and_return() {
    let a = DefaultAsk::invoke_default();
    assert_eq!(a, DefaultAsk::Locate);
    let DefaultStep::Ask(a) = a.answered(DefaultReply::Located(Ok(JavaValue::Object(Some(4))))) else {
        panic!("located")
    };
    assert_eq!(a, DefaultAsk::Invoke(Some(4)));
    assert!(matches!(
        a.answered(DefaultReply::Invoked(Invoked::Returned(JavaValue::Object(Some(8))))),
        DefaultStep::Done(Ok(Some(Some(8))))
    ));
    assert!(matches!(
        a.answered(DefaultReply::Invoked(Invoked::Returned(JavaValue::Void))),
        DefaultStep::Done(Ok(Some(None)))
    ));
    assert!(matches!(
        a.answered(DefaultReply::Invoked(Invoked::Failed(JniError {
            kind: JniErrorKind::Other,
            text: "t".to_string()
        }))),
        DefaultStep::Done(Err(JavaError::Jni(_)))
    ));
    match a.answered(DefaultReply::Invoked(Invoked::Returned(JavaValue::Int(1)))) {
        DefaultStep::Done(Err(JavaError::InvalidArgument(m))) => {
            assert_eq!(m, "rjava::interface: invokeDefault returned a non-object value")
        }
        other => panic!("{other:?}"),
    }
    match a.answered(DefaultReply::Invoked(Invoked::Threw(None))) {
        DefaultStep::Done(Err(JavaError::InvalidArgument(m))) => assert_eq!(
            m,
            "rjava::interface: reflective invokeDefault failed with no pending exception"
        ),
        other => panic!("{other:?}"),
    }
    assert!(matches!(a.answered(DefaultReply::Wraps(Ok(true))), DefaultStep::Ask(b) if b == a));
}

#[test]
fn default_methods_throw_their_own_exceptions() {
    let a = DefaultAsk::Invoke(Some(4));
    let DefaultStep::Ask(a) = a.answered(DefaultReply::Invoked(Invoked::Threw(Some(5)))) else {
        panic!("thrown")
    };
    assert_eq!(a, DefaultAsk::Wraps(5));
    assert!(matches!(
        a.answered(DefaultReply::Wraps(Ok(false))),
        DefaultStep::Ask(DefaultAsk::Describe(5))
    ));
    let DefaultStep::Ask(a) = a.answered(DefaultReply::Wraps(Ok(true))) else { panic!("wrapped") };
    assert_eq!(a, DefaultAsk::Cause(5));
    assert!(matches!(
        a.answered(DefaultReply::Cause(Ok(JavaValue::Object(None)))),
        DefaultStep::Ask(DefaultAsk::Describe(5))
    ));
    let DefaultStep::Ask(a) = a.answered(DefaultReply::Cause(Ok(JavaValue::Object(Some(6))))) else {
        panic!("cause")
    };
    assert_eq!(a, DefaultAsk::Describe(6));
    match a.answered(DefaultReply::Described(Ok(("a.E".to_string(), Some("m".to_string()))))) {
        DefaultStep::Done(Err(e)) => assert_eq!(e.text(), "a.E: m"),
        other => panic!("{other:?}"),
    }
    match a.answered(DefaultReply::Described(Ok(("a.E".to_string(), None)))) {
        DefaultStep::Done(Err(e)) => assert_eq!(e.text(), "a.E"),
        other => panic!("{other:?}"),
    }
}

#[test]
fn default_methods_need_a_recent_machine() {
    let a = DefaultAsk::Locate;
    assert!(matches!(
        a.answered(DefaultReply::Located(Err(exception("java.lang.NoSuchMethodException", "x")))),
        DefaultStep::Done(Ok(None))
    ));
    match a.answered(DefaultReply::Located(Err(exception("a.E", "m")))) {
        DefaultStep::Done(Err(e)) => assert_eq!(
            e.text(),
            "a.E: rjava::interface: cannot locate InvocationHandler.invokeDefault: m"
        ),
        other => panic!("{other:?}"),
    }
    match a.answered(DefaultReply::Located(Err(exception("a.E", "")))) {
        DefaultStep::Done(Err(e)) => assert_eq!(
            e.text(),
            "a.E: rjava::interface: cannot locate InvocationHandler.invokeDefault (a.E)"
        ),
        other => panic!("{other:?}"),
    }
    match a.answered(DefaultReply::Located(Ok(JavaValue::Void))) {
        DefaultStep::Done(Err(JavaError::InvalidArgument(m))) => {
            assert_eq!(m, "rjava::interface: Class.getMethod did not return a Method")
        }
        other => panic!("{other:?}"),
    }
}

#[test]
fn calls_of_a_proxy_reach_the_handler() {
    let call = ShellCall::shell_invoke(
        "add".to_string(),
        strings(&["int", "java.lang.String"]),
        Some(vec![Some(1), Some(2)]),
    );
    let ShellStep::Ask(ask) = call.start() else { panic!("a question") };
    assert!(matches!(ask, ShellAsk::IsDefault));
    let step = call.answered(ask, ShellReply::IsDefault(Ok(JavaValue::Bool(false))));
    let ShellStep::Ask(ShellAsk::Handler(args)) = step else { panic!("the handler") };
    assert_eq!(args, vec![ArgSource::Unbox(Some(1), 'I'), ArgSource::Keep(Some(2))]);
    let step = call.answered(ShellAsk::Handler(args), ShellReply::Handler(Ok(Some(3))));
    assert!(matches!(step, ShellStep::Done(Ok(ShellValue::Value(Boxing::Keep(Some(3)))))));
}

#[test]
fn default_methods_of_a_proxy_are_run() {
    let call = ShellCall::shell_invoke("f".to_string(), vec![], None);
    let step = call.answered(ShellAsk::IsDefault, ShellReply::IsDefault(Ok(JavaValue::Bool(true))));
    let ShellStep::Ask(ShellAsk::Default(a)) = step else { panic!("a default method") };
    assert_eq!(a, DefaultAsk::Locate);
    let old = DefaultReply::Located(Err(exception("java.lang.NoSuchMethodException", "")));
    let step = call.answered(ShellAsk::Default(a), ShellReply::Default(old));
    assert!(matches!(step, ShellStep::Ask(ShellAsk::Handler(v)) if v.is_empty()));
    let step = call.answered(
        ShellAsk::Default(DefaultAsk::Invoke(None)),
        ShellReply::Default(DefaultReply::Invoked(Invoked::Returned(JavaValue::Object(Some(1))))),
    );
    assert!(matches!(step, ShellStep::Done(Ok(ShellValue::Value(Boxing::Keep(Some(1)))))));
    let step = call.answered(ShellAsk::IsDefault, ShellReply::IsDefault(Ok(JavaValue::Int(0))));
    match step {
        ShellStep::Done(r) => assert_eq!(
            message(r),
            "rjava::interface: Method.isDefault() did not return a boolean"
        ),
        other => panic!("{other:?}"),
    }
}

#[test]
fn object_methods_of_a_proxy_are_answered() {
    let call = ShellCall::shell_invoke("toString".to_string(), vec![], None);
    assert!(matches!(call.start(), ShellStep::Ask(ShellAsk::Identity)));
    let reply = ShellReply::Identity(Ok(("p.Proxy".to_string(), JavaValue::Int(16))));
    assert!(matches!(
        call.answered(ShellAsk::Identity, reply),
        ShellStep::Done(Ok(ShellValue::Text(s))) if s == "p.Proxy@10"
    ));
    let call = ShellCall::shell_invoke("hashCode".to_string(), vec![], None);
    assert!(matches!(call.start(), ShellStep::Ask(ShellAsk::Hash)));
    assert!(matches!(
        call.answered(ShellAsk::Hash, ShellReply::Hash(Ok(JavaValue::Int(16)))),
        ShellStep::Done(Ok(ShellValue::Value(Boxing::Wrap(JavaArg::Int(16)))))
    ));
    let call = ShellCall::shell_invoke(
        "equals".to_string(),
        strings(&["java.lang.Object"]),
        Some(vec![Some(5)]),
    );
    assert!(matches!(call.start(), ShellStep::Ask(ShellAsk::Same(Some(5)))));
    assert!(matches!(
        call.answered(ShellAsk::Same(Some(5)), ShellReply::Same(Ok(true))),
        ShellStep::Done(Ok(ShellValue::Value(Boxing::Wrap(JavaArg::Bool(true)))))
    ));
}
