use rjava::arguments::Arguments;
use rjava::bean::{
    bean_object, check_captured_struct, is_bean_marker, is_record_class, marker_class,
    marker_field, not_a_struct_de, not_a_struct_ser, BeanAsk, BeanBuild, BeanReply, BeanStep,
    BuiltBean, FieldWalk, GetterAsk, GetterReply, GetterStep, JavaBean, MarkerField, Property,
    BEAN_MARKER_CLASS_KEY, BEAN_MARKER_STRUCT, BEAN_MARKER_VALUE_KEY,
};
use rjava::convert::{Outgoing, ToJava};
use rjava::error::{JavaError, JniError, JniErrorKind};
use rjava::java::{check_class_path, normalize_class_name, not_initialized, JvmConfig};
use rjava::text::{
    camel_case, contains_char, decimal, join, numeral_of, replace_char, same, starts_with,
};
use rjava::value::{JavaArg, JavaValue};

fn strings(v: &[&str]) -> Vec<String> {
    v.iter().map(|s| s.to_string()).collect()
}

fn serde_text<T: std::fmt::Debug>(r: Result<T, JavaError>) -> String {
    match r {
        Err(JavaError::Serde(m)) => m,
        other => panic!("expected a serialization failure, got {other:?}"),
    }
}

fn refused() -> JavaError {
    JavaError::InvalidArgument("no such method")
}

fn fields(names: &[&str]) -> Vec<Property> {
    let mut id = 10;
    names
        .iter()
        .map(|n| {
            id += 1;
            Property { name: n.to_string(), value: Some(id) }
        })
        .collect()
}

#[test]
fn built_beans_are_arguments_of_their_class() {
    let b = BuiltBean { class: "bean.User", id: 4 };
    assert_eq!(b.java_args(), "Lbean/User;");
    let sent = b.to_java().unwrap();
    assert!(matches!(sent[..], [Outgoing::Arg(JavaArg::Object(Some(4)))]), "{sent:?}");
    let args = Arguments::new().with(&b).with(&1_i32);
    assert_eq!(args.java_args(), "Lbean/User;I");
}

#[test]
fn beans_name_their_class() {
    let b = JavaBean { value: 1, class: "bean.User" };
    assert_eq!(b.java_args(), "Lbean/User;");
    assert_eq!(JavaBean::<u8>::java_return_type(), "Ljava/lang/Object;");
    let b = JavaBean::read(2);
    assert_eq!(b.value, 2);
    assert_eq!(b.class, "");
    assert_eq!(bean_object(&JavaValue::Object(Some(3))).unwrap(), 3);
    assert_eq!(
        serde_text(bean_object(&JavaValue::Object(None))),
        "bean deserialization requires a non-null Java object (got null or a primitive value)"
    );
}

#[test]
fn only_structs_are_beans() {
    assert_eq!(
        serde_text::<()>(Err(not_a_struct_ser())),
        "JavaBean<T> requires `T` to serialize as a struct — bean properties map one-to-one to named struct fields (scalars, sequences, maps, tuples and enums are not bean shapes)"
    );
    assert_eq!(
        serde_text::<()>(Err(not_a_struct_de())),
        "JavaBean<T> requires `T` to be a struct — bean properties map one-to-one to named struct fields, read through the getters `get<Name>` / `is<Name>` (`x()` on a record)"
    );
}

#[test]
fn nested_beans_are_marked() {
    assert!(is_bean_marker(BEAN_MARKER_STRUCT));
    assert!(!is_bean_marker("User"));
    assert!(check_captured_struct("User").is_ok());
    assert_eq!(
        serde_text(check_captured_struct("JavaBean")),
        "rjava bean: a `JavaBean<T>` nested directly inside another `JavaBean<T>`'s value is not a bean shape — the value must be a plain struct"
    );
    assert_eq!(marker_field(BEAN_MARKER_CLASS_KEY).unwrap(), MarkerField::Class);
    assert_eq!(marker_field(BEAN_MARKER_VALUE_KEY).unwrap(), MarkerField::Value);
    assert_eq!(
        serde_text(marker_field("x")),
        "rjava bean: internal error — the `JavaBean` marker struct emitted an unknown field `x`"
    );
    assert_eq!(marker_class(Some("a.B".to_string())).unwrap(), "a.B");
    assert_eq!(
        serde_text(marker_class(None)),
        "rjava bean: internal error — the `JavaBean` marker struct is missing its `__rjava_bean_class` field"
    );
}

#[test]
fn old_machines_have_no_records() {
    assert!(is_record_class(Ok(JavaValue::Bool(true))).unwrap());
    assert!(!is_record_class(Ok(JavaValue::Bool(false))).unwrap());
    let missing =
        JavaError::Jni(JniError { kind: JniErrorKind::MethodNotFound, text: String::new() });
    assert!(!is_record_class(Err(missing)).unwrap());
    let thrown = JavaError::JavaException {
        class: "java.lang.NoSuchMethodError".to_string(),
        message: String::new(),
    };
    assert!(!is_record_class(Err(thrown)).unwrap());
    assert!(is_record_class(Err(refused())).is_err());
    assert!(matches!(
        is_record_class(Ok(JavaValue::Int(1))),
        Err(JavaError::InvalidArgument(
            "internal error: Class.isRecord() did not return a boolean"
        ))
    ));
}

#[test]
fn beans_are_built_by_their_setters() {
    let mut b = BeanBuild::build_bean("bean.User".to_string(), fields(&["id", "user_name"]));
    let BeanStep::Ask(ask) = b.start() else { panic!("a question") };
    assert!(matches!(&ask, BeanAsk::Find(s) if s == "bean/User"));
    let BeanStep::Ask(ask) = b.answered(ask, BeanReply::Found(Ok(()))) else { panic!("found") };
    let BeanStep::Ask(ask) = b.answered(ask, BeanReply::IsRecord(Ok(JavaValue::Bool(false)))) else {
        panic!("no record")
    };
    assert!(matches!(&ask, BeanAsk::Construct(v) if v.is_empty()));
    let BeanStep::Ask(ask) = b.answered(ask, BeanReply::Constructed(Ok(5))) else { panic!("made") };
    assert!(matches!(&ask, BeanAsk::Assign { object: 5, setter, at: 0, .. } if setter == "setId"));
    let BeanStep::Ask(ask) = b.answered(ask, BeanReply::Assign(Ok(JavaValue::Void))) else {
        panic!("set")
    };
    assert!(matches!(&ask, BeanAsk::Assign { setter, at: 1, .. } if setter == "setUserName"));
    assert!(matches!(
        b.answered(ask, BeanReply::Assign(Ok(JavaValue::Void))),
        BeanStep::Done(Ok(5))
    ));
}

#[test]
fn a_property_without_a_setter_is_an_error() {
    let mut b = BeanBuild::build_bean("bean.User".to_string(), fields(&["user_id"]));
    let BeanStep::Ask(ask) =
        b.answered(BeanAsk::Construct(vec![]), BeanReply::Constructed(Ok(5)))
    else {
        panic!("made")
    };
    match b.answered(ask, BeanReply::Assign(Err(refused()))) {
        BeanStep::Done(r) => assert_eq!(
            serde_text(r),
            "rjava bean `bean.User`: no setter for property `user_id` accepting the serialized value (tried `setUserId` — the setter must be a public method whose parameter type accepts the value: a boxed primitive does not widen to a wider primitive, and `null` only matches a reference parameter)"
        ),
        other => panic!("{other:?}"),
    }
}

#[test]
fn records_are_built_by_their_constructor() {
    let mut b = BeanBuild::build_bean("bean.Point".to_string(), fields(&["x", "y"]));
    let BeanStep::Ask(ask) =
        b.answered(BeanAsk::IsRecord, BeanReply::IsRecord(Ok(JavaValue::Bool(true))))
    else {
        panic!("a record")
    };
    let BeanStep::Ask(ask) = b.answered(ask, BeanReply::Components(Ok(strings(&["x", "y"])))) else {
        panic!("components")
    };
    assert!(matches!(
        &ask,
        BeanAsk::Construct(v) if *v == vec![JavaArg::Object(Some(11)), JavaArg::Object(Some(12))]
    ));
    assert!(matches!(
        b.answered(ask, BeanReply::Constructed(Ok(6))),
        BeanStep::Done(Ok(6))
    ));
    match b.answered(BeanAsk::Components, BeanReply::Components(Ok(strings(&["y", "x"])))) {
        BeanStep::Done(r) => assert_eq!(
            serde_text(r),
            "rjava bean `bean.Point` is a Java record: the Rust struct's field order must match the record's component order (components: y, x) but the struct serialized fields: x, y"
        ),
        other => panic!("{other:?}"),
    }
}

#[test]
fn properties_are_read_in_order() {
    let a = GetterAsk::getter_value();
    assert_eq!(a.method("is_active").unwrap(), "getIsActive");
    assert!(matches!(
        a.answered("active", false, GetterReply::Called(Ok(JavaValue::Bool(true)))),
        GetterStep::Done(Ok(JavaValue::Bool(true)))
    ));
    let GetterStep::Ask(a) = a.answered("active", true, GetterReply::Called(Err(refused()))) else {
        panic!("on to the next")
    };
    assert_eq!(a, GetterAsk::Is);
    assert_eq!(a.method("active").unwrap(), "isActive");
    assert!(matches!(
        a.answered("active", false, GetterReply::Called(Err(refused()))),
        GetterStep::Ask(GetterAsk::ClassName)
    ));
    let GetterStep::Ask(a) = a.answered("active", true, GetterReply::Called(Err(refused()))) else {
        panic!("on to the next")
    };
    assert_eq!(a, GetterAsk::Component);
    assert_eq!(a.method("active").unwrap(), "active");
    assert!(matches!(
        a.answered("active", true, GetterReply::Called(Err(JavaError::JvmStart(String::new())))),
        GetterStep::Done(Err(JavaError::JvmStart(_)))
    ));
    let GetterStep::Ask(a) = a.answered("active", true, GetterReply::Called(Err(refused()))) else {
        panic!("on to the next")
    };
    assert_eq!(a.method("active"), None);
    match a.answered("active", true, GetterReply::ClassName(Some("bean.P".to_string()))) {
        GetterStep::Done(r) => assert_eq!(
            serde_text(r),
            "rjava bean: no getter for property `active` on bean.P (tried `active()`, `getActive` and `isActive`)"
        ),
        other => panic!("{other:?}"),
    }
    match a.answered("active", false, GetterReply::ClassName(None)) {
        GetterStep::Done(r) => assert_eq!(
            serde_text(r),
            "rjava bean: no getter for property `active` on <unknown class> (tried `getActive` and `isActive`)"
        ),
        other => panic!("{other:?}"),
    }
}

#[test]
fn fields_are_walked_once() {
    let mut w = FieldWalk::new(2);
    assert_eq!(w.size_hint(), 2);
    assert_eq!(w.next_key(), Some(0));
    w.next_value();
    assert_eq!(w.next_key(), Some(1));
    w.next_value();
    assert_eq!(w.next_key(), None);
    assert_eq!(w.size_hint(), 0);
}

#[test]
fn machines_are_configured() {
    let c = JvmConfig::new()
        .option("-Xmx256m".to_string())
        .class_path("a".to_string())
        .class_path("b".to_string())
        .option("-ea".to_string());
    assert_eq!(c.start_options(), vec!["-Xmx256m", "-ea", "-Djava.class.path=b"]);
    assert!(JvmConfig::default().start_options().is_empty());
    assert_eq!(normalize_class_name("java.lang.String").unwrap(), "java/lang/String");
    assert_eq!(normalize_class_name("a/b.C").unwrap(), "a/b.C");
    assert!(matches!(
        normalize_class_name(""),
        Err(JavaError::InvalidArgument("class name must not be empty"))
    ));
    assert!(not_initialized().text().starts_with("invalid argument: the JVM is not initialized"));
}

#[test]
fn class_paths_exist() {
    assert!(check_class_path(&vec![true, true]).is_ok());
    assert!(matches!(
        check_class_path(&vec![]),
        Err(JavaError::InvalidArgument(
            "class path must not be empty — pass at least one jar or class directory"
        ))
    ));
    assert!(matches!(
        check_class_path(&vec![true, false]),
        Err(JavaError::InvalidArgument(
            "class path entry does not exist; pass the path of an existing jar file or class directory"
        ))
    ));
}

#[test]
fn texts_are_put_together() {
    assert_eq!(camel_case("user_id"), "UserId");
    assert_eq!(camel_case("__x"), "X");
    assert_eq!(camel_case(""), "");
    assert_eq!(camel_case("url"), "Url");
    assert_eq!(camel_case("ǆ_a"), "ǄA");
    assert!(contains_char("a/b", '/'));
    assert_eq!(replace_char("a.b.c", '.', '/'), "a/b/c");
    assert_eq!(join(&strings(&["a", "b"]), ", "), "a, b");
    assert_eq!(join(&vec![], ", "), "");
    assert!(same("é", "é"));
    assert!(starts_with("__rjava", "__"));
    assert_eq!(decimal(1203), "1203");
    assert_eq!(numeral_of(48879, 16), "beef");
}
