use rjava::arguments::Arguments;
use rjava::array::{
    array_get, array_set, element_class_name, fill_primitive_array, region_start, to_vec_required,
    validate_array_kind, ArrayKind, Region, VecKind,
};
use rjava::convert::{
    Contents, DoubleBits, FloatBits, FromJava, Incoming, IncomingItem, JavaArrayElement,
    ObjectShape, Outgoing, OutgoingItem, Reading, Shape, ToJava,
};
use rjava::error::JavaError;
use rjava::handles::{JArray, JClass, JClassLoader, JObject};
use rjava::value::{primitive_arg, to_jvalue, JavaArg, JavaValue};
use rjava::vectors::{element_to_store, from_vec_local, to_vec_local, JavaVecElement};

fn message<T: std::fmt::Debug>(r: Result<T, JavaError>) -> String {
    match r {
        Err(JavaError::InvalidArgument(m)) => m.to_string(),
        other => panic!("expected a misuse, got {other:?}"),
    }
}

fn one<T: ToJava>(x: T) -> Outgoing {
    let mut v = x.to_java().expect("converts");
    assert_eq!(v.len(), 1);
    v.pop().unwrap()
}

/// What comes back when Java keeps what was sent, as object number `id`.
fn echo(o: Outgoing, id: u64) -> Incoming {
    match o {
        Outgoing::Arg(a) => Incoming::of_value(to_jvalue(&a)),
        Outgoing::Text(s) => Incoming {
            value: JavaValue::Object(Some(id)),
            contents: Contents::One(Reading::Text(s)),
        },
        Outgoing::Region(r) => Incoming {
            value: JavaValue::Object(Some(id)),
            contents: Contents::Region(r),
        },
        Outgoing::Objects { class: _, items } => {
            let mut back = Vec::new();
            for item in items {
                back.push(match item {
                    OutgoingItem::Object(o) => IncomingItem { object: o, reading: Reading::Nothing },
                    OutgoingItem::Text(s) => IncomingItem {
                        object: Some(id + 1),
                        reading: Reading::Text(s),
                    },
                });
            }
            Incoming { value: JavaValue::Object(Some(id)), contents: Contents::Objects(back) }
        }
    }
}

fn round<T: ToJava + FromJava>(x: T) -> T {
    T::from_java(echo(one(x), 7)).expect("comes back")
}

#[test]
fn primitives_come_back() {
    assert_eq!(round(true), true);
    assert_eq!(round(-128i8), -128);
    assert_eq!(round(-3i16), -3);
    assert_eq!(round(i32::MIN), i32::MIN);
    assert_eq!(round(i64::MAX), i64::MAX);
    assert_eq!(round(FloatBits(1.5f32.to_bits())), FloatBits(1.5f32.to_bits()));
    assert_eq!(round(DoubleBits(2.5f64.to_bits())), DoubleBits(2.5f64.to_bits()));
    assert_eq!(round('é'), 'é');
    assert_eq!(round('\u{ffff}'), '\u{ffff}');
    assert_eq!(round("grüße".to_string()), "grüße");
    assert_eq!(round(JObject { id: 4 }), JObject { id: 4 });
    assert_eq!(round(JClass { id: 5 }), JClass { id: 5 });
    assert_eq!(round(JArray::<i32>::from_id(6)).id, 6);
    assert_eq!(round(JArray::<JObject>::from_id(6)).id, 6);
}

#[test]
fn every_byte_comes_back() {
    for b in 0..=255u8 {
        assert!(matches!(one(b), Outgoing::Arg(JavaArg::Byte(x)) if x == b as i8));
        assert_eq!(round(b), b);
    }
}

#[test]
fn a_char_takes_one_code_unit() {
    assert!(matches!(one('A'), Outgoing::Arg(JavaArg::Char(65))));
    assert_eq!(
        message('😀'.to_java()),
        "a Rust char above U+FFFF cannot be represented as a single Java `char`; use a String instead"
    );
    assert_eq!(
        message(char::from_java(Incoming::of_value(JavaValue::Char(0xd83d)))),
        "this Java char is an unpaired UTF-16 surrogate and cannot be represented as a single Rust char"
    );
    assert_eq!(
        message('😀'.__as_java_arg()),
        "a char above U+FFFF cannot be represented as a single Java char; use String instead"
    );
}

#[test]
fn wrong_return_types_are_named() {
    let v = || Incoming::of_value(JavaValue::Void);
    assert_eq!(
        message(bool::from_java(v())),
        "expected a Java `boolean` return value but got a different Java type"
    );
    assert_eq!(
        message(i8::from_java(v())),
        "expected a Java `byte` return value but got a different Java type"
    );
    assert_eq!(
        message(u8::from_java(v())),
        "expected a Java `byte` return value but got a different Java type"
    );
    assert_eq!(
        message(i16::from_java(v())),
        "expected a Java `short` return value but got a different Java type"
    );
    assert_eq!(
        message(i32::from_java(Incoming::of_value(JavaValue::Long(1)))),
        "expected a Java `int` return value but got a different Java type"
    );
    assert_eq!(
        message(i64::from_java(v())),
        "expected a Java `long` return value but got a different Java type"
    );
    assert_eq!(
        message(FloatBits::from_java(v())),
        "expected a Java `float` return value but got a different Java type"
    );
    assert_eq!(
        message(DoubleBits::from_java(v())),
        "expected a Java `double` return value but got a different Java type"
    );
    assert_eq!(
        message(char::from_java(v())),
        "expected a Java `char` return value but got a different Java type"
    );
    assert_eq!(
        message(String::from_java(v())),
        "expected a Java `String` return value but got a different Java type"
    );
    assert_eq!(
        message(JObject::from_java(v())),
        "expected a Java object return value but got a primitive"
    );
    assert_eq!(
        message(JClass::from_java(v())),
        "expected a java.lang.Class return value but got a different Java type"
    );
    assert_eq!(
        message(JArray::<i32>::from_java(v())),
        "expected a Java array return value but got a primitive"
    );
    assert_eq!(
        message(Vec::<i32>::from_java(v())),
        "expected a Java array return value but got a primitive"
    );
}

#[test]
fn null_is_an_error_unless_it_is_asked_for() {
    let null = || Incoming::of_value(JavaValue::Object(None));
    assert_eq!(
        message(String::from_java(null())),
        "method returned null where a String was expected (use Option<String> to accept null)"
    );
    assert_eq!(
        message(JObject::from_java(null())),
        "method returned null where an object was expected (use Option<JObject> to accept null)"
    );
    assert_eq!(
        message(JClass::from_java(null())),
        "method returned null where a Class was expected"
    );
    assert_eq!(
        message(Vec::<String>::from_java(null())),
        "method returned null where an array was expected"
    );
    assert_eq!(
        message(JArray::<JObject>::from_java(null())),
        "method returned null where an array was expected"
    );
    assert_eq!(Option::<String>::from_java(null()).unwrap(), None);
    assert_eq!(Option::<i32>::from_java(Incoming::of_value(JavaValue::Int(3))).unwrap(), Some(3));
}

#[test]
fn options_send_null_or_the_value() {
    assert!(matches!(one(None::<String>), Outgoing::Arg(JavaArg::Object(None))));
    assert!(matches!(one(Some(3i32)), Outgoing::Arg(JavaArg::Int(3))));
    assert_eq!(None::<i32>.java_args(), "Ljava/lang/Object;");
    assert_eq!(Some(3i32).java_args(), "I");
    assert_eq!(Option::<i64>::java_return_type(), "J");
    assert_eq!(round(Some("x".to_string())), Some("x".to_string()));
    assert_eq!(round(None::<String>), None);
}

#[test]
fn fragments_of_the_types() {
    assert_eq!(().java_args(), "");
    assert_eq!(<()>::java_return_type(), "V");
    assert!(<()>::from_java(Incoming::of_value(JavaValue::Int(1))).is_ok());
    assert!(().to_java().unwrap().is_empty());
    assert_eq!("x".java_args(), "Ljava/lang/String;");
    assert!(matches!(one("x"), Outgoing::Text(s) if s == "x"));
    assert_eq!(String::java_return_type(), "Ljava/lang/String;");
    assert_eq!(JObject::java_return_type(), "Ljava/lang/Object;");
    assert_eq!(JClass { id: 1 }.java_args(), "Ljava/lang/Class;");
    assert_eq!(JClassLoader { id: 1 }.java_args(), "Ljava/lang/ClassLoader;");
    assert!(matches!(one(JClassLoader { id: 9 }), Outgoing::Arg(JavaArg::Object(Some(9)))));
    assert_eq!(JArray::<i64>::java_return_type(), "[J");
    assert_eq!(JArray::<JObject>::java_return_type(), "[Ljava/lang/Object;");
    assert_eq!(Vec::<u8>::java_return_type(), "[B");
    assert_eq!(Vec::<String>::java_return_type(), "[Ljava/lang/String;");
    assert_eq!(Vec::<JArray<i32>>::java_return_type(), "[[I");
    assert_eq!(Vec::<JArray<JObject>>::java_return_type(), "[[Ljava/lang/Object;");
    assert_eq!(Vec::<Option<String>>::java_return_type(), "[Ljava/lang/String;");
    assert_eq!(vec![FloatBits(0)].java_args(), "[F");
    assert_eq!(Vec::<DoubleBits>::java_return_type(), "[D");
    assert_eq!(bool::element_signature(), "Z");
    assert_eq!(char::element_signature(), "C");
}

#[test]
fn shapes_say_what_to_read() {
    assert_eq!(String::shape(), Shape::One(ObjectShape::Text));
    assert_eq!(JClass::shape(), Shape::One(ObjectShape::Class));
    assert_eq!(
        JArray::<i16>::shape(),
        Shape::One(ObjectShape::PrimitiveArray(ArrayKind::Short))
    );
    assert_eq!(JArray::<JObject>::shape(), Shape::One(ObjectShape::ObjectArray));
    assert_eq!(Vec::<i32>::shape(), Shape::Region(ArrayKind::Int));
    assert_eq!(Vec::<u8>::shape(), Shape::Region(ArrayKind::Byte));
    assert_eq!(Vec::<Option<String>>::shape(), Shape::Objects(ObjectShape::Text));
    assert_eq!(Option::<i32>::shape(), Shape::One(ObjectShape::Any));
}

#[test]
fn vectors_come_back_in_order() {
    assert_eq!(round(vec![1i32, -2, 3]), vec![1, -2, 3]);
    assert_eq!(round(Vec::<i64>::new()), Vec::<i64>::new());
    assert_eq!(round(vec![0u8, 127, 128, 255]), vec![0, 127, 128, 255]);
    assert_eq!(round(vec!['a', 'ß']), vec!['a', 'ß']);
    assert_eq!(round(vec![true, false]), vec![true, false]);
    assert_eq!(round(vec!["a".to_string(), "".to_string()]), vec!["a", ""]);
    assert_eq!(
        round(vec![Some("a".to_string()), None]),
        vec![Some("a".to_string()), None]
    );
    assert_eq!(round(vec![Some(1i32), Some(2)]), vec![Some(1), Some(2)]);
    assert_eq!(round(vec![JObject { id: 3 }]), vec![JObject { id: 3 }]);
}

#[test]
fn vectors_become_one_array() {
    assert!(matches!(one(vec![1i32, 2]), Outgoing::Region(Region::Int(v)) if v == vec![1, 2]));
    assert!(matches!(one(vec![200u8]), Outgoing::Region(Region::Byte(v)) if v == vec![-56]));
    match one(vec!["a".to_string()]) {
        Outgoing::Objects { class, items } => {
            assert_eq!(class, "java.lang.String");
            assert!(matches!(&items[0], OutgoingItem::Text(s) if s == "a"));
        }
        other => panic!("{other:?}"),
    }
    match one(vec![JArray::<i32>::from_id(5)]) {
        Outgoing::Objects { class, items } => {
            assert_eq!(class, "[I");
            assert!(matches!(items[0], OutgoingItem::Object(Some(5))));
        }
        other => panic!("{other:?}"),
    }
    assert_eq!(JArray::<JObject>::element_class(), "[Ljava/lang/Object;");
    assert_eq!(JClass::element_class(), "java.lang.Class");
    assert_eq!(i32::element_class(), "java.lang.Object");
    assert_eq!(Option::<u8>::__vec_kind(), VecKind::U8);
}

#[test]
fn bad_elements_are_refused() {
    assert_eq!(
        message(vec![Some(1i32), None].to_java()),
        "a null element cannot be stored in a primitive Java array"
    );
    assert_eq!(
        message(vec!['a', '😀'].to_java()),
        "a char above U+FFFF cannot be represented as a single Java char; use String instead"
    );
    assert_eq!(
        message("s".to_string().__as_vec_element_arg()),
        "internal error: an object-array element cannot be stored in a primitive Java array"
    );
    assert_eq!(
        message(vec![Some(2u8), None].to_java()),
        "a null element cannot be stored in a primitive Java array"
    );
}

#[test]
fn other_arrays_are_refused() {
    let other = Incoming {
        value: JavaValue::Object(Some(1)),
        contents: Contents::Region(Region::Long(vec![1])),
    };
    assert_eq!(
        message(Vec::<i32>::from_java(other)),
        "the returned Java object is not an array of the annotated element type"
    );
    assert!(validate_array_kind(true).is_ok());
    assert_eq!(
        message(validate_array_kind(false)),
        "the returned Java object is not an array of the annotated element type"
    );
}

#[test]
fn unreadable_objects_keep_their_error() {
    let failed = || Reading::Failed(JavaError::JvmStart("no".to_string()));
    let v = Incoming { value: JavaValue::Object(Some(1)), contents: Contents::One(failed()) };
    assert!(matches!(String::from_java(v), Err(JavaError::JvmStart(m)) if m == "no"));
    let v = Incoming { value: JavaValue::Object(Some(1)), contents: Contents::One(failed()) };
    assert!(matches!(JArray::<i32>::from_java(v), Err(JavaError::JvmStart(_))));
    let v = Incoming {
        value: JavaValue::Object(Some(1)),
        contents: Contents::Objects(vec![
            IncomingItem { object: None, reading: Reading::Nothing },
            IncomingItem { object: Some(2), reading: failed() },
        ]),
    };
    assert_eq!(
        message(Vec::<String>::from_java(v)),
        "method returned null where a String was expected (use Option<String> to accept null)"
    );
}

#[test]
fn regions_are_filled_and_read() {
    let r = fill_primitive_array(ArrayKind::Short, &vec![JavaArg::Short(1), JavaArg::Short(-1)])
        .unwrap();
    assert_eq!(r.kind(), ArrayKind::Short);
    assert_eq!(r.len(), 2);
    assert_eq!(to_vec_local::<i16>(&r).unwrap(), vec![1, -1]);
    for (kind, text) in [
        (ArrayKind::Bool, "booleans"),
        (ArrayKind::Byte, "bytes"),
        (ArrayKind::Char, "chars"),
        (ArrayKind::Short, "shorts"),
        (ArrayKind::Int, "ints"),
        (ArrayKind::Long, "longs"),
        (ArrayKind::Float, "floats"),
        (ArrayKind::Double, "doubles"),
    ] {
        assert_eq!(
            message(fill_primitive_array(kind, &vec![JavaArg::Object(None)])),
            format!("expected all elements to be {text}")
        );
    }
    assert_eq!(
        message(to_vec_local::<char>(&Region::Char(vec![65, 0xdfff]))),
        "this Java char is an unpaired UTF-16 surrogate and cannot be represented as a single Rust char"
    );
}

#[test]
fn arrays_are_made_of_elements() {
    let r = from_vec_local(&vec![3i64, 4]).unwrap();
    assert_eq!(to_vec_local::<i64>(&r).unwrap(), vec![3, 4]);
    assert!(from_vec_local(&vec!['😀']).is_err());
    let r = element_to_store(&7i32).unwrap();
    assert_eq!(array_get(&r), Some(JavaValue::Int(7)));
    assert_eq!(array_get(&Region::Int(vec![])), None);
    assert_eq!(
        message(element_to_store(&'😀')),
        "a char above U+FFFF cannot be represented as a single Java char; use String instead"
    );
}

#[test]
fn stored_elements_have_the_element_type() {
    for (kind, text) in [
        (ArrayKind::Bool, "a boolean"),
        (ArrayKind::Byte, "a byte"),
        (ArrayKind::Char, "a char"),
        (ArrayKind::Short, "a short"),
        (ArrayKind::Int, "an int"),
        (ArrayKind::Long, "a long"),
        (ArrayKind::Float, "a float"),
        (ArrayKind::Double, "a double"),
    ] {
        assert_eq!(
            message(array_set(kind, &JavaArg::Object(None))),
            format!("expected {text} array element")
        );
    }
    assert!(matches!(array_set(ArrayKind::Float, &JavaArg::Float(9)), Ok(Region::Float(v)) if v == vec![9]));
}

#[test]
fn indexes_stay_in_range_or_become_negative() {
    assert_eq!(region_start(0), 0);
    assert_eq!(region_start(i32::MAX as usize), i32::MAX);
    assert_eq!(region_start(i32::MAX as usize + 1), i32::MIN);
    assert_eq!(region_start(u32::MAX as usize), -1);
    assert_eq!(region_start(u32::MAX as usize + 1), -1);
}

#[test]
fn required_elements_are_not_null() {
    assert_eq!(to_vec_required(&vec![Some(1), Some(2)]).unwrap(), vec![1, 2]);
    assert_eq!(
        message(to_vec_required(&vec![Some(1), None])),
        "array element is null; use to_vec_options to accept null elements"
    );
}

#[test]
fn element_classes_are_looked_up_with_slashes() {
    assert_eq!(element_class_name("java.lang.String"), "java/lang/String");
    assert_eq!(element_class_name("java/lang/String"), "java/lang/String");
    assert_eq!(element_class_name("[I"), "[I");
}

#[test]
fn arguments_are_listed_in_order() {
    let args = Arguments::new().with(&1i32).with(&"a").with(&()).with(&vec![2i64]).with(&true);
    assert_eq!(args.java_args(), "ILjava/lang/String;[JZ");
    let sent = args.to_java().unwrap();
    assert_eq!(sent.len(), 4);
    assert!(matches!(sent[0], Outgoing::Arg(JavaArg::Int(1))));
    assert!(matches!(&sent[1], Outgoing::Text(s) if s == "a"));
    assert!(matches!(&sent[2], Outgoing::Region(Region::Long(v)) if *v == vec![2]));
    assert!(matches!(sent[3], Outgoing::Arg(JavaArg::Bool(true))));
    let failing = Arguments::new().with(&'😀').with(&vec![None::<i32>]);
    assert_eq!(
        message(failing.to_java()),
        "a Rust char above U+FFFF cannot be represented as a single Java `char`; use a String instead"
    );
}

#[test]
fn primitives_are_handed_over_and_taken_back() {
    for a in [
        JavaArg::Bool(true),
        JavaArg::Byte(1),
        JavaArg::Char(2),
        JavaArg::Short(3),
        JavaArg::Int(4),
        JavaArg::Long(5),
        JavaArg::Float(6),
        JavaArg::Double(7),
    ] {
        assert!(a.is_primitive_arg());
        assert_eq!(primitive_arg(&to_jvalue(&a)), Some(a));
    }
    assert!(!JavaArg::Object(None).is_primitive_arg());
    assert_eq!(primitive_arg(&JavaValue::Object(Some(1))), None);
    assert_eq!(JavaArg::Double(0).letter(), Some('D'));
    assert_eq!(JavaArg::Object(Some(1)).letter(), None);
}
