use rjava::bridge::{spawn_failure, Bridge, BridgeKind, Polled};
use rjava::convert::{Contents, FromJava, Incoming, Reading};
use rjava::error::JavaError;
use rjava::future::{
    complete_value, make_async_native, panic_message, primitive_return_letter, throwable_info,
    throwable_of, unbox_for_annotation, worker_error, Aborted, AsyncAsk, AsyncReply, AsyncStep,
    FetchAsk, FetchReply, FetchStep, Payload, ThrowableAsk, ThrowableStep, Worker, WRONG_ARITY,
};
use rjava::interface::Boxing;
use rjava::value::{JavaArg, JavaValue};

fn misuse() -> JavaError {
    JavaError::InvalidArgument("no")
}

#[test]
fn futures_are_fetched_and_unboxed() {
    let a = FetchAsk::fetch_completion();
    assert_eq!(a, FetchAsk::Get);
    assert!(matches!(
        a.answered("I", false, FetchReply::Got(JavaValue::Object(Some(3)))),
        FetchStep::Ask(FetchAsk::Unbox(3, 'I'))
    ));
    assert!(matches!(
        FetchAsk::Unbox(3, 'I').answered("I", false, FetchReply::Unboxed(Ok(JavaValue::Int(5)))),
        FetchStep::Done(Ok(JavaValue::Int(5)))
    ));
    assert!(matches!(
        a.answered("Ljava/lang/String;", false, FetchReply::Got(JavaValue::Object(None))),
        FetchStep::Done(Ok(JavaValue::Object(None)))
    ));
    assert!(matches!(
        a.answered("I", false, FetchReply::Failed(misuse())),
        FetchStep::Done(Err(JavaError::InvalidArgument("no")))
    ));
    match unbox_for_annotation("J", false, JavaValue::Object(None)) {
        FetchStep::Done(Err(JavaError::InvalidArgument(m))) => assert_eq!(
            m,
            "the future completed with null but a Java primitive value was expected (annotate with Option<T> to accept null)"
        ),
        other => panic!("{other:?}"),
    }
    assert_eq!(primitive_return_letter("V"), None);
    assert_eq!(primitive_return_letter("[I"), None);
    assert_eq!(primitive_return_letter("D"), Some('D'));
}

#[test]
fn null_is_none_to_a_caller_that_accepts_it() {
    let null = || FetchReply::Got(JavaValue::Object(None));
    assert!(Option::<i32>::accepts_null());
    assert_eq!(Option::<i32>::java_return_type(), "I");
    let step = FetchAsk::Get.answered(
        &Option::<i32>::java_return_type(),
        Option::<i32>::accepts_null(),
        null(),
    );
    let FetchStep::Done(Ok(value)) = step else { panic!("{step:?}") };
    assert_eq!(value, JavaValue::Object(None));
    let incoming = Incoming { value, contents: Contents::One(Reading::Nothing) };
    assert_eq!(Option::<i32>::from_java(incoming).unwrap(), None);

    assert!(!i32::accepts_null());
    let step =
        FetchAsk::Get.answered(&i32::java_return_type(), i32::accepts_null(), null());
    assert!(matches!(step, FetchStep::Done(Err(JavaError::InvalidArgument(_)))), "{step:?}");

    let step = FetchAsk::Get.answered("I", true, FetchReply::Got(JavaValue::Object(Some(3))));
    assert!(matches!(step, FetchStep::Ask(FetchAsk::Unbox(3, 'I'))), "{step:?}");
    let incoming = Incoming {
        value: JavaValue::Int(5),
        contents: Contents::One(Reading::Nothing),
    };
    assert_eq!(Option::<i32>::from_java(incoming).unwrap(), Some(5));
    assert!(!String::accepts_null());
    assert!(!Vec::<i32>::accepts_null());
    assert!(Option::<Option<bool>>::accepts_null());
}

#[test]
fn failed_futures_report_the_cause() {
    let a = FetchAsk::Get;
    assert!(matches!(
        a.answered("I", false, FetchReply::Threw(4)),
        FetchStep::Ask(FetchAsk::Cause(4))
    ));
    assert!(matches!(
        FetchAsk::Cause(4).answered("I", false, FetchReply::Cause(Some(5))),
        FetchStep::Ask(FetchAsk::Describe(5))
    ));
    assert!(matches!(
        FetchAsk::Cause(4).answered("I", false, FetchReply::Cause(None)),
        FetchStep::Ask(FetchAsk::Describe(4))
    ));
    let class = "java.lang.IllegalArgumentException".to_string();
    match FetchAsk::Describe(5)
        .answered("I", false, FetchReply::Described(Some(class), Some("nope".to_string())))
    {
        FetchStep::Done(Err(e)) => {
            assert_eq!(e.text(), "java.lang.IllegalArgumentException: nope")
        }
        other => panic!("{other:?}"),
    }
    assert_eq!(throwable_info(None, None).text(), "java.lang.Throwable");
    assert!(matches!(
        FetchAsk::Get.answered("I", false, FetchReply::Cause(None)),
        FetchStep::Ask(FetchAsk::Get)
    ));
}

#[test]
fn values_complete_a_future_as_objects() {
    assert_eq!(complete_value(&vec![]).unwrap(), Boxing::Keep(None));
    assert_eq!(complete_value(&vec![JavaArg::Int(3)]).unwrap(), Boxing::Wrap(JavaArg::Int(3)));
    assert_eq!(complete_value(&vec![JavaArg::Object(Some(3))]).unwrap(), Boxing::Keep(Some(3)));
    match complete_value(&vec![JavaArg::Int(3), JavaArg::Int(4)]) {
        Err(JavaError::InvalidArgument(m)) => assert_eq!(
            m,
            "async native method: the Rust async function returned more than one Java value"
        ),
        other => panic!("{other:?}"),
    }
}

#[test]
fn errors_become_throwables() {
    let e = JavaError::JavaException { class: "a.E".to_string(), message: "m".to_string() };
    assert_eq!(throwable_of(&e, "debug".to_string()), ("a/E".to_string(), "m".to_string()));
    assert_eq!(
        throwable_of(&misuse(), "debug".to_string()),
        ("java/lang/RuntimeException".to_string(), "debug".to_string())
    );
    let a = ThrowableAsk::build_throwable();
    assert_eq!(a, ThrowableAsk::Find);
    assert!(matches!(a.answered(Ok(1)), ThrowableStep::Ask(ThrowableAsk::Construct(1))));
    assert!(matches!(a.answered(Err(misuse())), ThrowableStep::Ask(ThrowableAsk::FindFallback)));
    let a = ThrowableAsk::FindFallback;
    assert!(matches!(a.answered(Ok(2)), ThrowableStep::Ask(ThrowableAsk::Construct(2))));
    assert!(matches!(a.answered(Err(misuse())), ThrowableStep::Done(Err(_))));
    let a = ThrowableAsk::Construct(1);
    assert!(matches!(a.answered(Ok(9)), ThrowableStep::Done(Ok(9))));
    assert!(matches!(a.answered(Err(misuse())), ThrowableStep::Ask(ThrowableAsk::FindFallbackAgain)));
    let a = ThrowableAsk::FindFallbackAgain;
    assert!(matches!(a.answered(Ok(3)), ThrowableStep::Ask(ThrowableAsk::ConstructFallback(3))));
    assert!(matches!(a.answered(Err(misuse())), ThrowableStep::Done(Err(_))));
    let a = ThrowableAsk::ConstructFallback(3);
    assert!(matches!(a.answered(Ok(8)), ThrowableStep::Done(Ok(8))));
    assert!(matches!(a.answered(Err(misuse())), ThrowableStep::Done(Err(_))));
}

#[test]
fn panics_are_worded() {
    assert_eq!(panic_message(&Payload::Literal("boom")), "boom");
    let nested = Payload::Again(Box::new(Payload::Again(Box::new(Payload::Text("b".to_string())))));
    assert_eq!(panic_message(&nested), "b");
    assert_eq!(panic_message(&Payload::Other), "unknown panic payload");
    assert_eq!(
        worker_error(&Aborted::Panicked(Payload::Literal("boom"))).text(),
        "java.lang.RuntimeException: async native method panicked: boom"
    );
    assert_eq!(
        worker_error(&Aborted::Cancelled).text(),
        "java.lang.RuntimeException: async native method task was cancelled"
    );
}

#[test]
fn async_natives_return_a_future() {
    assert_eq!(make_async_native("II"), "(II)Ljava/util/concurrent/CompletableFuture;");
}

#[test]
fn async_calls_start_a_worker() {
    match AsyncAsk::call(2, 1) {
        AsyncStep::Throw(JavaError::InvalidArgument(m)) => assert_eq!(m, WRONG_ARITY),
        other => panic!("{other:?}"),
    }
    let AsyncStep::Ask(a) = AsyncAsk::call(2, 2) else { panic!("a question") };
    assert_eq!(a, AsyncAsk::Convert);
    assert!(matches!(
        a.answered(AsyncReply::Converted(Err(misuse())), false),
        AsyncStep::Throw(_)
    ));
    let AsyncStep::Ask(a) = a.answered(AsyncReply::Converted(Ok(())), false) else {
        panic!("a question")
    };
    assert_eq!(a, AsyncAsk::Attach);
    let AsyncStep::Ask(a) = a.answered(AsyncReply::Attached(Ok(())), false) else {
        panic!("a question")
    };
    assert_eq!(a, AsyncAsk::Create);
    assert!(matches!(
        a.answered(AsyncReply::Created(Ok(6)), true),
        AsyncStep::Ask(AsyncAsk::Start(Worker::Task, 6))
    ));
    let AsyncStep::Ask(a) = a.answered(AsyncReply::Created(Ok(6)), false) else {
        panic!("a question")
    };
    assert_eq!(a, AsyncAsk::Start(Worker::Thread, 6));
    assert!(matches!(a.answered(AsyncReply::Started(true), false), AsyncStep::Return(6)));
    match a.answered(AsyncReply::Started(false), false) {
        AsyncStep::Fail(6, JavaError::InvalidArgument(m)) => {
            assert_eq!(m, "failed to spawn the async native worker thread")
        }
        other => panic!("{other:?}"),
    }
}

#[test]
fn bridges_start_wait_and_finish_once() {
    let b: Bridge<u8, &str, i32> = Bridge::new(1);
    assert!(b.held_waker().is_none());
    let (b, p) = b.poll("first", false);
    assert!(matches!(p, Polled::Start(1)));
    assert_eq!(b.held_waker(), Some(&"first"));
    let (b, p) = b.poll("first", true);
    assert!(matches!(p, Polled::Pending));
    let (b, p) = b.poll("second", false);
    assert!(matches!(p, Polled::Pending));
    let (b, woken) = b.complete(42);
    assert_eq!(woken, Some("second"));
    let (b, p) = b.poll("second", false);
    assert!(matches!(p, Polled::Ready(42)));
    let (_, p) = b.poll("second", false);
    assert!(matches!(p, Polled::Finished));
}

#[test]
fn bridges_report_a_worker_that_did_not_start() {
    let b: Bridge<u8, &str, i32> = Bridge::new(1);
    let (b, _) = b.poll("w", false);
    let (_, p) = b.fail(-1).poll("w", false);
    assert!(matches!(p, Polled::Ready(-1)));
    assert_eq!(
        spawn_failure(BridgeKind::Call).text(),
        "invalid argument: failed to spawn the async-call bridge thread"
    );
    assert_eq!(
        spawn_failure(BridgeKind::Future).text(),
        "invalid argument: failed to spawn the CompletableFuture bridge thread"
    );
}
