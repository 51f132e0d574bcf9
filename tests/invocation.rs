use jerk_test::invocation::{Action, Event, Invocation, Stage};
use jerk_test::JavaTestError;

fn drive(inv: &mut Invocation, events: &[Event]) -> Vec<Action> {
    events.iter().map(|e| inv.step(*e)).collect()
}

fn report_message(a: &Action) -> Option<String> {
    match a {
        Action::Report(Err(e)) => Some(e.message().to_string()),
        _ => None,
    }
}

fn abort_message(a: &Action) -> Option<String> {
    match a {
        Action::Abort { message } => Some(message.clone()),
        _ => None,
    }
}

#[test]
fn math_tests_addition_succeeds() {
    let mut inv = Invocation::new("com.example", "MathTests", "testAddition");
    assert_eq!(inv.stage(), Stage::Idle);
    let actions = drive(
        &mut inv,
        &[
            Event::Environment { available: true },
            Event::ClassLookup { found: true },
            Event::MethodLookup { found: true },
            Event::Returned,
            Event::ExceptionCheck { pending: false },
        ],
    );
    assert_eq!(actions.len(), 5);
    match &actions[0] {
        Action::FindClass { key } => assert_eq!(key, "com/example/MathTests\0"),
        _ => panic!("expected a class lookup"),
    }
    match &actions[1] {
        Action::GetStaticMethodId { name, signature } => {
            assert_eq!(name, "testAddition\0");
            assert_eq!(signature, "()V\0");
        }
        _ => panic!("expected a method lookup"),
    }
    assert!(matches!(actions[2], Action::CallStaticVoidMethod));
    assert!(matches!(actions[3], Action::CheckException));
    assert!(matches!(actions[4], Action::Report(Ok(()))));
    assert!(inv.is_finished());
}

#[test]
fn math_tests_divide_by_zero_reports_error() {
    let mut inv = Invocation::new("com.example", "MathTests", "testDivideByZero");
    let actions = drive(
        &mut inv,
        &[
            Event::Environment { available: true },
            Event::ClassLookup { found: true },
            Event::MethodLookup { found: true },
            Event::Returned,
            Event::ExceptionCheck { pending: true },
            Event::ExceptionCleared,
        ],
    );
    assert!(matches!(actions[4], Action::DescribeAndClearException));
    assert_eq!(
        report_message(&actions[5]).unwrap(),
        "MathTests.testDivideByZero() threw a Java Exception"
    );
    assert!(matches!(actions[5], Action::Report(Err(JavaTestError::Unknown(_)))));
    assert_eq!(inv.stage(), Stage::Finished);
}

#[test]
fn missing_class_aborts() {
    let mut inv = Invocation::new("com.example", "NoSuchTests", "testAnything");
    let actions = drive(
        &mut inv,
        &[Event::Environment { available: true }, Event::ClassLookup { found: false }],
    );
    assert_eq!(
        abort_message(&actions[1]).unwrap(),
        "Failed to FindClass com.example.NoSuchTests - the corresponding .jar may not be loaded"
    );
    assert!(inv.is_finished());
}

#[test]
fn missing_class_never_reports_later() {
    let mut inv = Invocation::new("p", "C", "m");
    let actions = drive(
        &mut inv,
        &[
            Event::Environment { available: true },
            Event::ClassLookup { found: false },
            Event::MethodLookup { found: true },
            Event::Returned,
            Event::ExceptionCheck { pending: false },
            Event::ExceptionCleared,
        ],
    );
    for a in &actions {
        assert!(!matches!(a, Action::Report(_)));
    }
    assert_eq!(
        abort_message(&actions[5]).unwrap(),
        "unexpected event in a Java test invocation"
    );
}

#[test]
fn missing_method_aborts() {
    let mut inv = Invocation::new("com.example", "MathTests", "testMissing");
    let actions = drive(
        &mut inv,
        &[
            Event::Environment { available: true },
            Event::ClassLookup { found: true },
            Event::MethodLookup { found: false },
        ],
    );
    assert_eq!(
        abort_message(&actions[2]).unwrap(),
        "Failed to GetStaticMethodID MathTests.testMissing"
    );
    assert!(inv.is_finished());
}

#[test]
fn missing_environment_aborts() {
    let mut inv = Invocation::new("com.example", "MathTests", "testAddition");
    let a = inv.step(Event::Environment { available: false });
    assert_eq!(abort_message(&a).unwrap(), "Couldn't initialize Java VM");
    assert!(inv.is_finished());
}

#[test]
fn out_of_order_event_aborts() {
    let mut inv = Invocation::new("com.example", "MathTests", "testAddition");
    let a = inv.step(Event::Returned);
    assert_eq!(
        abort_message(&a).unwrap(),
        "unexpected event in a Java test invocation"
    );
    assert_eq!(inv.stage(), Stage::Finished);
}

#[test]
fn success_is_reported_once() {
    let mut inv = Invocation::new("a.b", "T", "t");
    let actions = drive(
        &mut inv,
        &[
            Event::Environment { available: true },
            Event::ClassLookup { found: true },
            Event::MethodLookup { found: true },
            Event::Returned,
            Event::ExceptionCheck { pending: false },
            Event::ExceptionCheck { pending: false },
            Event::ExceptionCleared,
        ],
    );
    let reports = actions.iter().filter(|a| matches!(a, Action::Report(_))).count();
    assert_eq!(reports, 1);
}

#[test]
fn stages_advance_in_order() {
    let mut inv = Invocation::new("a", "B", "c");
    inv.step(Event::Environment { available: true });
    assert_eq!(inv.stage(), Stage::ResolvingClass);
    inv.step(Event::ClassLookup { found: true });
    assert_eq!(inv.stage(), Stage::ResolvingMethod);
    inv.step(Event::MethodLookup { found: true });
    assert_eq!(inv.stage(), Stage::Invoking);
    inv.step(Event::Returned);
    assert_eq!(inv.stage(), Stage::CheckingException);
    inv.step(Event::ExceptionCheck { pending: true });
    assert_eq!(inv.stage(), Stage::ClearingException);
    assert!(!inv.is_finished());
    inv.step(Event::ExceptionCleared);
    assert!(inv.is_finished());
}
