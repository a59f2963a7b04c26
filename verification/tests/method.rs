use mockiato::matcher::ArgumentsMatcher;
use mockiato::method::{CallError, Method, VerificationError};
use mockiato::return_value::ReturnValueError;

#[derive(Debug)]
struct ArgumentsMock;

struct ArgumentsMatcherMock {
    matches: Option<bool>,
}

impl ArgumentsMatcherMock {
    fn new(matches: Option<bool>) -> Self {
        Self { matches }
    }
}

impl ArgumentsMatcher for ArgumentsMatcherMock {
    type Arguments = ArgumentsMock;

    fn spec_matches_arguments(&self, _: &ArgumentsMock) -> bool {
        self.matches == Some(true)
    }

    fn matches_arguments(&self, _: &ArgumentsMock) -> bool {
        self.matches.expect("matches_arguments() was not expected to be called")
    }
}

#[test]
fn call_errors_if_more_than_one_call_matches() {
    let mut method = Method::<_, ()>::new("test");

    method.add_expected_call(ArgumentsMatcherMock::new(Some(true)));

    method.add_expected_call(ArgumentsMatcherMock::new(Some(true)));

    match method.call(ArgumentsMock) {
        Err(CallError::MoreThanOneMatching(method_calls)) => {
            assert_eq!(2, method_calls.len());
        }
        _ => panic!("unexpected result from method call"),
    }
}

#[test]
fn call_errors_if_no_calls_match() {
    let mut method = Method::<_, ()>::new("test");

    method
        .add_expected_call(ArgumentsMatcherMock::new(Some(false)))
        .returns_value(());

    match method.call(ArgumentsMock) {
        Err(CallError::NoMatching) => {}
        _ => panic!("unexpected result from method call"),
    }
}

#[test]
fn call_calls_matching_method_call() {
    let mut method = Method::<_, String>::new("test");

    method
        .add_expected_call(ArgumentsMatcherMock::new(Some(true)))
        .returns_value(String::from("bar"));

    assert_eq!(String::from("bar"), method.call(ArgumentsMock).unwrap());
}

#[test]
fn errors_when_matching_call_is_called_more_than_expected() {
    let mut method = Method::<_, ()>::new("test");
    method
        .add_expected_call(ArgumentsMatcherMock::new(Some(true)))
        .times(1)
        .returns_value(());

    assert!(method.call(ArgumentsMock).is_ok());
    assert!(method.call(ArgumentsMock).is_err());
}

#[test]
fn verify_is_ok_if_expectations_are_met() {
    let mut method = Method::<_, String>::new("test");

    method
        .add_expected_call(ArgumentsMatcherMock::new(Some(true)))
        .returns_value(String::default())
        .times(1);

    method.call(ArgumentsMock).unwrap();

    assert!(method.verify().is_ok());
}

#[test]
fn verify_errors_if_expectations_not_met() {
    let mut method = Method::<_, String>::new("test");

    method
        .add_expected_call(ArgumentsMatcherMock::new(None))
        .returns_value(String::default())
        .times(2);

    assert!(method.verify().is_err());
}

#[test]
fn verify_is_ok_if_expectations_are_empty() {
    let method = Method::<ArgumentsMatcherMock, String>::new("test");

    assert!(method.verify().is_ok());
}

#[test]
fn unordered_expectations_work_with_one_matching_expected_call() {
    let mut method = Method::<_, ()>::new("test");

    method
        .add_expected_call(ArgumentsMatcherMock::new(Some(false)))
        .returns_value(());
    method
        .add_expected_call(ArgumentsMatcherMock::new(Some(true)))
        .returns_value(());

    let result = method.call(ArgumentsMock {});

    assert!(result.is_ok())
}

#[test]
fn unordered_expectations_fail_with_multiple_matching_calls() {
    let mut method = Method::<_, ()>::new("test");

    method.add_expected_call(ArgumentsMatcherMock::new(Some(true)));
    method.add_expected_call(ArgumentsMatcherMock::new(Some(false)));
    method.add_expected_call(ArgumentsMatcherMock::new(Some(true)));

    let result = method.call(ArgumentsMock {});

    assert!(result.is_err())
}

#[test]
fn ordered_expectations_fail_if_first_call_does_not_match() {
    let mut method = Method::<_, ()>::new("test");

    method
        .add_expected_call(ArgumentsMatcherMock::new(Some(false)))
        .returns_value(());
    method
        .add_expected_call(ArgumentsMatcherMock::new(None))
        .returns_value(());
    method.expect_method_calls_in_order();

    let result = method.call(ArgumentsMock {});

    assert!(result.is_err())
}

#[test]
fn ordered_expectations_use_first_matching_call_regardless_of_other_expected_calls() {
    let mut method = Method::<_, ()>::new("test");

    method
        .add_expected_call(ArgumentsMatcherMock::new(Some(true)))
        .returns_value(());
    method
        .add_expected_call(ArgumentsMatcherMock::new(None))
        .returns_value(());
    method.expect_method_calls_in_order();

    let result = method.call(ArgumentsMock {});

    assert!(result.is_ok())
}

// Further behaviour of the dispatch.

#[test]
fn ordered_expectations_move_on_once_a_call_is_exhausted() {
    let mut method = Method::<_, u32>::new("test");
    method
        .add_expected_call(ArgumentsMatcherMock::new(Some(true)))
        .returns_value(1);
    method
        .add_expected_call(ArgumentsMatcherMock::new(Some(true)))
        .returns_value(2);
    method.expect_method_calls_in_order();

    assert_eq!(1, method.call(ArgumentsMock).unwrap());
    assert_eq!(2, method.call(ArgumentsMock).unwrap());
    assert!(matches!(method.call(ArgumentsMock), Err(CallError::NoMatching)));
    assert!(method.verify().is_ok());
}

#[test]
fn refused_calls_are_not_counted() {
    let mut method = Method::<_, ()>::new("test");
    method
        .add_expected_call(ArgumentsMatcherMock::new(Some(false)))
        .times(0)
        .returns_value(());
    assert!(method.call(ArgumentsMock).is_err());
    assert_eq!(0, method.calls[0].actual_number_of_calls);
    assert!(method.verify().is_ok());
}

#[test]
fn more_than_one_matching_reports_the_matching_calls() {
    let mut method = Method::<_, ()>::new("test");
    method.add_expected_call(ArgumentsMatcherMock::new(Some(true)));
    method.add_expected_call(ArgumentsMatcherMock::new(Some(false)));
    method.add_expected_call(ArgumentsMatcherMock::new(Some(true)));
    match method.call(ArgumentsMock) {
        Err(CallError::MoreThanOneMatching(indices)) => assert_eq!(vec![0, 2], indices),
        _ => panic!("unexpected result from method call"),
    }
}

#[test]
fn call_without_return_value_reports_it() {
    let mut method = Method::<_, ()>::new("test");
    method.add_expected_call(ArgumentsMatcherMock::new(Some(true)));
    assert!(matches!(
        method.return_value_error(&ArgumentsMock),
        Some(ReturnValueError::NotSpecified)
    ));
    assert_eq!(Some(0), method.target(&ArgumentsMock));
    assert_eq!(0, method.calls[0].actual_number_of_calls);
}

#[test]
fn panicking_call_reports_its_message() {
    let mut method = Method::<_, ()>::new("test");
    method
        .add_expected_call(ArgumentsMatcherMock::new(Some(true)))
        .panics_with_message("<panic message>");
    assert!(matches!(
        method.return_value_error(&ArgumentsMock),
        Some(ReturnValueError::Panicked(Some("<panic message>")))
    ));
    let mut method = Method::<_, ()>::new("test");
    method.add_expected_call(ArgumentsMatcherMock::new(Some(true))).panics();
    assert!(matches!(
        method.return_value_error(&ArgumentsMock),
        Some(ReturnValueError::Panicked(None))
    ));
}

#[test]
fn refused_calls_have_no_return_value_error() {
    let mut method = Method::<_, ()>::new("test");
    method.add_expected_call(ArgumentsMatcherMock::new(Some(false)));
    assert!(method.return_value_error(&ArgumentsMock).is_none());
    assert_eq!(None, method.target(&ArgumentsMock));
}

#[test]
fn value_returned_once_is_returned_once() {
    let mut method = Method::<_, String>::new("test");
    method
        .add_expected_call(ArgumentsMatcherMock::new(Some(true)))
        .returns_once(String::from("foo"));
    assert_eq!(String::from("foo"), method.call_unwrap(ArgumentsMock));
    assert!(method.verify().is_ok());
    method.verify_unwrap();
}

#[test]
fn unordered_call_is_refused_once_the_matching_call_is_exhausted() {
    let mut method = Method::<_, ()>::new("test");
    method
        .add_expected_call(ArgumentsMatcherMock::new(Some(true)))
        .times(..=2)
        .returns_value(());
    assert!(method.call(ArgumentsMock).is_ok());
    assert!(method.call(ArgumentsMock).is_ok());
    assert!(matches!(method.call(ArgumentsMock), Err(CallError::NoMatching)));
    assert_eq!(2, method.calls[0].actual_number_of_calls);
}

#[test]
fn unexpected_call_message_lists_the_expected_calls() {
    let calls = vec!["a -> 1 exactly 1 time, was called 0 times".to_string()];
    assert_eq!(
        "The call greet(\"x\") was not expected.\nThe following calls were expected:\n\
         a -> 1 exactly 1 time, was called 0 times\n\n",
        CallError::NoMatching.message("greet", "(\"x\")", &calls)
    );
    assert_eq!(
        "The call greet() was not expected.\nNo calls to greet were expected.\n",
        CallError::NoMatching.message("greet", "()", &Vec::new())
    );
}

#[test]
fn ambiguous_call_message_lists_the_matching_calls() {
    let calls = vec!["a".to_string(), "b".to_string(), "c".to_string()];
    assert_eq!(
        "\nThe call greet() matches more than one expected call:\nc\na\n\n",
        CallError::MoreThanOneMatching(vec![2, 0]).message("greet", "()", &calls)
    );
}

#[test]
fn verification_message_lists_all_calls() {
    let calls = vec!["a".to_string(), "b".to_string()];
    assert_eq!(
        "The expected calls for greet were not satisified.\na\nb\n",
        VerificationError.message("greet", &calls)
    );
}

#[test]
fn calls_can_be_counted_until_a_counter_is_full() {
    let mut method = Method::<_, ()>::new("test");
    assert!(method.can_count_calls());
    method.add_expected_call(ArgumentsMatcherMock::new(None));
    method.add_expected_call(ArgumentsMatcherMock::new(None));
    assert!(method.can_count_calls());
    method.calls[1].actual_number_of_calls = u64::MAX;
    assert!(!method.can_count_calls());
}

struct ValueMatcher(u8);

#[derive(Debug)]
struct ValueArguments(u8);

impl ArgumentsMatcher for ValueMatcher {
    type Arguments = ValueArguments;

    fn spec_matches_arguments(&self, arguments: &ValueArguments) -> bool {
        self.0 == arguments.0
    }

    fn matches_arguments(&self, arguments: &ValueArguments) -> bool {
        self.0 == arguments.0
    }
}

#[test]
fn unordered_dispatch_does_not_depend_on_the_order_of_expectations() {
    let mut first = Method::<_, u8>::new("test");
    first.add_expected_call(ValueMatcher(1)).returns_value(10);
    first.add_expected_call(ValueMatcher(2)).returns_value(20);
    let mut second = Method::<_, u8>::new("test");
    second.add_expected_call(ValueMatcher(2)).returns_value(20);
    second.add_expected_call(ValueMatcher(1)).returns_value(10);
    assert_eq!(Some(0), first.target(&ValueArguments(1)));
    assert_eq!(Some(1), second.target(&ValueArguments(1)));
    assert_eq!(10, first.call(ValueArguments(1)).unwrap());
    assert_eq!(10, second.call(ValueArguments(1)).unwrap());
    assert_eq!(1, first.calls[0].actual_number_of_calls);
    assert_eq!(1, second.calls[1].actual_number_of_calls);
    assert!(matches!(first.call(ValueArguments(3)), Err(CallError::NoMatching)));
    assert!(matches!(second.call(ValueArguments(3)), Err(CallError::NoMatching)));
}

#[test]
fn unit_methods_return_unit_without_a_configured_value() {
    let mut method = Method::<_, ()>::new("test");
    method.add_expected_unit_call(ArgumentsMatcherMock::new(Some(true))).times(2);
    assert!(method.return_value_error(&ArgumentsMock).is_none());
    assert_eq!((), method.call(ArgumentsMock).unwrap());
    assert_eq!((), method.call_unwrap(ArgumentsMock));
    assert!(method.verify().is_ok());
}

#[test]
fn a_call_that_panics_is_counted_first() {
    let mut method = Method::<_, ()>::new("test");
    method.add_expected_call(ArgumentsMatcherMock::new(Some(true))).panics();
    assert!(method.return_value_error(&ArgumentsMock).is_some());
    method.count_call(&ArgumentsMock);
    assert_eq!(1, method.calls[0].actual_number_of_calls);
    assert!(method.verify().is_ok());
    let mut refused = Method::<_, ()>::new("test");
    refused.add_expected_call(ArgumentsMatcherMock::new(Some(false))).panics();
    refused.count_call(&ArgumentsMock);
    assert_eq!(0, refused.calls[0].actual_number_of_calls);
}
