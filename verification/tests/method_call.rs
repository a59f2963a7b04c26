use mockiato::matcher::ArgumentsMatcher;
use mockiato::method_call::MethodCall;
use mockiato::return_value::{Once, Panic, ReturnValue, ReturnValueError, ReturnValueGenerator};
use std::cell::RefCell;
use std::fmt::Debug;

#[derive(Debug)]
struct ArgumentsMock;

struct ArgumentsMatcherMock {
    matches: Option<bool>,
}

impl ArgumentsMatcherMock {
    fn new(matches: Option<bool>) -> Self {
        Self { matches }
    }
}

impl ArgumentsMatcher for ArgumentsMatcherMock {
    type Arguments = ArgumentsMock;

    fn spec_matches_arguments(&self, _: &ArgumentsMock) -> bool {
        self.matches == Some(true)
    }

    fn matches_arguments(&self, _: &ArgumentsMock) -> bool {
        self.matches.expect("matches_arguments() was not expected to be called")
    }
}

#[derive(Debug)]
struct ReturnValueGeneratorMock<R>
where
    R: Clone + Debug,
{
    generate_return_value_was_called: RefCell<bool>,
    return_value: Option<R>,
}

impl<R> ReturnValueGeneratorMock<R>
where
    R: Clone + Debug,
{
    fn new(return_value: Option<R>) -> Self {
        Self { return_value, generate_return_value_was_called: RefCell::default() }
    }
}

impl<R> ReturnValueGenerator<ArgumentsMock, R> for ReturnValueGeneratorMock<R>
where
    R: Clone + Debug,
{
    fn spec_accepts(&self, _input: ArgumentsMock) -> bool {
        true
    }

    fn spec_generates(&self, _input: ArgumentsMock, output: R) -> bool {
        self.return_value.as_ref().map_or(false, |value| format!("{:?}", value) == format!("{:?}", output))
    }

    fn generate_return_value(&self, _input: ArgumentsMock) -> R {
        *self.generate_return_value_was_called.borrow_mut() = true;

        self.return_value.as_ref().expect("Return value was not specified for mock").clone()
    }
}

impl<R> Drop for ReturnValueGeneratorMock<R>
where
    R: Clone + Debug,
{
    fn drop(&mut self) {
        if self.return_value.is_some() {
            assert!(
                *self.generate_return_value_was_called.borrow(),
                "generate_return_value_was_called() was never called"
            );
        }
    }
}

#[test]
fn call_uses_return_value() {
    let mut call: MethodCall<_, String, ReturnValueGeneratorMock<String>> =
        MethodCall::new(ArgumentsMatcherMock::new(None));

    call.return_value = Some(ReturnValue::Generator(ReturnValueGeneratorMock::new(Some(
        String::from("foo"),
    ))));

    let return_value = call.call(ArgumentsMock);

    assert_eq!(String::from("foo"), return_value);
}

#[test]
fn was_called_expected_number_of_times_returns_true() {
    let mut call: MethodCall<_, (), ReturnValueGeneratorMock<()>> =
        MethodCall::new(ArgumentsMatcherMock::new(None));
    call.return_value = Some(ReturnValue::Generator(ReturnValueGeneratorMock::new(Some(()))));
    call.expected_calls = 4.into();

    call.call(ArgumentsMock);
    call.call(ArgumentsMock);
    call.call(ArgumentsMock);
    call.call(ArgumentsMock);

    assert!(call.was_called_expected_number_of_times());
}

#[test]
fn was_called_expected_number_of_times_returns_false() {
    let mut call: MethodCall<_, (), ReturnValueGeneratorMock<()>> = {
        let mut call = MethodCall::new(ArgumentsMatcherMock::new(None));
        call.return_value = Some(ReturnValue::Generator(ReturnValueGeneratorMock::new(Some(()))));
        call.expected_calls = (2..).into();
        call
    };

    call.call(ArgumentsMock);

    assert!(!call.was_called_expected_number_of_times());
}

#[test]
fn matches_expected_arguments_returns_true() {
    let call: MethodCall<_, (), ReturnValueGeneratorMock<()>> = {
        let mut call = MethodCall::new(ArgumentsMatcherMock::new(Some(true)));
        call.return_value = Some(ReturnValue::Generator(ReturnValueGeneratorMock::new(None)));
        call
    };

    assert!(call.matches_expected_arguments(&ArgumentsMock));
}

#[test]
fn matches_expected_arguments_returns_false() {
    let call: MethodCall<_, (), ReturnValueGeneratorMock<()>> = {
        let mut call = MethodCall::new(ArgumentsMatcherMock::new(Some(false)));
        call.return_value = Some(ReturnValue::Generator(ReturnValueGeneratorMock::new(None)));
        call
    };

    assert!(!call.matches_expected_arguments(&ArgumentsMock));
}

// Counting against the expectation.

#[test]
fn accepts_more_calls_until_the_maximum_is_reached() {
    let mut call: MethodCall<_, (), ReturnValueGeneratorMock<()>> =
        MethodCall::new(ArgumentsMatcherMock::new(None));
    call.return_value = Some(ReturnValue::Generator(ReturnValueGeneratorMock::new(Some(()))));
    call.expected_calls = (1..3).into();
    assert!(call.accepts_more_calls());
    call.call(ArgumentsMock);
    assert!(call.accepts_more_calls());
    call.call(ArgumentsMock);
    assert!(!call.accepts_more_calls());
    call.expected_calls = (..).into();
    assert!(call.accepts_more_calls());
}

#[test]
fn new_call_expects_one_call_and_has_no_return_value() {
    let call: MethodCall<_, (), ReturnValueGeneratorMock<()>> =
        MethodCall::new(ArgumentsMatcherMock::new(None));
    assert_eq!(mockiato::ExpectedCalls::from(1), call.expected_calls);
    assert_eq!(0, call.actual_number_of_calls);
    assert!(call.return_value.is_none());
    assert!(call.times_and_return_value_are_compatible());
}

#[test]
fn describes_an_expected_call() {
    let mut call: MethodCall<_, (), ReturnValueGeneratorMock<()>> =
        MethodCall::new(ArgumentsMatcherMock::new(None));
    assert_eq!("any -> None exactly 1 time, was called 0 times", call.describe("any", "()"));
    call.expected_calls = mockiato::ExpectedCalls::from(3u64..);
    call.actual_number_of_calls = 1;
    call.return_value = Some(ReturnValue::Panic(Panic(Some("boom"))));
    assert_eq!(
        "any -> panic!(boom) at least 3 times, was called 1 time",
        call.describe("any", "()")
    );
    call.return_value = Some(ReturnValue::Panic(Panic(None)));
    assert_eq!(
        "any -> panic!(None) at least 3 times, was called 1 time",
        call.describe("any", "()")
    );
    call.return_value = Some(ReturnValue::Once(Once::new(())));
    call.actual_number_of_calls = 12;
    assert_eq!("any -> () at least 3 times, was called 12 times", call.describe("any", "()"));
}

#[test]
fn reports_a_value_returned_once_but_expected_more_often() {
    let mut call: MethodCall<_, (), ReturnValueGeneratorMock<()>> =
        MethodCall::new(ArgumentsMatcherMock::new(None));
    call.return_value = Some(ReturnValue::Once(Once::new(())));
    call.expected_calls = mockiato::ExpectedCalls::from(2u64);
    assert!(!call.times_and_return_value_are_compatible());
    assert_eq!(
        "Return value can only be returned once but call was expected exactly 2 times.",
        call.incompatibility_message()
    );
}

#[test]
fn reports_why_a_call_cannot_produce_a_value() {
    let mut call: MethodCall<_, (), ReturnValueGeneratorMock<()>> =
        MethodCall::new(ArgumentsMatcherMock::new(None));
    assert!(matches!(call.return_value_error(), Some(ReturnValueError::NotSpecified)));
    call.return_value = Some(ReturnValue::Panic(Panic(Some("boom"))));
    assert!(matches!(call.return_value_error(), Some(ReturnValueError::Panicked(Some("boom")))));
    call.return_value = Some(ReturnValue::Once(Once(None)));
    assert!(matches!(call.return_value_error(), Some(ReturnValueError::AlreadyReturned)));
    call.return_value = Some(ReturnValue::Once(Once::new(())));
    assert!(call.return_value_error().is_none());
    call.call(ArgumentsMock);
    assert!(matches!(call.return_value_error(), Some(ReturnValueError::AlreadyReturned)));
}
