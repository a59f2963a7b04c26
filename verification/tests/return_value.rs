use mockiato::return_value::{
    generate, refusal, Cloned, Closure, Once, Panic, ReturnValue, ReturnValueError,
    ReturnValueGenerator,
};

#[derive(Debug)]
struct ArgumentsMock;

#[test]
fn test_cloned_returns_expected_value() {
    let cloned = Cloned(String::from("foo"));

    assert_eq!(
        String::from("foo"),
        ReturnValueGenerator::<ArgumentsMock, String>::generate_return_value(&cloned, ArgumentsMock)
    );
}

#[test]
fn returns_expected_value() {
    let mut return_value =
        Some(ReturnValue::<String, Cloned<String>>::Once(Once::new(String::from("foo"))));

    assert_eq!(String::from("foo"), generate(&mut return_value, ArgumentsMock));
}

#[test]
fn once_reports_a_second_call() {
    let mut return_value =
        Some(ReturnValue::<String, Cloned<String>>::Once(Once::new(String::from("foo"))));

    assert!(refusal(&return_value).is_none());
    assert_eq!(String::from("foo"), generate(&mut return_value, ArgumentsMock));
    assert!(matches!(refusal(&return_value), Some(ReturnValueError::AlreadyReturned)));
}

#[test]
fn only_once_cannot_return_more_than_once() {
    let once = ReturnValue::<u8, Cloned<u8>>::Once(Once::new(1));
    let cloned = ReturnValue::<u8, Cloned<u8>>::Generator(Cloned(1));
    assert!(!once.can_return_more_than_once());
    assert!(cloned.can_return_more_than_once());
}

#[test]
fn cloned_returns_the_value_every_time() {
    let mut return_value = Some(ReturnValue::<u8, Cloned<u8>>::Generator(Cloned(7)));
    assert_eq!(7, generate(&mut return_value, ArgumentsMock));
    assert_eq!(7, generate(&mut return_value, ArgumentsMock));
}

#[test]
fn missing_return_value_is_reported() {
    let mut return_value: Option<ReturnValue<u8, Cloned<u8>>> = None;
    assert!(matches!(refusal(&return_value), Some(ReturnValueError::NotSpecified)));
    let panics: Option<ReturnValue<u8, Cloned<u8>>> = Some(ReturnValue::Panic(Panic(None)));
    assert!(matches!(refusal(&panics), Some(ReturnValueError::Panicked(None))));
}

#[test]
fn panics_are_shown_with_their_message() {
    assert_eq!("panic!(boom)", Panic(Some("boom")).to_display_string());
    assert_eq!("panic!(None)", Panic(None).to_display_string());
}

#[test]
fn return_value_errors_have_messages() {
    assert_eq!("No return value was specified", ReturnValueError::NotSpecified.message());
    assert_eq!("This value was already returned", ReturnValueError::AlreadyReturned.message());
    assert_eq!("boom", ReturnValueError::Panicked(Some("boom")).message());
    assert_eq!("explicit panic", ReturnValueError::Panicked(None).message());
}

#[test]
fn closure_is_called_with_each_call_s_arguments() {
    let closure = Closure(|input: u8| input + 1);
    assert_eq!(4, ReturnValueGenerator::<u8, u8>::generate_return_value(&closure, 3));
    let mut return_value = Some(ReturnValue::<u8, Closure<fn(u8) -> u8>>::Generator(Closure(
        double as fn(u8) -> u8,
    )));
    assert_eq!(6, generate(&mut return_value, 3));
    assert_eq!(10, generate(&mut return_value, 5));
}

fn double(input: u8) -> u8 {
    input * 2
}
