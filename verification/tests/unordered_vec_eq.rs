use mockiato::matcher::{compare_slices_unordered, ArgumentMatcher};
use mockiato::Argument;

#[test]
fn accepts_empty_slices() {
    assert!(compare_slices_unordered::<usize, usize>(&[], &[]));
}

#[test]
fn rejects_slices_with_different_lengths() {
    assert!(!compare_slices_unordered(&[1], &[1, 2]));
}

#[test]
fn works_with_duplicated_items() {
    assert!(compare_slices_unordered(&["foo", "foo", "bar"], &["foo", "bar", "foo"]))
}

#[test]
fn does_not_work_with_different_lengths() {
    assert!(!compare_slices_unordered(&["foo", "foo", "bar"], &["foo", "bar"]))
}

#[test]
fn rejects_slices_that_have_different_items() {
    assert!(!compare_slices_unordered(&["foo", "bar", "baz"], &["bar", "foo", "foo"]))
}

#[test]
fn rejects_when_actual_slice_has_extra_elements() {
    assert!(!compare_slices_unordered(&["foo"], &["foo", "bar"]))
}

// The matchers handed out by `Argument`.

#[test]
fn unordered_vec_matcher_accepts_permutations_of_vecs_and_slices() {
    let factory = Argument::internal_new();
    let matcher = factory.unordered_vec_eq(vec!["foo", "bar", "baz"]);
    assert!(matcher.matches_argument(&vec!["baz", "bar", "foo"]));
    let slice: &[&str] = &["bar", "baz", "foo"];
    assert!(matcher.matches_argument(&slice));
    assert!(!matcher.matches_argument(&vec!["baz", "bar"]));
}

#[test]
fn comparison_is_symmetric() {
    let a = [1, 1, 2];
    let b = [2, 1, 1];
    assert_eq!(compare_slices_unordered(&a, &b), compare_slices_unordered(&b, &a));
    assert!(compare_slices_unordered(&a, &b));
    let c = [2, 1, 2];
    assert_eq!(compare_slices_unordered(&a, &c), compare_slices_unordered(&c, &a));
    assert!(!compare_slices_unordered(&a, &c));
}

#[test]
fn repeated_elements_must_repeat_as_often() {
    assert!(!compare_slices_unordered(&[1, 1, 2], &[1, 2, 2]));
    assert!(!compare_slices_unordered(&["foo", "foo", "bar"], &["foo", "bar", "bar"]));
    assert!(compare_slices_unordered(&[3, 1, 3, 2], &[3, 3, 2, 1]));
}

#[test]
fn unordered_vec_matcher_accepts_mutable_slices() {
    let factory = Argument::internal_new();
    let matcher = factory.unordered_vec_eq(vec![1, 2, 2]);
    let mut values = [2, 1, 2];
    let slice: &mut [i32] = &mut values;
    assert!(matcher.matches_argument(&slice));
    let mut other = [2, 1, 1];
    let other_slice: &mut [i32] = &mut other;
    assert!(!matcher.matches_argument(&other_slice));
}

#[test]
fn any_matches_everything() {
    let factory = Argument::internal_new();
    let matcher = factory.any();
    assert!(ArgumentMatcher::<u32>::matches_argument(&matcher, &7));
    assert!(matcher.matches_argument(&"anything"));
}

#[test]
fn partial_eq_matches_equal_values_only() {
    let factory = Argument::internal_new();
    let matcher = factory.partial_eq("Jane");
    assert!(matcher.matches_argument(&"Jane"));
    assert!(!matcher.matches_argument(&"Doe"));
}

#[test]
fn partial_eq_owned_matches_references() {
    let factory = Argument::internal_new();
    let matcher = factory.partial_eq_owned(String::from("ping"));
    let ping = String::from("ping");
    let pong = String::from("pong");
    assert!(matcher.matches_argument(&&ping));
    assert!(!matcher.matches_argument(&&pong));
}

#[test]
fn matchers_show_themselves_in_messages() {
    let factory = Argument::internal_new();
    assert_eq!("*", factory.any().to_display_string());
    let matcher = factory.unordered_vec_eq(vec![1, 2]);
    assert_eq!("[1, 2] in any order", matcher.describe("[1, 2]"));
}
