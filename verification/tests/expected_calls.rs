use mockiato::{ExpectedCalls, ExpectedCallsKind};

#[test]
fn exact_matches_specified_value() {
    assert!(ExpectedCalls(ExpectedCallsKind::Exact(4)).contains(4));
}

#[test]
fn exact_does_not_match_other_values() {
    assert!(!ExpectedCalls(ExpectedCallsKind::Exact(6)).contains(1));
    assert!(!ExpectedCalls(ExpectedCallsKind::Exact(6)).contains(0));
    assert!(!ExpectedCalls(ExpectedCallsKind::Exact(10)).contains(1));
    assert!(!ExpectedCalls(ExpectedCallsKind::Exact(100)).contains(1));
}

#[test]
fn at_least_matches_minimum_value() {
    assert!(ExpectedCalls(ExpectedCallsKind::AtLeast(4)).contains(4));
}

#[test]
fn at_least_matches_values_above_minimum() {
    assert!(ExpectedCalls(ExpectedCallsKind::AtLeast(4)).contains(5));
    assert!(ExpectedCalls(ExpectedCallsKind::AtLeast(4)).contains(10));
    assert!(ExpectedCalls(ExpectedCallsKind::AtLeast(4)).contains(100));
}

#[test]
fn at_least_does_not_match_values_below_minimum() {
    assert!(!ExpectedCalls(ExpectedCallsKind::AtLeast(50)).contains(49));
    assert!(!ExpectedCalls(ExpectedCallsKind::AtLeast(50)).contains(0));
    assert!(!ExpectedCalls(ExpectedCallsKind::AtLeast(50)).contains(16));
}

#[test]
fn at_most_matches_maximum() {
    assert!(ExpectedCalls(ExpectedCallsKind::AtMost(40)).contains(40));
}

#[test]
fn at_most_matches_values_below_maximum() {
    assert!(ExpectedCalls(ExpectedCallsKind::AtMost(40)).contains(0));
    assert!(ExpectedCalls(ExpectedCallsKind::AtMost(40)).contains(39));
    assert!(ExpectedCalls(ExpectedCallsKind::AtMost(40)).contains(24));
}

#[test]
fn at_most_does_not_match_values_above_maximum() {
    assert!(!ExpectedCalls(ExpectedCallsKind::AtMost(20)).contains(21));
    assert!(!ExpectedCalls(ExpectedCallsKind::AtMost(20)).contains(67));
    assert!(!ExpectedCalls(ExpectedCallsKind::AtMost(20)).contains(100));
}

#[test]
fn between_does_not_match_values_outside_of_range() {
    assert!(!ExpectedCalls(ExpectedCallsKind::Between { start: 10, end: 20 }).contains(0));
    assert!(!ExpectedCalls(ExpectedCallsKind::Between { start: 10, end: 20 }).contains(9));
    assert!(!ExpectedCalls(ExpectedCallsKind::Between { start: 10, end: 20 }).contains(21));
    assert!(!ExpectedCalls(ExpectedCallsKind::Between { start: 10, end: 20 }).contains(40));
}

#[test]
fn between_does_not_match_end_value() {
    assert!(!ExpectedCalls(ExpectedCallsKind::Between { start: 1, end: 3 }).contains(3));
}

#[test]
fn between_matches_start_value() {
    assert!(ExpectedCalls(ExpectedCallsKind::Between { start: 1, end: 3 }).contains(1));
}

#[test]
fn between_matches_values_in_range() {
    assert!(ExpectedCalls(ExpectedCallsKind::Between { start: 10, end: 20 }).contains(11));
    assert!(ExpectedCalls(ExpectedCallsKind::Between { start: 10, end: 20 }).contains(15));
    assert!(ExpectedCalls(ExpectedCallsKind::Between { start: 10, end: 20 }).contains(19));
}

#[test]
fn between_inclusive_does_not_match_values_outside_of_range() {
    assert!(!ExpectedCalls(ExpectedCallsKind::BetweenInclusive { start: 10, end: 20 }).contains(0));
    assert!(!ExpectedCalls(ExpectedCallsKind::BetweenInclusive { start: 10, end: 20 }).contains(9));
    assert!(!ExpectedCalls(ExpectedCallsKind::BetweenInclusive { start: 10, end: 20 }).contains(21));
    assert!(!ExpectedCalls(ExpectedCallsKind::BetweenInclusive { start: 10, end: 20 }).contains(40));
}

#[test]
fn between_inclusive_matches_end_value() {
    assert!(ExpectedCalls(ExpectedCallsKind::BetweenInclusive { start: 1, end: 3 }).contains(3));
}

#[test]
fn between_inclusive_matches_start_value() {
    assert!(ExpectedCalls(ExpectedCallsKind::BetweenInclusive { start: 1, end: 3 }).contains(1));
}

#[test]
fn between_inclusive_matches_values_in_range() {
    assert!(ExpectedCalls(ExpectedCallsKind::BetweenInclusive { start: 10, end: 20 }).contains(11));
    assert!(ExpectedCalls(ExpectedCallsKind::BetweenInclusive { start: 10, end: 20 }).contains(15));
    assert!(ExpectedCalls(ExpectedCallsKind::BetweenInclusive { start: 10, end: 20 }).contains(19));
}

#[test]
fn can_be_converted_from_int() {
    assert_eq!(ExpectedCalls(ExpectedCallsKind::Exact(5)), ExpectedCalls::from(5));
}

#[test]
fn can_be_converted_from_range() {
    assert_eq!(
        ExpectedCalls(ExpectedCallsKind::Between { start: 3, end: 7 }),
        ExpectedCalls::from(3..7)
    );
}

#[test]
fn can_be_converted_from_range_from() {
    assert_eq!(ExpectedCalls(ExpectedCallsKind::AtLeast(2)), ExpectedCalls::from(2..));
}

#[test]
fn can_be_converted_from_range_to() {
    assert_eq!(ExpectedCalls(ExpectedCallsKind::AtMost(4)), ExpectedCalls::from(..=4));
}

#[test]
fn can_be_converted_from_inclusive_range() {
    assert_eq!(
        ExpectedCalls(ExpectedCallsKind::BetweenInclusive { start: 21, end: 56 }),
        ExpectedCalls::from(21..=56)
    )
}

#[test]
fn ranges_with_bigger_start_than_end_do_not_match() {
    assert!(!ExpectedCalls(ExpectedCallsKind::BetweenInclusive { start: 100, end: 0 }).contains(50),);
    assert!(!ExpectedCalls(ExpectedCallsKind::Between { start: 100, end: 0 }).contains(50),);
}

#[test]
fn between_inclusive_matches_when_start_equals_end() {
    assert!(ExpectedCalls(ExpectedCallsKind::BetweenInclusive { start: 100, end: 100 }).contains(100));
}

#[test]
fn between_does_not_match_when_start_equals_end() {
    assert!(!ExpectedCalls(ExpectedCallsKind::Between { start: 100, end: 100 }).contains(100));
}

#[test]
fn can_be_converted_from_full_range() {
    assert_eq!(ExpectedCalls(ExpectedCallsKind::Any), ExpectedCalls::from(..))
}

#[test]
fn at_least_is_displayed_correctly() {
    let formatted = ExpectedCalls::from(5..).to_display_string();

    assert_eq!("at least 5 times", formatted);
}

#[test]
fn at_least_zero_is_displayed_correctly() {
    let formatted = ExpectedCalls::from(0..).to_display_string();

    assert_eq!("any amount of times", formatted);
}

#[test]
fn any_is_displayed_correctly() {
    let formatted = ExpectedCalls::from(..).to_display_string();

    assert_eq!("any amount of times", formatted);
}

#[test]
fn exact_has_max_value() {
    assert_eq!(Some(6), ExpectedCalls::from(6).max_value(),);
}

#[test]
fn at_most_has_max_value() {
    assert_eq!(Some(6), ExpectedCalls::from(..=6).max_value(),);
}

#[test]
fn between_has_max_value() {
    assert_eq!(Some(1), ExpectedCalls::from(1..2).max_value(),);
}

#[test]
fn between_max_value_does_not_underflow() {
    assert_eq!(Some(0), ExpectedCalls::from(0..0).max_value(),);
}

#[test]
fn between_inclusive_has_max_value() {
    assert_eq!(Some(2), ExpectedCalls::from(1..=2).max_value(),);
}

#[test]
fn at_least_has_no_max_value() {
    assert!(ExpectedCalls::from(1..).max_value().is_none());
}

#[test]
fn any_has_no_max_value() {
    assert!(ExpectedCalls::from(..).max_value().is_none());
}

// Descriptions of the other kinds of expectations.

#[test]
fn exact_is_displayed_correctly() {
    assert_eq!("exactly 3 times", ExpectedCalls::from(3).to_display_string());
    assert_eq!("exactly 1 time", ExpectedCalls::from(1).to_display_string());
    assert_eq!("exactly 0 times", ExpectedCalls::from(0).to_display_string());
}

#[test]
fn at_most_is_displayed_correctly() {
    assert_eq!("at most 12 times", ExpectedCalls::from(..=12).to_display_string());
}

#[test]
fn at_least_one_is_displayed_correctly() {
    assert_eq!("at least 1 time", ExpectedCalls::from(1..).to_display_string());
}

#[test]
fn between_is_displayed_correctly() {
    assert_eq!("between 3 and 7 times", ExpectedCalls::from(3..7).to_display_string());
    assert_eq!(
        "between 21 and 56 times (inclusive)",
        ExpectedCalls::from(21..=56).to_display_string()
    );
}

#[test]
fn large_counts_are_displayed_in_decimal() {
    assert_eq!(
        "exactly 18446744073709551615 times",
        ExpectedCalls::from(u64::MAX).to_display_string()
    );
    assert_eq!("at least 1000 times", ExpectedCalls::from(1000..).to_display_string());
}

#[test]
fn default_expects_exactly_one_call() {
    assert_eq!(ExpectedCalls::from(1), ExpectedCalls::default());
}

#[test]
fn conversions_agree_with_range_contains() {
    for v in 0..30u64 {
        assert_eq!((3..7).contains(&v), ExpectedCalls::from(3..7).contains(v));
        assert_eq!((3..=7).contains(&v), ExpectedCalls::from(3..=7).contains(v));
        assert_eq!((5..).contains(&v), ExpectedCalls::from(5..).contains(v));
        assert_eq!((..=5).contains(&v), ExpectedCalls::from(..=5).contains(v));
        assert!(ExpectedCalls::from(..).contains(v));
    }
}

#[test]
fn range_to_expects_fewer_calls_than_its_end() {
    let expected = ExpectedCalls::from(..3u64);
    assert!(expected.contains(0));
    assert!(expected.contains(2));
    assert!(!expected.contains(3));
    assert_eq!(Some(2), expected.max_value());
    assert_eq!("between 0 and 3 times", expected.to_display_string());
    let never = ExpectedCalls::from(..0u64);
    assert!(!never.contains(0));
    assert_eq!(Some(0), never.max_value());
}
