//! How often an expected method call is expected to be called.
use crate::fmt::{decimal, decimal_string, display_times, times_text};
use std::ops::{Range, RangeFrom, RangeFull, RangeInclusive, RangeTo, RangeToInclusive};
use vstd::prelude::*;
use vstd::std_specs::convert::FromSpec;
use vstd::std_specs::range::ContainsSpec;
use vstd::string::*;

verus! {

#[verifier::external_type_specification]
#[verifier::reject_recursive_types(Idx)]
pub struct ExRangeFrom<Idx>(RangeFrom<Idx>);

#[verifier::external_type_specification]
#[verifier::reject_recursive_types(Idx)]
pub struct ExRangeTo<Idx>(RangeTo<Idx>);

#[verifier::external_type_specification]
#[verifier::reject_recursive_types(Idx)]
pub struct ExRangeToInclusive<Idx>(RangeToInclusive<Idx>);

#[verifier::external_type_specification]
pub struct ExRangeFull(RangeFull);

/// `RangeInclusive::into_inner`: destructures the range into its lower and its
/// (inclusive) upper bound, the two values that the range was built from.
pub assume_specification<Idx>[ RangeInclusive::<Idx>::into_inner ](
    range: RangeInclusive<Idx>,
) -> (bounds: (Idx, Idx))
    ensures
        bounds == (range@.start, range@.end),
;

/// The kinds of call counts that can be expected.
#[derive(PartialEq, Eq, Structural, Debug, Clone, Copy)]
pub enum ExpectedCallsKind {
    /// Exactly this many calls.
    Exact(u64),
    /// This many calls or more.
    AtLeast(u64),
    /// This many calls or fewer.
    AtMost(u64),
    /// At least `start` and fewer than `end` calls.
    Between { start: u64, end: u64 },
    /// At least `start` and at most `end` calls.
    BetweenInclusive { start: u64, end: u64 },
    /// Any number of calls.
    Any,
}

/// Defines how often a method call is expected to be called.
/// See `MethodCallBuilder::times` on how to use this.
#[derive(PartialEq, Eq, Structural, Debug, Clone, Copy)]
pub struct ExpectedCalls(pub ExpectedCallsKind);

impl ExpectedCalls {
    /// Whether `value` calls satisfy this expectation.
    pub open spec fn spec_contains(self, value: nat) -> bool {
        match self.0 {
            ExpectedCallsKind::Exact(expected) => value == expected,
            ExpectedCallsKind::AtLeast(min) => value >= min,
            ExpectedCallsKind::AtMost(max) => value <= max,
            ExpectedCallsKind::Between { start, end } => start <= value && value < end,
            ExpectedCallsKind::BetweenInclusive { start, end } => start <= value && value <= end,
            ExpectedCallsKind::Any => true,
        }
    }

    /// The largest number of calls that is still accepted, where there is one.
    /// An empty exclusive range `start..0` reports `0`.
    pub open spec fn spec_max_value(self) -> Option<u64> {
        match self.0 {
            ExpectedCallsKind::Exact(expected) => Some(expected),
            ExpectedCallsKind::AtMost(max) => Some(max),
            ExpectedCallsKind::Between { end, .. } => Some(
                if end == 0 {
                    0u64
                } else {
                    (end - 1) as u64
                },
            ),
            ExpectedCallsKind::BetweenInclusive { end, .. } => Some(end),
            _ => None,
        }
    }

    /// The description of this expectation, as it appears in error messages.
    pub open spec fn spec_description(self) -> Seq<char> {
        match self.0 {
            ExpectedCallsKind::AtLeast(min) => if min == 0 {
                "any amount of times"@
            } else {
                "at least "@ + times_text(min as nat)
            },
            ExpectedCallsKind::AtMost(max) => "at most "@ + times_text(max as nat),
            ExpectedCallsKind::Between { start, end } => "between "@ + decimal(start as nat)
                + " and "@ + decimal(end as nat) + " times"@,
            ExpectedCallsKind::BetweenInclusive { start, end } => "between "@ + decimal(
                start as nat,
            ) + " and "@ + decimal(end as nat) + " times (inclusive)"@,
            ExpectedCallsKind::Exact(value) => "exactly "@ + times_text(value as nat),
            ExpectedCallsKind::Any => "any amount of times"@,
        }
    }

    /// Whether `value` calls satisfy this expectation.
    pub fn contains(&self, value: u64) -> (r: bool)
        ensures
            r == self.spec_contains(value as nat),
    {
        match self.0 {
            ExpectedCallsKind::Exact(expected) => expected == value,
            ExpectedCallsKind::AtLeast(min) => value >= min,
            ExpectedCallsKind::AtMost(max) => value <= max,
            ExpectedCallsKind::Between { start, end } => value >= start && value < end,
            ExpectedCallsKind::BetweenInclusive { start, end } => value >= start && value <= end,
            ExpectedCallsKind::Any => true,
        }
    }

    /// The largest number of calls that is still accepted; `None` when there is no bound.
    pub fn max_value(&self) -> (r: Option<u64>)
        ensures
            r == self.spec_max_value(),
    {
        match self.0 {
            ExpectedCallsKind::Exact(expected) => Some(expected),
            ExpectedCallsKind::AtMost(max) => Some(max),
            ExpectedCallsKind::Between { end, .. } => Some(end.saturating_sub(1)),
            ExpectedCallsKind::BetweenInclusive { end, .. } => Some(end),
            _ => None,
        }
    }

    /// The description of this expectation, e.g. `at least 5 times`.
    pub fn to_display_string(&self) -> (s: String)
        ensures
            s@ == self.spec_description(),
    {
        match self.0 {
            ExpectedCallsKind::AtLeast(min) => {
                if min == 0 {
                    String::from_str("any amount of times")
                } else {
                    let mut s = String::from_str("at least ");
                    let t = display_times(min);
                    s.append(t.as_str());
                    s
                }
            },
            ExpectedCallsKind::AtMost(max) => {
                let mut s = String::from_str("at most ");
                let t = display_times(max);
                s.append(t.as_str());
                s
            },
            ExpectedCallsKind::Between { start, end } => {
                let mut s = String::from_str("between ");
                let a = decimal_string(start);
                s.append(a.as_str());
                s.append(" and ");
                let b = decimal_string(end);
                s.append(b.as_str());
                s.append(" times");
                s
            },
            ExpectedCallsKind::BetweenInclusive { start, end } => {
                let mut s = String::from_str("between ");
                let a = decimal_string(start);
                s.append(a.as_str());
                s.append(" and ");
                let b = decimal_string(end);
                s.append(b.as_str());
                s.append(" times (inclusive)");
                s
            },
            ExpectedCallsKind::Exact(value) => {
                let mut s = String::from_str("exactly ");
                let t = display_times(value);
                s.append(t.as_str());
                s
            },
            ExpectedCallsKind::Any => String::from_str("any amount of times"),
        }
    }
}

impl Default for ExpectedCalls {
    /// Exactly one call is expected by default.
    fn default() -> (r: Self)
        ensures
            r == ExpectedCalls(ExpectedCallsKind::Exact(1)),
    {
        ExpectedCalls(ExpectedCallsKind::Exact(1))
    }
}

impl From<u64> for ExpectedCalls {
    /// An exact number of calls.
    fn from(value: u64) -> (r: ExpectedCalls) {
        ExpectedCalls(ExpectedCallsKind::Exact(value))
    }
}

impl vstd::std_specs::convert::FromSpecImpl<u64> for ExpectedCalls {
    open spec fn obeys_from_spec() -> bool {
        true
    }

    open spec fn from_spec(value: u64) -> ExpectedCalls {
        ExpectedCalls(ExpectedCallsKind::Exact(value))
    }
}

impl From<RangeFrom<u64>> for ExpectedCalls {
    /// At least `start` calls.
    fn from(range: RangeFrom<u64>) -> (r: ExpectedCalls) {
        ExpectedCalls(ExpectedCallsKind::AtLeast(range.start))
    }
}

impl vstd::std_specs::convert::FromSpecImpl<RangeFrom<u64>> for ExpectedCalls {
    open spec fn obeys_from_spec() -> bool {
        true
    }

    open spec fn from_spec(range: RangeFrom<u64>) -> ExpectedCalls {
        ExpectedCalls(ExpectedCallsKind::AtLeast(range.start))
    }
}

impl From<Range<u64>> for ExpectedCalls {
    /// At least `start` and fewer than `end` calls.
    fn from(range: Range<u64>) -> (r: ExpectedCalls) {
        ExpectedCalls(ExpectedCallsKind::Between { start: range.start, end: range.end })
    }
}

impl vstd::std_specs::convert::FromSpecImpl<Range<u64>> for ExpectedCalls {
    open spec fn obeys_from_spec() -> bool {
        true
    }

    open spec fn from_spec(range: Range<u64>) -> ExpectedCalls {
        ExpectedCalls(ExpectedCallsKind::Between { start: range.start, end: range.end })
    }
}

impl From<RangeInclusive<u64>> for ExpectedCalls {
    /// At least `start` and at most `end` calls.
    fn from(range: RangeInclusive<u64>) -> (r: ExpectedCalls) {
        let (start, end) = range.into_inner();
        ExpectedCalls(ExpectedCallsKind::BetweenInclusive { start, end })
    }
}

impl vstd::std_specs::convert::FromSpecImpl<RangeInclusive<u64>> for ExpectedCalls {
    open spec fn obeys_from_spec() -> bool {
        true
    }

    open spec fn from_spec(range: RangeInclusive<u64>) -> ExpectedCalls {
        ExpectedCalls(ExpectedCallsKind::BetweenInclusive { start: range@.start, end: range@.end })
    }
}

impl From<RangeTo<u64>> for ExpectedCalls {
    /// Fewer than `end` calls.
    fn from(range: RangeTo<u64>) -> (r: ExpectedCalls) {
        ExpectedCalls(ExpectedCallsKind::Between { start: 0, end: range.end })
    }
}

impl vstd::std_specs::convert::FromSpecImpl<RangeTo<u64>> for ExpectedCalls {
    open spec fn obeys_from_spec() -> bool {
        true
    }

    open spec fn from_spec(range: RangeTo<u64>) -> ExpectedCalls {
        ExpectedCalls(ExpectedCallsKind::Between { start: 0, end: range.end })
    }
}

impl From<RangeToInclusive<u64>> for ExpectedCalls {
    /// At most `end` calls.
    fn from(range: RangeToInclusive<u64>) -> (r: ExpectedCalls) {
        ExpectedCalls(ExpectedCallsKind::AtMost(range.end))
    }
}

impl vstd::std_specs::convert::FromSpecImpl<RangeToInclusive<u64>> for ExpectedCalls {
    open spec fn obeys_from_spec() -> bool {
        true
    }

    open spec fn from_spec(range: RangeToInclusive<u64>) -> ExpectedCalls {
        ExpectedCalls(ExpectedCallsKind::AtMost(range.end))
    }
}

impl From<RangeFull> for ExpectedCalls {
    /// Any number of calls.
    fn from(range: RangeFull) -> (r: ExpectedCalls) {
        ExpectedCalls(ExpectedCallsKind::Any)
    }
}

impl vstd::std_specs::convert::FromSpecImpl<RangeFull> for ExpectedCalls {
    open spec fn obeys_from_spec() -> bool {
        true
    }

    open spec fn from_spec(range: RangeFull) -> ExpectedCalls {
        ExpectedCalls(ExpectedCallsKind::Any)
    }
}

/// The largest accepted count bounds every accepted count: when `max_value`
/// reports `m`, no count above `m` satisfies the expectation.
pub proof fn lemma_max_value_bounds_accepted_counts(expected: ExpectedCalls, value: nat)
    requires
        expected.spec_max_value() is Some,
        expected.spec_contains(value),
    ensures
        value <= expected.spec_max_value()->0,
{
}

/// An expectation without a largest accepted count is closed upwards: once a
/// count satisfies it, so does every larger count.
pub proof fn lemma_unbounded_expectations_accept_larger_counts(
    expected: ExpectedCalls,
    value: nat,
    larger: nat,
)
    requires
        expected.spec_max_value() is None,
        expected.spec_contains(value),
        value <= larger,
    ensures
        expected.spec_contains(larger),
{
}

/// Each accepted form of `times` expects exactly the counts that the
/// corresponding std range contains: `n` expects `n`, `a..b` expects
/// `a <= n < b`, `a..=b` expects `a <= n <= b`, `a..` expects `n >= a`,
/// `..b` expects `n < b`, `..=b` expects `n <= b` and `..` expects any count.
/// For `a..b`, and for `a..=b` that was not iterated to its end, this is
/// what the range's own `contains` answers.
pub proof fn lemma_conversions_expect_the_counts_of_their_ranges(
    exact: u64,
    range: Range<u64>,
    inclusive: RangeInclusive<u64>,
    from: RangeFrom<u64>,
    to: RangeTo<u64>,
    to_inclusive: RangeToInclusive<u64>,
    full: RangeFull,
    n: u64,
)
    ensures
        <ExpectedCalls as FromSpec<u64>>::from_spec(exact).spec_contains(n as nat) <==> n == exact,
        <ExpectedCalls as FromSpec<Range<u64>>>::from_spec(range).spec_contains(n as nat) <==> (
        range.start <= n && n < range.end),
        <ExpectedCalls as FromSpec<RangeInclusive<u64>>>::from_spec(inclusive).spec_contains(
            n as nat,
        ) <==> (inclusive@.start <= n && n <= inclusive@.end),
        <ExpectedCalls as FromSpec<RangeFrom<u64>>>::from_spec(from).spec_contains(n as nat) <==> (
        from.start <= n),
        <ExpectedCalls as FromSpec<RangeTo<u64>>>::from_spec(to).spec_contains(n as nat) <==> (n
            < to.end),
        <ExpectedCalls as FromSpec<RangeToInclusive<u64>>>::from_spec(to_inclusive).spec_contains(
            n as nat,
        ) <==> (n <= to_inclusive.end),
        <ExpectedCalls as FromSpec<RangeFull>>::from_spec(full).spec_contains(n as nat),
        <ExpectedCalls as FromSpec<Range<u64>>>::from_spec(range).spec_contains(n as nat)
            == range.contains_spec(&n),
        !inclusive@.exhausted ==> <ExpectedCalls as FromSpec<RangeInclusive<u64>>>::from_spec(
            inclusive,
        ).spec_contains(n as nat) == inclusive.contains_spec(&n),
{
}

} // verus!
