//! One expected call of a mocked method, and the builder that configures it.
use crate::expected_calls::{ExpectedCalls, ExpectedCallsKind};
use crate::fmt::{display_times, times_text};
use crate::matcher::ArgumentsMatcher;
use crate::return_value::{
    generate, refusal, spec_accepts_input, spec_produces_value, spec_refusal, spec_return_outcome, Cloned, Once, Panic,
    ReturnValue, ReturnValueError, ReturnValueGenerator,
};
use vstd::prelude::*;
use vstd::std_specs::convert::IntoSpec;

verus! {

/// The return value an expected call starts with, before one is configured.
///
/// Every type starts with none: choosing `()` for methods that return `()`
/// needs specialization, so such methods register their expected calls with
/// `Method::add_expected_unit_call` instead.
pub trait DefaultReturnValue<G>: Sized {
    /// The initial return value; none is configured until a builder sets one.
    fn default_return_value() -> (r: Option<ReturnValue<Self, G>>)
        ensures
            r is None,
    ;
}

impl<R, G> DefaultReturnValue<G> for R {
    fn default_return_value() -> (r: Option<ReturnValue<R, G>>) {
        None
    }
}

/// An expected call: how often it is expected, how often it was called,
/// which arguments it accepts and what it returns.
pub struct MethodCall<A, R, G> {
    /// How often this call is expected.
    pub expected_calls: ExpectedCalls,
    /// How often this call was made so far.
    pub actual_number_of_calls: u64,
    /// Decides which arguments this call accepts.
    pub matcher: A,
    /// What the call returns, once configured.
    pub return_value: Option<ReturnValue<R, G>>,
}

impl<A, R, G> MethodCall<A, R, G> {
    /// Whether the number of calls made so far meets the expectation.
    pub open spec fn spec_was_called_expected_number_of_times(&self) -> bool {
        self.expected_calls.spec_contains(self.actual_number_of_calls as nat)
    }

    /// Whether one more call may be made: the expectation has no upper bound,
    /// or the calls made so far stay below it.
    pub open spec fn spec_accepts_more_calls(&self) -> bool {
        match self.expected_calls.spec_max_value() {
            Some(max) => self.actual_number_of_calls < max,
            None => true,
        }
    }

    /// Whether a value that can only be returned once is only expected once.
    pub open spec fn spec_times_and_return_value_are_compatible(&self) -> bool {
        (self.return_value matches Some(ReturnValue::Once(_))) ==> self.expected_calls
            == ExpectedCalls(ExpectedCallsKind::Exact(1))
    }

    /// How the return value is shown: `None` before one is configured, the
    /// panic for a panic, and otherwise `rendered`, the value as its own
    /// formatting shows it.
    pub open spec fn spec_return_value_text(&self, rendered: Seq<char>) -> Seq<char> {
        match self.return_value {
            None => "None"@,
            Some(ReturnValue::Panic(p)) => p.spec_text(),
            Some(_) => rendered,
        }
    }

    /// The line that describes this expected call in messages:
    /// `<matcher> -> <return value> <expectation>, was called <n times>`.
    pub open spec fn spec_description(&self, matcher: Seq<char>, rendered: Seq<char>) -> Seq<char> {
        matcher + " -> "@ + self.spec_return_value_text(rendered) + " "@
            + self.expected_calls.spec_description() + ", was called "@ + times_text(
            self.actual_number_of_calls as nat,
        )
    }

    /// The message when a value that is returned once is expected more than once.
    pub open spec fn spec_incompatibility_message(&self) -> Seq<char> {
        "Return value can only be returned once but call was expected "@
            + self.expected_calls.spec_description() + "."@
    }

    /// Describes this expected call, given how its matcher and its return
    /// value show themselves (`rendered` is used for values that are neither
    /// missing nor a panic).
    pub fn describe(&self, matcher: &str, rendered: &str) -> (r: String)
        ensures
            r@ == self.spec_description(matcher@, rendered@),
    {
        let mut s = String::from_str(matcher);
        s.append(" -> ");
        match &self.return_value {
            None => s.append("None"),
            Some(ReturnValue::Panic(p)) => {
                let text = p.to_display_string();
                s.append(text.as_str());
            },
            Some(_) => s.append(rendered),
        }
        s.append(" ");
        let expected = self.expected_calls.to_display_string();
        s.append(expected.as_str());
        s.append(", was called ");
        let times = display_times(self.actual_number_of_calls);
        s.append(times.as_str());
        s
    }

    /// The message with which a mock reports a value that is returned once
    /// but expected more than once.
    pub fn incompatibility_message(&self) -> (r: String)
        ensures
            r@ == self.spec_incompatibility_message(),
    {
        let mut s = String::from_str("Return value can only be returned once but call was expected ");
        let expected = self.expected_calls.to_display_string();
        s.append(expected.as_str());
        s.append(".");
        s
    }
}

impl<A: ArgumentsMatcher, R, G: ReturnValueGenerator<A::Arguments, R>> MethodCall<A, R, G> {
    /// A fresh expected call: expected once, not called yet, no return value.
    pub fn new(matcher: A) -> (r: Self)
        ensures
            r.expected_calls == ExpectedCalls(ExpectedCallsKind::Exact(1)),
            r.actual_number_of_calls == 0,
            r.matcher == matcher,
            r.return_value is None,
    {
        MethodCall {
            expected_calls: ExpectedCalls::default(),
            actual_number_of_calls: 0,
            matcher,
            return_value: <R as DefaultReturnValue<G>>::default_return_value(),
        }
    }

    /// Records a call and produces its return value. A call that cannot
    /// produce a value (see `return_value_error`) makes the mocked method
    /// panic instead, so it is not made here.
    pub fn call(&mut self, arguments: A::Arguments) -> (r: R)
        requires
            old(self).actual_number_of_calls < u64::MAX,
            spec_produces_value(old(self).return_value),
            spec_accepts_input(old(self).return_value, arguments),
        ensures
            final(self).actual_number_of_calls == old(self).actual_number_of_calls + 1,
            final(self).expected_calls == old(self).expected_calls,
            final(self).matcher == old(self).matcher,
            spec_return_outcome(old(self).return_value, arguments, r, final(self).return_value),
    {
        self.actual_number_of_calls = self.actual_number_of_calls + 1;
        generate(&mut self.return_value, arguments)
    }

    /// Counts a call that cannot produce a value: the mocked method counts it,
    /// then panics.
    pub fn count_call(&mut self)
        requires
            old(self).actual_number_of_calls < u64::MAX,
        ensures
            final(self).actual_number_of_calls == old(self).actual_number_of_calls + 1,
            final(self).expected_calls == old(self).expected_calls,
            final(self).matcher == old(self).matcher,
            final(self).return_value == old(self).return_value,
    {
        self.actual_number_of_calls = self.actual_number_of_calls + 1;
    }

    /// Why a call cannot produce a value, if it cannot: no return value was
    /// configured, the value returned once is gone, or the call was
    /// configured to panic.
    pub fn return_value_error(&self) -> (r: Option<ReturnValueError>)
        ensures
            r == spec_refusal(self.return_value),
            r is None <==> spec_produces_value(self.return_value),
    {
        refusal(&self.return_value)
    }

    /// Whether the number of calls made so far meets the expectation.
    pub fn was_called_expected_number_of_times(&self) -> (r: bool)
        ensures
            r == self.spec_was_called_expected_number_of_times(),
    {
        self.expected_calls.contains(self.actual_number_of_calls)
    }

    /// Whether one more call may be made.
    pub fn accepts_more_calls(&self) -> (r: bool)
        ensures
            r == self.spec_accepts_more_calls(),
    {
        let number_of_calls = self.actual_number_of_calls;
        match self.expected_calls.max_value() {
            Some(max_value) => number_of_calls < max_value,
            None => true,
        }
    }

    /// Whether this call accepts the given arguments.
    pub fn matches_expected_arguments(&self, arguments: &A::Arguments) -> (r: bool)
        ensures
            r == self.matcher.spec_matches_arguments(arguments),
    {
        self.matcher.matches_arguments(arguments)
    }

    /// Whether a value that can only be returned once is only expected once.
    pub fn times_and_return_value_are_compatible(&self) -> (r: bool)
        ensures
            r == self.spec_times_and_return_value_are_compatible(),
    {
        let returns_only_once = match &self.return_value {
            Some(return_value) => !return_value.can_return_more_than_once(),
            None => false,
        };
        !returns_only_once || self.expected_calls == ExpectedCalls::from(1u64)
    }
}

/// Configures an expected method call.
/// This builder is returned from the `expect_*` methods on a generated mock.
pub struct MethodCallBuilder<'a, A, R, G> {
    /// The expected call being configured.
    pub call: &'a mut MethodCall<A, R, G>,
}

impl<'a, A, R, G> MethodCallBuilder<'a, A, R, G> {
    /// A builder for the given expected call.
    pub fn new(call: &'a mut MethodCall<A, R, G>) -> (r: Self)
        ensures
            *r.call == *old(call),
            *final(r.call) == *final(call),
    {
        MethodCallBuilder { call }
    }

    /// Defines a return value for this method that will be returned once.
    /// The mocked method reports an error on later calls.
    /// A value that is returned once can only be expected once.
    pub fn returns_once(&mut self, return_value: R) -> (r: &mut Self)
        requires
            old(self).call.expected_calls == ExpectedCalls(ExpectedCallsKind::Exact(1)),
        ensures
            r.call.return_value == Some(ReturnValue::<R, G>::Once(Once(Some(return_value)))),
            r.call.expected_calls == old(self).call.expected_calls,
            r.call.actual_number_of_calls == old(self).call.actual_number_of_calls,
            r.call.matcher == old(self).call.matcher,
            r.call.spec_times_and_return_value_are_compatible(),
            *final(self) == *final(r),
    {
        self.call.return_value = Some(ReturnValue::Once(Once::new(return_value)));
        self
    }

    /// Defines the return value generator for this method, called once for
    /// each call of the mocked method (a closure for mocks that use closures).
    pub fn returns_with(&mut self, return_value_fn: G) -> (r: &mut Self)
        ensures
            r.call.return_value == Some(ReturnValue::<R, G>::Generator(return_value_fn)),
            r.call.expected_calls == old(self).call.expected_calls,
            r.call.actual_number_of_calls == old(self).call.actual_number_of_calls,
            r.call.matcher == old(self).call.matcher,
            r.call.spec_times_and_return_value_are_compatible(),
            *final(self) == *final(r),
    {
        self.call.return_value = Some(ReturnValue::Generator(return_value_fn));
        self
    }

    /// Defines that this method panics.
    pub fn panics(&mut self) -> (r: &mut Self)
        ensures
            r.call.return_value == Some(ReturnValue::<R, G>::Panic(Panic(None))),
            r.call.expected_calls == old(self).call.expected_calls,
            r.call.actual_number_of_calls == old(self).call.actual_number_of_calls,
            r.call.matcher == old(self).call.matcher,
            r.call.spec_times_and_return_value_are_compatible(),
            *final(self) == *final(r),
    {
        self.call.return_value = Some(ReturnValue::Panic(Panic(None)));
        self
    }

    /// Defines that this method panics with a message.
    pub fn panics_with_message(&mut self, message: &'static str) -> (r: &mut Self)
        ensures
            r.call.return_value == Some(ReturnValue::<R, G>::Panic(Panic(Some(message)))),
            r.call.expected_calls == old(self).call.expected_calls,
            r.call.actual_number_of_calls == old(self).call.actual_number_of_calls,
            r.call.matcher == old(self).call.matcher,
            r.call.spec_times_and_return_value_are_compatible(),
            *final(self) == *final(r),
    {
        self.call.return_value = Some(ReturnValue::Panic(Panic(Some(message))));
        self
    }

    /// Defines how often this method should be called: an exact number (`3`),
    /// any number (`..`), at least (`3..`), at most (`..=3`), between
    /// exclusive (`3..4`) or inclusive (`3..=4`).
    /// A value that is returned once can only be expected once.
    pub fn times<E: Into<ExpectedCalls>>(&mut self, expected_calls: E) -> (r: &mut Self)
        requires
            (old(self).call.return_value matches Some(ReturnValue::Once(_))) ==> (
            E::obeys_into_spec() && expected_calls.into_spec() == ExpectedCalls(
                ExpectedCallsKind::Exact(1),
            )),
        ensures
            E::obeys_into_spec() ==> r.call.expected_calls == expected_calls.into_spec(),
            r.call.return_value == old(self).call.return_value,
            r.call.actual_number_of_calls == old(self).call.actual_number_of_calls,
            r.call.matcher == old(self).call.matcher,
            r.call.spec_times_and_return_value_are_compatible(),
            *final(self) == *final(r),
    {
        self.call.expected_calls = expected_calls.into();
        self
    }
}

impl<'a, A, R: Clone> MethodCallBuilder<'a, A, R, Cloned<R>> {
    /// Defines the return value for this method; every call returns a clone of it.
    pub fn returns_value(&mut self, return_value: R) -> (r: &mut Self)
        ensures
            r.call.return_value == Some(
                ReturnValue::<R, Cloned<R>>::Generator(Cloned(return_value)),
            ),
            r.call.expected_calls == old(self).call.expected_calls,
            r.call.actual_number_of_calls == old(self).call.actual_number_of_calls,
            r.call.matcher == old(self).call.matcher,
            r.call.spec_times_and_return_value_are_compatible(),
            *final(self) == *final(r),
    {
        self.call.return_value = Some(ReturnValue::Generator(Cloned(return_value)));
        self
    }
}

/// A call that accepts no more calls could not take one more call without
/// breaking its expectation: refusing a call never refuses a count that the
/// expectation allows.
pub proof fn lemma_refused_calls_would_exceed_the_expectation<A, R, G>(
    call: MethodCall<A, R, G>,
)
    requires
        !call.spec_accepts_more_calls(),
    ensures
        !call.expected_calls.spec_contains(call.actual_number_of_calls as nat + 1),
{
}

/// An expected call accepts one more call whenever that call would still
/// meet its expectation, and always when the expectation has no upper
/// bound (`n..` or `..`): only a call that would exceed the expectation is refused.
pub proof fn lemma_calls_within_the_expectation_are_accepted<A, R, G>(call: MethodCall<A, R, G>)
    ensures
        call.expected_calls.spec_contains(call.actual_number_of_calls as nat + 1)
            ==> call.spec_accepts_more_calls(),
        (call.expected_calls.0 is AtLeast || call.expected_calls.0 is Any)
            ==> call.spec_accepts_more_calls(),
{
}

} // verus!
