//! The expected calls of one mocked method, and how a call is dispatched to them.
use crate::fmt::{append_lines, lines_text, texts};
use crate::matcher::ArgumentsMatcher;
use crate::method_call::{MethodCall, MethodCallBuilder};
use crate::return_value::{
    spec_accepts_input, spec_produces_value, spec_refusal, spec_return_outcome, Cloned, ReturnValue, ReturnValueError,
    ReturnValueGenerator,
};
use vstd::prelude::*;

verus! {

/// Whether calls have to come in the order in which they were expected.
#[derive(PartialEq, Eq, Structural, Debug, Clone, Copy)]
pub enum ExpectedCallOrder {
    /// Calls are processed sequentially, in the order of the expectations.
    Sequentially,
    /// Any expected call may match, regardless of order.
    Unordered,
}

/// Why a call of a mocked method was refused.
#[derive(Debug)]
pub enum CallError {
    /// No expected call accepts the call.
    NoMatching,
    /// More than one expected call matches the arguments (their indices).
    MoreThanOneMatching(Vec<usize>),
}

/// The expected calls of a method were not satisfied.
#[derive(Debug)]
pub struct VerificationError;

/// The message for a call that no expected call accepts; `expected` holds
/// the descriptions of the method's expected calls.
pub open spec fn spec_no_matching_message(
    name: Seq<char>,
    arguments: Seq<char>,
    expected: Seq<Seq<char>>,
) -> Seq<char> {
    "The call "@ + name + arguments + " was not expected.\n"@ + if expected.len() == 0 {
        "No calls to "@ + name + " were expected.\n"@
    } else {
        "The following calls were expected:\n"@ + lines_text(expected) + "\n"@
    }
}

/// The message for a call that several unordered expected calls match;
/// `matching` holds the descriptions of those calls.
pub open spec fn spec_ambiguous_message(
    name: Seq<char>,
    arguments: Seq<char>,
    matching: Seq<Seq<char>>,
) -> Seq<char> {
    "\nThe call "@ + name + arguments + " matches more than one expected call:\n"@ + lines_text(
        matching,
    ) + "\n"@
}

/// The descriptions at `indices`, in their order.
pub open spec fn picked(descriptions: Seq<Seq<char>>, indices: Seq<usize>) -> Seq<Seq<char>> {
    indices.map_values(|i: usize| descriptions[i as int])
}

impl CallError {
    /// The message of the error for method `name` called with `arguments`
    /// (as the arguments show themselves); `descriptions` holds the
    /// descriptions of the method's expected calls, one per call.
    pub open spec fn spec_message(
        &self,
        name: Seq<char>,
        arguments: Seq<char>,
        descriptions: Seq<Seq<char>>,
    ) -> Seq<char> {
        match self {
            CallError::NoMatching => spec_no_matching_message(name, arguments, descriptions),
            CallError::MoreThanOneMatching(indices) => spec_ambiguous_message(
                name,
                arguments,
                picked(descriptions, indices@),
            ),
        }
    }

    /// The message with which a mock reports this error.
    pub fn message(&self, name: &str, arguments: &str, descriptions: &Vec<String>) -> (r: String)
        requires
            self matches CallError::MoreThanOneMatching(indices) ==> forall|k: int|
                0 <= k < indices@.len() ==> #[trigger] indices@[k] < descriptions@.len(),
        ensures
            r@ == self.spec_message(name@, arguments@, texts(descriptions@)),
    {
        match self {
            CallError::NoMatching => {
                let mut s = String::from_str("The call ");
                s.append(name);
                s.append(arguments);
                s.append(" was not expected.\n");
                if descriptions.len() == 0 {
                    s.append("No calls to ");
                    s.append(name);
                    s.append(" were expected.\n");
                } else {
                    s.append("The following calls were expected:\n");
                    append_lines(&mut s, descriptions);
                    s.append("\n");
                }
                s
            },
            CallError::MoreThanOneMatching(indices) => {
                let mut matching: Vec<String> = Vec::new();
                let mut k: usize = 0;
                while k < indices.len()
                    invariant
                        k <= indices@.len(),
                        forall|j: int|
                            0 <= j < indices@.len() ==> #[trigger] indices@[j]
                                < descriptions@.len(),
                        texts(matching@) =~= picked(
                            texts(descriptions@),
                            indices@.subrange(0, k as int),
                        ),
                    decreases indices@.len() - k,
                {
                    let index = indices[k];
                    let ghost before = matching@;
                    matching.push(descriptions[index].clone());
                    proof {
                        assert(matching@ =~= before.push(descriptions@[index as int]));
                        assert(texts(matching@) =~= texts(before).push(
                            descriptions@[index as int]@,
                        ));
                        assert(indices@.subrange(0, k + 1) =~= indices@.subrange(0, k as int).push(
                            index,
                        ));
                    }
                    k = k + 1;
                }
                proof {
                    assert(indices@.subrange(0, indices@.len() as int) =~= indices@);
                }
                let mut s = String::from_str("\nThe call ");
                s.append(name);
                s.append(arguments);
                s.append(" matches more than one expected call:\n");
                append_lines(&mut s, &matching);
                s.append("\n");
                s
            },
        }
    }
}

impl VerificationError {
    /// The message for method `name` whose expected calls, described by
    /// `descriptions`, were not satisfied.
    pub open spec fn spec_message(name: Seq<char>, descriptions: Seq<Seq<char>>) -> Seq<char> {
        "The expected calls for "@ + name + " were not satisified.\n"@ + lines_text(descriptions)
    }

    /// The message with which a mock reports unsatisfied expectations.
    pub fn message(&self, name: &str, descriptions: &Vec<String>) -> (r: String)
        ensures
            r@ == Self::spec_message(name@, texts(descriptions@)),
    {
        let mut s = String::from_str("The expected calls for ");
        s.append(name);
        s.append(" were not satisified.\n");
        append_lines(&mut s, descriptions);
        s
    }
}

/// The indices of the first `n` expected calls whose matcher accepts `arguments`, in order.
pub open spec fn matching_indices<A: ArgumentsMatcher, R, G>(
    calls: Seq<MethodCall<A, R, G>>,
    arguments: &A::Arguments,
    n: nat,
) -> Seq<usize>
    decreases n,
{
    if n == 0 {
        Seq::empty()
    } else {
        let prev = matching_indices(calls, arguments, (n - 1) as nat);
        if calls[n - 1].matcher.spec_matches_arguments(arguments) {
            prev.push((n - 1) as usize)
        } else {
            prev
        }
    }
}

/// The index of the first of the first `n` expected calls that accepts more calls.
pub open spec fn first_accepting<A, R, G>(calls: Seq<MethodCall<A, R, G>>, n: nat) -> Option<usize>
    decreases n,
{
    if n == 0 {
        None
    } else {
        match first_accepting(calls, (n - 1) as nat) {
            Some(i) => Some(i),
            None => if calls[n - 1].spec_accepts_more_calls() {
                Some((n - 1) as usize)
            } else {
                None
            },
        }
    }
}

/// The expected calls of one mocked method.
pub struct Method<A, R, G = Cloned<R>> {
    /// The name of the method, for messages.
    pub name: &'static str,
    /// The expected calls, in the order in which they were added.
    pub calls: Vec<MethodCall<A, R, G>>,
    /// Whether calls must come in order.
    pub call_order: ExpectedCallOrder,
}

impl<A: ArgumentsMatcher, R, G> Method<A, R, G> {
    /// The indices of the expected calls whose matcher accepts `arguments`.
    pub open spec fn spec_matching(&self, arguments: &A::Arguments) -> Seq<usize> {
        matching_indices(self.calls@, arguments, self.calls@.len())
    }

    /// The expected call that handles a call with `arguments`, if any.
    ///
    /// In order: the first expected call that accepts more calls, if its
    /// matcher accepts the arguments. Unordered: the one expected call whose
    /// matcher accepts the arguments, if it is the only one and accepts more calls.
    pub open spec fn spec_target(&self, arguments: &A::Arguments) -> Option<usize> {
        match self.call_order {
            ExpectedCallOrder::Sequentially => match first_accepting(
                self.calls@,
                self.calls@.len(),
            ) {
                Some(i) => if self.calls@[i as int].matcher.spec_matches_arguments(arguments) {
                    Some(i)
                } else {
                    None
                },
                None => None,
            },
            ExpectedCallOrder::Unordered => {
                let m = self.spec_matching(arguments);
                if m.len() == 1 && self.calls@[m[0] as int].spec_accepts_more_calls() {
                    Some(m[0])
                } else {
                    None
                }
            },
        }
    }

    /// Whether a call with `arguments` is refused because several unordered
    /// expected calls match it.
    pub open spec fn spec_ambiguous(&self, arguments: &A::Arguments) -> bool {
        self.call_order == ExpectedCallOrder::Unordered && self.spec_matching(arguments).len() >= 2
    }

    /// Whether every expected call was called an expected number of times.
    pub open spec fn spec_verified(&self) -> bool {
        forall|i: int|
            0 <= i < self.calls@.len() ==> #[trigger] self.calls@[i].spec_was_called_expected_number_of_times()
    }

    /// Whether a call with `arguments` can be recorded without overflowing its counter.
    pub open spec fn spec_can_count(&self, arguments: &A::Arguments) -> bool {
        self.spec_target(arguments) matches Some(i) ==> self.calls@[i as int].actual_number_of_calls
            < u64::MAX
    }

    /// Whether a call with `arguments` is accepted and produces a value.
    pub open spec fn spec_call_succeeds(&self, arguments: &A::Arguments) -> bool {
        self.spec_target(arguments) matches Some(i) && spec_produces_value(
            self.calls@[i as int].return_value,
        )
    }

    /// Why the expected call that accepts a call with `arguments` cannot
    /// produce a value, if there is such a call and it cannot.
    pub open spec fn spec_return_value_error(&self, arguments: &A::Arguments) -> Option<
        ReturnValueError,
    > {
        match self.spec_target(arguments) {
            Some(i) => spec_refusal(self.calls@[i as int].return_value),
            None => None,
        }
    }

    /// The state after a call that expected call `i` accepted: its counter is
    /// one higher and its return value is `next`; nothing else changes.
    pub open spec fn spec_after_call(
        &self,
        other: &Self,
        i: usize,
        next: Option<ReturnValue<R, G>>,
    ) -> bool {
        let c = self.calls@[i as int];
        &&& other.name == self.name
        &&& other.call_order == self.call_order
        &&& other.calls@ == self.calls@.update(
            i as int,
            MethodCall {
                expected_calls: c.expected_calls,
                actual_number_of_calls: (c.actual_number_of_calls + 1) as u64,
                matcher: c.matcher,
                return_value: next,
            },
        )
    }
}

impl<A: ArgumentsMatcher, R, G: ReturnValueGenerator<A::Arguments, R>> Method<A, R, G> {
    /// Whether a call with `arguments` can be answered without a panic: it is
    /// refused, or the expected call that accepts it can count it and produce
    /// a value (otherwise the mocked method panics, see `return_value_error`).
    pub open spec fn spec_can_answer(&self, arguments: &A::Arguments) -> bool {
        self.spec_target(arguments) matches Some(i) ==> self.calls@[i as int].actual_number_of_calls
            < u64::MAX && spec_produces_value(self.calls@[i as int].return_value)
            && spec_accepts_input(self.calls@[i as int].return_value, *arguments)
    }

    /// Expected call `i` handled a call with `arguments`: `after` is `self`
    /// with that call counted and its return value moved on, and `r` is the
    /// outcome of its return value.
    pub open spec fn spec_handled_by(
        &self,
        after: &Self,
        i: usize,
        arguments: A::Arguments,
        r: Result<R, CallError>,
    ) -> bool {
        let next = after.calls@[i as int].return_value;
        let rv = self.calls@[i as int].return_value;
        &&& i < self.calls@.len()
        &&& self.spec_after_call(after, i, next)
        &&& match r {
            Ok(v) => spec_return_outcome(rv, arguments, v, next),
            _ => false,
        }
    }

    /// A method without expected calls; calls need not come in order.
    pub fn new(name: &'static str) -> (r: Self)
        ensures
            r.name == name,
            r.calls@.len() == 0,
            r.call_order == ExpectedCallOrder::Unordered,
    {
        Method { name, calls: Vec::new(), call_order: ExpectedCallOrder::Unordered }
    }

    /// Registers an expected call that accepts the arguments that `matcher`
    /// accepts: expected once, with no return value until the returned builder sets one.
    pub fn add_expected_call(&mut self, matcher: A) -> (r: MethodCallBuilder<'_, A, R, G>)
        ensures
            r.call.matcher == matcher,
            r.call.expected_calls == crate::expected_calls::ExpectedCalls(
                crate::expected_calls::ExpectedCallsKind::Exact(1),
            ),
            r.call.actual_number_of_calls == 0,
            r.call.return_value is None,
            final(self).name == old(self).name,
            final(self).call_order == old(self).call_order,
            final(self).calls@ == old(self).calls@.push(*final(r.call)),
    {
        let call = MethodCall::new(matcher);
        self.calls.push(call);
        let last = self.calls.len() - 1;
        MethodCallBuilder::new(&mut self.calls[last])
    }

    /// Requires the calls to come in the order of the expectations.
    pub fn expect_method_calls_in_order(&mut self)
        ensures
            final(self).name == old(self).name,
            final(self).calls@ == old(self).calls@,
            final(self).call_order == ExpectedCallOrder::Sequentially,
    {
        self.call_order = ExpectedCallOrder::Sequentially;
    }

    /// Handles a call of the mocked method: finds the expected call that
    /// accepts it (see `spec_target`), counts the call there and produces its
    /// return value. A refused call changes nothing.
    pub fn call(&mut self, arguments: A::Arguments) -> (r: Result<R, CallError>)
        requires
            old(self).spec_can_answer(&arguments),
        ensures
            match old(self).spec_target(&arguments) {
                Some(i) => old(self).spec_handled_by(final(self), i, arguments, r),
                None => {
                    &&& *final(self) == *old(self)
                    &&& if old(self).spec_ambiguous(&arguments) {
                        r matches Err(CallError::MoreThanOneMatching(m)) && m@ == old(
                            self,
                        ).spec_matching(&arguments)
                    } else {
                        r matches Err(CallError::NoMatching)
                    }
                },
            },
    {
        match self.call_order {
            ExpectedCallOrder::Sequentially => self.handle_call_with_sequentially_ordered_expectations(
                arguments,
            ),
            ExpectedCallOrder::Unordered => self.handle_call_with_unordered_expectations(arguments),
        }
    }

    /// Lets expected call `i` handle a call.
    fn call_at(&mut self, i: usize, arguments: A::Arguments) -> (r: Result<R, CallError>)
        requires
            i < old(self).calls@.len(),
            old(self).calls@[i as int].actual_number_of_calls < u64::MAX,
            spec_produces_value(old(self).calls@[i as int].return_value),
            spec_accepts_input(old(self).calls@[i as int].return_value, arguments),
        ensures
            old(self).spec_handled_by(final(self), i, arguments, r),
    {
        let ghost old_calls = self.calls@;
        let result = self.calls[i].call(arguments);
        proof {
            let c = old_calls[i as int];
            assert(self.calls@ =~= old_calls.update(
                i as int,
                MethodCall {
                    expected_calls: c.expected_calls,
                    actual_number_of_calls: (c.actual_number_of_calls + 1) as u64,
                    matcher: c.matcher,
                    return_value: self.calls@[i as int].return_value,
                },
            ));
        }
        Ok(result)
    }

    /// In order: the first expected call that accepts more calls handles the
    /// call if it matches the arguments; otherwise the call is refused.
    fn handle_call_with_sequentially_ordered_expectations(
        &mut self,
        arguments: A::Arguments,
    ) -> (r: Result<R, CallError>)
        requires
            old(self).call_order == ExpectedCallOrder::Sequentially,
            old(self).spec_can_answer(&arguments),
        ensures
            match old(self).spec_target(&arguments) {
                Some(i) => old(self).spec_handled_by(final(self), i, arguments, r),
                None => *final(self) == *old(self) && r matches Err(CallError::NoMatching),
            },
    {
        let mut k: usize = 0;
        while k < self.calls.len()
            invariant
                k <= self.calls@.len(),
                first_accepting(self.calls@, k as nat) is None,
                *self == *old(self),
                self.call_order == ExpectedCallOrder::Sequentially,
                self.spec_can_answer(&arguments),
            decreases self.calls@.len() - k,
        {
            if self.calls[k].accepts_more_calls() {
                proof {
                    assert(first_accepting(self.calls@, (k + 1) as nat) == Some(k));
                    lemma_first_accepting_settles(self.calls@, (k + 1) as nat, self.calls@.len());
                }
                if self.calls[k].matches_expected_arguments(&arguments) {
                    return self.call_at(k, arguments);
                } else {
                    return Err(CallError::NoMatching);
                }
            }
            k = k + 1;
        }
        Err(CallError::NoMatching)
    }

    /// Unordered: the call is refused when no expected call matches, or when
    /// more than one does; a single matching call handles it if it accepts
    /// more calls.
    fn handle_call_with_unordered_expectations(&mut self, arguments: A::Arguments) -> (r: Result<
        R,
        CallError,
    >)
        requires
            old(self).call_order == ExpectedCallOrder::Unordered,
            old(self).spec_can_answer(&arguments),
        ensures
            match old(self).spec_target(&arguments) {
                Some(i) => old(self).spec_handled_by(final(self), i, arguments, r),
                None => {
                    &&& *final(self) == *old(self)
                    &&& if old(self).spec_ambiguous(&arguments) {
                        r matches Err(CallError::MoreThanOneMatching(m)) && m@ == old(
                            self,
                        ).spec_matching(&arguments)
                    } else {
                        r matches Err(CallError::NoMatching)
                    }
                },
            },
    {
        let mut matching: Vec<usize> = Vec::new();
        let mut k: usize = 0;
        while k < self.calls.len()
            invariant
                k <= self.calls@.len(),
                matching@ == matching_indices(self.calls@, &arguments, k as nat),
                *self == *old(self),
            decreases self.calls@.len() - k,
        {
            if self.calls[k].matches_expected_arguments(&arguments) {
                matching.push(k);
            }
            k = k + 1;
        }
        if matching.len() == 0 {
            Err(CallError::NoMatching)
        } else if matching.len() == 1 {
            let i = matching[0];
            proof {
                lemma_matching_indices_are_the_matching_calls(
                    self.calls@,
                    &arguments,
                    self.calls@.len(),
                );
            }
            if self.calls[i].accepts_more_calls() {
                self.call_at(i, arguments)
            } else {
                Err(CallError::NoMatching)
            }
        } else {
            Err(CallError::MoreThanOneMatching(matching))
        }
    }

    /// The expected call that handles a call with `arguments`, if any (see `spec_target`).
    pub fn target(&self, arguments: &A::Arguments) -> (r: Option<usize>)
        ensures
            r == self.spec_target(arguments),
    {
        match self.call_order {
            ExpectedCallOrder::Sequentially => {
                let mut k: usize = 0;
                while k < self.calls.len()
                    invariant
                        k <= self.calls@.len(),
                        first_accepting(self.calls@, k as nat) is None,
                        self.call_order == ExpectedCallOrder::Sequentially,
                    decreases self.calls@.len() - k,
                {
                    if self.calls[k].accepts_more_calls() {
                        proof {
                            assert(first_accepting(self.calls@, (k + 1) as nat) == Some(k));
                            lemma_first_accepting_settles(
                                self.calls@,
                                (k + 1) as nat,
                                self.calls@.len(),
                            );
                        }
                        if self.calls[k].matches_expected_arguments(arguments) {
                            return Some(k);
                        } else {
                            return None;
                        }
                    }
                    k = k + 1;
                }
                None
            },
            ExpectedCallOrder::Unordered => {
                let mut matching: Vec<usize> = Vec::new();
                let mut k: usize = 0;
                while k < self.calls.len()
                    invariant
                        k <= self.calls@.len(),
                        matching@ == matching_indices(self.calls@, arguments, k as nat),
                    decreases self.calls@.len() - k,
                {
                    if self.calls[k].matches_expected_arguments(arguments) {
                        matching.push(k);
                    }
                    k = k + 1;
                }
                if matching.len() == 1 {
                    let i = matching[0];
                    proof {
                        lemma_matching_indices_are_the_matching_calls(
                            self.calls@,
                            arguments,
                            self.calls@.len(),
                        );
                    }
                    if self.calls[i].accepts_more_calls() {
                        Some(i)
                    } else {
                        None
                    }
                } else {
                    None
                }
            },
        }
    }

    /// Why a call with `arguments` would make the mocked method panic: the
    /// expected call that accepts it has no return value, has handed out its
    /// value already, or was configured to panic. `None` when the call is
    /// refused or produces a value.
    pub fn return_value_error(&self, arguments: &A::Arguments) -> (r: Option<ReturnValueError>)
        ensures
            r == self.spec_return_value_error(arguments),
            r is None <==> (self.spec_target(arguments) matches Some(i) ==> spec_produces_value(
                self.calls@[i as int].return_value,
            )),
    {
        match self.target(arguments) {
            Some(i) => {
                proof {
                    lemma_handled_only_by_matching_accepting_calls(*self, arguments, i);
                }
                self.calls[i].return_value_error()
            },
            None => None,
        }
    }

    /// Counts a call with `arguments` on the expected call that accepts it,
    /// without producing a value: a call whose expected call cannot produce
    /// one (see `return_value_error`) is counted before the mocked method
    /// panics. A refused call changes nothing.
    pub fn count_call(&mut self, arguments: &A::Arguments)
        requires
            old(self).spec_can_count(arguments),
        ensures
            match old(self).spec_target(arguments) {
                Some(i) => old(self).spec_after_call(
                    final(self),
                    i,
                    old(self).calls@[i as int].return_value,
                ),
                None => *final(self) == *old(self),
            },
    {
        match self.target(arguments) {
            Some(i) => {
                proof {
                    lemma_handled_only_by_matching_accepting_calls(*self, arguments, i);
                }
                let ghost old_calls = self.calls@;
                self.calls[i].count_call();
                proof {
                    let c = old_calls[i as int];
                    assert(self.calls@ =~= old_calls.update(
                        i as int,
                        MethodCall {
                            expected_calls: c.expected_calls,
                            actual_number_of_calls: (c.actual_number_of_calls + 1) as u64,
                            matcher: c.matcher,
                            return_value: c.return_value,
                        },
                    ));
                }
            },
            None => {},
        }
    }

    /// Checks that every expected call was called an expected number of times.
    pub fn verify(&self) -> (r: Result<(), VerificationError>)
        ensures
            r is Ok <==> self.spec_verified(),
    {
        let mut k: usize = 0;
        while k < self.calls.len()
            invariant
                k <= self.calls@.len(),
                forall|i: int|
                    0 <= i < k ==> #[trigger] self.calls@[i].spec_was_called_expected_number_of_times(),
            decreases self.calls@.len() - k,
        {
            if !self.calls[k].was_called_expected_number_of_times() {
                return Err(VerificationError);
            }
            k = k + 1;
        }
        Ok(())
    }

    /// Whether no expected call has reached the largest count that can be
    /// recorded, so that any call can be counted.
    pub fn can_count_calls(&self) -> (r: bool)
        ensures
            r == forall|i: int|
                0 <= i < self.calls@.len() ==> (#[trigger] self.calls@[i]).actual_number_of_calls
                    < u64::MAX,
            r ==> forall|arguments: A::Arguments| #[trigger] self.spec_can_count(&arguments),
    {
        let mut k: usize = 0;
        while k < self.calls.len()
            invariant
                k <= self.calls@.len(),
                forall|i: int|
                    0 <= i < k ==> (#[trigger] self.calls@[i]).actual_number_of_calls < u64::MAX,
            decreases self.calls@.len() - k,
        {
            if self.calls[k].actual_number_of_calls == u64::MAX {
                return false;
            }
            k = k + 1;
        }
        proof {
            assert forall|arguments: A::Arguments| #[trigger] self.spec_can_count(&arguments) by {
                match self.spec_target(&arguments) {
                    Some(i) => {
                        lemma_handled_only_by_matching_accepting_calls(*self, &arguments, i);
                    },
                    None => {},
                }
            }
        }
        true
    }

    /// Handles a call that is known to be accepted and to produce a value.
    pub fn call_unwrap(&mut self, arguments: A::Arguments) -> (r: R)
        requires
            old(self).spec_can_answer(&arguments),
            old(self).spec_call_succeeds(&arguments),
        ensures
            old(self).spec_target(&arguments) matches Some(i) && old(self).spec_handled_by(
                final(self),
                i,
                arguments,
                Ok(r),
            ),
    {
        match self.call(arguments) {
            Ok(v) => v,
            Err(_) => {
                loop
                    invariant
                        false,
                    decreases 0nat,
                {
                }
            },
        }
    }

    /// Checks expectations that are known to be met.
    pub fn verify_unwrap(&self)
        requires
            self.spec_verified(),
    {
        let checked = self.verify();
        assert(checked is Ok);
    }
}

impl<A: ArgumentsMatcher> Method<A, (), Cloned<()>> {
    /// Registers an expected call of a method that returns `()`: like
    /// `add_expected_call`, but the call already returns `()`, so no return
    /// value needs to be configured.
    pub fn add_expected_unit_call(&mut self, matcher: A) -> (r: MethodCallBuilder<
        '_,
        A,
        (),
        Cloned<()>,
    >)
        ensures
            r.call.matcher == matcher,
            r.call.expected_calls == crate::expected_calls::ExpectedCalls(
                crate::expected_calls::ExpectedCallsKind::Exact(1),
            ),
            r.call.actual_number_of_calls == 0,
            r.call.return_value == Some(ReturnValue::<(), Cloned<()>>::Generator(Cloned(()))),
            final(self).name == old(self).name,
            final(self).call_order == old(self).call_order,
            final(self).calls@ == old(self).calls@.push(*final(r.call)),
    {
        let mut call = MethodCall::new(matcher);
        call.return_value = Some(ReturnValue::Generator(Cloned(())));
        self.calls.push(call);
        let last = self.calls.len() - 1;
        MethodCallBuilder::new(&mut self.calls[last])
    }
}

/// Once one of the first `m` expected calls accepts more calls, the first of
/// them stays the first among any longer prefix.
pub proof fn lemma_first_accepting_settles<A, R, G>(
    calls: Seq<MethodCall<A, R, G>>,
    m: nat,
    n: nat,
)
    requires
        m <= n,
        first_accepting(calls, m) is Some,
    ensures
        first_accepting(calls, n) == first_accepting(calls, m),
    decreases n,
{
    if n > m {
        lemma_first_accepting_settles(calls, m, (n - 1) as nat);
    }
}

/// `first_accepting` finds the first expected call below `n` that accepts
/// more calls: none before it does.
pub proof fn lemma_first_accepting_is_first<A, R, G>(calls: Seq<MethodCall<A, R, G>>, n: nat)
    requires
        n <= calls.len(),
        n <= usize::MAX,
    ensures
        match first_accepting(calls, n) {
            Some(i) => {
                &&& i < n
                &&& calls[i as int].spec_accepts_more_calls()
                &&& forall|j: int| 0 <= j < i ==> !(#[trigger] calls[j]).spec_accepts_more_calls()
            },
            None => forall|j: int| 0 <= j < n ==> !(#[trigger] calls[j]).spec_accepts_more_calls(),
        },
    decreases n,
{
    if n > 0 {
        lemma_first_accepting_is_first(calls, (n - 1) as nat);
    }
}

/// `matching_indices` lists, in ascending order, exactly the expected calls
/// below `n` whose matcher accepts the arguments.
pub proof fn lemma_matching_indices_are_the_matching_calls<A: ArgumentsMatcher, R, G>(
    calls: Seq<MethodCall<A, R, G>>,
    arguments: &A::Arguments,
    n: nat,
)
    requires
        n <= calls.len(),
        n <= usize::MAX,
    ensures
        forall|k: int|
            0 <= k < matching_indices(calls, arguments, n).len() ==> {
                let i = #[trigger] matching_indices(calls, arguments, n)[k];
                i < n && calls[i as int].matcher.spec_matches_arguments(arguments)
            },
        forall|k: int, l: int|
            0 <= k < l < matching_indices(calls, arguments, n).len() ==> #[trigger] matching_indices(
                calls,
                arguments,
                n,
            )[k] < #[trigger] matching_indices(calls, arguments, n)[l],
        forall|j: int|
            0 <= j < n && (#[trigger] calls[j]).matcher.spec_matches_arguments(arguments)
                ==> matching_indices(calls, arguments, n).contains(j as usize),
    decreases n,
{
    if n > 0 {
        lemma_matching_indices_are_the_matching_calls(calls, arguments, (n - 1) as nat);
        let prev = matching_indices(calls, arguments, (n - 1) as nat);
        let cur = matching_indices(calls, arguments, n);
        if calls[n - 1].matcher.spec_matches_arguments(arguments) {
            assert(cur == prev.push((n - 1) as usize));
            assert forall|j: int|
                0 <= j < n && (#[trigger] calls[j]).matcher.spec_matches_arguments(
                    arguments,
                ) implies cur.contains(j as usize) by {
                if j < n - 1 {
                    let k = choose|k: int| 0 <= k < prev.len() && prev[k] == j as usize;
                    assert(cur[k] == j as usize);
                } else {
                    assert(cur[prev.len() as int] == j as usize);
                }
            }
        } else {
            assert(cur == prev);
        }
    }
}

/// A call is only ever handled by an expected call that matches its
/// arguments and still accepts calls; in order, every expected call before
/// it accepts no more calls.
pub proof fn lemma_handled_only_by_matching_accepting_calls<A: ArgumentsMatcher, R, G>(
    method: Method<A, R, G>,
    arguments: &A::Arguments,
    i: usize,
)
    requires
        method.spec_target(arguments) == Some(i),
    ensures
        i < method.calls@.len(),
        method.calls@[i as int].matcher.spec_matches_arguments(arguments),
        method.calls@[i as int].spec_accepts_more_calls(),
        method.call_order == ExpectedCallOrder::Sequentially ==> forall|j: int|
            0 <= j < i ==> !(#[trigger] method.calls@[j]).spec_accepts_more_calls(),
{
    assert(method.calls.len() == method.calls@.len());
    lemma_first_accepting_is_first(method.calls@, method.calls@.len());
    lemma_matching_indices_are_the_matching_calls(method.calls@, arguments, method.calls@.len());
    if method.call_order == ExpectedCallOrder::Unordered {
        let m = method.spec_matching(arguments);
        assert(m[0] == i);
    }
}

/// Without order, the order of the expectations does not matter: a call is
/// handled by expected call `i` exactly when `i` is the only expected call
/// whose matcher accepts the arguments and it still accepts calls.
pub proof fn lemma_unordered_dispatch_picks_the_unique_match<A: ArgumentsMatcher, R, G>(
    method: Method<A, R, G>,
    arguments: &A::Arguments,
    i: usize,
)
    requires
        method.call_order == ExpectedCallOrder::Unordered,
    ensures
        method.spec_target(arguments) == Some(i) <==> {
            &&& i < method.calls@.len()
            &&& method.calls@[i as int].matcher.spec_matches_arguments(arguments)
            &&& method.calls@[i as int].spec_accepts_more_calls()
            &&& forall|j: int|
                0 <= j < method.calls@.len() && j != i ==> !(
                #[trigger] method.calls@[j]).matcher.spec_matches_arguments(arguments)
        },
{
    assert(method.calls.len() == method.calls@.len());
    let n = method.calls@.len();
    let m = method.spec_matching(arguments);
    lemma_matching_indices_are_the_matching_calls(method.calls@, arguments, n);
    if method.spec_target(arguments) == Some(i) {
        assert(m.len() == 1 && m[0] == i);
        assert forall|j: int|
            0 <= j < n && j != i implies !(
            #[trigger] method.calls@[j]).matcher.spec_matches_arguments(arguments) by {
            if method.calls@[j].matcher.spec_matches_arguments(arguments) {
                assert(m.contains(j as usize));
                let k = choose|k: int| 0 <= k < m.len() && m[k] == j as usize;
                assert(k == 0);
            }
        }
    }
    if i < n && method.calls@[i as int].matcher.spec_matches_arguments(arguments)
        && method.calls@[i as int].spec_accepts_more_calls() && forall|j: int|
        0 <= j < n && j != i ==> !(#[trigger] method.calls@[j]).matcher.spec_matches_arguments(
            arguments,
        ) {
        assert(m.contains(i));
        assert forall|k: int| 0 <= k < m.len() implies #[trigger] m[k] == i by {
            let j = m[k];
            assert(method.calls@[j as int].matcher.spec_matches_arguments(arguments));
        }
        if m.len() >= 2 {
            assert(m[0] < m[1]);
        }
        assert(m.len() == 1);
    }
}

/// A call whose arguments no expected call matches is refused as not
/// expected (never as ambiguous), whatever the order.
pub proof fn lemma_unmatched_calls_are_refused<A: ArgumentsMatcher, R, G>(
    method: Method<A, R, G>,
    arguments: &A::Arguments,
)
    requires
        forall|j: int|
            0 <= j < method.calls@.len() ==> !(
            #[trigger] method.calls@[j]).matcher.spec_matches_arguments(arguments),
    ensures
        method.spec_target(arguments) is None,
        !method.spec_ambiguous(arguments),
{
    assert(method.calls.len() == method.calls@.len());
    lemma_first_accepting_is_first(method.calls@, method.calls@.len());
    lemma_matching_indices_are_the_matching_calls(method.calls@, arguments, method.calls@.len());
    let m = method.spec_matching(arguments);
    if m.len() > 0 {
        let j = m[0];
        assert(method.calls@[j as int].matcher.spec_matches_arguments(arguments));
    }
}

/// Several expected calls match exactly when two different ones do.
proof fn lemma_ambiguous_iff_two_match<A: ArgumentsMatcher, R, G>(
    method: Method<A, R, G>,
    arguments: &A::Arguments,
)
    ensures
        method.spec_matching(arguments).len() >= 2 <==> exists|j1: int, j2: int|
            0 <= j1 < method.calls@.len() && 0 <= j2 < method.calls@.len() && j1 != j2
                && (#[trigger] method.calls@[j1]).matcher.spec_matches_arguments(arguments)
                && (#[trigger] method.calls@[j2]).matcher.spec_matches_arguments(arguments),
{
    assert(method.calls.len() == method.calls@.len());
    let n = method.calls@.len();
    let m = method.spec_matching(arguments);
    lemma_matching_indices_are_the_matching_calls(method.calls@, arguments, n);
    if m.len() >= 2 {
        let j1 = m[0] as int;
        let j2 = m[1] as int;
        assert(m[0] < m[1]);
        assert(method.calls@[j1].matcher.spec_matches_arguments(arguments));
        assert(method.calls@[j2].matcher.spec_matches_arguments(arguments));
    }
    if exists|j1: int, j2: int|
        0 <= j1 < n && 0 <= j2 < n && j1 != j2 && (#[trigger] method.calls@[j1]).matcher.spec_matches_arguments(
            arguments,
        ) && (#[trigger] method.calls@[j2]).matcher.spec_matches_arguments(arguments) {
        let (j1, j2) = choose|j1: int, j2: int|
            0 <= j1 < n && 0 <= j2 < n && j1 != j2 && (#[trigger] method.calls@[j1]).matcher.spec_matches_arguments(
                arguments,
            ) && (#[trigger] method.calls@[j2]).matcher.spec_matches_arguments(arguments);
        assert(m.contains(j1 as usize));
        assert(m.contains(j2 as usize));
        let k1 = choose|k: int| 0 <= k < m.len() && m[k] == j1 as usize;
        let k2 = choose|k: int| 0 <= k < m.len() && m[k] == j2 as usize;
        assert(k1 != k2);
    }
}

/// Without order, the order in which the calls were expected does not
/// matter: when `other` holds the same expected calls as `method`, moved so
/// that call `i` of `method` is call `sigma[i]` of `other` (`tau` moves them
/// back), a call is handled by the same expected call in both, refused in
/// both, and ambiguous in both.
pub proof fn lemma_unordered_dispatch_ignores_the_order_of_expectations<
    A: ArgumentsMatcher,
    R,
    G,
>(
    method: Method<A, R, G>,
    other: Method<A, R, G>,
    arguments: &A::Arguments,
    sigma: Seq<int>,
    tau: Seq<int>,
)
    requires
        method.call_order == ExpectedCallOrder::Unordered,
        other.call_order == ExpectedCallOrder::Unordered,
        method.calls@.len() == other.calls@.len(),
        sigma.len() == method.calls@.len(),
        tau.len() == method.calls@.len(),
        forall|i: int|
            0 <= i < sigma.len() ==> 0 <= #[trigger] sigma[i] < tau.len() && tau[sigma[i]] == i
                && other.calls@[sigma[i]] == method.calls@[i],
        forall|j: int| 0 <= j < tau.len() ==> 0 <= #[trigger] tau[j] < sigma.len() && sigma[tau[j]] == j,
    ensures
        match method.spec_target(arguments) {
            Some(i) => other.spec_target(arguments) == Some(sigma[i as int] as usize),
            None => other.spec_target(arguments) is None,
        },
        method.spec_ambiguous(arguments) == other.spec_ambiguous(arguments),
{
    let n = method.calls@.len();
    assert(method.calls.len() == method.calls@.len());
    assert(other.calls.len() == other.calls@.len());
    assert forall|j: int| 0 <= j < n implies #[trigger] other.calls@[j] == method.calls@[tau[j]] by {
        assert(other.calls@[sigma[tau[j]]] == method.calls@[tau[j]]);
    }
    match method.spec_target(arguments) {
        Some(i) => {
            lemma_unordered_dispatch_picks_the_unique_match(method, arguments, i);
            let j = sigma[i as int];
            lemma_unordered_dispatch_picks_the_unique_match(other, arguments, j as usize);
            assert forall|k: int|
                0 <= k < n && k != j implies !(#[trigger] other.calls@[k]).matcher.spec_matches_arguments(
                arguments,
            ) by {
                assert(other.calls@[k] == method.calls@[tau[k]]);
                assert(tau[k] != i);
            }
        },
        None => {
            if let Some(j) = other.spec_target(arguments) {
                lemma_unordered_dispatch_picks_the_unique_match(other, arguments, j);
                let i = tau[j as int];
                lemma_unordered_dispatch_picks_the_unique_match(method, arguments, i as usize);
                assert(other.calls@[j as int] == method.calls@[i]);
                assert forall|k: int|
                    0 <= k < n && k != i implies !(#[trigger] method.calls@[k]).matcher.spec_matches_arguments(
                    arguments,
                ) by {
                    assert(other.calls@[sigma[k]] == method.calls@[k]);
                    assert(sigma[k] != j);
                }
                assert(false);
            }
        },
    }
    lemma_ambiguous_iff_two_match(method, arguments);
    lemma_ambiguous_iff_two_match(other, arguments);
    if method.spec_matching(arguments).len() >= 2 {
        let (j1, j2) = choose|j1: int, j2: int|
            0 <= j1 < n && 0 <= j2 < n && j1 != j2 && (#[trigger] method.calls@[j1]).matcher.spec_matches_arguments(
                arguments,
            ) && (#[trigger] method.calls@[j2]).matcher.spec_matches_arguments(arguments);
        assert(other.calls@[sigma[j1]] == method.calls@[j1]);
        assert(other.calls@[sigma[j2]] == method.calls@[j2]);
        assert(tau[sigma[j1]] != tau[sigma[j2]]);
    }
    if other.spec_matching(arguments).len() >= 2 {
        let (j1, j2) = choose|j1: int, j2: int|
            0 <= j1 < n && 0 <= j2 < n && j1 != j2 && (#[trigger] other.calls@[j1]).matcher.spec_matches_arguments(
                arguments,
            ) && (#[trigger] other.calls@[j2]).matcher.spec_matches_arguments(arguments);
        assert(other.calls@[j1] == method.calls@[tau[j1]]);
        assert(other.calls@[j2] == method.calls@[tau[j2]]);
        assert(sigma[tau[j1]] != sigma[tau[j2]]);
    }
}

/// In order, a call goes to the first expected call that still accepts
/// calls: when every earlier expected call is used up and expected call `i`
/// accepts more calls and matches the arguments, `i` handles the call; when
/// it does not match, the call is refused.
pub proof fn lemma_in_order_the_first_open_call_handles_matching_calls<
    A: ArgumentsMatcher,
    R,
    G,
>(method: Method<A, R, G>, arguments: &A::Arguments, i: usize)
    requires
        method.call_order == ExpectedCallOrder::Sequentially,
        i < method.calls@.len(),
        method.calls@[i as int].spec_accepts_more_calls(),
        forall|j: int| 0 <= j < i ==> !(#[trigger] method.calls@[j]).spec_accepts_more_calls(),
    ensures
        method.calls@[i as int].matcher.spec_matches_arguments(arguments)
            ==> method.spec_target(arguments) == Some(i),
        !method.calls@[i as int].matcher.spec_matches_arguments(arguments)
            ==> method.spec_target(arguments) is None,
{
    assert(method.calls.len() == method.calls@.len());
    let n = method.calls@.len();
    lemma_first_accepting_is_first(method.calls@, n);
    match first_accepting(method.calls@, n) {
        Some(k) => {
            if k < i {
                assert(!method.calls@[k as int].spec_accepts_more_calls());
            }
            if k > i {
                assert(!method.calls@[i as int].spec_accepts_more_calls());
            }
        },
        None => {
            assert(!method.calls@[i as int].spec_accepts_more_calls());
        },
    }
}

} // verus!
