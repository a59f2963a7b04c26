//! Argument matchers: what a mock compares the arguments of a call against.
use vstd::prelude::*;
use vstd::std_specs::cmp::PartialEqSpec;

verus! {

/// The arguments of one call of a mocked method, as the mock generator
/// bundles them into a struct; they are printed in error messages.
pub trait Arguments: core::fmt::Debug {}

/// Decides whether the arguments of a call match an expected call.
///
/// The mock generator implements it for each mocked method, combining one
/// [`ArgumentMatcher`] per argument; `spec_matches_arguments` is what the
/// implementation promises to compute.
pub trait ArgumentsMatcher {
    /// The arguments of one call of the mocked method.
    type Arguments;

    /// Whether the given arguments match.
    spec fn spec_matches_arguments(&self, arguments: &Self::Arguments) -> bool;

    /// Whether the given arguments match.
    fn matches_arguments(&self, arguments: &Self::Arguments) -> (r: bool)
        ensures
            r == self.spec_matches_arguments(arguments),
    ;
}

/// Decides whether a single argument of type `U` matches.
///
/// Matchers that compare with `PartialEq` only know what they compute when
/// the comparison follows its specification (`obeys_matcher_spec`).
pub trait ArgumentMatcher<U> {
    /// Whether `matches_argument` computes `spec_matches_argument`.
    spec fn obeys_matcher_spec() -> bool;

    /// Whether `input` matches.
    spec fn spec_matches_argument(&self, input: &U) -> bool;

    /// Whether `input` matches.
    fn matches_argument(&self, input: &U) -> (r: bool)
        ensures
            Self::obeys_matcher_spec() ==> r == self.spec_matches_argument(input),
    ;
}

/// A factory for creating argument matchers.
#[derive(Debug)]
pub struct Argument {
    _private: (),
}

impl Argument {
    /// Creates the factory.
    pub fn internal_new() -> (r: Self) {
        Argument { _private: () }
    }

    /// Creates an argument matcher that matches any value.
    pub fn any(&self) -> (r: AnyArgumentMatcher) {
        AnyArgumentMatcher
    }

    /// Creates an argument matcher that matches values using `PartialEq`.
    pub fn partial_eq<T>(&self, value: T) -> (r: PartialEqArgumentMatcher<T>)
        ensures
            r.value == value,
    {
        PartialEqArgumentMatcher { value }
    }

    /// Creates an argument matcher that matches an owned value against
    /// references of itself using `PartialEq`.
    pub fn partial_eq_owned<T>(&self, value: T) -> (r: OwnedPartialEqArgumentMatcher<T>)
        ensures
            r.value == value,
    {
        OwnedPartialEqArgumentMatcher { value }
    }

    /// Creates an argument matcher that matches against `Vec`s and slices
    /// while disregarding the order of the elements.
    pub fn unordered_vec_eq<T>(&self, vec: Vec<T>) -> (r: UnorderedVecArgumentMatcher<T>)
        ensures
            r.0@ == vec@,
    {
        UnorderedVecArgumentMatcher(vec)
    }
}

/// A factory for creating argument matchers, handed to the closures of the
/// generated `expect_*` methods.
#[derive(Debug)]
pub struct ArgumentMatcherFactory {
    _private: (),
}

impl ArgumentMatcherFactory {
    /// Creates the factory.
    pub fn internal_new() -> (r: Self) {
        ArgumentMatcherFactory { _private: () }
    }
}

/// Matches any value.
#[derive(Debug)]
pub struct AnyArgumentMatcher;

impl AnyArgumentMatcher {
    /// How the matcher is shown in messages: `*`.
    pub fn to_display_string(&self) -> (r: String)
        ensures
            r@ == "*"@,
    {
        String::from_str("*")
    }
}

impl<U> ArgumentMatcher<U> for AnyArgumentMatcher {
    open spec fn obeys_matcher_spec() -> bool {
        true
    }

    open spec fn spec_matches_argument(&self, input: &U) -> bool {
        true
    }

    fn matches_argument(&self, input: &U) -> (r: bool) {
        true
    }
}

/// Matches values that are equal to the stored one.
pub struct PartialEqArgumentMatcher<T> {
    /// The value that arguments are compared with.
    pub value: T,
}

impl<T: PartialEq<U>, U> ArgumentMatcher<U> for PartialEqArgumentMatcher<T> {
    open spec fn obeys_matcher_spec() -> bool {
        <T as PartialEqSpec<U>>::obeys_eq_spec()
    }

    open spec fn spec_matches_argument(&self, input: &U) -> bool {
        self.value.eq_spec(input)
    }

    fn matches_argument(&self, input: &U) -> (r: bool)
        ensures
            call_ensures(T::eq, (&self.value, input), r),
    {
        self.value.eq(input)
    }
}

/// Matches references to values that are equal to the stored (owned) one.
pub struct OwnedPartialEqArgumentMatcher<T> {
    /// The value that arguments are compared with.
    pub value: T,
}

impl<'args, T: PartialEq<U>, U> ArgumentMatcher<&'args U> for OwnedPartialEqArgumentMatcher<T> {
    open spec fn obeys_matcher_spec() -> bool {
        <T as PartialEqSpec<U>>::obeys_eq_spec()
    }

    open spec fn spec_matches_argument(&self, input: &&'args U) -> bool {
        self.value.eq_spec(*input)
    }

    fn matches_argument(&self, input: &&'args U) -> (r: bool)
        ensures
            call_ensures(T::eq, (&self.value, *input), r),
    {
        self.value.eq(*input)
    }
}

/// Whether `x` equals some element of `right` (compared as `right[j] == x`).
pub open spec fn found_in<T: PartialEq<U>, U: PartialEq<T>>(x: T, right: Seq<U>) -> bool {
    exists|j: int| 0 <= j < right.len() && #[trigger] right[j].eq_spec(&x)
}

/// Whether every element of `left` equals some element of `right`.
pub open spec fn all_found_in<T: PartialEq<U>, U: PartialEq<T>>(left: Seq<T>, right: Seq<U>) -> bool {
    forall|i: int| 0 <= i < left.len() ==> #[trigger] found_in(left[i], right)
}

/// Whether `actual[j] == expected[i]`.
pub open spec fn pairs_with<T: PartialEq<U>, U: PartialEq<T>>(
    expected: Seq<T>,
    actual: Seq<U>,
    i: int,
    j: int,
) -> bool {
    actual[j].eq_spec(&expected[i])
}

/// Whether `p` pairs each element of `expected` with an equal element of
/// `actual`, one to one: `p` is a bijection between the positions of the two
/// sequences, with inverse `q`.
pub open spec fn is_pairing<T: PartialEq<U>, U: PartialEq<T>>(
    expected: Seq<T>,
    actual: Seq<U>,
    p: Seq<int>,
    q: Seq<int>,
) -> bool {
    &&& expected.len() == actual.len()
    &&& p.len() == expected.len()
    &&& q.len() == actual.len()
    &&& forall|i: int| 0 <= i < p.len() ==> 0 <= #[trigger] p[i] < q.len() && q[p[i]] == i
    &&& forall|j: int| 0 <= j < q.len() ==> 0 <= #[trigger] q[j] < p.len() && p[q[j]] == j
    &&& forall|i: int| 0 <= i < p.len() ==> #[trigger] pairs_with(expected, actual, i, p[i])
}

/// Whether two sequences hold the same elements in any order, counting
/// repeated elements: `actual` is a reordering of `expected`.
pub open spec fn unordered_eq<T: PartialEq<U>, U: PartialEq<T>>(
    expected: Seq<T>,
    actual: Seq<U>,
) -> bool {
    exists|p: Seq<int>, q: Seq<int>| #[trigger] is_pairing(expected, actual, p, q)
}

/// Whether equality between the elements behaves as an equivalence does:
/// elements that are equal to a common element are equal to the same
/// elements. This holds whenever `==` is symmetric and transitive.
pub open spec fn equality_is_consistent<T: PartialEq<U>, U: PartialEq<T>>(
    expected: Seq<T>,
    actual: Seq<U>,
) -> bool {
    forall|i1: int, i2: int, j1: int, j2: int|
        #![trigger pairs_with(expected, actual, i1, j1), pairs_with(expected, actual, i2, j2)]
        0 <= i1 < expected.len() && 0 <= i2 < expected.len() && 0 <= j1 < actual.len() && 0 <= j2
            < actual.len() && pairs_with(expected, actual, i1, j1) && pairs_with(
            expected,
            actual,
            i2,
            j1,
        ) && pairs_with(expected, actual, i1, j2) ==> pairs_with(expected, actual, i2, j2)
}

/// The number of `true` entries.
pub open spec fn count_true(s: Seq<bool>) -> nat
    decreases s.len(),
{
    if s.len() == 0 {
        0
    } else {
        count_true(s.drop_last()) + if s.last() {
            1nat
        } else {
            0nat
        }
    }
}

/// Setting an entry that was `false` counts one more `true`.
proof fn lemma_count_true_update(s: Seq<bool>, j: int)
    requires
        0 <= j < s.len(),
        !s[j],
    ensures
        count_true(s.update(j, true)) == count_true(s) + 1,
    decreases s.len(),
{
    let t = s.update(j, true);
    if j < s.len() - 1 {
        lemma_count_true_update(s.drop_last(), j);
        assert(t.drop_last() =~= s.drop_last().update(j, true));
    } else {
        assert(t.drop_last() =~= s.drop_last());
    }
}

/// A sequence with as many `true` entries as entries holds only `true`.
proof fn lemma_count_true_full(s: Seq<bool>)
    requires
        count_true(s) >= s.len(),
    ensures
        forall|j: int| 0 <= j < s.len() ==> #[trigger] s[j],
    decreases s.len(),
{
    if s.len() > 0 {
        lemma_count_true_bound(s.drop_last());
        lemma_count_true_full(s.drop_last());
        assert forall|j: int| 0 <= j < s.len() implies #[trigger] s[j] by {
            if j < s.len() - 1 {
                assert(s.drop_last()[j] == s[j]);
            }
        }
    }
}

/// There are at most as many `true` entries as entries.
proof fn lemma_count_true_bound(s: Seq<bool>)
    ensures
        count_true(s) <= s.len(),
    decreases s.len(),
{
    if s.len() > 0 {
        lemma_count_true_bound(s.drop_last());
    }
}

/// A pairing that agrees with the greedy choices `p` so far can be changed to
/// agree also with the next choice `j`, when equality is consistent.
proof fn lemma_extend_pairing<T: PartialEq<U>, U: PartialEq<T>>(
    expected: Seq<T>,
    actual: Seq<U>,
    p: Seq<int>,
    used: Seq<bool>,
    j: int,
    big_p: Seq<int>,
    big_q: Seq<int>,
)
    requires
        is_pairing(expected, actual, big_p, big_q),
        equality_is_consistent(expected, actual),
        p.len() < expected.len(),
        used.len() == actual.len(),
        forall|k: int| 0 <= k < p.len() ==> big_p[k] == p[k],
        forall|k: int| 0 <= k < p.len() ==> 0 <= p[k] < used.len() && #[trigger] used[p[k]],
        0 <= j < actual.len(),
        !used[j],
        pairs_with(expected, actual, p.len() as int, j),
    ensures
        exists|p2: Seq<int>, q2: Seq<int>|
            #[trigger] is_pairing(expected, actual, p2, q2) && forall|k: int|
                0 <= k <= p.len() ==> p2[k] == p.push(j)[k],
{
    let i = p.len() as int;
    let n = expected.len() as int;
    let j2 = big_p[i];
    if j2 == j {
        assert(is_pairing(expected, actual, big_p, big_q) && forall|k: int|
            0 <= k <= p.len() ==> big_p[k] == p.push(j)[k]);
    } else {
        let i2 = big_q[j];
        assert(big_p[i2] == j);
        assert(i2 != i);
        if i2 < i {
            assert(used[p[i2]]);
        }
        assert(i2 > i);
        assert(pairs_with(expected, actual, i2, big_p[i2]));
        assert(pairs_with(expected, actual, i, big_p[i]));
        assert(pairs_with(expected, actual, i2, j2));
        let p2 = big_p.update(i, j).update(i2, j2);
        let q2 = big_q.update(j, i).update(j2, i2);
        assert(big_q[j2] == i);
        assert forall|k: int| 0 <= k < p2.len() implies #[trigger] pairs_with(
            expected,
            actual,
            k,
            p2[k],
        ) by {
            if k != i && k != i2 {
                assert(pairs_with(expected, actual, k, big_p[k]));
            }
        }
        assert forall|k: int| 0 <= k < p2.len() implies 0 <= #[trigger] p2[k] < q2.len() && q2[p2[k]]
            == k by {
            if k != i && k != i2 {
                assert(big_q[big_p[k]] == k);
            }
        }
        assert forall|m: int| 0 <= m < q2.len() implies 0 <= #[trigger] q2[m] < p2.len() && p2[q2[m]]
            == m by {
            if m != j && m != j2 {
                assert(big_p[big_q[m]] == m);
            }
        }
        assert(is_pairing(expected, actual, p2, q2) && forall|k: int|
            0 <= k <= p.len() ==> p2[k] == p.push(j)[k]);
    }
}

/// Comparing in any order does not depend on which side is the expected one,
/// when equality between the two element types is symmetric.
pub proof fn lemma_unordered_eq_is_symmetric<T: PartialEq<U>, U: PartialEq<T>>(
    expected: Seq<T>,
    actual: Seq<U>,
)
    requires
        forall|i: int, j: int|
            0 <= i < expected.len() && 0 <= j < actual.len() ==> (#[trigger] actual[j].eq_spec(
                &expected[i],
            ) <==> #[trigger] expected[i].eq_spec(&actual[j])),
    ensures
        unordered_eq(expected, actual) == unordered_eq(actual, expected),
{
    if unordered_eq(expected, actual) {
        let (p, q) = choose|p: Seq<int>, q: Seq<int>| #[trigger] is_pairing(expected, actual, p, q);
        assert forall|j: int| 0 <= j < q.len() implies #[trigger] pairs_with(actual, expected, j, q[j]) by {
            assert(pairs_with(expected, actual, q[j], p[q[j]]));
        }
        assert(is_pairing(actual, expected, q, p));
    }
    if unordered_eq(actual, expected) {
        let (p, q) = choose|p: Seq<int>, q: Seq<int>| #[trigger] is_pairing(actual, expected, p, q);
        assert forall|i: int| 0 <= i < q.len() implies #[trigger] pairs_with(expected, actual, i, q[i]) by {
            assert(pairs_with(actual, expected, q[i], p[q[i]]));
        }
        assert(is_pairing(expected, actual, q, p));
    }
}

/// Whether `==` between `U` and `T` is consistent on all values: elements
/// equal to a common element are equal to the same elements (true of any
/// symmetric and transitive equality).
pub open spec fn equality_is_an_equivalence<T: PartialEq<U>, U: PartialEq<T>>() -> bool {
    forall|t1: T, t2: T, u1: U, u2: U|
        #![trigger u1.eq_spec(&t1), u2.eq_spec(&t2)]
        u1.eq_spec(&t1) && u1.eq_spec(&t2) && u2.eq_spec(&t1) ==> u2.eq_spec(&t2)
}

/// An equality that is consistent on all values is consistent on any two sequences.
pub proof fn lemma_equivalence_is_consistent<T: PartialEq<U>, U: PartialEq<T>>(
    expected: Seq<T>,
    actual: Seq<U>,
)
    requires
        equality_is_an_equivalence::<T, U>(),
    ensures
        equality_is_consistent(expected, actual),
{
    assert forall|i1: int, i2: int, j1: int, j2: int|
        #![trigger pairs_with(expected, actual, i1, j1), pairs_with(expected, actual, i2, j2)]
        0 <= i1 < expected.len() && 0 <= i2 < expected.len() && 0 <= j1 < actual.len() && 0 <= j2
            < actual.len() && pairs_with(expected, actual, i1, j1) && pairs_with(
            expected,
            actual,
            i2,
            j1,
        ) && pairs_with(expected, actual, i1, j2) implies pairs_with(expected, actual, i2, j2) by {
        assert(actual[j1].eq_spec(&expected[i1]));
        assert(actual[j2].eq_spec(&expected[i2]) == pairs_with(expected, actual, i2, j2));
    }
}

/// Matches `Vec`s and slices that hold the stored elements in any order,
/// each as often as it is stored.
pub struct UnorderedVecArgumentMatcher<T>(pub Vec<T>);

impl<T> UnorderedVecArgumentMatcher<T> {
    /// How the matcher is shown in messages, given how the stored elements
    /// show themselves: `<elements> in any order`.
    pub fn describe(&self, elements: &str) -> (r: String)
        ensures
            r@ == elements@ + " in any order"@,
    {
        let mut s = String::from_str(elements);
        s.append(" in any order");
        s
    }
}

impl<T: PartialEq<U>, U: PartialEq<T>> ArgumentMatcher<Vec<U>> for UnorderedVecArgumentMatcher<T> {
    open spec fn obeys_matcher_spec() -> bool {
        <U as PartialEqSpec<T>>::obeys_eq_spec() && equality_is_an_equivalence::<T, U>()
    }

    open spec fn spec_matches_argument(&self, input: &Vec<U>) -> bool {
        unordered_eq(self.0@, input@)
    }

    fn matches_argument(&self, input: &Vec<U>) -> (r: bool) {
        proof {
            if equality_is_an_equivalence::<T, U>() {
                lemma_equivalence_is_consistent(self.0@, input@);
            }
        }
        compare_slices_unordered(self.0.as_slice(), input.as_slice())
    }
}

impl<'a, T: PartialEq<U>, U: PartialEq<T>> ArgumentMatcher<&'a [U]> for UnorderedVecArgumentMatcher<
    T,
> {
    open spec fn obeys_matcher_spec() -> bool {
        <U as PartialEqSpec<T>>::obeys_eq_spec() && equality_is_an_equivalence::<T, U>()
    }

    open spec fn spec_matches_argument(&self, input: &&'a [U]) -> bool {
        unordered_eq(self.0@, input@)
    }

    fn matches_argument(&self, input: &&'a [U]) -> (r: bool) {
        proof {
            if equality_is_an_equivalence::<T, U>() {
                lemma_equivalence_is_consistent(self.0@, input@);
            }
        }
        compare_slices_unordered(self.0.as_slice(), *input)
    }
}

impl<'a, T: PartialEq<U>, U: PartialEq<T>> ArgumentMatcher<&'a mut [U]> for UnorderedVecArgumentMatcher<
    T,
> {
    open spec fn obeys_matcher_spec() -> bool {
        <U as PartialEqSpec<T>>::obeys_eq_spec() && equality_is_an_equivalence::<T, U>()
    }

    open spec fn spec_matches_argument(&self, input: &&'a mut [U]) -> bool {
        unordered_eq(self.0@, input@)
    }

    fn matches_argument(&self, input: &&'a mut [U]) -> (r: bool) {
        proof {
            if equality_is_an_equivalence::<T, U>() {
                lemma_equivalence_is_consistent(self.0@, input@);
            }
        }
        compare_slices_unordered(self.0.as_slice(), &**input)
    }
}

/// Compares two slices while disregarding the order of their elements: each
/// element of `expected` is paired with the first equal element of `actual`
/// that is not paired yet. The slices compare equal when every element finds
/// a partner, so that repeated elements must be repeated as often on both sides.
pub fn compare_slices_unordered<T: PartialEq<U>, U: PartialEq<T>>(
    expected: &[T],
    actual: &[U],
) -> (r: bool)
    ensures
        <U as PartialEqSpec<T>>::obeys_eq_spec() ==> (r ==> unordered_eq(expected@, actual@)),
        <U as PartialEqSpec<T>>::obeys_eq_spec() && equality_is_consistent(expected@, actual@) ==> (
        unordered_eq(expected@, actual@) ==> r),
        expected@.len() != actual@.len() ==> !r,
{
    let n = expected.len();
    if n != actual.len() {
        proof {
            assert forall|p: Seq<int>, q: Seq<int>| !#[trigger] is_pairing(expected@, actual@, p, q) by {}
        }
        return false;
    }
    let ghost e = expected@;
    let ghost a = actual@;
    let ghost obeys = <U as PartialEqSpec<T>>::obeys_eq_spec();
    let ghost complete = obeys && equality_is_consistent(e, a) && unordered_eq(e, a);
    let mut used: Vec<bool> = Vec::new();
    let mut k: usize = 0;
    while k < n
        invariant
            k <= n,
            used@.len() == k,
            forall|m: int| 0 <= m < k ==> !#[trigger] used@[m],
        decreases n - k,
    {
        used.push(false);
        k = k + 1;
    }
    proof {
        assert(count_true(used@) == 0) by {
            lemma_count_true_bound(used@);
            lemma_count_true_zero(used@);
        }
    }
    let ghost mut p: Seq<int> = Seq::empty();
    let ghost mut q: Seq<int> = Seq::new(n as nat, |m: int| 0int);
    let mut i: usize = 0;
    while i < n
        invariant
            n == e.len(),
            n == a.len(),
            e == expected@,
            a == actual@,
            obeys == <U as PartialEqSpec<T>>::obeys_eq_spec(),
            complete == (obeys && equality_is_consistent(e, a) && unordered_eq(e, a)),
            i <= n,
            used@.len() == n,
            p.len() == i,
            q.len() == n,
            count_true(used@) == i,
            forall|m: int| 0 <= m < i ==> 0 <= #[trigger] p[m] < n && used@[p[m]] && q[p[m]] == m,
            forall|m: int| 0 <= m < n && #[trigger] used@[m] ==> 0 <= q[m] < i && p[q[m]] == m,
            obeys ==> forall|m: int| 0 <= m < i ==> #[trigger] pairs_with(e, a, m, p[m]),
            complete ==> exists|p2: Seq<int>, q2: Seq<int>|
                #[trigger] is_pairing(e, a, p2, q2) && forall|m: int| 0 <= m < i ==> p2[m] == p[m],
        decreases n - i,
    {
        let mut j: usize = 0;
        let mut chosen: usize = n;
        while j < n && chosen == n
            invariant
                n == e.len(),
                n == a.len(),
                e == expected@,
                a == actual@,
                obeys == <U as PartialEqSpec<T>>::obeys_eq_spec(),
                i < n,
                j <= n,
                used@.len() == n,
                chosen <= n,
                chosen < n ==> !used@[chosen as int] && (obeys ==> pairs_with(e, a, i as int, chosen as int)),
                chosen == n ==> (obeys ==> forall|m: int|
                    0 <= m < j ==> used@[m] || !#[trigger] pairs_with(e, a, i as int, m)),
            decreases n - j + if chosen == n {
                1int
            } else {
                0int
            },
        {
            if !used[j] && actual[j].eq(&expected[i]) {
                chosen = j;
            } else {
                j = j + 1;
            }
        }
        if chosen == n {
            proof {
                if complete {
                    let (p2, q2) = choose|p2: Seq<int>, q2: Seq<int>|
                        #[trigger] is_pairing(e, a, p2, q2) && forall|m: int|
                            0 <= m < i ==> p2[m] == p[m];
                    let target = p2[i as int];
                    assert(pairs_with(e, a, i as int, p2[i as int]));
                    if used@[target] {
                        let m = q[target];
                        assert(p2[m] == p[m]);
                        assert(q2[p2[m]] == m);
                    }
                    assert(false);
                }
            }
            return false;
        }
        proof {
            if complete {
                let (p2, q2) = choose|p2: Seq<int>, q2: Seq<int>|
                    #[trigger] is_pairing(e, a, p2, q2) && forall|m: int| 0 <= m < i ==> p2[m] == p[m];
                lemma_extend_pairing(e, a, p, used@, chosen as int, p2, q2);
            }
            lemma_count_true_update(used@, chosen as int);
            p = p.push(chosen as int);
            q = q.update(chosen as int, i as int);
        }
        used.set(chosen, true);
        i = i + 1;
    }
    proof {
        lemma_count_true_full(used@);
        if obeys {
            assert forall|m: int| 0 <= m < n implies 0 <= #[trigger] q[m] < p.len() && p[q[m]] == m by {
                assert(used@[m]);
            }
            assert forall|m: int| 0 <= m < p.len() implies 0 <= #[trigger] p[m] < q.len() && q[p[m]]
                == m by {}
            assert(is_pairing(e, a, p, q));
        }
    }
    true
}

/// A sequence with no `true` entry counts none.
proof fn lemma_count_true_zero(s: Seq<bool>)
    requires
        forall|j: int| 0 <= j < s.len() ==> !#[trigger] s[j],
    ensures
        count_true(s) == 0,
    decreases s.len(),
{
    if s.len() > 0 {
        assert forall|j: int| 0 <= j < s.drop_last().len() implies !#[trigger] s.drop_last()[j] by {
            assert(s.drop_last()[j] == s[j]);
        }
        lemma_count_true_zero(s.drop_last());
    }
}

/// Checks that every element of `left` exists in `right`.
pub fn all_slice_elements_are_found_in_other<T: PartialEq<U>, U: PartialEq<T>>(
    left: &[T],
    right: &[U],
) -> (r: bool)
    ensures
        <U as PartialEqSpec<T>>::obeys_eq_spec() ==> r == all_found_in(left@, right@),
{
    let mut i: usize = 0;
    while i < left.len()
        invariant
            i <= left@.len(),
            <U as PartialEqSpec<T>>::obeys_eq_spec() ==> forall|k: int|
                0 <= k < i ==> #[trigger] found_in(left@[k], right@),
        decreases left@.len() - i,
    {
        let mut found = false;
        let mut j: usize = 0;
        while j < right.len()
            invariant
                i < left@.len(),
                j <= right@.len(),
                <U as PartialEqSpec<T>>::obeys_eq_spec() ==> forall|k: int|
                    0 <= k < i ==> #[trigger] found_in(left@[k], right@),
                <U as PartialEqSpec<T>>::obeys_eq_spec() ==> (found <==> exists|m: int|
                    0 <= m < j && #[trigger] right@[m].eq_spec(&left@[i as int])),
            decreases right@.len() - j,
        {
            if right[j].eq(&left[i]) {
                found = true;
            }
            j = j + 1;
        }
        if !found {
            assert(<U as PartialEqSpec<T>>::obeys_eq_spec() ==> !found_in(left@[i as int], right@));
            return false;
        }
        assert(<U as PartialEqSpec<T>>::obeys_eq_spec() ==> found_in(left@[i as int], right@));
        i = i + 1;
    }
    true
}

} // verus!
