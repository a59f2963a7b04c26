//! The values that an expected call hands back when it is called.
use vstd::prelude::*;

verus! {

/// Produces the return value of a call from the call's arguments.
///
/// Implemented by [`Cloned`] and by [`Closure`] (`returns_with`).
/// `spec_accepts` says for which arguments a value can be produced, and
/// `spec_generates` relates the arguments to the values that
/// `generate_return_value` may hand back.
pub trait ReturnValueGenerator<Args, R> {
    /// Whether a value can be produced for `input`.
    spec fn spec_accepts(&self, input: Args) -> bool;

    /// Whether `output` may be returned for `input`.
    spec fn spec_generates(&self, input: Args, output: R) -> bool;

    /// Produces a return value for a call with the given arguments.
    fn generate_return_value(&self, input: Args) -> (r: R)
        requires
            self.spec_accepts(input),
        ensures
            self.spec_generates(input, r),
    ;
}

/// Returns a clone of a stored value on every call.
pub struct Cloned<R>(pub R);

impl<Args, R: Clone> ReturnValueGenerator<Args, R> for Cloned<R> {
    open spec fn spec_accepts(&self, input: Args) -> bool {
        true
    }

    open spec fn spec_generates(&self, input: Args, output: R) -> bool {
        cloned::<R>(self.0, output)
    }

    fn generate_return_value(&self, input: Args) -> (r: R) {
        self.0.clone()
    }
}

/// Calls a closure with the arguments of each call (`returns_with`); the
/// closure's own `requires` and `ensures` say what it accepts and produces.
pub struct Closure<F>(pub F);

impl<Args, R, F: Fn(Args) -> R> ReturnValueGenerator<Args, R> for Closure<F> {
    open spec fn spec_accepts(&self, input: Args) -> bool {
        call_requires(self.0, (input,))
    }

    open spec fn spec_generates(&self, input: Args, output: R) -> bool {
        call_ensures(self.0, (input,), output)
    }

    fn generate_return_value(&self, input: Args) -> (r: R) {
        (self.0)(input)
    }
}

/// Returns a stored value once; it is gone afterwards.
pub struct Once<R>(pub Option<R>);

impl<R> Once<R> {
    /// A value that can be returned once.
    pub fn new(value: R) -> (r: Self)
        ensures
            r.0 == Some(value),
    {
        Once(Some(value))
    }
}

/// Makes the mocked method panic, with an optional message.
pub struct Panic(pub Option<&'static str>);

impl Panic {
    /// How the return value is shown: `panic!(<message>)`, or `panic!(None)`
    /// without a message.
    pub open spec fn spec_text(&self) -> Seq<char> {
        "panic!("@ + match self.0 {
            Some(message) => message@,
            None => "None"@,
        } + ")"@
    }

    /// How the return value is shown in the description of an expected call.
    pub fn to_display_string(&self) -> (r: String)
        ensures
            r@ == self.spec_text(),
    {
        let mut s = String::from_str("panic!(");
        match self.0 {
            Some(message) => s.append(message),
            None => s.append("None"),
        }
        s.append(")");
        s
    }
}

/// What an expected call does when it is called.
pub enum ReturnValue<R, G> {
    /// Hands out a value once.
    Once(Once<R>),
    /// Panics.
    Panic(Panic),
    /// Asks a generator for the value (a clone of a stored value, or a closure).
    Generator(G),
}

impl<R, G> ReturnValue<R, G> {
    /// Whether this return value can serve more than one call.
    pub open spec fn spec_can_return_more_than_once(&self) -> bool {
        !(self is Once)
    }

    /// Whether this return value can serve more than one call:
    /// everything but a value that is returned once.
    pub fn can_return_more_than_once(&self) -> (r: bool)
        ensures
            r == self.spec_can_return_more_than_once(),
    {
        match self {
            ReturnValue::Once(_) => false,
            _ => true,
        }
    }
}

/// Why a call that was accepted could not produce a value.
#[derive(Debug, Clone, Copy)]
pub enum ReturnValueError {
    /// No return value was specified for the expected call.
    NotSpecified,
    /// The value was to be returned once and has already been returned.
    AlreadyReturned,
    /// The expected call was configured to panic, with this message.
    Panicked(Option<&'static str>),
}

impl ReturnValueError {
    /// The message with which a mock panics on this error; a panic without
    /// a message reads `explicit panic`.
    pub open spec fn spec_message(&self) -> Seq<char> {
        match self {
            ReturnValueError::NotSpecified => "No return value was specified"@,
            ReturnValueError::AlreadyReturned => "This value was already returned"@,
            ReturnValueError::Panicked(Some(message)) => message@,
            ReturnValueError::Panicked(None) => "explicit panic"@,
        }
    }

    /// The message with which a mock panics on this error.
    pub fn message(&self) -> (r: String)
        ensures
            r@ == self.spec_message(),
    {
        match self {
            ReturnValueError::NotSpecified => String::from_str("No return value was specified"),
            ReturnValueError::AlreadyReturned => String::from_str("This value was already returned"),
            ReturnValueError::Panicked(Some(message)) => String::from_str(message),
            ReturnValueError::Panicked(None) => String::from_str("explicit panic"),
        }
    }
}

/// Whether a call can produce a value from the stored return value: a
/// generator, or a value returned once that is still there. Otherwise the
/// mocked method panics (see `spec_refusal`).
pub open spec fn spec_produces_value<R, G>(rv: Option<ReturnValue<R, G>>) -> bool {
    match rv {
        Some(ReturnValue::Generator(_)) => true,
        Some(ReturnValue::Once(once)) => once.0 is Some,
        _ => false,
    }
}

/// Whether the stored return value can answer a call with `input`: a
/// generator must accept it.
pub open spec fn spec_accepts_input<Args, R, G: ReturnValueGenerator<Args, R>>(
    rv: Option<ReturnValue<R, G>>,
    input: Args,
) -> bool {
    match rv {
        Some(ReturnValue::Generator(g)) => g.spec_accepts(input),
        _ => true,
    }
}

/// Why a call cannot produce a value from the stored return value, if it cannot.
pub open spec fn spec_refusal<R, G>(rv: Option<ReturnValue<R, G>>) -> Option<ReturnValueError> {
    match rv {
        None => Some(ReturnValueError::NotSpecified),
        Some(ReturnValue::Once(once)) => if once.0 is Some {
            None
        } else {
            Some(ReturnValueError::AlreadyReturned)
        },
        Some(ReturnValue::Panic(p)) => Some(ReturnValueError::Panicked(p.0)),
        Some(ReturnValue::Generator(_)) => None,
    }
}

/// Why a call cannot produce a value from the stored return value: the
/// message with which the mocked method panics instead.
pub fn refusal<R, G>(rv: &Option<ReturnValue<R, G>>) -> (r: Option<ReturnValueError>)
    ensures
        r == spec_refusal(*rv),
        r is None <==> spec_produces_value(*rv),
{
    match rv {
        None => Some(ReturnValueError::NotSpecified),
        Some(ReturnValue::Once(once)) => match &once.0 {
            Some(_) => None,
            None => Some(ReturnValueError::AlreadyReturned),
        },
        Some(ReturnValue::Panic(p)) => Some(ReturnValueError::Panicked(p.0)),
        Some(ReturnValue::Generator(_)) => None,
    }
}

/// What a call with return value `rv` and arguments `input` yields: `out` is
/// the value, `next` the return value left for later calls. A value returned
/// once is handed out and gone; a generator produces a value for the arguments
/// and stays.
pub open spec fn spec_return_outcome<Args, R, G: ReturnValueGenerator<Args, R>>(
    rv: Option<ReturnValue<R, G>>,
    input: Args,
    out: R,
    next: Option<ReturnValue<R, G>>,
) -> bool {
    match rv {
        Some(ReturnValue::Once(once)) => once.0 == Some(out) && next == Some(
            ReturnValue::<R, G>::Once(Once(None)),
        ),
        Some(ReturnValue::Generator(g)) => g.spec_generates(input, out) && next == rv,
        _ => false,
    }
}

/// Produces the value of a call from the stored return value, leaving in
/// `rv` what later calls will see.
pub fn generate<Args, R, G: ReturnValueGenerator<Args, R>>(
    rv: &mut Option<ReturnValue<R, G>>,
    input: Args,
) -> (out: R)
    requires
        spec_produces_value(*old(rv)),
        spec_accepts_input(*old(rv), input),
    ensures
        spec_return_outcome(*old(rv), input, out, *final(rv)),
{
    match rv {
        Some(ReturnValue::Once(once)) => match once.0.take() {
            Some(v) => v,
            None => {
                proof {
                    assert(false);
                }
                loop
                    invariant
                        false,
                    decreases 0nat,
                {
                }
            },
        },
        Some(ReturnValue::Generator(g)) => g.generate_return_value(input),
        _ => {
            proof {
                assert(false);
            }
            loop
                invariant
                    false,
                decreases 0nat,
            {
            }
        },
    }
}

/// A value that is returned once is handed out by the first call; afterwards
/// no call can produce a value, and the mock reports that it was already returned.
pub proof fn lemma_once_returns_once<Args, R, G: ReturnValueGenerator<Args, R>>(
    value: R,
    first: Args,
    out: R,
    next: Option<ReturnValue<R, G>>,
)
    requires
        spec_return_outcome(Some(ReturnValue::<R, G>::Once(Once(Some(value)))), first, out, next),
    ensures
        out == value,
        !spec_produces_value(next),
        spec_refusal(next) == Some(ReturnValueError::AlreadyReturned),
{
}

/// A value configured with `returns_value` is cloned for every call, and stays
/// configured for the calls after it.
pub proof fn lemma_cloned_value_is_returned_on_every_call<Args, R: Clone>(
    value: R,
    input: Args,
    out: R,
    next: Option<ReturnValue<R, Cloned<R>>>,
)
    requires
        spec_return_outcome(
            Some(ReturnValue::<R, Cloned<R>>::Generator(Cloned(value))),
            input,
            out,
            next,
        ),
    ensures
        cloned::<R>(value, out),
        next == Some(ReturnValue::<R, Cloned<R>>::Generator(Cloned(value))),
        spec_produces_value(next),
{
}

/// A generator (such as a closure given to `returns_with`) produces each
/// call's value from that call's arguments, and stays configured.
pub proof fn lemma_generator_answers_each_call<Args, R, G: ReturnValueGenerator<Args, R>>(
    generator: G,
    input: Args,
    out: R,
    next: Option<ReturnValue<R, G>>,
)
    requires
        spec_return_outcome(Some(ReturnValue::<R, G>::Generator(generator)), input, out, next),
    ensures
        generator.spec_generates(input, out),
        next == Some(ReturnValue::<R, G>::Generator(generator)),
{
}

} // verus!
