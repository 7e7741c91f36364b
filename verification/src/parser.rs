//! Parsers as values: anything that maps an input to an outcome, and the
//! alternation of two of them.
use crate::result::Result;
use vstd::prelude::*;

verus! {

/// What a parser value returns. It is a [`Result`] whose failure says why
/// the parser does not apply.
#[derive(Debug, PartialEq, Eq)]
pub enum Outcome<T, I, E, F> {
    /// The parser produced a value; the second field is the input that is left.
    Success(T, I),
    /// The parser does not apply here, for the reason given. Another parser
    /// may be tried on the same input.
    Failure(E),
    /// The input cannot be parsed by any parser. No alternative is to be tried.
    Fatal(F),
}

impl<T, I, E, F> Outcome<T, I, E, F> {
    /// The same outcome as a [`Result`], without the reason of a failure.
    pub fn norm(self) -> (r: Result<T, I, F>)
        ensures
            r == match self {
                Outcome::Success(output, rest) => Result::<T, I, F>::Success(output, rest),
                Outcome::Failure(_) => Result::<T, I, F>::Failure,
                Outcome::Fatal(e) => Result::<T, I, F>::Fatal(e),
            },
    {
        match self {
            Outcome::Success(output, rest) => Result::Success(output, rest),
            Outcome::Failure(_) => Result::Failure,
            Outcome::Fatal(e) => Result::Fatal(e),
        }
    }
}

/// A parser of inputs of type `I`: a value that can be applied to an input,
/// any number of times.
///
/// Two predicates are the contract of `parse`: `accepts` says to which inputs
/// the parser may be applied, `gives` which outcomes it may have on an input.
pub trait Parser<I>: Sized {
    /// The value of a success.
    type Output;

    /// The reason of a failure.
    type Error;

    /// The fatal error.
    type Fatal;

    /// Whether the parser may be applied to `input`.
    spec fn accepts(&self, input: I) -> bool;

    /// Whether `out` is an outcome that the parser may have on `input`.
    spec fn gives(
        &self,
        input: I,
        out: Outcome<Self::Output, I, Self::Error, Self::Fatal>,
    ) -> bool;

    /// Applies the parser to `input`.
    fn parse(&self, input: I) -> (out: Outcome<Self::Output, I, Self::Error, Self::Fatal>)
        requires
            self.accepts(input),
        ensures
            self.gives(input, out),
    ;
}

/// Every function from an input to an outcome is a parser. It accepts what
/// the function requires and gives what the function ensures.
impl<I, T, E, F, P: Fn(I) -> Outcome<T, I, E, F>> Parser<I> for P {
    type Output = T;

    type Error = E;

    type Fatal = F;

    open spec fn accepts(&self, input: I) -> bool {
        self.requires((input,))
    }

    open spec fn gives(&self, input: I, out: Outcome<T, I, E, F>) -> bool {
        self.ensures((input,), out)
    }

    fn parse(&self, input: I) -> (out: Outcome<T, I, E, F>) {
        self(input)
    }
}

/// A function as a parser accepts exactly what the function requires, and
/// gives exactly what the function ensures. A proof about a given function
/// calls this to bring in the two definitions, which Verus does not unfold
/// for the type of a closure.
pub proof fn function_is_parser<I, T, E, F, P: Fn(I) -> Outcome<T, I, E, F>>(
    f: P,
    input: I,
    out: Outcome<T, I, E, F>,
)
    ensures
        f.accepts(input) == f.requires((input,)),
        f.gives(input, out) == f.ensures((input,), out),
{
}

/// The alternation of two parsers: `first`, and where `first` fails, `second`
/// on the same input.
pub struct Or<A, B> {
    pub first: A,
    pub second: B,
}

impl<I: Copy, A: Parser<I>, B: Parser<I, Output = A::Output, Fatal = A::Fatal>> Parser<I> for Or<
    A,
    B,
> {
    type Output = A::Output;

    /// The reasons for which both parsers failed, that of `first` before that
    /// of `second`.
    type Error = (A::Error, B::Error);

    type Fatal = A::Fatal;

    /// `first` accepts the input, and so does `second` where `first` may fail
    /// on it.
    open spec fn accepts(&self, input: I) -> bool {
        &&& self.first.accepts(input)
        &&& (exists|e: A::Error| #[trigger] self.first.gives(input, Outcome::Failure(e)))
            ==> self.second.accepts(input)
    }

    /// A success or a fatal error is one of `first`, or one of `second` after
    /// a failure of `first`. A failure holds a reason of each.
    open spec fn gives(
        &self,
        input: I,
        out: Outcome<A::Output, I, (A::Error, B::Error), A::Fatal>,
    ) -> bool {
        match out {
            Outcome::Success(value, rest) => {
                ||| self.first.gives(input, Outcome::Success(value, rest))
                ||| (exists|e: A::Error| #[trigger] self.first.gives(input, Outcome::Failure(e)))
                    && self.second.gives(input, Outcome::Success(value, rest))
            },
            Outcome::Failure((e1, e2)) => {
                &&& self.first.gives(input, Outcome::Failure(e1))
                &&& self.second.gives(input, Outcome::Failure(e2))
            },
            Outcome::Fatal(f) => {
                ||| self.first.gives(input, Outcome::Fatal(f))
                ||| (exists|e: A::Error| #[trigger] self.first.gives(input, Outcome::Failure(e)))
                    && self.second.gives(input, Outcome::Fatal(f))
            },
        }
    }

    fn parse(&self, input: I) -> (out: Outcome<A::Output, I, (A::Error, B::Error), A::Fatal>) {
        match self.first.parse(input) {
            Outcome::Success(value, rest) => Outcome::Success(value, rest),
            Outcome::Failure(e1) => match self.second.parse(input) {
                Outcome::Success(value, rest) => Outcome::Success(value, rest),
                Outcome::Failure(e2) => Outcome::Failure((e1, e2)),
                Outcome::Fatal(f) => Outcome::Fatal(f),
            },
            Outcome::Fatal(f) => Outcome::Fatal(f),
        }
    }
}

/// Alternation, as a method of every value. The alternation of two values is
/// a parser where both are parsers of the same inputs, with the same output
/// and the same fatal error.
pub trait Alternative: Sized {
    /// The parser that applies `self` and, where `self` fails, `other` to the
    /// same input.
    fn or<B>(self, other: B) -> (r: Or<Self, B>)
        ensures
            r.first == self,
            r.second == other,
    ;
}

impl<A> Alternative for A {
    fn or<B>(self, other: B) -> (r: Or<A, B>) {
        Or { first: self, second: other }
    }
}

/// Where both parsers can only fail on `input`, their alternation fails, and
/// its failure holds a reason for which `first` failed and a reason for
/// which `second` failed: none of the two is lost.
pub proof fn or_keeps_both_errors<
    I: Copy,
    A: Parser<I>,
    B: Parser<I, Output = A::Output, Fatal = A::Fatal>,
>(parser: Or<A, B>, input: I, out: Outcome<A::Output, I, (A::Error, B::Error), A::Fatal>)
    requires
        forall|o: Outcome<A::Output, I, A::Error, A::Fatal>| #[trigger]
            parser.first.gives(input, o) ==> o is Failure,
        forall|o: Outcome<A::Output, I, B::Error, A::Fatal>| #[trigger]
            parser.second.gives(input, o) ==> o is Failure,
        parser.gives(input, out),
    ensures
        out matches Outcome::Failure((e1, e2)) && parser.first.gives(input, Outcome::Failure(e1))
            && parser.second.gives(input, Outcome::Failure(e2)),
{
}

/// Where `first` cannot fail on `input`, the alternation asks nothing of
/// `second` and gives nothing but what `first` gives: `second` is not applied.
pub proof fn or_skips_second<
    I: Copy,
    A: Parser<I>,
    B: Parser<I, Output = A::Output, Fatal = A::Fatal>,
>(parser: Or<A, B>, input: I, out: Outcome<A::Output, I, (A::Error, B::Error), A::Fatal>)
    requires
        forall|e: A::Error| !#[trigger] parser.first.gives(input, Outcome::Failure(e)),
    ensures
        parser.first.accepts(input) ==> parser.accepts(input),
        parser.gives(input, out) ==> match out {
            Outcome::Success(value, rest) => parser.first.gives(
                input,
                Outcome::Success(value, rest),
            ),
            Outcome::Failure(_) => false,
            Outcome::Fatal(f) => parser.first.gives(input, Outcome::Fatal(f)),
        },
{
}

} // verus!
