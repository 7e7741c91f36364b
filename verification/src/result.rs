//! The three outcomes of a parser, and the combinators that chain, alternate
//! and transform them.
use vstd::prelude::*;

verus! {

/// What a parser returns.
#[derive(Debug, PartialEq, Eq)]
pub enum Result<T, I, F> {
    /// The parser produced a value; the second field is the input that is left.
    Success(T, I),
    /// The parser does not apply here. Another parser may be tried on the same input.
    Failure,
    /// The input cannot be parsed by any parser. No alternative is to be tried.
    Fatal(F),
}

impl<T, I, F> Result<T, I, F> {
    /// Sequencing: hands the value and the rest of a success to `f` and
    /// returns what `f` returns. A failure or a fatal error is returned as it
    /// is; nothing is asked of `f` then, so `f` is not called.
    pub fn and<OT, OI>(self, f: impl FnOnce(T, I) -> Result<OT, OI, F>) -> (r: Result<OT, OI, F>)
        requires
            self matches Result::Success(value, rest) ==> f.requires((value, rest)),
        ensures
            match self {
                Result::Success(value, rest) => f.ensures((value, rest), r),
                Result::Failure => r == Result::<OT, OI, F>::Failure,
                Result::Fatal(e) => r == Result::<OT, OI, F>::Fatal(e),
            },
    {
        match self {
            Result::Success(value, rest) => f(value, rest),
            Result::Failure => Result::Failure,
            Result::Fatal(e) => Result::Fatal(e),
        }
    }

    /// Alternation: a failure is replaced by what `f` returns. A success or a
    /// fatal error is returned as it is; nothing is asked of `f` then, so `f`
    /// is not called.
    pub fn or(self, f: impl FnOnce() -> Self) -> (r: Self)
        requires
            self is Failure ==> f.requires(()),
        ensures
            match self {
                Result::Success(value, rest) => r == Result::<T, I, F>::Success(value, rest),
                Result::Failure => f.ensures((), r),
                Result::Fatal(e) => r == Result::<T, I, F>::Fatal(e),
            },
    {
        match self {
            Result::Success(value, rest) => Result::Success(value, rest),
            Result::Failure => f(),
            Result::Fatal(e) => Result::Fatal(e),
        }
    }

    /// Transforms the value of a success with `f` and keeps the rest. A
    /// failure or a fatal error is returned as it is, and `f` is not called.
    pub fn map<O>(self, f: impl FnOnce(T) -> O) -> (r: Result<O, I, F>)
        requires
            self matches Result::Success(value, _) ==> f.requires((value,)),
        ensures
            match self {
                Result::Success(value, rest) => r matches Result::Success(output, r_rest)
                    && f.ensures((value,), output) && r_rest == rest,
                Result::Failure => r == Result::<O, I, F>::Failure,
                Result::Fatal(e) => r == Result::<O, I, F>::Fatal(e),
            },
    {
        match self {
            Result::Success(value, rest) => Result::Success(f(value), rest),
            Result::Failure => Result::Failure,
            Result::Fatal(e) => Result::Fatal(e),
        }
    }
}

/// The outcome of a parser that has no fatal error.
#[derive(Debug, PartialEq, Eq)]
pub enum TakingResult<T, I> {
    /// See [`Result::Success`].
    Success(T, I),
    /// See [`Result::Failure`].
    Failure,
}

impl<T, I> TakingResult<T, I> {
    /// The same outcome as a [`Result`], for any type of fatal error.
    pub fn norm<F>(self) -> (r: Result<T, I, F>)
        ensures
            r == match self {
                TakingResult::Success(output, rest) => Result::<T, I, F>::Success(output, rest),
                TakingResult::Failure => Result::<T, I, F>::Failure,
            },
    {
        match self {
            TakingResult::Success(output, rest) => Result::Success(output, rest),
            TakingResult::Failure => Result::Failure,
        }
    }
}

/// The outcome of a repetition, which has no failure: it ends at the first
/// failure of its step, with what it has collected.
#[derive(Debug, PartialEq, Eq)]
pub enum CollResult<T, I, F> {
    /// See [`Result::Success`].
    Success(T, I),
    /// See [`Result::Fatal`].
    Fatal(F),
}

impl<T, I, F> CollResult<T, I, F> {
    /// The same outcome as a [`Result`].
    pub fn norm(self) -> (r: Result<T, I, F>)
        ensures
            r == match self {
                CollResult::Success(output, rest) => Result::<T, I, F>::Success(output, rest),
                CollResult::Fatal(e) => Result::<T, I, F>::Fatal(e),
            },
    {
        match self {
            CollResult::Success(output, rest) => Result::Success(output, rest),
            CollResult::Fatal(e) => Result::Fatal(e),
        }
    }
}

/// Whatever the continuation, `and` can be called on a failure or a fatal
/// error, and returns that failure or fatal error. Nothing is assumed of the
/// continuation, not even that it can be called at all: `and` does not call it.
pub proof fn and_skips_continuation<T, I, F, OT, OI, K: FnOnce(T, I) -> Result<OT, OI, F>>(
    first: Result<T, I, F>,
    f: K,
    out: Result<OT, OI, F>,
)
    requires
        !(first is Success),
    ensures
        call_requires(Result::<T, I, F>::and::<OT, OI>, (first, f)),
        call_ensures(Result::<T, I, F>::and::<OT, OI>, (first, f), out) ==> out == match first {
            Result::Fatal(e) => Result::<OT, OI, F>::Fatal(e),
            _ => Result::<OT, OI, F>::Failure,
        },
{
}

/// Whatever the alternative, `or` can be called on a success or a fatal error,
/// and returns that success or fatal error. Nothing is assumed of the
/// alternative, not even that it can be called at all: `or` does not call it.
pub proof fn or_skips_alternative<T, I, F, A: FnOnce() -> Result<T, I, F>>(
    first: Result<T, I, F>,
    f: A,
    out: Result<T, I, F>,
)
    requires
        !(first is Failure),
    ensures
        call_requires(Result::<T, I, F>::or, (first, f)),
        call_ensures(Result::<T, I, F>::or, (first, f), out) ==> out == first,
{
}

/// On a failure, `or` returns nothing but what the alternative returns: it
/// needs the alternative to be callable, and each of its results is a result
/// of the alternative.
pub proof fn or_takes_alternative<T, I, F, A: FnOnce() -> Result<T, I, F>>(
    f: A,
    out: Result<T, I, F>,
)
    ensures
        f.requires(()) ==> call_requires(Result::<T, I, F>::or, (Result::<T, I, F>::Failure, f)),
        call_ensures(Result::<T, I, F>::or, (Result::<T, I, F>::Failure, f), out) ==> f.ensures(
            (),
            out,
        ),
{
}

} // verus!
