//! Matchers: what decides whether an element is the one that a parser looks
//! for, and the parser of one element that a matcher accepts.
use crate::input::Input;
use crate::parser::{Outcome, Parser};
use crate::primitive::one_part;
use crate::result::TakingResult;
use core::marker::PhantomData;
use vstd::prelude::*;
use vstd::std_specs::cmp::PartialEqSpec;

verus! {

/// A way to decide whether a value is accepted.
///
/// Two predicates are the contract of `check`: `checks` says on which values
/// it may be called, `decides` which verdicts it may return for a value.
pub trait Matcher<V> {
    /// Whether `check` may be called on `candidate`.
    spec fn checks(&self, candidate: V) -> bool;

    /// Whether `verdict` is what `check` may return for `candidate`.
    spec fn decides(&self, candidate: V, verdict: bool) -> bool;

    /// Whether `candidate` is accepted.
    fn check(&self, candidate: &V) -> (verdict: bool)
        requires
            self.checks(*candidate),
        ensures
            self.decides(*candidate, verdict),
    ;
}

/// Every predicate is a matcher. It checks what the function requires and
/// decides as the function ensures.
impl<V, P: Fn(&V) -> bool> Matcher<V> for P {
    open spec fn checks(&self, candidate: V) -> bool {
        self.requires((&candidate,))
    }

    open spec fn decides(&self, candidate: V, verdict: bool) -> bool {
        self.ensures((&candidate,), verdict)
    }

    fn check(&self, candidate: &V) -> (verdict: bool) {
        self(candidate)
    }
}

/// A predicate as a matcher checks exactly what the function requires, and
/// decides exactly as the function ensures. A proof about a given function
/// calls this to bring in the two definitions, which Verus does not unfold
/// for the type of a closure.
pub proof fn predicate_is_matcher<V, P: Fn(&V) -> bool>(f: P, candidate: V, verdict: bool)
    ensures
        f.checks(candidate) == f.requires((&candidate,)),
        f.decides(candidate, verdict) == f.ensures((&candidate,), verdict),
{
}

/// The matcher that accepts the values equal to a sample.
pub struct Sample<V>(pub V);

impl<V: PartialEq> Matcher<V> for Sample<V> {
    open spec fn checks(&self, candidate: V) -> bool {
        true
    }

    /// The verdict is what `==` of `V` returns for the candidate and the
    /// sample. It is known as far as that `==` is: for a type that obeys
    /// `eq_spec`, it is what `eq_spec` says.
    open spec fn decides(&self, candidate: V, verdict: bool) -> bool {
        V::obeys_eq_spec() ==> verdict == candidate.eq_spec(&self.0)
    }

    fn check(&self, candidate: &V) -> (verdict: bool) {
        *candidate == self.0
    }
}

/// A character is the matcher that accepts this character and no other.
impl Matcher<char> for char {
    open spec fn checks(&self, candidate: char) -> bool {
        true
    }

    open spec fn decides(&self, candidate: char, verdict: bool) -> bool {
        verdict == (candidate == *self)
    }

    fn check(&self, candidate: &char) -> (verdict: bool) {
        *candidate == *self
    }
}

/// Why a [`MatchingPart`] failed.
#[derive(Debug, PartialEq, Eq, Clone, Copy)]
pub enum Mismatch {
    /// The input holds no element.
    InputEnded,
    /// The input holds an element, and the matcher did not accept it.
    NotMatched,
}

/// The parser of one element that a matcher accepts. It has no fatal error
/// of its own: `F` is the type of the fatal errors of the parsers that it is
/// combined with.
pub struct MatchingPart<M, F> {
    pub matcher: M,
    pub fatal: PhantomData<F>,
}

/// The parser that takes the first element of its input if `matcher` accepts it.
pub fn matching_part<M, F>(matcher: M) -> (r: MatchingPart<M, F>)
    ensures
        r.matcher == matcher,
{
    MatchingPart { matcher, fatal: PhantomData }
}

impl<I: Input, M: Matcher<I::Part>, F> Parser<I> for MatchingPart<M, F> {
    type Output = I::Part;

    type Error = Mismatch;

    type Fatal = F;

    /// The first element can be taken, and the matcher checks it.
    open spec fn accepts(&self, input: I) -> bool {
        &&& I::can_take(input@)
        &&& I::parts(input@).len() > 0 ==> self.matcher.checks(I::parts(input@)[0])
    }

    /// A success holds the first element, which the matcher accepted, and the
    /// rest. A failure says whether the input held no element or the matcher
    /// did not accept the first. There is no fatal error.
    open spec fn gives(&self, input: I, out: Outcome<I::Part, I, Mismatch, F>) -> bool {
        match out {
            Outcome::Success(part, rest) => {
                &&& I::parts(input@).len() > 0
                &&& part == I::parts(input@)[0]
                &&& rest@ == I::rest(input@)
                &&& self.matcher.decides(part, true)
            },
            Outcome::Failure(Mismatch::InputEnded) => I::parts(input@).len() == 0,
            Outcome::Failure(Mismatch::NotMatched) => {
                &&& I::parts(input@).len() > 0
                &&& self.matcher.decides(I::parts(input@)[0], false)
            },
            Outcome::Fatal(_) => false,
        }
    }

    fn parse(&self, input: I) -> (out: Outcome<I::Part, I, Mismatch, F>) {
        match one_part(input) {
            TakingResult::Success(part, rest) => {
                if self.matcher.check(&part) {
                    Outcome::Success(part, rest)
                } else {
                    Outcome::Failure(Mismatch::NotMatched)
                }
            },
            TakingResult::Failure => Outcome::Failure(Mismatch::InputEnded),
        }
    }
}

/// With a matcher that decides `accepts`, a [`MatchingPart`] succeeds if and
/// only if the input holds an element and `accepts` holds of the first, as
/// `one_matching_part` does; it then gives that element and the rest. Its
/// failure says which of the two was not the case.
pub proof fn matching_part_decides<I: Input, M: Matcher<I::Part>, F>(
    parser: MatchingPart<M, F>,
    input: I,
    accepts: spec_fn(I::Part) -> bool,
    out: Outcome<I::Part, I, Mismatch, F>,
)
    requires
        forall|part: I::Part, verdict: bool| #[trigger]
            parser.matcher.decides(part, verdict) ==> verdict == accepts(part),
        parser.gives(input, out),
    ensures
        out is Success <==> I::parts(input@).len() > 0 && accepts(I::parts(input@)[0]),
        out matches Outcome::Success(part, rest) ==> part == I::parts(input@)[0] && rest@
            == I::rest(input@),
        out == Outcome::<I::Part, I, Mismatch, F>::Failure(Mismatch::InputEnded) <==> I::parts(
            input@,
        ).len() == 0,
        out == Outcome::<I::Part, I, Mismatch, F>::Failure(Mismatch::NotMatched) <==> I::parts(
            input@,
        ).len() > 0 && !accepts(I::parts(input@)[0]),
{
}

} // verus!
