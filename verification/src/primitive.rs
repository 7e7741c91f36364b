//! The primitive parsers: one element, and one element that satisfies a predicate.
use crate::input::Input;
use crate::result::TakingResult;
use vstd::prelude::*;

verus! {

/// Takes the first element of the input.
///
/// Succeeds with the first element and the rest where the input holds an
/// element, and fails where it holds none.
pub fn one_part<I: Input>(input: I) -> (r: TakingResult<I::Part, I>)
    requires
        I::can_take(input@),
    ensures
        match r {
            TakingResult::Success(part, rest) => {
                &&& I::parts(input@).len() > 0
                &&& part == I::parts(input@)[0]
                &&& rest@ == I::rest(input@)
            },
            TakingResult::Failure => I::parts(input@).len() == 0,
        },
{
    match input.take_one_part() {
        Some((part, rest)) => TakingResult::Success(part, rest),
        None => TakingResult::Failure,
    }
}

/// Takes the first element of the input if `f` accepts it.
///
/// Succeeds with the first element and the rest where the input holds an
/// element and `f` returns `true` for it. Fails where the input holds none, and
/// where `f` returns `false` for the first. `f` is called on the first element
/// and on nothing else.
pub fn one_matching_part<I: Input>(input: I, f: impl FnOnce(&I::Part) -> bool) -> (r: TakingResult<
    I::Part,
    I,
>)
    requires
        I::can_take(input@),
        I::parts(input@).len() > 0 ==> f.requires((&I::parts(input@)[0],)),
    ensures
        match r {
            TakingResult::Success(part, rest) => {
                &&& I::parts(input@).len() > 0
                &&& part == I::parts(input@)[0]
                &&& rest@ == I::rest(input@)
                &&& f.ensures((&part,), true)
            },
            TakingResult::Failure => {
                ||| I::parts(input@).len() == 0
                ||| f.ensures((&I::parts(input@)[0],), false)
            },
        },
{
    match one_part(input) {
        TakingResult::Success(part, rest) => {
            if f(&part) {
                TakingResult::Success(part, rest)
            } else {
                TakingResult::Failure
            }
        },
        err => err,
    }
}

/// With a predicate that decides `accepts`, `one_matching_part` succeeds if
/// and only if the input holds an element and `accepts` holds of the first;
/// it then gives that element and the rest.
pub proof fn one_matching_part_decides<I: Input, M: FnOnce(&I::Part) -> bool>(
    input: I,
    f: M,
    accepts: spec_fn(I::Part) -> bool,
    out: TakingResult<I::Part, I>,
)
    requires
        forall|part: I::Part, verdict: bool| #[trigger]
            f.ensures((&part,), verdict) ==> verdict == accepts(part),
        call_ensures(one_matching_part::<I>, (input, f), out),
    ensures
        out is Success <==> I::parts(input@).len() > 0 && accepts(I::parts(input@)[0]),
        out matches TakingResult::Success(part, rest) ==> part == I::parts(input@)[0] && rest@
            == I::rest(input@),
{
}

} // verus!
