//! Repetition: a step parser applied again and again, its values collected
//! in a container.
use crate::input::{parts_of_rest_after, rest_after, Input};
use crate::result::{CollResult, Result};
use vstd::prelude::*;

verus! {

/// A container that grows at its end, one item at a time.
pub trait Container<T>: Sized {
    /// The items of the container, in the order in which they were put in.
    spec fn items(&self) -> Seq<T>;

    /// Puts `item` behind the items that the container holds.
    fn push_item(&mut self, item: T)
        ensures
            final(self).items() == old(self).items().push(item),
    ;
}

/// A vector holds its items in the order of its indices, and takes an item
/// at its end.
impl<T> Container<T> for Vec<T> {
    open spec fn items(&self) -> Seq<T> {
        self@
    }

    fn push_item(&mut self, item: T) {
        self.push(item);
    }
}

/// A chain of successes of `parser`: applied to `inputs[k]`, it may give the
/// value `values[k]` and the rest `inputs[k + 1]`. The chain has one input
/// more than it has values: `inputs.last()` is what the last success left.
pub open spec fn succeeds_along<T, I, F, P: Fn(&I) -> Result<T, I, F>>(
    parser: P,
    inputs: Seq<I>,
    values: Seq<T>,
) -> bool {
    &&& inputs.len() == values.len() + 1
    &&& forall|k: int|
        0 <= k < values.len() ==> parser.ensures(
            (&inputs[k],),
            Result::Success(#[trigger] values[k], inputs[k + 1]),
        )
}

/// Whether `out` is how a repetition ends that went along the chain `inputs`,
/// `values` and then did not succeed on `inputs.last()`.
///
/// Where `parser` may fail there, `out` is a success: it holds the items of
/// `collection` followed by `values`, and `inputs.last()`. Where `parser` may
/// give a fatal error there, `out` is that fatal error.
pub open spec fn ends_as<T, I, F, P: Fn(&I) -> Result<T, I, F>, C: Container<T>>(
    parser: P,
    collection: C,
    inputs: Seq<I>,
    values: Seq<T>,
    out: CollResult<C, I, F>,
) -> bool {
    &&& succeeds_along(parser, inputs, values)
    &&& match out {
        CollResult::Success(filled, rest) => {
            &&& filled.items() == collection.items() + values
            &&& rest == inputs.last()
            &&& parser.ensures((&rest,), Result::Failure)
        },
        CollResult::Fatal(e) => parser.ensures((&inputs.last(),), Result::Fatal(e)),
    }
}

/// Applies `parser` to `input`, then to the rest that it left, and so on, and
/// puts the values into `collection` in that order.
///
/// The repetition ends when `parser` does not succeed. On a failure the result
/// is a success, with the container and the input that the failing call was
/// given: that call took nothing. No repetition at all is a success too. On a
/// fatal error the result is that fatal error, and the container is dropped.
///
/// `parser` is to leave fewer elements than it was given whenever it succeeds,
/// and to accept each rest that it leaves.
pub fn collect_repeating<T, I: Input, F, P: Fn(&I) -> Result<T, I, F>, C: Container<T>>(
    collection: C,
    input: I,
    parser: P,
) -> (r: CollResult<C, I, F>)
    requires
        parser.requires((&input,)),
        forall|i: I, value: T, rest: I|
            parser.requires((&i,)) && #[trigger] parser.ensures(
                (&i,),
                Result::Success(value, rest),
            ) ==> parser.requires((&rest,)) && I::parts(rest@).len() < I::parts(i@).len(),
    ensures
        exists|inputs: Seq<I>, values: Seq<T>|
            inputs[0] == input && #[trigger] ends_as(parser, collection, inputs, values, r),
{
    let ghost mut inputs: Seq<I> = seq![input];
    let ghost mut values: Seq<T> = Seq::empty();
    let mut filled = collection;
    let mut rest = input;
    loop
        invariant
            parser.requires((&rest,)),
            forall|i: I, value: T, rest: I|
                parser.requires((&i,)) && #[trigger] parser.ensures(
                    (&i,),
                    Result::Success(value, rest),
                ) ==> parser.requires((&rest,)) && I::parts(rest@).len() < I::parts(i@).len(),
            succeeds_along(parser, inputs, values),
            inputs[0] == input,
            inputs.last() == rest,
            filled.items() == collection.items() + values,
        decreases I::parts(rest@).len(),
    {
        match parser(&rest) {
            Result::Success(value, next) => {
                proof {
                    inputs = inputs.push(next);
                    values = values.push(value);
                }
                filled.push_item(value);
                rest = next;
            },
            Result::Failure => {
                let r = CollResult::Success(filled, rest);
                assert(ends_as(parser, collection, inputs, values, r));
                return r;
            },
            Result::Fatal(e) => {
                let r = CollResult::Fatal(e);
                assert(ends_as(parser, collection, inputs, values, r));
                return r;
            },
        }
    }
}

/// A step that fails on `input` whatever else it does: the repetition is a
/// success that holds the container as it was given, and `input` itself.
pub proof fn no_repetition_on_failure<
    T,
    I: Input,
    F,
    P: Fn(&I) -> Result<T, I, F>,
    C: Container<T>,
>(collection: C, input: I, parser: P, out: CollResult<C, I, F>)
    requires
        forall|first: Result<T, I, F>| #[trigger]
            parser.ensures((&input,), first) ==> first is Failure,
        call_ensures(collect_repeating::<T, I, F, P, C>, (collection, input, parser), out),
    ensures
        out matches CollResult::Success(filled, rest) && filled.items() == collection.items()
            && rest == input,
{
    let (inputs, values) = choose|inputs: Seq<I>, values: Seq<T>|
        inputs[0] == input && #[trigger] ends_as(parser, collection, inputs, values, out);
    if values.len() > 0 {
        assert(parser.ensures((&inputs[0],), Result::Success(values[0], inputs[1])));
    }
    assert(collection.items() + values =~= collection.items());
}

/// A step that gives nothing but fatal errors: the repetition is a fatal
/// error of the step on `input`, whatever the input and the container.
pub proof fn fatal_step_is_fatal<T, I: Input, F, P: Fn(&I) -> Result<T, I, F>, C: Container<T>>(
    collection: C,
    input: I,
    parser: P,
    out: CollResult<C, I, F>,
)
    requires
        forall|i: I, first: Result<T, I, F>| #[trigger]
            parser.ensures((&i,), first) ==> first is Fatal,
        call_ensures(collect_repeating::<T, I, F, P, C>, (collection, input, parser), out),
    ensures
        out matches CollResult::Fatal(e) && parser.ensures((&input,), Result::Fatal(e)),
{
    let (inputs, values) = choose|inputs: Seq<I>, values: Seq<T>|
        inputs[0] == input && #[trigger] ends_as(parser, collection, inputs, values, out);
    if values.len() > 0 {
        assert(parser.ensures((&inputs[0],), Result::Success(values[0], inputs[1])));
    }
}

/// The number of elements at the front of `s` that `accepts` holds of: the
/// place of the first element that it does not hold of, or the length of `s`.
pub open spec fn accepted_len<A>(s: Seq<A>, accepts: spec_fn(A) -> bool) -> nat
    decreases s.len(),
{
    if s.len() > 0 && accepts(s[0]) {
        1 + accepted_len(s.drop_first(), accepts)
    } else {
        0
    }
}

/// Whether `parser` takes one element where `accepts` holds of it, and fails
/// where it does not or where no element is left. It has no fatal error.
pub open spec fn takes_accepted<I: Input, F, P: Fn(&I) -> Result<I::Part, I, F>>(
    parser: P,
    accepts: spec_fn(I::Part) -> bool,
) -> bool {
    forall|i: I, out: Result<I::Part, I, F>| #[trigger]
        parser.ensures((&i,), out) ==> match out {
            Result::Success(part, rest) => {
                &&& I::parts(i@).len() > 0
                &&& part == I::parts(i@)[0]
                &&& accepts(part)
                &&& rest@ == I::rest(i@)
            },
            Result::Failure => I::parts(i@).len() == 0 || !accepts(I::parts(i@)[0]),
            Result::Fatal(_) => false,
        }
}

proof fn accepted_len_is<A>(s: Seq<A>, accepts: spec_fn(A) -> bool, n: nat)
    requires
        n <= s.len(),
        forall|j: int| 0 <= j < n ==> accepts(#[trigger] s[j]),
        n == s.len() || !accepts(s[n as int]),
    ensures
        accepted_len(s, accepts) == n,
    decreases n,
{
    if n > 0 {
        let tail = s.drop_first();
        assert forall|j: int| 0 <= j < n - 1 implies accepts(#[trigger] tail[j]) by {
            assert(tail[j] == s[j + 1]);
        }
        accepted_len_is(tail, accepts, (n - 1) as nat);
    }
}

proof fn chain_of_accepted<I: Input, F, P: Fn(&I) -> Result<I::Part, I, F>>(
    parser: P,
    accepts: spec_fn(I::Part) -> bool,
    inputs: Seq<I>,
    values: Seq<I::Part>,
    k: nat,
)
    requires
        takes_accepted(parser, accepts),
        succeeds_along(parser, inputs, values),
        k <= values.len(),
    ensures
        k <= I::parts(inputs[0]@).len(),
        inputs[k as int]@ == rest_after::<I>(inputs[0]@, k),
        forall|j: int|
            0 <= j < k ==> #[trigger] values[j] == I::parts(inputs[0]@)[j] && accepts(
                I::parts(inputs[0]@)[j],
            ),
    decreases k,
{
    if k > 0 {
        let before = (k - 1) as nat;
        chain_of_accepted(parser, accepts, inputs, values, before);
        parts_of_rest_after::<I>(inputs[0]@, before);
        assert(parser.ensures(
            (&inputs[before as int],),
            Result::Success(values[before as int], inputs[k as int]),
        ));
    }
}

/// Repeating a step that takes one element where `accepts` holds of it
/// collects the longest run of such elements at the front of the input, in
/// their order, behind the items of the container, and leaves the input after
/// that run.
pub proof fn repetition_takes_accepted_front<
    I: Input,
    F,
    P: Fn(&I) -> Result<I::Part, I, F>,
    C: Container<I::Part>,
>(
    collection: C,
    input: I,
    parser: P,
    accepts: spec_fn(I::Part) -> bool,
    out: CollResult<C, I, F>,
)
    requires
        takes_accepted(parser, accepts),
        call_ensures(collect_repeating::<I::Part, I, F, P, C>, (collection, input, parser), out),
    ensures
        out matches CollResult::Success(filled, rest) && ({
            let n = accepted_len(I::parts(input@), accepts);
            &&& n <= I::parts(input@).len()
            &&& filled.items() == collection.items() + I::parts(input@).take(n as int)
            &&& rest@ == rest_after::<I>(input@, n)
            &&& I::parts(rest@) == I::parts(input@).skip(n as int)
        }),
{
    let (inputs, values) = choose|inputs: Seq<I>, values: Seq<I::Part>|
        inputs[0] == input && #[trigger] ends_as(parser, collection, inputs, values, out);
    let n = values.len();
    let parts = I::parts(input@);
    chain_of_accepted(parser, accepts, inputs, values, n);
    parts_of_rest_after::<I>(input@, n);
    assert(inputs.last() == inputs[n as int]);
    if n < parts.len() {
        assert(parts.skip(n as int)[0] == parts[n as int]);
    }
    assert forall|j: int| 0 <= j < n implies accepts(#[trigger] parts[j]) by {
        assert(values[j] == parts[j]);
    }
    accepted_len_is(parts, accepts, n);
    assert(values =~= parts.take(n as int));
}

} // verus!
