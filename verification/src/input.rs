//! Inputs: values from which elements are taken one at a time, from the front.
use vstd::prelude::*;
use vstd::std_specs::iter::IteratorSpec;

verus! {

/// An input of a parser.
///
/// Taking an element does not change the input: it gives the element and a new
/// input, the rest. The view of an input is its model. The model holds the
/// elements that are still to be taken, and whatever else the input keeps track
/// of while it is consumed.
pub trait Input: Sized + View {
    /// One element of the input.
    type Part;

    /// The elements that are still to be taken, first to last.
    spec fn parts(v: Self::V) -> Seq<Self::Part>;

    /// Whether the first element can be taken with every counter that the
    /// input keeps staying in the range of its machine type.
    spec fn can_take(v: Self::V) -> bool;

    /// The model of what is left once the first element has been taken.
    spec fn rest(v: Self::V) -> Self::V;

    /// The rest holds the elements after the first, and no others: none is
    /// lost, doubled or moved.
    proof fn rest_drops_first(v: Self::V)
        requires
            Self::parts(v).len() > 0,
        ensures
            Self::parts(Self::rest(v)) == Self::parts(v).drop_first(),
    ;

    /// Takes the first element. Returns `None` where no element is left, and
    /// else the first element with the rest of the input.
    fn take_one_part(&self) -> (r: Option<(Self::Part, Self)>)
        requires
            Self::can_take(self@),
        ensures
            match r {
                None => Self::parts(self@).len() == 0,
                Some((part, rest)) => {
                    &&& Self::parts(self@).len() > 0
                    &&& part == Self::parts(self@)[0]
                    &&& rest@ == Self::rest(self@)
                },
            },
    ;
}

/// `Chars::as_str` of std: the string slice that the iterator has not yet
/// walked. Its characters are those that the iterator will still give, in
/// that order.
pub assume_specification<'a>[ core::str::Chars::<'a>::as_str ](chars: &core::str::Chars<'a>) -> (s:
    &'a str)
    ensures
        s@ == chars.remaining(),
;

/// A string slice is an input of characters. Its model is the sequence of
/// its characters, and taking a character moves no counter.
impl<'a> Input for &'a str {
    type Part = char;

    open spec fn parts(v: Seq<char>) -> Seq<char> {
        v
    }

    open spec fn can_take(v: Seq<char>) -> bool {
        true
    }

    open spec fn rest(v: Seq<char>) -> Seq<char> {
        v.drop_first()
    }

    proof fn rest_drops_first(v: Seq<char>) {
    }

    fn take_one_part(&self) -> (r: Option<(char, Self)>) {
        let mut chars = self.chars();
        match chars.next() {
            None => None,
            Some(c) => Some((c, chars.as_str())),
        }
    }
}

/// The model of what is left of an input after `n` elements have been taken.
pub open spec fn rest_after<I: Input>(v: I::V, n: nat) -> I::V
    decreases n,
{
    if n == 0 {
        v
    } else {
        I::rest(rest_after::<I>(v, (n - 1) as nat))
    }
}

/// Taking `m` elements and then `n` more leaves what taking `m + n` elements
/// at once leaves.
pub proof fn rest_after_rest_after<I: Input>(v: I::V, m: nat, n: nat)
    ensures
        rest_after::<I>(rest_after::<I>(v, m), n) == rest_after::<I>(v, m + n),
    decreases n,
{
    if n > 0 {
        rest_after_rest_after::<I>(v, m, (n - 1) as nat);
    }
}

/// What is left after `n` elements have been taken holds the elements after
/// the first `n`, in their order.
pub proof fn parts_of_rest_after<I: Input>(v: I::V, n: nat)
    requires
        n <= I::parts(v).len(),
    ensures
        I::parts(rest_after::<I>(v, n)) == I::parts(v).skip(n as int),
    decreases n,
{
    if n > 0 {
        let before = rest_after::<I>(v, (n - 1) as nat);
        parts_of_rest_after::<I>(v, (n - 1) as nat);
        I::rest_drops_first(before);
        assert(I::parts(v).skip(n - 1).drop_first() =~= I::parts(v).skip(n as int));
    } else {
        assert(I::parts(v).skip(0) =~= I::parts(v));
    }
}

/// Taking an element from the rest that taking an element left gives the
/// first two elements, and leaves what taking two elements at once leaves.
pub proof fn taking_twice<I: Input>(
    input: I,
    first: I::Part,
    middle: I,
    second: I::Part,
    end: I,
)
    requires
        call_ensures(I::take_one_part, (&input,), Some((first, middle))),
        call_ensures(I::take_one_part, (&middle,), Some((second, end))),
    ensures
        I::parts(input@).len() >= 2,
        first == I::parts(input@)[0],
        second == I::parts(input@)[1],
        end@ == rest_after::<I>(input@, 2),
        I::parts(end@) == I::parts(input@).skip(2),
{
    reveal_with_fuel(rest_after, 3);
    I::rest_drops_first(input@);
    parts_of_rest_after::<I>(input@, 2);
}

} // verus!
