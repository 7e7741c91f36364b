use parsing_core::{one_matching_part, one_part, CollResult, Input, Result, TakingResult};
use std::cell::Cell;

fn never_called(_value: char, _rest: &'static str) -> Result<char, &'static str, u8> {
    panic!("the continuation was called")
}

#[test]
fn and_hands_value_and_rest_to_the_continuation() {
    let first: Result<char, &str, u8> = Result::Success('a', "bc");
    let result = first.and(|value, rest| Result::<(char, usize), &str, u8>::Success((value, rest.len()), rest));
    assert_eq!(result, Result::Success(('a', 2), "bc"));
}

#[test]
fn and_returns_what_the_continuation_returns() {
    let first: Result<char, &str, u8> = Result::Success('a', "bc");
    assert_eq!(
        first.and(|_value, _rest| Result::<char, &str, u8>::Fatal(3)),
        Result::Fatal(3)
    );
    let first: Result<char, &str, u8> = Result::Success('a', "bc");
    assert_eq!(
        first.and(|_value, _rest| Result::<char, &str, u8>::Failure),
        Result::Failure
    );
}

#[test]
fn and_does_not_call_the_continuation_on_a_failure() {
    let first: Result<char, &'static str, u8> = Result::Failure;
    assert_eq!(first.and(never_called), Result::Failure);
}

#[test]
fn and_does_not_call_the_continuation_on_a_fatal_error() {
    let first: Result<char, &'static str, u8> = Result::Fatal(7);
    assert_eq!(first.and(never_called), Result::Fatal(7));
}

#[test]
fn or_calls_the_alternative_on_a_failure() {
    let calls = Cell::new(0);
    let first: Result<char, &str, u8> = Result::Failure;
    let result = first.or(|| {
        calls.set(calls.get() + 1);
        Result::Success('z', "rest")
    });
    assert_eq!(result, Result::Success('z', "rest"));
    assert_eq!(calls.get(), 1);
}

#[test]
fn or_returns_the_fatal_error_of_the_alternative() {
    let first: Result<char, &str, u8> = Result::Failure;
    assert_eq!(first.or(|| Result::Fatal(9)), Result::Fatal(9));
}

#[test]
fn or_does_not_call_the_alternative_on_a_success() {
    let first: Result<char, &str, u8> = Result::Success('a', "bc");
    let result = first.or(|| panic!("the alternative was called"));
    assert_eq!(result, Result::Success('a', "bc"));
}

#[test]
fn or_does_not_call_the_alternative_on_a_fatal_error() {
    let first: Result<char, &str, u8> = Result::Fatal(7);
    let result = first.or(|| panic!("the alternative was called"));
    assert_eq!(result, Result::Fatal(7));
}

#[test]
fn map_transforms_the_value_and_keeps_the_rest() {
    let first: Result<char, &str, u8> = Result::Success('7', "rest");
    assert_eq!(
        first.map(|c| c.to_digit(10)),
        Result::Success(Some(7), "rest")
    );
}

#[test]
fn map_does_not_call_the_transform_without_a_value() {
    let failure: Result<char, &str, u8> = Result::Failure;
    assert_eq!(
        failure.map(|_c| -> u32 { panic!("the transform was called") }),
        Result::Failure
    );
    let fatal: Result<char, &str, u8> = Result::Fatal(1);
    assert_eq!(
        fatal.map(|_c| -> u32 { panic!("the transform was called") }),
        Result::Fatal(1)
    );
}

#[test]
fn norm_keeps_the_outcome() {
    assert_eq!(
        TakingResult::Success(1u8, "x").norm::<()>(),
        Result::Success(1u8, "x")
    );
    assert_eq!(
        TakingResult::<u8, &str>::Failure.norm::<()>(),
        Result::Failure
    );
    assert_eq!(
        CollResult::<Vec<u8>, &str, char>::Success(vec![1, 2], "x").norm(),
        Result::Success(vec![1, 2], "x")
    );
    assert_eq!(
        CollResult::<Vec<u8>, &str, char>::Fatal('e').norm(),
        Result::Fatal('e')
    );
}

#[test]
fn take_one_part_of_a_string_slice() {
    assert_eq!("abc".take_one_part(), Some(('a', "bc")));
    assert_eq!("c".take_one_part(), Some(('c', "")));
    assert_eq!("".take_one_part(), None);
}

#[test]
fn one_part_takes_a_whole_character() {
    assert_eq!(one_part("éa"), TakingResult::Success('é', "a"));
    assert_eq!(one_part("日本"), TakingResult::Success('日', "本"));
}

#[test]
fn one_part_succeeds_on_every_input_that_holds_an_element() {
    for text in ["a", "ab", "\n", " x", "0123456789"] {
        let first = text.chars().next().unwrap();
        let after = &text[first.len_utf8()..];
        assert_eq!(one_part(text), TakingResult::Success(first, after));
    }
}

#[test]
fn taking_twice_leaves_what_is_behind_the_first_two() {
    let text = "abcd";
    let after_two = match one_part(text) {
        TakingResult::Success(_, rest) => match one_part(rest) {
            TakingResult::Success(_, rest) => rest,
            TakingResult::Failure => panic!("no second element"),
        },
        TakingResult::Failure => panic!("no first element"),
    };
    let both: String = text.chars().skip(2).collect();
    assert_eq!(after_two, both);
    assert_eq!(after_two, "cd");
}

#[test]
fn one_matching_part_succeeds_where_the_predicate_holds_of_the_first() {
    for text in ["", "1", "a", "1a", "a1", "77"] {
        let expected = match text.chars().next() {
            Some(c) if c.is_ascii_digit() => TakingResult::Success(c, &text[1..]),
            _ => TakingResult::Failure,
        };
        assert_eq!(one_matching_part(text, |c| c.is_ascii_digit()), expected);
    }
}

#[test]
fn one_matching_part_asks_the_predicate_about_the_first_element_only() {
    let seen = Cell::new(None);
    let result = one_matching_part("xyz", |c| {
        assert_eq!(seen.get(), None);
        seen.set(Some(*c));
        false
    });
    assert_eq!(result, TakingResult::Failure);
    assert_eq!(seen.get(), Some('x'));
}

#[test]
fn one_matching_part_does_not_call_the_predicate_on_an_empty_input() {
    assert_eq!(
        one_matching_part("", |_c| panic!("the predicate was called")),
        TakingResult::Failure
    );
}
