use parsing_core::{
    matching_part, Alternative, Matcher, Mismatch, Outcome, Parser, Position,
    PositionedString, Result, Sample,
};
use std::cell::Cell;

type Parsed = Outcome<char, &'static str, Mismatch, u8>;

#[test]
fn a_predicate_is_a_matcher() {
    let is_digit = |c: &char| c.is_ascii_digit();
    assert!(is_digit.check(&'7'));
    assert!(!is_digit.check(&'x'));
}

#[test]
fn a_sample_accepts_what_is_equal_to_it() {
    let sample = Sample("let");
    assert!(sample.check(&"let"));
    assert!(!sample.check(&"letter"));
    assert!(Sample(7u8).check(&7));
    assert!(!Sample(7u8).check(&8));
}

#[test]
fn a_character_accepts_itself_and_no_other() {
    assert!(';'.check(&';'));
    assert!(!';'.check(&':'));
    let semicolon = matching_part(';');
    let out: Parsed = semicolon.parse(";x");
    assert_eq!(out, Outcome::Success(';', "x"));
    let out: Parsed = semicolon.parse(":x");
    assert_eq!(out, Outcome::Failure(Mismatch::NotMatched));
}

#[test]
fn matching_part_takes_an_accepted_element() {
    let digit = matching_part(|c: &char| c.is_ascii_digit());
    let out: Parsed = digit.parse("12");
    assert_eq!(out, Outcome::Success('1', "2"));
}

#[test]
fn matching_part_says_that_the_input_ended() {
    let digit = matching_part(|c: &char| c.is_ascii_digit());
    let out: Parsed = digit.parse("");
    assert_eq!(out, Outcome::Failure(Mismatch::InputEnded));
}

#[test]
fn matching_part_says_that_the_element_did_not_match() {
    let digit = matching_part(|c: &char| c.is_ascii_digit());
    let out: Parsed = digit.parse("x1");
    assert_eq!(out, Outcome::Failure(Mismatch::NotMatched));
}

#[test]
fn matching_part_does_not_ask_the_matcher_on_an_empty_input() {
    let never = matching_part(|_c: &char| -> bool { panic!("the matcher was called") });
    let out: Parsed = never.parse("");
    assert_eq!(out, Outcome::Failure(Mismatch::InputEnded));
}

#[test]
fn matching_part_with_a_sample() {
    let semicolon = matching_part(Sample(';'));
    let out: Parsed = semicolon.parse(";x");
    assert_eq!(out, Outcome::Success(';', "x"));
    let out: Parsed = semicolon.parse("x;");
    assert_eq!(out, Outcome::Failure(Mismatch::NotMatched));
}

#[test]
fn matching_part_can_be_applied_again() {
    let digit = matching_part::<_, u8>(|c: &char| c.is_ascii_digit());
    assert_eq!(digit.parse("1a"), Outcome::Success('1', "a"));
    assert_eq!(digit.parse("2b"), Outcome::Success('2', "b"));
    assert_eq!(digit.parse("c3"), Outcome::Failure(Mismatch::NotMatched));
}

#[test]
fn matching_part_keeps_track_of_the_position() {
    let newline = matching_part::<_, u8>(Sample('\n'));
    assert_eq!(
        newline.parse(PositionedString::from("\nx")),
        Outcome::Success(
            '\n',
            PositionedString {
                content: "x",
                position: Position { row: 2, column: 1 },
            }
        )
    );
}

#[test]
fn a_function_is_a_parser() {
    let length = |input: &'static str| -> Outcome<usize, &'static str, (), ()> {
        Outcome::Success(input.len(), "")
    };
    assert_eq!(length.parse("four"), Outcome::Success(4, ""));
}

#[test]
fn an_alternation_is_the_first_parser_where_it_succeeds() {
    let digit = matching_part::<_, u8>(|c: &char| c.is_ascii_digit());
    let never = |_input: &'static str| -> Outcome<char, &'static str, (), u8> {
        panic!("the second parser was applied")
    };
    assert_eq!(digit.or(never).parse("1a"), Outcome::Success('1', "a"));
}

#[test]
fn an_alternation_is_the_second_parser_where_the_first_fails() {
    let digit = matching_part::<_, u8>(|c: &char| c.is_ascii_digit());
    let letter = matching_part::<_, u8>(|c: &char| c.is_alphabetic());
    let either = digit.or(letter);
    assert_eq!(either.parse("a1"), Outcome::Success('a', "1"));
    assert_eq!(either.parse("1a"), Outcome::Success('1', "a"));
}

#[test]
fn an_alternation_applies_the_second_parser_to_the_same_input() {
    let seen = Cell::new("");
    let first = |_input: &'static str| -> Outcome<char, &'static str, (), u8> {
        Outcome::Failure(())
    };
    let second = |input: &'static str| -> Outcome<char, &'static str, (), u8> {
        seen.set(input);
        Outcome::Failure(())
    };
    assert_eq!(first.or(second).parse("same"), Outcome::Failure(((), ())));
    assert_eq!(seen.get(), "same");
}

#[test]
fn an_alternation_that_fails_keeps_both_errors() {
    let first = |_input: &'static str| -> Outcome<char, &'static str, &'static str, u8> {
        Outcome::Failure("no digit")
    };
    let second = |_input: &'static str| -> Outcome<char, &'static str, u32, u8> {
        Outcome::Failure(404)
    };
    assert_eq!(first.or(second).parse("x"), Outcome::Failure(("no digit", 404)));

    let digit = matching_part::<_, u8>(|c: &char| c.is_ascii_digit());
    let letter = matching_part::<_, u8>(|c: &char| c.is_alphabetic());
    let either = digit.or(letter);
    assert_eq!(
        either.parse("?"),
        Outcome::Failure((Mismatch::NotMatched, Mismatch::NotMatched))
    );
    assert_eq!(
        either.parse(""),
        Outcome::Failure((Mismatch::InputEnded, Mismatch::InputEnded))
    );
}

#[test]
fn an_alternation_of_three_keeps_three_errors() {
    let fail = |reason: u8| {
        move |_input: &'static str| -> Outcome<char, &'static str, u8, ()> {
            Outcome::Failure(reason)
        }
    };
    assert_eq!(
        fail(1).or(fail(2)).or(fail(3)).parse("x"),
        Outcome::Failure(((1, 2), 3))
    );
}

#[test]
fn an_alternation_does_not_hide_a_fatal_error_of_the_first_parser() {
    let fatal = |_input: &'static str| -> Outcome<char, &'static str, (), u8> {
        Outcome::Fatal(13)
    };
    let never = |_input: &'static str| -> Outcome<char, &'static str, (), u8> {
        panic!("the second parser was applied")
    };
    assert_eq!(fatal.or(never).parse("x"), Outcome::Fatal(13));
}

#[test]
fn an_alternation_returns_a_fatal_error_of_the_second_parser() {
    let digit = matching_part::<_, u8>(|c: &char| c.is_ascii_digit());
    let fatal = |_input: &'static str| -> Outcome<char, &'static str, (), u8> {
        Outcome::Fatal(13)
    };
    assert_eq!(digit.or(fatal).parse("x"), Outcome::Fatal(13));
}

#[test]
fn an_outcome_as_a_result() {
    let success: Parsed = Outcome::Success('a', "b");
    assert_eq!(success.norm(), Result::Success('a', "b"));
    let failure: Parsed = Outcome::Failure(Mismatch::InputEnded);
    assert_eq!(failure.norm(), Result::Failure);
    let fatal: Parsed = Outcome::Fatal(5);
    assert_eq!(fatal.norm(), Result::Fatal(5));
}
