//! A text that keeps track of the row and the column of its next character.
use crate::input::Input;
use vstd::prelude::*;
use vstd::std_specs::convert::FromSpecImpl;

verus! {

/// A place in a text. Rows and columns are counted from 1.
#[derive(Debug, PartialEq, Eq, Clone, Copy)]
pub struct Position {
    pub row: usize,
    /// Column
    pub column: usize,
}

/// A text together with the position of its first character in the text
/// that it was taken from.
#[derive(Debug, Clone, Copy, PartialEq, Eq)]
pub struct PositionedString<'s> {
    pub content: &'s str,
    pub position: Position,
}

/// The model of a [`PositionedString`]: the characters that are left, and the
/// row and the column of the first of them.
pub ghost struct PositionedSeq {
    pub content: Seq<char>,
    pub row: nat,
    pub column: nat,
}

impl<'s> View for PositionedString<'s> {
    type V = PositionedSeq;

    open spec fn view(&self) -> PositionedSeq {
        PositionedSeq {
            content: self.content@,
            row: self.position.row as nat,
            column: self.position.column as nat,
        }
    }
}

impl<'a> From<&'a str> for PositionedString<'a> {
    /// The text `content`, at row 1 and column 1.
    fn from(content: &'a str) -> (r: Self) {
        Self { content, position: Position { row: 1, column: 1 } }
    }
}

impl<'a> FromSpecImpl<&'a str> for PositionedString<'a> {
    open spec fn obeys_from_spec() -> bool {
        true
    }

    open spec fn from_spec(content: &'a str) -> Self {
        PositionedString { content, position: Position { row: 1, column: 1 } }
    }
}

/// A positioned text is an input of characters. It takes its characters as
/// its string slice does, and moves its position by each of them.
impl<'s> Input for PositionedString<'s> {
    type Part = char;

    open spec fn parts(v: PositionedSeq) -> Seq<char> {
        v.content
    }

    /// The counter that the first character moves is below `usize::MAX`: the
    /// row before a newline, the column before any other character.
    open spec fn can_take(v: PositionedSeq) -> bool {
        v.content.len() > 0 ==> if v.content[0] == '\n' {
            v.row < usize::MAX
        } else {
            v.column < usize::MAX
        }
    }

    /// A newline leads to the first column of the next row, any other
    /// character to the next column of the same row.
    open spec fn rest(v: PositionedSeq) -> PositionedSeq {
        if v.content[0] == '\n' {
            PositionedSeq { content: v.content.drop_first(), row: v.row + 1, column: 1 }
        } else {
            PositionedSeq { content: v.content.drop_first(), row: v.row, column: v.column + 1 }
        }
    }

    proof fn rest_drops_first(v: PositionedSeq) {
    }

    fn take_one_part(&self) -> (r: Option<(char, Self)>) {
        match self.content.take_one_part() {
            None => None,
            Some((c, content)) => {
                let position = if c == '\n' {
                    Position { row: self.position.row + 1, column: 1 }
                } else {
                    Position { row: self.position.row, column: self.position.column + 1 }
                };
                Some((c, PositionedString { content, position }))
            },
        }
    }
}

/// A text made from a string slice holds that slice and starts at row 1,
/// column 1.
pub proof fn starts_at_one_one<'a>(content: &'a str, text: PositionedString<'a>)
    requires
        call_ensures(<PositionedString<'a> as From<&'a str>>::from, (content,), text),
    ensures
        text.content == content,
        text.position == (Position { row: 1, column: 1 }),
{
}

/// Taking a character other than a newline adds exactly 1 to the column and
/// leaves the row as it is.
pub proof fn column_moves_by_one<'a>(
    text: PositionedString<'a>,
    c: char,
    rest: PositionedString<'a>,
)
    requires
        call_ensures(<PositionedString<'a> as Input>::take_one_part, (&text,), Some((c, rest))),
        c != '\n',
    ensures
        rest.position.row == text.position.row,
        rest.position.column == text.position.column + 1,
{
}

/// Taking a newline adds exactly 1 to the row and leads to column 1.
pub proof fn newline_moves_to_next_row<'a>(
    text: PositionedString<'a>,
    c: char,
    rest: PositionedString<'a>,
)
    requires
        call_ensures(<PositionedString<'a> as Input>::take_one_part, (&text,), Some((c, rest))),
        c == '\n',
    ensures
        rest.position.row == text.position.row + 1,
        rest.position.column == 1,
{
}

} // verus!
