//! A core of parsing combinators.
//!
//! A parser takes an input and gives one of three outcomes: a value together
//! with the rest of the input, a failure that leaves room for another parser,
//! or a fatal error that ends the whole parse.
//!
//! - [`input`] and [`position`]: what a parser reads, one element at a time.
//! - [`result`]: the three outcomes, and how they are chained, alternated
//!   and transformed.
//! - [`primitive`]: the parsers of one element.
//! - [`repetition`]: a parser applied until it fails, its values collected.
//! - [`parser`] and [`matcher`]: parsers and matchers as values that can be
//!   kept, combined and applied again.
pub mod input;
pub mod matcher;
pub mod parser;
pub mod position;
pub mod primitive;
pub mod repetition;
pub mod result;

pub use input::Input;
pub use matcher::{matching_part, Matcher, MatchingPart, Mismatch, Sample};
pub use parser::{Alternative, Or, Outcome, Parser};
pub use position::{Position, PositionedString};
pub use primitive::{one_matching_part, one_part};
pub use repetition::{collect_repeating, Container};
pub use result::{CollResult, Result, TakingResult};
