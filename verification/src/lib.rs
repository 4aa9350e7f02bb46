//! The verified core of a binding to MinRX, a matcher for POSIX extended
//! regular expressions.
//!
//! The C library compiles and searches; this crate decides everything around
//! those calls: which flags a builder or a set of options hands over, what a
//! MinRX result code means, which captures a filled match buffer describes,
//! and how an iteration over all matches moves from one search to the next.
pub mod builder;
pub mod codes;
pub mod cursor;
pub mod error;
pub mod flags;
pub mod matches;
pub mod options;

pub use builder::RegexBuilder;
pub use cursor::MatchCursor;
pub use error::{BuildError, MatchError};
pub use flags::mask;
pub use matches::{Match, RegMatch};
pub use options::MatchOptions;
