//! CSS selector parsing and matching.
use vstd::prelude::*;

pub mod chars;
pub mod diagnosis;
pub mod error;
pub mod parse;
pub mod patterns;
pub mod selectors;

pub use chars::CssChars;
pub use error::{ErrorKind, ParseError};
pub use parse::parse_css;
pub use patterns::{CssChar, TextPattern};

verus! {

} // verus!
