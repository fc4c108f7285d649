//! The building blocks of selectors: names, strings, numbers and operators.
use vstd::prelude::*;

pub mod attribute_operator;
pub mod attribute_pattern;
pub mod attribute_value;
pub mod case_indicator;
pub mod char_set;
pub mod combinator;
pub mod integer_pattern;
pub mod ordinal_pattern;
pub mod parenthesized;
pub mod pattern_match;
pub mod quoted_string;
pub mod text_pattern;

pub use text_pattern::{CssChar, TextPattern};

verus! {

} // verus!
