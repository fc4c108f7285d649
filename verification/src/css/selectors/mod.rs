//! Selectors: the parts a selector list is made of.
use vstd::prelude::*;

pub mod attribute;
pub mod class;
pub mod complex;
pub mod element_tests;
pub mod compound;
pub mod grammar;
pub mod id;
pub mod list;
pub mod matcher;
pub mod matching;
pub mod pseudo_class;
pub mod tag;
pub mod text;

verus! {

} // verus!
