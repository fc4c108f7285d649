//! A compact HTML document model with a CSS selector engine.
//!
//! The crate is split into the selector language (`css`), the packed node
//! topology and document model (`dom`), and the character-reference codec
//! used at the text boundary (`entities`).
use vstd::prelude::*;

pub mod css;
pub mod dom;
pub mod element;
pub mod entities;
pub mod fmt;
pub mod html;
pub mod html_doc;
pub mod queue_iter;
pub mod reading;
pub mod svg_case;
pub mod text;

verus! {

} // verus!
