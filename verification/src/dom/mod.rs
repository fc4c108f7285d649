//! The document model: node topology and element data.
use vstd::prelude::*;

pub mod document;
pub mod edit;
pub mod nav;
pub mod node_index;
pub mod rebuild;
pub mod nodes;
pub mod slots;

pub use document::{Attribute, DomInner};
pub use node_index::NodeIndex;

verus! {

} // verus!
