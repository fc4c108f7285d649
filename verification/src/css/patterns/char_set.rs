//! An insertion-ordered set of character codes, kept in an `indexmap::IndexSet`.
use vstd::prelude::*;

use indexmap::IndexSet;

verus! {

#[verifier::external_type_specification]
#[verifier::external_body]
#[verifier::reject_recursive_types(T)]
#[verifier::reject_recursive_types(S)]
pub struct ExIndexSet<T, S>(IndexSet<T, S>);

/// The items of a set, in insertion order.
pub uninterp spec fn set_items(s: IndexSet<u32>) -> Seq<u32>;

/// `IndexSet::new`: the contract claims the new set is empty.
#[verifier::external_body]
pub fn code_set_new() -> (r: IndexSet<u32>)
    ensures
        set_items(r) == Seq::<u32>::empty(),
{
    IndexSet::new()
}

/// `IndexSet::insert`: the contract claims that a value already present leaves the set
/// unchanged and yields `false`, and that a new value is appended after the others and
/// yields `true` (the crate documents that an existing item keeps its insertion order).
#[verifier::external_body]
pub fn code_set_insert(s: &mut IndexSet<u32>, v: u32) -> (r: bool)
    ensures
        set_items(*old(s)).contains(v) ==> !r && set_items(*final(s)) == set_items(*old(s)),
        !set_items(*old(s)).contains(v) ==> r && set_items(*final(s)) == set_items(*old(s)).push(v),
{
    s.insert(v)
}

/// `IndexSet::contains`: the contract claims the result says whether `v` is an item.
#[verifier::external_body]
pub fn code_set_contains(s: &IndexSet<u32>, v: u32) -> (r: bool)
    ensures
        r == set_items(*s).contains(v),
{
    s.contains(&v)
}

} // verus!
