//! Walking a document: parents, element siblings and children, positions among
//! siblings, descendants and text content.
//!
//! Each step follows a link as it is stored, wherever in the blob it points: an edited
//! document keeps its tree in its links, not in the order of its records. A walk along
//! parents or siblings follows at most as many links as the document has nodes, and a
//! walk down the tree at most twice as many steps, which is all that a tree needs and
//! makes every walk end.
use vstd::prelude::*;

use crate::dom::document::{dom_ok, DomInner, DomV};
use crate::dom::nodes::{links_ok, spec_attach, spec_detach, spec_join, spec_remove, spec_replace, spec_set_parents, spec_unwrap, upd_first, upd_last, upd_next, upd_parent, upd_prev, NodeRec, ROOT_TAG, TEXT_TAG};
use crate::fmt::walk_fuel;

verus! {

/// Tag code of elements with a name outside the standard vocabulary.
pub const EXT_TAG: u8 = 121;

/// Whether the tag code is that of an element.
pub open spec fn is_elem_tag(t: u8) -> bool {
    t < ROOT_TAG || t == EXT_TAG
}

/// Whether node `i` is an element of `d`.
pub open spec fn is_elem(d: DomV, i: int) -> bool {
    0 <= i < d.recs.len() && is_elem_tag(d.recs[i].tag)
}

/// The plain value of an optional node index.
pub open spec fn oidx(o: Option<u32>) -> Option<int> {
    match o {
        Some(n) => Some(n as int),
        None => None,
    }
}

/// The node that link `o` of a record names, where it names a node of `d`.
pub open spec fn linked(d: DomV, o: Option<u32>) -> Option<int> {
    match o {
        Some(p) => if (p as int) < d.recs.len() { Some(p as int) } else { None },
        None => None,
    }
}

/// The parent of node `i`.
pub open spec fn up(d: DomV, i: int) -> Option<int> {
    if 0 <= i < d.recs.len() { linked(d, d.recs[i].parent) } else { None }
}

/// The node before node `i` among its siblings.
pub open spec fn prev_node(d: DomV, i: int) -> Option<int> {
    if 0 <= i < d.recs.len() { linked(d, d.recs[i].prev) } else { None }
}

/// The node after node `i` among its siblings.
pub open spec fn next_node(d: DomV, i: int) -> Option<int> {
    if 0 <= i < d.recs.len() { linked(d, d.recs[i].next) } else { None }
}

/// The first child of node `i`.
pub open spec fn first_node(d: DomV, i: int) -> Option<int> {
    if 0 <= i < d.recs.len() { linked(d, d.recs[i].first) } else { None }
}

/// How many links a walk along one direction follows at most: in a tree no chain of
/// parents or siblings is longer than the number of nodes.
pub open spec fn steps(d: DomV) -> nat {
    d.recs.len()
}

/// The nearest element before node `i` among its siblings, at most `f` links away.
pub open spec fn prev_elem_in(d: DomV, i: int, f: nat) -> Option<int>
    decreases f,
{
    if f == 0 {
        None
    } else {
        match prev_node(d, i) {
            None => None,
            Some(p) => if is_elem(d, p) { Some(p) } else { prev_elem_in(d, p, (f - 1) as nat) },
        }
    }
}

/// The nearest element after node `i` among its siblings, at most `f` links away.
pub open spec fn next_elem_in(d: DomV, i: int, f: nat) -> Option<int>
    decreases f,
{
    if f == 0 {
        None
    } else {
        match next_node(d, i) {
            None => None,
            Some(n) => if is_elem(d, n) { Some(n) } else { next_elem_in(d, n, (f - 1) as nat) },
        }
    }
}

/// The nearest element before node `i` among its siblings.
pub open spec fn prev_elem(d: DomV, i: int) -> Option<int> {
    prev_elem_in(d, i, steps(d))
}

/// The nearest element after node `i` among its siblings.
pub open spec fn next_elem(d: DomV, i: int) -> Option<int> {
    next_elem_in(d, i, steps(d))
}

/// The first element child of node `i`.
pub open spec fn first_elem(d: DomV, i: int) -> Option<int> {
    match first_node(d, i) {
        None => None,
        Some(c) => if is_elem(d, c) { Some(c) } else { next_elem(d, c) },
    }
}

/// Whether element `j` counts for a position: every element does where `name` is
/// `None`, else the elements of that name.
pub open spec fn counts(d: DomV, j: int, name: Option<Seq<char>>) -> bool {
    is_elem(d, j) && match name {
        Some(n) => d.names[j] == n,
        None => true,
    }
}

/// How many of the siblings before node `i`, at most `f` links away, count.
pub open spec fn count_prev_in(d: DomV, i: int, name: Option<Seq<char>>, f: nat) -> nat
    decreases f,
{
    if f == 0 {
        0
    } else {
        match prev_node(d, i) {
            None => 0,
            Some(p) => count_prev_in(d, p, name, (f - 1) as nat) + if counts(d, p, name) { 1nat } else { 0nat },
        }
    }
}

/// How many of the siblings after node `i`, at most `f` links away, count.
pub open spec fn count_next_in(d: DomV, i: int, name: Option<Seq<char>>, f: nat) -> nat
    decreases f,
{
    if f == 0 {
        0
    } else {
        match next_node(d, i) {
            None => 0,
            Some(n) => count_next_in(d, n, name, (f - 1) as nat) + if counts(d, n, name) { 1nat } else { 0nat },
        }
    }
}

/// How many siblings before node `i` count.
pub open spec fn count_prev(d: DomV, i: int, name: Option<Seq<char>>) -> nat {
    count_prev_in(d, i, name, steps(d))
}

/// How many siblings after node `i` count.
pub open spec fn count_next(d: DomV, i: int, name: Option<Seq<char>>) -> nat {
    count_next_in(d, i, name, steps(d))
}

/// Whether node `i` is among the ancestors of node `j`, at most `f` parent links up.
pub open spec fn is_desc_in(d: DomV, j: int, i: int, f: nat) -> bool
    decreases f,
{
    if f == 0 {
        false
    } else {
        match up(d, j) {
            None => false,
            Some(p) => p == i || is_desc_in(d, p, i, (f - 1) as nat),
        }
    }
}

/// Whether node `j` lies below node `i`.
pub open spec fn is_desc(d: DomV, j: int, i: int) -> bool {
    is_desc_in(d, j, i, steps(d))
}

/// The text of node `i` if it is a text node, else that of the text nodes below it in
/// document order, at most `f` steps deep.
pub open spec fn text_of_node(d: DomV, i: int, f: nat) -> Seq<char>
    decreases f,
{
    if f == 0 || !(0 <= i < d.recs.len()) {
        Seq::empty()
    } else if d.recs[i].tag == TEXT_TAG {
        d.texts[i]
    } else {
        match d.recs[i].first {
            Some(c) => text_of_kids(d, c as int, (f - 1) as nat),
            None => Seq::empty(),
        }
    }
}

/// The text of node `c` and of the siblings after it, at most `f` steps deep.
pub open spec fn text_of_kids(d: DomV, c: int, f: nat) -> Seq<char>
    decreases f,
{
    if f == 0 || !(0 <= c < d.recs.len()) {
        Seq::empty()
    } else {
        text_of_node(d, c, (f - 1) as nat) + match d.recs[c].next {
            Some(n) => text_of_kids(d, n as int, (f - 1) as nat),
            None => Seq::empty(),
        }
    }
}

/// The text content of node `i`: the text of the text nodes below it, in document
/// order, found by walking its children.
pub open spec fn text_content(d: DomV, i: int) -> Seq<char> {
    if 0 <= i < d.recs.len() && d.recs[i].tag != TEXT_TAG {
        text_of_node(d, i, walk_fuel(d))
    } else {
        Seq::empty()
    }
}

/// The nodes of the subtree of node `i` in document order (the node, then the subtrees
/// of its children in turn), at most `f` steps deep.
pub open spec fn tree_of(d: DomV, i: int, f: nat) -> Seq<int>
    decreases f,
{
    if f == 0 || !(0 <= i < d.recs.len()) {
        Seq::empty()
    } else {
        seq![i] + match d.recs[i].first {
            Some(c) => forest_of(d, c as int, (f - 1) as nat),
            None => Seq::empty(),
        }
    }
}

/// The subtrees of node `c` and of the siblings after it, in document order, at most
/// `f` steps deep.
pub open spec fn forest_of(d: DomV, c: int, f: nat) -> Seq<int>
    decreases f,
{
    if f == 0 || !(0 <= c < d.recs.len()) {
        Seq::empty()
    } else {
        tree_of(d, c, (f - 1) as nat) + match d.recs[c].next {
            Some(n) => forest_of(d, n as int, (f - 1) as nat),
            None => Seq::empty(),
        }
    }
}

/// The nodes below node `i`, in document order.
pub open spec fn below(d: DomV, i: int) -> Seq<int> {
    if 0 <= i < d.recs.len() {
        match d.recs[i].first {
            Some(c) => forest_of(d, c as int, (walk_fuel(d) - 1) as nat),
            None => Seq::empty(),
        }
    } else {
        Seq::empty()
    }
}

/// Whether some node of `d` names node `x` as its first child or as its next sibling.
pub open spec fn linked_from(d: DomV, x: int) -> bool {
    exists|j: int| 0 <= j < d.recs.len() && (#[trigger] link_to(d.recs[j], x))
}

/// Whether link `o` names node `x`.
pub open spec fn names(o: Option<u32>, x: int) -> bool {
    match o {
        Some(c) => c as int == x,
        None => false,
    }
}

/// Whether record `r` names node `x` as its first child or as its next sibling.
pub open spec fn link_to(r: NodeRec, x: int) -> bool {
    names(r.first, x) || names(r.next, x)
}

/// Every node that a walk down from node `i` (or along from node `c`) meets, but the
/// one it starts from, is named as first child or next sibling by some node.
pub proof fn lemma_walk_linked(d: DomV, i: int, f: nat, x: int)
    ensures
        tree_of(d, i, f).contains(x) && x != i ==> linked_from(d, x),
        forest_of(d, i, f).contains(x) && x != i ==> linked_from(d, x),
    decreases f,
{
    if f > 0 && 0 <= i < d.recs.len() {
        let f1 = (f - 1) as nat;
        let kids = match d.recs[i].first {
            Some(c) => forest_of(d, c as int, f1),
            None => Seq::empty(),
        };
        if tree_of(d, i, f).contains(x) && x != i {
            let k = choose|k: int| 0 <= k < tree_of(d, i, f).len() && tree_of(d, i, f)[k] == x;
            assert(tree_of(d, i, f) == seq![i] + kids);
            assert(k >= 1);
            assert(kids[k - 1] == x);
            if let Some(c) = d.recs[i].first {
                lemma_walk_linked(d, c as int, f1, x);
                if x == c as int {
                    assert(link_to(d.recs[i], x));
                }
            }
        }
        let t = tree_of(d, i, f1);
        let rest = match d.recs[i].next {
            Some(n) => forest_of(d, n as int, f1),
            None => Seq::empty(),
        };
        if forest_of(d, i, f).contains(x) && x != i {
            let k = choose|k: int| 0 <= k < forest_of(d, i, f).len() && forest_of(d, i, f)[k] == x;
            assert(forest_of(d, i, f) == t + rest);
            lemma_walk_linked(d, i, f1, x);
            if k < t.len() {
                assert(t[k] == x);
            } else {
                assert(rest[k - t.len()] == x);
                if let Some(n) = d.recs[i].next {
                    lemma_walk_linked(d, n as int, f1, x);
                    if x == n as int {
                        assert(link_to(d.recs[i], x));
                    }
                }
            }
        }
    }
}

/// Whether node `i` is named as first child only by its parent and as next sibling
/// only by its previous sibling, and names neither itself.
pub open spec fn linked_by_neighbours(d: DomV, i: int) -> bool {
    &&& d.recs[i].parent is Some
    &&& !names(d.recs[i].parent, i)
    &&& !link_to(d.recs[i], i)
    &&& !names(d.recs[i].prev, i)
    &&& d.recs[i].prev is None || d.recs[i].prev != d.recs[i].next
    &&& forall|j: int| 0 <= j < d.recs.len() && names((#[trigger] d.recs[j]).first, i) ==> names(d.recs[i].parent, j)
        && d.recs[i].prev is None
    &&& forall|j: int| 0 <= j < d.recs.len() && names((#[trigger] d.recs[j]).next, i) ==> names(d.recs[i].prev, j)
        && d.recs[j].parent == d.recs[i].parent
}

/// Taking node `i` out of the records leaves none that names it as first child or
/// next sibling.
#[verifier::spinoff_prover]
#[verifier::rlimit(40)]
proof fn lemma_remove_unlinks(d: DomV, i: int)
    requires
        links_ok(d.recs),
        0 < i < d.recs.len(),
        linked_by_neighbours(d, i),
    ensures
        forall|j: int| 0 <= j < spec_remove(d.recs, i).0.len() ==> !(#[trigger] link_to(spec_remove(d.recs, i).0[j], i)),
        spec_remove(d.recs, i).0.len() == d.recs.len(),
{
    let v = d.recs;
    let prev = v[i].prev;
    let next = v[i].next;
    let p = v[i].parent->0 as int;
    assert(crate::dom::nodes::rec_links_ok(v[i], v.len() as int));
    let v1 = upd_parent(v, i, None);
    let v2 = if v[p].first == Some(i as u32) { upd_first(v1, p, next) } else { v1 };
    let v3 = if v[p].last == Some(i as u32) { upd_last(v2, p, prev) } else { v2 };
    assert(v3.len() == v.len());
    assert forall|j: int| 0 <= j < v.len() implies !names((#[trigger] v3[j]).first, i) by {
        if names(v[j].first, i) {
            assert(names(v[i].parent, j));
            assert(j == p);
        }
    }
    assert forall|j: int| 0 <= j < v.len() && names((#[trigger] v3[j]).next, i) implies names(prev, j) by {
        assert(v3[j].next == v[j].next);
    }
    let w = spec_remove(v, i).0;
    match (prev, next) {
        (Some(a), Some(c)) => {
            assert(w == upd_prev(upd_next(v3, a as int, Some(c)), c as int, Some(a)));
            assert forall|j: int| 0 <= j < w.len() implies !(#[trigger] link_to(w[j], i)) by {
                assert(!names(v3[j].first, i));
                if j != a as int {
                    assert(!names(v3[j].next, i));
                }
            }
        }
        (Some(a), None) => {
            assert(w == upd_last(upd_next(v3, a as int, None), p, Some(a)));
            assert forall|j: int| 0 <= j < w.len() implies !(#[trigger] link_to(w[j], i)) by {
                assert(!names(v3[j].first, i));
                if j != a as int {
                    assert(!names(v3[j].next, i));
                }
            }
        }
        (None, Some(c)) => {
            assert(w == upd_first(upd_prev(v3, c as int, None), p, Some(c)));
            assert forall|j: int| 0 <= j < w.len() implies !(#[trigger] link_to(w[j], i)) by {
                assert(!names(v3[j].first, i));
                assert(!names(v3[j].next, i));
            }
        }
        (None, None) => {
            assert(w == v3);
            assert forall|j: int| 0 <= j < w.len() implies !(#[trigger] link_to(w[j], i)) by {
                assert(!names(v3[j].first, i));
                assert(!names(v3[j].next, i));
            }
        }
    }
}

/// Whether no record of `v` names node `i` as first child or next sibling, but the
/// parent and previous sibling that node `i` names.
pub open spec fn only_neighbours_name(v: Seq<NodeRec>, i: int) -> bool {
    &&& forall|j: int| 0 <= j < v.len() && names((#[trigger] v[j]).first, i) ==> names(v[i].parent, j)
    &&& forall|j: int| 0 <= j < v.len() && names((#[trigger] v[j]).next, i) ==> names(v[i].prev, j)
}

/// What taking node `x` out of its place keeps of how node `i` is named.
#[verifier::spinoff_prover]
proof fn lemma_detach_naming(d: DomV, i: int, x: int)
    requires
        links_ok(d.recs),
        d.recs.len() <= crate::dom::document::MAX_NODES,
        0 < i < d.recs.len(),
        0 < x < d.recs.len(),
        i != x,
        linked_by_neighbours(d, i),
        linked_by_neighbours(d, x),
        !(names(d.recs[x].next, i) && names(d.recs[i].next, x)),
    ensures
        spec_detach(d.recs, x).len() == d.recs.len(),
        spec_detach(d.recs, x)[i].parent == d.recs[i].parent,
        crate::dom::nodes::rec_links_ok(spec_detach(d.recs, x)[i], d.recs.len() as int),
        !names(spec_detach(d.recs, x)[i].next, i),
        forall|j: int| 0 <= j < d.recs.len() && names((#[trigger] spec_detach(d.recs, x)[j]).first, i)
            ==> names(spec_detach(d.recs, x)[i].parent, j) && spec_detach(d.recs, x)[i].prev is None,
        forall|j: int| 0 <= j < d.recs.len() && j != x && names((#[trigger] spec_detach(d.recs, x)[j]).next, i)
            ==> names(spec_detach(d.recs, x)[i].prev, j),
{
    let v = d.recs;
    assert(crate::dom::nodes::rec_links_ok(v[i], v.len() as int));
    assert(crate::dom::nodes::rec_links_ok(v[x], v.len() as int));
    let v1 = spec_detach(v, x);
    assert forall|j: int| 0 <= j < v.len() && names((#[trigger] v1[j]).first, i)
        implies names(v1[i].parent, j) && v1[i].prev is None by {
        if names(v[j].first, i) {
            assert(names(v[i].parent, j));
        }
    }
    assert forall|j: int| 0 <= j < v.len() && j != x && names((#[trigger] v1[j]).next, i) implies names(v1[i].prev, j) by {
        if names(v[j].next, i) {
            assert(names(v[i].prev, j));
        }
    }
}

/// Putting node `x` in the place of node `i`, where only `i`'s parent and previous
/// sibling name it, leaves no record that names `i`.
#[verifier::spinoff_prover]
#[verifier::rlimit(40)]
proof fn lemma_attach_naming(v1: Seq<NodeRec>, i: int, x: int)
    requires
        v1.len() <= crate::dom::document::MAX_NODES,
        0 <= i < v1.len(),
        0 <= x < v1.len(),
        i != x,
        v1[i].parent is Some,
        crate::dom::nodes::rec_links_ok(v1[i], v1.len() as int),
        !names(v1[i].parent, i),
        !names(v1[i].next, i),
        forall|j: int| 0 <= j < v1.len() && names((#[trigger] v1[j]).first, i) ==> names(v1[i].parent, j) && v1[i].prev is None,
        forall|j: int| 0 <= j < v1.len() && j != x && names((#[trigger] v1[j]).next, i) ==> names(v1[i].prev, j),
    ensures
        forall|j: int| 0 <= j < v1.len() ==> !(#[trigger] link_to(
            upd_next(upd_prev(upd_parent(upd_parent(spec_attach(v1, i, x), x, v1[i].parent), i, None), i, None), i, None)[j], i)),
{
    assert((x as u32) as int == x);
    let v2 = spec_attach(v1, i, x);
    assert(v2.len() == v1.len());
    let w = upd_next(upd_prev(upd_parent(upd_parent(v2, x, v1[i].parent), i, None), i, None), i, None);
    assert forall|j: int| 0 <= j < v1.len() implies !(#[trigger] link_to(w[j], i)) by {
        assert(w[j].first == v2[j].first);
        if names(v1[j].first, i) {
            assert(names(v1[i].parent, j));
        }
        if j != x && names(v1[j].next, i) {
            assert(names(v1[i].prev, j));
        }
        match (v1[i].prev, v1[i].next) {
            (Some(a), Some(c)) => {}
            (Some(a), None) => {}
            (None, Some(c)) => {}
            (None, None) => {}
        }
    }
}

/// Putting node `x` in the place of node `i` leaves no record that names `i` as first
/// child or next sibling.
proof fn lemma_replace_unlinks(d: DomV, i: int, x: int)
    requires
        links_ok(d.recs),
        d.recs.len() <= crate::dom::document::MAX_NODES,
        0 < i < d.recs.len(),
        0 < x < d.recs.len(),
        i != x,
        linked_by_neighbours(d, i),
        linked_by_neighbours(d, x),
        !(names(d.recs[x].next, i) && names(d.recs[i].next, x)),
    ensures
        forall|j: int| 0 <= j < spec_replace(d.recs, i, x).len() ==> !(#[trigger] link_to(spec_replace(d.recs, i, x)[j], i)),
{
    lemma_detach_naming(d, i, x);
    let v1 = spec_detach(d.recs, x);
    lemma_attach_naming(v1, i, x);
    assert(spec_replace(d.recs, i, x).len() == d.recs.len());
}

/// Setting parents changes no first-child or next-sibling link.
proof fn lemma_set_parents_naming(v: Seq<NodeRec>, cur: int, p: u32, fuel: nat)
    requires
        0 <= cur < v.len(),
        p < v.len(),
        links_ok(v),
    ensures
        spec_set_parents(v, cur, p, fuel).len() == v.len(),
        forall|j: int| 0 <= j < v.len() ==> (#[trigger] spec_set_parents(v, cur, p, fuel)[j]).first == v[j].first
            && spec_set_parents(v, cur, p, fuel)[j].next == v[j].next,
    decreases fuel,
{
    if fuel > 0 {
        let v1 = upd_parent(v, cur, Some(p));
        assert(links_ok(v1)) by {
            assert forall|j: int| 0 <= j < v1.len() implies crate::dom::nodes::rec_links_ok(#[trigger] v1[j], v1.len() as int) by {
                assert(crate::dom::nodes::rec_links_ok(v[j], v.len() as int));
            }
        }
        assert(crate::dom::nodes::rec_links_ok(v1[cur], v1.len() as int));
        match v1[cur].next {
            Some(n) => {
                lemma_set_parents_naming(v1, n as int, p, (fuel - 1) as nat);
            }
            None => {}
        }
    }
}

/// `d` with node `i` replaced by its children as `Nodes::unwrap_node` does it.
pub open spec fn unwrapped(d: DomV, i: int) -> DomV {
    DomV { recs: spec_unwrap(d.recs, i), ..d }
}

/// Unwrapping node `i` leaves no record that names it as first child or next sibling.
#[verifier::spinoff_prover]
#[verifier::rlimit(100)]
proof fn lemma_unwrap_unlinks(d: DomV, i: int)
    requires
        links_ok(d.recs),
        d.recs.len() <= crate::dom::document::MAX_NODES,
        0 < i < d.recs.len(),
        linked_by_neighbours(d, i),
        (d.recs[i].first is Some) == (d.recs[i].last is Some),
    ensures
        spec_unwrap(d.recs, i).len() == d.recs.len(),
        forall|j: int| 0 <= j < d.recs.len() ==> !(#[trigger] link_to(spec_unwrap(d.recs, i)[j], i)),
{
    let v = d.recs;
    assert(crate::dom::nodes::rec_links_ok(v[i], v.len() as int));
    let p = v[i].parent->0 as int;
    let v5 = upd_parent(upd_last(upd_first(upd_next(upd_prev(v, i, None), i, None), i, None), i, None), i, None);
    assert(links_ok(v5)) by {
        assert forall|j: int| 0 <= j < v5.len() implies crate::dom::nodes::rec_links_ok(#[trigger] v5[j], v5.len() as int) by {
            assert(crate::dom::nodes::rec_links_ok(v[j], v.len() as int));
        }
    }
    assert forall|j: int| 0 <= j < v.len() && names((#[trigger] v5[j]).first, i) implies j == p && v[i].prev is None by {
        assert(names(v[j].first, i));
        assert(names(v[i].parent, j));
    }
    assert forall|j: int| 0 <= j < v.len() && names((#[trigger] v5[j]).next, i) implies names(v[i].prev, j) by {
        assert(names(v[j].next, i));
    }
    let n = v.len();
    let w = spec_unwrap(v, i);
    match (v[i].prev, v[i].first, v[i].last, v[i].next) {
        (None, Some(f), Some(l), None) => {
            let u = upd_last(upd_first(v5, p, Some(f)), p, Some(l));
            assert(links_ok(u)) by {
                assert forall|j: int| 0 <= j < u.len() implies crate::dom::nodes::rec_links_ok(#[trigger] u[j], u.len() as int) by {
                    assert(crate::dom::nodes::rec_links_ok(v5[j], v5.len() as int));
                }
            }
            lemma_set_parents_naming(u, f as int, p as u32, n);
        }
        (None, Some(f), Some(l), Some(c)) => {
            let u = spec_join(upd_first(v5, p, Some(f)), l as int, c as int);
            assert(links_ok(u)) by {
                assert forall|j: int| 0 <= j < u.len() implies crate::dom::nodes::rec_links_ok(#[trigger] u[j], u.len() as int) by {
                    assert(crate::dom::nodes::rec_links_ok(v5[j], v5.len() as int));
                }
            }
            lemma_set_parents_naming(u, f as int, p as u32, n);
        }
        (Some(a), Some(f), Some(l), None) => {
            let u = upd_last(spec_join(v5, a as int, f as int), p, Some(l));
            assert(links_ok(u)) by {
                assert forall|j: int| 0 <= j < u.len() implies crate::dom::nodes::rec_links_ok(#[trigger] u[j], u.len() as int) by {
                    assert(crate::dom::nodes::rec_links_ok(v5[j], v5.len() as int));
                }
            }
            lemma_set_parents_naming(u, f as int, p as u32, n);
        }
        (Some(a), Some(f), Some(l), Some(c)) => {
            let u = spec_join(spec_join(v5, a as int, f as int), l as int, c as int);
            assert(links_ok(u)) by {
                assert forall|j: int| 0 <= j < u.len() implies crate::dom::nodes::rec_links_ok(#[trigger] u[j], u.len() as int) by {
                    assert(crate::dom::nodes::rec_links_ok(v5[j], v5.len() as int));
                }
            }
            lemma_set_parents_naming(u, f as int, p as u32, n);
        }
        _ => {}
    }
    assert forall|j: int| 0 <= j < v.len() implies !(#[trigger] link_to(w[j], i)) by {
        if names(v5[j].first, i) {
            assert(j == p);
        }
        if names(v5[j].next, i) {
            assert(names(v[i].prev, j));
        }
    }
}

/// An unwrapped node is out of the tree: nothing names it as first child or next
/// sibling, and a walk from the root no longer meets it.
pub proof fn lemma_unwrapped_unreachable(d: DomV, i: int)
    requires
        dom_ok(d),
        0 < i < d.recs.len(),
        linked_by_neighbours(d, i),
        (d.recs[i].first is Some) == (d.recs[i].last is Some),
    ensures
        !linked_from(unwrapped(d, i), i),
        !below(unwrapped(d, i), 0).contains(i),
{
    let e = unwrapped(d, i);
    let w = e.recs;
    lemma_unwrap_unlinks(d, i);
    if below(e, 0).contains(i) {
        if let Some(c) = w[0].first {
            assert(!link_to(w[0], i));
            lemma_walk_linked(e, c as int, (walk_fuel(e) - 1) as nat, i);
        }
    }
}

/// `d` with node `x` put in the place of node `i` as `Nodes::replace_with` does it.
pub open spec fn replaced(d: DomV, i: int, x: int) -> DomV {
    DomV { recs: spec_replace(d.recs, i, x), ..d }
}

/// A replaced node is out of the tree: nothing names it as first child or next sibling,
/// and a walk from the root no longer meets it.
pub proof fn lemma_replaced_unreachable(d: DomV, i: int, x: int)
    requires
        dom_ok(d),
        0 < i < d.recs.len(),
        0 < x < d.recs.len(),
        i != x,
        linked_by_neighbours(d, i),
        linked_by_neighbours(d, x),
        !(names(d.recs[x].next, i) && names(d.recs[i].next, x)),
    ensures
        !linked_from(replaced(d, i, x), i),
        !below(replaced(d, i, x), 0).contains(i),
{
    let e = replaced(d, i, x);
    let w = e.recs;
    lemma_replace_unlinks(d, i, x);
    if below(e, 0).contains(i) {
        if let Some(c) = w[0].first {
            assert(!link_to(w[0], i));
            lemma_walk_linked(e, c as int, (walk_fuel(e) - 1) as nat, i);
        }
    }
}

/// `d` with node `i` taken out of the tree as `Nodes::remove` does it.
pub open spec fn removed(d: DomV, i: int) -> DomV {
    DomV { recs: spec_remove(d.recs, i).0, ..d }
}

/// A removed node is out of the tree: nothing names it as first child or next sibling,
/// and a walk from the root no longer meets it.
pub proof fn lemma_removed_unreachable(d: DomV, i: int)
    requires
        dom_ok(d),
        0 < i < d.recs.len(),
        linked_by_neighbours(d, i),
    ensures
        !linked_from(removed(d, i), i),
        !below(removed(d, i), 0).contains(i),
{
    let e = removed(d, i);
    let w = e.recs;
    lemma_remove_unlinks(d, i);
    if below(e, 0).contains(i) {
        if let Some(c) = w[0].first {
            assert(!link_to(w[0], i));
            lemma_walk_linked(e, c as int, (walk_fuel(e) - 1) as nat, i);
        }
    }
}

pub proof fn lemma_count_prev_bound(d: DomV, i: int, name: Option<Seq<char>>, f: nat)
    ensures
        count_prev_in(d, i, name, f) <= f,
    decreases f,
{
    if f > 0 {
        if let Some(p) = prev_node(d, i) {
            lemma_count_prev_bound(d, p, name, (f - 1) as nat);
        }
    }
}

pub proof fn lemma_count_next_bound(d: DomV, i: int, name: Option<Seq<char>>, f: nat)
    ensures
        count_next_in(d, i, name, f) <= f,
    decreases f,
{
    if f > 0 {
        if let Some(n) = next_node(d, i) {
            lemma_count_next_bound(d, n, name, (f - 1) as nat);
        }
    }
}

/// A previous element found is an element of the document.
pub proof fn lemma_prev_elem_in(d: DomV, i: int, f: nat)
    ensures
        prev_elem_in(d, i, f) matches Some(p) ==> is_elem(d, p),
    decreases f,
{
    if f > 0 {
        if let Some(p) = prev_node(d, i) {
            lemma_prev_elem_in(d, p, (f - 1) as nat);
        }
    }
}

/// A next element found is an element of the document.
pub proof fn lemma_next_elem_in(d: DomV, i: int, f: nat)
    ensures
        next_elem_in(d, i, f) matches Some(n) ==> is_elem(d, n),
    decreases f,
{
    if f > 0 {
        if let Some(n) = next_node(d, i) {
            lemma_next_elem_in(d, n, (f - 1) as nat);
        }
    }
}

/// A first element child found is an element of the document.
pub proof fn lemma_first_elem(d: DomV, i: int)
    ensures
        first_elem(d, i) matches Some(n) ==> is_elem(d, n),
{
    if let Some(c) = first_node(d, i) {
        lemma_next_elem_in(d, c, steps(d));
    }
}

impl DomInner {
    /// The node that a stored link names, where it names a node of this document.
    fn linked(&self, o: Option<u32>) -> (r: Option<u32>)
        requires
            self.wf(),
        ensures
            oidx(r) == linked(self@, o),
    {
        match o {
            Some(p) => if (p as usize) < self.len() { Some(p) } else { None },
            None => None,
        }
    }

    pub fn up(&self, i: u32) -> (r: Option<u32>)
        requires
            self.wf(),
            i < self@.recs.len(),
        ensures
            oidx(r) == up(self@, i as int),
    {
        self.linked(self.parent(i))
    }

    pub fn prev_node(&self, i: u32) -> (r: Option<u32>)
        requires
            self.wf(),
            i < self@.recs.len(),
        ensures
            oidx(r) == prev_node(self@, i as int),
    {
        self.linked(self.prev_sibling(i))
    }

    pub fn next_node(&self, i: u32) -> (r: Option<u32>)
        requires
            self.wf(),
            i < self@.recs.len(),
        ensures
            oidx(r) == next_node(self@, i as int),
    {
        self.linked(self.next_sibling(i))
    }

    pub fn first_node(&self, i: u32) -> (r: Option<u32>)
        requires
            self.wf(),
            i < self@.recs.len(),
        ensures
            oidx(r) == first_node(self@, i as int),
    {
        self.linked(self.first_child(i))
    }

    /// Whether node `i` is an element.
    pub fn is_element(&self, i: u32) -> (r: bool)
        requires
            self.wf(),
            i < self@.recs.len(),
        ensures
            r == is_elem(self@, i as int),
    {
        let t = self.tag_code(i);
        t < ROOT_TAG || t == EXT_TAG
    }

    /// The nearest element before node `i` among its siblings.
    pub fn prev_element(&self, i: u32) -> (r: Option<u32>)
        requires
            self.wf(),
            i < self@.recs.len(),
        ensures
            oidx(r) == prev_elem(self@, i as int),
    {
        let mut cur = i;
        let mut f: usize = self.len();
        loop
            invariant
                self.wf(),
                cur < self@.recs.len(),
                prev_elem_in(self@, cur as int, f as nat) == prev_elem(self@, i as int),
            decreases f,
        {
            if f == 0 {
                return None;
            }
            match self.prev_node(cur) {
                None => {
                    return None;
                }
                Some(p) => {
                    if self.is_element(p) {
                        return Some(p);
                    }
                    cur = p;
                    f = f - 1;
                }
            }
        }
    }

    /// The nearest element after node `i` among its siblings.
    pub fn next_element(&self, i: u32) -> (r: Option<u32>)
        requires
            self.wf(),
            i < self@.recs.len(),
        ensures
            oidx(r) == next_elem(self@, i as int),
    {
        let mut cur = i;
        let mut f: usize = self.len();
        loop
            invariant
                self.wf(),
                cur < self@.recs.len(),
                next_elem_in(self@, cur as int, f as nat) == next_elem(self@, i as int),
            decreases f,
        {
            if f == 0 {
                return None;
            }
            match self.next_node(cur) {
                None => {
                    return None;
                }
                Some(n) => {
                    if self.is_element(n) {
                        return Some(n);
                    }
                    cur = n;
                    f = f - 1;
                }
            }
        }
    }

    /// The first element child of node `i`.
    pub fn first_element(&self, i: u32) -> (r: Option<u32>)
        requires
            self.wf(),
            i < self@.recs.len(),
        ensures
            oidx(r) == first_elem(self@, i as int),
    {
        match self.first_node(i) {
            None => None,
            Some(c) => if self.is_element(c) { Some(c) } else { self.next_element(c) },
        }
    }

    /// Whether element `j` counts for a position among elements named `name`, or among
    /// all elements.
    fn counts(&self, j: u32, name: Option<&Vec<char>>) -> (r: bool)
        requires
            self.wf(),
            j < self@.recs.len(),
        ensures
            r == counts(self@, j as int, match name { Some(n) => Some(n@), None => None }),
    {
        if !self.is_element(j) {
            return false;
        }
        match name {
            None => true,
            Some(n) => crate::text::same_chars(self.name(j), n),
        }
    }

    /// How many siblings before node `i` count.
    pub fn count_prev(&self, i: u32, name: Option<&Vec<char>>) -> (r: usize)
        requires
            self.wf(),
            i < self@.recs.len(),
        ensures
            r == count_prev(self@, i as int, match name { Some(n) => Some(n@), None => None }),
    {
        let ghost nm = match name { Some(n) => Some(n@), None => None };
        let mut cur = i;
        let mut acc: usize = 0;
        let mut f: usize = self.len();
        proof {
            lemma_count_prev_bound(self@, i as int, nm, f as nat);
        }
        loop
            invariant
                self.wf(),
                cur < self@.recs.len(),
                f <= self@.recs.len(),
                nm == match name { Some(n) => Some(n@), None => None },
                acc + count_prev_in(self@, cur as int, nm, f as nat) == count_prev(self@, i as int, nm),
                count_prev(self@, i as int, nm) <= self@.recs.len(),
            decreases f,
        {
            if f == 0 {
                return acc;
            }
            match self.prev_node(cur) {
                None => {
                    return acc;
                }
                Some(p) => {
                    proof {
                        lemma_count_prev_bound(self@, p as int, nm, (f - 1) as nat);
                    }
                    if self.counts(p, name) {
                        acc = acc + 1;
                    }
                    cur = p;
                    f = f - 1;
                }
            }
        }
    }

    /// How many siblings after node `i` count.
    pub fn count_next(&self, i: u32, name: Option<&Vec<char>>) -> (r: usize)
        requires
            self.wf(),
            i < self@.recs.len(),
        ensures
            r == count_next(self@, i as int, match name { Some(n) => Some(n@), None => None }),
    {
        let ghost nm = match name { Some(n) => Some(n@), None => None };
        let mut cur = i;
        let mut acc: usize = 0;
        let mut f: usize = self.len();
        proof {
            lemma_count_next_bound(self@, i as int, nm, f as nat);
        }
        loop
            invariant
                self.wf(),
                cur < self@.recs.len(),
                f <= self@.recs.len(),
                nm == match name { Some(n) => Some(n@), None => None },
                acc + count_next_in(self@, cur as int, nm, f as nat) == count_next(self@, i as int, nm),
                count_next(self@, i as int, nm) <= self@.recs.len(),
            decreases f,
        {
            if f == 0 {
                return acc;
            }
            match self.next_node(cur) {
                None => {
                    return acc;
                }
                Some(n) => {
                    proof {
                        lemma_count_next_bound(self@, n as int, nm, (f - 1) as nat);
                    }
                    if self.counts(n, name) {
                        acc = acc + 1;
                    }
                    cur = n;
                    f = f - 1;
                }
            }
        }
    }

    /// Whether node `j` lies below node `i`.
    pub fn is_descendant(&self, j: u32, i: u32) -> (r: bool)
        requires
            self.wf(),
            j < self@.recs.len(),
        ensures
            r == is_desc(self@, j as int, i as int),
    {
        let mut cur = j;
        let mut f: usize = self.len();
        loop
            invariant
                self.wf(),
                cur < self@.recs.len(),
                is_desc_in(self@, cur as int, i as int, f as nat) == is_desc(self@, j as int, i as int),
            decreases f,
        {
            if f == 0 {
                return false;
            }
            match self.up(cur) {
                None => {
                    return false;
                }
                Some(p) => {
                    if p == i {
                        return true;
                    }
                    cur = p;
                    f = f - 1;
                }
            }
        }
    }

    /// Appends the text of node `i` if it is a text node, else that of the text nodes
    /// below it, at most `f` steps deep.
    fn push_text_of_node(&self, out: &mut Vec<char>, i: u32, f: usize)
        requires
            self.wf(),
            i < self@.recs.len(),
        ensures
            final(out)@ == old(out)@ + text_of_node(self@, i as int, f as nat),
        decreases f, 1int,
    {
        if f == 0 {
            proof {
                assert(out@ =~= old(out)@ + text_of_node(self@, i as int, f as nat));
            }
            return;
        }
        if self.tag_code(i) == TEXT_TAG {
            crate::text::push_chars(out, self.text(i).as_slice());
            return;
        }
        match self.first_child(i) {
            Some(c) => {
                proof {
                    assert(crate::dom::nodes::rec_links_ok(self@.recs[i as int], self@.recs.len() as int));
                }
                self.push_text_of_kids(out, c, f - 1);
            }
            None => {
                proof {
                    assert(out@ =~= old(out)@ + text_of_node(self@, i as int, f as nat));
                }
            }
        }
    }

    /// Appends the text of node `c` and of the siblings after it, at most `f` steps deep.
    fn push_text_of_kids(&self, out: &mut Vec<char>, c: u32, f: usize)
        requires
            self.wf(),
            c < self@.recs.len(),
        ensures
            final(out)@ == old(out)@ + text_of_kids(self@, c as int, f as nat),
        decreases f, 0int,
    {
        let ghost start = old(out)@;
        let mut x = c;
        let mut g = f;
        loop
            invariant
                self.wf(),
                x < self@.recs.len(),
                g <= f,
                start == old(out)@,
                out@ + text_of_kids(self@, x as int, g as nat) == start + text_of_kids(self@, c as int, f as nat),
            decreases g,
        {
            if g == 0 {
                proof {
                    assert(out@ + text_of_kids(self@, x as int, g as nat) =~= out@);
                }
                return;
            }
            let ghost before = out@;
            self.push_text_of_node(out, x, g - 1);
            match self.next_sibling(x) {
                Some(n) => {
                    proof {
                        assert(crate::dom::nodes::rec_links_ok(self@.recs[x as int], self@.recs.len() as int));
                        assert(before + (text_of_node(self@, x as int, (g - 1) as nat) + text_of_kids(self@, n as int, (g - 1) as nat))
                            =~= out@ + text_of_kids(self@, n as int, (g - 1) as nat));
                    }
                    x = n;
                    g = g - 1;
                }
                None => {
                    proof {
                        assert(text_of_kids(self@, x as int, g as nat) =~= text_of_node(self@, x as int, (g - 1) as nat));
                    }
                    return;
                }
            }
        }
    }

    /// The text of the text nodes below node `i`, in document order.
    pub fn text_content(&self, i: u32) -> (r: Vec<char>)
        requires
            self.wf(),
            i < self@.recs.len(),
        ensures
            r@ == text_content(self@, i as int),
    {
        let mut out: Vec<char> = Vec::new();
        if self.tag_code(i) == TEXT_TAG {
            return out;
        }
        let f: usize = 2 * self.len();
        self.push_text_of_node(&mut out, i, f);
        proof {
            assert(out@ =~= text_content(self@, i as int));
        }
        out
    }
}

} // verus!
