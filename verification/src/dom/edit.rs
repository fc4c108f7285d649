//! Editing a document: taking elements out, unwrapping and replacing them, pruning
//! what is left empty, and keeping a word space where a block between two inline
//! elements went away.
//!
//! An edited document need not keep its nodes in document order, so every walk here
//! follows the links as they are, and goes at most a bounded number of steps.
use vstd::prelude::*;

use crate::dom::document::{attrs_view, strs_view, with_recs, with_space_after, AttrV, Attribute, DomInner, DomV, MAX_NODES};
use crate::dom::nav::oidx;
use crate::dom::nodes::{code_of, is_string_tag, spec_add_last, spec_remove, spec_replace, spec_unwrap, tag_of_code, COMMENT_TAG, TEXT_TAG};
use crate::html::{htmltag_name, HtmlTag};
use crate::fmt::walk_fuel;
use crate::html::{tag_is_block, tag_is_inline};
use crate::text::{is_white, white};

verus! {

/// The node after the subtree of node `i` in document order: its next sibling, else the
/// next sibling of its nearest ancestor that has one; at most `fuel` steps up.
pub open spec fn next_outside(d: DomV, i: int, fuel: nat) -> Option<int>
    decreases fuel,
{
    if fuel == 0 || !(0 <= i < d.recs.len()) {
        None
    } else {
        match d.recs[i].next {
            Some(n) => Some(n as int),
            None => match d.recs[i].parent {
                Some(p) => next_outside(d, p as int, (fuel - 1) as nat),
                None => None,
            },
        }
    }
}

/// The node after node `i` in document order: its first child, else the node after its
/// subtree.
pub open spec fn next_in_order(d: DomV, i: int) -> Option<int> {
    if !(0 <= i < d.recs.len()) {
        None
    } else {
        match d.recs[i].first {
            Some(c) => Some(c as int),
            None => next_outside(d, i, walk_fuel(d)),
        }
    }
}

/// The last node of the subtree of node `i` in document order, following last children
/// at most `fuel` steps down.
pub open spec fn last_inside(d: DomV, i: int, fuel: nat) -> int
    decreases fuel,
{
    if fuel == 0 || !(0 <= i < d.recs.len()) {
        i
    } else {
        match d.recs[i].last {
            Some(l) => last_inside(d, l as int, (fuel - 1) as nat),
            None => i,
        }
    }
}

/// The node before node `i` in document order: the last node of the subtree of its
/// previous sibling, else its parent.
pub open spec fn prev_in_order(d: DomV, i: int) -> Option<int> {
    if !(0 <= i < d.recs.len()) {
        None
    } else {
        match d.recs[i].prev {
            Some(p) => Some(last_inside(d, p as int, walk_fuel(d))),
            None => oidx(d.recs[i].parent),
        }
    }
}

/// Whether node `i` is a text node that holds some text.
pub open spec fn has_text(d: DomV, i: int) -> bool {
    0 <= i < d.recs.len() && d.recs[i].tag == TEXT_TAG && d.texts[i].len() > 0
}

/// The first character of text at node `i` or after it in document order, looking at
/// most `fuel` nodes on.
pub open spec fn first_char_from(d: DomV, i: int, fuel: nat) -> Option<char>
    decreases fuel,
{
    if fuel == 0 || !(0 <= i < d.recs.len()) {
        None
    } else if has_text(d, i) {
        Some(d.texts[i][0])
    } else {
        match next_in_order(d, i) {
            Some(x) => first_char_from(d, x, (fuel - 1) as nat),
            None => None,
        }
    }
}

/// The last character of text before node `i` in document order, looking at most
/// `fuel` nodes back.
pub open spec fn last_char_before(d: DomV, i: int, fuel: nat) -> Option<char>
    decreases fuel,
{
    if fuel == 0 {
        None
    } else {
        match prev_in_order(d, i) {
            None => None,
            Some(x) => if has_text(d, x) {
                Some(d.texts[x].last())
            } else {
                last_char_before(d, x, (fuel - 1) as nat)
            },
        }
    }
}

/// Whether the text from node `i` on starts with a space.
pub open spec fn starts_with_space(d: DomV, i: int) -> bool {
    first_char_from(d, i, d.recs.len()) == Some(' ')
}

/// Whether the text before node `i` ends with a space.
pub open spec fn ends_with_space(d: DomV, i: int) -> bool {
    last_char_before(d, i, d.recs.len()) == Some(' ')
}

/// Whether node `i` is an inline element.
pub open spec fn inline_at(d: DomV, i: int) -> bool {
    0 <= i < d.recs.len() && tag_is_inline(tag_of_code(d.recs[i].tag))
}

/// Whether node `i` is a block element.
pub open spec fn block_at(d: DomV, i: int) -> bool {
    0 <= i < d.recs.len() && tag_is_block(tag_of_code(d.recs[i].tag))
}

/// Whether every character of `s` is white space.
pub open spec fn all_white(s: Seq<char>) -> bool {
    forall|k: int| 0 <= k < s.len() ==> is_white(#[trigger] s[k])
}

/// Whether the text in node `i` and below it is all white space, looking at most `fuel`
/// steps deep.
pub open spec fn white_node(d: DomV, i: int, fuel: nat) -> bool
    decreases fuel,
{
    if fuel == 0 || !(0 <= i < d.recs.len()) {
        true
    } else {
        &&& (d.recs[i].tag == TEXT_TAG ==> all_white(d.texts[i]))
        &&& match d.recs[i].first {
            Some(c) => white_siblings(d, c as int, (fuel - 1) as nat),
            None => true,
        }
    }
}

/// Whether the text in node `c`, the siblings after it and below them is all white
/// space, looking at most `fuel` steps deep.
pub open spec fn white_siblings(d: DomV, c: int, fuel: nat) -> bool
    decreases fuel,
{
    if fuel == 0 || !(0 <= c < d.recs.len()) {
        true
    } else {
        &&& white_node(d, c, (fuel - 1) as nat)
        &&& match d.recs[c].next {
            Some(n) => white_siblings(d, n as int, (fuel - 1) as nat),
            None => true,
        }
    }
}

/// Whether the text below node `i` is all white space.
pub open spec fn only_white_below(d: DomV, i: int) -> bool {
    match d.recs[i].first {
        Some(c) => white_siblings(d, c as int, walk_fuel(d)),
        None => true,
    }
}

impl DomInner {
    /// Whether node `i` is an inline element.
    pub fn is_inline(&self, i: u32) -> (r: bool)
        requires
            self.wf(),
            i < self@.recs.len(),
        ensures
            r == inline_at(self@, i as int),
    {
        self.tag(i).is_inline_element()
    }

    /// Whether node `i` is a block element.
    pub fn is_block(&self, i: u32) -> (r: bool)
        requires
            self.wf(),
            i < self@.recs.len(),
        ensures
            r == block_at(self@, i as int),
    {
        self.tag(i).is_block_element()
    }

    /// The node after the subtree of node `i` in document order.
    fn next_outside(&self, i: u32) -> (r: Option<u32>)
        requires
            self.wf(),
            i < self@.recs.len(),
        ensures
            oidx(r) == next_outside(self@, i as int, walk_fuel(self@)),
            r matches Some(n) ==> n < self@.recs.len(),
    {
        let ghost d = self@;
        let mut x = i;
        let mut f: usize = 2 * self.len();
        loop
            invariant
                self.wf(),
                d == self@,
                x < d.recs.len(),
                next_outside(d, x as int, f as nat) == next_outside(d, i as int, walk_fuel(d)),
            decreases f,
        {
            if f == 0 {
                return None;
            }
            proof {
                assert(crate::dom::nodes::rec_links_ok(d.recs[x as int], d.recs.len() as int));
            }
            match self.next_sibling(x) {
                Some(n) => {
                    return Some(n);
                }
                None => match self.parent(x) {
                    Some(p) => {
                        x = p;
                        f = f - 1;
                    }
                    None => {
                        return None;
                    }
                },
            }
        }
    }

    /// The node after node `i` in document order.
    fn next_in_order(&self, i: u32) -> (r: Option<u32>)
        requires
            self.wf(),
            i < self@.recs.len(),
        ensures
            oidx(r) == next_in_order(self@, i as int),
            r matches Some(n) ==> n < self@.recs.len(),
    {
        proof {
            assert(crate::dom::nodes::rec_links_ok(self@.recs[i as int], self@.recs.len() as int));
        }
        match self.first_child(i) {
            Some(c) => Some(c),
            None => self.next_outside(i),
        }
    }

    /// The last node of the subtree of node `i` in document order.
    fn last_inside(&self, i: u32) -> (r: u32)
        requires
            self.wf(),
            i < self@.recs.len(),
        ensures
            r == last_inside(self@, i as int, walk_fuel(self@)),
            r < self@.recs.len(),
    {
        let ghost d = self@;
        let mut x = i;
        let mut f: usize = 2 * self.len();
        loop
            invariant
                self.wf(),
                d == self@,
                x < d.recs.len(),
                last_inside(d, x as int, f as nat) == last_inside(d, i as int, walk_fuel(d)),
            decreases f,
        {
            if f == 0 {
                return x;
            }
            proof {
                assert(crate::dom::nodes::rec_links_ok(d.recs[x as int], d.recs.len() as int));
            }
            match self.last_child(x) {
                Some(l) => {
                    x = l;
                    f = f - 1;
                }
                None => {
                    return x;
                }
            }
        }
    }

    /// The node before node `i` in document order.
    fn prev_in_order(&self, i: u32) -> (r: Option<u32>)
        requires
            self.wf(),
            i < self@.recs.len(),
        ensures
            oidx(r) == prev_in_order(self@, i as int),
            r matches Some(n) ==> n < self@.recs.len(),
    {
        proof {
            assert(crate::dom::nodes::rec_links_ok(self@.recs[i as int], self@.recs.len() as int));
        }
        match self.prev_sibling(i) {
            Some(p) => Some(self.last_inside(p)),
            None => self.parent(i),
        }
    }

    /// Whether node `i` is a text node holding some text.
    fn has_text(&self, i: u32) -> (r: bool)
        requires
            self.wf(),
            i < self@.recs.len(),
        ensures
            r == has_text(self@, i as int),
    {
        self.tag_code(i) == TEXT_TAG && self.text(i).len() > 0
    }

    /// Whether the text from node `i` on, in document order, starts with a space.
    pub fn starts_with_space(&self, i: u32) -> (r: bool)
        requires
            self.wf(),
            i < self@.recs.len(),
        ensures
            r == starts_with_space(self@, i as int),
    {
        let ghost d = self@;
        let mut x = i;
        let mut f: usize = self.len();
        loop
            invariant
                self.wf(),
                d == self@,
                x < d.recs.len(),
                first_char_from(d, x as int, f as nat) == first_char_from(d, i as int, d.recs.len()),
            decreases f,
        {
            if f == 0 {
                return false;
            }
            if self.has_text(x) {
                return self.text(x)[0] == ' ';
            }
            match self.next_in_order(x) {
                Some(n) => {
                    x = n;
                    f = f - 1;
                }
                None => {
                    return false;
                }
            }
        }
    }

    /// Whether the text before node `i`, in document order, ends with a space.
    pub fn ends_with_space(&self, i: u32) -> (r: bool)
        requires
            self.wf(),
            i < self@.recs.len(),
        ensures
            r == ends_with_space(self@, i as int),
    {
        let ghost d = self@;
        let mut x = i;
        let mut f: usize = self.len();
        loop
            invariant
                self.wf(),
                d == self@,
                x < d.recs.len(),
                last_char_before(d, x as int, f as nat) == last_char_before(d, i as int, d.recs.len()),
            decreases f,
        {
            if f == 0 {
                return false;
            }
            match self.prev_in_order(x) {
                Some(p) => {
                    if self.has_text(p) {
                        let t = self.text(p);
                        return t[t.len() - 1] == ' ';
                    }
                    x = p;
                    f = f - 1;
                }
                None => {
                    return false;
                }
            }
        }
    }

    /// Whether the text of node `i`, if it is a text node, and the text below it is all
    /// white space, looking at most `fuel` steps deep.
    fn white_node(&self, i: u32, fuel: usize) -> (r: bool)
        requires
            self.wf(),
            i < self@.recs.len(),
        ensures
            r == white_node(self@, i as int, fuel as nat),
        decreases fuel, 1int,
    {
        if fuel == 0 {
            return true;
        }
        if self.tag_code(i) == TEXT_TAG {
            let t = self.text(i);
            let mut k: usize = 0;
            while k < t.len()
                invariant
                    self.wf(),
                    i < self@.recs.len(),
                    t@ == self@.texts[i as int],
                    self@.recs[i as int].tag == TEXT_TAG,
                    fuel > 0,
                    k <= t@.len(),
                    forall|j: int| 0 <= j < k ==> is_white(#[trigger] t@[j]),
                decreases t@.len() - k,
            {
                if !white(t[k]) {
                    proof {
                        assert(!is_white(self@.texts[i as int][k as int]));
                        assert(!all_white(self@.texts[i as int]));
                        assert(!white_node(self@, i as int, fuel as nat));
                    }
                    return false;
                }
                k = k + 1;
            }
        }
        proof {
            assert(crate::dom::nodes::rec_links_ok(self@.recs[i as int], self@.recs.len() as int));
        }
        match self.first_child(i) {
            Some(c) => self.white_siblings(c, fuel - 1),
            None => true,
        }
    }

    /// Whether the text in node `c`, the siblings after it and below them is all white
    /// space, looking at most `fuel` steps deep.
    fn white_siblings(&self, c: u32, fuel: usize) -> (r: bool)
        requires
            self.wf(),
            c < self@.recs.len(),
        ensures
            r == white_siblings(self@, c as int, fuel as nat),
        decreases fuel, 0int,
    {
        let ghost d = self@;
        let mut x = c;
        let mut f = fuel;
        loop
            invariant
                self.wf(),
                d == self@,
                x < d.recs.len(),
                f <= fuel,
                white_siblings(d, x as int, f as nat) == white_siblings(d, c as int, fuel as nat),
            decreases f,
        {
            if f == 0 {
                return true;
            }
            if !self.white_node(x, f - 1) {
                return false;
            }
            proof {
                assert(crate::dom::nodes::rec_links_ok(d.recs[x as int], d.recs.len() as int));
            }
            match self.next_sibling(x) {
                Some(n) => {
                    x = n;
                    f = f - 1;
                }
                None => {
                    return true;
                }
            }
        }
    }

    /// Whether the text below node `i` is all white space.
    pub fn only_white_below(&self, i: u32) -> (r: bool)
        requires
            self.wf(),
            i < self@.recs.len(),
        ensures
            r == only_white_below(self@, i as int),
    {
        proof {
            assert(crate::dom::nodes::rec_links_ok(self@.recs[i as int], self@.recs.len() as int));
        }
        match self.first_child(i) {
            Some(c) => self.white_siblings(c, 2 * self.len()),
            None => true,
        }
    }
}

/// The node an edit leaves the cursor on once node `i` went away: its previous
/// sibling, else its next one, else its parent.
pub open spec fn spec_reposition(prev: Option<u32>, next: Option<u32>, parent: u32) -> u32 {
    match prev {
        Some(p) => p,
        None => match next {
            Some(n) => n,
            None => parent,
        },
    }
}

/// The node a cursor moves to once the node it stood on went away: the previous
/// sibling, else the next one, else the parent.
pub fn reposition_cursor(prev_sibling: Option<u32>, next_sibling: Option<u32>, parent: u32) -> (r: u32)
    ensures
        r == spec_reposition(prev_sibling, next_sibling, parent),
{
    match prev_sibling {
        Some(p) => p,
        None => match next_sibling {
            Some(n) => n,
            None => parent,
        },
    }
}

/// Whether a word space goes between nodes `prev` and `next`: both are inline elements,
/// `prev` stands in the tree and the document has room for one more node, and neither
/// does the text before `next` end with a space nor the text from `next` on start
/// with one.
pub open spec fn space_needed(d: DomV, prev: Option<u32>, next: Option<u32>) -> bool {
    match (prev, next) {
        (Some(a), Some(b)) => {
            &&& inline_at(d, a as int)
            &&& inline_at(d, b as int)
            &&& !ends_with_space(d, b as int)
            &&& !starts_with_space(d, b as int)
            &&& d.recs[a as int].parent is Some
            &&& d.recs.len() < MAX_NODES
        },
        _ => false,
    }
}

/// `d` with a word space after `prev` where one is needed between `prev` and `next`.
pub open spec fn spec_insert_space(d: DomV, prev: Option<u32>, next: Option<u32>) -> DomV {
    if space_needed(d, prev, next) {
        with_space_after(d, prev->0 as int)
    } else {
        d
    }
}

/// Whether the optional node `o` names a node of `d`.
pub open spec fn in_doc(d: DomV, o: Option<u32>) -> bool {
    o matches Some(i) ==> i < d.recs.len()
}

/// Whether pruning takes node `i` away: a `body` or other block element with no text
/// below it but white space, or another element, not `br` nor `hr`, without children.
pub open spec fn prunable(d: DomV, i: int) -> bool {
    let tag = tag_of_code(d.recs[i].tag);
    let childless = d.recs[i].first is None;
    if tag == HtmlTag::body || block_at(d, i) {
        only_white_below(d, i) || childless
    } else {
        tag != HtmlTag::br && tag != HtmlTag::hr && childless
    }
}

/// Pruning from node `i` up, at most `fuel` levels: while the node stands in the tree
/// and is prunable it is taken away, a word space put where a block went from between
/// two inline elements, the cursor moved to where the node stood, and its parent is
/// considered next. Gives the document, the cursor and the node pruning stopped at.
pub open spec fn spec_prune(d: DomV, cursor: u32, i: int, fuel: nat) -> (DomV, u32, u32)
    decreases fuel,
{
    if fuel == 0 || !(0 <= i < d.recs.len()) || d.recs[i].parent is None || !prunable(d, i) {
        (d, cursor, i as u32)
    } else {
        let p = d.recs[i].parent->0;
        let prev = d.recs[i].prev;
        let next = d.recs[i].next;
        let d1 = with_recs(d, spec_remove(d.recs, i).0);
        let d2 = if tag_of_code(d.recs[i].tag) != HtmlTag::body && block_at(d, i) {
            spec_insert_space(d1, prev, next)
        } else {
            d1
        };
        spec_prune(d2, spec_reposition(prev, next, p), p as int, (fuel - 1) as nat)
    }
}

/// Removing node `i`: it leaves the tree, a word space is put where a block went from
/// between two inline elements, and its former parent is pruned. Gives the document and
/// the cursor, which stands where the node stood or where pruning moved it.
pub open spec fn spec_remove_element(d: DomV, i: int) -> (DomV, u32) {
    let p = d.recs[i].parent->0;
    let (recs, cursor) = spec_remove(d.recs, i);
    let d1 = with_recs(d, recs);
    let prev = d1.recs[i].prev;
    let next = d1.recs[i].next;
    let d2 = if (prev is Some || next is Some) && block_at(d1, i) {
        spec_insert_space(d1, prev, next)
    } else {
        d1
    };
    let r = spec_prune(d2, cursor->0, p as int, d2.recs.len());
    (r.0, r.1)
}

/// Replacing node `i` by node `x`: `x` leaves its place for that of `i`, the former
/// parent of `x` is pruned, and where a block gave way to an inline element, word spaces
/// are put on both sides of it as needed.
pub open spec fn spec_replace_with(d: DomV, i: int, x: int) -> DomV {
    let is_block = block_at(d, i);
    let is_inline = inline_at(d, x);
    let prev = d.recs[i].prev;
    let next = d.recs[i].next;
    let sp = d.recs[x].parent->0;
    let d1 = with_recs(d, spec_replace(d.recs, i, x));
    let d2 = spec_prune(d1, i as u32, sp as int, d1.recs.len()).0;
    if is_block && is_inline {
        let d3 = spec_insert_space(d2, prev, Some(x as u32));
        spec_insert_space(d3, Some(x as u32), next)
    } else {
        d2
    }
}

impl DomInner {
    /// Puts a text node holding a single space after `prev` where a word space is needed
    /// between `prev` and `next`.
    pub fn insert_space_node_if_needed(&mut self, prev_sibling: Option<u32>, next_sibling: Option<u32>)
        requires
            old(self).wf(),
            in_doc(old(self)@, prev_sibling),
            in_doc(old(self)@, next_sibling),
        ensures
            final(self).wf(),
            final(self)@ == spec_insert_space(old(self)@, prev_sibling, next_sibling),
            final(self)@.recs.len() >= old(self)@.recs.len(),
    {
        if let (Some(prev), Some(next)) = (prev_sibling, next_sibling) {
            if self.is_inline(prev) && self.is_inline(next) && !self.ends_with_space(next)
                && !self.starts_with_space(next) && self.parent(prev).is_some() && self.len() < MAX_NODES {
                self.add_space_after(prev);
            }
        }
    }

    /// Prunes from node `index` up (see `spec_prune`), at most `fuel` levels; returns the
    /// node pruning stopped at.
    fn prune_up(&mut self, cursor: &mut u32, index: u32, fuel: usize) -> (r: u32)
        requires
            old(self).wf(),
            index < old(self)@.recs.len(),
        ensures
            final(self).wf(),
            (final(self)@, *final(cursor), r) == spec_prune(old(self)@, *old(cursor), index as int, fuel as nat),
            final(self)@.recs.len() >= old(self)@.recs.len(),
        decreases fuel,
    {
        let ghost d = self@;
        if fuel == 0 {
            return index;
        }
        let parent = match self.parent(index) {
            Some(p) => p,
            None => {
                return index;
            }
        };
        proof {
            assert(crate::dom::nodes::rec_links_ok(d.recs[index as int], d.recs.len() as int));
            assert(crate::dom::document::parent_ok(d.recs, index as int));
        }
        let tag = self.tag(index);
        let prev = self.prev_sibling(index);
        let next = self.next_sibling(index);
        let is_block = self.is_block(index);
        let is_childless = self.first_child(index).is_none();
        let prune = if tag == HtmlTag::body || is_block {
            self.only_white_below(index) || is_childless
        } else {
            tag != HtmlTag::br && tag != HtmlTag::hr && is_childless
        };
        if !prune {
            return index;
        }
        self.remove_node(index);
        if tag != HtmlTag::body && is_block {
            self.insert_space_node_if_needed(prev, next);
        }
        *cursor = reposition_cursor(prev, next, parent);
        self.prune_up(cursor, parent, fuel - 1)
    }

    /// Prunes from node `index` up: while the node is prunable (see `prunable`) it is
    /// taken away and its parent considered next. `cursor` is moved to where the last
    /// node taken away stood; returns the node pruning stopped at.
    pub fn prune(&mut self, cursor: &mut u32, index: u32) -> (r: u32)
        requires
            old(self).wf(),
            index < old(self)@.recs.len(),
        ensures
            final(self).wf(),
            (final(self)@, *final(cursor), r) == spec_prune(old(self)@, *old(cursor), index as int, old(self)@.recs.len()),
            final(self)@.recs.len() >= old(self)@.recs.len(),
    {
        let n = self.len();
        self.prune_up(cursor, index, n)
    }

    /// Removes element `index` from the tree, puts a word space where a block went from
    /// between two inline elements and prunes its former parent. Returns the cursor:
    /// where the element stood, or where pruning moved it.
    pub fn remove(&mut self, index: u32) -> (r: Option<u32>)
        requires
            old(self).wf(),
            index < old(self)@.recs.len(),
            old(self)@.recs[index as int].parent is Some,
        ensures
            final(self).wf(),
            (final(self)@, r->0) == spec_remove_element(old(self)@, index as int),
            r is Some,
    {
        let ghost d = self@;
        let parent = match self.parent(index) {
            Some(p) => p,
            None => index,
        };
        proof {
            assert(crate::dom::nodes::rec_links_ok(d.recs[index as int], d.recs.len() as int));
        }
        let new_index = self.remove_node(index);
        proof {
            assert(crate::dom::nodes::rec_links_ok(self@.recs[index as int], self@.recs.len() as int));
        }
        let prev = self.prev_sibling(index);
        let next = self.next_sibling(index);
        let is_block = self.is_block(index);
        if prev.is_some() || next.is_some() {
            if is_block {
                self.insert_space_node_if_needed(prev, next);
            }
        }
        let mut cursor = match new_index {
            Some(c) => c,
            None => index,
        };
        self.prune(&mut cursor, parent);
        Some(cursor)
    }

    /// Replaces node `index` by node `new_index`, taken from where it stood; prunes the
    /// former parent of `new_index`, and where a block gives way to an inline element,
    /// puts word spaces on both sides of it as needed.
    #[verifier::spinoff_prover]
    pub fn replace_with(&mut self, index: u32, new_index: u32)
        requires
            old(self).wf(),
            index < old(self)@.recs.len(),
            new_index < old(self)@.recs.len(),
            index != new_index,
            old(self)@.recs[index as int].parent is Some,
            old(self)@.recs[new_index as int].parent is Some,
        ensures
            final(self).wf(),
            final(self)@ == spec_replace_with(old(self)@, index as int, new_index as int),
    {
        let ghost d = self@;
        let is_block = self.is_block(index);
        let is_substitute_inline = self.is_inline(new_index);
        let prev_sibling = self.prev_sibling(index);
        let next_sibling = self.next_sibling(index);
        let substitute_parent = match self.parent(new_index) {
            Some(p) => p,
            None => new_index,
        };
        proof {
            assert(crate::dom::nodes::rec_links_ok(d.recs[index as int], d.recs.len() as int));
            assert(crate::dom::nodes::rec_links_ok(d.recs[new_index as int], d.recs.len() as int));
        }
        self.replace_node(index, new_index);
        let mut cursor = index;
        self.prune(&mut cursor, substitute_parent);
        if is_block && is_substitute_inline {
            self.insert_space_node_if_needed(prev_sibling, Some(new_index));
            self.insert_space_node_if_needed(Some(new_index), next_sibling);
        }
    }
}

/// The `summary` elements among node `c` and the siblings after it, other than node
/// `i`, at most `fuel` of them looked at.
pub open spec fn summary_kids(d: DomV, i: int, c: int, fuel: nat) -> Seq<u32>
    decreases fuel,
{
    if fuel == 0 || !(0 <= c < d.recs.len()) {
        Seq::empty()
    } else {
        let rest = match d.recs[c].next {
            Some(x) => summary_kids(d, i, x as int, (fuel - 1) as nat),
            None => Seq::empty(),
        };
        if tag_of_code(d.recs[c].tag) == HtmlTag::summary && c != i {
            seq![c as u32] + rest
        } else {
            rest
        }
    }
}

/// `d` with each node of `s` in the tree taken out of it, in order.
pub open spec fn remove_all(d: DomV, s: Seq<u32>) -> DomV
    decreases s.len(),
{
    if s.len() == 0 {
        d
    } else {
        let d1 = remove_all(d, s.drop_last());
        let c = s.last() as int;
        if 0 <= c < d1.recs.len() && d1.recs[c].parent is Some {
            with_recs(d1, spec_remove(d1.recs, c).0)
        } else {
            d1
        }
    }
}

/// Unwrapping element `i`: its `summary` children go, the rest take its place. Where it
/// had none left it is gone and its parent is pruned; where it was a block, word spaces
/// are put as needed where its first and last children meet its siblings. Gives the
/// document and its former first child, else the node pruning stopped at.
pub open spec fn spec_unwrap_element(d: DomV, i: int) -> (DomV, u32) {
    let p = d.recs[i].parent->0;
    let is_block = block_at(d, i);
    let first = d.recs[i].first;
    let last = d.recs[i].last;
    let prev = d.recs[i].prev;
    let next = d.recs[i].next;
    let kids = match first {
        Some(c) => summary_kids(d, i, c as int, d.recs.len()),
        None => Seq::empty(),
    };
    let d1 = remove_all(d, kids);
    let d2 = with_recs(d1, spec_unwrap(d1.recs, i));
    match d1.recs[i].first {
        Some(f) => if is_block {
            (spec_insert_space(spec_insert_space(d2, prev, first), last, next), f)
        } else {
            (d2, f)
        },
        None => {
            let r = spec_prune(d2, i as u32, p as int, d2.recs.len());
            (r.0, r.2)
        },
    }
}

impl DomInner {
    /// The `summary` elements among node `c` and the siblings after it, other than `i`.
    fn summary_children(&self, i: u32, c: u32) -> (r: Vec<u32>)
        requires
            self.wf(),
            c < self@.recs.len(),
        ensures
            r@ == summary_kids(self@, i as int, c as int, self@.recs.len()),
    {
        let ghost d = self@;
        let mut out: Vec<u32> = Vec::new();
        let mut x = c;
        let mut f = self.len();
        loop
            invariant
                self.wf(),
                d == self@,
                x < d.recs.len(),
                out@ + summary_kids(d, i as int, x as int, f as nat) == summary_kids(d, i as int, c as int, d.recs.len()),
            decreases f,
        {
            if f == 0 {
                proof {
                    assert(out@ + summary_kids(d, i as int, x as int, f as nat) =~= out@);
                }
                return out;
            }
            let ghost before = out@;
            let ghost rest = match d.recs[x as int].next {
                Some(y) => summary_kids(d, i as int, y as int, (f - 1) as nat),
                None => Seq::empty(),
            };
            if self.tag(x) == HtmlTag::summary && x != i {
                out.push(x);
                proof {
                    assert(before + (seq![x] + rest) =~= out@ + rest);
                }
            }
            proof {
                assert(crate::dom::nodes::rec_links_ok(d.recs[x as int], d.recs.len() as int));
            }
            match self.next_sibling(x) {
                Some(y) => {
                    x = y;
                    f = f - 1;
                }
                None => {
                    proof {
                        assert(out@ =~= out@ + Seq::<u32>::empty());
                    }
                    return out;
                }
            }
        }
    }

    /// Takes each node of `s` that stands in the tree out of it, in order.
    fn remove_each(&mut self, s: &Vec<u32>, i: u32)
        requires
            old(self).wf(),
            i < old(self)@.recs.len(),
            !s@.contains(i),
        ensures
            final(self).wf(),
            final(self)@ == remove_all(old(self)@, s@),
            final(self)@.recs.len() == old(self)@.recs.len(),
            final(self)@.recs[i as int].parent == old(self)@.recs[i as int].parent,
            final(self)@.recs[i as int].tag == old(self)@.recs[i as int].tag,
    {
        let ghost d = self@;
        let mut k: usize = 0;
        while k < s.len()
            invariant
                self.wf(),
                k <= s@.len(),
                i < d.recs.len(),
                !s@.contains(i),
                self@ == remove_all(d, s@.take(k as int)),
                self@.recs.len() == d.recs.len(),
                self@.recs[i as int].parent == d.recs[i as int].parent,
                self@.recs[i as int].tag == d.recs[i as int].tag,
            decreases s@.len() - k,
        {
            let c = s[k];
            let ghost before = self@;
            proof {
                assert(s@.take(k + 1).drop_last() =~= s@.take(k as int));
                assert(s@.take(k + 1).last() == c);
                assert(c != i) by {
                    assert(s@[k as int] == c);
                }
            }
            if (c as usize) < self.len() && self.parent(c).is_some() {
                self.remove_node(c);
                proof {
                    crate::dom::document::lemma_remove_parents(before.recs, c as int);
                }
            }
            k = k + 1;
        }
        proof {
            assert(s@.take(s@.len() as int) =~= s@);
        }
    }

    /// Unwraps element `index`: its `summary` children go, the rest take its place.
    /// Where none was left, the element is gone and its parent is pruned; where it was a
    /// block, word spaces are put as needed where its first and last children meet its
    /// siblings. Returns its former first child, else the node pruning stopped at.
    #[verifier::spinoff_prover]
    pub fn unwrap_element(&mut self, index: u32) -> (r: Option<u32>)
        requires
            old(self).wf(),
            index < old(self)@.recs.len(),
            old(self)@.recs[index as int].parent is Some,
            !is_string_tag(old(self)@.recs[index as int].tag),
        ensures
            final(self).wf(),
            (final(self)@, r->0) == spec_unwrap_element(old(self)@, index as int),
            r is Some,
    {
        let ghost d = self@;
        let parent = match self.parent(index) {
            Some(p) => p,
            None => index,
        };
        proof {
            assert(crate::dom::nodes::rec_links_ok(d.recs[index as int], d.recs.len() as int));
        }
        let is_block = self.is_block(index);
        let first_child = self.first_child(index);
        let last_child = self.last_child(index);
        let prev_sibling = self.prev_sibling(index);
        let next_sibling = self.next_sibling(index);
        let summaries = match first_child {
            Some(c) => self.summary_children(index, c),
            None => Vec::new(),
        };
        proof {
            if first_child is None {
                assert(summaries@ =~= Seq::<u32>::empty());
            }
            lemma_summary_kids_skip(d, index, d.recs[index as int].first, d.recs.len());
        }
        self.remove_each(&summaries, index);
        match self.unwrap_node(index) {
            Some(new_index) => {
                if is_block {
                    proof {
                        assert(in_doc(self@, first_child));
                        assert(in_doc(self@, last_child));
                    }
                    self.insert_space_node_if_needed(prev_sibling, first_child);
                    self.insert_space_node_if_needed(last_child, next_sibling);
                }
                Some(new_index)
            }
            None => {
                let mut cursor = index;
                let new_index = self.prune(&mut cursor, parent);
                Some(new_index)
            }
        }
    }
}

/// The `summary` children collected never include the unwrapped node itself.
proof fn lemma_summary_kids_skip(d: DomV, i: u32, first: Option<u32>, fuel: nat)
    ensures
        first matches Some(c) ==> !summary_kids(d, i as int, c as int, fuel).contains(i),
    decreases fuel,
{
    match first {
        Some(c) => {
            if fuel > 0 && 0 <= c < d.recs.len() {
                lemma_summary_kids_skip(d, i, d.recs[c as int].next, (fuel - 1) as nat);
                let rest = match d.recs[c as int].next {
                    Some(x) => summary_kids(d, i as int, x as int, (fuel - 1) as nat),
                    None => Seq::empty(),
                };
                if tag_of_code(d.recs[c as int].tag) == HtmlTag::summary && c != i {
                    assert((seq![c] + rest).contains(i) ==> rest.contains(i)) by {
                        if (seq![c] + rest).contains(i) {
                            let k = choose|k: int| 0 <= k < (seq![c] + rest).len() && (seq![c] + rest)[k] == i;
                            if k > 0 {
                                assert(rest[k - 1] == i);
                            }
                        }
                    }
                }
            }
        }
        None => {}
    }
}

/// Whether `c` breaks a line.
pub open spec fn is_nl(c: char) -> bool {
    c == '\n' || c == '\r'
}

/// Whether `s` holds only line breaks and tabs: text there for layout alone.
pub open spec fn formatting_only(s: Seq<char>) -> bool {
    forall|k: int| 0 <= k < s.len() ==> is_nl(#[trigger] s[k]) || s[k] == '\t'
}

/// Whether `s` holds a line break.
pub open spec fn has_nl(s: Seq<char>) -> bool {
    exists|k: int| 0 <= k < s.len() && is_nl(#[trigger] s[k])
}

/// Whether `s` holds a tab.
pub open spec fn has_tab(s: Seq<char>) -> bool {
    exists|k: int| 0 <= k < s.len() && #[trigger] s[k] == '\t'
}

/// `s` without its tabs.
pub open spec fn drop_tabs(s: Seq<char>) -> Seq<char>
    decreases s.len(),
{
    if s.len() == 0 {
        s
    } else {
        let r = drop_tabs(s.drop_last());
        if s.last() == '\t' { r } else { r.push(s.last()) }
    }
}

/// Where the newlines at the front of `s` from index `i` on end.
pub open spec fn front_nl(s: Seq<char>, i: int) -> int
    decreases s.len() - i,
{
    if 0 <= i < s.len() && s[i] == '\n' { front_nl(s, i + 1) } else { i }
}

/// Where the newlines at the back of `s` before index `j`, down to `lo`, begin.
pub open spec fn back_nl(s: Seq<char>, j: int, lo: int) -> int
    decreases j - lo,
{
    if lo < j && j <= s.len() && s[j - 1] == '\n' { back_nl(s, j - 1, lo) } else { j }
}

/// `s` without the newlines at its ends.
pub open spec fn trim_nl(s: Seq<char>) -> Seq<char> {
    let a = front_nl(s, 0);
    s.subrange(a, back_nl(s, s.len() as int, a))
}

/// `s` with each newline made a space.
pub open spec fn nl_to_space(s: Seq<char>) -> Seq<char> {
    s.map_values(|c: char| if c == '\n' { ' ' } else { c })
}

/// The text `s` with its layout taken out: tabs dropped, newlines at the ends trimmed
/// and the others made spaces.
pub open spec fn reformatted(s: Seq<char>) -> Seq<char> {
    let s1 = if has_tab(s) { drop_tabs(s) } else { s };
    if has_nl(s) { nl_to_space(trim_nl(s1)) } else { s1 }
}

/// What taking the layout out of node `j` makes of `d`: a text or comment node holding
/// only line breaks and tabs goes, one holding some among other text is rewritten.
pub open spec fn unformat_node(d: DomV, j: int) -> DomV {
    let t = d.recs[j].tag;
    let s = d.texts[j];
    if t != TEXT_TAG && t != COMMENT_TAG {
        d
    } else if formatting_only(s) {
        if d.recs[j].parent is Some { with_recs(d, spec_remove(d.recs, j).0) } else { d }
    } else if has_nl(s) || has_tab(s) {
        DomV { texts: d.texts.update(j, reformatted(s)), ..d }
    } else {
        d
    }
}

/// `d` with the layout taken out of its first `k` nodes, in order.
pub open spec fn unformat_upto(d: DomV, k: int) -> DomV
    decreases k,
{
    if k <= 0 { d } else { unformat_node(unformat_upto(d, k - 1), k - 1) }
}

/// The text `v` with its layout taken out (see `reformatted`).
pub fn reformat(v: &Vec<char>) -> (r: Vec<char>)
    ensures
        r@ == reformatted(v@),
{
    let mut nl = false;
    let mut tab = false;
    let mut k: usize = 0;
    while k < v.len()
        invariant
            k <= v@.len(),
            nl == (exists|j: int| 0 <= j < k && is_nl(#[trigger] v@[j])),
            tab == (exists|j: int| 0 <= j < k && #[trigger] v@[j] == '\t'),
        decreases v@.len() - k,
    {
        if v[k] == '\n' || v[k] == '\r' {
            nl = true;
        }
        if v[k] == '\t' {
            tab = true;
        }
        k = k + 1;
    }
    let mut s1: Vec<char> = Vec::new();
    if tab {
        let mut k: usize = 0;
        while k < v.len()
            invariant
                k <= v@.len(),
                s1@ == drop_tabs(v@.take(k as int)),
            decreases v@.len() - k,
        {
            proof {
                assert(v@.take(k + 1).drop_last() =~= v@.take(k as int));
            }
            if v[k] != '\t' {
                s1.push(v[k]);
            }
            k = k + 1;
        }
        proof {
            assert(v@.take(v@.len() as int) =~= v@);
        }
    } else {
        s1 = v.clone();
    }
    if !nl {
        return s1;
    }
    let mut a: usize = 0;
    while a < s1.len() && s1[a] == '\n'
        invariant
            a <= s1@.len(),
            front_nl(s1@, a as int) == front_nl(s1@, 0),
        decreases s1@.len() - a,
    {
        a = a + 1;
    }
    let mut b: usize = s1.len();
    while a < b && s1[b - 1] == '\n'
        invariant
            a <= b <= s1@.len(),
            a == front_nl(s1@, 0),
            back_nl(s1@, b as int, a as int) == back_nl(s1@, s1@.len() as int, a as int),
        decreases b,
    {
        b = b - 1;
    }
    let mut out: Vec<char> = Vec::new();
    let mut k = a;
    while k < b
        invariant
            a <= k <= b <= s1@.len(),
            out@ == nl_to_space(s1@.subrange(a as int, k as int)),
        decreases b - k,
    {
        if s1[k] == '\n' {
            out.push(' ');
        } else {
            out.push(s1[k]);
        }
        proof {
            assert(nl_to_space(s1@.subrange(a as int, k + 1)) =~= nl_to_space(s1@.subrange(a as int, k as int)).push(
                if s1@[k as int] == '\n' { ' ' } else { s1@[k as int] }));
        }
        k = k + 1;
    }
    out
}

impl DomInner {
    /// Takes the layout out of node `j` (see `unformat_node`).
    fn unformat(&mut self, j: u32)
        requires
            old(self).wf(),
            j < old(self)@.recs.len(),
        ensures
            final(self).wf(),
            final(self)@ == unformat_node(old(self)@, j as int),
            final(self)@.recs.len() == old(self)@.recs.len(),
    {
        let ghost d = self@;
        let t = self.tag_code(j);
        if t != TEXT_TAG && t != COMMENT_TAG {
            return;
        }
        let s = self.text(j);
        let mut layout_only = true;
        let mut nl = false;
        let mut tab = false;
        let mut k: usize = 0;
        while k < s.len()
            invariant
                k <= s@.len(),
                layout_only == (forall|m: int| 0 <= m < k ==> is_nl(#[trigger] s@[m]) || s@[m] == '\t'),
                nl == (exists|m: int| 0 <= m < k && is_nl(#[trigger] s@[m])),
                tab == (exists|m: int| 0 <= m < k && #[trigger] s@[m] == '\t'),
            decreases s@.len() - k,
        {
            let c = s[k];
            if c == '\n' || c == '\r' {
                nl = true;
            } else if c == '\t' {
                tab = true;
            } else {
                layout_only = false;
            }
            k = k + 1;
        }
        if layout_only {
            if self.parent(j).is_some() {
                self.remove_node(j);
                proof {
                    crate::dom::document::lemma_remove_parents(d.recs, j as int);
                }
            }
        } else if nl || tab {
            let r = reformat(s);
            self.set_text(j, r);
        }
    }

    /// Takes the layout out of the text and comment nodes: a node holding only line
    /// breaks and tabs goes; in one holding some among other text the tabs are dropped,
    /// the newlines at its ends trimmed and the others made spaces.
    pub fn remove_formatting(&mut self)
        requires
            old(self).wf(),
        ensures
            final(self).wf(),
            final(self)@ == unformat_upto(old(self)@, old(self)@.recs.len() as int),
    {
        let ghost d = self@;
        let n = self.len();
        let mut j: usize = 0;
        while j < n
            invariant
                self.wf(),
                j <= n,
                n == d.recs.len(),
                self@.recs.len() == n,
                self@ == unformat_upto(d, j as int),
            decreases n - j,
        {
            self.unformat(j as u32);
            j = j + 1;
        }
    }
}

/// The items of `s` whose flag in `drop` is not set, in order.
pub open spec fn kept<A>(s: Seq<A>, drop: Seq<bool>) -> Seq<A>
    decreases s.len(),
{
    if s.len() == 0 {
        Seq::empty()
    } else {
        let r = kept(s.drop_last(), drop.drop_last());
        if drop.last() { r } else { r.push(s.last()) }
    }
}

/// Whether `f`, asked about a class `v`, can answer `b`.
pub open spec fn class_answer<F: Fn(&Vec<char>) -> bool>(f: F, v: Seq<char>, b: bool) -> bool {
    exists|c: &Vec<char>| #![trigger call_ensures(f, (c,), b)] c@ == v && call_ensures(f, (c,), b)
}

/// Whether `f`, asked about an attribute `v`, can answer `b`.
pub open spec fn attr_answer<F: Fn(&Attribute) -> bool>(f: F, v: AttrV, b: bool) -> bool {
    exists|a: &Attribute| #![trigger call_ensures(f, (a,), b)] a@ == v && call_ensures(f, (a,), b)
}

impl DomInner {
    /// Removes the classes of node `i` for which `f` answers `true`, keeping the others
    /// in order; returns how many went.
    pub fn remove_classes<F: Fn(&Vec<char>) -> bool>(&mut self, i: u32, f: F) -> (r: usize)
        requires
            old(self).wf(),
            i < old(self)@.recs.len(),
            forall|c: &Vec<char>| #[trigger] f.requires((c,)),
        ensures
            final(self).wf(),
            exists|drop: Seq<bool>| #![trigger kept(old(self)@.classes[i as int], drop)] {
                &&& drop.len() == old(self)@.classes[i as int].len()
                &&& final(self)@ == (DomV {
                    classes: old(self)@.classes.update(i as int, kept(old(self)@.classes[i as int], drop)),
                    ..old(self)@
                })
                &&& forall|k: int| 0 <= k < drop.len() ==> class_answer(f, old(self)@.classes[i as int][k], #[trigger] drop[k])
            },
            r + final(self)@.classes[i as int].len() == old(self)@.classes[i as int].len(),
    {
        let ghost d = self@;
        let mut list = self.take_classes(i);
        let ghost sv = strs_view(list@);
        let n0: usize = list.len();
        let ghost n = n0 as nat;
        let mut out: Vec<Vec<char>> = Vec::new();
        let ghost mut drop: Seq<bool> = Seq::empty();
        let mut removed: usize = 0;
        let mut k: usize = 0;
        while list.len() > 0
            invariant
                k <= n,
                n <= usize::MAX,
                sv.len() == n,
                list@.len() == n - k,
                strs_view(list@) == sv.skip(k as int),
                drop.len() == k,
                strs_view(out@) == kept(sv.take(k as int), drop),
                removed + out@.len() == k,
                forall|c: &Vec<char>| #[trigger] f.requires((c,)),
                forall|j: int| 0 <= j < k ==> class_answer(f, sv[j], #[trigger] drop[j]),
            decreases list@.len(),
        {
            let ghost pre = list@;
            let x = list.remove(0);
            proof {
                assert(x == pre[0]);
                assert(strs_view(pre)[0] == x@);
                assert(strs_view(pre)[0] == sv.skip(k as int)[0]);
                assert(sv.skip(k as int)[0] == sv[k as int]);
                assert(x@ == sv[k as int]);
                assert forall|j: int| 0 <= j < list@.len() implies #[trigger] strs_view(list@)[j] == sv.skip(k + 1)[j] by {
                    assert(list@[j] == pre[j + 1]);
                    assert(strs_view(pre)[j + 1] == pre[j + 1]@);
                    assert(sv.skip(k as int)[j + 1] == sv[k + 1 + j]);
                }
                assert(strs_view(list@) =~= sv.skip(k + 1));
            }
            let b = f(&x);
            let ghost before = out@;
            if !b {
                out.push(x);
            } else {
                removed = removed + 1;
            }
            proof {
                let nd = drop.push(b);
                assert(sv.take(k + 1).drop_last() =~= sv.take(k as int));
                assert(nd.drop_last() =~= drop);
                assert(strs_view(out@) =~= kept(sv.take(k + 1), nd));
                assert(call_ensures(f, (&x,), nd[k as int]));
                assert(class_answer(f, sv[k as int], b));
                assert forall|j: int| 0 <= j < k + 1 implies class_answer(f, sv[j], #[trigger] nd[j]) by {
                    if j < k {
                        assert(nd[j] == drop[j]);
                    } else {
                        assert(j == k);
                    }
                }
                drop = nd;
            }
            k = k + 1;
        }
        proof {
            assert(sv.take(n as int) =~= sv);
        }
        let ghost kv = strs_view(out@);
        self.set_classes(i, out);
        proof {
            assert(sv == d.classes[i as int]);
            assert(kv == kept(d.classes[i as int], drop));
            assert(self@.classes =~= d.classes.update(i as int, kept(d.classes[i as int], drop)));
            assert(self@ == (DomV { classes: d.classes.update(i as int, kept(d.classes[i as int], drop)), ..d }));
        }
        removed
    }

    /// Adds the class `class` after the classes of node `i`.
    pub fn append_class(&mut self, i: u32, class: &str)
        requires
            old(self).wf(),
            i < old(self)@.recs.len(),
        ensures
            final(self).wf(),
            final(self)@ == (DomV {
                classes: old(self)@.classes.update(i as int, old(self)@.classes[i as int].push(class@)),
                ..old(self)@
            }),
    {
        let ghost d = self@;
        let mut list = self.take_classes(i);
        list.push(crate::text::chars_of(class));
        proof {
            assert(strs_view(list@) =~= d.classes[i as int].push(class@));
        }
        self.set_classes(i, list);
        proof {
            assert(self@.classes =~= d.classes.update(i as int, d.classes[i as int].push(class@)));
        }
    }

    /// Removes the attributes of node `i` for which `f` answers `true`, keeping the
    /// others in order; returns how many went.
    pub fn remove_attributes<F: Fn(&Attribute) -> bool>(&mut self, i: u32, f: F) -> (r: usize)
        requires
            old(self).wf(),
            i < old(self)@.recs.len(),
            forall|a: &Attribute| #[trigger] f.requires((a,)),
        ensures
            final(self).wf(),
            exists|drop: Seq<bool>| #![trigger kept(old(self)@.attrs[i as int], drop)] {
                &&& drop.len() == old(self)@.attrs[i as int].len()
                &&& final(self)@ == (DomV {
                    attrs: old(self)@.attrs.update(i as int, kept(old(self)@.attrs[i as int], drop)),
                    ..old(self)@
                })
                &&& forall|k: int| 0 <= k < drop.len() ==> attr_answer(f, old(self)@.attrs[i as int][k], #[trigger] drop[k])
            },
            r + final(self)@.attrs[i as int].len() == old(self)@.attrs[i as int].len(),
    {
        let ghost d = self@;
        let mut list = self.take_attributes(i);
        let ghost sv = attrs_view(list@);
        let n0: usize = list.len();
        let ghost n = n0 as nat;
        let mut out: Vec<Attribute> = Vec::new();
        let ghost mut drop: Seq<bool> = Seq::empty();
        let mut removed: usize = 0;
        let mut k: usize = 0;
        while list.len() > 0
            invariant
                k <= n,
                n <= usize::MAX,
                sv.len() == n,
                list@.len() == n - k,
                attrs_view(list@) == sv.skip(k as int),
                drop.len() == k,
                attrs_view(out@) == kept(sv.take(k as int), drop),
                removed + out@.len() == k,
                forall|a: &Attribute| #[trigger] f.requires((a,)),
                forall|j: int| 0 <= j < k ==> attr_answer(f, sv[j], #[trigger] drop[j]),
            decreases list@.len(),
        {
            let ghost pre = list@;
            let x = list.remove(0);
            proof {
                assert(x == pre[0]);
                assert(attrs_view(pre)[0] == x@);
                assert(attrs_view(pre)[0] == sv.skip(k as int)[0]);
                assert(sv.skip(k as int)[0] == sv[k as int]);
                assert(x@ == sv[k as int]);
                assert forall|j: int| 0 <= j < list@.len() implies #[trigger] attrs_view(list@)[j] == sv.skip(k + 1)[j] by {
                    assert(list@[j] == pre[j + 1]);
                    assert(attrs_view(pre)[j + 1] == pre[j + 1]@);
                    assert(sv.skip(k as int)[j + 1] == sv[k + 1 + j]);
                }
                assert(attrs_view(list@) =~= sv.skip(k + 1));
            }
            let b = f(&x);
            if !b {
                out.push(x);
            } else {
                removed = removed + 1;
            }
            proof {
                let nd = drop.push(b);
                assert(sv.take(k + 1).drop_last() =~= sv.take(k as int));
                assert(nd.drop_last() =~= drop);
                assert(attrs_view(out@) =~= kept(sv.take(k + 1), nd));
                assert(attr_answer(f, sv[k as int], b));
                assert forall|j: int| 0 <= j < k + 1 implies attr_answer(f, sv[j], #[trigger] nd[j]) by {
                    if j < k {
                        assert(nd[j] == drop[j]);
                    } else {
                        assert(j == k);
                    }
                }
                drop = nd;
            }
            k = k + 1;
        }
        proof {
            assert(sv.take(n as int) =~= sv);
        }
        let ghost kv = attrs_view(out@);
        self.set_attributes(i, out);
        proof {
            assert(sv == d.attrs[i as int]);
            assert(kv == kept(d.attrs[i as int], drop));
            assert(self@.attrs =~= d.attrs.update(i as int, kept(d.attrs[i as int], drop)));
            assert(self@ == (DomV { attrs: d.attrs.update(i as int, kept(d.attrs[i as int], drop)), ..d }));
        }
        removed
    }

    /// Adds the attribute `attr` after the attributes of node `i`.
    pub fn append_attribute(&mut self, i: u32, attr: Attribute)
        requires
            old(self).wf(),
            i < old(self)@.recs.len(),
        ensures
            final(self).wf(),
            final(self)@ == (DomV {
                attrs: old(self)@.attrs.update(i as int, old(self)@.attrs[i as int].push(attr@)),
                ..old(self)@
            }),
    {
        let ghost d = self@;
        let ghost av = attr@;
        let mut list = self.take_attributes(i);
        list.push(attr);
        proof {
            assert(attrs_view(list@) =~= d.attrs[i as int].push(av));
        }
        self.set_attributes(i, list);
        proof {
            assert(self@.attrs =~= d.attrs.update(i as int, d.attrs[i as int].push(av)));
        }
    }
}

impl DomInner {
    /// Adds an element `tag`, with no attributes, classes or children, as last child of
    /// node `i`; returns it.
    pub fn append_child(&mut self, i: u32, tag: HtmlTag) -> (r: u32)
        requires
            old(self).wf(),
            i < old(self)@.recs.len(),
            !is_string_tag(old(self)@.recs[i as int].tag),
            crate::dom::nav::is_elem_tag(code_of(tag)),
            old(self)@.recs.len() < MAX_NODES,
        ensures
            final(self).wf(),
            r == old(self)@.recs.len(),
            final(self)@ == (DomV {
                recs: spec_add_last(old(self)@.recs, i as int, code_of(tag)),
                names: old(self)@.names.push(htmltag_name(tag)),
                attrs: old(self)@.attrs.push(Seq::empty()),
                classes: old(self)@.classes.push(Seq::empty()),
                texts: old(self)@.texts.push(Seq::empty()),
            }),
    {
        let name = crate::text::chars_of(tag.name());
        let r = self.append_node(i, tag, name, Vec::new(), Vec::new(), Vec::new());
        proof {
            assert(attrs_view(Seq::<Attribute>::empty()) =~= Seq::<AttrV>::empty());
            assert(strs_view(Seq::<Vec<char>>::empty()) =~= Seq::<Seq<char>>::empty());
        }
        r
    }
}

/// Removing block element `i` from between two inline element siblings `a` and `c`
/// leaves a word space between them where, once `i` is gone, no space adjoins `c` on
/// either side: `a` is followed by a new text node holding a single space, and that by
/// `c`. (This is stated where the parent of `i` is not itself taken away afterwards:
/// the document root; an element other than `body` and the block elements that still
/// has a child; or any element whose first child is `a`, itself starting with text that
/// is not all white space.)
pub proof fn lemma_remove_block_spaces(d: DomV, i: int)
    requires
        crate::dom::document::dom_ok(d),
        0 < i < d.recs.len(),
        d.recs.len() + 1 < MAX_NODES,
        d.recs[i].parent is Some,
        d.recs[i].prev is Some,
        d.recs[i].next is Some,
        d.recs[i].prev != d.recs[i].next,
        d.recs[i].prev->0 != i,
        d.recs[i].next->0 != i,
        d.recs[i].parent->0 != i,
        block_at(d, i),
        inline_at(d, d.recs[i].prev->0 as int),
        inline_at(d, d.recs[i].next->0 as int),
        d.recs[d.recs[i].prev->0 as int].parent is Some,
        !ends_with_space(with_recs(d, spec_remove(d.recs, i).0), d.recs[i].next->0 as int),
        !starts_with_space(with_recs(d, spec_remove(d.recs, i).0), d.recs[i].next->0 as int),
        ({
            let p = d.recs[i].parent->0 as int;
            let a = d.recs[i].prev->0 as int;
            let t = tag_of_code(d.recs[p].tag);
            ||| d.recs[p].parent is None
            ||| t != HtmlTag::body && !tag_is_block(t) && d.recs[p].first is Some
            ||| d.recs[p].first == Some(a as u32) && d.recs[a].first is Some
                && d.recs[d.recs[a].first->0 as int].tag == TEXT_TAG
                && !all_white(d.texts[d.recs[a].first->0 as int])
        }),
    ensures
        ({
            let r = spec_remove_element(d, i).0;
            let a = d.recs[i].prev->0 as int;
            let c = d.recs[i].next->0 as int;
            let s = d.recs.len() as int;
            &&& r.recs.len() == s + 1
            &&& r.recs[a].next == Some(s as u32)
            &&& r.recs[s].tag == TEXT_TAG
            &&& r.texts[s] == seq![' ']
            &&& r.recs[s].prev == Some(a as u32)
            &&& r.recs[s].next == Some(c as u32)
            &&& r.recs[c].prev == Some(s as u32)
        }),
{
    let v = d.recs;
    let p = v[i].parent->0 as int;
    let a = v[i].prev->0 as int;
    let c = v[i].next->0 as int;
    assert(crate::dom::nodes::links_ok(v));
    assert(crate::dom::nodes::rec_links_ok(v[i], v.len() as int));
    let (recs, cursor) = spec_remove(v, i);
    let d1 = with_recs(d, recs);
    assert(d1.recs.len() == v.len());
    assert(d1.recs[a].next == Some(c as u32));
    assert(d1.recs[c].prev == Some(a as u32));
    assert(d1.recs[i].prev == v[i].prev && d1.recs[i].next == v[i].next);
    assert(d1.recs[i].tag == v[i].tag && d1.recs[a].tag == v[a].tag && d1.recs[c].tag == v[c].tag);
    assert(d1.recs[a].parent == v[a].parent);
    assert(space_needed(d1, v[i].prev, v[i].next));
    let d2 = with_space_after(d1, a);
    assert(spec_insert_space(d1, v[i].prev, v[i].next) == d2);
    let s = v.len() as int;
    assert(d2.recs[a].next == Some(s as u32));
    assert(d2.recs[s].next == Some(c as u32));
    assert(d2.recs[c].prev == Some(s as u32));
    assert(d2.recs[p].tag == v[p].tag);
    assert(d2.recs[p].parent == v[p].parent);
    if v[p].parent is Some {
        assert(v[p].first is Some);
        assert(d1.recs[p].first is Some);
        assert(d2.recs[p].first == d1.recs[p].first);
        let t = tag_of_code(v[p].tag);
        if !(t != HtmlTag::body && !tag_is_block(t)) {
            let x = v[a].first->0 as int;
            let f = walk_fuel(d2);
            assert(d2.recs[p].first == Some(a as u32));
            assert(d2.recs[a].first == Some(x as u32));
            assert(d2.recs[x].tag == TEXT_TAG && d2.texts[x] == d.texts[x]);
            assert(!white_node(d2, x, (f - 3) as nat));
            assert(!white_siblings(d2, x, (f - 2) as nat));
            assert(!white_node(d2, a, (f - 1) as nat));
            assert(!white_siblings(d2, a, f));
            assert(!only_white_below(d2, p));
        }
        assert(!prunable(d2, p));
    }
    assert(spec_prune(d2, cursor->0, p, d2.recs.len()).0 == d2);
}

} // verus!
