//! What a selector matches in a document, as plain values.
//!
//! A compound selector tests one element. A complex selector `a b > c` matches an
//! element when some chain of elements matches its compounds right to left: the element
//! matching `c`, its parent matching `b`, and some ancestor of that parent matching `a`.
//! Every candidate ancestor or sibling is tried afresh. A relative selector list (`:has(> p, + div)`) is checked from the element
//! rightwards, through its children, descendants and later siblings.
use vstd::prelude::*;

use crate::css::patterns::attribute_pattern::{AttrNameV, AttrPatternV};
use crate::css::patterns::combinator::Combinator;
use crate::css::patterns::ordinal_pattern::{ordinal_matches, OrdinalPattern};
use crate::css::patterns::pattern_match::{pattern_matches_attr, pattern_matches_class, pattern_matches_text};
use crate::css::selectors::grammar::{ComplexV, CompoundV, PseudoV, RelV};
use crate::css::selectors::tag::lower;
use crate::dom::document::DomV;
use crate::dom::nav::{
    below, count_next, count_prev, first_elem, first_node, forest_of, is_desc, is_desc_in, is_elem, next_elem, next_elem_in, next_node, prev_elem, prev_elem_in, count_prev_in, count_next_in,
    prev_node, steps, text_content, tree_of, up, EXT_TAG,
};
use crate::fmt::walk_fuel;
use crate::dom::nodes::code_of;
use crate::html::HtmlAttr;

verus! {

/// Whether element `i` has the id `id`.
pub open spec fn has_id(d: DomV, i: int, id: Seq<char>) -> bool {
    exists|k: int| 0 <= k < d.attrs[i].len() && #[trigger] d.attrs[i][k].name == AttrNameV::Std(HtmlAttr::id)
        && d.attrs[i][k].value == id
}

/// Whether element `i` has the class `c`.
pub open spec fn has_class(d: DomV, i: int, c: Seq<char>) -> bool {
    exists|k: int| 0 <= k < d.classes[i].len() && #[trigger] d.classes[i][k] == c
}

/// Whether an attribute of element `i` matches `p`.
pub open spec fn has_attr_match(d: DomV, i: int, p: AttrPatternV) -> bool {
    exists|k: int| 0 <= k < d.attrs[i].len() && #[trigger] pattern_matches_attr(p, d.attrs[i][k])
}

/// Whether a class of element `i` matches `p`.
pub open spec fn has_class_match(d: DomV, i: int, p: AttrPatternV) -> bool {
    exists|k: int| 0 <= k < d.classes[i].len() && #[trigger] pattern_matches_class(p, d.classes[i][k])
}

/// The tests of compound selector `c` on element `i` other than its pseudo-classes.
pub open spec fn compound_local(d: DomV, i: int, c: CompoundV) -> bool {
    &&& c.element matches Some(t) ==> d.recs[i].tag == code_of(t)
    &&& c.ext_element matches Some(n) ==> d.recs[i].tag == EXT_TAG && lower(d.names[i]) == lower(n)
    &&& c.id matches Some(x) ==> has_id(d, i, x)
    &&& c.text matches Some(t) ==> pattern_matches_text(t, text_content(d, i))
    &&& forall|j: int| 0 <= j < c.attributes.len() ==> has_attr_match(d, i, #[trigger] c.attributes[j])
    &&& forall|j: int| 0 <= j < c.classes.len() ==> has_class(d, i, #[trigger] c.classes[j])
    &&& forall|j: int| 0 <= j < c.class_attributes.len() ==> has_class_match(d, i, #[trigger] c.class_attributes[j])
}

/// Whether compound selector `c` matches node `i`.
pub open spec fn compound_matches(d: DomV, i: int, c: CompoundV) -> bool
    decreases c, 0int, 0int,
{
    0 <= i < d.recs.len() && compound_local(d, i, c) && pseudos_from(d, i, c.pseudo_classes, 0)
}

/// Whether the pseudo-classes of `ps` from the `j`-th on all match node `i`.
pub open spec fn pseudos_from(d: DomV, i: int, ps: Seq<PseudoV>, j: int) -> bool
    decreases ps, ps.len() - j, 0int,
{
    if 0 <= j < ps.len() {
        pseudo_matches(d, i, ps[j]) && pseudos_from(d, i, ps, j + 1)
    } else {
        true
    }
}

/// Whether pseudo-class `p` matches node `i`. Positions count element siblings only,
/// from 1; "of type" counts those with the same name.
pub open spec fn pseudo_matches(d: DomV, i: int, p: PseudoV) -> bool
    decreases p, 0int, 0int,
{
    let same = Some(d.names[i]);
    match p {
        PseudoV::Root => i == 0,
        PseudoV::Empty => first_elem(d, i) is None,
        PseudoV::NthChild(o) => ordinal_matches(o, count_prev(d, i, None) + 1int),
        PseudoV::NthLastChild(o) => ordinal_matches(o, count_next(d, i, None) + 1int),
        PseudoV::FirstChild => prev_elem(d, i) is None,
        PseudoV::LastChild => next_elem(d, i) is None,
        PseudoV::OnlyChild => prev_elem(d, i) is None && next_elem(d, i) is None,
        PseudoV::NthOfType(o) => ordinal_matches(o, count_prev(d, i, same) + 1int),
        PseudoV::NthLastOfType(o) => ordinal_matches(o, count_next(d, i, same) + 1int),
        PseudoV::FirstOfType => count_prev(d, i, same) == 0,
        PseudoV::LastOfType => count_next(d, i, same) == 0,
        PseudoV::OnlyOfType => count_prev(d, i, same) == 0 && count_next(d, i, same) == 0,
        PseudoV::Not(l) => !list_from(d, i, l, 0),
        PseudoV::Has(l) => rel_list_from(d, i, l, 0),
        PseudoV::Is(l) => list_from(d, i, l, 0),
    }
}

/// Whether one of the complex selectors of `l` from the `k`-th on matches node `i`.
pub open spec fn list_from(d: DomV, i: int, l: Seq<ComplexV>, k: int) -> bool
    decreases l, l.len() - k, 0int,
{
    if 0 <= k < l.len() {
        complex_matches(d, i, l[k]) || list_from(d, i, l, k + 1)
    } else {
        false
    }
}

/// Whether complex selector `cx` matches node `i`.
pub open spec fn complex_matches(d: DomV, i: int, cx: ComplexV) -> bool
    decreases cx, cx.selectors.len() + 2, 0int,
{
    chain(d, cx, 0, i)
}

/// The combinator that joins the compound at position `kp` from the right to the one
/// on its left; the descendant combinator at the first compound, which has none.
pub open spec fn comb_at(cx: ComplexV, kp: nat) -> Combinator {
    if kp < cx.selectors.len() {
        cx.selectors[cx.selectors.len() - 1 - kp].combinator
    } else {
        Combinator::Descendant
    }
}

/// Whether the compound at position `kp` from the right matches node `a`: the `kp`-th
/// relative selector from the right, or the first compound at position `n`.
pub open spec fn sel_at(d: DomV, cx: ComplexV, kp: nat, a: int) -> bool
    decreases cx, 0int, 0int,
{
    if kp < cx.selectors.len() {
        compound_matches(d, a, cx.selectors[cx.selectors.len() - 1 - kp].selector)
    } else {
        compound_matches(d, a, cx.first)
    }
}

/// Whether the compound at position `k` from the right matches node `a` and some chain
/// of nodes leftwards from `a` matches the compounds left of it, each joined to the next
/// as its combinator asks: `a` descendant combinator stands for some proper ancestor,
/// the child combinator for the parent, the subsequent-sibling combinator for some
/// element sibling before, and the next-sibling combinator for the element just before.
pub open spec fn chain(d: DomV, cx: ComplexV, k: nat, a: int) -> bool
    decreases cx, cx.selectors.len() + 1 - k, 0int,
{
    if k > cx.selectors.len() || !(0 <= a < d.recs.len()) || !sel_at(d, cx, k, a) {
        false
    } else if k >= cx.selectors.len() {
        true
    } else {
        match comb_at(cx, k) {
            Combinator::Descendant => match up(d, a) {
                None => false,
                Some(p) => anc_any(d, cx, k + 1, p, steps(d)),
            },
            Combinator::Child => match up(d, a) {
                None => false,
                Some(p) => chain(d, cx, k + 1, p),
            },
            Combinator::SubsequentSibling => match prev_node(d, a) {
                None => false,
                Some(p) => psib_any(d, cx, k + 1, p, steps(d)),
            },
            Combinator::NextSibling => match prev_elem(d, a) {
                None => false,
                Some(p) => chain(d, cx, k + 1, p),
            },
        }
    }
}

/// Whether the chain from position `k` holds at node `a` or at one of its ancestors, at
/// most `f` parent links up.
pub open spec fn anc_any(d: DomV, cx: ComplexV, k: nat, a: int, f: nat) -> bool
    decreases cx, cx.selectors.len() + 1 - k, f + 1,
{
    if f == 0 || !(0 <= a < d.recs.len()) {
        false
    } else {
        chain(d, cx, k, a) || match up(d, a) {
            None => false,
            Some(p) => anc_any(d, cx, k, p, (f - 1) as nat),
        }
    }
}

/// Whether the chain from position `k` holds at an element among node `a` and the
/// siblings before it, at most `f` links back.
pub open spec fn psib_any(d: DomV, cx: ComplexV, k: nat, a: int, f: nat) -> bool
    decreases cx, cx.selectors.len() + 1 - k, f + 1,
{
    if f == 0 || !(0 <= a < d.recs.len()) {
        false
    } else {
        (is_elem(d, a) && chain(d, cx, k, a)) || match prev_node(d, a) {
            None => false,
            Some(p) => psib_any(d, cx, k, p, (f - 1) as nat),
        }
    }
}

/// Whether one of the complex relative selectors of `l` from the `k`-th on matches
/// from node `i`.
pub open spec fn rel_list_from(d: DomV, i: int, l: Seq<Seq<RelV>>, k: int) -> bool
    decreases l, l.len() - k, 0int,
{
    if 0 <= k < l.len() {
        rel_verify(d, l[k], 0, i) || rel_list_from(d, i, l, k + 1)
    } else {
        false
    }
}

/// Whether the relative selectors of `rs` from the `c`-th on match from node `el`.
pub open spec fn rel_verify(d: DomV, rs: Seq<RelV>, c: int, el: int) -> bool
    decreases rs, rs.len() - c, d.recs.len() + 1,
{
    if !(0 <= c < rs.len()) {
        true
    } else if !(0 <= el < d.recs.len()) {
        false
    } else {
        match rs[c].combinator {
            Combinator::Descendant => desc_loop(d, rs, c, el, 0),
            Combinator::Child => match first_node(d, el) {
                None => false,
                Some(x) => sibs_from(d, rs, c, x, steps(d)),
            },
            Combinator::SubsequentSibling => match next_node(d, el) {
                None => false,
                Some(x) => sibs_from(d, rs, c, x, steps(d)),
            },
            Combinator::NextSibling => match next_elem(d, el) {
                None => false,
                Some(x) => rel_step(d, rs, c, x),
            },
        }
    }
}

/// Whether element `x` matches the `c`-th relative selector and the rest match from it.
pub open spec fn rel_step(d: DomV, rs: Seq<RelV>, c: int, x: int) -> bool
    decreases rs, rs.len() - c, 0int,
{
    0 <= c < rs.len() && is_elem(d, x) && compound_matches(d, x, rs[c].selector) && rel_verify(d, rs, c + 1, x)
}

/// Whether one of the nodes from `j` on that lie below `el` carries the match on.
pub open spec fn desc_loop(d: DomV, rs: Seq<RelV>, c: int, el: int, j: int) -> bool
    decreases rs, rs.len() - c, d.recs.len() - j,
{
    if !(0 <= j < d.recs.len()) || !(0 <= c < rs.len()) {
        false
    } else {
        (is_desc(d, j, el) && rel_step(d, rs, c, j)) || desc_loop(d, rs, c, el, j + 1)
    }
}

/// Whether node `x` or one of the siblings after it, at most `f` links on, carries the
/// match on.
pub open spec fn sibs_from(d: DomV, rs: Seq<RelV>, c: int, x: int, f: nat) -> bool
    decreases rs, rs.len() - c, f,
{
    if f == 0 || !(0 <= x < d.recs.len()) || !(0 <= c < rs.len()) {
        false
    } else {
        rel_step(d, rs, c, x) || match next_node(d, x) {
            None => false,
            Some(y) => sibs_from(d, rs, c, y, (f - 1) as nat),
        }
    }
}

} // verus!

verus! {

/// Whether selector list `l` selects node `j`: an element that it matches.
pub open spec fn picked(d: DomV, l: Seq<ComplexV>, j: int) -> bool {
    is_elem(d, j) && list_from(d, j, l, 0)
}

/// The nodes of the subtree of node `i` that `l` selects, in document order, at most
/// `f` steps deep.
pub open spec fn sel_tree(d: DomV, l: Seq<ComplexV>, i: int, f: nat) -> Seq<int>
    decreases f,
{
    if f == 0 || !(0 <= i < d.recs.len()) {
        Seq::empty()
    } else {
        (if picked(d, l, i) { seq![i] } else { Seq::<int>::empty() }) + match d.recs[i].first {
            Some(c) => sel_forest(d, l, c as int, (f - 1) as nat),
            None => Seq::empty(),
        }
    }
}

/// The nodes of the subtrees of node `c` and of the siblings after it that `l`
/// selects, in document order, at most `f` steps deep.
pub open spec fn sel_forest(d: DomV, l: Seq<ComplexV>, c: int, f: nat) -> Seq<int>
    decreases f,
{
    if f == 0 || !(0 <= c < d.recs.len()) {
        Seq::empty()
    } else {
        sel_tree(d, l, c, (f - 1) as nat) + match d.recs[c].next {
            Some(n) => sel_forest(d, l, n as int, (f - 1) as nat),
            None => Seq::empty(),
        }
    }
}

/// The elements below node `i` that selector list `l` matches, in document order.
pub open spec fn select_below(d: DomV, i: int, l: Seq<ComplexV>) -> Seq<int> {
    if 0 <= i < d.recs.len() {
        match d.recs[i].first {
            Some(c) => sel_forest(d, l, c as int, (walk_fuel(d) - 1) as nat),
            None => Seq::empty(),
        }
    } else {
        Seq::empty()
    }
}

/// The elements below the document root that selector list `l` matches, in document
/// order.
pub open spec fn select_all(d: DomV, l: Seq<ComplexV>) -> Seq<int> {
    select_below(d, 0, l)
}

proof fn lemma_add_contains(a: Seq<int>, b: Seq<int>, k: int)
    ensures
        (a + b).contains(k) <==> (a.contains(k) || b.contains(k)),
{
    if (a + b).contains(k) {
        let x = choose|x: int| 0 <= x < (a + b).len() && (a + b)[x] == k;
        if x < a.len() {
            assert(a[x] == k);
        } else {
            assert(b[x - a.len()] == k);
        }
    }
    if a.contains(k) {
        let x = choose|x: int| 0 <= x < a.len() && a[x] == k;
        assert((a + b)[x] == k);
    }
    if b.contains(k) {
        let x = choose|x: int| 0 <= x < b.len() && b[x] == k;
        assert((a + b)[x + a.len()] == k);
    }
}

/// Selecting in a subtree keeps exactly the nodes of the subtree that the list picks.
pub proof fn lemma_sel_tree_member(d: DomV, l: Seq<ComplexV>, i: int, f: nat, k: int)
    ensures
        sel_tree(d, l, i, f).contains(k) <==> (tree_of(d, i, f).contains(k) && picked(d, l, k)),
        sel_forest(d, l, i, f).contains(k) <==> (forest_of(d, i, f).contains(k) && picked(d, l, k)),
    decreases f,
{
    if f > 0 && 0 <= i < d.recs.len() {
        let f1 = (f - 1) as nat;
        let here = if picked(d, l, i) { seq![i] } else { Seq::<int>::empty() };
        let sk = match d.recs[i].first {
            Some(c) => sel_forest(d, l, c as int, f1),
            None => Seq::empty(),
        };
        let tk = match d.recs[i].first {
            Some(c) => forest_of(d, c as int, f1),
            None => Seq::empty(),
        };
        if let Some(c) = d.recs[i].first {
            lemma_sel_tree_member(d, l, c as int, f1, k);
        }
        lemma_add_contains(here, sk, k);
        lemma_add_contains(seq![i], tk, k);
        if here.contains(k) {
            assert(here[0] == k);
        }
        if seq![i].contains(k) {
            assert(seq![i][0] == k);
        }
        if k == i && picked(d, l, i) {
            assert(here[0] == k);
        }
        if k == i {
            assert(seq![i][0] == k);
        }
        let sn = match d.recs[i].next {
            Some(n) => sel_forest(d, l, n as int, f1),
            None => Seq::empty(),
        };
        let tn = match d.recs[i].next {
            Some(n) => forest_of(d, n as int, f1),
            None => Seq::empty(),
        };
        lemma_sel_tree_member(d, l, i, f1, k);
        if let Some(n) = d.recs[i].next {
            lemma_sel_tree_member(d, l, n as int, f1, k);
        }
        lemma_add_contains(sel_tree(d, l, i, f1), sn, k);
        lemma_add_contains(tree_of(d, i, f1), tn, k);
    }
}

/// The selection of a walk is the walk with the nodes that the list does not pick left
/// out, in the same order.
pub proof fn lemma_sel_is_filter(d: DomV, l: Seq<ComplexV>, i: int, f: nat)
    ensures
        sel_tree(d, l, i, f) == tree_of(d, i, f).filter(|j: int| picked(d, l, j)),
        sel_forest(d, l, i, f) == forest_of(d, i, f).filter(|j: int| picked(d, l, j)),
    decreases f,
{
    let pred = |j: int| picked(d, l, j);
    reveal(Seq::filter);
    if f == 0 || !(0 <= i < d.recs.len()) {
        assert(Seq::<int>::empty().filter(pred) =~= Seq::<int>::empty());
    } else {
        let f1 = (f - 1) as nat;
        assert(seq![i].drop_last() =~= Seq::<int>::empty());
        assert(Seq::<int>::empty().filter(pred) =~= Seq::<int>::empty());
        let here = if picked(d, l, i) { seq![i] } else { Seq::<int>::empty() };
        assert(seq![i].filter(pred) =~= here);
        let tk = match d.recs[i].first {
            Some(c) => forest_of(d, c as int, f1),
            None => Seq::empty(),
        };
        if let Some(c) = d.recs[i].first {
            lemma_sel_is_filter(d, l, c as int, f1);
        }
        Seq::filter_distributes_over_add(seq![i], tk, pred);
        assert(sel_tree(d, l, i, f) == tree_of(d, i, f).filter(pred));
        let tn = match d.recs[i].next {
            Some(n) => forest_of(d, n as int, f1),
            None => Seq::empty(),
        };
        lemma_sel_is_filter(d, l, i, f1);
        if let Some(n) = d.recs[i].next {
            lemma_sel_is_filter(d, l, n as int, f1);
        }
        Seq::filter_distributes_over_add(tree_of(d, i, f1), tn, pred);
    }
}

/// Selecting below a node gives the nodes below it in document order, with those that
/// are not elements the list matches left out.
pub proof fn lemma_select_below_order(d: DomV, i: int, l: Seq<ComplexV>)
    ensures
        select_below(d, i, l) == below(d, i).filter(|j: int| picked(d, l, j)),
{
    reveal(Seq::filter);
    if 0 <= i < d.recs.len() {
        if let Some(c) = d.recs[i].first {
            lemma_sel_is_filter(d, l, c as int, (walk_fuel(d) - 1) as nat);
        } else {
            assert(Seq::<int>::empty().filter(|j: int| picked(d, l, j)) =~= Seq::<int>::empty());
        }
    } else {
        assert(Seq::<int>::empty().filter(|j: int| picked(d, l, j)) =~= Seq::<int>::empty());
    }
}

/// The elements that selecting below a node gives are exactly the nodes below it that
/// are elements the selector list matches: selecting and matching agree.
pub proof fn lemma_select_below_member(d: DomV, i: int, l: Seq<ComplexV>, k: int)
    ensures
        select_below(d, i, l).contains(k) <==> (below(d, i).contains(k) && is_elem(d, k) && list_from(d, k, l, 0)),
{
    if 0 <= i < d.recs.len() {
        if let Some(c) = d.recs[i].first {
            lemma_sel_tree_member(d, l, c as int, (walk_fuel(d) - 1) as nat, k);
        }
    }
}

/// The elements below the root that a selector list selects are exactly the elements
/// below the root that it matches.
pub proof fn lemma_select_all_member(d: DomV, l: Seq<ComplexV>, k: int)
    ensures
        select_all(d, l).contains(k) <==> (below(d, 0).contains(k) && is_elem(d, k) && list_from(d, k, l, 0)),
{
    lemma_select_below_member(d, 0, l, k);
}

/// Whether node `a` is reached from node `x` by following at most `f` previous-sibling
/// links, `x` itself included.
pub open spec fn sibling_at_or_before(d: DomV, x: int, a: int, f: nat) -> bool
    decreases f,
{
    if f == 0 || !(0 <= x < d.recs.len()) {
        false
    } else {
        x == a || match prev_node(d, x) {
            None => false,
            Some(y) => sibling_at_or_before(d, y, a, (f - 1) as nat),
        }
    }
}

/// An element sibling before node `i`: reached by previous-sibling links.
pub open spec fn sibling_before(d: DomV, i: int, a: int) -> bool {
    match prev_node(d, i) {
        None => false,
        Some(x) => sibling_at_or_before(d, x, a, steps(d)),
    }
}

proof fn lemma_chain_first(d: DomV, cx: ComplexV, x: int)
    requires
        cx.selectors.len() == 1,
    ensures
        chain(d, cx, 1, x) == (0 <= x < d.recs.len() && compound_matches(d, x, cx.first)),
{
    if 0 <= x < d.recs.len() {
        assert(sel_at(d, cx, 1, x) == compound_matches(d, x, cx.first));
        assert(chain(d, cx, 1, x) == sel_at(d, cx, 1, x));
    }
}

/// A compound matched at `a`, with `a` at `x` or above it, lets the chain hold from `x`.
proof fn lemma_anc_any_from(d: DomV, cx: ComplexV, x: int, f: nat, a: int)
    requires
        cx.selectors.len() == 1,
        0 <= x < d.recs.len(),
        f > 0,
        a == x || is_desc_in(d, x, a, (f - 1) as nat),
        compound_matches(d, a, cx.first),
    ensures
        anc_any(d, cx, 1, x, f),
    decreases f,
{
    lemma_chain_first(d, cx, x);
    if a != x {
        let p = up(d, x)->0;
        lemma_chain_first(d, cx, p);
        if a != p {
            lemma_anc_any_from(d, cx, p, (f - 1) as nat, a);
        } else {
            assert(anc_any(d, cx, 1, p, (f - 1) as nat));
        }
    }
}

/// Where the chain holds from `x`, it holds at `x` or at one of its ancestors.
proof fn lemma_anc_any_witness(d: DomV, cx: ComplexV, x: int, f: nat) -> (a: int)
    requires
        cx.selectors.len() == 1,
        anc_any(d, cx, 1, x, f),
    ensures
        0 <= x < d.recs.len(),
        f > 0,
        a == x || is_desc_in(d, x, a, (f - 1) as nat),
        compound_matches(d, a, cx.first),
    decreases f,
{
    lemma_chain_first(d, cx, x);
    if chain(d, cx, 1, x) {
        x
    } else {
        let p = up(d, x)->0;
        let a = lemma_anc_any_witness(d, cx, p, (f - 1) as nat);
        assert(is_desc_in(d, x, a, (f - 1) as nat));
        a
    }
}

/// An element matched at `a`, `a` at `x` or before it, lets the chain hold from `x`.
proof fn lemma_psib_any_from(d: DomV, cx: ComplexV, x: int, f: nat, a: int)
    requires
        cx.selectors.len() == 1,
        sibling_at_or_before(d, x, a, f),
        is_elem(d, a),
        compound_matches(d, a, cx.first),
    ensures
        psib_any(d, cx, 1, x, f),
    decreases f,
{
    lemma_chain_first(d, cx, x);
    if a != x {
        let y = prev_node(d, x)->0;
        lemma_psib_any_from(d, cx, y, (f - 1) as nat, a);
    }
}

/// Where the chain holds from `x` among siblings, it holds at an element at or before it.
proof fn lemma_psib_any_witness(d: DomV, cx: ComplexV, x: int, f: nat) -> (a: int)
    requires
        cx.selectors.len() == 1,
        psib_any(d, cx, 1, x, f),
    ensures
        sibling_at_or_before(d, x, a, f),
        is_elem(d, a),
        compound_matches(d, a, cx.first),
    decreases f,
{
    lemma_chain_first(d, cx, x);
    if is_elem(d, x) && chain(d, cx, 1, x) {
        x
    } else {
        let y = prev_node(d, x)->0;
        let a = lemma_psib_any_witness(d, cx, y, (f - 1) as nat);
        a
    }
}

/// What the combinator of a selector `A c B` of two compounds asks of an element `i`
/// that `B` matches: `A B` some ancestor that `A` matches, `A > B` a parent that `A`
/// matches, `A + B` an element just before it that `A` matches, and `A ~ B` some element
/// sibling before it that `A` matches.
pub proof fn lemma_combinator_meaning(d: DomV, i: int, cx: ComplexV)
    requires
        cx.selectors.len() == 1,
        0 <= i < d.recs.len(),
    ensures
        ({
            let b = cx.selectors[0].selector;
            let here = compound_matches(d, i, b);
            match cx.selectors[0].combinator {
                Combinator::Descendant => complex_matches(d, i, cx)
                    <==> (here && exists|a: int| #[trigger] is_desc(d, i, a) && compound_matches(d, a, cx.first)),
                Combinator::Child => complex_matches(d, i, cx)
                    <==> (here && exists|a: int| up(d, i) == Some(a) && #[trigger] compound_matches(d, a, cx.first)),
                Combinator::NextSibling => complex_matches(d, i, cx)
                    <==> (here && exists|a: int| prev_elem(d, i) == Some(a) && #[trigger] compound_matches(d, a, cx.first)),
                Combinator::SubsequentSibling => complex_matches(d, i, cx)
                    <==> (here && exists|a: int| #[trigger] sibling_before(d, i, a) && is_elem(d, a)
                        && compound_matches(d, a, cx.first)),
            }
        }),
{
    let b = cx.selectors[0].selector;
    assert(sel_at(d, cx, 0, i) == compound_matches(d, i, b));
    assert(comb_at(cx, 0) == cx.selectors[0].combinator);
    match cx.selectors[0].combinator {
        Combinator::Descendant => {
            match up(d, i) {
                None => {
                    assert forall|a: int| !#[trigger] is_desc(d, i, a) by {}
                }
                Some(p) => {
                    let f = steps(d);
                    assert forall|a: int| #[trigger] is_desc(d, i, a) && compound_matches(d, a, cx.first)
                        implies anc_any(d, cx, 1, p, f) by {
                        lemma_anc_any_from(d, cx, p, f, a);
                    }
                    if anc_any(d, cx, 1, p, f) {
                        let a = lemma_anc_any_witness(d, cx, p, f);
                        assert(is_desc(d, i, a));
                    }
                }
            }
        }
        Combinator::Child => {
            if let Some(p) = up(d, i) {
                lemma_chain_first(d, cx, p);
            }
        }
        Combinator::NextSibling => {
            if let Some(p) = prev_elem(d, i) {
                lemma_chain_first(d, cx, p);
            }
        }
        Combinator::SubsequentSibling => {
            if let Some(x) = prev_node(d, i) {
                let f = steps(d);
                assert forall|a: int| #[trigger] sibling_before(d, i, a) && is_elem(d, a) && compound_matches(d, a, cx.first)
                    implies psib_any(d, cx, 1, x, f) by {
                    lemma_psib_any_from(d, cx, x, f, a);
                }
                if psib_any(d, cx, 1, x, f) {
                    let a = lemma_psib_any_witness(d, cx, x, f);
                    assert(sibling_before(d, i, a));
                }
            } else {
                assert forall|a: int| !#[trigger] sibling_before(d, i, a) by {}
            }
        }
    }
}

proof fn lemma_no_prev_elem_count(d: DomV, i: int, f: nat)
    ensures
        (prev_elem_in(d, i, f) is None) <==> count_prev_in(d, i, None, f) == 0,
    decreases f,
{
    if f > 0 {
        if let Some(p) = prev_node(d, i) {
            lemma_no_prev_elem_count(d, p, (f - 1) as nat);
        }
    }
}

proof fn lemma_no_next_elem_count(d: DomV, i: int, f: nat)
    ensures
        (next_elem_in(d, i, f) is None) <==> count_next_in(d, i, None, f) == 0,
    decreases f,
{
    if f > 0 {
        if let Some(n) = next_node(d, i) {
            lemma_no_next_elem_count(d, n, (f - 1) as nat);
        }
    }
}

/// The named positions agree with the counted ones: `:first-child` is `:nth-child(1)`,
/// `:last-child` is `:nth-last-child(1)`, `:only-child` is both, and likewise for the
/// `-of-type` forms.
pub proof fn lemma_named_positions(d: DomV, i: int)
    ensures
        pseudo_matches(d, i, PseudoV::FirstChild) == pseudo_matches(d, i, PseudoV::NthChild(OrdinalPattern::N(1))),
        pseudo_matches(d, i, PseudoV::LastChild) == pseudo_matches(d, i, PseudoV::NthLastChild(OrdinalPattern::N(1))),
        pseudo_matches(d, i, PseudoV::OnlyChild)
            == (pseudo_matches(d, i, PseudoV::FirstChild) && pseudo_matches(d, i, PseudoV::LastChild)),
        pseudo_matches(d, i, PseudoV::FirstOfType) == pseudo_matches(d, i, PseudoV::NthOfType(OrdinalPattern::N(1))),
        pseudo_matches(d, i, PseudoV::LastOfType) == pseudo_matches(d, i, PseudoV::NthLastOfType(OrdinalPattern::N(1))),
        pseudo_matches(d, i, PseudoV::OnlyOfType)
            == (pseudo_matches(d, i, PseudoV::FirstOfType) && pseudo_matches(d, i, PseudoV::LastOfType)),
{
    lemma_no_prev_elem_count(d, i, steps(d));
    lemma_no_next_elem_count(d, i, steps(d));
}

/// `:not(l)` matches exactly the nodes that `:is(l)` does not.
pub proof fn lemma_not_is_complement(d: DomV, i: int, l: Seq<ComplexV>)
    ensures
        pseudo_matches(d, i, PseudoV::Not(l)) == !pseudo_matches(d, i, PseudoV::Is(l)),
{
}

} // verus!
