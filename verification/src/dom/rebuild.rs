//! Rebuilding a document: a fresh copy of what its root reaches, numbered in document
//! order, without the nodes that edits left out of the tree.
use vstd::prelude::*;

use crate::css::patterns::attribute_pattern::AttributeName;
use crate::dom::document::{attrs_view, dom_ok, ordered, strs_view, AttrV, Attribute, DomInner, DomV, MAX_NODES};
use crate::dom::nodes::{is_string_tag, links_ok, new_rec, spec_add_last, NodeRec, ROOT_TAG};
use crate::fmt::{children_html, doc_html, in_svg, node_html, walk_fuel};
use crate::dom::nav::{below, forest_of, is_elem, tree_of};

verus! {

/// A document holding its root alone.
pub open spec fn root_dom() -> DomV {
    DomV {
        recs: seq![new_rec(ROOT_TAG, None, None, None)],
        names: seq![Seq::<char>::empty()],
        attrs: seq![Seq::<AttrV>::empty()],
        classes: seq![Seq::<Seq<char>>::empty()],
        texts: seq![Seq::<char>::empty()],
    }
}

/// `out` with a copy of node `i` of `d`, without its children, added as last child of
/// node `p`.
pub open spec fn add_copy(out: DomV, d: DomV, i: int, p: int) -> DomV {
    DomV {
        recs: spec_add_last(out.recs, p, d.recs[i].tag),
        names: out.names.push(d.names[i]),
        attrs: out.attrs.push(d.attrs[i]),
        classes: out.classes.push(d.classes[i]),
        texts: out.texts.push(d.texts[i]),
    }
}

/// `out` with a copy of node `i` of `d` and what lies below it, at most `fuel` steps
/// deep, added as last child of node `p`; nothing more once `out` is full.
pub open spec fn copy_node(d: DomV, out: DomV, i: int, p: int, fuel: nat) -> DomV
    decreases fuel,
{
    if fuel == 0 || !(0 <= i < d.recs.len()) || out.recs.len() + 1 >= MAX_NODES {
        out
    } else {
        let out1 = add_copy(out, d, i, p);
        match d.recs[i].first {
            Some(c) => copy_kids(d, out1, c as int, out.recs.len() as int, (fuel - 1) as nat),
            None => out1,
        }
    }
}

/// `out` with copies of node `c` of `d`, the siblings after it and what lies below
/// them, at most `fuel` steps deep, added as last children of node `p`.
pub open spec fn copy_kids(d: DomV, out: DomV, c: int, p: int, fuel: nat) -> DomV
    decreases fuel,
{
    if fuel == 0 || !(0 <= c < d.recs.len()) {
        out
    } else {
        let out1 = copy_node(d, out, c, p, (fuel - 1) as nat);
        match d.recs[c].next {
            Some(x) => copy_kids(d, out1, x as int, p, (fuel - 1) as nat),
            None => out1,
        }
    }
}

/// The rebuilt form of `d`: a fresh root with copies of what the root of `d` reaches,
/// walked as a written-out document walks it.
pub open spec fn rebuilt(d: DomV) -> DomV {
    match d.recs[0].first {
        Some(c) => copy_kids(d, root_dom(), c as int, 0, (walk_fuel(d) - 1) as nat),
        None => root_dom(),
    }
}

/// Whether each part of `o` has one entry per node.
pub open spec fn tables_ok(o: DomV) -> bool {
    &&& o.names.len() == o.recs.len()
    &&& o.attrs.len() == o.recs.len()
    &&& o.classes.len() == o.recs.len()
    &&& o.texts.len() == o.recs.len()
}

/// Whether `n1` keeps what `out` holds at the nodes before `s`, but the first and last
/// child of node `p` and the next sibling of node `l0`.
pub open spec fn keeps(out: DomV, n1: DomV, s: int, p: int, l0: Option<u32>) -> bool {
    &&& n1.recs.len() >= s
    &&& forall|j: int| 0 <= j < s ==> {
        &&& (#[trigger] n1.recs[j]).tag == out.recs[j].tag
        &&& n1.names[j] == out.names[j]
        &&& n1.attrs[j] == out.attrs[j]
        &&& n1.classes[j] == out.classes[j]
        &&& n1.texts[j] == out.texts[j]
    }
    &&& forall|j: int| 0 <= j < s && j != p ==> (#[trigger] n1.recs[j]).first == out.recs[j].first
        && n1.recs[j].last == out.recs[j].last
    &&& forall|j: int| 0 <= j < s && l0 != Some(j as u32) ==> (#[trigger] n1.recs[j]).next == out.recs[j].next
}

/// What adding a last child to node `p` does to the records.
pub proof fn lemma_add_last_facts(v: Seq<NodeRec>, p: int, t: u8)
    requires
        links_ok(v),
        0 <= p < v.len(),
        v.len() < MAX_NODES,
    ensures
        spec_add_last(v, p, t).len() == v.len() + 1,
        links_ok(spec_add_last(v, p, t)),
        spec_add_last(v, p, t)[v.len() as int] == new_rec(t, Some(p as u32), v[p].last, None),
        spec_add_last(v, p, t)[p].last == Some(v.len() as u32),
        v[p].last is None ==> spec_add_last(v, p, t)[p].first == Some(v.len() as u32),
        v[p].last is Some ==> spec_add_last(v, p, t)[p].first == v[p].first,
        v[p].last matches Some(l) ==> spec_add_last(v, p, t)[l as int].next == Some(v.len() as u32),
        forall|j: int| 0 <= j < v.len() ==> (#[trigger] spec_add_last(v, p, t)[j]).tag == v[j].tag,
        forall|j: int| 0 <= j < v.len() && j != p ==> (#[trigger] spec_add_last(v, p, t)[j]).first == v[j].first
            && spec_add_last(v, p, t)[j].last == v[j].last,
        forall|j: int| 0 <= j < v.len() && v[p].last != Some(j as u32) ==> (#[trigger] spec_add_last(v, p, t)[j]).next == v[j].next,
{
    broadcast use crate::dom::nodes::group_links_ok;
    let n = v.len() as int;
    assert(crate::dom::nodes::rec_links_ok(v[p], n));
    let pv = v[p].last;
    let v1 = v.push(new_rec(t, Some(p as u32), pv, None));
    assert(links_ok(v1)) by {
        assert forall|j: int| 0 <= j < v1.len() implies crate::dom::nodes::rec_links_ok(#[trigger] v1[j], v1.len() as int) by {
            if j < n {
                assert(crate::dom::nodes::rec_links_ok(v[j], n));
            }
        }
    }
}

/// How many nodes `copy_node` adds for node `i` of `d` where `out` has room for them.
pub open spec fn node_count(d: DomV, i: int, fuel: nat) -> nat
    decreases fuel,
{
    if fuel == 0 || !(0 <= i < d.recs.len()) {
        0
    } else {
        1 + match d.recs[i].first {
            Some(c) => kids_count(d, c as int, (fuel - 1) as nat),
            None => 0,
        }
    }
}

/// How many nodes `copy_kids` adds for node `c` of `d` and the siblings after it where
/// `out` has room for them.
pub open spec fn kids_count(d: DomV, c: int, fuel: nat) -> nat
    decreases fuel,
{
    if fuel == 0 || !(0 <= c < d.recs.len()) {
        0
    } else {
        node_count(d, c, (fuel - 1) as nat) + match d.recs[c].next {
            Some(x) => kids_count(d, x as int, (fuel - 1) as nat),
            None => 0,
        }
    }
}

/// Whether the copy of what the root of `d` reaches fits in a document.
pub open spec fn copy_fits(d: DomV) -> bool {
    match d.recs[0].first {
        Some(c) => kids_count(d, c as int, (walk_fuel(d) - 1) as nat) + 2 < MAX_NODES,
        None => true,
    }
}

/// Whether the nodes `a` to `m` of `n` link, by first child and next sibling, only to
/// nodes after them and before `m`.
pub open spec fn closed(n: DomV, a: int, m: int) -> bool {
    &&& 0 <= a <= m <= n.recs.len()
    &&& forall|j: int| a <= j < m ==> match (#[trigger] n.recs[j]).first {
        Some(c) => j < c < m,
        None => true,
    }
    &&& forall|j: int| a <= j < m ==> match (#[trigger] n.recs[j]).next {
        Some(c) => j < c < m,
        None => true,
    }
}

/// Whether `n2` holds what `n` holds at nodes `a` to `m`: tags, first children and
/// contents, and next siblings from node `b` on.
pub open spec fn agree(n: DomV, n2: DomV, a: int, b: int, m: int) -> bool {
    &&& m <= n2.recs.len()
    &&& forall|j: int| a <= j < m ==> {
        &&& (#[trigger] n2.recs[j]).tag == n.recs[j].tag
        &&& n2.recs[j].first == n.recs[j].first
        &&& n2.names[j] == n.names[j]
        &&& n2.attrs[j] == n.attrs[j]
        &&& n2.classes[j] == n.classes[j]
        &&& n2.texts[j] == n.texts[j]
    }
    &&& forall|j: int| b <= j < m ==> (#[trigger] n2.recs[j]).next == n.recs[j].next
}

/// What a closed run of nodes writes out depends on nothing outside it.
pub proof fn lemma_frame(n: DomV, n2: DomV, a: int, b: int, m: int, fuel: nat)
    requires
        closed(n, a, m),
        agree(n, n2, a, b, m),
        a <= b <= a + 1,
    ensures
        forall|j: int, raw: bool, svg: bool| a <= j < m ==> #[trigger] node_html(n2, j, raw, svg, fuel) == node_html(n, j, raw, svg, fuel),
        forall|c: int, raw: bool, svg: bool| b <= c < m ==> #[trigger] children_html(n2, c, raw, svg, fuel) == children_html(n, c, raw, svg, fuel),
    decreases fuel,
{
    if fuel > 0 {
        lemma_frame(n, n2, a, b, m, (fuel - 1) as nat);
        assert forall|j: int, raw: bool, svg: bool| a <= j < m implies #[trigger] node_html(n2, j, raw, svg, fuel) == node_html(n, j, raw, svg, fuel) by {
            assert(n2.recs[j].tag == n.recs[j].tag);
            assert(is_elem(n2, j) == is_elem(n, j));
            match n.recs[j].first {
                Some(c) => {
                    assert(j < c < m);
                    assert(children_html(n2, c as int, raw || (is_elem(n, j) && crate::fmt::raw_text_name(n.names[j])), in_svg(n, j, svg), (fuel - 1) as nat)
                        == children_html(n, c as int, raw || (is_elem(n, j) && crate::fmt::raw_text_name(n.names[j])), in_svg(n, j, svg), (fuel - 1) as nat));
                }
                None => {}
            }
        }
        assert forall|c: int, raw: bool, svg: bool| b <= c < m implies #[trigger] children_html(n2, c, raw, svg, fuel) == children_html(n, c, raw, svg, fuel) by {
            assert(node_html(n2, c, raw, svg, (fuel - 1) as nat) == node_html(n, c, raw, svg, (fuel - 1) as nat));
            assert(n2.recs[c].next == n.recs[c].next);
            match n.recs[c].next {
                Some(x) => {
                    assert(c < x < m);
                    assert(children_html(n2, x as int, raw, svg, (fuel - 1) as nat) == children_html(n, x as int, raw, svg, (fuel - 1) as nat));
                }
                None => {}
            }
        }
    }
}

/// What a copy that added the nodes from `s` on as a run under node `p` leaves: the run
/// links only inside itself, and its first node follows the last child that `p` had, or
/// is the first child of `p`.
pub open spec fn joined_run(out: DomV, n1: DomV, s: int, p: int) -> bool {
    &&& closed(n1, s, n1.recs.len() as int)
    &&& (out.recs[p].last is None ==> n1.recs[p].first == Some(s as u32))
    &&& (out.recs[p].last is Some ==> n1.recs[p].first == out.recs[p].first)
    &&& (out.recs[p].last matches Some(l) ==> n1.recs[l as int].next == Some(s as u32))
}

/// Copying node `i` adds `node_count` nodes in a run that writes out as node `i` does.
pub proof fn lemma_copy_node(d: DomV, out: DomV, i: int, p: int, fuel: nat)
    requires
        links_ok(out.recs),
        tables_ok(out),
        0 <= p < out.recs.len(),
        out.recs.len() + node_count(d, i, fuel) + 1 < MAX_NODES,
    ensures
        copy_node(d, out, i, p, fuel).recs.len() == out.recs.len() + node_count(d, i, fuel),
        links_ok(copy_node(d, out, i, p, fuel).recs),
        tables_ok(copy_node(d, out, i, p, fuel)),
        keeps(out, copy_node(d, out, i, p, fuel), out.recs.len() as int, p, out.recs[p].last),
        node_count(d, i, fuel) == 0 ==> copy_node(d, out, i, p, fuel) == out,
        node_count(d, i, fuel) == 0 ==> forall|raw: bool, svg: bool| #[trigger] node_html(d, i, raw, svg, fuel) == Seq::<char>::empty(),
        node_count(d, i, fuel) > 0 ==> joined_run(out, copy_node(d, out, i, p, fuel), out.recs.len() as int, p),
        node_count(d, i, fuel) > 0 ==> copy_node(d, out, i, p, fuel).recs[p].last == Some(out.recs.len() as u32),
        node_count(d, i, fuel) > 0 ==> copy_node(d, out, i, p, fuel).recs[out.recs.len() as int].next is None,
        node_count(d, i, fuel) > 0 ==> forall|f: nat, raw: bool, svg: bool| f >= 2 * node_count(d, i, fuel) ==>
            #[trigger] node_html(copy_node(d, out, i, p, fuel), out.recs.len() as int, raw, svg, f) == node_html(d, i, raw, svg, fuel),
    decreases fuel, 1int,
{
    let k = out.recs.len() as int;
    if fuel == 0 || !(0 <= i < d.recs.len()) {
        return;
    }
    let t = d.recs[i].tag;
    let out1 = add_copy(out, d, i, p);
    lemma_add_last_facts(out.recs, p, t);
    assert(tables_ok(out1));
    assert(keeps(out, out1, k, p, out.recs[p].last));
    assert(out1.recs[k].first is None && out1.recs[k].next is None && out1.recs[k].last is None);
    match d.recs[i].first {
        Some(c) => {
            lemma_copy_kids(d, out1, c as int, k, (fuel - 1) as nat);
            let n1 = copy_kids(d, out1, c as int, k, (fuel - 1) as nat);
            assert(n1 == copy_node(d, out, i, p, fuel));
            let m = n1.recs.len() as int;
            assert(keeps(out1, n1, k + 1, k, None));
            assert(keeps(out, n1, k, p, out.recs[p].last)) by {
                assert forall|j: int| 0 <= j < k implies (#[trigger] n1.recs[j]).tag == out.recs[j].tag by {
                    assert(n1.recs[j].tag == out1.recs[j].tag);
                }
                assert forall|j: int| 0 <= j < k && j != p implies (#[trigger] n1.recs[j]).first == out.recs[j].first
                    && n1.recs[j].last == out.recs[j].last by {
                    assert(n1.recs[j].first == out1.recs[j].first);
                }
                assert forall|j: int| 0 <= j < k && out.recs[p].last != Some(j as u32) implies (#[trigger] n1.recs[j]).next == out.recs[j].next by {
                    assert(n1.recs[j].next == out1.recs[j].next);
                }
            }
            assert(n1.recs[p].last == Some(k as u32)) by {
                assert(n1.recs[p].last == out1.recs[p].last);
            }
            assert(n1.recs[k].next is None) by {
                assert(n1.recs[k].next == out1.recs[k].next);
            }
            assert(n1.recs[k].tag == t && n1.names[k] == d.names[i] && n1.attrs[k] == d.attrs[i]
                && n1.classes[k] == d.classes[i] && n1.texts[k] == d.texts[i]);
            if m > k + 1 {
                assert(n1.recs[k].first == Some((k + 1) as u32));
            } else {
                assert(n1 == out1);
            }
            assert(joined_run(out, n1, k, p)) by {
                assert forall|j: int| k <= j < m implies match (#[trigger] n1.recs[j]).first {
                    Some(x) => j < x < m,
                    None => true,
                } by {}
                assert forall|j: int| k <= j < m implies match (#[trigger] n1.recs[j]).next {
                    Some(x) => j < x < m,
                    None => true,
                } by {}
                assert(n1.recs[p].first == out1.recs[p].first);
                match out.recs[p].last {
                    Some(l) => {
                        assert(n1.recs[l as int].next == out1.recs[l as int].next);
                    }
                    None => {}
                }
            }
            assert forall|f: nat, raw: bool, svg: bool| f >= 2 * node_count(d, i, fuel) implies
                #[trigger] node_html(n1, k, raw, svg, f) == node_html(d, i, raw, svg, fuel) by {
                assert(is_elem(n1, k) == is_elem(d, i));
                assert(in_svg(n1, k, svg) == in_svg(d, i, svg));
                let craw = raw || (is_elem(d, i) && crate::fmt::raw_text_name(d.names[i]));
                let here = in_svg(d, i, svg);
                if m > k + 1 {
                    assert(children_html(n1, k + 1, craw, here, (f - 1) as nat) == children_html(d, c as int, craw, here, (fuel - 1) as nat));
                } else {
                    assert(children_html(d, c as int, craw, here, (fuel - 1) as nat) == Seq::<char>::empty());
                }
            }
        }
        None => {
            assert(out1 == copy_node(d, out, i, p, fuel));
            assert(joined_run(out, out1, k, p)) by {
                match out.recs[p].last {
                    Some(l) => {}
                    None => {}
                }
            }
            assert forall|f: nat, raw: bool, svg: bool| f >= 2 * node_count(d, i, fuel) implies
                #[trigger] node_html(out1, k, raw, svg, f) == node_html(d, i, raw, svg, fuel) by {
                assert(is_elem(out1, k) == is_elem(d, i));
                assert(in_svg(out1, k, svg) == in_svg(d, i, svg));
            }
        }
    }
}

/// Copying node `c` and the siblings after it adds `kids_count` nodes in a run that
/// writes out as they do.
pub proof fn lemma_copy_kids(d: DomV, out: DomV, c: int, p: int, fuel: nat)
    requires
        links_ok(out.recs),
        tables_ok(out),
        0 <= p < out.recs.len(),
        out.recs.len() + kids_count(d, c, fuel) + 1 < MAX_NODES,
    ensures
        copy_kids(d, out, c, p, fuel).recs.len() == out.recs.len() + kids_count(d, c, fuel),
        links_ok(copy_kids(d, out, c, p, fuel).recs),
        tables_ok(copy_kids(d, out, c, p, fuel)),
        keeps(out, copy_kids(d, out, c, p, fuel), out.recs.len() as int, p, out.recs[p].last),
        kids_count(d, c, fuel) == 0 ==> copy_kids(d, out, c, p, fuel) == out,
        kids_count(d, c, fuel) == 0 ==> forall|raw: bool, svg: bool| #[trigger] children_html(d, c, raw, svg, fuel) == Seq::<char>::empty(),
        kids_count(d, c, fuel) > 0 ==> joined_run(out, copy_kids(d, out, c, p, fuel), out.recs.len() as int, p),
        kids_count(d, c, fuel) > 0 ==> forall|f: nat, raw: bool, svg: bool| f >= 2 * kids_count(d, c, fuel) + 1 ==>
            #[trigger] children_html(copy_kids(d, out, c, p, fuel), out.recs.len() as int, raw, svg, f) == children_html(d, c, raw, svg, fuel),
    decreases fuel, 0int,
{
    let s = out.recs.len() as int;
    if fuel == 0 || !(0 <= c < d.recs.len()) {
        return;
    }
    lemma_copy_node(d, out, c, p, (fuel - 1) as nat);
    let out1 = copy_node(d, out, c, p, (fuel - 1) as nat);
    let m1 = out1.recs.len() as int;
    let nc = node_count(d, c, (fuel - 1) as nat);
    if nc == 0 {
        // nothing was copied: the fuel ran out here
        assert(fuel == 1);
        assert(out1 == out);
        match d.recs[c].next {
            Some(x) => {
                assert(copy_kids(d, out1, x as int, p, 0) == out1);
                assert(kids_count(d, x as int, 0) == 0);
            }
            None => {}
        }
        assert forall|raw: bool, svg: bool| #[trigger] children_html(d, c, raw, svg, fuel) == Seq::<char>::empty() by {
            assert(node_html(d, c, raw, svg, 0) == Seq::<char>::empty());
            match d.recs[c].next {
                Some(x) => {
                    assert(children_html(d, x as int, raw, svg, 0) == Seq::<char>::empty());
                }
                None => {}
            }
        }
        return;
    }
    match d.recs[c].next {
        Some(x) => {
            lemma_copy_kids(d, out1, x as int, p, (fuel - 1) as nat);
            let n1 = copy_kids(d, out1, x as int, p, (fuel - 1) as nat);
            assert(n1 == copy_kids(d, out, c, p, fuel));
            let m = n1.recs.len() as int;
            assert(out1.recs[p].last == Some(s as u32));
            assert(keeps(out1, n1, m1, p, Some(s as u32)));
            assert(keeps(out, n1, s, p, out.recs[p].last)) by {
                assert forall|j: int| 0 <= j < s implies (#[trigger] n1.recs[j]).tag == out.recs[j].tag by {
                    assert(n1.recs[j].tag == out1.recs[j].tag);
                }
                assert forall|j: int| 0 <= j < s && j != p implies (#[trigger] n1.recs[j]).first == out.recs[j].first
                    && n1.recs[j].last == out.recs[j].last by {
                    assert(n1.recs[j].first == out1.recs[j].first);
                }
                assert forall|j: int| 0 <= j < s && out.recs[p].last != Some(j as u32) implies (#[trigger] n1.recs[j]).next == out.recs[j].next by {
                    assert(n1.recs[j].next == out1.recs[j].next);
                }
            }
            // the copy of `c` is left as it was but for its next sibling
            assert(agree(out1, n1, s, s + 1, m1)) by {
                assert forall|j: int| s <= j < m1 implies {
                    &&& (#[trigger] n1.recs[j]).tag == out1.recs[j].tag
                    &&& n1.recs[j].first == out1.recs[j].first
                    &&& n1.names[j] == out1.names[j]
                    &&& n1.attrs[j] == out1.attrs[j]
                    &&& n1.classes[j] == out1.classes[j]
                    &&& n1.texts[j] == out1.texts[j]
                } by {
                    assert(j != p);
                }
                assert forall|j: int| s + 1 <= j < m1 implies (#[trigger] n1.recs[j]).next == out1.recs[j].next by {}
            }
            if m > m1 {
                assert(n1.recs[s].next == Some(m1 as u32));
            } else {
                assert(n1 == out1);
            }
            assert(joined_run(out, n1, s, p)) by {
                assert forall|j: int| s <= j < m implies match (#[trigger] n1.recs[j]).first {
                    Some(y) => j < y < m,
                    None => true,
                } by {
                    if j < m1 {
                        assert(n1.recs[j].first == out1.recs[j].first);
                    }
                }
                assert forall|j: int| s <= j < m implies match (#[trigger] n1.recs[j]).next {
                    Some(y) => j < y < m,
                    None => true,
                } by {
                    if s < j < m1 {
                        assert(n1.recs[j].next == out1.recs[j].next);
                    }
                }
                assert(n1.recs[p].first == out1.recs[p].first);
                match out.recs[p].last {
                    Some(l) => {
                        assert(n1.recs[l as int].next == out1.recs[l as int].next);
                    }
                    None => {}
                }
            }
            assert forall|f: nat, raw: bool, svg: bool| f >= 2 * kids_count(d, c, fuel) + 1 implies
                #[trigger] children_html(n1, s, raw, svg, f) == children_html(d, c, raw, svg, fuel) by {
                lemma_frame(out1, n1, s, s + 1, m1, (f - 1) as nat);
                assert(node_html(n1, s, raw, svg, (f - 1) as nat) == node_html(out1, s, raw, svg, (f - 1) as nat));
                assert(node_html(out1, s, raw, svg, (f - 1) as nat) == node_html(d, c, raw, svg, (fuel - 1) as nat));
                if m > m1 {
                    assert(children_html(n1, m1, raw, svg, (f - 1) as nat) == children_html(d, x as int, raw, svg, (fuel - 1) as nat));
                } else {
                    assert(children_html(d, x as int, raw, svg, (fuel - 1) as nat) == Seq::<char>::empty());
                }
            }
        }
        None => {
            assert(out1 == copy_kids(d, out, c, p, fuel));
            assert forall|f: nat, raw: bool, svg: bool| f >= 2 * kids_count(d, c, fuel) + 1 implies
                #[trigger] children_html(out1, s, raw, svg, f) == children_html(d, c, raw, svg, fuel) by {
                assert(node_html(out1, s, raw, svg, (f - 1) as nat) == node_html(d, c, raw, svg, (fuel - 1) as nat));
            }
        }
    }
}

/// Rebuilding a document writes it out as before, where the copy fits in a document.
pub proof fn lemma_rebuild_renders(d: DomV)
    requires
        dom_ok(d),
        copy_fits(d),
    ensures
        doc_html(rebuilt(d)) == doc_html(d),
{
    let r = root_dom();
    assert(links_ok(r.recs)) by {
        assert(crate::dom::nodes::rec_links_ok(r.recs[0], 1));
    }
    assert(tables_ok(r));
    let n = d.recs.len();
    match d.recs[0].first {
        Some(c) => {
            let fuel = (walk_fuel(d) - 1) as nat;
            lemma_copy_kids(d, r, c as int, 0, fuel);
            let nb = rebuilt(d);
            let m = nb.recs.len();
            assert(nb.recs[0].tag == ROOT_TAG);
            assert(!is_elem(nb, 0) && !is_elem(d, 0));
            assert(!in_svg(nb, 0, false) && !in_svg(d, 0, false));
            if m > 1 {
                assert(nb.recs[0].first == Some(1u32));
                assert(children_html(nb, 1, false, false, (walk_fuel(nb) - 1) as nat) == children_html(d, c as int, false, false, fuel));
            } else {
                assert(nb == r);
                assert(children_html(d, c as int, false, false, fuel) == Seq::<char>::empty());
            }
        }
        None => {}
    }
}

/// A copy either takes in every node it meets or stops with a full document.
proof fn lemma_copy_node_total(d: DomV, out: DomV, i: int, p: int, fuel: nat)
    requires
        links_ok(out.recs),
        tables_ok(out),
        0 <= p < out.recs.len(),
    ensures
        links_ok(copy_node(d, out, i, p, fuel).recs),
        tables_ok(copy_node(d, out, i, p, fuel)),
        copy_node(d, out, i, p, fuel).recs.len() >= out.recs.len(),
        copy_node(d, out, i, p, fuel).recs.len() == out.recs.len() + node_count(d, i, fuel)
            || copy_node(d, out, i, p, fuel).recs.len() + 1 >= MAX_NODES,
    decreases fuel, 1int,
{
    if fuel == 0 || !(0 <= i < d.recs.len()) || out.recs.len() + 1 >= MAX_NODES {
        return;
    }
    let k = out.recs.len() as int;
    lemma_add_last_facts(out.recs, p, d.recs[i].tag);
    let out1 = add_copy(out, d, i, p);
    assert(tables_ok(out1));
    match d.recs[i].first {
        Some(c) => {
            lemma_copy_kids_total(d, out1, c as int, k, (fuel - 1) as nat);
        }
        None => {}
    }
}

/// A copy of a run of siblings either takes in every node it meets or stops with a
/// full document.
proof fn lemma_copy_kids_total(d: DomV, out: DomV, c: int, p: int, fuel: nat)
    requires
        links_ok(out.recs),
        tables_ok(out),
        0 <= p < out.recs.len(),
    ensures
        links_ok(copy_kids(d, out, c, p, fuel).recs),
        tables_ok(copy_kids(d, out, c, p, fuel)),
        copy_kids(d, out, c, p, fuel).recs.len() >= out.recs.len(),
        copy_kids(d, out, c, p, fuel).recs.len() == out.recs.len() + kids_count(d, c, fuel)
            || copy_kids(d, out, c, p, fuel).recs.len() + 1 >= MAX_NODES,
    decreases fuel, 0int,
{
    if fuel == 0 || !(0 <= c < d.recs.len()) {
        return;
    }
    lemma_copy_node_total(d, out, c, p, (fuel - 1) as nat);
    let out1 = copy_node(d, out, c, p, (fuel - 1) as nat);
    match d.recs[c].next {
        Some(x) => {
            lemma_copy_kids_total(d, out1, x as int, p, (fuel - 1) as nat);
        }
        None => {}
    }
}

/// A rebuilt document with room left over copied everything its root reaches.
pub proof fn lemma_rebuilt_room_fits(d: DomV)
    requires
        dom_ok(d),
        rebuilt(d).recs.len() + 1 < MAX_NODES,
    ensures
        copy_fits(d),
{
    let r = root_dom();
    assert(links_ok(r.recs)) by {
        assert(crate::dom::nodes::rec_links_ok(r.recs[0], 1));
    }
    assert(tables_ok(r));
    if let Some(c) = d.recs[0].first {
        lemma_copy_kids_total(d, r, c as int, 0, (walk_fuel(d) - 1) as nat);
    }
}

/// Whether node `j` of `n` is a copy of node `x` of `d`: same tag, name, attributes,
/// classes and text.
pub open spec fn copied(n: DomV, j: int, d: DomV, x: int) -> bool {
    &&& n.recs[j].tag == d.recs[x].tag
    &&& n.names[j] == d.names[x]
    &&& n.attrs[j] == d.attrs[x]
    &&& n.classes[j] == d.classes[x]
    &&& n.texts[j] == d.texts[x]
}

/// `copy_node` adds the nodes of the subtree of `i`, one copy each, in document order.
proof fn lemma_copy_node_order(d: DomV, out: DomV, i: int, p: int, fuel: nat)
    requires
        links_ok(out.recs),
        tables_ok(out),
        0 <= p < out.recs.len(),
        out.recs.len() + node_count(d, i, fuel) + 1 < MAX_NODES,
    ensures
        node_count(d, i, fuel) == tree_of(d, i, fuel).len(),
        forall|m: int| 0 <= m < tree_of(d, i, fuel).len()
            ==> #[trigger] copied(copy_node(d, out, i, p, fuel), out.recs.len() + m, d, tree_of(d, i, fuel)[m]),
    decreases fuel, 1int,
{
    let k = out.recs.len() as int;
    if fuel == 0 || !(0 <= i < d.recs.len()) {
        return;
    }
    lemma_copy_node(d, out, i, p, fuel);
    let out1 = add_copy(out, d, i, p);
    lemma_add_last_facts(out.recs, p, d.recs[i].tag);
    assert(tables_ok(out1));
    let n = copy_node(d, out, i, p, fuel);
    match d.recs[i].first {
        Some(c) => {
            let f1 = (fuel - 1) as nat;
            lemma_copy_kids(d, out1, c as int, k, f1);
            lemma_copy_kids_order(d, out1, c as int, k, f1);
            assert(keeps(out1, n, k + 1, k, None));
            let t = tree_of(d, i, fuel);
            let fo = forest_of(d, c as int, f1);
            assert(t == seq![i] + fo);
            assert forall|m: int| 0 <= m < t.len() implies #[trigger] copied(n, k + m, d, t[m]) by {
                if m == 0 {
                    assert(t[0] == i);
                    assert(n.recs[k].tag == out1.recs[k].tag);
                } else {
                    assert(t[m] == fo[m - 1]);
                    assert(copied(n, (k + 1) + (m - 1), d, fo[m - 1]));
                }
            }
        }
        None => {
            assert(tree_of(d, i, fuel) =~= seq![i]);
            assert(n == out1);
            assert(copied(n, k + 0, d, tree_of(d, i, fuel)[0]));
        }
    }
}

/// `copy_kids` adds the nodes of the subtrees of `c` and the siblings after it, one copy
/// each, in document order.
proof fn lemma_copy_kids_order(d: DomV, out: DomV, c: int, p: int, fuel: nat)
    requires
        links_ok(out.recs),
        tables_ok(out),
        0 <= p < out.recs.len(),
        out.recs.len() + kids_count(d, c, fuel) + 1 < MAX_NODES,
    ensures
        kids_count(d, c, fuel) == forest_of(d, c, fuel).len(),
        forall|m: int| 0 <= m < forest_of(d, c, fuel).len()
            ==> #[trigger] copied(copy_kids(d, out, c, p, fuel), out.recs.len() + m, d, forest_of(d, c, fuel)[m]),
    decreases fuel, 0int,
{
    let s = out.recs.len() as int;
    if fuel == 0 || !(0 <= c < d.recs.len()) {
        return;
    }
    let f1 = (fuel - 1) as nat;
    lemma_copy_node(d, out, c, p, f1);
    lemma_copy_node_order(d, out, c, p, f1);
    let out1 = copy_node(d, out, c, p, f1);
    let m1 = out1.recs.len() as int;
    let t = tree_of(d, c, f1);
    let n = copy_kids(d, out, c, p, fuel);
    match d.recs[c].next {
        Some(x) => {
            lemma_copy_kids(d, out1, x as int, p, f1);
            lemma_copy_kids_order(d, out1, x as int, p, f1);
            let fx = forest_of(d, x as int, f1);
            assert(forest_of(d, c, fuel) == t + fx);
            assert(keeps(out1, n, m1, p, out1.recs[p].last));
            assert forall|m: int| 0 <= m < (t + fx).len() implies #[trigger] copied(n, s + m, d, (t + fx)[m]) by {
                if m < t.len() {
                    assert((t + fx)[m] == t[m]);
                    assert(copied(out1, s + m, d, t[m]));
                    assert(n.recs[s + m].tag == out1.recs[s + m].tag);
                } else {
                    assert((t + fx)[m] == fx[m - t.len()]);
                    assert(copied(n, m1 + (m - t.len()), d, fx[m - t.len()]));
                }
            }
        }
        None => {
            assert(forest_of(d, c, fuel) =~= t);
            assert(n == out1);
        }
    }
}

/// Rebuilding keeps exactly the nodes that the root reaches, in document order: node
/// `m + 1` of the rebuilt document is a copy of the `m`-th node below the root, and
/// there are no others but the new root.
pub proof fn lemma_rebuild_order(d: DomV)
    requires
        dom_ok(d),
        copy_fits(d),
    ensures
        rebuilt(d).recs.len() == below(d, 0).len() + 1,
        forall|m: int| 0 <= m < below(d, 0).len() ==> #[trigger] copied(rebuilt(d), m + 1, d, below(d, 0)[m]),
{
    let r = root_dom();
    assert(links_ok(r.recs)) by {
        assert(crate::dom::nodes::rec_links_ok(r.recs[0], 1));
    }
    assert(tables_ok(r));
    match d.recs[0].first {
        Some(c) => {
            let fuel = (walk_fuel(d) - 1) as nat;
            lemma_copy_kids(d, r, c as int, 0, fuel);
            lemma_copy_kids_order(d, r, c as int, 0, fuel);
            assert forall|m: int| 0 <= m < below(d, 0).len() implies #[trigger] copied(rebuilt(d), m + 1, d, below(d, 0)[m]) by {
                assert(copied(rebuilt(d), r.recs.len() + m, d, forest_of(d, c as int, fuel)[m]));
            }
        }
        None => {}
    }
}

/// The nodes that a copy adds are the nodes that the walk meets.
proof fn lemma_count_is_walk(d: DomV, i: int, f: nat)
    ensures
        node_count(d, i, f) == tree_of(d, i, f).len(),
        kids_count(d, i, f) == forest_of(d, i, f).len(),
    decreases f,
{
    if f > 0 && 0 <= i < d.recs.len() {
        lemma_count_is_walk(d, i, (f - 1) as nat);
        if let Some(c) = d.recs[i].first {
            lemma_count_is_walk(d, c as int, (f - 1) as nat);
        }
        if let Some(n) = d.recs[i].next {
            lemma_count_is_walk(d, n as int, (f - 1) as nat);
        }
    }
}

/// A walk meets only nodes of the document.
proof fn lemma_walk_in_range(d: DomV, i: int, f: nat, x: int)
    ensures
        tree_of(d, i, f).contains(x) ==> 0 <= x < d.recs.len(),
        forest_of(d, i, f).contains(x) ==> 0 <= x < d.recs.len(),
    decreases f,
{
    if f > 0 && 0 <= i < d.recs.len() {
        let f1 = (f - 1) as nat;
        let kids = match d.recs[i].first {
            Some(c) => forest_of(d, c as int, f1),
            None => Seq::empty(),
        };
        if tree_of(d, i, f).contains(x) {
            let k = choose|k: int| 0 <= k < tree_of(d, i, f).len() && tree_of(d, i, f)[k] == x;
            assert(tree_of(d, i, f) == seq![i] + kids);
            if k >= 1 {
                assert(kids[k - 1] == x);
                if let Some(c) = d.recs[i].first {
                    lemma_walk_in_range(d, c as int, f1, x);
                }
            }
        }
        let t = tree_of(d, i, f1);
        let rest = match d.recs[i].next {
            Some(n) => forest_of(d, n as int, f1),
            None => Seq::empty(),
        };
        if forest_of(d, i, f).contains(x) {
            let k = choose|k: int| 0 <= k < forest_of(d, i, f).len() && forest_of(d, i, f)[k] == x;
            assert(forest_of(d, i, f) == t + rest);
            lemma_walk_in_range(d, i, f1, x);
            if k < t.len() {
                assert(t[k] == x);
            } else {
                assert(rest[k - t.len()] == x);
                if let Some(n) = d.recs[i].next {
                    lemma_walk_in_range(d, n as int, f1, x);
                }
            }
        }
    }
}

/// Rebuilding keeps the document: wherever the rebuilt document leaves room for one
/// more node (so that no node the root reaches was left out), it writes out the same
/// HTML, and its nodes after the root are copies of the nodes below the old root, one
/// each, in document order.
pub proof fn lemma_rebuild_keeps(d: DomV)
    requires
        dom_ok(d),
        rebuilt(d).recs.len() + 1 < MAX_NODES,
    ensures
        doc_html(rebuilt(d)) == doc_html(d),
        rebuilt(d).recs.len() == below(d, 0).len() + 1,
        forall|m: int| 0 <= m < below(d, 0).len() ==> #[trigger] copied(rebuilt(d), m + 1, d, below(d, 0)[m]),
{
    lemma_rebuilt_room_fits(d);
    lemma_rebuild_renders(d);
    lemma_rebuild_order(d);
}

/// Whether the links of `d` below its root form a tree: the walk from the root meets
/// no node twice and never comes back to the root.
pub open spec fn tree_shaped(d: DomV) -> bool {
    below(d, 0).no_duplicates() && !below(d, 0).contains(0)
}

/// Rebuilding a well-formed document whose links below the root form a tree writes out
/// the same HTML, wherever a document twice as large as the tree would fit.
pub proof fn lemma_rebuild_renders_tree(d: DomV)
    requires
        dom_ok(d),
        tree_shaped(d),
        d.recs.len() + 2 < MAX_NODES,
    ensures
        copy_fits(d),
        doc_html(rebuilt(d)) == doc_html(d),
{
    let b = below(d, 0);
    if let Some(c) = d.recs[0].first {
        let fuel = (walk_fuel(d) - 1) as nat;
        lemma_count_is_walk(d, c as int, fuel);
        assert(b == forest_of(d, c as int, fuel));
        b.unique_seq_to_set();
        vstd::set_lib::lemma_int_range(1, d.recs.len() as int);
        assert forall|x: int| b.to_set().contains(x) implies vstd::set_lib::set_int_range(1, d.recs.len() as int).contains(x) by {
            assert(b.contains(x));
            lemma_walk_in_range(d, c as int, fuel, x);
        }
        vstd::set_lib::lemma_len_subset(b.to_set(), vstd::set_lib::set_int_range(1, d.recs.len() as int));
    }
    lemma_rebuild_renders(d);
}

/// A copy of attribute `a`.
fn copy_attribute(a: &Attribute) -> (r: Attribute)
    ensures
        r@ == a@,
{
    let name = match &a.name {
        AttributeName::Std(x) => AttributeName::Std(*x),
        AttributeName::Ext(s) => AttributeName::Ext(s.clone()),
        AttributeName::Text => AttributeName::Text,
    };
    Attribute { name, value: a.value.clone() }
}

/// A copy of the attributes `l`.
fn copy_attributes(l: &Vec<Attribute>) -> (r: Vec<Attribute>)
    ensures
        attrs_view(r@) == attrs_view(l@),
{
    let mut r: Vec<Attribute> = Vec::new();
    let mut k: usize = 0;
    while k < l.len()
        invariant
            k <= l@.len(),
            r@.len() == k,
            attrs_view(r@) == attrs_view(l@.take(k as int)),
        decreases l@.len() - k,
    {
        let ghost pre = r@;
        let a = copy_attribute(&l[k]);
        r.push(a);
        proof {
            assert(r@[k as int]@ == l@[k as int]@);
            assert forall|j: int| 0 <= j < k + 1 implies #[trigger] attrs_view(r@)[j] == attrs_view(l@.take(k + 1))[j] by {
                if j < k {
                    assert(r@[j] == pre[j]);
                    assert(attrs_view(pre)[j] == attrs_view(l@.take(k as int))[j]);
                }
            }
            assert(attrs_view(r@) =~= attrs_view(l@.take(k + 1)));
        }
        k = k + 1;
    }
    proof {
        assert(l@.take(l@.len() as int) =~= l@);
    }
    r
}

/// A copy of the strings `l`.
fn copy_strings(l: &Vec<Vec<char>>) -> (r: Vec<Vec<char>>)
    ensures
        strs_view(r@) == strs_view(l@),
{
    let mut r: Vec<Vec<char>> = Vec::new();
    let mut k: usize = 0;
    while k < l.len()
        invariant
            k <= l@.len(),
            r@.len() == k,
            strs_view(r@) == strs_view(l@.take(k as int)),
        decreases l@.len() - k,
    {
        let ghost pre = r@;
        let v = l[k].clone();
        r.push(v);
        proof {
            assert(r@[k as int]@ == l@[k as int]@);
            assert forall|j: int| 0 <= j < k + 1 implies #[trigger] strs_view(r@)[j] == strs_view(l@.take(k + 1))[j] by {
                if j < k {
                    assert(r@[j] == pre[j]);
                    assert(strs_view(pre)[j] == strs_view(l@.take(k as int))[j]);
                }
            }
            assert(strs_view(r@) =~= strs_view(l@.take(k + 1)));
        }
        k = k + 1;
    }
    proof {
        assert(l@.take(l@.len() as int) =~= l@);
    }
    r
}

impl DomInner {
    /// Adds to `out` a copy of node `i` and what lies below it, at most `fuel` steps
    /// deep, as last child of node `p` (see `copy_node`).
    fn copy_node_into(&self, out: &mut DomInner, i: u32, p: u32, fuel: usize)
        requires
            self.wf(),
            i < self@.recs.len(),
            old(out).wf(),
            ordered(old(out)@.recs),
            p < old(out)@.recs.len(),
            !is_string_tag(old(out)@.recs[p as int].tag),
        ensures
            final(out).wf(),
            ordered(final(out)@.recs),
            final(out)@ == copy_node(self@, old(out)@, i as int, p as int, fuel as nat),
            final(out)@.recs.len() >= old(out)@.recs.len(),
            forall|j: int| 0 <= j < old(out)@.recs.len() ==> (#[trigger] final(out)@.recs[j]).tag == old(out)@.recs[j].tag,
        decreases fuel, 1int,
    {
        if fuel == 0 || out.len() + 1 >= MAX_NODES {
            return;
        }
        let ghost o = out@;
        let code = self.tag_code(i);
        proof {
            crate::dom::nodes::lemma_code_of_tag(code);
            self.lemma_shaped(i as int);
            crate::dom::document::lemma_add_last_ordered(o.recs, p as int, code);
        }
        let k = out.append_node(
            p,
            self.tag(i),
            self.name(i).clone(),
            copy_attributes(self.attributes(i)),
            copy_strings(self.class_list(i)),
            self.text(i).clone(),
        );
        proof {
            assert(out@ == add_copy(o, self@, i as int, p as int));
        }
        match self.first_child(i) {
            Some(c) => {
                proof {
                    assert(crate::dom::nodes::rec_links_ok(self@.recs[i as int], self@.recs.len() as int));
                    assert(!is_string_tag(code));
                    assert(out@.recs[k as int].tag == code);
                }
                self.copy_kids_into(out, c, k, fuel - 1);
            }
            None => {}
        }
    }

    /// Adds to `out` copies of node `c`, the siblings after it and what lies below them,
    /// at most `fuel` steps deep, as last children of node `p` (see `copy_kids`).
    fn copy_kids_into(&self, out: &mut DomInner, c: u32, p: u32, fuel: usize)
        requires
            self.wf(),
            c < self@.recs.len(),
            old(out).wf(),
            ordered(old(out)@.recs),
            p < old(out)@.recs.len(),
            !is_string_tag(old(out)@.recs[p as int].tag),
        ensures
            final(out).wf(),
            ordered(final(out)@.recs),
            final(out)@ == copy_kids(self@, old(out)@, c as int, p as int, fuel as nat),
            final(out)@.recs.len() >= old(out)@.recs.len(),
            forall|j: int| 0 <= j < old(out)@.recs.len() ==> (#[trigger] final(out)@.recs[j]).tag == old(out)@.recs[j].tag,
        decreases fuel, 0int,
    {
        let ghost o = out@;
        let mut x = c;
        let mut f = fuel;
        loop
            invariant
                self.wf(),
                x < self@.recs.len(),
                f <= fuel,
                o == old(out)@,
                out.wf(),
                ordered(out@.recs),
                p < o.recs.len(),
                out@.recs.len() >= o.recs.len(),
                forall|j: int| 0 <= j < o.recs.len() ==> (#[trigger] out@.recs[j]).tag == o.recs[j].tag,
                !is_string_tag(o.recs[p as int].tag),
                copy_kids(self@, out@, x as int, p as int, f as nat) == copy_kids(self@, o, c as int, p as int, fuel as nat),
            decreases f,
        {
            if f == 0 {
                return;
            }
            let ghost before = out@;
            proof {
                assert(out@.recs[p as int].tag == o.recs[p as int].tag);
            }
            self.copy_node_into(out, x, p, f - 1);
            proof {
                assert(crate::dom::nodes::rec_links_ok(self@.recs[x as int], self@.recs.len() as int));
                assert forall|j: int| 0 <= j < o.recs.len() implies (#[trigger] out@.recs[j]).tag == o.recs[j].tag by {
                    assert(out@.recs[j].tag == before.recs[j].tag);
                }
            }
            match self.next_sibling(x) {
                Some(n) => {
                    x = n;
                    f = f - 1;
                }
                None => {
                    return;
                }
            }
        }
    }

    /// A fresh copy of what the root reaches, numbered in document order, without the
    /// nodes that edits left out of the tree (see `rebuilt`).
    pub fn rebuild(&self) -> (r: DomInner)
        requires
            self.wf(),
        ensures
            r.wf(),
            ordered(r@.recs),
            r@ == rebuilt(self@),
            copy_fits(self@) ==> doc_html(r@) == doc_html(self@),
            r@.recs.len() + 1 < MAX_NODES ==> doc_html(r@) == doc_html(self@),
            r@.recs.len() + 1 < MAX_NODES ==> r@.recs.len() == below(self@, 0).len() + 1,
            r@.recs.len() + 1 < MAX_NODES ==> forall|m: int| 0 <= m < below(self@, 0).len()
                ==> #[trigger] copied(r@, m + 1, self@, below(self@, 0)[m]),
    {
        let mut out = DomInner::new();
        proof {
            assert(out@ == root_dom());
            assert(ordered(out@.recs)) by {
                assert(crate::dom::document::rec_ordered(out@.recs[0], 0));
            }
            assert(ROOT_TAG == 119 || !is_string_tag(ROOT_TAG));
        }
        match self.first_child(0) {
            Some(c) => {
                proof {
                    assert(crate::dom::nodes::rec_links_ok(self@.recs[0], self@.recs.len() as int));
                }
                self.copy_kids_into(&mut out, c, 0, 2 * self.len() - 1);
            }
            None => {}
        }
        proof {
            if out@.recs.len() + 1 < MAX_NODES {
                lemma_rebuilt_room_fits(self@);
            }
            if copy_fits(self@) {
                lemma_rebuild_renders(self@);
                lemma_rebuild_order(self@);
            }
        }
        out
    }
}

} // verus!
