//! A document: the node blob, and for each node its name, attributes, classes and text.
use vstd::prelude::*;

use crate::css::patterns::attribute_pattern::{AttrNameV, AttributeName};
use crate::dom::node_index::NodeIndex;
use crate::dom::nodes::{
    code_of, is_string_tag, links_ok, new_rec, spec_add_last, spec_add_next, spec_remove, spec_replace, spec_detach, spec_unwrap,
    upd_first, upd_last, NodeRec, Nodes, ROOT_TAG, TEXT_TAG,
};
use crate::dom::slots::WIDTH_U24;
use crate::html::HtmlTag;

verus! {

/// The plain value of an element attribute.
pub struct AttrV {
    pub name: AttrNameV,
    pub value: Seq<char>,
}

/// An attribute of an element: a standard or other name, and its value.
#[derive(Debug, Clone)]
pub struct Attribute {
    pub name: AttributeName,
    pub value: String,
}

impl View for Attribute {
    type V = AttrV;

    open spec fn view(&self) -> AttrV {
        AttrV { name: self.name@, value: self.value@ }
    }
}

/// The plain values of a list of attributes.
pub open spec fn attrs_view(l: Seq<Attribute>) -> Seq<AttrV> {
    l.map_values(|a: Attribute| a@)
}

/// The plain values of a list of character vectors.
pub open spec fn strs_view(l: Seq<Vec<char>>) -> Seq<Seq<char>> {
    l.map_values(|v: Vec<char>| v@)
}

/// The plain value of a document: the node records, and for each node its lowercase
/// element name, its attributes (the class attribute aside), its classes and its text.
pub struct DomV {
    pub recs: Seq<NodeRec>,
    pub names: Seq<Seq<char>>,
    pub attrs: Seq<Seq<AttrV>>,
    pub classes: Seq<Seq<Seq<char>>>,
    pub texts: Seq<Seq<char>>,
}

/// The most nodes a document holds, so that every node index fits a 3-byte link.
pub const MAX_NODES: usize = 16777212;

/// A document whose parts agree: one entry per node in each part, links that name
/// nodes of the document, and the root at node 0.
pub open spec fn dom_ok(d: DomV) -> bool {
    &&& 1 <= d.recs.len() <= MAX_NODES
    &&& d.names.len() == d.recs.len()
    &&& d.attrs.len() == d.recs.len()
    &&& d.classes.len() == d.recs.len()
    &&& d.texts.len() == d.recs.len()
    &&& links_ok(d.recs)
    &&& parents_ok(d.recs)
    &&& d.recs[0].tag == ROOT_TAG
}

/// Whether every parent link names an element or the root, never a text or a comment.
pub open spec fn parents_ok(v: Seq<NodeRec>) -> bool {
    forall|j: int| 0 <= j < v.len() ==> #[trigger] parent_ok(v, j)
}

/// Whether the parent link of node `j`, if any, names an element or the root.
pub open spec fn parent_ok(v: Seq<NodeRec>, j: int) -> bool {
    parent_target_ok(v, v[j].parent)
}

/// Whether a parent link `o`, if any, names an element or the root of `v`.
pub open spec fn parent_target_ok(v: Seq<NodeRec>, o: Option<u32>) -> bool {
    match o {
        Some(p) => p < v.len() && !is_string_tag(v[p as int].tag),
        None => true,
    }
}

/// Records with the tags of `v` whose parent links each name an element or the root
/// of `v` have their parents where they should be.
pub proof fn lemma_parents_kept(v: Seq<NodeRec>, w: Seq<NodeRec>)
    requires
        w.len() == v.len(),
        forall|j: int| 0 <= j < v.len() ==> (#[trigger] w[j]).tag == v[j].tag,
        forall|j: int| 0 <= j < v.len() ==> parent_target_ok(v, (#[trigger] w[j]).parent),
    ensures
        parents_ok(w),
{
    assert forall|j: int| 0 <= j < w.len() implies #[trigger] parent_ok(w, j) by {
        assert(parent_target_ok(v, w[j].parent));
        match w[j].parent {
            Some(p) => {
                assert(w[p as int].tag == v[p as int].tag);
            }
            None => {}
        }
    }
}

/// Whether record `r` of node `j` links in document order: its parent and previous
/// sibling before it, its next sibling and children after it.
pub open spec fn rec_ordered(r: NodeRec, j: int) -> bool {
    &&& r.parent matches Some(p) ==> p < j
    &&& r.prev matches Some(p) ==> p < j
    &&& r.next matches Some(x) ==> j < x
    &&& r.first matches Some(x) ==> j < x
    &&& r.last matches Some(x) ==> j < x
}

/// Whether every record links in document order.
pub open spec fn ordered(v: Seq<NodeRec>) -> bool {
    forall|j: int| 0 <= j < v.len() ==> rec_ordered(#[trigger] v[j], j)
}

/// Appending a last child keeps the records in document order and the tags of the
/// nodes there before.
pub proof fn lemma_add_last_ordered(v: Seq<NodeRec>, i: int, t: u8)
    requires
        ordered(v),
        links_ok(v),
        0 <= i < v.len(),
        v.len() < MAX_NODES,
    ensures
        ordered(spec_add_last(v, i, t)),
        spec_add_last(v, i, t).len() == v.len() + 1,
        spec_add_last(v, i, t)[v.len() as int].tag == t,
        forall|j: int| 0 <= j < v.len() ==> #[trigger] spec_add_last(v, i, t)[j].tag == v[j].tag,
{
    let w = spec_add_last(v, i, t);
    let n = v.len() as int;
    assert(crate::dom::nodes::rec_links_ok(v[i], n));
    let pv = v[i].last;
    let v1 = v.push(new_rec(t, Some(i as u32), pv, None));
    let v2 = match pv {
        Some(c) => crate::dom::nodes::upd_next(v1, c as int, Some(n as u32)),
        None => crate::dom::nodes::upd_first(v1, i, Some(n as u32)),
    };
    assert(ordered(v1)) by {
        assert forall|j: int| 0 <= j < v1.len() implies rec_ordered(#[trigger] v1[j], j) by {
            if j < n {
                assert(v1[j] == v[j]);
                assert(rec_ordered(v[j], j));
            }
        }
    }
    assert(ordered(v2)) by {
        assert forall|j: int| 0 <= j < v2.len() implies rec_ordered(#[trigger] v2[j], j) by {
            assert(rec_ordered(v1[j], j));
            match pv {
                Some(c) => {
                    assert(c < n);
                    if j == c {
                        assert(v2[j] == crate::dom::nodes::set_next_rec(v1[j], Some(n as u32)));
                    } else {
                        assert(v2[j] == v1[j]);
                    }
                }
                None => {
                    if j == i {
                        assert(v2[j] == crate::dom::nodes::set_first_rec(v1[j], Some(n as u32)));
                    } else {
                        assert(v2[j] == v1[j]);
                    }
                }
            }
        }
    }
    assert(w == crate::dom::nodes::upd_last(v2, i, Some(n as u32)));
    assert forall|j: int| 0 <= j < w.len() implies rec_ordered(#[trigger] w[j], j) by {
        assert(rec_ordered(v2[j], j));
        if j == i {
            assert(w[j] == crate::dom::nodes::set_last_rec(v2[j], Some(n as u32)));
        } else {
            assert(w[j] == v2[j]);
        }
    }
}

/// Appending a last child to an element keeps every parent link on an element.
pub proof fn lemma_add_last_parents(v: Seq<NodeRec>, i: int, t: u8)
    requires
        parents_ok(v),
        links_ok(v),
        0 <= i < v.len(),
        v.len() < MAX_NODES,
        !is_string_tag(v[i].tag),
    ensures
        parents_ok(spec_add_last(v, i, t)),
{
    let w = spec_add_last(v, i, t);
    let n = v.len() as int;
    assert(crate::dom::nodes::rec_links_ok(v[i], n));
    let pv = v[i].last;
    let v1 = v.push(new_rec(t, Some(i as u32), pv, None));
    let v2 = match pv {
        Some(c) => crate::dom::nodes::upd_next(v1, c as int, Some(n as u32)),
        None => crate::dom::nodes::upd_first(v1, i, Some(n as u32)),
    };
    assert(w == crate::dom::nodes::upd_last(v2, i, Some(n as u32)));
    assert forall|j: int| 0 <= j < w.len() implies w[j].tag == v1[j].tag && w[j].parent == v1[j].parent by {
        assert(v2[j].tag == v1[j].tag && v2[j].parent == v1[j].parent);
    }
    assert forall|j: int| 0 <= j < w.len() implies #[trigger] parent_ok(w, j) by {
        assert(w[j].parent == v1[j].parent);
        if j < n {
            assert(v1[j] == v[j]);
            assert(parent_ok(v, j));
            match v[j].parent {
                Some(p) => {
                    assert(p < n && !is_string_tag(v[p as int].tag));
                    assert(w[p as int].tag == v1[p as int].tag);
                    assert(v1[p as int] == v[p as int]);
                    assert(!is_string_tag(w[p as int].tag));
                }
                None => {}
            }
        } else {
            assert(v1[j].parent == Some(i as u32));
            assert(w[i].tag == v1[i].tag);
            assert(v1[i] == v[i]);
        }
    }
}

/// A document: its node topology packed in a blob, and what each node holds.
pub struct DomInner {
    nodes: Nodes,
    names: Vec<Vec<char>>,
    attrs: Vec<Vec<Attribute>>,
    classes: Vec<Vec<Vec<char>>>,
    texts: Vec<Vec<char>>,
}

impl View for DomInner {
    type V = DomV;

    closed spec fn view(&self) -> DomV {
        DomV {
            recs: self.nodes.recs(),
            names: strs_view(self.names@),
            attrs: self.attrs@.map_values(|l: Vec<Attribute>| attrs_view(l@)),
            classes: self.classes@.map_values(|l: Vec<Vec<char>>| strs_view(l@)),
            texts: strs_view(self.texts@),
        }
    }
}

impl DomInner {
    /// The blob is sound and links three bytes wide.
    pub closed spec fn blob_ok(&self) -> bool {
        self.nodes.wf() && self.nodes.width_code() == WIDTH_U24
    }

    pub open spec fn wf(&self) -> bool {
        self.blob_ok() && dom_ok(self@)
    }

    /// A document holding the root alone.
    pub fn new() -> (r: DomInner)
        ensures
            r.wf(),
            r@.recs == seq![new_rec(ROOT_TAG, None, None, None)],
            r@.names == seq![Seq::<char>::empty()],
            r@.attrs == seq![Seq::<AttrV>::empty()],
            r@.classes == seq![Seq::<Seq<char>>::empty()],
            r@.texts == seq![Seq::<char>::empty()],
    {
        let nodes = Nodes::new();
        let mut names: Vec<Vec<char>> = Vec::new();
        names.push(Vec::new());
        let mut attrs: Vec<Vec<Attribute>> = Vec::new();
        attrs.push(Vec::new());
        let mut classes: Vec<Vec<Vec<char>>> = Vec::new();
        classes.push(Vec::new());
        let mut texts: Vec<Vec<char>> = Vec::new();
        texts.push(Vec::new());
        let r = DomInner { nodes, names, attrs, classes, texts };
        proof {
            assert(r@.names =~= seq![Seq::<char>::empty()]);
            assert(attrs_view(r.attrs@[0]@) =~= Seq::<AttrV>::empty());
            assert(strs_view(r.classes@[0]@) =~= Seq::<Seq<char>>::empty());
            assert(r@.attrs =~= seq![Seq::<AttrV>::empty()]);
            assert(r@.classes =~= seq![Seq::<Seq<char>>::empty()]);
            assert(r@.texts =~= seq![Seq::<char>::empty()]);
            assert(links_ok(r@.recs));
        }
        r
    }

    /// The number of nodes.
    pub fn len(&self) -> (r: usize)
        requires
            self.wf(),
        ensures
            r == self@.recs.len(),
    {
        self.nodes.len()
    }

    /// The tag code of node `i`.
    pub fn tag_code(&self, i: u32) -> (r: u8)
        requires
            self.wf(),
            i < self@.recs.len(),
        ensures
            r == self@.recs[i as int].tag,
            r < crate::html::TAG_COUNT,
    {
        self.nodes.tag_code(NodeIndex(i))
    }

    /// Every record has the shape of a decoded one: a text or comment node has no
    /// children.
    pub proof fn lemma_shaped(&self, i: int)
        requires
            self.wf(),
            0 <= i < self@.recs.len(),
        ensures
            crate::dom::nodes::rec_shaped(self@.recs[i]),
    {
        self.nodes.lemma_shaped(i);
    }

    /// The tag of node `i`.
    pub fn tag(&self, i: u32) -> (r: HtmlTag)
        requires
            self.wf(),
            i < self@.recs.len(),
        ensures
            r == crate::dom::nodes::tag_of_code(self@.recs[i as int].tag),
    {
        self.nodes.tag(NodeIndex(i))
    }

    pub fn parent(&self, i: u32) -> (r: Option<u32>)
        requires
            self.wf(),
            i < self@.recs.len(),
        ensures
            r == self@.recs[i as int].parent,
    {
        match self.nodes.parent_index(NodeIndex(i)) {
            Some(n) => Some(n.0),
            None => None,
        }
    }

    pub fn prev_sibling(&self, i: u32) -> (r: Option<u32>)
        requires
            self.wf(),
            i < self@.recs.len(),
        ensures
            r == self@.recs[i as int].prev,
    {
        match self.nodes.prev_sibling_index(NodeIndex(i)) {
            Some(n) => Some(n.0),
            None => None,
        }
    }

    pub fn next_sibling(&self, i: u32) -> (r: Option<u32>)
        requires
            self.wf(),
            i < self@.recs.len(),
        ensures
            r == self@.recs[i as int].next,
    {
        match self.nodes.next_sibling_index(NodeIndex(i)) {
            Some(n) => Some(n.0),
            None => None,
        }
    }

    pub fn first_child(&self, i: u32) -> (r: Option<u32>)
        requires
            self.wf(),
            i < self@.recs.len(),
        ensures
            r == self@.recs[i as int].first,
    {
        match self.nodes.first_child_index(NodeIndex(i)) {
            Some(n) => Some(n.0),
            None => None,
        }
    }

    pub fn last_child(&self, i: u32) -> (r: Option<u32>)
        requires
            self.wf(),
            i < self@.recs.len(),
        ensures
            r == self@.recs[i as int].last,
    {
        match self.nodes.last_child_index(NodeIndex(i)) {
            Some(n) => Some(n.0),
            None => None,
        }
    }

    /// The lowercase name of element `i`.
    pub fn name(&self, i: u32) -> (r: &Vec<char>)
        requires
            self.wf(),
            i < self@.recs.len(),
        ensures
            r@ == self@.names[i as int],
    {
        &self.names[i as usize]
    }

    /// The attributes of element `i`, the class attribute aside.
    pub fn attributes(&self, i: u32) -> (r: &Vec<Attribute>)
        requires
            self.wf(),
            i < self@.recs.len(),
        ensures
            attrs_view(r@) == self@.attrs[i as int],
    {
        &self.attrs[i as usize]
    }

    /// The classes of element `i`.
    pub fn class_list(&self, i: u32) -> (r: &Vec<Vec<char>>)
        requires
            self.wf(),
            i < self@.recs.len(),
        ensures
            strs_view(r@) == self@.classes[i as int],
    {
        &self.classes[i as usize]
    }

    /// The text of text or comment node `i`.
    pub fn text(&self, i: u32) -> (r: &Vec<char>)
        requires
            self.wf(),
            i < self@.recs.len(),
        ensures
            r@ == self@.texts[i as int],
    {
        &self.texts[i as usize]
    }

    /// Appends a node as the last child of `parent`, with what it holds.
    pub fn append_node(
        &mut self,
        parent: u32,
        tag: HtmlTag,
        name: Vec<char>,
        attrs: Vec<Attribute>,
        classes: Vec<Vec<char>>,
        text: Vec<char>,
    ) -> (r: u32)
        requires
            old(self).wf(),
            parent < old(self)@.recs.len(),
            !is_string_tag(old(self)@.recs[parent as int].tag),
            old(self)@.recs.len() < MAX_NODES,
        ensures
            final(self).wf(),
            r == old(self)@.recs.len(),
            final(self)@.recs == spec_add_last(old(self)@.recs, parent as int, code_of(tag)),
            final(self)@.names == old(self)@.names.push(name@),
            final(self)@.attrs == old(self)@.attrs.push(attrs_view(attrs@)),
            final(self)@.classes == old(self)@.classes.push(strs_view(classes@)),
            final(self)@.texts == old(self)@.texts.push(text@),
    {
        let ghost d = self@;
        let ghost an = attrs_view(attrs@);
        let ghost cl = strs_view(classes@);
        let ghost nm = name@;
        let ghost tx = text@;
        let n = self.nodes.add_as_last_child(NodeIndex(parent), tag);
        self.names.push(name);
        self.attrs.push(attrs);
        self.classes.push(classes);
        self.texts.push(text);
        proof {
            assert(self@.names =~= d.names.push(nm));
            assert(self@.attrs =~= d.attrs.push(an));
            assert(self@.classes =~= d.classes.push(cl));
            assert(self@.texts =~= d.texts.push(tx));
            assert(self@.recs[0].tag == d.recs[0].tag);
            lemma_add_last_parents(d.recs, parent as int, code_of(tag));
        }
        n.0
    }
}

} // verus!

verus! {

/// `d` with its node records replaced by `recs`; what the nodes hold is kept.
pub open spec fn with_recs(d: DomV, recs: Seq<NodeRec>) -> DomV {
    DomV { recs, names: d.names, attrs: d.attrs, classes: d.classes, texts: d.texts }
}

/// `d` with a text node holding a single space added as next sibling of node `i`.
pub open spec fn with_space_after(d: DomV, i: int) -> DomV {
    DomV {
        recs: spec_add_next(d.recs, i, TEXT_TAG),
        names: d.names.push(Seq::empty()),
        attrs: d.attrs.push(Seq::empty()),
        classes: d.classes.push(Seq::empty()),
        texts: d.texts.push(seq![' ']),
    }
}

/// Removing a node keeps the tags and leaves every other node its parent.
pub proof fn lemma_remove_parents(v: Seq<NodeRec>, i: int)
    requires
        links_ok(v),
        parents_ok(v),
        0 <= i < v.len(),
        v[i].parent is Some,
    ensures
        spec_remove(v, i).0.len() == v.len(),
        forall|j: int| 0 <= j < v.len() ==> (#[trigger] spec_remove(v, i).0[j]).tag == v[j].tag,
        forall|j: int| 0 <= j < v.len() && j != i ==> (#[trigger] spec_remove(v, i).0[j]).parent == v[j].parent,
        parents_ok(spec_remove(v, i).0),
{
    let w = spec_remove(v, i).0;
    assert(crate::dom::nodes::rec_links_ok(v[i], v.len() as int));
    assert(parent_ok(v, i));
    assert forall|j: int| 0 <= j < v.len() implies (#[trigger] w[j]).tag == v[j].tag
        && (w[j].parent == v[j].parent || w[j].parent is None) by {
    }
    assert forall|j: int| 0 <= j < v.len() implies parent_target_ok(v, (#[trigger] w[j]).parent) by {
        assert(parent_ok(v, j));
    }
    lemma_parents_kept(v, w);
}

/// Taking node `x` out of its siblings keeps the tags, the parents and the links in range.
pub proof fn lemma_detach_keeps(v: Seq<NodeRec>, x: int)
    requires
        links_ok(v),
        0 <= x < v.len(),
        v[x].parent is Some,
    ensures
        spec_detach(v, x).len() == v.len(),
        links_ok(spec_detach(v, x)),
        forall|j: int| 0 <= j < v.len() ==> (#[trigger] spec_detach(v, x)[j]).tag == v[j].tag
            && spec_detach(v, x)[j].parent == v[j].parent,
{
    broadcast use crate::dom::nodes::group_links_ok;
    assert(crate::dom::nodes::rec_links_ok(v[x], v.len() as int));
}

/// Putting node `x` in the place of node `i` keeps the tags, the parents and the
/// number of records.
pub proof fn lemma_attach_keeps(v: Seq<NodeRec>, i: int, x: int)
    requires
        links_ok(v),
        0 <= i < v.len(),
        0 <= x < v.len(),
        v[i].parent is Some,
    ensures
        crate::dom::nodes::spec_attach(v, i, x).len() == v.len(),
        forall|j: int| 0 <= j < v.len() ==> (#[trigger] crate::dom::nodes::spec_attach(v, i, x)[j]).tag == v[j].tag
            && crate::dom::nodes::spec_attach(v, i, x)[j].parent == v[j].parent,
{
    broadcast use crate::dom::nodes::group_links_ok;
    assert(crate::dom::nodes::rec_links_ok(v[i], v.len() as int));
}

/// Replacing node `i` by node `x` keeps the tags, gives `x` the parent of `i`, leaves
/// `i` without one and every other node its parent.
pub proof fn lemma_replace_parents(v: Seq<NodeRec>, i: int, x: int)
    requires
        links_ok(v),
        parents_ok(v),
        0 <= i < v.len(),
        0 <= x < v.len(),
        i != x,
        v[x].parent is Some,
        v[i].parent is Some,
    ensures
        spec_detach(v, x).len() == v.len(),
        forall|j: int| 0 <= j < v.len() ==> (#[trigger] spec_detach(v, x)[j]).tag == v[j].tag
            && spec_detach(v, x)[j].parent == v[j].parent,
        spec_replace(v, i, x).len() == v.len(),
        forall|j: int| 0 <= j < v.len() ==> (#[trigger] spec_replace(v, i, x)[j]).tag == v[j].tag,
        parents_ok(spec_replace(v, i, x)),
{
    assert(parent_ok(v, i));
    let v1 = spec_detach(v, x);
    lemma_detach_keeps(v, x);
    lemma_attach_keeps(v1, i, x);
    let v2 = crate::dom::nodes::spec_attach(v1, i, x);
    let w = spec_replace(v, i, x);
    assert forall|j: int| 0 <= j < v.len() implies (#[trigger] w[j]).tag == v[j].tag by {
        assert(v2[j].tag == v1[j].tag);
        assert(v1[j].tag == v[j].tag);
    }
    assert forall|j: int| 0 <= j < v.len() implies parent_target_ok(v, (#[trigger] w[j]).parent) by {
        assert(parent_ok(v, j));
        assert(v2[j].parent == v1[j].parent);
        assert(v1[j].parent == v[j].parent);
    }
    lemma_parents_kept(v, w);
}

/// Adding a node after node `i` keeps the tags before and gives the new node the
/// parent of `i`.
pub proof fn lemma_add_next_parents(v: Seq<NodeRec>, i: int, t: u8)
    requires
        links_ok(v),
        parents_ok(v),
        0 <= i < v.len(),
        v.len() < MAX_NODES,
        v[i].parent is Some,
    ensures
        spec_add_next(v, i, t).len() == v.len() + 1,
        forall|j: int| 0 <= j < v.len() ==> (#[trigger] spec_add_next(v, i, t)[j]).tag == v[j].tag,
        parents_ok(spec_add_next(v, i, t)),
{
    let w = spec_add_next(v, i, t);
    let n = v.len() as int;
    assert(crate::dom::nodes::rec_links_ok(v[i], n));
    assert(parent_ok(v, i));
    let p = v[i].parent->0;
    let v1 = v.push(new_rec(t, Some(p), Some(i as u32), v[i].next));
    assert forall|j: int| 0 <= j < w.len() implies (#[trigger] w[j]).tag == v1[j].tag && w[j].parent == v1[j].parent by {
    }
    assert forall|j: int| 0 <= j < w.len() implies #[trigger] parent_ok(w, j) by {
        assert(w[j].parent == v1[j].parent);
        if j < n {
            assert(v1[j] == v[j]);
            assert(parent_ok(v, j));
            match v[j].parent {
                Some(q) => {
                    assert(w[q as int].tag == v1[q as int].tag);
                    assert(v1[q as int] == v[q as int]);
                }
                None => {}
            }
        } else {
            assert(w[p as int].tag == v1[p as int].tag);
            assert(v1[p as int] == v[p as int]);
        }
    }
    assert forall|j: int| 0 <= j < v.len() implies (#[trigger] w[j]).tag == v[j].tag by {
        assert(v1[j] == v[j]);
    }
}

/// Unwrapping keeps the tags and gives every node its former parent, none, or the
/// parent of the unwrapped node.
pub proof fn lemma_unwrap_parents(v: Seq<NodeRec>, i: int)
    requires
        links_ok(v),
        parents_ok(v),
        0 <= i < v.len(),
        v[i].parent is Some,
    ensures
        spec_unwrap(v, i).len() == v.len(),
        forall|j: int| 0 <= j < v.len() ==> (#[trigger] spec_unwrap(v, i)[j]).tag == v[j].tag,
        parents_ok(spec_unwrap(v, i)),
{
    assert(crate::dom::nodes::rec_links_ok(v[i], v.len() as int));
    assert(parent_ok(v, i));
    let p = v[i].parent->0;
    let w = spec_unwrap(v, i);
    let prev = v[i].prev;
    let next = v[i].next;
    let first = v[i].first;
    let last = v[i].last;
    let n = v.len();
    let v5 = crate::dom::nodes::upd_parent(upd_last(upd_first(crate::dom::nodes::upd_next(crate::dom::nodes::upd_prev(v, i, None), i, None), i, None), i, None), i, None);
    assert(links_ok(v5)) by {
        broadcast use crate::dom::nodes::group_links_ok;
    }
    assert forall|j: int| 0 <= j < v.len() implies (#[trigger] v5[j]).tag == v[j].tag
        && (v5[j].parent == v[j].parent || v5[j].parent is None) by {
    }
    // the base on which the children's parents are set, case by case
    let base = match (prev, first, last, next) {
        (None, Some(f), Some(l), None) => upd_last(upd_first(v5, p as int, Some(f)), p as int, Some(l)),
        (None, Some(f), Some(l), Some(c)) => crate::dom::nodes::spec_join(upd_first(v5, p as int, Some(f)), l as int, c as int),
        (Some(a), Some(f), Some(l), None) => upd_last(crate::dom::nodes::spec_join(v5, a as int, f as int), p as int, Some(l)),
        (Some(a), Some(f), Some(l), Some(c)) => crate::dom::nodes::spec_join(crate::dom::nodes::spec_join(v5, a as int, f as int), l as int, c as int),
        _ => v5,
    };
    assert(links_ok(base)) by {
        broadcast use crate::dom::nodes::group_links_ok;
    }
    assert forall|j: int| 0 <= j < v.len() implies (#[trigger] base[j]).tag == v5[j].tag && base[j].parent == v5[j].parent by {
    }
    match first {
        Some(f) => {
            if last is Some {
                crate::dom::nodes::lemma_set_parents(base, f as int, p, n);
                assert(w == crate::dom::nodes::spec_set_parents(base, f as int, p, n));
            }
        }
        None => {}
    }
    assert forall|j: int| 0 <= j < v.len() implies (#[trigger] w[j]).tag == v[j].tag by {
        assert(v5[j].tag == v[j].tag);
    }
    assert forall|j: int| 0 <= j < v.len() implies parent_target_ok(v, (#[trigger] w[j]).parent) by {
        assert(parent_ok(v, j));
        assert(v5[j].tag == v[j].tag);
    }
    lemma_parents_kept(v, w);
}

impl DomInner {
    /// Takes node `i` out of the tree (see `Nodes::remove`); returns its previous
    /// sibling, else its next one, else its parent.
    pub fn remove_node(&mut self, i: u32) -> (r: Option<u32>)
        requires
            old(self).wf(),
            i < old(self)@.recs.len(),
            old(self)@.recs[i as int].parent is Some,
        ensures
            final(self).wf(),
            final(self)@ == with_recs(old(self)@, spec_remove(old(self)@.recs, i as int).0),
            r == spec_remove(old(self)@.recs, i as int).1,
    {
        let ghost v = self@.recs;
        proof {
            assert(parent_ok(v, i as int));
        }
        let r = self.nodes.remove(NodeIndex(i));
        proof {
            let w = self@.recs;
            lemma_remove_parents(v, i as int);
            assert(w[0].tag == v[0].tag);
            assert(self@ =~= with_recs(old(self)@, w));
        }
        match r {
            Some(n) => Some(n.0),
            None => None,
        }
    }

    /// Puts the children of node `i` in its place (see `Nodes::unwrap_node`); returns
    /// its former first child.
    pub fn unwrap_node(&mut self, i: u32) -> (r: Option<u32>)
        requires
            old(self).wf(),
            i < old(self)@.recs.len(),
            old(self)@.recs[i as int].parent is Some,
            !is_string_tag(old(self)@.recs[i as int].tag),
        ensures
            final(self).wf(),
            final(self)@ == with_recs(old(self)@, spec_unwrap(old(self)@.recs, i as int)),
            r == old(self)@.recs[i as int].first,
    {
        let ghost v = self@.recs;
        proof {
            assert(parent_ok(v, i as int));
        }
        let r = self.nodes.unwrap_node(NodeIndex(i));
        proof {
            let w = self@.recs;
            lemma_unwrap_parents(v, i as int);
            assert(w[0].tag == v[0].tag);
            assert(self@ =~= with_recs(old(self)@, w));
        }
        match r {
            Some(n) => Some(n.0),
            None => None,
        }
    }

    /// Takes node `x` from its place and puts it in the place of node `i`, which is left
    /// out of the tree (see `Nodes::replace_with`).
    pub fn replace_node(&mut self, i: u32, x: u32)
        requires
            old(self).wf(),
            i < old(self)@.recs.len(),
            x < old(self)@.recs.len(),
            i != x,
            old(self)@.recs[i as int].parent is Some,
            old(self)@.recs[x as int].parent is Some,
        ensures
            final(self).wf(),
            final(self)@ == with_recs(old(self)@, spec_replace(old(self)@.recs, i as int, x as int)),
            final(self)@.recs.len() == old(self)@.recs.len(),
    {
        let ghost v = self@.recs;
        proof {
            lemma_replace_parents(v, i as int, x as int);
            assert(parent_ok(v, i as int));
            assert(parent_ok(v, x as int));
        }
        self.nodes.replace_with(NodeIndex(i), NodeIndex(x));
        proof {
            let w = self@.recs;
            assert(w[0].tag == v[0].tag);
            assert(self@ =~= with_recs(old(self)@, w));
        }
    }

    /// Leaves element `i` without children.
    pub fn remove_children(&mut self, i: u32)
        requires
            old(self).wf(),
            i < old(self)@.recs.len(),
            !is_string_tag(old(self)@.recs[i as int].tag),
        ensures
            final(self).wf(),
            final(self)@ == with_recs(old(self)@, upd_last(upd_first(old(self)@.recs, i as int, None), i as int, None)),
    {
        let ghost v = self@.recs;
        self.nodes.remove_children(NodeIndex(i));
        proof {
            let w = self@.recs;
            assert(links_ok(w)) by {
                broadcast use crate::dom::nodes::group_links_ok;
            }
            assert forall|j: int| 0 <= j < v.len() implies (#[trigger] w[j]).tag == v[j].tag && w[j].parent == v[j].parent by {
            }
            assert forall|j: int| 0 <= j < v.len() implies parent_target_ok(v, (#[trigger] w[j]).parent) by {
                assert(parent_ok(v, j));
            }
            lemma_parents_kept(v, w);
            assert(self@ =~= with_recs(old(self)@, w));
        }
    }

    /// Adds a text node holding a single space as next sibling of node `i`; returns it.
    pub fn add_space_after(&mut self, i: u32) -> (r: u32)
        requires
            old(self).wf(),
            i < old(self)@.recs.len(),
            old(self)@.recs[i as int].parent is Some,
            old(self)@.recs.len() < MAX_NODES,
        ensures
            final(self).wf(),
            final(self)@ == with_space_after(old(self)@, i as int),
            r == old(self)@.recs.len(),
    {
        let ghost d = self@;
        let ghost v = self@.recs;
        proof {
            assert(parent_ok(v, i as int));
            assert(crate::dom::nodes::rec_links_ok(v[i as int], v.len() as int));
        }
        let n = self.nodes.add_as_next_sibling(NodeIndex(i), HtmlTag::sys_text);
        self.names.push(Vec::new());
        self.attrs.push(Vec::new());
        self.classes.push(Vec::new());
        let mut t: Vec<char> = Vec::new();
        t.push(' ');
        self.texts.push(t);
        proof {
            let w = self@.recs;
            assert(code_of(HtmlTag::sys_text) == TEXT_TAG);
            lemma_add_next_parents(v, i as int, TEXT_TAG);
            assert(w[0].tag == v[0].tag);
            assert(attrs_view(self.attrs@[v.len() as int]@) =~= Seq::<AttrV>::empty());
            assert(strs_view(self.classes@[v.len() as int]@) =~= Seq::<Seq<char>>::empty());
            assert(self@.names =~= d.names.push(Seq::empty()));
            assert(self@.attrs =~= d.attrs.push(Seq::empty()));
            assert(self@.classes =~= d.classes.push(Seq::empty()));
            assert(self@.texts =~= d.texts.push(seq![' ']));
            assert(self@ =~= with_space_after(d, i as int));
        }
        n.0
    }

    /// Sets the text of node `i`.
    pub fn set_text(&mut self, i: u32, text: Vec<char>)
        requires
            old(self).wf(),
            i < old(self)@.recs.len(),
        ensures
            final(self).wf(),
            final(self)@ == (DomV { texts: old(self)@.texts.update(i as int, text@), ..old(self)@ }),
    {
        let ghost d = self@;
        let ghost tx = text@;
        self.texts.set(i as usize, text);
        proof {
            assert(self@.texts =~= d.texts.update(i as int, tx));
            assert(self@ =~= (DomV { texts: d.texts.update(i as int, tx), ..d }));
        }
    }

    /// Sets the classes of node `i`.
    pub fn set_classes(&mut self, i: u32, classes: Vec<Vec<char>>)
        requires
            old(self).wf(),
            i < old(self)@.recs.len(),
        ensures
            final(self).wf(),
            final(self)@ == (DomV { classes: old(self)@.classes.update(i as int, strs_view(classes@)), ..old(self)@ }),
    {
        let ghost d = self@;
        let ghost cl = strs_view(classes@);
        self.classes.set(i as usize, classes);
        proof {
            assert(self@.classes =~= d.classes.update(i as int, cl));
            assert(self@ =~= (DomV { classes: d.classes.update(i as int, cl), ..d }));
        }
    }

    /// Sets the attributes of node `i`.
    pub fn set_attributes(&mut self, i: u32, attrs: Vec<Attribute>)
        requires
            old(self).wf(),
            i < old(self)@.recs.len(),
        ensures
            final(self).wf(),
            final(self)@ == (DomV { attrs: old(self)@.attrs.update(i as int, attrs_view(attrs@)), ..old(self)@ }),
    {
        let ghost d = self@;
        let ghost an = attrs_view(attrs@);
        self.attrs.set(i as usize, attrs);
        proof {
            assert(self@.attrs =~= d.attrs.update(i as int, an));
            assert(self@ =~= (DomV { attrs: d.attrs.update(i as int, an), ..d }));
        }
    }

    /// Takes the classes of node `i` out, leaving it none.
    pub fn take_classes(&mut self, i: u32) -> (r: Vec<Vec<char>>)
        requires
            old(self).wf(),
            i < old(self)@.recs.len(),
        ensures
            final(self).wf(),
            strs_view(r@) == old(self)@.classes[i as int],
            final(self)@ == (DomV { classes: old(self)@.classes.update(i as int, Seq::empty()), ..old(self)@ }),
    {
        let ghost d = self@;
        let mut r: Vec<Vec<char>> = Vec::new();
        std::mem::swap(&mut r, &mut self.classes[i as usize]);
        proof {
            assert(strs_view(self.classes@[i as int]@) =~= Seq::<Seq<char>>::empty());
            assert(self@.classes =~= d.classes.update(i as int, Seq::empty()));
            assert(self@ =~= (DomV { classes: d.classes.update(i as int, Seq::empty()), ..d }));
        }
        r
    }

    /// Takes the attributes of node `i` out, leaving it none.
    pub fn take_attributes(&mut self, i: u32) -> (r: Vec<Attribute>)
        requires
            old(self).wf(),
            i < old(self)@.recs.len(),
        ensures
            final(self).wf(),
            attrs_view(r@) == old(self)@.attrs[i as int],
            final(self)@ == (DomV { attrs: old(self)@.attrs.update(i as int, Seq::empty()), ..old(self)@ }),
    {
        let ghost d = self@;
        let mut r: Vec<Attribute> = Vec::new();
        std::mem::swap(&mut r, &mut self.attrs[i as usize]);
        proof {
            assert(attrs_view(self.attrs@[i as int]@) =~= Seq::<AttrV>::empty());
            assert(self@.attrs =~= d.attrs.update(i as int, Seq::empty()));
            assert(self@ =~= (DomV { attrs: d.attrs.update(i as int, Seq::empty()), ..d }));
        }
        r
    }
}

} // verus!
