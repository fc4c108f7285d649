//! The node topology of a document, packed into a flat byte blob: one fixed-size record
//! per node, holding its tag, its five links (parent, previous and next sibling, first
//! and last child) and the indices of its class and attribute lists. Text
//! and comment nodes hold the range of their text where an element holds its child links
//! and list indices. Node links are packed 2 bytes wide (`U16`) or 3 bytes wide (`U24`).
use vstd::prelude::*;

use crate::dom::node_index::NodeIndex;
use crate::dom::slots::{
    lemma_rd_wr, node_size, rd, read_le, sentinel, slot, span, wr, write_le, WIDTH_U16, WIDTH_U24,
};
use crate::html::{htmltag_at, htmltag_index, lemma_htmltag_index, tag_is_block, tag_is_inline, HtmlTag, TAG_COUNT};

verus! {

/// Tag code of the document root.
pub const ROOT_TAG: u8 = 117;
/// Tag code of text nodes.
pub const TEXT_TAG: u8 = 118;
/// Tag code of comment nodes.
pub const COMMENT_TAG: u8 = 119;
/// The largest document that is stored with 2-byte links: 90% of the 2-byte range, so
/// that a stored document keeps room to grow.
pub const DOWNPACK_MARGIN: usize = 58981;

/// The plain value of one node record.
pub struct NodeRec {
    pub tag: u8,
    pub parent: Option<u32>,
    pub prev: Option<u32>,
    pub next: Option<u32>,
    pub first: Option<u32>,
    pub last: Option<u32>,
    pub class: Option<u16>,
    pub attr: Option<u16>,
    pub text: (u32, u32),
}

/// Whether the tag code is that of a text or comment node.
pub open spec fn is_string_tag(t: u8) -> bool {
    t == TEXT_TAG || t == COMMENT_TAG
}

/// Byte offset of node `i`'s record at width `w`.
pub open spec fn base(w: u8, i: int) -> int {
    if w == WIDTH_U24 { 20 * i } else { 15 * i }
}

/// The node link stored at `pos`.
pub open spec fn link(b: Seq<u8>, w: u8, pos: int) -> Option<u32> {
    let v = rd(b, pos, slot(w));
    if v == sentinel(w) { None } else { Some(v as u32) }
}

/// The optional 2-byte list index stored at `pos`.
pub open spec fn opt16(b: Seq<u8>, pos: int) -> Option<u16> {
    let v = rd(b, pos, 2);
    if v == 0xFFFF { None } else { Some(v as u16) }
}

/// The record held by the bytes `k` of one node at width `w`.
pub open spec fn rec_of(k: Seq<u8>, w: u8) -> NodeRec {
    let s = slot(w);
    let t = k[0];
    let string = is_string_tag(t);
    NodeRec {
        tag: t,
        parent: link(k, w, 1),
        prev: link(k, w, 1 + s),
        next: link(k, w, 1 + 2 * s),
        first: if string { None } else { link(k, w, 1 + 3 * s) },
        last: if string { None } else { link(k, w, 1 + 4 * s) },
        class: if string { None } else { opt16(k, 1 + 5 * s) },
        attr: if string { None } else { opt16(k, 3 + 5 * s) },
        text: if string { (rd(k, 1 + 3 * s, 4) as u32, rd(k, 5 + 3 * s, 4) as u32) } else { (0, 0) },
    }
}

/// The bytes of node `i`'s record.
pub open spec fn block(b: Seq<u8>, w: u8, i: int) -> Seq<u8> {
    b.subrange(base(w, i), base(w, i) + node_size(w))
}

/// The record of node `i` in blob `b` at width `w`.
pub open spec fn rec(b: Seq<u8>, w: u8, i: int) -> NodeRec {
    rec_of(block(b, w, i), w)
}

/// The number of records in the blob.
pub open spec fn count(b: Seq<u8>, w: u8) -> int {
    b.len() as int / node_size(w)
}

/// The records of the blob, node by node.
pub open spec fn records(b: Seq<u8>, w: u8) -> Seq<NodeRec> {
    Seq::new(count(b, w) as nat, |i: int| rec(b, w, i))
}

/// A blob of whole records at a known width whose tags are all known.
pub open spec fn blob_ok(b: Seq<u8>, w: u8) -> bool {
    &&& (w == WIDTH_U16 || w == WIDTH_U24)
    &&& b.len() as int % node_size(w) == 0
    &&& forall|i: int| 0 <= i < count(b, w) ==> (#[trigger] b[base(w, i)]) < TAG_COUNT
}

/// The record of a new node: its tag and links, no children, no lists, an empty text.
pub open spec fn new_rec(tag: u8, parent: Option<u32>, prev: Option<u32>, next: Option<u32>) -> NodeRec {
    NodeRec {
        tag,
        parent,
        prev,
        next,
        first: None,
        last: None,
        class: None,
        attr: None,
        text: (0, 0),
    }
}

/// The plain value of an optional node index.
pub open spec fn oi(o: Option<NodeIndex>) -> Option<u32> {
    match o {
        Some(n) => Some(n.0),
        None => None,
    }
}

/// The value a link read gives back after `o` was written at width `w`.
pub open spec fn stored(w: u8, o: Option<NodeIndex>) -> Option<u32> {
    match o {
        Some(n) => {
            let v = (n.0 as int) % span(slot(w));
            if v == sentinel(w) { None } else { Some(v as u32) }
        }
        None => None,
    }
}

/// Whether every link of `o` fits the width `w`, so that it reads back unchanged.
pub open spec fn fits(w: u8, o: Option<NodeIndex>) -> bool {
    match o {
        Some(n) => n.0 < sentinel(w),
        None => true,
    }
}

pub open spec fn set_parent_rec(r: NodeRec, v: Option<u32>) -> NodeRec {
    NodeRec { parent: v, ..r }
}

pub open spec fn set_prev_rec(r: NodeRec, v: Option<u32>) -> NodeRec {
    NodeRec { prev: v, ..r }
}

pub open spec fn set_next_rec(r: NodeRec, v: Option<u32>) -> NodeRec {
    NodeRec { next: v, ..r }
}

pub open spec fn set_first_rec(r: NodeRec, v: Option<u32>) -> NodeRec {
    NodeRec { first: v, ..r }
}

pub open spec fn set_last_rec(r: NodeRec, v: Option<u32>) -> NodeRec {
    NodeRec { last: v, ..r }
}

/// Writing inside node `i`'s record leaves the other records as they were, and writes
/// node `i`'s bytes as a write into its record would.
pub proof fn lemma_write_in_node(b: Seq<u8>, w: u8, i: int, off: int, n: int, v: u32)
    requires
        w == WIDTH_U16 || w == WIDTH_U24,
        b.len() as int % node_size(w) == 0,
        0 <= i < count(b, w),
        n == 2 || n == 3 || n == 4,
        0 <= off,
        off + n <= node_size(w),
    ensures
        count(wr(b, base(w, i) + off, n, v as int), w) == count(b, w),
        block(wr(b, base(w, i) + off, n, v as int), w, i) == wr(block(b, w, i), off, n, v as int),
        forall|j: int| 0 <= j < count(b, w) && j != i ==> #[trigger] block(wr(b, base(w, i) + off, n, v as int), w, j) == block(b, w, j),
        off >= 1 ==> forall|j: int| 0 <= j < count(b, w) ==> #[trigger] wr(b, base(w, i) + off, n, v as int)[base(w, j)] == b[base(w, j)],
{
    let b2 = wr(b, base(w, i) + off, n, v as int);
    lemma_rd_wr(b, base(w, i) + off, n, v);
    assert(base(w, i) + node_size(w) <= b.len()) by (nonlinear_arith)
        requires
            0 <= i < b.len() as int / node_size(w),
            node_size(w) == 15 || node_size(w) == 20,
            base(w, i) == node_size(w) * i;
    assert(block(b2, w, i) =~= wr(block(b, w, i), off, n, v as int));
    assert forall|j: int| 0 <= j < count(b, w) && j != i implies #[trigger] block(b2, w, j) == block(b, w, j) by {
        assert(base(w, j) + node_size(w) <= b.len()) by (nonlinear_arith)
            requires
                0 <= j < b.len() as int / node_size(w),
                node_size(w) == 15 || node_size(w) == 20,
                base(w, j) == node_size(w) * j;
        assert(block(b2, w, j) =~= block(b, w, j));
    }
    if off >= 1 {
        assert forall|j: int| 0 <= j < count(b, w) implies #[trigger] b2[base(w, j)] == b[base(w, j)] by {
            assert(base(w, j) + node_size(w) <= b.len()) by (nonlinear_arith)
                requires
                    0 <= j < b.len() as int / node_size(w),
                    node_size(w) == 15 || node_size(w) == 20,
                    base(w, j) == node_size(w) * j;
        }
    }
}

/// Writing `v` into the `parent` field of a record.
pub proof fn lemma_write_parent(k: Seq<u8>, w: u8, v: u32)
    requires
        w == WIDTH_U16 || w == WIDTH_U24,
        k.len() == node_size(w),
    ensures
        rec_of(wr(k, 1, slot(w), v as int), w) == (NodeRec { parent: if (v as int) % span(slot(w)) == sentinel(w) { None } else { Some(((v as int) % span(slot(w))) as u32) }, ..rec_of(k, w) }),
{
    lemma_rd_wr(k, 1, slot(w), v);
    assert(wr(k, 1, slot(w), v as int)[0] == k[0]);
}

/// Writing `v` into the `prev` field of a record.
pub proof fn lemma_write_prev(k: Seq<u8>, w: u8, v: u32)
    requires
        w == WIDTH_U16 || w == WIDTH_U24,
        k.len() == node_size(w),
    ensures
        rec_of(wr(k, 1 + slot(w), slot(w), v as int), w) == (NodeRec { prev: if (v as int) % span(slot(w)) == sentinel(w) { None } else { Some(((v as int) % span(slot(w))) as u32) }, ..rec_of(k, w) }),
{
    lemma_rd_wr(k, 1 + slot(w), slot(w), v);
    assert(wr(k, 1 + slot(w), slot(w), v as int)[0] == k[0]);
}

/// Writing `v` into the `next` field of a record.
pub proof fn lemma_write_next(k: Seq<u8>, w: u8, v: u32)
    requires
        w == WIDTH_U16 || w == WIDTH_U24,
        k.len() == node_size(w),
    ensures
        rec_of(wr(k, 1 + 2 * slot(w), slot(w), v as int), w) == (NodeRec { next: if (v as int) % span(slot(w)) == sentinel(w) { None } else { Some(((v as int) % span(slot(w))) as u32) }, ..rec_of(k, w) }),
{
    lemma_rd_wr(k, 1 + 2 * slot(w), slot(w), v);
    assert(wr(k, 1 + 2 * slot(w), slot(w), v as int)[0] == k[0]);
}

/// Writing `v` into the `first` field of a record.
pub proof fn lemma_write_first(k: Seq<u8>, w: u8, v: u32)
    requires
        w == WIDTH_U16 || w == WIDTH_U24,
        k.len() == node_size(w),
        !is_string_tag(k[0]),
    ensures
        rec_of(wr(k, 1 + 3 * slot(w), slot(w), v as int), w) == (NodeRec { first: if (v as int) % span(slot(w)) == sentinel(w) { None } else { Some(((v as int) % span(slot(w))) as u32) }, ..rec_of(k, w) }),
{
    lemma_rd_wr(k, 1 + 3 * slot(w), slot(w), v);
    assert(wr(k, 1 + 3 * slot(w), slot(w), v as int)[0] == k[0]);
}

/// Writing `v` into the `last` field of a record.
pub proof fn lemma_write_last(k: Seq<u8>, w: u8, v: u32)
    requires
        w == WIDTH_U16 || w == WIDTH_U24,
        k.len() == node_size(w),
        !is_string_tag(k[0]),
    ensures
        rec_of(wr(k, 1 + 4 * slot(w), slot(w), v as int), w) == (NodeRec { last: if (v as int) % span(slot(w)) == sentinel(w) { None } else { Some(((v as int) % span(slot(w))) as u32) }, ..rec_of(k, w) }),
{
    lemma_rd_wr(k, 1 + 4 * slot(w), slot(w), v);
    assert(wr(k, 1 + 4 * slot(w), slot(w), v as int)[0] == k[0]);
}

/// Writing `v` into the `class` field of a record.
pub proof fn lemma_write_class(k: Seq<u8>, w: u8, v: u32)
    requires
        w == WIDTH_U16 || w == WIDTH_U24,
        k.len() == node_size(w),
        !is_string_tag(k[0]),
    ensures
        rec_of(wr(k, 1 + 5 * slot(w), 2, v as int), w) == (NodeRec { class: if (v as int) % 0x1_0000 == 0xFFFF { None } else { Some(((v as int) % 0x1_0000) as u16) }, ..rec_of(k, w) }),
{
    lemma_rd_wr(k, 1 + 5 * slot(w), 2, v);
    assert(wr(k, 1 + 5 * slot(w), 2, v as int)[0] == k[0]);
}

/// Writing `v` into the `attr` field of a record.
pub proof fn lemma_write_attr(k: Seq<u8>, w: u8, v: u32)
    requires
        w == WIDTH_U16 || w == WIDTH_U24,
        k.len() == node_size(w),
        !is_string_tag(k[0]),
    ensures
        rec_of(wr(k, 3 + 5 * slot(w), 2, v as int), w) == (NodeRec { attr: if (v as int) % 0x1_0000 == 0xFFFF { None } else { Some(((v as int) % 0x1_0000) as u16) }, ..rec_of(k, w) }),
{
    lemma_rd_wr(k, 3 + 5 * slot(w), 2, v);
    assert(wr(k, 3 + 5 * slot(w), 2, v as int)[0] == k[0]);
}

/// Writing `v` into the `text_start` field of a text or comment record.
pub proof fn lemma_write_text_start(k: Seq<u8>, w: u8, v: u32)
    requires
        w == WIDTH_U16 || w == WIDTH_U24,
        k.len() == node_size(w),
        is_string_tag(k[0]),
    ensures
        rec_of(wr(k, 1 + 3 * slot(w), 4, v as int), w) == (NodeRec { text: (v, rec_of(k, w).text.1), ..rec_of(k, w) }),
{
    lemma_rd_wr(k, 1 + 3 * slot(w), 4, v);
    assert(wr(k, 1 + 3 * slot(w), 4, v as int)[0] == k[0]);
}

/// Writing `v` into the `text_end` field of a text or comment record.
pub proof fn lemma_write_text_end(k: Seq<u8>, w: u8, v: u32)
    requires
        w == WIDTH_U16 || w == WIDTH_U24,
        k.len() == node_size(w),
        is_string_tag(k[0]),
    ensures
        rec_of(wr(k, 5 + 3 * slot(w), 4, v as int), w) == (NodeRec { text: (rec_of(k, w).text.0, v), ..rec_of(k, w) }),
{
    lemma_rd_wr(k, 5 + 3 * slot(w), 4, v);
    assert(wr(k, 5 + 3 * slot(w), 4, v as int)[0] == k[0]);
}

/// Reads the node link at `pos`.
fn read_node_slot(bytes: &[u8], pos: usize, width: u8) -> (r: Option<NodeIndex>)
    requires
        width == WIDTH_U16 || width == WIDTH_U24,
        pos + slot(width) <= bytes@.len(),
    ensures
        oi(r) == link(bytes@, width, pos as int),
{
    let n: usize = if width == WIDTH_U24 { 3 } else { 2 };
    let v = read_le(bytes, pos, n);
    let s: u32 = if width == WIDTH_U24 { 0xFF_FFFF } else { 0xFFFF };
    if v == s {
        None
    } else {
        Some(NodeIndex::new(v))
    }
}

/// Reads the optional list index at `pos`.
fn read_u16_slot(bytes: &[u8], pos: usize) -> (r: Option<u16>)
    requires
        pos + 2 <= bytes@.len(),
    ensures
        r == opt16(bytes@, pos as int),
{
    let v = read_le(bytes, pos, 2);
    if v == 0xFFFF {
        None
    } else {
        Some(v as u16)
    }
}

/// Writes the node link `val` at `pos`.
fn write_node_slot(bytes: &mut Vec<u8>, pos: usize, width: u8, val: Option<NodeIndex>)
    requires
        width == WIDTH_U16 || width == WIDTH_U24,
        pos + slot(width) <= old(bytes)@.len(),
    ensures
        final(bytes)@ == wr(old(bytes)@, pos as int, slot(width), match val {
            Some(n) => n.0 as int,
            None => sentinel(width),
        }),
{
    let v: u32 = match val {
        Some(n) => n.as_u32(),
        None => if width == WIDTH_U24 { 0xFF_FFFF } else { 0xFFFF },
    };
    let n: usize = if width == WIDTH_U24 { 3 } else { 2 };
    write_le(bytes, pos, n, v);
}

/// Writes the optional list index `val` at `pos`.
fn write_u16_slot(bytes: &mut Vec<u8>, pos: usize, val: Option<u16>)
    requires
        pos + 2 <= old(bytes)@.len(),
    ensures
        final(bytes)@ == wr(old(bytes)@, pos as int, 2, match val {
            Some(n) => n as int,
            None => 0xFFFF,
        }),
{
    let v: u32 = match val {
        Some(n) => n as u32,
        None => 0xFFFF,
    };
    write_le(bytes, pos, 2, v);
}

} // verus!

verus! {

/// The tag that code `t` stands for.
pub open spec fn tag_of_code(t: u8) -> HtmlTag {
    htmltag_at(t as nat)
}

/// Byte offset of node `i`'s record, and proof that the record lies in the blob.
fn base_of(bytes: &[u8], w: u8, i: NodeIndex) -> (r: usize)
    requires
        blob_ok(bytes@, w),
        i.0 < count(bytes@, w),
    ensures
        r == base(w, i.0 as int),
        r + node_size(w) <= bytes@.len(),
{
    let _len = bytes.len();
    let ns: usize = if w == WIDTH_U24 { 20 } else { 15 };
    proof {
        assert(i.0 * node_size(w) + node_size(w) <= bytes@.len()) by (nonlinear_arith)
            requires
                0 <= i.0 < bytes@.len() as int / node_size(w),
                node_size(w) == 15 || node_size(w) == 20;
    }
    i.as_usize() * ns
}

/// The record of node `i` read from its bytes, with the positions of its fields.
#[verifier::rlimit(60)]
proof fn lemma_rec_at(b: Seq<u8>, w: u8, i: int, o: int)
    requires
        blob_ok(b, w),
        0 <= i < count(b, w),
        o == base(w, i),
        o + node_size(w) <= b.len(),
    ensures
        rec(b, w, i).tag == b[o],
        rec(b, w, i).parent == link(b, w, o + 1),
        rec(b, w, i).prev == link(b, w, o + 1 + slot(w)),
        rec(b, w, i).next == link(b, w, o + 1 + 2 * slot(w)),
        !is_string_tag(b[o]) ==> rec(b, w, i).first == link(b, w, o + 1 + 3 * slot(w)),
        !is_string_tag(b[o]) ==> rec(b, w, i).last == link(b, w, o + 1 + 4 * slot(w)),
        !is_string_tag(b[o]) ==> rec(b, w, i).class == opt16(b, o + 1 + 5 * slot(w)),
        !is_string_tag(b[o]) ==> rec(b, w, i).attr == opt16(b, o + 3 + 5 * slot(w)),
        is_string_tag(b[o]) ==> rec(b, w, i).first is None && rec(b, w, i).last is None,
        is_string_tag(b[o]) ==> rec(b, w, i).class is None && rec(b, w, i).attr is None,
        is_string_tag(b[o]) ==> rec(b, w, i).text == (rd(b, o + 1 + 3 * slot(w), 4) as u32, rd(b, o + 5 + 3 * slot(w), 4) as u32),
        b[o] < TAG_COUNT,
{
    let k = block(b, w, i);
    assert(k[0] == b[o]);
    assert(k.len() == node_size(w));
    assert forall|p: int, n: int| 0 <= p && p + n <= node_size(w) && (n == 2 || n == 3 || n == 4) implies rd(k, p, n) == rd(b, o + p, n) by {
        assert(k[p] == b[o + p]);
        assert(k[p + 1] == b[o + p + 1]);
        if n >= 3 {
            assert(k[p + 2] == b[o + p + 2]);
        }
        if n >= 4 {
            assert(k[p + 3] == b[o + p + 3]);
        }
    }
}

fn get_tag(bytes: &[u8], w: u8, i: NodeIndex) -> (r: HtmlTag)
    requires
        blob_ok(bytes@, w),
        i.0 < count(bytes@, w),
    ensures
        r == tag_of_code(records(bytes@, w)[i.0 as int].tag),
{
    let o = base_of(bytes, w, i);
    proof {
        lemma_rec_at(bytes@, w, i.0 as int, o as int);
    }
    HtmlTag::at(bytes[o] as usize)
}

fn get_tag_code(bytes: &[u8], w: u8, i: NodeIndex) -> (r: u8)
    requires
        blob_ok(bytes@, w),
        i.0 < count(bytes@, w),
    ensures
        r == records(bytes@, w)[i.0 as int].tag,
        r < TAG_COUNT,
{
    let o = base_of(bytes, w, i);
    proof {
        lemma_rec_at(bytes@, w, i.0 as int, o as int);
    }
    bytes[o]
}

#[verifier::rlimit(30)]
fn get_link(bytes: &[u8], w: u8, i: NodeIndex, which: u8) -> (r: Option<NodeIndex>)
    requires
        blob_ok(bytes@, w),
        i.0 < count(bytes@, w),
        which < 5,
    ensures
        which == 0 ==> oi(r) == records(bytes@, w)[i.0 as int].parent,
        which == 1 ==> oi(r) == records(bytes@, w)[i.0 as int].prev,
        which == 2 ==> oi(r) == records(bytes@, w)[i.0 as int].next,
        which == 3 ==> oi(r) == records(bytes@, w)[i.0 as int].first,
        which == 4 ==> oi(r) == records(bytes@, w)[i.0 as int].last,
{
    let o = base_of(bytes, w, i);
    proof {
        lemma_rec_at(bytes@, w, i.0 as int, o as int);
    }
    let s: usize = if w == WIDTH_U24 { 3 } else { 2 };
    let string = bytes[o] == TEXT_TAG || bytes[o] == COMMENT_TAG;
    if which >= 3 && string {
        return None;
    }
    let off: usize = if which == 0 {
        1
    } else if which == 1 {
        1 + s
    } else if which == 2 {
        1 + 2 * s
    } else if which == 3 {
        1 + 3 * s
    } else {
        1 + 4 * s
    };
    read_node_slot(bytes, o + off, w)
}

#[verifier::spinoff_prover]
#[verifier::rlimit(40)]
fn get_list(bytes: &[u8], w: u8, i: NodeIndex, which: u8) -> (r: Option<u16>)
    requires
        blob_ok(bytes@, w),
        i.0 < count(bytes@, w),
        which < 2,
    ensures
        which == 0 ==> r == records(bytes@, w)[i.0 as int].class,
        which == 1 ==> r == records(bytes@, w)[i.0 as int].attr,
{
    let o = base_of(bytes, w, i);
    proof {
        lemma_rec_at(bytes@, w, i.0 as int, o as int);
    }
    let s: usize = if w == WIDTH_U24 { 3 } else { 2 };
    if bytes[o] == TEXT_TAG || bytes[o] == COMMENT_TAG {
        return None;
    }
    let off: usize = if which == 0 { 1 + 5 * s } else { 3 + 5 * s };
    read_u16_slot(bytes, o + off)
}

fn get_text(bytes: &[u8], w: u8, i: NodeIndex) -> (r: (u32, u32))
    requires
        blob_ok(bytes@, w),
        i.0 < count(bytes@, w),
    ensures
        r == records(bytes@, w)[i.0 as int].text,
{
    let o = base_of(bytes, w, i);
    proof {
        lemma_rec_at(bytes@, w, i.0 as int, o as int);
    }
    if bytes[o] != TEXT_TAG && bytes[o] != COMMENT_TAG {
        return (0, 0);
    }
    let s: usize = if w == WIDTH_U24 { 3 } else { 2 };
    (read_le(bytes, o + 1 + 3 * s, 4), read_le(bytes, o + 5 + 3 * s, 4))
}

/// A borrowed, read-only view over a node blob.
#[derive(Clone, Copy)]
pub struct NodesView<'a> {
    width: u8,
    bytes: &'a [u8],
}

impl<'a> NodesView<'a> {
    /// The records, node by node.
    pub closed spec fn recs(&self) -> Seq<NodeRec> {
        records(self.bytes@, self.width)
    }

    /// The view reads whole records of known tags.
    pub closed spec fn wf(&self) -> bool {
        blob_ok(self.bytes@, self.width)
    }

    pub fn len(&self) -> (r: usize)
        requires
            self.wf(),
        ensures
            r == self.recs().len(),
    {
        let ns: usize = if self.width == WIDTH_U24 { 20 } else { 15 };
        self.bytes.len() / ns
    }

    pub fn tag(&self, index: NodeIndex) -> (r: HtmlTag)
        requires
            self.wf(),
            index.0 < self.recs().len(),
        ensures
            r == tag_of_code(self.recs()[index.0 as int].tag),
    {
        get_tag(self.bytes, self.width, index)
    }

    /// The tag code of node `index`.
    pub fn tag_code(&self, index: NodeIndex) -> (r: u8)
        requires
            self.wf(),
            index.0 < self.recs().len(),
        ensures
            r == self.recs()[index.0 as int].tag,
            r < TAG_COUNT,
    {
        get_tag_code(self.bytes, self.width, index)
    }

    pub fn is_string_node(&self, index: NodeIndex) -> (r: bool)
        requires
            self.wf(),
            index.0 < self.recs().len(),
        ensures
            r == is_string_tag(self.recs()[index.0 as int].tag),
    {
        let t = get_tag(self.bytes, self.width, index);
        proof {
            lemma_code_tag(self.recs()[index.0 as int].tag);
        }
        match t {
            HtmlTag::sys_text => true,
            HtmlTag::sys_comment => true,
            _ => false,
        }
    }

    pub fn is_inline_element(&self, index: NodeIndex) -> (r: bool)
        requires
            self.wf(),
            index.0 < self.recs().len(),
        ensures
            r == tag_is_inline(tag_of_code(self.recs()[index.0 as int].tag)),
    {
        self.tag(index).is_inline_element()
    }

    pub fn is_block_element(&self, index: NodeIndex) -> (r: bool)
        requires
            self.wf(),
            index.0 < self.recs().len(),
        ensures
            r == tag_is_block(tag_of_code(self.recs()[index.0 as int].tag)),
    {
        self.tag(index).is_block_element()
    }

    pub fn parent_index(&self, index: NodeIndex) -> (r: Option<NodeIndex>)
        requires
            self.wf(),
            index.0 < self.recs().len(),
        ensures
            oi(r) == self.recs()[index.0 as int].parent,
    {
        get_link(self.bytes, self.width, index, 0)
    }

    pub fn prev_sibling_index(&self, index: NodeIndex) -> (r: Option<NodeIndex>)
        requires
            self.wf(),
            index.0 < self.recs().len(),
        ensures
            oi(r) == self.recs()[index.0 as int].prev,
    {
        get_link(self.bytes, self.width, index, 1)
    }

    pub fn next_sibling_index(&self, index: NodeIndex) -> (r: Option<NodeIndex>)
        requires
            self.wf(),
            index.0 < self.recs().len(),
        ensures
            oi(r) == self.recs()[index.0 as int].next,
    {
        get_link(self.bytes, self.width, index, 2)
    }

    pub fn first_child_index(&self, index: NodeIndex) -> (r: Option<NodeIndex>)
        requires
            self.wf(),
            index.0 < self.recs().len(),
        ensures
            oi(r) == self.recs()[index.0 as int].first,
    {
        get_link(self.bytes, self.width, index, 3)
    }

    pub fn last_child_index(&self, index: NodeIndex) -> (r: Option<NodeIndex>)
        requires
            self.wf(),
            index.0 < self.recs().len(),
        ensures
            oi(r) == self.recs()[index.0 as int].last,
    {
        get_link(self.bytes, self.width, index, 4)
    }

    /// The start and end of a text or comment node's text; `(0, 0)` for an element.
    pub fn text_range(&self, index: NodeIndex) -> (r: (u32, u32))
        requires
            self.wf(),
            index.0 < self.recs().len(),
        ensures
            r == self.recs()[index.0 as int].text,
    {
        get_text(self.bytes, self.width, index)
    }

    pub fn class_list_index(&self, index: NodeIndex) -> (r: Option<u16>)
        requires
            self.wf(),
            index.0 < self.recs().len(),
        ensures
            r == self.recs()[index.0 as int].class,
    {
        get_list(self.bytes, self.width, index, 0)
    }

    pub fn attr_list_index(&self, index: NodeIndex) -> (r: Option<u16>)
        requires
            self.wf(),
            index.0 < self.recs().len(),
        ensures
            r == self.recs()[index.0 as int].attr,
    {
        get_list(self.bytes, self.width, index, 1)
    }

}

/// A known tag code is the code of its tag.
pub proof fn lemma_code_of_tag(t: u8)
    requires
        t < TAG_COUNT,
    ensures
        code_of(tag_of_code(t)) == t,
{
    broadcast use lemma_htmltag_index;
    assert(htmltag_index(tag_of_code(t)) == t);
}

/// The codes of the text and comment tags are theirs.
proof fn lemma_code_tag(t: u8)
    requires
        t < TAG_COUNT,
    ensures
        (tag_of_code(t) == HtmlTag::sys_text) == (t == TEXT_TAG),
        (tag_of_code(t) == HtmlTag::sys_comment) == (t == COMMENT_TAG),
{
    broadcast use lemma_htmltag_index;
    assert(htmltag_index(tag_of_code(t)) == t);
    assert(htmltag_index(HtmlTag::sys_text) == TEXT_TAG);
    assert(htmltag_index(HtmlTag::sys_comment) == COMMENT_TAG);
}

} // verus!

verus! {

/// Whether every link of every record names a record of the sequence.
pub open spec fn links_ok(v: Seq<NodeRec>) -> bool {
    forall|i: int| 0 <= i < v.len() ==> rec_links_ok(#[trigger] v[i], v.len() as int)
}

pub open spec fn upd_parent(v: Seq<NodeRec>, i: int, x: Option<u32>) -> Seq<NodeRec> {
    v.update(i, set_parent_rec(v[i], x))
}

pub open spec fn upd_prev(v: Seq<NodeRec>, i: int, x: Option<u32>) -> Seq<NodeRec> {
    v.update(i, set_prev_rec(v[i], x))
}

pub open spec fn upd_next(v: Seq<NodeRec>, i: int, x: Option<u32>) -> Seq<NodeRec> {
    v.update(i, set_next_rec(v[i], x))
}

pub open spec fn upd_first(v: Seq<NodeRec>, i: int, x: Option<u32>) -> Seq<NodeRec> {
    v.update(i, set_first_rec(v[i], x))
}

pub open spec fn upd_last(v: Seq<NodeRec>, i: int, x: Option<u32>) -> Seq<NodeRec> {
    v.update(i, set_last_rec(v[i], x))
}

/// A node's topology, as a flat byte blob: one record per node.
#[derive(Clone, PartialEq, Hash, Debug)]
pub struct Nodes {
    width: u8,
    bytes: Vec<u8>,
}

impl Nodes {
    /// The records, node by node.
    pub closed spec fn recs(&self) -> Seq<NodeRec> {
        records(self.bytes@, self.width)
    }

    /// The width code of the links: [`WIDTH_U16`] or [`WIDTH_U24`].
    pub closed spec fn width_code(&self) -> u8 {
        self.width
    }

    /// Whole records of known tags, at a known width, no more of them than links can
    /// name.
    pub closed spec fn wf(&self) -> bool {
        &&& blob_ok(self.bytes@, self.width)
        &&& count(self.bytes@, self.width) <= sentinel(self.width)
    }

    /// A read-only view over the records.
    pub fn view(&self) -> (r: NodesView<'_>)
        requires
            self.wf(),
        ensures
            r.wf(),
            r.recs() == self.recs(),
    {
        NodesView { width: self.width, bytes: self.bytes.as_slice() }
    }

    /// Writes the low `n` bytes of `v` at offset `off` of node `i`'s record.
    fn write_at(&mut self, i: NodeIndex, off: usize, n: usize, v: u32)
        requires
            old(self).wf(),
            i.0 < old(self).recs().len(),
            1 <= off,
            off + n <= node_size(old(self).width_code()),
            n == 2 || n == 3 || n == 4,
        ensures
            final(self).wf(),
            final(self).width_code() == old(self).width_code(),
            final(self).recs().len() == old(self).recs().len(),
            final(self).bytes@ == wr(old(self).bytes@, base(old(self).width, i.0 as int) + off, n as int, v as int),
            forall|j: int| 0 <= j < old(self).recs().len() && j != i.0 ==> #[trigger] final(self).recs()[j] == old(self).recs()[j],
            final(self).recs()[i.0 as int] == rec_of(wr(block(old(self).bytes@, old(self).width, i.0 as int), off as int, n as int, v as int), old(self).width),
    {
        let w = self.width;
        let o = base_of(self.bytes.as_slice(), w, i);
        proof {
            lemma_write_in_node(self.bytes@, w, i.0 as int, off as int, n as int, v);
        }
        write_le(&mut self.bytes, o + off, n, v);
    }

    fn link_value(&self, value: Option<NodeIndex>) -> (r: u32)
        requires
            self.wf(),
        ensures
            r == match value {
                Some(n) => n.0 as int,
                None => sentinel(self.width_code()),
            },
    {
        match value {
            Some(n) => n.as_u32(),
            None => if self.width == WIDTH_U24 { 0xFF_FFFF } else { 0xFFFF },
        }
    }

    fn slot_bytes(&self) -> (r: usize)
        requires
            self.wf(),
        ensures
            r == slot(self.width_code()),
    {
        if self.width == WIDTH_U24 { 3 } else { 2 }
    }

    pub fn set_parent_index(&mut self, index: NodeIndex, value: Option<NodeIndex>)
        requires
            old(self).wf(),
            index.0 < old(self).recs().len(),
        ensures
            final(self).wf(),
            final(self).width_code() == old(self).width_code(),
            final(self).recs() == upd_parent(old(self).recs(), index.0 as int, stored(old(self).width_code(), value)),
    {
        let v = self.link_value(value);
        let s = self.slot_bytes();
        proof {
            lemma_write_parent(block(self.bytes@, self.width, index.0 as int), self.width, v);
        }
        self.write_at(index, 1, s, v);
        proof {
            assert(final(self).recs() =~= upd_parent(old(self).recs(), index.0 as int, stored(old(self).width_code(), value)));
        }
    }

    pub fn set_prev_sibling_index(&mut self, index: NodeIndex, value: Option<NodeIndex>)
        requires
            old(self).wf(),
            index.0 < old(self).recs().len(),
        ensures
            final(self).wf(),
            final(self).width_code() == old(self).width_code(),
            final(self).recs() == upd_prev(old(self).recs(), index.0 as int, stored(old(self).width_code(), value)),
    {
        let v = self.link_value(value);
        let s = self.slot_bytes();
        proof {
            lemma_write_prev(block(self.bytes@, self.width, index.0 as int), self.width, v);
        }
        self.write_at(index, 1 + s, s, v);
        proof {
            assert(final(self).recs() =~= upd_prev(old(self).recs(), index.0 as int, stored(old(self).width_code(), value)));
        }
    }

    pub fn set_next_sibling_index(&mut self, index: NodeIndex, value: Option<NodeIndex>)
        requires
            old(self).wf(),
            index.0 < old(self).recs().len(),
        ensures
            final(self).wf(),
            final(self).width_code() == old(self).width_code(),
            final(self).recs() == upd_next(old(self).recs(), index.0 as int, stored(old(self).width_code(), value)),
    {
        let v = self.link_value(value);
        let s = self.slot_bytes();
        proof {
            lemma_write_next(block(self.bytes@, self.width, index.0 as int), self.width, v);
        }
        self.write_at(index, 1 + 2 * s, s, v);
        proof {
            assert(final(self).recs() =~= upd_next(old(self).recs(), index.0 as int, stored(old(self).width_code(), value)));
        }
    }

    pub fn set_first_child_index(&mut self, index: NodeIndex, value: Option<NodeIndex>)
        requires
            old(self).wf(),
            index.0 < old(self).recs().len(),
            !is_string_tag(old(self).recs()[index.0 as int].tag),
        ensures
            final(self).wf(),
            final(self).width_code() == old(self).width_code(),
            final(self).recs() == upd_first(old(self).recs(), index.0 as int, stored(old(self).width_code(), value)),
    {
        let v = self.link_value(value);
        let s = self.slot_bytes();
        proof {
            lemma_write_first(block(self.bytes@, self.width, index.0 as int), self.width, v);
        }
        self.write_at(index, 1 + 3 * s, s, v);
        proof {
            assert(final(self).recs() =~= upd_first(old(self).recs(), index.0 as int, stored(old(self).width_code(), value)));
        }
    }

    pub fn set_last_child_index(&mut self, index: NodeIndex, value: Option<NodeIndex>)
        requires
            old(self).wf(),
            index.0 < old(self).recs().len(),
            !is_string_tag(old(self).recs()[index.0 as int].tag),
        ensures
            final(self).wf(),
            final(self).width_code() == old(self).width_code(),
            final(self).recs() == upd_last(old(self).recs(), index.0 as int, stored(old(self).width_code(), value)),
    {
        let v = self.link_value(value);
        let s = self.slot_bytes();
        proof {
            lemma_write_last(block(self.bytes@, self.width, index.0 as int), self.width, v);
        }
        self.write_at(index, 1 + 4 * s, s, v);
        proof {
            assert(final(self).recs() =~= upd_last(old(self).recs(), index.0 as int, stored(old(self).width_code(), value)));
        }
    }
}

} // verus!

verus! {

/// The list index that a read gives back after `o` was written.
pub open spec fn stored16(o: Option<u16>) -> Option<u16> {
    match o {
        Some(n) => if n == 0xFFFF { None } else { Some(n) },
        None => None,
    }
}

impl Nodes {
    pub fn set_class_list_index(&mut self, index: NodeIndex, value: Option<u16>)
        requires
            old(self).wf(),
            index.0 < old(self).recs().len(),
            !is_string_tag(old(self).recs()[index.0 as int].tag),
        ensures
            final(self).wf(),
            final(self).width_code() == old(self).width_code(),
            final(self).recs() == old(self).recs().update(index.0 as int, NodeRec { class: stored16(value), ..old(self).recs()[index.0 as int] }),
    {
        let v: u32 = match value { Some(n) => n as u32, None => 0xFFFF };
        let s = self.slot_bytes();
        proof {
            lemma_write_class(block(self.bytes@, self.width, index.0 as int), self.width, v);
        }
        self.write_at(index, 1 + 5 * s, 2, v);
        proof {
            assert(final(self).recs() =~= old(self).recs().update(index.0 as int, NodeRec { class: stored16(value), ..old(self).recs()[index.0 as int] }));
        }
    }

    pub fn set_attr_list_index(&mut self, index: NodeIndex, value: Option<u16>)
        requires
            old(self).wf(),
            index.0 < old(self).recs().len(),
            !is_string_tag(old(self).recs()[index.0 as int].tag),
        ensures
            final(self).wf(),
            final(self).width_code() == old(self).width_code(),
            final(self).recs() == old(self).recs().update(index.0 as int, NodeRec { attr: stored16(value), ..old(self).recs()[index.0 as int] }),
    {
        let v: u32 = match value { Some(n) => n as u32, None => 0xFFFF };
        let s = self.slot_bytes();
        proof {
            lemma_write_attr(block(self.bytes@, self.width, index.0 as int), self.width, v);
        }
        self.write_at(index, 3 + 5 * s, 2, v);
        proof {
            assert(final(self).recs() =~= old(self).recs().update(index.0 as int, NodeRec { attr: stored16(value), ..old(self).recs()[index.0 as int] }));
        }
    }


    /// Sets the text range of a text or comment node.
    pub fn set_text_range(&mut self, index: NodeIndex, start: u32, end: u32)
        requires
            old(self).wf(),
            index.0 < old(self).recs().len(),
            is_string_tag(old(self).recs()[index.0 as int].tag),
        ensures
            final(self).wf(),
            final(self).width_code() == old(self).width_code(),
            final(self).recs() == old(self).recs().update(index.0 as int, NodeRec { text: (start, end), ..old(self).recs()[index.0 as int] }),
    {
        let s = self.slot_bytes();
        let ghost b0 = self.bytes@;
        let ghost w = self.width;
        proof {
            lemma_write_text_start(block(self.bytes@, self.width, index.0 as int), self.width, start);
        }
        self.write_at(index, 1 + 3 * s, 4, start);
        proof {
            lemma_write_text_end(block(self.bytes@, self.width, index.0 as int), self.width, end);
        }
        self.write_at(index, 5 + 3 * s, 4, end);
        proof {
            assert(final(self).recs() =~= old(self).recs().update(index.0 as int, NodeRec { text: (start, end), ..old(self).recs()[index.0 as int] }));
        }
    }

    pub fn len(&self) -> (r: usize)
        requires
            self.wf(),
        ensures
            r == self.recs().len(),
    {
        self.view().len()
    }

    pub fn tag(&self, index: NodeIndex) -> (r: HtmlTag)
        requires
            self.wf(),
            index.0 < self.recs().len(),
        ensures
            r == tag_of_code(self.recs()[index.0 as int].tag),
    {
        self.view().tag(index)
    }

    /// The tag code of node `index`.
    pub fn tag_code(&self, index: NodeIndex) -> (r: u8)
        requires
            self.wf(),
            index.0 < self.recs().len(),
        ensures
            r == self.recs()[index.0 as int].tag,
            r < TAG_COUNT,
    {
        self.view().tag_code(index)
    }

    pub fn is_string_node(&self, index: NodeIndex) -> (r: bool)
        requires
            self.wf(),
            index.0 < self.recs().len(),
        ensures
            r == is_string_tag(self.recs()[index.0 as int].tag),
    {
        self.view().is_string_node(index)
    }

    pub fn is_inline_element(&self, index: NodeIndex) -> (r: bool)
        requires
            self.wf(),
            index.0 < self.recs().len(),
        ensures
            r == tag_is_inline(tag_of_code(self.recs()[index.0 as int].tag)),
    {
        self.view().is_inline_element(index)
    }

    pub fn is_block_element(&self, index: NodeIndex) -> (r: bool)
        requires
            self.wf(),
            index.0 < self.recs().len(),
        ensures
            r == tag_is_block(tag_of_code(self.recs()[index.0 as int].tag)),
    {
        self.view().is_block_element(index)
    }

    pub fn parent_index(&self, index: NodeIndex) -> (r: Option<NodeIndex>)
        requires
            self.wf(),
            index.0 < self.recs().len(),
        ensures
            oi(r) == self.recs()[index.0 as int].parent,
    {
        self.view().parent_index(index)
    }

    pub fn prev_sibling_index(&self, index: NodeIndex) -> (r: Option<NodeIndex>)
        requires
            self.wf(),
            index.0 < self.recs().len(),
        ensures
            oi(r) == self.recs()[index.0 as int].prev,
    {
        self.view().prev_sibling_index(index)
    }

    pub fn next_sibling_index(&self, index: NodeIndex) -> (r: Option<NodeIndex>)
        requires
            self.wf(),
            index.0 < self.recs().len(),
        ensures
            oi(r) == self.recs()[index.0 as int].next,
    {
        self.view().next_sibling_index(index)
    }

    pub fn first_child_index(&self, index: NodeIndex) -> (r: Option<NodeIndex>)
        requires
            self.wf(),
            index.0 < self.recs().len(),
        ensures
            oi(r) == self.recs()[index.0 as int].first,
    {
        self.view().first_child_index(index)
    }

    pub fn last_child_index(&self, index: NodeIndex) -> (r: Option<NodeIndex>)
        requires
            self.wf(),
            index.0 < self.recs().len(),
        ensures
            oi(r) == self.recs()[index.0 as int].last,
    {
        self.view().last_child_index(index)
    }

    pub fn text_range(&self, index: NodeIndex) -> (r: (u32, u32))
        requires
            self.wf(),
            index.0 < self.recs().len(),
        ensures
            r == self.recs()[index.0 as int].text,
    {
        self.view().text_range(index)
    }

    pub fn class_list_index(&self, index: NodeIndex) -> (r: Option<u16>)
        requires
            self.wf(),
            index.0 < self.recs().len(),
        ensures
            r == self.recs()[index.0 as int].class,
    {
        self.view().class_list_index(index)
    }

    pub fn attr_list_index(&self, index: NodeIndex) -> (r: Option<u16>)
        requires
            self.wf(),
            index.0 < self.recs().len(),
        ensures
            r == self.recs()[index.0 as int].attr,
    {
        self.view().attr_list_index(index)
    }

}

} // verus!

verus! {

/// The tag code of `t`.
pub open spec fn code_of(t: HtmlTag) -> u8 {
    htmltag_index(t) as u8
}

impl Nodes {
    /// Appends a record whose tag code is `code`.
    fn push_blank(&mut self, code: u8) -> (r: NodeIndex)
        requires
            old(self).wf(),
            old(self).recs().len() + 1 < sentinel(old(self).width_code()),
            code < TAG_COUNT,
        ensures
            final(self).wf(),
            final(self).width_code() == old(self).width_code(),
            r.0 == old(self).recs().len(),
            final(self).recs().len() == old(self).recs().len() + 1,
            forall|j: int| 0 <= j < old(self).recs().len() ==> #[trigger] final(self).recs()[j] == old(self).recs()[j],
            final(self).recs()[r.0 as int].tag == code,
    {
        let ghost w = self.width;
        let ns: usize = if self.width == WIDTH_U24 { 20 } else { 15 };
        let len = self.bytes.len();
        let new = len / ns;
        proof {
            assert(len == new * ns) by (nonlinear_arith)
                requires
                    len as int % ns as int == 0,
                    new == len as int / ns as int,
                    ns > 0;
            assert(len + ns <= usize::MAX) by (nonlinear_arith)
                requires
                    len == new * ns,
                    new + 1 < sentinel(w),
                    ns == node_size(w),
                    w == WIDTH_U16 || w == WIDTH_U24;
        }
        self.bytes.resize(len + ns, 0u8);
        self.bytes.set(len, code);
        let ghost b1 = self.bytes@;
        proof {
            assert(b1.len() as int / node_size(w) == new + 1) by (nonlinear_arith)
                requires
                    b1.len() == new * ns + ns,
                    ns == node_size(w),
                    ns > 0;
            assert(b1.len() as int % node_size(w) == 0) by (nonlinear_arith)
                requires
                    b1.len() == new * ns + ns,
                    ns == node_size(w),
                    ns > 0;
            assert forall|j: int| 0 <= j < new implies #[trigger] block(b1, w, j) == block(old(self).bytes@, w, j) by {
                assert(base(w, j) + node_size(w) <= len) by (nonlinear_arith)
                    requires
                        0 <= j < new,
                        len == new * node_size(w),
                        node_size(w) == 15 || node_size(w) == 20,
                        base(w, j) == node_size(w) * j;
                assert(block(b1, w, j) =~= block(old(self).bytes@, w, j));
            }
            assert forall|j: int| 0 <= j < count(b1, w) implies (#[trigger] b1[base(w, j)]) < TAG_COUNT by {
                if j < new {
                    assert(base(w, j) + node_size(w) <= len) by (nonlinear_arith)
                        requires
                            0 <= j < new,
                            len == new * node_size(w),
                            node_size(w) == 15 || node_size(w) == 20,
                            base(w, j) == node_size(w) * j;
                    assert(b1[base(w, j)] == old(self).bytes@[base(w, j)]);
                } else {
                    assert(base(w, j) == len);
                }
            }
            assert(block(b1, w, new as int)[0] == code);
        }
        NodeIndex::new(new as u32)
    }

    /// Appends a node with the tag and links given, no children and no lists. The new
    /// node's index is the number of nodes before.
    pub fn add_node(&mut self, tag: HtmlTag, parent_index: Option<NodeIndex>, prev_sibling: Option<NodeIndex>, next_sibling: Option<NodeIndex>) -> (r: NodeIndex)
        requires
            old(self).wf(),
            old(self).recs().len() + 1 < sentinel(old(self).width_code()),
        ensures
            final(self).wf(),
            final(self).width_code() == old(self).width_code(),
            r.0 == old(self).recs().len(),
            final(self).recs() == old(self).recs().push(new_rec(code_of(tag),
                stored(old(self).width_code(), parent_index),
                stored(old(self).width_code(), prev_sibling),
                stored(old(self).width_code(), next_sibling))),
    {
        proof {
            lemma_htmltag_index(tag);
        }
        let ghost w = self.width;
        let ghost old_recs = self.recs();
        let code = tag.index() as u8;
        let index = self.push_blank(code);
        self.set_parent_index(index, parent_index);
        self.set_prev_sibling_index(index, prev_sibling);
        self.set_next_sibling_index(index, next_sibling);
        if code == TEXT_TAG || code == COMMENT_TAG {
            self.set_text_range(index, 0, 0);
        } else {
            self.set_first_child_index(index, None);
            self.set_last_child_index(index, None);
            self.set_class_list_index(index, None);
            self.set_attr_list_index(index, None);
        }
        proof {
            assert(self.recs() =~= old_recs.push(new_rec(code_of(tag),
                stored(w, parent_index), stored(w, prev_sibling), stored(w, next_sibling))));
        }
        index
    }

    /// A blob holding the document root alone, with 3-byte links.
    pub fn new() -> (r: Nodes)
        ensures
            r.wf(),
            r.width_code() == WIDTH_U24,
            r.recs() == seq![new_rec(ROOT_TAG, None, None, None)],
    {
        let mut me = Nodes { width: WIDTH_U24, bytes: Vec::new() };
        proof {
            assert(me.recs() =~= Seq::<NodeRec>::empty());
        }
        me.add_node(HtmlTag::sys_root, None, None, None);
        proof {
            broadcast use lemma_htmltag_index;
            assert(htmltag_index(HtmlTag::sys_root) == 117);
            assert(me.recs() =~= seq![new_rec(ROOT_TAG, None, None, None)]);
        }
        me
    }
}

} // verus!

verus! {

/// What adding a node with tag code `t` after node `i` makes of `v`.
pub open spec fn spec_add_next(v: Seq<NodeRec>, i: int, t: u8) -> Seq<NodeRec> {
    let n = v.len() as u32;
    let p = v[i].parent->0;
    let nx = v[i].next;
    let v1 = v.push(new_rec(t, Some(p), Some(i as u32), nx));
    let v2 = upd_next(v1, i, Some(n));
    let v3 = match nx {
        Some(s) => upd_prev(v2, s as int, Some(n)),
        None => v2,
    };
    if v[p as int].last == Some(i as u32) { upd_last(v3, p as int, Some(n)) } else { v3 }
}

/// What adding a node with tag code `t` before node `i` makes of `v`.
pub open spec fn spec_add_prev(v: Seq<NodeRec>, i: int, t: u8) -> Seq<NodeRec> {
    let n = v.len() as u32;
    let p = v[i].parent->0;
    let pv = v[i].prev;
    let v1 = v.push(new_rec(t, Some(p), pv, Some(i as u32)));
    let v2 = upd_prev(v1, i, Some(n));
    let v3 = match pv {
        Some(s) => upd_next(v2, s as int, Some(n)),
        None => v2,
    };
    if v[p as int].first == Some(i as u32) { upd_first(v3, p as int, Some(n)) } else { v3 }
}

/// What adding a node with tag code `t` as first child of node `i` makes of `v`.
pub open spec fn spec_add_first(v: Seq<NodeRec>, i: int, t: u8) -> Seq<NodeRec> {
    let n = v.len() as u32;
    let nx = v[i].first;
    let v1 = v.push(new_rec(t, Some(i as u32), None, nx));
    let v2 = match nx {
        Some(c) => upd_prev(v1, c as int, Some(n)),
        None => upd_last(v1, i, Some(n)),
    };
    upd_first(v2, i, Some(n))
}

/// What adding a node with tag code `t` as last child of node `i` makes of `v`.
pub open spec fn spec_add_last(v: Seq<NodeRec>, i: int, t: u8) -> Seq<NodeRec> {
    let n = v.len() as u32;
    let pv = v[i].last;
    let v1 = v.push(new_rec(t, Some(i as u32), pv, None));
    let v2 = match pv {
        Some(c) => upd_next(v1, c as int, Some(n)),
        None => upd_first(v1, i, Some(n)),
    };
    upd_last(v2, i, Some(n))
}

/// Links of well-linked records fit any width that can name all records.
proof fn lemma_links_fit(v: Seq<NodeRec>, w: u8, i: int)
    requires
        links_ok(v),
        0 <= i < v.len(),
        v.len() <= sentinel(w),
        w == WIDTH_U16 || w == WIDTH_U24,
    ensures
        v[i].parent matches Some(p) ==> stored(w, Some(NodeIndex(p))) == Some(p),
        v[i].prev matches Some(p) ==> stored(w, Some(NodeIndex(p))) == Some(p),
        v[i].next matches Some(p) ==> stored(w, Some(NodeIndex(p))) == Some(p),
        v[i].first matches Some(p) ==> stored(w, Some(NodeIndex(p))) == Some(p),
        v[i].last matches Some(p) ==> stored(w, Some(NodeIndex(p))) == Some(p),
        forall|x: u32| x < v.len() + 1 && v.len() + 1 <= sentinel(w) ==> #[trigger] stored(w, Some(NodeIndex(x))) == Some(x),
{
    assert forall|x: u32| x < v.len() + 1 && v.len() + 1 <= sentinel(w) implies #[trigger] stored(w, Some(NodeIndex(x))) == Some(x) by {
        assert((x as int) % span(slot(w)) == x as int);
    }
    assert(v[i].parent matches Some(p) ==> (p as int) % span(slot(w)) == p);
    assert(v[i].prev matches Some(p) ==> (p as int) % span(slot(w)) == p);
    assert(v[i].next matches Some(p) ==> (p as int) % span(slot(w)) == p);
    assert(v[i].first matches Some(p) ==> (p as int) % span(slot(w)) == p);
    assert(v[i].last matches Some(p) ==> (p as int) % span(slot(w)) == p);
}

impl Nodes {
    #[verifier::spinoff_prover]
    pub fn add_as_last_child(&mut self, index: NodeIndex, tag: HtmlTag) -> (r: NodeIndex)
        requires
            old(self).wf(),
            links_ok(old(self).recs()),
            index.0 < old(self).recs().len(),
            !is_string_tag(old(self).recs()[index.0 as int].tag),
            old(self).recs().len() + 2 < sentinel(old(self).width_code()),
        ensures
            final(self).wf(),
            final(self).width_code() == old(self).width_code(),
            r.0 == old(self).recs().len(),
            final(self).recs() == spec_add_last(old(self).recs(), index.0 as int, code_of(tag)),
            links_ok(final(self).recs()),
    {
        let ghost v = self.recs();
        let ghost w = self.width;
        proof {
            lemma_links_fit(v, w, index.0 as int);
        }
        let prev_sibling = self.last_child_index(index);
        let new_index = self.add_node(tag, Some(index), prev_sibling, None);
        match prev_sibling {
            Some(child) => {
                self.set_next_sibling_index(child, Some(new_index));
            }
            None => {
                self.set_first_child_index(index, Some(new_index));
            }
        }
        self.set_last_child_index(index, Some(new_index));
        proof {
            assert(self.recs() =~= spec_add_last(v, index.0 as int, code_of(tag)));
        }
        new_index
    }

    #[verifier::spinoff_prover]
    pub fn add_as_first_child(&mut self, index: NodeIndex, tag: HtmlTag) -> (r: NodeIndex)
        requires
            old(self).wf(),
            links_ok(old(self).recs()),
            index.0 < old(self).recs().len(),
            !is_string_tag(old(self).recs()[index.0 as int].tag),
            old(self).recs().len() + 2 < sentinel(old(self).width_code()),
        ensures
            final(self).wf(),
            final(self).width_code() == old(self).width_code(),
            r.0 == old(self).recs().len(),
            final(self).recs() == spec_add_first(old(self).recs(), index.0 as int, code_of(tag)),
            links_ok(final(self).recs()),
    {
        let ghost v = self.recs();
        let ghost w = self.width;
        proof {
            lemma_links_fit(v, w, index.0 as int);
        }
        let next_sibling = self.first_child_index(index);
        let new_index = self.add_node(tag, Some(index), None, next_sibling);
        match next_sibling {
            Some(child) => {
                self.set_prev_sibling_index(child, Some(new_index));
            }
            None => {
                self.set_last_child_index(index, Some(new_index));
            }
        }
        self.set_first_child_index(index, Some(new_index));
        proof {
            assert(self.recs() =~= spec_add_first(v, index.0 as int, code_of(tag)));
        }
        new_index
    }

    #[verifier::rlimit(80)]
    #[verifier::spinoff_prover]
    pub fn add_as_next_sibling(&mut self, index: NodeIndex, tag: HtmlTag) -> (r: NodeIndex)
        requires
            old(self).wf(),
            links_ok(old(self).recs()),
            index.0 < old(self).recs().len(),
            old(self).recs()[index.0 as int].parent is Some,
            old(self).recs().len() + 2 < sentinel(old(self).width_code()),
        ensures
            final(self).wf(),
            final(self).width_code() == old(self).width_code(),
            r.0 == old(self).recs().len(),
            final(self).recs() == spec_add_next(old(self).recs(), index.0 as int, code_of(tag)),
            links_ok(final(self).recs()),
    {
        let ghost v = self.recs();
        let ghost w = self.width;
        proof {
            lemma_links_fit(v, w, index.0 as int);
        }
        let parent_index = self.parent_index(index);
        let next_sibling = self.next_sibling_index(index);
        let parent = match parent_index {
            Some(p) => p,
            None => index,
        };
        let parent_last_child = self.last_child_index(parent);
        let new_index = self.add_node(tag, parent_index, Some(index), next_sibling);
        self.set_next_sibling_index(index, Some(new_index));
        match next_sibling {
            Some(sibling) => {
                self.set_prev_sibling_index(sibling, Some(new_index));
            }
            None => {}
        }
        let is_last = match parent_last_child {
            Some(c) => c.0 == index.0,
            None => false,
        };
        if is_last {
            self.set_last_child_index(parent, Some(new_index));
        }
        proof {
            assert(self.recs() =~= spec_add_next(v, index.0 as int, code_of(tag)));
        }
        new_index
    }

    #[verifier::rlimit(100)]
    #[verifier::spinoff_prover]
    pub fn add_as_prev_sibling(&mut self, index: NodeIndex, tag: HtmlTag) -> (r: NodeIndex)
        requires
            old(self).wf(),
            links_ok(old(self).recs()),
            index.0 < old(self).recs().len(),
            old(self).recs()[index.0 as int].parent is Some,
            old(self).recs().len() + 2 < sentinel(old(self).width_code()),
        ensures
            final(self).wf(),
            final(self).width_code() == old(self).width_code(),
            r.0 == old(self).recs().len(),
            final(self).recs() == spec_add_prev(old(self).recs(), index.0 as int, code_of(tag)),
            links_ok(final(self).recs()),
    {
        let ghost v = self.recs();
        let ghost w = self.width;
        proof {
            lemma_links_fit(v, w, index.0 as int);
        }
        let parent_index = self.parent_index(index);
        let prev_sibling = self.prev_sibling_index(index);
        let parent = match parent_index {
            Some(p) => p,
            None => index,
        };
        let parent_first_child = self.first_child_index(parent);
        let new_index = self.add_node(tag, parent_index, prev_sibling, Some(index));
        let ghost n = v.len() as u32;
        let ghost v1 = v.push(new_rec(code_of(tag), Some(v[index.0 as int].parent->0), v[index.0 as int].prev, Some(index.0)));
        proof {
            assert(self.recs() =~= v1);
        }
        self.set_prev_sibling_index(index, Some(new_index));
        let ghost v2 = upd_prev(v1, index.0 as int, Some(n));
        proof {
            assert(self.recs() =~= v2);
        }
        match prev_sibling {
            Some(sibling) => {
                self.set_next_sibling_index(sibling, Some(new_index));
            }
            None => {}
        }
        let ghost v3 = match v[index.0 as int].prev {
            Some(s) => upd_next(v2, s as int, Some(n)),
            None => v2,
        };
        proof {
            assert(self.recs() =~= v3);
        }
        let is_first = match parent_first_child {
            Some(c) => c.0 == index.0,
            None => false,
        };
        if is_first {
            self.set_first_child_index(parent, Some(new_index));
        }
        proof {
            assert(self.recs() =~= spec_add_prev(v, index.0 as int, code_of(tag)));
        }
        new_index
    }
}

} // verus!

verus! {

/// Whether the links of `r` name records of a sequence of `n`.
pub open spec fn rec_links_ok(r: NodeRec, n: int) -> bool {
    &&& r.parent matches Some(p) ==> p < n
    &&& r.prev matches Some(p) ==> p < n
    &&& r.next matches Some(p) ==> p < n
    &&& r.first matches Some(p) ==> p < n
    &&& r.last matches Some(p) ==> p < n
}

/// Replacing a record by one with links in range keeps all links in range.
pub proof fn lemma_links_upd(v: Seq<NodeRec>, i: int, r: NodeRec)
    requires
        links_ok(v),
        0 <= i < v.len(),
        rec_links_ok(r, v.len() as int),
    ensures
        links_ok(v.update(i, r)),
{
    assert forall|j: int| 0 <= j < v.len() implies rec_links_ok(#[trigger] v.update(i, r)[j], v.len() as int) by {
        if j != i {
            assert(rec_links_ok(v[j], v.len() as int));
        }
    }
}

/// `v` with `a` and `c` made neighbours: `c` after `a`.
pub open spec fn spec_join(v: Seq<NodeRec>, a: int, c: int) -> Seq<NodeRec> {
    upd_next(upd_prev(v, c, Some(a as u32)), a, Some(c as u32))
}

/// `v` with `p` made the parent of `cur` and of the siblings after it, at most `fuel` of
/// them.
pub open spec fn spec_set_parents(v: Seq<NodeRec>, cur: int, p: u32, fuel: nat) -> Seq<NodeRec>
    decreases fuel,
{
    if fuel == 0 {
        v
    } else {
        let v1 = upd_parent(v, cur, Some(p));
        match v1[cur].next {
            Some(n) => spec_set_parents(v1, n as int, p, (fuel - 1) as nat),
            None => v1,
        }
    }
}

/// Setting parents keeps the number of records, the links in range and the tags, and
/// gives each record its former parent or `p`.
pub proof fn lemma_set_parents(v: Seq<NodeRec>, cur: int, p: u32, fuel: nat)
    requires
        links_ok(v),
        0 <= cur < v.len(),
        p < v.len(),
    ensures
        spec_set_parents(v, cur, p, fuel).len() == v.len(),
        links_ok(spec_set_parents(v, cur, p, fuel)),
        forall|j: int| 0 <= j < v.len() ==> (#[trigger] spec_set_parents(v, cur, p, fuel)[j]).tag == v[j].tag,
        forall|j: int| 0 <= j < v.len() ==> (#[trigger] spec_set_parents(v, cur, p, fuel)[j]).parent == v[j].parent
            || spec_set_parents(v, cur, p, fuel)[j].parent == Some(p),
    decreases fuel,
{
    if fuel > 0 {
        let v1 = upd_parent(v, cur, Some(p));
        assert(links_ok(v1));
        match v1[cur].next {
            Some(n) => {
                lemma_set_parents(v1, n as int, p, (fuel - 1) as nat);
            }
            None => {}
        }
    }
}

impl Nodes {
    #[verifier::rlimit(60)]
    #[verifier::spinoff_prover]
    fn join(&mut self, prev_sibling: NodeIndex, next_sibling: NodeIndex)
        requires
            old(self).wf(),
            links_ok(old(self).recs()),
            prev_sibling.0 < old(self).recs().len(),
            next_sibling.0 < old(self).recs().len(),
        ensures
            final(self).wf(),
            final(self).width_code() == old(self).width_code(),
            final(self).recs() == spec_join(old(self).recs(), prev_sibling.0 as int, next_sibling.0 as int),
            links_ok(final(self).recs()),
    {
        let ghost v = self.recs();
        proof {
            lemma_links_fit(v, self.width, 0);
            let v1 = upd_prev(v, next_sibling.0 as int, Some(prev_sibling.0));
            assert(rec_links_ok(v[next_sibling.0 as int], v.len() as int));
            lemma_links_upd(v, next_sibling.0 as int, set_prev_rec(v[next_sibling.0 as int], Some(prev_sibling.0)));
            assert(rec_links_ok(v1[prev_sibling.0 as int], v.len() as int));
            lemma_links_upd(v1, prev_sibling.0 as int, set_next_rec(v1[prev_sibling.0 as int], Some(next_sibling.0)));
        }
        self.set_prev_sibling_index(next_sibling, Some(prev_sibling));
        self.set_next_sibling_index(prev_sibling, Some(next_sibling));
    }

    /// Makes `parent` the parent of `first_child` and of every sibling after it.
    fn update_children_parent(&mut self, first_child: NodeIndex, parent: NodeIndex)
        requires
            old(self).wf(),
            links_ok(old(self).recs()),
            first_child.0 < old(self).recs().len(),
            parent.0 < old(self).recs().len(),
        ensures
            final(self).wf(),
            final(self).width_code() == old(self).width_code(),
            final(self).recs() == spec_set_parents(old(self).recs(), first_child.0 as int, parent.0, old(self).recs().len()),
            links_ok(final(self).recs()),
    {
        let ghost v = self.recs();
        let len = self.len();
        let mut current = first_child;
        let mut fuel: usize = len;
        proof {
            lemma_links_fit(v, self.width, 0);
            lemma_set_parents(v, first_child.0 as int, parent.0, len as nat);
        }
        while fuel > 0
            invariant_except_break
                self.wf(),
                self.width_code() == old(self).width_code(),
                links_ok(self.recs()),
                self.recs().len() == len,
                current.0 < len,
                parent.0 < len,
                spec_set_parents(self.recs(), current.0 as int, parent.0, fuel as nat) == spec_set_parents(v, first_child.0 as int, parent.0, len as nat),
            ensures
                self.wf(),
                self.width_code() == old(self).width_code(),
                self.recs() == spec_set_parents(v, first_child.0 as int, parent.0, len as nat),
            decreases fuel,
        {
            let ghost before = self.recs();
            proof {
                lemma_links_fit(before, self.width, current.0 as int);
                lemma_set_parents(before, current.0 as int, parent.0, fuel as nat);
            }
            self.set_parent_index(current, Some(parent));
            fuel = fuel - 1;
            match self.next_sibling_index(current) {
                Some(sibling) => {
                    current = sibling;
                }
                None => {
                    break;
                }
            }
        }
        proof {
            lemma_set_parents(v, first_child.0 as int, parent.0, len as nat);
        }
    }

    pub fn remove_children(&mut self, index: NodeIndex)
        requires
            old(self).wf(),
            index.0 < old(self).recs().len(),
            !is_string_tag(old(self).recs()[index.0 as int].tag),
        ensures
            final(self).wf(),
            final(self).width_code() == old(self).width_code(),
            final(self).recs() == upd_last(upd_first(old(self).recs(), index.0 as int, None), index.0 as int, None),
    {
        self.set_first_child_index(index, None);
        self.set_last_child_index(index, None);
    }
}

} // verus!

verus! {

pub broadcast proof fn lemma_upd_parent_ok(v: Seq<NodeRec>, i: int, x: Option<u32>)
    requires
        links_ok(v),
        0 <= i < v.len(),
        x matches Some(p) ==> p < v.len(),
    ensures
        #[trigger] links_ok(upd_parent(v, i, x)),
{
    assert(rec_links_ok(v[i], v.len() as int));
    lemma_links_upd(v, i, set_parent_rec(v[i], x));
}

pub broadcast proof fn lemma_upd_prev_ok(v: Seq<NodeRec>, i: int, x: Option<u32>)
    requires
        links_ok(v),
        0 <= i < v.len(),
        x matches Some(p) ==> p < v.len(),
    ensures
        #[trigger] links_ok(upd_prev(v, i, x)),
{
    assert(rec_links_ok(v[i], v.len() as int));
    lemma_links_upd(v, i, set_prev_rec(v[i], x));
}

pub broadcast proof fn lemma_upd_next_ok(v: Seq<NodeRec>, i: int, x: Option<u32>)
    requires
        links_ok(v),
        0 <= i < v.len(),
        x matches Some(p) ==> p < v.len(),
    ensures
        #[trigger] links_ok(upd_next(v, i, x)),
{
    assert(rec_links_ok(v[i], v.len() as int));
    lemma_links_upd(v, i, set_next_rec(v[i], x));
}

pub broadcast proof fn lemma_upd_first_ok(v: Seq<NodeRec>, i: int, x: Option<u32>)
    requires
        links_ok(v),
        0 <= i < v.len(),
        x matches Some(p) ==> p < v.len(),
    ensures
        #[trigger] links_ok(upd_first(v, i, x)),
{
    assert(rec_links_ok(v[i], v.len() as int));
    lemma_links_upd(v, i, set_first_rec(v[i], x));
}

pub broadcast proof fn lemma_upd_last_ok(v: Seq<NodeRec>, i: int, x: Option<u32>)
    requires
        links_ok(v),
        0 <= i < v.len(),
        x matches Some(p) ==> p < v.len(),
    ensures
        #[trigger] links_ok(upd_last(v, i, x)),
{
    assert(rec_links_ok(v[i], v.len() as int));
    lemma_links_upd(v, i, set_last_rec(v[i], x));
}

pub broadcast group group_links_ok {
    lemma_upd_parent_ok,
    lemma_upd_prev_ok,
    lemma_upd_next_ok,
    lemma_upd_first_ok,
    lemma_upd_last_ok,
}

/// What removing node `i` from its parent makes of `v`, and the node that the removal
/// points at afterwards: the previous sibling, else the next one, else the parent.
pub open spec fn spec_remove(v: Seq<NodeRec>, i: int) -> (Seq<NodeRec>, Option<u32>) {
    let prev = v[i].prev;
    let next = v[i].next;
    let p = v[i].parent->0 as int;
    let v1 = upd_parent(v, i, None);
    let v2 = if v[p].first == Some(i as u32) { upd_first(v1, p, next) } else { v1 };
    let v3 = if v[p].last == Some(i as u32) { upd_last(v2, p, prev) } else { v2 };
    match (prev, next) {
        (Some(a), Some(c)) => (upd_prev(upd_next(v3, a as int, Some(c)), c as int, Some(a)), Some(a)),
        (Some(a), None) => (upd_last(upd_next(v3, a as int, None), p, Some(a)), Some(a)),
        (None, Some(c)) => (upd_first(upd_prev(v3, c as int, None), p, Some(c)), Some(c)),
        (None, None) => (v3, Some(p as u32)),
    }
}

impl Nodes {
    /// Removes node `index` from the tree: nothing links to it any more and it has no
    /// parent; it keeps its sibling links, which helps a walk go on from it. Returns the
    /// previous sibling, else the next one, else the parent.
    #[verifier::rlimit(60)]
    #[verifier::spinoff_prover]
    pub fn remove(&mut self, index: NodeIndex) -> (r: Option<NodeIndex>)
        requires
            old(self).wf(),
            links_ok(old(self).recs()),
            index.0 < old(self).recs().len(),
            old(self).recs()[index.0 as int].parent is Some,
            !is_string_tag(old(self).recs()[old(self).recs()[index.0 as int].parent->0 as int].tag),
        ensures
            final(self).wf(),
            final(self).width_code() == old(self).width_code(),
            final(self).recs() == spec_remove(old(self).recs(), index.0 as int).0,
            oi(r) == spec_remove(old(self).recs(), index.0 as int).1,
            links_ok(final(self).recs()),
    {
        broadcast use group_links_ok;
        let ghost v = self.recs();
        proof {
            lemma_links_fit(v, self.width, index.0 as int);
            assert(rec_links_ok(v[index.0 as int], v.len() as int));
        }
        let prev_sibling = self.prev_sibling_index(index);
        let next_sibling = self.next_sibling_index(index);
        let parent_index = match self.parent_index(index) {
            Some(p) => p,
            None => index,
        };
        let parent_first_child = self.first_child_index(parent_index);
        let parent_last_child = self.last_child_index(parent_index);
        self.set_parent_index(index, None);
        let first_is = match parent_first_child {
            Some(c) => c.0 == index.0,
            None => false,
        };
        if first_is {
            self.set_first_child_index(parent_index, next_sibling);
        }
        let last_is = match parent_last_child {
            Some(c) => c.0 == index.0,
            None => false,
        };
        if last_is {
            self.set_last_child_index(parent_index, prev_sibling);
        }
        let new_index = match prev_sibling {
            Some(prev) => {
                match next_sibling {
                    Some(next) => {
                        self.set_next_sibling_index(prev, Some(next));
                        self.set_prev_sibling_index(next, Some(prev));
                    }
                    None => {
                        self.set_next_sibling_index(prev, None);
                        self.set_last_child_index(parent_index, Some(prev));
                    }
                }
                Some(prev)
            }
            None => {
                match next_sibling {
                    Some(next) => {
                        self.set_prev_sibling_index(next, None);
                        self.set_first_child_index(parent_index, Some(next));
                        Some(next)
                    }
                    None => Some(parent_index),
                }
            }
        };
        proof {
            assert(self.recs() =~= spec_remove(v, index.0 as int).0);
        }
        new_index
    }
}

} // verus!

verus! {

/// What unwrapping node `i` makes of `v`: its children take its place among its
/// siblings, with its parent as theirs, and it is left unlinked.
pub open spec fn spec_unwrap(v: Seq<NodeRec>, i: int) -> Seq<NodeRec> {
    let prev = v[i].prev;
    let next = v[i].next;
    let p = v[i].parent->0 as int;
    let first = v[i].first;
    let last = v[i].last;
    let v5 = upd_parent(upd_last(upd_first(upd_next(upd_prev(v, i, None), i, None), i, None), i, None), i, None);
    let n = v.len();
    match (prev, first, last, next) {
        (Some(a), None, None, None) => upd_next(upd_last(v5, p, Some(a)), a as int, None),
        (None, None, None, Some(c)) => upd_prev(upd_first(v5, p, Some(c)), c as int, None),
        (Some(a), None, None, Some(c)) => spec_join(v5, a as int, c as int),
        (None, Some(f), Some(l), None) => spec_set_parents(upd_last(upd_first(v5, p, Some(f)), p, Some(l)), f as int, p as u32, n),
        (None, Some(f), Some(l), Some(c)) => spec_set_parents(spec_join(upd_first(v5, p, Some(f)), l as int, c as int), f as int, p as u32, n),
        (Some(a), Some(f), Some(l), None) => spec_set_parents(upd_last(spec_join(v5, a as int, f as int), p, Some(l)), f as int, p as u32, n),
        (Some(a), Some(f), Some(l), Some(c)) => spec_set_parents(spec_join(spec_join(v5, a as int, f as int), l as int, c as int), f as int, p as u32, n),
        (None, None, None, None) => upd_last(upd_first(v5, p, None), p, None),
        _ => v5,
    }
}

impl Nodes {
    /// Replaces node `index` by its children, which it then no longer holds. Returns its
    /// former first child.
    #[verifier::rlimit(80)]
    #[verifier::spinoff_prover]
    pub fn unwrap_node(&mut self, index: NodeIndex) -> (r: Option<NodeIndex>)
        requires
            old(self).wf(),
            links_ok(old(self).recs()),
            index.0 < old(self).recs().len(),
            !is_string_tag(old(self).recs()[index.0 as int].tag),
            old(self).recs()[index.0 as int].parent is Some,
            !is_string_tag(old(self).recs()[old(self).recs()[index.0 as int].parent->0 as int].tag),
        ensures
            final(self).wf(),
            final(self).width_code() == old(self).width_code(),
            final(self).recs() == spec_unwrap(old(self).recs(), index.0 as int),
            oi(r) == old(self).recs()[index.0 as int].first,
            links_ok(final(self).recs()),
    {
        broadcast use group_links_ok;
        let ghost v = self.recs();
        proof {
            lemma_links_fit(v, self.width, index.0 as int);
            assert(rec_links_ok(v[index.0 as int], v.len() as int));
        }
        let prev_sibling = self.prev_sibling_index(index);
        let next_sibling = self.next_sibling_index(index);
        let parent_index = match self.parent_index(index) {
            Some(p) => p,
            None => index,
        };
        let first_child = self.first_child_index(index);
        let last_child = self.last_child_index(index);
        self.set_prev_sibling_index(index, None);
        self.set_next_sibling_index(index, None);
        self.set_first_child_index(index, None);
        self.set_last_child_index(index, None);
        self.set_parent_index(index, None);
        match (prev_sibling, first_child, last_child, next_sibling) {
            (Some(prev), None, None, None) => {
                self.set_last_child_index(parent_index, Some(prev));
                self.set_next_sibling_index(prev, None);
            }
            (None, None, None, Some(next)) => {
                self.set_first_child_index(parent_index, Some(next));
                self.set_prev_sibling_index(next, None);
            }
            (Some(prev), None, None, Some(next)) => {
                self.join(prev, next);
            }
            (None, Some(first), Some(last), None) => {
                self.set_first_child_index(parent_index, Some(first));
                self.set_last_child_index(parent_index, Some(last));
                self.update_children_parent(first, parent_index);
            }
            (None, Some(first), Some(last), Some(next)) => {
                self.set_first_child_index(parent_index, Some(first));
                self.join(last, next);
                self.update_children_parent(first, parent_index);
            }
            (Some(prev), Some(first), Some(last), None) => {
                self.join(prev, first);
                self.set_last_child_index(parent_index, Some(last));
                self.update_children_parent(first, parent_index);
            }
            (Some(prev), Some(first), Some(last), Some(next)) => {
                self.join(prev, first);
                self.join(last, next);
                self.update_children_parent(first, parent_index);
            }
            (None, None, None, None) => {
                self.set_first_child_index(parent_index, None);
                self.set_last_child_index(parent_index, None);
            }
            _ => {}
        }
        proof {
            assert(self.recs() =~= spec_unwrap(v, index.0 as int));
        }
        first_child
    }
}

} // verus!

verus! {

/// `v` with node `x` taken out of its siblings (first step of a replacement).
pub open spec fn spec_detach(v: Seq<NodeRec>, x: int) -> Seq<NodeRec> {
    let sp = v[x].parent->0 as int;
    match (v[x].prev, v[x].next) {
        (Some(a), Some(c)) => upd_prev(upd_next(v, a as int, Some(c)), c as int, Some(a)),
        (Some(a), None) => upd_last(upd_next(v, a as int, None), sp, Some(a)),
        (None, Some(c)) => upd_first(upd_prev(v, c as int, None), sp, Some(c)),
        (None, None) => upd_last(upd_first(v, sp, None), sp, None),
    }
}

/// `v` with node `x` put in the sibling place of node `i` (second step of a replacement).
pub open spec fn spec_attach(v1: Seq<NodeRec>, i: int, x: int) -> Seq<NodeRec> {
    let p = v1[i].parent->0 as int;
    let prev = v1[i].prev;
    let next = v1[i].next;
    let xs = Some(x as u32);
    match (prev, next) {
        (Some(a), Some(c)) => spec_join(spec_join(v1, a as int, x), x, c as int),
        (Some(a), None) => upd_last(upd_next(upd_prev(upd_next(v1, a as int, xs), x, prev), x, None), p, xs),
        (None, Some(c)) => upd_prev(upd_next(upd_prev(upd_first(v1, p, xs), x, None), x, next), c as int, xs),
        (None, None) => upd_last(upd_next(upd_prev(upd_first(v1, p, xs), x, None), x, None), p, xs),
    }
}

/// What replacing node `i` by node `x` makes of `v`: `x` leaves its place and takes
/// `i`'s, and `i` is left without parent or siblings.
pub open spec fn spec_replace(v: Seq<NodeRec>, i: int, x: int) -> Seq<NodeRec> {
    let v1 = spec_detach(v, x);
    let v2 = spec_attach(v1, i, x);
    upd_next(upd_prev(upd_parent(upd_parent(v2, x, v1[i].parent), i, None), i, None), i, None)
}

impl Nodes {
    fn detach(&mut self, new_index: NodeIndex)
        requires
            old(self).wf(),
            links_ok(old(self).recs()),
            new_index.0 < old(self).recs().len(),
            (old(self).recs()[new_index.0 as int].prev is None || old(self).recs()[new_index.0 as int].next is None)
                ==> old(self).recs()[new_index.0 as int].parent is Some
                && !is_string_tag(old(self).recs()[old(self).recs()[new_index.0 as int].parent->0 as int].tag),
        ensures
            final(self).wf(),
            final(self).width_code() == old(self).width_code(),
            final(self).recs() == spec_detach(old(self).recs(), new_index.0 as int),
            links_ok(final(self).recs()),
    {
        broadcast use group_links_ok;
        let ghost v = self.recs();
        proof {
            lemma_links_fit(v, self.width, new_index.0 as int);
            assert(rec_links_ok(v[new_index.0 as int], v.len() as int));
        }
        let substitute_parent = self.parent_index(new_index);
        let substitute_prev_sibling = self.prev_sibling_index(new_index);
        let substitute_next_sibling = self.next_sibling_index(new_index);
        let sp = match substitute_parent {
            Some(p) => p,
            None => new_index,
        };
        match (substitute_prev_sibling, substitute_next_sibling) {
            (Some(prev), Some(next)) => {
                self.set_next_sibling_index(prev, Some(next));
                self.set_prev_sibling_index(next, Some(prev));
            }
            (Some(prev), None) => {
                self.set_next_sibling_index(prev, None);
                self.set_last_child_index(sp, Some(prev));
            }
            (None, Some(next)) => {
                self.set_prev_sibling_index(next, None);
                self.set_first_child_index(sp, Some(next));
            }
            (None, None) => {
                self.set_first_child_index(sp, None);
                self.set_last_child_index(sp, None);
            }
        }
        proof {
            assert(self.recs() =~= spec_detach(v, new_index.0 as int));
        }
    }

    /// Puts node `x` after `a` as the last child of `p`.
    #[verifier::rlimit(60)]
    #[verifier::spinoff_prover]
    fn link_after(&mut self, x: NodeIndex, a: NodeIndex, p: NodeIndex)
        requires
            old(self).wf(),
            links_ok(old(self).recs()),
            x.0 < old(self).recs().len(),
            a.0 < old(self).recs().len(),
            p.0 < old(self).recs().len(),
            !is_string_tag(old(self).recs()[p.0 as int].tag),
        ensures
            final(self).wf(),
            final(self).width_code() == old(self).width_code(),
            final(self).recs() == upd_last(upd_next(upd_prev(upd_next(old(self).recs(), a.0 as int, Some(x.0)), x.0 as int, Some(a.0)), x.0 as int, None), p.0 as int, Some(x.0)),
            links_ok(final(self).recs()),
    {
        broadcast use group_links_ok;
        let ghost v = self.recs();
        proof {
            lemma_links_fit(v, self.width, x.0 as int);
        }
        self.set_next_sibling_index(a, Some(x));
        self.set_prev_sibling_index(x, Some(a));
        self.set_next_sibling_index(x, None);
        self.set_last_child_index(p, Some(x));
        proof {
            assert(self.recs() =~= upd_last(upd_next(upd_prev(upd_next(v, a.0 as int, Some(x.0)), x.0 as int, Some(a.0)), x.0 as int, None), p.0 as int, Some(x.0)));
        }
    }

    /// Puts node `x` before `c` as the first child of `p`.
    #[verifier::rlimit(60)]
    #[verifier::spinoff_prover]
    fn link_before(&mut self, x: NodeIndex, c: NodeIndex, p: NodeIndex)
        requires
            old(self).wf(),
            links_ok(old(self).recs()),
            x.0 < old(self).recs().len(),
            c.0 < old(self).recs().len(),
            p.0 < old(self).recs().len(),
            !is_string_tag(old(self).recs()[p.0 as int].tag),
        ensures
            final(self).wf(),
            final(self).width_code() == old(self).width_code(),
            final(self).recs() == upd_prev(upd_next(upd_prev(upd_first(old(self).recs(), p.0 as int, Some(x.0)), x.0 as int, None), x.0 as int, Some(c.0)), c.0 as int, Some(x.0)),
            links_ok(final(self).recs()),
    {
        broadcast use group_links_ok;
        let ghost v = self.recs();
        proof {
            lemma_links_fit(v, self.width, x.0 as int);
        }
        self.set_first_child_index(p, Some(x));
        self.set_prev_sibling_index(x, None);
        self.set_next_sibling_index(x, Some(c));
        self.set_prev_sibling_index(c, Some(x));
        proof {
            assert(self.recs() =~= upd_prev(upd_next(upd_prev(upd_first(v, p.0 as int, Some(x.0)), x.0 as int, None), x.0 as int, Some(c.0)), c.0 as int, Some(x.0)));
        }
    }

    /// Makes node `x` the only child of `p`.
    #[verifier::rlimit(60)]
    #[verifier::spinoff_prover]
    fn link_only(&mut self, x: NodeIndex, p: NodeIndex)
        requires
            old(self).wf(),
            links_ok(old(self).recs()),
            x.0 < old(self).recs().len(),
            p.0 < old(self).recs().len(),
            !is_string_tag(old(self).recs()[p.0 as int].tag),
        ensures
            final(self).wf(),
            final(self).width_code() == old(self).width_code(),
            final(self).recs() == upd_last(upd_next(upd_prev(upd_first(old(self).recs(), p.0 as int, Some(x.0)), x.0 as int, None), x.0 as int, None), p.0 as int, Some(x.0)),
            links_ok(final(self).recs()),
    {
        broadcast use group_links_ok;
        let ghost v = self.recs();
        proof {
            lemma_links_fit(v, self.width, x.0 as int);
        }
        self.set_first_child_index(p, Some(x));
        self.set_prev_sibling_index(x, None);
        self.set_next_sibling_index(x, None);
        self.set_last_child_index(p, Some(x));
        proof {
            assert(self.recs() =~= upd_last(upd_next(upd_prev(upd_first(v, p.0 as int, Some(x.0)), x.0 as int, None), x.0 as int, None), p.0 as int, Some(x.0)));
        }
    }

    fn attach(&mut self, index: NodeIndex, new_index: NodeIndex)
        requires
            old(self).wf(),
            links_ok(old(self).recs()),
            index.0 < old(self).recs().len(),
            new_index.0 < old(self).recs().len(),
            (old(self).recs()[index.0 as int].prev is None || old(self).recs()[index.0 as int].next is None)
                ==> old(self).recs()[index.0 as int].parent is Some
                && !is_string_tag(old(self).recs()[old(self).recs()[index.0 as int].parent->0 as int].tag),
        ensures
            final(self).wf(),
            final(self).width_code() == old(self).width_code(),
            final(self).recs() == spec_attach(old(self).recs(), index.0 as int, new_index.0 as int),
            links_ok(final(self).recs()),
    {
        let ghost v1 = self.recs();
        proof {
            assert(rec_links_ok(v1[index.0 as int], v1.len() as int));
        }
        let parent = self.parent_index(index);
        let prev_sibling = self.prev_sibling_index(index);
        let next_sibling = self.next_sibling_index(index);
        let p = match parent {
            Some(p) => p,
            None => index,
        };
        match (prev_sibling, next_sibling) {
            (Some(a), Some(c)) => {
                self.join(a, new_index);
                self.join(new_index, c);
            }
            (Some(a), None) => self.link_after(new_index, a, p),
            (None, Some(c)) => self.link_before(new_index, c, p),
            (None, None) => self.link_only(new_index, p),
        }
    }

    /// Replaces node `index` by node `new_index`, taken from where it stood in the tree.
    #[verifier::rlimit(60)]
    #[verifier::spinoff_prover]
    pub fn replace_with(&mut self, index: NodeIndex, new_index: NodeIndex)
        requires
            old(self).wf(),
            links_ok(old(self).recs()),
            index.0 < old(self).recs().len(),
            new_index.0 < old(self).recs().len(),
            (old(self).recs()[new_index.0 as int].prev is None || old(self).recs()[new_index.0 as int].next is None)
                ==> old(self).recs()[new_index.0 as int].parent is Some
                && !is_string_tag(old(self).recs()[old(self).recs()[new_index.0 as int].parent->0 as int].tag),
            ({
                let v1 = spec_detach(old(self).recs(), new_index.0 as int);
                (v1[index.0 as int].prev is None || v1[index.0 as int].next is None)
                    ==> v1[index.0 as int].parent is Some && !is_string_tag(v1[v1[index.0 as int].parent->0 as int].tag)
            }),
        ensures
            final(self).wf(),
            final(self).width_code() == old(self).width_code(),
            final(self).recs() == spec_replace(old(self).recs(), index.0 as int, new_index.0 as int),
            links_ok(final(self).recs()),
    {
        broadcast use group_links_ok;
        let ghost v = self.recs();
        self.detach(new_index);
        let ghost v1 = self.recs();
        proof {
            lemma_links_fit(v1, self.width, index.0 as int);
            assert(rec_links_ok(v1[index.0 as int], v1.len() as int));
        }
        let parent = self.parent_index(index);
        self.attach(index, new_index);
        self.set_parent_index(new_index, parent);
        self.set_parent_index(index, None);
        self.set_prev_sibling_index(index, None);
        self.set_next_sibling_index(index, None);
    }
}

} // verus!

verus! {

/// The shape of every record read from a blob: no list index at its sentinel; a text
/// or comment node without children or lists; an element without a text range.
pub open spec fn rec_shaped(r: NodeRec) -> bool {
    &&& r.class != Some(0xFFFFu16)
    &&& r.attr != Some(0xFFFFu16)
    &&& is_string_tag(r.tag) ==> r.first is None && r.last is None && r.class is None && r.attr is None
    &&& !is_string_tag(r.tag) ==> r.text == (0u32, 0u32)
}

proof fn lemma_rec_of_shaped(k: Seq<u8>, w: u8)
    ensures
        rec_shaped(rec_of(k, w)),
{
}

impl Nodes {
    /// Every record has the shape of a decoded record.
    pub proof fn lemma_shaped(&self, i: int)
        requires
            0 <= i < self.recs().len(),
        ensures
            rec_shaped(self.recs()[i]),
    {
        lemma_rec_of_shaped(block(self.bytes@, self.width, i), self.width);
    }

    /// The width code of the links.
    pub fn width(&self) -> (r: u8)
        ensures
            r == self.width_code(),
    {
        self.width
    }

    /// The size of the blob in bytes.
    pub fn byte_len(&self) -> (r: usize)
        requires
            self.wf(),
        ensures
            r == self.recs().len() * (if self.width_code() == WIDTH_U24 { 20int } else { 15int }),
    {
        proof {
            assert(self.bytes@.len() as int == count(self.bytes@, self.width) * node_size(self.width)) by (nonlinear_arith)
                requires
                    self.bytes@.len() as int % node_size(self.width) == 0,
                    count(self.bytes@, self.width) == self.bytes@.len() as int / node_size(self.width),
                    node_size(self.width) > 0;
        }
        self.bytes.len()
    }

    /// Appends a copy of record `i` of `src`.
    #[verifier::rlimit(60)]
    #[verifier::spinoff_prover]
    fn copy_rec(&mut self, src: &Nodes, i: NodeIndex)
        requires
            old(self).wf(),
            src.wf(),
            links_ok(src.recs()),
            i.0 < src.recs().len(),
            src.recs().len() + 1 < sentinel(old(self).width_code()),
            old(self).recs().len() == i.0,
        ensures
            final(self).wf(),
            final(self).width_code() == old(self).width_code(),
            final(self).recs() == old(self).recs().push(src.recs()[i.0 as int]),
    {
        let ghost v = self.recs();
        let ghost r = src.recs()[i.0 as int];
        let ghost w = self.width;
        proof {
            src.lemma_shaped(i.0 as int);
            lemma_links_fit(src.recs(), w, i.0 as int);
            assert(rec_links_ok(r, src.recs().len() as int));
        }
        let code = src.tag_code(i);
        let n = self.push_blank(code);
        proof {
            self.lemma_shaped(n.0 as int);
        }
        self.set_parent_index(n, src.parent_index(i));
        self.set_prev_sibling_index(n, src.prev_sibling_index(i));
        self.set_next_sibling_index(n, src.next_sibling_index(i));
        if src.is_string_node(i) {
            let (a, b) = src.text_range(i);
            self.set_text_range(n, a, b);
        } else {
            self.set_first_child_index(n, src.first_child_index(i));
            self.set_last_child_index(n, src.last_child_index(i));
            self.set_class_list_index(n, src.class_list_index(i));
            self.set_attr_list_index(n, src.attr_list_index(i));
        }
        proof {
            assert(self.recs()[n.0 as int] == r);
            assert(self.recs() =~= v.push(r));
        }
    }

    /// The same records with 2-byte links where they fit: a blob with 3-byte links and
    /// no more than [`DOWNPACK_MARGIN`] records is packed again at 2 bytes a link; any
    /// other blob is kept as it is. Either way every record reads back the same.
    pub fn into_optimal_width(self) -> (r: Nodes)
        requires
            self.wf(),
            links_ok(self.recs()),
        ensures
            r.wf(),
            r.recs() == self.recs(),
            self.width_code() == WIDTH_U24 && self.recs().len() <= DOWNPACK_MARGIN ==> r.width_code() == WIDTH_U16,
            !(self.width_code() == WIDTH_U24 && self.recs().len() <= DOWNPACK_MARGIN) ==> r.width_code() == self.width_code(),
    {
        let n = self.len();
        if self.width == WIDTH_U24 && n <= DOWNPACK_MARGIN {
            let mut out = Nodes { width: WIDTH_U16, bytes: Vec::new() };
            proof {
                assert(out.recs() =~= Seq::<NodeRec>::empty());
            }
            let mut i: usize = 0;
            while i < n
                invariant
                    self.wf(),
                    links_ok(self.recs()),
                    n == self.recs().len(),
                    n <= DOWNPACK_MARGIN,
                    out.wf(),
                    out.width_code() == WIDTH_U16,
                    0 <= i <= n,
                    out.recs() == self.recs().subrange(0, i as int),
                decreases n - i,
            {
                out.copy_rec(&self, NodeIndex(i as u32));
                proof {
                    assert(self.recs().subrange(0, i as int).push(self.recs()[i as int]) =~= self.recs().subrange(0, i + 1));
                }
                i = i + 1;
            }
            proof {
                assert(self.recs().subrange(0, n as int) =~= self.recs());
            }
            out
        } else {
            self
        }
    }
}

} // verus!

verus! {

/// The optional list index held by two little-endian bytes: `None` at the sentinel
/// `0xFFFF`.
pub fn opt_u16(bytes: [u8; 2]) -> (r: Option<u16>)
    ensures
        r == opt16(seq![bytes[0], bytes[1]], 0),
{
    let num: u32 = bytes[0] as u32 + 256 * (bytes[1] as u32);
    proof {
        assert(rd(seq![bytes[0], bytes[1]], 0, 2) == num);
    }
    if num == 0xFFFF {
        None
    } else {
        Some(num as u16)
    }
}

} // verus!
