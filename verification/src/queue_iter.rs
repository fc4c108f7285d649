//! The run of inlineable open and close tags that a pretty printer keeps on one line.
//!
//! Tags of inlineable elements are gathered until a tag that is not inlineable comes
//! (or none is left). Of the gathered tags, those from the first at the depth of the
//! last closed one or deeper, up to that last closed one, are written inline; open
//! tags left at the end, and the tag that stopped the run, are not.
use vstd::prelude::*;

use crate::dom::NodeIndex;

verus! {

/// Whether a tag opens or closes its element.
#[derive(Debug, Clone, Copy, PartialEq, Eq, Structural)]
pub enum TagStage {
    Open,
    Close,
}

/// An open or close tag of node `index` at `depth` below where the walk began.
#[derive(Debug, Clone, Copy, PartialEq, Eq, Structural)]
pub struct ElementStage {
    pub index: NodeIndex,
    pub depth: u16,
    pub stage: TagStage,
}

impl ElementStage {
    pub fn new(index: NodeIndex, depth: u16, stage: TagStage) -> (r: ElementStage)
        ensures
            r == (ElementStage { index, depth, stage }),
    {
        ElementStage { index, depth, stage }
    }
}

/// The last of the tags `v` up to position `e` that closes an element, or the first
/// tag.
pub open spec fn closed_end(v: Seq<ElementStage>, e: int) -> int
    decreases e,
{
    if e > 0 && v[e].stage == TagStage::Open { closed_end(v, e - 1) } else { e }
}

/// The first of the tags `v` from position `k` to before `end` at depth `d` or deeper;
/// `end` where there is none.
pub open spec fn first_deep(v: Seq<ElementStage>, end: int, d: u16, k: int) -> int
    decreases end - k,
{
    if k >= end { end } else if v[k].depth >= d { k } else { first_deep(v, end, d, k + 1) }
}

/// The positions of the tags `v` written inline: from the first one at the depth of the
/// last closed one or deeper (from the first one where no tag stopped the run), up to and
/// with the last closed one; none where only the first tag is closed or none is.
pub open spec fn queue_range(v: Seq<ElementStage>, stop: Option<ElementStage>) -> (int, int) {
    let end = closed_end(v, v.len() - 1);
    if end == 0 {
        (0, 0)
    } else {
        let start = if stop is Some { first_deep(v, end, v[end].depth, 0) } else { 0 };
        (start, end + 1)
    }
}

/// The tags of a run, each with whether it is written inline.
pub struct QueueIter {
    start: usize,
    end: usize,
    vec: Vec<ElementStage>,
    pos: usize,
}

impl QueueIter {
    /// The tags gathered, then the one that stopped the run.
    pub closed spec fn tags(&self) -> Seq<ElementStage> {
        self.vec@
    }

    /// The positions of the tags written inline.
    pub closed spec fn range(&self) -> (int, int) {
        (self.start as int, self.end as int)
    }

    /// The position of the next tag to give.
    pub closed spec fn position(&self) -> int {
        self.pos as int
    }

    /// The run of the gathered tags `vec`, stopped by `non_inlineable` where one came.
    pub fn new(vec: Vec<ElementStage>, non_inlineable: Option<ElementStage>) -> (r: QueueIter)
        requires
            vec@.len() >= 1,
        ensures
            r.tags() == match non_inlineable {
                Some(x) => vec@.push(x),
                None => vec@,
            },
            r.range() == queue_range(vec@, non_inlineable),
            r.position() == 0,
    {
        let ghost v = vec@;
        let mut vec = vec;
        let mut end = vec.len() - 1;
        while end > 0 && vec[end].stage == TagStage::Open
            invariant
                vec@ == v,
                end < v.len(),
                closed_end(v, end as int) == closed_end(v, v.len() - 1),
            decreases end,
        {
            end = end - 1;
        }
        let d = vec[end].depth;
        let stopped = non_inlineable.is_some();
        if let Some(x) = non_inlineable {
            vec.push(x);
        }
        if end == 0 {
            return QueueIter { start: 0, end: 0, vec, pos: 0 };
        }
        let mut start: usize = 0;
        if stopped {
            while start < end && vec[start].depth < d
                invariant
                    start <= end < v.len(),
                    vec@.len() == v.len() + 1,
                    forall|j: int| 0 <= j < v.len() ==> vec@[j] == v[j],
                    d == v[end as int].depth,
                    first_deep(v, end as int, d, start as int) == first_deep(v, end as int, d, 0),
                decreases end - start,
            {
                start = start + 1;
            }
        }
        QueueIter { start, end: end + 1, vec, pos: 0 }
    }

    /// The positions of the tags written inline, as a range.
    pub fn inlineable(&self) -> (r: std::ops::Range<usize>)
        ensures
            r.start == self.range().0,
            r.end == self.range().1,
    {
        self.start..self.end
    }

    /// The next tag and whether it is written inline; `None` after the last.
    pub fn next(&mut self) -> (r: Option<(ElementStage, bool)>)
        ensures
            final(self).tags() == old(self).tags(),
            final(self).range() == old(self).range(),
            old(self).position() < old(self).tags().len() ==> final(self).position() == old(self).position() + 1
                && r == Some((old(self).tags()[old(self).position()],
                    old(self).range().0 <= old(self).position() < old(self).range().1)),
            old(self).position() >= old(self).tags().len() ==> r is None && final(self).position() == old(self).position(),
    {
        if self.pos >= self.vec.len() {
            return None;
        }
        let stage = self.vec[self.pos];
        let inlined = self.start <= self.pos && self.pos < self.end;
        self.pos = self.pos + 1;
        Some((stage, inlined))
    }
}

} // verus!
