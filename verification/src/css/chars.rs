//! A cursor over the characters of a selector source.
use vstd::prelude::*;

use crate::text::{byte_offset, char_width, char_indices, string_from_chars, white, is_white};

verus! {

/// The cursor's current item on `(s, p)`: the character at position `p` with its byte
/// offset, or `None` past the end.
pub open spec fn cur(s: Seq<char>, p: int) -> Option<(usize, char)> {
    if 0 <= p < s.len() {
        Some((byte_offset(s, p) as usize, s[p]))
    } else {
        None
    }
}

/// Byte offset of the last character the cursor has stood on: the current one while in
/// range, the final character once the input is exhausted, `0` for an empty input.
pub open spec fn last_idx(s: Seq<char>, p: int) -> usize {
    if 0 <= p < s.len() {
        byte_offset(s, p) as usize
    } else if s.len() > 0 {
        byte_offset(s, s.len() - 1) as usize
    } else {
        0
    }
}

/// Position after advancing once.
pub open spec fn adv(s: Seq<char>, p: int) -> int {
    if p < s.len() { p + 1 } else { p }
}

/// Position of the first non-whitespace character at or after `p`.
pub open spec fn skip_ws(s: Seq<char>, p: int) -> int
    decreases s.len() - p,
{
    if 0 <= p < s.len() && is_white(s[p]) {
        skip_ws(s, p + 1)
    } else {
        p
    }
}

/// The characters of a selector source, walked one at a time. Each item is a character
/// with the byte offset at which it starts in the source.
pub struct CssChars {
    items: Vec<(usize, char)>,
    pos: usize,
    ghost_chars: Ghost<Seq<char>>,
}

impl CssChars {
    /// The characters being walked.
    pub closed spec fn input(&self) -> Seq<char> {
        self.ghost_chars@
    }

    /// The position of the current character (the input's length once exhausted).
    pub closed spec fn pos(&self) -> int {
        if self.pos <= self.ghost_chars@.len() {
            self.pos as int
        } else {
            self.ghost_chars@.len() as int
        }
    }

    #[verifier::type_invariant]
    closed spec fn inv(&self) -> bool {
        &&& self.items@.len() == self.ghost_chars@.len()
        &&& self.pos <= self.items@.len()
        &&& forall|i: int| 0 <= i < self.items@.len() ==> #[trigger] self.items@[i].1 == self.ghost_chars@[i]
        &&& forall|i: int| 0 <= i < self.items@.len() ==> #[trigger] self.items@[i].0 == byte_offset(self.ghost_chars@, i)
        &&& byte_offset(self.ghost_chars@, self.ghost_chars@.len() as int) <= usize::MAX
    }

    /// The position never leaves the input.
    pub broadcast proof fn lemma_pos_bound(c: &CssChars)
        ensures
            0 <= #[trigger] c.pos() <= c.input().len(),
    {
    }

    pub fn new(string: &str) -> (r: Self)
        ensures
            r.input() == string@,
            r.pos() == 0,
    {
        let items = char_indices(string);
        proof {
            if items@.len() > 0 {
                let n = items@.len() as int;
                assert(byte_offset(string@, n) == byte_offset(string@, n - 1) + char_width(string@[n - 1]));
            }
        }
        CssChars { items, pos: 0, ghost_chars: Ghost(string@) }
    }

    pub fn current(&self) -> (r: Option<(usize, char)>)
        ensures
            r == cur(self.input(), self.pos()),
            byte_offset(self.input(), self.input().len() as int) <= usize::MAX,
    {
        proof { use_type_invariant(self); }
        if self.pos < self.items.len() {
            Some(self.items[self.pos])
        } else {
            None
        }
    }

    pub fn last_index(&self) -> (r: usize)
        ensures
            r == last_idx(self.input(), self.pos()),
    {
        proof { use_type_invariant(self); }
        if self.pos < self.items.len() {
            self.items[self.pos].0
        } else if self.items.len() > 0 {
            self.items[self.items.len() - 1].0
        } else {
            0
        }
    }

    /// The number of characters walked.
    pub fn len(&self) -> (r: usize)
        ensures
            r == self.input().len(),
    {
        proof { use_type_invariant(self); }
        self.items.len()
    }

    /// The position of the current character.
    pub fn position(&self) -> (r: usize)
        ensures
            r == self.pos(),
            self.input().len() <= usize::MAX,
    {
        proof { use_type_invariant(self); }
        let _ = self.items.len();
        self.pos
    }

    /// Advances to the next character and returns it.
    pub fn next(&mut self) -> (r: Option<(usize, char)>)
        ensures
            final(self).input() == old(self).input(),
            final(self).pos() == adv(old(self).input(), old(self).pos()),
            r == cur(final(self).input(), final(self).pos()),
    {
        proof { use_type_invariant(&*self); }
        if self.pos < self.items.len() {
            self.pos = self.pos + 1;
        }
        self.current()
    }

    /// Moves past whitespace and returns the first other character, if any.
    pub fn skip_spaces(&mut self) -> (r: Option<(usize, char)>)
        ensures
            final(self).input() == old(self).input(),
            final(self).pos() == skip_ws(old(self).input(), old(self).pos()),
            r == cur(final(self).input(), final(self).pos()),
    {
        proof { use_type_invariant(&*self); }
        while self.pos < self.items.len() && white(self.items[self.pos].1)
            invariant
                self.input() == old(self).input(),
                skip_ws(self.input(), self.pos()) == skip_ws(old(self).input(), old(self).pos()),
            decreases self.input().len() - self.pos(),
        {
            proof { use_type_invariant(&*self); }
            self.pos = self.pos + 1;
        }
        proof { use_type_invariant(&*self); }
        self.current()
    }

    /// The characters from position `start` (inclusive) to `end` (exclusive).
    pub fn str(&self, start: usize, end: usize) -> (r: String)
        requires
            start <= end <= self.input().len(),
        ensures
            r@ == self.input().subrange(start as int, end as int),
    {
        proof { use_type_invariant(self); }
        let mut v: Vec<char> = Vec::new();
        let mut i = start;
        while i < end
            invariant
                start <= i <= end <= self.items@.len(),
                self.items@.len() == self.input().len(),
                forall|k: int| 0 <= k < self.items@.len() ==> #[trigger] self.items@[k].1 == self.input()[k],
                v@ == self.input().subrange(start as int, i as int),
            decreases end - i,
        {
            v.push(self.items[i].1);
            i = i + 1;
        }
        string_from_chars(v.as_slice())
    }
}

} // verus!
