//! Content between an opening and a closing delimiter: `[...]` or `(...)`.
use vstd::prelude::*;

use crate::css::chars::{cur, last_idx, CssChars};
use crate::css::error::{ErrorKind, KindV, PErr, ParenthesizedError, ParseError};
use crate::css::patterns::text_pattern::res_matches;
use crate::text::{byte_offset, lemma_offset_mono};

verus! {

/// The `(` and `)` delimiters.
#[derive(Debug)]
pub struct Parentheses;

/// The `[` and `]` delimiters.
#[derive(Debug)]
pub struct Brackets;

impl Parentheses {
    pub fn open() -> (r: char)
        ensures
            r == '(',
    {
        '('
    }

    pub fn close() -> (r: char)
        ensures
            r == ')',
    {
        ')'
    }
}

impl Brackets {
    pub fn open() -> (r: char)
        ensures
            r == '[',
    {
        '['
    }

    pub fn close() -> (r: char)
        ensures
            r == ']',
    {
        ']'
    }
}

/// Delimited content, which may be empty.
#[derive(Debug)]
pub struct Parenthesized<T> {
    pub content: Option<T>,
}

impl<T: View> View for Parenthesized<T> {
    type V = Option<T::V>;

    open spec fn view(&self) -> Option<T::V> {
        match &self.content {
            Some(c) => Some(c@),
            None => None,
        }
    }
}

impl<T> Parenthesized<T> {
    /// The content between the delimiters.
    pub fn inner(self) -> (r: Option<T>)
        ensures
            r == self.content,
    {
        self.content
    }
}

/// After the content was read (with result `inner`, ending at `q`): the closing
/// delimiter must follow.
pub open spec fn spec_close<V>(s: Seq<char>, close: char, content_index: usize, inner: (Result<Option<V>, PErr>, int)) -> (Result<Option<Option<V>>, PErr>, int) {
    let (r, q) = inner;
    match r {
        Err(e) => (Err(PErr::Context(KindV::Parenthesized(ParenthesizedError::InvalidContent(content_index)), Box::new(e))), q),
        Ok(content) => match cur(s, q) {
            Some((ei, ec)) => {
                if ec == close {
                    (Ok(Some(content)), q + 1)
                } else {
                    (Err(PErr::Parsing(KindV::Parenthesized(ParenthesizedError::InvalidEndDelimiter(ei, close, ec)))), q)
                }
            }
            None => (Err(PErr::Parsing(KindV::Parenthesized(ParenthesizedError::MissingEndDelimiter((last_idx(s, q) + 1) as usize, close)))), q),
        },
    }
}

/// Reading delimited content at `p`: nothing unless the current character is `open`;
/// then the content, read from the next position with result `inner`, and `close`.
pub open spec fn spec_delimited<V>(s: Seq<char>, p: int, open: char, close: char, inner: (Result<Option<V>, PErr>, int)) -> (Result<Option<Option<V>>, PErr>, int) {
    match cur(s, p) {
        None => (Ok(None), p),
        Some((i, c)) => {
            if c != open {
                (Ok(None), p)
            } else if p + 1 >= s.len() {
                (Err(PErr::Parsing(KindV::Parenthesized(ParenthesizedError::MissingContent(i)))), p + 1)
            } else {
                spec_close(s, close, byte_offset(s, p + 1) as usize, inner)
            }
        }
    }
}

/// Moves past the opening delimiter `open`. `Ok(None)` when the current character is not
/// `open`; `Ok(Some(i))`, with `i` the offset of the content, when content follows.
pub fn open_delimiter(chars: &mut CssChars, open: char) -> (r: Result<Option<usize>, ParseError>)
    ensures
        final(chars).input() == old(chars).input(),
        ({
            let s = old(chars).input();
            let p = old(chars).pos();
            match cur(s, p) {
                None => r == Ok::<Option<usize>, ParseError>(None) && final(chars).pos() == p,
                Some((i, c)) => {
                    if c != open {
                        r == Ok::<Option<usize>, ParseError>(None) && final(chars).pos() == p
                    } else if p + 1 >= s.len() {
                        r is Err && r->Err_0@ == PErr::Parsing(KindV::Parenthesized(ParenthesizedError::MissingContent(i)))
                            && final(chars).pos() == p + 1
                    } else {
                        r == Ok::<Option<usize>, ParseError>(Some(byte_offset(s, p + 1) as usize)) && final(chars).pos() == p + 1
                    }
                }
            }
        }),
{
    let Some((start_index, start_char)) = chars.current() else {
        return Ok(None);
    };
    if start_char != open {
        return Ok(None);
    }
    if let Some((i, _)) = chars.next() {
        Ok(Some(i))
    } else {
        Err(ParenthesizedError::MissingContent(start_index).into_parse_error())
    }
}

/// After the content was read into `content`: moves past the closing delimiter `close`.
pub(crate) fn close_delimiter<T: View>(chars: &mut CssChars, content: Result<Option<T>, ParseError>, content_index: usize, close: char, inner: Ghost<(Result<Option<T::V>, PErr>, int)>) -> (r: Result<Option<Parenthesized<T>>, ParseError>)
    requires
        res_matches(content, inner@.0),
        old(chars).pos() == inner@.1,
    ensures
        final(chars).input() == old(chars).input(),
        final(chars).pos() == spec_close(old(chars).input(), close, content_index, inner@).1,
        res_matches(r, spec_close(old(chars).input(), close, content_index, inner@).0),
{
    let ghost s = chars.input();
    let content = match content {
        Err(e) => {
            return Err(e.context(ErrorKind::Parenthesized(ParenthesizedError::InvalidContent(content_index))));
        }
        Ok(c) => c,
    };
    if let Some((end_index, end_char)) = chars.current() {
        if end_char == close {
            chars.next();
            Ok(Some(Parenthesized { content }))
        } else {
            Err(ParenthesizedError::InvalidEndDelimiter(end_index, close, end_char).into_parse_error())
        }
    } else {
        proof {
            CssChars::lemma_pos_bound(chars);
            if s.len() > 0 {
                lemma_offset_mono(s, s.len() - 1, s.len() as int);
            }
        }
        Err(ParenthesizedError::MissingEndDelimiter(chars.last_index() + 1, close).into_parse_error())
    }
}

} // verus!
