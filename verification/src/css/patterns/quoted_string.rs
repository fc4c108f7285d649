//! Quoted string literals: `'...'` or `"..."`, decoded of character references.
use vstd::prelude::*;

use crate::css::chars::{cur, last_idx, CssChars};
use crate::css::error::{KindV, PErr, ParseError, QuotedStringError};
use crate::css::patterns::text_pattern::res_matches;
use crate::entities::{decode, decoded_entities};
use crate::text::{push_str, push_string, string_from_chars};

verus! {

/// A quoted string's content, with its character references decoded.
#[derive(Debug, Clone)]
pub struct QuotedString(pub String);

impl View for QuotedString {
    type V = Seq<char>;

    open spec fn view(&self) -> Seq<char> {
        self.0@
    }
}

/// Position of the first `quote` at or after `q`, or the input's length.
pub open spec fn quote_end(s: Seq<char>, q: int, quote: char) -> int
    decreases s.len() - q,
{
    if q < 0 || q >= s.len() {
        s.len() as int
    } else if s[q] == quote {
        q
    } else {
        quote_end(s, q + 1, quote)
    }
}

/// Reading a quoted string at `p`: nothing unless the current character is a quote; the
/// content up to the matching closing quote, decoded, with the cursor after the closing
/// quote; an error at the last character when the input ends first.
pub open spec fn spec_quoted(s: Seq<char>, p: int) -> (Result<Option<Seq<char>>, PErr>, int) {
    match cur(s, p) {
        None => (Ok(None), p),
        Some((_i, c)) => {
            if c != '"' && c != '\'' {
                (Ok(None), p)
            } else {
                let q = quote_end(s, p + 1, c);
                if q < s.len() {
                    if q == p + 1 {
                        (Ok(Some(Seq::empty())), q + 1)
                    } else {
                        (Ok(Some(decoded_entities(s.subrange(p + 1, q)))), q + 1)
                    }
                } else {
                    (Err(PErr::Parsing(KindV::QuotedString(QuotedStringError::Unterminated(last_idx(s, s.len() as int))))), s.len() as int)
                }
            }
        }
    }
}

impl QuotedString {
    pub fn from_str(s: &str) -> (r: QuotedString)
        ensures
            r@ == s@,
    {
        let mut v: Vec<char> = Vec::new();
        push_str(&mut v, s);
        QuotedString(string_from_chars(v.as_slice()))
    }

    pub fn from_chars(chars: &mut CssChars) -> (r: Result<Option<QuotedString>, ParseError>)
        ensures
            final(chars).input() == old(chars).input(),
            final(chars).pos() == spec_quoted(old(chars).input(), old(chars).pos()).1,
            res_matches(r, spec_quoted(old(chars).input(), old(chars).pos()).0),
    {
        let ghost s = chars.input();
        let ghost p = chars.pos();
        let Some((_start_index, start_quote)) = chars.current() else {
            return Ok(None);
        };
        if start_quote != '"' && start_quote != '\'' {
            return Ok(None);
        }
        let start = chars.position();
        let mut found = false;
        loop
            invariant_except_break
                chars.input() == s,
                !found,
                p < s.len(),
                p == start,
                p <= chars.pos() < s.len(),
                quote_end(s, p + 1, start_quote) == quote_end(s, chars.pos() + 1, start_quote),
            ensures
                chars.input() == s,
                p == start,
                p < s.len(),
                found ==> chars.pos() < s.len() && s[chars.pos()] == start_quote
                    && quote_end(s, p + 1, start_quote) == chars.pos() && p < chars.pos(),
                !found ==> chars.pos() == s.len() && quote_end(s, p + 1, start_quote) == s.len(),
            decreases s.len() - chars.pos(),
        {
            let ghost before = chars.pos();
            match chars.next() {
                None => {
                    assert(quote_end(s, chars.pos(), start_quote) == s.len());
                    break;
                }
                Some((_i, c)) => {
                    assert(chars.pos() == before + 1);
                    assert(s[chars.pos()] == c);
                    if c == start_quote {
                        assert(quote_end(s, chars.pos(), start_quote) == chars.pos());
                        found = true;
                        break;
                    }
                    assert(quote_end(s, chars.pos(), start_quote) == quote_end(s, chars.pos() + 1, start_quote));
                }
            }
        }
        if !found {
            return Err(QuotedStringError::Unterminated(chars.last_index()).into_parse_error());
        }
        let q = chars.position();
        chars.next();
        if q == start + 1 {
            return Ok(Some(QuotedString(string_from_chars(Vec::<char>::new().as_slice()))));
        }
        let content = chars.str(start + 1, q);
        Ok(Some(QuotedString(decode(content.as_str()))))
    }

    pub fn push_text(&self, out: &mut Vec<char>)
        ensures
            final(out)@ == old(out)@ + "'"@ + self@ + "'"@,
    {
        push_str(out, "'");
        push_string(out, &self.0);
        push_str(out, "'");
    }
}

/// Where no `quote` stands from `k` up to `q`, the first one at or after `k` is at `q`
/// or later.
proof fn lemma_quote_end_skips(s: Seq<char>, k: int, q: int, quote: char)
    requires
        0 <= k <= q <= s.len(),
        forall|j: int| k <= j < q ==> s[j] != quote,
    ensures
        quote_end(s, k, quote) == quote_end(s, q, quote),
    decreases q - k,
{
    if k < q {
        lemma_quote_end_skips(s, k + 1, q, quote);
    }
}

/// A quoted string opened at `p` by a quote character ends at the first later
/// occurrence of that same character, whatever else stands between (the other quote
/// character among it): its content is what lies between the two quotes, decoded, and
/// reading goes on after the closing quote. With no later occurrence of the opening
/// quote the string is unterminated.
pub proof fn lemma_quoted_closes_at_same_quote(s: Seq<char>, p: int)
    requires
        0 <= p < s.len(),
        s[p] == '"' || s[p] == '\'',
    ensures
        forall|q: int| p < q < s.len() && s[q] == s[p] && (forall|j: int| p < j < q ==> s[j] != s[p])
            ==> #[trigger] spec_quoted(s, p) == (Ok::<Option<Seq<char>>, PErr>(Some(
                if q == p + 1 { Seq::<char>::empty() } else { decoded_entities(s.subrange(p + 1, q)) })), q + 1),
        (forall|j: int| p < j < s.len() ==> s[j] != s[p]) ==> spec_quoted(s, p).0 is Err
            && spec_quoted(s, p).1 == s.len(),
{
    assert forall|q: int| p < q < s.len() && s[q] == s[p] && (forall|j: int| p < j < q ==> s[j] != s[p])
        implies #[trigger] spec_quoted(s, p) == (Ok::<Option<Seq<char>>, PErr>(Some(
            if q == p + 1 { Seq::<char>::empty() } else { decoded_entities(s.subrange(p + 1, q)) })), q + 1) by {
        lemma_quote_end_skips(s, p + 1, q, s[p]);
        assert(quote_end(s, q, s[p]) == q);
    }
    if forall|j: int| p < j < s.len() ==> s[j] != s[p] {
        lemma_quote_end_skips(s, p + 1, s.len() as int, s[p]);
        assert(quote_end(s, s.len() as int, s[p]) == s.len());
    }
}

} // verus!
