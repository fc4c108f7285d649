//! Character references at the text boundary: decoded once when text enters the
//! document, re-encoded when it is written out.
use vstd::prelude::*;

verus! {

/// The text that `html_escape::decode_html_entities` makes of `s`: each complete named
/// or numeric character reference (ending in `;`) replaced by its character(s).
pub uninterp spec fn decoded_entities(s: Seq<char>) -> Seq<char>;

/// `html_escape::decode_html_entities`. The contract names the result and states the one
/// fact its source shows plainly: text without `&` holds no reference and comes back
/// unchanged. The decoding table itself is not stated.
#[verifier::external_body]
pub fn decode(s: &str) -> (r: String)
    ensures
        r@ == decoded_entities(s@),
        !s@.contains('&') ==> r@ == s@,
{
    html_escape::decode_html_entities(s).into_owned()
}

/// `c` escaped for text content: `&`, `<` and `>` become `&amp;`, `&lt;`, `&gt;`.
pub open spec fn escape_text_char(c: char) -> Seq<char> {
    if c == '&' {
        "&amp;"@
    } else if c == '<' {
        "&lt;"@
    } else if c == '>' {
        "&gt;"@
    } else {
        seq![c]
    }
}

/// `c` escaped for a double-quoted attribute value: as text, and `"` becomes `&quot;`.
pub open spec fn escape_attr_char(c: char) -> Seq<char> {
    if c == '"' {
        "&quot;"@
    } else {
        escape_text_char(c)
    }
}

pub open spec fn escape_text(s: Seq<char>) -> Seq<char>
    decreases s.len(),
{
    if s.len() == 0 {
        Seq::empty()
    } else {
        escape_text(s.drop_last()) + escape_text_char(s.last())
    }
}

pub open spec fn escape_attr(s: Seq<char>) -> Seq<char>
    decreases s.len(),
{
    if s.len() == 0 {
        Seq::empty()
    } else {
        escape_attr(s.drop_last()) + escape_attr_char(s.last())
    }
}

/// `html_escape::encode_text`: the contract states the crate's documented escaping of
/// `&`, `<` and `>`, every other character kept.
#[verifier::external_body]
pub fn encode_text(s: &str) -> (r: String)
    ensures
        r@ == escape_text(s@),
{
    html_escape::encode_text(s).into_owned()
}

/// `html_escape::encode_double_quoted_attribute`: the contract states the crate's
/// documented escaping of `&`, `<`, `>` and `"`, every other character kept.
#[verifier::external_body]
pub fn encode_attr(s: &str) -> (r: String)
    ensures
        r@ == escape_attr(s@),
{
    html_escape::encode_double_quoted_attribute(s).into_owned()
}

} // verus!
