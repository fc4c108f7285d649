//! Type selectors: `div`, `my-widget`.
use vstd::prelude::*;

use crate::css::chars::{cur, CssChars};
use crate::css::error::{ErrorKind, KindV, PErr, ParseError, TagSelectorError};
use crate::css::patterns::ordinal_pattern::{ascii_lower, lower_char};
use crate::css::patterns::text_pattern::{
    res_matches, tp_validate, tpv_allow, tpv_new, tpv_start, tpv_stop, CssChar, TextPattern, TextPatternV,
    ALPHA_CODE, DIGIT_CODE,
};
use crate::html::{htmltag_name, tag_from_name, tag_lookup, HtmlTag};
use crate::text::{chars_of, push_str, push_string, string_of};

verus! {

/// The ASCII lowercase form of `n`.
pub open spec fn lower(n: Seq<char>) -> Seq<char> {
    n.map_values(|c: char| ascii_lower(c))
}

/// The ASCII lowercase form of `v`.
pub fn lower_chars(v: &Vec<char>) -> (r: Vec<char>)
    ensures
        r@ == lower(v@),
{
    let mut out: Vec<char> = Vec::new();
    let mut i: usize = 0;
    while i < v.len()
        invariant
            0 <= i <= v@.len(),
            out@ == v@.subrange(0, i as int).map_values(|c: char| ascii_lower(c)),
        decreases v@.len() - i,
    {
        out.push(lower_char(v[i]));
        i = i + 1;
        assert(out@ =~= v@.subrange(0, i as int).map_values(|c: char| ascii_lower(c)));
    }
    assert(v@.subrange(0, v@.len() as int) =~= v@);
    out
}

/// A type selector whose name is not a standard tag.
#[derive(Debug, Clone)]
pub struct ExtTagSelector {
    pub name: String,
}

/// A type selector: a standard tag, or any other element name.
#[derive(Debug, Clone)]
pub enum TagSelector {
    Std(HtmlTag),
    Ext(ExtTagSelector),
}

/// The plain-value form of [`TagSelector`].
pub enum TagV {
    Std(HtmlTag),
    Ext(Seq<char>),
}

impl View for TagSelector {
    type V = TagV;

    open spec fn view(&self) -> TagV {
        match self {
            TagSelector::Std(t) => TagV::Std(*t),
            TagSelector::Ext(e) => TagV::Ext(e.name@),
        }
    }
}

/// The selector that the name `n` stands for: the standard tag named by its lowercase
/// form, or else the name as written.
pub open spec fn tag_of(n: Seq<char>) -> TagV {
    match tag_lookup(lower(n), 0) {
        Some(t) => TagV::Std(t),
        None => TagV::Ext(n),
    }
}

/// The written form.
pub open spec fn tag_text(t: TagV) -> Seq<char> {
    match t {
        TagV::Std(x) => htmltag_name(x),
        TagV::Ext(n) => n,
    }
}

/// The characters of an element name.
pub open spec fn tag_pattern() -> TextPatternV {
    tpv_stop(tpv_stop(tpv_stop(tpv_stop(tpv_stop(tpv_stop(
        tpv_allow(tpv_allow(tpv_start(tpv_allow(tpv_allow(tpv_new(), ALPHA_CODE), DIGIT_CODE), ALPHA_CODE), '-' as u32), '_' as u32),
        '[' as u32), '#' as u32), ':' as u32), '.' as u32), ' ' as u32), '\n' as u32)
}

fn make_tag_pattern() -> (r: TextPattern)
    ensures
        r@ == tag_pattern(),
{
    TextPattern::new()
        .allow_alphabetic()
        .allow_numeric()
        .start_with(CssChar::Alphabetic)
        .allow_special('-')
        .allow_special('_')
        .stop_at('[')
        .stop_at('#')
        .stop_at(':')
        .stop_at('.')
        .stop_at(' ')
        .stop_at('\n')
}

/// Reading a type selector at `p`.
pub open spec fn spec_tag(s: Seq<char>, p: int) -> (Result<Option<TagV>, PErr>, int) {
    match cur(s, p) {
        None => (Ok(None), p),
        Some((i, _c)) => {
            let (r, q) = tp_validate(tag_pattern(), s, p);
            match r {
                Err(e) => (Err(PErr::Context(KindV::TagSelector(TagSelectorError::ParseFail(i)), Box::new(e))), q),
                Ok(None) => (Ok(None), q),
                Ok(Some(n)) => (Ok(Some(tag_of(n))), q),
            }
        }
    }
}

impl ExtTagSelector {
    pub fn new(name: &str) -> (r: ExtTagSelector)
        ensures
            r.name@ == name@,
    {
        ExtTagSelector { name: string_of(name) }
    }
}

impl TagSelector {
    /// The selector for the name `name`.
    pub fn from_name(name: String) -> (r: TagSelector)
        ensures
            r@ == tag_of(name@),
    {
        let v = chars_of(name.as_str());
        let l = lower_chars(&v);
        match tag_from_name(&l) {
            Some(t) => TagSelector::Std(t),
            None => TagSelector::Ext(ExtTagSelector { name }),
        }
    }

    pub fn from_chars(chars: &mut CssChars) -> (r: Result<Option<TagSelector>, ParseError>)
        ensures
            final(chars).input() == old(chars).input(),
            final(chars).pos() == spec_tag(old(chars).input(), old(chars).pos()).1,
            res_matches(r, spec_tag(old(chars).input(), old(chars).pos()).0),
    {
        let Some((tag_index, _)) = chars.current() else {
            return Ok(None);
        };
        let pattern = make_tag_pattern();
        match pattern.validate(chars) {
            Err(e) => Err(e.context(ErrorKind::TagSelector(TagSelectorError::ParseFail(tag_index)))),
            Ok(None) => Ok(None),
            Ok(Some(n)) => Ok(Some(TagSelector::from_name(n))),
        }
    }

    pub fn push_text(&self, out: &mut Vec<char>)
        ensures
            final(out)@ == old(out)@ + tag_text(self@),
    {
        match self {
            TagSelector::Std(t) => push_str(out, t.name()),
            TagSelector::Ext(e) => push_string(out, &e.name),
        }
    }
}

} // verus!
