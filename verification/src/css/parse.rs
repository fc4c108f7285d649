//! The entry point of the selector parser.
use vstd::prelude::*;

use crate::css::chars::CssChars;
use crate::css::error::{PErr, ParseError};
use crate::css::selectors::grammar::{spec_list, ComplexV};
use crate::css::selectors::list::SelectorList;

verus! {

/// What parsing `s` as a whole selector list gives: the list read from its start, or
/// `EmptySelector` where no selector stands there.
pub open spec fn spec_parse_css(s: Seq<char>) -> Result<Seq<ComplexV>, PErr> {
    match spec_list(s, 0).0 {
        Ok(Some(l)) => Ok(l),
        Ok(None) => Err(PErr::EmptySelector),
        Err(e) => Err(e),
    }
}

/// Parses a selector list such as `div#header > p, h1.title`.
pub fn parse_css(string: &str) -> (r: Result<SelectorList, ParseError>)
    ensures
        match r {
            Ok(l) => spec_parse_css(string@) == Ok::<Seq<ComplexV>, PErr>(l@),
            Err(e) => spec_parse_css(string@) == Err::<Seq<ComplexV>, PErr>(e@),
        },
{
    let mut chars = CssChars::new(string);
    match SelectorList::from_chars(&mut chars) {
        Ok(Some(l)) => Ok(l),
        Ok(None) => Err(ParseError::EmptySelector),
        Err(e) => Err(e),
    }
}

/// A parsed selector list kept together with the text it was read from, so that it
/// can be stored and used apart from that text.
pub struct OwnedSelectorList {
    source: String,
    list: SelectorList,
}

impl OwnedSelectorList {
    /// The text the list was read from.
    pub closed spec fn spec_source(&self) -> Seq<char> {
        self.source@
    }

    /// The list.
    pub closed spec fn spec_list(&self) -> Seq<ComplexV> {
        self.list@
    }

    /// Parses `source` and keeps a copy of it.
    pub fn parse(source: &str) -> (r: Result<OwnedSelectorList, ParseError>)
        ensures
            match r {
                Ok(o) => o.spec_source() == source@ && spec_parse_css(source@) == Ok::<Seq<ComplexV>, PErr>(o.spec_list()),
                Err(e) => spec_parse_css(source@) == Err::<Seq<ComplexV>, PErr>(e@),
            },
    {
        let list = parse_css(source)?;
        Ok(OwnedSelectorList { source: crate::text::string_of(source), list })
    }

    /// The list.
    pub fn list(&self) -> (r: &SelectorList)
        ensures
            r@ == self.spec_list(),
    {
        &self.list
    }

    /// The text the list was read from.
    pub fn source(&self) -> (r: &str)
        ensures
            r@ == self.spec_source(),
    {
        self.source.as_str()
    }
}

} // verus!
