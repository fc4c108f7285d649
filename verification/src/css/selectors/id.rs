//! Id selectors: `#main`.
use vstd::prelude::*;

use crate::css::chars::{cur, CssChars};
use crate::css::error::{ErrorKind, IdSelectorError, KindV, PErr, ParseError};
use crate::css::patterns::text_pattern::{
    res_matches, tp_validate, tpv_allow, tpv_excl, tpv_new, tpv_start, tpv_stop, CssChar, TextPattern,
    TextPatternV, ALPHA_CODE, DIGIT_CODE,
};
use crate::text::{push_str, push_string};

verus! {

/// The characters of an id or class name: letters, digits, `-` and `_`, not starting
/// with a digit and not made of `-` and `_` alone.
pub open spec fn name_pattern() -> TextPatternV {
    tpv_stop(tpv_stop(tpv_stop(tpv_stop(tpv_stop(tpv_stop(
        tpv_excl(tpv_excl(
            tpv_allow(tpv_allow(
                tpv_start(tpv_start(tpv_start(tpv_allow(tpv_allow(tpv_new(), ALPHA_CODE), DIGIT_CODE), ALPHA_CODE), '_' as u32), '-' as u32),
                '-' as u32), '_' as u32),
            CssChar::Special('-')), CssChar::Special('_')),
        '[' as u32), '#' as u32), ':' as u32), '.' as u32), ' ' as u32), '\n' as u32)
}

pub fn make_name_pattern() -> (r: TextPattern)
    ensures
        r@ == name_pattern(),
{
    TextPattern::new()
        .allow_alphabetic()
        .allow_numeric()
        .start_with(CssChar::Alphabetic)
        .start_with(CssChar::Special('_'))
        .start_with(CssChar::Special('-'))
        .allow_special('-')
        .allow_special('_')
        .not_exclusively(CssChar::Special('-'))
        .not_exclusively(CssChar::Special('_'))
        .stop_at('[')
        .stop_at('#')
        .stop_at(':')
        .stop_at('.')
        .stop_at(' ')
        .stop_at('\n')
}

/// `#name`.
#[derive(Debug, Clone)]
pub struct IdSelector {
    pub name: String,
}

impl View for IdSelector {
    type V = Seq<char>;

    open spec fn view(&self) -> Seq<char> {
        self.name@
    }
}

/// Reading an id selector at `p`: `#` and a name.
pub open spec fn spec_id(s: Seq<char>, p: int) -> (Result<Option<Seq<char>>, PErr>, int) {
    match cur(s, p) {
        None => (Ok(None), p),
        Some((i, c)) => {
            if c != '#' {
                (Ok(None), p)
            } else {
                let (r, q) = tp_validate(name_pattern(), s, p + 1);
                match r {
                    Err(e) => (Err(PErr::Context(KindV::IdSelector(IdSelectorError::ParseFail(i)), Box::new(e))), q),
                    Ok(None) => (Err(PErr::Parsing(KindV::IdSelector(IdSelectorError::MissingId(i)))), q),
                    Ok(Some(n)) => (Ok(Some(n)), q),
                }
            }
        }
    }
}

impl IdSelector {
    pub fn new(name: &str) -> (r: IdSelector)
        ensures
            r@ == name@,
    {
        IdSelector { name: crate::text::string_of(name) }
    }

    pub fn from_chars(chars: &mut CssChars) -> (r: Result<Option<IdSelector>, ParseError>)
        ensures
            final(chars).input() == old(chars).input(),
            final(chars).pos() == spec_id(old(chars).input(), old(chars).pos()).1,
            res_matches(r, spec_id(old(chars).input(), old(chars).pos()).0),
    {
        let Some((start_index, start_char)) = chars.current() else {
            return Ok(None);
        };
        if start_char != '#' {
            return Ok(None);
        }
        chars.next();
        let pattern = make_name_pattern();
        match pattern.validate(chars) {
            Err(e) => Err(e.context(ErrorKind::IdSelector(IdSelectorError::ParseFail(start_index)))),
            Ok(None) => Err(IdSelectorError::MissingId(start_index).into_parse_error()),
            Ok(Some(n)) => Ok(Some(IdSelector { name: n })),
        }
    }

    pub fn push_text(&self, out: &mut Vec<char>)
        ensures
            final(out)@ == old(out)@ + "#"@ + self@,
    {
        push_str(out, "#");
        push_string(out, &self.name);
    }
}

} // verus!
