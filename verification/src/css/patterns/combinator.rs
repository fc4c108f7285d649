//! The relation between two compound selectors of a complex selector.
use vstd::prelude::*;

use crate::css::chars::{cur, skip_ws, CssChars};
use crate::text::{is_white, push_str, white};

verus! {

/// [mdn: Combinators](https://developer.mozilla.org/en-US/docs/Web/CSS/CSS_selectors/Selectors_and_combinators#combinators)
#[derive(Debug, Eq, PartialEq, Structural, Clone, Copy)]
pub enum Combinator {
    /// ' '
    Descendant,
    /// '>'
    Child,
    /// '~'
    SubsequentSibling,
    /// '+'
    NextSibling,
}

impl View for Combinator {
    type V = Combinator;

    open spec fn view(&self) -> Combinator {
        *self
    }
}

/// The combinator's written form, with the space that follows it.
pub open spec fn combinator_text(c: Combinator) -> Seq<char> {
    match c {
        Combinator::Descendant => " "@,
        Combinator::Child => "> "@,
        Combinator::SubsequentSibling => "~ "@,
        Combinator::NextSibling => "+ "@,
    }
}

/// Reading a combinator at `p`: whitespace alone is the descendant combinator; `>`, `~`
/// or `+`, with whitespace around them, are the others. The spaces after them are read
/// too.
pub open spec fn spec_combinator(s: Seq<char>, p: int) -> (Option<Combinator>, int) {
    match cur(s, p) {
        None => (None, p),
        Some((_i, c)) => {
            let descendant = is_white(c);
            let q = if descendant { skip_ws(s, p) } else { p };
            match cur(s, q) {
                None => (None, q),
                Some((_j, d)) => {
                    if d == '>' {
                        (Some(Combinator::Child), skip_ws(s, q + 1))
                    } else if d == '~' {
                        (Some(Combinator::SubsequentSibling), skip_ws(s, q + 1))
                    } else if d == '+' {
                        (Some(Combinator::NextSibling), skip_ws(s, q + 1))
                    } else if descendant {
                        (Some(Combinator::Descendant), q)
                    } else {
                        (None, q)
                    }
                }
            }
        }
    }
}

impl Combinator {
    /// The combinator that a complex selector uses where none is written.
    pub fn default() -> (r: Combinator)
        ensures
            r == Combinator::Descendant,
    {
        Combinator::Descendant
    }

    pub fn from_chars(chars: &mut CssChars) -> (r: Option<Combinator>)
        ensures
            final(chars).input() == old(chars).input(),
            final(chars).pos() == spec_combinator(old(chars).input(), old(chars).pos()).1,
            r == spec_combinator(old(chars).input(), old(chars).pos()).0,
    {
        let Some((_, c)) = chars.current() else {
            return None;
        };
        let mut descendant = false;
        if white(c) {
            descendant = true;
            chars.skip_spaces();
        }
        let Some((_, c)) = chars.current() else {
            return None;
        };
        match c {
            '>' => {
                chars.next();
                chars.skip_spaces();
                Some(Combinator::Child)
            }
            '~' => {
                chars.next();
                chars.skip_spaces();
                Some(Combinator::SubsequentSibling)
            }
            '+' => {
                chars.next();
                chars.skip_spaces();
                Some(Combinator::NextSibling)
            }
            _ => {
                if descendant {
                    Some(Combinator::Descendant)
                } else {
                    None
                }
            }
        }
    }

    pub fn push_text(&self, out: &mut Vec<char>)
        ensures
            final(out)@ == old(out)@ + combinator_text(*self),
    {
        match self {
            Combinator::Descendant => push_str(out, " "),
            Combinator::Child => push_str(out, "> "),
            Combinator::SubsequentSibling => push_str(out, "~ "),
            Combinator::NextSibling => push_str(out, "+ "),
        }
    }
}

} // verus!
