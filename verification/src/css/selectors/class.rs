//! Class selectors: `.red`.
use vstd::prelude::*;

use crate::css::chars::{cur, CssChars};
use crate::css::error::{ErrorKind, ClassSelectorError, KindV, PErr, ParseError};
use crate::css::patterns::text_pattern::{res_matches, tp_validate};
use crate::css::selectors::id::{make_name_pattern, name_pattern};
use crate::text::{push_str, push_string};

verus! {

/// `.name`.
#[derive(Debug, Clone)]
pub struct ClassSelector {
    pub name: String,
}

impl View for ClassSelector {
    type V = Seq<char>;

    open spec fn view(&self) -> Seq<char> {
        self.name@
    }
}

/// Reading a class selector at `p`: `.` and a name.
pub open spec fn spec_class(s: Seq<char>, p: int) -> (Result<Option<Seq<char>>, PErr>, int) {
    match cur(s, p) {
        None => (Ok(None), p),
        Some((i, c)) => {
            if c != '.' {
                (Ok(None), p)
            } else {
                let (r, q) = tp_validate(name_pattern(), s, p + 1);
                match r {
                    Err(e) => (Err(PErr::Context(KindV::ClassSelector(ClassSelectorError::ParseFail(i)), Box::new(e))), q),
                    Ok(None) => (Err(PErr::Parsing(KindV::ClassSelector(ClassSelectorError::MissingClass(i)))), q),
                    Ok(Some(n)) => (Ok(Some(n)), q),
                }
            }
        }
    }
}

impl ClassSelector {
    pub fn new(name: &str) -> (r: ClassSelector)
        ensures
            r@ == name@,
    {
        ClassSelector { name: crate::text::string_of(name) }
    }

    pub fn from_chars(chars: &mut CssChars) -> (r: Result<Option<ClassSelector>, ParseError>)
        ensures
            final(chars).input() == old(chars).input(),
            final(chars).pos() == spec_class(old(chars).input(), old(chars).pos()).1,
            res_matches(r, spec_class(old(chars).input(), old(chars).pos()).0),
    {
        let Some((start_index, start_char)) = chars.current() else {
            return Ok(None);
        };
        if start_char != '.' {
            return Ok(None);
        }
        chars.next();
        let pattern = make_name_pattern();
        match pattern.validate(chars) {
            Err(e) => Err(e.context(ErrorKind::ClassSelector(ClassSelectorError::ParseFail(start_index)))),
            Ok(None) => Err(ClassSelectorError::MissingClass(start_index).into_parse_error()),
            Ok(Some(n)) => Ok(Some(ClassSelector { name: n })),
        }
    }

    pub fn push_text(&self, out: &mut Vec<char>)
        ensures
            final(out)@ == old(out)@ + "."@ + self@,
    {
        push_str(out, ".");
        push_string(out, &self.name);
    }
}

} // verus!
