//! Names made of a configurable alphabet: which characters may start a name, which may
//! continue it, which stop it, and which it may not consist of exclusively.
use vstd::prelude::*;

use indexmap::IndexSet;

use crate::css::chars::{cur, CssChars};
use crate::css::error::{CharList, KindV, PErr, ParseError, TextPatternError, TextPatternErrorV};
use crate::css::patterns::char_set::{code_set_contains, code_set_insert, code_set_new, set_items};
use crate::text::{ascii_alpha, ascii_digit, is_ascii_alpha, is_ascii_digit, push_str};

verus! {

/// Class code of every ASCII letter.
pub const ALPHA_CODE: u32 = 0x11_0000;
/// Class code of every ASCII digit.
pub const DIGIT_CODE: u32 = 0x11_0001;

/// A character as the name rules see it: its class when it is an ASCII letter or digit,
/// else the character itself.
#[derive(Debug, PartialEq, Eq, Hash, Clone, Copy)]
pub enum CssChar {
    Alphabetic,
    Digit,
    Special(char),
}

/// The class code of a character.
pub open spec fn char_code(c: char) -> u32 {
    if is_ascii_alpha(c) {
        ALPHA_CODE
    } else if is_ascii_digit(c) {
        DIGIT_CODE
    } else {
        c as u32
    }
}

impl CssChar {
    pub open spec fn spec_from_char(c: char) -> CssChar {
        if is_ascii_alpha(c) {
            CssChar::Alphabetic
        } else if is_ascii_digit(c) {
            CssChar::Digit
        } else {
            CssChar::Special(c)
        }
    }

    pub open spec fn spec_code(self) -> u32 {
        match self {
            CssChar::Alphabetic => ALPHA_CODE,
            CssChar::Digit => DIGIT_CODE,
            CssChar::Special(c) => c as u32,
        }
    }

    /// `Alphabetic`, `Numeric`, or the character itself.
    pub open spec fn spec_text(self) -> Seq<char> {
        match self {
            CssChar::Alphabetic => "Alphabetic"@,
            CssChar::Digit => "Numeric"@,
            CssChar::Special(c) => seq![c],
        }
    }

    pub fn from_char(c: char) -> (r: CssChar)
        ensures
            r == CssChar::spec_from_char(c),
    {
        if ascii_alpha(c) {
            CssChar::Alphabetic
        } else if ascii_digit(c) {
            CssChar::Digit
        } else {
            CssChar::Special(c)
        }
    }

    pub fn code(&self) -> (r: u32)
        ensures
            r == self.spec_code(),
    {
        match self {
            CssChar::Alphabetic => ALPHA_CODE,
            CssChar::Digit => DIGIT_CODE,
            CssChar::Special(c) => *c as u32,
        }
    }

    pub fn push_text(&self, out: &mut Vec<char>)
        ensures
            final(out)@ == old(out)@ + self.spec_text(),
    {
        match self {
            CssChar::Alphabetic => push_str(out, "Alphabetic"),
            CssChar::Digit => push_str(out, "Numeric"),
            CssChar::Special(c) => {
                out.push(*c);
                assert(final(out)@ =~= old(out)@ + seq![*c]);
            }
        }
    }
}

pub fn code_of(c: char) -> (r: u32)
    ensures
        r == char_code(c),
{
    if ascii_alpha(c) {
        ALPHA_CODE
    } else if ascii_digit(c) {
        DIGIT_CODE
    } else {
        c as u32
    }
}

/// The plain-value form of a [`TextPattern`]: the class codes of each rule, in the order
/// they were added, and the stop characters.
pub struct TextPatternV {
    pub allowed: Seq<u32>,
    pub start_with: Seq<u32>,
    pub not_exclusively: Seq<CssChar>,
    pub stop_at: Seq<u32>,
}

/// The characters that a name may be made of.
pub struct TextPattern {
    allowed: IndexSet<u32>,
    start_with: IndexSet<u32>,
    not_exclusively: IndexSet<u32>,
    not_exclusively_list: Vec<CssChar>,
    stop_at: IndexSet<u32>,
}

impl View for TextPattern {
    type V = TextPatternV;

    closed spec fn view(&self) -> TextPatternV {
        TextPatternV {
            allowed: set_items(self.allowed),
            start_with: set_items(self.start_with),
            not_exclusively: self.not_exclusively_list@,
            stop_at: set_items(self.stop_at),
        }
    }
}

/// Whether `v` is a valid plain pattern: the exclusivity list holds each class once.
pub open spec fn excl_contains(t: TextPatternV, code: u32) -> bool {
    exists|i: int| 0 <= i < t.not_exclusively.len() && #[trigger] t.not_exclusively[i].spec_code() == code
}

impl TextPattern {
    #[verifier::type_invariant]
    closed spec fn inv(&self) -> bool {
        set_items(self.not_exclusively) == self.not_exclusively_list@.map_values(|c: CssChar| c.spec_code())
    }

    pub fn new() -> (r: TextPattern)
        ensures
            r@.allowed == Seq::<u32>::empty(),
            r@.start_with == Seq::<u32>::empty(),
            r@.not_exclusively == Seq::<CssChar>::empty(),
            r@.stop_at == Seq::<u32>::empty(),
    {
        let allowed = code_set_new();
        let start_with = code_set_new();
        let not_exclusively = code_set_new();
        let not_exclusively_list: Vec<CssChar> = Vec::new();
        let stop_at = code_set_new();
        assert(not_exclusively_list@.map_values(|c: CssChar| c.spec_code()) =~= set_items(not_exclusively));
        TextPattern { allowed, start_with, not_exclusively, not_exclusively_list, stop_at }
    }

    pub fn allow_alphabetic(self) -> (r: TextPattern)
        ensures
            r@ == (TextPatternV { allowed: add_code(self@.allowed, ALPHA_CODE), ..self@ }),
    {
        self.allow(ALPHA_CODE)
    }

    pub fn allow_numeric(self) -> (r: TextPattern)
        ensures
            r@ == (TextPatternV { allowed: add_code(self@.allowed, DIGIT_CODE), ..self@ }),
    {
        self.allow(DIGIT_CODE)
    }

    pub fn allow_special(self, c: char) -> (r: TextPattern)
        ensures
            r@ == (TextPatternV { allowed: add_code(self@.allowed, c as u32), ..self@ }),
    {
        self.allow(c as u32)
    }

    fn allow(self, code: u32) -> (r: TextPattern)
        ensures
            r@ == (TextPatternV { allowed: add_code(self@.allowed, code), ..self@ }),
    {
        proof { use_type_invariant(&self); }
        let TextPattern { allowed, start_with, not_exclusively, not_exclusively_list, stop_at } = self;
        let mut allowed = allowed;
        code_set_insert(&mut allowed, code);
        TextPattern { allowed, start_with, not_exclusively, not_exclusively_list, stop_at }
    }

    pub fn start_with(self, css_char: CssChar) -> (r: TextPattern)
        ensures
            r@ == (TextPatternV { start_with: add_code(self@.start_with, css_char.spec_code()), ..self@ }),
    {
        proof { use_type_invariant(&self); }
        let TextPattern { allowed, start_with, not_exclusively, not_exclusively_list, stop_at } = self;
        let mut start_with = start_with;
        code_set_insert(&mut start_with, css_char.code());
        TextPattern { allowed, start_with, not_exclusively, not_exclusively_list, stop_at }
    }

    pub fn stop_at(self, c: char) -> (r: TextPattern)
        ensures
            r@ == (TextPatternV { stop_at: add_code(self@.stop_at, c as u32), ..self@ }),
    {
        proof { use_type_invariant(&self); }
        let TextPattern { allowed, start_with, not_exclusively, not_exclusively_list, stop_at } = self;
        let mut stop_at = stop_at;
        code_set_insert(&mut stop_at, c as u32);
        TextPattern { allowed, start_with, not_exclusively, not_exclusively_list, stop_at }
    }

    pub fn not_exclusively(self, css_char: CssChar) -> (r: TextPattern)
        ensures
            r@ == (TextPatternV {
                not_exclusively: if excl_contains(self@, css_char.spec_code()) {
                    self@.not_exclusively
                } else {
                    self@.not_exclusively.push(css_char)
                },
                ..self@
            }),
    {
        proof { use_type_invariant(&self); }
        let TextPattern { allowed, start_with, not_exclusively, not_exclusively_list, stop_at } = self;
        let mut set = not_exclusively;
        let mut list = not_exclusively_list;
        let ghost old_list = list@;
        let ghost code = css_char.spec_code();
        proof {
            assert(set_items(set) == old_list.map_values(|c: CssChar| c.spec_code()));
            if set_items(set).contains(code) {
                let i = choose|i: int| 0 <= i < set_items(set).len() && set_items(set)[i] == code;
                assert(old_list.map_values(|c: CssChar| c.spec_code())[i] == old_list[i].spec_code());
                assert(self@.not_exclusively == old_list);
                assert(self@.not_exclusively[i].spec_code() == code);
            }
            if excl_contains(self@, code) {
                let i = choose|i: int| 0 <= i < old_list.len() && #[trigger] old_list[i].spec_code() == code;
                assert(old_list.map_values(|c: CssChar| c.spec_code())[i] == old_list[i].spec_code());
                assert(set_items(set).contains(code));
            }
        }
        if code_set_insert(&mut set, css_char.code()) {
            list.push(css_char);
            assert(list@.map_values(|c: CssChar| c.spec_code()) =~= set_items(set));
        }
        TextPattern { allowed, start_with, not_exclusively: set, not_exclusively_list: list, stop_at }
    }

    fn is_allowed_start(&self, c: char) -> (r: bool)
        ensures
            r == self@.start_with.contains(char_code(c)),
    {
        code_set_contains(&self.start_with, code_of(c))
    }

    fn is_allowed_char(&self, c: char) -> (r: bool)
        ensures
            r == self@.allowed.contains(char_code(c)),
    {
        code_set_contains(&self.allowed, code_of(c))
    }

    fn stopped_at(&self, c: char) -> (r: bool)
        ensures
            r == self@.stop_at.contains(c as u32),
    {
        code_set_contains(&self.stop_at, c as u32)
    }

    fn is_not_exclusively(&self, c: char) -> (r: bool)
        ensures
            r == !excl_contains(self@, char_code(c)),
    {
        proof { use_type_invariant(self); }
        let r = code_set_contains(&self.not_exclusively, code_of(c));
        proof {
            let l = self.not_exclusively_list@;
            let code = char_code(c);
            assert(set_items(self.not_exclusively) == l.map_values(|x: CssChar| x.spec_code()));
            if r {
                let i = choose|i: int| 0 <= i < set_items(self.not_exclusively).len() && set_items(self.not_exclusively)[i] == code;
                assert(l.map_values(|x: CssChar| x.spec_code())[i] == l[i].spec_code());
                assert(self@.not_exclusively == l);
                assert(self@.not_exclusively[i].spec_code() == code);
            }
            if excl_contains(self@, code) {
                let i = choose|i: int| 0 <= i < l.len() && #[trigger] l[i].spec_code() == code;
                assert(l.map_values(|x: CssChar| x.spec_code())[i] == l[i].spec_code());
                assert(set_items(self.not_exclusively).contains(code));
            }
        }
        !r
    }

    fn excl_list(&self) -> (r: CharList)
        ensures
            r.0@ == self@.not_exclusively,
    {
        let mut v: Vec<CssChar> = Vec::new();
        let mut i: usize = 0;
        while i < self.not_exclusively_list.len()
            invariant
                0 <= i <= self.not_exclusively_list@.len(),
                v@ == self.not_exclusively_list@.subrange(0, i as int),
            decreases self.not_exclusively_list@.len() - i,
        {
            v.push(self.not_exclusively_list[i]);
            i = i + 1;
            assert(v@ =~= self.not_exclusively_list@.subrange(0, i as int));
        }
        assert(v@ =~= self.not_exclusively_list@);
        CharList(v)
    }

    /// Reads a name from the cursor. See [`tp_validate`].
    pub fn validate(&self, chars: &mut CssChars) -> (r: Result<Option<String>, ParseError>)
        ensures
            final(chars).input() == old(chars).input(),
            final(chars).pos() == tp_validate(self@, old(chars).input(), old(chars).pos()).1,
            res_matches(r, tp_validate(self@, old(chars).input(), old(chars).pos()).0),
    {
        let ghost s = chars.input();
        let ghost p = chars.pos();
        let Some((start_index, start_char)) = chars.current() else {
            return Ok(None);
        };
        if self.stopped_at(start_char) {
            return Ok(None);
        }
        if !self.is_allowed_start(start_char) {
            return Err(TextPatternError::StartsWith(start_index, start_char).into_parse_error());
        }
        let start = chars.position();
        let mut end = start;
        let mut valid = self.is_allowed_char(start_char) && self.is_not_exclusively(start_char);
        let ghost target = tp_scan(self@, s, p + 1, p, valid);
        loop
            invariant_except_break
                chars.input() == s,
                start <= end < s.len(),
                chars.pos() == end,
                tp_scan(self@, s, end + 1, end as int, valid) == target,
            ensures
                chars.input() == s,
                start <= end < s.len(),
                target == (chars.pos(), end as int, valid),
            decreases s.len() - chars.pos(),
        {
            match chars.next() {
                None => break,
                Some((_i, c)) => {
                    if self.stopped_at(c) {
                        break;
                    }
                    if self.is_allowed_char(c) {
                        if !valid && self.is_not_exclusively(c) {
                            valid = true;
                        }
                        end = chars.position();
                    } else {
                        break;
                    }
                }
            }
        }
        if !valid {
            return Err(TextPatternError::Exclusively(start_index, self.excl_list()).into_parse_error());
        }
        Ok(Some(chars.str(start, end + 1)))
    }
}

/// `s` with `v` appended unless it is already present.
pub open spec fn add_code(s: Seq<u32>, v: u32) -> Seq<u32> {
    if s.contains(v) { s } else { s.push(v) }
}

/// The characters after a name's first, from position `q`: where reading stops, the
/// position of the name's last character, and whether the name holds a character outside
/// the exclusivity list.
pub open spec fn tp_scan(t: TextPatternV, s: Seq<char>, q: int, end: int, valid: bool) -> (int, int, bool)
    decreases s.len() - q,
{
    if q < 0 || q >= s.len() {
        (s.len() as int, end, valid)
    } else if t.stop_at.contains(s[q] as u32) {
        (q, end, valid)
    } else if t.allowed.contains(char_code(s[q])) {
        tp_scan(t, s, q + 1, q, valid || !excl_contains(t, char_code(s[q])))
    } else {
        (q, end, valid)
    }
}

/// Reading a name at position `p`: nothing at the end of the input or at a stop
/// character; an error when the first character may not start a name, or when every
/// character of the name is in the exclusivity list; else the name, which runs from the
/// first character through the last allowed one. The second component is the position
/// after the read.
pub open spec fn tp_validate(t: TextPatternV, s: Seq<char>, p: int) -> (Result<Option<Seq<char>>, PErr>, int) {
    match cur(s, p) {
        None => (Ok(None), p),
        Some((si, c)) => {
            if t.stop_at.contains(c as u32) {
                (Ok(None), p)
            } else if !t.start_with.contains(char_code(c)) {
                (Err(PErr::Parsing(KindV::TextPattern(TextPatternErrorV::StartsWith(si, c)))), p)
            } else {
                let (q, end, valid) = tp_scan(t, s, p + 1, p,
                    t.allowed.contains(char_code(c)) && !excl_contains(t, char_code(c)));
                if !valid {
                    (Err(PErr::Parsing(KindV::TextPattern(TextPatternErrorV::Exclusively(si, t.not_exclusively)))), q)
                } else {
                    (Ok(Some(s.subrange(p, end + 1))), q)
                }
            }
        }
    }
}

/// Whether a result agrees with its plain-value description.
pub open spec fn res1_matches<T: View>(r: Result<T, ParseError>, sr: Result<T::V, PErr>) -> bool {
    match (r, sr) {
        (Ok(x), Ok(y)) => x@ == y,
        (Err(e), Err(f)) => e@ == f,
        _ => false,
    }
}

/// Whether a parse result agrees with its plain-value description.
pub open spec fn res_matches<T: View>(r: Result<Option<T>, ParseError>, sr: Result<Option<T::V>, PErr>) -> bool {
    match (r, sr) {
        (Ok(None), Ok(None)) => true,
        (Ok(Some(x)), Ok(Some(y))) => x@ == y,
        (Err(e), Err(f)) => e@ == f,
        _ => false,
    }
}

} // verus!

verus! {

/// The plain form of a pattern with no rules.
pub open spec fn tpv_new() -> TextPatternV {
    TextPatternV {
        allowed: Seq::empty(),
        start_with: Seq::empty(),
        not_exclusively: Seq::empty(),
        stop_at: Seq::empty(),
    }
}

/// `t` with the class code `code` allowed.
pub open spec fn tpv_allow(t: TextPatternV, code: u32) -> TextPatternV {
    TextPatternV { allowed: add_code(t.allowed, code), ..t }
}

/// `t` with the class code `code` allowed as first character.
pub open spec fn tpv_start(t: TextPatternV, code: u32) -> TextPatternV {
    TextPatternV { start_with: add_code(t.start_with, code), ..t }
}

/// `t` stopping at the character with code `code`.
pub open spec fn tpv_stop(t: TextPatternV, code: u32) -> TextPatternV {
    TextPatternV { stop_at: add_code(t.stop_at, code), ..t }
}

/// `t` with `c` in its exclusivity list.
pub open spec fn tpv_excl(t: TextPatternV, c: CssChar) -> TextPatternV {
    TextPatternV {
        not_exclusively: if excl_contains(t, c.spec_code()) {
            t.not_exclusively
        } else {
            t.not_exclusively.push(c)
        },
        ..t
    }
}

} // verus!
