//! The argument of `:nth-child()` and its kin: `odd`, `even`, `3`, `2n+1`, `-n+3`.
use vstd::prelude::*;

use crate::css::chars::{cur, last_idx, CssChars};
use crate::css::error::{ErrorKind, KindV, OrdinalPatternError, PErr, ParseError};
use crate::css::patterns::integer_pattern::{spec_integer, IntegerPattern};
use crate::css::patterns::text_pattern::{
    res_matches, tp_validate, tpv_allow, tpv_new, tpv_start, CssChar, TextPattern, TextPatternV, ALPHA_CODE,
};
use crate::text::{chars_of, dec, is_ascii_alpha, push_str, push_usize, string_from_chars};

verus! {

/// Which positions among its siblings an element may hold.
#[derive(Debug, Clone, Copy, PartialEq, Eq, Structural)]
pub enum OrdinalPattern {
    Even,
    Odd,
    N(usize),
    Formula { backward: bool, a: usize, b: Option<usize> },
}

impl View for OrdinalPattern {
    type V = OrdinalPattern;

    open spec fn view(&self) -> OrdinalPattern {
        *self
    }
}

/// The ASCII lowercase form of `c`.
pub open spec fn ascii_lower(c: char) -> char {
    if 'A' <= c && c <= 'Z' { ((c as u32) + 32) as char } else { c }
}

/// Whether `a` and `b` are equal when ASCII letters are compared without case.
pub open spec fn eq_ignore_case(a: Seq<char>, b: Seq<char>) -> bool {
    a.len() == b.len() && forall|i: int| 0 <= i < a.len() ==> ascii_lower(#[trigger] a[i]) == ascii_lower(b[i])
}

pub fn lower_char(c: char) -> (r: char)
    ensures
        r == ascii_lower(c),
{
    if 'A' <= c && c <= 'Z' {
        let b: u8 = (c as u8) + 32;
        b as char
    } else {
        c
    }
}

fn eq_ignore_case_exec(a: &Vec<char>, b: &str) -> (r: bool)
    ensures
        r == eq_ignore_case(a@, b@),
{
    let w = chars_of(b);
    if a.len() != w.len() {
        return false;
    }
    let mut i: usize = 0;
    while i < a.len()
        invariant
            w@ == b@,
            a@.len() == w@.len(),
            0 <= i <= a@.len(),
            forall|j: int| 0 <= j < i ==> ascii_lower(#[trigger] a@[j]) == ascii_lower(w@[j]),
        decreases a@.len() - i,
    {
        if lower_char(a[i]) != lower_char(w[i]) {
            return false;
        }
        i = i + 1;
    }
    true
}

/// The letters of `odd` and `even`.
pub open spec fn keyword_pattern() -> TextPatternV {
    tpv_start(tpv_allow(tpv_new(), ALPHA_CODE), ALPHA_CODE)
}

fn make_keyword_pattern() -> (r: TextPattern)
    ensures
        r@ == keyword_pattern(),
{
    TextPattern::new().allow_alphabetic().start_with(CssChar::Alphabetic)
}

/// An ordinal error as a plain value.
pub open spec fn oerr(e: OrdinalPatternError) -> PErr {
    PErr::Parsing(KindV::OrdinalPattern(e))
}

/// The ordinal `an` (`a` defaulting to 1) and what follows the `n` at `q` (the position
/// after the `n`): nothing, `)`, or `+b`.
pub open spec fn spec_ordinal_tail(s: Seq<char>, q: int, backward: bool, a: usize) -> (Result<Option<OrdinalPattern>, PErr>, int) {
    match cur(s, q) {
        None => {
            if backward {
                (Err(oerr(OrdinalPatternError::Invalid(last_idx(s, q)))), q)
            } else {
                (Ok(Some(OrdinalPattern::Formula { backward, a, b: None })), q)
            }
        }
        Some((pi, pc)) => {
            if pc == ')' {
                if backward {
                    (Err(oerr(OrdinalPatternError::Invalid(last_idx(s, q)))), q)
                } else {
                    (Ok(Some(OrdinalPattern::Formula { backward, a, b: None })), q)
                }
            } else if pc != '+' {
                (Err(oerr(OrdinalPatternError::MissingPlus(pi))), q)
            } else {
                match cur(s, q + 1) {
                    None => (Err(oerr(OrdinalPatternError::MissingOffset(last_idx(s, q + 1)))), q + 1),
                    Some((oi, _c)) => {
                        let (rb, q2) = spec_integer(s, q + 1);
                        match rb {
                            Err(e) => (Err(PErr::Context(KindV::OrdinalPattern(OrdinalPatternError::InvalidOffset(oi)), Box::new(e))), q2),
                            Ok(None) => (Err(oerr(OrdinalPatternError::MissingOffset(pi))), q2),
                            Ok(Some(b)) => (Ok(Some(OrdinalPattern::Formula { backward, a, b: Some(b) })), q2),
                        }
                    }
                }
            }
        }
    }
}

/// Reading an ordinal at `p`: `odd` or `even` in any case; or an optional `-`, an
/// optional integer `a` and then either nothing more (the position `a`) or `n` with an
/// optional `+b`.
pub open spec fn spec_ordinal(s: Seq<char>, p: int) -> (Result<Option<OrdinalPattern>, PErr>, int) {
    match cur(s, p) {
        None => (Ok(None), p),
        Some((i, c)) => {
            if c == ')' {
                (Ok(None), p)
            } else if is_ascii_alpha(c) && c != 'n' && c != 'N' {
                let (r, q) = tp_validate(keyword_pattern(), s, p);
                match r {
                    Err(e) => (Err(PErr::Context(KindV::OrdinalPattern(OrdinalPatternError::EvenOrOdd(i)), Box::new(e))), q),
                    Ok(None) => (Err(oerr(OrdinalPatternError::EvenOrOdd(i))), q),
                    Ok(Some(t)) => {
                        if eq_ignore_case(t, "odd"@) {
                            (Ok(Some(OrdinalPattern::Odd)), q)
                        } else if eq_ignore_case(t, "even"@) {
                            (Ok(Some(OrdinalPattern::Even)), q)
                        } else {
                            (Err(oerr(OrdinalPatternError::EvenOrOdd(i))), q)
                        }
                    }
                }
            } else {
                let backward = c == '-';
                let p1 = if backward { p + 1 } else { p };
                let (ra, q1) = spec_integer(s, p1);
                match ra {
                    Err(e) => (Err(PErr::Context(KindV::OrdinalPattern(OrdinalPatternError::InvalidStep(i)), Box::new(e))), q1),
                    Ok(a) => match cur(s, q1) {
                        Some((_j, nc)) if nc == 'n' => {
                            spec_ordinal_tail(s, q1 + 1, backward, match a { Some(x) => x, None => 1 })
                        }
                        Some((_j, nc)) if nc != ')' => (Err(oerr(OrdinalPatternError::Invalid(last_idx(s, q1)))), q1),
                        _ => match a {
                            Some(x) => {
                                if backward {
                                    (Err(oerr(OrdinalPatternError::Invalid(last_idx(s, q1)))), q1)
                                } else {
                                    (Ok(Some(OrdinalPattern::N(x))), q1)
                                }
                            }
                            None => (Err(oerr(OrdinalPatternError::Unterminated(last_idx(s, q1)))), q1),
                        },
                    },
                }
            }
        }
    }
}

/// Whether position `pos` (counted from 1) is one that the pattern selects: `N(p)` only
/// `p`; the others every `a·k + b`, `k >= 0` (`-a·k + b` when backward), with `even` as
/// `2n` and `odd` as `2n+1`. A step of 0 selects the offset alone.
pub open spec fn ordinal_matches(o: OrdinalPattern, pos: int) -> bool {
    match o {
        OrdinalPattern::N(p) => p == pos,
        _ => {
            let (backward, step, offset) = match o {
                OrdinalPattern::Even => (false, 2int, 0int),
                OrdinalPattern::Odd => (false, 2int, 1int),
                OrdinalPattern::Formula { backward, a, b } => (backward, a as int, match b { Some(x) => x as int, None => 0int }),
                OrdinalPattern::N(_) => (false, 1int, 0int),
            };
            let d = if backward { offset - pos } else { pos - offset };
            if step == 0 { d == 0 } else { d >= 0 && d % step == 0 }
        }
    }
}

/// The written form of an ordinal.
pub open spec fn ordinal_text(o: OrdinalPattern) -> Seq<char> {
    match o {
        OrdinalPattern::Even => "even"@,
        OrdinalPattern::Odd => "odd"@,
        OrdinalPattern::N(n) => dec(n as nat),
        OrdinalPattern::Formula { backward, a, b } => {
            (if backward { "-"@ } else { Seq::empty() }) + (if a > 1 { dec(a as nat) } else { Seq::empty() }) + "n"@
                + match b {
                Some(x) => "+"@ + dec(x as nat),
                None => Seq::empty(),
            }
        }
    }
}

impl OrdinalPattern {
    fn tail(chars: &mut CssChars, backward: bool, a: usize) -> (r: Result<Option<OrdinalPattern>, ParseError>)
        ensures
            final(chars).input() == old(chars).input(),
            final(chars).pos() == spec_ordinal_tail(old(chars).input(), old(chars).pos(), backward, a).1,
            res_matches(r, spec_ordinal_tail(old(chars).input(), old(chars).pos(), backward, a).0),
    {
        proof { CssChars::lemma_pos_bound(chars); }
        let Some((plus_index, plus_char)) = chars.current() else {
            if backward {
                return Err(OrdinalPatternError::Invalid(chars.last_index()).into_parse_error());
            }
            return Ok(Some(OrdinalPattern::Formula { backward, a, b: None }));
        };
        if plus_char == ')' {
            if backward {
                return Err(OrdinalPatternError::Invalid(chars.last_index()).into_parse_error());
            }
            return Ok(Some(OrdinalPattern::Formula { backward, a, b: None }));
        }
        if plus_char != '+' {
            return Err(OrdinalPatternError::MissingPlus(plus_index).into_parse_error());
        }
        let Some((offset_index, _)) = chars.next() else {
            return Err(OrdinalPatternError::MissingOffset(chars.last_index()).into_parse_error());
        };
        match IntegerPattern::from_chars(chars) {
            Err(e) => Err(e.context(ErrorKind::OrdinalPattern(OrdinalPatternError::InvalidOffset(offset_index)))),
            Ok(None) => Err(OrdinalPatternError::MissingOffset(plus_index).into_parse_error()),
            Ok(Some(b)) => Ok(Some(OrdinalPattern::Formula { backward, a, b: Some(b) })),
        }
    }

    pub fn from_chars(chars: &mut CssChars) -> (r: Result<Option<OrdinalPattern>, ParseError>)
        ensures
            final(chars).input() == old(chars).input(),
            final(chars).pos() == spec_ordinal(old(chars).input(), old(chars).pos()).1,
            res_matches(r, spec_ordinal(old(chars).input(), old(chars).pos()).0),
    {
        let Some((index, c)) = chars.current() else {
            return Ok(None);
        };
        if c == ')' {
            return Ok(None);
        }
        if crate::text::ascii_alpha(c) && c != 'n' && c != 'N' {
            let pattern = make_keyword_pattern();
            let text = match pattern.validate(chars) {
                Err(e) => {
                    return Err(e.context(ErrorKind::OrdinalPattern(OrdinalPatternError::EvenOrOdd(index))));
                }
                Ok(None) => {
                    return Err(OrdinalPatternError::EvenOrOdd(index).into_parse_error());
                }
                Ok(Some(t)) => t,
            };
            let t = chars_of(text.as_str());
            if eq_ignore_case_exec(&t, "odd") {
                return Ok(Some(OrdinalPattern::Odd));
            } else if eq_ignore_case_exec(&t, "even") {
                return Ok(Some(OrdinalPattern::Even));
            } else {
                return Err(OrdinalPatternError::EvenOrOdd(index).into_parse_error());
            }
        }
        let backward = if c == '-' {
            chars.next();
            true
        } else {
            false
        };
        let a = match IntegerPattern::from_chars(chars) {
            Err(e) => {
                return Err(e.context(ErrorKind::OrdinalPattern(OrdinalPatternError::InvalidStep(index))));
            }
            Ok(a) => a,
        };
        let nth = match chars.current() {
            Some((_, n_char)) => {
                if n_char == 'n' {
                    true
                } else if n_char != ')' {
                    return Err(OrdinalPatternError::Invalid(chars.last_index()).into_parse_error());
                } else {
                    false
                }
            }
            None => false,
        };
        if !nth {
            return match a {
                Some(x) => {
                    if backward {
                        Err(OrdinalPatternError::Invalid(chars.last_index()).into_parse_error())
                    } else {
                        Ok(Some(OrdinalPattern::N(x)))
                    }
                }
                None => Err(OrdinalPatternError::Unterminated(chars.last_index()).into_parse_error()),
            };
        }
        chars.skip_spaces();
        chars.next();
        let step = match a {
            Some(x) => x,
            None => 1,
        };
        OrdinalPattern::tail(chars, backward, step)
    }

    /// Whether the pattern selects position `position`.
    pub fn matches(&self, position: usize) -> (r: bool)
        ensures
            r == ordinal_matches(*self, position as int),
    {
        let (backward, step, offset): (bool, usize, usize) = match self {
            OrdinalPattern::Formula { backward, a, b } => (*backward, *a, match b { Some(x) => *x, None => 0 }),
            OrdinalPattern::Even => (false, 2, 0),
            OrdinalPattern::Odd => (false, 2, 1),
            OrdinalPattern::N(p) => {
                return *p == position;
            }
        };
        let d: usize = if backward {
            if offset < position {
                return false;
            }
            offset - position
        } else {
            if position < offset {
                return false;
            }
            position - offset
        };
        if step == 0 {
            d == 0
        } else {
            d % step == 0
        }
    }

    pub fn push_text(&self, out: &mut Vec<char>)
        ensures
            final(out)@ == old(out)@ + ordinal_text(*self),
    {
        match self {
            OrdinalPattern::Even => push_str(out, "even"),
            OrdinalPattern::Odd => push_str(out, "odd"),
            OrdinalPattern::N(n) => push_usize(out, *n),
            OrdinalPattern::Formula { backward, a, b } => {
                if *backward {
                    push_str(out, "-");
                }
                if *a > 1 {
                    push_usize(out, *a);
                }
                push_str(out, "n");
                match b {
                    Some(x) => {
                        push_str(out, "+");
                        push_usize(out, *x);
                    }
                    None => {}
                }
                proof {
                    assert(final(out)@ =~= old(out)@ + ordinal_text(*self));
                }
            }
        }
    }

    pub fn to_string(&self) -> (r: String)
        ensures
            r@ == ordinal_text(*self),
    {
        let mut v: Vec<char> = Vec::new();
        self.push_text(&mut v);
        string_from_chars(v.as_slice())
    }
}

/// The step and the offset of a formula: `a·n + b` reaches `b + a·k` (`b - a·k` when
/// backward) for `k = 0, 1, 2, ...`.
proof fn lemma_reach(d: int, a: int)
    requires
        a > 0,
    ensures
        (d >= 0 && d % a == 0) <==> (exists|k: int| 0 <= k && #[trigger] (a * k) == d),
{
    if d >= 0 && d % a == 0 {
        vstd::arithmetic::div_mod::lemma_fundamental_div_mod(d, a);
        let k = d / a;
        assert(a * k == d);
        assert(0 <= k) by (nonlinear_arith)
            requires
                a > 0,
                d >= 0,
                a * k == d,
        ;
    }
    if exists|k: int| 0 <= k && #[trigger] (a * k) == d {
        let k = choose|k: int| 0 <= k && #[trigger] (a * k) == d;
        vstd::arithmetic::div_mod::lemma_mod_multiples_basic(k, a);
        assert(k * a == a * k) by (nonlinear_arith);
        assert(d >= 0) by (nonlinear_arith)
            requires
                a > 0,
                k >= 0,
                a * k == d,
        ;
    }
}

/// Which positions each ordinal selects, counted from 1: `N(p)` position `p` alone;
/// `even` the positions `2k` and `odd` the positions `2k + 1`; a formula `a·n + b` with a
/// step `a > 0` the positions `b + a·k`, and `-a·n + b` the positions `b - a·k`, for
/// `k >= 0`; a formula with a step of 0 the offset `b` alone.
pub proof fn lemma_ordinal_positions(o: OrdinalPattern, pos: int)
    ensures
        o matches OrdinalPattern::N(p) ==> (ordinal_matches(o, pos) <==> pos == p),
        o is Even ==> (ordinal_matches(o, pos) <==> exists|k: int| 0 <= k && #[trigger] (2 * k) == pos),
        o is Odd ==> (ordinal_matches(o, pos) <==> exists|k: int| 0 <= k && #[trigger] (2 * k) == pos - 1),
        o matches OrdinalPattern::Formula { backward, a, b } ==> {
            let off: int = match b { Some(x) => x as int, None => 0int };
            &&& a > 0 && !backward ==> (ordinal_matches(o, pos) <==> exists|k: int| 0 <= k && #[trigger] (a * k) == pos - off)
            &&& a > 0 && backward ==> (ordinal_matches(o, pos) <==> exists|k: int| 0 <= k && #[trigger] (a * k) == off - pos)
            &&& a == 0 ==> (ordinal_matches(o, pos) <==> pos == off)
        },
{
    match o {
        OrdinalPattern::N(_) => {}
        OrdinalPattern::Even => {
            lemma_reach(pos, 2);
        }
        OrdinalPattern::Odd => {
            lemma_reach(pos - 1, 2);
        }
        OrdinalPattern::Formula { backward, a, b } => {
            let off: int = match b { Some(x) => x as int, None => 0int };
            if a > 0 {
                if backward {
                    lemma_reach(off - pos, a as int);
                } else {
                    lemma_reach(pos - off, a as int);
                }
            }
        }
    }
}

} // verus!
