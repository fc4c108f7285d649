//! Unsigned decimal integers.
use vstd::prelude::*;

use crate::css::chars::{cur, CssChars};
use crate::css::error::{IntegerPatternError, IntegerPatternErrorV, KindV, PErr, ParseError};
use crate::text::{ascii_digit, is_ascii_digit, string_from_chars, push_str};

verus! {

/// Position of the first non-digit at or after `q`, or the input's length.
pub open spec fn digits_end(s: Seq<char>, q: int) -> int
    decreases s.len() - q,
{
    if q < 0 || q >= s.len() || !is_ascii_digit(s[q]) {
        if q < 0 { 0 } else if q > s.len() { s.len() as int } else { q }
    } else {
        digits_end(s, q + 1)
    }
}

/// The value of the decimal digits `d`.
pub open spec fn digits_value(d: Seq<char>) -> nat
    decreases d.len(),
{
    if d.len() == 0 {
        0
    } else {
        digits_value(d.drop_last()) * 10 + ((d.last() as u32 - '0' as u32) as nat)
    }
}

/// The message that an integer too large for `usize` reports.
pub open spec fn too_large_message() -> Seq<char> {
    "number too large to fit in target type"@
}

/// Reading an integer at `p`: nothing unless the current character is a digit; else the
/// value of the run of digits, the cursor on the first character after it; an error at
/// the first digit when the value does not fit in `usize`.
pub open spec fn spec_integer(s: Seq<char>, p: int) -> (Result<Option<usize>, PErr>, int) {
    match cur(s, p) {
        None => (Ok(None), p),
        Some((i, c)) => {
            if !is_ascii_digit(c) {
                (Ok(None), p)
            } else {
                let e = digits_end(s, p);
                let v = digits_value(s.subrange(p, e));
                if v <= usize::MAX {
                    (Ok(Some(v as usize)), e)
                } else {
                    (Err(PErr::Parsing(KindV::IntegerPattern(IntegerPatternErrorV::ParseFail(i, too_large_message())))), e)
                }
            }
        }
    }
}

/// The result of an integer read agrees with its description.
pub open spec fn int_res_matches(r: Result<Option<usize>, ParseError>, sr: Result<Option<usize>, PErr>) -> bool {
    match (r, sr) {
        (Ok(x), Ok(y)) => x == y,
        (Err(e), Err(f)) => e@ == f,
        _ => false,
    }
}

proof fn lemma_digits_end(s: Seq<char>, q: int)
    requires
        0 <= q <= s.len(),
    ensures
        q <= digits_end(s, q) <= s.len(),
        forall|k: int| q <= k < digits_end(s, q) ==> is_ascii_digit(#[trigger] s[k]),
        digits_end(s, q) < s.len() ==> !is_ascii_digit(s[digits_end(s, q)]),
    decreases s.len() - q,
{
    if q < s.len() && is_ascii_digit(s[q]) {
        lemma_digits_end(s, q + 1);
    }
}

/// Unsigned decimal integers.
pub struct IntegerPattern;

impl IntegerPattern {
    pub fn from_chars(chars: &mut CssChars) -> (r: Result<Option<usize>, ParseError>)
        ensures
            final(chars).input() == old(chars).input(),
            final(chars).pos() == spec_integer(old(chars).input(), old(chars).pos()).1,
            int_res_matches(r, spec_integer(old(chars).input(), old(chars).pos()).0),
    {
        let ghost s = chars.input();
        let ghost p = chars.pos();
        let Some((index, c)) = chars.current() else {
            return Ok(None);
        };
        if !ascii_digit(c) {
            return Ok(None);
        }
        let mut value: usize = (c as u32 - '0' as u32) as usize;
        let mut overflow = false;
        proof {
            CssChars::lemma_pos_bound(chars);
            lemma_digits_end(s, p);
            assert(s.subrange(p, p + 1).drop_last() =~= Seq::<char>::empty());
            assert(s.subrange(p, p + 1).last() == c);
            assert(digits_value(Seq::<char>::empty()) == 0);
            assert(digits_value(s.subrange(p, p + 1)) == value);
        }
        loop
            invariant_except_break
                chars.input() == s,
                0 <= p <= chars.pos() < digits_end(s, p) <= s.len(),
                !overflow ==> value == digits_value(s.subrange(p, chars.pos() + 1)),
                overflow ==> digits_value(s.subrange(p, chars.pos() + 1)) > usize::MAX,
                forall|k: int| p <= k < digits_end(s, p) ==> is_ascii_digit(#[trigger] s[k]),
                digits_end(s, p) < s.len() ==> !is_ascii_digit(s[digits_end(s, p)]),
            ensures
                chars.input() == s,
                chars.pos() == digits_end(s, p),
                !overflow ==> value == digits_value(s.subrange(p, chars.pos())),
                overflow ==> digits_value(s.subrange(p, chars.pos())) > usize::MAX,
            decreases s.len() - chars.pos(),
        {
            let ghost before = chars.pos();
            match chars.next() {
                None => {
                    break;
                }
                Some((_i, d)) => {
                    if !ascii_digit(d) {
                        break;
                    }
                    let ghost q = chars.pos() + 1;
                    proof {
                        assert(s.subrange(p, q).drop_last() =~= s.subrange(p, before + 1));
                        assert(s.subrange(p, q).last() == d);
                    }
                    let dv: usize = (d as u32 - '0' as u32) as usize;
                    let ghost old_v = digits_value(s.subrange(p, before + 1));
                    assert(digits_value(s.subrange(p, q)) == old_v * 10 + dv);
                    if !overflow {
                        if value > (usize::MAX - dv) / 10 {
                            assert(value * 10 + dv > usize::MAX) by (nonlinear_arith)
                                requires value > (usize::MAX - dv) / 10, dv < 10;
                            overflow = true;
                        } else {
                            assert(value * 10 + dv <= usize::MAX) by (nonlinear_arith)
                                requires value <= (usize::MAX - dv) / 10, dv < 10;
                            value = value * 10 + dv;
                        }
                    } else {
                        assert(old_v * 10 + dv > usize::MAX) by (nonlinear_arith)
                            requires old_v > usize::MAX;
                    }
                }
            }
        }
        if overflow {
            let mut msg: Vec<char> = Vec::new();
            push_str(&mut msg, "number too large to fit in target type");
            return Err(IntegerPatternError::ParseFail(index, string_from_chars(msg.as_slice())).into_parse_error());
        }
        Ok(Some(value))
    }
}

} // verus!
