//! The comparison between an attribute selector's value and an element's value.
use vstd::prelude::*;

use crate::css::chars::{cur, CssChars};
use crate::css::error::{AttributeOperatorError, KindV, PErr, ParseError};
use crate::css::patterns::text_pattern::res_matches;
use crate::text::{byte_offset, chars_of, is_white, lemma_offset_mono, push_str, white};

verus! {

/// How an attribute selector's value is compared with an element's value.
#[derive(Debug, PartialEq, Eq, Clone, Copy, Structural)]
pub enum AttributeOperator {
    /// `=`
    Exact,
    /// `^=`
    Starts,
    /// `*=`
    Includes,
    /// `$=`
    Ends,
    /// `~=`
    List,
    /// `|=`
    DashMatch,
}

impl View for AttributeOperator {
    type V = AttributeOperator;

    open spec fn view(&self) -> AttributeOperator {
        *self
    }
}

/// The operator's source form.
pub open spec fn operator_text(op: AttributeOperator) -> Seq<char> {
    match op {
        AttributeOperator::Exact => "="@,
        AttributeOperator::Starts => "^="@,
        AttributeOperator::Includes => "*="@,
        AttributeOperator::Ends => "$="@,
        AttributeOperator::List => "~="@,
        AttributeOperator::DashMatch => "|="@,
    }
}

/// Whether `pat` occurs in `v` at position `i`.
pub open spec fn occurs_at(v: Seq<char>, i: int, pat: Seq<char>) -> bool {
    0 <= i && i + pat.len() <= v.len() && v.subrange(i, i + pat.len()) == pat
}

/// Whether `v` begins with `pat`.
pub open spec fn starts_with(v: Seq<char>, pat: Seq<char>) -> bool {
    occurs_at(v, 0, pat)
}

/// Whether `v` ends with `pat`.
pub open spec fn ends_with(v: Seq<char>, pat: Seq<char>) -> bool {
    occurs_at(v, v.len() - pat.len(), pat)
}

/// Whether `pat` occurs anywhere in `v`.
pub open spec fn contains(v: Seq<char>, pat: Seq<char>) -> bool {
    exists|i: int| #[trigger] occurs_at(v, i, pat)
}

/// Whether `pat` is one of the whitespace-separated words of `v`.
pub open spec fn has_word(v: Seq<char>, pat: Seq<char>) -> bool {
    &&& pat.len() > 0
    &&& forall|k: int| 0 <= k < pat.len() ==> !is_white(#[trigger] pat[k])
    &&& exists|i: int| #[trigger] occurs_at(v, i, pat)
        && (i == 0 || is_white(v[i - 1]))
        && (i + pat.len() == v.len() || is_white(v[i + pat.len()]))
}

/// Whether the operator accepts value `v` for the selector's value `pat`.
pub open spec fn op_matches(op: AttributeOperator, pat: Seq<char>, v: Seq<char>) -> bool {
    match op {
        AttributeOperator::Exact => pat == v,
        AttributeOperator::Starts => starts_with(v, pat),
        AttributeOperator::Includes => contains(v, pat),
        AttributeOperator::Ends => ends_with(v, pat),
        AttributeOperator::List => has_word(v, pat),
        AttributeOperator::DashMatch => v == pat || starts_with(v, pat.push('-')),
    }
}

/// Reading an operator at `p`: nothing at the end or at `]`; `=`; or one of `^ * $ ~ |`
/// followed by `=`.
pub open spec fn spec_operator(s: Seq<char>, p: int) -> (Result<Option<AttributeOperator>, PErr>, int) {
    match cur(s, p) {
        None => (Ok(None), p),
        Some((i, c)) => {
            if c == ']' {
                (Ok(None), p)
            } else if c == '=' {
                (Ok(Some(AttributeOperator::Exact)), p + 1)
            } else if c != '^' && c != '*' && c != '$' && c != '~' && c != '|' {
                (Err(PErr::Parsing(KindV::AttributeOperator(AttributeOperatorError::InvalidAttributeOperator(i)))), p)
            } else if p + 1 >= s.len() {
                (Err(PErr::Parsing(KindV::AttributeOperator(AttributeOperatorError::MissingEqualSign((i + 1) as usize)))), p + 1)
            } else if s[p + 1] != '=' {
                (Err(PErr::Parsing(KindV::AttributeOperator(AttributeOperatorError::MissingEqualSign(byte_offset(s, p + 1) as usize)))), p + 1)
            } else {
                (Ok(Some(
                    if c == '^' { AttributeOperator::Starts }
                    else if c == '*' { AttributeOperator::Includes }
                    else if c == '$' { AttributeOperator::Ends }
                    else if c == '~' { AttributeOperator::List }
                    else { AttributeOperator::DashMatch }
                )), p + 2)
            }
        }
    }
}

/// Whether `pat` occurs in `v` at position `i`.
pub fn occurs_at_exec(v: &Vec<char>, i: usize, pat: &Vec<char>) -> (r: bool)
    ensures
        r == occurs_at(v@, i as int, pat@),
{
    if i > v.len() || pat.len() > v.len() - i {
        return false;
    }
    let vl = v.len();
    let mut k: usize = 0;
    while k < pat.len()
        invariant
            vl == v@.len(),
            i + pat@.len() <= v@.len(),
            0 <= k <= pat@.len(),
            forall|j: int| 0 <= j < k ==> v@[i + j] == pat@[j],
        decreases pat@.len() - k,
    {
        if v[i + k] != pat[k] {
            assert(v@.subrange(i as int, i + pat@.len())[k as int] != pat@[k as int]);
            return false;
        }
        k = k + 1;
    }
    assert(v@.subrange(i as int, i + pat@.len()) =~= pat@);
    true
}

/// Whether `pat` occurs anywhere in `v`.
pub fn contains_exec(v: &Vec<char>, pat: &Vec<char>) -> (r: bool)
    ensures
        r == contains(v@, pat@),
{
    if pat.len() > v.len() {
        assert forall|i: int| !occurs_at(v@, i, pat@) by {}
        return false;
    }
    let limit = v.len() - pat.len();
    let mut i: usize = 0;
    loop
        invariant_except_break
            pat@.len() <= v@.len(),
            limit == v@.len() - pat@.len(),
            i <= limit,
            forall|j: int| 0 <= j < i ==> !#[trigger] occurs_at(v@, j, pat@),
        ensures
            forall|j: int| 0 <= j <= limit ==> !#[trigger] occurs_at(v@, j, pat@),
            limit == v@.len() - pat@.len(),
        decreases limit - i,
    {
        if occurs_at_exec(v, i, pat) {
            return true;
        }
        if i == limit {
            break;
        }
        i = i + 1;
    }
    assert forall|j: int| !occurs_at(v@, j, pat@) by {
        if 0 <= j <= limit {
        }
    }
    false
}

/// Whether no character of `v` is whitespace.
fn no_white(v: &Vec<char>) -> (r: bool)
    ensures
        r == forall|k: int| 0 <= k < v@.len() ==> !is_white(#[trigger] v@[k]),
{
    let mut k: usize = 0;
    while k < v.len()
        invariant
            0 <= k <= v@.len(),
            forall|j: int| 0 <= j < k ==> !is_white(#[trigger] v@[j]),
        decreases v@.len() - k,
    {
        if white(v[k]) {
            return false;
        }
        k = k + 1;
    }
    true
}

/// Whether `pat` is one of the whitespace-separated words of `v`.
pub fn has_word_exec(v: &Vec<char>, pat: &Vec<char>) -> (r: bool)
    ensures
        r == has_word(v@, pat@),
{
    if pat.len() == 0 || pat.len() > v.len() || !no_white(pat) {
        return false;
    }
    let n = pat.len();
    let vl = v.len();
    let limit = v.len() - n;
    let mut i: usize = 0;
    loop
        invariant_except_break
            vl == v@.len(),
            n == pat@.len(),
            0 < n <= v@.len(),
            limit == v@.len() - n,
            i <= limit,
            forall|k: int| 0 <= k < pat@.len() ==> !is_white(#[trigger] pat@[k]),
            forall|j: int| 0 <= j < i ==> !(#[trigger] occurs_at(v@, j, pat@)
                && (j == 0 || is_white(v@[j - 1]))
                && (j + n == v@.len() || is_white(v@[j + n]))),
        ensures
            forall|j: int| 0 <= j <= limit ==> !(#[trigger] occurs_at(v@, j, pat@)
                && (j == 0 || is_white(v@[j - 1]))
                && (j + n == v@.len() || is_white(v@[j + n]))),
            limit == v@.len() - n,
            n == pat@.len(),
        decreases limit - i,
    {
        if occurs_at_exec(v, i, pat) && (i == 0 || white(v[i - 1])) && (i + n == v.len() || white(v[i + n])) {
            assert(occurs_at(v@, i as int, pat@)
                && (i == 0 || is_white(v@[i - 1]))
                && (i + n == v@.len() || is_white(v@[i + n])));
            return true;
        }
        if i == limit {
            break;
        }
        i = i + 1;
    }
    false
}

impl AttributeOperator {
    pub fn from_chars(chars: &mut CssChars) -> (r: Result<Option<AttributeOperator>, ParseError>)
        ensures
            final(chars).input() == old(chars).input(),
            final(chars).pos() == spec_operator(old(chars).input(), old(chars).pos()).1,
            res_matches(r, spec_operator(old(chars).input(), old(chars).pos()).0),
    {
        let ghost s = chars.input();
        let ghost p = chars.pos();
        let Some((start_index, start_char)) = chars.current() else {
            return Ok(None);
        };
        if start_char == ']' {
            return Ok(None);
        }
        if start_char == '=' {
            chars.next();
            return Ok(Some(AttributeOperator::Exact));
        }
        let operator = match start_char {
            '^' => AttributeOperator::Starts,
            '*' => AttributeOperator::Includes,
            '$' => AttributeOperator::Ends,
            '~' => AttributeOperator::List,
            '|' => AttributeOperator::DashMatch,
            _ => {
                return Err(AttributeOperatorError::InvalidAttributeOperator(start_index).into_parse_error());
            }
        };
        proof {
            CssChars::lemma_pos_bound(chars);
            lemma_offset_mono(s, p, s.len() as int);
        }
        let Some((next_index, next_char)) = chars.next() else {
            return Err(AttributeOperatorError::MissingEqualSign(start_index + 1).into_parse_error());
        };
        if next_char != '=' {
            return Err(AttributeOperatorError::MissingEqualSign(next_index).into_parse_error());
        }
        chars.next();
        Ok(Some(operator))
    }

    /// Whether `value` satisfies this operator for the selector's value `pattern`.
    pub fn matches(&self, pattern: &str, value: &str) -> (r: bool)
        ensures
            r == op_matches(*self, pattern@, value@),
    {
        let pat = chars_of(pattern);
        let v = chars_of(value);
        self.matches_chars(&pat, &v)
    }

    /// Whether `value` contains `pattern`.
    pub fn matches_includes(&self, pattern: &str, value: &str) -> (r: bool)
        ensures
            r == contains(value@, pattern@),
    {
        let pat = chars_of(pattern);
        let v = chars_of(value);
        contains_exec(&v, &pat)
    }

    /// [`matches`](Self::matches) on character vectors.
    pub fn matches_chars(&self, pat: &Vec<char>, v: &Vec<char>) -> (r: bool)
        ensures
            r == op_matches(*self, pat@, v@),
    {
        match self {
            AttributeOperator::Exact => {
                let r = pat.len() == v.len() && occurs_at_exec(v, 0, pat);
                proof {
                    assert(v@.subrange(0, v@.len() as int) =~= v@);
                }
                r
            }
            AttributeOperator::Starts => occurs_at_exec(v, 0, pat),
            AttributeOperator::Includes => {
                let r = contains_exec(v, pat);
                r
            }
            AttributeOperator::Ends => {
                if pat.len() > v.len() {
                    false
                } else {
                    occurs_at_exec(v, v.len() - pat.len(), pat)
                }
            }
            AttributeOperator::List => has_word_exec(v, pat),
            AttributeOperator::DashMatch => {
                let exact = pat.len() == v.len() && occurs_at_exec(v, 0, pat);
                proof {
                    assert(v@.subrange(0, v@.len() as int) =~= v@);
                }
                if exact {
                    return true;
                }
                let r = occurs_at_exec(v, 0, pat) && pat.len() < v.len() && v[pat.len()] == '-';
                proof {
                    let d = pat@.push('-');
                    if r {
                        assert(v@.subrange(0, d.len() as int) =~= d);
                    } else if starts_with(v@, d) {
                        assert(d.drop_last() =~= pat@);
                        assert(v@.subrange(0, pat@.len() as int) =~= v@.subrange(0, d.len() as int).drop_last());
                        assert(occurs_at(v@, 0, pat@));
                        assert(v@.subrange(0, d.len() as int)[pat@.len() as int] == '-');
                    }
                }
                r
            }
        }
    }

    pub fn push_text(&self, out: &mut Vec<char>)
        ensures
            final(out)@ == old(out)@ + operator_text(*self),
    {
        match self {
            AttributeOperator::Exact => push_str(out, "="),
            AttributeOperator::Starts => push_str(out, "^="),
            AttributeOperator::Includes => push_str(out, "*="),
            AttributeOperator::Ends => push_str(out, "$="),
            AttributeOperator::List => push_str(out, "~="),
            AttributeOperator::DashMatch => push_str(out, "|="),
        }
    }
}

proof fn lemma_occurs_split(v: Seq<char>, i: int, pat: Seq<char>)
    ensures
        occurs_at(v, i, pat) <==> (0 <= i && i + pat.len() <= v.len()
            && v == v.subrange(0, i) + pat + v.subrange(i + pat.len(), v.len() as int)),
{
    if occurs_at(v, i, pat) {
        assert(v =~= v.subrange(0, i) + pat + v.subrange(i + pat.len(), v.len() as int));
    }
    if 0 <= i && i + pat.len() <= v.len() && v == v.subrange(0, i) + pat + v.subrange(i + pat.len(), v.len() as int) {
        assert(v.subrange(i, i + pat.len()) =~= pat);
    }
}

proof fn lemma_occurs_concat(l: Seq<char>, pat: Seq<char>, r: Seq<char>)
    ensures
        occurs_at(l + pat + r, l.len() as int, pat),
{
    assert((l + pat + r).subrange(l.len() as int, (l.len() + pat.len()) as int) =~= pat);
}

/// What each operator asks of an element's value `v` for a selector value `pat`, in
/// terms of how `v` is put together: `=` that `v` is `pat`; `^=` that `v` is `pat`
/// followed by something; `$=` that it is something followed by `pat`; `*=` that `pat`
/// stands somewhere inside it; `|=` that it is `pat` or `pat-` followed by something;
/// `~=` that `pat` is a non-empty word without white space standing in `v` between white
/// space or the ends.
pub proof fn lemma_operator_meaning(op: AttributeOperator, pat: Seq<char>, v: Seq<char>)
    ensures
        op == AttributeOperator::Exact ==> (op_matches(op, pat, v) <==> v == pat),
        op == AttributeOperator::Starts ==> (op_matches(op, pat, v) <==> exists|r: Seq<char>| v == #[trigger] (pat + r)),
        op == AttributeOperator::Ends ==> (op_matches(op, pat, v) <==> exists|l: Seq<char>| v == #[trigger] (l + pat)),
        op == AttributeOperator::Includes ==> (op_matches(op, pat, v)
            <==> exists|l: Seq<char>, r: Seq<char>| v == #[trigger] (l + pat + r)),
        op == AttributeOperator::DashMatch ==> (op_matches(op, pat, v)
            <==> (v == pat || exists|r: Seq<char>| v == #[trigger] (pat.push('-') + r))),
        op == AttributeOperator::List ==> (op_matches(op, pat, v) <==> {
            &&& pat.len() > 0
            &&& forall|k: int| 0 <= k < pat.len() ==> !is_white(#[trigger] pat[k])
            &&& exists|l: Seq<char>, r: Seq<char>| v == #[trigger] (l + pat + r)
                && (l.len() == 0 || is_white(l.last()))
                && (r.len() == 0 || is_white(r[0]))
        }),
{
    match op {
        AttributeOperator::Exact => {}
        AttributeOperator::Starts => {
            if op_matches(op, pat, v) {
                lemma_occurs_split(v, 0, pat);
                let r = v.subrange(pat.len() as int, v.len() as int);
                assert(v =~= pat + r);
            }
            if exists|r: Seq<char>| v == #[trigger] (pat + r) {
                let r = choose|r: Seq<char>| v == #[trigger] (pat + r);
                lemma_occurs_concat(Seq::empty(), pat, r);
                assert(Seq::<char>::empty() + pat + r =~= v);
            }
        }
        AttributeOperator::Ends => {
            if op_matches(op, pat, v) {
                lemma_occurs_split(v, v.len() - pat.len(), pat);
                let l = v.subrange(0, v.len() - pat.len());
                assert(v =~= l + pat);
            }
            if exists|l: Seq<char>| v == #[trigger] (l + pat) {
                let l = choose|l: Seq<char>| v == #[trigger] (l + pat);
                lemma_occurs_concat(l, pat, Seq::empty());
                assert(l + pat + Seq::<char>::empty() =~= v);
            }
        }
        AttributeOperator::Includes => {
            if op_matches(op, pat, v) {
                let i = choose|i: int| #[trigger] occurs_at(v, i, pat);
                lemma_occurs_split(v, i, pat);
                let l = v.subrange(0, i);
                let r = v.subrange(i + pat.len(), v.len() as int);
                assert(v == l + pat + r);
            }
            if exists|l: Seq<char>, r: Seq<char>| v == #[trigger] (l + pat + r) {
                let (l, r) = choose|l: Seq<char>, r: Seq<char>| v == #[trigger] (l + pat + r);
                lemma_occurs_concat(l, pat, r);
            }
        }
        AttributeOperator::DashMatch => {
            let pd = pat.push('-');
            if starts_with(v, pd) {
                lemma_occurs_split(v, 0, pd);
                let r = v.subrange(pd.len() as int, v.len() as int);
                assert(v =~= pd + r);
            }
            if exists|r: Seq<char>| v == #[trigger] (pd + r) {
                let r = choose|r: Seq<char>| v == #[trigger] (pd + r);
                lemma_occurs_concat(Seq::empty(), pd, r);
                assert(Seq::<char>::empty() + pd + r =~= v);
            }
        }
        AttributeOperator::List => {
            if op_matches(op, pat, v) {
                let i = choose|i: int| #[trigger] occurs_at(v, i, pat)
                    && (i == 0 || is_white(v[i - 1]))
                    && (i + pat.len() == v.len() || is_white(v[i + pat.len()]));
                lemma_occurs_split(v, i, pat);
                let l = v.subrange(0, i);
                let r = v.subrange(i + pat.len(), v.len() as int);
                assert(v == l + pat + r);
                if l.len() > 0 {
                    assert(l.last() == v[i - 1]);
                }
                if r.len() > 0 {
                    assert(r[0] == v[i + pat.len()]);
                }
            }
            if pat.len() > 0 && (forall|k: int| 0 <= k < pat.len() ==> !is_white(#[trigger] pat[k]))
                && exists|l: Seq<char>, r: Seq<char>| v == #[trigger] (l + pat + r)
                    && (l.len() == 0 || is_white(l.last()))
                    && (r.len() == 0 || is_white(r[0])) {
                let (l, r) = choose|l: Seq<char>, r: Seq<char>| v == #[trigger] (l + pat + r)
                    && (l.len() == 0 || is_white(l.last()))
                    && (r.len() == 0 || is_white(r[0]));
                let i = l.len() as int;
                lemma_occurs_concat(l, pat, r);
                if i > 0 {
                    assert(v[i - 1] == l.last());
                }
                if i + pat.len() < v.len() {
                    assert(v[i + pat.len()] == r[0]);
                }
                assert(occurs_at(v, i, pat) && (i == 0 || is_white(v[i - 1]))
                    && (i + pat.len() == v.len() || is_white(v[i + pat.len()])));
            }
        }
    }
}

} // verus!
