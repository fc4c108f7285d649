//! A readable account of a parse error: the source with the failing positions
//! underlined, then a tree of the errors from the outermost rule inwards.
use vstd::prelude::*;

use crate::css::error::{kind_index, kind_message, PErr, ParseError};
use crate::text::{byte_offset, char_indices, char_width, push_chars, string_from_chars};

verus! {

/// The errors of `e` from the outermost rule inwards: position and message of each.
pub open spec fn errs(e: PErr) -> Seq<(int, Seq<char>)>
    decreases e,
{
    match e {
        PErr::Parsing(k) => seq![(kind_index(k) as int, kind_message(k))],
        PErr::Context(k, inner) => seq![(kind_index(k) as int, kind_message(k))] + errs(*inner),
        PErr::EmptySelector => Seq::empty(),
    }
}

/// The index of the first character of `s` from the `k`-th on that starts at byte `b` or
/// later.
pub open spec fn char_at_byte(s: Seq<char>, b: int, k: int) -> int
    decreases s.len() - k,
{
    if k < 0 || k >= s.len() || byte_offset(s, k) >= b {
        k
    } else {
        char_at_byte(s, b, k + 1)
    }
}

/// Whether byte `b` of `s` is where a one-byte character starts.
pub open spec fn ascii_at(s: Seq<char>, b: int) -> bool {
    let k = char_at_byte(s, b, 0);
    k < s.len() && byte_offset(s, k) == b && char_width(s[k]) == 1
}

/// Whether each error position that the underlining takes, from the `j`-th error on
/// after byte `last`, is where a one-byte character starts.
pub open spec fn underline_ok(s: Seq<char>, es: Seq<(int, Seq<char>)>, j: int, last: int) -> bool
    decreases es.len() - j,
{
    if j < 0 || j >= es.len() {
        true
    } else if last <= es[j].0 {
        ascii_at(s, es[j].0) && underline_ok(s, es, j + 1, es[j].0 + 1)
    } else {
        underline_ok(s, es, j + 1, last)
    }
}

/// The source from byte `last` on, the character at each error position from the `j`-th
/// error on underlined (errors at or before an underlined one are passed over), and a
/// line end.
pub open spec fn underline(s: Seq<char>, es: Seq<(int, Seq<char>)>, j: int, last: int) -> Seq<char>
    decreases es.len() - j,
{
    if j < 0 || j >= es.len() {
        s.subrange(char_at_byte(s, last, 0), s.len() as int) + seq!['\n']
    } else if last <= es[j].0 {
        let k = char_at_byte(s, es[j].0, 0);
        s.subrange(char_at_byte(s, last, 0), k) + seq!['\u{1b}', '[', '4', 'm', s[k], '\u{1b}', '[', '0', 'm']
            + underline(s, es, j + 1, es[j].0 + 1)
    } else {
        underline(s, es, j + 1, last)
    }
}

/// `a - b`, or 0 where `b` is larger.
pub open spec fn sat(a: int, b: int) -> int {
    if a > b { a - b } else { 0 }
}

/// `n` copies of `c`.
pub open spec fn reps(c: char, n: int) -> Seq<char> {
    Seq::new(n as nat, |_i: int| c)
}

/// One error `h` added to a tree line: a bar where the line passes it, and where it is
/// the line's own error a corner, a rule to the end of the source and its message.
pub open spec fn line_step(line: Seq<char>, last: Option<int>, h: (int, Seq<char>), own: bool, blen: int) -> Seq<char> {
    match last {
        Some(l) => {
            let spaces = reps(' ', sat(h.0, l + 1));
            if own {
                let pre = if l == h.0 {
                    (if line.len() > 0 { line.drop_last() } else { line }).push('├')
                } else {
                    line + spaces + seq!['└']
                };
                pre + reps('─', sat(blen, h.0)) + seq![' '] + h.1
            } else if h.0 > l {
                line + spaces + seq!['│']
            } else {
                line
            }
        },
        None => if own {
            line + seq!['└'] + reps('─', sat(blen, h.0)) + seq![' '] + h.1
        } else {
            line + seq!['│']
        },
    }
}

/// The tree line for the error at position `v`, from the `i`-th error on.
pub open spec fn line_from(
    es: Seq<(int, Seq<char>)>,
    v: int,
    own: int,
    i: int,
    line: Seq<char>,
    last: Option<int>,
    blen: int,
) -> Seq<char>
    decreases es.len() - i,
{
    if i < 0 || i >= es.len() {
        line
    } else if es[i].0 <= v {
        line_from(es, v, own, i + 1, line_step(line, last, es[i], i == own, blen), Some(es[i].0), blen)
    } else {
        line_from(es, v, own, i + 1, line, last, blen)
    }
}

/// The tree lines, innermost error first, from the `t`-th on.
pub open spec fn tree_lines(es: Seq<(int, Seq<char>)>, t: int, blen: int) -> Seq<char>
    decreases es.len() - t,
{
    if t < 0 || t >= es.len() {
        Seq::empty()
    } else {
        let n = es.len() as int;
        line_from(es, es[n - 1 - t].0, n - t - 1, 0, Seq::empty(), None, blen) + seq!['\n'] + tree_lines(es, t + 1, blen)
    }
}

/// The account of error `e` in source `s`.
pub open spec fn diagnosis(s: Seq<char>, e: PErr) -> Seq<char> {
    underline(s, errs(e), 0, 0) + tree_lines(errs(e), 0, byte_offset(s, s.len() as int) as int)
}

/// Appends `n` copies of `c`.
fn push_rep(out: &mut Vec<char>, c: char, n: usize)
    ensures
        final(out)@ == old(out)@ + reps(c, n as int),
{
    let mut i: usize = 0;
    while i < n
        invariant
            0 <= i <= n,
            out@ == old(out)@ + reps(c, i as int),
        decreases n - i,
    {
        out.push(c);
        i = i + 1;
        assert(out@ =~= old(out)@ + reps(c, i as int));
    }
}

/// The byte width of `c`.
fn width_of(c: char) -> (r: usize)
    ensures
        r == char_width(c),
{
    let v = c as u32;
    if v < 0x80 {
        1
    } else if v < 0x800 {
        2
    } else if v < 0x10000 {
        3
    } else {
        4
    }
}

impl ParseError {
    /// The errors from the outermost rule inwards: position and message of each.
    fn error_list(&self) -> (r: Vec<(usize, Vec<char>)>)
        ensures
            r@.map_values(|x: (usize, Vec<char>)| (x.0 as int, x.1@)) == errs(self@),
        decreases self,
    {
        match self {
            ParseError::Parsing(k) => {
                let mut m: Vec<char> = Vec::new();
                k.push_message(&mut m);
                let mut v: Vec<(usize, Vec<char>)> = Vec::new();
                v.push((k.index(), m));
                proof {
                    assert(v@.map_values(|x: (usize, Vec<char>)| (x.0 as int, x.1@)) =~= errs(self@));
                }
                v
            }
            ParseError::Context(k, inner) => {
                let mut m: Vec<char> = Vec::new();
                k.push_message(&mut m);
                let rest = inner.error_list();
                let ki = k.index();
                let ghost m0 = m@;
                let mut v: Vec<(usize, Vec<char>)> = Vec::new();
                v.push((ki, m));
                let mut i: usize = 0;
                while i < rest.len()
                    invariant
                        0 <= i <= rest@.len(),
                        v@.len() == i + 1,
                        v@[0].0 == ki,
                        v@[0].1@ == m0,
                        forall|j: int| 1 <= j <= i ==> (#[trigger] v@[j]).0 == rest@[j - 1].0 && v@[j].1@ == rest@[j - 1].1@,
                    decreases rest@.len() - i,
                {
                    let mut c: Vec<char> = Vec::new();
                    push_chars(&mut c, rest[i].1.as_slice());
                    assert(c@ =~= rest@[i as int].1@);
                    v.push((rest[i].0, c));
                    i = i + 1;
                }
                proof {
                    let mv = v@.map_values(|x: (usize, Vec<char>)| (x.0 as int, x.1@));
                    let mr = rest@.map_values(|x: (usize, Vec<char>)| (x.0 as int, x.1@));
                    assert forall|j: int| 0 <= j < mv.len() implies #[trigger] mv[j] == (seq![(ki as int, m0)] + mr)[j] by {
                        if j > 0 {
                            assert(v@[j].1@ == rest@[j - 1].1@);
                        }
                    }
                    assert(mv =~= seq![(ki as int, m0)] + mr);
                }
                v
            }
            ParseError::EmptySelector => {
                let v: Vec<(usize, Vec<char>)> = Vec::new();
                proof {
                    assert(v@.map_values(|x: (usize, Vec<char>)| (x.0 as int, x.1@)) =~= errs(self@));
                }
                v
            }
        }
    }
}

/// The plain values of an error list.
pub open spec fn es_view(es: Seq<(usize, Vec<char>)>) -> Seq<(int, Seq<char>)> {
    es.map_values(|x: (usize, Vec<char>)| (x.0 as int, x.1@))
}

/// The index of the first character that starts at byte `b` or later.
fn char_at(items: &Vec<(usize, char)>, b: usize, s: Ghost<Seq<char>>) -> (r: usize)
    requires
        items@.len() == s@.len(),
        forall|i: int| 0 <= i < items@.len() ==> #[trigger] items@[i].0 == byte_offset(s@, i),
    ensures
        r == char_at_byte(s@, b as int, 0),
        r <= s@.len(),
{
    let mut k: usize = 0;
    while k < items.len() && items[k].0 < b
        invariant
            items@.len() == s@.len(),
            forall|i: int| 0 <= i < items@.len() ==> #[trigger] items@[i].0 == byte_offset(s@, i),
            0 <= k <= items@.len(),
            char_at_byte(s@, b as int, k as int) == char_at_byte(s@, b as int, 0),
        decreases items@.len() - k,
    {
        k = k + 1;
    }
    k
}

/// Appends the characters from index `a` to index `b`.
fn push_range(out: &mut Vec<char>, items: &Vec<(usize, char)>, a: usize, b: usize, s: Ghost<Seq<char>>)
    requires
        items@.len() == s@.len(),
        forall|i: int| 0 <= i < items@.len() ==> #[trigger] items@[i].1 == s@[i],
        a <= b <= s@.len(),
    ensures
        final(out)@ == old(out)@ + s@.subrange(a as int, b as int),
{
    let mut k = a;
    while k < b
        invariant
            items@.len() == s@.len(),
            forall|i: int| 0 <= i < items@.len() ==> #[trigger] items@[i].1 == s@[i],
            a <= k <= b,
            b <= s@.len(),
            out@ == old(out)@ + s@.subrange(a as int, k as int),
        decreases b - k,
    {
        out.push(items[k].1);
        k = k + 1;
        assert(out@ =~= old(out)@ + s@.subrange(a as int, k as int));
    }
}

/// `char_at_byte` stays between where it starts and the end.
proof fn lemma_char_at_range(s: Seq<char>, b: int, k: int)
    requires
        0 <= k,
    ensures
        k <= char_at_byte(s, b, k) <= if k <= s.len() { s.len() as int } else { k },
    decreases s.len() - k,
{
    if k < s.len() && byte_offset(s, k) < b {
        lemma_char_at_range(s, b, k + 1);
    }
}

/// `char_at_byte` only moves forwards as the byte does.
proof fn lemma_char_at_mono(s: Seq<char>, a: int, b: int, k: int)
    requires
        a <= b,
        0 <= k,
    ensures
        char_at_byte(s, a, k) <= char_at_byte(s, b, k),
        k <= char_at_byte(s, a, k) <= if k <= s.len() { s.len() as int } else { k },
    decreases s.len() - k,
{
    lemma_char_at_range(s, a, k);
    lemma_char_at_range(s, b, k);
    if k < s.len() && byte_offset(s, k) < a {
        lemma_char_at_mono(s, a, b, k + 1);
    }
}

/// Appends the source with the error positions underlined.
fn push_underline(out: &mut Vec<char>, items: &Vec<(usize, char)>, es: &Vec<(usize, Vec<char>)>, s: Ghost<Seq<char>>)
    requires
        items@.len() == s@.len(),
        forall|i: int| 0 <= i < items@.len() ==> #[trigger] items@[i].1 == s@[i],
        forall|i: int| 0 <= i < items@.len() ==> #[trigger] items@[i].0 == byte_offset(s@, i),
        underline_ok(s@, es_view(es@), 0, 0),
        forall|j: int| 0 <= j < es@.len() ==> (#[trigger] es@[j]).0 < usize::MAX,
    ensures
        final(out)@ == old(out)@ + underline(s@, es_view(es@), 0, 0),
{
    let ghost ev = es_view(es@);
    let mut last: usize = 0;
    let mut j: usize = 0;
    while j < es.len()
        invariant
            items@.len() == s@.len(),
            forall|i: int| 0 <= i < items@.len() ==> #[trigger] items@[i].1 == s@[i],
            forall|i: int| 0 <= i < items@.len() ==> #[trigger] items@[i].0 == byte_offset(s@, i),
            forall|i: int| 0 <= i < es@.len() ==> (#[trigger] es@[i]).0 < usize::MAX,
            ev == es_view(es@),
            0 <= j <= es@.len(),
            underline_ok(s@, ev, j as int, last as int),
            out@ + underline(s@, ev, j as int, last as int) == old(out)@ + underline(s@, ev, 0, 0),
        decreases es@.len() - j,
    {
        let e = es[j].0;
        let ghost before = out@;
        if last <= e {
            let ka = char_at(items, last, s);
            let ke = char_at(items, e, s);
            proof {
                lemma_char_at_mono(s@, last as int, e as int, 0);
            }
            push_range(out, items, ka, ke, s);
            out.push('\u{1b}');
            out.push('[');
            out.push('4');
            out.push('m');
            out.push(items[ke].1);
            out.push('\u{1b}');
            out.push('[');
            out.push('0');
            out.push('m');
            proof {
                let u = seq!['\u{1b}', '[', '4', 'm', s@[ke as int], '\u{1b}', '[', '0', 'm'];
                assert(out@ =~= before + s@.subrange(ka as int, ke as int) + u);
                assert(underline(s@, ev, j as int, last as int)
                    == s@.subrange(ka as int, ke as int) + u + underline(s@, ev, j + 1, e + 1));
                assert(before + (s@.subrange(ka as int, ke as int) + u + underline(s@, ev, j + 1, e + 1))
                    =~= out@ + underline(s@, ev, j + 1, e + 1));
            }
            last = e + 1;
        }
        j = j + 1;
    }
    let ka = char_at(items, last, s);
    proof {
        lemma_char_at_mono(s@, last as int, last as int, 0);
    }
    let ghost before = out@;
    push_range(out, items, ka, items.len(), s);
    out.push('\n');
    proof {
        assert(out@ =~= before + underline(s@, ev, j as int, last as int));
    }
}

/// Appends the tree line for the error at position `v`, whose own error is the
/// `own`-th.
fn push_tree_line(out: &mut Vec<char>, es: &Vec<(usize, Vec<char>)>, v: usize, own: usize, blen: usize)
    requires
        forall|j: int| 0 <= j < es@.len() ==> (#[trigger] es@[j]).0 < usize::MAX,
    ensures
        final(out)@ == old(out)@ + line_from(es_view(es@), v as int, own as int, 0, Seq::empty(), None, blen as int),
{
    let ghost ev = es_view(es@);
    let mut line: Vec<char> = Vec::new();
    let mut last: Option<usize> = None;
    let mut i: usize = 0;
    while i < es.len()
        invariant
            forall|j: int| 0 <= j < es@.len() ==> (#[trigger] es@[j]).0 < usize::MAX,
            ev == es_view(es@),
            0 <= i <= es@.len(),
            match last { Some(l) => l < usize::MAX, None => true },
            line_from(ev, v as int, own as int, i as int, line@, match last { Some(l) => Some(l as int), None => None }, blen as int)
                == line_from(ev, v as int, own as int, 0, Seq::empty(), None, blen as int),
        decreases es@.len() - i,
    {
        let h = es[i].0;
        if h <= v {
            let ghost l0 = line@;
            let ghost last0 = match last { Some(l) => Some(l as int), None => None::<int> };
            let dashes: usize = if blen > h { blen - h } else { 0 };
            match last {
                Some(l) => {
                    let spaces: usize = if h > l + 1 { h - (l + 1) } else { 0 };
                    if i == own {
                        if l == h {
                            line.pop();
                            line.push('├');
                        } else {
                            push_rep(&mut line, ' ', spaces);
                            line.push('└');
                        }
                        push_rep(&mut line, '─', dashes);
                        line.push(' ');
                        push_chars(&mut line, es[i].1.as_slice());
                    } else if h > l {
                        push_rep(&mut line, ' ', spaces);
                        line.push('│');
                    }
                }
                None => {
                    if i == own {
                        line.push('└');
                        push_rep(&mut line, '─', dashes);
                        line.push(' ');
                        push_chars(&mut line, es[i].1.as_slice());
                    } else {
                        line.push('│');
                    }
                }
            }
            proof {
                assert(line@ =~= line_step(l0, last0, ev[i as int], i == own, blen as int));
            }
            last = Some(h);
        }
        i = i + 1;
    }
    push_chars(out, line.as_slice());
}

impl ParseError {
    /// The account of this error in the source `string`: the source with the character at
    /// each error position underlined, then one line per error, innermost first, drawing
    /// the tree of errors with its message.
    pub fn diagnosis(self, string: &str) -> (r: String)
        requires
            underline_ok(string@, errs(self@), 0, 0),
            forall|j: int| 0 <= j < errs(self@).len() ==> (#[trigger] errs(self@)[j]).0 < usize::MAX,
        ensures
            r@ == diagnosis(string@, self@),
    {
        let ghost s = string@;
        let es = self.error_list();
        let items = char_indices(string);
        proof {
            assert forall|j: int| 0 <= j < es@.len() implies (#[trigger] es@[j]).0 < usize::MAX by {
                assert(es_view(es@)[j] == (es@[j].0 as int, es@[j].1@));
            }
        }
        let n = items.len();
        let blen: usize = if n == 0 { 0 } else { items[n - 1].0 + width_of(items[n - 1].1) };
        proof {
            if n > 0 {
                assert(byte_offset(s, n as int) == byte_offset(s, n - 1) + char_width(s[n - 1]));
            }
        }
        let mut out: Vec<char> = Vec::new();
        push_underline(&mut out, &items, &es, Ghost(s));
        let ghost ev = es_view(es@);
        let ghost head = out@;
        let nn = es.len();
        let mut t: usize = 0;
        while t < nn
            invariant
                nn == es@.len(),
                ev == es_view(es@),
                forall|j: int| 0 <= j < es@.len() ==> (#[trigger] es@[j]).0 < usize::MAX,
                0 <= t <= nn,
                out@ + tree_lines(ev, t as int, blen as int) == head + tree_lines(ev, 0, blen as int),
            decreases nn - t,
        {
            let ghost before = out@;
            let v = es[nn - 1 - t].0;
            push_tree_line(&mut out, &es, v, nn - t - 1, blen);
            out.push('\n');
            proof {
                let l = line_from(ev, ev[nn - 1 - t].0, nn - t - 1, 0, Seq::empty(), None, blen as int);
                assert(tree_lines(ev, t as int, blen as int) == l + seq!['\n'] + tree_lines(ev, t + 1, blen as int));
                assert(before + (l + seq!['\n'] + tree_lines(ev, t + 1, blen as int)) =~= out@ + tree_lines(ev, t + 1, blen as int));
            }
            t = t + 1;
        }
        proof {
            assert(out@ =~= diagnosis(s, self@));
        }
        string_from_chars(out.as_slice())
    }
}

} // verus!
