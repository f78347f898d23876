//! `PiecewiseStep`: a step function of an `f64`, configured by ranges such as
//! `0.05 .. 0.15`, and the node `FnPiecewiseStep` that applies it.
use vstd::prelude::*;
use crate::text::{is_white, is_white_space, chars_of, chars_to_string, node_id, node_id_text};
use crate::point::{Point, PointValue, PointView, ValueView, Cot};
use crate::fn_flow::{FnFlow, FnResult, FnKind};
use crate::float_bits::{F64_ONE, f64_nan, f64_greater, f64_gt, f64_is_nan, f64_close, f64_is_close};
use crate::functions::fn_input::FloatConversion;

verus! {

/// `true` for the ASCII decimal digits.
pub open spec fn is_digit(c: char) -> bool {
    '0' <= c && c <= '9'
}

/// `s` is made of white space only.
pub open spec fn all_white(s: Seq<char>) -> bool {
    forall|i: int| 0 <= i < s.len() ==> is_white_space(#[trigger] s[i])
}

/// `s` is a non-empty run of decimal digits.
pub open spec fn digit_run(s: Seq<char>) -> bool {
    s.len() > 0 && forall|i: int| 0 <= i < s.len() ==> is_digit(#[trigger] s[i])
}

/// `s` is a bound of a range: digits, possibly followed by `.` and digits.
pub open spec fn is_bound(s: Seq<char>) -> bool {
    ||| digit_run(s)
    ||| exists|whole: Seq<char>, frac: Seq<char>|
            #![trigger digit_run(whole), digit_run(frac)]
            digit_run(whole) && digit_run(frac) && s == whole + seq!['.'] + frac
}

/// `s` reads as the range `a .. b`: `a` and `b` are each empty or a bound, and
/// white space may stand around them and around the `..`.
pub open spec fn reads_as(s: Seq<char>, a: Seq<char>, b: Seq<char>) -> bool {
    &&& (a.len() == 0 || is_bound(a))
    &&& (b.len() == 0 || is_bound(b))
    &&& exists|w1: Seq<char>, w2: Seq<char>, w3: Seq<char>, w4: Seq<char>|
            #![trigger all_white(w1), all_white(w2), all_white(w3), all_white(w4)]
            all_white(w1) && all_white(w2) && all_white(w3) && all_white(w4)
            && s == w1 + a + w2 + seq!['.', '.'] + w3 + b + w4
}

/// The text of an optional bound: empty for `None`.
pub open spec fn bound_text(o: Option<String>) -> Seq<char> {
    match o {
        Some(t) => t@,
        None => Seq::empty(),
    }
}

/// The two bounds of a range, as written.
#[derive(Debug)]
pub struct RangeText {
    /// The lower bound, `None` for a range open to the left.
    pub start: Option<String>,
    /// The upper bound, `None` for a range open to the right.
    pub end: Option<String>,
}

/// Why a step of a piecewise step function cannot be made.
#[derive(Debug, Clone, Copy, PartialEq, Eq, Structural)]
pub enum StepError {
    /// The range is not of the form `start .. end`.
    Format,
    /// Neither bound of the range is given.
    NoBound,
    /// The two bounds of the range are equal.
    EqualBounds,
}

/// `j` ends the run of white space that starts at `i` in `s`.
spec fn white_span(s: Seq<char>, i: int, j: int) -> bool {
    &&& 0 <= i <= j <= s.len()
    &&& forall|k: int| i <= k < j ==> is_white_space(#[trigger] s[k])
    &&& (j == s.len() || !is_white_space(s[j]))
}

/// `j` ends the run of digits that starts at `i` in `s`.
spec fn digit_span(s: Seq<char>, i: int, j: int) -> bool {
    &&& 0 <= i <= j <= s.len()
    &&& forall|k: int| i <= k < j ==> is_digit(#[trigger] s[k])
    &&& (j == s.len() || !is_digit(s[j]))
}

/// The bound that starts at `i` in `s` ends at `j`; its digits before any `.` end at `q`.
spec fn bound_span(s: Seq<char>, i: int, q: int, j: int) -> bool {
    &&& digit_span(s, i, q)
    &&& if i < q && q + 1 < s.len() && s[q] == '.' && is_digit(s[q + 1]) {
        digit_span(s, q + 1, j)
    } else {
        j == q
    }
}

/// What may follow a bound: the end, white space, or the `..` of the range.
spec fn bound_follows(s: Seq<char>, e: int) -> bool {
    ||| e == s.len()
    ||| (0 <= e < s.len() && is_white_space(s[e]))
    ||| (0 <= e && e + 1 < s.len() && s[e] == '.' && s[e + 1] == '.')
}

proof fn lemma_white_span_unique(s: Seq<char>, i: int, j: int, k: int)
    requires
        white_span(s, i, j),
        white_span(s, i, k),
    ensures
        j == k,
{
    if j < k {
        assert(is_white_space(s[j]));
    } else if k < j {
        assert(is_white_space(s[k]));
    }
}

proof fn lemma_digit_span_unique(s: Seq<char>, i: int, j: int, k: int)
    requires
        digit_span(s, i, j),
        digit_span(s, i, k),
    ensures
        j == k,
{
    if j < k {
        assert(is_digit(s[j]));
    } else if k < j {
        assert(is_digit(s[k]));
    }
}

/// A bound `a` written at `i` and followed by what may follow it is what the
/// scan of a bound at `i` finds.
proof fn lemma_bound_found(s: Seq<char>, i: int, a: Seq<char>, q: int, j: int)
    requires
        0 <= i,
        i + a.len() <= s.len(),
        s.subrange(i, i + a.len()) == a,
        a.len() == 0 || is_bound(a),
        bound_follows(s, i + a.len()),
        bound_span(s, i, q, j),
    ensures
        j == i + a.len(),
{
    let e = i + a.len();
    assert(e == s.len() || !is_digit(s[e]));
    if a.len() == 0 {
        assert(digit_span(s, i, i));
        lemma_digit_span_unique(s, i, q, i);
    } else if digit_run(a) {
        assert forall|k: int| i <= k < e implies is_digit(#[trigger] s[k]) by {
            assert(s[k] == a[k - i]);
        }
        assert(digit_span(s, i, e));
        lemma_digit_span_unique(s, i, q, e);
    } else {
        let (whole, frac) = choose|whole: Seq<char>, frac: Seq<char>|
            #![trigger digit_run(whole), digit_run(frac)]
            digit_run(whole) && digit_run(frac) && a == whole + seq!['.'] + frac;
        let d = i + whole.len();
        assert forall|k: int| i <= k < d implies is_digit(#[trigger] s[k]) by {
            assert(s[k] == a[k - i]);
            assert(a[k - i] == whole[k - i]);
        }
        assert(s[d] == a[whole.len() as int]);
        assert(digit_span(s, i, d));
        lemma_digit_span_unique(s, i, q, d);
        assert(s[d + 1] == a[whole.len() as int + 1]);
        assert(a[whole.len() as int + 1] == frac[0]);
        assert forall|k: int| d + 1 <= k < e implies is_digit(#[trigger] s[k]) by {
            assert(s[k] == a[k - i]);
            assert(a[k - i] == frac[k - d - 1]);
        }
        assert(digit_span(s, d + 1, e));
        lemma_digit_span_unique(s, d + 1, j, e);
    }
}

/// The pieces of a range written as `w1 a w2 .. w3 b w4`, by position.
proof fn lemma_split(s: Seq<char>, w1: Seq<char>, a: Seq<char>, w2: Seq<char>, w3: Seq<char>, b: Seq<char>, w4: Seq<char>)
    requires
        s == w1 + a + w2 + seq!['.', '.'] + w3 + b + w4,
    ensures
        ({
            let i1 = w1.len() as int;
            let i2 = i1 + a.len();
            let i3 = i2 + w2.len();
            let i5 = i3 + 2 + w3.len();
            let i6 = i5 + b.len();
            &&& s.len() == i6 + w4.len()
            &&& s.subrange(0, i1) == w1
            &&& s.subrange(i1, i2) == a
            &&& s.subrange(i2, i3) == w2
            &&& s[i3] == '.'
            &&& s[i3 + 1] == '.'
            &&& s.subrange(i3 + 2, i5) == w3
            &&& s.subrange(i5, i6) == b
            &&& s.subrange(i6, s.len() as int) == w4
        }),
{
    let i1 = w1.len() as int;
    let i2 = i1 + a.len();
    let i3 = i2 + w2.len();
    let i5 = i3 + 2 + w3.len();
    let i6 = i5 + b.len();
    let s1 = w1 + a;
    let s2 = s1 + w2;
    let s3 = s2 + seq!['.', '.'];
    let s4 = s3 + w3;
    let s5 = s4 + b;
    assert(s == s5 + w4);
    assert(s.subrange(0, i6) =~= s5);
    assert(s5.subrange(0, i5) =~= s4);
    assert(s4.subrange(0, i3 + 2) =~= s3);
    assert(s3.subrange(0, i3) =~= s2);
    assert(s2.subrange(0, i2) =~= s1);
    assert(s.subrange(0, i1) =~= s1.subrange(0, i1));
    assert(s1.subrange(0, i1) =~= w1);
    assert(s.subrange(i1, i2) =~= s1.subrange(i1, i2));
    assert(s1.subrange(i1, i2) =~= a);
    assert(s.subrange(i2, i3) =~= s2.subrange(i2, i3));
    assert(s2.subrange(i2, i3) =~= w2);
    assert(s[i3] == s3[i3]);
    assert(s[i3 + 1] == s3[i3 + 1]);
    assert(s.subrange(i3 + 2, i5) =~= s4.subrange(i3 + 2, i5));
    assert(s4.subrange(i3 + 2, i5) =~= w3);
    assert(s.subrange(i5, i6) =~= s5.subrange(i5, i6));
    assert(s5.subrange(i5, i6) =~= b);
    assert(s.subrange(i6, s.len() as int) =~= w4);
}

/// The first character of a bound is a digit.
proof fn lemma_bound_starts_with_digit(a: Seq<char>)
    requires
        is_bound(a),
    ensures
        a.len() > 0,
        is_digit(a[0]),
{
    if !digit_run(a) {
        let (whole, frac) = choose|whole: Seq<char>, frac: Seq<char>|
            #![trigger digit_run(whole), digit_run(frac)]
            digit_run(whole) && digit_run(frac) && a == whole + seq!['.'] + frac;
        assert(a[0] == whole[0]);
    }
}

/// A range written as `w1 a w2 .. w3 b w4`: the scan of its start finds `a`
/// and the `..` after it.
proof fn lemma_first_half(
    s: Seq<char>, w1: Seq<char>, a: Seq<char>, w2: Seq<char>, w3: Seq<char>, b: Seq<char>, w4: Seq<char>,
    p: int, q: int, r: int, t: int,
)
    requires
        s == w1 + a + w2 + seq!['.', '.'] + w3 + b + w4,
        all_white(w1), all_white(w2),
        a.len() == 0 || is_bound(a),
        white_span(s, 0, p),
        bound_span(s, p, q, r),
        white_span(s, r, t),
    ensures
        t == w1.len() + a.len() + w2.len(),
        s.subrange(p, r) == a,
{
    lemma_split(s, w1, a, w2, w3, b, w4);
    let i1 = w1.len() as int;
    let i2 = i1 + a.len();
    let i3 = i2 + w2.len();
    assert(s[i3] == '.');
    assert forall|k: int| 0 <= k < i1 implies is_white_space(#[trigger] s[k]) by {
        assert(s[k] == s.subrange(0, i1)[k]);
    }
    assert forall|k: int| i2 <= k < i3 implies is_white_space(#[trigger] s[k]) by {
        assert(s[k] == s.subrange(i2, i3)[k - i2]);
    }
    assert(white_span(s, i3, i3));
    if a.len() == 0 {
        assert(white_span(s, 0, i3));
        lemma_white_span_unique(s, 0, p, i3);
        assert(bound_follows(s, i3));
        assert(s.subrange(i3, i3) == a);
        lemma_bound_found(s, p, a, q, r);
        lemma_white_span_unique(s, r, t, i3);
        assert(s.subrange(p, r) =~= a);
    } else {
        lemma_bound_starts_with_digit(a);
        assert(s[i1] == s.subrange(i1, i2)[0]);
        assert(white_span(s, 0, i1));
        lemma_white_span_unique(s, 0, p, i1);
        if w2.len() > 0 {
            assert(s[i2] == s.subrange(i2, i3)[0]);
        }
        assert(bound_follows(s, i2));
        lemma_bound_found(s, p, a, q, r);
        assert(white_span(s, i2, i3));
        lemma_white_span_unique(s, r, t, i3);
    }
}

/// A range written as `w1 a w2 .. w3 b w4`: the scan after its `..` finds `b`
/// and then only white space.
proof fn lemma_second_half(
    s: Seq<char>, w1: Seq<char>, a: Seq<char>, w2: Seq<char>, w3: Seq<char>, b: Seq<char>, w4: Seq<char>,
    v: int, q: int, x: int, y: int,
)
    requires
        s == w1 + a + w2 + seq!['.', '.'] + w3 + b + w4,
        all_white(w3), all_white(w4),
        b.len() == 0 || is_bound(b),
        white_span(s, (w1.len() + a.len() + w2.len() + 2) as int, v),
        bound_span(s, v, q, x),
        white_span(s, x, y),
    ensures
        y == s.len(),
        s.subrange(v, x) == b,
{
    lemma_split(s, w1, a, w2, w3, b, w4);
    let i4 = (w1.len() + a.len() + w2.len() + 2) as int;
    let i5 = i4 + w3.len();
    let i6 = i5 + b.len();
    let n = s.len() as int;
    assert forall|k: int| i4 <= k < i5 implies is_white_space(#[trigger] s[k]) by {
        assert(s[k] == s.subrange(i4, i5)[k - i4]);
    }
    assert forall|k: int| i6 <= k < n implies is_white_space(#[trigger] s[k]) by {
        assert(s[k] == s.subrange(i6, n)[k - i6]);
    }
    assert(white_span(s, i6, n));
    if b.len() == 0 {
        assert(white_span(s, i4, n));
        lemma_white_span_unique(s, i4, v, n);
        assert(s.subrange(n, n) == b);
        lemma_bound_found(s, v, b, q, x);
        lemma_white_span_unique(s, x, y, n);
        assert(s.subrange(v, x) =~= b);
    } else {
        lemma_bound_starts_with_digit(b);
        assert(s[i5] == s.subrange(i5, i6)[0]);
        assert(white_span(s, i4, i5));
        lemma_white_span_unique(s, i4, v, i5);
        if i6 < n {
            assert(s[i6] == s.subrange(i6, n)[0]);
        }
        assert(bound_follows(s, i6));
        lemma_bound_found(s, v, b, q, x);
        lemma_white_span_unique(s, x, y, n);
    }
}

/// What the scan of a bound finds, when it finds anything, is a bound.
proof fn lemma_scanned_bound(s: Seq<char>, i: int, q: int, j: int)
    requires
        bound_span(s, i, q, j),
        i < j,
    ensures
        is_bound(s.subrange(i, j)),
{
    let a = s.subrange(i, j);
    if i < q && q + 1 < s.len() && s[q] == '.' && is_digit(s[q + 1]) {
        let whole = s.subrange(i, q);
        let frac = s.subrange(q + 1, j);
        assert(j > q + 1);
        assert(a =~= whole + seq!['.'] + frac);
        assert(digit_run(whole));
        assert(digit_run(frac));
    } else {
        assert(digit_run(a));
    }
}

/// Returns the end of the white space that starts at `i`.
fn skip_white(s: &Vec<char>, i: usize) -> (j: usize)
    requires
        i <= s.len(),
    ensures
        white_span(s@, i as int, j as int),
{
    let mut j = i;
    while j < s.len() && is_white(s[j])
        invariant
            i <= j <= s.len(),
            forall|k: int| i <= k < j ==> is_white_space(#[trigger] s@[k]),
        decreases s.len() - j,
    {
        j = j + 1;
    }
    j
}

/// Returns the end of the digits that start at `i`.
fn skip_digits(s: &Vec<char>, i: usize) -> (j: usize)
    requires
        i <= s.len(),
    ensures
        digit_span(s@, i as int, j as int),
{
    let mut j = i;
    while j < s.len() && '0' <= s[j] && s[j] <= '9'
        invariant
            i <= j <= s.len(),
            forall|k: int| i <= k < j ==> is_digit(#[trigger] s@[k]),
        decreases s.len() - j,
    {
        j = j + 1;
    }
    j
}

/// Returns the end of the bound that starts at `i` (`i` when none does) and
/// the end of its digits before any `.`.
fn skip_bound(s: &Vec<char>, i: usize) -> (r: (usize, usize))
    requires
        i <= s.len(),
    ensures
        bound_span(s@, i as int, r.0 as int, r.1 as int),
{
    let q = skip_digits(s, i);
    if i < q && q < s.len() && q + 1 < s.len() && s[q] == '.' && '0' <= s[q + 1] && s[q + 1] <= '9' {
        (q, skip_digits(s, q + 1))
    } else {
        (q, q)
    }
}

/// Returns the characters of `s` from `i` to `j`.
fn sub_chars(s: &Vec<char>, i: usize, j: usize) -> (r: Vec<char>)
    requires
        i <= j <= s.len(),
    ensures
        r@ == s@.subrange(i as int, j as int),
{
    let mut r: Vec<char> = Vec::new();
    let mut k = i;
    while k < j
        invariant
            i <= k <= j <= s.len(),
            r@ == s@.subrange(i as int, k as int),
        decreases j - k,
    {
        r.push(s[k]);
        k = k + 1;
        assert(r@ =~= s@.subrange(i as int, k as int));
    }
    r
}

/// Returns the bound of `s` from `i` to `j`, `None` when it is empty.
fn bound_of(s: &Vec<char>, i: usize, j: usize) -> (r: Option<String>)
    requires
        i <= j <= s.len(),
    ensures
        bound_text(r) == s@.subrange(i as int, j as int),
        r is Some <==> i < j,
{
    if i < j {
        Some(chars_to_string(&sub_chars(s, i, j)))
    } else {
        assert(s@.subrange(i as int, j as int) =~= Seq::<char>::empty());
        None
    }
}

/// Reads `range` as `start .. end`: each bound is decimal digits, possibly
/// followed by `.` and digits; either bound may be left out, and white space
/// may stand around the bounds and the `..`. At least one bound must be given.
pub fn parse_range(range: &str) -> (r: Result<RangeText, StepError>)
    ensures
        match r {
            Ok(t) => {
                &&& reads_as(range@, bound_text(t.start), bound_text(t.end))
                &&& t.start is Some || t.end is Some
                &&& (t.start matches Some(x) ==> x@.len() > 0)
                &&& (t.end matches Some(x) ==> x@.len() > 0)
            },
            Err(e) => e == StepError::Format
                || (e == StepError::NoBound && reads_as(range@, Seq::empty(), Seq::empty())),
        },
        forall|a: Seq<char>, b: Seq<char>| #[trigger] reads_as(range@, a, b) ==> match r {
            Ok(t) => a == bound_text(t.start) && b == bound_text(t.end),
            Err(e) => e == StepError::NoBound && a.len() == 0 && b.len() == 0,
        },
{
    let s = chars_of(range);
    let p = skip_white(&s, 0);
    let (q1, r1) = skip_bound(&s, p);
    let t = skip_white(&s, r1);
    if !(t < s.len() && t + 1 < s.len() && s[t] == '.' && s[t + 1] == '.') {
        proof {
            assert forall|a: Seq<char>, b: Seq<char>| !#[trigger] reads_as(range@, a, b) by {
                if reads_as(range@, a, b) {
                    let (w1, w2, w3, w4) = choose|w1: Seq<char>, w2: Seq<char>, w3: Seq<char>, w4: Seq<char>|
                        #![trigger all_white(w1), all_white(w2), all_white(w3), all_white(w4)]
                        all_white(w1) && all_white(w2) && all_white(w3) && all_white(w4)
                        && range@ == w1 + a + w2 + seq!['.', '.'] + w3 + b + w4;
                    lemma_first_half(s@, w1, a, w2, w3, b, w4, p as int, q1 as int, r1 as int, t as int);
                    lemma_split(s@, w1, a, w2, w3, b, w4);
                }
            }
        }
        return Err(StepError::Format);
    }
    let u = t + 2;
    let v = skip_white(&s, u);
    let (q2, x) = skip_bound(&s, v);
    let y = skip_white(&s, x);
    proof {
        assert forall|a: Seq<char>, b: Seq<char>| #[trigger] reads_as(range@, a, b) implies
            y == s.len() && a == s@.subrange(p as int, r1 as int) && b == s@.subrange(v as int, x as int) by {
            let (w1, w2, w3, w4) = choose|w1: Seq<char>, w2: Seq<char>, w3: Seq<char>, w4: Seq<char>|
                #![trigger all_white(w1), all_white(w2), all_white(w3), all_white(w4)]
                all_white(w1) && all_white(w2) && all_white(w3) && all_white(w4)
                && range@ == w1 + a + w2 + seq!['.', '.'] + w3 + b + w4;
            lemma_first_half(s@, w1, a, w2, w3, b, w4, p as int, q1 as int, r1 as int, t as int);
            lemma_second_half(s@, w1, a, w2, w3, b, w4, v as int, q2 as int, x as int, y as int);
        }
    }
    if y < s.len() {
        return Err(StepError::Format);
    }
    let start = bound_of(&s, p, r1);
    let end = bound_of(&s, v, x);
    proof {
        let a = s@.subrange(p as int, r1 as int);
        let b = s@.subrange(v as int, x as int);
        let w1 = s@.subrange(0, p as int);
        let w2 = s@.subrange(r1 as int, t as int);
        let w3 = s@.subrange(u as int, v as int);
        let w4 = s@.subrange(x as int, s@.len() as int);
        if p < r1 {
            lemma_scanned_bound(s@, p as int, q1 as int, r1 as int);
        }
        if v < x {
            lemma_scanned_bound(s@, v as int, q2 as int, x as int);
        }
        assert(all_white(w1));
        assert(all_white(w2));
        assert(all_white(w3));
        assert(all_white(w4));
        assert(s@ =~= w1 + a + w2 + seq!['.', '.'] + w3 + b + w4);
        assert(reads_as(range@, a, b));
    }
    if start.is_none() && end.is_none() {
        return Err(StepError::NoBound);
    }
    Ok(RangeText { start, end })
}

/// `x` lies in the range from `left` (included) to `right` (excluded), `f64`
/// values given by their bits; a missing bound leaves its side open, and a
/// range needs at least one bound.
pub open spec fn in_step(left: Option<u64>, right: Option<u64>, x: u64) -> bool {
    &&& !f64_nan(x)
    &&& (left is Some || right is Some)
    &&& (left matches Some(l) ==> !f64_greater(l, x))
    &&& (right matches Some(r) ==> f64_greater(r, x))
}

/// A step holds its left bound and not its right one: ranges are `left <= x < right`.
pub proof fn lemma_step_is_half_open(left: u64, right: u64)
    requires
        !f64_nan(left),
        !f64_nan(right),
        f64_greater(right, left),
    ensures
        in_step(Some(left), Some(right), left),
        !in_step(Some(left), Some(right), right),
{
    assert(!f64_greater(left, left));
    assert(!f64_greater(right, right));
}

/// The mathematical content of a step: its bounds and its value.
pub struct StepView {
    pub left: Option<u64>,
    pub right: Option<u64>,
    pub val: PointView,
}

/// The value of the first of `steps` whose range holds `x`.
pub open spec fn first_step(steps: Seq<StepView>, x: u64) -> Option<PointView>
    decreases steps.len(),
{
    if steps.len() == 0 {
        None
    } else if in_step(steps[0].left, steps[0].right, x) {
        Some(steps[0].val)
    } else {
        first_step(steps.drop_first(), x)
    }
}

/// One step of a piecewise step function: the value it gives for `x` from
/// `left` (included) to `right` (excluded).
#[derive(Debug)]
pub struct LinearStep {
    left: Option<u64>,
    right: Option<u64>,
    val: Point,
}

impl LinearStep {
    /// The content of the step.
    pub closed spec fn view_of(&self) -> StepView {
        StepView { left: self.left, right: self.right, val: self.val@ }
    }

    /// The bounds are numbers and at least one is given.
    pub closed spec fn wf(&self) -> bool {
        &&& self.left is Some || self.right is Some
        &&& (self.left matches Some(l) ==> !f64_nan(l))
        &&& (self.right matches Some(r) ==> !f64_nan(r))
    }

    /// Returns the step of the range from `start` to `end`, `f64` values given
    /// by their bits (the values of the bounds read by `parse_range`), giving
    /// `val`. The bounds are swapped when `start > end`; bounds that differ by
    /// no more than `f64::MIN_POSITIVE` are equal.
    pub fn try_new(start: Option<u64>, end: Option<u64>, val: Point) -> (r: Result<LinearStep, StepError>)
        requires
            start matches Some(l) ==> !f64_nan(l),
            end matches Some(e) ==> !f64_nan(e),
        ensures
            match (start, end) {
                (None, None) => r == Err::<LinearStep, StepError>(StepError::NoBound),
                (Some(l), Some(e)) => if f64_close(l, e) {
                    r == Err::<LinearStep, StepError>(StepError::EqualBounds)
                } else {
                    r matches Ok(step) && step.wf() && step.view_of() == (if f64_greater(l, e) {
                        StepView { left: Some(e), right: Some(l), val: val@ }
                    } else {
                        StepView { left: Some(l), right: Some(e), val: val@ }
                    })
                },
                _ => r matches Ok(step) && step.wf() && step.view_of() == StepView { left: start, right: end, val: val@ },
            },
    {
        match (start, end) {
            (None, None) => Err(StepError::NoBound),
            (Some(l), Some(e)) => {
                if f64_is_close(l, e) {
                    Err(StepError::EqualBounds)
                } else if f64_gt(l, e) {
                    Ok(LinearStep { left: Some(e), right: Some(l), val })
                } else {
                    Ok(LinearStep { left: Some(l), right: Some(e), val })
                }
            }
            _ => Ok(LinearStep { left: start, right: end, val }),
        }
    }

    /// Returns `true` if the range of the step holds `x`.
    pub fn contains(&self, x: u64) -> (r: bool)
        requires
            self.wf(),
        ensures
            r == in_step(self.view_of().left, self.view_of().right, x),
    {
        if f64_is_nan(x) {
            return false;
        }
        let above_left = match self.left {
            Some(l) => !f64_gt(l, x),
            None => true,
        };
        let below_right = match self.right {
            Some(r) => f64_gt(r, x),
            None => true,
        };
        above_left && below_right
    }

    /// Returns the value of the step if its range holds `x`.
    pub fn eval(&self, x: u64) -> (r: Option<&Point>)
        requires
            self.wf(),
        ensures
            match r {
                Some(p) => in_step(self.view_of().left, self.view_of().right, x) && p@ == self.view_of().val,
                None => !in_step(self.view_of().left, self.view_of().right, x),
            },
    {
        if self.contains(x) { Some(&self.val) } else { None }
    }
}

/// ### Function | Piecewise Step
///
/// Chooses its value by the range its argument falls in; the ranges are
/// `left <= x < right`, and the first range that holds `x` decides.
#[derive(Debug)]
pub struct PiecewiseStep {
    lines: Vec<LinearStep>,
}

impl PiecewiseStep {
    /// The steps, in order.
    pub closed spec fn steps(&self) -> Seq<StepView> {
        self.lines@.map_values(|l: LinearStep| l.view_of())
    }

    /// Every step is well formed.
    pub closed spec fn wf(&self) -> bool {
        forall|i: int| 0 <= i < self.lines.len() ==> (#[trigger] self.lines@[i]).wf()
    }

    /// Returns the function made of `lines`, in their order.
    pub fn new(lines: Vec<LinearStep>) -> (r: Self)
        requires
            forall|i: int| 0 <= i < lines.len() ==> (#[trigger] lines@[i]).wf(),
        ensures
            r.wf(),
            r.steps() == lines@.map_values(|l: LinearStep| l.view_of()),
    {
        PiecewiseStep { lines }
    }

    /// Evaluates the function at `x`, an `f64` given by its bits: the value of
    /// the first step whose range holds `x`, `None` in a gap of the function.
    pub fn eval(&self, x: u64) -> (r: Option<&Point>)
        requires
            self.wf(),
        ensures
            match first_step(self.steps(), x) {
                Some(v) => r matches Some(p) && p@ == v,
                None => r is None,
            },
    {
        let n = self.lines.len();
        let mut i: usize = 0;
        assert(self.steps().skip(0) =~= self.steps());
        while i < n
            invariant
                n == self.lines.len(),
                i <= n,
                self.wf(),
                first_step(self.steps(), x) == first_step(self.steps().skip(i as int), x),
            decreases n - i,
        {
            let ghost tail = self.steps().skip(i as int);
            assert(tail[0] == self.lines@[i as int].view_of());
            if self.lines[i].contains(x) {
                return Some(&self.lines[i].val);
            }
            assert(tail.drop_first() =~= self.steps().skip(i as int + 1));
            i = i + 1;
        }
        assert(self.steps().skip(n as int) =~= Seq::<StepView>::empty());
        None
    }
}

/// The `f64` the caller must make of an input value: by a conversion, or by
/// reading a text.
#[derive(Debug)]
pub enum ToDouble {
    /// An integer or an `f32` converted to `f64`.
    Convert(FloatConversion),
    /// A text read as an `f64` (`None` when it is not a number).
    Parse(String),
}

/// The `f64` an input value stands for: `converted` for an integer, an `f32`
/// or a text (the caller converts or reads them); `None` for bytes.
pub open spec fn step_input(v: ValueView, converted: Option<u64>) -> Option<u64> {
    match v {
        ValueView::Bool(b) => Some(if b { F64_ONE } else { 0u64 }),
        ValueView::Double(b) => Some(b),
        ValueView::Bytes(_) => None,
        _ => converted,
    }
}

/// ### Function | `FnPiecewiseStep`
///
/// Gives the value of its piecewise step function at its input, with the
/// status and timestamp of the input and the cause `Inf`; in a gap of the
/// function it gives nothing, which stops the branch.
#[derive(Debug)]
pub struct FnPiecewiseStep<I> {
    id: String,
    input: I,
    piecewise: PiecewiseStep,
}

impl<I> FnPiecewiseStep<I> {
    /// The node's identifier.
    pub closed spec fn id_spec(&self) -> Seq<char> {
        self.id@
    }

    /// The steps of the node's function.
    pub closed spec fn steps(&self) -> Seq<StepView> {
        self.piecewise.steps()
    }

    /// The node's function is well formed.
    pub closed spec fn wf(&self) -> bool {
        self.piecewise.wf()
    }

    /// Returns a new `FnPiecewiseStep` applying `piecewise` to `input`.
    pub fn new(parent: &str, seq: usize, input: I, piecewise: PiecewiseStep) -> (r: Self)
        requires
            piecewise.wf(),
        ensures
            r.id_spec() == node_id_text(parent@, "FnPiecewiseStep"@, seq),
            r.steps() == piecewise.steps(),
            r.wf(),
    {
        FnPiecewiseStep { id: node_id(parent, "FnPiecewiseStep", seq), input, piecewise }
    }

    /// Returns the node's identifier.
    pub fn id(&self) -> (r: String)
        ensures
            r@ == self.id_spec(),
    {
        self.id.clone()
    }

    /// Returns the kind of the node.
    pub fn kind(&self) -> (r: FnKind)
        ensures
            r == FnKind::Fn,
    {
        FnKind::Fn
    }

    /// The input: the node's `input`.
    pub closed spec fn input_spec(&self) -> I {
        self.input
    }

    /// The node with `v` in place of its `input`.
    pub closed spec fn with_input(&self, v: I) -> Self {
        FnPiecewiseStep { input: v, ..*self }
    }

    /// The input. Returns a reference to it; the node is otherwise unchanged.
    pub fn input(&mut self) -> (r: &mut I)
        ensures
            *r == old(self).input_spec(),
            *final(self) == old(self).with_input(*final(r)),
    {
        &mut self.input
    }

    /// The `f64` the caller must make of the input result, if any.
    pub fn conversion(&self, input: &FnResult<FnFlow, String>) -> (r: Option<ToDouble>)
        ensures
            match *input {
                Ok(Some(f)) => match f.point()@.value {
                    ValueView::Int(i) => r == Some(ToDouble::Convert(FloatConversion::IntToDouble(i))),
                    ValueView::Real(b) => r == Some(ToDouble::Convert(FloatConversion::RealToDouble(b))),
                    ValueView::Str(t) => r matches Some(ToDouble::Parse(u)) && u@ == t,
                    _ => r is None,
                },
                _ => r is None,
            },
    {
        match input {
            Ok(Some(f)) => match &f.value().value {
                PointValue::Int(i) => Some(ToDouble::Convert(FloatConversion::IntToDouble(*i))),
                PointValue::Real(b) => Some(ToDouble::Convert(FloatConversion::RealToDouble(*b))),
                PointValue::String(t) => Some(ToDouble::Parse(t.clone())),
                _ => None,
            },
            _ => None,
        }
    }

    /// Evaluates the node on the result of its input; `converted` is the bits
    /// of the `f64` the caller made for the input as `conversion` asked (`None`
    /// when a text is not a number).
    pub fn out(&self, input: FnResult<FnFlow, String>, converted: Option<u64>) -> (r: FnResult<FnFlow, String>)
        requires
            self.wf(),
        ensures
            match input {
                Err(e) => r == Err::<Option<FnFlow>, String>(e),
                Ok(None) => r == Ok::<Option<FnFlow>, String>(None),
                Ok(Some(f)) => match step_input(f.point()@.value, converted) {
                    None => r is Err,
                    Some(x) => if f64_nan(x) {
                        r is Err
                    } else {
                        match first_step(self.steps(), x) {
                            None => r == Ok::<Option<FnFlow>, String>(None),
                            Some(v) => r matches Ok(Some(g)) && g.fresh() == f.fresh() && g.point()@ == PointView {
                                cot: Cot::Inf,
                                status: f.point()@.status,
                                ts: f.point()@.ts,
                                ..v
                            },
                        }
                    },
                },
            },
    {
        let f = match input {
            Err(e) => return Err(e),
            Ok(None) => return Ok(None),
            Ok(Some(f)) => f,
        };
        let fresh = f.is_new();
        let p = f.into_value();
        let x: u64 = match &p.value {
            PointValue::Bool(b) => if *b { F64_ONE } else { 0u64 },
            PointValue::Double(b) => *b,
            PointValue::Bytes(_) => return Err(self.id.clone().concat(".out | Invalid input type 'Bytes'")),
            _ => match converted {
                Some(x) => x,
                None => return Err(self.id.clone().concat(".out | Invalid input, expected a number")),
            },
        };
        if f64_is_nan(x) {
            return Err(self.id.clone().concat(".out | Math error: Received NaN value instead of valid number"));
        }
        match self.piecewise.eval(x) {
            None => Ok(None),
            Some(v) => {
                let q = Point::new(v.txid, v.name.clone(), v.value.copy(), p.status, Cot::Inf, p.ts);
                if fresh { Ok(Some(FnFlow::New(q))) } else { Ok(Some(FnFlow::Old(q))) }
            }
        }
    }
}

} // verus!
