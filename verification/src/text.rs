//! Building of identifiers and messages.
use vstd::prelude::*;

verus! {

/// The decimal digit for `d < 10`.
pub open spec fn digit_char(d: nat) -> char {
    if d == 0 { '0' } else if d == 1 { '1' } else if d == 2 { '2' } else if d == 3 { '3' }
    else if d == 4 { '4' } else if d == 5 { '5' } else if d == 6 { '6' } else if d == 7 { '7' }
    else if d == 8 { '8' } else { '9' }
}

/// The decimal notation of `n`, without leading zeros.
pub open spec fn decimal(n: nat) -> Seq<char>
    decreases n,
{
    if n < 10 {
        seq![digit_char(n)]
    } else {
        decimal(n / 10).push(digit_char(n % 10))
    }
}

/// The identifier of a node: its parent's identifier, `/`, its kind and its sequence number.
pub open spec fn node_id_text(parent: Seq<char>, kind: Seq<char>, seq: usize) -> Seq<char> {
    parent + seq!['/'] + kind + decimal(seq as nat)
}

/// Appends the character `c` to `s` (`String::push`).
#[verifier::external_body]
fn push_char(s: &mut String, c: char)
    ensures
        final(s)@ == old(s)@.push(c),
{
    s.push(c);
}

/// Turns a sequence of characters into a `String`.
pub fn chars_to_string(v: &Vec<char>) -> (r: String)
    ensures
        r@ == v@,
{
    let mut r = String::new();
    let mut i: usize = 0;
    while i < v.len()
        invariant
            i <= v.len(),
            r@ == v@.subrange(0, i as int),
        decreases v.len() - i,
    {
        push_char(&mut r, v[i]);
        i = i + 1;
        assert(r@ =~= v@.subrange(0, i as int));
    }
    assert(v@.subrange(0, v.len() as int) =~= v@);
    r
}

/// Returns the characters of `s`.
pub fn chars_of(s: &str) -> (r: Vec<char>)
    ensures
        r@ == s@,
{
    let n = s.unicode_len();
    let mut r: Vec<char> = Vec::new();
    let mut i: usize = 0;
    while i < n
        invariant
            i <= n,
            n == s@.len(),
            r@ == s@.subrange(0, i as int),
        decreases n - i,
    {
        r.push(s.get_char(i));
        i = i + 1;
        assert(r@ =~= s@.subrange(0, i as int));
    }
    assert(s@.subrange(0, n as int) =~= s@);
    r
}

/// `true` for the characters with the Unicode `White_Space` property.
pub open spec fn is_white_space(c: char) -> bool {
    ||| ('\u{9}' <= c && c <= '\u{d}')
    ||| c == ' '
    ||| c == '\u{85}'
    ||| c == '\u{a0}'
    ||| c == '\u{1680}'
    ||| ('\u{2000}' <= c && c <= '\u{200a}')
    ||| c == '\u{2028}'
    ||| c == '\u{2029}'
    ||| c == '\u{202f}'
    ||| c == '\u{205f}'
    ||| c == '\u{3000}'
}

/// `s` without its leading white space.
pub open spec fn trim_start(s: Seq<char>) -> Seq<char>
    decreases s.len(),
{
    if s.len() > 0 && is_white_space(s[0]) { trim_start(s.drop_first()) } else { s }
}

/// `s` without its trailing white space.
pub open spec fn trim_end(s: Seq<char>) -> Seq<char>
    decreases s.len(),
{
    if s.len() > 0 && is_white_space(s.last()) { trim_end(s.drop_last()) } else { s }
}

/// `s` without its leading and trailing white space.
pub open spec fn trimmed(s: Seq<char>) -> Seq<char> {
    trim_end(trim_start(s))
}

/// Returns `true` if `c` has the Unicode `White_Space` property.
pub fn is_white(c: char) -> (r: bool)
    ensures
        r == is_white_space(c),
{
    ('\u{9}' <= c && c <= '\u{d}') || c == ' ' || c == '\u{85}' || c == '\u{a0}' || c == '\u{1680}'
        || ('\u{2000}' <= c && c <= '\u{200a}') || c == '\u{2028}' || c == '\u{2029}'
        || c == '\u{202f}' || c == '\u{205f}' || c == '\u{3000}'
}

/// Returns `s` without its leading and trailing white space.
pub fn trim(s: &str) -> (r: &str)
    ensures
        r@ == trimmed(s@),
{
    let n = s.unicode_len();
    let mut a: usize = 0;
    assert(s@.subrange(0, n as int) =~= s@);
    while a < n && is_white(s.get_char(a))
        invariant
            a <= n,
            n == s@.len(),
            trim_start(s@) == trim_start(s@.subrange(a as int, n as int)),
        decreases n - a,
    {
        assert(s@.subrange(a as int, n as int).drop_first() =~= s@.subrange(a as int + 1, n as int));
        a = a + 1;
    }
    if a == n {
        assert(s@.subrange(a as int, n as int) =~= Seq::<char>::empty());
    }
    let mut b: usize = n;
    while b > a && is_white(s.get_char(b - 1))
        invariant
            a <= b <= n,
            n == s@.len(),
            trim_start(s@) == s@.subrange(a as int, n as int),
            trim_end(s@.subrange(a as int, n as int)) == trim_end(s@.subrange(a as int, b as int)),
        decreases b - a,
    {
        assert(s@.subrange(a as int, b as int).drop_last() =~= s@.subrange(a as int, b as int - 1));
        b = b - 1;
    }
    if b == a {
        assert(s@.subrange(a as int, b as int) =~= Seq::<char>::empty());
    }
    s.substring_char(a, b)
}

fn digit(d: u64) -> (c: char)
    requires
        d < 10,
    ensures
        c == digit_char(d as nat),
{
    if d == 0 { '0' } else if d == 1 { '1' } else if d == 2 { '2' } else if d == 3 { '3' }
    else if d == 4 { '4' } else if d == 5 { '5' } else if d == 6 { '6' } else if d == 7 { '7' }
    else if d == 8 { '8' } else { '9' }
}

/// Returns the decimal notation of `n`.
pub fn decimal_text(n: u64) -> (r: String)
    ensures
        r@ == decimal(n as nat),
{
    let mut acc: Vec<char> = Vec::new();
    acc.push(digit(n % 10));
    let mut rest: u64 = n / 10;
    while rest > 0
        invariant
            decimal(n as nat) == (if rest == 0 { acc@ } else { decimal(rest as nat) + acc@ }),
        decreases rest,
    {
        let d = digit(rest % 10);
        let mut next: Vec<char> = Vec::new();
        next.push(d);
        let mut i: usize = 0;
        while i < acc.len()
            invariant
                i <= acc.len(),
                next@ == seq![d] + acc@.subrange(0, i as int),
            decreases acc.len() - i,
        {
            next.push(acc[i]);
            i = i + 1;
        }
        assert(acc@.subrange(0, acc.len() as int) =~= acc@);
        assert(decimal(rest as nat) == (if rest / 10 == 0 { seq![d] } else { decimal((rest / 10) as nat) + seq![d] }));
        assert(rest / 10 != 0 ==> decimal(rest as nat) + acc@ =~= decimal((rest / 10) as nat) + next@);
        acc = next;
        rest = rest / 10;
    }
    chars_to_string(&acc)
}

/// Returns the identifier of a node: `parent/kind<seq>`.
pub fn node_id(parent: &str, kind: &str, seq: usize) -> (r: String)
    ensures
        r@ == node_id_text(parent@, kind@, seq),
{
    let mut id = String::from_str(parent);
    id.append("/");
    id.append(kind);
    let n = decimal_text(seq as u64);
    id.append(n.as_str());
    proof { reveal_strlit("/"); }
    assert(id@ =~= node_id_text(parent@, kind@, seq));
    id
}

/// The value of a sequence of decimal digits.
pub open spec fn digits_value(d: Seq<char>) -> int
    decreases d.len(),
{
    if d.len() == 0 {
        0
    } else {
        digits_value(d.drop_last()) * 10 + (d.last() as int - '0' as int)
    }
}

proof fn lemma_digit_value(d: nat)
    requires
        d < 10,
    ensures
        digit_char(d) as int - '0' as int == d,
{
}

/// The decimal notation of `n` reads back as `n`.
pub proof fn lemma_decimal_value(n: nat)
    ensures
        digits_value(decimal(n)) == n,
    decreases n,
{
    if n < 10 {
        lemma_digit_value(n);
        let d = decimal(n);
        assert(d.drop_last() =~= Seq::<char>::empty());
        assert(digits_value(d.drop_last()) == 0);
        assert(d.last() == digit_char(n));
        assert(digits_value(d) == digits_value(d.drop_last()) * 10 + (d.last() as int - '0' as int));
    } else {
        lemma_decimal_value(n / 10);
        lemma_digit_value(n % 10);
        let d = decimal(n);
        assert(d.drop_last() =~= decimal(n / 10));
        assert(d.last() == digit_char(n % 10));
        assert(digits_value(d) == digits_value(d.drop_last()) * 10 + (d.last() as int - '0' as int));
        assert((n / 10) * 10 + n % 10 == n);
    }
}

/// Nodes of one kind under one parent get different identifiers when their
/// sequence numbers differ.
pub proof fn lemma_distinct_ids(parent: Seq<char>, kind: Seq<char>, a: usize, b: usize)
    requires
        a != b,
    ensures
        node_id_text(parent, kind, a) != node_id_text(parent, kind, b),
{
    let prefix = parent + seq!['/'] + kind;
    if node_id_text(parent, kind, a) == node_id_text(parent, kind, b) {
        assert((prefix + decimal(a as nat)).skip(prefix.len() as int) =~= decimal(a as nat));
        assert((prefix + decimal(b as nat)).skip(prefix.len() as int) =~= decimal(b as nat));
        lemma_decimal_value(a as nat);
        lemma_decimal_value(b as nat);
    }
}

/// Hands out the sequence numbers of the nodes of a task, from 1 on: each
/// number once, so that nodes of one kind under one parent get distinct ids.
#[derive(Debug)]
pub struct SeqCounter {
    next: usize,
}

impl SeqCounter {
    /// The number handed out next; every number handed out before is smaller.
    pub closed spec fn next_spec(&self) -> nat {
        self.next as nat
    }

    /// Returns a counter that hands out 1 first.
    pub fn new() -> (r: Self)
        ensures
            r.next_spec() == 1,
    {
        SeqCounter { next: 1 }
    }

    /// Hands out the next number.
    pub fn take(&mut self) -> (r: usize)
        requires
            old(self).next_spec() < usize::MAX,
        ensures
            r == old(self).next_spec(),
            final(self).next_spec() == r + 1,
    {
        let r = self.next;
        self.next = self.next + 1;
        r
    }
}

/// A number handed out by a counter before gives an id that differs from the
/// id of the number it hands out next.
pub proof fn lemma_counter_ids_fresh(parent: Seq<char>, kind: Seq<char>, earlier: usize, c: SeqCounter)
    requires
        earlier < c.next_spec(),
        c.next_spec() <= usize::MAX,
    ensures
        node_id_text(parent, kind, earlier) != node_id_text(parent, kind, c.next_spec() as usize),
{
    lemma_distinct_ids(parent, kind, earlier, c.next_spec() as usize);
}

/// `true` when every character of `d` is a decimal digit.
pub open spec fn all_digits(d: Seq<char>) -> bool {
    forall|i: int| 0 <= i < d.len() ==> '0' <= #[trigger] d[i] <= '9'
}

/// The `i64` written in `s`: an optional `+` or `-` followed by at least one
/// decimal digit, the value within the bounds of `i64`; `None` otherwise.
pub open spec fn parsed_i64(s: Seq<char>) -> Option<i64> {
    let neg = s.len() > 0 && s[0] == '-';
    let d = if s.len() > 0 && (s[0] == '-' || s[0] == '+') { s.skip(1) } else { s };
    if d.len() == 0 || !all_digits(d) {
        None
    } else {
        let v = if neg { -digits_value(d) } else { digits_value(d) };
        if i64::MIN <= v <= i64::MAX { Some(v as i64) } else { None }
    }
}

/// The decimal notation of a number is a nonempty run of digits.
proof fn lemma_decimal_digits(n: nat)
    ensures
        decimal(n).len() > 0,
        all_digits(decimal(n)),
    decreases n,
{
    if n >= 10 {
        lemma_decimal_digits(n / 10);
        let d = decimal(n);
        assert forall|i: int| 0 <= i < d.len() implies '0' <= #[trigger] d[i] <= '9' by {
            if i < d.len() - 1 {
                assert(d[i] == decimal(n / 10)[i]);
            }
        }
    }
}

/// Reading the decimal notation of an `i64` gives the number back.
pub proof fn lemma_parse_undoes_text(v: i64)
    ensures
        parsed_i64(signed_decimal(v as int)) == Some(v),
{
    if v < 0 {
        let m = (-(v as int)) as nat;
        lemma_decimal_digits(m);
        lemma_decimal_value(m);
        let s = signed_decimal(v as int);
        assert(s[0] == '-');
        assert(s.skip(1) =~= decimal(m));
    } else {
        lemma_decimal_digits(v as nat);
        lemma_decimal_value(v as nat);
        let s = signed_decimal(v as int);
        assert('0' <= s[0] <= '9');
    }
}

/// A bound above every value of interest: `2^63 + 1`.
pub open spec fn cap() -> int {
    0x8000_0000_0000_0001
}

proof fn lemma_digits_nonneg(d: Seq<char>)
    requires
        all_digits(d),
    ensures
        digits_value(d) >= 0,
    decreases d.len(),
{
    if d.len() > 0 {
        assert(all_digits(d.drop_last()));
        lemma_digits_nonneg(d.drop_last());
    }
}

/// Parses an `i64` written in decimal, with an optional sign.
pub fn parse_i64(s: &str) -> (r: Option<i64>)
    ensures
        r == parsed_i64(s@),
{
    let n = s.unicode_len();
    let mut start: usize = 0;
    let mut neg = false;
    if n > 0 {
        let c = s.get_char(0);
        if c == '-' {
            neg = true;
            start = 1;
        } else if c == '+' {
            start = 1;
        }
    }
    let ghost d = if s@.len() > 0 && (s@[0] == '-' || s@[0] == '+') { s@.skip(1) } else { s@ };
    assert(d == s@.subrange(start as int, n as int));
    if start == n {
        return None;
    }
    let mut v: i128 = 0;
    let mut i: usize = start;
    while i < n
        invariant
            start <= i <= n,
            n == s@.len(),
            d == s@.subrange(start as int, n as int),
            d == (if s@.len() > 0 && (s@[0] == '-' || s@[0] == '+') { s@.skip(1) } else { s@ }),
            neg == (s@.len() > 0 && s@[0] == '-'),
            all_digits(d.subrange(0, i - start)),
            0 <= v <= cap(),
            v == (if digits_value(d.subrange(0, i - start)) < cap() { digits_value(d.subrange(0, i - start)) } else { cap() }),
        decreases n - i,
    {
        let c = s.get_char(i);
        if !('0' <= c && c <= '9') {
            assert(d[i - start] == c);
            assert(!all_digits(d));

            return None;
        }
        let digit: i128 = (c as u32 - '0' as u32) as i128;
        let ghost pre = d.subrange(0, i - start);
        let ghost post = d.subrange(0, i + 1 - start);
        assert(post.drop_last() =~= pre);
        assert(post.last() == c);
        assert(all_digits(post)) by {
            assert forall|j: int| 0 <= j < post.len() implies '0' <= #[trigger] post[j] <= '9' by {
                if j < pre.len() {
                    assert(post[j] == pre[j]);
                }
            }
        }
        proof { lemma_digits_nonneg(pre); }
        let next = v * 10 + digit;
        v = if next < 0x8000_0000_0000_0001i128 { next } else { 0x8000_0000_0000_0001i128 };
        i = i + 1;
    }
    assert(d.subrange(0, n - start) =~= d);
    if neg {
        if v <= 0x8000_0000_0000_0000i128 { Some((-v) as i64) } else { None }
    } else {
        if v <= 0x7fff_ffff_ffff_ffffi128 { Some(v as i64) } else { None }
    }
}

/// The decimal notation of an integer, with a leading `-` when it is negative.
pub open spec fn signed_decimal(v: int) -> Seq<char> {
    if v < 0 { seq!['-'] + decimal((-v) as nat) } else { decimal(v as nat) }
}

/// Returns the decimal notation of `v`.
pub fn i64_text(v: i64) -> (r: String)
    ensures
        r@ == signed_decimal(v as int),
{
    if v < 0 {
        let mag: u64 = if v == i64::MIN { 0x8000_0000_0000_0000u64 } else { (-v) as u64 };
        let mut r = String::from_str("-");
        let d = decimal_text(mag);
        r.append(d.as_str());
        proof { reveal_strlit("-"); }
        assert(r@ =~= signed_decimal(v as int));
        r
    } else {
        decimal_text(v as u64)
    }
}

/// The text of a boolean.
pub open spec fn bool_text(b: bool) -> Seq<char> {
    if b { seq!['t', 'r', 'u', 'e'] } else { seq!['f', 'a', 'l', 's', 'e'] }
}

/// Returns `"true"` or `"false"`.
pub fn bool_to_text(b: bool) -> (r: String)
    ensures
        r@ == bool_text(b),
{
    proof {
        reveal_strlit("true");
        reveal_strlit("false");
    }
    if b { String::from_str("true") } else { String::from_str("false") }
}

} // verus!
