//! Text helpers over character sequences.

use vstd::prelude::*;
use vstd::string::*;

verus! {

/// Whether two string slices hold the same characters.
pub fn str_eq(a: &str, b: &str) -> (res: bool)
    ensures
        res == (a@ == b@),
{
    let x = a.to_owned();
    let y = b.to_owned();
    x == y
}

/// The characters of a string slice, in order.
pub fn chars_of(s: &str) -> (v: Vec<char>)
    ensures
        v@ == s@,
{
    let mut v: Vec<char> = Vec::new();
    for c in it: s.chars()
        invariant
            v@ == it.seq().take(it.index() as int),
            it.seq() == s@,
    {
        v.push(c);
    }
    v
}

pub open spec fn digit_char(d: nat) -> char {
    if d == 0 { '0' } else if d == 1 { '1' } else if d == 2 { '2' } else if d == 3 { '3' }
    else if d == 4 { '4' } else if d == 5 { '5' } else if d == 6 { '6' } else if d == 7 { '7' }
    else if d == 8 { '8' } else { '9' }
}

/// Decimal rendering of a natural number, most significant digit first.
pub open spec fn decimal_chars(n: nat) -> Seq<char>
    decreases n,
{
    if n < 10 {
        seq![digit_char(n)]
    } else {
        decimal_chars(n / 10).push(digit_char(n % 10))
    }
}

fn digit_str(d: u64) -> (r: &'static str)
    requires
        d < 10,
    ensures
        r@ == seq![digit_char(d as nat)],
{
    if d == 0 { proof { reveal_strlit("0"); } "0" }
    else if d == 1 { proof { reveal_strlit("1"); } "1" }
    else if d == 2 { proof { reveal_strlit("2"); } "2" }
    else if d == 3 { proof { reveal_strlit("3"); } "3" }
    else if d == 4 { proof { reveal_strlit("4"); } "4" }
    else if d == 5 { proof { reveal_strlit("5"); } "5" }
    else if d == 6 { proof { reveal_strlit("6"); } "6" }
    else if d == 7 { proof { reveal_strlit("7"); } "7" }
    else if d == 8 { proof { reveal_strlit("8"); } "8" }
    else { proof { reveal_strlit("9"); } "9" }
}

/// Appends the decimal rendering of `n`.
pub fn append_decimal(s: &mut String, n: u64)
    ensures
        final(s)@ == old(s)@ + decimal_chars(n as nat),
    decreases n,
{
    if n >= 10 {
        append_decimal(s, n / 10);
    }
    s.append(digit_str(n % 10));
}

} // verus!

verus! {

/// Characters are counted as the character count of the text, not its bytes.
pub open spec fn length_within(s: Seq<char>, min: nat, max: nat) -> bool {
    min <= s.len() && s.len() <= max
}

/// Whether the character count of `s` lies in `min..=max`.
pub fn length_between(s: &String, min: usize, max: usize) -> (r: bool)
    ensures
        r == length_within(s@, min as nat, max as nat),
{
    let n = chars_of(s.as_str()).len();
    min <= n && n <= max
}

/// Decimal rendering of an integer, with a leading '-' when negative.
pub open spec fn int_chars(i: int) -> Seq<char> {
    if i < 0 {
        seq!['-'] + decimal_chars((-i) as nat)
    } else {
        decimal_chars(i as nat)
    }
}

/// Appends the decimal rendering of a signed integer.
pub fn append_int(s: &mut String, i: i64)
    ensures
        final(s)@ == old(s)@ + int_chars(i as int),
{
    if i < 0 {
        proof { reveal_strlit("-"); }
        s.append("-");
        let m: i128 = -(i as i128);
        let u: u64 = m as u64;
        append_decimal(s, u);
        assert(old(s)@ + seq!['-'] + decimal_chars(u as nat) =~= old(s)@ + int_chars(i as int));
    } else {
        append_decimal(s, i as u64);
    }
}

/// `prefix` followed by `s`.
pub fn concat_str(prefix: &str, s: &str) -> (r: String)
    ensures
        r@ == prefix@ + s@,
{
    let mut m = prefix.to_owned();
    m.append(s);
    m
}

} // verus!

verus! {

/// Appends one character. (`String::push`.)
#[verifier::external_body]
pub(crate) fn push_char(s: &mut String, c: char)
    ensures
        final(s)@ == old(s)@.push(c),
{
    s.push(c);
}

/// ASCII upper-case letters become lower-case; every other character stays.
pub open spec fn ascii_lower(c: char) -> char {
    if 'A' <= c && c <= 'Z' {
        ((c as u32) + 32) as char
    } else {
        c
    }
}

pub open spec fn ascii_lower_seq(s: Seq<char>) -> Seq<char> {
    s.map_values(|c: char| ascii_lower(c))
}

fn ascii_lower_char(c: char) -> (r: char)
    ensures
        r == ascii_lower(c),
{
    if 'A' <= c && c <= 'Z' {
        let b: u8 = (c as u32) as u8;
        (b + 32) as char
    } else {
        c
    }
}

/// The text with its ASCII letters in lower case. (`str::to_ascii_lowercase`.)
pub fn to_ascii_lowercase(s: &str) -> (r: String)
    ensures
        r@ == ascii_lower_seq(s@),
{
    let cs = chars_of(s);
    let mut out = String::new();
    let mut i: usize = 0;
    while i < cs.len()
        invariant
            cs@ == s@,
            i <= cs@.len(),
            out@ == ascii_lower_seq(cs@.take(i as int)),
        decreases cs@.len() - i,
    {
        let c = ascii_lower_char(cs[i]);
        push_char(&mut out, c);
        assert(ascii_lower_seq(cs@.take(i + 1)) =~= ascii_lower_seq(cs@.take(i as int)).push(c));
        i += 1;
    }
    assert(cs@.take(cs@.len() as int) =~= cs@);
    out
}

} // verus!

verus! {

/// Why a text is not an integer of the wanted type (as `core::num::IntErrorKind`).
#[derive(Debug, Clone, Copy, PartialEq, Eq, Structural)]
pub enum IntErrorKind {
    Empty,
    InvalidDigit,
    PosOverflow,
    NegOverflow,
}

pub open spec fn is_digit(c: char) -> bool {
    '0' <= c && c <= '9'
}

pub open spec fn digit_value(c: char) -> int {
    (c as int) - ('0' as int)
}

/// Reads decimal digits left to right onto `acc`; the first character that is
/// not a digit, or the first digit that takes the value past `limit`, stops it.
pub open spec fn scan_digits(ds: Seq<char>, acc: int, neg: bool, limit: int) -> Result<int, IntErrorKind>
    decreases ds.len(),
{
    if ds.len() == 0 {
        Ok(acc)
    } else if !is_digit(ds[0]) {
        Err(IntErrorKind::InvalidDigit)
    } else {
        let v = acc * 10 + digit_value(ds[0]);
        if v > limit {
            Err(if neg { IntErrorKind::NegOverflow } else { IntErrorKind::PosOverflow })
        } else {
            scan_digits(ds.drop_first(), v, neg, limit)
        }
    }
}

/// A decimal integer in `-min_abs..=max` as Rust's `FromStr` for integers
/// reads it: an optional `+`, or `-` for signed types, then at least one
/// digit and nothing else.
pub open spec fn parse_int_spec(s: Seq<char>, signed: bool, max: int, min_abs: int) -> Result<int, IntErrorKind> {
    if s.len() == 0 {
        Err(IntErrorKind::Empty)
    } else if (s[0] == '+' || s[0] == '-') && s.len() == 1 {
        Err(IntErrorKind::InvalidDigit)
    } else if s[0] == '+' {
        scan_digits(s.drop_first(), 0, false, max)
    } else if s[0] == '-' && signed {
        match scan_digits(s.drop_first(), 0, true, min_abs) {
            Ok(v) => Ok(-v),
            Err(e) => Err(e),
        }
    } else {
        scan_digits(s, 0, false, max)
    }
}

fn scan_digits_exec(cs: &Vec<char>, start: usize, neg: bool, limit: u64) -> (r: Result<u64, IntErrorKind>)
    requires
        start <= cs@.len(),
    ensures
        r matches Ok(v) ==> v <= limit,
        r matches Ok(v) ==> scan_digits(cs@.skip(start as int), 0, neg, limit as int) == Ok::<int, IntErrorKind>(v as int),
        r matches Err(e) ==> scan_digits(cs@.skip(start as int), 0, neg, limit as int) == Err::<int, IntErrorKind>(e),
{
    let mut acc: u64 = 0;
    let mut i = start;
    while i < cs.len()
        invariant
            start <= i <= cs@.len(),
            acc <= limit,
            scan_digits(cs@.skip(start as int), 0, neg, limit as int) == scan_digits(cs@.skip(i as int), acc as int, neg, limit as int),
        decreases cs@.len() - i,
    {
        let c = cs[i];
        assert(cs@.skip(i as int)[0] == c);
        assert(cs@.skip(i as int).drop_first() =~= cs@.skip(i + 1));
        if !('0' <= c && c <= '9') {
            return Err(IntErrorKind::InvalidDigit);
        }
        let d: u64 = ((c as u32) - ('0' as u32)) as u64;
        let v: u128 = (acc as u128) * 10 + (d as u128);
        if v > limit as u128 {
            return Err(if neg { IntErrorKind::NegOverflow } else { IntErrorKind::PosOverflow });
        }
        acc = v as u64;
        i += 1;
    }
    assert(cs@.skip(i as int).len() == 0);
    Ok(acc)
}

/// Reads a decimal integer in `-min_abs..=max`, as Rust's `FromStr` for
/// integers does.
pub fn parse_int(s: &str, signed: bool, max: u64, min_abs: u64) -> (r: Result<i128, IntErrorKind>)
    ensures
        r matches Ok(v) ==> -(min_abs as int) <= v <= max,
        r matches Ok(v) ==> parse_int_spec(s@, signed, max as int, min_abs as int) == Ok::<int, IntErrorKind>(v as int),
        r matches Err(e) ==> parse_int_spec(s@, signed, max as int, min_abs as int) == Err::<int, IntErrorKind>(e),
{
    let cs = chars_of(s);
    let n = cs.len();
    if n == 0 {
        return Err(IntErrorKind::Empty);
    }
    let c0 = cs[0];
    if (c0 == '+' || c0 == '-') && n == 1 {
        return Err(IntErrorKind::InvalidDigit);
    }
    assert(cs@.skip(1) =~= s@.drop_first());
    assert(cs@.skip(0) =~= s@);
    if c0 == '+' {
        match scan_digits_exec(&cs, 1, false, max) {
            Ok(v) => Ok(v as i128),
            Err(e) => Err(e),
        }
    } else if c0 == '-' && signed {
        match scan_digits_exec(&cs, 1, true, min_abs) {
            Ok(v) => Ok(-(v as i128)),
            Err(e) => Err(e),
        }
    } else {
        match scan_digits_exec(&cs, 0, false, max) {
            Ok(v) => Ok(v as i128),
            Err(e) => Err(e),
        }
    }
}

/// The text std gives each kind of integer parse error.
pub open spec fn int_error_text(k: IntErrorKind) -> Seq<char> {
    match k {
        IntErrorKind::Empty => "cannot parse integer from empty string"@,
        IntErrorKind::InvalidDigit => "invalid digit found in string"@,
        IntErrorKind::PosOverflow => "number too large to fit in target type"@,
        IntErrorKind::NegOverflow => "number too small to fit in target type"@,
    }
}

pub fn int_error_message(k: IntErrorKind) -> (r: &'static str)
    ensures
        r@ == int_error_text(k),
{
    match k {
        IntErrorKind::Empty => "cannot parse integer from empty string",
        IntErrorKind::InvalidDigit => "invalid digit found in string",
        IntErrorKind::PosOverflow => "number too large to fit in target type",
        IntErrorKind::NegOverflow => "number too small to fit in target type",
    }
}

} // verus!

verus! {

/// Unicode White_Space, the characters `str::trim` removes.
pub open spec fn is_ws(c: char) -> bool {
    let u = c as u32;
    (0x9 <= u && u <= 0xd) || u == 0x20 || u == 0x85 || u == 0xa0 || u == 0x1680 || (0x2000 <= u
        && u <= 0x200a) || u == 0x2028 || u == 0x2029 || u == 0x202f || u == 0x205f || u == 0x3000
}

pub fn is_whitespace(c: char) -> (r: bool)
    ensures
        r == is_ws(c),
{
    let u = c as u32;
    (0x9 <= u && u <= 0xd) || u == 0x20 || u == 0x85 || u == 0xa0 || u == 0x1680 || (0x2000 <= u
        && u <= 0x200a) || u == 0x2028 || u == 0x2029 || u == 0x202f || u == 0x205f || u == 0x3000
}

/// Index of the first character of `s` from `i` on that is not white space.
pub open spec fn ws_end(s: Seq<char>, i: int) -> int
    decreases s.len() - i,
{
    if i >= s.len() || !is_ws(s[i]) { i } else { ws_end(s, i + 1) }
}

/// One past the last character of `s[..j]` that is not white space.
pub open spec fn ws_start_back(s: Seq<char>, j: int) -> int
    decreases j,
{
    if j <= 0 || !is_ws(s[j - 1]) { j } else { ws_start_back(s, j - 1) }
}

/// `s` without white space at either end.
pub open spec fn trim(s: Seq<char>) -> Seq<char> {
    let a = ws_end(s, 0);
    let b = ws_start_back(s, s.len() as int);
    if a >= b { Seq::empty() } else { s.subrange(a, b) }
}

proof fn lemma_ws_end_bounds(s: Seq<char>, i: int)
    requires
        0 <= i <= s.len(),
    ensures
        i <= ws_end(s, i) <= s.len(),
        forall|k: int| i <= k < ws_end(s, i) ==> is_ws(s[k]),
        ws_end(s, i) < s.len() ==> !is_ws(s[ws_end(s, i)]),
    decreases s.len() - i,
{
    if i < s.len() && is_ws(s[i]) {
        lemma_ws_end_bounds(s, i + 1);
    }
}

proof fn lemma_ws_back_bounds(s: Seq<char>, j: int)
    requires
        0 <= j <= s.len(),
    ensures
        0 <= ws_start_back(s, j) <= j,
        forall|k: int| ws_start_back(s, j) <= k < j ==> is_ws(s[k]),
        ws_start_back(s, j) > 0 ==> !is_ws(s[ws_start_back(s, j) - 1]),
    decreases j,
{
    if j > 0 && is_ws(s[j - 1]) {
        lemma_ws_back_bounds(s, j - 1);
    }
}

/// The bounds `(a, b)` of `s` trimmed: `trim(s) == s[a..b]`.
pub fn trim_bounds(s: &Vec<char>, from: usize, to: usize) -> (r: (usize, usize))
    requires
        from <= to <= s@.len(),
    ensures
        from <= r.0 <= r.1 <= to,
        s@.subrange(r.0 as int, r.1 as int) == trim(s@.subrange(from as int, to as int)),
{
    let ghost t = s@.subrange(from as int, to as int);
    let mut a = from;
    while a < to && is_whitespace(s[a])
        invariant
            from <= a <= to <= s@.len(),
            t == s@.subrange(from as int, to as int),
            ws_end(t, (a - from) as int) == ws_end(t, 0),
        decreases to - a,
    {
        assert(t[(a - from) as int] == s@[a as int]);
        a += 1;
    }
    proof {
        if a < to {
            assert(t[(a - from) as int] == s@[a as int]);
        }
        assert(ws_end(t, (a - from) as int) == (a - from) as int);
    }
    let mut b = to;
    while b > a && is_whitespace(s[b - 1])
        invariant
            from <= a <= b <= to <= s@.len(),
            t == s@.subrange(from as int, to as int),
            ws_start_back(t, (b - from) as int) == ws_start_back(t, t.len() as int),
        decreases b,
    {
        assert(t[(b - from - 1) as int] == s@[b - 1]);
        b -= 1;
    }
    proof {
        lemma_ws_end_bounds(t, 0);
        lemma_ws_back_bounds(t, t.len() as int);
        lemma_ws_back_bounds(t, (b - from) as int);
        if b > a {
            assert(t[(b - from - 1) as int] == s@[b - 1]);
            assert(ws_start_back(t, (b - from) as int) == (b - from) as int);
        } else {
            // everything from a on is white space
            assert forall|k: int| (a - from) as int <= k < t.len() implies is_ws(t[k]) by {
                if k < ws_start_back(t, t.len() as int) {
                    // k is below the trimmed end, but b == a stopped the loop
                    assert(ws_start_back(t, (b - from) as int) <= (b - from) as int);
                }
            }
        }
    }
    if b <= a {
        proof {
            assert(s@.subrange(a as int, a as int) =~= Seq::<char>::empty());
        }
        return (a, a);
    }
    proof {
        assert(s@.subrange(a as int, b as int) =~= t.subrange((a - from) as int, (b - from) as int));
    }
    (a, b)
}

} // verus!

verus! {

/// `s` begins with `p`.
pub open spec fn starts_with(s: Seq<char>, p: Seq<char>) -> bool {
    p.len() <= s.len() && s.take(p.len() as int) == p
}

pub open spec fn matches_at(s: Seq<char>, p: Seq<char>, i: int) -> bool {
    0 <= i && i + p.len() <= s.len() && s.subrange(i, i + p.len()) == p
}

/// The first position at or after `i` where `p` occurs in `s`.
pub open spec fn find_from(s: Seq<char>, p: Seq<char>, i: int) -> Option<int>
    decreases s.len() + 1 - i,
{
    if i < 0 || i + p.len() > s.len() {
        None
    } else if matches_at(s, p, i) {
        Some(i)
    } else {
        find_from(s, p, i + 1)
    }
}

/// The first position where `p` occurs in `s` (`str::find`).
pub open spec fn find(s: Seq<char>, p: Seq<char>) -> Option<int> {
    find_from(s, p, 0)
}

proof fn lemma_find_from_bounds(s: Seq<char>, p: Seq<char>, i: int)
    ensures
        find_from(s, p, i) matches Some(k) ==> i <= k && k + p.len() <= s.len() && matches_at(s, p, k),
    decreases s.len() + 1 - i,
{
    if !(i < 0 || i + p.len() > s.len()) && !matches_at(s, p, i) {
        lemma_find_from_bounds(s, p, i + 1);
    }
}

/// Whether `p` occurs in `s` at position `at`.
fn match_at(s: &Vec<char>, at: usize, to: usize, p: &Vec<char>) -> (r: bool)
    requires
        at <= to <= s@.len(),
    ensures
        r == matches_at(s@.subrange(0, to as int), p@, at as int),
{
    let n = p.len();
    if n > to - at {
        return false;
    }
    let mut k: usize = 0;
    while k < n
        invariant
            n == p@.len(),
            at + n <= to <= s@.len(),
            k <= n,
            forall|j: int| 0 <= j < k ==> s@[at + j] == p@[j],
        decreases n - k,
    {
        if s[at + k] != p[k] {
            proof {
                assert(s@.subrange(0, to as int).subrange(at as int, at + n)[k as int] != p@[k as int]);
            }
            return false;
        }
        k += 1;
    }
    proof {
        assert(s@.subrange(0, to as int).subrange(at as int, at + n) =~= p@);
    }
    true
}

/// The first position at or after `from`, below `to`, where `p` occurs in
/// `s[..to]`; as an offset from `from`.
pub fn find_in(s: &Vec<char>, from: usize, to: usize, p: &str) -> (r: Option<usize>)
    requires
        from <= to <= s@.len(),
    ensures
        r matches Some(k) ==> find(s@.subrange(from as int, to as int), p@) == Some(k as int),
        r is None ==> find(s@.subrange(from as int, to as int), p@) is None,
{
    let pv = chars_of(p);
    let ghost t = s@.subrange(from as int, to as int);
    let ghost u = s@.subrange(0, to as int);
    let mut i = from;
    while i <= to
        invariant
            from <= i,
            i <= to + 1,
            to <= s@.len(),
            pv@ == p@,
            t == s@.subrange(from as int, to as int),
            u == s@.subrange(0, to as int),
            find(t, p@) == find_from(t, p@, (i - from) as int),
        decreases to + 1 - i,
    {
        if match_at(s, i, to, &pv) {
            proof {
                assert(matches_at(u, p@, i as int));
                assert(u.subrange(i as int, i + p@.len()) =~= t.subrange((i - from) as int, (i - from) + p@.len()));
                assert(matches_at(t, p@, (i - from) as int));
            }
            return Some(i - from);
        }
        proof {
            if (i - from) + p@.len() <= t.len() {
                assert(u.subrange(i as int, i + p@.len()) =~= t.subrange((i - from) as int, (i - from) + p@.len()));
            }
        }
        if i == to {
            proof {
                assert(find_from(t, p@, (i - from + 1) as int) is None) by {
                    reveal_with_fuel(find_from, 2);
                }
            }
            return None;
        }
        i += 1;
    }
    None
}

/// The characters `s[from..to]` as a string.
pub fn string_from(s: &Vec<char>, from: usize, to: usize) -> (r: String)
    requires
        from <= to <= s@.len(),
    ensures
        r@ == s@.subrange(from as int, to as int),
{
    let mut out = String::new();
    let mut i = from;
    while i < to
        invariant
            from <= i <= to <= s@.len(),
            out@ == s@.subrange(from as int, i as int),
        decreases to - i,
    {
        push_char(&mut out, s[i]);
        assert(s@.subrange(from as int, i + 1) =~= s@.subrange(from as int, i as int).push(s@[i as int]));
        i += 1;
    }
    out
}

} // verus!

verus! {

/// Whether the characters `s` begin with `p`.
pub fn starts_with_str(s: &Vec<char>, p: &str) -> (r: bool)
    ensures
        r == starts_with(s@, p@),
{
    let pv = chars_of(p);
    let r = match_at(s, 0, s.len(), &pv);
    proof {
        assert(s@.subrange(0, s@.len() as int) =~= s@);
        if p@.len() <= s@.len() {
            assert(s@.subrange(0, p@.len() as int) =~= s@.take(p@.len() as int));
        }
    }
    r
}

} // verus!

verus! {

/// Lexicographic order of texts by character (the order of `String`'s `Ord`:
/// UTF-8 bytes compare as their characters do).
pub open spec fn seq_lt(a: Seq<char>, b: Seq<char>) -> bool
    decreases a.len(),
{
    if a.len() == 0 {
        b.len() > 0
    } else if b.len() == 0 {
        false
    } else if a[0] != b[0] {
        a[0] < b[0]
    } else {
        seq_lt(a.drop_first(), b.drop_first())
    }
}

pub proof fn lemma_seq_lt_irreflexive(a: Seq<char>)
    ensures
        !seq_lt(a, a),
    decreases a.len(),
{
    if a.len() > 0 {
        lemma_seq_lt_irreflexive(a.drop_first());
    }
}

pub proof fn lemma_seq_lt_total(a: Seq<char>, b: Seq<char>)
    ensures
        a == b || seq_lt(a, b) || seq_lt(b, a),
        !(seq_lt(a, b) && seq_lt(b, a)),
    decreases a.len(),
{
    if a.len() > 0 && b.len() > 0 {
        if a[0] == b[0] {
            lemma_seq_lt_total(a.drop_first(), b.drop_first());
            if a.drop_first() == b.drop_first() {
                assert(a =~= seq![a[0]] + a.drop_first());
                assert(b =~= seq![b[0]] + b.drop_first());
            }
        }
    } else if a.len() == 0 && b.len() == 0 {
        assert(a =~= b);
    }
}

pub proof fn lemma_seq_lt_transitive(a: Seq<char>, b: Seq<char>, c: Seq<char>)
    requires
        seq_lt(a, b),
        seq_lt(b, c),
    ensures
        seq_lt(a, c),
    decreases a.len(),
{
    if a.len() > 0 && b.len() > 0 && c.len() > 0 {
        if a[0] == b[0] && b[0] == c[0] {
            lemma_seq_lt_transitive(a.drop_first(), b.drop_first(), c.drop_first());
        }
    }
}

/// Whether `a` comes before `b`.
pub fn str_lt(a: &str, b: &str) -> (r: bool)
    ensures
        r == seq_lt(a@, b@),
{
    let x = chars_of(a);
    let y = chars_of(b);
    let mut i: usize = 0;
    proof {
        assert(a@.skip(0) =~= a@);
        assert(b@.skip(0) =~= b@);
    }
    while i < x.len() && i < y.len() && x[i] == y[i]
        invariant
            x@ == a@,
            y@ == b@,
            i <= x@.len(),
            i <= y@.len(),
            seq_lt(a@, b@) == seq_lt(a@.skip(i as int), b@.skip(i as int)),
        decreases x@.len() - i,
    {
        proof {
            assert(a@.skip(i as int).drop_first() =~= a@.skip(i + 1));
            assert(b@.skip(i as int).drop_first() =~= b@.skip(i + 1));
        }
        i += 1;
    }
    if i == x.len() {
        i < y.len()
    } else if i == y.len() {
        false
    } else {
        x[i] < y[i]
    }
}

} // verus!
