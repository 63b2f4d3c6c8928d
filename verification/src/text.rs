//! Character-level string utilities: equality, search, decimal integer
//! rendering and parsing. These are the building blocks of the credential
//! subject codec and of the human-readable messages the gateway produces.

use vstd::prelude::*;
use vstd::string::*;

verus! {

/// Mathematical rendering of a natural number in decimal.
pub open spec fn dec_digits(n: nat) -> Seq<char>
    decreases n,
{
    if n < 10 {
        seq![digit_char(n)]
    } else {
        dec_digits(n / 10).push(digit_char(n % 10))
    }
}

/// Mathematical rendering of a signed number in decimal.
pub open spec fn i32_dec(n: int) -> Seq<char> {
    if n < 0 {
        seq!['-'] + dec_digits((-n) as nat)
    } else {
        dec_digits(n as nat)
    }
}

/// The decimal digit character for a value below ten.
pub open spec fn digit_char(d: nat) -> char {
    if d == 0 {
        '0'
    } else if d == 1 {
        '1'
    } else if d == 2 {
        '2'
    } else if d == 3 {
        '3'
    } else if d == 4 {
        '4'
    } else if d == 5 {
        '5'
    } else if d == 6 {
        '6'
    } else if d == 7 {
        '7'
    } else if d == 8 {
        '8'
    } else {
        '9'
    }
}

pub open spec fn is_digit(c: char) -> bool {
    '0' <= c && c <= '9'
}

pub open spec fn digit_val(c: char) -> nat {
    ((c as u32) - 48) as nat
}

pub open spec fn all_digits(s: Seq<char>) -> bool {
    forall|i: int| 0 <= i < s.len() ==> is_digit(#[trigger] s[i])
}

/// The numeric value of a digit string, most significant digit first.
pub open spec fn dec_val(s: Seq<char>) -> nat
    decreases s.len(),
{
    if s.len() == 0 {
        0
    } else {
        dec_val(s.drop_last()) * 10 + digit_val(s.last())
    }
}

/// What parsing a decimal `i32` accepts: an optional leading minus sign,
/// then at least one digit, with the value in range.
pub open spec fn parse_i32_chars(s: Seq<char>) -> Option<i32> {
    if s.len() > 0 && s[0] == '-' {
        let d = s.skip(1);
        if d.len() > 0 && all_digits(d) && dec_val(d) <= 0x8000_0000 {
            Some((-(dec_val(d) as int)) as i32)
        } else {
            None
        }
    } else {
        if s.len() > 0 && all_digits(s) && dec_val(s) <= 0x7fff_ffff {
            Some(dec_val(s) as i32)
        } else {
            None
        }
    }
}

fn digit_str(d: u64) -> (r: &'static str)
    requires
        d < 10,
    ensures
        r@ == seq![digit_char(d as nat)],
{
    proof {
        reveal_strlit("0");
        reveal_strlit("1");
        reveal_strlit("2");
        reveal_strlit("3");
        reveal_strlit("4");
        reveal_strlit("5");
        reveal_strlit("6");
        reveal_strlit("7");
        reveal_strlit("8");
        reveal_strlit("9");
    }
    match d {
        0 => "0",
        1 => "1",
        2 => "2",
        3 => "3",
        4 => "4",
        5 => "5",
        6 => "6",
        7 => "7",
        8 => "8",
        _ => "9",
    }
}

/// Appends the decimal rendering of `n` to `out`.
pub fn push_u64_dec(n: u64, out: &mut String)
    ensures
        final(out)@ == old(out)@ + dec_digits(n as nat),
    decreases n,
{
    if n >= 10 {
        push_u64_dec(n / 10, out);
        out.append(digit_str(n % 10));
        assert(out@ =~= old(out)@ + dec_digits(n as nat));
    } else {
        out.append(digit_str(n));
        assert(out@ =~= old(out)@ + dec_digits(n as nat));
    }
}

/// Renders an unsigned number in decimal.
pub fn u64_dec_string(n: u64) -> (r: String)
    ensures
        r@ == dec_digits(n as nat),
{
    let mut out = String::new();
    push_u64_dec(n, &mut out);
    assert(out@ =~= dec_digits(n as nat));
    out
}

/// Renders a signed number in decimal, with a leading minus sign when
/// negative.
pub fn i32_dec_string(n: i32) -> (r: String)
    ensures
        r@ == i32_dec(n as int),
{
    if n < 0 {
        proof {
            reveal_strlit("-");
        }
        let mut out = String::from_str("-");
        let m: u64 = (-(n as i64)) as u64;
        push_u64_dec(m, &mut out);
        assert(out@ =~= i32_dec(n as int));
        out
    } else {
        u64_dec_string(n as u64)
    }
}

fn digit_of_char(c: char) -> (r: u64)
    requires
        is_digit(c),
    ensures
        r == digit_val(c),
        r < 10,
{
    ((c as u32) - 48) as u64
}

/// Growing a digit string can only grow its value.
proof fn lemma_dec_val_take_monotonic(s: Seq<char>, i: int)
    requires
        0 <= i <= s.len(),
    ensures
        dec_val(s.take(i)) <= dec_val(s),
    decreases s.len() - i,
{
    if i < s.len() {
        assert(s.take(i + 1).drop_last() =~= s.take(i));
        assert(dec_val(s.take(i)) <= dec_val(s.take(i + 1)));
        lemma_dec_val_take_monotonic(s, i + 1);
    } else {
        assert(s.take(i) =~= s);
    }
}

/// Parses a decimal `i32`, accepting exactly what `parse_i32_chars` accepts.
pub fn parse_i32(s: &str) -> (r: Option<i32>)
    ensures
        r == parse_i32_chars(s@),
{
    let n = s.unicode_len();
    let negative = n > 0 && s.get_char(0) == '-';
    let start: usize = if negative {
        1
    } else {
        0
    };
    if n == start {
        return None;
    }
    let ghost digits: Seq<char> = if negative {
        s@.skip(1)
    } else {
        s@
    };
    let mut acc: u64 = 0;
    let mut i: usize = start;
    while i < n
        invariant
            start <= i <= n,
            n == s@.len(),
            start == if negative { 1int } else { 0int },
            negative == (s@.len() > 0 && s@[0] == '-'),
            digits == if negative { s@.skip(1) } else { s@ },
            acc == dec_val(digits.take(i - start)),
            acc <= 0xffff_ffff,
            forall|j: int| 0 <= j < i - start ==> is_digit(#[trigger] digits[j]),
        decreases n - i,
    {
        let c = s.get_char(i);
        if !(c >= '0' && c <= '9') {
            assert(!is_digit(digits[i - start]));
            return None;
        }
        let d = digit_of_char(c);
        acc = acc * 10 + d;
        assert(digits.take(i - start + 1).drop_last() =~= digits.take(i - start));
        i = i + 1;
        if acc > 0xffff_ffff {
            proof {
                lemma_dec_val_take_monotonic(digits, i - start);
            }
            assert(dec_val(digits) > 0x8000_0000);
            return None;
        }
    }
    assert(digits.take(i - start) =~= digits);
    assert(all_digits(digits));
    if negative {
        if acc > 0x8000_0000 {
            None
        } else {
            Some((-(acc as i64)) as i32)
        }
    } else {
        if acc > 0x7fff_ffff {
            None
        } else {
            Some(acc as i32)
        }
    }
}

/// Every character of a decimal rendering is a digit.
pub proof fn lemma_dec_digits_all_digits(n: nat)
    ensures
        all_digits(dec_digits(n)),
    decreases n,
{
    if n >= 10 {
        lemma_dec_digits_all_digits(n / 10);
    }
}

proof fn lemma_digit_val_char(d: nat)
    requires
        d < 10,
    ensures
        digit_val(digit_char(d)) == d,
{
}

/// Parsing is left inverse to rendering, for natural values.
pub proof fn lemma_dec_val_of_digits(n: nat)
    ensures
        dec_val(dec_digits(n)) == n,
    decreases n,
{
    if n < 10 {
        lemma_digit_val_char(n);
        assert(dec_digits(n) =~= seq![digit_char(n)]);
        assert(dec_digits(n).drop_last() =~= Seq::<char>::empty());
        assert(dec_val(Seq::<char>::empty()) == 0);
        assert(dec_digits(n).last() == digit_char(n));
        assert(dec_val(dec_digits(n)) == digit_val(digit_char(n)));
    } else {
        lemma_dec_val_of_digits(n / 10);
        lemma_digit_val_char(n % 10);
        assert(dec_digits(n) =~= dec_digits(n / 10).push(digit_char(n % 10)));
        assert(dec_digits(n).drop_last() =~= dec_digits(n / 10));
        assert(dec_digits(n).last() == digit_char(n % 10));
        assert(dec_val(dec_digits(n)) == dec_val(dec_digits(n / 10)) * 10 + digit_val(
            digit_char(n % 10),
        ));
    }
}

/// Parsing is left inverse to rendering, for `i32` values.
pub proof fn lemma_parse_i32_roundtrip(n: i32)
    ensures
        parse_i32_chars(i32_dec(n as int)) == Some(n),
{
    if n < 0 {
        let m = (-(n as int)) as nat;
        lemma_dec_digits_all_digits(m);
        lemma_dec_val_of_digits(m);
        assert(i32_dec(n as int).skip(1) =~= dec_digits(m));
    } else {
        lemma_dec_digits_all_digits(n as nat);
        lemma_dec_val_of_digits(n as nat);
        assert(i32_dec(n as int)[0] != '-');
    }
}

/// Finds the first occurrence of `c` in `s` at or after `from`.
pub open spec fn find_from(s: Seq<char>, from: int, c: char) -> Option<int>
    decreases s.len() - from,
{
    if from < 0 || from >= s.len() {
        None
    } else if s[from] == c {
        Some(from)
    } else {
        find_from(s, from + 1, c)
    }
}

/// Finds the first occurrence of `c` in `s` at or after `from`.
pub fn find_char(s: &str, from: usize, c: char) -> (r: Option<usize>)
    requires
        from <= s@.len(),
    ensures
        match r {
            Some(i) => from <= i < s@.len() && find_from(s@, from as int, c) == Some(i as int),
            None => find_from(s@, from as int, c) is None,
        },
    decreases s@.len() - from,
{
    if from == s.unicode_len() {
        None
    } else if s.get_char(from) == c {
        Some(from)
    } else {
        find_char(s, from + 1, c)
    }
}

/// Character-for-character string equality.
pub fn str_eq(s: &str, t: &str) -> (r: bool)
    ensures
        r == (s@ == t@),
{
    let n = s.unicode_len();
    if n != t.unicode_len() {
        return false;
    }
    let mut i: usize = 0;
    while i < n
        invariant
            i <= n,
            n == s@.len(),
            n == t@.len(),
            forall|j: int| 0 <= j < i ==> s@[j] == t@[j],
        decreases n - i,
    {
        if s.get_char(i) != t.get_char(i) {
            return false;
        }
        i = i + 1;
    }
    proof {
        assert(s@ =~= t@);
    }
    true
}

/// The label the request log gives a latency measured in microseconds:
/// whole milliseconds when at least one has passed, else microseconds.
pub open spec fn latency_chars(micros: u64) -> Seq<char> {
    if micros >= 1000 {
        dec_digits((micros / 1000) as nat) + " ms"@
    } else {
        dec_digits(micros as nat) + " \u{3bc}s"@
    }
}

/// Renders a latency in the unit the request log uses.
pub fn latency_label(micros: u64) -> (r: String)
    ensures
        r@ == latency_chars(micros),
{
    if micros >= 1000 {
        let mut out = u64_dec_string(micros / 1000);
        out.append(" ms");
        out
    } else {
        let mut out = u64_dec_string(micros);
        out.append(" \u{3bc}s");
        out
    }
}

} // verus!
