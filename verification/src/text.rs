use vstd::prelude::*;
use vstd::utf8::encode_utf8;

verus! {

broadcast use vstd::utf8::group_utf8_lib;

/// Number of bytes of the UTF-8 encoding of a text.
pub open spec fn utf8_len(s: Seq<char>) -> nat {
    encode_utf8(s).len()
}

/// A text's UTF-8 encoding has at least one byte per character.
pub proof fn lemma_utf8_len_at_least_chars(s: Seq<char>)
    ensures
        utf8_len(s) >= s.len(),
    decreases s.len(),
{
    if s.len() > 0 {
        lemma_utf8_len_at_least_chars(s.drop_first());
        assert(vstd::utf8::encode_scalar(s[0] as u32).len() >= 1);
    }
}

/// Compares two texts character by character.
pub fn same_text(a: &str, b: &str) -> (r: bool)
    ensures
        r == (a@ == b@),
{
    let ab = a.as_bytes();
    let bb = b.as_bytes();
    proof {
        assert(vstd::utf8::decode_utf8(encode_utf8(a@)) == a@);
        assert(vstd::utf8::decode_utf8(encode_utf8(b@)) == b@);
    }
    if ab.len() != bb.len() {
        return false;
    }
    let mut i: usize = 0;
    while i < ab.len()
        invariant
            ab@ == encode_utf8(a@),
            bb@ == encode_utf8(b@),
            ab@.len() == bb@.len(),
            0 <= i <= ab@.len(),
            forall|j: int| 0 <= j < i ==> ab@[j] == bb@[j],
        decreases ab@.len() - i,
    {
        if ab[i] != bb[i] {
            return false;
        }
        i = i + 1;
    }
    assert(ab@ =~= bb@);
    true
}

/// The character of a decimal digit.
pub open spec fn digit_char(d: nat) -> char {
    ((d + 48) as u32) as char
}

/// True for the characters `0` to `9`.
pub open spec fn is_digit(c: char) -> bool {
    '0' <= c <= '9'
}

/// The decimal digits of a natural number, most significant first, with no
/// leading zero.
pub open spec fn decimal_digits(n: nat) -> Seq<char>
    decreases n,
{
    if n < 10 {
        seq![digit_char(n)]
    } else {
        decimal_digits(n / 10) + seq![digit_char(n % 10)]
    }
}

/// The decimal text of an integer: a minus sign for negative values, then
/// the digits of its magnitude.
pub open spec fn decimal_text(v: int) -> Seq<char> {
    if v < 0 {
        seq!['-'] + decimal_digits((-v) as nat)
    } else {
        decimal_digits(v as nat)
    }
}

/// The value of a sequence of decimal digits, most significant first.
pub open spec fn digits_value(ds: Seq<char>) -> int
    decreases ds.len(),
{
    if ds.len() == 0 {
        0
    } else {
        digits_value(ds.drop_last()) * 10 + (ds.last() as int - 48)
    }
}

/// True when every character is a decimal digit.
pub open spec fn all_digits(ds: Seq<char>) -> bool {
    forall|i: int| 0 <= i < ds.len() ==> is_digit(#[trigger] ds[i])
}

/// The `i32` that a text denotes: an optional `+` or `-`, then at least one
/// decimal digit and nothing else, and a value in the range of `i32`.
pub open spec fn parse_i32_text(s: Seq<char>) -> Option<i32> {
    if s.len() == 0 {
        None
    } else {
        let signed = s[0] == '-' || s[0] == '+';
        let ds = if signed { s.drop_first() } else { s };
        if ds.len() == 0 || !all_digits(ds) {
            None
        } else {
            let v = if s[0] == '-' { -digits_value(ds) } else { digits_value(ds) };
            if i32::MIN <= v <= i32::MAX {
                Some(v as i32)
            } else {
                None
            }
        }
    }
}

proof fn lemma_decimal_digits(n: nat)
    ensures
        decimal_digits(n).len() >= 1,
        all_digits(decimal_digits(n)),
        digits_value(decimal_digits(n)) == n,
    decreases n,
{
    let d = n % 10;
    assert(is_digit(digit_char(d)) && digit_char(d) as int - 48 == d);
    if n >= 10 {
        lemma_decimal_digits(n / 10);
        let ds = decimal_digits(n);
        assert(ds.drop_last() =~= decimal_digits(n / 10));
        assert(ds.last() == digit_char(d));
        assert(digits_value(ds) == digits_value(ds.drop_last()) * 10 + (ds.last() as int - 48));
        assert((n / 10) * 10 + d == n);
        assert forall|i: int| 0 <= i < ds.len() implies is_digit(#[trigger] ds[i]) by {
            if i < ds.len() - 1 {
                assert(ds[i] == decimal_digits(n / 10)[i]);
            }
        }
    } else {
        let ds = decimal_digits(n);
        assert(ds.drop_last() =~= Seq::<char>::empty());
        assert(ds.last() == digit_char(d));
        assert(digits_value(ds) == digits_value(ds.drop_last()) * 10 + (ds.last() as int - 48));
    }
}

/// Reading back the decimal text of any `i32` gives the same `i32`.
pub proof fn lemma_parse_format_i32(v: i32)
    ensures
        parse_i32_text(decimal_text(v as int)) == Some(v),
{
    let t = decimal_text(v as int);
    if v < 0 {
        let m = (-v) as nat;
        lemma_decimal_digits(m);
        assert(t.drop_first() =~= decimal_digits(m));
    } else {
        lemma_decimal_digits(v as nat);
        assert(is_digit(t[0]));
    }
}

fn digit_str(d: u64) -> (r: &'static str)
    requires
        d < 10,
    ensures
        r@ == seq![digit_char(d as nat)],
{
    proof {
        reveal_strlit("0");
        reveal_strlit("1");
        reveal_strlit("2");
        reveal_strlit("3");
        reveal_strlit("4");
        reveal_strlit("5");
        reveal_strlit("6");
        reveal_strlit("7");
        reveal_strlit("8");
        reveal_strlit("9");
    }
    if d == 0 {
        "0"
    } else if d == 1 {
        "1"
    } else if d == 2 {
        "2"
    } else if d == 3 {
        "3"
    } else if d == 4 {
        "4"
    } else if d == 5 {
        "5"
    } else if d == 6 {
        "6"
    } else if d == 7 {
        "7"
    } else if d == 8 {
        "8"
    } else {
        "9"
    }
}

fn append_digits(s: &mut String, n: u64)
    ensures
        final(s)@ == old(s)@ + decimal_digits(n as nat),
    decreases n,
{
    if n >= 10 {
        append_digits(s, n / 10);
        s.append(digit_str(n % 10));
        assert(final(s)@ =~= old(s)@ + decimal_digits(n as nat));
    } else {
        s.append(digit_str(n));
        assert(final(s)@ =~= old(s)@ + decimal_digits(n as nat));
    }
}

/// Writes an integer in decimal, as `i32::to_string` does.
pub fn format_i32(v: i32) -> (r: String)
    ensures
        r@ == decimal_text(v as int),
{
    let mut s = String::new();
    if v < 0 {
        proof {
            reveal_strlit("-");
        }
        s.append("-");
        let m: i64 = v as i64;
        let n: u64 = (0 - m) as u64;
        append_digits(&mut s, n);
    } else {
        append_digits(&mut s, v as u64);
    }
    assert(s@ =~= decimal_text(v as int));
    s
}

/// Reads an `i32` written in decimal, as `str::parse::<i32>` does.
pub fn parse_i32(s: &str) -> (r: Option<i32>)
    ensures
        r == parse_i32_text(s@),
{
    let n = s.unicode_len();
    if n == 0 {
        return None;
    }
    let first = s.get_char(0);
    let negative = first == '-';
    let start: usize = if first == '-' || first == '+' { 1 } else { 0 };
    if start == n {
        return None;
    }
    let ghost ds = if start == 1 { s@.drop_first() } else { s@ };
    assert(ds =~= s@.subrange(start as int, n as int));
    let bound: i64 = 2147483649;
    let mut acc: i64 = 0;
    let mut i: usize = start;
    while i < n
        invariant
            n == s@.len(),
            start <= i <= n,
            first == s@[0],
            start == (if first == '-' || first == '+' { 1usize } else { 0usize }),
            negative == (first == '-'),
            ds == (if first == '-' || first == '+' { s@.drop_first() } else { s@ }),
            ds == s@.subrange(start as int, n as int),
            all_digits(ds.take(i - start)),
            digits_value(ds.take(i - start)) >= 0,
            acc == if digits_value(ds.take(i - start)) <= bound {
                digits_value(ds.take(i - start))
            } else {
                bound as int
            },
            bound == 2147483649,
        decreases n - i,
    {
        let c = s.get_char(i);
        if !('0' <= c && c <= '9') {
            assert(!all_digits(ds)) by {
                assert(ds[i - start] == c);
            }
            return None;
        }
        let d: i64 = (c as u32 - 48) as i64;
        let ghost prev = ds.take(i - start);
        let ghost next = ds.take(i + 1 - start);
        assert(next.drop_last() =~= prev);
        assert(next.last() == c);
        let t = acc * 10 + d;
        acc = if t > bound { bound } else { t };
        i = i + 1;
        assert(all_digits(next)) by {
            assert forall|j: int| 0 <= j < next.len() implies is_digit(#[trigger] next[j]) by {
                if j < prev.len() {
                    assert(next[j] == prev[j]);
                }
            }
        }
    }
    assert(ds.take(n - start) =~= ds);
    let v: i64 = if negative { 0 - acc } else { acc };
    if v < -2147483648 || v > 2147483647 {
        None
    } else {
        Some(v as i32)
    }
}

} // verus!
