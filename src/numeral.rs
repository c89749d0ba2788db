use vstd::prelude::*;

use vstd::string::StrSliceExecFns;

verus! {

/// Whether `c` is an ASCII decimal digit.
pub open spec fn is_digit(c: char) -> bool {
    '0' <= c && c <= '9'
}

/// Whether every character of `s` is a decimal digit.
pub open spec fn all_digits(s: Seq<char>) -> bool {
    forall|i: int| 0 <= i < s.len() ==> #[trigger] is_digit(s[i])
}

/// The value of one decimal digit.
pub open spec fn digit_value(c: char) -> nat {
    (c as u32 - '0' as u32) as nat
}

/// The value of a string of decimal digits, most significant first.
pub open spec fn digits_value(s: Seq<char>) -> nat
    decreases s.len(),
{
    if s.len() == 0 {
        0
    } else {
        digits_value(s.drop_last()) * 10 + digit_value(s.last())
    }
}

/// The number that `s` denotes as a whole numeral without a minus sign: an
/// optional `+`, then one or more decimal digits.
pub open spec fn unsigned_value(s: Seq<char>) -> Option<nat> {
    let d = if s.len() > 0 && s[0] == '+' { s.skip(1) } else { s };
    if d.len() > 0 && all_digits(d) {
        Some(digits_value(d))
    } else {
        None
    }
}

/// The number that `s` denotes as a whole numeral: an optional `+` or `-`,
/// then one or more decimal digits.
pub open spec fn signed_value(s: Seq<char>) -> Option<int> {
    if s.len() > 0 && s[0] == '-' {
        let d = s.skip(1);
        if d.len() > 0 && all_digits(d) {
            Some(-digits_value(d))
        } else {
            None
        }
    } else {
        match unsigned_value(s) {
            Some(v) => Some(v as int),
            None => None,
        }
    }
}

/// `s` read as a `u8`: `None` where it is no numeral or its value does not fit.
pub open spec fn u8_of_text(s: Seq<char>) -> Option<u8> {
    match unsigned_value(s) {
        Some(v) => if v <= u8::MAX { Some(v as u8) } else { None },
        None => None,
    }
}

/// `s` read as an `i32`: `None` where it is no numeral or its value does not fit.
pub open spec fn i32_of_text(s: Seq<char>) -> Option<i32> {
    match signed_value(s) {
        Some(v) => if i32::MIN <= v <= i32::MAX { Some(v as i32) } else { None },
        None => None,
    }
}

/// A numeral's prefix never denotes more than the whole numeral.
proof fn lemma_prefix_value_le(s: Seq<char>, k: int)
    requires
        all_digits(s),
        0 <= k <= s.len(),
    ensures
        digits_value(s.take(k)) <= digits_value(s),
    decreases s.len(),
{
    if k == s.len() {
        assert(s.take(k) =~= s);
    } else {
        let p = s.drop_last();
        assert(s.take(k) =~= p.take(k));
        lemma_prefix_value_le(p, k);
        assert(digits_value(p) <= digits_value(p) * 10) by (nonlinear_arith);
    }
}

/// The value of the digits of `t` from position `start` on, where they are
/// one or more digits and their value is at most `bound`.
fn digits_up_to(t: &str, start: usize, bound: u64) -> (r: Option<u64>)
    requires
        start <= t@.len(),
        bound <= u32::MAX,
    ensures
        ({
            let d = t@.skip(start as int);
            r == if d.len() > 0 && all_digits(d) && digits_value(d) <= bound {
                Some(digits_value(d) as u64)
            } else {
                None
            }
        }),
{
    let n = t.unicode_len();
    if start >= n {
        return None;
    }
    let ghost d = t@.skip(start as int);
    let mut v: u64 = 0;
    let mut i: usize = start;
    while i < n
        invariant
            start <= i <= n,
            n == t@.len(),
            d == t@.skip(start as int),
            all_digits(d.take(i - start)),
            v as nat == digits_value(d.take(i - start)),
            v <= bound,
            bound <= u32::MAX,
        decreases n - i,
    {
        let c = t.get_char(i);
        assert(d[i - start] == c);
        if c < '0' || c > '9' {
            assert(!is_digit(d[i - start]));
            return None;
        }
        assert(d.take(i - start + 1).drop_last() =~= d.take(i - start));
        v = v * 10 + (c as u32 - '0' as u32) as u64;
        i = i + 1;
        if v > bound {
            proof {
                if all_digits(d) {
                    lemma_prefix_value_le(d, i - start);
                }
            }
            return None;
        }
    }
    assert(d.take(i - start) =~= d);
    Some(v)
}

/// Reads `t` as a `u8` numeral, as `u8`'s `FromStr` does: an optional `+`,
/// then decimal digits of a value up to 255.
pub fn parse_u8(t: &str) -> (r: Option<u8>)
    ensures
        r == u8_of_text(t@),
{
    let start: usize = if t.unicode_len() > 0 && t.get_char(0) == '+' { 1 } else { 0 };
    assert(t@.skip(0) =~= t@);
    match digits_up_to(t, start, 255) {
        Some(v) => Some(v as u8),
        None => None,
    }
}

/// Reads `t` as an `i32` numeral, as `i32`'s `FromStr` does: an optional `+`
/// or `-`, then decimal digits of a value that fits.
pub fn parse_i32(t: &str) -> (r: Option<i32>)
    ensures
        r == i32_of_text(t@),
{
    assert(t@.skip(0) =~= t@);
    if t.unicode_len() > 0 && t.get_char(0) == '-' {
        match digits_up_to(t, 1, 2147483648) {
            Some(v) => Some((0 - v as i64) as i32),
            None => None,
        }
    } else {
        let start: usize = if t.unicode_len() > 0 && t.get_char(0) == '+' { 1 } else { 0 };
        match digits_up_to(t, start, 2147483647) {
            Some(v) => Some(v as i32),
            None => None,
        }
    }
}

} // verus!
