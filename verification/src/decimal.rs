//! Exact decimal numbers for chapter and volume ordinals, and the decimal
//! notation of integers.

use vstd::prelude::*;
use crate::text::{
    chars_of, find_char_from, index_of, lemma_index_of_is, lemma_index_of_none, slice,
};

verus! {

/// The largest number of fractional digits a `Decimal` carries.
pub const MAX_SCALE: u8 = 18;

/// The largest mantissa of an ordinal that is resolved from a title: the
/// largest that a decimal holds.
pub const MAX_ORDINAL: u64 = 9_223_372_036_854_775_807;

/// The decimal number `mantissa / 10^scale`.
#[derive(Clone, Copy, Debug, PartialEq, Eq, Structural)]
pub struct Decimal {
    pub mantissa: i64,
    pub scale: u8,
}

/// `10^e`.
pub open spec fn pow10(e: nat) -> nat
    decreases e,
{
    if e == 0 {
        1
    } else {
        10 * pow10((e - 1) as nat)
    }
}

/// Powers of ten grow with the exponent and stay within 64 bits up to `10^18`.
pub proof fn lemma_pow10_bounds(e: nat)
    requires
        e <= 18,
    ensures
        1 <= pow10(e) <= 1_000_000_000_000_000_000,
    decreases e,
{
    reveal_with_fuel(pow10, 20);
}

impl Decimal {
    /// The scale is within `MAX_SCALE`.
    pub open spec fn wf(self) -> bool {
        self.scale <= MAX_SCALE
    }

    /// The number in units of `10^-18`; two decimals are equal in value
    /// exactly when their keys are equal, and ordered as their keys are.
    pub open spec fn key(self) -> int {
        self.mantissa * pow10((MAX_SCALE - self.scale) as nat)
    }

    /// The whole number `n`.
    pub fn whole(n: i64) -> (d: Decimal)
        ensures
            d == (Decimal { mantissa: n, scale: 0 }),
            d.wf(),
    {
        Decimal { mantissa: n, scale: 0 }
    }

    /// The number in units of `10^-18`.
    pub fn sort_key(&self) -> (k: i128)
        requires
            self.wf(),
        ensures
            k == self.key(),
    {
        let mut p: i128 = 1;
        let mut e: u8 = 0;
        let n: u8 = MAX_SCALE - self.scale;
        while e < n
            invariant
                e <= n <= 18,
                p == pow10(e as nat),
            decreases n - e,
        {
            proof {
                lemma_pow10_bounds(e as nat);
                lemma_pow10_bounds((e + 1) as nat);
            }
            p = p * 10;
            e += 1;
        }
        proof {
            lemma_pow10_bounds(n as nat);
            assert(-0x8000_0000_0000_0000 * 1_000_000_000_000_000_000 <= self.mantissa * p
                <= 0x8000_0000_0000_0000 * 1_000_000_000_000_000_000) by (nonlinear_arith)
                requires
                    -0x8000_0000_0000_0000 <= self.mantissa <= 0x8000_0000_0000_0000,
                    1 <= p <= 1_000_000_000_000_000_000,
            ;
        }
        (self.mantissa as i128) * p
    }

    /// Whether the number is zero.
    pub fn is_zero(&self) -> (r: bool)
        ensures
            r == (self.mantissa == 0),
    {
        self.mantissa == 0
    }

    /// Whether `self` is smaller in value than `other`.
    pub fn less_than(&self, other: &Decimal) -> (r: bool)
        requires
            self.wf(),
            other.wf(),
        ensures
            r == (self.key() < other.key()),
    {
        self.sort_key() < other.sort_key()
    }

    /// Whether `self` and `other` are equal in value.
    pub fn same_value(&self, other: &Decimal) -> (r: bool)
        requires
            self.wf(),
            other.wf(),
        ensures
            r == (self.key() == other.key()),
    {
        self.sort_key() == other.sort_key()
    }
}

/// The value of an ASCII digit.
pub open spec fn ascii_digit(c: char) -> Option<nat> {
    if '0' <= c <= '9' {
        Some((c as u32 - 0x30) as nat)
    } else {
        None
    }
}

/// Every character of `s` is an ASCII digit.
pub open spec fn all_ascii_digits(s: Seq<char>) -> bool {
    forall|i: int| 0 <= i < s.len() ==> (#[trigger] ascii_digit(s[i])) is Some
}

/// The base-10 value of a run of ASCII digits; other characters count as 0.
pub open spec fn digits_value(s: Seq<char>) -> nat
    decreases s.len(),
{
    if s.len() == 0 {
        0
    } else {
        digits_value(s.drop_last()) * 10 + match ascii_digit(s.last()) {
            Some(d) => d,
            None => 0,
        }
    }
}

/// A longer run of digits has at least the value of each of its prefixes.
pub proof fn lemma_digits_value_prefix(s: Seq<char>, n: int)
    requires
        0 <= n <= s.len(),
    ensures
        digits_value(s.take(n)) <= digits_value(s),
    decreases s.len() - n,
{
    if n == s.len() {
        assert(s.take(n) == s);
    } else {
        lemma_digits_value_prefix(s, n + 1);
        assert(s.take(n + 1).drop_last() == s.take(n));
    }
}

/// The value of the ASCII digit `c`.
pub fn ascii_digit_of(c: char) -> (r: Option<u8>)
    ensures
        match r {
            Some(d) => ascii_digit(c) == Some(d as nat) && d <= 9,
            None => ascii_digit(c) is None,
        },
{
    if c >= '0' && c <= '9' {
        Some((c as u32 - 0x30) as u8)
    } else {
        None
    }
}

/// The decimal notation of `n`, without sign or leading zeros.
pub open spec fn nat_text(n: nat) -> Seq<char>
    decreases n,
{
    if n < 10 {
        seq![digit_char(n)]
    } else {
        nat_text(n / 10).push(digit_char(n % 10))
    }
}

/// The ASCII digit for `d`; `9` for any `d` above 9.
pub open spec fn digit_char(d: nat) -> char {
    if d == 0 {
        '0'
    } else if d == 1 {
        '1'
    } else if d == 2 {
        '2'
    } else if d == 3 {
        '3'
    } else if d == 4 {
        '4'
    } else if d == 5 {
        '5'
    } else if d == 6 {
        '6'
    } else if d == 7 {
        '7'
    } else if d == 8 {
        '8'
    } else {
        '9'
    }
}

/// The decimal notation of `n`, with a leading `-` when it is negative.
pub open spec fn int_text(n: int) -> Seq<char> {
    if n < 0 {
        seq!['-'] + nat_text((-n) as nat)
    } else {
        nat_text(n as nat)
    }
}

/// The ASCII digit for `d`; `9` for any `d` above 9.
pub fn digit_char_of(d: u8) -> (c: char)
    ensures
        c == digit_char(d as nat),
{
    if d == 0 {
        '0'
    } else if d == 1 {
        '1'
    } else if d == 2 {
        '2'
    } else if d == 3 {
        '3'
    } else if d == 4 {
        '4'
    } else if d == 5 {
        '5'
    } else if d == 6 {
        '6'
    } else if d == 7 {
        '7'
    } else if d == 8 {
        '8'
    } else {
        '9'
    }
}

/// The decimal notation of `n`.
pub fn u64_chars(n: u64) -> (out: Vec<char>)
    ensures
        out@ == nat_text(n as nat),
    decreases n,
{
    if n < 10 {
        let mut out: Vec<char> = Vec::new();
        out.push(digit_char_of(n as u8));
        out
    } else {
        let mut out = u64_chars(n / 10);
        out.push(digit_char_of((n % 10) as u8));
        out
    }
}

/// The decimal notation of `n`.
pub fn i64_chars(n: i64) -> (out: Vec<char>)
    ensures
        out@ == int_text(n as int),
{
    if n < 0 {
        let m: u64 = if n == i64::MIN {
            0x8000_0000_0000_0000
        } else {
            (-n) as u64
        };
        let mut out: Vec<char> = Vec::new();
        out.push('-');
        let mut digits = u64_chars(m);
        out.append(&mut digits);
        out
    } else {
        u64_chars(n as u64)
    }
}

/// The value of the digits of `s`, or `None` when a character of `s` is no
/// ASCII digit or the value is above `limit`.
pub fn digits_to_u64(s: &Vec<char>, limit: u64) -> (r: Option<u64>)
    ensures
        r == if all_ascii_digits(s@) && digits_value(s@) <= limit {
            Some(digits_value(s@) as u64)
        } else {
            None
        },
{
    let mut acc: u64 = 0;
    let mut i: usize = 0;
    assert(s@.take(0) == Seq::<char>::empty());
    while i < s.len()
        invariant
            i <= s.len(),
            all_ascii_digits(s@.take(i as int)),
            acc == digits_value(s@.take(i as int)),
            acc <= limit,
        decreases s.len() - i,
    {
        proof {
            assert(s@.take(i + 1).drop_last() == s@.take(i as int));
            assert(s@.take(i + 1).last() == s@[i as int]);
            lemma_digits_value_prefix(s@, i + 1);
        }
        let d = match ascii_digit_of(s[i]) {
            Some(d) => d as u64,
            None => {
                assert(!all_ascii_digits(s@)) by {
                    assert(ascii_digit(s@[i as int]) is None);
                }
                return None;
            },
        };
        if limit < d || acc > (limit - d) / 10 {
            assert(digits_value(s@.take(i + 1)) > limit);
            return None;
        }
        acc = acc * 10 + d;
        assert(all_ascii_digits(s@.take(i + 1))) by {
            assert forall|j: int| 0 <= j < i + 1 implies (#[trigger] ascii_digit(
                s@.take(i + 1)[j],
            )) is Some by {
                if j < i {
                    assert(s@.take(i + 1)[j] == s@.take(i as int)[j]);
                }
            }
        }
        i += 1;
    }
    assert(s@.take(s.len() as int) == s@);
    Some(acc)
}

/// The number that `s` denotes as an unsigned integer: an optional `+`,
/// then one or more ASCII digits.
pub open spec fn unsigned_value(s: Seq<char>) -> Option<nat> {
    let body = if s.len() > 0 && s[0] == '+' {
        s.skip(1)
    } else {
        s
    };
    if body.len() > 0 && all_ascii_digits(body) {
        Some(digits_value(body))
    } else {
        None
    }
}

/// The number that `s` denotes as a signed integer: an optional `+` or `-`,
/// then one or more ASCII digits.
pub open spec fn signed_value(s: Seq<char>) -> Option<int> {
    if s.len() > 0 && s[0] == '-' {
        let body = s.skip(1);
        if body.len() > 0 && all_ascii_digits(body) {
            Some(-(digits_value(body) as int))
        } else {
            None
        }
    } else {
        match unsigned_value(s) {
            Some(v) => Some(v as int),
            None => None,
        }
    }
}

/// Reads an unsigned integer: an optional `+`, then ASCII digits. Anything
/// else, and a value above `u64::MAX`, gives `None`.
pub fn parse_u64(text: &str) -> (r: Option<u64>)
    ensures
        r == match unsigned_value(text@) {
            Some(v) => if v <= u64::MAX {
                Some(v as u64)
            } else {
                None
            },
            None => None,
        },
{
    let s = chars_of(text);
    let from: usize = if s.len() > 0 && s[0] == '+' {
        1
    } else {
        0
    };
    let body = slice(&s, from, s.len());
    assert(body@ == if from == 1 {
        s@.skip(1)
    } else {
        s@
    });
    if body.len() == 0 {
        return None;
    }
    digits_to_u64(&body, u64::MAX)
}

/// Reads a signed 32-bit integer: an optional `+` or `-`, then ASCII
/// digits. Anything else, and a value out of range, gives `None`.
pub fn parse_i32(text: &str) -> (r: Option<i32>)
    ensures
        r == match signed_value(text@) {
            Some(v) => if i32::MIN <= v <= i32::MAX {
                Some(v as i32)
            } else {
                None
            },
            None => None,
        },
{
    let s = chars_of(text);
    let negative = s.len() > 0 && s[0] == '-';
    let from: usize = if s.len() > 0 && (s[0] == '+' || s[0] == '-') {
        1
    } else {
        0
    };
    let body = slice(&s, from, s.len());
    assert(body@ == if from == 1 {
        s@.skip(1)
    } else {
        s@
    });
    if body.len() == 0 {
        return None;
    }
    if negative {
        match digits_to_u64(&body, 0x8000_0000) {
            Some(v) => Some((-(v as i64)) as i32),
            None => None,
        }
    } else {
        match digits_to_u64(&body, 0x7fff_ffff) {
            Some(v) => Some(v as i32),
            None => None,
        }
    }
}

/// The largest mantissa that `parse_decimal` hands out.
pub const MAX_MANTISSA: u64 = 999_999_999_999_999_999;

/// The digits before and after the point of an unsigned decimal numeral:
/// digits with at most one point among them, and at least one digit.
pub open spec fn numeral_parts(s: Seq<char>) -> Option<(Seq<char>, Seq<char>)> {
    match index_of(s, '.') {
        Some(i) => {
            let whole = s.take(i);
            let frac = s.skip(i + 1);
            if 0 <= i < s.len() && all_ascii_digits(whole) && all_ascii_digits(frac) && whole.len()
                + frac.len() > 0 {
                Some((whole, frac))
            } else {
                None
            }
        },
        None => if s.len() > 0 && all_ascii_digits(s) {
            Some((s, Seq::empty()))
        } else {
            None
        },
    }
}

/// The decimal that `s` denotes: an optional `+` or `-`, then a numeral
/// with at most `MAX_SCALE` digits after the point whose digits, read
/// without the point, spell at most `MAX_MANTISSA`. The mantissa is that
/// number, the scale the count of digits after the point.
pub open spec fn decimal_value(s: Seq<char>) -> Option<Decimal> {
    let negative = s.len() > 0 && s[0] == '-';
    let body = if s.len() > 0 && (s[0] == '+' || s[0] == '-') {
        s.skip(1)
    } else {
        s
    };
    match numeral_parts(body) {
        Some((whole, frac)) => if frac.len() <= MAX_SCALE && digits_value(whole + frac)
            <= MAX_MANTISSA {
            let m = digits_value(whole + frac) as int;
            Some(
                Decimal {
                    mantissa: (if negative {
                        -m
                    } else {
                        m
                    }) as i64,
                    scale: frac.len() as u8,
                },
            )
        } else {
            None
        },
        None => None,
    }
}

/// Digits of two runs, one after the other, are all digits.
proof fn lemma_all_digits_concat(a: Seq<char>, b: Seq<char>)
    ensures
        all_ascii_digits(a + b) == (all_ascii_digits(a) && all_ascii_digits(b)),
{
    if all_ascii_digits(a + b) {
        assert forall|i: int| 0 <= i < a.len() implies (#[trigger] ascii_digit(a[i])) is Some by {
            assert((a + b)[i] == a[i]);
        }
        assert forall|i: int| 0 <= i < b.len() implies (#[trigger] ascii_digit(b[i])) is Some by {
            assert((a + b)[a.len() + i] == b[i]);
        }
    }
    if all_ascii_digits(a) && all_ascii_digits(b) {
        assert forall|i: int| 0 <= i < (a + b).len() implies (#[trigger] ascii_digit((a + b)[i]))
            is Some by {
            if i < a.len() {
                assert((a + b)[i] == a[i]);
            } else {
                assert((a + b)[i] == b[i - a.len()]);
            }
        }
    }
}

/// Reads a decimal number: an optional sign, digits, and at most one point
/// among them. Exponents and more than `MAX_SCALE` digits after the point
/// are not read, nor digits that spell more than `MAX_MANTISSA`.
pub fn parse_decimal(text: &Vec<char>) -> (r: Option<Decimal>)
    ensures
        r == decimal_value(text@),
        r matches Some(d) ==> d.wf(),
{
    let negative = text.len() > 0 && text[0] == '-';
    let from: usize = if text.len() > 0 && (text[0] == '+' || text[0] == '-') {
        1
    } else {
        0
    };
    let body = slice(text, from, text.len());
    assert(body@ == if from == 1 {
        text@.skip(1)
    } else {
        text@
    });
    let (whole, frac) = match find_char_from(&body, '.', 0) {
        Some(k) => {
            proof {
                lemma_index_of_is(body@, '.', k as int);
            }
            (slice(&body, 0, k), slice(&body, k + 1, body.len()))
        },
        None => {
            proof {
                lemma_index_of_none(body@, '.');
            }
            if body.len() == 0 {
                return None;
            }
            (slice(&body, 0, body.len()), Vec::new())
        },
    };
    assert(whole@ == body@.take(whole@.len() as int));
    assert(body@.take(body@.len() as int) == body@);
    if whole.len() == 0 && frac.len() == 0 {
        return None;
    }
    if frac.len() > MAX_SCALE as usize {
        proof {
            lemma_all_digits_concat(whole@, frac@);
        }
        return None;
    }
    let mut digits = slice(&whole, 0, whole.len());
    let mut tail = slice(&frac, 0, frac.len());
    digits.append(&mut tail);
    assert(digits@ == whole@ + frac@);
    proof {
        lemma_all_digits_concat(whole@, frac@);
    }
    match digits_to_u64(&digits, MAX_MANTISSA) {
        Some(m) => {
            let mantissa: i64 = if negative {
                -(m as i64)
            } else {
                m as i64
            };
            Some(Decimal { mantissa, scale: frac.len() as u8 })
        },
        None => None,
    }
}

/// A mantissa and scale without the zeros that end the fraction.
pub open spec fn strip_zeros(a: nat, scale: nat) -> (nat, nat)
    decreases scale,
{
    if scale > 0 && a % 10 == 0 {
        strip_zeros(a / 10, (scale - 1) as nat)
    } else {
        (a, scale)
    }
}

/// The last `digits` decimal digits of `f`, with leading zeros.
pub open spec fn frac_text(f: nat, digits: nat) -> Seq<char>
    decreases digits,
{
    if digits == 0 {
        Seq::empty()
    } else {
        frac_text(f / 10, (digits - 1) as nat).push(digit_char(f % 10))
    }
}

/// The shortest decimal notation of a decimal: a `-` when it is negative,
/// the whole part, and, unless the fraction is zero, a point and the
/// fraction without the zeros that end it.
pub open spec fn decimal_text(d: Decimal) -> Seq<char> {
    let a = (if d.mantissa < 0 {
        -d.mantissa
    } else {
        d.mantissa as int
    }) as nat;
    let (m, s) = strip_zeros(a, d.scale as nat);
    let sign = if d.mantissa < 0 {
        seq!['-']
    } else {
        Seq::empty()
    };
    let whole = nat_text(m / pow10(s));
    if s == 0 {
        sign + whole
    } else {
        sign + whole + seq!['.'] + frac_text(m % pow10(s), s)
    }
}

/// The last `digits` decimal digits of `f`, with leading zeros.
pub fn frac_chars(f: u64, digits: u8) -> (out: Vec<char>)
    ensures
        out@ == frac_text(f as nat, digits as nat),
    decreases digits,
{
    if digits == 0 {
        Vec::new()
    } else {
        let mut out = frac_chars(f / 10, digits - 1);
        out.push(digit_char_of((f % 10) as u8));
        out
    }
}

impl Decimal {
    /// The shortest decimal notation of the number.
    pub fn to_chars(&self) -> (out: Vec<char>)
        requires
            self.wf(),
        ensures
            out@ == decimal_text(*self),
    {
        let negative = self.mantissa < 0;
        let mut m: u64 = if self.mantissa == i64::MIN {
            0x8000_0000_0000_0000
        } else if negative {
            (-self.mantissa) as u64
        } else {
            self.mantissa as u64
        };
        let ghost a = m as nat;
        let mut s: u8 = self.scale;
        while s > 0 && m % 10 == 0
            invariant
                s <= 18,
                strip_zeros(a, self.scale as nat) == strip_zeros(m as nat, s as nat),
            decreases s,
        {
            m = m / 10;
            s -= 1;
        }
        let mut p: u64 = 1;
        let mut e: u8 = 0;
        while e < s
            invariant
                e <= s <= 18,
                p == pow10(e as nat),
            decreases s - e,
        {
            proof {
                lemma_pow10_bounds(e as nat);
                lemma_pow10_bounds((e + 1) as nat);
            }
            p = p * 10;
            e += 1;
        }
        proof {
            lemma_pow10_bounds(s as nat);
        }
        let mut out: Vec<char> = Vec::new();
        if negative {
            out.push('-');
        }
        let mut whole = u64_chars(m / p);
        out.append(&mut whole);
        if s > 0 {
            out.push('.');
            let mut frac = frac_chars(m % p, s);
            out.append(&mut frac);
        }
        assert(out@ =~= decimal_text(*self));
        out
    }
}

} // verus!
