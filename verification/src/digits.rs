//! Integers as ASCII text: the decimal and hexadecimal forms in which
//! descriptors and random suffixes are written, and the decimal form in
//! which descriptors are read back.

use vstd::prelude::*;

verus! {

/// The ASCII byte of one digit: `0`-`9`, then `a`-`f`.
pub open spec fn digit_byte(d: nat) -> u8 {
    if d < 10 {
        (48 + d) as u8
    } else {
        (87 + d) as u8
    }
}

/// `n` written in base `radix`, most significant digit first, without
/// leading zeros; zero is written as one digit.
pub open spec fn digits(n: nat, radix: nat) -> Seq<u8>
    decreases n,
{
    if radix < 2 || n < radix {
        seq![digit_byte(n)]
    } else {
        proof {
            vstd::arithmetic::div_mod::lemma_div_decreases(n as int, radix as int);
            vstd::arithmetic::div_mod::lemma_div_pos_is_pos(n as int, radix as int);
        }
        digits(n / radix, radix).push(digit_byte(n % radix))
    }
}

/// `n` in decimal.
pub open spec fn decimal(n: nat) -> Seq<u8> {
    digits(n, 10)
}

/// `n` in lower-case hexadecimal.
pub open spec fn lower_hex(n: nat) -> Seq<u8> {
    digits(n, 16)
}

/// `v` in decimal, with a leading `-` when it is negative.
pub open spec fn signed_decimal(v: int) -> Seq<u8> {
    if v < 0 {
        seq![45u8] + decimal((-v) as nat)
    } else {
        decimal(v as nat)
    }
}

/// Whether `b` is one of the ASCII digits `0`-`9`.
pub open spec fn is_decimal_digit(b: u8) -> bool {
    48 <= b <= 57
}

/// Whether every byte of `s` is a decimal digit.
pub open spec fn all_decimal_digits(s: Seq<u8>) -> bool {
    forall|i: int| 0 <= i < s.len() ==> is_decimal_digit(#[trigger] s[i])
}

/// The number that a string of decimal digits denotes.
pub open spec fn decimal_value(s: Seq<u8>) -> nat
    decreases s.len(),
{
    if s.len() == 0 {
        0
    } else {
        (decimal_value(s.drop_last()) * 10 + (s.last() - 48)) as nat
    }
}

/// The digits of `s` once an optional sign is taken off its front.
pub open spec fn unsigned_part(s: Seq<u8>) -> Seq<u8> {
    if s.len() > 0 && (s[0] == 45 || s[0] == 43) {
        s.skip(1)
    } else {
        s
    }
}

/// The integer that `s` denotes: an optional `+` or `-`, then one or more
/// decimal digits, nothing else, and a value that fits in 32 bits.
pub open spec fn parse_i32_spec(s: Seq<u8>) -> Option<i32> {
    let body = unsigned_part(s);
    let magnitude = decimal_value(body) as int;
    let value = if s.len() > 0 && s[0] == 45 {
        -magnitude
    } else {
        magnitude
    };
    if body.len() > 0 && all_decimal_digits(body) && i32::MIN <= value <= i32::MAX {
        Some(value as i32)
    } else {
        None
    }
}

/// A digit string of a larger number is never empty and holds only digits
/// of its base.
pub proof fn lemma_digits_shape(n: nat, radix: nat)
    requires
        2 <= radix <= 16,
    ensures
        digits(n, radix).len() >= 1,
        forall|i: int|
            0 <= i < digits(n, radix).len() ==> exists|d: nat|
                d < radix && #[trigger] digits(n, radix)[i] == digit_byte(d),
    decreases n,
{
    if n < radix {
        assert(digits(n, radix)[0] == digit_byte(n));
    } else {
        vstd::arithmetic::div_mod::lemma_div_decreases(n as int, radix as int);
        vstd::arithmetic::div_mod::lemma_div_pos_is_pos(n as int, radix as int);
        lemma_digits_shape(n / radix, radix);
        let head = digits(n / radix, radix);
        let d: nat = n % radix;
        assert forall|i: int| 0 <= i < digits(n, radix).len() implies exists|d: nat|
            d < radix && #[trigger] digits(n, radix)[i] == digit_byte(d) by {
            if i < head.len() {
                assert(digits(n, radix)[i] == head[i]);
            } else {
                assert(digits(n, radix)[i] == digit_byte(d));
            }
        }
    }
}

/// Decimal text holds decimal digits only, and reads back as the number
/// it was written from.
pub proof fn lemma_decimal_round_trip(n: nat)
    ensures
        decimal(n).len() >= 1,
        all_decimal_digits(decimal(n)),
        decimal_value(decimal(n)) == n,
    decreases n,
{
    if n < 10 {
        let s = decimal(n);
        assert(s.drop_last().len() == 0);
        assert(decimal_value(s.drop_last()) == 0);
    } else {
        lemma_decimal_round_trip(n / 10);
        let head = decimal(n / 10);
        let s = decimal(n);
        assert(s.drop_last() =~= head);
        assert(s.last() == digit_byte(n % 10));
        assert forall|i: int| 0 <= i < s.len() implies is_decimal_digit(#[trigger] s[i]) by {
            if i < head.len() {
                assert(s[i] == head[i]);
            }
        }
    }
}

/// Law: a 32-bit integer written in decimal is read back unchanged.
pub proof fn lemma_parse_signed_decimal(v: i32)
    ensures
        parse_i32_spec(signed_decimal(v as int)) == Some(v),
{
    let s = signed_decimal(v as int);
    if v < 0 {
        let m: nat = (-(v as int)) as nat;
        lemma_decimal_round_trip(m);
        assert(s[0] == 45);
        assert(s.skip(1) =~= decimal(m));
    } else {
        lemma_decimal_round_trip(v as nat);
        assert(is_decimal_digit(s[0]));
    }
}

/// Appends `n` written in base `radix`.
pub fn push_digits(out: &mut Vec<u8>, n: u128, radix: u128)
    requires
        radix == 10 || radix == 16,
    ensures
        final(out)@ == old(out)@ + digits(n as nat, radix as nat),
    decreases n,
{
    if n >= radix {
        push_digits(out, n / radix, radix);
    }
    let d: u128 = n % radix;
    let byte: u8 = if d < 10 {
        (48 + d) as u8
    } else {
        (87 + d) as u8
    };
    out.push(byte);
    assert(final(out)@ =~= old(out)@ + digits(n as nat, radix as nat));
}

/// Appends `v` in decimal, with a leading `-` when it is negative.
pub fn push_i32(out: &mut Vec<u8>, v: i32)
    ensures
        final(out)@ == old(out)@ + signed_decimal(v as int),
{
    if v < 0 {
        out.push(45u8);
        let m: u128 = (-(v as i64)) as u128;
        push_digits(out, m, 10);
        assert(final(out)@ =~= old(out)@ + signed_decimal(v as int));
    } else {
        push_digits(out, v as u128, 10);
    }
}

/// A longer digit string denotes no smaller a number than its front part.
proof fn lemma_value_grows(s: Seq<u8>, k: int)
    requires
        0 <= k <= s.len(),
        all_decimal_digits(s),
    ensures
        decimal_value(s.take(k)) <= decimal_value(s),
    decreases s.len() - k,
{
    if k == s.len() {
        assert(s.take(k) =~= s);
    } else {
        lemma_value_grows(s, k + 1);
        let t = s.take(k + 1);
        assert(t.drop_last() =~= s.take(k));
        assert(t.last() == s[k]);
        assert(is_decimal_digit(s[k]));
    }
}

/// Reads a 32-bit integer from its decimal text.
pub fn parse_i32(s: &[u8]) -> (r: Option<i32>)
    ensures
        r == parse_i32_spec(s@),
{
    let len: usize = s.len();
    if len == 0 {
        return None;
    }
    let negative: bool = s[0] == 45u8;
    let start: usize = if s[0] == 45u8 || s[0] == 43u8 {
        1
    } else {
        0
    };
    if start == len {
        return None;
    }
    let ghost body = unsigned_part(s@);
    assert(body =~= s@.skip(start as int));
    let limit: i64 = if negative {
        2147483648
    } else {
        2147483647
    };
    let mut acc: i64 = 0;
    let mut i: usize = start;
    while i < len
        invariant
            start <= i <= len,
            0 < len == s@.len(),
            body == s@.skip(start as int),
            body == unsigned_part(s@),
            negative == (s@[0] == 45),
            limit == if negative { 2147483648i64 } else { 2147483647i64 },
            all_decimal_digits(body.take(i - start)),
            acc == decimal_value(body.take(i - start)),
            0 <= acc <= limit,
        decreases len - i,
    {
        let b: u8 = s[i];
        let ghost front = body.take(i - start);
        let ghost next = body.take(i - start + 1);
        assert(next.drop_last() =~= front);
        assert(next.last() == b);
        if b < 48 || b > 57 {
            assert(body[i - start] == b);
            return None;
        }
        let d: i64 = (b - 48) as i64;
        if acc > (limit - d) / 10 {
            proof {
                assert(acc * 10 + d > limit);
                if all_decimal_digits(body) {
                    lemma_value_grows(body, i - start + 1);
                }
            }
            return None;
        }
        acc = acc * 10 + d;
        assert forall|j: int| 0 <= j < next.len() implies is_decimal_digit(#[trigger] next[j]) by {
            if j < front.len() {
                assert(next[j] == front[j]);
            }
        }
        i = i + 1;
    }
    assert(body.take(len - start) =~= body);
    if negative {
        Some((-acc) as i32)
    } else {
        Some(acc as i32)
    }
}

} // verus!
