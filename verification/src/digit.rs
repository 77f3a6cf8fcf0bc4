//! Decimal digits: from an ASCII byte to its value, and onto a significand.

use vstd::prelude::*;
use vstd::arithmetic::power::pow;
use crate::small_powers::lemma_pow_step;

verus! {

/// Whether `c` is one of the ASCII bytes `'0'` to `'9'`.
pub open spec fn is_digit_byte(c: u8) -> bool {
    0x30 <= c <= 0x39
}

/// The value of the ASCII decimal digit `c`.
pub open spec fn digit_value(c: u8) -> nat
    recommends
        is_digit_byte(c),
{
    (c - 0x30) as nat
}

/// Whether every byte of `s` is an ASCII decimal digit.
pub open spec fn all_digits(s: Seq<u8>) -> bool {
    forall|i: int| 0 <= i < s.len() ==> is_digit_byte(#[trigger] s[i])
}

/// The number that a string of ASCII decimal digits shows; zero for the
/// empty string.
pub open spec fn digits_value(s: Seq<u8>) -> nat
    decreases s.len(),
{
    if s.len() == 0 {
        0
    } else {
        digits_value(s.drop_last()) * 10 + digit_value(s.last())
    }
}

/// The number that the first `i + 1` digits show, from that of the first
/// `i`.
pub proof fn lemma_digits_value_step(s: Seq<u8>, i: int)
    requires
        0 <= i < s.len(),
    ensures
        digits_value(s.take(i + 1)) == digits_value(s.take(i)) * 10 + digit_value(s[i]),
{
    assert(s.take(i + 1).drop_last() =~= s.take(i));
}

/// A longer prefix of a digit string shows no smaller a number.
pub proof fn lemma_digits_value_monotonic(s: Seq<u8>, i: int, j: int)
    requires
        0 <= i <= j <= s.len(),
    ensures
        digits_value(s.take(i)) <= digits_value(s.take(j)),
    decreases j - i,
{
    if i < j {
        lemma_digits_value_monotonic(s, i, j - 1);
        lemma_digits_value_step(s, j - 1);
    }
}

/// Converts an ASCII byte to the decimal digit it shows, if it shows one.
pub fn to_digit(c: u8) -> (r: Option<u32>)
    ensures
        is_digit_byte(c) ==> r == Some(digit_value(c) as u32),
        !is_digit_byte(c) ==> r.is_none(),
{
    if 0x30 <= c && c <= 0x39 {
        Some((c - 0x30) as u32)
    } else {
        None
    }
}

/// Appends a decimal digit to `value`, or returns `None` where the result
/// does not fit in 64 bits.
pub fn add_digit(value: u64, digit: u32) -> (r: Option<u64>)
    ensures
        value * 10 + digit <= u64::MAX ==> r == Some((value * 10 + digit) as u64),
        value * 10 + digit > u64::MAX ==> r.is_none(),
{
    match value.checked_mul(10) {
        Some(v) => v.checked_add(digit as u64),
        None => None,
    }
}

/// The number of `'0'` bytes at the start of `s`.
pub open spec fn leading_zero_count(s: Seq<u8>) -> nat
    decreases s.len(),
{
    if s.len() > 0 && s[0] == 0x30 {
        1 + leading_zero_count(s.skip(1))
    } else {
        0
    }
}

/// The number of `'0'` bytes at the end of `s`.
pub open spec fn trailing_zero_count(s: Seq<u8>) -> nat
    decreases s.len(),
{
    if s.len() > 0 && s.last() == 0x30 {
        1 + trailing_zero_count(s.drop_last())
    } else {
        0
    }
}

/// Counts the `'0'` bytes at the start of `s`.
pub fn count_leading_zeros(s: &[u8]) -> (r: usize)
    ensures
        r == leading_zero_count(s@),
        r <= s.len(),
{
    let mut i: usize = 0;
    proof {
        assert(s@.skip(0) =~= s@);
    }
    while i < s.len() && s[i] == 0x30
        invariant
            i <= s.len(),
            leading_zero_count(s@) == i + leading_zero_count(s@.skip(i as int)),
        decreases s.len() - i,
    {
        proof {
            assert(s@.skip(i as int).skip(1) =~= s@.skip(i as int + 1));
        }
        i = i + 1;
    }
    i
}

/// Counts the `'0'` bytes at the end of `s`.
pub fn count_trailing_zeros(s: &[u8]) -> (r: usize)
    ensures
        r == trailing_zero_count(s@),
        r <= s.len(),
{
    let n: usize = s.len();
    let mut i: usize = 0;
    proof {
        assert(s@.take(n as int) =~= s@);
    }
    while i < n && s[n - 1 - i] == 0x30
        invariant
            i <= n,
            n == s.len(),
            trailing_zero_count(s@) == i + trailing_zero_count(s@.take(n - i)),
        decreases n - i,
    {
        proof {
            assert(s@.take(n - i).drop_last() =~= s@.take(n - i - 1));
        }
        i = i + 1;
    }
    i
}

/// The number that a digit string shows, from the numbers that its first
/// `k` digits and the digits after them show.
pub proof fn lemma_digits_value_split(s: Seq<u8>, k: int)
    requires
        0 <= k <= s.len(),
    ensures
        digits_value(s) == digits_value(s.take(k)) * pow(10, (s.len() - k) as nat) + digits_value(
            s.skip(k),
        ),
    decreases s.len(),
{
    lemma_pow_step(10, 0);
    if k == s.len() {
        assert(s.take(k) =~= s);
        assert(s.skip(k) =~= Seq::<u8>::empty());
        assert(digits_value(s) * 1 == digits_value(s));
    } else {
        let shorter = s.drop_last();
        lemma_digits_value_split(shorter, k);
        assert(shorter.take(k) =~= s.take(k));
        assert(s.skip(k).drop_last() =~= shorter.skip(k));
        let rest = (s.len() - k - 1) as nat;
        lemma_pow_step(10, rest);
        let head = digits_value(s.take(k));
        let ten = pow(10, rest);
        assert((head * ten + digits_value(shorter.skip(k))) * 10 + digit_value(s.last()) == head
            * (10 * ten) + (digits_value(shorter.skip(k)) * 10 + digit_value(s.last())))
            by (nonlinear_arith);
    }
}

/// A string of `n` digits shows a number below `10^n`.
pub proof fn lemma_digits_value_bound(s: Seq<u8>)
    requires
        all_digits(s),
    ensures
        digits_value(s) < pow(10, s.len()),
    decreases s.len(),
{
    lemma_pow_step(10, 0);
    if s.len() > 0 {
        let shorter = s.drop_last();
        assert(all_digits(shorter)) by {
            assert forall|i: int| 0 <= i < shorter.len() implies is_digit_byte(
                #[trigger] shorter[i],
            ) by {
                assert(shorter[i] == s[i]);
            }
        }
        lemma_digits_value_bound(shorter);
        lemma_pow_step(10, shorter.len());
        assert(is_digit_byte(s[s.len() - 1]));
    }
}

/// Zeros before the digits do not change the number shown.
pub proof fn lemma_leading_zeros_value(s: Seq<u8>)
    ensures
        leading_zero_count(s) <= s.len(),
        digits_value(s) == digits_value(s.skip(leading_zero_count(s) as int)),
    decreases s.len(),
{
    if s.len() > 0 && s[0] == 0x30 {
        let rest = s.skip(1);
        lemma_leading_zeros_value(rest);
        let count = leading_zero_count(s) as int;
        assert(rest.skip(count - 1) =~= s.skip(count));
        lemma_digits_value_split(s, 1);
        let first = s.take(1);
        assert(first.drop_last() =~= Seq::<u8>::empty());
        assert(first.last() == s[0]);
        assert(digits_value(first.drop_last()) == 0);
        assert(digits_value(first) == 0);
        assert(0 * pow(10, (s.len() - 1) as nat) == 0);
    } else {
        assert(s.skip(0) =~= s);
        assert(s.take(0) =~= Seq::<u8>::empty());
    }
}

/// Zeros after the digits multiply the number shown by their power of
/// ten.
pub proof fn lemma_trailing_zeros_value(s: Seq<u8>)
    ensures
        trailing_zero_count(s) <= s.len(),
        digits_value(s) == digits_value(s.take(s.len() - trailing_zero_count(s))) * pow(
            10,
            trailing_zero_count(s),
        ),
    decreases s.len(),
{
    lemma_pow_step(10, 0);
    if s.len() > 0 && s.last() == 0x30 {
        let shorter = s.drop_last();
        lemma_trailing_zeros_value(shorter);
        let count = trailing_zero_count(shorter);
        assert(shorter.take(shorter.len() - count) =~= s.take(s.len() - count - 1));
        lemma_pow_step(10, count);
        let head = digits_value(s.take(s.len() - count - 1));
        let ten = pow(10, count);
        assert((head * ten) * 10 == head * (10 * ten)) by (nonlinear_arith);
    } else {
        assert(s.take(s.len() as int) =~= s);
        assert(digits_value(s) * 1 == digits_value(s));
    }
}

/// The digit after the zeros that lead a digit string is not a zero, and
/// the digits that end it from the last one that is not a zero on are
/// zeros: a string that has a digit that is not a zero has its leading
/// zeros before its trailing ones.
pub proof fn lemma_zeros_apart(s: Seq<u8>)
    requires
        digits_value(s) != 0,
    ensures
        leading_zero_count(s) + trailing_zero_count(s) < s.len(),
    decreases s.len(),
{
    if s.len() == 0 {
    } else if s.last() == 0x30 {
        let shorter = s.drop_last();
        assert(digits_value(shorter) != 0);
        lemma_zeros_apart(shorter);
        lemma_leading_zeros_prefix(s, shorter.len() as int);
        assert(s.take(shorter.len() as int) =~= shorter);
    } else {
        lemma_leading_zeros_value(s);
        lemma_leading_zeros_last(s);
    }
}

/// The zeros that lead a digit string whose last digit is not a zero stop
/// before that digit.
pub proof fn lemma_leading_zeros_last(s: Seq<u8>)
    requires
        s.len() > 0,
        s.last() != 0x30,
    ensures
        leading_zero_count(s) < s.len(),
    decreases s.len(),
{
    if s[0] == 0x30 {
        let rest = s.skip(1);
        if rest.len() > 0 {
            assert(rest.last() == s.last());
            lemma_leading_zeros_last(rest);
        }
    }
}

/// The zeros that lead a prefix of a digit string are those that lead the
/// string, as far as the prefix goes.
pub proof fn lemma_leading_zeros_prefix(s: Seq<u8>, n: int)
    requires
        0 <= n <= s.len(),
    ensures
        leading_zero_count(s.take(n)) == if leading_zero_count(s) <= n {
            leading_zero_count(s)
        } else {
            n as nat
        },
    decreases n,
{
    let prefix = s.take(n);
    if n > 0 && s[0] == 0x30 {
        lemma_leading_zeros_prefix(s.skip(1), n - 1);
        assert(prefix.skip(1) =~= s.skip(1).take(n - 1));
        assert(prefix[0] == s[0]);
    } else if n > 0 {
        assert(prefix[0] == s[0]);
    }
}

/// A string of digits whose first digit is not a zero shows a number of
/// at least ten to its length less one.
pub proof fn lemma_first_digit(s: Seq<u8>)
    requires
        s.len() > 0,
        all_digits(s),
        s[0] != 0x30,
    ensures
        digits_value(s) >= pow(10, (s.len() - 1) as nat),
    decreases s.len(),
{
    lemma_pow_step(10, 0);
    if s.len() == 1 {
        assert(s.drop_last() =~= Seq::<u8>::empty());
        assert(digits_value(s.drop_last()) == 0);
        assert(is_digit_byte(s[0]));
    } else {
        let shorter = s.drop_last();
        assert(all_digits(shorter)) by {
            assert forall|i: int| 0 <= i < shorter.len() implies is_digit_byte(
                #[trigger] shorter[i],
            ) by {
                assert(shorter[i] == s[i]);
            }
        }
        assert(shorter[0] == s[0]);
        lemma_first_digit(shorter);
        lemma_pow_step(10, (shorter.len() - 1) as nat);
    }
}

/// The digit after the zeros that lead a digit string is not a zero.
pub proof fn lemma_leading_zeros_stop(s: Seq<u8>)
    requires
        leading_zero_count(s) < s.len(),
    ensures
        s[leading_zero_count(s) as int] != 0x30,
    decreases s.len(),
{
    if s.len() > 0 && s[0] == 0x30 {
        lemma_leading_zeros_stop(s.skip(1));
        assert(s.skip(1)[leading_zero_count(s.skip(1)) as int] == s[leading_zero_count(s) as int]);
    }
}

/// The digit before the zeros that end a digit string is not a zero.
pub proof fn lemma_trailing_zeros_stop(s: Seq<u8>)
    requires
        trailing_zero_count(s) < s.len(),
    ensures
        s[s.len() - 1 - trailing_zero_count(s)] != 0x30,
    decreases s.len(),
{
    if s.len() > 0 && s.last() == 0x30 {
        lemma_trailing_zeros_stop(s.drop_last());
        let shorter = s.drop_last();
        assert(shorter[shorter.len() - 1 - trailing_zero_count(shorter)] == s[s.len() - 1
            - trailing_zero_count(s)]);
    }
}

/// Whether every byte of `s` is the digit zero.
pub open spec fn all_zeros(s: Seq<u8>) -> bool {
    forall|i: int| 0 <= i < s.len() ==> #[trigger] s[i] == 0x30
}

/// A string of zeros shows the number zero.
pub proof fn lemma_zeros_value(s: Seq<u8>)
    requires
        all_zeros(s),
    ensures
        digits_value(s) == 0,
    decreases s.len(),
{
    if s.len() > 0 {
        let shorter = s.drop_last();
        assert(all_zeros(shorter)) by {
            assert forall|i: int| 0 <= i < shorter.len() implies #[trigger] shorter[i] == 0x30 by {
                assert(shorter[i] == s[i]);
            }
        }
        lemma_zeros_value(shorter);
        assert(s[s.len() - 1] == 0x30);
    }
}

/// Two strings of digits, one after the other, are a string of digits.
pub proof fn lemma_digits_joined(first: Seq<u8>, second: Seq<u8>)
    requires
        all_digits(first),
        all_digits(second),
    ensures
        all_digits(first + second),
{
    let joined = first + second;
    assert forall|i: int| 0 <= i < joined.len() implies is_digit_byte(#[trigger] joined[i]) by {
        if i < first.len() {
            assert(joined[i] == first[i]);
        } else {
            assert(joined[i] == second[i - first.len()]);
        }
    }
}

/// A part of a string of digits is a string of digits.
pub proof fn lemma_digits_subrange(s: Seq<u8>, from: int, to: int)
    requires
        all_digits(s),
        0 <= from <= to <= s.len(),
    ensures
        all_digits(s.subrange(from, to)),
{
    assert forall|i: int| 0 <= i < to - from implies is_digit_byte(
        #[trigger] s.subrange(from, to)[i],
    ) by {
        assert(s.subrange(from, to)[i] == s[from + i]);
    }
}

} // verus!
