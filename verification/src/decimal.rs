//! Numbers written in decimal digits.

use vstd::prelude::*;

verus! {

/// The decimal digits of `n` as bytes, the first digit first, with no zero
/// in front.
pub open spec fn digit_bytes(n: nat) -> Seq<u8>
    decreases n,
{
    if n < 10 {
        seq![(0x30 + n) as u8]
    } else {
        digit_bytes(n / 10).push((0x30 + n % 10) as u8)
    }
}

/// The decimal digits of `n` as characters.
pub open spec fn digits(n: nat) -> Seq<char> {
    digit_bytes(n).map_values(|b: u8| b as char)
}

/// `n` as a reader expects it: a minus sign before the digits of a
/// negative number.
pub open spec fn decimal_text(n: int) -> Seq<char> {
    if n < 0 {
        seq!['-'] + digits((-n) as nat)
    } else {
        digits(n as nat)
    }
}

/// Puts the decimal digits of `n` behind `out`.
pub fn push_digit_bytes(out: &mut Vec<u8>, n: u64)
    ensures
        final(out)@ == old(out)@ + digit_bytes(n as nat),
    decreases n,
{
    if n >= 10 {
        push_digit_bytes(out, n / 10);
    }
    out.push(0x30 + (n % 10) as u8);
}

/// Puts the decimal digits of `n` behind `out`.
pub fn push_digits(out: &mut String, n: u64)
    ensures
        final(out)@ == old(out)@ + digits(n as nat),
    decreases n,
{
    if n >= 10 {
        push_digits(out, n / 10);
    }
    out.push((0x30 + (n % 10) as u8) as char);
}

/// Puts `n`, in decimal, behind `out`.
pub fn push_decimal(out: &mut String, n: i32)
    ensures
        final(out)@ == old(out)@ + decimal_text(n as int),
{
    if n < 0 {
        out.push('-');
        push_digits(out, (-(n as i64)) as u64);
    } else {
        push_digits(out, n as u64);
    }
}

/// The digits of a number are digits, there is at least one of them, and
/// a number below ten to the tenth has no more than ten.
pub proof fn lemma_digit_bytes(n: nat)
    ensures
        digit_bytes(n).len() >= 1,
        forall|i: int| 0 <= i < digit_bytes(n).len() ==> 0x30 <= #[trigger] digit_bytes(n)[i] <= 0x39,
        n < 10_000_000_000 ==> digit_bytes(n).len() <= 10,
    decreases n,
{
    if n >= 10 {
        lemma_digit_bytes(n / 10);
    }
    if n < 10_000_000_000 {
        assert(power_of_ten(10) == 10_000_000_000) by {
            reveal_with_fuel(power_of_ten, 11);
        }
        lemma_digit_count(n, 10);
    }
}

/// Ten to the power `k`.
pub open spec fn power_of_ten(k: nat) -> nat
    decreases k,
{
    if k == 0 {
        1
    } else {
        10 * power_of_ten((k - 1) as nat)
    }
}

/// A number below ten to the power `k` has no more than `k` digits.
pub proof fn lemma_digit_count(n: nat, k: nat)
    requires
        k >= 1,
        n < power_of_ten(k),
    ensures
        digit_bytes(n).len() <= k,
    decreases k,
{
    reveal_with_fuel(power_of_ten, 2);
    if n >= 10 {
        lemma_digit_count(n / 10, (k - 1) as nat);
    }
}

} // verus!
