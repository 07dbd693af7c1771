//! Numbers written out as text.

use vstd::prelude::*;
use vstd::string::*;

verus! {

/// The sixteen digits, in the order of their values.
pub const DIGITS: &'static str = "0123456789abcdef";

/// The character of a digit below sixteen: `0` to `9`, then `a` to `f`.
pub open spec fn digit_char(digit: nat) -> char
    recommends
        digit < 16,
{
    DIGITS@[digit as int]
}

/// `n` in decimal, without leading zeros.
pub open spec fn decimal(n: nat) -> Seq<char>
    decreases n,
{
    if n < 10 {
        seq![digit_char(n)]
    } else {
        decimal(n / 10).push(digit_char(n % 10))
    }
}

/// The lowest `width` hexadecimal digits of `n`, most significant first, in
/// lower case.
pub open spec fn hex(n: nat, width: nat) -> Seq<char>
    decreases width,
{
    if width == 0 {
        Seq::empty()
    } else {
        hex(n / 16, (width - 1) as nat).push(digit_char(n % 16))
    }
}

/// What is left of `n` once its lowest `width` hexadecimal digits are cut
/// off.
pub open spec fn above_hex(n: nat, width: nat) -> nat
    decreases width,
{
    if width == 0 {
        n
    } else {
        above_hex(n / 16, (width - 1) as nat)
    }
}

/// Sixteen to the power of `width`.
pub open spec fn pow16(width: nat) -> nat
    decreases width,
{
    if width == 0 {
        1
    } else {
        16 * pow16((width - 1) as nat)
    }
}

/// The digit as a one-character string.
pub fn digit_str(digit: u8) -> (text: &'static str)
    requires
        digit < 16,
    ensures
        text@ == seq![digit_char(digit as nat)],
{
    proof {
        reveal_strlit("0123456789abcdef");
    }
    let at = digit as usize;
    DIGITS.substring_ascii(at, at + 1)
}

/// Appends `n` in decimal to `text`.
pub fn push_decimal(text: &mut String, n: u16)
    ensures
        final(text)@ == old(text)@ + decimal(n as nat),
    decreases n,
{
    if n >= 10 {
        push_decimal(text, n / 10);
    }
    text.append(digit_str((n % 10) as u8));
    proof {
        let digit = seq![digit_char((n % 10) as nat)];
        if n >= 10 {
            assert(decimal(n as nat) =~= decimal((n / 10) as nat) + digit);
            assert(old(text)@ + decimal((n / 10) as nat) + digit =~= old(text)@ + (decimal(
                (n / 10) as nat,
            ) + digit));
        } else {
            assert(decimal(n as nat) =~= digit);
        }
    }
}

/// Appends the lowest `width` hexadecimal digits of `n` to `text`.
pub fn push_hex(text: &mut String, n: u128, width: u8)
    ensures
        final(text)@ == old(text)@ + hex(n as nat, width as nat),
    decreases width,
{
    if width > 0 {
        push_hex(text, n / 16, width - 1);
        text.append(digit_str((n % 16) as u8));
        proof {
            let digit = seq![digit_char((n % 16) as nat)];
            let before = hex((n / 16) as nat, (width - 1) as nat);
            assert(hex(n as nat, width as nat) =~= before + digit);
            assert(old(text)@ + before + digit =~= old(text)@ + (before + digit));
        }
    } else {
        assert(old(text)@ + hex(n as nat, 0) =~= old(text)@);
    }
}

/// Distinct digits have distinct characters.
pub proof fn lemma_digit_char_is_injective(a: nat, b: nat)
    requires
        a < 16,
        b < 16,
        digit_char(a) == digit_char(b),
    ensures
        a == b,
{
    reveal_strlit("0123456789abcdef");
}

/// Two numbers with the same lowest `width` hexadecimal digits and the same
/// digits above those are the same number.
pub proof fn lemma_hex_is_injective(a: nat, b: nat, width: nat)
    requires
        hex(a, width) == hex(b, width),
        above_hex(a, width) == above_hex(b, width),
    ensures
        a == b,
    decreases width,
{
    if width > 0 {
        let a_front = hex(a / 16, (width - 1) as nat);
        let b_front = hex(b / 16, (width - 1) as nat);
        let a_last = digit_char(a % 16);
        let b_last = digit_char(b % 16);
        assert(a_front.push(a_last).last() == b_front.push(b_last).last());
        assert(a_front.push(a_last).drop_last() =~= a_front);
        assert(b_front.push(b_last).drop_last() =~= b_front);
        lemma_digit_char_is_injective(a % 16, b % 16);
        lemma_hex_is_injective(a / 16, b / 16, (width - 1) as nat);
    }
}

/// A number below sixteen to the `width` has nothing above its lowest
/// `width` hexadecimal digits.
pub proof fn lemma_nothing_above_hex(n: nat, width: nat)
    requires
        n < pow16(width),
    ensures
        above_hex(n, width) == 0,
    decreases width,
{
    if width > 0 {
        lemma_nothing_above_hex(n / 16, (width - 1) as nat);
    }
}

} // verus!
