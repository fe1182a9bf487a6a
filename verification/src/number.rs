//! Numbers written in digits of a base up to ten.

use vstd::prelude::*;
use vstd::string::*;

verus! {

/// Whether a character is a digit of the base: one of the first `base`
/// characters from `0` on.
pub open spec fn is_digit(c: char, base: u32) -> bool {
    '0' <= c && (c as int) < ('0' as int) + base
}

/// Whether a text holds digits of the base only.
pub open spec fn all_digits(digits: Seq<char>, base: u32) -> bool {
    forall|i: int| 0 <= i < digits.len() ==> is_digit(#[trigger] digits[i], base)
}

/// The number that a sequence of digits writes in the base.
pub open spec fn digits_value(digits: Seq<char>, base: u32) -> nat
    decreases digits.len(),
{
    if digits.len() == 0 {
        0
    } else {
        (base as nat) * digits_value(digits.drop_last(), base) + (digits.last() as int
            - '0' as int) as nat
    }
}

/// The number that a text writes: one or more digits of the base whose
/// value is at most `max`. Nothing else writes a number.
pub open spec fn numeral(text: Seq<char>, base: u32, max: u32) -> Option<u32> {
    if text.len() > 0 && all_digits(text, base) && digits_value(text, base) <= max {
        Some(digits_value(text, base) as u32)
    } else {
        None
    }
}

/// Reading more digits never makes the value smaller.
pub proof fn lemma_digits_value_grows(digits: Seq<char>, base: u32, k: int)
    requires
        0 <= k <= digits.len(),
        all_digits(digits, base),
    ensures
        digits_value(digits.take(k), base) <= digits_value(digits, base),
    decreases digits.len() - k,
{
    if k < digits.len() {
        let longer = digits.take(k + 1);
        let shorter = digits_value(digits.take(k), base);
        assert(longer.drop_last() =~= digits.take(k));
        assert(is_digit(digits[k], base));
        assert(longer.last() == digits[k]);
        assert(base * shorter >= shorter) by (nonlinear_arith)
            requires
                base >= 1,
                shorter >= 0,
        ;
        lemma_digits_value_grows(digits, base, k + 1);
    } else {
        assert(digits.take(k) =~= digits);
    }
}

/// Reads a number written in digits of `base`, at most `max`.
pub(crate) fn parse_numeral(text: &str, base: u32, max: u32) -> (number: Option<u32>)
    requires
        base <= 10,
    ensures
        number == numeral(text@, base, max),
{
    broadcast use vstd::utf8::is_ascii_chars_nat_bound;

    if !text.is_ascii() {
        proof {
            if all_digits(text@, base) {
                assert forall|i: int| 0 <= i < text@.len() implies '\0' <= #[trigger] text@[i]
                    <= '\u{7f}' by {
                    assert(is_digit(text@[i], base));
                }
            }
        }
        return None;
    }
    let n: usize = text.unicode_len();
    if n == 0 {
        return None;
    }
    let mut value: u64 = 0;
    let mut i: usize = 0;
    while i < n
        invariant
            i <= n,
            n == text@.len(),
            base <= 10,
            text.is_ascii(),
            all_digits(text@.take(i as int), base),
            value == digits_value(text@.take(i as int), base),
            value <= max,
        decreases n - i,
    {
        let b: u8 = text.get_ascii(i);
        let ghost c = text@[i as int];
        let ghost longer = text@.take(i + 1);
        proof {
            assert(longer.drop_last() =~= text@.take(i as int));
            assert(longer.last() == c);
            assert((c as nat) < 128);
        }
        if b < 48 || b as u32 >= 48 + base {
            proof {
                assert(!is_digit(c, base));
            }
            return None;
        }
        let digit: u64 = (b - 48) as u64;
        proof {
            assert(is_digit(c, base));
            assert forall|k: int| 0 <= k < longer.len() implies is_digit(
                #[trigger] longer[k],
                base,
            ) by {
                if k < i {
                    assert(longer[k] == text@.take(i as int)[k]);
                }
            }
            assert(digits_value(longer, base) == base * value + digit);
            assert(base * value <= 10 * 0xffff_ffff) by (nonlinear_arith)
                requires
                    base <= 10,
                    0 <= value <= 0xffff_ffff,
            ;
        }
        let next: u64 = (base as u64) * value + digit;
        if next > max as u64 {
            proof {
                if all_digits(text@, base) {
                    lemma_digits_value_grows(text@, base, i + 1);
                }
            }
            return None;
        }
        value = next;
        i += 1;
    }
    proof {
        assert(text@.take(n as int) =~= text@);
    }
    Some(value as u32)
}

} // verus!
