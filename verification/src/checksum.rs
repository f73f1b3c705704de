//! The check digit of a card number, after Luhn.
//!
//! A number passes when it is made of decimal digits only and the sum of its
//! weighted digits is a multiple of 10. Counting from the right, the first
//! digit counts as it is and every second digit counts twice, with 9 taken
//! off where the doubled digit exceeds 9.

use vstd::prelude::*;
use vstd::string::*;

verus! {

/// Whether `c` is one of the decimal digits `0` to `9`.
pub open spec fn is_digit(c: char) -> bool {
    '0' <= c && c <= '9'
}

/// The number that a decimal digit stands for.
pub open spec fn digit_value(c: char) -> int {
    c as int - '0' as int
}

/// What a digit adds to the sum: itself, or, when `doubled`, twice itself
/// with 9 taken off where that exceeds 9.
pub open spec fn weight(digit: int, doubled: bool) -> int {
    if !doubled {
        digit
    } else if 2 * digit > 9 {
        2 * digit - 9
    } else {
        2 * digit
    }
}

/// The sum of the weighted digits. The last digit is not doubled, the one
/// before it is, and so on in turn towards the front.
pub open spec fn weighted_sum(digits: Seq<char>) -> int
    decreases digits.len(),
{
    if digits.len() == 0 {
        0
    } else {
        weight(digit_value(digits.first()), digits.len() % 2 == 0) + weighted_sum(
            digits.drop_first(),
        )
    }
}

/// Whether `text` holds decimal digits only.
pub open spec fn all_digits(text: Seq<char>) -> bool {
    forall|i: int| 0 <= i < text.len() ==> is_digit(#[trigger] text[i])
}

/// Whether `number` is a run of at least one decimal digit whose weighted sum
/// is a multiple of 10.
pub open spec fn checksum_valid(number: Seq<char>) -> bool {
    &&& number.len() > 0
    &&& all_digits(number)
    &&& weighted_sum(number) % 10 == 0
}

/// Whether `number` has a valid check digit.
pub fn passes_checksum(number: &str) -> (ok: bool)
    ensures
        ok == checksum_valid(number@),
{
    if !number.is_ascii() {
        return false;
    }
    let n = number.unicode_len();
    if n == 0 {
        return false;
    }
    let mut i: usize = n;
    let mut sum: u8 = 0;
    let mut doubled = false;
    while i > 0
        invariant
            is_ascii(number),
            n == number@.len(),
            i <= n,
            sum < 10,
            sum == weighted_sum(number@.subrange(i as int, n as int)) % 10,
            doubled == ((n - i) % 2 == 1),
            forall|j: int| i <= j < n ==> is_digit(#[trigger] number@[j]),
        decreases i,
    {
        i -= 1;
        let byte = number.get_ascii(i);
        if byte < 48 || byte > 57 {
            assert(!is_digit(number@[i as int]));
            return false;
        }
        let digit: u8 = byte - 48;
        let counted: u8 = if !doubled {
            digit
        } else if 2 * digit > 9 {
            2 * digit - 9
        } else {
            2 * digit
        };
        proof {
            let tail = number@.subrange(i as int, n as int);
            assert(tail.drop_first() =~= number@.subrange(i + 1, n as int));
            assert(tail.first() == number@[i as int]);
            assert(counted == weight(digit_value(tail.first()), tail.len() % 2 == 0));
        }
        sum = (sum + counted) % 10;
        doubled = !doubled;
    }
    assert(number@.subrange(0, n as int) =~= number@);
    sum == 0
}

} // verus!
