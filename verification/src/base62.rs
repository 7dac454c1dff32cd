//! Positional notation in radix 62.
//!
//! The alphabet is `0-9`, then `a-z`, then `A-Z`; the most significant digit
//! comes first. This module says what a numeral denotes and which numeral
//! writes a number, proves that the two are inverse to each other, and reads
//! and writes numerals of 128-bit numbers.

use vstd::prelude::*;
use vstd::string::*;

verus! {

/// The digits in rising order: the character at position `d` writes the digit
/// `d`.
pub const ALPHABET: &'static str = "0123456789abcdefghijklmnopqrstuvwxyzABCDEFGHIJKLMNOPQRSTUVWXYZ";

/// The digit that a character stands for, if it belongs to the alphabet.
pub open spec fn digit_value(c: char) -> Option<nat> {
    if '0' <= c <= '9' {
        Some((c as nat - '0' as nat) as nat)
    } else if 'a' <= c <= 'z' {
        Some((c as nat - 'a' as nat + 10) as nat)
    } else if 'A' <= c <= 'Z' {
        Some((c as nat - 'A' as nat + 36) as nat)
    } else {
        None
    }
}

/// Whether a character belongs to the alphabet.
pub open spec fn is_digit(c: char) -> bool {
    digit_value(c) is Some
}

/// The character that writes a digit below the radix.
pub open spec fn digit_char(d: nat) -> char
    recommends
        d < 62,
{
    if d < 10 {
        ('0' as nat + d) as char
    } else if d < 36 {
        ('a' as nat + d - 10) as char
    } else {
        ('A' as nat + d - 36) as char
    }
}

/// Whether every character of a text belongs to the alphabet.
pub open spec fn all_digits(s: Seq<char>) -> bool {
    forall|i: int| 0 <= i < s.len() ==> is_digit(#[trigger] s[i])
}

/// The number that a numeral denotes. A character outside the alphabet counts
/// as zero, so the result means something only where `all_digits` holds.
pub open spec fn number(s: Seq<char>) -> nat
    decreases s.len(),
{
    if s.len() == 0 {
        0
    } else {
        let last = match digit_value(s.last()) {
            Some(d) => d,
            None => 0,
        };
        number(s.drop_last()) * 62 + last
    }
}

/// The numeral of `len` digits that writes `n`, or its `len` lowest digits
/// where `n` needs more.
pub open spec fn numeral(n: nat, len: nat) -> Seq<char>
    decreases len,
{
    if len == 0 {
        Seq::empty()
    } else {
        numeral(n / 62, (len - 1) as nat).push(digit_char(n % 62))
    }
}

/// The radix raised to the power `len`: the count of numerals of that width.
pub open spec fn capacity(len: nat) -> nat
    decreases len,
{
    if len == 0 {
        1
    } else {
        62 * capacity((len - 1) as nat)
    }
}

/// The 128-bit number that a text denotes, if it is a numeral of one.
pub open spec fn numeral_value(s: Seq<char>) -> Option<u128> {
    if all_digits(s) && number(s) <= u128::MAX {
        Some(number(s) as u128)
    } else {
        None
    }
}

/// The alphabet holds the 62 digits, each at its own position.
pub proof fn lemma_alphabet()
    ensures
        ALPHABET@.len() == 62,
        forall|d: int| 0 <= d < 62 ==> #[trigger] ALPHABET@[d] == digit_char(d as nat),
        is_ascii(ALPHABET),
{
    reveal_strlit("0123456789abcdefghijklmnopqrstuvwxyzABCDEFGHIJKLMNOPQRSTUVWXYZ");
}

/// A digit's character stands for that digit.
pub proof fn lemma_digit_char_value(d: nat)
    requires
        d < 62,
    ensures
        digit_value(digit_char(d)) == Some(d),
{
}

/// A character of the alphabet is the one that writes its own digit, and that
/// digit is below the radix.
pub proof fn lemma_digit_value_char(c: char)
    requires
        is_digit(c),
    ensures
        digit_value(c)->Some_0 < 62,
        digit_char(digit_value(c)->Some_0) == c,
{
}

/// A numeral has the width asked for and holds digits only.
pub proof fn lemma_numeral_shape(n: nat, len: nat)
    ensures
        numeral(n, len).len() == len,
        all_digits(numeral(n, len)),
    decreases len,
{
    if len > 0 {
        lemma_numeral_shape(n / 62, (len - 1) as nat);
        lemma_digit_char_value(n % 62);
    }
}

/// Writing a number that fits the width, then reading the numeral, gives the
/// number back.
pub proof fn lemma_number_of_numeral(n: nat, len: nat)
    requires
        n < capacity(len),
    ensures
        number(numeral(n, len)) == n,
    decreases len,
{
    if len > 0 {
        lemma_number_of_numeral(n / 62, (len - 1) as nat);
        lemma_digit_char_value(n % 62);
        assert(numeral(n, len).drop_last() =~= numeral(n / 62, (len - 1) as nat));
    }
}

/// Reading a numeral of digits, then writing the number at the same width,
/// gives the numeral back.
pub proof fn lemma_numeral_of_number(s: Seq<char>)
    requires
        all_digits(s),
    ensures
        numeral(number(s), s.len()) == s,
    decreases s.len(),
{
    if s.len() > 0 {
        lemma_numeral_of_number(s.drop_last());
        lemma_digit_value_char(s.last());
    }
}

/// A longer prefix of a numeral never denotes less than a shorter one.
pub proof fn lemma_number_prefix_monotone(s: Seq<char>, k: int)
    requires
        0 <= k <= s.len(),
    ensures
        number(s.take(k)) <= number(s),
    decreases s.len() - k,
{
    if k < s.len() {
        lemma_number_prefix_monotone(s, k + 1);
        let longer = s.take(k + 1);
        assert(longer.drop_last() =~= s.take(k));
        assert(number(longer) >= number(s.take(k))) by (nonlinear_arith)
            requires
                number(longer) == number(s.take(k)) * 62 + (match digit_value(longer.last()) {
                    Some(d) => d,
                    None => 0,
                }),
        ;
    } else {
        assert(s.take(k) =~= s);
    }
}

/// Every 128-bit number fits in 22 digits.
pub proof fn lemma_capacity_22()
    ensures
        capacity(22) == 2707803647802660400290261537185326956544,
        capacity(22) > u128::MAX,
{
    reveal_with_fuel(capacity, 23);
}

/// The one-character text that writes a digit.
fn digit_text(d: u8) -> (text: &'static str)
    requires
        d < 62,
    ensures
        text@ == seq![digit_char(d as nat)],
{
    proof {
        lemma_alphabet();
    }
    ALPHABET.substring_ascii(d as usize, d as usize + 1)
}

/// The digit that an ASCII byte stands for, if it is one of the alphabet.
fn digit_of_byte(b: u8) -> (r: Option<u8>)
    ensures
        match r {
            Some(d) => digit_value(b as char) == Some(d as nat),
            None => digit_value(b as char) is None,
        },
{
    if 48 <= b && b <= 57 {
        Some(b - 48)
    } else if 97 <= b && b <= 122 {
        Some(b - 97 + 10)
    } else if 65 <= b && b <= 90 {
        Some(b - 65 + 36)
    } else {
        None
    }
}

/// Appends to `text` the numeral of `len` digits that writes `n`.
pub fn write_numeral(text: &mut String, n: u128, len: usize)
    ensures
        final(text)@ == old(text)@ + numeral(n as nat, len as nat),
    decreases len,
{
    if len > 0 {
        write_numeral(text, n / 62, len - 1);
        text.append(digit_text((n % 62) as u8));
    }
}

/// Reads a numeral of any width.
///
/// Gives the number where every character is a digit and the number fits in
/// 128 bits, and nothing otherwise.
pub fn read_numeral(text: &str) -> (r: Option<u128>)
    ensures
        r == numeral_value(text@),
{
    if !text.is_ascii() {
        // A character beyond ASCII is no digit.
        assert(!all_digits(text@));
        return None;
    }
    let bytes = text.as_bytes();
    proof {
        is_ascii_spec_bytes(text);
    }
    let len = bytes.len();
    let mut value: u128 = 0;
    let mut i: usize = 0;
    while i < len
        invariant
            i <= len,
            len == text@.len(),
            len == bytes@.len(),
            forall|j: int| 0 <= j < len ==> '\0' <= #[trigger] text@[j] <= '\u{7f}',
            forall|j: int| 0 <= j < len ==> #[trigger] bytes@[j] == text@[j] as u8,
            all_digits(text@.take(i as int)),
            value == number(text@.take(i as int)),
        decreases len - i,
    {
        let ghost longer = text@.take(i + 1);
        assert(longer.drop_last() =~= text@.take(i as int));
        let d: u8 = match digit_of_byte(bytes[i]) {
            Some(d) => d,
            None => {
                return None;
            },
        };
        if value > (u128::MAX - d as u128) / 62 {
            proof {
                lemma_number_prefix_monotone(text@, i + 1);
            }
            return None;
        }
        value = value * 62 + d as u128;
        assert(all_digits(longer));
        i += 1;
    }
    assert(text@.take(len as int) =~= text@);
    Some(value)
}

} // verus!
