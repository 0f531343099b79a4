//! Uppercase hexadecimal text, the display form of a signature.

use crate::sig::Signature;
use vstd::prelude::*;

verus! {

/// The uppercase hexadecimal digit for a value below 16.
pub open spec fn upper_hex_digit(value: int) -> char {
    if value < 10 {
        ('0' as int + value) as char
    } else {
        ('A' as int + value - 10) as char
    }
}

/// The uppercase hexadecimal text of a byte sequence: two digits for each
/// byte, the high half first, and nothing in between.
pub open spec fn upper_hex(bytes: Seq<u8>) -> Seq<char> {
    Seq::new(
        2 * bytes.len(),
        |i: int|
            if i % 2 == 0 {
                upper_hex_digit(bytes[i / 2] as int / 16)
            } else {
                upper_hex_digit(bytes[i / 2] as int % 16)
            },
    )
}

/// Whether `c` is one of the sixteen uppercase hexadecimal digits.
pub open spec fn is_upper_hex_digit(c: char) -> bool {
    ('0' <= c && c <= '9') || ('A' <= c && c <= 'F')
}

/// The hexadecimal text of a byte sequence has two characters for each byte,
/// and each of them is an uppercase hexadecimal digit.
pub proof fn lemma_upper_hex_shape(bytes: Seq<u8>)
    ensures
        upper_hex(bytes).len() == 2 * bytes.len(),
        forall|i: int|
            0 <= i < upper_hex(bytes).len() ==> is_upper_hex_digit(#[trigger] upper_hex(bytes)[i]),
{
}

/// The digit for `value` as a one-character string.
fn upper_hex_digit_str(value: u8) -> (digit: &'static str)
    requires
        value < 16,
    ensures
        digit@ == seq![upper_hex_digit(value as int)],
{
    let digits = "0123456789ABCDEF";
    proof {
        reveal_strlit("0123456789ABCDEF");
    }
    digits.substring_ascii(value as usize, value as usize + 1)
}

/// Renders `bytes` as uppercase hexadecimal text.
pub fn upper_hex_string(bytes: &[u8]) -> (text: String)
    ensures
        text@ == upper_hex(bytes@),
{
    let mut text = String::new();
    let mut i: usize = 0;
    while i < bytes.len()
        invariant
            i <= bytes@.len(),
            text@ == upper_hex(bytes@.take(i as int)),
        decreases bytes@.len() - i,
    {
        let byte = bytes[i];
        text.append(upper_hex_digit_str(byte / 16));
        text.append(upper_hex_digit_str(byte % 16));
        i += 1;
    }
    text
}

impl Signature {
    /// The display form: the flat form of the signature as uppercase
    /// hexadecimal, 228 characters with no separator, prefix or padding.
    pub fn to_string(&self) -> (text: String)
        ensures
            text@ == upper_hex(self@),
            text@.len() == 2 * Self::BYTE_SIZE,
    {
        let bytes = self.to_bytes();
        upper_hex_string(bytes.as_slice())
    }
}

} // verus!
