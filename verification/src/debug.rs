//! The debug form of a signature: the name of the type, then `R` and `s`
//! with their bytes as lists of decimal numbers.

use crate::component::ComponentBytes;
use crate::sig::Signature;
use vstd::prelude::*;

verus! {

/// The decimal digit for a value below 10.
pub open spec fn decimal_digit(value: int) -> char {
    ('0' as int + value) as char
}

/// A byte in decimal, without leading zeros.
pub open spec fn decimal(byte: u8) -> Seq<char> {
    if byte < 10 {
        seq![decimal_digit(byte as int)]
    } else if byte < 100 {
        seq![decimal_digit(byte as int / 10), decimal_digit(byte as int % 10)]
    } else {
        seq![
            decimal_digit(byte as int / 100),
            decimal_digit(byte as int / 10 % 10),
            decimal_digit(byte as int % 10),
        ]
    }
}

/// The bytes in decimal, in order, with a comma and a space between
/// neighbours.
pub open spec fn decimal_list(bytes: Seq<u8>) -> Seq<char>
    decreases bytes.len(),
{
    if bytes.len() == 0 {
        Seq::empty()
    } else if bytes.len() == 1 {
        decimal(bytes[0])
    } else {
        decimal_list(bytes.drop_last()) + ", "@ + decimal(bytes.last())
    }
}

/// The debug form of a component with the given bytes.
pub open spec fn component_debug_text(bytes: Seq<u8>) -> Seq<char> {
    "ComponentBytes(["@ + decimal_list(bytes) + "])"@
}

/// The debug form of a signature with the given components.
pub open spec fn signature_debug_text(r: Seq<u8>, s: Seq<u8>) -> Seq<char> {
    "ed448_signature::Signature { R: "@ + component_debug_text(r) + ", s: "@
        + component_debug_text(s) + " }"@
}

/// The digit for `value` as a one-character string.
fn decimal_digit_str(value: u8) -> (digit: &'static str)
    requires
        value < 10,
    ensures
        digit@ == seq![decimal_digit(value as int)],
{
    let digits = "0123456789";
    proof {
        reveal_strlit("0123456789");
    }
    digits.substring_ascii(value as usize, value as usize + 1)
}

/// Appends `byte` in decimal.
fn push_decimal(text: &mut String, byte: u8)
    ensures
        final(text)@ == old(text)@ + decimal(byte),
{
    if byte >= 100 {
        text.append(decimal_digit_str(byte / 100));
    }
    if byte >= 10 {
        text.append(decimal_digit_str(byte / 10 % 10));
    }
    text.append(decimal_digit_str(byte % 10));
}

/// Appends the debug form of `component`.
fn push_component_debug(text: &mut String, component: &ComponentBytes)
    ensures
        final(text)@ == old(text)@ + component_debug_text(component@),
{
    let bytes = component.as_bytes();
    text.append("ComponentBytes([");
    let ghost opened = text@;
    let mut i: usize = 0;
    while i < bytes.len()
        invariant
            i <= bytes@.len(),
            text@ == opened + decimal_list(bytes@.take(i as int)),
        decreases bytes@.len() - i,
    {
        if i > 0 {
            text.append(", ");
        }
        push_decimal(text, bytes[i]);
        i += 1;
        assert(bytes@.take(i as int).drop_last() =~= bytes@.take(i - 1));
    }
    assert(bytes@.take(i as int) =~= bytes@);
    text.append("])");
}

impl Signature {
    /// The debug form: the name of the type, then the `R` and `s`
    /// components with their bytes in decimal.
    pub fn debug_string(&self) -> (text: String)
        ensures
            text@ == signature_debug_text(self.r_bytes()@, self.s_bytes()@),
    {
        let mut text = String::new();
        text.append("ed448_signature::Signature { R: ");
        push_component_debug(&mut text, self.r_bytes());
        text.append(", s: ");
        push_component_debug(&mut text, self.s_bytes());
        text.append(" }");
        text
    }
}

} // verus!
