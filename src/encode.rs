//! Choice of the encoding mode for a payload.

use vstd::prelude::*;

verus! {

/// How the characters of a payload are packed into bits.
#[derive(Clone, Copy, Debug, PartialEq, Eq, Structural)]
pub enum Mode {
    /// Decimal digits only, three per 10 bits
    Numeric,
    /// Digits, upper case letters, space and `$%*+-./:`, two per 11 bits
    Alphanumeric,
    /// Any byte, eight bits each
    Byte,
}

/// `b` is an ASCII decimal digit (`0x30` is `0`, `0x39` is `9`).
pub open spec fn is_numeric(b: u8) -> bool {
    0x30 <= b <= 0x39
}

/// `b` belongs to the alphanumeric character set: a digit, `A` (`0x41`) to `Z`
/// (`0x5A`), space (`0x20`) or one of `$ % * + - . / :`.
pub open spec fn is_alphanumeric(b: u8) -> bool {
    is_numeric(b) || (0x41 <= b <= 0x5A) || b == 0x20 || b == 0x24 || b == 0x25 || b == 0x2A
        || b == 0x2B || b == 0x2D || b == 0x2E || b == 0x2F || b == 0x3A
}

/// The narrowest mode whose character set holds every byte of `s`.
pub open spec fn best_mode(s: Seq<u8>) -> Mode {
    if forall|i: int| 0 <= i < s.len() ==> is_numeric(#[trigger] s[i]) {
        Mode::Numeric
    } else if forall|i: int| 0 <= i < s.len() ==> is_alphanumeric(#[trigger] s[i]) {
        Mode::Alphanumeric
    } else {
        Mode::Byte
    }
}

/// Whether `b` is an alphanumeric character.
fn alphanumeric_byte(b: u8) -> (r: bool)
    ensures
        r == is_alphanumeric(b),
{
    (0x30 <= b && b <= 0x39) || (0x41 <= b && b <= 0x5A) || b == 0x20 || b == 0x24 || b == 0x25
        || b == 0x2A || b == 0x2B || b == 0x2D || b == 0x2E || b == 0x2F || b == 0x3A
}

/// Picks the narrowest mode that can encode all of `input`, in one pass.
///
/// An empty input is `Numeric`.
pub fn best_encoding(input: &[u8]) -> (r: Mode)
    ensures
        r == best_mode(input@),
{
    let mut numeric = true;
    let mut alphanumeric = true;
    let mut i: usize = 0;
    while i < input.len()
        invariant
            i <= input@.len(),
            numeric == (forall|k: int| 0 <= k < i ==> is_numeric(#[trigger] input@[k])),
            alphanumeric == (forall|k: int| 0 <= k < i ==> is_alphanumeric(#[trigger] input@[k])),
        decreases input@.len() - i,
    {
        let b = input[i];
        if !(0x30 <= b && b <= 0x39) {
            numeric = false;
        }
        if !alphanumeric_byte(b) {
            alphanumeric = false;
        }
        i = i + 1;
    }
    if numeric {
        Mode::Numeric
    } else if alphanumeric {
        Mode::Alphanumeric
    } else {
        Mode::Byte
    }
}

} // verus!
