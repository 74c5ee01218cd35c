//! Numbers as callers write them: unsigned integers of up to 256 bits, in hexadecimal with a
//! leading `0x` or in plain decimal.

use crate::errors::SimulationError;
use vstd::prelude::*;

verus! {

/// An unsigned integer of 256 bits: four words of 64 bits, the least significant first.
#[derive(Debug, Clone, Copy, PartialEq, Eq)]
pub struct Uint(pub [u64; 4]);

/// A [`Uint`] that a caller may write in hexadecimal or in decimal.
#[derive(Debug, Clone, Copy, PartialEq)]
pub struct PermissiveUint(pub Uint);

/// The number that four words stand for, the least significant first.
pub open spec fn words_value(words: Seq<u64>) -> nat {
    (words[0] as nat) + (words[1] as nat) * 0x1_0000_0000_0000_0000nat
        + (words[2] as nat) * 0x1_0000_0000_0000_0000_0000_0000_0000_0000nat
        + (words[3] as nat) * 0x1_0000_0000_0000_0000_0000_0000_0000_0000_0000_0000_0000_0000nat
}

/// The first number that does not fit in 256 bits.
pub open spec fn uint_limit() -> nat {
    0x1_0000_0000_0000_0000_0000_0000_0000_0000_0000_0000_0000_0000_0000_0000_0000_0000nat
}

/// The value of a decimal digit.
pub open spec fn decimal_digit(c: char) -> Option<nat> {
    if '0' <= c <= '9' {
        Some((c as nat - '0' as nat) as nat)
    } else {
        None
    }
}

/// The value of a hexadecimal digit, in either case.
pub open spec fn hex_digit(c: char) -> Option<nat> {
    if '0' <= c <= '9' {
        Some((c as nat - '0' as nat) as nat)
    } else if 'a' <= c <= 'f' {
        Some((c as nat - 'a' as nat + 10) as nat)
    } else if 'A' <= c <= 'F' {
        Some((c as nat - 'A' as nat + 10) as nat)
    } else {
        None
    }
}

/// The number that a run of decimal digits writes, the empty run writing zero; `None` where a
/// character is no decimal digit.
pub open spec fn decimal_number(text: Seq<char>) -> Option<nat>
    decreases text.len(),
{
    if text.len() == 0 {
        Some(0)
    } else {
        match (decimal_number(text.drop_last()), decimal_digit(text.last())) {
            (Some(front), Some(digit)) => Some(front * 10 + digit),
            _ => None,
        }
    }
}

/// The number that a run of hexadecimal digits writes, the empty run writing zero; `None`
/// where a character is no hexadecimal digit.
pub open spec fn hex_number(text: Seq<char>) -> Option<nat>
    decreases text.len(),
{
    if text.len() == 0 {
        Some(0)
    } else {
        match (hex_number(text.drop_last()), hex_digit(text.last())) {
            (Some(front), Some(digit)) => Some(front * 16 + digit),
            _ => None,
        }
    }
}

/// Whether a text starts with `0x`.
pub open spec fn has_hex_prefix(text: Seq<char>) -> bool {
    text.len() >= 2 && text[0] == '0' && text[1] == 'x'
}

/// What a decimal text parses to: its number, if every character is a digit and the number
/// fits in 256 bits.
pub open spec fn parsed_decimal(text: Seq<char>) -> Option<nat> {
    match decimal_number(text) {
        Some(number) => if number < uint_limit() {
            Some(number)
        } else {
            None
        },
        None => None,
    }
}

/// What a hexadecimal text parses to: the number of its digits, after one leading `0x` if
/// there is one, if there are at most 64 of them.
pub open spec fn parsed_hex(text: Seq<char>) -> Option<nat> {
    let digits = if has_hex_prefix(text) {
        text.skip(2)
    } else {
        text
    };
    if digits.len() <= 64 {
        hex_number(digits)
    } else {
        None
    }
}

/// What a numeric field parses to: hexadecimal where it starts with `0x`, decimal otherwise.
pub open spec fn parsed_number(text: Seq<char>) -> Result<nat, SimulationError> {
    if has_hex_prefix(text) {
        match parsed_hex(text) {
            Some(number) => Ok(number),
            None => Err(SimulationError::FromHexError),
        }
    } else {
        match parsed_decimal(text) {
            Some(number) => Ok(number),
            None => Err(SimulationError::FromDecStrError),
        }
    }
}

/// Calls `U256::from_dec_str` of `ethers` (the `uint` crate's `from_dec_str`).
///
/// The outside function walks the bytes of the text, refuses with an error the first byte
/// that is no ASCII digit and any step at which the number leaves 256 bits, and returns the
/// number otherwise; the empty text gives zero. The words of the result are handed back.
#[verifier::external_body]
fn uint_from_dec_str(text: &str) -> (words: Option<[u64; 4]>)
    ensures
        match words {
            Some(w) => parsed_decimal(text@) == Some(words_value(w@)),
            None => parsed_decimal(text@) is None,
        },
{
    match ethers::types::U256::from_dec_str(text) {
        Ok(number) => Some(number.0),
        Err(_) => None,
    }
}

/// Calls `<U256 as FromStr>::from_str` of `ethers` (the `uint` crate's hexadecimal parser).
///
/// The outside function strips one leading `0x`, refuses more than 64 bytes and any byte
/// that is no hexadecimal digit, and returns the number that the digits write, the empty
/// run giving zero. The words of the result are handed back.
#[verifier::external_body]
fn uint_from_hex_str(text: &str) -> (words: Option<[u64; 4]>)
    ensures
        match words {
            Some(w) => parsed_hex(text@) == Some(words_value(w@)),
            None => parsed_hex(text@) is None,
        },
{
    match <ethers::types::U256 as std::str::FromStr>::from_str(text) {
        Ok(number) => Some(number.0),
        Err(_) => None,
    }
}

impl Uint {
    /// The number this value stands for.
    pub open spec fn value(self) -> nat {
        words_value(self.0@)
    }

    /// The 256-bit value of a 64-bit number.
    pub fn from_u64(number: u64) -> (result: Uint)
        ensures
            result.value() == number,
    {
        Uint([number, 0, 0, 0])
    }

    /// Whether this value is the given 64-bit number.
    pub fn is_u64(&self, number: u64) -> (result: bool)
        ensures
            result == (self.value() == number),
    {
        self.0[0] == number && self.0[1] == 0 && self.0[2] == 0 && self.0[3] == 0
    }

    /// The plain value of a permissively written one.
    pub fn from(value: PermissiveUint) -> (result: Uint)
        ensures
            result == value.0,
    {
        value.0
    }
}

impl PermissiveUint {
    /// Reads a numeric field: hexadecimal where the text starts with `0x`, decimal otherwise.
    /// Any other form is refused.
    pub fn parse(text: &str) -> (result: Result<PermissiveUint, SimulationError>)
        ensures
            match result {
                Ok(number) => parsed_number(text@) == Ok::<nat, SimulationError>(number.0.value()),
                Err(error) => parsed_number(text@) == Err::<nat, SimulationError>(error),
            },
    {
        let hexadecimal = text.unicode_len() >= 2 && text.get_char(0) == '0' && text.get_char(1)
            == 'x';
        if hexadecimal {
            match uint_from_hex_str(text) {
                Some(words) => Ok(PermissiveUint(Uint(words))),
                None => Err(SimulationError::FromHexError),
            }
        } else {
            match uint_from_dec_str(text) {
                Some(words) => Ok(PermissiveUint(Uint(words))),
                None => Err(SimulationError::FromDecStrError),
            }
        }
    }
}

} // verus!
