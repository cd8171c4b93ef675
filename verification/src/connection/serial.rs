//! The parameters of a serial port.
use crate::text::{lowered, same_ignoring_case, same_text, trim, trimmed};
use vstd::prelude::*;

verus! {

/// How many bits a character has.
#[derive(Debug, Clone, Copy, PartialEq, Eq, Structural)]
pub enum DataBits {
    Five,
    Six,
    Seven,
    Eight,
}

/// How many bits end a character.
#[derive(Debug, Clone, Copy, PartialEq, Eq, Structural)]
pub enum StopBits {
    One,
    Two,
}

/// Whether a bit makes the number of ones odd or even.
#[derive(Debug, Clone, Copy, PartialEq, Eq, Structural)]
pub enum Parity {
    Absent,
    Odd,
    Even,
}

/// The number of data bits that a text names. What is no such number means eight.
pub open spec fn data_bits_named(s: Seq<char>) -> DataBits {
    if trimmed(s) == "5"@ {
        DataBits::Five
    } else if trimmed(s) == "6"@ {
        DataBits::Six
    } else if trimmed(s) == "7"@ {
        DataBits::Seven
    } else {
        DataBits::Eight
    }
}

/// The number of stop bits that a text names. What is no such number means one.
pub open spec fn stop_bits_named(s: Seq<char>) -> StopBits {
    if trimmed(s) == "2"@ {
        StopBits::Two
    } else {
        StopBits::One
    }
}

/// The parity that a text names, capitals taken for small letters. What is no parity means that
/// there is none.
pub open spec fn parity_named(s: Seq<char>) -> Parity {
    if lowered(trimmed(s)) == "odd"@ {
        Parity::Odd
    } else if lowered(trimmed(s)) == "even"@ {
        Parity::Even
    } else {
        Parity::Absent
    }
}

/// Reads the number of data bits.
pub fn parse_data_bits(s: &str) -> (bits: DataBits)
    ensures
        bits == data_bits_named(s@),
{
    let t = trim(s);
    if same_text(t.as_str(), "5") {
        DataBits::Five
    } else if same_text(t.as_str(), "6") {
        DataBits::Six
    } else if same_text(t.as_str(), "7") {
        DataBits::Seven
    } else {
        DataBits::Eight
    }
}

/// Reads the number of stop bits.
pub fn parse_stop_bits(s: &str) -> (bits: StopBits)
    ensures
        bits == stop_bits_named(s@),
{
    let t = trim(s);
    if same_text(t.as_str(), "2") {
        StopBits::Two
    } else {
        StopBits::One
    }
}

/// Reads the parity.
pub fn parse_parity(s: &str) -> (parity: Parity)
    ensures
        parity == parity_named(s@),
{
    let t = trim(s);
    if same_ignoring_case(t.as_str(), "odd") {
        Parity::Odd
    } else if same_ignoring_case(t.as_str(), "even") {
        Parity::Even
    } else {
        Parity::Absent
    }
}

} // verus!
