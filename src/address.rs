use vstd::prelude::*;

use crate::error::{ConfigIssue, TradeError};
use crate::types::ChainAddress;

verus! {

/// Characters that hex decoding skips.
pub open spec fn is_hex_space(c: char) -> bool {
    c == ' ' || c == '\r' || c == '\n' || c == '\t'
}

pub open spec fn is_hex_digit(c: char) -> bool {
    ('0' <= c && c <= '9') || ('a' <= c && c <= 'f') || ('A' <= c && c <= 'F')
}

pub open spec fn hex_value(c: char) -> int {
    if '0' <= c && c <= '9' {
        c as int - '0' as int
    } else if 'a' <= c && c <= 'f' {
        c as int - 'a' as int + 10
    } else {
        c as int - 'A' as int + 10
    }
}

/// The text without one leading `0x`, and without the characters that decoding skips.
pub open spec fn address_digits(s: Seq<char>) -> Seq<char> {
    let body = if s.len() >= 2 && s[0] == '0' && s[1] == 'x' {
        s.skip(2)
    } else {
        s
    };
    body.filter(|c: char| !is_hex_space(c))
}

/// An address in text: forty hex digits, read big-endian, after an optional `0x`.
pub open spec fn is_address_text(s: Seq<char>) -> bool {
    let d = address_digits(s);
    d.len() == 40 && forall|i: int| 0 <= i < 40 ==> is_hex_digit(#[trigger] d[i])
}

/// Byte `i` of an address written as `s`.
pub open spec fn address_byte(s: Seq<char>, i: int) -> int {
    let d = address_digits(s);
    16 * hex_value(d[2 * i]) + hex_value(d[2 * i + 1])
}

/// Relies on `ethers::types::Address::from_str` (fixed-hash over rustc-hex): it
/// strips one `0x`, skips spaces, tabs and line breaks, and accepts exactly twenty
/// bytes of hex digits in either case.
#[verifier::external_body]
fn decode_address(s: &str) -> (r: Option<ChainAddress>)
    ensures
        r is Some <==> is_address_text(s@),
        r matches Some(a) ==> forall|i: int| 0 <= i < 20 ==> #[trigger] a.bytes@[i] == address_byte(s@, i),
{
    s.parse::<ethers::types::Address>().ok().map(|a| ChainAddress { bytes: a.0 })
}

/// Reads an address written in hex; text that is not one is a configuration error.
pub fn parse_address(s: &str) -> (r: Result<ChainAddress, TradeError>)
    ensures
        r is Ok <==> is_address_text(s@),
        r matches Ok(a) ==> forall|i: int| 0 <= i < 20 ==> #[trigger] a.bytes@[i] == address_byte(s@, i),
        r matches Err(e) ==> e == TradeError::Configuration(ConfigIssue::InvalidAddress),
{
    match decode_address(s) {
        Some(a) => Ok(a),
        None => Err(TradeError::Configuration(ConfigIssue::InvalidAddress)),
    }
}

} // verus!
