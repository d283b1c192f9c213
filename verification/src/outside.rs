//! The calls that the library makes into `alloy` and into parts of the
//! standard library that have no specification. Each stands behind a small
//! function whose contract Verus takes on trust: the contract says what the
//! called function is documented to return, and everything else in the
//! library is proved from it.

use vstd::prelude::*;
use vstd::utf8::{decode_utf8, valid_utf8};
use crate::primitives::{
    address_text, decimal_text, parsed_address, parsed_hash, Address, B256, U256,
};

verus! {

/// The Keccak-256 digest of a byte string.
pub uninterp spec fn keccak256_digest(data: Seq<u8>) -> Seq<u8>;

/// The lower-case form of a text, as Unicode defines it.
pub uninterp spec fn lowercase(text: Seq<char>) -> Seq<char>;

/// Whether a text is a URL.
pub uninterp spec fn is_url(text: Seq<char>) -> bool;

/// Calls `alloy::primitives::keccak256`. Trusted: the 32 bytes that come
/// back are the Keccak-256 digest of the input.
#[verifier::external_body]
pub(crate) fn keccak256(data: &[u8]) -> (digest: [u8; 32])
    ensures
        digest@ == keccak256_digest(data@),
{
    alloy::primitives::keccak256(data).0
}

/// Formats an address through the `LowerHex` of `alloy::primitives::Address`
/// with the alternate flag. Trusted: the text is `0x` followed by two
/// lower-case hexadecimal digits for each of the twenty bytes.
#[verifier::external_body]
pub(crate) fn address_lower_hex(address: &Address) -> (text: String)
    ensures
        text@ == address_text(address@),
{
    format!("{:#x}", alloy::primitives::Address::from(address.bytes))
}

/// Reads an address through the `FromStr` of `alloy::primitives::Address`.
/// Trusted: the text is taken as hexadecimal, an optional `0x` or `0X` and
/// then exactly forty digits in either case, two to a byte; any other text
/// is refused.
#[verifier::external_body]
pub(crate) fn parse_address(text: &str) -> (address: Option<Address>)
    ensures
        match parsed_address(text@) {
            Some(bytes) => address is Some && address->0@ == bytes,
            None => address is None,
        },
{
    match text.parse::<alloy::primitives::Address>() {
        Ok(address) => Some(Address { bytes: address.0.0 }),
        Err(_) => None,
    }
}

/// Reads a hash through the `FromStr` of `alloy::primitives::B256`. Trusted:
/// the text is taken as hexadecimal, an optional `0x` or `0X` and then
/// exactly 64 digits in either case, two to a byte; any other text is
/// refused.
#[verifier::external_body]
pub(crate) fn parse_hash(text: &str) -> (hash: Option<B256>)
    ensures
        match parsed_hash(text@) {
            Some(bytes) => hash is Some && hash->0@ == bytes,
            None => hash is None,
        },
{
    match text.parse::<alloy::primitives::B256>() {
        Ok(hash) => Some(B256 { bytes: hash.0 }),
        Err(_) => None,
    }
}

/// Formats a 256-bit integer through the `Display` of
/// `alloy::primitives::U256`. Trusted: the text is the number in decimal,
/// without padding or leading zeros.
#[verifier::external_body]
pub(crate) fn u256_decimal(value: &U256) -> (text: String)
    ensures
        text@ == decimal_text(value@),
{
    format!("{}", alloy::primitives::U256::from_be_bytes(value.be_bytes))
}

/// Parses a text as a `reqwest::Url`, the type under which
/// `alloy::transports::http` takes the address of a node. Trusted: whether
/// the parse succeeds depends on the text alone.
#[verifier::external_body]
pub(crate) fn parses_as_url(text: &str) -> (valid: bool)
    ensures
        valid == is_url(text@),
{
    text.parse::<alloy::transports::http::reqwest::Url>().is_ok()
}

/// Calls `str::to_lowercase`. Trusted: the result is the lower-case
/// equivalent of the whole string, which depends on the string alone.
#[verifier::external_body]
pub(crate) fn to_lowercase(text: &str) -> (lowered: String)
    ensures
        lowered@ == lowercase(text@),
{
    text.to_lowercase()
}

/// Calls `String::from_utf8`. Trusted: bytes that are valid UTF-8 give the
/// string that they encode, any other bytes give nothing.
#[verifier::external_body]
pub(crate) fn string_from_utf8(bytes: Vec<u8>) -> (text: Option<String>)
    ensures
        valid_utf8(bytes@) ==> text is Some && text->0@ == decode_utf8(bytes@),
        !valid_utf8(bytes@) ==> text is None,
{
    String::from_utf8(bytes).ok()
}

} // verus!
