//! Addresses, hashes and 256-bit integers as plain bytes, and the text forms
//! in which they are written and read.

use vstd::prelude::*;

verus! {

/// A 20-byte account address.
#[derive(Debug, Clone, Copy, PartialEq, Eq)]
pub struct Address {
    pub bytes: [u8; 20],
}

/// A 32-byte hash, such as the identifier of a transaction.
#[derive(Debug, Clone, Copy, PartialEq, Eq)]
pub struct B256 {
    pub bytes: [u8; 32],
}

impl View for B256 {
    type V = Seq<u8>;

    open spec fn view(&self) -> Seq<u8> {
        self.bytes@
    }
}

impl View for Address {
    type V = Seq<u8>;

    open spec fn view(&self) -> Seq<u8> {
        self.bytes@
    }
}

/// An unsigned 256-bit integer, held as its 32 big-endian bytes.
#[derive(Debug, Clone, Copy, PartialEq, Eq)]
pub struct U256 {
    pub be_bytes: [u8; 32],
}

/// The number that a sequence of bytes denotes, most significant byte first.
pub open spec fn be_value(bytes: Seq<u8>) -> nat
    decreases bytes.len(),
{
    if bytes.len() == 0 {
        0
    } else {
        be_value(bytes.drop_last()) * 256 + bytes.last() as nat
    }
}

impl View for U256 {
    type V = nat;

    open spec fn view(&self) -> nat {
        be_value(self.be_bytes@)
    }
}

impl U256 {
    /// The integer zero.
    pub fn zero() -> (zero: U256)
        ensures
            zero@ == 0,
            zero.be_bytes@ == Seq::new(32, |i: int| 0u8),
    {
        let zero = U256 { be_bytes: [0u8; 32] };
        proof {
            lemma_be_value_zero(zero.be_bytes@);
        }
        zero
    }
}

/// A sequence of zero bytes denotes zero.
pub proof fn lemma_be_value_zero(bytes: Seq<u8>)
    requires
        forall|i: int| 0 <= i < bytes.len() ==> bytes[i] == 0,
    ensures
        be_value(bytes) == 0,
    decreases bytes.len(),
{
    if bytes.len() > 0 {
        lemma_be_value_zero(bytes.drop_last());
    }
}

/// The sixteen lower-case hexadecimal digits, in order of value.
pub open spec fn hex_digit(value: int) -> char {
    "0123456789abcdef"@[value]
}

/// Two lower-case hexadecimal digits for each byte, high nibble first.
pub open spec fn hex_lower(bytes: Seq<u8>) -> Seq<char> {
    Seq::new(
        2 * bytes.len(),
        |i: int|
            if i % 2 == 0 {
                hex_digit(bytes[i / 2] as int / 16)
            } else {
                hex_digit(bytes[i / 2] as int % 16)
            },
    )
}

/// The text of an address: `0x` and forty lower-case hexadecimal digits.
pub open spec fn address_text(bytes: Seq<u8>) -> Seq<char> {
    "0x"@ + hex_lower(bytes)
}

/// The value of a hexadecimal digit, in either case.
pub open spec fn hex_value(digit: char) -> Option<int> {
    if '0' <= digit <= '9' {
        Some(digit as int - '0' as int)
    } else if 'a' <= digit <= 'f' {
        Some(digit as int - 'a' as int + 10)
    } else if 'A' <= digit <= 'F' {
        Some(digit as int - 'A' as int + 10)
    } else {
        None
    }
}

/// Whether every character of a text is a hexadecimal digit.
pub open spec fn is_hex_text(text: Seq<char>) -> bool {
    forall|i: int| 0 <= i < text.len() ==> (#[trigger] hex_value(text[i])) is Some
}

/// The bytes that a text of hexadecimal digits denotes, two digits to a byte,
/// high nibble first.
pub open spec fn hex_bytes(digits: Seq<char>) -> Seq<u8> {
    Seq::new(
        digits.len() / 2,
        |i: int| (hex_value(digits[2 * i])->0 * 16 + hex_value(digits[2 * i + 1])->0) as u8,
    )
}

/// A text without the `0x` or `0X` that may stand in front of it.
pub open spec fn without_hex_prefix(text: Seq<char>) -> Seq<char> {
    if text.len() >= 2 && text[0] == '0' && (text[1] == 'x' || text[1] == 'X') {
        text.skip(2)
    } else {
        text
    }
}

/// The `count` bytes that a text denotes: two hexadecimal digits in either
/// case for each byte, with or without a prefix. Any other text denotes
/// nothing.
pub open spec fn parsed_hex(text: Seq<char>, count: nat) -> Option<Seq<u8>> {
    let digits = without_hex_prefix(text);
    if digits.len() == 2 * count && is_hex_text(digits) {
        Some(hex_bytes(digits))
    } else {
        None
    }
}

/// The address that a text denotes: twenty bytes in hexadecimal.
pub open spec fn parsed_address(text: Seq<char>) -> Option<Seq<u8>> {
    parsed_hex(text, 20)
}

/// The hash that a text denotes: 32 bytes in hexadecimal.
pub open spec fn parsed_hash(text: Seq<char>) -> Option<Seq<u8>> {
    parsed_hex(text, 32)
}

/// The ten decimal digits, in order of value.
pub open spec fn decimal_digit(value: int) -> char {
    "0123456789"@[value]
}

/// A number in decimal, without sign, padding or leading zeros.
pub open spec fn decimal_text(value: nat) -> Seq<char>
    decreases value,
{
    if value < 10 {
        seq![decimal_digit(value as int)]
    } else {
        decimal_text(value / 10).push(decimal_digit((value % 10) as int))
    }
}

/// One decimal digit as a string.
pub fn digit_str(digit: u8) -> (text: &'static str)
    requires
        digit < 10,
    ensures
        text@ == seq![decimal_digit(digit as int)],
{
    proof {
        reveal_strlit("0123456789");
        reveal_strlit("0");
        reveal_strlit("1");
        reveal_strlit("2");
        reveal_strlit("3");
        reveal_strlit("4");
        reveal_strlit("5");
        reveal_strlit("6");
        reveal_strlit("7");
        reveal_strlit("8");
        reveal_strlit("9");
    }
    let text = match digit {
        0 => "0",
        1 => "1",
        2 => "2",
        3 => "3",
        4 => "4",
        5 => "5",
        6 => "6",
        7 => "7",
        8 => "8",
        _ => "9",
    };
    text
}

/// Writes a small number in decimal.
pub fn u8_decimal(value: u8) -> (text: String)
    ensures
        text@ == decimal_text(value as nat),
{
    proof {
        reveal_with_fuel(decimal_text, 3);
    }
    let mut text = String::new();
    if value >= 100 {
        text.append(digit_str(value / 100));
    }
    if value >= 10 {
        text.append(digit_str((value / 10) % 10));
    }
    text.append(digit_str(value % 10));
    text
}

/// Reading the text of an address gives the address back.
pub proof fn lemma_address_text_parses(bytes: Seq<u8>)
    requires
        bytes.len() == 20,
    ensures
        parsed_address(address_text(bytes)) == Some(bytes),
{
    reveal_strlit("0x");
    reveal_strlit("0123456789abcdef");
    let digits = hex_lower(bytes);
    assert forall|i: int| 0 <= i < digits.len() implies (#[trigger] hex_value(
        digits[i],
    )) is Some by {
        lemma_hex_digit_value(bytes[i / 2] as int / 16);
        lemma_hex_digit_value(bytes[i / 2] as int % 16);
    }
    assert forall|i: int| 0 <= i < 20 implies hex_bytes(digits)[i] == bytes[i] by {
        lemma_hex_digit_value(bytes[i] as int / 16);
        lemma_hex_digit_value(bytes[i] as int % 16);
    }
}

/// Each of the sixteen digits has the value by which it was chosen, and none
/// is a line feed.
pub proof fn lemma_hex_digit_value(value: int)
    requires
        0 <= value < 16,
    ensures
        hex_value(hex_digit(value)) == Some(value),
        hex_digit(value) != '\n',
{
    reveal_strlit("0123456789abcdef");
}

} // verus!
