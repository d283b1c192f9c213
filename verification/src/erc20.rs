//! Deciding from four read-only accessor calls whether a contract looks like
//! a fungible token.

use vstd::prelude::*;
use vstd::slice::slice_to_vec;
use vstd::utf8::{decode_utf8, encode_utf8, valid_utf8};
use crate::outside::{keccak256, keccak256_digest, string_from_utf8};
use crate::primitives::{be_value, U256};

verus! {

/// One of the four accessors that a token contract is expected to answer.
#[derive(Debug, Clone, Copy, PartialEq, Eq, Structural)]
pub enum Accessor {
    TotalSupply,
    Name,
    Symbol,
    Decimals,
}

/// What an accessor's output decodes to: one shape for each kind of accessor.
#[derive(Debug)]
pub enum Decoded {
    /// An unsigned 256-bit amount.
    Amount(U256),
    /// A text.
    Text(String),
    /// A small count.
    Count(u8),
}

/// A decoded value with its contents as mathematical values.
pub enum DecodedView {
    Amount(nat),
    Text(Seq<char>),
    Count(u8),
}

impl View for Decoded {
    type V = DecodedView;

    open spec fn view(&self) -> DecodedView {
        match self {
            Decoded::Amount(amount) => DecodedView::Amount(amount@),
            Decoded::Text(text) => DecodedView::Text(text@),
            Decoded::Count(count) => DecodedView::Count(*count),
        }
    }
}

/// The amount that an output holds: its first 32 bytes read as a big-endian
/// integer, where it has that many.
pub open spec fn decoded_amount(output: Seq<u8>) -> Option<nat> {
    if output.len() >= 32 {
        Some(be_value(output.take(32)))
    } else {
        None
    }
}

/// The count that an output holds: its last byte, where it has at least 32
/// bytes.
pub open spec fn decoded_count(output: Seq<u8>) -> Option<u8> {
    if output.len() >= 32 {
        Some(output.last())
    } else {
        None
    }
}

/// The text that an output holds: the output itself read as UTF-8, where it
/// is valid UTF-8.
pub open spec fn decoded_text(output: Seq<u8>) -> Option<Seq<char>> {
    if valid_utf8(output) {
        Some(decode_utf8(output))
    } else {
        None
    }
}

impl Accessor {
    /// The signature of the accessor as a contract declares it.
    pub open spec fn signature(self) -> Seq<char> {
        match self {
            Accessor::TotalSupply => "totalSupply()"@,
            Accessor::Name => "name()"@,
            Accessor::Symbol => "symbol()"@,
            Accessor::Decimals => "decimals()"@,
        }
    }

    /// The selector of the accessor: the first four bytes of the Keccak-256
    /// digest of its signature.
    pub open spec fn selector_bytes(self) -> Seq<u8> {
        keccak256_digest(encode_utf8(self.signature())).take(4)
    }

    /// What the accessor's output decodes to, if it decodes.
    pub open spec fn decoded(self, output: Seq<u8>) -> Option<DecodedView> {
        match self {
            Accessor::TotalSupply => match decoded_amount(output) {
                Some(amount) => Some(DecodedView::Amount(amount)),
                None => None,
            },
            Accessor::Name | Accessor::Symbol => match decoded_text(output) {
                Some(text) => Some(DecodedView::Text(text)),
                None => None,
            },
            Accessor::Decimals => match decoded_count(output) {
                Some(count) => Some(DecodedView::Count(count)),
                None => None,
            },
        }
    }

    /// The signature as a string.
    pub fn signature_str(self) -> (signature: &'static str)
        ensures
            signature@ == self.signature(),
    {
        match self {
            Accessor::TotalSupply => "totalSupply()",
            Accessor::Name => "name()",
            Accessor::Symbol => "symbol()",
            Accessor::Decimals => "decimals()",
        }
    }

    /// The four accessors in the order in which a contract is asked.
    pub fn all() -> (accessors: [Accessor; 4])
        ensures
            accessors@ == seq![
                Accessor::TotalSupply,
                Accessor::Name,
                Accessor::Symbol,
                Accessor::Decimals,
            ],
    {
        [Accessor::TotalSupply, Accessor::Name, Accessor::Symbol, Accessor::Decimals]
    }

    /// The selector of the accessor.
    pub fn selector(self) -> (selector: [u8; 4])
        ensures
            selector@ == self.selector_bytes(),
    {
        let digest = keccak256(self.signature_str().as_bytes());
        selector_of_digest(&digest)
    }

    /// The payload of the accessor's call: its selector and no arguments.
    pub fn call_data(self) -> (data: Vec<u8>)
        ensures
            data@ == self.selector_bytes(),
    {
        let selector = self.selector();
        let mut data: Vec<u8> = Vec::new();
        let mut i: usize = 0;
        while i < 4
            invariant
                i <= 4,
                data@ == selector@.take(i as int),
            decreases 4 - i,
        {
            data.push(selector[i]);
            i += 1;
        }
        data
    }

    /// Decodes the output of a call of this accessor into the shape that the
    /// accessor returns; an output that does not decode gives nothing.
    pub fn decode(self, output: &[u8]) -> (decoded: Option<Decoded>)
        ensures
            match self.decoded(output@) {
                Some(view) => decoded is Some && decoded->0@ == view,
                None => decoded is None,
            },
    {
        match self {
            Accessor::TotalSupply => match decode_amount(output) {
                Some(amount) => Some(Decoded::Amount(amount)),
                None => None,
            },
            Accessor::Name | Accessor::Symbol => match decode_text(output) {
                Some(text) => Some(Decoded::Text(text)),
                None => None,
            },
            Accessor::Decimals => match decode_count(output) {
                Some(count) => Some(Decoded::Count(count)),
                None => None,
            },
        }
    }
}

/// The selector that a signature's digest gives: its first four bytes.
pub fn selector_of_digest(digest: &[u8; 32]) -> (selector: [u8; 4])
    ensures
        selector@ == digest@.take(4),
{
    let selector = [digest[0], digest[1], digest[2], digest[3]];
    selector
}

/// Reads the first 32 bytes of an output as a big-endian 256-bit integer.
pub fn decode_amount(output: &[u8]) -> (amount: Option<U256>)
    ensures
        match decoded_amount(output@) {
            Some(value) => amount is Some && amount->0@ == value && amount->0.be_bytes@
                == output@.take(32),
            None => amount is None,
        },
{
    if output.len() >= 32 {
        let mut be_bytes = [0u8; 32];
        let mut i: usize = 0;
        while i < 32
            invariant
                i <= 32,
                output@.len() >= 32,
                forall|j: int| 0 <= j < i ==> be_bytes@[j] == output@[j],
            decreases 32 - i,
        {
            be_bytes[i] = output[i];
            i += 1;
        }
        assert(be_bytes@ =~= output@.take(32));
        Some(U256 { be_bytes })
    } else {
        None
    }
}

/// Reads the last byte of an output of at least 32 bytes.
pub fn decode_count(output: &[u8]) -> (count: Option<u8>)
    ensures
        count == decoded_count(output@),
{
    if output.len() >= 32 {
        Some(output[output.len() - 1])
    } else {
        None
    }
}

/// Reads an output as UTF-8 text.
pub fn decode_text(output: &[u8]) -> (text: Option<String>)
    ensures
        match decoded_text(output@) {
            Some(chars) => text is Some && text->0@ == chars,
            None => text is None,
        },
{
    string_from_utf8(slice_to_vec(output))
}

/// What is known of a contract that answered enough accessors. A field is
/// absent where its call failed or its output did not decode.
#[derive(Debug)]
pub struct Erc20Details {
    pub name: Option<String>,
    pub symbol: Option<String>,
    pub decimals: Option<u8>,
    pub total_supply: Option<U256>,
}

/// The details with their contents as mathematical values.
pub struct Erc20DetailsView {
    pub name: Option<Seq<char>>,
    pub symbol: Option<Seq<char>>,
    pub decimals: Option<u8>,
    pub total_supply: Option<nat>,
}

impl View for Erc20Details {
    type V = Erc20DetailsView;

    open spec fn view(&self) -> Erc20DetailsView {
        Erc20DetailsView {
            name: match self.name {
                Some(name) => Some(name@),
                None => None,
            },
            symbol: match self.symbol {
                Some(symbol) => Some(symbol@),
                None => None,
            },
            decimals: self.decimals,
            total_supply: match self.total_supply {
                Some(amount) => Some(amount@),
                None => None,
            },
        }
    }
}

/// The outcome of the four accessor calls on one contract. A call that
/// returned holds its output, whether or not the output decodes; a call that
/// failed holds nothing.
#[derive(Debug)]
pub struct ProbeResponses {
    pub total_supply: Option<Vec<u8>>,
    pub name: Option<Vec<u8>>,
    pub symbol: Option<Vec<u8>>,
    pub decimals: Option<Vec<u8>>,
}

/// The text that a call's outcome gives: absent where the call failed or its
/// output is no text.
pub open spec fn answered_text(response: Option<Vec<u8>>) -> Option<Seq<char>> {
    match response {
        Some(output) => decoded_text(output@),
        None => None,
    }
}

/// The count that a call's outcome gives.
pub open spec fn answered_count(response: Option<Vec<u8>>) -> Option<u8> {
    match response {
        Some(output) => decoded_count(output@),
        None => None,
    }
}

/// The amount that a call's outcome gives.
pub open spec fn answered_amount(response: Option<Vec<u8>>) -> Option<nat> {
    match response {
        Some(output) => decoded_amount(output@),
        None => None,
    }
}

impl ProbeResponses {
    /// The outcome of the call of one accessor.
    pub open spec fn response(self, accessor: Accessor) -> Option<Vec<u8>> {
        match accessor {
            Accessor::TotalSupply => self.total_supply,
            Accessor::Name => self.name,
            Accessor::Symbol => self.symbol,
            Accessor::Decimals => self.decimals,
        }
    }

    /// The responses with the outcome of one accessor's call put in the
    /// place of what was there.
    pub open spec fn with_outcome(self, accessor: Accessor, outcome: Option<Vec<u8>>) -> Self {
        match accessor {
            Accessor::TotalSupply => ProbeResponses { total_supply: outcome, ..self },
            Accessor::Name => ProbeResponses { name: outcome, ..self },
            Accessor::Symbol => ProbeResponses { symbol: outcome, ..self },
            Accessor::Decimals => ProbeResponses { decimals: outcome, ..self },
        }
    }

    /// Whether the call of one accessor returned: 1 if it did, 0 if not.
    pub open spec fn returned(self, accessor: Accessor) -> nat {
        if self.response(accessor) is Some {
            1
        } else {
            0
        }
    }

    /// How many of the four calls returned.
    pub open spec fn valid_calls(self) -> nat {
        self.returned(Accessor::TotalSupply) + self.returned(Accessor::Name) + self.returned(
            Accessor::Symbol,
        ) + self.returned(Accessor::Decimals)
    }

    /// Whether enough calls returned for the contract to count as a token:
    /// at least three of the four.
    pub open spec fn token_like(self) -> bool {
        self.valid_calls() >= 3
    }

    /// What the outputs decode to, field by field.
    pub open spec fn details(self) -> Erc20DetailsView {
        Erc20DetailsView {
            name: answered_text(self.name),
            symbol: answered_text(self.symbol),
            decimals: answered_count(self.decimals),
            total_supply: answered_amount(self.total_supply),
        }
    }

    /// The responses before any call was made.
    pub fn new() -> (responses: ProbeResponses)
        ensures
            forall|accessor: Accessor| responses.response(accessor) is None,
            responses.valid_calls() == 0,
    {
        ProbeResponses { total_supply: None, name: None, symbol: None, decimals: None }
    }

    /// Records the outcome of an accessor's call: its output where the call
    /// returned, nothing where it failed. The outcomes of the other accessors
    /// stay as they are.
    pub fn record(&mut self, accessor: Accessor, outcome: Option<Vec<u8>>)
        ensures
            *final(self) == old(self).with_outcome(accessor, outcome),
            final(self).response(accessor) == outcome,
            forall|other: Accessor|
                other != accessor ==> final(self).response(other) == old(self).response(other),
    {
        match accessor {
            Accessor::TotalSupply => {
                self.total_supply = outcome;
            },
            Accessor::Name => {
                self.name = outcome;
            },
            Accessor::Symbol => {
                self.symbol = outcome;
            },
            Accessor::Decimals => {
                self.decimals = outcome;
            },
        }
    }
}

/// Decides whether a contract looks like a token. Where at least three of the
/// four calls returned, the contract is token-like and its details come back,
/// each field holding what the accessor's output decoded to, or nothing where
/// the call failed or the output did not decode. Where fewer returned, the
/// contract is not token-like and nothing comes back.
pub fn get_erc20_details(responses: &ProbeResponses) -> (details: Option<Erc20Details>)
    ensures
        details is Some <==> responses.token_like(),
        details matches Some(found) ==> found@ == responses.details(),
{
    let mut valid_calls: u8 = 0;
    let mut found = Erc20Details { name: None, symbol: None, decimals: None, total_supply: None };
    if let Some(output) = &responses.total_supply {
        valid_calls += 1;
        if let Some(Decoded::Amount(amount)) = Accessor::TotalSupply.decode(output.as_slice()) {
            found.total_supply = Some(amount);
        }
    }
    if let Some(output) = &responses.name {
        valid_calls += 1;
        if let Some(Decoded::Text(text)) = Accessor::Name.decode(output.as_slice()) {
            found.name = Some(text);
        }
    }
    if let Some(output) = &responses.symbol {
        valid_calls += 1;
        if let Some(Decoded::Text(text)) = Accessor::Symbol.decode(output.as_slice()) {
            found.symbol = Some(text);
        }
    }
    if let Some(output) = &responses.decimals {
        valid_calls += 1;
        if let Some(Decoded::Count(count)) = Accessor::Decimals.decode(output.as_slice()) {
            found.decimals = Some(count);
        }
    }
    if valid_calls >= 3 {
        Some(found)
    } else {
        None
    }
}

/// The order in which the calls are made and recorded does not matter: the
/// outcomes of two different accessors give the same responses, and so the
/// same decision, whichever is recorded first.
pub proof fn lemma_record_order_is_immaterial(
    responses: ProbeResponses,
    first: Accessor,
    first_outcome: Option<Vec<u8>>,
    second: Accessor,
    second_outcome: Option<Vec<u8>>,
)
    requires
        first != second,
    ensures
        responses.with_outcome(first, first_outcome).with_outcome(second, second_outcome)
            == responses.with_outcome(second, second_outcome).with_outcome(first, first_outcome),
{
}

/// A contract that is token-like stays token-like when more of its calls
/// return: the decision never turns on which calls returned, only on how many.
pub proof fn lemma_token_like_is_monotonic(fewer: ProbeResponses, more: ProbeResponses)
    requires
        forall|accessor: Accessor|
            fewer.response(accessor) is Some ==> more.response(accessor) is Some,
    ensures
        fewer.valid_calls() <= more.valid_calls() <= 4,
        fewer.token_like() ==> more.token_like(),
{
}

} // verus!
