//! What a run reports once the trace of a transaction is at hand: the
//! deployments found, the contracts to probe, and the outcome of each probe.

use vstd::prelude::*;
use crate::erc20::{Erc20Details, Erc20DetailsView};
use crate::frame::CallFrame;
use crate::outside::{parse_address, u256_decimal};
use crate::primitives::{
    address_text, decimal_text, lemma_address_text_parses, lemma_hex_digit_value, parsed_address,
    u8_decimal, Address,
};
use crate::search::{
    analyze_call_frame, deployments_among, finding_text, recipient_text, SearchType,
};
use crate::text::{
    chars_of, end_of_line, find_line, first_line_with, is_line_start, lemma_find_line_at,
    lemma_line_end_at, line_end, part_stands_at, stands_at, texts,
};

verus! {

/// The recipient that a finding shows. A recipient is shown by a line that
/// begins with `To: ` and goes on with `Some(`, followed by a line that holds
/// four spaces, the address and a comma. The first line that begins with
/// `To: ` decides; a finding that shows its recipient in no such way shows
/// none.
pub open spec fn recipient_of(finding: Seq<char>) -> Option<Seq<u8>> {
    match find_line(finding, "To: "@, 0) {
        Some(start) => {
            let opened = line_end(finding, start + 4);
            if finding.subrange(start + 4, opened) == "Some("@ && opened < finding.len() {
                let closed = line_end(finding, opened + 1);
                let shown = finding.subrange(opened + 1, closed);
                if shown.len() >= 5 && shown.take(4) == "    "@ && shown.last() == ',' {
                    parsed_address(shown.subrange(4, shown.len() - 1))
                } else {
                    None
                }
            } else {
                None
            }
        },
        None => None,
    }
}

/// Reads from a finding the address of the contract that was deployed.
pub fn finding_recipient(finding: &str) -> (recipient: Option<Address>)
    ensures
        match recipient_of(finding@) {
            Some(bytes) => recipient is Some && recipient->0@ == bytes,
            None => recipient is None,
        },
{
    let text = chars_of(finding);
    let label = chars_of("To: ");
    let some = chars_of("Some(");
    let indent = chars_of("    ");
    proof {
        reveal_strlit("To: ");
        reveal_strlit("Some(");
        reveal_strlit("    ");
    }
    let start = match first_line_with(text.as_slice(), label.as_slice()) {
        Some(start) => start,
        None => {
            return None;
        },
    };
    let after = start + 4;
    let opened = end_of_line(text.as_slice(), after);
    assert("Some("@.len() == 5);
    if opened - after != 5 || !part_stands_at(text.as_slice(), after, some.as_slice()) || opened
        >= text.len() {
        return None;
    }
    let first = opened + 1;
    let closed = end_of_line(text.as_slice(), first);
    let ghost shown = finding@.subrange(first as int, closed as int);
    if closed - first < 5 {
        return None;
    }
    proof {
        assert(shown.take(4) =~= finding@.subrange(first as int, first + 4));
        assert(shown.subrange(4, shown.len() - 1) =~= finding@.subrange(first + 4, closed - 1));
    }
    if !part_stands_at(text.as_slice(), first, indent.as_slice()) || text[closed - 1] != ',' {
        return None;
    }
    parse_address(finding.substring_char(first + 4, closed - 1))
}

/// A deployment that was found: the finding that reports it, and the
/// recipient that the finding shows, which is the contract to probe.
#[derive(Debug)]
pub struct Finding {
    pub text: String,
    pub recipient: Option<Address>,
}

/// What a search reports: a headline, then the findings in pre-order.
#[derive(Debug)]
pub struct SearchReport {
    pub headline: String,
    pub findings: Vec<Finding>,
}

/// The headline of a search that found `count` deployments of a kind.
pub open spec fn headline_text(kind: SearchType, count: nat) -> Seq<char> {
    if count == 0 {
        "No "@ + kind.name() + " deployments found in this transaction"@
    } else {
        "\nFound "@ + kind.name() + " deployments:"@
    }
}

/// The bytes of an address that may be absent.
pub open spec fn address_bytes(address: Option<Address>) -> Option<Seq<u8>> {
    match address {
        Some(address) => Some(address@),
        None => None,
    }
}

/// Writes the headline of a search.
pub fn headline(kind: SearchType, count: usize) -> (text: String)
    ensures
        text@ == headline_text(kind, count as nat),
{
    if count == 0 {
        let mut text = "No ".to_owned();
        text.append(kind.name_str());
        text.append(" deployments found in this transaction");
        text
    } else {
        let mut text = "\nFound ".to_owned();
        text.append(kind.name_str());
        text.append(" deployments:");
        text
    }
}

/// Decides what a run reports once the trace is at hand. The search is made
/// only where a kind was requested and the trace is a call-frame tree:
/// otherwise nothing is reported and no contract is probed. Where it is
/// made, the report holds one finding for each deployment of that kind, in
/// pre-order, each with the recipient of its frame.
pub fn trace_transaction(trace: Option<&CallFrame>, search: Option<SearchType>) -> (report: Option<
    SearchReport,
>)
    ensures
        report is Some <==> trace is Some && search is Some,
        report matches Some(report) ==> {
            let found = deployments_among(trace->0.preorder(), search->0);
            &&& report.headline@ == headline_text(search->0, found.len())
            &&& report.findings@.len() == found.len()
            &&& forall|i: int|
                0 <= i < found.len() ==> {
                    &&& (#[trigger] report.findings@[i]).text@ == finding_text(
                        search->0,
                        found[i],
                    )
                    &&& address_bytes(report.findings@[i].recipient) == address_bytes(found[i].to)
                }
        },
{
    let (root, kind) = match (trace, search) {
        (Some(root), Some(kind)) => (root, kind),
        _ => {
            return None;
        },
    };
    let written = analyze_call_frame(root, search);
    let ghost found = deployments_among(root.preorder(), kind);
    proof {
        let expected = found.map_values(|frame: CallFrame| finding_text(kind, frame));
        assert(texts(written@) == expected);
        assert forall|j: int| 0 <= j < written@.len() implies (#[trigger] written@[j])@
            == finding_text(kind, found[j]) by {
            assert(expected[j] == finding_text(kind, found[j]));
        }
    }
    let mut findings: Vec<Finding> = Vec::new();
    let mut i: usize = 0;
    while i < written.len()
        invariant
            i <= written.len(),
            written@.len() == found.len(),
            findings@.len() == i,
            forall|j: int|
                0 <= j < written@.len() ==> (#[trigger] written@[j])@ == finding_text(
                    kind,
                    found[j],
                ),
            forall|j: int|
                0 <= j < i ==> {
                    &&& (#[trigger] findings@[j]).text@ == finding_text(kind, found[j])
                    &&& address_bytes(findings@[j].recipient) == address_bytes(found[j].to)
                },
        decreases written.len() - i,
    {
        let text = written[i].clone();
        let recipient = finding_recipient(text.as_str());
        proof {
            lemma_finding_shows_recipient(kind, found[i as int]);
        }
        findings.push(Finding { text, recipient });
        i += 1;
    }
    Some(SearchReport { headline: headline(kind, written.len()), findings })
}

/// The lines that report a token's details: a heading, then one line for
/// each field that is present.
pub open spec fn details_lines(details: Erc20DetailsView) -> Seq<Seq<char>> {
    seq!["Contract is an ERC20 token"@] + (match details.name {
        Some(name) => seq!["Name: "@ + name],
        None => Seq::empty(),
    }) + (match details.symbol {
        Some(symbol) => seq!["Symbol: "@ + symbol],
        None => Seq::empty(),
    }) + (match details.decimals {
        Some(decimals) => seq!["Decimals: "@ + decimal_text(decimals as nat)],
        None => Seq::empty(),
    }) + (match details.total_supply {
        Some(amount) => seq!["Total Supply: "@ + decimal_text(amount)],
        None => Seq::empty(),
    })
}

/// The lines that report the outcome of a probe: the details of a token, a
/// plain no for a contract that is no token, and a third answer where the
/// probe itself failed.
pub open spec fn probe_lines<E>(outcome: Result<Option<Erc20Details>, E>) -> Seq<Seq<char>> {
    match outcome {
        Ok(Some(details)) => details_lines(details@),
        Ok(None) => seq!["Contract is not an ERC20 token"@],
        Err(_) => seq!["Could not determine if contract is an ERC20 token"@],
    }
}

/// Writes the lines that report the outcome of a probe.
pub fn probe_report<E>(outcome: &Result<Option<Erc20Details>, E>) -> (lines: Vec<String>)
    ensures
        texts(lines@) == probe_lines(*outcome),
{
    let mut lines: Vec<String> = Vec::new();
    match outcome {
        Ok(Some(details)) => {
            lines.push("Contract is an ERC20 token".to_owned());
            if let Some(name) = &details.name {
                let mut line = "Name: ".to_owned();
                line.append(name.as_str());
                lines.push(line);
            }
            if let Some(symbol) = &details.symbol {
                let mut line = "Symbol: ".to_owned();
                line.append(symbol.as_str());
                lines.push(line);
            }
            if let Some(decimals) = &details.decimals {
                let mut line = "Decimals: ".to_owned();
                line.append(u8_decimal(*decimals).as_str());
                lines.push(line);
            }
            if let Some(amount) = &details.total_supply {
                let mut line = "Total Supply: ".to_owned();
                line.append(u256_decimal(amount).as_str());
                lines.push(line);
            }
        },
        Ok(None) => {
            lines.push("Contract is not an ERC20 token".to_owned());
        },
        Err(_) => {
            lines.push("Could not determine if contract is an ERC20 token".to_owned());
        },
    }
    lines
}

/// The recipient read from a finding is the recipient of the frame that the
/// finding reports: its address where the frame has one, none where it has
/// none.
pub proof fn lemma_finding_shows_recipient(kind: SearchType, frame: CallFrame)
    ensures
        recipient_of(finding_text(kind, frame)) == match frame.to {
            Some(address) => Some(address@),
            None => None,
        },
{
    reveal_strlit("Found ");
    reveal_strlit("Create2");
    reveal_strlit("Create3");
    reveal_strlit(" deployment:\nFrom: ");
    reveal_strlit("0x");
    reveal_strlit("\nTo: ");
    reveal_strlit("To: ");
    reveal_strlit("\nValue: ");
    // The finding starts with 79 characters that do not depend on the
    // recipient: the two lines of `Found` and `From`, which end at 25 and at
    // 74, and `To: ` from 75 on. What shows the recipient starts at 79.
    let text = finding_text(kind, frame);
    let from = address_text(frame.from@);
    let head = "Found "@ + kind.name() + " deployment:\nFrom: "@ + from + "\nTo: "@;
    assert forall|j: int| 0 <= j < 79 && j != 25 && j != 74 implies head[j] != '\n' by {
        if 32 <= j < 74 {
            lemma_address_text_plain(frame.from@, j - 32);
        }
    }
    assert forall|j: int| 0 <= j < 75 implies !(is_line_start(text, j) && stands_at(
        text,
        j,
        "To: "@,
    )) by {
        if is_line_start(text, j) && stands_at(text, j, "To: "@) {
            assert(text.subrange(j, j + 4)[0] == 'T');
        }
    }
    assert(text.subrange(75, 79) =~= "To: "@);
    lemma_find_line_at(text, "To: "@, 0, 75);
    match frame.to {
        Some(address) => {
            reveal_strlit("Some(\n    ");
            reveal_strlit(",\n)");
            reveal_strlit("Some(");
            reveal_strlit("    ");
            // `Some(` fills the line up to 84; the next line holds four
            // spaces, the 42 characters of the address and a comma, up to 132.
            let to = address_text(address@);
            assert forall|j: int| 79 <= j < 84 implies text[j] != '\n' by {}
            lemma_line_end_at(text, 79, 84);
            assert(text.subrange(79, 84) =~= "Some("@);
            assert forall|j: int| 85 <= j < 132 implies text[j] != '\n' by {
                if 89 <= j < 131 {
                    lemma_address_text_plain(address@, j - 89);
                }
            }
            lemma_line_end_at(text, 85, 132);
            let shown = text.subrange(85, 132);
            assert(shown.take(4) =~= "    "@);
            assert(shown.subrange(4, shown.len() - 1) =~= to);
            lemma_address_text_parses(address@);
        },
        None => {
            // `None` fills the line up to 83, one character short of `Some(`.
            reveal_strlit("None");
            reveal_strlit("Some(");
            assert forall|j: int| 79 <= j < 83 implies text[j] != '\n' by {}
            lemma_line_end_at(text, 79, 83);
            assert(text.subrange(79, 83).len() != "Some("@.len());
        },
    }
}

/// No character of an address's text is a line feed.
pub proof fn lemma_address_text_plain(bytes: Seq<u8>, at: int)
    requires
        0 <= at < 2 + 2 * bytes.len(),
    ensures
        address_text(bytes)[at] != '\n',
{
    reveal_strlit("0x");
    if at >= 2 {
        let i = at - 2;
        lemma_hex_digit_value(bytes[i / 2] as int / 16);
        lemma_hex_digit_value(bytes[i / 2] as int % 16);
    }
}

} // verus!
