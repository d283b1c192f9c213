//! Searching a call-frame tree for deployments of one kind.

use vstd::prelude::*;
use crate::frame::{preorder_all, CallFrame};
use crate::outside::{address_lower_hex, lowercase, to_lowercase, u256_decimal};
use crate::primitives::{address_text, decimal_text, Address, U256};
use crate::text::{same_text, texts};

verus! {

/// A deployment opcode kind of interest.
#[derive(Debug, Clone, Copy, PartialEq, Eq, Structural)]
pub enum SearchType {
    Create2,
    Create3,
}

/// What `SearchType::from_str` answers to a string that names no kind.
pub open spec fn invalid_search_type() -> Seq<char> {
    "Invalid search type. Must be 'create2' or 'create3'"@
}

impl SearchType {
    /// The type tag that a call frame of this kind carries.
    pub open spec fn tag(self) -> Seq<char> {
        match self {
            SearchType::Create2 => "CREATE2"@,
            SearchType::Create3 => "CREATE3"@,
        }
    }

    /// The name under which findings of this kind are reported.
    pub open spec fn name(self) -> Seq<char> {
        match self {
            SearchType::Create2 => "Create2"@,
            SearchType::Create3 => "Create3"@,
        }
    }

    /// The kind that a selector names once it is in lower case.
    pub open spec fn of_lowercase(lowered: Seq<char>) -> Option<SearchType> {
        if lowered == "create2"@ {
            Some(SearchType::Create2)
        } else if lowered == "create3"@ {
            Some(SearchType::Create3)
        } else {
            None
        }
    }

    /// The type tag as a string.
    pub fn tag_str(self) -> (tag: &'static str)
        ensures
            tag@ == self.tag(),
    {
        match self {
            SearchType::Create2 => "CREATE2",
            SearchType::Create3 => "CREATE3",
        }
    }

    /// The reporting name as a string.
    pub fn name_str(self) -> (name: &'static str)
        ensures
            name@ == self.name(),
    {
        match self {
            SearchType::Create2 => "Create2",
            SearchType::Create3 => "Create3",
        }
    }

    /// Reads a selector that is already in lower case: `create2` and
    /// `create3` name the two kinds, every other string is refused.
    pub fn from_lowercase(lowered: &str) -> (parsed: Result<SearchType, String>)
        ensures
            match SearchType::of_lowercase(lowered@) {
                Some(kind) => parsed == Ok::<SearchType, String>(kind),
                None => parsed is Err && parsed->Err_0@ == invalid_search_type(),
            },
    {
        if same_text(lowered, "create2") {
            Ok(SearchType::Create2)
        } else if same_text(lowered, "create3") {
            Ok(SearchType::Create3)
        } else {
            Err("Invalid search type. Must be 'create2' or 'create3'".to_owned())
        }
    }

    /// Reads a selector without regard to case: a string whose lower-case
    /// form is `create2` or `create3` names that kind, every other string is
    /// refused.
    pub fn from_str(s: &str) -> (parsed: Result<SearchType, String>)
        ensures
            match SearchType::of_lowercase(lowercase(s@)) {
                Some(kind) => parsed == Ok::<SearchType, String>(kind),
                None => parsed is Err && parsed->Err_0@ == invalid_search_type(),
            },
    {
        let lowered = to_lowercase(s);
        SearchType::from_lowercase(lowered.as_str())
    }
}

impl std::str::FromStr for SearchType {
    type Err = String;

    /// Reads a selector without regard to case, as the function of the same
    /// name on the type itself does.
    fn from_str(s: &str) -> (parsed: Result<SearchType, String>)
        ensures
            match SearchType::of_lowercase(lowercase(s@)) {
                Some(kind) => parsed == Ok::<SearchType, String>(kind),
                None => parsed is Err && parsed->Err_0@ == invalid_search_type(),
            },
    {
        SearchType::from_str(s)
    }
}

/// Whether a frame was produced by the opcode of the given kind: its type tag
/// is exactly the kind's tag.
pub open spec fn is_deployment(frame: CallFrame, kind: SearchType) -> bool {
    frame.typ@ == kind.tag()
}

/// How `to` is written in a finding.
pub open spec fn recipient_text(to: Option<Address>) -> Seq<char> {
    match to {
        Some(address) => "Some(\n    "@ + address_text(address@) + ",\n)"@,
        None => "None"@,
    }
}

/// The finding that reports a frame as a deployment of the given kind.
pub open spec fn finding_text(kind: SearchType, frame: CallFrame) -> Seq<char> {
    "Found "@ + kind.name() + " deployment:\nFrom: "@ + address_text(frame.from@)
        + "\nTo: "@ + recipient_text(frame.to) + "\nValue: "@ + decimal_text(
        frame.value_or_zero(),
    )
}

/// The frames among `frames` that are deployments of the given kind, in the
/// order in which they stand.
pub open spec fn deployments_among(frames: Seq<CallFrame>, kind: SearchType) -> Seq<CallFrame> {
    frames.filter(|frame: CallFrame| is_deployment(frame, kind))
}

/// One finding for each deployment of the requested kind among `frames`, in
/// the order in which they stand; none where no kind was requested.
pub open spec fn findings_among(frames: Seq<CallFrame>, search_type: Option<SearchType>) -> Seq<
    Seq<char>,
> {
    match search_type {
        Some(kind) => deployments_among(frames, kind).map_values(
            |frame: CallFrame| finding_text(kind, frame),
        ),
        None => Seq::empty(),
    }
}

/// The findings of a search: one for each frame of the tree, at any depth,
/// that is a deployment of the requested kind, in pre-order.
pub open spec fn findings_of(root: CallFrame, search_type: Option<SearchType>) -> Seq<Seq<char>> {
    findings_among(root.preorder(), search_type)
}

/// Whether the frame's type tag is that of the given kind.
pub fn search_deployment_type(frame: &CallFrame, search_type: SearchType) -> (found: bool)
    ensures
        found == is_deployment(*frame, search_type),
{
    same_text(frame.typ.as_str(), search_type.tag_str())
}

/// Writes the finding for one matching frame.
pub fn describe_deployment(frame: &CallFrame, kind: SearchType) -> (text: String)
    ensures
        text@ == finding_text(kind, *frame),
{
    let mut text = "Found ".to_owned();
    text.append(kind.name_str());
    text.append(" deployment:\nFrom: ");
    let from = address_lower_hex(&frame.from);
    text.append(from.as_str());
    text.append("\nTo: ");
    match frame.to {
        Some(address) => {
            let to = address_lower_hex(&address);
            text.append("Some(\n    ");
            text.append(to.as_str());
            text.append(",\n)");
        },
        None => {
            text.append("None");
        },
    }
    text.append("\nValue: ");
    let value = match frame.value {
        Some(value) => value,
        None => U256::zero(),
    };
    let amount = u256_decimal(&value);
    text.append(amount.as_str());
    text
}

/// The findings among two lists of frames, one after the other, are the
/// findings among the first followed by those among the second.
pub proof fn lemma_findings_among_add(
    first: Seq<CallFrame>,
    second: Seq<CallFrame>,
    search_type: Option<SearchType>,
)
    ensures
        findings_among(first + second, search_type) == findings_among(first, search_type)
            + findings_among(second, search_type),
{
    match search_type {
        Some(kind) => {
            let wanted = |frame: CallFrame| is_deployment(frame, kind);
            let write = |frame: CallFrame| finding_text(kind, frame);
            Seq::filter_distributes_over_add(first, second, wanted);
            assert((first.filter(wanted) + second.filter(wanted)).map_values(write)
                =~= first.filter(wanted).map_values(write) + second.filter(wanted).map_values(
                write,
            ));
        },
        None => {
            assert(Seq::<Seq<char>>::empty() + Seq::<Seq<char>>::empty() =~= Seq::<
                Seq<char>,
            >::empty());
        },
    }
}

/// Among a single frame there is one finding where the frame is a deployment
/// of the requested kind, and none otherwise.
pub proof fn lemma_findings_among_one(frame: CallFrame, search_type: Option<SearchType>)
    ensures
        findings_among(seq![frame], search_type) == match search_type {
            Some(kind) if is_deployment(frame, kind) => seq![finding_text(kind, frame)],
            _ => Seq::<Seq<char>>::empty(),
        },
{
    if let Some(kind) = search_type {
        let wanted = |frame: CallFrame| is_deployment(frame, kind);
        let none = Seq::<CallFrame>::empty();
        none.lemma_filter_push(frame, wanted);
        assert(none.filter(wanted) =~= none) by {
            reveal(Seq::filter);
        }
    }
}

/// No deployment is left out: every frame of the tree that is a deployment of
/// the requested kind has its finding among the findings of the search,
/// whether or not a frame above it matched too.
pub proof fn lemma_every_deployment_is_found(root: CallFrame, kind: SearchType, frame: CallFrame)
    requires
        root.preorder().contains(frame),
        is_deployment(frame, kind),
    ensures
        findings_of(root, Some(kind)).contains(finding_text(kind, frame)),
{
    let frames = root.preorder();
    let wanted = |frame: CallFrame| is_deployment(frame, kind);
    let write = |frame: CallFrame| finding_text(kind, frame);
    let at = choose|at: int| 0 <= at < frames.len() && frames[at] == frame;
    frames.lemma_filter_contains(wanted, at);
    let found = frames.filter(wanted);
    let seat = choose|seat: int| 0 <= seat < found.len() && found[seat] == frame;
    assert(found.map_values(write)[seat] == finding_text(kind, frame));
}

/// Nothing else is reported: every finding of a search is the finding of a
/// frame of the tree that is a deployment of the requested kind.
pub proof fn lemma_every_finding_is_a_deployment(root: CallFrame, kind: SearchType, at: int)
    requires
        0 <= at < findings_of(root, Some(kind)).len(),
    ensures
        exists|frame: CallFrame|
            root.preorder().contains(frame) && is_deployment(frame, kind) && findings_of(
                root,
                Some(kind),
            )[at] == #[trigger] finding_text(kind, frame),
{
    let frames = root.preorder();
    let wanted = |frame: CallFrame| is_deployment(frame, kind);
    let found = frames.filter(wanted);
    frames.lemma_filter_pred(wanted, at);
    frames.lemma_filter_contains_rev(wanted, found[at]);
    assert(findings_of(root, Some(kind))[at] == finding_text(kind, found[at]));
}

/// A frame without a value is reported with the value zero.
pub proof fn lemma_absent_value_reads_zero(kind: SearchType, frame: CallFrame)
    requires
        frame.value is None,
    ensures
        finding_text(kind, frame) == "Found "@ + kind.name() + " deployment:\nFrom: "@
            + address_text(frame.from@) + "\nTo: "@ + recipient_text(frame.to)
            + "\nValue: 0"@,
{
    reveal_strlit("0123456789");
    reveal_strlit("\nValue: ");
    reveal_strlit("\nValue: 0");
    assert(finding_text(kind, frame) =~= "Found "@ + kind.name() + " deployment:\nFrom: "@
        + address_text(frame.from@) + "\nTo: "@ + recipient_text(frame.to) + ("\nValue: "@
        + seq!['0']));
}

/// A frame without a recipient is reported all the same, and its finding
/// names no recipient.
pub proof fn lemma_absent_recipient_reads_none(kind: SearchType, frame: CallFrame)
    requires
        frame.to is None,
    ensures
        finding_text(kind, frame) == "Found "@ + kind.name() + " deployment:\nFrom: "@
            + address_text(frame.from@) + "\nTo: None\nValue: "@ + decimal_text(
            frame.value_or_zero(),
        ),
{
    reveal_strlit("\nTo: ");
    reveal_strlit("None");
    reveal_strlit("\nValue: ");
    reveal_strlit("\nTo: None\nValue: ");
    assert(finding_text(kind, frame) =~= "Found "@ + kind.name() + " deployment:\nFrom: "@
        + address_text(frame.from@) + ("\nTo: "@ + "None"@ + "\nValue: "@) + decimal_text(
        frame.value_or_zero(),
    ));
}

/// Searches a call-frame tree for deployments of the requested kind. Every
/// frame is visited, a parent before its children and the children in
/// execution order; a frame that matches is reported and its children are
/// still visited. Without a kind nothing is reported.
pub fn analyze_call_frame(frame: &CallFrame, search_type: Option<SearchType>) -> (findings: Vec<
    String,
>)
    ensures
        texts(findings@) == findings_of(*frame, search_type),
        search_type is None ==> findings@.len() == 0,
    decreases frame,
{
    let mut findings: Vec<String> = Vec::new();
    if let Some(kind) = search_type {
        if search_deployment_type(frame, kind) {
            findings.push(describe_deployment(frame, kind));
        }
    }
    proof {
        lemma_findings_among_one(*frame, search_type);
    }
    let mut i: usize = 0;
    while i < frame.calls.len()
        invariant
            i <= frame.calls.len(),
            texts(findings@) == findings_among(
                seq![*frame] + preorder_all(frame.calls@.take(i as int)),
                search_type,
            ),
        decreases frame.calls.len() - i,
    {
        let mut nested = analyze_call_frame(&frame.calls[i], search_type);
        proof {
            let seen = frame.calls@.take(i as int);
            let next = frame.calls@.take(i + 1);
            assert(next.drop_last() =~= seen);
            lemma_findings_among_add(
                seq![*frame] + preorder_all(seen),
                frame.calls@[i as int].preorder(),
                search_type,
            );
            assert(seq![*frame] + preorder_all(next) =~= (seq![*frame] + preorder_all(seen))
                + frame.calls@[i as int].preorder());
        }
        findings.append(&mut nested);
        i += 1;
    }
    proof {
        assert(frame.calls@.take(frame.calls@.len() as int) =~= frame.calls@);
    }
    findings
}

} // verus!
