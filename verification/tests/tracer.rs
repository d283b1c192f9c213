use deployment_tracer::erc20::Erc20Details;
use deployment_tracer::frame::CallFrame;
use deployment_tracer::primitives::{Address, U256};
use deployment_tracer::search::{describe_deployment, SearchType};
use deployment_tracer::tracer::{finding_recipient, headline, probe_report, trace_transaction};

fn account(byte: u8) -> Address {
    Address { bytes: [byte; 20] }
}

fn call(typ: &str, from: u8, to: Option<u8>, calls: Vec<CallFrame>) -> CallFrame {
    CallFrame { from: account(from), to: to.map(account), value: None, typ: typ.to_string(), calls }
}

#[test]
fn the_recipient_of_a_finding_is_read_back() {
    let mut bytes = [0u8; 20];
    for (i, byte) in bytes.iter_mut().enumerate() {
        *byte = 0xf0u8.wrapping_add(i as u8 * 7);
    }
    let frame = CallFrame {
        from: account(0x54),
        to: Some(Address { bytes }),
        value: Some(U256 { be_bytes: [9; 32] }),
        typ: "CREATE2".to_string(),
        calls: vec![],
    };
    let finding = describe_deployment(&frame, SearchType::Create2);
    assert_eq!(finding_recipient(&finding), Some(Address { bytes }));
}

#[test]
fn a_finding_without_recipient_gives_none() {
    let finding = describe_deployment(&call("CREATE3", 1, None, vec![]), SearchType::Create3);
    assert_eq!(finding_recipient(&finding), None);
}

#[test]
fn the_recipient_is_read_from_the_first_to_line() {
    let bb = "bb".repeat(20);
    let cc = "cc".repeat(20);
    let text = format!("To: Some(\n    0x{bb},\n)\nTo: Some(\n    0x{cc},\n)");
    assert_eq!(finding_recipient(&text), Some(account(0xbb)));
    let upper = format!("x\nTo: Some(\n    0X{},\n)", "BB".repeat(20));
    assert_eq!(finding_recipient(&upper), Some(account(0xbb)));
    let bare = format!("To: Some(\n    {bb},");
    assert_eq!(finding_recipient(&bare), Some(account(0xbb)));
}

#[test]
fn other_texts_show_no_recipient() {
    let bb = "bb".repeat(20);
    assert_eq!(finding_recipient(""), None);
    assert_eq!(finding_recipient("To: "), None);
    assert_eq!(finding_recipient("To: Some("), None);
    assert_eq!(finding_recipient("To: Some(\n"), None);
    assert_eq!(finding_recipient("To: None\nValue: 0"), None);
    assert_eq!(finding_recipient(&format!("To: 0x{bb}")), None);
    assert_eq!(finding_recipient(&format!(" To: Some(\n    0x{bb},\n)")), None);
    assert_eq!(finding_recipient(&format!("To: Some(\n   0x{bb},\n)")), None);
    assert_eq!(finding_recipient(&format!("To: Some(\n    0x{bb}\n)")), None);
    assert_eq!(finding_recipient(&format!("To: Some(\n    0x{bb}b,\n)")), None);
    assert_eq!(finding_recipient(&format!("To: Some(\n    0x{}g,\n)", &bb[1..])), None);
    assert_eq!(finding_recipient(&format!("To: Some( \n    0x{bb},\n)")), None);
    assert_eq!(finding_recipient(&format!("To: None\nTo: Some(\n    0x{bb},\n)")), None);
    assert_eq!(finding_recipient(&format!("To: Some(\n    0x{}\u{e9},", &bb[2..])), None);
}

#[test]
fn without_a_kind_nothing_is_reported() {
    let root = call("CREATE2", 1, Some(2), vec![]);
    assert!(trace_transaction(Some(&root), None).is_none());
    assert!(trace_transaction(None, None).is_none());
}

#[test]
fn without_a_call_tree_nothing_is_reported() {
    assert!(trace_transaction(None, Some(SearchType::Create2)).is_none());
}

#[test]
fn a_search_without_findings_says_so() {
    let root = call("CALL", 1, Some(2), vec![call("CREATE2", 3, Some(4), vec![])]);
    let report = trace_transaction(Some(&root), Some(SearchType::Create3)).unwrap();
    assert_eq!(report.headline, "No Create3 deployments found in this transaction");
    assert!(report.findings.is_empty());
}

#[test]
fn a_search_reports_each_finding_with_its_recipient() {
    let root = call(
        "CALL",
        1,
        Some(2),
        vec![
            call("CREATE2", 0xaa, Some(0xbb), vec![call("CREATE2", 0xcc, None, vec![])]),
            call("CREATE2", 0xdd, Some(0xee), vec![]),
        ],
    );
    let report = trace_transaction(Some(&root), Some(SearchType::Create2)).unwrap();
    assert_eq!(report.headline, "\nFound Create2 deployments:");
    assert_eq!(report.findings.len(), 3);
    assert_eq!(report.findings[0].recipient, Some(account(0xbb)));
    assert_eq!(report.findings[1].recipient, None);
    assert_eq!(report.findings[2].recipient, Some(account(0xee)));
    assert_eq!(
        report.findings[0].text,
        "Found Create2 deployment:\n\
         From: 0xaaaaaaaaaaaaaaaaaaaaaaaaaaaaaaaaaaaaaaaa\n\
         To: Some(\n    0xbbbbbbbbbbbbbbbbbbbbbbbbbbbbbbbbbbbbbbbb,\n)\n\
         Value: 0"
    );
    assert!(report.findings[1].text.contains("From: 0xcccccccccccccccccccccccccccccccccccccccc\nTo: None\n"));
    assert!(report.findings[2].text.contains("From: 0xdddddddddddddddddddddddddddddddddddddddd\n"));
}

#[test]
fn headlines_name_the_kind() {
    assert_eq!(headline(SearchType::Create2, 0), "No Create2 deployments found in this transaction");
    assert_eq!(headline(SearchType::Create3, 0), "No Create3 deployments found in this transaction");
    assert_eq!(headline(SearchType::Create2, 1), "\nFound Create2 deployments:");
    assert_eq!(headline(SearchType::Create3, 12), "\nFound Create3 deployments:");
}

#[test]
fn a_token_is_reported_with_the_fields_it_has() {
    let mut be_bytes = [0u8; 32];
    be_bytes[31] = 0xe8;
    be_bytes[30] = 0x03;
    let details = Erc20Details {
        name: Some("My Token".to_string()),
        symbol: None,
        decimals: Some(18),
        total_supply: Some(U256 { be_bytes }),
    };
    let outcome: Result<Option<Erc20Details>, String> = Ok(Some(details));
    assert_eq!(
        probe_report(&outcome),
        vec!["Contract is an ERC20 token", "Name: My Token", "Decimals: 18", "Total Supply: 1000"]
    );
}

#[test]
fn a_token_without_fields_is_still_a_token() {
    let details = Erc20Details { name: None, symbol: None, decimals: None, total_supply: None };
    let outcome: Result<Option<Erc20Details>, ()> = Ok(Some(details));
    assert_eq!(probe_report(&outcome), vec!["Contract is an ERC20 token"]);
}

#[test]
fn every_field_has_its_line() {
    let details = Erc20Details {
        name: Some("N".to_string()),
        symbol: Some("S".to_string()),
        decimals: Some(0),
        total_supply: Some(U256 { be_bytes: [0xff; 32] }),
    };
    let outcome: Result<Option<Erc20Details>, ()> = Ok(Some(details));
    assert_eq!(
        probe_report(&outcome),
        vec![
            "Contract is an ERC20 token",
            "Name: N",
            "Symbol: S",
            "Decimals: 0",
            "Total Supply: 115792089237316195423570985008687907853269984665640564039457584007913129639935",
        ]
    );
}

#[test]
fn small_numbers_are_written_in_decimal() {
    for decimals in [0u8, 1, 9, 10, 11, 18, 99, 100, 101, 109, 110, 200, 255] {
        let details =
            Erc20Details { name: None, symbol: None, decimals: Some(decimals), total_supply: None };
        let outcome: Result<Option<Erc20Details>, ()> = Ok(Some(details));
        assert_eq!(probe_report(&outcome)[1], format!("Decimals: {}", decimals));
    }
}

#[test]
fn a_contract_that_is_no_token_is_reported_so() {
    let outcome: Result<Option<Erc20Details>, ()> = Ok(None);
    assert_eq!(probe_report(&outcome), vec!["Contract is not an ERC20 token"]);
}

#[test]
fn a_failed_probe_is_reported_as_undetermined() {
    let outcome: Result<Option<Erc20Details>, String> = Err("no route to host".to_string());
    assert_eq!(probe_report(&outcome), vec!["Could not determine if contract is an ERC20 token"]);
}
