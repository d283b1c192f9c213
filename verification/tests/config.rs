use deployment_tracer::config::{Config, ConfigError};
use deployment_tracer::primitives::B256;
use deployment_tracer::search::SearchType;

const URL: &str = "http://localhost:8545";
const HASH: &str = "0x5c504ed432cb51138bcf09aa5e8a410dd4a1e204ef84bfed1be16dfba1b22060";

fn hash_bytes() -> [u8; 32] {
    [
        0x5c, 0x50, 0x4e, 0xd4, 0x32, 0xcb, 0x51, 0x13, 0x8b, 0xcf, 0x09, 0xaa, 0x5e, 0x8a, 0x41,
        0x0d, 0xd4, 0xa1, 0xe2, 0x04, 0xef, 0x84, 0xbf, 0xed, 0x1b, 0xe1, 0x6d, 0xfb, 0xa1, 0xb2,
        0x20, 0x60,
    ]
}

#[test]
fn a_valid_configuration_is_taken_as_it_is() {
    let config = Config::new("http://localhost:8545".to_string(), HASH, Some("create2")).unwrap();
    assert_eq!(config.rpc_url, "http://localhost:8545");
    assert_eq!(config.hash, B256 { bytes: hash_bytes() });
    assert_eq!(config.search, Some(SearchType::Create2));
}

#[test]
fn the_search_kind_may_be_left_out() {
    let config = Config::new("http://localhost:8545".to_string(), HASH, None).unwrap();
    assert_eq!(config.search, None);
}

#[test]
fn the_hash_may_come_without_prefix_and_in_upper_case() {
    let bare = Config::new(URL.to_string(), &HASH[2..], Some("CREATE3")).unwrap();
    assert_eq!(bare.hash.bytes, hash_bytes());
    assert_eq!(bare.search, Some(SearchType::Create3));
    let upper = Config::new(URL.to_string(), &format!("0X{}", HASH[2..].to_uppercase()), None).unwrap();
    assert_eq!(upper.hash.bytes, hash_bytes());
}

#[test]
fn create4_is_a_configuration_error() {
    match Config::new("http://localhost:8545".to_string(), HASH, Some("CREATE4")) {
        Err(ConfigError::InvalidSearchType(message)) => {
            assert_eq!(message, "Invalid search type. Must be 'create2' or 'create3'")
        }
        other => panic!("unexpected: {:?}", other),
    }
}

#[test]
fn a_malformed_hash_is_a_configuration_error() {
    let odd = &HASH[..65];
    let long = format!("{HASH}00");
    let half_prefix = &HASH[1..];
    let no_digit = format!("0x{}zz", &HASH[4..]);
    let twice = format!("0x{HASH}");
    let wide = format!("{}\u{e9}", &HASH[..64]);
    let spaced = format!(" {HASH}");
    for hash in ["", "0x", "0x1234", odd, &long, half_prefix, &no_digit, &twice, &wide, &spaced] {
        assert!(matches!(
            Config::new(String::new(), hash, Some("create2")),
            Err(ConfigError::InvalidHash)
        ));
    }
}

#[test]
fn the_hash_is_checked_before_the_search_kind() {
    assert!(matches!(
        Config::new(String::new(), "nonsense", Some("CREATE4")),
        Err(ConfigError::InvalidHash)
    ));
}

#[test]
fn a_malformed_url_is_a_configuration_error() {
    for url in ["", "http//node", "http://", "://node", "node", "http://[::1"] {
        assert!(matches!(Config::new(url.to_string(), HASH, None), Err(ConfigError::InvalidUrl)));
    }
    for url in [URL, "https://node.example/path?key=1", "http://127.0.0.1:8545", "ws://node"] {
        assert!(Config::new(url.to_string(), HASH, Some("create3")).is_ok());
    }
}

#[test]
fn the_url_is_checked_last() {
    assert!(matches!(Config::new(String::new(), "0x12", None), Err(ConfigError::InvalidHash)));
    assert!(matches!(
        Config::new(String::new(), HASH, Some("create5")),
        Err(ConfigError::InvalidSearchType(_))
    ));
}

#[test]
fn parts_that_were_read_make_a_configuration() {
    let hash = B256 { bytes: hash_bytes() };
    let config =
        Config::from_parts(URL.to_string(), true, Some(hash), Ok(Some(SearchType::Create3))).unwrap();
    assert_eq!(config.rpc_url, URL);
    assert_eq!(config.hash, hash);
    assert_eq!(config.search, Some(SearchType::Create3));
}

#[test]
fn the_first_refused_part_is_the_error() {
    let hash = B256 { bytes: hash_bytes() };
    let refusal = || Err("no such kind".to_string());
    assert!(matches!(
        Config::from_parts(String::new(), false, None, refusal()),
        Err(ConfigError::InvalidHash)
    ));
    match Config::from_parts(String::new(), false, Some(hash), refusal()) {
        Err(ConfigError::InvalidSearchType(message)) => assert_eq!(message, "no such kind"),
        other => panic!("unexpected: {:?}", other),
    }
    assert!(matches!(
        Config::from_parts(String::new(), false, Some(hash), Ok(None)),
        Err(ConfigError::InvalidUrl)
    ));
}
