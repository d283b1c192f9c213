//! The configuration of a run, checked before anything is asked of a node.

use vstd::prelude::*;
use crate::outside::{is_url, lowercase, parse_hash, parses_as_url};
use crate::primitives::{parsed_hash, B256};
use crate::search::{invalid_search_type, SearchType};

verus! {

/// Why a configuration was refused.
#[derive(Debug)]
pub enum ConfigError {
    /// The transaction identifier is no 32-byte hash.
    InvalidHash,
    /// The search-kind selector names no kind; the message says which are
    /// known.
    InvalidSearchType(String),
    /// The address of the node is no URL.
    InvalidUrl,
}

/// What a run needs to know: the node to ask, the transaction to trace, and
/// the kind of deployment to search for, if any.
#[derive(Debug)]
pub struct Config {
    pub rpc_url: String,
    pub hash: B256,
    pub search: Option<SearchType>,
}

/// The search kind that an optional selector asks for, or the message that
/// refuses it: no kind where there is no selector, the kind that the selector
/// names where there is one.
pub open spec fn requested_search(search: Option<&str>) -> Result<Option<SearchType>, Seq<char>> {
    match search {
        Some(selector) => match SearchType::of_lowercase(lowercase(selector@)) {
            Some(kind) => Ok(Some(kind)),
            None => Err(invalid_search_type()),
        },
        None => Ok(None),
    }
}

/// The configuration that checked arguments make, or the error of the first
/// check that failed: the hash, then the search kind, then the address of the
/// node.
pub open spec fn checked(
    rpc_url: Seq<char>,
    addressable: bool,
    hash: Option<Seq<u8>>,
    search: Result<Option<SearchType>, Seq<char>>,
    config: Result<Config, ConfigError>,
) -> bool {
    match (hash, search) {
        (None, _) => config matches Err(ConfigError::InvalidHash),
        (Some(_), Err(refusal)) => config matches Err(ConfigError::InvalidSearchType(message))
            && message@ == refusal,
        (Some(bytes), Ok(kind)) => if addressable {
            config matches Ok(config) && config.rpc_url@ == rpc_url && config.hash@ == bytes
                && config.search == kind
        } else {
            config matches Err(ConfigError::InvalidUrl)
        },
    }
}

impl Config {
    /// Puts a configuration together from arguments that were read already:
    /// the hash, if the text was one, the search kind or the message that
    /// refused the selector, and whether the address of the node is a URL.
    pub fn from_parts(
        rpc_url: String,
        addressable: bool,
        hash: Option<B256>,
        search: Result<Option<SearchType>, String>,
    ) -> (config: Result<Config, ConfigError>)
        ensures
            checked(
                rpc_url@,
                addressable,
                match hash {
                    Some(hash) => Some(hash@),
                    None => None,
                },
                match search {
                    Ok(kind) => Ok(kind),
                    Err(message) => Err(message@),
                },
                config,
            ),
    {
        let hash = match hash {
            Some(hash) => hash,
            None => {
                return Err(ConfigError::InvalidHash);
            },
        };
        let search = match search {
            Ok(search) => search,
            Err(message) => {
                return Err(ConfigError::InvalidSearchType(message));
            },
        };
        if !addressable {
            return Err(ConfigError::InvalidUrl);
        }
        Ok(Config { rpc_url, hash, search })
    }

    /// Checks the arguments of a run. The hash must be 64 hexadecimal digits,
    /// with or without `0x` in front; the selector, where one is given, must
    /// name a search kind, in any case; the address of the node must be a
    /// URL. The first of these that fails, in this order, is the error.
    pub fn new(rpc_url: String, hash: &str, search: Option<&str>) -> (config: Result<
        Config,
        ConfigError,
    >)
        ensures
            checked(
                rpc_url@,
                is_url(rpc_url@),
                parsed_hash(hash@),
                requested_search(search),
                config,
            ),
    {
        let addressable = parses_as_url(rpc_url.as_str());
        let hash = parse_hash(hash);
        let search = match search {
            Some(selector) => match SearchType::from_str(selector) {
                Ok(kind) => Ok(Some(kind)),
                Err(message) => Err(message),
            },
            None => Ok(None),
        };
        Config::from_parts(rpc_url, addressable, hash, search)
    }
}

} // verus!
