//! Searches the call-frame tree of a traced transaction for contract
//! deployments of a chosen kind, and decides from the answers to four
//! read-only accessor calls whether a deployed contract looks like a fungible
//! token.
//!
//! The library holds the rules and leaves the node to its caller: a caller
//! fetches the trace, hands the tree to [`trace_transaction`], makes the
//! accessor calls that the report asks for, and hands their outcomes to
//! [`get_erc20_details`].

pub mod config;
pub mod erc20;
pub mod frame;
pub mod outside;
pub mod primitives;
pub mod search;
pub mod text;
pub mod tracer;

pub use config::{Config, ConfigError};
pub use erc20::{get_erc20_details, Accessor, Erc20Details, ProbeResponses};
pub use frame::CallFrame;
pub use primitives::{Address, B256, U256};
pub use search::{analyze_call_frame, search_deployment_type, SearchType};
pub use tracer::{finding_recipient, probe_report, trace_transaction, Finding, SearchReport};
