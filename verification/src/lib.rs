//! A client for one Ethereum JSON-RPC operation, `eth_call`.
//!
//! The library builds the outbound HTTP request for a contract call and
//! decodes the reply into the call's return data or a typed error. It does
//! no I/O of its own: the request is handed to a transport and the
//! transport's answer is handed back.

pub mod client;
pub mod error;
pub mod hex;
pub mod http;
pub mod json;
pub mod network;
pub mod request_id;
pub mod text;

pub use client::{call_eth, finish_call, EthCallClient};
pub use error::EthRpcError;
pub use network::get_rpc_endpoint;
pub use request_id::{next_id, RequestIdCounter};
