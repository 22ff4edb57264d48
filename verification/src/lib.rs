//! A client for Ethereum JSON-RPC nodes reached over a websocket.
//!
//! This crate holds the parts of the client that decide things: the JSON data
//! model of messages, the encoding of requests, the decoding of responses and
//! subscription events, hexadecimal and decimal text, the routing tables of
//! the request manager and the block-number cache.
pub mod json;
pub mod text;
pub mod types;
pub mod utils;
pub mod response;
pub mod abi;
pub mod request;
pub mod operation;
pub mod table;
pub mod client;
