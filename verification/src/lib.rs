//! JSON-RPC over lines of text, for both ends of a connection, and an Electrum server on top of it.
//!
//! The library holds what is decided and computed; reading and writing streams is up to its users.

use vstd::prelude::*;

pub mod client;
pub mod electrum;
pub mod error_codes;
pub mod json_codec;
pub mod json_types;
pub mod json_value;
pub mod macros;
pub mod message_io;
pub mod new_rpc;
pub mod sequences;
pub mod server;
pub mod service;
pub mod session;
pub mod signals;
pub mod text;

verus! {

/// The version of JSON-RPC that is spoken.
pub const JSON_RPC_VERSION: &'static str = "2.0";

} // verus!
