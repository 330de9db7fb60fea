//! The Electrum protocol: what its methods answer, going by the chain and by what the daemon says.

pub mod chain;
pub mod client;
pub mod error;
pub mod hex;
pub mod methods;
pub mod rpc;

pub use client::Client;
pub use rpc::Rpc;
pub use error::ElectrumRpcError;
