//! Services and clients that are declared by attributes: how declarations are read, and how a
//! request finds the method that it is for.

pub mod client;
pub mod dispatch;
pub mod rpc_impl;
pub mod service;
pub mod source;
pub mod syntax;
pub mod table;
