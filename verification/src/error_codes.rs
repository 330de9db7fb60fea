//! The error codes that JSON-RPC 2.0 reserves.

use vstd::prelude::*;

verus! {

/// The text is no JSON.
pub const PARSE_ERROR: i16 = -32700;

/// The JSON value is no request.
pub const INVALID_REQUEST: i16 = -32600;

/// There is no such method.
pub const METHOD_NOT_FOUND: i16 = -32601;

/// The parameters do not fit the method.
pub const INVALID_PARAMS: i16 = -32602;

/// The server failed.
pub const INTERNAL_ERROR: i16 = -32603;

/// The largest code that is not free for applications.
pub const MAX_RESERVED_ERROR_CODE: i16 = -32000;

} // verus!
