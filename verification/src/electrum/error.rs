//! What a client is told when a method fails.

use crate::json_types::json_rpc_error::JsonRpcErrorView;
use crate::json_types::json_rpc_error_code::json_rpc_error_code;
use crate::json_types::JsonRpcError;
use crate::service::{HandleMethodError, HandleMethodErrorView};
use vstd::prelude::*;

verus! {

/// The code of an error that is the client's.
pub const BAD_REQUEST: i16 = 1;

/// The code of an error that is the daemon's.
pub const DAEMON_ERROR: i16 = 2;

/// Why a method failed.
#[derive(Debug, PartialEq)]
pub enum ElectrumRpcError {
    BadRequest { message: String },
    DaemonError { message: String },
}

/// What an `ElectrumRpcError` is.
pub enum ElectrumRpcErrorView {
    BadRequest { message: Seq<char> },
    DaemonError { message: Seq<char> },
}

impl ElectrumRpcErrorView {
    /// The error as it goes over the connection.
    pub open spec fn to_json_rpc_error(self) -> JsonRpcErrorView {
        match self {
            ElectrumRpcErrorView::BadRequest { message } => JsonRpcErrorView {
                code: BAD_REQUEST,
                message,
                data: None,
            },
            ElectrumRpcErrorView::DaemonError { message } => JsonRpcErrorView {
                code: DAEMON_ERROR,
                message,
                data: None,
            },
        }
    }
}

/// An error is told with its own words and without data; the code says whose it is, and is free for
/// applications.
pub proof fn error_is_told_apart(error: ElectrumRpcErrorView)
    ensures
        match error {
            ElectrumRpcErrorView::BadRequest { message } => error.to_json_rpc_error().message
                == message && error.to_json_rpc_error().code == 1,
            ElectrumRpcErrorView::DaemonError { message } => error.to_json_rpc_error().message
                == message && error.to_json_rpc_error().code == 2,
        },
        error.to_json_rpc_error().data is None,
        error.to_json_rpc_error().code > crate::error_codes::MAX_RESERVED_ERROR_CODE,
{
}

impl ElectrumRpcError {
    /// What the error is.
    pub open spec fn view(&self) -> ElectrumRpcErrorView {
        match *self {
            ElectrumRpcError::BadRequest { message } => ElectrumRpcErrorView::BadRequest {
                message: message@,
            },
            ElectrumRpcError::DaemonError { message } => ElectrumRpcErrorView::DaemonError {
                message: message@,
            },
        }
    }

    /// Makes an error with the given words: the daemon's, if it comes from the daemon, else the
    /// client's.
    pub fn classify(message: String, from_daemon: bool) -> (error: ElectrumRpcError)
        ensures
            error@ == if from_daemon {
                ElectrumRpcErrorView::DaemonError { message: message@ }
            } else {
                ElectrumRpcErrorView::BadRequest { message: message@ }
            },
    {
        if from_daemon {
            ElectrumRpcError::DaemonError { message }
        } else {
            ElectrumRpcError::BadRequest { message }
        }
    }
}

impl From<ElectrumRpcError> for HandleMethodError {
    fn from(electrum_rpc_error: ElectrumRpcError) -> (error: HandleMethodError)
        ensures
            error@ == HandleMethodErrorView::ApplicationError(
                electrum_rpc_error@.to_json_rpc_error(),
            ),
    {
        let json_rpc_error = match electrum_rpc_error {
            ElectrumRpcError::BadRequest { message } => JsonRpcError {
                code: json_rpc_error_code(BAD_REQUEST),
                message,
                data: None,
            },
            ElectrumRpcError::DaemonError { message } => JsonRpcError {
                code: json_rpc_error_code(DAEMON_ERROR),
                message,
                data: None,
            },
        };
        HandleMethodError::ApplicationError(json_rpc_error)
    }
}

impl vstd::std_specs::convert::FromSpecImpl<ElectrumRpcError> for HandleMethodError {
    open spec fn obeys_from_spec() -> bool {
        false
    }

    open spec fn from_spec(electrum_rpc_error: ElectrumRpcError) -> HandleMethodError {
        arbitrary()
    }
}

} // verus!
