//! Both ends of a connection: who waits for which response, and what becomes of each message.

pub mod id_order;
pub mod response_map;
pub mod state;

pub use response_map::{Delivery, ResponseMap};
pub use state::{
    AfterRequest, ConnectionError, PendingResponses, SessionState, SessionStep, SessionTask,
    SessionWait,
};
