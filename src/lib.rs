//! Completion adapters that turn callback-driven OS notifications into
//! operations a cooperative task can poll to completion.
//!
//! Every adapter here is a state machine over plain values: the OS calls,
//! the callbacks' raw pointers and the task executor live with the caller,
//! which feeds events in and acts on what comes back.
use vstd::prelude::*;

pub mod event;
pub mod flags;
pub mod iocp;
pub mod request;
pub mod signal;
pub mod wide;

verus! {

/// A violation of an adapter's protocol: an event that the adapter's state
/// rules out. The adapters' checks name it; the caller treats it as fatal.
#[derive(PartialEq, Eq, Structural, Debug, Clone, Copy)]
pub enum ProtocolError {
    /// A completion arrived while no operation is outstanding.
    NotAwaiting,
    /// A completion or an error report names another operation than the
    /// outstanding one.
    Mismatch,
    /// An error report names an operation the adapter does not know.
    UnknownOperation,
    /// A known event came without the payload it must carry.
    Malformed,
    /// An event the adapter does not listen for.
    Unrecognized,
    /// A completion names a record that holds no operation.
    UnknownRecord,
    /// A second completion arrived for one operation.
    AlreadyCompleted,
}

/// What polling an operation answers.
#[derive(Debug, Clone, Copy)]
pub enum OpPoll {
    /// The operation finished: its byte count, or its status code.
    Ready(Result<u32, u32>),
    /// Not finished yet; the task will be resumed.
    Pending,
}

} // verus!
