//! Per-handle context for a vendor API that reports every event kind of a
//! handle through one status callback: at most one asynchronous operation is
//! outstanding per handle, and each callback event must be the completion (or
//! the error report) of exactly that operation.
use vstd::prelude::*;

use crate::signal::{AsyncWaitObject, SignalState};
use crate::{OpPoll, ProtocolError};

verus! {

/// Status code: the request was sent.
pub const WINHTTP_CALLBACK_STATUS_SENDREQUEST_COMPLETE: u32 = 0x0040_0000;

/// Status code: the response headers can be retrieved.
pub const WINHTTP_CALLBACK_STATUS_HEADERS_AVAILABLE: u32 = 0x0002_0000;

/// Status code: data can be read; the payload is the byte count.
pub const WINHTTP_CALLBACK_STATUS_DATA_AVAILABLE: u32 = 0x0004_0000;

/// Status code: a read finished; the payload length is the byte count.
pub const WINHTTP_CALLBACK_STATUS_READ_COMPLETE: u32 = 0x0008_0000;

/// Status code: a write finished; the payload is the byte count.
pub const WINHTTP_CALLBACK_STATUS_WRITE_COMPLETE: u32 = 0x0010_0000;

/// Status code: an operation failed; the payload names it and its error.
pub const WINHTTP_CALLBACK_STATUS_REQUEST_ERROR: u32 = 0x0020_0000;

/// Every completion the context listens for.
pub const WINHTTP_CALLBACK_FLAG_ALL_COMPLETIONS: u32 = 0x0040_0000 | 0x0002_0000 | 0x0004_0000
    | 0x0008_0000 | 0x0010_0000 | 0x0020_0000 | 0x0100_0000;

/// Failed-operation identifier: receive response.
pub const API_RECEIVE_RESPONSE: u64 = 1;

/// Failed-operation identifier: query data available.
pub const API_QUERY_DATA_AVAILABLE: u64 = 2;

/// Failed-operation identifier: read data.
pub const API_READ_DATA: u64 = 3;

/// Failed-operation identifier: write data.
pub const API_WRITE_DATA: u64 = 4;

/// Failed-operation identifier: send request.
pub const API_SEND_REQUEST: u64 = 5;

/// The asynchronous operations a request handle offers.
#[derive(PartialEq, Eq, Structural, Debug, Clone, Copy)]
pub enum OpKind {
    Send,
    ReceiveResponse,
    QueryDataAvailable,
    ReadData,
    WriteData,
}

/// The state tag: idle, or the one operation outstanding.
#[derive(PartialEq, Eq, Structural, Debug, Clone, Copy)]
pub enum PendingOp {
    Idle,
    Awaiting(OpKind),
}

/// Which payload a status code carries, so that the callback knows what to
/// read behind the status information pointer.
#[derive(PartialEq, Eq, Structural, Debug, Clone, Copy)]
pub enum PayloadKind {
    /// Nothing is read.
    Nothing,
    /// One `u32`.
    Word,
    /// The failed operation's identifier and its error code.
    AsyncResult,
}

/// The payload read for a status code.
#[derive(PartialEq, Eq, Structural, Debug, Clone, Copy)]
pub enum StatusInfo {
    Nothing,
    Word(u32),
    AsyncResult { api: u64, error: u32 },
}

/// A decoded status callback.
#[derive(PartialEq, Eq, Structural, Debug, Clone, Copy)]
pub enum StatusEvent {
    SendRequestComplete,
    HeadersAvailable,
    DataAvailable(u32),
    ReadComplete(u32),
    WriteComplete(u32),
    RequestError { api: u64, error: u32 },
    /// A known status code whose payload is not the one it must carry.
    Malformed(u32),
    /// A status code this context does not listen for.
    Unrecognized(u32),
}

/// The payload carried by `status`, given the payload length reported with it.
pub open spec fn payload_spec(status: u32, info_len: u32) -> PayloadKind {
    if (status == WINHTTP_CALLBACK_STATUS_DATA_AVAILABLE || status
        == WINHTTP_CALLBACK_STATUS_WRITE_COMPLETE) && info_len == 4 {
        PayloadKind::Word
    } else if status == WINHTTP_CALLBACK_STATUS_REQUEST_ERROR {
        PayloadKind::AsyncResult
    } else {
        PayloadKind::Nothing
    }
}

/// The event that a status code, its payload length and its payload make.
pub open spec fn decode_spec(status: u32, info_len: u32, info: StatusInfo) -> StatusEvent {
    if status == WINHTTP_CALLBACK_STATUS_SENDREQUEST_COMPLETE {
        StatusEvent::SendRequestComplete
    } else if status == WINHTTP_CALLBACK_STATUS_HEADERS_AVAILABLE {
        StatusEvent::HeadersAvailable
    } else if status == WINHTTP_CALLBACK_STATUS_READ_COMPLETE {
        StatusEvent::ReadComplete(info_len)
    } else if status == WINHTTP_CALLBACK_STATUS_DATA_AVAILABLE || status
        == WINHTTP_CALLBACK_STATUS_WRITE_COMPLETE {
        match info {
            StatusInfo::Word(n) if info_len == 4 => if status
                == WINHTTP_CALLBACK_STATUS_DATA_AVAILABLE {
                StatusEvent::DataAvailable(n)
            } else {
                StatusEvent::WriteComplete(n)
            },
            _ => StatusEvent::Malformed(status),
        }
    } else if status == WINHTTP_CALLBACK_STATUS_REQUEST_ERROR {
        match info {
            StatusInfo::AsyncResult { api, error } => StatusEvent::RequestError { api, error },
            _ => StatusEvent::Malformed(status),
        }
    } else {
        StatusEvent::Unrecognized(status)
    }
}

/// The operation a failed-operation identifier names.
pub open spec fn api_kind_spec(api: u64) -> Option<OpKind> {
    if api == API_SEND_REQUEST {
        Some(OpKind::Send)
    } else if api == API_RECEIVE_RESPONSE {
        Some(OpKind::ReceiveResponse)
    } else if api == API_QUERY_DATA_AVAILABLE {
        Some(OpKind::QueryDataAvailable)
    } else if api == API_READ_DATA {
        Some(OpKind::ReadData)
    } else if api == API_WRITE_DATA {
        Some(OpKind::WriteData)
    } else {
        None
    }
}

/// The operation a completion event finishes, and the length it reports.
pub open spec fn completion_of(ev: StatusEvent) -> Option<(OpKind, Option<u32>)> {
    match ev {
        StatusEvent::SendRequestComplete => Some((OpKind::Send, None)),
        StatusEvent::HeadersAvailable => Some((OpKind::ReceiveResponse, None)),
        StatusEvent::DataAvailable(n) => Some((OpKind::QueryDataAvailable, Some(n))),
        StatusEvent::ReadComplete(n) => Some((OpKind::ReadData, Some(n))),
        StatusEvent::WriteComplete(n) => Some((OpKind::WriteData, Some(n))),
        _ => None,
    }
}

/// Abstract state of an [`AsyncContext`].
pub struct ContextState {
    pub state: PendingOp,
    pub signal: SignalState,
    /// The error reported for the last operation, if it failed.
    pub err: Option<u32>,
    /// The length reported for the last operation.
    pub len: u32,
}

impl ContextState {
    /// An outstanding operation has not completed yet.
    pub open spec fn wf(self) -> bool {
        &&& self.signal.wf()
        &&& self.state is Awaiting ==> !self.signal.completed
    }

    /// The state once an operation of `kind` has begun.
    pub open spec fn begun(self, kind: OpKind) -> ContextState {
        ContextState {
            state: PendingOp::Awaiting(kind),
            signal: self.signal.fresh(),
            err: None,
            len: 0,
        }
    }

    /// Whether the callback accepts `ev`, and if not, why.
    pub open spec fn event_verdict(self, ev: StatusEvent) -> Result<(), ProtocolError> {
        match self.state {
            PendingOp::Idle => Err(ProtocolError::NotAwaiting),
            PendingOp::Awaiting(k) => match ev {
                StatusEvent::RequestError { api, error } => match api_kind_spec(api) {
                    Some(failed) => if failed == k {
                        Ok(())
                    } else {
                        Err(ProtocolError::Mismatch)
                    },
                    None => Err(ProtocolError::UnknownOperation),
                },
                StatusEvent::Malformed(_) => Err(ProtocolError::Malformed),
                StatusEvent::Unrecognized(_) => Err(ProtocolError::Unrecognized),
                _ => match completion_of(ev) {
                    Some((done, _)) => if done == k {
                        Ok(())
                    } else {
                        Err(ProtocolError::Mismatch)
                    },
                    None => Err(ProtocolError::Unrecognized),
                },
            },
        }
    }

    /// The state once an accepted event has been handled.
    pub open spec fn handled(self, ev: StatusEvent) -> ContextState {
        let base = ContextState { state: PendingOp::Idle, signal: self.signal.woken(), ..self };
        match ev {
            StatusEvent::RequestError { api, error } => ContextState { err: Some(error), ..base },
            _ => match completion_of(ev) {
                Some((_, Some(n))) => ContextState { len: n, ..base },
                _ => base,
            },
        }
    }

    /// What the awaiting task receives once the operation has completed.
    pub open spec fn outcome(self) -> Result<u32, u32> {
        match self.err {
            Some(e) => Err(e),
            None => Ok(self.len),
        }
    }

    /// The answer of `poll`.
    pub open spec fn poll_result(self) -> OpPoll {
        if self.signal.completed {
            OpPoll::Ready(self.outcome())
        } else {
            OpPoll::Pending
        }
    }
}

/// The payload to read for a status callback.
pub fn payload_of(status: u32, info_len: u32) -> (r: PayloadKind)
    ensures
        r == payload_spec(status, info_len),
{
    if (status == WINHTTP_CALLBACK_STATUS_DATA_AVAILABLE || status
        == WINHTTP_CALLBACK_STATUS_WRITE_COMPLETE) && info_len == 4 {
        PayloadKind::Word
    } else if status == WINHTTP_CALLBACK_STATUS_REQUEST_ERROR {
        PayloadKind::AsyncResult
    } else {
        PayloadKind::Nothing
    }
}

/// The operation named by a failed-operation identifier.
pub fn api_kind(api: u64) -> (r: Option<OpKind>)
    ensures
        r == api_kind_spec(api),
{
    if api == API_SEND_REQUEST {
        Some(OpKind::Send)
    } else if api == API_RECEIVE_RESPONSE {
        Some(OpKind::ReceiveResponse)
    } else if api == API_QUERY_DATA_AVAILABLE {
        Some(OpKind::QueryDataAvailable)
    } else if api == API_READ_DATA {
        Some(OpKind::ReadData)
    } else if api == API_WRITE_DATA {
        Some(OpKind::WriteData)
    } else {
        None
    }
}

impl StatusEvent {
    /// Decodes a status callback from its code, its payload length and the
    /// payload read as [`payload_of`] says.
    pub fn decode(status: u32, info_len: u32, info: StatusInfo) -> (r: StatusEvent)
        ensures
            r == decode_spec(status, info_len, info),
    {
        if status == WINHTTP_CALLBACK_STATUS_SENDREQUEST_COMPLETE {
            StatusEvent::SendRequestComplete
        } else if status == WINHTTP_CALLBACK_STATUS_HEADERS_AVAILABLE {
            StatusEvent::HeadersAvailable
        } else if status == WINHTTP_CALLBACK_STATUS_READ_COMPLETE {
            StatusEvent::ReadComplete(info_len)
        } else if status == WINHTTP_CALLBACK_STATUS_DATA_AVAILABLE || status
            == WINHTTP_CALLBACK_STATUS_WRITE_COMPLETE {
            match info {
                StatusInfo::Word(n) => {
                    if info_len != 4 {
                        StatusEvent::Malformed(status)
                    } else if status == WINHTTP_CALLBACK_STATUS_DATA_AVAILABLE {
                        StatusEvent::DataAvailable(n)
                    } else {
                        StatusEvent::WriteComplete(n)
                    }
                },
                _ => StatusEvent::Malformed(status),
            }
        } else if status == WINHTTP_CALLBACK_STATUS_REQUEST_ERROR {
            match info {
                StatusInfo::AsyncResult { api, error } => StatusEvent::RequestError { api, error },
                _ => StatusEvent::Malformed(status),
            }
        } else {
            StatusEvent::Unrecognized(status)
        }
    }
}

/// The per-handle context handed to the vendor as the correlation token.
pub struct AsyncContext {
    state: PendingOp,
    as_obj: AsyncWaitObject,
    err: Option<u32>,
    len: u32,
}

impl View for AsyncContext {
    type V = ContextState;

    closed spec fn view(&self) -> ContextState {
        ContextState { state: self.state, signal: self.as_obj@, err: self.err, len: self.len }
    }
}

impl AsyncContext {
    /// An idle context.
    pub fn new() -> (r: AsyncContext)
        ensures
            r@.state == PendingOp::Idle,
            !r@.signal.completed,
            r@.signal.waker == None::<u64>,
            r@.err == None::<u32>,
            r@.len == 0,
            r@.wf(),
    {
        AsyncContext { state: PendingOp::Idle, as_obj: AsyncWaitObject::new(), err: None, len: 0 }
    }

    /// The operation outstanding, if any.
    pub fn state(&self) -> (r: PendingOp)
        ensures
            r == self@.state,
    {
        self.state
    }

    /// Starts an operation of `kind` on an idle context (two operations on
    /// one handle must not interleave: callers test [`Self::state`] first):
    /// the tag is set, the signal, the error and the length are reset, and the
    /// caller may now issue the vendor call.
    pub fn begin(&mut self, kind: OpKind)
        requires
            old(self)@.wf(),
            old(self)@.state is Idle,
        ensures
            final(self)@ == old(self)@.begun(kind),
            final(self)@.wf(),
    {
        self.as_obj.reset();
        self.state = PendingOp::Awaiting(kind);
        self.err = None;
        self.len = 0;
    }

    /// The vendor call of the operation just begun failed at once, so no
    /// callback will come for it: the context is idle again.
    pub fn submission_failed(&mut self)
        requires
            old(self)@.wf(),
        ensures
            final(self)@ == (ContextState { state: PendingOp::Idle, ..old(self)@ }),
            final(self)@.wf(),
    {
        self.state = PendingOp::Idle;
    }

    /// Whether the callback may hand `ev` to [`Self::on_event`], and if not,
    /// which protocol violation it is.
    pub fn verdict(&self, ev: StatusEvent) -> (r: Result<(), ProtocolError>)
        ensures
            r == self@.event_verdict(ev),
    {
        let k = match self.state {
            PendingOp::Idle => {
                return Err(ProtocolError::NotAwaiting);
            },
            PendingOp::Awaiting(k) => k,
        };
        let done = match ev {
            StatusEvent::SendRequestComplete => OpKind::Send,
            StatusEvent::HeadersAvailable => OpKind::ReceiveResponse,
            StatusEvent::DataAvailable(_) => OpKind::QueryDataAvailable,
            StatusEvent::ReadComplete(_) => OpKind::ReadData,
            StatusEvent::WriteComplete(_) => OpKind::WriteData,
            StatusEvent::RequestError { api, error: _ } => match api_kind(api) {
                Some(failed) => failed,
                None => {
                    return Err(ProtocolError::UnknownOperation);
                },
            },
            StatusEvent::Malformed(_) => {
                return Err(ProtocolError::Malformed);
            },
            StatusEvent::Unrecognized(_) => {
                return Err(ProtocolError::Unrecognized);
            },
        };
        if done == k {
            Ok(())
        } else {
            Err(ProtocolError::Mismatch)
        }
    }

    /// Handles one status callback, which must be the completion, or the
    /// error report, of the outstanding operation (callers test
    /// [`Self::verdict`] first): the length or the error is stored, the
    /// context goes idle, the signal is woken and the task to resume is
    /// handed back.
    pub fn on_event(&mut self, ev: StatusEvent) -> (r: Option<u64>)
        requires
            old(self)@.wf(),
            old(self)@.event_verdict(ev) is Ok,
        ensures
            r == old(self)@.signal.waker,
            final(self)@ == old(self)@.handled(ev),
            final(self)@.wf(),
    {
        match ev {
            StatusEvent::DataAvailable(n) => {
                self.len = n;
            },
            StatusEvent::ReadComplete(n) => {
                self.len = n;
            },
            StatusEvent::WriteComplete(n) => {
                self.len = n;
            },
            StatusEvent::RequestError { api: _, error } => {
                self.err = Some(error);
            },
            _ => {},
        }
        self.state = PendingOp::Idle;
        self.as_obj.wake()
    }

    /// Polls the operation begun last: once its completion has been handled,
    /// `Ready` with its length or its error; before that `Pending`, keeping
    /// `waker` as the task to resume.
    pub fn poll(&mut self, waker: u64) -> (r: OpPoll)
        requires
            old(self)@.wf(),
        ensures
            r == old(self)@.poll_result(),
            final(self)@ == (ContextState { signal: old(self)@.signal.polled(waker), ..old(self)@ }),
            final(self)@.wf(),
    {
        match self.as_obj.register_and_poll(waker) {
            crate::signal::SignalPoll::Ready => OpPoll::Ready(
                match self.err {
                    Some(e) => Err(e),
                    None => Ok(self.len),
                },
            ),
            crate::signal::SignalPoll::Pending => OpPoll::Pending,
        }
    }
}

/// Once an operation has begun, the context is no longer idle, so `begin`
/// refuses a second one, whatever its kind, until a callback event accepted
/// for the first has been handled; the context is then idle again.
pub proof fn lemma_second_begin_rejected(s: ContextState, first: OpKind, ev: StatusEvent)
    requires
        s.state is Idle,
        s.wf(),
    ensures
        !(s.begun(first).state is Idle),
        s.begun(first).event_verdict(ev) is Ok ==> s.begun(first).handled(ev).state is Idle,
{
}

/// An error report for the operation outstanding completes it with that
/// error; one that names another operation is a mismatch.
pub proof fn lemma_error_report_matches_operation(s: ContextState, api: u64, error: u32)
    requires
        s.state is Awaiting,
        s.wf(),
        api_kind_spec(api) is Some,
    ensures
        api_kind_spec(api) == Some(s.state->Awaiting_0) ==> s.event_verdict(
            StatusEvent::RequestError { api, error },
        ) is Ok && s.handled(StatusEvent::RequestError { api, error }).poll_result()
            == OpPoll::Ready(Err(error)),
        api_kind_spec(api) != Some(s.state->Awaiting_0) ==> s.event_verdict(
            StatusEvent::RequestError { api, error },
        ) == Err::<(), ProtocolError>(ProtocolError::Mismatch),
{
}

} // verus!
