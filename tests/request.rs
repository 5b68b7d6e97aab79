use winasync::request::{
    api_kind, payload_of, AsyncContext, OpKind, PayloadKind, PendingOp, StatusEvent, StatusInfo,
    API_READ_DATA, API_SEND_REQUEST, API_WRITE_DATA, WINHTTP_CALLBACK_FLAG_ALL_COMPLETIONS,
    WINHTTP_CALLBACK_STATUS_DATA_AVAILABLE, WINHTTP_CALLBACK_STATUS_HEADERS_AVAILABLE,
    WINHTTP_CALLBACK_STATUS_READ_COMPLETE, WINHTTP_CALLBACK_STATUS_REQUEST_ERROR,
    WINHTTP_CALLBACK_STATUS_SENDREQUEST_COMPLETE, WINHTTP_CALLBACK_STATUS_WRITE_COMPLETE,
};
use winasync::{OpPoll, ProtocolError};

#[test]
fn second_begin_without_await_is_rejected() {
    let mut ctx = AsyncContext::new();
    assert_eq!(ctx.state(), PendingOp::Idle);
    ctx.begin(OpKind::Send);
    // a second begin is ruled out: the context is no longer idle
    assert_eq!(ctx.state(), PendingOp::Awaiting(OpKind::Send));
    ctx.on_event(StatusEvent::SendRequestComplete);
    assert_eq!(ctx.state(), PendingOp::Idle);
}

#[test]
fn read_error_report_fails_the_read() {
    let mut ctx = AsyncContext::new();
    ctx.begin(OpKind::ReadData);
    assert!(matches!(ctx.poll(4), OpPoll::Pending));
    let ev = StatusEvent::RequestError { api: API_READ_DATA, error: 12002 };
    assert_eq!(ctx.verdict(ev), Ok(()));
    assert_eq!(ctx.on_event(ev), Some(4));
    assert_eq!(ctx.state(), PendingOp::Idle);
    assert!(matches!(ctx.poll(4), OpPoll::Ready(Err(12002))));
}

#[test]
fn write_error_report_during_read_is_a_mismatch() {
    let mut ctx = AsyncContext::new();
    ctx.begin(OpKind::ReadData);
    let ev = StatusEvent::RequestError { api: API_WRITE_DATA, error: 12002 };
    assert_eq!(ctx.verdict(ev), Err(ProtocolError::Mismatch));
    assert_eq!(ctx.state(), PendingOp::Awaiting(OpKind::ReadData));
}

#[test]
fn sequential_operations_on_one_handle() {
    let mut ctx = AsyncContext::new();
    ctx.begin(OpKind::Send);
    assert_eq!(ctx.on_event(StatusEvent::SendRequestComplete), None);
    assert!(matches!(ctx.poll(1), OpPoll::Ready(Ok(0))));

    ctx.begin(OpKind::ReceiveResponse);
    assert!(matches!(ctx.poll(2), OpPoll::Pending));
    assert_eq!(ctx.on_event(StatusEvent::HeadersAvailable), Some(2));
    assert!(matches!(ctx.poll(2), OpPoll::Ready(Ok(0))));

    ctx.begin(OpKind::QueryDataAvailable);
    assert_eq!(ctx.on_event(StatusEvent::DataAvailable(300)), None);
    assert!(matches!(ctx.poll(3), OpPoll::Ready(Ok(300))));

    ctx.begin(OpKind::ReadData);
    assert!(matches!(ctx.poll(3), OpPoll::Pending));
    assert_eq!(ctx.on_event(StatusEvent::ReadComplete(300)), Some(3));
    assert!(matches!(ctx.poll(3), OpPoll::Ready(Ok(300))));

    ctx.begin(OpKind::WriteData);
    assert_eq!(ctx.on_event(StatusEvent::WriteComplete(1)), None);
    assert!(matches!(ctx.poll(3), OpPoll::Ready(Ok(1))));
}

#[test]
fn events_that_do_not_fit_are_violations() {
    let mut ctx = AsyncContext::new();
    assert_eq!(ctx.verdict(StatusEvent::SendRequestComplete), Err(ProtocolError::NotAwaiting));
    ctx.begin(OpKind::QueryDataAvailable);
    assert_eq!(ctx.verdict(StatusEvent::ReadComplete(1)), Err(ProtocolError::Mismatch));
    assert_eq!(ctx.verdict(StatusEvent::HeadersAvailable), Err(ProtocolError::Mismatch));
    assert_eq!(ctx.verdict(StatusEvent::DataAvailable(5)), Ok(()));
    assert_eq!(
        ctx.verdict(StatusEvent::RequestError { api: 99, error: 1 }),
        Err(ProtocolError::UnknownOperation)
    );
    assert_eq!(ctx.verdict(StatusEvent::Unrecognized(0x100)), Err(ProtocolError::Unrecognized));
    assert_eq!(
        ctx.verdict(StatusEvent::Malformed(WINHTTP_CALLBACK_STATUS_DATA_AVAILABLE)),
        Err(ProtocolError::Malformed)
    );
    assert_eq!(ctx.state(), PendingOp::Awaiting(OpKind::QueryDataAvailable));
}

#[test]
fn failed_submission_returns_to_idle() {
    let mut ctx = AsyncContext::new();
    ctx.begin(OpKind::Send);
    ctx.submission_failed();
    assert_eq!(ctx.state(), PendingOp::Idle);
    ctx.begin(OpKind::ReceiveResponse);
    assert_eq!(ctx.state(), PendingOp::Awaiting(OpKind::ReceiveResponse));
}

#[test]
fn status_codes_decode() {
    let none = StatusInfo::Nothing;
    assert_eq!(
        StatusEvent::decode(WINHTTP_CALLBACK_STATUS_SENDREQUEST_COMPLETE, 0, none),
        StatusEvent::SendRequestComplete
    );
    assert_eq!(
        StatusEvent::decode(WINHTTP_CALLBACK_STATUS_HEADERS_AVAILABLE, 0, none),
        StatusEvent::HeadersAvailable
    );
    assert_eq!(
        StatusEvent::decode(WINHTTP_CALLBACK_STATUS_READ_COMPLETE, 17, none),
        StatusEvent::ReadComplete(17)
    );
    assert_eq!(
        StatusEvent::decode(WINHTTP_CALLBACK_STATUS_DATA_AVAILABLE, 4, StatusInfo::Word(8)),
        StatusEvent::DataAvailable(8)
    );
    assert_eq!(
        StatusEvent::decode(WINHTTP_CALLBACK_STATUS_WRITE_COMPLETE, 4, StatusInfo::Word(2)),
        StatusEvent::WriteComplete(2)
    );
    assert_eq!(
        StatusEvent::decode(WINHTTP_CALLBACK_STATUS_DATA_AVAILABLE, 2, StatusInfo::Word(8)),
        StatusEvent::Malformed(WINHTTP_CALLBACK_STATUS_DATA_AVAILABLE)
    );
    assert_eq!(
        StatusEvent::decode(
            WINHTTP_CALLBACK_STATUS_REQUEST_ERROR,
            16,
            StatusInfo::AsyncResult { api: API_SEND_REQUEST, error: 12029 }
        ),
        StatusEvent::RequestError { api: API_SEND_REQUEST, error: 12029 }
    );
    assert_eq!(
        StatusEvent::decode(WINHTTP_CALLBACK_STATUS_REQUEST_ERROR, 16, none),
        StatusEvent::Malformed(WINHTTP_CALLBACK_STATUS_REQUEST_ERROR)
    );
    assert_eq!(StatusEvent::decode(0x0100_0000, 0, none), StatusEvent::Unrecognized(0x0100_0000));
}

#[test]
fn payload_kinds() {
    assert_eq!(payload_of(WINHTTP_CALLBACK_STATUS_DATA_AVAILABLE, 4), PayloadKind::Word);
    assert_eq!(payload_of(WINHTTP_CALLBACK_STATUS_WRITE_COMPLETE, 4), PayloadKind::Word);
    assert_eq!(payload_of(WINHTTP_CALLBACK_STATUS_DATA_AVAILABLE, 8), PayloadKind::Nothing);
    assert_eq!(payload_of(WINHTTP_CALLBACK_STATUS_REQUEST_ERROR, 16), PayloadKind::AsyncResult);
    assert_eq!(payload_of(WINHTTP_CALLBACK_STATUS_READ_COMPLETE, 4), PayloadKind::Nothing);
    assert_eq!(WINHTTP_CALLBACK_FLAG_ALL_COMPLETIONS, 0x017E_0000);
}

#[test]
fn failed_operation_identifiers() {
    assert_eq!(api_kind(1), Some(OpKind::ReceiveResponse));
    assert_eq!(api_kind(2), Some(OpKind::QueryDataAvailable));
    assert_eq!(api_kind(3), Some(OpKind::ReadData));
    assert_eq!(api_kind(4), Some(OpKind::WriteData));
    assert_eq!(api_kind(5), Some(OpKind::Send));
    assert_eq!(api_kind(6), None);
}
