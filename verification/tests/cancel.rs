use iroh_h3::body::{Body, BodyBytes, BodyCollector, BodyStream};
use iroh_h3::cancel::bytes_stream::{CancellableBytesStream, Delivered, NextStep, Received};
use iroh_h3::cancel::h3_body::{CancellableH3Body, OwnedStreamGuard};
use iroh_h3::cancel::pending::{body_to_send, PendingRequest, PollStep};
use iroh_h3::cancel::state::{
    CancellableRequestState, RequestCancelHandle, RequestPhase, StopOwner, StopSide,
};
use iroh_h3::error::Error;

use bytes::Bytes;
use h3::error::{Code, StreamError};

const CANCEL_CODE: u64 = 0x10c;

fn stops(owner: &StopOwner, side: StopSide) -> usize {
    owner
        .requests
        .iter()
        .filter(|stop| stop.side == side)
        .count()
}

fn receive_stops(owner: &StopOwner) -> usize {
    stops(owner, StopSide::Receive)
}

fn send_stops(owner: &StopOwner) -> usize {
    stops(owner, StopSide::Send)
}

#[test]
fn cancel_is_idempotent() {
    let mut state = CancellableRequestState::new();
    let mut owner = StopOwner::new();

    let mut handle = RequestCancelHandle::new(&mut state);
    assert!(handle.cancel());
    assert!(!handle.cancel());
    state.apply_cancel_to_owner(&mut owner);
    state.apply_cancel_to_owner(&mut owner);

    assert_eq!(send_stops(&owner), 1);
    assert_eq!(receive_stops(&owner), 1);
    assert!(RequestCancelHandle::new(&mut state).is_cancelled());
}

#[test]
fn get_response_body_cancel_does_not_stop_send_side() {
    let mut state = CancellableRequestState::new();
    state.mark_phase(RequestPhase::ReadingResponseBody);
    state.mark_send_finished();
    RequestCancelHandle::new(&mut state).cancel();

    let mut owner = StopOwner::new();
    state.apply_cancel_to_owner(&mut owner);

    assert_eq!(send_stops(&owner), 0);
    assert_eq!(receive_stops(&owner), 1);
}

#[test]
fn fixed_body_send_cancel_stops_request_side() {
    let mut state = CancellableRequestState::new();
    state.mark_phase(RequestPhase::SendingRequestBody);
    RequestCancelHandle::new(&mut state).cancel();

    let mut owner = StopOwner::new();
    state.apply_cancel_to_owner(&mut owner);

    assert_eq!(send_stops(&owner), 1);
    assert_eq!(receive_stops(&owner), 1);
}

#[test]
fn finish_pending_cancel_stops_request_side() {
    let mut state = CancellableRequestState::new();
    state.mark_phase(RequestPhase::FinishingRequest);
    RequestCancelHandle::new(&mut state).cancel();

    let mut owner = StopOwner::new();
    state.apply_cancel_to_owner(&mut owner);

    assert_eq!(send_stops(&owner), 1);
    assert_eq!(receive_stops(&owner), 1);
}

#[test]
fn eof_then_drop_does_not_stop_sending() {
    let mut state = CancellableRequestState::new();
    state.mark_recv_terminal();

    let mut owner = StopOwner::new();
    state.apply_drop_cleanup_to_owner(&mut owner);

    assert_eq!(receive_stops(&owner), 0);
    assert_eq!(send_stops(&owner), 0);
}

#[test]
fn new_state_is_before_stream_open() {
    let state = CancellableRequestState::new();
    assert_eq!(
        state,
        CancellableRequestState {
            cancelled: false,
            phase: RequestPhase::BeforeStreamOpen,
            send_finished: false,
            recv_terminal: false,
            receive_stop_sent: false,
            send_stop_sent: false,
            cancel_error_emitted: false,
        }
    );
}

#[test]
fn uncancelled_request_is_not_stopped_by_a_cancel_check() {
    let mut state = CancellableRequestState::new();
    let mut owner = StopOwner::new();
    state.apply_cancel_to_owner(&mut owner);
    assert!(owner.requests.is_empty());
    assert_eq!(state, CancellableRequestState::new());
}

#[test]
fn stops_carry_the_request_cancelled_code_receive_first() {
    let mut state = CancellableRequestState::new();
    let mut owner = StopOwner::new();
    state.apply_drop_cleanup_to_owner(&mut owner);

    assert_eq!(owner.requests.len(), 2);
    assert_eq!(owner.requests[0].side, StopSide::Receive);
    assert_eq!(owner.requests[0].code, CANCEL_CODE);
    assert_eq!(owner.requests[1].side, StopSide::Send);
    assert_eq!(owner.requests[1].code, CANCEL_CODE);
    assert!(state.receive_stop_sent && state.send_stop_sent);
}

#[test]
fn cancel_error_is_claimed_once() {
    let mut state = CancellableRequestState::new();
    assert!(state.take_cancel_error_to_emit());
    assert!(!state.take_cancel_error_to_emit());
}

type TestRequest = PendingRequest<&'static str, u8, &'static str>;

fn new_request(body: &'static [u8]) -> TestRequest {
    PendingRequest::new("manager", 7, "GET /", Bytes::from_static(body))
}

fn poll(
    request: &mut TestRequest,
    state: &mut CancellableRequestState,
) -> PollStep<&'static str, u8, &'static str, &'static str> {
    request.poll(state)
}

#[test]
fn undisturbed_request_resolves_to_its_response() {
    let mut state = CancellableRequestState::new();
    let mut owner = StopOwner::new();
    let mut request = new_request(b"data");

    let open = match poll(&mut request, &mut state) {
        PollStep::GetSender(open) => open,
        _ => panic!("a sender is to be obtained"),
    };
    assert_eq!(open.connection_manager, "manager");
    assert_eq!(open.peer_id, 7);
    assert_eq!(state.phase, RequestPhase::OpeningRequestStream);
    assert!(matches!(poll(&mut request, &mut state), PollStep::Wait));

    let send = match request.on_sender::<_, &str>(&mut state, open.request, open.body, Ok("sender")) {
        Ok(send) => send,
        Err(_) => panic!("the headers are to be sent"),
    };
    assert_eq!(send.request, "GET /");
    assert_eq!(state.phase, RequestPhase::SendingRequestHeaders);

    let body = match request.on_request_sent::<_, _, &str>(
        &mut state,
        send.sender,
        send.body,
        Ok("stream"),
    ) {
        Ok(body) => body,
        Err(_) => panic!("the body is to be sent"),
    };
    assert_eq!(body.data, Some(Bytes::from_static(b"data")));
    assert_eq!(state.phase, RequestPhase::SendingRequestBody);

    let (sender, stream) = match request.on_body_sent::<_, _, &str>(
        &mut state,
        &mut owner,
        body.sender,
        body.stream,
        Ok(()),
    ) {
        Ok(next) => next,
        Err(_) => panic!("the request is to be finished"),
    };
    assert_eq!(state.phase, RequestPhase::FinishingRequest);
    assert!(!state.send_finished);

    let (sender, stream) = match request.on_request_finished::<_, _, &str>(
        &mut state,
        &mut owner,
        sender,
        stream,
        Ok(()),
    ) {
        Ok(next) => next,
        Err(_) => panic!("the response is awaited"),
    };
    assert_eq!(state.phase, RequestPhase::WaitingResponseHeaders);
    assert!(state.send_finished);

    let response = match request.on_response::<_, u8, _, _, &str>(
        &mut state,
        &mut owner,
        sender,
        stream,
        Ok(200u16),
    ) {
        Ok(response) => response,
        Err(_) => panic!("the response is here"),
    };
    assert_eq!(response.inner, 200);
    let body = response.body.into_cancellable_h3::<&str>().unwrap();
    assert_eq!(body.stream, Some("stream"));
    assert_eq!(body.sender, "sender");
    assert_eq!(state.phase, RequestPhase::ReadingResponseBody);
    assert!(owner.requests.is_empty());

    assert!(matches!(
        poll(&mut request, &mut state),
        PollStep::Ready(Error::Cancelled)
    ));
}

#[test]
fn cancelled_request_fails_before_it_opens_anything() {
    let mut state = CancellableRequestState::new();
    let mut request = new_request(b"");
    assert!(request.cancel_handle(&mut state).cancel());
    assert!(matches!(
        poll(&mut request, &mut state),
        PollStep::Ready(Error::Cancelled)
    ));
    assert_eq!(state.phase, RequestPhase::BeforeStreamOpen);
}

fn request_with_body_in_flight(state: &mut CancellableRequestState) -> TestRequest {
    let mut request = new_request(b"");
    assert!(matches!(poll(&mut request, state), PollStep::GetSender(_)));
    assert!(request
        .on_sender::<_, &str>(state, "GET /", Bytes::new(), Ok(()))
        .is_ok());
    match request.on_request_sent::<_, _, &str>(state, (), Bytes::new(), Ok(())) {
        Ok(send) => assert!(send.data.is_none()),
        Err(_) => panic!("the body is to be sent"),
    }
    request
}

#[test]
fn failed_sender_ends_the_request_without_stops() {
    let mut state = CancellableRequestState::new();
    let mut request = new_request(b"");
    assert!(matches!(
        poll(&mut request, &mut state),
        PollStep::GetSender(_)
    ));
    let result = request.on_sender::<(), _>(
        &mut state,
        "GET /",
        Bytes::new(),
        Err(Error::Transport("unreachable")),
    );
    assert!(matches!(result, Err(Error::Transport("unreachable"))));
    assert!(!state.receive_stop_sent && !state.send_stop_sent);
    assert!(matches!(
        poll(&mut request, &mut state),
        PollStep::Ready(Error::Cancelled)
    ));
}

#[test]
fn failed_headers_end_the_request_without_stops() {
    let mut state = CancellableRequestState::new();
    let mut request = new_request(b"");
    assert!(matches!(
        poll(&mut request, &mut state),
        PollStep::GetSender(_)
    ));
    assert!(request
        .on_sender::<_, &str>(&mut state, "GET /", Bytes::new(), Ok(()))
        .is_ok());
    let result = request.on_request_sent::<_, (), _>(&mut state, (), Bytes::new(), Err("refused"));
    assert!(matches!(result, Err(Error::Transport("refused"))));
    assert!(!state.receive_stop_sent && !state.send_stop_sent);
}

#[test]
fn failed_body_stops_both_directions() {
    let mut state = CancellableRequestState::new();
    let mut owner = StopOwner::new();
    let mut request = request_with_body_in_flight(&mut state);
    match request.on_body_sent(&mut state, &mut owner, (), "stream", Err("reset")) {
        Err(failed) => {
            assert_eq!(failed.stream, "stream");
            assert!(matches!(failed.error, Error::Transport("reset")));
        }
        Ok(_) => panic!("the body failed"),
    }
    assert_eq!(receive_stops(&owner), 1);
    assert_eq!(send_stops(&owner), 1);
}

#[test]
fn failed_finish_stops_both_directions() {
    let mut state = CancellableRequestState::new();
    let mut owner = StopOwner::new();
    let mut request = request_with_body_in_flight(&mut state);
    assert!(request
        .on_body_sent::<_, _, &str>(&mut state, &mut owner, (), (), Ok(()))
        .is_ok());
    assert!(request
        .on_request_finished(&mut state, &mut owner, (), (), Err("reset"))
        .is_err());
    assert_eq!(receive_stops(&owner), 1);
    assert_eq!(send_stops(&owner), 1);
}

#[test]
fn failed_response_stops_only_the_receiving_direction() {
    let mut state = CancellableRequestState::new();
    let mut owner = StopOwner::new();
    let mut request = request_with_body_in_flight(&mut state);
    assert!(request
        .on_body_sent::<_, _, &str>(&mut state, &mut owner, (), (), Ok(()))
        .is_ok());
    assert!(request
        .on_request_finished::<_, _, &str>(&mut state, &mut owner, (), (), Ok(()))
        .is_ok());
    assert!(request
        .on_response::<u16, u8, _, _, _>(&mut state, &mut owner, (), (), Err("reset"))
        .is_err());
    assert_eq!(receive_stops(&owner), 1);
    assert_eq!(send_stops(&owner), 0);
}

#[test]
fn cancelled_operation_gives_its_stream_up() {
    let mut state = CancellableRequestState::new();
    let mut owner = StopOwner::new();
    let mut request = request_with_body_in_flight(&mut state);
    let mut guard = OwnedStreamGuard::new(());
    request.cancel_handle(&mut state).cancel();
    assert!(matches!(
        poll(&mut request, &mut state),
        PollStep::Ready(Error::Cancelled)
    ));
    guard.release(&mut state, &mut owner);
    guard.release(&mut state, &mut owner);
    assert_eq!(receive_stops(&owner), 1);
    assert_eq!(send_stops(&owner), 1);
}

#[test]
fn abandoned_operation_gives_its_stream_up() {
    let mut state = CancellableRequestState::new();
    let mut owner = StopOwner::new();
    let mut request = request_with_body_in_flight(&mut state);
    let mut guard = OwnedStreamGuard::new(5u8);
    *guard.stream_mut() += 1;
    request.abandon();
    guard.release(&mut state, &mut owner);
    assert_eq!(receive_stops(&owner), 1);
    assert_eq!(send_stops(&owner), 1);
    assert_eq!(guard.take_stream(), 6);
}

#[test]
fn finished_operation_has_nothing_to_give_up() {
    let mut state = CancellableRequestState::new();
    let mut owner = StopOwner::new();
    let mut guard = OwnedStreamGuard::new(5u8);
    assert_eq!(guard.take_stream(), 5);
    guard.release(&mut state, &mut owner);
    assert!(owner.requests.is_empty());
}

#[test]
fn empty_request_body_is_not_sent() {
    assert!(body_to_send(Bytes::new()).is_none());
    assert_eq!(
        body_to_send(Bytes::from_static(b"x")),
        Some(Bytes::from_static(b"x"))
    );
}

fn open_stream(state: &mut CancellableRequestState) -> CancellableBytesStream<u8, u8> {
    CancellableBytesStream::new(CancellableH3Body::new(1, 2, state))
}

fn ready(step: NextStep<u8, u8, StreamError>) -> Delivered<u8, u8, StreamError> {
    match step {
        NextStep::Ready(delivered) => delivered,
        NextStep::Receive => panic!("the stream has ended"),
    }
}

#[test]
fn cancelled_body_reports_once_and_ends() {
    let mut state = CancellableRequestState::new();
    let mut owner = StopOwner::new();
    let mut stream = open_stream(&mut state);
    stream.cancel_handle(&mut state).cancel();

    let first = ready(stream.poll_next(&mut state, &mut owner));
    assert!(matches!(first.item, Some(Err(Error::Cancelled))));
    assert_eq!(first.retired.unwrap().stream, Some(1));
    let second = ready(stream.poll_next(&mut state, &mut owner));
    assert!(second.item.is_none());
    assert!(second.retired.is_none());
    assert_eq!(receive_stops(&owner), 1);
    assert_eq!(send_stops(&owner), 0);
}

#[test]
fn cancellation_while_receiving_drops_what_was_received() {
    let mut state = CancellableRequestState::new();
    let mut owner = StopOwner::new();
    let mut stream = open_stream(&mut state);
    assert!(matches!(
        stream.poll_next::<StreamError>(&mut state, &mut owner),
        NextStep::Receive
    ));
    stream.cancel_handle(&mut state).cancel();
    let delivered: Delivered<u8, u8, StreamError> = stream.on_received(
        &mut state,
        &mut owner,
        Received::Data(Bytes::from_static(b"late")),
    );
    assert!(matches!(delivered.item, Some(Err(Error::Cancelled))));
    assert_eq!(receive_stops(&owner), 1);
}

#[test]
fn cancellation_reported_elsewhere_only_ends_the_body() {
    let mut state = CancellableRequestState::new();
    let mut owner = StopOwner::new();
    let mut stream = open_stream(&mut state);
    stream.cancel_handle(&mut state).cancel();
    assert!(state.take_cancel_error_to_emit());
    assert!(ready(stream.poll_next(&mut state, &mut owner)).item.is_none());
}

#[test]
fn data_then_end_is_delivered_without_stops() {
    let mut state = CancellableRequestState::new();
    let mut owner = StopOwner::new();
    let mut stream = open_stream(&mut state);
    let delivered: Delivered<u8, u8, StreamError> = stream.on_received(
        &mut state,
        &mut owner,
        Received::Data(Bytes::from_static(b"chunk")),
    );
    match delivered.item {
        Some(Ok(bytes)) => assert_eq!(bytes, Bytes::from_static(b"chunk")),
        _ => panic!("the chunk is delivered"),
    }
    assert!(delivered.retired.is_none());
    let delivered: Delivered<u8, u8, StreamError> =
        stream.on_received(&mut state, &mut owner, Received::End);
    assert!(delivered.item.is_none());
    assert_eq!(state.phase, RequestPhase::Complete);
    assert!(stream.release(&mut state, &mut owner).is_none());
    assert!(owner.requests.is_empty());
}

#[test]
fn transport_failure_ends_the_body_with_an_error() {
    let mut state = CancellableRequestState::new();
    let mut owner = StopOwner::new();
    let mut stream = open_stream(&mut state);
    let error = StreamError::RemoteTerminate {
        code: Code::H3_INTERNAL_ERROR,
    };
    let delivered = stream.on_received(&mut state, &mut owner, Received::failed(error));
    assert!(matches!(
        delivered.item,
        Some(Err(Error::Transport(StreamError::RemoteTerminate { .. })))
    ));
    assert!(owner.requests.is_empty());
    assert!(ready(stream.poll_next(&mut state, &mut owner)).item.is_none());
}

#[test]
fn no_error_close_ends_the_body_quietly() {
    let mut state = CancellableRequestState::new();
    let mut owner = StopOwner::new();
    let mut stream = open_stream(&mut state);
    let error = StreamError::StreamError {
        code: Code::H3_NO_ERROR,
        reason: String::new(),
    };
    let delivered = stream.on_received(&mut state, &mut owner, Received::failed(error));
    assert!(delivered.item.is_none());
    assert!(state.recv_terminal);

    let mut stream = open_stream(&mut state);
    let reset = StreamError::RemoteTerminate {
        code: Code::H3_NO_ERROR,
    };
    let delivered = stream.on_received(&mut state, &mut owner, Received::failed(reset));
    assert!(matches!(delivered.item, Some(Err(Error::Transport(_)))));
}

#[test]
fn dropped_body_stops_the_receiving_direction() {
    let mut state = CancellableRequestState::new();
    let mut owner = StopOwner::new();
    let mut stream = open_stream(&mut state);
    let mut retired = stream.release(&mut state, &mut owner).unwrap();
    retired.cleanup_unfinished_response_body(&mut state, &mut owner);
    assert_eq!(receive_stops(&owner), 1);
    assert_eq!(send_stops(&owner), 0);
}

type TestBody = Body<u8, CancellableH3Body<u8, u8>>;

fn legacy(
    state: &mut CancellableRequestState,
) -> iroh_h3::body::LegacyCompatibleH3ResponseBody<CancellableH3Body<u8, u8>> {
    let body: TestBody = Body::cancellable_h3(CancellableH3Body::new(1, 2, state));
    match body.into_bytes() {
        BodyBytes::Collect(BodyStream::Legacy(legacy)) => legacy,
        _ => panic!("a response body has to be collected"),
    }
}

#[test]
fn legacy_body_does_not_notice_cancellation() {
    let mut state = CancellableRequestState::new();
    let mut body = legacy(&mut state);
    RequestCancelHandle::new(&mut state).cancel();
    assert!(body.poll_frame());
    let frame = body.on_frame::<StreamError>(
        &mut state,
        Received::Data(Bytes::from_static(b"hello")),
    );
    assert_eq!(frame.unwrap().unwrap(), Bytes::from_static(b"hello"));
    assert!(body.poll_frame());
}

#[test]
fn legacy_body_ends_and_is_not_stopped() {
    let mut state = CancellableRequestState::new();
    let mut owner = StopOwner::new();
    let mut body = legacy(&mut state);
    assert!(body
        .on_frame::<StreamError>(&mut state, Received::End)
        .is_none());
    assert!(!body.poll_frame());
    body.release(&mut state, &mut owner);
    assert!(owner.requests.is_empty());
    assert!(state.recv_terminal);
}

#[test]
fn legacy_body_reports_failures_but_not_a_quiet_close() {
    let mut state = CancellableRequestState::new();
    let mut body = legacy(&mut state);
    let frame = body.on_frame(&mut state, Received::failed(StreamError::RemoteClosing));
    assert!(matches!(
        frame,
        Some(Err(Error::Transport(StreamError::RemoteClosing)))
    ));
    assert!(!body.poll_frame());

    let mut body = legacy(&mut state);
    let quiet = StreamError::StreamError {
        code: Code::H3_NO_ERROR,
        reason: String::new(),
    };
    assert!(body.on_frame(&mut state, Received::failed(quiet)).is_none());
}

#[test]
fn dropped_legacy_body_stops_the_receiving_direction() {
    let mut state = CancellableRequestState::new();
    let mut owner = StopOwner::new();
    let mut body = legacy(&mut state);
    body.release(&mut state, &mut owner);
    body.release(&mut state, &mut owner);
    assert_eq!(receive_stops(&owner), 1);
    assert_eq!(send_stops(&owner), 0);
}

#[test]
fn legacy_body_is_collected_whole() {
    let mut state = CancellableRequestState::new();
    let mut owner = StopOwner::new();
    let mut body = legacy(&mut state);
    let mut collector = BodyCollector::new();
    for piece in [&b"hel"[..], b"lo"] {
        assert!(body.poll_frame());
        let received = Received::Data(Bytes::from_static(piece));
        let item = body.on_frame::<StreamError>(&mut state, received);
        assert!(collector.collect(item).is_none());
    }
    let item = body.on_frame::<StreamError>(&mut state, Received::End);
    let bytes = collector.collect(item).unwrap();
    assert_eq!(bytes.unwrap(), Bytes::from_static(b"hello"));
    body.release(&mut state, &mut owner);
    assert!(owner.requests.is_empty());
}

#[test]
fn each_side_is_stopped_once_over_a_whole_life() {
    let mut state = CancellableRequestState::new();
    let mut owner = StopOwner::new();
    let mut request = request_with_body_in_flight(&mut state);
    request.cancel_handle(&mut state).cancel();
    let mut guard = OwnedStreamGuard::new(());
    guard.release(&mut state, &mut owner);
    let mut stream = open_stream(&mut state);
    assert!(matches!(
        stream.poll_next::<StreamError>(&mut state, &mut owner),
        NextStep::Ready(_)
    ));
    stream.release(&mut state, &mut owner);
    state.apply_drop_cleanup_to_owner(&mut owner);
    assert_eq!(receive_stops(&owner), 1);
    assert_eq!(send_stops(&owner), 1);
}

#[test]
fn cancellation_is_permanent_and_only_a_handle_cancels() {
    let mut state = CancellableRequestState::new();
    state.mark_phase(RequestPhase::FinishingRequest);
    state.mark_send_finished();
    state.take_cancel_error_to_emit();
    assert!(!state.is_cancelled());
    RequestCancelHandle::new(&mut state).cancel();
    state.mark_recv_terminal();
    assert!(state.is_cancelled());
}

#[test]
fn cancellation_after_drop_cleanup_orders_nothing() {
    let mut state = CancellableRequestState::new();
    let mut owner = StopOwner::new();
    state.apply_drop_cleanup_to_owner(&mut owner);
    RequestCancelHandle::new(&mut state).cancel();
    state.apply_cancel_to_owner(&mut owner);
    assert_eq!(owner.requests.len(), 2);
}

#[test]
fn abandoned_request_fails_as_cancelled() {
    let mut state = CancellableRequestState::new();
    let mut request = new_request(b"");
    request.abandon();
    for _ in 0..2 {
        assert!(matches!(
            poll(&mut request, &mut state),
            PollStep::Ready(Error::Cancelled)
        ));
    }
}

fn piece(bytes: &'static [u8]) -> Received<StreamError> {
    Received::Data(Bytes::from_static(bytes))
}

#[test]
fn body_is_delivered_in_order_up_to_the_cancellation() {
    let mut state = CancellableRequestState::new();
    let mut owner = StopOwner::new();
    let mut stream = open_stream(&mut state);
    let mut pieces = Vec::new();
    for bytes in [&b"a"[..], b"b", b"c"] {
        assert!(matches!(
            stream.poll_next::<StreamError>(&mut state, &mut owner),
            NextStep::Receive
        ));
        match stream.on_received(&mut state, &mut owner, piece(bytes)).item {
            Some(Ok(bytes)) => pieces.push(bytes),
            _ => panic!("the piece is delivered"),
        }
    }
    stream.cancel_handle(&mut state).cancel();
    let late = stream.on_received(&mut state, &mut owner, piece(b"d"));
    assert!(matches!(late.item, Some(Err(Error::Cancelled))));
    assert!(ready(stream.poll_next(&mut state, &mut owner)).item.is_none());
    assert_eq!(pieces, vec!["a", "b", "c"]);
}

#[test]
fn legacy_body_is_delivered_in_order_whether_cancelled_or_not() {
    for cancelled_after in 0..4 {
        let mut state = CancellableRequestState::new();
        let mut body = legacy(&mut state);
        let mut pieces = Vec::new();
        for (index, bytes) in [&b"a"[..], b"b", b"c"].into_iter().enumerate() {
            if index == cancelled_after {
                RequestCancelHandle::new(&mut state).cancel();
            }
            assert!(body.poll_frame());
            match body.on_frame(&mut state, piece(bytes)) {
                Some(Ok(bytes)) => pieces.push(bytes),
                _ => panic!("the piece is delivered"),
            }
        }
        assert!(body
            .on_frame::<StreamError>(&mut state, Received::End)
            .is_none());
        assert!(!body.poll_frame());
        assert_eq!(pieces, vec!["a", "b", "c"]);
    }
}

#[test]
fn each_side_is_stopped_once_when_the_body_is_read_in_the_legacy_way() {
    let mut state = CancellableRequestState::new();
    let mut owner = StopOwner::new();
    let mut request = request_with_body_in_flight(&mut state);
    request.cancel_handle(&mut state).cancel();
    OwnedStreamGuard::new(()).release(&mut state, &mut owner);
    let mut body = legacy(&mut state);
    assert!(body.on_frame(&mut state, piece(b"x")).is_some());
    body.release(&mut state, &mut owner);
    body.release(&mut state, &mut owner);
    assert_eq!(receive_stops(&owner), 1);
    assert_eq!(send_stops(&owner), 1);
}
