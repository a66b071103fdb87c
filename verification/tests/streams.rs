use bytes::Bytes;
use h3::error::Code;
use h3::proto::frame::Frame;
use h3::quic::WriteBuf;
use iroh_h3::bidi_stream::BidiStream;
use iroh_h3::codes::{error_code, saturating_error_code, stream_id, VAR_INT_BOUND};
use iroh_h3::connection::{opened_bidi, opened_send, Connection, NumberedRecv, OpenStreams};
use iroh_h3::recv_stream::{Halted, RecvStream, RecvStreamState};
use iroh_h3::send_stream::{ReadyStep, SendStream};
use iroh_h3::stream_error::{
    convert_connection_error, convert_read_error_to_stream_error,
    convert_write_error_to_stream_error, ClosedStream, ConnectionError, ConnectionErrorIncoming,
    ReadError, StreamErrorIncoming, UnknownStreamError, WriteError,
};

const MARKER: &[u8] = b"unlock";

/// A QUIC stream for tests, and a read that has it.
#[derive(Clone, Debug, PartialEq)]
struct Quic(&'static str);
struct Read(Quic);

type TestRecv = RecvStream<Quic, Read>;

fn make_test_recv() -> TestRecv {
    RecvStream::new(Quic("stream"), 8)
}

/// Polls once: `Some` is what the reader gets at once, `None` that a read is in flight.
fn poll_once(recv: &mut TestRecv) -> Option<Result<Option<Bytes>, StreamErrorIncoming>> {
    match recv.poll_data(Read) {
        Some(_) => None,
        None => Some(Ok(None)),
    }
}

/// Polls, and lets the read in flight give `chunk`.
fn read(
    recv: &mut TestRecv,
    chunk: Result<Option<Bytes>, ReadError>,
) -> Result<Option<Bytes>, StreamErrorIncoming> {
    let stream = match recv.poll_data(Read) {
        Some(read) => read.0.clone(),
        None => panic!("a read is in flight"),
    };
    recv.on_chunk(stream, chunk)
}

fn drain_marker(recv: &mut TestRecv) {
    let marker = read(recv, Ok(Some(Bytes::from_static(MARKER))))
        .expect("marker read succeeds")
        .expect("marker chunk is present");
    assert_eq!(marker, Bytes::from_static(MARKER));
}

fn enter_reading(recv: &mut TestRecv) {
    drain_marker(recv);
    assert!(
        poll_once(recv).is_none(),
        "read with no available data should be pending"
    );
}

#[test]
fn reading_recv_id_and_stop_sending_do_not_panic() {
    let mut recv = make_test_recv();
    let recv_id = recv.recv_id();
    assert_eq!(recv_id, 8);
    enter_reading(&mut recv);

    assert_eq!(recv.recv_id(), recv_id);
    let stop = recv.stop_sending(42).expect("the stream is stopped");
    assert_eq!(stop.code, 42);
    assert!(matches!(
        stop.stream,
        Halted::Reading(Read(Quic("stream")))
    ));
    assert_eq!(recv.recv_id(), recv_id);
}

#[test]
fn reading_stop_then_next_poll_returns_none_immediately() {
    let mut recv = make_test_recv();
    enter_reading(&mut recv);

    recv.stop_sending(42);

    assert!(matches!(poll_once(&mut recv), Some(Ok(None))));
}

#[test]
fn idle_stop_then_poll_returns_none() {
    let mut recv = make_test_recv();

    let stop = recv.stop_sending(42).expect("client observes peer stop");

    assert!(matches!(stop.stream, Halted::Idle(Quic("stream"))));
    assert_eq!(stop.code, 42);
    assert!(matches!(poll_once(&mut recv), Some(Ok(None))));
}

#[test]
fn terminal_states_repeated_stop_sending_is_idempotent_for_valid_code() {
    let mut stopped = make_test_recv();
    stopped.stop_sending(42);
    assert!(stopped.stop_sending(42).is_none());
    assert!(matches!(poll_once(&mut stopped), Some(Ok(None))));

    let mut drained = make_test_recv();
    drain_marker(&mut drained);
    let eof = read(&mut drained, Ok(None)).expect("eof poll succeeds");
    assert!(eof.is_none());
    assert!(drained.stop_sending(42).is_none());
    assert!(drained.stop_sending(42).is_none());
    assert!(matches!(poll_once(&mut drained), Some(Ok(None))));
    assert!(matches!(drained.state, RecvStreamState::Drained));

    let mut failed = make_test_recv();
    drain_marker(&mut failed);
    let first_error = read(&mut failed, Err(ReadError::Reset(42)))
        .expect_err("first reset poll returns an error");
    assert!(matches!(
        first_error,
        StreamErrorIncoming::StreamTerminated { error_code: 42 }
    ));
    assert!(failed.stop_sending(42).is_none());
    assert!(failed.stop_sending(42).is_none());
    assert!(matches!(poll_once(&mut failed), Some(Ok(None))));
    assert!(matches!(failed.state, RecvStreamState::Failed));
}

#[test]
fn eof_then_repeated_poll_returns_none() {
    let mut recv = make_test_recv();
    drain_marker(&mut recv);

    let eof = read(&mut recv, Ok(None)).expect("eof poll succeeds");
    assert!(eof.is_none());

    assert!(matches!(poll_once(&mut recv), Some(Ok(None))));
    assert!(matches!(poll_once(&mut recv), Some(Ok(None))));
}

#[test]
fn peer_reset_first_error_then_repeated_poll_returns_none() {
    let mut recv = make_test_recv();
    drain_marker(&mut recv);

    let first_error = read(&mut recv, Err(ReadError::Reset(42)))
        .expect_err("first reset poll returns an error");
    assert!(matches!(
        first_error,
        StreamErrorIncoming::StreamTerminated { error_code: 42 }
    ));

    assert!(matches!(poll_once(&mut recv), Some(Ok(None))));
    assert!(matches!(poll_once(&mut recv), Some(Ok(None))));
}

#[test]
fn pending_read_is_kept_between_polls() {
    let mut recv = make_test_recv();
    assert!(poll_once(&mut recv).is_none());
    match recv.poll_data(|_| panic!("a read is in flight")) {
        Some(read) => assert_eq!(read.0, Quic("stream")),
        None => panic!("a read is in flight"),
    }
}

#[test]
fn chunks_arrive_in_order() {
    let mut recv = make_test_recv();
    for chunk in [&b"a"[..], b"b", b"c"] {
        let got = read(&mut recv, Ok(Some(Bytes::from_static(chunk)))).unwrap();
        assert_eq!(got, Some(Bytes::from_static(chunk)));
    }
}

/// The bytes of a data frame with this payload: its type, the payload's length, and the payload.
fn framed(payload: &[u8]) -> Vec<u8> {
    let mut bytes = vec![0x00, payload.len() as u8];
    bytes.extend_from_slice(payload);
    bytes
}

fn data_frame(payload: &'static [u8]) -> Frame<Bytes> {
    Frame::Data(Bytes::from_static(payload))
}

/// Gets the stream ready, the QUIC stream taking at most `max` bytes at a time.
fn write_all(send: &mut SendStream<Vec<u8>>, max: usize) {
    loop {
        let written = match send.poll_ready() {
            ReadyStep::Ready => return,
            ReadyStep::Write { stream, chunk } => {
                let count = max.min(chunk.len());
                stream.extend_from_slice(&chunk[..count]);
                count
            }
        };
        assert!(send.on_written(Ok(written)).is_ok());
    }
}

#[test]
fn queued_data_is_written_whole_however_it_is_cut() {
    for max in 1..9 {
        let mut send = SendStream::new(Vec::new());
        assert!(send.send_data(data_frame(b"hello")).is_ok());
        write_all(&mut send, max);
        assert_eq!(send.stream, framed(b"hello"));
        assert!(send.writing.is_none());
        assert!(send.send_data(data_frame(b"again")).is_ok());
        write_all(&mut send, max);
        let mut both = framed(b"hello");
        both.extend(framed(b"again"));
        assert_eq!(send.stream, both);
    }
}

#[test]
fn data_is_refused_while_other_data_is_written() {
    let mut send = SendStream::new(Vec::new());
    assert!(send.send_data(data_frame(b"first")).is_ok());
    match send.send_data(data_frame(b"second")) {
        Err(StreamErrorIncoming::ConnectionErrorIncoming {
            connection_error: ConnectionErrorIncoming::InternalError(message),
        }) => assert_eq!(message, "internal error in the http stack"),
        _ => panic!("another write is in progress"),
    }
    write_all(&mut send, 100);
    assert_eq!(send.stream, framed(b"first"));
}

#[test]
fn write_buffer_is_queued_as_it_is() {
    let mut send = SendStream::new(Vec::new());
    let buf: WriteBuf<Bytes> = data_frame(b"").into();
    assert!(send.send_data(buf).is_ok());
    write_all(&mut send, 1);
    assert_eq!(send.stream, framed(b""));
}

#[test]
fn failed_write_keeps_the_data() {
    let mut send = SendStream::new(Vec::new());
    assert!(matches!(send.poll_ready(), ReadyStep::Ready));
    assert!(send.send_data(data_frame(b"hello")).is_ok());
    assert!(matches!(
        send.on_written(Err(WriteError::Stopped(42))),
        Err(StreamErrorIncoming::StreamTerminated { error_code: 42 })
    ));
    write_all(&mut send, 3);
    assert_eq!(send.stream, framed(b"hello"));
}

#[test]
fn unframed_data_goes_straight_to_the_stream() {
    let mut send = SendStream::new(Vec::new());
    send.poll_send().extend_from_slice(b"raw");
    assert_eq!(send.stream, b"raw");
    assert!(matches!(send.on_sent(Ok(3)), Ok(3)));
    assert!(matches!(
        send.on_sent(Err(WriteError::ClosedStream)),
        Err(StreamErrorIncoming::Unknown(UnknownStreamError::Write(
            WriteError::ClosedStream
        )))
    ));
}

#[test]
fn finish_reports_a_closed_stream() {
    let send = SendStream::new(());
    assert!(send.on_finished(Ok(())).is_ok());
    assert!(matches!(
        send.on_finished(Err(ClosedStream)),
        Err(StreamErrorIncoming::Unknown(UnknownStreamError::Finish(
            ClosedStream
        )))
    ));
}

#[test]
fn codes_fit_a_variable_length_integer() {
    assert_eq!(VAR_INT_BOUND, 1 << 62);
    assert_eq!(error_code(42), 42);
    assert_eq!(error_code(VAR_INT_BOUND - 1), VAR_INT_BOUND - 1);
    assert_eq!(saturating_error_code(42), 42);
    assert_eq!(saturating_error_code(VAR_INT_BOUND), VAR_INT_BOUND - 1);
    assert_eq!(saturating_error_code(u64::MAX), VAR_INT_BOUND - 1);
    assert_eq!(stream_id(5), 5);
    assert_eq!(stream_id(VAR_INT_BOUND - 1), VAR_INT_BOUND - 1);
    assert_eq!(SendStream::new(()).reset(u64::MAX), VAR_INT_BOUND - 1);
    assert_eq!(SendStream::new(()).reset(7), 7);
    assert_eq!(SendStream::new(()).send_id(12), 12);
    assert_eq!(
        Code::H3_REQUEST_CANCELLED.value(),
        iroh_h3::codes::REQUEST_CANCEL_CODE
    );
}

#[test]
fn connection_errors_are_reported() {
    assert!(matches!(
        convert_connection_error(ConnectionError::ApplicationClosed { error_code: 0x100 }),
        ConnectionErrorIncoming::ApplicationClose { error_code: 0x100 }
    ));
    assert!(matches!(
        convert_connection_error(ConnectionError::TimedOut),
        ConnectionErrorIncoming::Timeout
    ));
    for error in [
        ConnectionError::VersionMismatch,
        ConnectionError::Reset,
        ConnectionError::LocallyClosed,
        ConnectionError::CidsExhausted,
    ] {
        let text = format!("{:?}", error);
        match convert_connection_error(error) {
            ConnectionErrorIncoming::Undefined(kept) => assert_eq!(format!("{:?}", kept), text),
            _ => panic!("the failure has no meaning to HTTP/3"),
        }
    }
}

#[test]
fn read_and_write_errors_are_reported() {
    assert!(matches!(
        convert_read_error_to_stream_error(ReadError::ConnectionLost(ConnectionError::TimedOut)),
        StreamErrorIncoming::ConnectionErrorIncoming {
            connection_error: ConnectionErrorIncoming::Timeout
        }
    ));
    assert!(matches!(
        convert_read_error_to_stream_error(ReadError::ClosedStream),
        StreamErrorIncoming::Unknown(UnknownStreamError::Read(ReadError::ClosedStream))
    ));
    assert!(matches!(
        convert_read_error_to_stream_error(ReadError::ZeroRttRejected),
        StreamErrorIncoming::Unknown(UnknownStreamError::Read(ReadError::ZeroRttRejected))
    ));
    assert!(matches!(
        convert_write_error_to_stream_error(WriteError::ConnectionLost(
            ConnectionError::ApplicationClosed { error_code: 3 }
        )),
        StreamErrorIncoming::ConnectionErrorIncoming {
            connection_error: ConnectionErrorIncoming::ApplicationClose { error_code: 3 }
        }
    ));
    assert!(matches!(
        convert_write_error_to_stream_error(WriteError::ZeroRttRejected),
        StreamErrorIncoming::Unknown(UnknownStreamError::Write(WriteError::ZeroRttRejected))
    ));
}

type TestConnection = Connection<&'static str, u8, u16, Vec<&'static str>, Vec<u32>>;

fn test_connection() -> TestConnection {
    Connection::new("conn", |_| 1, |_| 2)
}

#[test]
fn connection_starts_without_attempts() {
    let connection = test_connection();
    assert_eq!(connection.conn, "conn");
    assert_eq!(connection.incoming_bi, 1);
    assert_eq!(connection.incoming_uni, 2);
    assert!(connection.opening_bi.is_none());
    assert!(connection.opening_uni.is_none());
    assert_eq!(connection.close(0x100), 0x100);
}

#[test]
fn attempt_to_open_is_started_once() {
    let mut connection = test_connection();
    connection.poll_open_bidi(|conn| vec![conn]).push("polled");
    let again = connection.poll_open_bidi(|_| panic!("an attempt was made"));
    assert_eq!(*again, vec!["conn", "polled"]);
    connection.poll_open_send(|_| vec![7]);
    assert_eq!(connection.opening_uni, Some(vec![7]));

    let mut opener: OpenStreams<_, Vec<&'static str>, Vec<u32>> = connection.opener();
    assert!(opener.opening_bi.is_none() && opener.opening_uni.is_none());
    opener.poll_open_bidi(|conn| vec![conn]);
    opener.poll_open_send(|_| vec![8]).push(9);
    assert_eq!(opener.opening_uni, Some(vec![8, 9]));
    assert_eq!(opener.close(1), 1);

    let copy = opener.clone();
    assert_eq!(copy.conn, "conn");
    assert!(copy.opening_bi.is_none() && copy.opening_uni.is_none());
    assert!(opener.opening_bi.is_some());
}

fn numbered(number: u64) -> NumberedRecv<Quic> {
    NumberedRecv {
        stream: Quic("recv"),
        number,
    }
}

#[test]
fn accepted_streams_are_fresh() {
    let connection = test_connection();
    let bidi: BidiStream<Quic, Quic, Read> = connection
        .on_accepted_bidi(Ok((Quic("send"), numbered(4))))
        .unwrap_or_else(|_| panic!("a stream was accepted"));
    assert_eq!(bidi.recv_id(), 4);
    let (send, recv) = bidi.split();
    assert_eq!(send.stream, Quic("send"));
    assert!(send.writing.is_none());
    assert!(matches!(recv.state, RecvStreamState::Idle(Quic("recv"))));

    let recv: TestRecv = connection
        .on_accepted_recv(Ok(numbered(6)))
        .unwrap_or_else(|_| panic!("a stream was accepted"));
    assert_eq!(recv.recv_id(), 6);

    let lost = connection.on_accepted_recv::<Quic, Read>(Err(ConnectionError::TimedOut));
    assert!(matches!(lost, Err(ConnectionErrorIncoming::Timeout)));
    let lost =
        connection.on_accepted_bidi::<Quic, Quic, Read>(Err(ConnectionError::LocallyClosed));
    assert!(matches!(
        lost,
        Err(ConnectionErrorIncoming::Undefined(
            ConnectionError::LocallyClosed
        ))
    ));
}

#[test]
fn opened_streams_are_fresh() {
    let bidi = opened_bidi::<_, _, Read>(Ok((Quic("send"), numbered(0))));
    assert!(matches!(bidi, Ok(bidi) if bidi.recv_id() == 0));
    let send = opened_send(Ok(Quic("send")));
    assert!(matches!(send, Ok(send) if send.stream == Quic("send")));
    assert!(matches!(
        opened_send::<Quic>(Err(ConnectionError::TimedOut)),
        Err(StreamErrorIncoming::ConnectionErrorIncoming {
            connection_error: ConnectionErrorIncoming::Timeout
        })
    ));
    assert!(matches!(
        opened_bidi::<Quic, Quic, Read>(Err(ConnectionError::Reset)),
        Err(StreamErrorIncoming::ConnectionErrorIncoming {
            connection_error: ConnectionErrorIncoming::Undefined(ConnectionError::Reset)
        })
    ));
}

#[test]
fn halves_work_through_the_bidirectional_stream() {
    let mut bidi: BidiStream<Vec<u8>, Quic, Read> = BidiStream {
        send: SendStream::new(Vec::new()),
        recv: make_test_recv(),
    };
    assert_eq!(bidi.send_id(8), 8);
    assert_eq!(bidi.reset(u64::MAX), VAR_INT_BOUND - 1);
    assert!(bidi.send_data(data_frame(b"x")).is_ok());
    let written = match bidi.poll_ready() {
        ReadyStep::Write { stream, chunk } => {
            stream.extend_from_slice(chunk);
            chunk.len()
        }
        ReadyStep::Ready => panic!("data is queued"),
    };
    assert!(bidi.on_written(Ok(written)).is_ok());
    write_all(&mut bidi.send, 10);
    assert_eq!(bidi.send.stream, framed(b"x"));
    bidi.poll_send().push(1);
    assert!(matches!(bidi.on_sent(Ok(1)), Ok(1)));
    assert!(bidi.on_finished(Ok(())).is_ok());

    assert!(bidi.poll_data(Read).is_some());
    let chunk = bidi.on_chunk(Quic("stream"), Ok(Some(Bytes::from_static(b"y"))));
    assert_eq!(chunk.unwrap(), Some(Bytes::from_static(b"y")));
    assert_eq!(bidi.stop_sending(42).map(|stop| stop.code), Some(42));
    assert!(bidi.poll_data(Read).is_none());
}

#[test]
fn peer_is_told_once_whether_a_read_is_in_flight_or_not() {
    for polls in 0..3 {
        let mut recv = make_test_recv();
        for _ in 0..polls {
            assert!(poll_once(&mut recv).is_none());
        }
        assert_eq!(recv.stop_sending(42).map(|stop| stop.code), Some(42));
        assert!(matches!(poll_once(&mut recv), Some(Ok(None))));
        assert!(recv.stop_sending(43).is_none());
    }

    let mut bidi: BidiStream<Vec<u8>, Quic, Read> = BidiStream {
        send: SendStream::new(Vec::new()),
        recv: make_test_recv(),
    };
    assert!(bidi.poll_data(Read).is_some());
    assert_eq!(bidi.stop_sending(42).map(|stop| stop.code), Some(42));
}
