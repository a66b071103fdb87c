use bytes::Bytes;
use iroh_h3::body::{Body, BodyBytes, BodyCollector, BodyStream};
use iroh_h3::error::Error;

type TestBody = Body<&'static str, u8>;

fn ready(body: TestBody) -> Bytes {
    match body.into_bytes() {
        BodyBytes::Ready(bytes) => bytes,
        BodyBytes::Collect(_) => panic!("the bytes are fixed"),
    }
}

#[test]
fn non_cancellable_body_returns_body_not_cancellable() {
    let body = TestBody::bytes(Bytes::from_static(b"plain"));

    let result = body.into_cancellable_h3::<()>();

    assert!(matches!(result, Err(Error::BodyNotCancellable)));
}

#[test]
fn streaming_request_body_send_cancellable_returns_request_body_not_cancellable() {
    let body = TestBody::stream("x");

    let result = body.into_fixed_bytes_for_cancellable_request::<()>();

    assert!(matches!(result, Err(Error::RequestBodyNotCancellable)));
}

#[test]
fn cancellable_body_is_not_a_request_body() {
    let result = TestBody::cancellable_h3(3).into_fixed_bytes_for_cancellable_request::<()>();
    assert!(matches!(result, Err(Error::RequestBodyNotCancellable)));
    assert!(matches!(
        TestBody::cancellable_h3(3).into_cancellable_h3::<()>(),
        Ok(3)
    ));
    assert!(matches!(
        TestBody::stream("x").into_cancellable_h3::<()>(),
        Err(Error::BodyNotCancellable)
    ));
}

#[test]
fn fixed_body_keeps_its_bytes() {
    let body = TestBody::bytes(Bytes::from_static(b"hello-bytes"));
    assert_eq!(ready(body), Bytes::from_static(b"hello-bytes"));
    let body = TestBody::bytes(Bytes::from_static(b"hello-bytes"));
    let fixed = body.into_fixed_bytes_for_cancellable_request::<()>();
    assert_eq!(fixed.unwrap(), Bytes::from_static(b"hello-bytes"));
    assert!(ready(TestBody::empty()).is_empty());
    assert!(ready(TestBody::default()).is_empty());
}

#[test]
fn fixed_body_streams_as_one_chunk() {
    match TestBody::bytes(Bytes::from_static(b"hello")).into_stream() {
        BodyStream::Full(full) => {
            assert_eq!(full.into_inner(), Some(Bytes::from_static(b"hello")))
        }
        _ => panic!("fixed bytes are one chunk"),
    }
    match TestBody::empty().into_stream() {
        BodyStream::Full(full) => assert_eq!(full.into_inner(), None),
        _ => panic!("fixed bytes are one chunk"),
    }
}

#[test]
fn streaming_body_is_handed_on() {
    assert!(matches!(
        TestBody::stream("s").into_stream(),
        BodyStream::Stream("s")
    ));
    assert!(matches!(
        TestBody::stream("s").into_bytes(),
        BodyBytes::Collect(BodyStream::Stream("s"))
    ));
    match TestBody::cancellable_h3(9).into_stream() {
        BodyStream::Legacy(legacy) => assert_eq!(legacy.body, Some(9)),
        _ => panic!("a response body is read in the legacy way"),
    }
}

#[test]
fn take_leaves_an_empty_body() {
    let mut body = TestBody::bytes(Bytes::from_static(b"taken"));
    assert_eq!(ready(body.take()), Bytes::from_static(b"taken"));
    assert!(ready(body).is_empty());

    let mut body = TestBody::stream("s");
    assert!(matches!(body.take().into_stream(), BodyStream::Stream("s")));
    assert!(ready(body).is_empty());
}

#[test]
fn collector_joins_the_chunks() {
    let mut collector = BodyCollector::new();
    for chunk in [&b"hel"[..], b"", b"lo"] {
        let item = Some(Ok::<_, ()>(Bytes::from_static(chunk)));
        assert!(collector.collect(item).is_none());
    }
    let done = collector.collect::<()>(None);
    assert_eq!(done.unwrap().unwrap(), Bytes::from_static(b"hello"));
}

#[test]
fn collector_stops_at_the_first_failure() {
    let mut collector = BodyCollector::new();
    assert!(collector
        .collect(Some(Ok::<_, u8>(Bytes::from_static(b"x"))))
        .is_none());
    assert!(matches!(collector.collect(Some(Err(7u8))), Some(Err(7))));
}
