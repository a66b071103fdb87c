use http::Uri;
use iroh_h3::error::{Error, MiddlewareError};
use iroh_h3::smart_timeout::{limited_result, SmartTimeout, TimeoutPlan};
use std::time::Duration;

/// Handles a request for `uri` by a service that takes `delay_ms`.
fn handle(timeout: &SmartTimeout, uri: &str, delay_ms: u64) -> Result<u16, Error<()>> {
    let uri: Uri = uri.parse().unwrap();
    let served = Ok(200);
    match timeout.plan(&uri) {
        TimeoutPlan::PassThrough => served,
        TimeoutPlan::Limit(limit) => {
            let in_time = Duration::from_millis(delay_ms) <= limit;
            limited_result(if in_time { Some(served) } else { None })
        }
    }
}

#[test]
fn normal_request_times_out() {
    let mw = SmartTimeout::new(Duration::from_millis(50));
    let result = handle(&mw, "/api/v1/ping", 200);
    assert!(result.is_err());
    assert!(matches!(
        result,
        Err(Error::Middleware(MiddlewareError::Timeout))
    ));
}

#[test]
fn normal_request_succeeds_within_timeout() {
    let mw = SmartTimeout::new(Duration::from_millis(200));
    let result = handle(&mw, "/api/v1/ping", 10);
    assert!(result.is_ok());
}

#[test]
fn exempt_prefix_bypasses_timeout() {
    let mw = SmartTimeout::new(Duration::from_millis(50)).exempt_prefix("/api/v1/xxx_stream");
    let result = handle(&mw, "/api/v1/xxx_stream?aaa=abc", 200);
    assert!(result.is_ok());
}

#[test]
fn non_matching_prefix_still_times_out() {
    let mw = SmartTimeout::new(Duration::from_millis(50)).exempt_prefix("/api/v1/xxx_stream");
    let result = handle(&mw, "/api/v1/get_library", 200);
    assert!(result.is_err());
}

#[test]
fn any_of_several_prefixes_exempts() {
    let mw = SmartTimeout::new(Duration::from_secs(3))
        .exempt_prefix("/audio")
        .exempt_prefix(String::from("/video"));
    assert_eq!(mw.exempt_prefixes, vec!["/audio", "/video"]);
    assert!(mw.is_exempt("/audio"));
    assert!(mw.is_exempt("/video/1"));
    assert!(!mw.is_exempt("/vide"));
    assert!(!mw.is_exempt("x/audio"));
    assert!(!mw.is_exempt(""));
    assert!(!SmartTimeout::new(Duration::ZERO).is_exempt("/audio"));
    assert!(SmartTimeout::new(Duration::ZERO)
        .exempt_prefix("")
        .is_exempt(""));
}

#[test]
fn only_the_path_of_a_uri_counts() {
    let mw = SmartTimeout::new(Duration::from_secs(3)).exempt_prefix("/audio");
    let uri: Uri = "http://example.org/audio/x?y=z".parse().unwrap();
    assert!(matches!(mw.plan(&uri), TimeoutPlan::PassThrough));
    let uri: Uri = "/x?/audio".parse().unwrap();
    match mw.plan(&uri) {
        TimeoutPlan::Limit(limit) => assert_eq!(limit, Duration::from_secs(3)),
        TimeoutPlan::PassThrough => panic!("the query is no path"),
    }
}

#[test]
fn result_in_time_is_kept() {
    assert!(matches!(
        limited_result::<u8, ()>(Some(Err(Error::Cancelled))),
        Err(Error::Cancelled)
    ));
    assert!(matches!(limited_result::<u8, ()>(Some(Ok(4))), Ok(4)));
}
