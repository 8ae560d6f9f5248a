use httpx_transport::errors::{ErrorKind, TransportError};
use httpx_transport::extensions::{DynamicValue, ExtensionValue, TimeoutSetting};
use httpx_transport::response::{AbstractResponse, ResponseBody};
use httpx_transport::streaming::{BodyChunk, BodyInput, PushOutcome, StreamPoll};
use httpx_transport::transport::{
    build_native_request, dispatch, AbstractRequest, AsyncTransport, Dispatch, ResponseHead, Step,
    SyncTransport,
};
use httpx_transport::utils::{ExtensionsInput, HeaderInput};
use reqwest::header::{HeaderMap, HeaderName, HeaderValue};

fn text(s: &str) -> String {
    String::from(s)
}

fn request(method: &str, url: &str) -> AbstractRequest {
    AbstractRequest {
        method: text(method),
        url: text(url),
        headers: HeaderInput::Absent,
        content: BodyInput::Absent,
        extensions: ExtensionsInput::Absent,
    }
}

fn extensions_of(pairs: Vec<(&str, DynamicValue)>) -> ExtensionsInput {
    ExtensionsInput::Mapping(pairs.into_iter().map(|(key, value)| (text(key), value)).collect())
}

fn head(status: u16) -> ResponseHead {
    let mut headers = HeaderMap::new();
    headers.insert(HeaderName::from_static("content-type"), HeaderValue::from_static("text/plain"));
    ResponseHead { status, headers }
}

fn opaque() -> HeaderValue {
    HeaderValue::from_bytes(&[0xff]).expect("an opaque header value")
}

fn planned(outcome: Result<Dispatch, TransportError>) -> Dispatch {
    match outcome {
        Ok(plan) => plan,
        Err(err) => panic!("the request was rejected: {}", err.to_string()),
    }
}

fn pending(step: Step) -> httpx_transport::transport::PendingResponse {
    match step {
        Step::ReadBody(pending) => pending,
        Step::Done(_) => panic!("the request was done before its body was read"),
    }
}

fn done(step: Step) -> Result<AbstractResponse, TransportError> {
    match step {
        Step::Done(outcome) => outcome,
        Step::ReadBody(_) => panic!("the body was asked for"),
    }
}

#[test]
fn native_request_keeps_every_part() {
    let mut req = request("POST", "https://example.com/upload");
    req.headers = HeaderInput::Pairs(vec![vec![text("X-Token"), text("abc")]]);
    req.content = BodyInput::Chunks(vec![BodyChunk::Text(text("hel")), BodyChunk::Bytes(b"lo".to_vec())]);
    req.extensions = extensions_of(vec![("trace", DynamicValue::Int(1))]);
    let native = build_native_request(&req).ok().expect("a valid request");
    assert_eq!(native.method.as_str(), "POST");
    assert_eq!(native.url.as_str(), "https://example.com/upload");
    assert_eq!(native.headers.len(), 1);
    assert_eq!(native.headers.get("x-token").map(|value| value.as_bytes()), Some(&b"abc"[..]));
    assert_eq!(native.body, b"hello");
    assert!(matches!(native.extensions.get("trace"), Some(ExtensionValue::Int(1))));
}

#[test]
fn every_recognized_method_builds_a_request() {
    for method in ["GET", "HEAD", "POST", "PUT", "DELETE", "CONNECT", "OPTIONS", "TRACE", "PATCH", "PURGE"] {
        let native = build_native_request(&request(method, "http://example.com/")).ok().expect("a method");
        assert_eq!(native.method.as_str(), method);
    }
}

#[test]
fn unknown_method_fails_with_a_protocol_error() {
    for method in ["", "GET POST", "GÈT", "GET\r\n"] {
        let err = build_native_request(&request(method, "http://example.com/")).err().expect("no method");
        assert_eq!(err.kind(), ErrorKind::LocalProtocolError);
    }
    let err = build_native_request(&request("NO GOOD", "also bad")).err().expect("no method");
    assert_eq!(err.kind(), ErrorKind::LocalProtocolError);
    assert_eq!(err.detail(), "Invalid HTTP method: NO GOOD");
}

#[test]
fn malformed_url_fails_with_invalid_url() {
    for url in ["", "example.com/path", "/only/a/path", "http://", "://missing.scheme"] {
        let mut req = request("GET", url);
        req.headers = HeaderInput::Mapping(vec![(text("bad name"), text("v"))]);
        let err = build_native_request(&req).err().expect("no URL");
        assert_eq!(err.kind(), ErrorKind::InvalidURL);
    }
}

#[test]
fn well_formed_absolute_url_builds_a_request() {
    for url in ["http://example.com", "https://user:pw@example.com:8443/a/b?c=d#e", "http://[::1]:8000/", "ftp://files.example/"] {
        assert!(build_native_request(&request("GET", url)).is_ok());
    }
}

#[test]
fn header_fault_and_body_fault_fail_the_request_in_that_order() {
    let mut req = request("GET", "http://example.com/");
    req.headers = HeaderInput::Pairs(vec![vec![text("only-one")]]);
    req.content = BodyInput::Unsupported;
    let err = build_native_request(&req).err().expect("a header fault");
    assert_eq!(err.detail(), "Header tuples must have exactly 2 elements");
    req.headers = HeaderInput::Absent;
    let err = build_native_request(&req).err().expect("a body fault");
    assert_eq!(err.kind(), ErrorKind::LocalProtocolError);
    assert_eq!(err.detail(), "Body must be bytes, string, or iterator");
}

#[test]
fn dispatch_without_extensions_uses_the_clients_timeout_and_buffers() {
    let native = build_native_request(&request("GET", "http://example.com/")).ok().expect("valid");
    let plan = dispatch(native);
    assert_eq!(plan.timeout, None);
    assert!(!plan.streaming);
    assert_eq!(plan.request.method.as_str(), "GET");
}

#[test]
fn extensions_round_trip_with_timeout_and_stream() {
    let mut req = request("GET", "http://example.com/");
    req.extensions = extensions_of(vec![
        ("timeout", DynamicValue::Float(5.0f64.to_bits())),
        ("stream", DynamicValue::Bool(true)),
        ("custom", DynamicValue::Text(text("x"))),
    ]);
    let transport = AsyncTransport::new();
    let plan = planned(transport.handle_async_request(&req));
    assert_eq!(plan.timeout, Some(TimeoutSetting::FloatSeconds(5.0f64.to_bits())));
    assert!(plan.streaming);
    let response = done(transport.on_response(plan, Ok(head(200)))).ok().expect("a response");
    assert!(response.is_streamed());
    assert!(matches!(response.extensions.get("custom"), Some(ExtensionValue::Text(s)) if s == "x"));
    assert!(matches!(response.extensions.get("stream"), Some(ExtensionValue::Bool(true))));
    assert!(matches!(response.extensions.get("timeout"), Some(ExtensionValue::Float(bits)) if f64::from_bits(*bits) == 5.0));
    assert_eq!(response.extensions.len(), 3);
    match response.body {
        ResponseBody::Stream(mut stream) => {
            assert!(matches!(stream.read_chunk(), StreamPoll::Pending));
            assert!(matches!(stream.push(Ok(b"part".to_vec())), PushOutcome::Queued));
            assert!(matches!(stream.read_chunk(), StreamPoll::Chunk(bytes) if bytes == b"part"));
            stream.finish();
            assert!(matches!(stream.read_chunk(), StreamPoll::End));
        }
        _ => panic!("the response carries no stream"),
    }
}

#[test]
fn buffered_response_echoes_the_content_with_status_200() {
    let mut req = request("POST", "http://localhost:8000/echo");
    req.content = BodyInput::Bytes(b"hello".to_vec());
    let transport = AsyncTransport::new();
    let plan = planned(transport.handle_async_request(&req));
    assert!(!plan.streaming);
    assert_eq!(plan.request.body, b"hello");
    let echoed = plan.request.body.clone();
    let waiting = pending(transport.on_response(plan, Ok(head(200))));
    let response = transport.on_body(waiting, Ok(echoed)).ok().expect("a response");
    assert_eq!(response.status, 200);
    assert!(!response.is_streamed());
    assert!(matches!(&response.body, ResponseBody::Content(bytes) if bytes == b"hello" && bytes.len() == 5));
    assert_eq!(response.headers, vec![(text("content-type"), text("text/plain"))]);
}

#[test]
fn sync_buffered_response_echoes_the_content_with_status_200() {
    let mut req = request("POST", "http://localhost:8000/echo");
    req.content = BodyInput::Text(text("hello"));
    let transport = SyncTransport::new();
    let plan = planned(transport.handle_request(&req));
    let echoed = plan.request.body.clone();
    let waiting = pending(transport.on_response(plan, Ok(head(200))));
    let response = transport.on_body(waiting, Ok(echoed)).ok().expect("a response");
    assert_eq!(response.status, 200);
    assert!(matches!(&response.body, ResponseBody::Content(bytes) if bytes == b"hello"));
}

#[test]
fn send_failure_is_the_error_of_the_request() {
    let req = request("GET", "http://example.com/");
    let transport = AsyncTransport::new();
    let plan = planned(transport.handle_async_request(&req));
    let failed = Err(TransportError::ConnectTimeout(text("no answer")));
    let err = done(transport.on_response(plan, failed)).err().expect("the failure");
    assert_eq!(err.kind(), ErrorKind::ConnectTimeout);
    assert_eq!(err.detail(), "no answer");
    let transport = SyncTransport::new();
    let plan = planned(transport.handle_request(&req));
    let failed = Err(TransportError::ConnectError(text("refused")));
    let err = done(transport.on_response(plan, failed)).err().expect("the failure");
    assert_eq!(err.kind(), ErrorKind::ConnectError);
    assert_eq!(err.detail(), "refused");
}

#[test]
fn body_failure_is_the_error_of_a_buffered_request() {
    let req = request("GET", "http://example.com/");
    let transport = AsyncTransport::new();
    let plan = planned(transport.handle_async_request(&req));
    let waiting = pending(transport.on_response(plan, Ok(head(200))));
    let err = transport.on_body(waiting, Err(TransportError::RequestTimeout(text("slow")))).err().expect("the failure");
    assert_eq!(err.kind(), ErrorKind::RequestTimeout);
    let transport = SyncTransport::new();
    let plan = planned(transport.handle_request(&req));
    let mut bad = head(200);
    bad.headers.insert(HeaderName::from_static("x"), opaque());
    let waiting = pending(transport.on_response(plan, Ok(bad)));
    let err = transport.on_body(waiting, Err(TransportError::Other(text("cut")))).err().expect("the failure");
    assert_eq!(err.kind(), ErrorKind::Other);
    assert_eq!(err.detail(), "cut");
}

#[test]
fn sync_streaming_buffers_eagerly_and_surfaces_the_error_lazily() {
    let mut req = request("GET", "http://example.com/");
    req.extensions = extensions_of(vec![("stream", DynamicValue::Bool(true))]);
    let transport = SyncTransport::new();
    let plan = planned(transport.handle_request(&req));
    assert!(plan.streaming);
    let waiting = pending(transport.on_response(plan, Ok(head(206))));
    assert!(waiting.streaming);
    let response = transport.on_body(waiting, Ok(b"all of it".to_vec())).ok().expect("a response");
    assert_eq!(response.status, 206);
    match response.body {
        ResponseBody::SyncStream(mut stream) => {
            assert_eq!(stream.read_chunk().ok(), Some(Some(b"all of it".to_vec())));
            assert_eq!(stream.read_chunk().ok(), Some(None));
        }
        _ => panic!("the response carries no blocking stream"),
    }
    let plan = planned(transport.handle_request(&req));
    let waiting = pending(transport.on_response(plan, Ok(head(200))));
    let response = transport.on_body(waiting, Err(TransportError::ReadError(text("cut")))).ok().expect("a response");
    match response.body {
        ResponseBody::SyncStream(mut stream) => {
            let err = stream.read_chunk().err().expect("the failure of the read");
            assert_eq!(err.kind(), ErrorKind::ReadError);
            assert_eq!(stream.read_chunk().ok(), Some(None));
        }
        _ => panic!("the response carries no blocking stream"),
    }
}

#[test]
fn response_head_faults_are_remote_protocol_errors() {
    let mut req = request("GET", "http://example.com/");
    req.extensions = extensions_of(vec![("stream", DynamicValue::Bool(true))]);
    let transport = AsyncTransport::new();
    let plan = planned(transport.handle_async_request(&req));
    let err = done(transport.on_response(plan, Ok(head(600)))).err().expect("no status code");
    assert_eq!(err.kind(), ErrorKind::RemoteProtocolError);
    assert_eq!(err.detail(), "Status code out of range");
    let plan = planned(transport.handle_async_request(&request("GET", "http://example.com/")));
    let mut bad = head(200);
    bad.headers.insert(HeaderName::from_static("x"), opaque());
    let waiting = pending(transport.on_response(plan, Ok(bad)));
    let err = transport.on_body(waiting, Ok(vec![])).err().expect("an opaque value");
    assert_eq!(err.kind(), ErrorKind::RemoteProtocolError);
    assert_eq!(err.detail(), "Invalid header value: failed to convert header to a str");
}

#[test]
fn transports_are_built_from_the_defaults_and_close_is_a_no_op() {
    let first = AsyncTransport::new();
    let second = AsyncTransport::default();
    assert_eq!(first.config().timeout_secs, 30);
    assert_eq!(second.config().pool_max_idle_per_host, 64);
    assert_eq!(first.config().user_agent, second.config().user_agent);
    first.aclose();
    first.aclose();
    assert!(first.handle_async_request(&request("GET", "http://example.com/")).is_ok());
    let blocking = SyncTransport::default();
    assert_eq!(blocking.config().timeout_secs, 30);
    assert_eq!(blocking.config().pool_idle_timeout_secs, 90);
    blocking.close();
    assert!(blocking.handle_request(&request("GET", "http://example.com/")).is_ok());
}
