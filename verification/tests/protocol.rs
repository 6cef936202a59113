use ext_proc::message::{
    BodySendMode, HeaderMap, HeaderValue, HttpBody, HttpHeaders, ProcessingRequest,
    ProcessingResponse, ResponseKind, StreamEvent,
};
use ext_proc::headers::{add_set_header, get_header_value, new_error};
use ext_proc::message::CommonResponse;
use ext_proc::service::{ExampleProcessor, HandlerState};

fn headers_of(pairs: &[(&str, &str)]) -> HttpHeaders {
    let mut hs: Vec<HeaderValue> = Vec::new();
    for (k, v) in pairs {
        hs.push(HeaderValue { key: (*k).to_owned(), value: (*v).to_owned() });
    }
    HttpHeaders { headers: Some(HeaderMap { headers: hs }) }
}

fn first_message(path: &str) -> Option<ProcessingRequest> {
    Some(ProcessingRequest::RequestHeaders(headers_of(&[(":path", path)])))
}

fn only_set_header(resp: &ProcessingResponse) -> (String, String) {
    let cr = match &resp.response {
        ResponseKind::RequestHeaders(hr) => hr.response.as_ref().unwrap(),
        ResponseKind::ResponseHeaders(hr) => hr.response.as_ref().unwrap(),
        _ => panic!("not a headers response"),
    };
    let hm = cr.header_mutation.as_ref().unwrap();
    assert_eq!(hm.set_headers.len(), 1);
    (hm.set_headers[0].key.clone(), hm.set_headers[0].value.clone())
}

#[test]
fn test_not_found_immediate_response() {
    let p = ExampleProcessor {};
    let r = p.process(first_message("/notfound"));
    assert_eq!(r.outputs.len(), 1);
    match &r.outputs[0].response {
        ResponseKind::ImmediateResponse(im) => {
            assert_eq!(im.status, 404);
            assert_eq!(im.details, "not found");
        }
        _ => panic!("expected an immediate response"),
    }
    assert!(matches!(r.state, HandlerState::Done));
}

#[test]
fn test_unknown_path_closes_stream_empty() {
    let p = ExampleProcessor {};
    let r = p.process(first_message("/somewhere"));
    assert_eq!(r.outputs.len(), 0);
    assert!(matches!(r.state, HandlerState::Done));
}

#[test]
fn test_missing_first_message_closes_stream_empty() {
    let p = ExampleProcessor {};
    let r = p.process(None);
    assert_eq!(r.outputs.len(), 0);
    assert!(matches!(r.state, HandlerState::Done));
}

#[test]
fn test_wrong_first_message_closes_stream_empty() {
    let p = ExampleProcessor {};
    let r = p.process(Some(ProcessingRequest::RequestBody(HttpBody {
        body: b"x".to_vec(),
        end_of_stream: true,
    })));
    assert_eq!(r.outputs.len(), 0);
    assert!(matches!(r.state, HandlerState::Done));
}

#[test]
fn test_missing_path_closes_stream_empty() {
    let p = ExampleProcessor {};
    let r = p.process(Some(ProcessingRequest::RequestHeaders(headers_of(&[(
        "content-type",
        "text/plain",
    )]))));
    assert_eq!(r.outputs.len(), 0);
    assert!(matches!(r.state, HandlerState::Done));
}

#[test]
fn test_add_header_rewrites_path_then_decorates_response() {
    let p = ExampleProcessor {};
    let r = p.process(first_message("/addHeader"));
    assert_eq!(r.outputs.len(), 1);
    let (k, v) = only_set_header(&r.outputs[0]);
    assert_eq!((k.as_str(), v.as_str()), (":path", "/hello"));
    assert!(r.outputs[0].mode_override.is_none());
    assert!(matches!(&r.outputs[0].response, ResponseKind::RequestHeaders(_)));

    let (outs, state) = ext_proc::service::step(
        r.state,
        StreamEvent::Message(ProcessingRequest::ResponseHeaders(headers_of(&[]))),
    );
    assert_eq!(outs.len(), 1);
    let (k, v) = only_set_header(&outs[0]);
    assert_eq!(
        (k.as_str(), v.as_str()),
        ("x-external-processor-status", "Powered by Rust!")
    );
    assert!(matches!(&outs[0].response, ResponseKind::ResponseHeaders(_)));
    assert!(matches!(state, HandlerState::Done));
}

#[test]
fn test_add_header_fallthrough_on_wrong_message() {
    let p = ExampleProcessor {};
    let r = p.process(first_message("/addHeader"));
    assert_eq!(r.outputs.len(), 1);
    let (outs, state) = ext_proc::service::step(
        r.state,
        StreamEvent::Message(ProcessingRequest::RequestBody(HttpBody {
            body: b"x".to_vec(),
            end_of_stream: true,
        })),
    );
    assert_eq!(outs.len(), 0);
    assert!(matches!(state, HandlerState::Done));
    let (outs, state) = ext_proc::service::step(state, StreamEvent::EndOfInput);
    assert_eq!(outs.len(), 0);
    assert!(matches!(state, HandlerState::Done));
}

#[test]
fn test_check_json_valid_body_flow() {
    let p = ExampleProcessor {};
    let r = p.process(Some(ProcessingRequest::RequestHeaders(headers_of(&[
        (":path", "/checkJson"),
        ("content-type", "application/json"),
    ]))));
    assert_eq!(r.outputs.len(), 1);
    let (k, v) = only_set_header(&r.outputs[0]);
    assert_eq!((k.as_str(), v.as_str()), (":path", "/echo"));
    let mode = r.outputs[0].mode_override.as_ref().unwrap();
    assert!(matches!(mode.request_body_mode, BodySendMode::Buffered));
    assert!(matches!(mode.response_body_mode, BodySendMode::SendNone));

    let (outs, state) = ext_proc::service::step(
        r.state,
        StreamEvent::Message(ProcessingRequest::RequestBody(HttpBody {
            body: b"{\"a\":1}".to_vec(),
            end_of_stream: true,
        })),
    );
    assert_eq!(outs.len(), 1);
    match &outs[0].response {
        ResponseKind::RequestBody(br) => assert!(br.response.is_none()),
        _ => panic!("expected a request-body response"),
    }

    let (outs, state) = ext_proc::service::step(
        state,
        StreamEvent::Message(ProcessingRequest::ResponseHeaders(headers_of(&[]))),
    );
    assert_eq!(outs.len(), 1);
    let (k, v) = only_set_header(&outs[0]);
    assert_eq!((k.as_str(), v.as_str()), ("x-json-status", "Valid JSON"));
    assert!(matches!(state, HandlerState::Done));
}

#[test]
fn test_check_json_malformed_body_rejected() {
    let p = ExampleProcessor {};
    let r = p.process(Some(ProcessingRequest::RequestHeaders(headers_of(&[
        (":path", "/checkJson"),
        ("content-type", "application/json"),
    ]))));
    assert_eq!(r.outputs.len(), 1);
    let (outs, state) = ext_proc::service::step(
        r.state,
        StreamEvent::Message(ProcessingRequest::RequestBody(HttpBody {
            body: b"{\"a\":".to_vec(),
            end_of_stream: true,
        })),
    );
    assert_eq!(outs.len(), 1);
    match &outs[0].response {
        ResponseKind::ImmediateResponse(im) => {
            assert_eq!(im.status, 400);
            assert_eq!(im.details, "Invalid JSON");
        }
        _ => panic!("expected an immediate response"),
    }
    assert!(matches!(state, HandlerState::Done));
    let (outs, state) = ext_proc::service::step(state, StreamEvent::EndOfInput);
    assert_eq!(outs.len(), 0);
    assert!(matches!(state, HandlerState::Done));
}

#[test]
fn test_check_json_body_not_utf8_is_not_json() {
    let p = ExampleProcessor {};
    let r = p.process(Some(ProcessingRequest::RequestHeaders(headers_of(&[
        (":path", "/checkJson"),
        ("content-type", "application/json"),
    ]))));
    let (outs, state) = ext_proc::service::step(
        r.state,
        StreamEvent::Message(ProcessingRequest::RequestBody(HttpBody {
            body: vec![0xff, 0xfe],
            end_of_stream: true,
        })),
    );
    assert_eq!(outs.len(), 1);
    assert!(matches!(&outs[0].response, ResponseKind::RequestBody(_)));
    let (outs, _) = ext_proc::service::step(
        state,
        StreamEvent::Message(ProcessingRequest::ResponseHeaders(headers_of(&[]))),
    );
    let (k, v) = only_set_header(&outs[0]);
    assert_eq!((k.as_str(), v.as_str()), ("x-json-status", "Not JSON"));
}

#[test]
fn test_check_json_without_json_content_type() {
    let p = ExampleProcessor {};
    let r = p.process(Some(ProcessingRequest::RequestHeaders(headers_of(&[
        (":path", "/checkJson"),
        ("content-type", "text/plain"),
    ]))));
    assert_eq!(r.outputs.len(), 1);
    assert!(r.outputs[0].mode_override.is_none());
    assert!(matches!(
        r.state,
        HandlerState::AwaitingJsonResponseHeaders { valid: false }
    ));
    let (outs, state) = ext_proc::service::step(
        r.state,
        StreamEvent::Message(ProcessingRequest::ResponseHeaders(headers_of(&[]))),
    );
    assert_eq!(outs.len(), 1);
    let (k, v) = only_set_header(&outs[0]);
    assert_eq!((k.as_str(), v.as_str()), ("x-json-status", "Not JSON"));
    assert!(matches!(state, HandlerState::Done));
}

#[test]
fn test_echo_encode_flow() {
    let p = ExampleProcessor {};
    let r = p.process(first_message("/echoencode"));
    assert_eq!(r.outputs.len(), 1);
    let (k, v) = only_set_header(&r.outputs[0]);
    assert_eq!((k.as_str(), v.as_str()), (":path", "/echo"));
    let mode = r.outputs[0].mode_override.as_ref().unwrap();
    assert!(matches!(mode.response_body_mode, BodySendMode::Streamed));
    assert!(matches!(mode.request_body_mode, BodySendMode::SendNone));

    // Response headers: rewrite the path and strip content-length.
    let (outs, state) = ext_proc::service::step(
        r.state,
        StreamEvent::Message(ProcessingRequest::ResponseHeaders(headers_of(&[(
            "content-length",
            "5",
        )]))),
    );
    assert_eq!(outs.len(), 1);
    match &outs[0].response {
        ResponseKind::ResponseHeaders(hr) => {
            let cr = hr.response.as_ref().unwrap();
            let hm = cr.header_mutation.as_ref().unwrap();
            assert_eq!(hm.set_headers.len(), 1);
            assert_eq!(hm.set_headers[0].key, ":path");
            assert_eq!(hm.set_headers[0].value, "/echo");
            assert_eq!(hm.remove_headers, vec!["content-length".to_owned()]);
        }
        _ => panic!("expected a response-headers response"),
    }

    // Two body chunks, the second final: together they encode "abcde".
    let (outs, state) = ext_proc::service::step(
        state,
        StreamEvent::Message(ProcessingRequest::ResponseBody(HttpBody {
            body: b"abcd".to_vec(),
            end_of_stream: false,
        })),
    );
    assert_eq!(outs.len(), 1);
    match &outs[0].response {
        ResponseKind::ResponseBody(br) => {
            let cr = br.response.as_ref().unwrap();
            assert_eq!(cr.body_mutation.as_ref().unwrap().body, "YWJj");
        }
        _ => panic!("expected a response-body response"),
    }
    let (outs, state) = ext_proc::service::step(
        state,
        StreamEvent::Message(ProcessingRequest::ResponseBody(HttpBody {
            body: b"e".to_vec(),
            end_of_stream: true,
        })),
    );
    assert_eq!(outs.len(), 1);
    match &outs[0].response {
        ResponseKind::ResponseBody(br) => {
            let cr = br.response.as_ref().unwrap();
            assert_eq!(cr.body_mutation.as_ref().unwrap().body, "ZGU=");
        }
        _ => panic!("expected a response-body response"),
    }

    // Other message kinds are ignored; the stream's end finishes the loop.
    let (outs, state) = ext_proc::service::step(
        state,
        StreamEvent::Message(ProcessingRequest::RequestBody(HttpBody {
            body: b"x".to_vec(),
            end_of_stream: false,
        })),
    );
    assert_eq!(outs.len(), 0);
    assert!(matches!(state, HandlerState::EchoEncoding { .. }));
    let (outs, state) = ext_proc::service::step(state, StreamEvent::EndOfInput);
    assert_eq!(outs.len(), 0);
    assert!(matches!(state, HandlerState::Done));
}

#[test]
fn test_get_header_value_first_match_wins() {
    let h = headers_of(&[("a", "1"), ("b", "2"), ("a", "3")]);
    assert_eq!(get_header_value(&h.headers, "a").unwrap(), "1");
    assert_eq!(get_header_value(&h.headers, "b").unwrap(), "2");
    assert!(get_header_value(&h.headers, "c").is_none());
    assert!(get_header_value(&None, "a").is_none());
}

#[test]
fn test_add_set_header_appends() {
    let mut cr = CommonResponse { header_mutation: None, body_mutation: None };
    add_set_header(&mut cr, "k1", "v1");
    add_set_header(&mut cr, "k2", "v2");
    let hm = cr.header_mutation.as_ref().unwrap();
    assert_eq!(hm.set_headers.len(), 2);
    assert_eq!(hm.set_headers[0].key, "k1");
    assert_eq!(hm.set_headers[0].value, "v1");
    assert_eq!(hm.set_headers[1].key, "k2");
    assert_eq!(hm.set_headers[1].value, "v2");
    assert!(hm.remove_headers.is_empty());
    assert!(cr.body_mutation.is_none());
}

#[test]
fn test_new_error_fields() {
    let r = new_error(503, "unavailable");
    match &r.response {
        ResponseKind::ImmediateResponse(im) => {
            assert_eq!(im.status, 503);
            assert_eq!(im.details, "unavailable");
        }
        _ => panic!("expected an immediate response"),
    }
    assert!(r.mode_override.is_none());
}

#[test]
fn test_check_json_oversized_body_is_not_parsed() {
    // A number with 32769 fraction digits would underflow the JSON parser's
    // i16 exponent counter; the library must classify it without parsing.
    let mut body = b"0.".to_vec();
    body.extend(std::iter::repeat(b'0').take(32769));
    assert_eq!(body.len(), 32771);
    let p = ExampleProcessor {};
    let r = p.process(Some(ProcessingRequest::RequestHeaders(headers_of(&[
        (":path", "/checkJson"),
        ("content-type", "application/json"),
    ]))));
    let (outs, state) = ext_proc::service::step(
        r.state,
        StreamEvent::Message(ProcessingRequest::RequestBody(HttpBody {
            body,
            end_of_stream: true,
        })),
    );
    assert_eq!(outs.len(), 1);
    assert!(matches!(&outs[0].response, ResponseKind::RequestBody(_)));
    let (outs, _) = ext_proc::service::step(
        state,
        StreamEvent::Message(ProcessingRequest::ResponseHeaders(headers_of(&[]))),
    );
    let (k, v) = only_set_header(&outs[0]);
    assert_eq!((k.as_str(), v.as_str()), ("x-json-status", "Not JSON"));
}

#[test]
fn test_check_json_longest_admitted_body_is_parsed() {
    // At the admitted maximum of 32770 bytes the parser's counter lands
    // exactly on the i16 minimum: still parsed, and valid JSON.
    let mut body = b"0.".to_vec();
    body.extend(std::iter::repeat(b'0').take(32768));
    assert_eq!(body.len(), 32770);
    let p = ExampleProcessor {};
    let r = p.process(Some(ProcessingRequest::RequestHeaders(headers_of(&[
        (":path", "/checkJson"),
        ("content-type", "application/json"),
    ]))));
    let (outs, state) = ext_proc::service::step(
        r.state,
        StreamEvent::Message(ProcessingRequest::RequestBody(HttpBody {
            body,
            end_of_stream: true,
        })),
    );
    assert_eq!(outs.len(), 1);
    assert!(matches!(&outs[0].response, ResponseKind::RequestBody(_)));
    let (outs, _) = ext_proc::service::step(
        state,
        StreamEvent::Message(ProcessingRequest::ResponseHeaders(headers_of(&[]))),
    );
    let (k, v) = only_set_header(&outs[0]);
    assert_eq!((k.as_str(), v.as_str()), ("x-json-status", "Valid JSON"));
}
