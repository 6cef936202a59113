//! Per-stream protocol state machine: the dispatcher reads the mandatory
//! first message and selects a phase handler by request path; the handler
//! then reacts to each further inbound message (or the end of the stream)
//! with a fixed sub-protocol, emitting instructions in order.
use crate::base64::{aligned, base64_of, Encoder};
use crate::headers::{add_set_header, get_header_value, new_error, spec_header_value, string_eq_str};
use crate::jsoncheck::{classify_body, spec_verdict, JsonVerdict};
use crate::message::{
    BodyMutation, BodyResponse, BodySendMode, CommonResponse, HeaderMutation, HeaderValue,
    HeadersResponse, HttpBody, HttpHeaders, ProcessingMode, ProcessingRequest, ProcessingResponse,
    ResponseKind, StreamEvent,
};
use vstd::prelude::*;

verus! {

/// Where a handler stands between inbound messages.
pub enum HandlerState {
    /// `/addHeader`: the request-headers reply went out; waiting to decorate
    /// the response headers.
    AwaitingAddHeaderResponseHeaders,
    /// `/checkJson` with a JSON content type: waiting for the buffered body.
    AwaitingJsonBody,
    /// `/checkJson`: waiting for the response headers to attach the verdict.
    AwaitingJsonResponseHeaders { valid: bool },
    /// `/echoencode`: re-encoding each response-body chunk for the rest of
    /// the stream.
    EchoEncoding { encoder: Encoder },
    /// Terminal: nothing further is ever emitted.
    Done,
}

/// Validity of a handler state: an encoder mid-stream satisfies its
/// invariant.
pub open spec fn state_wf(s: HandlerState) -> bool {
    match s {
        HandlerState::EchoEncoding { encoder } => encoder.wf(),
        _ => true,
    }
}

/// What the dispatcher hands back for one stream: the instructions to emit
/// right away, and the state the handler continues from (`Done` closes the
/// reply stream with nothing more).
pub struct DispatchOutcome {
    pub outputs: Vec<ProcessingResponse>,
    pub state: HandlerState,
}

/// `cr` carries exactly one "set header" instruction and nothing else.
pub open spec fn cr_sets_one(cr: CommonResponse, k: Seq<char>, v: Seq<char>) -> bool {
    &&& cr.header_mutation matches Some(hm) && hm.set_headers@.len() == 1
        && hm.set_headers@[0].key@ == k && hm.set_headers@[0].value@ == v
        && hm.remove_headers@.len() == 0
    &&& cr.body_mutation is None
}

/// A headers-phase reply (request phase when `request_phase`) whose only
/// instruction sets the one given header.
pub open spec fn sets_one_header_resp(
    p: ProcessingResponse,
    request_phase: bool,
    k: Seq<char>,
    v: Seq<char>,
) -> bool {
    if request_phase {
        p.response matches ResponseKind::RequestHeaders(hr) && hr.response matches Some(cr)
            && cr_sets_one(cr, k, v)
    } else {
        p.response matches ResponseKind::ResponseHeaders(hr) && hr.response matches Some(cr)
            && cr_sets_one(cr, k, v)
    }
}

/// A terminal reply carrying the given status and detail text.
pub open spec fn is_immediate(p: ProcessingResponse, status: int, details: Seq<char>) -> bool {
    &&& p.response matches ResponseKind::ImmediateResponse(im) && im.status == status
        && im.details@ == details
    &&& p.mode_override is None
}

/// An empty request-body reply: no mutation at all.
pub open spec fn is_plain_body_resp(p: ProcessingResponse) -> bool {
    &&& p.response matches ResponseKind::RequestBody(br) && br.response is None
    &&& p.mode_override is None
}

/// The mode override asking for the request body as one buffered message.
pub open spec fn is_buffered_request_mode(m: ProcessingMode) -> bool {
    m.request_body_mode is Buffered && m.response_body_mode is SendNone
}

/// The mode override asking for the response body as streamed chunks.
pub open spec fn is_streamed_response_mode(m: ProcessingMode) -> bool {
    m.request_body_mode is SendNone && m.response_body_mode is Streamed
}

/// The `/echoencode` response-headers reply: rewrite the path and drop
/// `content-length`, which re-encoding invalidates.
pub open spec fn is_echo_headers_resp(p: ProcessingResponse) -> bool {
    &&& p.response matches ResponseKind::ResponseHeaders(hr) && hr.response matches Some(cr)
        && cr.header_mutation matches Some(hm) && hm.set_headers@.len() == 1
        && hm.set_headers@[0].key@ == ":path"@ && hm.set_headers@[0].value@ == "/echo"@
        && hm.remove_headers@.len() == 1 && hm.remove_headers@[0]@ == "content-length"@
        && cr.body_mutation is None
    &&& p.mode_override is None
}

/// The `/echoencode` body reply: replace the chunk with its encoding.
pub open spec fn is_echo_body_resp(p: ProcessingResponse, enc: Seq<char>) -> bool {
    &&& p.response matches ResponseKind::ResponseBody(br) && br.response matches Some(cr)
        && cr.body_mutation matches Some(bm) && bm.body@ == enc && cr.header_mutation is None
    &&& p.mode_override is None
}

/// Everything the dispatcher promises about its outputs and the chosen
/// handler state, as a function of the first inbound message.
pub open spec fn dispatch_post(
    first: Option<ProcessingRequest>,
    outputs: Seq<ProcessingResponse>,
    post: HandlerState,
) -> bool {
    match first {
        Some(ProcessingRequest::RequestHeaders(h)) => {
            let path = spec_header_value(h.headers, ":path"@);
            if path == Some("/notfound"@) {
                &&& outputs.len() == 1
                &&& is_immediate(outputs[0], 404, "not found"@)
                &&& post is Done
            } else if path == Some("/addHeader"@) {
                &&& outputs.len() == 1
                &&& sets_one_header_resp(outputs[0], true, ":path"@, "/hello"@)
                &&& outputs[0].mode_override is None
                &&& post is AwaitingAddHeaderResponseHeaders
            } else if path == Some("/checkJson"@) {
                let json_mode = spec_header_value(h.headers, "content-type"@) == Some(
                    "application/json"@,
                );
                &&& outputs.len() == 1
                &&& sets_one_header_resp(outputs[0], true, ":path"@, "/echo"@)
                &&& if json_mode {
                    &&& outputs[0].mode_override matches Some(m) && is_buffered_request_mode(m)
                    &&& post is AwaitingJsonBody
                } else {
                    &&& outputs[0].mode_override is None
                    &&& post == (HandlerState::AwaitingJsonResponseHeaders { valid: false })
                }
            } else if path == Some("/echoencode"@) {
                &&& outputs.len() == 1
                &&& sets_one_header_resp(outputs[0], true, ":path"@, "/echo"@)
                &&& outputs[0].mode_override matches Some(m) && is_streamed_response_mode(m)
                &&& post matches HandlerState::EchoEncoding { encoder } && encoder@.leftovers
                    == Seq::<u8>::empty() && encoder@.seen == Seq::<u8>::empty()
                    && encoder@.emitted == Seq::<char>::empty()
            } else {
                outputs.len() == 0 && post is Done
            }
        },
        _ => outputs.len() == 0 && post is Done,
    }
}

/// Everything one handler step promises: as a function of the state left by
/// the dispatcher (or an earlier step) and of the next stream event, exactly
/// which instructions go out and which state the handler continues from.
pub open spec fn step_post(
    pre: HandlerState,
    event: StreamEvent,
    outputs: Seq<ProcessingResponse>,
    post: HandlerState,
) -> bool {
    match pre {
        HandlerState::Done => outputs.len() == 0 && post is Done,
        HandlerState::AwaitingAddHeaderResponseHeaders => {
            if event matches StreamEvent::Message(ProcessingRequest::ResponseHeaders(_)) {
                &&& outputs.len() == 1
                &&& sets_one_header_resp(
                    outputs[0],
                    false,
                    "x-external-processor-status"@,
                    "Powered by Rust!"@,
                )
                &&& outputs[0].mode_override is None
                &&& post is Done
            } else {
                outputs.len() == 0 && post is Done
            }
        },
        HandlerState::AwaitingJsonBody => {
            match event {
                StreamEvent::Message(ProcessingRequest::RequestBody(b)) => {
                    if spec_verdict(b.body@) is InvalidJson {
                        &&& outputs.len() == 1
                        &&& is_immediate(outputs[0], 400, "Invalid JSON"@)
                        &&& post is Done
                    } else {
                        &&& outputs.len() == 1
                        &&& is_plain_body_resp(outputs[0])
                        &&& post == (HandlerState::AwaitingJsonResponseHeaders {
                            valid: spec_verdict(b.body@) is ValidJson,
                        })
                    }
                },
                StreamEvent::Message(_) => {
                    &&& outputs.len() == 1
                    &&& is_plain_body_resp(outputs[0])
                    &&& post == (HandlerState::AwaitingJsonResponseHeaders { valid: false })
                },
                StreamEvent::EndOfInput => {
                    &&& outputs.len() == 1
                    &&& is_plain_body_resp(outputs[0])
                    &&& post is Done
                },
            }
        },
        HandlerState::AwaitingJsonResponseHeaders { valid } => {
            if event matches StreamEvent::Message(ProcessingRequest::ResponseHeaders(_)) {
                &&& outputs.len() == 1
                &&& sets_one_header_resp(
                    outputs[0],
                    false,
                    "x-json-status"@,
                    if valid {
                        "Valid JSON"@
                    } else {
                        "Not JSON"@
                    },
                )
                &&& outputs[0].mode_override is None
                &&& post is Done
            } else {
                outputs.len() == 0 && post is Done
            }
        },
        HandlerState::EchoEncoding { encoder } => {
            match event {
                StreamEvent::Message(ProcessingRequest::ResponseHeaders(_)) => {
                    &&& outputs.len() == 1
                    &&& is_echo_headers_resp(outputs[0])
                    &&& post == (HandlerState::EchoEncoding { encoder })
                },
                StreamEvent::Message(ProcessingRequest::ResponseBody(chunk)) => {
                    let total = encoder@.leftovers + chunk.body@;
                    &&& outputs.len() == 1
                    &&& if chunk.end_of_stream {
                        &&& is_echo_body_resp(outputs[0], base64_of(total))
                        &&& post matches HandlerState::EchoEncoding { encoder: e2 }
                            && e2@.leftovers == Seq::<u8>::empty() && e2@.seen
                            == Seq::<u8>::empty() && e2@.emitted == Seq::<char>::empty()
                    } else {
                        &&& is_echo_body_resp(
                            outputs[0],
                            base64_of(total.take(aligned(total.len() as int))),
                        )
                        &&& post matches HandlerState::EchoEncoding { encoder: e2 }
                            && e2@.leftovers == total.skip(aligned(total.len() as int))
                    }
                },
                StreamEvent::Message(_) => {
                    outputs.len() == 0 && post == (HandlerState::EchoEncoding { encoder })
                },
                StreamEvent::EndOfInput => outputs.len() == 0 && post is Done,
            }
        },
    }
}

/// Runs one handler step: reacts to the next stream event from `state`,
/// returning the instructions to emit, in order, and the state to continue
/// from. The reply stream closes when the inbound stream ends or the state
/// is terminal.
pub fn step(state: HandlerState, event: StreamEvent) -> (r: (
    Vec<ProcessingResponse>,
    HandlerState,
))
    requires
        state_wf(state),
    ensures
        step_post(state, event, r.0@, r.1),
        state_wf(r.1),
{
    match state {
        HandlerState::Done => (Vec::new(), HandlerState::Done),
        HandlerState::AwaitingAddHeaderResponseHeaders => {
            match event {
                StreamEvent::Message(ProcessingRequest::ResponseHeaders(_)) => {
                    let mut cr = CommonResponse { header_mutation: None, body_mutation: None };
                    add_set_header(&mut cr, "x-external-processor-status", "Powered by Rust!");
                    let mut outs: Vec<ProcessingResponse> = Vec::new();
                    outs.push(
                        ProcessingResponse {
                            response: ResponseKind::ResponseHeaders(
                                HeadersResponse { response: Some(cr) },
                            ),
                            mode_override: None,
                        },
                    );
                    (outs, HandlerState::Done)
                },
                _ => (Vec::new(), HandlerState::Done),
            }
        },
        HandlerState::AwaitingJsonBody => {
            match event {
                StreamEvent::Message(ProcessingRequest::RequestBody(b)) => {
                    match classify_body(b.body.as_slice()) {
                        JsonVerdict::InvalidJson => {
                            let mut outs: Vec<ProcessingResponse> = Vec::new();
                            outs.push(new_error(400, "Invalid JSON"));
                            (outs, HandlerState::Done)
                        },
                        JsonVerdict::ValidJson => {
                            let mut outs: Vec<ProcessingResponse> = Vec::new();
                            outs.push(
                                ProcessingResponse {
                                    response: ResponseKind::RequestBody(
                                        BodyResponse { response: None },
                                    ),
                                    mode_override: None,
                                },
                            );
                            (outs, HandlerState::AwaitingJsonResponseHeaders { valid: true })
                        },
                        JsonVerdict::NotUtf8 | JsonVerdict::TooLarge => {
                            let mut outs: Vec<ProcessingResponse> = Vec::new();
                            outs.push(
                                ProcessingResponse {
                                    response: ResponseKind::RequestBody(
                                        BodyResponse { response: None },
                                    ),
                                    mode_override: None,
                                },
                            );
                            (outs, HandlerState::AwaitingJsonResponseHeaders { valid: false })
                        },
                    }
                },
                StreamEvent::Message(_) => {
                    let mut outs: Vec<ProcessingResponse> = Vec::new();
                    outs.push(
                        ProcessingResponse {
                            response: ResponseKind::RequestBody(BodyResponse { response: None }),
                            mode_override: None,
                        },
                    );
                    (outs, HandlerState::AwaitingJsonResponseHeaders { valid: false })
                },
                StreamEvent::EndOfInput => {
                    let mut outs: Vec<ProcessingResponse> = Vec::new();
                    outs.push(
                        ProcessingResponse {
                            response: ResponseKind::RequestBody(BodyResponse { response: None }),
                            mode_override: None,
                        },
                    );
                    (outs, HandlerState::Done)
                },
            }
        },
        HandlerState::AwaitingJsonResponseHeaders { valid } => {
            match event {
                StreamEvent::Message(ProcessingRequest::ResponseHeaders(_)) => {
                    let mut cr = CommonResponse { header_mutation: None, body_mutation: None };
                    if valid {
                        add_set_header(&mut cr, "x-json-status", "Valid JSON");
                    } else {
                        add_set_header(&mut cr, "x-json-status", "Not JSON");
                    }
                    let mut outs: Vec<ProcessingResponse> = Vec::new();
                    outs.push(
                        ProcessingResponse {
                            response: ResponseKind::ResponseHeaders(
                                HeadersResponse { response: Some(cr) },
                            ),
                            mode_override: None,
                        },
                    );
                    (outs, HandlerState::Done)
                },
                _ => (Vec::new(), HandlerState::Done),
            }
        },
        HandlerState::EchoEncoding { mut encoder } => {
            match event {
                StreamEvent::Message(ProcessingRequest::ResponseHeaders(_)) => {
                    let mut set_headers: Vec<HeaderValue> = Vec::new();
                    set_headers.push(
                        HeaderValue { key: ":path".to_owned(), value: "/echo".to_owned() },
                    );
                    let mut remove_headers: Vec<String> = Vec::new();
                    remove_headers.push("content-length".to_owned());
                    let cr = CommonResponse {
                        header_mutation: Some(
                            HeaderMutation { set_headers, remove_headers },
                        ),
                        body_mutation: None,
                    };
                    let mut outs: Vec<ProcessingResponse> = Vec::new();
                    outs.push(
                        ProcessingResponse {
                            response: ResponseKind::ResponseHeaders(
                                HeadersResponse { response: Some(cr) },
                            ),
                            mode_override: None,
                        },
                    );
                    (outs, HandlerState::EchoEncoding { encoder })
                },
                StreamEvent::Message(ProcessingRequest::ResponseBody(chunk)) => {
                    let new_body = encoder.encode(chunk.body.as_slice(), chunk.end_of_stream);
                    let cr = CommonResponse {
                        header_mutation: None,
                        body_mutation: Some(BodyMutation { body: new_body }),
                    };
                    let mut outs: Vec<ProcessingResponse> = Vec::new();
                    outs.push(
                        ProcessingResponse {
                            response: ResponseKind::ResponseBody(
                                BodyResponse { response: Some(cr) },
                            ),
                            mode_override: None,
                        },
                    );
                    (outs, HandlerState::EchoEncoding { encoder })
                },
                StreamEvent::Message(_) => (Vec::new(), HandlerState::EchoEncoding { encoder }),
                StreamEvent::EndOfInput => (Vec::new(), HandlerState::Done),
            }
        },
    }
}

/// Fallthrough law: after `/addHeader`'s initial reply, any event other than
/// response headers produces no further output and ends the handler, so the
/// request-headers reply stays the only instruction ever emitted.
pub proof fn lemma_add_header_fallthrough(
    event: StreamEvent,
    outputs: Seq<ProcessingResponse>,
    post: HandlerState,
)
    requires
        step_post(HandlerState::AwaitingAddHeaderResponseHeaders, event, outputs, post),
        !(event matches StreamEvent::Message(ProcessingRequest::ResponseHeaders(_))),
    ensures
        outputs.len() == 0,
        post is Done,
{
}

/// JSON-checking law, positive: when the first message carries
/// `:path=/checkJson` and `content-type: application/json`, and the body
/// message that follows classifies as well-formed JSON, exactly three
/// replies go out, in order: the path rewrite asking for the body as one
/// buffered message, an empty request-body reply, and — on the response
/// headers — a response-headers reply setting `x-json-status: Valid JSON`.
/// The handler then ends, and (with the terminal law) no immediate response
/// is ever sent.
pub proof fn lemma_check_json_valid_flow(
    h: HttpHeaders,
    b: HttpBody,
    h2: HttpHeaders,
    o1: Seq<ProcessingResponse>,
    s1: HandlerState,
    o2: Seq<ProcessingResponse>,
    s2: HandlerState,
    o3: Seq<ProcessingResponse>,
    s3: HandlerState,
)
    requires
        spec_header_value(h.headers, ":path"@) == Some("/checkJson"@),
        spec_header_value(h.headers, "content-type"@) == Some("application/json"@),
        dispatch_post(Some(ProcessingRequest::RequestHeaders(h)), o1, s1),
        step_post(s1, StreamEvent::Message(ProcessingRequest::RequestBody(b)), o2, s2),
        step_post(s2, StreamEvent::Message(ProcessingRequest::ResponseHeaders(h2)), o3, s3),
        spec_verdict(b.body@) is ValidJson,
    ensures
        o1.len() == 1,
        sets_one_header_resp(o1[0], true, ":path"@, "/echo"@),
        o1[0].mode_override matches Some(m) && is_buffered_request_mode(m),
        o2.len() == 1,
        is_plain_body_resp(o2[0]),
        o3.len() == 1,
        sets_one_header_resp(o3[0], false, "x-json-status"@, "Valid JSON"@),
        o3[0].mode_override is None,
        s3 is Done,
{
    reveal_strlit("/notfound");
    reveal_strlit("/addHeader");
    reveal_strlit("/checkJson");
    assert("/checkJson"@.len() == 10 && "/notfound"@.len() == 9);
    assert("/checkJson"@[1] == 'c' && "/addHeader"@[1] == 'a');
    assert("/checkJson"@ != "/notfound"@);
    assert("/checkJson"@ != "/addHeader"@);
}

/// JSON-checking law, negative: same start, but the body message that
/// follows is valid UTF-8 that the JSON grammar rejects. After the path
/// rewrite, exactly one more reply goes out: the terminal immediate
/// response with status 400 and detail "Invalid JSON"; the handler ends at
/// once, so (with the terminal law) nothing else of any kind follows — in
/// particular no request-body or response-headers reply.
pub proof fn lemma_check_json_invalid_rejected(
    h: HttpHeaders,
    b: HttpBody,
    o1: Seq<ProcessingResponse>,
    s1: HandlerState,
    o2: Seq<ProcessingResponse>,
    s2: HandlerState,
)
    requires
        spec_header_value(h.headers, ":path"@) == Some("/checkJson"@),
        spec_header_value(h.headers, "content-type"@) == Some("application/json"@),
        dispatch_post(Some(ProcessingRequest::RequestHeaders(h)), o1, s1),
        step_post(s1, StreamEvent::Message(ProcessingRequest::RequestBody(b)), o2, s2),
        spec_verdict(b.body@) is InvalidJson,
    ensures
        o1.len() == 1,
        sets_one_header_resp(o1[0], true, ":path"@, "/echo"@),
        o1[0].mode_override matches Some(m) && is_buffered_request_mode(m),
        o2.len() == 1,
        is_immediate(o2[0], 400, "Invalid JSON"@),
        s2 is Done,
{
    reveal_strlit("/notfound");
    reveal_strlit("/addHeader");
    reveal_strlit("/checkJson");
    assert("/checkJson"@.len() == 10 && "/notfound"@.len() == 9);
    assert("/checkJson"@[1] == 'c' && "/addHeader"@[1] == 'a');
    assert("/checkJson"@ != "/notfound"@);
    assert("/checkJson"@ != "/addHeader"@);
}

/// Terminal law: a finished handler never emits again, whatever arrives.
pub proof fn lemma_done_quiescent(
    event: StreamEvent,
    outputs: Seq<ProcessingResponse>,
    post: HandlerState,
)
    requires
        step_post(HandlerState::Done, event, outputs, post),
    ensures
        outputs.len() == 0,
        post is Done,
{
}

/// The external-processing service: one dispatch per stream.
pub struct ExampleProcessor {}

impl ExampleProcessor {
    /// Reads the mandatory first message. Anything but request headers (or a
    /// stream that ended first) closes the reply stream empty; a recognized
    /// `:path` selects its handler and emits that handler's first replies; an
    /// unrecognized one closes the reply stream empty.
    pub fn process(&self, first: Option<ProcessingRequest>) -> (r: DispatchOutcome)
        ensures
            dispatch_post(first, r.outputs@, r.state),
            state_wf(r.state),
    {
        match first {
            Some(ProcessingRequest::RequestHeaders(h)) => {
                match get_header_value(&h.headers, ":path") {
                    Some(p) => {
                        if string_eq_str(p, "/notfound") {
                            let mut outs: Vec<ProcessingResponse> = Vec::new();
                            outs.push(new_error(404, "not found"));
                            DispatchOutcome { outputs: outs, state: HandlerState::Done }
                        } else if string_eq_str(p, "/addHeader") {
                            let mut cr = CommonResponse {
                                header_mutation: None,
                                body_mutation: None,
                            };
                            add_set_header(&mut cr, ":path", "/hello");
                            let mut outs: Vec<ProcessingResponse> = Vec::new();
                            outs.push(
                                ProcessingResponse {
                                    response: ResponseKind::RequestHeaders(
                                        HeadersResponse { response: Some(cr) },
                                    ),
                                    mode_override: None,
                                },
                            );
                            DispatchOutcome {
                                outputs: outs,
                                state: HandlerState::AwaitingAddHeaderResponseHeaders,
                            }
                        } else if string_eq_str(p, "/checkJson") {
                            let json_mode = match get_header_value(&h.headers, "content-type") {
                                Some(ct) => string_eq_str(ct, "application/json"),
                                None => false,
                            };
                            let mut cr = CommonResponse {
                                header_mutation: None,
                                body_mutation: None,
                            };
                            add_set_header(&mut cr, ":path", "/echo");
                            let mode_override = if json_mode {
                                Some(
                                    ProcessingMode {
                                        request_body_mode: BodySendMode::Buffered,
                                        response_body_mode: BodySendMode::SendNone,
                                    },
                                )
                            } else {
                                None
                            };
                            let mut outs: Vec<ProcessingResponse> = Vec::new();
                            outs.push(
                                ProcessingResponse {
                                    response: ResponseKind::RequestHeaders(
                                        HeadersResponse { response: Some(cr) },
                                    ),
                                    mode_override,
                                },
                            );
                            let state = if json_mode {
                                HandlerState::AwaitingJsonBody
                            } else {
                                HandlerState::AwaitingJsonResponseHeaders { valid: false }
                            };
                            DispatchOutcome { outputs: outs, state }
                        } else if string_eq_str(p, "/echoencode") {
                            let mut cr = CommonResponse {
                                header_mutation: None,
                                body_mutation: None,
                            };
                            add_set_header(&mut cr, ":path", "/echo");
                            let mut outs: Vec<ProcessingResponse> = Vec::new();
                            outs.push(
                                ProcessingResponse {
                                    response: ResponseKind::RequestHeaders(
                                        HeadersResponse { response: Some(cr) },
                                    ),
                                    mode_override: Some(
                                        ProcessingMode {
                                            request_body_mode: BodySendMode::SendNone,
                                            response_body_mode: BodySendMode::Streamed,
                                        },
                                    ),
                                },
                            );
                            DispatchOutcome {
                                outputs: outs,
                                state: HandlerState::EchoEncoding { encoder: Encoder::new() },
                            }
                        } else {
                            DispatchOutcome { outputs: Vec::new(), state: HandlerState::Done }
                        }
                    },
                    None => DispatchOutcome { outputs: Vec::new(), state: HandlerState::Done },
                }
            },
            _ => DispatchOutcome { outputs: Vec::new(), state: HandlerState::Done },
        }
    }
}

} // verus!
