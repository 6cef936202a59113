//! Data model of one external-processing exchange: the typed messages the
//! proxy sends for each phase of an HTTP request/response, and the typed
//! instructions the service sends back.
use vstd::prelude::*;

verus! {

/// One HTTP header: a key/value pair. Keys are case-sensitive on the wire.
pub struct HeaderValue {
    pub key: String,
    pub value: String,
}

/// Ordered sequence of headers; lookup is linear and first match wins.
pub struct HeaderMap {
    pub headers: Vec<HeaderValue>,
}

/// The headers phase of a request or response.
pub struct HttpHeaders {
    pub headers: Option<HeaderMap>,
}

/// One chunk of body data.
pub struct HttpBody {
    pub body: Vec<u8>,
    pub end_of_stream: bool,
}

/// Inbound message from the proxy. Exactly one `RequestHeaders` starts every
/// stream; later variants arrive in an order the proxy controls.
pub enum ProcessingRequest {
    RequestHeaders(HttpHeaders),
    RequestBody(HttpBody),
    ResponseHeaders(HttpHeaders),
    ResponseBody(HttpBody),
}

/// What a handler observes from the inbound stream: the next message, or the
/// end of the stream.
pub enum StreamEvent {
    Message(ProcessingRequest),
    EndOfInput,
}

/// How a later body phase is to be delivered.
pub enum BodySendMode {
    SendNone,
    Streamed,
    Buffered,
    BufferedPartial,
}

/// One-shot override changing body delivery for the remainder of the stream.
pub struct ProcessingMode {
    pub request_body_mode: BodySendMode,
    pub response_body_mode: BodySendMode,
}

/// Ordered header-mutation instructions: pairs to set, names to remove.
pub struct HeaderMutation {
    pub set_headers: Vec<HeaderValue>,
    pub remove_headers: Vec<String>,
}

/// Replacement body content.
pub struct BodyMutation {
    pub body: String,
}

/// Mutations carried by a non-immediate response.
pub struct CommonResponse {
    pub header_mutation: Option<HeaderMutation>,
    pub body_mutation: Option<BodyMutation>,
}

/// Reply to a headers-phase message.
pub struct HeadersResponse {
    pub response: Option<CommonResponse>,
}

/// Reply to a body-phase message.
pub struct BodyResponse {
    pub response: Option<CommonResponse>,
}

/// Terminal instruction: answer the downstream caller directly with the given
/// status, bypassing the upstream target.
pub struct ImmediateResponse {
    pub status: i32,
    pub details: String,
}

/// The per-phase payload of an outbound message.
pub enum ResponseKind {
    RequestHeaders(HeadersResponse),
    ResponseHeaders(HeadersResponse),
    RequestBody(BodyResponse),
    ResponseBody(BodyResponse),
    ImmediateResponse(ImmediateResponse),
}

/// Outbound message to the proxy.
pub struct ProcessingResponse {
    pub response: ResponseKind,
    pub mode_override: Option<ProcessingMode>,
}

} // verus!
