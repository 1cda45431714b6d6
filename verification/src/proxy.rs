//! Routing a request to a worker and relaying the worker's answer.
//!
//! The front end buffers the request, has a worker picked for it, forwards it and streams
//! the answer back. The pick books load on the worker, and the booking has to be released
//! when the exchange is over. An exchange in progress is a [`ProxyStep`]: it says what is
//! to be done next. Whoever drives it does that and hands the outcome to
//! [`ProxyStep::resume`].
use crate::config::FrontendConfig;
use crate::headers::{read_request_id, read_text_headers, reads_disaggregated, Header, RawHeader};
#[allow(unused_imports)]
use crate::headers::{announces_disaggregated, given_request_id, headers_view, raw_headers_view, text_headers};
use crate::json::{json_object, json_string};
#[allow(unused_imports)]
use crate::json::{json_view, members_of, JsonView};
#[allow(unused_imports)]
use crate::text::opt_view;
use vstd::prelude::*;

verus! {

/// How much of a request body is buffered at most. Routing needs the whole body, so this
/// bounds the memory of a request in flight.
pub const MAX_BODY_BYTES: usize = 16 * 1024 * 1024;

/// The status codes that the front end itself answers with.
pub const BAD_REQUEST: u16 = 400;

pub const INTERNAL_SERVER_ERROR: u16 = 500;

pub const BAD_GATEWAY: u16 = 502;

pub const SERVICE_UNAVAILABLE: u16 = 503;

/// Where a request came in and by which scheme it goes on.
pub struct Inbound {
    pub upstream_scheme: String,
    pub path: String,
}

/// A request as a picker sees it.
pub struct RequestInfo {
    pub request_id: String,
    pub headers: Vec<Header>,
    pub body: Vec<u8>,
    /// The model that the body asks for.
    pub model: Option<String>,
    /// The endpoints to choose from. An empty list stands for all that are ready.
    pub candidate_subset: Vec<String>,
}

/// The worker that a picker chose.
pub struct PickResult {
    pub endpoint: String,
    /// The routing headers that go with the request.
    pub headers: Vec<Header>,
    /// The tokens of the request, where the picker made them.
    pub token_ids: Option<Vec<u32>>,
}

/// Why a picker chose no worker. The text says what the picker said.
pub enum PickError {
    /// There is no endpoint to choose.
    NoEndpoints(String),
    /// Any other error.
    Other(String),
}

/// A request as it goes to a worker, by POST.
pub struct UpstreamRequest {
    pub url: String,
    pub headers: Vec<Header>,
    pub body: Vec<u8>,
}

/// The head of a worker's answer.
pub struct ResponseHead {
    pub status: u16,
    pub headers: Vec<RawHeader>,
}

/// The booking of a request on a worker.
pub struct Booking {
    pub request_id: String,
    pub endpoint: String,
    pub is_disaggregated: bool,
}

/// An answer that reports an error.
pub struct ErrorReply {
    pub status: u16,
    pub message: String,
}

/// What is to be done next in an exchange.
#[allow(inconsistent_fields)]
pub enum ProxyStep {
    /// Read the request body, up to a limit.
    ReadBody { limit: usize, inbound: Inbound, headers: Vec<RawHeader> },
    /// Draw an ID for the request, which brings none.
    DrawRequestId { inbound: Inbound, headers: Vec<RawHeader>, body: Vec<u8>, model: Option<String> },
    /// Have a worker picked, from all that are ready.
    Pick { request: RequestInfo, inbound: Inbound },
    /// Write the tokens into the body of the request.
    InjectTokens { token_ids: Vec<u32>, request: UpstreamRequest, booking: Booking },
    /// Send the request to the worker.
    Send { request: UpstreamRequest, booking: Booking },
    /// Tell the picker that the prefill of the request is complete.
    CompletePrefill { booking: Booking, head: ResponseHead },
    /// Start the answer with this head, and stream the worker's body after it.
    Relay { booking: Booking, head: ResponseHead },
    /// Wait for the stream to end or to be dropped.
    Stream { booking: Booking },
    /// Tell the picker that the request is complete and wait until it knows. Then answer
    /// with the error.
    Release { booking: Booking, reply: ErrorReply },
    /// Leave it to a task of its own to tell the picker that the request is complete, and do
    /// not wait for it. If there is an error, it is answered at once.
    DetachRelease { booking: Booking, reply: Option<ErrorReply> },
    /// Answer with this error. The exchange is over.
    Reply(ErrorReply),
    /// Nothing: the exchange is over.
    Finished,
}

/// What came of a step.
pub enum ProxyEvent {
    /// The body and the model that it asks for, or why it could not be read.
    BodyRead(Result<(Vec<u8>, Option<String>), String>),
    RequestIdDrawn(String),
    Picked(Result<PickResult, PickError>),
    /// The body with the tokens in it, unless they could not be written.
    TokensInjected(Option<Vec<u8>>),
    /// The head of the worker's answer, or why there is none.
    Sent(Result<ResponseHead, String>),
    PrefillCompleted,
    /// The answer was started, or why it could not be.
    Relayed(Result<(), String>),
    StreamEnded,
    Released,
    /// The task that releases the booking was started.
    ReleaseDetached,
}

// ---- The views ----

pub struct InboundView {
    pub upstream_scheme: Seq<char>,
    pub path: Seq<char>,
}

pub struct RequestInfoView {
    pub request_id: Seq<char>,
    pub headers: Seq<(Seq<char>, Seq<char>)>,
    pub body: Seq<u8>,
    pub model: Option<Seq<char>>,
    pub candidate_subset: Seq<Seq<char>>,
}

pub struct UpstreamRequestView {
    pub url: Seq<char>,
    pub headers: Seq<(Seq<char>, Seq<char>)>,
    pub body: Seq<u8>,
}

pub struct ResponseHeadView {
    pub status: u16,
    pub headers: Seq<(Seq<char>, Seq<u8>)>,
}

pub struct BookingView {
    pub request_id: Seq<char>,
    pub endpoint: Seq<char>,
    pub is_disaggregated: bool,
}

pub struct ErrorReplyView {
    pub status: u16,
    pub message: Seq<char>,
}

/// An exchange in progress, as a mathematical value.
#[allow(inconsistent_fields)]
pub enum ProxyStepView {
    ReadBody { limit: usize, inbound: InboundView, headers: Seq<(Seq<char>, Seq<u8>)> },
    DrawRequestId {
        inbound: InboundView,
        headers: Seq<(Seq<char>, Seq<u8>)>,
        body: Seq<u8>,
        model: Option<Seq<char>>,
    },
    Pick { request: RequestInfoView, inbound: InboundView },
    InjectTokens { token_ids: Seq<u32>, request: UpstreamRequestView, booking: BookingView },
    Send { request: UpstreamRequestView, booking: BookingView },
    CompletePrefill { booking: BookingView, head: ResponseHeadView },
    Relay { booking: BookingView, head: ResponseHeadView },
    Stream { booking: BookingView },
    Release { booking: BookingView, reply: ErrorReplyView },
    DetachRelease { booking: BookingView, reply: Option<ErrorReplyView> },
    Reply(ErrorReplyView),
    Finished,
}

impl View for Inbound {
    type V = InboundView;

    open spec fn view(&self) -> InboundView {
        InboundView { upstream_scheme: self.upstream_scheme@, path: self.path@ }
    }
}

impl View for RequestInfo {
    type V = RequestInfoView;

    open spec fn view(&self) -> RequestInfoView {
        RequestInfoView {
            request_id: self.request_id@,
            headers: headers_view(self.headers@),
            body: self.body@,
            model: opt_view(self.model),
            candidate_subset: self.candidate_subset@.map_values(|s: String| s@),
        }
    }
}

impl View for UpstreamRequest {
    type V = UpstreamRequestView;

    open spec fn view(&self) -> UpstreamRequestView {
        UpstreamRequestView { url: self.url@, headers: headers_view(self.headers@), body: self.body@ }
    }
}

impl View for ResponseHead {
    type V = ResponseHeadView;

    open spec fn view(&self) -> ResponseHeadView {
        ResponseHeadView { status: self.status, headers: raw_headers_view(self.headers@) }
    }
}

impl View for Booking {
    type V = BookingView;

    open spec fn view(&self) -> BookingView {
        BookingView {
            request_id: self.request_id@,
            endpoint: self.endpoint@,
            is_disaggregated: self.is_disaggregated,
        }
    }
}

impl View for ErrorReply {
    type V = ErrorReplyView;

    open spec fn view(&self) -> ErrorReplyView {
        ErrorReplyView { status: self.status, message: self.message@ }
    }
}

pub open spec fn reply_view(reply: Option<ErrorReply>) -> Option<ErrorReplyView> {
    match reply {
        Some(reply) => Some(reply@),
        None => None,
    }
}

impl View for ProxyStep {
    type V = ProxyStepView;

    open spec fn view(&self) -> ProxyStepView {
        match *self {
            ProxyStep::ReadBody { limit, inbound, headers } => ProxyStepView::ReadBody {
                limit,
                inbound: inbound@,
                headers: raw_headers_view(headers@),
            },
            ProxyStep::DrawRequestId { inbound, headers, body, model } => ProxyStepView::DrawRequestId {
                inbound: inbound@,
                headers: raw_headers_view(headers@),
                body: body@,
                model: opt_view(model),
            },
            ProxyStep::Pick { request, inbound } => ProxyStepView::Pick { request: request@, inbound: inbound@ },
            ProxyStep::InjectTokens { token_ids, request, booking } => ProxyStepView::InjectTokens {
                token_ids: token_ids@,
                request: request@,
                booking: booking@,
            },
            ProxyStep::Send { request, booking } => ProxyStepView::Send { request: request@, booking: booking@ },
            ProxyStep::CompletePrefill { booking, head } => ProxyStepView::CompletePrefill {
                booking: booking@,
                head: head@,
            },
            ProxyStep::Relay { booking, head } => ProxyStepView::Relay { booking: booking@, head: head@ },
            ProxyStep::Stream { booking } => ProxyStepView::Stream { booking: booking@ },
            ProxyStep::Release { booking, reply } => ProxyStepView::Release { booking: booking@, reply: reply@ },
            ProxyStep::DetachRelease { booking, reply } => ProxyStepView::DetachRelease {
                booking: booking@,
                reply: reply_view(reply),
            },
            ProxyStep::Reply(reply) => ProxyStepView::Reply(reply@),
            ProxyStep::Finished => ProxyStepView::Finished,
        }
    }
}

// ---- The rules ----

/// The request as it is handed to the picker. No endpoint is singled out.
pub open spec fn request_info(
    request_id: Seq<char>,
    headers: Seq<(Seq<char>, Seq<u8>)>,
    body: Seq<u8>,
    model: Option<Seq<char>>,
) -> RequestInfoView {
    RequestInfoView { request_id, headers: text_headers(headers), body, model, candidate_subset: Seq::empty() }
}

/// The status that a pick error is answered with: where there is no endpoint the service
/// is unavailable, anything else is an internal error.
pub open spec fn pick_error_status(e: PickError) -> u16 {
    match e {
        PickError::NoEndpoints(_) => SERVICE_UNAVAILABLE,
        PickError::Other(_) => INTERNAL_SERVER_ERROR,
    }
}

/// What a pick error says.
pub open spec fn pick_error_text(e: PickError) -> Seq<char> {
    match e {
        PickError::NoEndpoints(text) => text@,
        PickError::Other(text) => text@,
    }
}

/// The headers of a forwarded request: its content type, then the picker's headers.
pub open spec fn upstream_headers(picked: Seq<(Seq<char>, Seq<char>)>) -> Seq<(Seq<char>, Seq<char>)> {
    seq![("content-type"@, "application/json"@)] + picked
}

/// The URL of a forwarded request. Its path is that of the request as it came in.
pub open spec fn upstream_url(inbound: InboundView, endpoint: Seq<char>) -> Seq<char> {
    inbound.upstream_scheme + "://"@ + endpoint + inbound.path
}

/// The forwarded request, as long as its body is the body that came in.
pub open spec fn upstream_request(inbound: InboundView, picked: PickResult, body: Seq<u8>) -> UpstreamRequestView {
    UpstreamRequestView {
        url: upstream_url(inbound, picked.endpoint@),
        headers: upstream_headers(headers_view(picked.headers@)),
        body,
    }
}

/// The booking that a pick makes.
pub open spec fn booking_of(request_id: Seq<char>, picked: PickResult) -> BookingView {
    BookingView {
        request_id,
        endpoint: picked.endpoint@,
        is_disaggregated: announces_disaggregated(headers_view(picked.headers@)),
    }
}

/// The step that follows a pick: the request is sent on, after its tokens have been
/// written into it if the picker made any.
pub open spec fn after_pick(request: RequestInfoView, inbound: InboundView, picked: PickResult) -> ProxyStepView {
    let upstream = upstream_request(inbound, picked, request.body);
    let booking = booking_of(request.request_id, picked);
    match picked.token_ids {
        Some(ids) => ProxyStepView::InjectTokens { token_ids: ids@, request: upstream, booking },
        None => ProxyStepView::Send { request: upstream, booking },
    }
}

/// The step that follows an outcome. The outcome of another step than the one to be done
/// changes nothing.
pub open spec fn proxy_next(step: ProxyStepView, event: ProxyEvent) -> ProxyStepView {
    match (step, event) {
        (ProxyStepView::ReadBody { inbound, headers, .. }, ProxyEvent::BodyRead(Ok((body, model)))) => {
            match given_request_id(headers) {
                Some(id) => ProxyStepView::Pick {
                    request: request_info(id, headers, body@, opt_view(model)),
                    inbound,
                },
                None => ProxyStepView::DrawRequestId { inbound, headers, body: body@, model: opt_view(model) },
            }
        },
        (ProxyStepView::ReadBody { .. }, ProxyEvent::BodyRead(Err(e))) => ProxyStepView::Reply(
            ErrorReplyView { status: BAD_REQUEST, message: "failed to read request body: "@ + e@ },
        ),
        (ProxyStepView::DrawRequestId { inbound, headers, body, model }, ProxyEvent::RequestIdDrawn(id)) =>
            ProxyStepView::Pick { request: request_info(id@, headers, body, model), inbound },
        (ProxyStepView::Pick { request, inbound }, ProxyEvent::Picked(Ok(picked))) => after_pick(
            request,
            inbound,
            picked,
        ),
        (ProxyStepView::Pick { .. }, ProxyEvent::Picked(Err(e))) => ProxyStepView::Reply(
            ErrorReplyView { status: pick_error_status(e), message: "routing failed: "@ + pick_error_text(e) },
        ),
        (ProxyStepView::InjectTokens { request, booking, .. }, ProxyEvent::TokensInjected(injected)) =>
            ProxyStepView::Send {
                request: UpstreamRequestView {
                    body: match injected {
                        Some(body) => body@,
                        None => request.body,
                    },
                    ..request
                },
                booking,
            },
        (ProxyStepView::Send { booking, .. }, ProxyEvent::Sent(Ok(head))) => if booking.is_disaggregated {
            ProxyStepView::CompletePrefill { booking, head: head@ }
        } else {
            ProxyStepView::Relay { booking, head: head@ }
        },
        (ProxyStepView::Send { booking, .. }, ProxyEvent::Sent(Err(e))) => ProxyStepView::Release {
            booking,
            reply: ErrorReplyView {
                status: BAD_GATEWAY,
                message: "upstream request to "@ + booking.endpoint + " failed: "@ + e@,
            },
        },
        (ProxyStepView::CompletePrefill { booking, head }, ProxyEvent::PrefillCompleted) => ProxyStepView::Relay {
            booking,
            head,
        },
        (ProxyStepView::Relay { booking, .. }, ProxyEvent::Relayed(Ok(()))) => ProxyStepView::Stream { booking },
        (ProxyStepView::Relay { booking, .. }, ProxyEvent::Relayed(Err(e))) => ProxyStepView::DetachRelease {
            booking,
            reply: Some(ErrorReplyView { status: INTERNAL_SERVER_ERROR, message: e@ }),
        },
        (ProxyStepView::Stream { booking }, ProxyEvent::StreamEnded) => ProxyStepView::DetachRelease {
            booking,
            reply: None,
        },
        (ProxyStepView::Release { reply, .. }, ProxyEvent::Released) => ProxyStepView::Reply(reply),
        (ProxyStepView::DetachRelease { reply, .. }, ProxyEvent::ReleaseDetached) => match reply {
            Some(reply) => ProxyStepView::Reply(reply),
            None => ProxyStepView::Finished,
        },
        _ => step,
    }
}

// ---- The code ----

/// A hexadecimal digit in lower case.
pub open spec fn is_hex_digit(c: char) -> bool {
    '0' <= c <= '9' || 'a' <= c <= 'f'
}

/// The text of a random UUID: 32 hexadecimal digits in groups of 8, 4, 4, 4 and 12, with
/// hyphens between them, of which one tells the version and one the variant.
pub open spec fn is_random_uuid(s: Seq<char>) -> bool {
    &&& s.len() == 36
    &&& forall|i: int|
        0 <= i < 36 ==> if i == 8 || i == 13 || i == 18 || i == 23 {
            #[trigger] s[i] == '-'
        } else {
            is_hex_digit(s[i])
        }
    &&& s[14] == '4'
    &&& (s[19] == '8' || s[19] == '9' || s[19] == 'a' || s[19] == 'b')
}

/// Draws an ID with `uuid::Uuid::new_v4` and writes it with the crate's `Display`: a random
/// UUID in its hyphenated form, in lower case. Which one it is depends on chance alone. The
/// crate panics where the operating system has no random bytes to give.
#[verifier::external_body]
fn random_uuid() -> (id: String)
    ensures
        is_random_uuid(id@),
{
    uuid::Uuid::new_v4().to_string()
}

/// Whether an ID is one that `uuid::Uuid::new_v4` may draw.
pub closed spec fn is_drawn(id: String) -> bool {
    call_ensures(random_uuid, (), id)
}

/// Draws an ID for a request that brings none. The ID is the one that the draw gave; which
/// one that is, is left open, since it depends on chance.
pub fn draw_request_id() -> (event: ProxyEvent)
    ensures
        event matches ProxyEvent::RequestIdDrawn(id) && is_drawn(id) && is_random_uuid(id@),
{
    ProxyEvent::RequestIdDrawn(random_uuid())
}

/// Starts an exchange: the body of the request is read first.
pub fn proxy_handler(config: &FrontendConfig, path: &str, headers: Vec<RawHeader>) -> (step: ProxyStep)
    ensures
        step@ == (ProxyStepView::ReadBody {
            limit: MAX_BODY_BYTES,
            inbound: (InboundView { upstream_scheme: config.upstream_scheme@, path: path@ }),
            headers: raw_headers_view(headers@),
        }),
{
    ProxyStep::ReadBody {
        limit: MAX_BODY_BYTES,
        inbound: Inbound { upstream_scheme: config.upstream_scheme.clone(), path: path.to_owned() },
        headers,
    }
}

/// Reports an error.
pub fn error_response(status: u16, message: String) -> (reply: ErrorReply)
    ensures
        reply@ == (ErrorReplyView { status, message: message@ }),
{
    ErrorReply { status, message }
}

/// The body of an answer that reports an error.
pub open spec fn error_body(message: Seq<char>) -> JsonView {
    JsonView::Object(map!["error"@ => JsonView::Object(map!["message"@ => JsonView::Text(message)])])
}

impl ErrorReply {
    /// The body of the answer.
    pub fn body(&self) -> (body: serde_json::Value)
        ensures
            json_view(body) == error_body(self.message@),
    {
        proof {
            reveal_with_fuel(members_of, 2);
        }
        let detail = json_object(vec![("message".to_owned(), json_string(self.message.clone()))]);
        assert(json_view(detail)->Object_0 =~= map!["message"@ => JsonView::Text(self.message@)]);
        let body = json_object(vec![("error".to_owned(), detail)]);
        assert(json_view(body)->Object_0 =~= error_body(self.message@)->Object_0);
        body
    }
}

fn make_request_info(
    request_id: String,
    headers: &Vec<RawHeader>,
    body: Vec<u8>,
    model: Option<String>,
) -> (info: RequestInfo)
    ensures
        info@ == request_info(request_id@, raw_headers_view(headers@), body@, opt_view(model)),
{
    let info = RequestInfo {
        request_id,
        headers: read_text_headers(headers),
        body,
        model,
        candidate_subset: Vec::new(),
    };
    assert(info@.candidate_subset =~= Seq::empty());
    info
}

fn make_upstream_headers(picked: Vec<Header>) -> (headers: Vec<Header>)
    ensures
        headers_view(headers@) == upstream_headers(headers_view(picked@)),
{
    let mut headers: Vec<Header> = Vec::new();
    headers.push(Header { name: "content-type".to_owned(), value: "application/json".to_owned() });
    let mut rest = picked;
    headers.append(&mut rest);
    assert(headers_view(headers@) =~= upstream_headers(headers_view(picked@)));
    headers
}

fn make_upstream_url(inbound: &Inbound, endpoint: &str) -> (url: String)
    ensures
        url@ == upstream_url(inbound@, endpoint@),
{
    let mut url = inbound.upstream_scheme.clone();
    url.append("://");
    url.append(endpoint);
    url.append(inbound.path.as_str());
    url
}

fn forward_picked(request: RequestInfo, inbound: Inbound, picked: PickResult) -> (next: ProxyStep)
    ensures
        next@ == after_pick(request@, inbound@, picked),
{
    let is_disaggregated = reads_disaggregated(&picked.headers);
    let upstream = UpstreamRequest {
        url: make_upstream_url(&inbound, picked.endpoint.as_str()),
        headers: make_upstream_headers(picked.headers),
        body: request.body,
    };
    let booking = Booking { request_id: request.request_id, endpoint: picked.endpoint, is_disaggregated };
    match picked.token_ids {
        Some(token_ids) => ProxyStep::InjectTokens { token_ids, request: upstream, booking },
        None => ProxyStep::Send { request: upstream, booking },
    }
}

fn pick_error_reply(e: PickError) -> (reply: ErrorReply)
    ensures
        reply@ == (ErrorReplyView {
            status: pick_error_status(e),
            message: "routing failed: "@ + pick_error_text(e),
        }),
{
    let (status, text) = match e {
        PickError::NoEndpoints(text) => (SERVICE_UNAVAILABLE, text),
        PickError::Other(text) => (INTERNAL_SERVER_ERROR, text),
    };
    error_response(status, "routing failed: ".to_owned().concat(text.as_str()))
}

impl ProxyStep {
    /// Takes the outcome of the step that was to be done.
    pub fn resume(self, event: ProxyEvent) -> (next: ProxyStep)
        ensures
            next@ == proxy_next(self@, event),
    {
        match (self, event) {
            (ProxyStep::ReadBody { inbound, headers, .. }, ProxyEvent::BodyRead(Ok((body, model)))) => {
                match read_request_id(&headers) {
                    Some(id) => ProxyStep::Pick { request: make_request_info(id, &headers, body, model), inbound },
                    None => ProxyStep::DrawRequestId { inbound, headers, body, model },
                }
            },
            (ProxyStep::ReadBody { .. }, ProxyEvent::BodyRead(Err(e))) => ProxyStep::Reply(
                error_response(BAD_REQUEST, "failed to read request body: ".to_owned().concat(e.as_str())),
            ),
            (ProxyStep::DrawRequestId { inbound, headers, body, model }, ProxyEvent::RequestIdDrawn(id)) => {
                ProxyStep::Pick { request: make_request_info(id, &headers, body, model), inbound }
            },
            (ProxyStep::Pick { request, inbound }, ProxyEvent::Picked(Ok(picked))) => forward_picked(
                request,
                inbound,
                picked,
            ),
            (ProxyStep::Pick { .. }, ProxyEvent::Picked(Err(e))) => ProxyStep::Reply(pick_error_reply(e)),
            (ProxyStep::InjectTokens { request, booking, .. }, ProxyEvent::TokensInjected(injected)) => {
                let body = match injected {
                    Some(body) => body,
                    None => request.body,
                };
                let request = UpstreamRequest { url: request.url, headers: request.headers, body };
                ProxyStep::Send { request, booking }
            },
            (ProxyStep::Send { booking, .. }, ProxyEvent::Sent(Ok(head))) => {
                // The first bytes of the decode worker show that prefill is done.
                if booking.is_disaggregated {
                    ProxyStep::CompletePrefill { booking, head }
                } else {
                    ProxyStep::Relay { booking, head }
                }
            },
            (ProxyStep::Send { booking, .. }, ProxyEvent::Sent(Err(e))) => {
                let mut message = "upstream request to ".to_owned();
                message.append(booking.endpoint.as_str());
                message.append(" failed: ");
                message.append(e.as_str());
                ProxyStep::Release { booking, reply: error_response(BAD_GATEWAY, message) }
            },
            (ProxyStep::CompletePrefill { booking, head }, ProxyEvent::PrefillCompleted) => {
                ProxyStep::Relay { booking, head }
            },
            (ProxyStep::Relay { booking, .. }, ProxyEvent::Relayed(Ok(()))) => ProxyStep::Stream { booking },
            (ProxyStep::Relay { booking, .. }, ProxyEvent::Relayed(Err(e))) => ProxyStep::DetachRelease {
                booking,
                reply: Some(error_response(INTERNAL_SERVER_ERROR, e)),
            },
            (ProxyStep::Stream { booking }, ProxyEvent::StreamEnded) => {
                ProxyStep::DetachRelease { booking, reply: None }
            },
            (ProxyStep::Release { reply, .. }, ProxyEvent::Released) => ProxyStep::Reply(reply),
            (ProxyStep::DetachRelease { reply, .. }, ProxyEvent::ReleaseDetached) => match reply {
                Some(reply) => ProxyStep::Reply(reply),
                None => ProxyStep::Finished,
            },
            (step, _) => step,
        }
    }
}

} // verus!
