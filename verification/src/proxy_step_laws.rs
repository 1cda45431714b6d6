//! What each step of an exchange leads to, in terms of the request, the pick and the worker's
//! answer.
#[allow(unused_imports)]
use crate::config::FrontendConfig;
#[allow(unused_imports)]
use crate::headers::{headers_view, raw_headers_view};
#[allow(unused_imports)]
use crate::headers::{read_request_id, read_text_headers, reads_disaggregated, Header, RawHeader};
#[allow(unused_imports)]
use crate::json::{json_view, JsonView};
#[allow(unused_imports)]
use crate::proxy::{
    draw_request_id, error_response, proxy_handler, Booking, ErrorReply, Inbound, PickError, PickResult, ProxyEvent,
    ProxyStep, RequestInfo, ResponseHead, UpstreamRequest,
};
use vstd::prelude::*;

verus! {

/// Whether two lists hold the same headers in the same order.
pub open spec fn same_raw_headers(a: Seq<RawHeader>, b: Seq<RawHeader>) -> bool {
    &&& a.len() == b.len()
    &&& forall|i: int|
        0 <= i < a.len() ==> (#[trigger] a[i]).name@ == b[i].name@ && a[i].value@ == b[i].value@
}

/// Whether two lists hold the same text headers in the same order.
pub open spec fn same_headers(a: Seq<Header>, b: Seq<Header>) -> bool {
    &&& a.len() == b.len()
    &&& forall|i: int|
        0 <= i < a.len() ==> (#[trigger] a[i]).name@ == b[i].name@ && a[i].value@ == b[i].value@
}

/// Whether two bookings are for the same request on the same worker.
pub open spec fn same_booking(a: Booking, b: Booking) -> bool {
    a.request_id@ == b.request_id@ && a.endpoint@ == b.endpoint@ && a.is_disaggregated == b.is_disaggregated
}

/// Whether two requests came in alike.
pub open spec fn same_inbound(a: Inbound, b: Inbound) -> bool {
    a.upstream_scheme@ == b.upstream_scheme@ && a.path@ == b.path@
}

/// Whether two optional texts are the same.
pub open spec fn same_text(a: Option<String>, b: Option<String>) -> bool {
    match (a, b) {
        (Some(a), Some(b)) => a@ == b@,
        (None, None) => true,
        _ => false,
    }
}

proof fn lemma_raw_headers_by_view(a: Seq<RawHeader>, b: Seq<RawHeader>)
    requires
        raw_headers_view(a) == raw_headers_view(b),
    ensures
        same_raw_headers(a, b),
{
    assert(raw_headers_view(a).len() == a.len() && raw_headers_view(b).len() == b.len());
    assert forall|i: int| 0 <= i < a.len() implies (#[trigger] a[i]).name@ == b[i].name@ && a[i].value@
        == b[i].value@ by {
        assert(raw_headers_view(a)[i] == a[i]@ && raw_headers_view(b)[i] == b[i]@);
    }
}

proof fn lemma_headers_by_view(a: Seq<Header>, b: Seq<Header>)
    requires
        headers_view(a) == headers_view(b),
    ensures
        same_headers(a, b),
{
    assert(headers_view(a).len() == a.len() && headers_view(b).len() == b.len());
    assert forall|i: int| 0 <= i < a.len() implies (#[trigger] a[i]).name@ == b[i].name@ && a[i].value@
        == b[i].value@ by {
        assert(headers_view(a)[i] == a[i]@ && headers_view(b)[i] == b[i]@);
    }
}

/// An exchange starts with reading at most 16 MiB of the body, and keeps the path and the
/// headers of the request and the scheme that the front end is set to.
pub proof fn law_exchange_starts_with_the_body(
    config: FrontendConfig,
    path: &str,
    headers: Vec<RawHeader>,
    step: ProxyStep,
)
    requires
        call_ensures(proxy_handler, (&config, path, headers), step),
    ensures
        ({
            &&& step matches ProxyStep::ReadBody { limit, inbound, headers: kept }
            &&& limit == 16777216
            &&& inbound.upstream_scheme@ == config.upstream_scheme@
            &&& inbound.path@ == path@
            &&& same_raw_headers(kept@, headers@)
        }),
{
    lemma_raw_headers_by_view(step->ReadBody_headers@, headers@);
}

/// Once the body is read, the picker gets the request: under the ID that it brings, with all
/// its text headers, the whole body and its model, and with no endpoint singled out. Where it
/// brings no ID, one is drawn first, and nothing of the request is lost.
pub proof fn law_read_request_goes_to_the_picker(
    limit: usize,
    inbound: Inbound,
    headers: Vec<RawHeader>,
    body: Vec<u8>,
    model: Option<String>,
    id: Option<String>,
    texts: Vec<Header>,
    next: ProxyStep,
)
    requires
        call_ensures(
            ProxyStep::resume,
            (ProxyStep::ReadBody { limit, inbound, headers }, ProxyEvent::BodyRead(Ok((body, model)))),
            next,
        ),
        call_ensures(read_request_id, (&headers,), id),
        call_ensures(read_text_headers, (&headers,), texts),
    ensures
        match id {
            Some(given) => {
                &&& next matches ProxyStep::Pick { request, inbound: kept }
                &&& request.request_id@ == given@
                &&& same_headers(request.headers@, texts@)
                &&& request.body@ == body@
                &&& same_text(request.model, model)
                &&& request.candidate_subset@.len() == 0
                &&& same_inbound(kept, inbound)
            },
            None => {
                &&& next matches ProxyStep::DrawRequestId {
                    inbound: kept,
                    headers: kept_headers,
                    body: kept_body,
                    model: kept_model,
                }
                &&& same_raw_headers(kept_headers@, headers@)
                &&& kept_body@ == body@
                &&& same_text(kept_model, model)
                &&& same_inbound(kept, inbound)
            },
        },
{
    if id is Some {
        lemma_headers_by_view(next->Pick_request.headers@, texts@);
        assert(next->Pick_request@.candidate_subset.len() == next->Pick_request.candidate_subset@.len());
    } else {
        lemma_raw_headers_by_view(next->DrawRequestId_headers@, headers@);
    }
}

/// A body that cannot be read is answered with status 400 and the reason; no worker is
/// picked.
pub proof fn law_unreadable_body_is_a_bad_request(
    limit: usize,
    inbound: Inbound,
    headers: Vec<RawHeader>,
    reason: String,
    next: ProxyStep,
)
    requires
        call_ensures(
            ProxyStep::resume,
            (ProxyStep::ReadBody { limit, inbound, headers }, ProxyEvent::BodyRead(Err(reason))),
            next,
        ),
    ensures
        next matches ProxyStep::Reply(reply) && reply.status == 400 && reply.message@
            == "failed to read request body: "@ + reason@,
{
}

/// A request that brings no ID goes to the picker under the one that was drawn, with all its
/// text headers, the whole body and its model.
pub proof fn law_drawn_id_is_used(
    inbound: Inbound,
    headers: Vec<RawHeader>,
    body: Vec<u8>,
    model: Option<String>,
    id: String,
    texts: Vec<Header>,
    next: ProxyStep,
)
    requires
        call_ensures(
            ProxyStep::resume,
            (ProxyStep::DrawRequestId { inbound, headers, body, model }, ProxyEvent::RequestIdDrawn(id)),
            next,
        ),
        call_ensures(read_text_headers, (&headers,), texts),
    ensures
        ({
            &&& next matches ProxyStep::Pick { request, inbound: kept }
            &&& request.request_id@ == id@
            &&& same_headers(request.headers@, texts@)
            &&& request.body@ == body@
            &&& same_text(request.model, model)
            &&& request.candidate_subset@.len() == 0
            &&& same_inbound(kept, inbound)
        }),
{
    lemma_headers_by_view(next->Pick_request.headers@, texts@);
    assert(next->Pick_request@.candidate_subset.len() == next->Pick_request.candidate_subset@.len());
}

/// Whether a URL is made of a scheme, a colon and two slashes, an endpoint and a path, each
/// in full and in this order, and of nothing else.
pub open spec fn url_is(url: Seq<char>, scheme: Seq<char>, endpoint: Seq<char>, path: Seq<char>) -> bool {
    let after_scheme = scheme.len() as int;
    let after_slashes = after_scheme + 3;
    let after_endpoint = after_slashes + endpoint.len() as int;
    &&& url.len() == after_endpoint + path.len()
    &&& forall|i: int| 0 <= i < scheme.len() ==> #[trigger] url[i] == scheme[i]
    &&& url[after_scheme] == ':'
    &&& url[after_scheme + 1] == '/'
    &&& url[after_scheme + 2] == '/'
    &&& forall|i: int| after_slashes <= i < after_endpoint ==> #[trigger] url[i] == endpoint[i - after_slashes]
    &&& forall|i: int| after_endpoint <= i < url.len() ==> #[trigger] url[i] == path[i - after_endpoint]
}

/// The request that a step sends on.
pub open spec fn upstream_of(step: ProxyStep) -> Option<UpstreamRequest> {
    match step {
        ProxyStep::InjectTokens { request, .. } => Some(request),
        ProxyStep::Send { request, .. } => Some(request),
        _ => None,
    }
}

/// A picked request is forwarded to the picked endpoint, by the scheme of the front end and
/// under the path by which it came in, character by character.
pub proof fn law_request_is_forwarded_under_its_own_path(
    request: RequestInfo,
    inbound: Inbound,
    picked: PickResult,
    next: ProxyStep,
)
    requires
        call_ensures(
            ProxyStep::resume,
            (ProxyStep::Pick { request, inbound }, ProxyEvent::Picked(Ok(picked))),
            next,
        ),
    ensures
        upstream_of(next) matches Some(upstream) && url_is(
            upstream.url@,
            inbound.upstream_scheme@,
            picked.endpoint@,
            inbound.path@,
        ),
{
    reveal_strlit("://");
}

/// Two requests that differ only in the path by which they came in are forwarded to URLs that
/// are alike up to the path and end in the path of each.
pub proof fn law_urls_end_in_their_own_paths(
    request: RequestInfo,
    one: Inbound,
    other: Inbound,
    picked: PickResult,
    one_next: ProxyStep,
    other_next: ProxyStep,
)
    requires
        call_ensures(
            ProxyStep::resume,
            (ProxyStep::Pick { request, inbound: one }, ProxyEvent::Picked(Ok(picked))),
            one_next,
        ),
        call_ensures(
            ProxyStep::resume,
            (ProxyStep::Pick { request, inbound: other }, ProxyEvent::Picked(Ok(picked))),
            other_next,
        ),
        one.upstream_scheme@ == other.upstream_scheme@,
    ensures
        upstream_of(one_next) is Some && upstream_of(other_next) is Some,
        ({
            let a = upstream_of(one_next)->0.url@;
            let b = upstream_of(other_next)->0.url@;
            let (m, n) = (a.len() - one.path@.len(), b.len() - other.path@.len());
            &&& m == n
            &&& m >= 0
            &&& a.subrange(0, m) == b.subrange(0, n)
            &&& a.subrange(m, a.len() as int) == one.path@
            &&& b.subrange(n, b.len() as int) == other.path@
            &&& one.path@ != other.path@ ==> a != b
        }),
{
    reveal_strlit("://");
    let a = upstream_of(one_next)->0.url@;
    let b = upstream_of(other_next)->0.url@;
    let m = a.len() - one.path@.len();
    let n = b.len() - other.path@.len();
    assert(a.subrange(0, m) =~= b.subrange(0, n));
    assert(a.subrange(m, a.len() as int) =~= one.path@);
    assert(b.subrange(n, b.len() as int) =~= other.path@);
}

/// A picked request is forwarded with its own body, as JSON and with all the headers of the
/// picker in their order. It is booked under its own ID on the picked endpoint, as
/// disaggregated exactly where the picker's headers say so. The tokens that the picker made
/// are written into it first; where it made none, it is sent as it is.
pub proof fn law_picked_request_is_sent_on(
    request: RequestInfo,
    inbound: Inbound,
    picked: PickResult,
    is_disaggregated: bool,
    next: ProxyStep,
)
    requires
        call_ensures(
            ProxyStep::resume,
            (ProxyStep::Pick { request, inbound }, ProxyEvent::Picked(Ok(picked))),
            next,
        ),
        call_ensures(reads_disaggregated, (&picked.headers,), is_disaggregated),
    ensures
        ({
            &&& match picked.token_ids {
                Some(ids) => next matches ProxyStep::InjectTokens { token_ids, .. } && token_ids@ == ids@,
                None => next is Send,
            }
            &&& upstream_of(next) matches Some(upstream)
            &&& upstream.body@ == request.body@
            &&& upstream.headers@.len() == picked.headers@.len() + 1
            &&& upstream.headers@[0].name@ == "content-type"@
            &&& upstream.headers@[0].value@ == "application/json"@
            &&& forall|i: int|
                1 <= i < upstream.headers@.len() ==> (#[trigger] upstream.headers@[i]).name@
                    == picked.headers@[i - 1].name@ && upstream.headers@[i].value@ == picked.headers@[i - 1].value@
            &&& booking_in(next) matches Some(booking)
            &&& booking.request_id@ == request.request_id@
            &&& booking.endpoint@ == picked.endpoint@
            &&& booking.is_disaggregated == is_disaggregated
        }),
{
    let upstream = upstream_of(next)->0;
    let views = headers_view(upstream.headers@);
    assert(views.len() == upstream.headers@.len());
    assert(headers_view(picked.headers@).len() == picked.headers@.len());
    assert(views[0] == upstream.headers@[0]@);
    assert forall|i: int| 1 <= i < upstream.headers@.len() implies (#[trigger] upstream.headers@[i]).name@
        == picked.headers@[i - 1].name@ && upstream.headers@[i].value@ == picked.headers@[i - 1].value@ by {
        assert(views[i] == upstream.headers@[i]@);
        assert(headers_view(picked.headers@)[i - 1] == picked.headers@[i - 1]@);
    }
}

/// The booking that a step holds.
pub open spec fn booking_in(step: ProxyStep) -> Option<Booking> {
    match step {
        ProxyStep::InjectTokens { booking, .. } => Some(booking),
        ProxyStep::Send { booking, .. } => Some(booking),
        ProxyStep::CompletePrefill { booking, .. } => Some(booking),
        ProxyStep::Relay { booking, .. } => Some(booking),
        ProxyStep::Stream { booking } => Some(booking),
        ProxyStep::Release { booking, .. } => Some(booking),
        ProxyStep::DetachRelease { booking, .. } => Some(booking),
        _ => None,
    }
}

/// A request for which no worker was picked is answered with status 503 where there is no
/// endpoint and 500 otherwise, with what the picker said.
pub proof fn law_failed_pick_is_answered(request: RequestInfo, inbound: Inbound, error: PickError, next: ProxyStep)
    requires
        call_ensures(
            ProxyStep::resume,
            (ProxyStep::Pick { request, inbound }, ProxyEvent::Picked(Err(error))),
            next,
        ),
    ensures
        match error {
            PickError::NoEndpoints(text) => next matches ProxyStep::Reply(reply) && reply.status == 503
                && reply.message@ == "routing failed: "@ + text@,
            PickError::Other(text) => next matches ProxyStep::Reply(reply) && reply.status == 500 && reply.message@
                == "routing failed: "@ + text@,
        },
{
}

/// The body with the tokens in it is what is sent; where they could not be written, the body
/// as it came in is. URL, headers and booking stay.
pub proof fn law_injected_body_is_sent(
    token_ids: Vec<u32>,
    request: UpstreamRequest,
    booking: Booking,
    injected: Option<Vec<u8>>,
    next: ProxyStep,
)
    requires
        call_ensures(
            ProxyStep::resume,
            (ProxyStep::InjectTokens { token_ids, request, booking }, ProxyEvent::TokensInjected(injected)),
            next,
        ),
    ensures
        ({
            &&& next matches ProxyStep::Send { request: upstream, booking: kept }
            &&& upstream.url@ == request.url@
            &&& same_headers(upstream.headers@, request.headers@)
            &&& injected matches Some(body) ==> upstream.body@ == body@
            &&& injected is None ==> upstream.body@ == request.body@
            &&& same_booking(kept, booking)
        }),
{
    lemma_headers_by_view(next->Send_request.headers@, request.headers@);
}

/// The answer of a worker is relayed with its status and all its headers in their order. For
/// a disaggregated request, and for no other, the prefill is reported complete first.
pub proof fn law_answer_is_relayed_with_its_head(
    request: UpstreamRequest,
    booking: Booking,
    head: ResponseHead,
    next: ProxyStep,
)
    requires
        call_ensures(
            ProxyStep::resume,
            (ProxyStep::Send { request, booking }, ProxyEvent::Sent(Ok(head))),
            next,
        ),
    ensures
        booking.is_disaggregated ==> {
            &&& next matches ProxyStep::CompletePrefill { booking: kept, head: kept_head }
            &&& same_booking(kept, booking)
            &&& kept_head.status == head.status
            &&& same_raw_headers(kept_head.headers@, head.headers@)
        },
        !booking.is_disaggregated ==> {
            &&& next matches ProxyStep::Relay { booking: kept, head: kept_head }
            &&& same_booking(kept, booking)
            &&& kept_head.status == head.status
            &&& same_raw_headers(kept_head.headers@, head.headers@)
        },
{
    if booking.is_disaggregated {
        lemma_raw_headers_by_view(next->CompletePrefill_head.headers@, head.headers@);
    } else {
        lemma_raw_headers_by_view(next->Relay_head.headers@, head.headers@);
    }
}

/// A request that did not reach its worker is released, and only then answered with status
/// 502, the endpoint and the reason.
pub proof fn law_unreached_worker_is_a_bad_gateway(
    request: UpstreamRequest,
    booking: Booking,
    reason: String,
    next: ProxyStep,
)
    requires
        call_ensures(
            ProxyStep::resume,
            (ProxyStep::Send { request, booking }, ProxyEvent::Sent(Err(reason))),
            next,
        ),
    ensures
        ({
            &&& next matches ProxyStep::Release { booking: kept, reply }
            &&& same_booking(kept, booking)
            &&& reply.status == 502
            &&& reply.message@ == "upstream request to "@ + booking.endpoint@ + " failed: "@ + reason@
        }),
{
}

/// Once the prefill was reported complete, the same answer is relayed.
pub proof fn law_answer_waits_for_the_prefill(booking: Booking, head: ResponseHead, next: ProxyStep)
    requires
        call_ensures(
            ProxyStep::resume,
            (ProxyStep::CompletePrefill { booking, head }, ProxyEvent::PrefillCompleted),
            next,
        ),
    ensures
        ({
            &&& next matches ProxyStep::Relay { booking: kept, head: kept_head }
            &&& same_booking(kept, booking)
            &&& kept_head.status == head.status
            &&& same_raw_headers(kept_head.headers@, head.headers@)
        }),
{
    lemma_raw_headers_by_view(next->Relay_head.headers@, head.headers@);
}

/// An answer that was started is streamed while its booking is held. Where it could not be
/// started, the release is left to a task of its own, and the reason is answered with status
/// 500.
pub proof fn law_started_answer_is_streamed(
    booking: Booking,
    head: ResponseHead,
    started: Result<(), String>,
    next: ProxyStep,
)
    requires
        call_ensures(
            ProxyStep::resume,
            (ProxyStep::Relay { booking, head }, ProxyEvent::Relayed(started)),
            next,
        ),
    ensures
        match started {
            Ok(()) => next matches ProxyStep::Stream { booking: kept } && same_booking(kept, booking),
            Err(reason) => {
                &&& next matches ProxyStep::DetachRelease { booking: kept, reply: Some(reply) }
                &&& same_booking(kept, booking)
                &&& reply.status == 500
                &&& reply.message@ == reason@
            },
        },
{
}

/// When the stream has ended its booking is released, by a task of its own and with nothing
/// more to answer.
pub proof fn law_ended_stream_is_released(booking: Booking, next: ProxyStep)
    requires
        call_ensures(ProxyStep::resume, (ProxyStep::Stream { booking }, ProxyEvent::StreamEnded), next),
    ensures
        next matches ProxyStep::DetachRelease { booking: kept, reply: None } && same_booking(kept, booking),
{
}

/// After the release the error is answered as it was reported; without one the exchange is
/// over.
pub proof fn law_release_is_followed_by_the_reply(
    booking: Booking,
    reply: ErrorReply,
    detached_reply: Option<ErrorReply>,
    awaited_next: ProxyStep,
    detached_next: ProxyStep,
)
    requires
        call_ensures(
            ProxyStep::resume,
            (ProxyStep::Release { booking, reply }, ProxyEvent::Released),
            awaited_next,
        ),
        call_ensures(
            ProxyStep::resume,
            (ProxyStep::DetachRelease { booking, reply: detached_reply }, ProxyEvent::ReleaseDetached),
            detached_next,
        ),
    ensures
        awaited_next matches ProxyStep::Reply(r) && r.status == reply.status && r.message@ == reply.message@,
        match detached_reply {
            Some(error) => detached_next matches ProxyStep::Reply(r) && r.status == error.status && r.message@
                == error.message@,
            None => detached_next is Finished,
        },
{
}

/// The outcome of another step than the one to be done leaves an exchange as it is, and
/// nothing changes it once it is over.
pub proof fn law_other_outcomes_are_ignored(step: ProxyStep, event: ProxyEvent, next: ProxyStep)
    requires
        call_ensures(ProxyStep::resume, (step, event), next),
        match step {
            ProxyStep::ReadBody { .. } => !(event is BodyRead),
            ProxyStep::DrawRequestId { .. } => !(event is RequestIdDrawn),
            ProxyStep::Pick { .. } => !(event is Picked),
            ProxyStep::InjectTokens { .. } => !(event is TokensInjected),
            ProxyStep::Send { .. } => !(event is Sent),
            ProxyStep::CompletePrefill { .. } => !(event is PrefillCompleted),
            ProxyStep::Relay { .. } => !(event is Relayed),
            ProxyStep::Stream { .. } => !(event is StreamEnded),
            ProxyStep::Release { .. } => !(event is Released),
            ProxyStep::DetachRelease { .. } => !(event is ReleaseDetached),
            ProxyStep::Reply(_) => true,
            ProxyStep::Finished => true,
        },
    ensures
        next@ == step@,
        booking_in(step) matches Some(booking) ==> (booking_in(next) matches Some(kept) && same_booking(
            kept,
            booking,
        )),
{
}

/// A request that came in by a path and brings an ID goes from the front end to the worker
/// that was picked: to the URL of the front end's scheme, the worker's endpoint and the
/// request's own path, with the request's own body, booked under the request's own ID.
pub proof fn law_request_is_forwarded_end_to_end(
    config: FrontendConfig,
    path: &str,
    headers: Vec<RawHeader>,
    id: Option<String>,
    body: Vec<u8>,
    model: Option<String>,
    picked: PickResult,
    steps: Seq<ProxyStep>,
)
    requires
        call_ensures(read_request_id, (&headers,), id),
        id is Some,
        picked.token_ids is None,
        steps.len() == 3,
        call_ensures(proxy_handler, (&config, path, headers), steps[0]),
        call_ensures(ProxyStep::resume, (steps[0], ProxyEvent::BodyRead(Ok((body, model)))), steps[1]),
        call_ensures(ProxyStep::resume, (steps[1], ProxyEvent::Picked(Ok(picked))), steps[2]),
    ensures
        ({
            &&& steps[2] matches ProxyStep::Send { request, booking }
            &&& url_is(request.url@, config.upstream_scheme@, picked.endpoint@, path@)
            &&& request.body@ == body@
            &&& booking.request_id@ == id->0@
            &&& booking.endpoint@ == picked.endpoint@
        }),
{
    reveal_strlit("://");
}

/// A drawn ID is a random UUID as it is written in lower case: 36 characters, of which the
/// four hyphens part 8, 4, 4, 4 and 12 hexadecimal digits; one digit tells the version and one
/// the variant.
pub proof fn law_drawn_id_is_a_random_uuid(event: ProxyEvent)
    requires
        call_ensures(draw_request_id, (), event),
    ensures
        ({
            &&& event matches ProxyEvent::RequestIdDrawn(id)
            &&& id@.len() == 36
            &&& id@[8] == '-' && id@[13] == '-' && id@[18] == '-' && id@[23] == '-'
            &&& id@[14] == '4'
            &&& id@[19] == '8' || id@[19] == '9' || id@[19] == 'a' || id@[19] == 'b'
            &&& forall|i: int|
                0 <= i < 36 && i != 8 && i != 13 && i != 18 && i != 23 ==> '0' <= #[trigger] id@[i] <= '9' || 'a'
                    <= id@[i] <= 'f'
        }),
{
}

/// An error is reported with the status and the message that it was given.
pub proof fn law_error_is_reported_as_given(status: u16, message: String, reply: ErrorReply)
    requires
        call_ensures(error_response, (status, message), reply),
    ensures
        reply.status == status,
        reply.message@ == message@,
{
}

/// The body of an answer that reports an error is an object with one member `error`, an
/// object with one member `message`, which is the message in full.
pub proof fn law_error_body_holds_the_message(reply: ErrorReply, body: serde_json::Value)
    requires
        call_ensures(ErrorReply::body, (&reply,), body),
    ensures
        ({
            &&& json_view(body) matches JsonView::Object(members)
            &&& members.dom() == set!["error"@]
            &&& members["error"@] matches JsonView::Object(detail)
            &&& detail.dom() == set!["message"@]
            &&& detail["message"@] == JsonView::Text(reply.message@)
        }),
{
    let members = json_view(body)->Object_0;
    assert(members.dom() =~= set!["error"@]);
    assert(members["error"@]->Object_0.dom() =~= set!["message"@]);
}

} // verus!
