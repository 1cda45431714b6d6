//! What holds of every exchange, whatever the network, the picker and the worker do.
#[allow(unused_imports)]
use crate::headers::{given_request_id, headers_view, text_headers};
#[allow(unused_imports)]
use crate::proxy::{
    booking_of, proxy_next, upstream_headers, upstream_url, BookingView, InboundView, PickResult, ProxyEvent,
    ProxyStepView, ResponseHead, ResponseHeadView, UpstreamRequestView, BAD_GATEWAY, BAD_REQUEST,
    INTERNAL_SERVER_ERROR, MAX_BODY_BYTES, SERVICE_UNAVAILABLE,
};
use vstd::prelude::*;

verus! {

/// A request as it came in.
pub struct ProxyRequest {
    pub inbound: InboundView,
    pub headers: Seq<(Seq<char>, Seq<u8>)>,
}

/// The step in which the exchange of a request starts.
pub open spec fn proxy_start(request: ProxyRequest) -> ProxyStepView {
    ProxyStepView::ReadBody { limit: MAX_BODY_BYTES, inbound: request.inbound, headers: request.headers }
}

/// The step that an exchange has got to after a series of outcomes.
pub open spec fn proxy_run(start: ProxyStepView, events: Seq<ProxyEvent>) -> ProxyStepView
    decreases events.len(),
{
    if events.len() == 0 {
        start
    } else {
        proxy_next(proxy_run(start, events.drop_last()), events.last())
    }
}

/// Whether an exchange is over.
pub open spec fn is_over(step: ProxyStepView) -> bool {
    step is Reply || step is Finished
}

/// The booking that is to be released later on.
pub open spec fn held_booking(step: ProxyStepView) -> Option<BookingView> {
    match step {
        ProxyStepView::InjectTokens { booking, .. } => Some(booking),
        ProxyStepView::Send { booking, .. } => Some(booking),
        ProxyStepView::CompletePrefill { booking, .. } => Some(booking),
        ProxyStepView::Relay { booking, .. } => Some(booking),
        ProxyStepView::Stream { booking } => Some(booking),
        ProxyStepView::Release { booking, .. } => Some(booking),
        ProxyStepView::DetachRelease { booking, .. } => Some(booking),
        _ => None,
    }
}

/// What an exchange gets to on its way.
pub enum Milestone {
    /// A worker was picked, which books load on it.
    Booked,
    /// The worker answered.
    Answered,
    /// The prefill was reported complete.
    PrefillCompleted,
    /// The stream of the answer ended, or could not be started.
    StreamOver,
    /// The request was reported complete, which releases its booking, or the task that
    /// reports it was started.
    Released,
}

/// Whether an outcome reaches a milestone.
pub open spec fn reaches(milestone: Milestone, step: ProxyStepView, event: ProxyEvent) -> bool {
    match milestone {
        Milestone::Booked => step is Pick && event matches ProxyEvent::Picked(Ok(_)),
        Milestone::Answered => step is Send && event matches ProxyEvent::Sent(Ok(_)),
        Milestone::PrefillCompleted => step is CompletePrefill && event is PrefillCompleted,
        Milestone::StreamOver => {
            ||| step is Stream && event is StreamEnded
            ||| step is Relay && event matches ProxyEvent::Relayed(Err(_))
        },
        Milestone::Released => {
            ||| step is Release && event is Released
            ||| step is DetachRelease && event is ReleaseDetached
        },
    }
}

/// How often a milestone was reached in a series of outcomes.
pub open spec fn times(milestone: Milestone, start: ProxyStepView, events: Seq<ProxyEvent>) -> nat
    decreases events.len(),
{
    if events.len() == 0 {
        0
    } else {
        times(milestone, start, events.drop_last()) + if reaches(
            milestone,
            proxy_run(start, events.drop_last()),
            events.last(),
        ) {
            1nat
        } else {
            0nat
        }
    }
}

/// Whether a worker has yet to be picked.
pub open spec fn before_pick(step: ProxyStepView) -> bool {
    step is ReadBody || step is DrawRequestId || step is Pick
}

/// What has been booked, answered, completed and released by the time of a step.
proof fn lemma_ledger(request: ProxyRequest, events: Seq<ProxyEvent>)
    ensures
        ({
            let start = proxy_start(request);
            let step = proxy_run(start, events);
            let booked = times(Milestone::Booked, start, events);
            let released = times(Milestone::Released, start, events);
            let prefilled = times(Milestone::PrefillCompleted, start, events);
            let answered = times(Milestone::Answered, start, events);
            let over = times(Milestone::StreamOver, start, events);
            &&& before_pick(step) ==> booked == 0 && released == 0 && prefilled == 0
            &&& held_booking(step) is Some ==> booked == 1 && released == 0
            &&& step is InjectTokens || step is Send || step is CompletePrefill ==> prefilled == 0
            &&& step matches ProxyStepView::CompletePrefill { booking, .. } ==> booking.is_disaggregated
            &&& step matches ProxyStepView::Relay { booking, .. } ==> prefilled == (if booking.is_disaggregated {
                1nat
            } else {
                0nat
            })
            &&& step matches ProxyStepView::Stream { booking } ==> prefilled == (if booking.is_disaggregated {
                1nat
            } else {
                0nat
            })
            &&& held_booking(step) matches Some(booking) ==> prefilled <= (if booking.is_disaggregated {
                1nat
            } else {
                0nat
            })
            &&& is_over(step) ==> released == booked && booked <= 1 && prefilled <= booked
            &&& before_pick(step) || step is InjectTokens || step is Send || step is Release ==> answered == 0
                && over == 0
            &&& step is CompletePrefill || step is Relay || step is Stream ==> answered == 1 && over == 0
            &&& step is DetachRelease ==> answered == 1 && over == 1
            &&& is_over(step) ==> answered == over && over <= booked
        }),
    decreases events.len(),
{
    if events.len() > 0 {
        lemma_ledger(request, events.drop_last());
    }
}

/// A booking is released exactly once: at any time what was booked and not released is the
/// booking in hand, nothing is booked twice, and once the exchange is over, however it
/// went, every booking has been released.
pub proof fn law_booking_is_released_exactly_once(request: ProxyRequest, events: Seq<ProxyEvent>)
    ensures
        ({
            let start = proxy_start(request);
            let step = proxy_run(start, events);
            let booked = times(Milestone::Booked, start, events);
            let released = times(Milestone::Released, start, events);
            &&& booked <= 1
            &&& booked == released + if held_booking(step) is Some {
                1nat
            } else {
                0nat
            }
            &&& is_over(step) ==> released == booked
        }),
{
    lemma_ledger(request, events);
}

/// The prefill of a request is reported complete at most once, only after load was booked
/// and only for a disaggregated request; and the answer to a disaggregated request is
/// relayed only once its prefill has been reported.
pub proof fn law_prefill_is_completed_before_relaying(request: ProxyRequest, events: Seq<ProxyEvent>)
    ensures
        ({
            let start = proxy_start(request);
            let step = proxy_run(start, events);
            let prefilled = times(Milestone::PrefillCompleted, start, events);
            &&& prefilled <= times(Milestone::Booked, start, events) <= 1
            &&& step matches ProxyStepView::CompletePrefill { booking, .. } ==> booking.is_disaggregated
            &&& held_booking(step) matches Some(booking) ==> (!booking.is_disaggregated ==> prefilled == 0)
            &&& step matches ProxyStepView::Relay { booking, .. } ==> (booking.is_disaggregated ==> prefilled == 1)
            &&& step matches ProxyStepView::Stream { booking } ==> (booking.is_disaggregated ==> prefilled == 1)
        }),
{
    lemma_ledger(request, events);
}

/// Once the worker has answered, its booking is held until the stream of the answer has ended
/// or could not be started, which happens once: no release comes before that. A booking is
/// released without it only where no answer came.
pub proof fn law_answered_request_is_released_after_its_stream(request: ProxyRequest, events: Seq<ProxyEvent>)
    ensures
        ({
            let start = proxy_start(request);
            let step = proxy_run(start, events);
            let answered = times(Milestone::Answered, start, events);
            let over = times(Milestone::StreamOver, start, events);
            let released = times(Milestone::Released, start, events);
            &&& over <= answered <= 1
            &&& answered == 1 && over == 0 ==> released == 0 && held_booking(step) is Some
            &&& answered == 1 && released == 1 ==> over == 1
            &&& step is Release ==> answered == 0
            &&& step is DetachRelease ==> over == 1
        }),
{
    lemma_ledger(request, events);
}

/// The answer to a request whose stream could not be started does not wait for the release
/// of its booking: the release is left to a task of its own, and the error is answered next.
/// Where the worker could not be reached, the error is answered once the booking is
/// released.
pub proof fn law_error_waits_only_for_the_release_of_an_unsent_request(
    request: UpstreamRequestView,
    booking: BookingView,
    head: ResponseHeadView,
    reason: String,
)
    ensures
        ({
            let unsent = proxy_next(ProxyStepView::Send { request, booking }, ProxyEvent::Sent(Err(reason)));
            let unrelayed = proxy_next(ProxyStepView::Relay { booking, head }, ProxyEvent::Relayed(Err(reason)));
            &&& unsent matches ProxyStepView::Release { reply, .. } && reply.status == BAD_GATEWAY && proxy_next(
                unsent,
                ProxyEvent::Released,
            ) == ProxyStepView::Reply(reply)
            &&& unrelayed matches ProxyStepView::DetachRelease { reply: Some(reply), .. } && reply.status
                == INTERNAL_SERVER_ERROR && reply.message == reason@ && proxy_next(
                unrelayed,
                ProxyEvent::ReleaseDetached,
            ) == ProxyStepView::Reply(reply)
        }),
{
}

/// A booking does not change between the pick and the release: the one that is released is
/// the one that the pick made, for the request that was picked for, and only its release
/// ends it.
pub proof fn law_released_booking_is_the_picked_one(step: ProxyStepView, event: ProxyEvent)
    ensures
        ({
            let before = held_booking(step);
            let after = held_booking(proxy_next(step, event));
            &&& before is Some && after is Some ==> after == before
            &&& before is Some && after is None ==> reaches(Milestone::Released, step, event)
            &&& before is None && after is Some ==> {
                &&& step matches ProxyStepView::Pick { request, .. }
                &&& event matches ProxyEvent::Picked(Ok(picked))
                &&& after == Some(booking_of(request.request_id, picked))
            }
        }),
{
}

/// What every step of an exchange takes over from its request.
pub open spec fn keeps_to_request(request: ProxyRequest, step: ProxyStepView) -> bool {
    match step {
        ProxyStepView::ReadBody { limit, inbound, headers } => {
            &&& limit == MAX_BODY_BYTES
            &&& inbound == request.inbound
            &&& headers == request.headers
        },
        ProxyStepView::DrawRequestId { inbound, headers, .. } => {
            &&& given_request_id(request.headers) is None
            &&& inbound == request.inbound
            &&& headers == request.headers
        },
        ProxyStepView::Pick { request: info, inbound } => {
            &&& inbound == request.inbound
            &&& info.headers == text_headers(request.headers)
            &&& info.candidate_subset.len() == 0
            &&& given_request_id(request.headers) matches Some(id) ==> info.request_id == id
        },
        ProxyStepView::InjectTokens { request: upstream, booking, .. } => {
            &&& upstream.url == upstream_url(request.inbound, booking.endpoint)
            &&& given_request_id(request.headers) matches Some(id) ==> booking.request_id == id
        },
        ProxyStepView::Send { request: upstream, booking } => {
            &&& upstream.url == upstream_url(request.inbound, booking.endpoint)
            &&& given_request_id(request.headers) matches Some(id) ==> booking.request_id == id
        },
        ProxyStepView::Reply(reply) => {
            ||| reply.status == BAD_REQUEST
            ||| reply.status == INTERNAL_SERVER_ERROR
            ||| reply.status == BAD_GATEWAY
            ||| reply.status == SERVICE_UNAVAILABLE
        },
        ProxyStepView::Release { booking, reply } => {
            &&& given_request_id(request.headers) matches Some(id) ==> booking.request_id == id
            &&& reply.status == BAD_GATEWAY
        },
        ProxyStepView::DetachRelease { booking, reply } => {
            &&& given_request_id(request.headers) matches Some(id) ==> booking.request_id == id
            &&& reply matches Some(reply) ==> reply.status == INTERNAL_SERVER_ERROR
        },
        _ => held_booking(step) matches Some(booking) ==> (given_request_id(request.headers) matches Some(id)
            ==> booking.request_id == id),
    }
}

/// Every step of an exchange keeps to its request: at most the allowed part of the body is
/// buffered, an ID that the request brings is the one it is booked and released under, the
/// request goes to the picked endpoint under the path by which it came in, and an error is
/// answered with one of four statuses.
pub proof fn law_every_step_keeps_to_the_request(request: ProxyRequest, events: Seq<ProxyEvent>)
    ensures
        keeps_to_request(request, proxy_run(proxy_start(request), events)),
    decreases events.len(),
{
    if events.len() > 0 {
        law_every_step_keeps_to_the_request(request, events.drop_last());
    }
}

/// What is known of a request by the time that it is forwarded.
pub struct Forwarding {
    pub body: Vec<u8>,
    pub model: Option<String>,
    pub drawn_id: String,
    pub picked: PickResult,
    pub injected: Option<Vec<u8>>,
}

/// Gives an exchange the outcome of its step, up to the sending of the request.
pub open spec fn forwarded(step: ProxyStepView, f: Forwarding) -> ProxyStepView {
    match step {
        ProxyStepView::ReadBody { .. } => proxy_next(step, ProxyEvent::BodyRead(Ok((f.body, f.model)))),
        ProxyStepView::DrawRequestId { .. } => proxy_next(step, ProxyEvent::RequestIdDrawn(f.drawn_id)),
        ProxyStepView::Pick { .. } => proxy_next(step, ProxyEvent::Picked(Ok(f.picked))),
        ProxyStepView::InjectTokens { .. } => proxy_next(step, ProxyEvent::TokensInjected(f.injected)),
        _ => step,
    }
}

/// The ID of a request: the one that it brings, or else the one drawn for it.
pub open spec fn request_id_of(request: ProxyRequest, f: Forwarding) -> Seq<char> {
    match given_request_id(request.headers) {
        Some(id) => id,
        None => f.drawn_id@,
    }
}

/// The body that is forwarded: the body as it came in, unless the picker made tokens and
/// they could be written into it.
pub open spec fn forwarded_body(f: Forwarding) -> Seq<u8> {
    match (f.picked.token_ids, f.injected) {
        (Some(_), Some(body)) => body@,
        _ => f.body@,
    }
}

/// Once a worker was picked, the request goes to it: with its own path, the picker's
/// headers, and its own body, which is only touched where the picker made tokens.
pub proof fn law_picked_request_is_forwarded(request: ProxyRequest, f: Forwarding)
    ensures
        forwarded(forwarded(forwarded(forwarded(proxy_start(request), f), f), f), f) == (ProxyStepView::Send {
            request: (UpstreamRequestView {
                url: upstream_url(request.inbound, f.picked.endpoint@),
                headers: upstream_headers(headers_view(f.picked.headers@)),
                body: forwarded_body(f),
            }),
            booking: booking_of(request_id_of(request, f), f.picked),
        }),
{
}

/// A body for which the picker made no tokens is forwarded as it is.
pub proof fn law_body_without_tokens_is_forwarded_unchanged(f: Forwarding)
    requires
        f.picked.token_ids is None,
    ensures
        forwarded_body(f) == f.body@,
{
}

/// The answer of a worker is relayed as it is: its status and all its headers, whether or
/// not a prefill has to be completed first.
pub proof fn law_answer_is_relayed_unchanged(request: UpstreamRequestView, booking: BookingView, head: ResponseHead)
    ensures
        ({
            let sent = proxy_next(ProxyStepView::Send { request, booking }, ProxyEvent::Sent(Ok(head)));
            let ready = if booking.is_disaggregated {
                proxy_next(sent, ProxyEvent::PrefillCompleted)
            } else {
                sent
            };
            ready == (ProxyStepView::Relay { booking, head: head@ })
        }),
{
}

/// How many outcomes an exchange can still wait for.
pub open spec fn outcomes_left(step: ProxyStepView) -> nat {
    match step {
        ProxyStepView::ReadBody { .. } => 9,
        ProxyStepView::DrawRequestId { .. } => 8,
        ProxyStepView::Pick { .. } => 7,
        ProxyStepView::InjectTokens { .. } => 6,
        ProxyStepView::Send { .. } => 5,
        ProxyStepView::CompletePrefill { .. } => 4,
        ProxyStepView::Relay { .. } => 3,
        ProxyStepView::Stream { .. } => 2,
        ProxyStepView::Release { .. } => 1,
        ProxyStepView::DetachRelease { .. } => 1,
        ProxyStepView::Reply(_) => 0,
        ProxyStepView::Finished => 0,
    }
}

/// Whether an outcome is that of the step to be done.
pub open spec fn is_outcome_of(step: ProxyStepView, event: ProxyEvent) -> bool {
    match (step, event) {
        (ProxyStepView::ReadBody { .. }, ProxyEvent::BodyRead(_)) => true,
        (ProxyStepView::DrawRequestId { .. }, ProxyEvent::RequestIdDrawn(_)) => true,
        (ProxyStepView::Pick { .. }, ProxyEvent::Picked(_)) => true,
        (ProxyStepView::InjectTokens { .. }, ProxyEvent::TokensInjected(_)) => true,
        (ProxyStepView::Send { .. }, ProxyEvent::Sent(_)) => true,
        (ProxyStepView::CompletePrefill { .. }, ProxyEvent::PrefillCompleted) => true,
        (ProxyStepView::Relay { .. }, ProxyEvent::Relayed(_)) => true,
        (ProxyStepView::Stream { .. }, ProxyEvent::StreamEnded) => true,
        (ProxyStepView::Release { .. }, ProxyEvent::Released) => true,
        (ProxyStepView::DetachRelease { .. }, ProxyEvent::ReleaseDetached) => true,
        _ => false,
    }
}

/// Every outcome of the step to be done brings an exchange nearer to its end, and only an
/// exchange that is over has no step left.
pub proof fn law_exchange_makes_progress(step: ProxyStepView, event: ProxyEvent)
    ensures
        is_outcome_of(step, event) ==> outcomes_left(proxy_next(step, event)) < outcomes_left(step),
        outcomes_left(step) == 0 <==> is_over(step),
{
}

} // verus!
