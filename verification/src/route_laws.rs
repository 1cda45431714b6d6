//! What holds of every routing, whatever the tokenizer and the routers answer.
#[allow(unused_imports)]
use crate::hints::hints_of;
#[allow(unused_imports)]
use crate::routing::{after_tokenizer, route_next, RouteEvent, RouteStepView, RoutingDecisionView};
#[allow(unused_imports)]
use crate::selection::{
    decode_query, prefill_query, prefill_selection, DecodeEvent, DecodeQueryView, DecodeStepView, PrefillErrorView,
    PrefillEvent, PrefillQueryOutcome, PrefillQueryView, PrefillStepView, PrefillWorker, RoutingErrorView,
    WorkerWithDpRank,
};
#[allow(unused_imports)]
use crate::tokenizer::{TokenizeAnswer, TokenizeStepView};
use vstd::prelude::*;

verus! {

/// A request as routing sees it: its body and the workers to choose from.
pub struct RouteRequest {
    pub body: Seq<char>,
    pub prefill_ids: Set<u64>,
    pub decode_ids: Set<u64>,
}

/// The step in which a request starts, when its tokenizer starts with `first`.
pub open spec fn route_start(request: RouteRequest, first: TokenizeStepView) -> RouteStepView {
    after_tokenizer(
        first,
        hints_of(request.body).0,
        hints_of(request.body).1,
        request.prefill_ids,
        request.decode_ids,
    )
}

/// The step that a routing has got to after a series of answers.
pub open spec fn route_run(start: RouteStepView, events: Seq<RouteEvent>) -> RouteStepView
    decreases events.len(),
{
    if events.len() == 0 {
        start
    } else {
        route_next(route_run(start, events.drop_last()), events.last())
    }
}

/// What every step of the routing of a request obeys.
pub open spec fn route_invariant(request: RouteRequest, step: RouteStepView) -> bool {
    let (jump, osl) = hints_of(request.body);
    match step {
        RouteStepView::Tokenize { priority_jump, osl: o, prefill_ids, decode_ids, .. } => {
            &&& priority_jump == jump
            &&& o == osl
            &&& prefill_ids == request.prefill_ids
            &&& decode_ids == request.decode_ids
        },
        RouteStepView::Prefill { step, osl: o, decode_ids } => {
            &&& !request.prefill_ids.is_empty()
            &&& !(step is Done)
            &&& step.query() == prefill_query(step.query().tokens, jump, Some(request.prefill_ids))
            &&& o == osl
            &&& decode_ids == request.decode_ids
        },
        RouteStepView::CheckEnforceDisagg { failure, priority_jump, osl: o, decode_ids, .. } => {
            &&& failure is NoWorkers <==> request.prefill_ids.is_empty()
            &&& priority_jump == jump
            &&& o == osl
            &&& decode_ids == request.decode_ids
        },
        RouteStepView::Decode { step, prefill_worker } => {
            &&& !(step is Done)
            &&& step.query() == decode_query(
                step.query().tokens,
                prefill_worker is Some,
                jump,
                osl,
                Some(request.decode_ids),
            )
            &&& prefill_worker is Some ==> !request.prefill_ids.is_empty()
        },
        RouteStepView::Done(Ok(decision)) => {
            &&& decision.priority_jump == jump
            &&& decision.osl == osl
            &&& decision.is_disaggregated <==> decision.prefill_worker is Some
            &&& decision.is_disaggregated ==> !request.prefill_ids.is_empty()
        },
        RouteStepView::Done(Err(RoutingErrorView::EnforcedDisagg(failure))) => {
            failure is NoWorkers <==> request.prefill_ids.is_empty()
        },
        RouteStepView::Done(Err(_)) => true,
    }
}

/// Every step of a routing keeps to the request: prefill is asked for only where there are
/// prefill workers and only among them, decode only among the decode workers, with the
/// override exactly where a prefill worker was selected, and the hints are those of the
/// body.
pub proof fn law_every_step_keeps_to_the_request(
    request: RouteRequest,
    first: TokenizeStepView,
    events: Seq<RouteEvent>,
)
    ensures
        route_invariant(request, route_run(route_start(request, first), events)),
    decreases events.len(),
{
    if events.len() > 0 {
        law_every_step_keeps_to_the_request(request, first, events.drop_last());
    }
}

/// A decision is disaggregated exactly when it names a prefill worker.
pub proof fn law_disaggregated_iff_prefill_worker(
    request: RouteRequest,
    first: TokenizeStepView,
    events: Seq<RouteEvent>,
)
    ensures
        route_run(route_start(request, first), events) matches RouteStepView::Done(Ok(decision)) ==> (
        decision.is_disaggregated <==> decision.prefill_worker is Some),
{
    law_every_step_keeps_to_the_request(request, first, events);
}

/// The hints survive every tokenization mode: whatever tokenizer is used and whatever is
/// answered, a decision carries the hints of the raw body.
pub proof fn law_hints_survive_tokenization(
    request: RouteRequest,
    first: TokenizeStepView,
    events: Seq<RouteEvent>,
)
    ensures
        route_run(route_start(request, first), events) matches RouteStepView::Done(Ok(decision)) ==> (
        decision.priority_jump,
        decision.osl,
    ) == hints_of(request.body),
{
    law_every_step_keeps_to_the_request(request, first, events);
}

/// Prefill is attempted only when there are prefill workers: without any, the prefill
/// router is never queried and no decision is disaggregated.
pub proof fn law_no_prefill_without_workers(request: RouteRequest, first: TokenizeStepView, events: Seq<RouteEvent>)
    requires
        request.prefill_ids.is_empty(),
    ensures
        !(route_run(route_start(request, first), events) is Prefill),
        route_run(route_start(request, first), events) matches RouteStepView::Done(Ok(decision)) ==>
            !decision.is_disaggregated,
{
    law_every_step_keeps_to_the_request(request, first, events);
}

/// The answers that the two routers have ready for a request.
pub struct RouterAnswers {
    pub prefill: Result<PrefillQueryOutcome, String>,
    pub enforce_disagg: bool,
    pub decode: Result<(WorkerWithDpRank, u32), String>,
}

/// Gives a routing the answer to the call that it waits for.
pub open spec fn answered(step: RouteStepView, answers: RouterAnswers) -> RouteStepView {
    match step {
        RouteStepView::Prefill { step: PrefillStepView::Register { .. }, .. } => route_next(
            step,
            RouteEvent::Prefill(PrefillEvent::Registered),
        ),
        RouteStepView::Prefill { .. } => route_next(
            step,
            RouteEvent::Prefill(PrefillEvent::Answered(answers.prefill)),
        ),
        RouteStepView::CheckEnforceDisagg { .. } => route_next(
            step,
            RouteEvent::EnforceDisagg(answers.enforce_disagg),
        ),
        RouteStepView::Decode { step: DecodeStepView::Register { .. }, .. } => route_next(
            step,
            RouteEvent::Decode(DecodeEvent::Registered),
        ),
        RouteStepView::Decode { .. } => route_next(step, RouteEvent::Decode(DecodeEvent::Answered(answers.decode))),
        _ => step,
    }
}

/// Whether a prefill worker is found, and which.
pub open spec fn prefill_result(
    prefill_ids: Set<u64>,
    answers: RouterAnswers,
) -> Result<PrefillWorker, PrefillErrorView> {
    if prefill_ids.is_empty() {
        Err(PrefillErrorView::NoWorkers)
    } else {
        prefill_selection(answers.prefill)
    }
}

/// What routing a tokenized request comes to. On a failed prefill it is an error where
/// disaggregation is enforced; elsewhere the request falls back to a decode worker alone.
pub open spec fn route_outcome(
    request: RouteRequest,
    tokens: Seq<u32>,
    answers: RouterAnswers,
) -> Result<RoutingDecisionView, RoutingErrorView> {
    let prefill = prefill_result(request.prefill_ids, answers);
    if prefill is Err && answers.enforce_disagg {
        Err(RoutingErrorView::EnforcedDisagg(prefill->Err_0))
    } else {
        match answers.decode {
            Err(e) => Err(RoutingErrorView::Decode(e@)),
            Ok((decode_worker, _)) => Ok(
                RoutingDecisionView {
                    tokens,
                    priority_jump: hints_of(request.body).0,
                    osl: hints_of(request.body).1,
                    decode_worker,
                    prefill_worker: match prefill {
                        Ok(worker) => Some(worker),
                        Err(_) => None,
                    },
                    is_disaggregated: prefill is Ok,
                },
            ),
        }
    }
}

/// A tokenized request is routed after at most five answers, with exactly the result that
/// [`route_outcome`] states; a request that could not be tokenized is not routed.
pub proof fn law_route_outcome(request: RouteRequest, tokenized: Result<Seq<u32>, Seq<char>>, answers: RouterAnswers)
    ensures
        ({
            let start = route_start(request, TokenizeStepView::Done(tokenized));
            let selected = answered(answered(answered(start, answers), answers), answers);
            let end = answered(answered(selected, answers), answers);
            match tokenized {
                Ok(tokens) => end == RouteStepView::Done(route_outcome(request, tokens, answers)),
                Err(e) => start == RouteStepView::Done(Err(RoutingErrorView::Tokenize(e))) && end == start,
            }
        }),
{
}

/// Under enforced disaggregation a request is never served without a prefill worker.
pub proof fn law_enforced_disaggregation(request: RouteRequest, tokens: Seq<u32>, answers: RouterAnswers)
    requires
        answers.enforce_disagg,
    ensures
        route_outcome(request, tokens, answers) matches Ok(decision) ==> decision.is_disaggregated,
        prefill_result(request.prefill_ids, answers) matches Err(failure) ==> route_outcome(request, tokens, answers)
            == Err::<RoutingDecisionView, RoutingErrorView>(RoutingErrorView::EnforcedDisagg(failure)),
{
}

/// Where disaggregation is not enforced, a failed prefill never fails the request: it is
/// served by the decode worker that was selected.
pub proof fn law_fallback_to_aggregated(request: RouteRequest, tokens: Seq<u32>, answers: RouterAnswers)
    requires
        !answers.enforce_disagg,
        prefill_result(request.prefill_ids, answers) is Err,
        answers.decode is Ok,
    ensures
        route_outcome(request, tokens, answers) matches Ok(decision) && !decision.is_disaggregated
            && decision.prefill_worker is None && decision.decode_worker == answers.decode->Ok_0.0,
{
}

/// How many answers a routing can still wait for.
pub open spec fn answers_left(step: RouteStepView) -> nat {
    match step {
        RouteStepView::Tokenize { step: TokenizeStepView::ReadRequest { .. }, .. } => 8,
        RouteStepView::Tokenize { step: TokenizeStepView::ApplyTemplate { .. }, .. } => 7,
        RouteStepView::Tokenize { .. } => 6,
        RouteStepView::Prefill { step: PrefillStepView::Register { .. }, .. } => 5,
        RouteStepView::Prefill { .. } => 4,
        RouteStepView::CheckEnforceDisagg { .. } => 3,
        RouteStepView::Decode { step: DecodeStepView::Register { .. }, .. } => 2,
        RouteStepView::Decode { .. } => 1,
        RouteStepView::Done(_) => 0,
    }
}

/// Whether an answer is one to the call that a routing waits for.
pub open spec fn answers_call(step: RouteStepView, event: RouteEvent) -> bool {
    match (step, event) {
        (RouteStepView::Tokenize { step, .. }, RouteEvent::Tokenize(answer)) => match step {
            TokenizeStepView::ReadRequest { .. } => answer is Read,
            TokenizeStepView::ApplyTemplate { .. } => answer is Formatted,
            TokenizeStepView::Encode { .. } => answer is Encoded,
            TokenizeStepView::Done(_) => false,
        },
        (RouteStepView::Prefill { step, .. }, RouteEvent::Prefill(outcome)) => match step {
            PrefillStepView::Register { .. } => outcome is Registered,
            PrefillStepView::Query { .. } => outcome is Answered,
            PrefillStepView::Done { .. } => false,
        },
        (RouteStepView::CheckEnforceDisagg { .. }, RouteEvent::EnforceDisagg(_)) => true,
        (RouteStepView::Decode { step, .. }, RouteEvent::Decode(outcome)) => match step {
            DecodeStepView::Register { .. } => outcome is Registered,
            DecodeStepView::Query { .. } => outcome is Answered,
            DecodeStepView::Done { .. } => false,
        },
        _ => false,
    }
}

/// Every answer to the call that is waited for brings a routing nearer to its end.
pub proof fn law_routing_makes_progress(step: RouteStepView, event: RouteEvent)
    requires
        answers_call(step, event),
    ensures
        answers_left(route_next(step, event)) < answers_left(step),
{
}

/// A call of one of the two routers.
pub enum RouterCall {
    RegisterPrefill(Set<u64>),
    QueryPrefill(PrefillQueryView),
    EnforceDisagg,
    RegisterDecode(Set<u64>),
    QueryDecode(DecodeQueryView),
}

/// The call of a router that a routing waits for.
pub open spec fn awaited_call(step: RouteStepView) -> Option<RouterCall> {
    match step {
        RouteStepView::Prefill { step: PrefillStepView::Query { query }, .. } => Some(RouterCall::QueryPrefill(query)),
        RouteStepView::Prefill { step, .. } => match step.registers() {
            Some(workers) => Some(RouterCall::RegisterPrefill(workers)),
            None => None,
        },
        RouteStepView::CheckEnforceDisagg { .. } => Some(RouterCall::EnforceDisagg),
        RouteStepView::Decode { step: DecodeStepView::Query { query }, .. } => Some(RouterCall::QueryDecode(query)),
        RouteStepView::Decode { step, .. } => match step.registers() {
            Some(workers) => Some(RouterCall::RegisterDecode(workers)),
            None => None,
        },
        _ => None,
    }
}

/// The calls of the routers by the end of a series of answers, in order.
pub open spec fn router_calls(start: RouteStepView, events: Seq<RouteEvent>) -> Seq<RouterCall>
    decreases events.len(),
{
    if events.len() == 0 {
        Seq::empty()
    } else {
        let before = router_calls(start, events.drop_last());
        let step = route_run(start, events.drop_last());
        if answers_call(step, events.last()) && awaited_call(step) is Some {
            before.push(awaited_call(step)->0)
        } else {
            before
        }
    }
}

/// The calls that select a prefill worker for a request.
pub open spec fn calls_for_prefill(request: RouteRequest, tokens: Seq<u32>) -> Seq<RouterCall> {
    if request.prefill_ids.is_empty() {
        Seq::empty()
    } else {
        seq![
            RouterCall::RegisterPrefill(request.prefill_ids),
            RouterCall::QueryPrefill(prefill_query(tokens, hints_of(request.body).0, Some(request.prefill_ids))),
        ]
    }
}

/// The calls that come before the selection of a decode worker. Whether disaggregation is
/// enforced is asked only where no prefill worker was selected.
pub open spec fn calls_before_decode(
    request: RouteRequest,
    tokens: Seq<u32>,
    is_disaggregated: bool,
) -> Seq<RouterCall> {
    if is_disaggregated {
        calls_for_prefill(request, tokens)
    } else {
        calls_for_prefill(request, tokens).push(RouterCall::EnforceDisagg)
    }
}

/// All the calls of a routing that gets as far as the query for a decode worker.
pub open spec fn calls_of_routing(
    request: RouteRequest,
    tokens: Seq<u32>,
    is_disaggregated: bool,
) -> Seq<RouterCall> {
    let (jump, osl) = hints_of(request.body);
    calls_before_decode(request, tokens, is_disaggregated).push(RouterCall::RegisterDecode(request.decode_ids)).push(
        RouterCall::QueryDecode(decode_query(tokens, is_disaggregated, jump, osl, Some(request.decode_ids))),
    )
}

/// What calls have been made by the time of a step.
pub open spec fn calls_so_far(request: RouteRequest, step: RouteStepView, calls: Seq<RouterCall>) -> bool {
    match step {
        RouteStepView::Tokenize { .. } => calls == Seq::<RouterCall>::empty(),
        RouteStepView::Prefill { step: PrefillStepView::Query { .. }, .. } => calls == seq![
            RouterCall::RegisterPrefill(request.prefill_ids),
        ],
        RouteStepView::Prefill { .. } => calls == Seq::<RouterCall>::empty(),
        RouteStepView::CheckEnforceDisagg { tokens, .. } => calls == calls_for_prefill(request, tokens),
        RouteStepView::Decode { step, prefill_worker } => {
            let before = calls_before_decode(request, step.query().tokens, prefill_worker is Some);
            calls == if step is Query {
                before.push(RouterCall::RegisterDecode(request.decode_ids))
            } else {
                before
            }
        },
        RouteStepView::Done(Ok(decision)) => calls == calls_of_routing(
            request,
            decision.tokens,
            decision.is_disaggregated,
        ),
        RouteStepView::Done(Err(RoutingErrorView::Tokenize(_))) => calls == Seq::<RouterCall>::empty(),
        RouteStepView::Done(Err(RoutingErrorView::EnforcedDisagg(_))) => exists|tokens: Seq<u32>|
            calls == #[trigger] calls_before_decode(request, tokens, false),
        RouteStepView::Done(Err(RoutingErrorView::Decode(_))) => exists|tokens: Seq<u32>, is_disaggregated: bool|
            calls == #[trigger] calls_of_routing(request, tokens, is_disaggregated),
    }
}

/// A routing calls the routers in one order: the prefill router is told of the prefill
/// workers and then queried, where there are any; without a prefill worker it is asked
/// whether disaggregation is enforced; then the decode router is told of the decode workers
/// and queried. Each call is made once, and a router is told of the whole set, whatever its
/// query comes to. While a request is tokenized no router is called.
pub proof fn law_routers_are_called_in_order(request: RouteRequest, first: TokenizeStepView, events: Seq<RouteEvent>)
    ensures
        calls_so_far(
            request,
            route_run(route_start(request, first), events),
            router_calls(route_start(request, first), events),
        ),
    decreases events.len(),
{
    let start = route_start(request, first);
    if events.len() > 0 {
        law_routers_are_called_in_order(request, first, events.drop_last());
        law_every_step_keeps_to_the_request(request, first, events.drop_last());
        let before = route_run(start, events.drop_last());
        let calls = router_calls(start, events);
        if answers_call(before, events.last()) {
            match before {
                RouteStepView::Prefill { step, .. } => {
                    assert(step is Register ==> calls =~= seq![RouterCall::RegisterPrefill(request.prefill_ids)]);
                    assert(step is Query ==> calls =~= calls_for_prefill(request, step.query().tokens));
                },
                RouteStepView::CheckEnforceDisagg { tokens, .. } => {
                    assert(calls == calls_before_decode(request, tokens, false));
                },
                RouteStepView::Decode { step, prefill_worker } => {
                    assert(step is Query ==> calls == calls_of_routing(
                        request,
                        step.query().tokens,
                        prefill_worker is Some,
                    ));
                },
                _ => {},
            }
        }
    }
}

/// The tokens that a step holds, if it holds any.
pub open spec fn held_tokens(step: RouteStepView) -> Option<Seq<u32>> {
    match step {
        RouteStepView::Tokenize { .. } => None,
        RouteStepView::Prefill { step, .. } => Some(step.query().tokens),
        RouteStepView::CheckEnforceDisagg { tokens, .. } => Some(tokens),
        RouteStepView::Decode { step, .. } => Some(step.query().tokens),
        RouteStepView::Done(Ok(decision)) => Some(decision.tokens),
        RouteStepView::Done(Err(_)) => None,
    }
}

/// Whether an answer is that of the tokenizer with these tokens.
pub open spec fn gives_tokens(event: RouteEvent, tokens: Seq<u32>) -> bool {
    event matches RouteEvent::Tokenize(TokenizeAnswer::Encoded(Ok(answered))) && answered@ == tokens
}

/// A routing never makes up tokens, and never cuts them: whatever it holds after a series of
/// answers, if its request is tokenized exactly, is what the tokenizer answered in one of
/// them; and no later answer changes it.
pub proof fn law_tokens_are_never_changed(request: RouteRequest, body: Seq<char>, events: Seq<RouteEvent>)
    ensures
        ({
            let start = route_start(request, TokenizeStepView::ReadRequest { body });
            held_tokens(route_run(start, events)) matches Some(held) ==> exists|i: int|
                0 <= i < events.len() && gives_tokens(#[trigger] events[i], held)
        }),
        ({
            let step = route_run(route_start(request, TokenizeStepView::ReadRequest { body }), events);
            forall|event: RouteEvent|
                held_tokens(step) is Some ==> (held_tokens(#[trigger] route_next(step, event)) == held_tokens(step)
                    || held_tokens(route_next(step, event)) is None)
        }),
    decreases events.len(),
{
    let first = TokenizeStepView::ReadRequest { body };
    let start = route_start(request, first);
    if events.len() > 0 {
        law_tokens_are_never_changed(request, body, events.drop_last());
        lemma_waiting_is_not_done(request, first, events.drop_last());
        let before = route_run(start, events.drop_last());
        if let Some(held) = held_tokens(before) {
            let i = choose|i: int|
                0 <= i < events.drop_last().len() && gives_tokens(#[trigger] events.drop_last()[i], held);
            assert(events[i] == events.drop_last()[i]);
        } else {
            assert(events[events.len() - 1] == events.last());
        }
    }
}

/// A routing that waits for its tokenizer waits for a step that is not over.
proof fn lemma_waiting_is_not_done(request: RouteRequest, first: TokenizeStepView, events: Seq<RouteEvent>)
    ensures
        route_run(route_start(request, first), events) matches RouteStepView::Tokenize { step, .. } ==> !(step is Done),
    decreases events.len(),
{
    if events.len() > 0 {
        lemma_waiting_is_not_done(request, first, events.drop_last());
    }
}

/// What a request comes to that is tokenized exactly, for every answer of the reading, the
/// template, the tokenizer and the routers. The first failure of the first three is the
/// result. Otherwise a prefill worker is the one that the router routed to, and there is none
/// without prefill workers, on an error and on backpressure; without one, enforcement fails
/// the request with what prefill failed with. Else the request is served by the decode worker
/// that was found, with the tokens as answered and the hints of the body.
pub proof fn law_exact_route_outcome(
    request: RouteRequest,
    read: Result<(), String>,
    formatted: Result<Option<String>, String>,
    encoded: Result<Vec<u32>, String>,
    answers: RouterAnswers,
)
    ensures
        ({
            let start = route_start(request, TokenizeStepView::ReadRequest { body: request.body });
            let was_read = route_next(start, RouteEvent::Tokenize(TokenizeAnswer::Read(read)));
            let was_formatted = route_next(was_read, RouteEvent::Tokenize(TokenizeAnswer::Formatted(formatted)));
            let tokenized = route_next(was_formatted, RouteEvent::Tokenize(TokenizeAnswer::Encoded(encoded)));
            let selected = answered(answered(answered(tokenized, answers), answers), answers);
            let end = answered(answered(selected, answers), answers);
            let (jump, osl) = hints_of(request.body);
            let routed = !request.prefill_ids.is_empty() && answers.prefill is Ok && answers.prefill->Ok_0 is Routed;
            if read is Err {
                end == RouteStepView::Done(Err(RoutingErrorView::Tokenize(read->Err_0@)))
            } else if formatted is Err {
                end == RouteStepView::Done(Err(RoutingErrorView::Tokenize(formatted->Err_0@)))
            } else if encoded is Err {
                end == RouteStepView::Done(Err(RoutingErrorView::Tokenize(encoded->Err_0@)))
            } else if !routed && answers.enforce_disagg {
                end == RouteStepView::Done(
                    Err(
                        RoutingErrorView::EnforcedDisagg(
                            if request.prefill_ids.is_empty() {
                                PrefillErrorView::NoWorkers
                            } else {
                                match answers.prefill {
                                    Err(reason) => PrefillErrorView::Query(reason@),
                                    Ok(
                                        PrefillQueryOutcome::Backpressure {
                                            reason,
                                            queued_isl_tokens,
                                            max_queued_isl_tokens,
                                        },
                                    ) => PrefillErrorView::Backpressure {
                                        reason: reason@,
                                        queued_isl_tokens,
                                        max_queued_isl_tokens,
                                    },
                                    Ok(PrefillQueryOutcome::Routed { .. }) => PrefillErrorView::NoWorkers,
                                }
                            },
                        ),
                    ),
                )
            } else if answers.decode is Err {
                end == RouteStepView::Done(Err(RoutingErrorView::Decode(answers.decode->Err_0@)))
            } else {
                &&& end matches RouteStepView::Done(Ok(decision))
                &&& decision.tokens == encoded->Ok_0@
                &&& decision.priority_jump == jump
                &&& decision.osl == osl
                &&& decision.decode_worker == answers.decode->Ok_0.0
                &&& decision.is_disaggregated <==> routed
                &&& decision.prefill_worker is Some <==> routed
                &&& routed ==> decision.prefill_worker == Some(
                    (answers.prefill->Ok_0->worker_id, answers.prefill->Ok_0->dp_rank),
                )
            }
        }),
{
}

} // verus!
