//! What holds of every selection of a worker, whatever the router answers.
#[allow(unused_imports)]
use crate::hints::{DoubleBits, PriorityJump};
#[allow(unused_imports)]
use crate::routing::RoutingService;
#[allow(unused_imports)]
use crate::selection::{
    select_decode, select_prefill, DecodeQuery, DecodeStep, PrefillError, PrefillQuery, PrefillStep, PrefillWorker,
    RoutingError,
};
#[allow(unused_imports)]
use crate::selection::{
    decode_next, decode_selection, decode_start, prefill_next, prefill_selection, prefill_start, DecodeEvent,
    DecodeQueryView, DecodeStepView, PrefillEvent, PrefillQueryOutcome, PrefillQueryView, PrefillStepView,
    WorkerWithDpRank,
};
#[allow(unused_imports)]
use crate::text::write_decimal;
use std::collections::HashSet;
use vstd::prelude::*;

verus! {

/// A call of the prefill router.
pub enum PrefillCall {
    Register(Set<u64>),
    Query(PrefillQueryView),
}

/// The step that the selection of a prefill worker has got to after a series of outcomes.
pub open spec fn prefill_run(start: PrefillStepView, events: Seq<PrefillEvent>) -> PrefillStepView
    decreases events.len(),
{
    if events.len() == 0 {
        start
    } else {
        prefill_next(prefill_run(start, events.drop_last()), events.last())
    }
}

/// The call that was made of the prefill router when an outcome comes in, if it is that of the
/// step.
pub open spec fn prefill_call(step: PrefillStepView, event: PrefillEvent) -> Option<PrefillCall> {
    match (step, event) {
        (PrefillStepView::Register { .. }, PrefillEvent::Registered) => match step.registers() {
            Some(workers) => Some(PrefillCall::Register(workers)),
            None => None,
        },
        (PrefillStepView::Query { query }, PrefillEvent::Answered(_)) => Some(PrefillCall::Query(query)),
        _ => None,
    }
}

/// The calls of the prefill router by the end of a series of outcomes, in order.
pub open spec fn prefill_calls(start: PrefillStepView, events: Seq<PrefillEvent>) -> Seq<PrefillCall>
    decreases events.len(),
{
    if events.len() == 0 {
        Seq::empty()
    } else {
        let before = prefill_calls(start, events.drop_last());
        match prefill_call(prefill_run(start, events.drop_last()), events.last()) {
            Some(call) => before.push(call),
            None => before,
        }
    }
}

/// The calls that come before a query: the router is told of the workers that the query
/// allows, of all of them and only where it names them.
pub open spec fn prefill_calls_before(query: PrefillQueryView) -> Seq<PrefillCall> {
    match query.allowed_worker_ids {
        Some(workers) => seq![PrefillCall::Register(workers)],
        None => Seq::empty(),
    }
}

/// The prefill router is told of the allowed workers exactly once and before it is queried, be
/// the set empty or not and whatever the query comes to; where the query allows all
/// workers, it is told of none. It is queried once.
pub proof fn law_prefill_registers_before_query(query: PrefillQueryView, events: Seq<PrefillEvent>)
    ensures
        ({
            let step = prefill_run(prefill_start(query), events);
            let calls = prefill_calls(prefill_start(query), events);
            &&& step.query() == query
            &&& step is Register ==> query.allowed_worker_ids is Some && calls == Seq::<PrefillCall>::empty()
            &&& step is Query ==> calls == prefill_calls_before(query)
            &&& step is Done ==> calls == prefill_calls_before(query).push(PrefillCall::Query(query))
        }),
    decreases events.len(),
{
    if events.len() > 0 {
        law_prefill_registers_before_query(query, events.drop_last());
    }
}

/// The selection of a prefill worker is what the answer of the router says.
pub proof fn law_prefill_selection_is_the_answer(query: PrefillQueryView, answer: Result<PrefillQueryOutcome, String>)
    ensures
        ({
            let ready = prefill_next(prefill_start(query), PrefillEvent::Registered);
            &&& ready == (PrefillStepView::Query { query })
            &&& prefill_next(ready, PrefillEvent::Answered(answer)) == (PrefillStepView::Done {
                query,
                selection: prefill_selection(answer),
            })
        }),
{
}

/// A call of the decode router.
pub enum DecodeCall {
    Register(Set<u64>),
    Query(DecodeQueryView),
}

/// The step that the selection of a decode worker has got to after a series of outcomes.
pub open spec fn decode_run(start: DecodeStepView, events: Seq<DecodeEvent>) -> DecodeStepView
    decreases events.len(),
{
    if events.len() == 0 {
        start
    } else {
        decode_next(decode_run(start, events.drop_last()), events.last())
    }
}

/// The call that was made of the decode router when an outcome comes in, if it is that of the
/// step.
pub open spec fn decode_call(step: DecodeStepView, event: DecodeEvent) -> Option<DecodeCall> {
    match (step, event) {
        (DecodeStepView::Register { .. }, DecodeEvent::Registered) => match step.registers() {
            Some(workers) => Some(DecodeCall::Register(workers)),
            None => None,
        },
        (DecodeStepView::Query { query }, DecodeEvent::Answered(_)) => Some(DecodeCall::Query(query)),
        _ => None,
    }
}

/// The calls of the decode router by the end of a series of outcomes, in order.
pub open spec fn decode_calls(start: DecodeStepView, events: Seq<DecodeEvent>) -> Seq<DecodeCall>
    decreases events.len(),
{
    if events.len() == 0 {
        Seq::empty()
    } else {
        let before = decode_calls(start, events.drop_last());
        match decode_call(decode_run(start, events.drop_last()), events.last()) {
            Some(call) => before.push(call),
            None => before,
        }
    }
}

/// The calls that come before a query: the router is told of the workers that the query
/// allows, of all of them and only where it names them.
pub open spec fn decode_calls_before(query: DecodeQueryView) -> Seq<DecodeCall> {
    match query.allowed_worker_ids {
        Some(workers) => seq![DecodeCall::Register(workers)],
        None => Seq::empty(),
    }
}

/// The decode router is told of the allowed workers exactly once and before it is queried, be
/// the set empty or not and whatever the query comes to; where the query allows all
/// workers, it is told of none. It is queried once.
pub proof fn law_decode_registers_before_query(query: DecodeQueryView, events: Seq<DecodeEvent>)
    ensures
        ({
            let step = decode_run(decode_start(query), events);
            let calls = decode_calls(decode_start(query), events);
            &&& step.query() == query
            &&& step is Register ==> query.allowed_worker_ids is Some && calls == Seq::<DecodeCall>::empty()
            &&& step is Query ==> calls == decode_calls_before(query)
            &&& step is Done ==> calls == decode_calls_before(query).push(DecodeCall::Query(query))
        }),
    decreases events.len(),
{
    if events.len() > 0 {
        law_decode_registers_before_query(query, events.drop_last());
    }
}

/// The selection of a decode worker is what the answer of the router says.
pub proof fn law_decode_selection_is_the_answer(query: DecodeQueryView, answer: Result<(WorkerWithDpRank, u32), String>)
    ensures
        ({
            let ready = decode_next(decode_start(query), DecodeEvent::Registered);
            &&& ready == (DecodeStepView::Query { query })
            &&& decode_next(ready, DecodeEvent::Answered(answer)) == (DecodeStepView::Done {
                query,
                selection: decode_selection(answer),
            })
        }),
{
}

/// The query for a prefill worker holds all the tokens, the jump and the allowed workers as
/// they were given. It asks without changing the router's state and sets nothing else. The
/// router is told of the allowed workers first exactly where they are given.
pub proof fn law_prefill_query_holds_what_was_given<T, D, P>(
    service: RoutingService<T, D, P>,
    tokens: Vec<u32>,
    priority_jump: PriorityJump,
    allowed: Option<HashSet<u64>>,
    step: PrefillStep,
)
    requires
        call_ensures(RoutingService::<T, D, P>::route_prefill, (&service, tokens, priority_jump, allowed), step),
    ensures
        step is Register <==> allowed is Some,
        step is Query <==> allowed is None,
        ({
            let query = match step {
                PrefillStep::Register { query } => query,
                PrefillStep::Query { query } => query,
                PrefillStep::Done { query, .. } => query,
            };
            &&& query.tokens@ == tokens@
            &&& query.priority_jump == priority_jump
            &&& query.allowed_worker_ids is Some <==> allowed is Some
            &&& allowed is Some ==> query.allowed_worker_ids->0@ == allowed->0@
            &&& !query.update_states
            &&& query.block_mm_infos is None
            &&& query.lora_name is None
        }),
{
}

/// The query for a decode worker holds all the tokens, the jump, the expected output length
/// and the allowed workers as they were given. It asks without changing the router's state
/// and under no context. The router is told of the allowed workers first exactly where they
/// are given.
pub proof fn law_decode_query_holds_what_was_given<T, D, P>(
    service: RoutingService<T, D, P>,
    tokens: Vec<u32>,
    is_disaggregated: bool,
    priority_jump: PriorityJump,
    expected_output_tokens: Option<u32>,
    allowed: Option<HashSet<u64>>,
    step: DecodeStep,
)
    requires
        call_ensures(
            RoutingService::<T, D, P>::route_decode,
            (&service, tokens, is_disaggregated, priority_jump, expected_output_tokens, allowed),
            step,
        ),
    ensures
        step is Register <==> allowed is Some,
        step is Query <==> allowed is None,
        ({
            let query = match step {
                DecodeStep::Register { query } => query,
                DecodeStep::Query { query } => query,
                DecodeStep::Done { query, .. } => query,
            };
            &&& query.tokens@ == tokens@
            &&& query.priority_jump == priority_jump
            &&& query.expected_output_tokens == expected_output_tokens
            &&& query.allowed_worker_ids is Some <==> allowed is Some
            &&& allowed is Some ==> query.allowed_worker_ids->0@ == allowed->0@
            &&& !query.update_states
            &&& query.context_id is None
            &&& query.block_mm_infos is None
            &&& query.lora_name is None
        }),
{
}

/// The decode query of a disaggregated request overrides the router's settings: no credit for
/// overlap, no reuse of the cache, no prefill tokens counted. That of an aggregated request
/// overrides nothing. Tokens, hints and workers make no difference.
pub proof fn law_override_goes_with_disaggregation<T, D, P>(
    service: RoutingService<T, D, P>,
    tokens: Vec<u32>,
    is_disaggregated: bool,
    priority_jump: PriorityJump,
    expected_output_tokens: Option<u32>,
    allowed: Option<HashSet<u64>>,
    step: DecodeStep,
)
    requires
        call_ensures(
            RoutingService::<T, D, P>::route_decode,
            (&service, tokens, is_disaggregated, priority_jump, expected_output_tokens, allowed),
            step,
        ),
    ensures
        ({
            let query = match step {
                DecodeStep::Register { query } => query,
                DecodeStep::Query { query } => query,
                DecodeStep::Done { query, .. } => query,
            };
            &&& query.config_override is Some <==> is_disaggregated
            &&& query.config_override matches Some(settings) ==> {
                &&& settings.overlap_score_credit matches Some(credit) && credit.bits == 0
                &&& settings.assume_kv_reuse == Some(false)
                &&& settings.track_prefill_tokens == Some(false)
            }
        }),
{
}

/// A prefill router that routed to a worker has selected that worker, with the rank that it
/// named or without one.
pub proof fn law_routed_worker_is_selected(
    worker_id: u64,
    dp_rank: Option<u32>,
    selection: Result<PrefillWorker, PrefillError>,
)
    requires
        call_ensures(
            select_prefill,
            (Ok::<PrefillQueryOutcome, String>(PrefillQueryOutcome::Routed { worker_id, dp_rank }),),
            selection,
        ),
    ensures
        selection matches Ok(worker) && worker.0 == worker_id && worker.1 == dp_rank,
{
}

/// No prefill worker is selected exactly where the query failed or the router pushed back,
/// and the error then says which, with what the router gave.
pub proof fn law_prefill_fails_only_on_error_or_backpressure(
    answer: Result<PrefillQueryOutcome, String>,
    selection: Result<PrefillWorker, PrefillError>,
)
    requires
        call_ensures(select_prefill, (answer,), selection),
    ensures
        selection is Ok <==> (answer matches Ok(outcome) && outcome is Routed),
        answer matches Err(reason) ==> (selection matches Err(PrefillError::Query(e)) && e@ == reason@),
        answer matches Ok(PrefillQueryOutcome::Backpressure { reason, queued_isl_tokens, max_queued_isl_tokens })
            ==> (selection matches Err(
            PrefillError::Backpressure { reason: r, queued_isl_tokens: q, max_queued_isl_tokens: m },
        ) && r@ == reason@ && q == queued_isl_tokens && m == max_queued_isl_tokens),
{
}

/// The decode worker that the router found is selected, with the overlap that it counted; a
/// failed query is an error with the reason as it was given.
pub proof fn law_found_decode_worker_is_selected(
    answer: Result<(WorkerWithDpRank, u32), String>,
    selection: Result<(WorkerWithDpRank, u32), RoutingError>,
)
    requires
        call_ensures(select_decode, (answer,), selection),
    ensures
        match answer {
            Ok((worker, overlap)) => selection matches Ok((w, o)) && w.worker_id == worker.worker_id && w.dp_rank
                == worker.dp_rank && o == overlap,
            Err(reason) => selection matches Err(RoutingError::Decode(e)) && e@ == reason@,
        },
{
}

/// The selection of a prefill worker takes the outcome of its step and no other: once the router
/// has been told of the workers it is queried with the same query, and what it answers is the
/// selection.
pub proof fn law_prefill_step_takes_its_outcome(step: PrefillStep, event: PrefillEvent, next: PrefillStep)
    requires
        call_ensures(PrefillStep::resume, (step, event), next),
    ensures
        match step {
            PrefillStep::Register { query } => match event {
                PrefillEvent::Registered => next matches PrefillStep::Query { query: q } && q@ == query@,
                PrefillEvent::Answered(_) => next matches PrefillStep::Register { query: q } && q@ == query@,
            },
            PrefillStep::Query { query } => match event {
                PrefillEvent::Registered => next matches PrefillStep::Query { query: q } && q@ == query@,
                PrefillEvent::Answered(answer) => {
                    &&& next matches PrefillStep::Done { query: q, selection }
                    &&& q@ == query@
                    &&& selection is Ok <==> (answer matches Ok(outcome) && outcome is Routed)
                    &&& answer matches Ok(PrefillQueryOutcome::Routed { worker_id, dp_rank }) ==> selection->Ok_0 == (
                        worker_id,
                        dp_rank,
                    )
                    &&& answer matches Err(reason) ==> (selection->Err_0 matches PrefillError::Query(e) && e@
                        == reason@)
                    &&& answer matches Ok(
                        PrefillQueryOutcome::Backpressure { reason, queued_isl_tokens, max_queued_isl_tokens },
                    ) ==> (selection->Err_0 matches PrefillError::Backpressure {
                        reason: r,
                        queued_isl_tokens: q,
                        max_queued_isl_tokens: m,
                    } && r@ == reason@ && q == queued_isl_tokens && m == max_queued_isl_tokens)
                },
            },
            PrefillStep::Done { .. } => next@ == step@,
        },
{
}

/// A query starts with telling the prefill router of the workers that it allows, where it names
/// them, and with the query itself where it does not.
pub proof fn law_prefill_query_starts_with_its_workers(query: PrefillQuery, step: PrefillStep)
    requires
        call_ensures(PrefillStep::start, (query,), step),
    ensures
        match query.allowed_worker_ids {
            Some(_) => step matches PrefillStep::Register { query: q } && q@ == query@,
            None => step matches PrefillStep::Query { query: q } && q@ == query@,
        },
{
}

/// The prefill router is to be told of the workers that the query allows, of each of them and of
/// no other, and only in the step for it.
pub proof fn law_prefill_workers_to_register_are_the_allowed_ones(step: PrefillStep, ids: Option<&HashSet<u64>>)
    requires
        call_ensures(PrefillStep::workers_to_register, (&step,), ids),
    ensures
        ids matches Some(told) ==> {
            &&& step matches PrefillStep::Register { query }
            &&& query.allowed_worker_ids matches Some(allowed)
            &&& forall|id: u64| #[trigger] told@.contains(id) <==> allowed@.contains(id)
        },
        step matches PrefillStep::Register { query } ==> (query.allowed_worker_ids is Some ==> ids is Some),
{
}

/// The selection of a decode worker takes the outcome of its step and no other: once the router
/// has been told of the workers it is queried with the same query, and what it answers is the
/// selection.
pub proof fn law_decode_step_takes_its_outcome(step: DecodeStep, event: DecodeEvent, next: DecodeStep)
    requires
        call_ensures(DecodeStep::resume, (step, event), next),
    ensures
        match step {
            DecodeStep::Register { query } => match event {
                DecodeEvent::Registered => next matches DecodeStep::Query { query: q } && q@ == query@,
                DecodeEvent::Answered(_) => next matches DecodeStep::Register { query: q } && q@ == query@,
            },
            DecodeStep::Query { query } => match event {
                DecodeEvent::Registered => next matches DecodeStep::Query { query: q } && q@ == query@,
                DecodeEvent::Answered(answer) => {
                    &&& next matches DecodeStep::Done { query: q, selection }
                    &&& q@ == query@
                    &&& match answer {
                        Ok(found) => selection == Ok::<(WorkerWithDpRank, u32), RoutingError>(found),
                        Err(reason) => selection matches Err(RoutingError::Decode(e)) && e@ == reason@,
                    }
                },
            },
            DecodeStep::Done { .. } => next@ == step@,
        },
{
}

/// A query starts with telling the decode router of the workers that it allows, where it names
/// them, and with the query itself where it does not.
pub proof fn law_decode_query_starts_with_its_workers(query: DecodeQuery, step: DecodeStep)
    requires
        call_ensures(DecodeStep::start, (query,), step),
    ensures
        match query.allowed_worker_ids {
            Some(_) => step matches DecodeStep::Register { query: q } && q@ == query@,
            None => step matches DecodeStep::Query { query: q } && q@ == query@,
        },
{
}

/// The decode router is to be told of the workers that the query allows, of each of them and of
/// no other, and only in the step for it.
pub proof fn law_decode_workers_to_register_are_the_allowed_ones(step: DecodeStep, ids: Option<&HashSet<u64>>)
    requires
        call_ensures(DecodeStep::workers_to_register, (&step,), ids),
    ensures
        ids matches Some(told) ==> {
            &&& step matches DecodeStep::Register { query }
            &&& query.allowed_worker_ids matches Some(allowed)
            &&& forall|id: u64| #[trigger] told@.contains(id) <==> allowed@.contains(id)
        },
        step matches DecodeStep::Register { query } ==> (query.allowed_worker_ids is Some ==> ids is Some),
{
}

/// Two prefill queries that read alike hold the same: tokens, jump, workers and all else.
pub proof fn law_prefill_query_is_told_by_its_view(a: PrefillQuery, b: PrefillQuery)
    requires
        a@ == b@,
    ensures
        a.tokens@ == b.tokens@,
        a.priority_jump == b.priority_jump,
        a.update_states == b.update_states,
        a.block_mm_infos == b.block_mm_infos,
        a.lora_name is Some <==> b.lora_name is Some,
        a.lora_name is Some ==> a.lora_name->0@ == b.lora_name->0@,
        a.allowed_worker_ids is Some <==> b.allowed_worker_ids is Some,
        a.allowed_worker_ids is Some ==> a.allowed_worker_ids->0@ == b.allowed_worker_ids->0@,
{
}

/// Two decode queries that read alike hold the same: tokens, jump, settings, workers and all
/// else.
pub proof fn law_decode_query_is_told_by_its_view(a: DecodeQuery, b: DecodeQuery)
    requires
        a@ == b@,
    ensures
        a.tokens@ == b.tokens@,
        a.priority_jump == b.priority_jump,
        a.config_override == b.config_override,
        a.expected_output_tokens == b.expected_output_tokens,
        a.update_states == b.update_states,
        a.block_mm_infos == b.block_mm_infos,
        a.context_id is Some <==> b.context_id is Some,
        a.context_id is Some ==> a.context_id->0@ == b.context_id->0@,
        a.lora_name is Some <==> b.lora_name is Some,
        a.lora_name is Some ==> a.lora_name->0@ == b.lora_name->0@,
        a.allowed_worker_ids is Some <==> b.allowed_worker_ids is Some,
        a.allowed_worker_ids is Some ==> a.allowed_worker_ids->0@ == b.allowed_worker_ids->0@,
{
}

/// Two prefill errors that read alike are of the same kind and say the same.
pub proof fn law_prefill_error_is_told_by_its_view(a: PrefillError, b: PrefillError)
    requires
        a@ == b@,
    ensures
        match a {
            PrefillError::NoWorkers => b is NoWorkers,
            PrefillError::Query(reason) => b matches PrefillError::Query(r) && r@ == reason@,
            PrefillError::Backpressure { reason, queued_isl_tokens, max_queued_isl_tokens } => b matches
                PrefillError::Backpressure { reason: r, queued_isl_tokens: q, max_queued_isl_tokens: m } && r@
                == reason@ && q == queued_isl_tokens && m == max_queued_isl_tokens,
        },
{
}

/// What a failed prefill says: that there is no worker, or what the query failed with, or why
/// the router pushed back with the tokens in its queue and their limit, both in decimal.
pub proof fn law_prefill_error_says_why(
    error: PrefillError,
    message: String,
    queued: u64,
    queued_text: String,
    max: u64,
    max_text: String,
)
    requires
        call_ensures(PrefillError::message, (&error,), message),
        call_ensures(write_decimal, (queued,), queued_text),
        call_ensures(write_decimal, (max,), max_text),
    ensures
        match error {
            PrefillError::NoWorkers => message@ == "no prefill-role workers in candidate set"@,
            PrefillError::Query(reason) => message@ == "Prefill query failed: "@ + reason@,
            PrefillError::Backpressure { reason, queued_isl_tokens, max_queued_isl_tokens } => {
                &&& queued_isl_tokens == queued && max_queued_isl_tokens is None ==> message@
                    == "Prefill router backpressure: "@ + reason@ + " (queued_isl_tokens="@ + queued_text@
                    + ", max="@ + "None"@ + ")"@
                &&& queued_isl_tokens == queued && max_queued_isl_tokens is Some && max_queued_isl_tokens->0 == max
                    ==> message@ == "Prefill router backpressure: "@ + reason@ + " (queued_isl_tokens="@
                    + queued_text@ + ", max="@ + ("Some("@ + max_text@ + ")"@) + ")"@
            },
        },
{
}

/// What a routing error says: a failed tokenization its own reason, a failed query for a
/// decode worker that it failed and why, and a prefill that was enforced the reason that the
/// prefill error itself gives.
pub proof fn law_routing_error_says_why(
    error: RoutingError,
    message: String,
    failure: PrefillError,
    failure_message: String,
)
    requires
        call_ensures(RoutingError::message, (&error,), message),
        call_ensures(PrefillError::message, (&failure,), failure_message),
    ensures
        match error {
            RoutingError::Tokenize(reason) => message@ == reason@,
            RoutingError::Decode(reason) => message@ == "Decode query failed: "@ + reason@,
            RoutingError::EnforcedDisagg(cause) => cause@ == failure@ ==> message@
                == "prefill routing failed under enforce_disagg: "@ + failure_message@,
        },
{
}

} // verus!
