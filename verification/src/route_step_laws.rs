//! What each step of a routing leads to, in terms of what it was given and what was answered.
#[allow(unused_imports)]
use crate::hints::{extract_hints, hints_of, PriorityJump};
#[allow(unused_imports)]
use crate::routing::{after_tokenizer, RouteEvent, RouteStep, RoutingDecision, RoutingService};
#[allow(unused_imports)]
use crate::selection::{
    DecodeEvent, DecodeQuery, DecodeStep, PrefillError, PrefillEvent, PrefillQuery, PrefillQueryOutcome, PrefillStep,
    PrefillWorker, RoutingError, WorkerWithDpRank,
};
#[allow(unused_imports)]
use crate::tokenizer::{PreprocessorTokenizer, RequestTokenizer, TokenizeAnswer, TokenizeStep};
use std::collections::HashSet;
use std::sync::Arc;
use vstd::prelude::*;

verus! {

/// A service works with the tokenizer and the routers that it was made with.
pub proof fn law_service_keeps_its_parts<T, D, P>(
    tokenizer: Arc<T>,
    decode_router: Arc<D>,
    prefill_router: Arc<P>,
    service: RoutingService<T, D, P>,
)
    requires
        call_ensures(RoutingService::<T, D, P>::new, (tokenizer, decode_router, prefill_router), service),
    ensures
        service.tokenizer == tokenizer,
        service.decode_router == decode_router,
        service.prefill_router == prefill_router,
{
}

/// While a request is tokenized, the routing waits with the hints and the workers that it
/// started with: what was read has the template applied to it, what the template gave is
/// tokenized, and a failure of either ends the routing with its reason.
pub proof fn law_tokenization_is_waited_for<T, D, P>(
    service: RoutingService<T, D, P>,
    step: TokenizeStep,
    priority_jump: PriorityJump,
    osl: Option<u32>,
    prefill_ids: HashSet<u64>,
    decode_ids: HashSet<u64>,
    answer: TokenizeAnswer,
    next: RouteStep,
)
    requires
        call_ensures(
            RoutingService::<T, D, P>::resume,
            (
                &service,
                RouteStep::Tokenize { step, priority_jump, osl, prefill_ids, decode_ids },
                RouteEvent::Tokenize(answer),
            ),
            next,
        ),
    ensures
        next matches RouteStep::Tokenize {
            priority_jump: jump,
            osl: length,
            prefill_ids: prefill,
            decode_ids: decode,
            ..
        } ==> jump == priority_jump && length == osl && prefill@ == prefill_ids@ && decode@ == decode_ids@,
        step matches TokenizeStep::ReadRequest { body } ==> {
            &&& answer matches TokenizeAnswer::Read(Ok(())) ==> (next matches RouteStep::Tokenize {
                step: TokenizeStep::ApplyTemplate { body: b },
                ..
            } && b@ == body@)
            &&& answer matches TokenizeAnswer::Read(Err(reason)) ==> (next matches RouteStep::Done(
                Err(RoutingError::Tokenize(e)),
            ) && e@ == reason@)
        },
        step is ApplyTemplate ==> {
            &&& answer matches TokenizeAnswer::Formatted(Ok(Some(prompt))) ==> (next matches RouteStep::Tokenize {
                step: TokenizeStep::Encode { text },
                ..
            } && text@ == prompt@)
            &&& answer matches TokenizeAnswer::Formatted(Ok(None)) ==> (next matches RouteStep::Tokenize {
                step: TokenizeStep::Encode { text },
                ..
            } && text@.len() == 0)
            &&& answer matches TokenizeAnswer::Formatted(Err(reason)) ==> (next matches RouteStep::Done(
                Err(RoutingError::Tokenize(e)),
            ) && e@ == reason@)
        },
        step is Encode ==> (answer matches TokenizeAnswer::Encoded(Err(reason)) ==> (next matches RouteStep::Done(
            Err(RoutingError::Tokenize(e)),
        ) && e@ == reason@)),
{
}

/// The tokens that the tokenizer answered are routed, all of them and in their order: the
/// prefill query holds them where there are prefill workers, and else they are kept for the
/// decode worker. The hints and the workers are those of the request.
pub proof fn law_answered_tokens_are_routed<T, D, P>(
    service: RoutingService<T, D, P>,
    text: String,
    priority_jump: PriorityJump,
    osl: Option<u32>,
    prefill_ids: HashSet<u64>,
    decode_ids: HashSet<u64>,
    tokens: Vec<u32>,
    next: RouteStep,
)
    requires
        call_ensures(
            RoutingService::<T, D, P>::resume,
            (
                &service,
                RouteStep::Tokenize {
                    step: TokenizeStep::Encode { text },
                    priority_jump,
                    osl,
                    prefill_ids,
                    decode_ids,
                },
                RouteEvent::Tokenize(TokenizeAnswer::Encoded(Ok(tokens))),
            ),
            next,
        ),
    ensures
        (exists|id: u64| prefill_ids@.contains(id)) ==> {
            &&& next matches RouteStep::Prefill {
                step: PrefillStep::Register { query },
                osl: length,
                decode_ids: decode,
            }
            &&& query.tokens@ == tokens@
            &&& query.priority_jump == priority_jump
            &&& query.allowed_worker_ids is Some && query.allowed_worker_ids->0@ == prefill_ids@
            &&& length == osl
            &&& decode@ == decode_ids@
        },
        (forall|id: u64| !prefill_ids@.contains(id)) ==> {
            &&& next matches RouteStep::CheckEnforceDisagg {
                failure: PrefillError::NoWorkers,
                tokens: kept,
                priority_jump: jump,
                osl: length,
                decode_ids: decode,
            }
            &&& kept@ == tokens@
            &&& jump == priority_jump
            &&& length == osl
            &&& decode@ == decode_ids@
        },
{
    lemma_empty_iff_no_worker(prefill_ids@);
}

proof fn lemma_empty_iff_no_worker(ids: Set<u64>)
    ensures
        ids.is_empty() <==> (forall|id: u64| !ids.contains(id)),
{
    if forall|id: u64| !ids.contains(id) {
        assert(ids =~= Set::<u64>::empty());
    }
}

/// A tokenization that is over is routed with its tokens, or ends the routing with its
/// reason; one that is not is waited for.
pub proof fn law_tokenized_request_is_routed<T, D, P>(
    service: RoutingService<T, D, P>,
    step: TokenizeStep,
    priority_jump: PriorityJump,
    osl: Option<u32>,
    prefill_ids: HashSet<u64>,
    decode_ids: HashSet<u64>,
    next: RouteStep,
)
    requires
        call_ensures(
            RoutingService::<T, D, P>::route_tokenized,
            (&service, step, priority_jump, osl, prefill_ids, decode_ids),
            next,
        ),
    ensures
        match step {
            TokenizeStep::Done(Err(reason)) => next matches RouteStep::Done(Err(RoutingError::Tokenize(e))) && e@
                == reason@,
            TokenizeStep::Done(Ok(tokens)) => {
                &&& (exists|id: u64| prefill_ids@.contains(id)) ==> {
                    &&& next matches RouteStep::Prefill {
                        step: PrefillStep::Register { query },
                        osl: length,
                        decode_ids: decode,
                    }
                    &&& query.tokens@ == tokens@
                    &&& query.priority_jump == priority_jump
                    &&& query.allowed_worker_ids is Some && query.allowed_worker_ids->0@ == prefill_ids@
                    &&& length == osl
                    &&& decode@ == decode_ids@
                }
                &&& (forall|id: u64| !prefill_ids@.contains(id)) ==> {
                    &&& next matches RouteStep::CheckEnforceDisagg {
                        failure: PrefillError::NoWorkers,
                        tokens: kept,
                        priority_jump: jump,
                        osl: length,
                        decode_ids: decode,
                    }
                    &&& kept@ == tokens@
                    &&& jump == priority_jump
                    &&& length == osl
                    &&& decode@ == decode_ids@
                }
            },
            _ => {
                &&& next matches RouteStep::Tokenize {
                    step: current,
                    priority_jump: jump,
                    osl: length,
                    prefill_ids: prefill,
                    decode_ids: decode,
                }
                &&& current@ == step@
                &&& jump == priority_jump
                &&& length == osl
                &&& prefill@ == prefill_ids@
                &&& decode@ == decode_ids@
            },
        },
{
    lemma_empty_iff_no_worker(prefill_ids@);
}

/// Once the prefill router has been told of its workers, it is queried with the same query.
pub proof fn law_registered_prefill_is_queried<T, D, P>(
    service: RoutingService<T, D, P>,
    query: PrefillQuery,
    osl: Option<u32>,
    decode_ids: HashSet<u64>,
    next: RouteStep,
)
    requires
        call_ensures(
            RoutingService::<T, D, P>::resume,
            (
                &service,
                RouteStep::Prefill { step: PrefillStep::Register { query }, osl, decode_ids },
                RouteEvent::Prefill(PrefillEvent::Registered),
            ),
            next,
        ),
    ensures
        next matches RouteStep::Prefill { step: PrefillStep::Query { query: q }, osl: length, decode_ids: decode }
            && q@ == query@ && length == osl && decode@ == decode_ids@,
{
}

/// A prefill worker that was routed to is kept, with its rank or without one, and a decode
/// worker is selected for the same tokens and hints, among the decode workers and with the
/// settings for a disaggregated request.
pub proof fn law_prefill_worker_is_kept_for_the_decision<T, D, P>(
    service: RoutingService<T, D, P>,
    query: PrefillQuery,
    osl: Option<u32>,
    decode_ids: HashSet<u64>,
    worker_id: u64,
    dp_rank: Option<u32>,
    next: RouteStep,
)
    requires
        call_ensures(
            RoutingService::<T, D, P>::resume,
            (
                &service,
                RouteStep::Prefill { step: PrefillStep::Query { query }, osl, decode_ids },
                RouteEvent::Prefill(PrefillEvent::Answered(Ok(PrefillQueryOutcome::Routed { worker_id, dp_rank }))),
            ),
            next,
        ),
    ensures
        ({
            &&& next matches RouteStep::Decode { step: DecodeStep::Register { query: decode }, prefill_worker }
            &&& prefill_worker == Some((worker_id, dp_rank))
            &&& decode.tokens@ == query.tokens@
            &&& decode.priority_jump == query.priority_jump
            &&& decode.expected_output_tokens == osl
            &&& decode.allowed_worker_ids is Some && decode.allowed_worker_ids->0@ == decode_ids@
            &&& decode.config_override matches Some(settings)
            &&& settings.overlap_score_credit matches Some(credit) && credit.bits == 0
            &&& settings.assume_kv_reuse == Some(false)
            &&& settings.track_prefill_tokens == Some(false)
        }),
{
}

/// A prefill that failed, by an error or by backpressure, is not yet the end: the prefill
/// router is asked whether prefill is mandatory. What it failed with, the tokens, the hints
/// and the decode workers are kept.
pub proof fn law_failed_prefill_asks_for_enforcement<T, D, P>(
    service: RoutingService<T, D, P>,
    query: PrefillQuery,
    osl: Option<u32>,
    decode_ids: HashSet<u64>,
    answer: Result<PrefillQueryOutcome, String>,
    next: RouteStep,
)
    requires
        call_ensures(
            RoutingService::<T, D, P>::resume,
            (
                &service,
                RouteStep::Prefill { step: PrefillStep::Query { query }, osl, decode_ids },
                RouteEvent::Prefill(PrefillEvent::Answered(answer)),
            ),
            next,
        ),
        answer is Err || answer->Ok_0 is Backpressure,
    ensures
        ({
            &&& next matches RouteStep::CheckEnforceDisagg {
                failure,
                tokens,
                priority_jump,
                osl: length,
                decode_ids: decode,
            }
            &&& tokens@ == query.tokens@
            &&& priority_jump == query.priority_jump
            &&& length == osl
            &&& decode@ == decode_ids@
            &&& match answer {
                Err(reason) => failure matches PrefillError::Query(e) && e@ == reason@,
                Ok(PrefillQueryOutcome::Backpressure { reason, queued_isl_tokens, max_queued_isl_tokens }) => failure
                    matches PrefillError::Backpressure { reason: r, queued_isl_tokens: q, max_queued_isl_tokens: m }
                    && r@ == reason@ && q == queued_isl_tokens && m == max_queued_isl_tokens,
                Ok(PrefillQueryOutcome::Routed { .. }) => false,
            }
        }),
{
}

/// Where prefill is mandatory, a routing without a prefill worker ends with what prefill
/// failed with. Where it is not, a decode worker is selected for the same tokens and hints,
/// among the decode workers, with no settings overridden and no prefill worker.
pub proof fn law_enforcement_decides_on_the_fallback<T, D, P>(
    service: RoutingService<T, D, P>,
    failure: PrefillError,
    tokens: Vec<u32>,
    priority_jump: PriorityJump,
    osl: Option<u32>,
    decode_ids: HashSet<u64>,
    enforced: bool,
    next: RouteStep,
)
    requires
        call_ensures(
            RoutingService::<T, D, P>::resume,
            (
                &service,
                RouteStep::CheckEnforceDisagg { failure, tokens, priority_jump, osl, decode_ids },
                RouteEvent::EnforceDisagg(enforced),
            ),
            next,
        ),
    ensures
        enforced ==> {
            &&& next matches RouteStep::Done(Err(RoutingError::EnforcedDisagg(cause)))
            &&& cause@ == failure@
        },
        !enforced ==> {
            &&& next matches RouteStep::Decode { step: DecodeStep::Register { query }, prefill_worker }
            &&& prefill_worker is None
            &&& query.tokens@ == tokens@
            &&& query.priority_jump == priority_jump
            &&& query.expected_output_tokens == osl
            &&& query.allowed_worker_ids is Some && query.allowed_worker_ids->0@ == decode_ids@
            &&& query.config_override is None
        },
{
}

/// Once the decode router has been told of its workers, it is queried with the same query,
/// and the prefill worker is kept.
pub proof fn law_registered_decode_is_queried<T, D, P>(
    service: RoutingService<T, D, P>,
    query: DecodeQuery,
    prefill_worker: Option<PrefillWorker>,
    next: RouteStep,
)
    requires
        call_ensures(
            RoutingService::<T, D, P>::resume,
            (
                &service,
                RouteStep::Decode { step: DecodeStep::Register { query }, prefill_worker },
                RouteEvent::Decode(DecodeEvent::Registered),
            ),
            next,
        ),
    ensures
        next matches RouteStep::Decode { step: DecodeStep::Query { query: q }, prefill_worker: kept } && q@ == query@
            && kept == prefill_worker,
{
}

/// The decision names the decode worker that was found and the prefill worker that was kept,
/// and carries the tokens and hints of the query; it is disaggregated exactly where there is
/// a prefill worker. A failed query ends the routing with its reason.
pub proof fn law_decision_is_what_was_selected<T, D, P>(
    service: RoutingService<T, D, P>,
    query: DecodeQuery,
    prefill_worker: Option<PrefillWorker>,
    answer: Result<(WorkerWithDpRank, u32), String>,
    next: RouteStep,
)
    requires
        call_ensures(
            RoutingService::<T, D, P>::resume,
            (
                &service,
                RouteStep::Decode { step: DecodeStep::Query { query }, prefill_worker },
                RouteEvent::Decode(DecodeEvent::Answered(answer)),
            ),
            next,
        ),
    ensures
        match answer {
            Ok((worker, _)) => {
                &&& next matches RouteStep::Done(Ok(decision))
                &&& decision.tokens@ == query.tokens@
                &&& decision.priority_jump == query.priority_jump
                &&& decision.osl == query.expected_output_tokens
                &&& decision.decode_worker == worker
                &&& decision.prefill_worker == prefill_worker
                &&& decision.is_disaggregated <==> prefill_worker is Some
            },
            Err(reason) => next matches RouteStep::Done(Err(RoutingError::Decode(e))) && e@ == reason@,
        },
{
}

/// An answer to another call than the one that is waited for leaves a routing as it is.
pub proof fn law_unasked_answers_are_ignored<T, D, P>(
    service: RoutingService<T, D, P>,
    step: RouteStep,
    event: RouteEvent,
    next: RouteStep,
)
    requires
        call_ensures(RoutingService::<T, D, P>::resume, (&service, step, event), next),
        match step {
            RouteStep::Tokenize { step: current, .. } => match event {
                RouteEvent::Tokenize(TokenizeAnswer::Read(_)) => current is ApplyTemplate || current is Encode,
                RouteEvent::Tokenize(TokenizeAnswer::Formatted(_)) => current is ReadRequest || current is Encode,
                RouteEvent::Tokenize(TokenizeAnswer::Encoded(_)) => current is ReadRequest || current is ApplyTemplate,
                _ => true,
            },
            RouteStep::Prefill { step: PrefillStep::Register { .. }, .. } => !(event matches RouteEvent::Prefill(
                PrefillEvent::Registered,
            )),
            RouteStep::Prefill { step: PrefillStep::Query { .. }, .. } => !(event matches RouteEvent::Prefill(
                PrefillEvent::Answered(_),
            )),
            RouteStep::Prefill { .. } => !(event is Prefill),
            RouteStep::CheckEnforceDisagg { .. } => !(event is EnforceDisagg),
            RouteStep::Decode { step: DecodeStep::Register { .. }, .. } => !(event matches RouteEvent::Decode(
                DecodeEvent::Registered,
            )),
            RouteStep::Decode { step: DecodeStep::Query { .. }, .. } => !(event matches RouteEvent::Decode(
                DecodeEvent::Answered(_),
            )),
            RouteStep::Decode { .. } => !(event is Decode),
            RouteStep::Done(_) => true,
        },
    ensures
        next@ == step@,
{
}

/// Two decisions that read alike hold the same: tokens, hints and workers.
pub proof fn law_decision_is_told_by_its_view(a: RoutingDecision, b: RoutingDecision)
    requires
        a@ == b@,
    ensures
        a.tokens@ == b.tokens@,
        a.priority_jump == b.priority_jump,
        a.osl == b.osl,
        a.decode_worker == b.decode_worker,
        a.prefill_worker == b.prefill_worker,
        a.is_disaggregated == b.is_disaggregated,
{
}

/// A routing starts with the first step of its own tokenizer on the whole body. It carries
/// the hints that stand in the body and the workers that it was given; and where the
/// tokenizer is done at once, its tokens are routed, or its reason ends the routing.
pub proof fn law_routing_starts_with_its_tokenizer<T: RequestTokenizer, D, P>(
    service: RoutingService<T, D, P>,
    body: &str,
    prefill_ids: HashSet<u64>,
    decode_ids: HashSet<u64>,
    hints: (PriorityJump, Option<u32>),
    step: RouteStep,
)
    requires
        call_ensures(RoutingService::<T, D, P>::route, (&service, body, prefill_ids, decode_ids), step),
        call_ensures(extract_hints, (body,), hints),
    ensures
        exists|first: TokenizeStep|
            {
                &&& #[trigger] call_ensures(T::tokenize_for_routing, (&*service.tokenizer, body), first)
                &&& match first {
                    TokenizeStep::Done(Err(reason)) => step matches RouteStep::Done(Err(RoutingError::Tokenize(e)))
                        && e@ == reason@,
                    TokenizeStep::Done(Ok(tokens)) => {
                        &&& (exists|id: u64| prefill_ids@.contains(id)) ==> {
                            &&& step matches RouteStep::Prefill {
                                step: PrefillStep::Register { query },
                                osl,
                                decode_ids: decode,
                            }
                            &&& query.tokens@ == tokens@
                            &&& query.priority_jump == hints.0
                            &&& query.allowed_worker_ids is Some && query.allowed_worker_ids->0@ == prefill_ids@
                            &&& osl == hints.1
                            &&& decode@ == decode_ids@
                        }
                        &&& (forall|id: u64| !prefill_ids@.contains(id)) ==> {
                            &&& step matches RouteStep::CheckEnforceDisagg {
                                failure: PrefillError::NoWorkers,
                                tokens: kept,
                                priority_jump,
                                osl,
                                decode_ids: decode,
                            }
                            &&& kept@ == tokens@
                            &&& priority_jump == hints.0
                            &&& osl == hints.1
                            &&& decode@ == decode_ids@
                        }
                    },
                    _ => {
                        &&& step matches RouteStep::Tokenize {
                            step: current,
                            priority_jump,
                            osl,
                            prefill_ids: prefill,
                            decode_ids: decode,
                        }
                        &&& current@ == first@
                        &&& priority_jump == hints.0
                        &&& osl == hints.1
                        &&& prefill@ == prefill_ids@
                        &&& decode@ == decode_ids@
                    },
                }
            },
{
    lemma_empty_iff_no_worker(prefill_ids@);
    let first = choose|first: TokenizeStep|
        {
            &&& call_ensures(T::tokenize_for_routing, (&*service.tokenizer, body), first)
            &&& step@ == #[trigger] after_tokenizer(
                first@,
                hints_of(body@).0,
                hints_of(body@).1,
                prefill_ids@,
                decode_ids@,
            )
        };
    assert(call_ensures(T::tokenize_for_routing, (&*service.tokenizer, body), first));
}

/// A chat request that is tokenized exactly and prefilled by a worker: the decision carries
/// the tokens that the tokenizer answered and the hints that stand in the body, and names the
/// two workers that the routers answered with.
pub proof fn law_disaggregated_route_end_to_end<B: Send + Sync, D, P>(
    service: RoutingService<PreprocessorTokenizer<B>, D, P>,
    body: &str,
    prefill_ids: HashSet<u64>,
    decode_ids: HashSet<u64>,
    hints: (PriorityJump, Option<u32>),
    prompt: Option<String>,
    tokens: Vec<u32>,
    worker_id: u64,
    dp_rank: Option<u32>,
    decode_worker: WorkerWithDpRank,
    overlap: u32,
    steps: Seq<RouteStep>,
)
    requires
        call_ensures(extract_hints, (body,), hints),
        exists|id: u64| prefill_ids@.contains(id),
        steps.len() == 8,
        call_ensures(
            RoutingService::<PreprocessorTokenizer<B>, D, P>::route,
            (&service, body, prefill_ids, decode_ids),
            steps[0],
        ),
        call_ensures(
            RoutingService::<PreprocessorTokenizer<B>, D, P>::resume,
            (&service, steps[0], RouteEvent::Tokenize(TokenizeAnswer::Read(Ok(())))),
            steps[1],
        ),
        call_ensures(
            RoutingService::<PreprocessorTokenizer<B>, D, P>::resume,
            (&service, steps[1], RouteEvent::Tokenize(TokenizeAnswer::Formatted(Ok(prompt)))),
            steps[2],
        ),
        call_ensures(
            RoutingService::<PreprocessorTokenizer<B>, D, P>::resume,
            (&service, steps[2], RouteEvent::Tokenize(TokenizeAnswer::Encoded(Ok(tokens)))),
            steps[3],
        ),
        call_ensures(
            RoutingService::<PreprocessorTokenizer<B>, D, P>::resume,
            (&service, steps[3], RouteEvent::Prefill(PrefillEvent::Registered)),
            steps[4],
        ),
        call_ensures(
            RoutingService::<PreprocessorTokenizer<B>, D, P>::resume,
            (
                &service,
                steps[4],
                RouteEvent::Prefill(PrefillEvent::Answered(Ok(PrefillQueryOutcome::Routed { worker_id, dp_rank }))),
            ),
            steps[5],
        ),
        call_ensures(
            RoutingService::<PreprocessorTokenizer<B>, D, P>::resume,
            (&service, steps[5], RouteEvent::Decode(DecodeEvent::Registered)),
            steps[6],
        ),
        call_ensures(
            RoutingService::<PreprocessorTokenizer<B>, D, P>::resume,
            (&service, steps[6], RouteEvent::Decode(DecodeEvent::Answered(Ok((decode_worker, overlap))))),
            steps[7],
        ),
    ensures
        ({
            &&& steps[7] matches RouteStep::Done(Ok(decision))
            &&& decision.tokens@ == tokens@
            &&& decision.priority_jump == hints.0
            &&& decision.osl == hints.1
            &&& decision.decode_worker == decode_worker
            &&& decision.prefill_worker == Some((worker_id, dp_rank))
            &&& decision.is_disaggregated
        }),
{
    lemma_empty_iff_no_worker(prefill_ids@);
}

/// A chat request that is tokenized exactly and for which there is no prefill worker: where
/// prefill is not mandatory, the decision carries the tokens that the tokenizer answered and
/// the hints that stand in the body, and names the decode worker alone.
pub proof fn law_aggregated_route_end_to_end<B: Send + Sync, D, P>(
    service: RoutingService<PreprocessorTokenizer<B>, D, P>,
    body: &str,
    prefill_ids: HashSet<u64>,
    decode_ids: HashSet<u64>,
    hints: (PriorityJump, Option<u32>),
    prompt: Option<String>,
    tokens: Vec<u32>,
    decode_worker: WorkerWithDpRank,
    overlap: u32,
    steps: Seq<RouteStep>,
)
    requires
        call_ensures(extract_hints, (body,), hints),
        forall|id: u64| !prefill_ids@.contains(id),
        steps.len() == 7,
        call_ensures(
            RoutingService::<PreprocessorTokenizer<B>, D, P>::route,
            (&service, body, prefill_ids, decode_ids),
            steps[0],
        ),
        call_ensures(
            RoutingService::<PreprocessorTokenizer<B>, D, P>::resume,
            (&service, steps[0], RouteEvent::Tokenize(TokenizeAnswer::Read(Ok(())))),
            steps[1],
        ),
        call_ensures(
            RoutingService::<PreprocessorTokenizer<B>, D, P>::resume,
            (&service, steps[1], RouteEvent::Tokenize(TokenizeAnswer::Formatted(Ok(prompt)))),
            steps[2],
        ),
        call_ensures(
            RoutingService::<PreprocessorTokenizer<B>, D, P>::resume,
            (&service, steps[2], RouteEvent::Tokenize(TokenizeAnswer::Encoded(Ok(tokens)))),
            steps[3],
        ),
        call_ensures(
            RoutingService::<PreprocessorTokenizer<B>, D, P>::resume,
            (&service, steps[3], RouteEvent::EnforceDisagg(false)),
            steps[4],
        ),
        call_ensures(
            RoutingService::<PreprocessorTokenizer<B>, D, P>::resume,
            (&service, steps[4], RouteEvent::Decode(DecodeEvent::Registered)),
            steps[5],
        ),
        call_ensures(
            RoutingService::<PreprocessorTokenizer<B>, D, P>::resume,
            (&service, steps[5], RouteEvent::Decode(DecodeEvent::Answered(Ok((decode_worker, overlap))))),
            steps[6],
        ),
    ensures
        ({
            &&& steps[6] matches RouteStep::Done(Ok(decision))
            &&& decision.tokens@ == tokens@
            &&& decision.priority_jump == hints.0
            &&& decision.osl == hints.1
            &&& decision.decode_worker == decode_worker
            &&& decision.prefill_worker is None
            &&& !decision.is_disaggregated
        }),
{
    lemma_empty_iff_no_worker(prefill_ids@);
}

/// A request that is tokenized exactly starts with the reading of its body, with the hints
/// that stand in it.
pub proof fn law_exact_route_starts_with_the_body<B: Send + Sync, D, P>(
    service: RoutingService<PreprocessorTokenizer<B>, D, P>,
    body: &str,
    prefill_ids: HashSet<u64>,
    decode_ids: HashSet<u64>,
    hints: (PriorityJump, Option<u32>),
    step: RouteStep,
)
    requires
        call_ensures(
            RoutingService::<PreprocessorTokenizer<B>, D, P>::route,
            (&service, body, prefill_ids, decode_ids),
            step,
        ),
        call_ensures(extract_hints, (body,), hints),
    ensures
        ({
            &&& step matches RouteStep::Tokenize {
                step: TokenizeStep::ReadRequest { body: read },
                priority_jump,
                osl,
                prefill_ids: prefill,
                decode_ids: decode,
            }
            &&& read@ == body@
            &&& priority_jump == hints.0
            &&& osl == hints.1
            &&& prefill@ == prefill_ids@
            &&& decode@ == decode_ids@
        }),
{
}

} // verus!
