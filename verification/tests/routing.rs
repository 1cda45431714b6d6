use standalone_router::hints::{DoubleBits, PriorityJump};
use standalone_router::routing::{RouteEvent, RouteStep, RoutingDecision, RoutingService};
use standalone_router::selection::{
    select_decode, select_prefill, DecodeEvent, DecodeQuery, DecodeStep, PrefillError, PrefillEvent, PrefillQuery,
    PrefillQueryOutcome, PrefillStep, RouterConfigOverride, RoutingError, WorkerWithDpRank,
};
use standalone_router::tokenizer::{LoadPlaceholderTokenizer, PreprocessorTokenizer, TokenizeAnswer, TokenizeStep};
use std::collections::HashSet;
use std::sync::Arc;

const BODY: &str = r#"{"prompt":"hi","nvext":{"agent_hints":{"priority":5,"osl":128}}}"#;

type Service = RoutingService<LoadPlaceholderTokenizer, u8, u8>;

fn service() -> Service {
    RoutingService::new(Arc::new(LoadPlaceholderTokenizer), Arc::new(1), Arc::new(2))
}

fn ids(list: &[u64]) -> HashSet<u64> {
    list.iter().copied().collect()
}

fn worker() -> WorkerWithDpRank {
    WorkerWithDpRank { worker_id: 21, dp_rank: 3 }
}

fn prefill_query(step: &RouteStep) -> &PrefillQuery {
    match step {
        RouteStep::Prefill { step: PrefillStep::Query { query }, .. } => query,
        _ => panic!("no prefill query"),
    }
}

fn decode_query(step: &RouteStep) -> &DecodeQuery {
    match step {
        RouteStep::Decode { step: DecodeStep::Query { query }, .. } => query,
        _ => panic!("no decode query"),
    }
}

/// Has the prefill router told of its workers.
fn register_prefill(service: &Service, step: RouteStep, workers: &[u64]) -> RouteStep {
    match &step {
        RouteStep::Prefill { step, .. } => assert_eq!(step.workers_to_register(), Some(&ids(workers))),
        _ => panic!("no prefill workers to register"),
    }
    service.resume(step, RouteEvent::Prefill(PrefillEvent::Registered))
}

/// Has the decode router told of its workers.
fn register_decode(service: &Service, step: RouteStep, workers: &[u64]) -> RouteStep {
    match &step {
        RouteStep::Decode { step, .. } => assert_eq!(step.workers_to_register(), Some(&ids(workers))),
        _ => panic!("no decode workers to register"),
    }
    service.resume(step, RouteEvent::Decode(DecodeEvent::Registered))
}

fn decoded(overlap: u32) -> RouteEvent {
    RouteEvent::Decode(DecodeEvent::Answered(Ok((worker(), overlap))))
}

fn decision(step: RouteStep) -> RoutingDecision {
    match step {
        RouteStep::Done(Ok(decision)) => decision,
        _ => panic!("no decision"),
    }
}

fn error(step: RouteStep) -> RoutingError {
    match step {
        RouteStep::Done(Err(e)) => e,
        _ => panic!("no error"),
    }
}

fn routed() -> RouteEvent {
    RouteEvent::Prefill(PrefillEvent::Answered(Ok(PrefillQueryOutcome::Routed { worker_id: 11, dp_rank: Some(1) })))
}

fn backpressure() -> PrefillQueryOutcome {
    PrefillQueryOutcome::Backpressure {
        reason: "QueueFull".to_string(),
        queued_isl_tokens: 1234,
        max_queued_isl_tokens: Some(1000),
    }
}

#[test]
fn disaggregated_route() {
    let service = service();
    let step = service.route(BODY, ids(&[11, 12]), ids(&[21]));
    let step = register_prefill(&service, step, &[11, 12]);
    let query = prefill_query(&step);
    assert_eq!(query.tokens.len(), BODY.len() / 4);
    assert_eq!(query.priority_jump, PriorityJump::Priority(5));
    assert_eq!(query.allowed_worker_ids, Some(ids(&[11, 12])));
    assert!(!query.update_states);
    assert_eq!(query.lora_name, None);
    assert_eq!(query.block_mm_infos, None);

    let step = service.resume(step, routed());
    let step = register_decode(&service, step, &[21]);
    let query = decode_query(&step);
    assert_eq!(query.tokens.len(), BODY.len() / 4);
    assert_eq!(
        query.config_override,
        Some(RouterConfigOverride {
            overlap_score_credit: Some(DoubleBits { bits: 0.0f64.to_bits() }),
            assume_kv_reuse: Some(false),
            track_prefill_tokens: Some(false),
        })
    );
    assert_eq!(query.expected_output_tokens, Some(128));
    assert_eq!(query.allowed_worker_ids, Some(ids(&[21])));
    assert_eq!(query.context_id, None);
    assert!(!query.update_states);

    let decision = decision(service.resume(step, decoded(4)));
    assert!(decision.is_disaggregated);
    assert_eq!(decision.prefill_worker, Some((11, Some(1))));
    assert_eq!(decision.decode_worker, worker());
    assert_eq!(decision.priority_jump, PriorityJump::Priority(5));
    assert_eq!(decision.osl, Some(128));
    assert_eq!(decision.tokens, vec![0u32; BODY.len() / 4]);
}

#[test]
fn no_prefill_worker_falls_back_to_aggregated() {
    let service = service();
    let step = service.route(BODY, ids(&[]), ids(&[21]));
    assert!(matches!(step, RouteStep::CheckEnforceDisagg { failure: PrefillError::NoWorkers, .. }));
    let step = service.resume(step, RouteEvent::EnforceDisagg(false));
    let step = register_decode(&service, step, &[21]);
    assert_eq!(decode_query(&step).config_override, None);
    let decision = decision(service.resume(step, decoded(0)));
    assert!(!decision.is_disaggregated);
    assert_eq!(decision.prefill_worker, None);
    assert_eq!(decision.osl, Some(128));
}

#[test]
fn no_prefill_worker_fails_when_enforced() {
    let service = service();
    let step = service.route(BODY, ids(&[]), ids(&[21]));
    let e = error(service.resume(step, RouteEvent::EnforceDisagg(true)));
    assert!(matches!(e, RoutingError::EnforcedDisagg(PrefillError::NoWorkers)));
    assert_eq!(
        e.message(),
        "prefill routing failed under enforce_disagg: no prefill-role workers in candidate set"
    );
}

#[test]
fn failed_prefill_falls_back_or_fails() {
    let service = service();
    let failed = || RouteEvent::Prefill(PrefillEvent::Answered(Err("Timeout".to_string())));
    let asked = || register_prefill(&service, service.route(BODY, ids(&[11]), ids(&[21])), &[11]);
    let step = service.resume(asked(), failed());
    let e = error(service.resume(step, RouteEvent::EnforceDisagg(true)));
    assert_eq!(e.message(), "prefill routing failed under enforce_disagg: Prefill query failed: Timeout");

    let step = service.resume(asked(), failed());
    let step = service.resume(step, RouteEvent::EnforceDisagg(false));
    let step = register_decode(&service, step, &[21]);
    assert_eq!(decode_query(&step).config_override, None);
    assert!(!decision(service.resume(step, decoded(0))).is_disaggregated);
}

#[test]
fn backpressure_is_an_error() {
    let e = match select_prefill(Ok(backpressure())) {
        Err(e) => e,
        Ok(_) => panic!("backpressure selects no worker"),
    };
    assert_eq!(
        e.message(),
        "Prefill router backpressure: QueueFull (queued_isl_tokens=1234, max=Some(1000))"
    );
    let unbounded =
        PrefillError::Backpressure { reason: "Busy".to_string(), queued_isl_tokens: 0, max_queued_isl_tokens: None };
    assert_eq!(unbounded.message(), "Prefill router backpressure: Busy (queued_isl_tokens=0, max=None)");

    let service = service();
    let step = register_prefill(&service, service.route(BODY, ids(&[11]), ids(&[21])), &[11]);
    let step = service.resume(step, RouteEvent::Prefill(PrefillEvent::Answered(Ok(backpressure()))));
    let e = error(service.resume(step, RouteEvent::EnforceDisagg(true)));
    assert!(matches!(e, RoutingError::EnforcedDisagg(PrefillError::Backpressure { .. })));
}

#[test]
fn failed_decode_fails() {
    let service = service();
    let step = register_prefill(&service, service.route(BODY, ids(&[11]), ids(&[21])), &[11]);
    let step = register_decode(&service, service.resume(step, routed()), &[21]);
    let e = error(service.resume(step, RouteEvent::Decode(DecodeEvent::Answered(Err("NoWorkers".to_string())))));
    assert!(matches!(e, RoutingError::Decode(_)));
    assert_eq!(e.message(), "Decode query failed: NoWorkers");
    assert!(matches!(select_decode(Ok((worker(), 7))), Ok((w, 7)) if w == worker()));
}

#[test]
fn exact_tokenization_and_its_failure() {
    let service: RoutingService<PreprocessorTokenizer<u8>, u8, u8> =
        RoutingService::new(Arc::new(PreprocessorTokenizer::new(Arc::new(0))), Arc::new(1), Arc::new(2));
    let step = service.route(BODY, ids(&[11]), ids(&[21]));
    assert!(matches!(&step, RouteStep::Tokenize { step: TokenizeStep::ReadRequest { body }, .. } if body == BODY));
    let step = service.resume(step, RouteEvent::Tokenize(TokenizeAnswer::Read(Ok(()))));
    assert!(matches!(&step, RouteStep::Tokenize { step: TokenizeStep::ApplyTemplate { body }, .. } if body == BODY));
    let step = service.resume(step, RouteEvent::Tokenize(TokenizeAnswer::Formatted(Ok(Some("hi".to_string())))));
    assert!(matches!(&step, RouteStep::Tokenize { step: TokenizeStep::Encode { text }, .. } if text == "hi"));
    let step = service.resume(step, RouteEvent::Tokenize(TokenizeAnswer::Encoded(Ok(vec![9, 8]))));
    let step = service.resume(step, RouteEvent::Prefill(PrefillEvent::Registered));
    assert_eq!(prefill_query(&step).tokens, vec![9, 8]);
    // The hints are those of the body, whatever the tokens are.
    assert_eq!(prefill_query(&step).priority_jump, PriorityJump::Priority(5));

    let step = service.route(BODY, ids(&[11]), ids(&[21]));
    let e = error(service.resume(step, RouteEvent::Tokenize(TokenizeAnswer::Read(Err("no chat".to_string())))));
    assert!(matches!(e, RoutingError::Tokenize(_)));
    assert_eq!(e.message(), "no chat");

    let step = service.route(BODY, ids(&[11]), ids(&[21]));
    let step = service.resume(step, RouteEvent::Tokenize(TokenizeAnswer::Read(Ok(()))));
    let e = error(service.resume(step, RouteEvent::Tokenize(TokenizeAnswer::Formatted(Err("no role".to_string())))));
    assert!(matches!(e, RoutingError::Tokenize(_)));
    assert_eq!(e.message(), "no role");
}

#[test]
fn answers_to_other_calls_change_nothing() {
    let service = service();
    let step = service.route(BODY, ids(&[11]), ids(&[21]));
    let step = service.resume(step, RouteEvent::EnforceDisagg(true));
    let step = service.resume(step, decoded(1));
    // The router has not been told of its workers, so it has no answer to give.
    let step = service.resume(step, routed());
    let step = register_prefill(&service, step, &[11]);
    // It is told of them once.
    let step = service.resume(step, RouteEvent::Prefill(PrefillEvent::Registered));
    assert_eq!(prefill_query(&step).allowed_worker_ids, Some(ids(&[11])));
    match &step {
        RouteStep::Prefill { step, .. } => assert_eq!(step.workers_to_register(), None),
        _ => panic!("no prefill query"),
    }
}

#[test]
fn routers_are_told_of_their_workers_before_the_query() {
    let service = service();
    let zero = PriorityJump::Priority(0);
    for workers in [ids(&[4, 5]), ids(&[])] {
        let step = service.route_prefill(vec![1], zero, Some(workers.clone()));
        assert!(matches!(step, PrefillStep::Register { .. }));
        assert_eq!(step.workers_to_register(), Some(&workers));
        let step = step.resume(PrefillEvent::Registered);
        assert_eq!(step.workers_to_register(), None);
        assert!(matches!(&step, PrefillStep::Query { query } if query.allowed_worker_ids == Some(workers.clone())));
        let step = step.resume(PrefillEvent::Answered(Err("Timeout".to_string())));
        assert!(matches!(step, PrefillStep::Done { selection: Err(PrefillError::Query(e)), .. } if e == "Timeout"));

        let step = service.route_decode(vec![1], true, zero, Some(9), Some(workers.clone()));
        assert!(matches!(step, DecodeStep::Register { .. }));
        assert_eq!(step.workers_to_register(), Some(&workers));
        let step = step.resume(DecodeEvent::Registered);
        assert_eq!(step.workers_to_register(), None);
        assert!(matches!(&step, DecodeStep::Query { query } if query.allowed_worker_ids == Some(workers.clone())));
        let step = step.resume(DecodeEvent::Answered(Ok((worker(), 2))));
        assert!(matches!(step, DecodeStep::Done { selection: Ok((w, 2)), .. } if w == worker()));
    }
}

#[test]
fn queries_can_leave_workers_open() {
    let service = service();
    let step = service.route_prefill(vec![1], PriorityJump::Priority(0), None);
    assert_eq!(step.workers_to_register(), None);
    assert!(matches!(step, PrefillStep::Query { query } if query.allowed_worker_ids.is_none()));
    let step = service.route_decode(vec![1], false, PriorityJump::Priority(0), None, None);
    assert_eq!(step.workers_to_register(), None);
    match step {
        DecodeStep::Query { query } => {
            assert_eq!(query.config_override, None);
            assert_eq!(query.allowed_worker_ids, None);
        }
        _ => panic!("the router is queried at once"),
    }
}
