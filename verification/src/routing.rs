//! The routing decision of a request: tokenize, read the hints, select a prefill worker,
//! select a decode worker.
//!
//! Selecting a worker and tokenizing take calls that have to be waited for. A routing in
//! progress is a [`RouteStep`]: it says which call is to be made, with which arguments.
//! Whoever drives it makes the call and hands the answer to [`RoutingService::resume`].
use crate::hints::{extract_hints, DoubleBits, PriorityJump};
#[allow(unused_imports)]
use crate::hints::hints_of;
use crate::selection::{
    DecodeEvent, DecodeQuery, DecodeStep, PrefillError, PrefillEvent, PrefillQuery, PrefillStep, PrefillWorker,
    RouterConfigOverride, RoutingConstraints, RoutingError, WorkerWithDpRank,
};
#[allow(unused_imports)]
use crate::selection::{
    decode_next, decode_query, decode_start, ids_view, prefill_next, prefill_query, prefill_start, DecodeStepView,
    PrefillErrorView, PrefillStepView, RoutingErrorView,
};
use crate::tokenizer::{continue_tokenizing, RequestTokenizer, TokenizeAnswer, TokenizeStep};
#[allow(unused_imports)]
use crate::tokenizer::{step_after, TokenizeStepView};
use std::collections::HashSet;
use std::sync::Arc;
use vstd::prelude::*;

verus! {

/// Where a request goes, with what the caller needs for its load bookkeeping.
pub struct RoutingDecision {
    pub tokens: Vec<u32>,
    pub priority_jump: PriorityJump,
    pub osl: Option<u32>,
    pub decode_worker: WorkerWithDpRank,
    /// The prefill worker, when the request is routed disaggregated.
    pub prefill_worker: Option<PrefillWorker>,
    pub is_disaggregated: bool,
}

/// The call that a routing in progress waits for, or its result.
#[allow(inconsistent_fields)]
pub enum RouteStep {
    /// The tokenizer is to take this step.
    Tokenize {
        step: TokenizeStep,
        priority_jump: PriorityJump,
        osl: Option<u32>,
        prefill_ids: HashSet<u64>,
        decode_ids: HashSet<u64>,
    },
    /// This is to be done to select a prefill worker.
    Prefill { step: PrefillStep, osl: Option<u32>, decode_ids: HashSet<u64> },
    /// No prefill worker was selected. The prefill router is to be asked whether one is
    /// mandatory.
    CheckEnforceDisagg {
        failure: PrefillError,
        tokens: Vec<u32>,
        priority_jump: PriorityJump,
        osl: Option<u32>,
        decode_ids: HashSet<u64>,
    },
    /// This is to be done to select a decode worker.
    Decode { step: DecodeStep, prefill_worker: Option<PrefillWorker> },
    /// The routing is over.
    Done(Result<RoutingDecision, RoutingError>),
}

/// The answer to the call that a routing waits for.
pub enum RouteEvent {
    Tokenize(TokenizeAnswer),
    Prefill(PrefillEvent),
    EnforceDisagg(bool),
    Decode(DecodeEvent),
}

/// Where a request goes, as a mathematical value.
pub struct RoutingDecisionView {
    pub tokens: Seq<u32>,
    pub priority_jump: PriorityJump,
    pub osl: Option<u32>,
    pub decode_worker: WorkerWithDpRank,
    pub prefill_worker: Option<PrefillWorker>,
    pub is_disaggregated: bool,
}

/// A routing in progress, as a mathematical value.
#[allow(inconsistent_fields)]
pub enum RouteStepView {
    Tokenize {
        step: TokenizeStepView,
        priority_jump: PriorityJump,
        osl: Option<u32>,
        prefill_ids: Set<u64>,
        decode_ids: Set<u64>,
    },
    Prefill { step: PrefillStepView, osl: Option<u32>, decode_ids: Set<u64> },
    CheckEnforceDisagg {
        failure: PrefillErrorView,
        tokens: Seq<u32>,
        priority_jump: PriorityJump,
        osl: Option<u32>,
        decode_ids: Set<u64>,
    },
    Decode { step: DecodeStepView, prefill_worker: Option<PrefillWorker> },
    Done(Result<RoutingDecisionView, RoutingErrorView>),
}

impl View for RoutingDecision {
    type V = RoutingDecisionView;

    open spec fn view(&self) -> RoutingDecisionView {
        RoutingDecisionView {
            tokens: self.tokens@,
            priority_jump: self.priority_jump,
            osl: self.osl,
            decode_worker: self.decode_worker,
            prefill_worker: self.prefill_worker,
            is_disaggregated: self.is_disaggregated,
        }
    }
}

impl View for RouteStep {
    type V = RouteStepView;

    open spec fn view(&self) -> RouteStepView {
        match *self {
            RouteStep::Tokenize { step, priority_jump, osl, prefill_ids, decode_ids } => RouteStepView::Tokenize {
                step: step@,
                priority_jump,
                osl,
                prefill_ids: prefill_ids@,
                decode_ids: decode_ids@,
            },
            RouteStep::Prefill { step, osl, decode_ids } => RouteStepView::Prefill {
                step: step@,
                osl,
                decode_ids: decode_ids@,
            },
            RouteStep::CheckEnforceDisagg { failure, tokens, priority_jump, osl, decode_ids } =>
                RouteStepView::CheckEnforceDisagg {
                    failure: failure@,
                    tokens: tokens@,
                    priority_jump,
                    osl,
                    decode_ids: decode_ids@,
                },
            RouteStep::Decode { step, prefill_worker } => RouteStepView::Decode { step: step@, prefill_worker },
            RouteStep::Done(Ok(decision)) => RouteStepView::Done(Ok(decision@)),
            RouteStep::Done(Err(e)) => RouteStepView::Done(Err(e@)),
        }
    }
}

// ---- The steps ----

/// The step that follows the selection of a prefill worker, or the decision to go without
/// one: a decode worker is selected.
pub open spec fn to_decode(
    tokens: Seq<u32>,
    priority_jump: PriorityJump,
    osl: Option<u32>,
    decode_ids: Set<u64>,
    prefill_worker: Option<PrefillWorker>,
) -> RouteStepView {
    RouteStepView::Decode {
        step: decode_start(decode_query(tokens, prefill_worker is Some, priority_jump, osl, Some(decode_ids))),
        prefill_worker,
    }
}

/// The step that follows tokenization: prefill is attempted only where there is a worker
/// for it.
pub open spec fn after_tokens(
    tokens: Seq<u32>,
    priority_jump: PriorityJump,
    osl: Option<u32>,
    prefill_ids: Set<u64>,
    decode_ids: Set<u64>,
) -> RouteStepView {
    if prefill_ids.is_empty() {
        RouteStepView::CheckEnforceDisagg {
            failure: PrefillErrorView::NoWorkers,
            tokens,
            priority_jump,
            osl,
            decode_ids,
        }
    } else {
        RouteStepView::Prefill {
            step: prefill_start(prefill_query(tokens, priority_jump, Some(prefill_ids))),
            osl,
            decode_ids,
        }
    }
}

/// The step of a routing whose tokenizer has got to `step`.
pub open spec fn after_tokenizer(
    step: TokenizeStepView,
    priority_jump: PriorityJump,
    osl: Option<u32>,
    prefill_ids: Set<u64>,
    decode_ids: Set<u64>,
) -> RouteStepView {
    match step {
        TokenizeStepView::Done(Ok(tokens)) => after_tokens(tokens, priority_jump, osl, prefill_ids, decode_ids),
        TokenizeStepView::Done(Err(e)) => RouteStepView::Done(Err(RoutingErrorView::Tokenize(e))),
        _ => RouteStepView::Tokenize { step, priority_jump, osl, prefill_ids, decode_ids },
    }
}

/// The step of a routing whose selection of a prefill worker has got to `step`.
pub open spec fn after_prefill(step: PrefillStepView, osl: Option<u32>, decode_ids: Set<u64>) -> RouteStepView {
    match step {
        PrefillStepView::Done { query, selection: Ok(worker) } => to_decode(
            query.tokens,
            query.priority_jump,
            osl,
            decode_ids,
            Some(worker),
        ),
        PrefillStepView::Done { query, selection: Err(failure) } => RouteStepView::CheckEnforceDisagg {
            failure,
            tokens: query.tokens,
            priority_jump: query.priority_jump,
            osl,
            decode_ids,
        },
        _ => RouteStepView::Prefill { step, osl, decode_ids },
    }
}

/// The step of a routing whose selection of a decode worker has got to `step`.
pub open spec fn after_decode(step: DecodeStepView, prefill_worker: Option<PrefillWorker>) -> RouteStepView {
    match step {
        DecodeStepView::Done { query, selection: Ok((decode_worker, _)) } => RouteStepView::Done(
            Ok(
                RoutingDecisionView {
                    tokens: query.tokens,
                    priority_jump: query.priority_jump,
                    osl: query.expected_output_tokens,
                    decode_worker,
                    prefill_worker,
                    is_disaggregated: prefill_worker is Some,
                },
            ),
        ),
        DecodeStepView::Done { selection: Err(e), .. } => RouteStepView::Done(Err(e)),
        _ => RouteStepView::Decode { step, prefill_worker },
    }
}

/// The step that follows an answer. An answer to another call than the one that is waited
/// for changes nothing.
pub open spec fn route_next(step: RouteStepView, event: RouteEvent) -> RouteStepView {
    match (step, event) {
        (
            RouteStepView::Tokenize { step: current, priority_jump, osl, prefill_ids, decode_ids },
            RouteEvent::Tokenize(answer),
        ) => after_tokenizer(step_after(current, answer), priority_jump, osl, prefill_ids, decode_ids),
        (RouteStepView::Prefill { step: current, osl, decode_ids }, RouteEvent::Prefill(outcome)) => after_prefill(
            prefill_next(current, outcome),
            osl,
            decode_ids,
        ),
        (
            RouteStepView::CheckEnforceDisagg { failure, tokens, priority_jump, osl, decode_ids },
            RouteEvent::EnforceDisagg(enforced),
        ) => if enforced {
            RouteStepView::Done(Err(RoutingErrorView::EnforcedDisagg(failure)))
        } else {
            to_decode(tokens, priority_jump, osl, decode_ids, None)
        },
        (RouteStepView::Decode { step: current, prefill_worker }, RouteEvent::Decode(outcome)) => after_decode(
            decode_next(current, outcome),
            prefill_worker,
        ),
        _ => step,
    }
}

/// The routing pipeline of a request: its tokenizer and its two routers. Every front end
/// makes its routing decisions through it; load bookkeeping and transport stay with the
/// front end.
pub struct RoutingService<T, D, P> {
    pub tokenizer: Arc<T>,
    pub decode_router: Arc<D>,
    pub prefill_router: Arc<P>,
}

impl<T, D, P> RoutingService<T, D, P> {
    pub fn new(tokenizer: Arc<T>, decode_router: Arc<D>, prefill_router: Arc<P>) -> (service: Self)
        ensures
            service.tokenizer == tokenizer,
            service.decode_router == decode_router,
            service.prefill_router == prefill_router,
    {
        Self { tokenizer, decode_router, prefill_router }
    }

    /// Starts the selection of a prefill worker. The prefill router is told of the allowed
    /// workers, where they are given, and then queried.
    pub fn route_prefill(
        &self,
        tokens: Vec<u32>,
        priority_jump: PriorityJump,
        allowed_worker_ids: Option<HashSet<u64>>,
    ) -> (step: PrefillStep)
        ensures
            step@ == prefill_start(prefill_query(tokens@, priority_jump, ids_view(allowed_worker_ids))),
            step@.registers() == ids_view(allowed_worker_ids),
    {
        let query = PrefillQuery {
            tokens,
            block_mm_infos: None,
            update_states: false,
            lora_name: None,
            priority_jump,
            allowed_worker_ids,
            constraints: RoutingConstraints {  },
        };
        PrefillStep::start(query)
    }

    /// Starts the selection of a decode worker. The decode router is told of the allowed
    /// workers, where they are given, and then queried.
    pub fn route_decode(
        &self,
        tokens: Vec<u32>,
        is_disaggregated: bool,
        priority_jump: PriorityJump,
        expected_output_tokens: Option<u32>,
        allowed_worker_ids: Option<HashSet<u64>>,
    ) -> (step: DecodeStep)
        ensures
            step@ == decode_start(
                decode_query(
                    tokens@,
                    is_disaggregated,
                    priority_jump,
                    expected_output_tokens,
                    ids_view(allowed_worker_ids),
                ),
            ),
            step@.registers() == ids_view(allowed_worker_ids),
    {
        let config_override = if is_disaggregated {
            Some(
                RouterConfigOverride {
                    overlap_score_credit: Some(DoubleBits::zero()),
                    assume_kv_reuse: Some(false),
                    track_prefill_tokens: Some(false),
                },
            )
        } else {
            None
        };
        let query = DecodeQuery {
            context_id: None,
            tokens,
            block_mm_infos: None,
            config_override,
            update_states: false,
            lora_name: None,
            priority_jump,
            expected_output_tokens,
            allowed_worker_ids,
            constraints: RoutingConstraints {  },
        };
        DecodeStep::start(query)
    }

    /// Goes on to the decode router, with a prefill worker or without.
    fn go_decode(
        &self,
        tokens: Vec<u32>,
        priority_jump: PriorityJump,
        osl: Option<u32>,
        decode_ids: HashSet<u64>,
        prefill_worker: Option<PrefillWorker>,
    ) -> (next: RouteStep)
        ensures
            next@ == to_decode(tokens@, priority_jump, osl, decode_ids@, prefill_worker),
    {
        let step = self.route_decode(tokens, prefill_worker.is_some(), priority_jump, osl, Some(decode_ids));
        RouteStep::Decode { step, prefill_worker }
    }

    /// The step of a routing whose tokenizer has got to `step`. The hints are those of the
    /// request.
    pub fn route_tokenized(
        &self,
        step: TokenizeStep,
        priority_jump: PriorityJump,
        osl: Option<u32>,
        prefill_ids: HashSet<u64>,
        decode_ids: HashSet<u64>,
    ) -> (next: RouteStep)
        ensures
            next@ == after_tokenizer(step@, priority_jump, osl, prefill_ids@, decode_ids@),
    {
        match step {
            TokenizeStep::Done(Ok(tokens)) => {
                if prefill_ids.is_empty() {
                    RouteStep::CheckEnforceDisagg {
                        failure: PrefillError::NoWorkers,
                        tokens,
                        priority_jump,
                        osl,
                        decode_ids,
                    }
                } else {
                    let step = self.route_prefill(tokens, priority_jump, Some(prefill_ids));
                    RouteStep::Prefill { step, osl, decode_ids }
                }
            },
            TokenizeStep::Done(Err(e)) => RouteStep::Done(Err(RoutingError::Tokenize(e))),
            step => RouteStep::Tokenize { step, priority_jump, osl, prefill_ids, decode_ids },
        }
    }

    /// Takes the answer to the call that a routing waits for.
    ///
    /// A prefill worker that cannot be selected ends the routing with an error where
    /// disaggregation is enforced; elsewhere the request is served by a decode worker
    /// alone.
    pub fn resume(&self, step: RouteStep, event: RouteEvent) -> (next: RouteStep)
        ensures
            next@ == route_next(step@, event),
    {
        match (step, event) {
            (
                RouteStep::Tokenize { step: current, priority_jump, osl, prefill_ids, decode_ids },
                RouteEvent::Tokenize(answer),
            ) => {
                let reached = continue_tokenizing(current, answer);
                self.route_tokenized(reached, priority_jump, osl, prefill_ids, decode_ids)
            },
            (RouteStep::Prefill { step: current, osl, decode_ids }, RouteEvent::Prefill(outcome)) => {
                match current.resume(outcome) {
                    PrefillStep::Done { query, selection: Ok(worker) } => self.go_decode(
                        query.tokens,
                        query.priority_jump,
                        osl,
                        decode_ids,
                        Some(worker),
                    ),
                    PrefillStep::Done { query, selection: Err(failure) } => RouteStep::CheckEnforceDisagg {
                        failure,
                        tokens: query.tokens,
                        priority_jump: query.priority_jump,
                        osl,
                        decode_ids,
                    },
                    step => RouteStep::Prefill { step, osl, decode_ids },
                }
            },
            (
                RouteStep::CheckEnforceDisagg { failure, tokens, priority_jump, osl, decode_ids },
                RouteEvent::EnforceDisagg(enforced),
            ) => {
                if enforced {
                    RouteStep::Done(Err(RoutingError::EnforcedDisagg(failure)))
                } else {
                    self.go_decode(tokens, priority_jump, osl, decode_ids, None)
                }
            },
            (RouteStep::Decode { step: current, prefill_worker }, RouteEvent::Decode(outcome)) => {
                match current.resume(outcome) {
                    DecodeStep::Done { query, selection: Ok((decode_worker, _)) } => RouteStep::Done(
                        Ok(
                            RoutingDecision {
                                tokens: query.tokens,
                                priority_jump: query.priority_jump,
                                osl: query.expected_output_tokens,
                                decode_worker,
                                prefill_worker,
                                is_disaggregated: prefill_worker.is_some(),
                            },
                        ),
                    ),
                    DecodeStep::Done { selection: Err(e), .. } => RouteStep::Done(Err(e)),
                    step => RouteStep::Decode { step, prefill_worker },
                }
            },
            (step, _) => step,
        }
    }
}

impl<T: RequestTokenizer, D, P> RoutingService<T, D, P> {
    /// Starts the routing of a request body to one of the given decode workers and, where
    /// there is one, one of the given prefill workers.
    pub fn route(&self, body: &str, prefill_ids: HashSet<u64>, decode_ids: HashSet<u64>) -> (step: RouteStep)
        ensures
            exists|first: TokenizeStep|
                {
                    &&& call_ensures(T::tokenize_for_routing, (&*self.tokenizer, body), first)
                    &&& step@ == #[trigger] after_tokenizer(
                        first@,
                        hints_of(body@).0,
                        hints_of(body@).1,
                        prefill_ids@,
                        decode_ids@,
                    )
                },
    {
        let first = self.tokenizer.tokenize_for_routing(body);
        let (priority_jump, osl) = extract_hints(body);
        let ghost given = first;
        let step = self.route_tokenized(first, priority_jump, osl, prefill_ids, decode_ids);
        assert(call_ensures(T::tokenize_for_routing, (&*self.tokenizer, body), given));
        step
    }
}

} // verus!
