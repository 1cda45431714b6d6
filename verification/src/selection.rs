//! Selecting a prefill worker and a decode worker: the queries for them, and what is made of
//! the answers.
//!
//! A router is told of the workers that a query allows before it is queried. Both calls are
//! made by whoever drives the selection: a [`PrefillStep`] or a [`DecodeStep`] says which one
//! is next.
use crate::hints::{DoubleBits, PriorityJump};
use crate::text::write_decimal;
#[allow(unused_imports)]
use crate::text::{decimal, opt_view};
use std::collections::HashSet;
use vstd::prelude::*;

verus! {

/// A worker and the data-parallel rank on it.
#[derive(Clone, Copy, Debug, PartialEq, Eq, Structural)]
pub struct WorkerWithDpRank {
    pub worker_id: u64,
    pub dp_rank: u32,
}

/// A prefill worker and, where it has one, its data-parallel rank.
pub type PrefillWorker = (u64, Option<u32>);

/// Constraints on the workers that a query may select. The default sets none.
#[derive(Clone, Copy, Debug, PartialEq, Eq, Structural)]
pub struct RoutingConstraints {}

/// Settings of the decode router that a query overrides. What is not set here keeps the
/// router's own setting.
#[derive(Clone, Copy, Debug, PartialEq, Eq, Structural)]
pub struct RouterConfigOverride {
    pub overlap_score_credit: Option<DoubleBits>,
    pub assume_kv_reuse: Option<bool>,
    pub track_prefill_tokens: Option<bool>,
}

/// Multimodal information on the blocks of a prompt. A query by tokens alone attaches
/// none.
#[derive(Clone, Copy, Debug, PartialEq, Eq, Structural)]
pub struct BlockMmInfos {}

/// A query for a prefill worker.
pub struct PrefillQuery {
    pub tokens: Vec<u32>,
    pub block_mm_infos: Option<BlockMmInfos>,
    pub update_states: bool,
    pub lora_name: Option<String>,
    pub priority_jump: PriorityJump,
    pub allowed_worker_ids: Option<HashSet<u64>>,
    pub constraints: RoutingConstraints,
}

/// A query for a decode worker.
pub struct DecodeQuery {
    pub context_id: Option<String>,
    pub tokens: Vec<u32>,
    pub block_mm_infos: Option<BlockMmInfos>,
    pub config_override: Option<RouterConfigOverride>,
    pub update_states: bool,
    pub lora_name: Option<String>,
    pub priority_jump: PriorityJump,
    pub expected_output_tokens: Option<u32>,
    pub allowed_worker_ids: Option<HashSet<u64>>,
    pub constraints: RoutingConstraints,
}

/// What the prefill router answers to a query.
pub enum PrefillQueryOutcome {
    Routed { worker_id: u64, dp_rank: Option<u32> },
    /// The router's queue is full. The reason is given by its debug text.
    Backpressure { reason: String, queued_isl_tokens: usize, max_queued_isl_tokens: Option<usize> },
}

/// Why no prefill worker was selected.
pub enum PrefillError {
    /// There is no prefill worker to choose from.
    NoWorkers,
    /// The query failed. The error is given by its debug text.
    Query(String),
    /// The router's queue is full. The reason is given by its debug text.
    Backpressure { reason: String, queued_isl_tokens: usize, max_queued_isl_tokens: Option<usize> },
}

/// Why a request was not routed.
pub enum RoutingError {
    /// It could not be tokenized, for this reason.
    Tokenize(String),
    /// No prefill worker was selected, and one is mandatory.
    EnforcedDisagg(PrefillError),
    /// The query for a decode worker failed. The error is given by its debug text.
    Decode(String),
}

/// A query for a prefill worker, as a mathematical value.
pub struct PrefillQueryView {
    pub tokens: Seq<u32>,
    pub block_mm_infos: Option<BlockMmInfos>,
    pub update_states: bool,
    pub lora_name: Option<Seq<char>>,
    pub priority_jump: PriorityJump,
    pub allowed_worker_ids: Option<Set<u64>>,
    pub constraints: RoutingConstraints,
}

/// A query for a decode worker, as a mathematical value.
pub struct DecodeQueryView {
    pub context_id: Option<Seq<char>>,
    pub tokens: Seq<u32>,
    pub block_mm_infos: Option<BlockMmInfos>,
    pub config_override: Option<RouterConfigOverride>,
    pub update_states: bool,
    pub lora_name: Option<Seq<char>>,
    pub priority_jump: PriorityJump,
    pub expected_output_tokens: Option<u32>,
    pub allowed_worker_ids: Option<Set<u64>>,
    pub constraints: RoutingConstraints,
}

/// Why no prefill worker was selected, as a mathematical value.
pub enum PrefillErrorView {
    NoWorkers,
    Query(Seq<char>),
    Backpressure { reason: Seq<char>, queued_isl_tokens: usize, max_queued_isl_tokens: Option<usize> },
}

/// Why a request was not routed, as a mathematical value.
pub enum RoutingErrorView {
    Tokenize(Seq<char>),
    EnforcedDisagg(PrefillErrorView),
    Decode(Seq<char>),
}

/// The contents of an optional set.
pub open spec fn ids_view(ids: Option<HashSet<u64>>) -> Option<Set<u64>> {
    match ids {
        Some(ids) => Some(ids@),
        None => None,
    }
}

impl View for PrefillQuery {
    type V = PrefillQueryView;

    open spec fn view(&self) -> PrefillQueryView {
        PrefillQueryView {
            tokens: self.tokens@,
            block_mm_infos: self.block_mm_infos,
            update_states: self.update_states,
            lora_name: opt_view(self.lora_name),
            priority_jump: self.priority_jump,
            allowed_worker_ids: ids_view(self.allowed_worker_ids),
            constraints: self.constraints,
        }
    }
}

impl View for DecodeQuery {
    type V = DecodeQueryView;

    open spec fn view(&self) -> DecodeQueryView {
        DecodeQueryView {
            context_id: opt_view(self.context_id),
            tokens: self.tokens@,
            block_mm_infos: self.block_mm_infos,
            config_override: self.config_override,
            update_states: self.update_states,
            lora_name: opt_view(self.lora_name),
            priority_jump: self.priority_jump,
            expected_output_tokens: self.expected_output_tokens,
            allowed_worker_ids: ids_view(self.allowed_worker_ids),
            constraints: self.constraints,
        }
    }
}

impl View for PrefillError {
    type V = PrefillErrorView;

    open spec fn view(&self) -> PrefillErrorView {
        match *self {
            PrefillError::NoWorkers => PrefillErrorView::NoWorkers,
            PrefillError::Query(e) => PrefillErrorView::Query(e@),
            PrefillError::Backpressure { reason, queued_isl_tokens, max_queued_isl_tokens } =>
                PrefillErrorView::Backpressure { reason: reason@, queued_isl_tokens, max_queued_isl_tokens },
        }
    }
}

impl View for RoutingError {
    type V = RoutingErrorView;

    open spec fn view(&self) -> RoutingErrorView {
        match *self {
            RoutingError::Tokenize(e) => RoutingErrorView::Tokenize(e@),
            RoutingError::EnforcedDisagg(failure) => RoutingErrorView::EnforcedDisagg(failure@),
            RoutingError::Decode(e) => RoutingErrorView::Decode(e@),
        }
    }
}

// ---- The queries ----

/// The query for a prefill worker: it only asks, and sets neither multimodal information,
/// nor an adapter, nor constraints.
pub open spec fn prefill_query(
    tokens: Seq<u32>,
    priority_jump: PriorityJump,
    allowed_worker_ids: Option<Set<u64>>,
) -> PrefillQueryView {
    PrefillQueryView {
        tokens,
        block_mm_infos: None,
        update_states: false,
        lora_name: None,
        priority_jump,
        allowed_worker_ids,
        constraints: RoutingConstraints {  },
    }
}

/// The settings that a disaggregated request overrides: the decode worker gets no credit
/// for overlap, is not taken to reuse its cache, and does not count prefill tokens.
pub open spec fn disaggregated_override() -> RouterConfigOverride {
    RouterConfigOverride {
        overlap_score_credit: Some(DoubleBits { bits: 0 }),
        assume_kv_reuse: Some(false),
        track_prefill_tokens: Some(false),
    }
}

/// The query for a decode worker: it only asks, and overrides settings of the router only
/// for a disaggregated request.
pub open spec fn decode_query(
    tokens: Seq<u32>,
    is_disaggregated: bool,
    priority_jump: PriorityJump,
    expected_output_tokens: Option<u32>,
    allowed_worker_ids: Option<Set<u64>>,
) -> DecodeQueryView {
    DecodeQueryView {
        context_id: None,
        tokens,
        block_mm_infos: None,
        config_override: if is_disaggregated { Some(disaggregated_override()) } else { None },
        update_states: false,
        lora_name: None,
        priority_jump,
        expected_output_tokens,
        allowed_worker_ids,
        constraints: RoutingConstraints {  },
    }
}

// ---- The steps ----

/// What is to be done next to select a prefill worker.
pub enum PrefillStep {
    /// Tell the prefill router of the workers that the query allows.
    Register { query: PrefillQuery },
    /// Query the prefill router.
    Query { query: PrefillQuery },
    /// Nothing: this came of the query.
    Done { query: PrefillQuery, selection: Result<PrefillWorker, PrefillError> },
}

/// What came of a step of selecting a prefill worker.
pub enum PrefillEvent {
    /// The router has been told of the workers.
    Registered,
    /// The answer to the query, or the debug text of its error.
    Answered(Result<PrefillQueryOutcome, String>),
}

/// What is to be done next to select a decode worker.
pub enum DecodeStep {
    /// Tell the decode router of the workers that the query allows.
    Register { query: DecodeQuery },
    /// Query the decode router.
    Query { query: DecodeQuery },
    /// Nothing: this came of the query.
    Done { query: DecodeQuery, selection: Result<(WorkerWithDpRank, u32), RoutingError> },
}

/// What came of a step of selecting a decode worker.
pub enum DecodeEvent {
    /// The router has been told of the workers.
    Registered,
    /// The worker and the number of overlapping blocks, or the debug text of the error.
    Answered(Result<(WorkerWithDpRank, u32), String>),
}

/// A step of selecting a prefill worker, as a mathematical value.
pub enum PrefillStepView {
    Register { query: PrefillQueryView },
    Query { query: PrefillQueryView },
    Done { query: PrefillQueryView, selection: Result<PrefillWorker, PrefillErrorView> },
}

/// A step of selecting a decode worker, as a mathematical value.
pub enum DecodeStepView {
    Register { query: DecodeQueryView },
    Query { query: DecodeQueryView },
    Done { query: DecodeQueryView, selection: Result<(WorkerWithDpRank, u32), RoutingErrorView> },
}

/// A selected prefill worker, or why there is none, by its view.
pub open spec fn selection_view(
    selection: Result<PrefillWorker, PrefillError>,
) -> Result<PrefillWorker, PrefillErrorView> {
    match selection {
        Ok(worker) => Ok(worker),
        Err(e) => Err(e@),
    }
}

/// A selected decode worker, or why there is none, by its view.
pub open spec fn decode_view(
    selection: Result<(WorkerWithDpRank, u32), RoutingError>,
) -> Result<(WorkerWithDpRank, u32), RoutingErrorView> {
    match selection {
        Ok(selected) => Ok(selected),
        Err(e) => Err(e@),
    }
}

impl View for PrefillStep {
    type V = PrefillStepView;

    open spec fn view(&self) -> PrefillStepView {
        match *self {
            PrefillStep::Register { query } => PrefillStepView::Register { query: query@ },
            PrefillStep::Query { query } => PrefillStepView::Query { query: query@ },
            PrefillStep::Done { query, selection } => PrefillStepView::Done {
                query: query@,
                selection: selection_view(selection),
            },
        }
    }
}

impl View for DecodeStep {
    type V = DecodeStepView;

    open spec fn view(&self) -> DecodeStepView {
        match *self {
            DecodeStep::Register { query } => DecodeStepView::Register { query: query@ },
            DecodeStep::Query { query } => DecodeStepView::Query { query: query@ },
            DecodeStep::Done { query, selection } => DecodeStepView::Done {
                query: query@,
                selection: decode_view(selection),
            },
        }
    }
}

/// The first step of a prefill query. Where it names the workers that it allows, the router
/// is told of them; where it does not, the router is queried at once.
pub open spec fn prefill_start(query: PrefillQueryView) -> PrefillStepView {
    if query.allowed_worker_ids is Some {
        PrefillStepView::Register { query }
    } else {
        PrefillStepView::Query { query }
    }
}

/// The first step of a decode query. Where it names the workers that it allows, the router
/// is told of them; where it does not, the router is queried at once.
pub open spec fn decode_start(query: DecodeQueryView) -> DecodeStepView {
    if query.allowed_worker_ids is Some {
        DecodeStepView::Register { query }
    } else {
        DecodeStepView::Query { query }
    }
}

/// The step that follows an outcome. The outcome of another step changes nothing.
pub open spec fn prefill_next(step: PrefillStepView, event: PrefillEvent) -> PrefillStepView {
    match (step, event) {
        (PrefillStepView::Register { query }, PrefillEvent::Registered) => PrefillStepView::Query { query },
        (PrefillStepView::Query { query }, PrefillEvent::Answered(answer)) => PrefillStepView::Done {
            query,
            selection: prefill_selection(answer),
        },
        _ => step,
    }
}

/// The step that follows an outcome. The outcome of another step changes nothing.
pub open spec fn decode_next(step: DecodeStepView, event: DecodeEvent) -> DecodeStepView {
    match (step, event) {
        (DecodeStepView::Register { query }, DecodeEvent::Registered) => DecodeStepView::Query { query },
        (DecodeStepView::Query { query }, DecodeEvent::Answered(answer)) => DecodeStepView::Done {
            query,
            selection: decode_selection(answer),
        },
        _ => step,
    }
}

impl PrefillStepView {
    /// The query that the step belongs to.
    pub open spec fn query(self) -> PrefillQueryView {
        match self {
            PrefillStepView::Register { query } => query,
            PrefillStepView::Query { query } => query,
            PrefillStepView::Done { query, .. } => query,
        }
    }

    /// The workers that the router is to be told of in this step.
    pub open spec fn registers(self) -> Option<Set<u64>> {
        match self {
            PrefillStepView::Register { query } => query.allowed_worker_ids,
            _ => None,
        }
    }
}

impl DecodeStepView {
    /// The query that the step belongs to.
    pub open spec fn query(self) -> DecodeQueryView {
        match self {
            DecodeStepView::Register { query } => query,
            DecodeStepView::Query { query } => query,
            DecodeStepView::Done { query, .. } => query,
        }
    }

    /// The workers that the router is to be told of in this step.
    pub open spec fn registers(self) -> Option<Set<u64>> {
        match self {
            DecodeStepView::Register { query } => query.allowed_worker_ids,
            _ => None,
        }
    }
}

impl PrefillStep {
    /// The first step of a query.
    pub fn start(query: PrefillQuery) -> (step: PrefillStep)
        ensures
            step@ == prefill_start(query@),
    {
        if query.allowed_worker_ids.is_some() {
            PrefillStep::Register { query }
        } else {
            PrefillStep::Query { query }
        }
    }

    /// The workers that the prefill router is to be told of in this step.
    pub fn workers_to_register(&self) -> (ids: Option<&HashSet<u64>>)
        ensures
            match ids {
                Some(ids) => self@.registers() == Some(ids@),
                None => self@.registers() is None,
            },
    {
        match self {
            PrefillStep::Register { query } => query.allowed_worker_ids.as_ref(),
            _ => None,
        }
    }

    /// Takes the outcome of the step.
    pub fn resume(self, event: PrefillEvent) -> (next: PrefillStep)
        ensures
            next@ == prefill_next(self@, event),
    {
        match (self, event) {
            (PrefillStep::Register { query }, PrefillEvent::Registered) => PrefillStep::Query { query },
            (PrefillStep::Query { query }, PrefillEvent::Answered(answer)) => PrefillStep::Done {
                query,
                selection: select_prefill(answer),
            },
            (step, _) => step,
        }
    }
}

impl DecodeStep {
    /// The first step of a query.
    pub fn start(query: DecodeQuery) -> (step: DecodeStep)
        ensures
            step@ == decode_start(query@),
    {
        if query.allowed_worker_ids.is_some() {
            DecodeStep::Register { query }
        } else {
            DecodeStep::Query { query }
        }
    }

    /// The workers that the decode router is to be told of in this step.
    pub fn workers_to_register(&self) -> (ids: Option<&HashSet<u64>>)
        ensures
            match ids {
                Some(ids) => self@.registers() == Some(ids@),
                None => self@.registers() is None,
            },
    {
        match self {
            DecodeStep::Register { query } => query.allowed_worker_ids.as_ref(),
            _ => None,
        }
    }

    /// Takes the outcome of the step.
    pub fn resume(self, event: DecodeEvent) -> (next: DecodeStep)
        ensures
            next@ == decode_next(self@, event),
    {
        match (self, event) {
            (DecodeStep::Register { query }, DecodeEvent::Registered) => DecodeStep::Query { query },
            (DecodeStep::Query { query }, DecodeEvent::Answered(answer)) => DecodeStep::Done {
                query,
                selection: select_decode(answer),
            },
            (step, _) => step,
        }
    }
}

// ---- The answers ----

/// The prefill worker that an answer of the prefill router selects. Backpressure is an
/// error, so that the caller can decide between failing and serving without prefill.
pub open spec fn prefill_selection(
    answer: Result<PrefillQueryOutcome, String>,
) -> Result<PrefillWorker, PrefillErrorView> {
    match answer {
        Ok(PrefillQueryOutcome::Routed { worker_id, dp_rank }) => Ok((worker_id, dp_rank)),
        Ok(PrefillQueryOutcome::Backpressure { reason, queued_isl_tokens, max_queued_isl_tokens }) => Err(
            PrefillErrorView::Backpressure { reason: reason@, queued_isl_tokens, max_queued_isl_tokens },
        ),
        Err(e) => Err(PrefillErrorView::Query(e@)),
    }
}

/// Reads the answer of the prefill router.
pub fn select_prefill(answer: Result<PrefillQueryOutcome, String>) -> (selection: Result<PrefillWorker, PrefillError>)
    ensures
        selection_view(selection) == prefill_selection(answer),
{
    match answer {
        Ok(PrefillQueryOutcome::Routed { worker_id, dp_rank }) => Ok((worker_id, dp_rank)),
        Ok(PrefillQueryOutcome::Backpressure { reason, queued_isl_tokens, max_queued_isl_tokens }) => Err(
            PrefillError::Backpressure { reason, queued_isl_tokens, max_queued_isl_tokens },
        ),
        Err(e) => Err(PrefillError::Query(e)),
    }
}

/// The decode worker that an answer of the decode router selects, with the number of
/// overlapping blocks.
pub open spec fn decode_selection(
    answer: Result<(WorkerWithDpRank, u32), String>,
) -> Result<(WorkerWithDpRank, u32), RoutingErrorView> {
    match answer {
        Ok(selected) => Ok(selected),
        Err(e) => Err(RoutingErrorView::Decode(e@)),
    }
}

/// Reads the answer of the decode router.
pub fn select_decode(
    answer: Result<(WorkerWithDpRank, u32), String>,
) -> (selection: Result<(WorkerWithDpRank, u32), RoutingError>)
    ensures
        decode_view(selection) == decode_selection(answer),
{
    match answer {
        Ok(selected) => Ok(selected),
        Err(e) => Err(RoutingError::Decode(e)),
    }
}

// ---- The messages ----

/// An optional number as a diagnostic shows it.
pub open spec fn shown_option(n: Option<usize>) -> Seq<char> {
    match n {
        Some(n) => "Some("@ + decimal(n as nat) + ")"@,
        None => "None"@,
    }
}

impl PrefillErrorView {
    /// What the error says.
    pub open spec fn message(self) -> Seq<char> {
        match self {
            PrefillErrorView::NoWorkers => "no prefill-role workers in candidate set"@,
            PrefillErrorView::Query(e) => "Prefill query failed: "@ + e,
            PrefillErrorView::Backpressure { reason, queued_isl_tokens, max_queued_isl_tokens } =>
                "Prefill router backpressure: "@ + reason + " (queued_isl_tokens="@
                    + decimal(queued_isl_tokens as nat) + ", max="@ + shown_option(max_queued_isl_tokens) + ")"@,
        }
    }
}

impl RoutingErrorView {
    /// What the error says.
    pub open spec fn message(self) -> Seq<char> {
        match self {
            RoutingErrorView::Tokenize(e) => e,
            RoutingErrorView::EnforcedDisagg(failure) =>
                "prefill routing failed under enforce_disagg: "@ + failure.message(),
            RoutingErrorView::Decode(e) => "Decode query failed: "@ + e,
        }
    }
}

fn show_option(n: Option<usize>) -> (s: String)
    ensures
        s@ == shown_option(n),
{
    match n {
        Some(n) => "Some(".to_owned().concat(write_decimal(n as u64).as_str()).concat(")"),
        None => "None".to_owned(),
    }
}

impl PrefillError {
    /// What the error says.
    pub fn message(&self) -> (s: String)
        ensures
            s@ == self@.message(),
    {
        match self {
            PrefillError::NoWorkers => "no prefill-role workers in candidate set".to_owned(),
            PrefillError::Query(e) => "Prefill query failed: ".to_owned().concat(e.as_str()),
            PrefillError::Backpressure { reason, queued_isl_tokens, max_queued_isl_tokens } => {
                let mut s = "Prefill router backpressure: ".to_owned();
                s.append(reason.as_str());
                s.append(" (queued_isl_tokens=");
                s.append(write_decimal(*queued_isl_tokens as u64).as_str());
                s.append(", max=");
                s.append(show_option(*max_queued_isl_tokens).as_str());
                s.append(")");
                s
            },
        }
    }
}

impl RoutingError {
    /// What the error says.
    pub fn message(&self) -> (s: String)
        ensures
            s@ == self@.message(),
    {
        match self {
            RoutingError::Tokenize(e) => e.clone(),
            RoutingError::EnforcedDisagg(failure) => "prefill routing failed under enforce_disagg: ".to_owned().concat(
                failure.message().as_str(),
            ),
            RoutingError::Decode(e) => "Decode query failed: ".to_owned().concat(e.as_str()),
        }
    }
}

} // verus!
