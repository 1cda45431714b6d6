//! Routing hints: how urgent a request is and how long its output is expected to be.
//!
//! The hints stand in the raw request body, under `nvext.agent_hints`. They are read
//! from there directly, so they do not depend on how the request is tokenized, and
//! chat and completion requests are read alike.
use crate::json::{json_double_bits, json_i64, json_member, json_u64, parse_json};
#[allow(unused_imports)]
use crate::json::{JsonView, json_parsed, json_view};
use vstd::prelude::*;

verus! {

/// A double, kept by its bit pattern.
#[derive(Clone, Copy, Debug, PartialEq, Eq, Structural)]
pub struct DoubleBits {
    pub bits: u64,
}

impl DoubleBits {
    /// The double zero.
    pub fn zero() -> (zero: DoubleBits)
        ensures
            zero.bits == 0,
    {
        DoubleBits { bits: 0 }
    }
}

/// How far ahead of arrival order a request is scheduled.
#[derive(Clone, Copy, Debug, PartialEq, Eq, Structural)]
pub enum PriorityJump {
    /// The jump is this integer.
    Priority(i64),
    /// The jump is this double, which a request gives through the deprecated alias.
    LatencySensitivity(DoubleBits),
}

/// What the members of `nvext.agent_hints` were read as.
#[derive(Clone, Copy, Debug, PartialEq, Eq, Structural)]
pub struct AgentHints {
    /// `priority`, where it is an integer.
    pub priority: Option<i64>,
    /// `latency_sensitivity`, where it is a number.
    pub latency_sensitivity: Option<DoubleBits>,
    /// `osl`, where it is an integer that is not negative.
    pub osl: Option<u64>,
}

/// The hints of a request whose body gives none.
pub open spec fn no_hints() -> (PriorityJump, Option<u32>) {
    (PriorityJump::Priority(0), None)
}

/// The jump that a set of hints asks for. A negative priority counts as zero; without a
/// priority the deprecated alias decides; without either there is no jump.
pub open spec fn jump_of(hints: AgentHints) -> PriorityJump {
    match (hints.priority, hints.latency_sensitivity) {
        (Some(p), _) => PriorityJump::Priority(if p < 0 { 0 } else { p }),
        (None, Some(l)) => PriorityJump::LatencySensitivity(l),
        (None, None) => PriorityJump::Priority(0),
    }
}

/// The expected output length that a set of hints gives: the low 32 bits of `osl`.
pub open spec fn output_length_of(hints: AgentHints) -> Option<u32> {
    match hints.osl {
        Some(o) => Some((o % 0x1_0000_0000) as u32),
        None => None,
    }
}

/// The hints that an `agent_hints` value gives.
pub open spec fn agent_hints_of(value: JsonView) -> AgentHints {
    AgentHints {
        priority: match value.member("priority"@) {
            Some(p) => p.as_i64(),
            None => None,
        },
        latency_sensitivity: match value.member("latency_sensitivity"@) {
            Some(l) => match l.as_double_bits() {
                Some(bits) => Some(DoubleBits { bits }),
                None => None,
            },
            None => None,
        },
        osl: match value.member("osl"@) {
            Some(o) => o.as_u64(),
            None => None,
        },
    }
}

/// The `nvext.agent_hints` value of a request body.
pub open spec fn agent_hints_member(body: JsonView) -> Option<JsonView> {
    match body.member("nvext"@) {
        Some(nvext) => nvext.member("agent_hints"@),
        None => None,
    }
}

/// The hints of a parsed request body.
pub open spec fn hints_of_json(body: JsonView) -> (PriorityJump, Option<u32>) {
    match agent_hints_member(body) {
        Some(value) => (jump_of(agent_hints_of(value)), output_length_of(agent_hints_of(value))),
        None => no_hints(),
    }
}

/// The hints of a raw request body. A body that is not JSON has none.
pub open spec fn hints_of(body: Seq<char>) -> (PriorityJump, Option<u32>) {
    match json_parsed(body) {
        Some(json) => hints_of_json(json),
        None => no_hints(),
    }
}

/// Turns the members of `agent_hints` into a jump and an expected output length.
pub fn resolve_hints(hints: AgentHints) -> (resolved: (PriorityJump, Option<u32>))
    ensures
        resolved == (jump_of(hints), output_length_of(hints)),
{
    let jump = match hints.priority {
        Some(p) => PriorityJump::Priority(if p < 0 { 0 } else { p }),
        None => match hints.latency_sensitivity {
            Some(l) => PriorityJump::LatencySensitivity(l),
            None => PriorityJump::Priority(0),
        },
    };
    let osl = match hints.osl {
        Some(o) => {
            assert(o as u32 == o % 0x1_0000_0000) by (bit_vector);
            Some(#[verifier::truncate] (o as u32))
        },
        None => None,
    };
    (jump, osl)
}

/// Reads the members of an `agent_hints` value.
pub fn read_agent_hints(value: &serde_json::Value) -> (hints: AgentHints)
    ensures
        hints == agent_hints_of(json_view(*value)),
{
    let priority = match json_member(value, "priority") {
        Some(p) => json_i64(p),
        None => None,
    };
    let latency_sensitivity = match json_member(value, "latency_sensitivity") {
        Some(l) => match json_double_bits(l) {
            Some(bits) => Some(DoubleBits { bits }),
            None => None,
        },
        None => None,
    };
    let osl = match json_member(value, "osl") {
        Some(o) => json_u64(o),
        None => None,
    };
    AgentHints { priority, latency_sensitivity, osl }
}

/// Reads the hints of a parsed request body.
pub fn hints_from_json(body: &serde_json::Value) -> (hints: (PriorityJump, Option<u32>))
    ensures
        hints == hints_of_json(json_view(*body)),
{
    match json_member(body, "nvext") {
        Some(nvext) => match json_member(nvext, "agent_hints") {
            Some(value) => resolve_hints(read_agent_hints(value)),
            None => (PriorityJump::Priority(0), None),
        },
        None => (PriorityJump::Priority(0), None),
    }
}

/// Reads the priority jump and the expected output length of a raw request body.
///
/// A negative priority is taken as zero, so that a low priority never pushes a request
/// behind those that arrived after it. A body that is not JSON, or gives no hints, has jump zero
/// and no expected length.
pub fn extract_hints(body_str: &str) -> (hints: (PriorityJump, Option<u32>))
    ensures
        hints == hints_of(body_str@),
{
    match parse_json(body_str) {
        Some(json) => hints_from_json(&json),
        None => (PriorityJump::Priority(0), None),
    }
}

/// A priority never pushes a request behind arrival order: whenever the hints of a body
/// give an integer jump, it is not negative.
pub proof fn law_priority_is_never_negative(body: Seq<char>)
    ensures
        hints_of(body).0 matches PriorityJump::Priority(p) ==> p >= 0,
{
}

/// The deprecated alias only counts where no priority is given: a body with an integer
/// priority has the same jump whatever its `latency_sensitivity` is.
pub proof fn law_priority_overrides_alias(hints: AgentHints, other: Option<DoubleBits>)
    requires
        hints.priority is Some,
    ensures
        jump_of(AgentHints { latency_sensitivity: other, ..hints }) == jump_of(hints),
{
}

/// Only `nvext.agent_hints` counts: two bodies that agree on it have the same hints,
/// whatever else they hold.
pub proof fn law_hints_read_agent_hints_only(a: JsonView, b: JsonView)
    requires
        agent_hints_member(a) == agent_hints_member(b),
    ensures
        hints_of_json(a) == hints_of_json(b),
{
}

} // verus!
