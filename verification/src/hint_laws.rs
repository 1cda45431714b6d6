//! What the hints of a request are, in terms of what stands in its body.
#[allow(unused_imports)]
use crate::hints::{
    extract_hints, hints_from_json, read_agent_hints, resolve_hints, AgentHints, DoubleBits, PriorityJump,
};
#[allow(unused_imports)]
use crate::json::{double_bits_of_int, json_parsed, json_view, JsonNumber, JsonView};
use vstd::prelude::*;

verus! {

/// The jump of a request with an integer priority is the larger of that priority and zero:
/// a priority that is not negative is the jump itself, and a negative one gives none.
pub proof fn law_jump_is_the_priority_or_zero(hints: AgentHints, resolved: (PriorityJump, Option<u32>))
    requires
        call_ensures(resolve_hints, (hints,), resolved),
    ensures
        hints.priority matches Some(p) ==> {
            &&& resolved.0 matches PriorityJump::Priority(jump)
            &&& jump >= 0
            &&& jump >= p
            &&& (jump == p || jump == 0)
        },
{
}

/// The jump grows with the priority: of two requests, the one with the higher priority is
/// never scheduled with the smaller jump, and with a higher priority above zero its jump is
/// larger.
pub proof fn law_jump_grows_with_the_priority(
    low: AgentHints,
    high: AgentHints,
    low_resolved: (PriorityJump, Option<u32>),
    high_resolved: (PriorityJump, Option<u32>),
)
    requires
        call_ensures(resolve_hints, (low,), low_resolved),
        call_ensures(resolve_hints, (high,), high_resolved),
        low.priority is Some && high.priority is Some,
        low.priority->0 < high.priority->0,
    ensures
        low_resolved.0->Priority_0 <= high_resolved.0->Priority_0,
        high.priority->0 > 0 ==> low_resolved.0->Priority_0 < high_resolved.0->Priority_0,
{
}

/// Without an integer priority the deprecated alias is the jump, bit for bit; without either
/// the jump is zero.
pub proof fn law_alias_counts_without_priority(hints: AgentHints, resolved: (PriorityJump, Option<u32>))
    requires
        call_ensures(resolve_hints, (hints,), resolved),
        hints.priority is None,
    ensures
        hints.latency_sensitivity matches Some(l) ==> {
            &&& resolved.0 matches PriorityJump::LatencySensitivity(jump)
            &&& jump.bits == l.bits
        },
        hints.latency_sensitivity is None ==> {
            &&& resolved.0 matches PriorityJump::Priority(jump)
            &&& jump == 0
        },
{
}

/// An expected output length that fits 32 bits is taken as it is; of a larger one the low 32
/// bits are kept. There is one exactly where `osl` gives one.
pub proof fn law_output_length_keeps_low_bits(hints: AgentHints, resolved: (PriorityJump, Option<u32>))
    requires
        call_ensures(resolve_hints, (hints,), resolved),
    ensures
        resolved.1 is Some <==> hints.osl is Some,
        hints.osl matches Some(osl) ==> {
            &&& osl <= 4294967295 ==> resolved.1->0 == osl
            &&& resolved.1->0 <= osl
            &&& (osl - resolved.1->0) % 4294967296 == 0
        },
{
    if let Some(osl) = hints.osl {
        assert(osl == 4294967296 * (osl / 4294967296) + osl % 4294967296);
    }
}

/// The jump and the expected output length do not depend on each other: a request keeps its
/// jump whatever its `osl` is, and its expected length whatever its priority and alias are.
pub proof fn law_hints_are_independent(
    a: AgentHints,
    b: AgentHints,
    a_resolved: (PriorityJump, Option<u32>),
    b_resolved: (PriorityJump, Option<u32>),
)
    requires
        call_ensures(resolve_hints, (a,), a_resolved),
        call_ensures(resolve_hints, (b,), b_resolved),
    ensures
        a.priority == b.priority && a.latency_sensitivity == b.latency_sensitivity ==> a_resolved.0 == b_resolved.0,
        a.osl == b.osl ==> a_resolved.1 == b_resolved.1,
{
}

/// The value under a key of an object.
pub open spec fn value_at(members: Map<Seq<char>, JsonView>, key: Seq<char>) -> Option<JsonView> {
    if members.dom().contains(key) {
        Some(members[key])
    } else {
        None
    }
}

/// Whether a JSON value is an integer that fits `i64`.
pub open spec fn is_signed_integer(value: Option<JsonView>) -> bool {
    ||| value matches Some(JsonView::Number(JsonNumber::PosInt(n))) && n <= 9223372036854775807
    ||| value matches Some(JsonView::Number(JsonNumber::NegInt(_)))
}

/// What the hints are of a body that holds `members` as its `nvext.agent_hints`: an integer
/// `priority` is the jump, or zero if it is negative; in place of any other, the number
/// `latency_sensitivity` is; and an integer `osl` that is not negative is the expected output
/// length.
pub proof fn law_hints_of_a_body(
    body: serde_json::Value,
    top: Map<Seq<char>, JsonView>,
    nvext: Map<Seq<char>, JsonView>,
    members: Map<Seq<char>, JsonView>,
    hints: (PriorityJump, Option<u32>),
)
    requires
        call_ensures(hints_from_json, (&body,), hints),
        json_view(body) == JsonView::Object(top),
        value_at(top, "nvext"@) == Some(JsonView::Object(nvext)),
        value_at(nvext, "agent_hints"@) == Some(JsonView::Object(members)),
    ensures
        ({
            let priority = value_at(members, "priority"@);
            let alias = value_at(members, "latency_sensitivity"@);
            let osl = value_at(members, "osl"@);
            let (jump, length) = hints;
            &&& priority matches Some(JsonView::Number(JsonNumber::PosInt(n))) ==> (n <= 9223372036854775807 ==> jump
                == PriorityJump::Priority(n as i64))
            &&& priority matches Some(JsonView::Number(JsonNumber::NegInt(n))) ==> (n < 0 ==> jump
                == PriorityJump::Priority(0))
            &&& !is_signed_integer(priority) ==> match alias {
                Some(JsonView::Number(JsonNumber::Float(bits))) => jump == PriorityJump::LatencySensitivity(
                    DoubleBits { bits },
                ),
                Some(JsonView::Number(JsonNumber::PosInt(n))) => jump == PriorityJump::LatencySensitivity(
                    DoubleBits { bits: double_bits_of_int(n as int) },
                ),
                Some(JsonView::Number(JsonNumber::NegInt(n))) => jump == PriorityJump::LatencySensitivity(
                    DoubleBits { bits: double_bits_of_int(n as int) },
                ),
                _ => jump == PriorityJump::Priority(0),
            }
            &&& match osl {
                Some(JsonView::Number(JsonNumber::PosInt(n))) => {
                    &&& length is Some
                    &&& n <= 4294967295 ==> length->0 == n
                    &&& (n - length->0) % 4294967296 == 0
                },
                _ => length is None,
            }
        }),
{
    if let Some(JsonView::Number(JsonNumber::PosInt(n))) = value_at(members, "osl"@) {
        assert(n == 4294967296 * (n / 4294967296) + n % 4294967296);
    }
}

/// A body that is no object, or has no object `nvext`, or has no object `agent_hints` in it,
/// gives no hints: its jump is zero and it has no expected output length.
pub proof fn law_body_without_agent_hints_has_none(body: serde_json::Value, hints: (PriorityJump, Option<u32>))
    requires
        call_ensures(hints_from_json, (&body,), hints),
        json_view(body) matches JsonView::Object(top) ==> (value_at(top, "nvext"@) matches Some(
            JsonView::Object(nvext),
        ) ==> !(value_at(nvext, "agent_hints"@) matches Some(JsonView::Object(_)))),
    ensures
        hints.0 == PriorityJump::Priority(0),
        hints.1 is None,
{
}

/// What is read of an `agent_hints` object: each member by its own name, `priority` as an
/// integer of either sign, `latency_sensitivity` as a number and `osl` as an integer that is
/// not negative. A member of another kind counts as missing.
pub proof fn law_agent_hints_are_read_by_name(
    value: serde_json::Value,
    members: Map<Seq<char>, JsonView>,
    hints: AgentHints,
)
    requires
        call_ensures(read_agent_hints, (&value,), hints),
        json_view(value) == JsonView::Object(members),
    ensures
        match value_at(members, "priority"@) {
            Some(JsonView::Number(JsonNumber::PosInt(n))) => if n <= 9223372036854775807 {
                hints.priority is Some && hints.priority->0 == n
            } else {
                hints.priority is None
            },
            Some(JsonView::Number(JsonNumber::NegInt(n))) => hints.priority == Some(n),
            _ => hints.priority is None,
        },
        match value_at(members, "latency_sensitivity"@) {
            Some(JsonView::Number(JsonNumber::PosInt(n))) => hints.latency_sensitivity == Some(
                DoubleBits { bits: double_bits_of_int(n as int) },
            ),
            Some(JsonView::Number(JsonNumber::NegInt(n))) => hints.latency_sensitivity == Some(
                DoubleBits { bits: double_bits_of_int(n as int) },
            ),
            Some(JsonView::Number(JsonNumber::Float(bits))) => hints.latency_sensitivity == Some(DoubleBits { bits }),
            _ => hints.latency_sensitivity is None,
        },
        match value_at(members, "osl"@) {
            Some(JsonView::Number(JsonNumber::PosInt(n))) => hints.osl == Some(n),
            _ => hints.osl is None,
        },
{
}

/// A value that is no object gives no hints.
pub proof fn law_only_an_object_holds_hints(value: serde_json::Value, hints: AgentHints)
    requires
        call_ensures(read_agent_hints, (&value,), hints),
        !(json_view(value) is Object),
    ensures
        hints.priority is None,
        hints.latency_sensitivity is None,
        hints.osl is None,
{
}

/// The hints of a raw body are those of the JSON value that it parses to; a body that is not
/// JSON has jump zero and no expected output length.
pub proof fn law_raw_body_is_read_as_json(
    text: &str,
    body: serde_json::Value,
    raw_hints: (PriorityJump, Option<u32>),
    json_hints: (PriorityJump, Option<u32>),
)
    requires
        call_ensures(extract_hints, (text,), raw_hints),
        call_ensures(hints_from_json, (&body,), json_hints),
    ensures
        json_parsed(text@) == Some(json_view(body)) ==> raw_hints == json_hints,
        json_parsed(text@) is None ==> raw_hints.0 == PriorityJump::Priority(0) && raw_hints.1 is None,
{
}

/// The double zero has no bit set.
pub proof fn law_zero_has_no_bits(zero: DoubleBits)
    requires
        call_ensures(DoubleBits::zero, (), zero),
    ensures
        zero.bits == 0,
{
}

} // verus!
