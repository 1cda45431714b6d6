use standalone_router::hints::{
    extract_hints, hints_from_json, read_agent_hints, resolve_hints, AgentHints, DoubleBits, PriorityJump,
};

/// The jump as a number.
fn value(jump: PriorityJump) -> f64 {
    match jump {
        PriorityJump::Priority(p) => p as f64,
        PriorityJump::LatencySensitivity(l) => f64::from_bits(l.bits),
    }
}

fn hints(body: &str) -> (f64, Option<u32>) {
    let (jump, osl) = extract_hints(body);
    (value(jump), osl)
}

#[test]
fn hints_parsed_from_nvext_agent_hints() {
    let (p, osl) = hints(r#"{"prompt":"hi","nvext":{"agent_hints":{"priority":5,"osl":128}}}"#);
    assert_eq!(p, 5.0);
    assert_eq!(osl, Some(128));
}

#[test]
fn negative_priority_clamped_and_absent_hints_default() {
    assert_eq!(hints(r#"{"nvext":{"agent_hints":{"priority":-3}}}"#).0, 0.0);
    assert_eq!(hints(r#"{"prompt":"hi"}"#), (0.0, None));
    assert_eq!(hints("not json"), (0.0, None));
}

#[test]
fn alias_counts_without_priority() {
    assert_eq!(hints(r#"{"nvext":{"agent_hints":{"latency_sensitivity":1.5}}}"#), (1.5, None));
    assert_eq!(hints(r#"{"nvext":{"agent_hints":{"latency_sensitivity":-2.5}}}"#), (-2.5, None));
    assert_eq!(hints(r#"{"nvext":{"agent_hints":{"latency_sensitivity":7}}}"#), (7.0, None));
    assert_eq!(hints(r#"{"nvext":{"agent_hints":{"latency_sensitivity":-7}}}"#), (-7.0, None));
    assert_eq!(hints(r#"{"nvext":{"agent_hints":{"latency_sensitivity":"high"}}}"#), (0.0, None));
}

#[test]
fn priority_overrides_alias() {
    let body = r#"{"nvext":{"agent_hints":{"priority":2,"latency_sensitivity":9.5}}}"#;
    assert_eq!(extract_hints(body).0, PriorityJump::Priority(2));
    let body = r#"{"nvext":{"agent_hints":{"priority":-2,"latency_sensitivity":9.5}}}"#;
    assert_eq!(extract_hints(body).0, PriorityJump::Priority(0));
}

#[test]
fn priority_that_is_no_small_integer_gives_way_to_alias() {
    for priority in ["1.5", "\"7\"", "null", "9223372036854775808"] {
        let body = format!(r#"{{"nvext":{{"agent_hints":{{"priority":{priority},"latency_sensitivity":0.25}}}}}}"#);
        assert_eq!(hints(&body), (0.25, None));
    }
    assert_eq!(
        extract_hints(r#"{"nvext":{"agent_hints":{"priority":9223372036854775807}}}"#).0,
        PriorityJump::Priority(i64::MAX)
    );
}

#[test]
fn output_length_keeps_low_bits() {
    assert_eq!(hints(r#"{"nvext":{"agent_hints":{"osl":4294967295}}}"#).1, Some(4294967295));
    assert_eq!(hints(r#"{"nvext":{"agent_hints":{"osl":4294967301}}}"#).1, Some(5));
    assert_eq!(hints(r#"{"nvext":{"agent_hints":{"osl":-1}}}"#).1, None);
    assert_eq!(hints(r#"{"nvext":{"agent_hints":{"osl":12.5}}}"#).1, None);
}

#[test]
fn only_agent_hints_of_nvext_count() {
    assert_eq!(hints(r#"{"agent_hints":{"priority":5,"osl":1}}"#), (0.0, None));
    assert_eq!(hints(r#"{"nvext":{"priority":5,"osl":1}}"#), (0.0, None));
    assert_eq!(hints(r#"{"nvext":[{"agent_hints":{"priority":5}}]}"#), (0.0, None));
    assert_eq!(hints(r#"{"nvext":{"agent_hints":[5]}}"#), (0.0, None));
    assert_eq!(hints(r#"[1,2]"#), (0.0, None));
    let chat = r#"{"messages":[{"role":"user","content":"hi"}],"nvext":{"agent_hints":{"priority":4,"osl":9}}}"#;
    let completion = r#"{"prompt":"hi","nvext":{"agent_hints":{"priority":4,"osl":9}}}"#;
    assert_eq!(extract_hints(chat), extract_hints(completion));
    assert_eq!(hints(chat), (4.0, Some(9)));
}

#[test]
fn parsed_bodies_are_read_alike() {
    let json: serde_json::Value =
        serde_json::from_str(r#"{"nvext":{"agent_hints":{"priority":5,"latency_sensitivity":0.5,"osl":128}}}"#).unwrap();
    assert_eq!(hints_from_json(&json), (PriorityJump::Priority(5), Some(128)));
    let read = read_agent_hints(json.get("nvext").unwrap().get("agent_hints").unwrap());
    assert_eq!(
        read,
        AgentHints {
            priority: Some(5),
            latency_sensitivity: Some(DoubleBits { bits: 0.5f64.to_bits() }),
            osl: Some(128),
        }
    );
    assert_eq!(resolve_hints(read), (PriorityJump::Priority(5), Some(128)));
    assert_eq!(
        resolve_hints(AgentHints { priority: None, ..read }),
        (PriorityJump::LatencySensitivity(DoubleBits { bits: 0.5f64.to_bits() }), Some(128))
    );
    assert_eq!(DoubleBits::zero().bits, 0.0f64.to_bits());
}
