use standalone_router::config::FrontendConfig;
use standalone_router::headers::{read_request_id, read_text_headers, reads_disaggregated, Header, RawHeader};
use standalone_router::proxy::{
    draw_request_id, error_response, proxy_handler, Booking, PickError, PickResult, ProxyEvent, ProxyStep,
    RequestInfo, ResponseHead, UpstreamRequest, MAX_BODY_BYTES,
};

fn raw(name: &str, value: &[u8]) -> RawHeader {
    RawHeader { name: name.to_string(), value: value.to_vec() }
}

fn header(name: &str, value: &str) -> Header {
    Header { name: name.to_string(), value: value.to_string() }
}

fn pairs(headers: &[Header]) -> Vec<(&str, &str)> {
    headers.iter().map(|h| (h.name.as_str(), h.value.as_str())).collect()
}

fn start(headers: Vec<RawHeader>) -> ProxyStep {
    let config = FrontendConfig::from_settings(None, None, None, None);
    proxy_handler(&config, "/v1/completions", headers)
}

fn body_read() -> ProxyEvent {
    ProxyEvent::BodyRead(Ok((b"{\"model\":\"m\"}".to_vec(), Some("m".to_string()))))
}

fn picked(mode: &str, token_ids: Option<Vec<u32>>) -> ProxyEvent {
    ProxyEvent::Picked(Ok(PickResult {
        endpoint: "10.0.0.7:8000".to_string(),
        headers: vec![header("x-worker-id", "7"), header("x-dynamo-routing-mode", mode)],
        token_ids,
    }))
}

fn head() -> ResponseHead {
    ResponseHead { status: 207, headers: vec![raw("content-type", b"text/event-stream"), raw("x-odd", b"\xff")] }
}

fn request(step: &ProxyStep) -> &RequestInfo {
    match step {
        ProxyStep::Pick { request, .. } => request,
        _ => panic!("nothing to pick for"),
    }
}

fn sent(step: &ProxyStep) -> (&UpstreamRequest, &Booking) {
    match step {
        ProxyStep::Send { request, booking } => (request, booking),
        _ => panic!("nothing to send"),
    }
}

fn reply(step: &ProxyStep) -> (u16, &str) {
    match step {
        ProxyStep::Reply(reply) => (reply.status, reply.message.as_str()),
        _ => panic!("no reply"),
    }
}

fn released(step: &ProxyStep) -> &str {
    match step {
        ProxyStep::Release { booking, .. } => booking.request_id.as_str(),
        ProxyStep::DetachRelease { booking, .. } => booking.request_id.as_str(),
        _ => panic!("nothing to release"),
    }
}

fn ready_to_send(mode: &str) -> ProxyStep {
    start(vec![raw("x-request-id", b"r-1")]).resume(body_read()).resume(picked(mode, None))
}

#[test]
fn body_is_read_up_to_the_limit() {
    assert_eq!(MAX_BODY_BYTES, 16_777_216);
    assert!(matches!(start(vec![]), ProxyStep::ReadBody { limit: MAX_BODY_BYTES, .. }));
    let step = start(vec![]).resume(ProxyEvent::BodyRead(Err("length limit exceeded".to_string())));
    assert_eq!(reply(&step), (400, "failed to read request body: length limit exceeded"));
}

#[test]
fn picker_sees_the_request() {
    let step = start(vec![
        raw("accept", b"*/*"),
        raw("x-request-id", b"r-1"),
        raw("x-binary", b"a\xffb"),
        raw("x-request-id", b"r-2"),
        raw("x-tab", b"a\tb"),
    ])
    .resume(body_read());
    let request = request(&step);
    assert_eq!(request.request_id, "r-1");
    assert_eq!(
        pairs(&request.headers),
        vec![("accept", "*/*"), ("x-request-id", "r-1"), ("x-request-id", "r-2"), ("x-tab", "a\tb")]
    );
    assert_eq!(request.body, b"{\"model\":\"m\"}".to_vec());
    assert_eq!(request.model, Some("m".to_string()));
    assert!(request.candidate_subset.is_empty());
}

#[test]
fn id_is_drawn_for_a_request_without_one() {
    for headers in [vec![], vec![raw("x-request-id", b"\x01"), raw("x-request-id", b"r-2")]] {
        let step = start(headers).resume(body_read());
        assert!(matches!(step, ProxyStep::DrawRequestId { .. }));
        let step = step.resume(draw_request_id());
        let id = request(&step).request_id.clone();
        assert_eq!(id.len(), 36);
        assert_eq!(uuid::Uuid::parse_str(&id).unwrap().get_version_num(), 4);
        assert_eq!(id, id.to_lowercase());
    }
}

#[test]
fn drawn_ids_differ() {
    match (draw_request_id(), draw_request_id()) {
        (ProxyEvent::RequestIdDrawn(a), ProxyEvent::RequestIdDrawn(b)) => assert_ne!(a, b),
        _ => panic!("an ID is drawn"),
    }
}

#[test]
fn failed_pick_is_answered_without_a_booking() {
    let step = start(vec![raw("x-request-id", b"r-1")]).resume(body_read());
    let step = step.resume(ProxyEvent::Picked(Err(PickError::NoEndpoints("no ready endpoints".to_string()))));
    assert_eq!(reply(&step), (503, "routing failed: no ready endpoints"));
    let step = start(vec![raw("x-request-id", b"r-1")]).resume(body_read());
    let step = step.resume(ProxyEvent::Picked(Err(PickError::Other("boom".to_string()))));
    assert_eq!(reply(&step), (500, "routing failed: boom"));
}

#[test]
fn request_is_forwarded_to_the_picked_worker() {
    let step = ready_to_send("aggregated");
    let (request, booking) = sent(&step);
    assert_eq!(request.url, "http://10.0.0.7:8000/v1/completions");
    assert_eq!(
        pairs(&request.headers),
        vec![
            ("content-type", "application/json"),
            ("x-worker-id", "7"),
            ("x-dynamo-routing-mode", "aggregated"),
        ]
    );
    assert_eq!(request.body, b"{\"model\":\"m\"}".to_vec());
    assert_eq!(booking.request_id, "r-1");
    assert_eq!(booking.endpoint, "10.0.0.7:8000");
    assert!(!booking.is_disaggregated);
}

#[test]
fn tokens_are_injected_where_the_picker_made_them() {
    let read = || start(vec![raw("x-request-id", b"r-1")]).resume(body_read());
    let step = || read().resume(picked("disaggregated", Some(vec![1, 2])));
    match step() {
        ProxyStep::InjectTokens { token_ids, request, .. } => {
            assert_eq!(token_ids, vec![1, 2]);
            assert_eq!(request.body, b"{\"model\":\"m\"}".to_vec());
        }
        _ => panic!("tokens are to be injected"),
    }
    let injected = step().resume(ProxyEvent::TokensInjected(Some(b"with tokens".to_vec())));
    assert_eq!(sent(&injected).0.body, b"with tokens".to_vec());
    assert_eq!(sent(&injected).0.url, "http://10.0.0.7:8000/v1/completions");
    let failed = step().resume(ProxyEvent::TokensInjected(None));
    assert_eq!(sent(&failed).0.body, b"{\"model\":\"m\"}".to_vec());
}

#[test]
fn failed_send_releases_the_booking_then_replies() {
    let step = ready_to_send("disaggregated").resume(ProxyEvent::Sent(Err("connection refused".to_string())));
    assert!(matches!(step, ProxyStep::Release { .. }));
    assert_eq!(released(&step), "r-1");
    // The reply waits for the release.
    let step = step.resume(ProxyEvent::ReleaseDetached);
    assert!(matches!(step, ProxyStep::Release { .. }));
    let step = step.resume(ProxyEvent::Released);
    assert_eq!(reply(&step), (502, "upstream request to 10.0.0.7:8000 failed: connection refused"));
}

#[test]
fn aggregated_answer_is_relayed_and_released_once() {
    let step = ready_to_send("aggregated").resume(ProxyEvent::Sent(Ok(head())));
    match &step {
        ProxyStep::Relay { head, .. } => {
            assert_eq!(head.status, 207);
            assert_eq!(head.headers.len(), 2);
            assert_eq!(head.headers[1].value, b"\xff".to_vec());
        }
        _ => panic!("the answer is relayed"),
    }
    let step = step.resume(ProxyEvent::Relayed(Ok(())));
    assert!(matches!(step, ProxyStep::Stream { .. }));
    // No release before the stream has ended.
    let step = step.resume(ProxyEvent::ReleaseDetached);
    assert!(matches!(step, ProxyStep::Stream { .. }));
    let step = step.resume(ProxyEvent::StreamEnded);
    assert!(matches!(step, ProxyStep::DetachRelease { reply: None, .. }));
    assert_eq!(released(&step), "r-1");
    // A stream that is dropped again releases nothing more.
    let step = step.resume(ProxyEvent::StreamEnded).resume(ProxyEvent::ReleaseDetached);
    assert!(matches!(step, ProxyStep::Finished));
    let step = step.resume(ProxyEvent::StreamEnded).resume(ProxyEvent::ReleaseDetached);
    assert!(matches!(step, ProxyStep::Finished));
}

#[test]
fn disaggregated_answer_completes_prefill_first() {
    let step = ready_to_send("disaggregated").resume(ProxyEvent::Sent(Ok(head())));
    assert!(matches!(&step, ProxyStep::CompletePrefill { booking, .. } if booking.request_id == "r-1"));
    let step = step.resume(ProxyEvent::PrefillCompleted);
    assert!(matches!(&step, ProxyStep::Relay { head, .. } if head.status == 207));
}

#[test]
fn failed_relay_detaches_the_release_and_replies_at_once() {
    let step = ready_to_send("aggregated").resume(ProxyEvent::Sent(Ok(head())));
    let step = step.resume(ProxyEvent::Relayed(Err("invalid header".to_string())));
    assert!(matches!(step, ProxyStep::DetachRelease { reply: Some(_), .. }));
    assert_eq!(released(&step), "r-1");
    assert_eq!(reply(&step.resume(ProxyEvent::ReleaseDetached)), (500, "invalid header"));
}

#[test]
fn headers_are_read_by_name_and_value() {
    assert_eq!(read_request_id(&vec![raw("x-request", b"a"), raw("x-request-id", b"b c~")]), Some("b c~".to_string()));
    assert_eq!(read_request_id(&vec![raw("x-request-id", b"a\x7f")]), None);
    assert_eq!(read_request_id(&vec![raw("x-request-id", b"")]), Some(String::new()));
    assert!(read_text_headers(&vec![raw("a", b"\n"), raw("b", b"\x80")]).is_empty());
    assert!(reads_disaggregated(&vec![header("a", "b"), header("x-dynamo-routing-mode", "disaggregated")]));
    assert!(!reads_disaggregated(&vec![header("x-dynamo-routing-mode", "Disaggregated")]));
    assert!(!reads_disaggregated(&vec![header("disaggregated", "x-dynamo-routing-mode")]));
    let reply = error_response(502, "down".to_string());
    assert_eq!((reply.status, reply.message.as_str()), (502, "down"));
    let expected: serde_json::Value = serde_json::from_str(r#"{"error":{"message":"down"}}"#).unwrap();
    assert_eq!(reply.body(), expected);
}
