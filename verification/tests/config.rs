use standalone_router::config::{health_text, models_handler, routes, Endpoint, FrontendConfig, Method};
use standalone_router::text::{parse_u16, write_decimal};

fn port(text: &str) -> u16 {
    FrontendConfig::from_settings(None, Some(text.to_string()), None, None).port
}

#[test]
fn settings_have_defaults() {
    let config = FrontendConfig::from_settings(None, None, None, None);
    assert_eq!(config.host, "0.0.0.0");
    assert_eq!(config.port, 8000);
    assert_eq!(config.model_name, "vllm");
    assert_eq!(config.upstream_scheme, "http");
    assert_eq!(config.listen_address(), "0.0.0.0:8000");
}

#[test]
fn settings_are_taken() {
    let config = FrontendConfig::from_settings(
        Some("127.0.0.1".to_string()),
        Some("9001".to_string()),
        Some("Qwen/Qwen3-0.6B".to_string()),
        Some("https".to_string()),
    );
    assert_eq!(config.listen_address(), "127.0.0.1:9001");
    assert_eq!(config.model_name, "Qwen/Qwen3-0.6B");
    assert_eq!(config.upstream_scheme, "https");
}

#[test]
fn ports_that_are_no_number_fall_back() {
    for text in ["", "+", "-1", "-0", " 80", "80 ", "80a", "65536", "99999999999999999999", "8_0", "\u{0663}"] {
        assert_eq!(port(text), 8000, "{text:?}");
        assert!(text.parse::<u16>().is_err());
    }
    for text in ["0", "1", "80", "+80", "0080", "65535", "00000000000000065535"] {
        assert_eq!(Some(port(text)), text.parse::<u16>().ok(), "{text:?}");
        assert_eq!(parse_u16(text), text.parse::<u16>().ok());
    }
}

#[test]
fn numbers_are_written_in_decimal_and_read_back() {
    for n in [0u64, 7, 10, 99, 100, 8000, 65535, 65536, u64::MAX] {
        assert_eq!(write_decimal(n), n.to_string());
    }
    for n in [0u16, 9, 10, 8000, u16::MAX] {
        assert_eq!(parse_u16(&write_decimal(n as u64)), Some(n));
        assert_eq!(port(&write_decimal(n as u64)), n);
    }
}

#[test]
fn endpoints_are_served() {
    let served: Vec<(Method, String, Endpoint)> =
        routes().into_iter().map(|r| (r.method, r.path, r.endpoint)).collect();
    assert_eq!(
        served,
        vec![
            (Method::Get, "/health".to_string(), Endpoint::Health),
            (Method::Get, "/v1/models".to_string(), Endpoint::Models),
            (Method::Post, "/v1/chat/completions".to_string(), Endpoint::Proxy),
            (Method::Post, "/v1/completions".to_string(), Endpoint::Proxy),
        ]
    );
    assert_eq!(health_text(), "ok");
}

#[test]
fn one_model_is_listed() {
    let config = FrontendConfig::from_settings(None, None, Some("Qwen/Qwen3-0.6B".to_string()), None);
    let expected: serde_json::Value = serde_json::from_str(
        r#"{"object":"list","data":[{"id":"Qwen/Qwen3-0.6B","object":"model","owned_by":"dynamo"}]}"#,
    )
    .unwrap();
    assert_eq!(models_handler(&config), expected);
}
