use restless::error::{RequestError, ResponseError, RestlessError, UiError};
use restless::handlers::EventResult;

#[test]
fn restless_errors_have_their_text() {
    assert_eq!(RestlessError::url_encoding("m").to_string(), "URL encoding error: m");
    assert_eq!(RestlessError::invalid_http_method("M").to_string(), "Invalid HTTP method: M");
    assert_eq!(RestlessError::invalid_url("u").to_string(), "Invalid URL: u");
    assert_eq!(RestlessError::Timeout.to_string(), "Request timeout");
    assert_eq!(RestlessError::invalid_header("h").to_string(), "Invalid header format: h");
    assert_eq!(
        RestlessError::invalid_parameter("p").to_string(),
        "Invalid parameter format: p"
    );
    assert_eq!(RestlessError::tab("t").to_string(), "Tab error: t");
    assert_eq!(RestlessError::Io("i".to_string()).to_string(), "IO error: i");
    assert_eq!(RestlessError::terminal("t").to_string(), "Terminal error: t");
    assert_eq!(
        RestlessError::response_parsing("r").to_string(),
        "Response parsing error: r"
    );
    assert_eq!(RestlessError::configuration("c").to_string(), "Configuration error: c");
    assert_eq!(RestlessError::app_state("a").to_string(), "Application state error: a");
    assert_eq!(RestlessError::app_state("").to_string(), "Application state error: ");
}

#[test]
fn outside_errors_are_written_with_a_prefix() {
    let json = serde_json::from_str::<serde_json::Value>("{\"a\"").unwrap_err();
    let text = json.to_string();
    assert!(text.contains("EOF"));
    assert_eq!(
        RestlessError::Json(json).to_string(),
        format!("JSON parsing error: {}", text)
    );
    let net = reqwest::Client::new().get("no scheme").build().unwrap_err();
    let text = net.to_string();
    assert!(text.contains("builder error"));
    assert_eq!(
        RestlessError::Network(net).to_string(),
        format!("Network error: {}", text)
    );
}

#[test]
fn request_errors_have_their_text() {
    assert_eq!(RequestError::invalid_url("u").to_string(), "Invalid URL format: u");
    assert_eq!(
        RequestError::timeout(30).to_string(),
        "Request timeout after 30 seconds"
    );
    assert_eq!(RequestError::timeout(0).to_string(), "Request timeout after 0 seconds");
    assert_eq!(
        RequestError::timeout(u64::MAX).to_string(),
        "Request timeout after 18446744073709551615 seconds"
    );
    assert_eq!(
        RequestError::invalid_header("k", "v").to_string(),
        "Invalid request header: k=v"
    );
    assert_eq!(
        RequestError::body_serialization("b").to_string(),
        "Request body serialization failed: b"
    );
    assert_eq!(RequestError::connection("c").to_string(), "Connection failed: c");
}

#[test]
fn response_errors_have_their_text() {
    assert_eq!(
        ResponseError::body_parsing("b").to_string(),
        "Failed to parse response body: b"
    );
    assert_eq!(
        ResponseError::header_parsing("h").to_string(),
        "Invalid response headers: h"
    );
    assert_eq!(ResponseError::EmptyBody.to_string(), "Response body is empty");
    assert_eq!(
        ResponseError::unsupported_content_type("x/y").to_string(),
        "Unsupported content type: x/y"
    );
}

#[test]
fn ui_errors_have_their_text() {
    assert_eq!(
        UiError::terminal_init("t").to_string(),
        "Terminal initialization failed: t"
    );
    assert_eq!(UiError::drawing("d").to_string(), "Drawing error: d");
    assert_eq!(UiError::event_handling("e").to_string(), "Event handling error: e");
    assert_eq!(
        UiError::invalid_screen_state("s").to_string(),
        "Invalid screen state: s"
    );
}

#[test]
fn request_errors_convert() {
    match RestlessError::from(RequestError::invalid_url("u")) {
        RestlessError::InvalidUrl { url } => assert_eq!(url, "u"),
        _ => panic!("wrong kind"),
    }
    assert!(matches!(
        RestlessError::from(RequestError::timeout(30)),
        RestlessError::Timeout
    ));
    match RestlessError::from(RequestError::invalid_header("k", "v")) {
        RestlessError::InvalidHeader { header } => assert_eq!(header, "k: v"),
        _ => panic!("wrong kind"),
    }
    match RestlessError::from(RequestError::body_serialization("b")) {
        RestlessError::ResponseParsing { message } => assert_eq!(message, "b"),
        _ => panic!("wrong kind"),
    }
    match RestlessError::from(RequestError::connection("c")) {
        RestlessError::ResponseParsing { message } => assert_eq!(message, "c"),
        _ => panic!("wrong kind"),
    }
    let net = reqwest::Client::new().get("no scheme").build().unwrap_err();
    let text = net.to_string();
    match RestlessError::from(RequestError::Http(net)) {
        RestlessError::Network(e) => assert_eq!(e.to_string(), text),
        _ => panic!("wrong kind"),
    }
}

#[test]
fn response_errors_convert() {
    match RestlessError::from(ResponseError::body_parsing("b")) {
        RestlessError::ResponseParsing { message } => assert_eq!(message, "b"),
        _ => panic!("wrong kind"),
    }
    match RestlessError::from(ResponseError::header_parsing("h")) {
        RestlessError::ResponseParsing { message } => assert_eq!(message, "h"),
        _ => panic!("wrong kind"),
    }
    match RestlessError::from(ResponseError::EmptyBody) {
        RestlessError::ResponseParsing { message } => assert_eq!(message, "Response body is empty"),
        _ => panic!("wrong kind"),
    }
    match RestlessError::from(ResponseError::unsupported_content_type("x/y")) {
        RestlessError::ResponseParsing { message } => {
            assert_eq!(message, "Unsupported content type: x/y")
        }
        _ => panic!("wrong kind"),
    }
    let json = serde_json::from_str::<serde_json::Value>("}").unwrap_err();
    let text = json.to_string();
    match RestlessError::from(ResponseError::JsonFormatting(json)) {
        RestlessError::Json(e) => assert_eq!(e.to_string(), text),
        _ => panic!("wrong kind"),
    }
}

#[test]
fn ui_errors_convert() {
    for e in [UiError::terminal_init("m"), UiError::drawing("m"), UiError::event_handling("m")] {
        match RestlessError::from(e) {
            RestlessError::Terminal(msg) => assert_eq!(msg, "m"),
            _ => panic!("wrong kind"),
        }
    }
    match RestlessError::from(UiError::invalid_screen_state("s")) {
        RestlessError::AppState { message } => assert_eq!(message, "Invalid screen state: s"),
        _ => panic!("wrong kind"),
    }
}

#[test]
fn event_results_carry_their_message() {
    assert!(matches!(EventResult::error("e"), EventResult::Error(m) if m == "e"));
    assert!(matches!(EventResult::info("i"), EventResult::Info(m) if m == "i"));
    assert!(matches!(EventResult::Continue.clone(), EventResult::Continue));
    assert!(matches!(EventResult::Exit, EventResult::Exit));
}
