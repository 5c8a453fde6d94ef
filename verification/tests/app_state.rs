use restless::app::{App, CurrentScreen, Tab, ValuesScreen};
use restless::error::RestlessError;
use restless::logic::request::HttpMethod;
use restless::logic::response::Response;
use reqwest::Method;

fn pair(k: &str, v: &str) -> (String, String) {
    (k.to_string(), v.to_string())
}

fn three_tabs() -> App {
    let mut app = App::new();
    app.add_new_tab().unwrap();
    app.add_new_tab().unwrap();
    app
}

#[test]
fn a_new_application_has_one_empty_tab() {
    let app = App::new();
    assert_eq!(app.current_screen, CurrentScreen::Values);
    assert_eq!(app.values_screen, ValuesScreen::Body);
    assert_eq!(app.tabs.len(), 1);
    assert_eq!(app.selected_tab, 0);
    assert_eq!(app.tabs[0].name, "Tab 1");
    assert_eq!(app.tabs[0].url(), "");
    assert_eq!(app.tabs[0].method(), HttpMethod::GET);
    assert_eq!(app.tabs[0].request.method, Method::GET);
    assert!(app.tabs[0].request.headers.is_empty());
    assert!(app.tabs[0].request.params.is_empty());
    assert!(app.tabs[0].request.body.is_none());
    assert!(app.tabs[0].response.is_none());
    assert_eq!(app.url_input, "");
    assert_eq!(app.selected_method, HttpMethod::GET);
    assert!(!app.method_dropdown_open);
    assert_eq!(app.method_dropdown_selected, 0);
    assert_eq!(app.response_tab_selected, 1);
    assert_eq!(app.response_scroll, 0);
    assert!(!app.help_visible);
    assert_eq!(app.previous_screen, CurrentScreen::Values);
    assert!(app.editing_header_index.is_none());
    assert!(app.editing_param_index.is_none());
}

#[test]
fn a_tab_reads_its_verb_leniently() {
    let mut tab = Tab::new("T".to_string(), "http://x".to_string());
    assert_eq!(tab.url(), "http://x");
    tab.request.method = Method::PUT;
    assert_eq!(tab.method(), HttpMethod::PUT);
    tab.request.method = Method::PATCH;
    assert_eq!(tab.method(), HttpMethod::GET);
}

#[test]
fn the_selected_index_always_names_a_tab() {
    let mut app = App::new();
    let check = |app: &App| {
        assert!(app.tabs.len() >= 1);
        assert!(app.selected_tab < app.tabs.len());
    };
    check(&app);
    for _ in 0..4 {
        app.add_new_tab().unwrap();
        check(&app);
    }
    assert_eq!(app.selected_tab, 4);
    for _ in 0..7 {
        app.next_tab().unwrap();
        check(&app);
    }
    assert_eq!(app.selected_tab, 1);
    for _ in 0..3 {
        app.prev_tab().unwrap();
        check(&app);
    }
    assert_eq!(app.selected_tab, 3);
    for _ in 0..6 {
        let _ = app.close_current_tab();
        check(&app);
    }
    assert_eq!(app.tabs.len(), 1);
    assert_eq!(app.selected_tab, 0);
}

#[test]
fn new_tabs_are_named_after_their_place() {
    let mut app = three_tabs();
    assert_eq!(app.tabs[1].name, "Tab 2");
    assert_eq!(app.tabs[2].name, "Tab 3");
    assert_eq!(app.selected_tab, 2);
    app.selected_tab = 0;
    app.restore_current_tab_state().unwrap();
    app.close_current_tab().unwrap();
    app.add_new_tab().unwrap();
    assert_eq!(app.tabs[2].name, "Tab 3");
    for _ in 0..7 {
        app.add_new_tab().unwrap();
    }
    assert_eq!(app.tabs[9].name, "Tab 10");
}

#[test]
fn switching_tabs_saves_and_restores_the_buffers() {
    let mut app = App::new();
    app.url_input = "https://one.example".to_string();
    app.selected_method = HttpMethod::DELETE;
    app.body_input = "{\"a\":1}".to_string();
    app.headers_input = vec![pair("A", "1"), pair("A", "2")];
    app.params_input = vec![pair("p", "q")];
    app.add_new_tab().unwrap();

    assert_eq!(app.selected_tab, 1);
    assert_eq!(app.url_input, "");
    assert_eq!(app.selected_method, HttpMethod::GET);
    assert_eq!(app.body_input, "");
    assert!(app.headers_input.is_empty());
    assert!(app.params_input.is_empty());
    assert_eq!(app.tabs[0].request.url, "https://one.example");
    assert_eq!(app.tabs[0].request.method, Method::DELETE);
    assert_eq!(app.tabs[0].request.body, Some("{\"a\":1}".to_string()));
    assert_eq!(app.tabs[0].request.headers, vec![pair("A", "1"), pair("A", "2")]);
    assert_eq!(app.tabs[0].request.params, vec![pair("p", "q")]);

    app.url_input = "http://two.example".to_string();
    app.selected_method = HttpMethod::POST;
    app.next_tab().unwrap();

    assert_eq!(app.selected_tab, 0);
    assert_eq!(app.url_input, "https://one.example");
    assert_eq!(app.selected_method, HttpMethod::DELETE);
    assert_eq!(app.body_input, "{\"a\":1}");
    assert_eq!(app.headers_input, vec![pair("A", "1"), pair("A", "2")]);
    assert_eq!(app.params_input, vec![pair("p", "q")]);
    assert_eq!(app.tabs[1].request.url, "http://two.example");
    assert_eq!(app.tabs[1].request.method, Method::POST);
    assert_eq!(app.tabs[1].request.body, None);

    app.prev_tab().unwrap();
    assert_eq!(app.selected_tab, 1);
    assert_eq!(app.url_input, "http://two.example");
    assert_eq!(app.selected_method, HttpMethod::POST);
    assert_eq!(app.body_input, "");
}

#[test]
fn next_and_previous_go_round() {
    let mut app = three_tabs();
    app.next_tab().unwrap();
    assert_eq!(app.selected_tab, 0);
    app.prev_tab().unwrap();
    assert_eq!(app.selected_tab, 2);
    app.prev_tab().unwrap();
    assert_eq!(app.selected_tab, 1);
    let mut single = App::new();
    single.url_input = "http://x".to_string();
    single.next_tab().unwrap();
    assert_eq!(single.selected_tab, 0);
    assert_eq!(single.url_input, "http://x");
    single.prev_tab().unwrap();
    assert_eq!(single.selected_tab, 0);
    assert_eq!(single.tabs[0].request.url, "http://x");
}

#[test]
fn the_last_tab_cannot_be_closed() {
    let mut app = App::new();
    app.url_input = "http://kept".to_string();
    app.headers_input = vec![pair("A", "b")];
    match app.close_current_tab() {
        Err(RestlessError::Tab { message }) => {
            assert_eq!(message, "Cannot close the last remaining tab")
        }
        _ => panic!("the only tab must stay"),
    }
    assert_eq!(app.tabs.len(), 1);
    assert_eq!(app.selected_tab, 0);
    assert_eq!(app.tabs[0].name, "Tab 1");
    assert_eq!(app.tabs[0].request.url, "");
    assert_eq!(app.url_input, "http://kept");
    assert_eq!(app.headers_input, vec![pair("A", "b")]);
}

#[test]
fn closing_selects_the_following_tab_or_the_new_last() {
    let mut app = three_tabs();
    app.tabs[0].request.url = "http://0".to_string();
    app.tabs[1].request.url = "http://1".to_string();
    app.tabs[2].request.url = "http://2".to_string();
    app.selected_tab = 0;
    app.close_current_tab().unwrap();
    assert_eq!(app.selected_tab, 0);
    assert_eq!(app.tabs.len(), 2);
    assert_eq!(app.tabs[0].name, "Tab 2");
    assert_eq!(app.url_input, "http://1");
    app.selected_tab = 1;
    app.close_current_tab().unwrap();
    assert_eq!(app.selected_tab, 0);
    assert_eq!(app.tabs.len(), 1);
    assert_eq!(app.url_input, "http://1");
}

#[test]
fn a_stale_index_is_reported() {
    let mut app = three_tabs();
    app.selected_tab = 7;
    match app.save_current_tab_state() {
        Err(RestlessError::AppState { message }) => assert_eq!(
            message,
            "Cannot save state: invalid tab index 7 (only 3 tabs exist)"
        ),
        _ => panic!("a stale index must be reported"),
    }
    match app.restore_current_tab_state() {
        Err(RestlessError::AppState { message }) => assert_eq!(
            message,
            "Cannot restore state: invalid tab index 7 (only 3 tabs exist)"
        ),
        _ => panic!("a stale index must be reported"),
    }
    match app.close_current_tab() {
        Err(RestlessError::AppState { message }) => {
            assert_eq!(message, "Invalid tab index: 7 (only 3 tabs exist)")
        }
        _ => panic!("a stale index must be reported"),
    }
    match app.add_new_tab() {
        Err(RestlessError::Tab { message }) => assert_eq!(
            message,
            "Failed to save current tab state: Application state error: Cannot save state: invalid tab index 7 (only 3 tabs exist)"
        ),
        _ => panic!("a stale index must be reported"),
    }
    assert!(matches!(app.next_tab(), Err(RestlessError::AppState { .. })));
    assert!(matches!(app.prev_tab(), Err(RestlessError::AppState { .. })));
    assert_eq!(app.tabs.len(), 3);
    assert_eq!(app.selected_tab, 7);
}

#[test]
fn an_unknown_method_in_a_tab_stops_the_restoring() {
    let mut app = three_tabs();
    app.tabs[0].request.method = Method::PATCH;
    app.tabs[0].request.url = "http://patched".to_string();
    app.tabs[0].request.body = Some("b".to_string());
    app.url_input = "http://current".to_string();
    app.body_input = "current".to_string();
    match app.next_tab() {
        Err(RestlessError::AppState { message }) => assert_eq!(
            message,
            "Invalid HTTP method in tab: Invalid HTTP method: PATCH"
        ),
        _ => panic!("an unknown method must be reported"),
    }
    assert_eq!(app.selected_tab, 0);
    assert_eq!(app.url_input, "http://patched");
    assert_eq!(app.body_input, "current");
    assert_eq!(app.tabs[2].request.url, "http://current");
}

#[test]
fn headers_are_committed_from_the_pending_texts() {
    let mut app = App::new();
    assert!(app.add_header().is_ok());
    assert!(app.headers_input.is_empty());

    app.current_header_key = "Accept:".to_string();
    app.current_header_value = " text/html ".to_string();
    app.add_header().unwrap();
    assert_eq!(app.headers_input, vec![pair("Accept", "text/html")]);
    assert_eq!(app.current_header_key, "");
    assert_eq!(app.current_header_value, "");

    app.current_header_key = " X-Whole : a: b ".to_string();
    app.add_header().unwrap();
    assert_eq!(app.headers_input[1], pair("X-Whole", "a: b"));

    app.current_header_key = "Bare".to_string();
    app.current_header_value = "v".to_string();
    app.add_header().unwrap();
    assert_eq!(app.headers_input[2], pair("Bare", "v"));

    app.current_header_key = " Alone ".to_string();
    app.add_header().unwrap();
    assert_eq!(app.headers_input[3], pair("Alone", ""));

    app.current_header_key = "K:a".to_string();
    app.current_header_value = "b ".to_string();
    app.add_header().unwrap();
    assert_eq!(app.headers_input[4], pair("K", "ab"));
    assert_eq!(app.headers_input.len(), 5);
}

#[test]
fn faulty_headers_are_refused_and_stay_pending() {
    let cases = [
        (":", "value", "Header key cannot be empty"),
        ("  ", "", "Header key cannot be empty"),
        (" : v", "", "Header key cannot be empty"),
        ("a\nb:", "v", "Header key cannot contain newlines"),
        ("a\rb", "v", "Header key cannot contain newlines"),
        ("a:", "x\ny", "Header value cannot contain newlines"),
        ("a", "x\ry", "Header value cannot contain newlines"),
        ("a:x\ry", "", "Header key cannot contain newlines"),
        ("a\n", "", "Header key cannot contain newlines"),
        ("a\n", "v", "Header key cannot contain newlines"),
        ("\ra", "v", "Header key cannot contain newlines"),
        ("Foo:\n", "", "Header key cannot contain newlines"),
        ("Foo:\r", "bar", "Header key cannot contain newlines"),
        ("Foo: bar\n", "", "Header key cannot contain newlines"),
        ("\n", "", "Header key cannot be empty"),
        (" \r\n ", "v", "Header key cannot be empty"),
    ];
    for (key, value, fault) in cases {
        let mut app = App::new();
        app.current_header_key = key.to_string();
        app.current_header_value = value.to_string();
        match app.add_header() {
            Err(RestlessError::InvalidHeader { header }) => assert_eq!(header, fault),
            _ => panic!("{:?} must be refused", key),
        }
        assert!(app.headers_input.is_empty());
        assert_eq!(app.current_header_key, key);
        assert_eq!(app.current_header_value, value);
    }
}

#[test]
fn a_line_break_at_the_edge_of_a_value_is_trimmed_away() {
    let mut app = App::new();
    app.current_header_key = "Accept:".to_string();
    app.current_header_value = " text/html \n".to_string();
    app.add_header().unwrap();
    assert_eq!(app.headers_input, vec![pair("Accept", "text/html")]);
    assert_eq!(app.current_header_key, "");
    assert_eq!(app.current_header_value, "");
}

#[test]
fn params_are_committed_from_the_pending_texts() {
    let mut app = App::new();
    assert!(app.add_param().is_ok());
    app.current_param_key = "limit=".to_string();
    app.current_param_value = "10".to_string();
    app.add_param().unwrap();
    app.current_param_key = " q = a=b ".to_string();
    app.add_param().unwrap();
    app.current_param_key = "flag".to_string();
    app.add_param().unwrap();
    app.current_param_key = "multi\nline".to_string();
    app.current_param_value = "x\ny".to_string();
    app.add_param().unwrap();
    assert_eq!(
        app.params_input,
        vec![pair("limit", "10"), pair("q", "a=b"), pair("flag", ""), pair("multi\nline", "x\ny")]
    );
    assert_eq!(app.current_param_key, "");
    assert_eq!(app.current_param_value, "");

    app.current_param_key = " =v".to_string();
    match app.add_param() {
        Err(RestlessError::InvalidParameter { param }) => {
            assert_eq!(param, "Parameter key cannot be empty")
        }
        _ => panic!("a blank key must be refused"),
    }
    assert_eq!(app.current_param_key, " =v");
    assert_eq!(app.params_input.len(), 4);
}

#[test]
fn committed_entries_are_removed_by_index() {
    let mut app = App::new();
    app.headers_input = vec![pair("a", "1"), pair("b", "2"), pair("c", "3")];
    app.params_input = vec![pair("x", "1")];
    app.remove_header(1).unwrap();
    assert_eq!(app.headers_input, vec![pair("a", "1"), pair("c", "3")]);
    match app.remove_header(2) {
        Err(RestlessError::AppState { message }) => assert_eq!(
            message,
            "Cannot remove header at index 2: only 2 headers exist"
        ),
        _ => panic!("an index behind the list must be reported"),
    }
    assert_eq!(app.headers_input.len(), 2);
    app.remove_param(0).unwrap();
    assert!(app.params_input.is_empty());
    match app.remove_param(0) {
        Err(RestlessError::AppState { message }) => assert_eq!(
            message,
            "Cannot remove parameter at index 0: only 0 parameters exist"
        ),
        _ => panic!("an index behind the list must be reported"),
    }
}

#[test]
fn help_remembers_the_screen_it_covers() {
    let mut app = App::new();
    app.current_screen = CurrentScreen::Response;
    app.help_scroll = 5;
    app.show_help();
    assert_eq!(app.current_screen, CurrentScreen::Help);
    assert_eq!(app.previous_screen, CurrentScreen::Response);
    assert!(app.help_visible);
    assert_eq!(app.help_scroll, 0);
    app.help_scroll = 3;
    app.show_help();
    assert_eq!(app.previous_screen, CurrentScreen::Response);
    assert_eq!(app.help_scroll, 3);
    app.hide_help();
    assert_eq!(app.current_screen, CurrentScreen::Response);
    assert!(!app.help_visible);
    app.current_screen = CurrentScreen::Url;
    app.hide_help();
    assert_eq!(app.current_screen, CurrentScreen::Url);
}

#[test]
fn the_buffers_are_validated_in_order() {
    let mut app = App::new();
    match app.validate_current_request() {
        Err(RestlessError::InvalidUrl { url }) => assert_eq!(url, "URL cannot be empty"),
        _ => panic!("an empty URL must be refused"),
    }
    app.url_input = "ftp://x".to_string();
    app.headers_input = vec![pair("", "v")];
    match app.validate_current_request() {
        Err(RestlessError::InvalidUrl { url }) => assert_eq!(
            url,
            "URL must start with http:// or https://, got: ftp://x"
        ),
        _ => panic!("another scheme must be refused"),
    }
    app.url_input = "https://x".to_string();
    app.params_input = vec![pair(" ", "v")];
    match app.validate_current_request() {
        Err(RestlessError::InvalidHeader { header }) => {
            assert_eq!(header, "Header key cannot be empty")
        }
        _ => panic!("a blank header key must be refused"),
    }
    app.headers_input = vec![pair("k", "a\nb")];
    match app.validate_current_request() {
        Err(RestlessError::InvalidHeader { header }) => {
            assert_eq!(header, "Header value cannot contain newlines")
        }
        _ => panic!("a line break must be refused"),
    }
    app.headers_input = vec![pair("k", "v"), pair("k", "w")];
    match app.validate_current_request() {
        Err(RestlessError::InvalidParameter { param }) => {
            assert_eq!(param, "Parameter key cannot be empty")
        }
        _ => panic!("a blank parameter key must be refused"),
    }
    app.params_input = vec![pair("p", "")];
    assert!(app.validate_current_request().is_ok());
}

#[test]
fn errors_are_worded_for_the_user() {
    let app = App::new();
    let shown = |e: RestlessError| app.get_error_message(&e);
    assert_eq!(shown(RestlessError::invalid_url("u")), "Invalid URL: u");
    assert_eq!(shown(RestlessError::invalid_header("h")), "Invalid Header: h");
    assert_eq!(shown(RestlessError::invalid_parameter("p")), "Invalid Parameter: p");
    assert_eq!(shown(RestlessError::Timeout), "Request timed out");
    assert_eq!(shown(RestlessError::tab("t")), "Tab Error: t");
    assert_eq!(shown(RestlessError::response_parsing("r")), "Response Error: r");
    assert_eq!(shown(RestlessError::app_state("a")), "App Error: a");
    assert_eq!(shown(RestlessError::terminal("x")), "Error: Terminal error: x");
    assert_eq!(shown(RestlessError::configuration("c")), "Error: Configuration error: c");
    assert_eq!(shown(RestlessError::url_encoding("e")), "Error: URL encoding error: e");
    assert_eq!(
        shown(RestlessError::invalid_http_method("PATCH")),
        "Error: Invalid HTTP method: PATCH"
    );
    assert_eq!(shown(RestlessError::Io("gone".to_string())), "Error: IO error: gone");
    let json = serde_json::from_str::<serde_json::Value>("[1,").unwrap_err();
    let text = json.to_string();
    assert_eq!(
        shown(RestlessError::Json(json)),
        format!("Error: JSON parsing error: {}", text)
    );
    let net = reqwest::Client::new().get("::").build().unwrap_err();
    let text = net.to_string();
    assert_eq!(shown(RestlessError::Network(net)), format!("Network Error: {}", text));
}

#[test]
fn the_help_screen_has_its_entries() {
    let app = App::new();
    let help = app.get_help_content();
    assert_eq!(help.len(), 24);
    assert_eq!(help.len(), restless::app::app::HELP_ENTRY_COUNT);
    assert_eq!(help[0], ("Navigation", ""));
    assert_eq!(help[3], ("", ""));
    assert_eq!(help[14], ("Enter", "Execute HTTP request"));
    assert_eq!(help[23], ("q", "Quit application"));
}

#[test]
fn a_response_stays_with_its_tab() {
    let mut app = three_tabs();
    app.tabs[1].response = Some(Response::new_unchecked(200, "A: b".to_string(), "x".to_string()));
    app.selected_tab = 0;
    app.restore_current_tab_state().unwrap();
    app.next_tab().unwrap();
    app.next_tab().unwrap();
    assert!(app.tabs[1].response.is_some());
    assert!(app.tabs[0].response.is_none());
    app.selected_tab = 0;
    app.close_current_tab().unwrap();
    assert!(app.tabs[0].response.is_some());
    assert_eq!(app.tabs[0].response.as_ref().unwrap().body, "x");
}
