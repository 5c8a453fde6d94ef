use restless::error::{RequestError, RestlessError};
use restless::logic::request::{
    build_query_string, build_url_with_params, check_header, check_url, classify_transport_error,
    client_setup_error, failure_kind, join_header_lines, FailureKind, HttpMethod, Request,
    REQUEST_TIMEOUT_SECONDS,
};
use reqwest::Method;

fn pair(k: &str, v: &str) -> (String, String) {
    (k.to_string(), v.to_string())
}

fn request(url: &str) -> Request {
    Request {
        url: url.to_string(),
        method: Method::GET,
        headers: vec![],
        body: None,
        params: vec![],
    }
}

#[test]
fn test_http_method_conversion() {
    let methods = [
        HttpMethod::GET,
        HttpMethod::POST,
        HttpMethod::PUT,
        HttpMethod::DELETE,
    ];
    for m in &methods {
        let reqwest_method: Method = m.into();
        let back = HttpMethod::try_from(&reqwest_method).unwrap();
        assert_eq!(*m, back);
    }
}

#[test]
fn test_url_building_with_params() {
    let req = Request {
        url: "https://api.example.com/users".to_string(),
        method: Method::GET,
        headers: vec![],
        body: None,
        params: vec![
            ("limit".to_string(), "10".to_string()),
            ("page".to_string(), "1".to_string()),
            ("search".to_string(), "john doe".to_string()),
        ],
    };

    let url = build_url_with_params(&req.url, &req.params).unwrap();

    assert_eq!(
        url,
        "https://api.example.com/users?limit=10&page=1&search=john%20doe"
    );
}

#[test]
fn test_url_building_with_existing_query() {
    let req = Request {
        url: "https://api.example.com/users?existing=true".to_string(),
        method: Method::GET,
        headers: vec![],
        body: None,
        params: vec![("limit".to_string(), "10".to_string())],
    };

    let url = build_url_with_params(&req.url, &req.params).unwrap();

    assert_eq!(url, "https://api.example.com/users?existing=true&limit=10");
}

#[test]
fn methods_map_to_their_transport_constants() {
    assert_eq!(Method::from(&HttpMethod::GET), Method::GET);
    assert_eq!(Method::from(&HttpMethod::POST), Method::POST);
    assert_eq!(Method::from(&HttpMethod::PUT), Method::PUT);
    assert_eq!(Method::from(&HttpMethod::DELETE), Method::DELETE);
    assert_eq!(HttpMethod::GET.as_str(), "GET");
    assert_eq!(HttpMethod::DELETE.as_str(), "DELETE");
}

#[test]
fn unknown_transport_methods_are_refused() {
    for m in [Method::PATCH, Method::HEAD, Method::OPTIONS] {
        match HttpMethod::try_from(&m) {
            Err(RestlessError::InvalidHttpMethod { method }) => assert_eq!(method, m.as_str()),
            _ => panic!("{} must be refused", m),
        }
    }
    let lower = Method::from_bytes(b"get").unwrap();
    assert!(HttpMethod::try_from(&lower).is_err());
}

#[test]
fn method_list_places_go_round() {
    for (i, m) in [HttpMethod::GET, HttpMethod::POST, HttpMethod::PUT, HttpMethod::DELETE]
        .iter()
        .enumerate()
    {
        assert_eq!(m.to_index(), i);
        assert_eq!(HttpMethod::from_index(i), *m);
    }
    assert_eq!(HttpMethod::from_index(4), HttpMethod::GET);
    assert_eq!(HttpMethod::from_index(usize::MAX), HttpMethod::GET);
}

#[test]
fn url_without_params_is_unchanged() {
    assert_eq!(build_url_with_params("http://h/p?q", &vec![]).unwrap(), "http://h/p?q");
    assert_eq!(build_url_with_params("", &vec![]).unwrap(), "");
}

#[test]
fn query_strings_are_percent_encoded() {
    assert_eq!(build_query_string(&vec![]), "");
    assert_eq!(build_query_string(&vec![pair("a", "")]), "a=");
    assert_eq!(
        build_query_string(&vec![pair("a b", "c&d=e"), pair("k-_.~", "Az09")]),
        "a%20b=c%26d%3De&k-_.~=Az09"
    );
    assert_eq!(
        build_query_string(&vec![pair("q", "caf\u{e9} \u{20ac} \u{1F600}")]),
        "q=caf%C3%A9%20%E2%82%AC%20%F0%9F%98%80"
    );
    assert_eq!(
        build_query_string(&vec![pair("x", "/?:@!$'()*+,;")]),
        "x=%2F%3F%3A%40%21%24%27%28%29%2A%2B%2C%3B"
    );
}

#[test]
fn url_building_refuses_a_blank_key() {
    let params = vec![pair("ok", "1"), pair("  ", "2"), pair("", "3")];
    match build_url_with_params("http://h", &params) {
        Err(RequestError::InvalidHeader { key, value }) => {
            assert_eq!(key, "  ");
            assert_eq!(value, "Parameter key cannot be empty");
        }
        _ => panic!("a blank key must be refused"),
    }
}

#[test]
fn url_validation_accepts_only_http_and_https() {
    assert!(request("http://x").validate_url().is_ok());
    assert!(request("https://x").validate_url().is_ok());
    assert!(request("https://").validate_url().is_ok());
    for bad in ["ftp://x", "HTTP://x", "x", "/relative", " http://x", "http:/x", "https:"] {
        match request(bad).validate_url() {
            Err(RequestError::InvalidUrl { url }) => assert_eq!(
                url,
                format!("URL must start with http:// or https://, got: {}", bad)
            ),
            _ => panic!("{} must be refused", bad),
        }
    }
    for empty in ["", " ", "\t\n"] {
        match request(empty).validate_url() {
            Err(RequestError::InvalidUrl { url }) => assert_eq!(url, "URL cannot be empty"),
            _ => panic!("an empty URL must be refused"),
        }
    }
    assert_eq!(check_url("ftp://x"), Some("URL must start with http:// or https://, got: ftp://x".to_string()));
    assert_eq!(check_url("https://x"), None);
}

#[test]
fn header_validation_reports_the_first_fault() {
    let mut req = request("http://x");
    req.headers = vec![pair("A", "1"), pair("B\n", "2"), pair("", "3")];
    match req.validate_headers() {
        Err(RequestError::InvalidHeader { key, value }) => {
            assert_eq!(key, "B\n");
            assert_eq!(value, "Header key cannot contain newlines");
        }
        _ => panic!("a line break in a key must be refused"),
    }
    req.headers = vec![pair(" ", "1")];
    match req.validate_headers() {
        Err(RequestError::InvalidHeader { key, value }) => {
            assert_eq!(key, " ");
            assert_eq!(value, "Header key cannot be empty");
        }
        _ => panic!("a blank key must be refused"),
    }
    req.headers = vec![pair("A", "x\ry")];
    match req.validate_headers() {
        Err(RequestError::InvalidHeader { key, value }) => {
            assert_eq!(key, "A");
            assert_eq!(value, "Header value cannot contain newlines");
        }
        _ => panic!("a line break in a value must be refused"),
    }
    req.headers = vec![pair("A", "1"), pair("A", "2")];
    assert!(req.validate_headers().is_ok());
    assert_eq!(check_header("A", "b"), None);
    assert_eq!(check_header("", "b"), Some("Header key cannot be empty"));
}

#[test]
fn target_url_checks_then_assembles() {
    let mut req = request("https://h/p");
    req.params = vec![pair("a", "b c")];
    req.headers = vec![pair("X", "y")];
    assert_eq!(req.target_url().unwrap(), "https://h/p?a=b%20c");
    req.headers = vec![pair("", "y")];
    assert!(matches!(req.target_url(), Err(RequestError::InvalidHeader { .. })));
    req.url = "ftp://h".to_string();
    assert!(matches!(req.target_url(), Err(RequestError::InvalidUrl { .. })));
    req.url = "http://h".to_string();
    req.headers = vec![];
    req.params = vec![pair(" ", "v")];
    assert!(matches!(req.target_url(), Err(RequestError::InvalidHeader { .. })));
}

#[test]
fn response_headers_become_lines() {
    assert_eq!(join_header_lines(&vec![]), "");
    let headers = vec![
        ("content-type".to_string(), Some("text/html".to_string())),
        ("x-bin".to_string(), None),
        ("etag".to_string(), Some("a:b".to_string())),
    ];
    assert_eq!(
        join_header_lines(&headers),
        "content-type: text/html\nx-bin: <invalid-header-value>\netag: a:b"
    );
}

#[test]
fn transport_failures_are_classified() {
    assert_eq!(REQUEST_TIMEOUT_SECONDS, 30);
    let failure = reqwest::Client::new().get("not a url").build().unwrap_err();
    assert!(!failure.is_timeout());
    assert!(!failure.is_connect());
    let text = failure.to_string();
    assert!(!text.is_empty());
    match client_setup_error(&failure) {
        RequestError::Connection { message } => {
            assert_eq!(message, format!("Failed to create HTTP client: {}", text))
        }
        _ => panic!("a failed setup is a connection failure"),
    }
    match classify_transport_error(failure) {
        RequestError::Http(e) => {
            assert_eq!(e.to_string(), text);
            let shown = RequestError::Http(e).to_string();
            assert_eq!(shown, format!("HTTP request failed: {}", text));
        }
        _ => panic!("neither a timeout nor a failed connection"),
    }
}

#[test]
fn tokens_are_read_as_they_stand() {
    assert_eq!(HttpMethod::from_token("GET"), Some(HttpMethod::GET));
    assert_eq!(HttpMethod::from_token("POST"), Some(HttpMethod::POST));
    assert_eq!(HttpMethod::from_token("PUT"), Some(HttpMethod::PUT));
    assert_eq!(HttpMethod::from_token("DELETE"), Some(HttpMethod::DELETE));
    for other in ["", "get", "GET ", "PATCH", "GETS", "PU"] {
        assert_eq!(HttpMethod::from_token(other), None);
    }
}

#[test]
fn a_timeout_comes_before_a_failed_connection() {
    assert_eq!(failure_kind(true, true), FailureKind::Timeout);
    assert_eq!(failure_kind(true, false), FailureKind::Timeout);
    assert_eq!(failure_kind(false, true), FailureKind::Connection);
    assert_eq!(failure_kind(false, false), FailureKind::Other);
}

#[test]
fn a_failed_connection_is_a_connection_failure() {
    let runtime = tokio::runtime::Builder::new_current_thread()
        .enable_all()
        .build()
        .unwrap();
    let failure = runtime.block_on(async {
        // bind a port and give it up again, so that nothing listens on it
        let listener = tokio::net::TcpListener::bind("127.0.0.1:0").await.unwrap();
        let port = listener.local_addr().unwrap().port();
        drop(listener);
        reqwest::Client::new()
            .get(format!("http://127.0.0.1:{}/", port))
            .send()
            .await
            .unwrap_err()
    });
    assert!(failure.is_connect());
    assert!(!failure.is_timeout());
    let text = failure.to_string();
    match classify_transport_error(failure) {
        RequestError::Connection { message } => {
            assert_eq!(message, format!("Connection failed: {}", text))
        }
        _ => panic!("a failed connection is a connection failure"),
    }
}
