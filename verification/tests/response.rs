use restless::error::ResponseError;
use restless::logic::request::join_header_lines;
use restless::logic::response::Response;

#[test]
fn test_response_new_with_invalid_json() {
    let response = Response::new(404, "X-Test: test".to_string(), "not a json".to_string())
        .expect("Should create response successfully");
    assert_eq!(response.status_code, 404);
    assert_eq!(response.headers.len(), 1);
    assert_eq!(response.headers[0].0, "X-Test");
    assert_eq!(response.headers[0].1, "test");
    assert_eq!(response.body, "not a json");
}

#[test]
fn test_response_new_unchecked() {
    let response = Response::new_unchecked(
        200,
        "Content-Type: application/json".to_string(),
        r#"{"test": "value"}"#.to_string(),
    );
    assert_eq!(response.status_code, 200);
    assert!(response.is_json());
}

#[test]
fn test_split_headers_with_empty_string() {
    let headers = Response::split_headers("").expect("Should handle empty string");
    assert!(headers.is_empty());
}

#[test]
fn test_split_headers_with_malformed_lines() {
    let headers = Response::split_headers("Good: header\nMalformedHeader\nAnother: one")
        .expect("Should handle malformed headers");
    assert_eq!(headers.len(), 2);
    assert_eq!(headers[0], ("Good".to_string(), "header".to_string()));
    assert_eq!(headers[1], ("Another".to_string(), "one".to_string()));
}

#[test]
fn test_split_headers_with_extra_colons() {
    let headers = Response::split_headers("Foo: bar: baz").expect("Should handle extra colons");
    assert_eq!(headers.len(), 1);
    assert_eq!(headers[0], ("Foo".to_string(), "bar: baz".to_string()));
}

#[test]
fn test_split_headers_with_empty_key() {
    let result = Response::split_headers(": value");
    assert!(result.is_err());
}

#[test]
fn test_pretty_print_json_with_invalid_json() {
    let raw = "not json";
    let pretty = Response::pretty_print_json(raw).expect("Should handle non-JSON");
    assert_eq!(pretty, "not json");
}

#[test]
fn test_pretty_print_json_with_array() {
    let raw = r#"[{"a":1},{"b":2}]"#;
    let pretty = Response::pretty_print_json(raw).expect("Should format JSON");
    assert_eq!(
        pretty,
        "[\n  {\n    \"a\": 1\n  },\n  {\n    \"b\": 2\n  }\n]"
    );
}

#[test]
fn test_pretty_print_json_with_empty_string() {
    let pretty = Response::pretty_print_json("").expect("Should handle empty string");
    assert_eq!(pretty, "");
}

#[test]
fn test_content_type_detection() {
    let response = Response::new_unchecked(
        200,
        "Content-Type: application/json; charset=utf-8".to_string(),
        "{}".to_string(),
    );
    assert!(response.is_json());
    assert!(!response.is_xml());
    assert_eq!(
        response.content_type(),
        Some("application/json; charset=utf-8")
    );
}

#[test]
fn test_content_length() {
    let response = Response::new_unchecked(
        200,
        "Content-Length: 123".to_string(),
        "test body".to_string(),
    );
    assert_eq!(response.content_length(), Some(123));
}

#[test]
fn split_headers_reports_the_line_of_an_empty_key() {
    let result = Response::split_headers("Good: one\n\n   \n  : value  \nLater: two");
    match result {
        Err(ResponseError::HeaderParsing(msg)) => {
            assert_eq!(msg, "Empty header key on line 4: ': value'");
        }
        _ => panic!("an empty key must be refused"),
    }
}

#[test]
fn split_headers_trims_and_skips_blank_lines() {
    let headers =
        Response::split_headers("\r\n  Accept :  text/html  \r\n\r\nX-Empty:\r\n").unwrap();
    assert_eq!(
        headers,
        vec![
            ("Accept".to_string(), "text/html".to_string()),
            ("X-Empty".to_string(), "".to_string()),
        ]
    );
}

#[test]
fn split_headers_of_blank_text_is_empty() {
    assert!(Response::split_headers(" \n\t \n").unwrap().is_empty());
}

#[test]
fn checked_construction_refuses_an_empty_key() {
    let result = Response::new(200, ": value".to_string(), "{}".to_string());
    match result {
        Err(ResponseError::HeaderParsing(msg)) => {
            assert_eq!(msg, "Empty header key on line 1: ': value'");
            let text = ResponseError::HeaderParsing(msg).to_string();
            assert_eq!(
                text,
                "Invalid response headers: Empty header key on line 1: ': value'"
            );
        }
        _ => panic!("an empty key must be refused"),
    }
}

#[test]
fn unchecked_construction_tolerates_an_empty_key() {
    let response = Response::new_unchecked(200, ": value".to_string(), "plain".to_string());
    assert_eq!(response.status_code, 200);
    assert!(response.headers.is_empty());
    assert_eq!(response.body, "plain");
}

#[test]
fn unchecked_construction_keeps_the_headers_that_can_be_read() {
    let response = Response::new_unchecked(
        200,
        "Good: one\n: value\nno colon\n\nLater: two".to_string(),
        "".to_string(),
    );
    assert_eq!(
        response.headers,
        vec![
            ("Good".to_string(), "one".to_string()),
            ("Later".to_string(), "two".to_string()),
        ]
    );
    assert_eq!(response.body, "");
}

#[test]
fn lenient_reading_agrees_with_strict_reading() {
    for blob in ["", "A: b", "A: b\nC\n\nD:e:f", " x : y \r\nz"] {
        assert_eq!(
            Response::split_headers_leniently(blob),
            Response::split_headers(blob).unwrap()
        );
    }
    let (headers, warnings) = Response::scan_headers("A: b\n:c\nd");
    assert_eq!(headers, vec![("A".to_string(), "b".to_string())]);
    assert_eq!(warnings.len(), 2);
}

#[test]
fn unchecked_construction_formats_json() {
    let response = Response::new_unchecked(201, "A: b".to_string(), "{\"k\":[1,2]}".to_string());
    assert_eq!(response.headers, vec![("A".to_string(), "b".to_string())]);
    assert_eq!(response.body, "{\n  \"k\": [\n    1,\n    2\n  ]\n}");
}

#[test]
fn formatting_leaves_other_text_unchanged() {
    assert_eq!(Response::pretty_print_json("not a json").unwrap(), "not a json");
    assert_eq!(
        Response::pretty_print_json("  <xml>1</xml>\n").unwrap(),
        "  <xml>1</xml>\n"
    );
    assert_eq!(Response::pretty_print_json(" \n\t").unwrap(), "");
}

#[test]
fn formatting_trims_around_a_json_document() {
    assert_eq!(
        Response::pretty_print_json("  {\"a\":null}  \n").unwrap(),
        "{\n  \"a\": null\n}"
    );
}

#[test]
fn formatting_twice_gives_the_same_text() {
    let bodies = [
        r#"[{"a":1},{"b":2}]"#,
        r#"{"name":"x","list":[1,2.5,true,null],"deep":{"k":"v \" q"}}"#,
        "[]",
        "{}",
        "3",
        "\"text\"",
        "not a json",
        "",
        "   ",
    ];
    for body in bodies.iter() {
        let once = Response::pretty_print_json(body).unwrap();
        let twice = Response::pretty_print_json(&once).unwrap();
        assert_eq!(once, twice);
    }
}

#[test]
fn body_after_json_keeps_or_replaces() {
    assert_eq!(Response::body_after_json("raw", None).unwrap(), "raw");
    assert_eq!(
        Response::body_after_json("raw", Some(Ok("pretty".to_string()))).unwrap(),
        "pretty"
    );
    let failure = serde_json::from_str::<serde_json::Value>("{").unwrap_err();
    let expected = failure.to_string();
    match Response::body_after_json("raw", Some(Err(failure))) {
        Err(err) => {
            assert!(matches!(err, ResponseError::JsonFormatting(_)));
            assert_eq!(err.to_string(), format!("JSON formatting error: {}", expected));
        }
        Ok(_) => panic!("a failed printing must be reported"),
    }
}

#[test]
fn content_type_is_found_whatever_the_case() {
    let response = Response::new_unchecked(
        200,
        "X-A: 1\ncontent-TYPE: text/XML\nContent-Type: application/json".to_string(),
        "".to_string(),
    );
    assert_eq!(response.content_type(), Some("text/XML"));
    assert!(response.is_xml());
    assert!(response.is_json());
    let plain = Response::new_unchecked(200, "Accept: application/json".to_string(), "".to_string());
    assert_eq!(plain.content_type(), None);
    assert!(!plain.is_json());
    assert!(!plain.is_xml());
    let xml = Response::new_unchecked(200, "Content-Type: application/xml".to_string(), "".to_string());
    assert!(xml.is_xml());
}

#[test]
fn header_declarations_look_at_lower_case_text() {
    assert!(Response::header_declares_json("content-type", "application/json; charset=utf-8"));
    assert!(!Response::header_declares_json("Content-Type", "application/json"));
    assert!(!Response::header_declares_json("content-type", "text/plain"));
    assert!(Response::header_declares_xml("content-type", "text/xml"));
    assert!(Response::header_declares_xml("content-type", "application/xml"));
    assert!(!Response::header_declares_xml("accept", "text/xml"));
}

#[test]
fn content_length_reads_only_plain_numbers() {
    let cases: Vec<(&str, Option<usize>)> = vec![
        ("0", Some(0)),
        ("007", Some(7)),
        ("+15", Some(15)),
        ("", None),
        ("+", None),
        ("-1", None),
        ("12a", None),
        ("1 2", None),
        ("18446744073709551615", "18446744073709551615".parse::<usize>().ok()),
        ("18446744073709551616", "18446744073709551616".parse::<usize>().ok()),
        ("99999999999999999999999", None),
    ];
    for (text, expected) in cases {
        let response =
            Response::new_unchecked(200, format!("Content-Length:{}", text), "".to_string());
        assert_eq!(response.content_length(), expected);
        assert_eq!(expected, text.parse::<usize>().ok());
    }
    let first_wins = Response::new_unchecked(
        200,
        "content-length: x\nContent-Length: 5".to_string(),
        "".to_string(),
    );
    assert_eq!(first_wins.content_length(), None);
    let missing = Response::new_unchecked(200, "A: 5".to_string(), "".to_string());
    assert_eq!(missing.content_length(), None);
}

#[test]
fn lines_without_a_colon_give_warnings() {
    assert!(Response::header_warnings("").is_empty());
    assert!(Response::header_warnings("A: b\n\n  \nC:").is_empty());
    assert_eq!(
        Response::header_warnings("Good: header\nMalformedHeader\nAnother: one\n  again  "),
        vec![
            "Warning: Skipping malformed header on line 2: 'MalformedHeader'",
            "Warning: Skipping malformed header on line 4: 'again'",
        ]
    );
    assert_eq!(
        Response::header_warnings("one\n : x \ntwo"),
        vec![
            "Warning: Skipping malformed header on line 1: 'one'",
            "Warning: Empty header key on line 2: ': x'",
            "Warning: Skipping malformed header on line 3: 'two'",
        ]
    );
}

#[test]
fn written_headers_read_back() {
    let headers = vec![
        ("content-type".to_string(), "text/html; charset=utf-8".to_string()),
        ("set-cookie".to_string(), "a=b: c".to_string()),
        ("set-cookie".to_string(), "d=e".to_string()),
        ("x-empty".to_string(), "".to_string()),
        ("date".to_string(), "Wed, 28 Oct 2026 19:55:00 GMT".to_string()),
    ];
    let written: Vec<(String, Option<String>)> = headers
        .iter()
        .map(|(k, v)| (k.clone(), Some(v.clone())))
        .collect();
    let blob = join_header_lines(&written);
    assert_eq!(Response::split_headers(&blob).unwrap(), headers);
    assert!(Response::header_warnings(&blob).is_empty());
    assert_eq!(Response::split_headers(&join_header_lines(&vec![])).unwrap(), vec![]);
    let marked = join_header_lines(&vec![("x-bin".to_string(), None)]);
    assert_eq!(
        Response::split_headers(&marked).unwrap(),
        vec![("x-bin".to_string(), "<invalid-header-value>".to_string())]
    );
}
