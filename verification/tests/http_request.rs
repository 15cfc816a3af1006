use carola::http::headers::Headers;
use carola::http::request::{ParseError, RequestDecoder};
use carola::http::{self, HTTPMethod};

#[test]
fn request_without_content() {
    let raw = vec![
        "GET / HTTP/1.1",
        "Host: localhost:8000",
        "Accept: application/json",
    ];

    http::HTTPRequest::parse(raw).expect("Failed to parse HTTP request");
}

#[test]
fn request_with_content() {
    let raw = vec![
        "POST /echo/post/json HTTP/1.1",
        "Host: reqbin.com",
        "Accept: application/json",
        "Content-Type: application/json",
        "Content-Length: 81",
        "",
        "{",
        "\"Id\": 78912,",
        "\"Customer\": \"Jason Sweet\",",
        "\"Quantity\": 1,",
        "\"Price\": 18.00",
        "}",
    ];

    http::HTTPRequest::parse(raw).expect("Failed to parse");
}

#[test]
fn http_metadata() {
    let raw = vec![
        "GET / HTTP/1.1",
        "Host: localhost:8000",
        "Accept: application/json",
    ];

    let parsed = http::HTTPRequest::parse(raw).expect("Failed to parse");
    assert_eq!(*parsed.get_method(), HTTPMethod::Get);
    assert_eq!(parsed.get_uri(), "/");
    assert_eq!(parsed.get_version(), "1.1");
}

#[test]
fn headers() {
    let raw = vec![
        "GET / HTTP/1.1",
        "Host: localhost:8000",
        "Accept: application/json",
    ];

    let parsed = http::HTTPRequest::parse(raw).expect("Failed to parse");
    let mut expected = Headers::new();
    expected.insert("Host".to_string(), "localhost:8000".to_string());
    expected.insert("Accept".to_string(), "application/json".to_string());

    assert_eq!(*parsed.get_headers(), expected);
}

#[test]
fn request_without_body_markers_has_no_body() {
    let raw = vec![
        "GET / HTTP/1.1",
        "Host: localhost:8000",
        "Accept: application/json",
    ];
    let parsed = http::HTTPRequest::parse(raw).expect("Failed to parse");
    assert_eq!(*parsed.get_method(), HTTPMethod::Get);
    assert_eq!(parsed.get_uri(), "/");
    assert_eq!(parsed.get_version(), "1.1");
    assert_eq!(parsed.get_headers().len(), 2);
    assert_eq!(parsed.get_headers().get("Host"), Some(&"localhost:8000".to_string()));
    assert_eq!(parsed.get_headers().get("Accept"), Some(&"application/json".to_string()));
    assert_eq!(*parsed.get_body(), None);
}

#[test]
fn lines_after_the_empty_line_are_ignored_without_body_markers() {
    let raw = vec!["GET /a HTTP/1.1", "Host: h", "", "not a body"];
    let parsed = http::HTTPRequest::parse(raw).expect("Failed to parse");
    assert_eq!(*parsed.get_body(), None);
}

#[test]
fn body_is_every_line_followed_by_a_line_feed() {
    let raw = vec![
        "POST /echo/post/json HTTP/1.1",
        "Host: reqbin.com",
        "Content-Length: 81",
        "",
        "{",
        "\"Id\": 78912,",
        "}",
    ];
    let parsed = http::HTTPRequest::parse(raw).expect("Failed to parse");
    assert_eq!(*parsed.get_method(), HTTPMethod::Post);
    assert_eq!(parsed.get_uri(), "/echo/post/json");
    assert_eq!(*parsed.get_body(), Some("{\n\"Id\": 78912,\n}\n".to_string()));
}

#[test]
fn body_ends_at_the_next_empty_line() {
    let raw = vec!["PUT /x HTTP/1.1", "Transfer-Encoding: chunked", "", "one", "two", "", "three"];
    let parsed = http::HTTPRequest::parse(raw).expect("Failed to parse");
    assert_eq!(*parsed.get_body(), Some("one\ntwo\n".to_string()));
}

#[test]
fn body_is_empty_when_the_input_ends_with_the_headers() {
    let raw = vec!["PUT /x HTTP/1.1", "Content-Length: 0"];
    let parsed = http::HTTPRequest::parse(raw).expect("Failed to parse");
    assert_eq!(*parsed.get_body(), Some(String::new()));
}

#[test]
fn empty_input_is_a_malformed_request_line() {
    let raw: Vec<&str> = Vec::new();
    assert_eq!(http::HTTPRequest::parse(raw).unwrap_err(), ParseError::MalformedRequestLine);
}

#[test]
fn fewer_than_three_tokens_is_a_malformed_request_line() {
    assert_eq!(
        http::HTTPRequest::parse(vec!["GET /"]).unwrap_err(),
        ParseError::MalformedRequestLine
    );
    assert_eq!(
        http::HTTPRequest::parse(vec!["GET"]).unwrap_err(),
        ParseError::MalformedRequestLine
    );
    assert_eq!(
        http::HTTPRequest::parse(vec!["   ", "Host: h"]).unwrap_err(),
        ParseError::MalformedRequestLine
    );
    assert_eq!(http::HTTPRequest::parse(vec![""]).unwrap_err(), ParseError::MalformedRequestLine);
}

#[test]
fn version_token_without_http_is_an_unsupported_protocol() {
    assert_eq!(
        http::HTTPRequest::parse(vec!["GET / FTP/1.1"]).unwrap_err(),
        ParseError::UnsupportedProtocol
    );
    assert_eq!(
        http::HTTPRequest::parse(vec!["GET / http/1.1"]).unwrap_err(),
        ParseError::UnsupportedProtocol
    );
    assert_eq!(
        http::HTTPRequest::parse(vec!["GET / HTT"]).unwrap_err(),
        ParseError::UnsupportedProtocol
    );
}

#[test]
fn version_token_without_slash_is_a_malformed_request_line() {
    assert_eq!(
        http::HTTPRequest::parse(vec!["GET / HTTP"]).unwrap_err(),
        ParseError::MalformedRequestLine
    );
}

#[test]
fn version_is_the_second_segment_of_the_version_token() {
    let parsed = http::HTTPRequest::parse(vec!["GET / HTTP/2/x"]).unwrap();
    assert_eq!(parsed.get_version(), "2");
    let parsed = http::HTTPRequest::parse(vec!["GET / HTTPS/1.0"]).unwrap();
    assert_eq!(parsed.get_version(), "1.0");
    let parsed = http::HTTPRequest::parse(vec!["GET / HTTP/"]).unwrap();
    assert_eq!(parsed.get_version(), "");
}

#[test]
fn request_line_is_split_on_any_whitespace() {
    let parsed =
        http::HTTPRequest::parse(vec!["  DELETE\t/a/b?c=d \u{3000} HTTP/1.0  extra"]).unwrap();
    assert_eq!(*parsed.get_method(), HTTPMethod::Delete);
    assert_eq!(parsed.get_uri(), "/a/b?c=d");
    assert_eq!(parsed.get_version(), "1.0");
}

#[test]
fn header_without_colon_is_a_malformed_header() {
    assert_eq!(
        http::HTTPRequest::parse(vec!["GET / HTTP/1.1", "Host localhost"]).unwrap_err(),
        ParseError::MalformedHeader
    );
    assert_eq!(
        http::HTTPRequest::parse(vec!["GET / HTTP/1.1", "Host: h", "   ", "", "x"]).unwrap_err(),
        ParseError::MalformedHeader
    );
}

#[test]
fn header_line_after_the_empty_line_is_not_checked() {
    let parsed = http::HTTPRequest::parse(vec!["GET / HTTP/1.1", "Host: h", "", "no colon"]);
    assert!(parsed.is_ok());
}

#[test]
fn header_is_split_on_the_first_colon_and_trimmed() {
    let parsed = http::HTTPRequest::parse(vec![
        "GET / HTTP/1.1",
        "  Host :  localhost:8000  ",
        "Empty:",
        "X-Time:\t12:30 : 45 ",
    ])
    .unwrap();
    let headers = parsed.get_headers();
    assert_eq!(headers.len(), 3);
    assert_eq!(headers.get("Host"), Some(&"localhost:8000".to_string()));
    assert_eq!(headers.get("Empty"), Some(&String::new()));
    assert_eq!(headers.get("X-Time"), Some(&"12:30 : 45".to_string()));
    assert_eq!(headers.get("host"), None);
}

#[test]
fn last_header_of_a_name_wins() {
    let parsed =
        http::HTTPRequest::parse(vec!["GET / HTTP/1.1", "A: 1", "B: 2", "A: 3"]).unwrap();
    let headers = parsed.get_headers();
    assert_eq!(headers.len(), 2);
    assert_eq!(headers.get("A"), Some(&"3".to_string()));
    assert_eq!(headers.get("B"), Some(&"2".to_string()));
    let entries = headers.entries();
    assert_eq!(entries[0], ("A".to_string(), "3".to_string()));
    assert_eq!(entries[1], ("B".to_string(), "2".to_string()));
}

#[test]
fn unknown_method_is_kept_as_it_is() {
    let parsed = http::HTTPRequest::parse(vec!["PATCH / HTTP/1.1"]).unwrap();
    assert_eq!(*parsed.get_method(), HTTPMethod::Other("PATCH".to_string()));
    let parsed = http::HTTPRequest::parse(vec!["get / HTTP/1.1"]).unwrap();
    assert_eq!(*parsed.get_method(), HTTPMethod::Other("get".to_string()));
}

#[test]
fn methods_by_name() {
    assert_eq!(HTTPMethod::from("GET"), HTTPMethod::Get);
    assert_eq!(HTTPMethod::from("HEAD"), HTTPMethod::Head);
    assert_eq!(HTTPMethod::from("POST"), HTTPMethod::Post);
    assert_eq!(HTTPMethod::from("PUT"), HTTPMethod::Put);
    assert_eq!(HTTPMethod::from("DELETE"), HTTPMethod::Delete);
    assert_eq!(HTTPMethod::from("CONNECT"), HTTPMethod::Connect);
    assert_eq!(HTTPMethod::from("OPTIONS"), HTTPMethod::Options);
    assert_eq!(HTTPMethod::from("TRACE"), HTTPMethod::Other("TRACE".to_string()));
    assert_ne!(HTTPMethod::from("TRACE"), HTTPMethod::Other("PATCH".to_string()));
    assert_ne!(HTTPMethod::from("GET"), HTTPMethod::Head);
}

#[test]
fn diagnostics_of_the_errors() {
    assert_eq!(ParseError::MalformedRequestLine.diagnostic(), "Invalid formatting");
    assert_eq!(ParseError::UnsupportedProtocol.diagnostic(), "Invalid request type");
    assert_eq!(ParseError::MalformedHeader.diagnostic(), "Invalid formatting");
}

#[test]
fn header_fields_are_a_mapping() {
    let mut a = Headers::new();
    assert!(a.is_empty());
    a.insert("A".to_string(), "1".to_string());
    a.insert("B".to_string(), "2".to_string());
    a.insert("A".to_string(), "3".to_string());
    assert_eq!(a.len(), 2);
    assert!(a.contains_key("A"));
    assert!(!a.contains_key("C"));
    let mut b = Headers::new();
    b.insert("B".to_string(), "2".to_string());
    b.insert("A".to_string(), "3".to_string());
    assert_eq!(a, b);
    b.insert("B".to_string(), "4".to_string());
    assert_ne!(a, b);
    let mut c = Headers::new();
    c.insert("A".to_string(), "3".to_string());
    assert_ne!(a, c);
    assert_ne!(c, a);
}

fn read(lines: &[&str]) -> (usize, Result<http::HTTPRequest, ParseError>) {
    let mut decoder = RequestDecoder::new();
    let mut taken = 0;
    for line in lines {
        taken += 1;
        if !decoder.push(line) {
            break;
        }
    }
    (taken, decoder.finish())
}

#[test]
fn decoder_stops_behind_the_headers_without_body_markers() {
    let (taken, request) = read(&["GET / HTTP/1.1", "Host: h", "", "more", ""]);
    assert_eq!(taken, 3);
    let request = request.unwrap();
    assert_eq!(request.get_uri(), "/");
    assert_eq!(request.get_headers().get("Host"), Some(&"h".to_string()));
    assert_eq!(*request.get_body(), None);
}

#[test]
fn decoder_stops_behind_the_body() {
    let (taken, request) =
        read(&["POST /p HTTP/1.1", "Content-Length: 3", "", "a", "b", "", "c"]);
    assert_eq!(taken, 6);
    assert_eq!(*request.unwrap().get_body(), Some("a\nb\n".to_string()));
}

#[test]
fn decoder_stops_at_the_first_malformed_line() {
    let (taken, request) = read(&["GET /", "Host: h", ""]);
    assert_eq!(taken, 1);
    assert_eq!(request.unwrap_err(), ParseError::MalformedRequestLine);
    let (taken, request) = read(&["GET / HTTP/1.1", "Host: h", "no colon", "A: b", ""]);
    assert_eq!(taken, 3);
    assert_eq!(request.unwrap_err(), ParseError::MalformedHeader);
    let (taken, request) = read(&["GET / HTTX/1.1", "Host: h"]);
    assert_eq!(taken, 1);
    assert_eq!(request.unwrap_err(), ParseError::UnsupportedProtocol);
}

#[test]
fn decoder_reads_to_the_end_of_unfinished_input() {
    let (taken, request) = read(&[]);
    assert_eq!(taken, 0);
    assert_eq!(request.unwrap_err(), ParseError::MalformedRequestLine);
    let (taken, request) = read(&["GET / HTTP/1.1", "A: 1"]);
    assert_eq!(taken, 2);
    assert_eq!(*request.unwrap().get_body(), None);
    let (taken, request) = read(&["GET / HTTP/1.1", "Transfer-Encoding: chunked", "", "x"]);
    assert_eq!(taken, 4);
    assert_eq!(*request.unwrap().get_body(), Some("x\n".to_string()));
}

#[test]
fn decoder_ignores_what_it_is_given_after_it_has_stopped() {
    let mut decoder = RequestDecoder::new();
    assert!(decoder.push("GET /a HTTP/1.1"));
    assert!(!decoder.push(""));
    assert!(!decoder.push("Content-Length: 1"));
    assert!(!decoder.push("x"));
    let request = decoder.finish().unwrap();
    assert_eq!(request.get_headers().len(), 0);
    assert_eq!(*request.get_body(), None);
}

#[test]
fn decoder_and_parse_agree() {
    let messages: Vec<Vec<&str>> = vec![
        vec![],
        vec!["GET / HTTP/1.1"],
        vec!["GET / HTTP/1.1", "", "x"],
        vec!["POST /p HTTP/1.1", "Content-Length: 3", "", "a", "b", "", "c"],
        vec!["POST /p HTTP/1.1", "Content-Length: 3", "bad", "", "a"],
        vec!["POST /p", "Content-Length: 3"],
    ];
    for message in messages {
        let (_, read) = read(&message);
        let parsed = http::HTTPRequest::parse(message);
        match (read, parsed) {
            (Ok(a), Ok(b)) => {
                assert_eq!(*a.get_method(), *b.get_method());
                assert_eq!(a.get_uri(), b.get_uri());
                assert_eq!(a.get_version(), b.get_version());
                assert_eq!(*a.get_headers(), *b.get_headers());
                assert_eq!(*a.get_body(), *b.get_body());
            }
            (Err(a), Err(b)) => assert_eq!(a, b),
            _ => panic!("decoder and parse disagree"),
        }
    }
}
