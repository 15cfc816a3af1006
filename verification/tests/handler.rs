use carola::handler::{RequestHandler, RequestListener};
use carola::http::headers::Headers;
use carola::http::request::ParseError;
use carola::http::{HTTPMethod, HTTPRequest, HTTPResponse, HTTPStatusCode};

fn request(line: &str) -> HTTPRequest {
    HTTPRequest::parse(vec![line]).expect("Failed to parse")
}

fn reply(text: &'static str) -> impl FnMut(HTTPRequest) -> HTTPResponse + Send + 'static {
    move |_request: HTTPRequest| {
        HTTPResponse::new("1.1", HTTPStatusCode::OK, Headers::new(), Some(text.to_string()))
    }
}

const PAGE: &str = "<!DOCTYPE html><html><head><title>404 Not Found</title></head><body><h1>404 Not Found</h1><p>The requested resource could not be found.</p></body></html>";

#[test]
fn binding_outranks_the_static_file() {
    let mut handler = RequestHandler::new();
    handler.set_public_folder("./public");
    handler.set_listener("GET", "/x", reply("bound"));
    let response = handler.match_request(request("GET /x HTTP/1.1"), Some("file".to_string()));
    assert_eq!(response.construct(), "HTTP/1.1 200 OK\r\nContent-Length:5\r\n\r\nbound\r\n\r\n");
    assert_eq!(handler.asset_path(&request("GET /x HTTP/1.1")), None);
}

#[test]
fn binding_is_for_one_path_and_one_method() {
    let mut handler = RequestHandler::new();
    handler.set_listener("GET", "/x", reply("get x"));
    handler.set_listener("POST", "/x", reply("post x"));
    handler.set_listener("GET", "/y", reply("get y"));
    handler.set_listener("PATCH", "/x", reply("patch x"));
    let text = |handler: &mut RequestHandler, line: &str| {
        handler.match_request(request(line), None).construct()
    };
    assert_eq!(
        text(&mut handler, "GET /x HTTP/1.1"),
        "HTTP/1.1 200 OK\r\nContent-Length:5\r\n\r\nget x\r\n\r\n"
    );
    assert_eq!(
        text(&mut handler, "POST /x HTTP/1.1"),
        "HTTP/1.1 200 OK\r\nContent-Length:6\r\n\r\npost x\r\n\r\n"
    );
    assert_eq!(
        text(&mut handler, "GET /y HTTP/1.1"),
        "HTTP/1.1 200 OK\r\nContent-Length:5\r\n\r\nget y\r\n\r\n"
    );
    assert_eq!(
        text(&mut handler, "PATCH /x HTTP/1.1"),
        "HTTP/1.1 200 OK\r\nContent-Length:7\r\n\r\npatch x\r\n\r\n"
    );
    assert!(text(&mut handler, "DELETE /x HTTP/1.1").starts_with("HTTP/1.1 404 Not Found\r\n"));
    assert!(text(&mut handler, "GET /x/ HTTP/1.1").starts_with("HTTP/1.1 404 Not Found\r\n"));
    assert!(text(&mut handler, "GET /x?a=1 HTTP/1.1").starts_with("HTTP/1.1 404 Not Found\r\n"));
}

#[test]
fn last_binding_of_a_key_wins() {
    let mut handler = RequestHandler::new();
    handler.set_listener("GET", "/x", reply("first"));
    handler.set_listener("GET", "/y", reply("other"));
    handler.set_listener("GET", "/x", reply("second"));
    let response = handler.match_request(request("GET /x HTTP/1.1"), None);
    assert_eq!(response.construct(), "HTTP/1.1 200 OK\r\nContent-Length:6\r\n\r\nsecond\r\n\r\n");
    let response = handler.match_request(request("GET /y HTTP/1.1"), None);
    assert_eq!(response.construct(), "HTTP/1.1 200 OK\r\nContent-Length:5\r\n\r\nother\r\n\r\n");
}

#[test]
fn fallback_answers_without_binding_and_public_folder() {
    let mut handler = RequestHandler::new();
    let response = handler.match_request(request("GET /x HTTP/1.1"), None);
    assert_eq!(
        response.construct(),
        format!("HTTP/1.1 404 Not Found\r\nContent-Length:{}\r\n\r\n{}\r\n\r\n", PAGE.len(), PAGE)
    );
    assert_eq!(handler.asset_path(&request("GET /x HTTP/1.1")), None);
    let response = handler.match_request(request("GET /x HTTP/1.1"), Some("file".to_string()));
    assert!(response.construct().starts_with("HTTP/1.1 404 Not Found\r\n"));
}

#[test]
fn default_response_has_status_404() {
    let response = RequestHandler::default404(request("GET / HTTP/1.1"));
    assert_eq!(
        response.construct(),
        format!("HTTP/1.1 404 Not Found\r\nContent-Length:{}\r\n\r\n{}\r\n\r\n", PAGE.len(), PAGE)
    );
}

#[test]
fn fallback_can_be_replaced() {
    let mut handler = RequestHandler::new();
    handler.set_not_found_callback(|request: HTTPRequest| {
        HTTPResponse::new(
            "1.1",
            HTTPStatusCode::Gone,
            Headers::new(),
            Some(format!("no {}", request.get_uri())),
        )
    });
    let response = handler.match_request(request("GET /x HTTP/1.1"), None);
    assert_eq!(response.construct(), "HTTP/1.1 410 Gone\r\nContent-Length:5\r\n\r\nno /x\r\n\r\n");
}

#[test]
fn static_file_is_served_with_its_content_type() {
    let mut handler = RequestHandler::new();
    handler.set_public_folder("./public");
    handler.set_listener("GET", "/x", reply("bound"));
    let asked = request("GET /css/site.css HTTP/1.1");
    assert_eq!(handler.asset_path(&asked), Some("./public/css/site.css".to_string()));
    let response = handler.match_request(asked, Some("body {}".to_string()));
    assert_eq!(
        response.construct(),
        "HTTP/1.1 200 OK\r\nContent-Type:text/css\r\nContent-Length:7\r\n\r\nbody {}\r\n\r\n"
    );
    let response =
        handler.match_request(request("GET /notes HTTP/1.1"), Some("plain".to_string()));
    assert_eq!(
        response.construct(),
        "HTTP/1.1 200 OK\r\nContent-Type:text/plain\r\nContent-Length:5\r\n\r\nplain\r\n\r\n"
    );
}

#[test]
fn fallback_answers_where_the_file_is_missing() {
    let mut handler = RequestHandler::new();
    handler.set_public_folder("public");
    let asked = request("GET /missing.html HTTP/1.1");
    assert_eq!(handler.asset_path(&asked), Some("public/missing.html".to_string()));
    let response = handler.match_request(asked, None);
    assert!(response.construct().starts_with("HTTP/1.1 404 Not Found\r\n"));
}

#[test]
fn serve_gives_the_file_with_one_header() {
    let response = RequestHandler::serve("public/index.html", "<p>hi</p>".to_string());
    assert_eq!(
        response.construct(),
        "HTTP/1.1 200 OK\r\nContent-Type:text/html\r\nContent-Length:9\r\n\r\n<p>hi</p>\r\n\r\n"
    );
}

#[test]
fn undecodable_message_gets_status_400_with_the_diagnostic() {
    let mut handler = RequestHandler::new();
    handler.set_listener("GET", "/", reply("home"));
    let wire = handler.handle_request(HTTPRequest::parse(vec!["GET /"]), None);
    assert_eq!(
        wire,
        "HTTP/1.1 400 Bad Request\r\nContent-Length:18\r\n\r\nInvalid formatting\r\n\r\n"
    );
    let wire = handler.handle_request(Err(ParseError::UnsupportedProtocol), None);
    assert_eq!(
        wire,
        "HTTP/1.1 400 Bad Request\r\nContent-Length:20\r\n\r\nInvalid request type\r\n\r\n"
    );
    let response = RequestHandler::bad_request(ParseError::MalformedHeader);
    assert_eq!(
        response.construct(),
        "HTTP/1.1 400 Bad Request\r\nContent-Length:18\r\n\r\nInvalid formatting\r\n\r\n"
    );
}

#[test]
fn decoded_message_is_answered_on_the_wire() {
    let mut handler = RequestHandler::new();
    handler.set_listener("GET", "/", reply("home"));
    let wire = handler
        .handle_request(HTTPRequest::parse(vec!["GET / HTTP/1.1", "Host: localhost:8000"]), None);
    assert_eq!(wire, "HTTP/1.1 200 OK\r\nContent-Length:4\r\n\r\nhome\r\n\r\n");
}

#[test]
fn callback_keeps_its_state_between_requests() {
    let mut handler = RequestHandler::new();
    let mut count: usize = 0;
    handler.set_listener("GET", "/count", move |_request: HTTPRequest| {
        count += 1;
        HTTPResponse::new("1.1", HTTPStatusCode::OK, Headers::new(), Some(count.to_string()))
    });
    let first = handler.match_request(request("GET /count HTTP/1.1"), None).construct();
    let second = handler.match_request(request("GET /count HTTP/1.1"), None).construct();
    assert_eq!(first, "HTTP/1.1 200 OK\r\nContent-Length:1\r\n\r\n1\r\n\r\n");
    assert_eq!(second, "HTTP/1.1 200 OK\r\nContent-Length:1\r\n\r\n2\r\n\r\n");
}

#[test]
fn listener_holds_what_it_was_made_of() {
    let mut listener = RequestListener::new("/a".to_string(), HTTPMethod::Put, reply("put a"));
    assert_eq!(listener.path, "/a");
    assert_eq!(listener.method, HTTPMethod::Put);
    let response = (listener.callback).respond(request("PUT /a HTTP/1.1"));
    assert_eq!(response.construct(), "HTTP/1.1 200 OK\r\nContent-Length:5\r\n\r\nput a\r\n\r\n");
}
