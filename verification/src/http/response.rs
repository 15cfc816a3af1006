//! Responses, and how one is encoded as the text that goes onto the wire.
use crate::http::headers::{fields_of, has_name, lemma_put_lookup, put, value_of, Headers};
use crate::http::request::text_of;
use crate::http::status_code::HTTPStatusCode;
use crate::text::{
    decimal, is_space, lemma_decimal_digits, lemma_token_at, lemma_tokens_after_space, to_decimal,
    tokens,
};
use vstd::prelude::*;
use vstd::utf8::encode_utf8;

verus! {

/// What a response is.
pub struct ResponseView {
    pub version: Seq<char>,
    pub status: HTTPStatusCode,
    pub headers: Seq<(Seq<char>, Seq<char>)>,
    pub body: Option<Seq<char>>,
}

/// The status line: `HTTP/`, the version, the number of the status code and
/// its reason phrase, with one blank between them.
pub open spec fn status_line(version: Seq<char>, status: HTTPStatusCode) -> Seq<char> {
    "HTTP/"@ + version + " "@ + decimal(status.code() as nat) + " "@ + status.reason()
}

/// The number of bytes that `text` takes in UTF-8.
pub open spec fn byte_length(text: Seq<char>) -> nat {
    encode_utf8(text).len()
}

/// The header fields that are sent: those of the response, with
/// `Content-Length` set to the byte length of the body where there is one.
pub open spec fn sent_headers(response: ResponseView) -> Seq<(Seq<char>, Seq<char>)> {
    match response.body {
        Some(body) => put(response.headers, "Content-Length"@, decimal(byte_length(body))),
        None => response.headers,
    }
}

/// The header lines, each in the form `name:value` after a line break.
pub open spec fn header_block(fields: Seq<(Seq<char>, Seq<char>)>) -> Seq<char>
    decreases fields.len(),
{
    if fields.len() == 0 {
        Seq::empty()
    } else {
        header_block(fields.drop_last()) + "\r\n"@ + fields.last().0 + ":"@ + fields.last().1
    }
}

/// What follows the header lines: an empty line and the body where there is
/// one, then in either case two line breaks.
pub open spec fn body_block(body: Option<Seq<char>>) -> Seq<char> {
    match body {
        Some(text) => "\r\n"@ + "\r\n"@ + text + "\r\n\r\n"@,
        None => "\r\n\r\n"@,
    }
}

/// The text of a response on the wire.
pub open spec fn wire_text(response: ResponseView) -> Seq<char> {
    status_line(response.version, response.status) + header_block(sent_headers(response))
        + body_block(response.body)
}

/// With a body, the `Content-Length` that is sent is the byte length of the
/// body, whatever the response held under that name, and every other field
/// is sent as the response holds it.
pub proof fn lemma_content_length_sent(response: ResponseView, name: Seq<char>)
    requires
        response.body is Some,
    ensures
        has_name(sent_headers(response), "Content-Length"@),
        value_of(sent_headers(response), "Content-Length"@) == decimal(
            byte_length(response.body->0),
        ),
        name != "Content-Length"@ ==> has_name(sent_headers(response), name) == has_name(
            response.headers,
            name,
        ),
        name != "Content-Length"@ && has_name(response.headers, name) ==> value_of(
            sent_headers(response),
            name,
        ) == value_of(response.headers, name),
{
    let length = decimal(byte_length(response.body->0));
    lemma_put_lookup(response.headers, "Content-Length"@, length, "Content-Length"@);
    lemma_put_lookup(response.headers, "Content-Length"@, length, name);
}

/// Without a body, the status line and the header lines of the response
/// are all that is sent before the closing line breaks.
pub proof fn lemma_wire_text_without_body(response: ResponseView)
    requires
        response.body is None,
    ensures
        wire_text(response) == status_line(response.version, response.status) + header_block(
            response.headers,
        ) + "\r\n\r\n"@,
{
}

/// The fields of a status line are read back from it as they were
/// written: where the version holds no whitespace, the first token of the
/// line is `HTTP/` with the version, the second is the number of the status
/// code, and what follows the blank behind it is the reason phrase.
pub proof fn lemma_status_line_fields(version: Seq<char>, status: HTTPStatusCode)
    requires
        forall|i: int| 0 <= i < version.len() ==> !is_space(#[trigger] version[i]),
    ensures
        tokens(status_line(version, status)).len() >= 2,
        tokens(status_line(version, status))[0] == "HTTP/"@ + version,
        tokens(status_line(version, status))[1] == decimal(status.code() as nat),
        status_line(version, status).skip(
            ("HTTP/"@ + version).len() + decimal(status.code() as nat).len() + 2 as int,
        ) == status.reason(),
{
    reveal_strlit("HTTP/");
    reveal_strlit(" ");
    let line = status_line(version, status);
    let head = "HTTP/"@ + version;
    let number = decimal(status.code() as nat);
    let a = head.len() as int;
    let b = a + 1 + number.len();
    lemma_decimal_digits(status.code() as nat);
    assert forall|j: int| 0 <= j < a implies !is_space(#[trigger] line[j]) by {}
    assert forall|j: int| a + 1 <= j < b implies !is_space(#[trigger] line[j]) by {}
    lemma_token_at(line, 0, a);
    lemma_tokens_after_space(line, a);
    lemma_token_at(line, a + 1, b);
}

/// A response.
#[derive(Debug)]
pub struct HTTPResponse {
    version: String,
    status: HTTPStatusCode,
    headers: Headers,
    body: Option<String>,
}

impl View for HTTPResponse {
    type V = ResponseView;

    closed spec fn view(&self) -> ResponseView {
        ResponseView {
            version: self.version@,
            status: self.status,
            headers: self.headers@,
            body: text_of(self.body),
        }
    }
}

impl HTTPResponse {
    /// A response of the given version, status, header fields and body.
    pub fn new(version: &str, status: HTTPStatusCode, headers: Headers, body: Option<String>) -> (r:
        HTTPResponse)
        ensures
            r@ == (ResponseView {
                version: version@,
                status,
                headers: headers@,
                body: text_of(body),
            }),
    {
        HTTPResponse { version: version.to_owned(), status, headers, body }
    }

    /// The text of the response on the wire.
    pub fn construct(self) -> (wire: String)
        ensures
            wire@ == wire_text(self@),
    {
        let ghost response = self@;
        let HTTPResponse { version, status, headers, body } = self;
        let mut headers = headers;
        let value: isize = status.value();
        let mut wire = String::from_str("HTTP/");
        wire.append(version.as_str());
        wire.append(" ");
        wire.append(to_decimal(value as usize).as_str());
        wire.append(" ");
        wire.append(status.message().as_str());
        match &body {
            Some(text) => {
                let length: usize = text.as_str().as_bytes().len();
                headers.insert("Content-Length".to_owned(), to_decimal(length));
            },
            None => {},
        }
        let entries = headers.entries();
        let ghost fields = fields_of(entries@);
        let mut i: usize = 0;
        while i < entries.len()
            invariant
                i <= entries.len(),
                fields == fields_of(entries@),
                wire@ == status_line(response.version, response.status) + header_block(
                    fields.take(i as int),
                ),
            decreases entries.len() - i,
        {
            proof {
                assert(fields.take(i as int + 1).drop_last() =~= fields.take(i as int));
            }
            wire.append("\r\n");
            wire.append(entries[i].0.as_str());
            wire.append(":");
            wire.append(entries[i].1.as_str());
            i += 1;
        }
        proof {
            assert(fields.take(entries.len() as int) =~= fields);
        }
        match &body {
            Some(text) => {
                wire.append("\r\n");
                wire.append("\r\n");
                wire.append(text.as_str());
            },
            None => {},
        }
        wire.append("\r\n\r\n");
        wire
    }
}

} // verus!
