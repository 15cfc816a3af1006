//! Requests, and how one is decoded from the text lines of a message.
use crate::http::headers::{
    distinct_names, has_name, lemma_put_distinct, lemma_put_lookup, put, Headers,
};
use crate::http::method::{method_of, HTTPMethod, MethodView};
use crate::text::{
    find_char, index_of, next_token, starts_with, to_chars, tokens, trim, trimmed,
};
use vstd::prelude::*;

verus! {

/// Why a message could not be decoded.
#[derive(Debug, Clone, Copy, PartialEq, Eq, Structural)]
pub enum ParseError {
    /// The request line has fewer than three tokens, or its version token
    /// has nothing behind a `/`.
    MalformedRequestLine,
    /// The version token does not begin with `HTTP`.
    UnsupportedProtocol,
    /// A header line holds no `:`.
    MalformedHeader,
}

impl ParseError {
    /// The short text that tells a peer what was wrong.
    pub open spec fn diagnostic_text(self) -> Seq<char> {
        match self {
            ParseError::MalformedRequestLine => "Invalid formatting"@,
            ParseError::UnsupportedProtocol => "Invalid request type"@,
            ParseError::MalformedHeader => "Invalid formatting"@,
        }
    }

    /// The short text that tells a peer what was wrong.
    pub fn diagnostic(&self) -> (text: String)
        ensures
            text@ == self.diagnostic_text(),
    {
        match self {
            ParseError::MalformedRequestLine => "Invalid formatting".to_owned(),
            ParseError::UnsupportedProtocol => "Invalid request type".to_owned(),
            ParseError::MalformedHeader => "Invalid formatting".to_owned(),
        }
    }
}

/// What a request is.
pub struct RequestView {
    pub method: MethodView,
    pub version: Seq<char>,
    pub uri: Seq<char>,
    pub headers: Seq<(Seq<char>, Seq<char>)>,
    pub body: Option<Seq<char>>,
}

/// The text of an optional string.
pub open spec fn text_of(value: Option<String>) -> Option<Seq<char>> {
    match value {
        Some(text) => Some(text@),
        None => None,
    }
}

/// The lines that a vector of string slices holds.
pub open spec fn lines_of(raw: Seq<&str>) -> Seq<Seq<char>> {
    Seq::new(raw.len(), |i: int| raw[i]@)
}

/// The version that a version token names: what stands between its first
/// `/` and its second, or its end. A token without `/` names none.
pub open spec fn version_of(token: Seq<char>) -> Option<Seq<char>> {
    let slash = index_of(token, '/', 0);
    if slash >= token.len() {
        None
    } else {
        Some(token.subrange(slash + 1, index_of(token, '/', slash + 1)))
    }
}

/// Method, URI and version of a request line: its first three tokens, the
/// third of which begins with `HTTP` and names a version.
pub open spec fn request_line(line: Seq<char>) -> Result<
    (MethodView, Seq<char>, Seq<char>),
    ParseError,
> {
    let parts = tokens(line);
    if parts.len() < 3 {
        Err(ParseError::MalformedRequestLine)
    } else if !"HTTP"@.is_prefix_of(parts[2]) {
        Err(ParseError::UnsupportedProtocol)
    } else {
        match version_of(parts[2]) {
            None => Err(ParseError::MalformedRequestLine),
            Some(version) => Ok((method_of(parts[0]), parts[1], version)),
        }
    }
}

/// The name of a header line: what stands before its first `:`, trimmed.
pub open spec fn header_name(line: Seq<char>) -> Seq<char> {
    trim(line.subrange(0, index_of(line, ':', 0)))
}

/// The value of a header line: what stands behind its first `:`, trimmed.
pub open spec fn header_value(line: Seq<char>) -> Seq<char> {
    trim(line.subrange(index_of(line, ':', 0) + 1, line.len() as int))
}

/// Name and value of a header line. A line without `:` is no header.
pub open spec fn header_of(line: Seq<char>) -> Option<(Seq<char>, Seq<char>)> {
    if index_of(line, ':', 0) >= line.len() {
        None
    } else {
        Some((header_name(line), header_value(line)))
    }
}

/// The fields that the header lines write, one after the other; none where
/// one of the lines is no header.
pub open spec fn headers_of(lines: Seq<Seq<char>>) -> Option<Seq<(Seq<char>, Seq<char>)>>
    decreases lines.len(),
{
    if lines.len() == 0 {
        Some(Seq::empty())
    } else {
        match (headers_of(lines.drop_last()), header_of(lines.last())) {
            (Some(fields), Some((name, value))) => Some(put(fields, name, value)),
            _ => None,
        }
    }
}

/// Position of the first empty line at or after `from`, or `lines.len()`
/// where there is none.
pub open spec fn block_end(lines: Seq<Seq<char>>, from: int) -> int
    decreases lines.len() - from,
{
    if from < 0 || from >= lines.len() {
        lines.len() as int
    } else if lines[from].len() == 0 {
        from
    } else {
        block_end(lines, from + 1)
    }
}

/// The lines of the body: those behind the empty line at `stop`, up to the
/// next empty line or the end.
pub open spec fn body_lines(lines: Seq<Seq<char>>, stop: int) -> Seq<Seq<char>> {
    let start = if stop < lines.len() {
        stop + 1
    } else {
        lines.len() as int
    };
    lines.subrange(start, block_end(lines, start))
}

/// The lines, each followed by a line feed.
pub open spec fn body_text(lines: Seq<Seq<char>>) -> Seq<char>
    decreases lines.len(),
{
    if lines.len() == 0 {
        Seq::empty()
    } else {
        body_text(lines.drop_last()) + lines.last() + seq!['\n']
    }
}

/// Whether the header fields announce a body.
pub open spec fn announces_body(headers: Seq<(Seq<char>, Seq<char>)>) -> bool {
    has_name(headers, "Content-Length"@) || has_name(headers, "Transfer-Encoding"@)
}

/// The request that the lines of a message stand for: the request line,
/// then header lines up to the first empty line, then, where the headers
/// announce one, the body up to the next empty line.
pub open spec fn decode(lines: Seq<Seq<char>>) -> Result<RequestView, ParseError> {
    if lines.len() == 0 {
        Err(ParseError::MalformedRequestLine)
    } else {
        match request_line(lines[0]) {
            Err(error) => Err(error),
            Ok((method, uri, version)) => {
                let stop = block_end(lines, 1);
                match headers_of(lines.subrange(1, stop)) {
                    None => Err(ParseError::MalformedHeader),
                    Some(headers) => Ok(
                        RequestView {
                            method,
                            version,
                            uri,
                            headers,
                            body: if announces_body(headers) {
                                Some(body_text(body_lines(lines, stop)))
                            } else {
                                None
                            },
                        },
                    ),
                }
            },
        }
    }
}

/// Whether a reader that has read `lines` and nothing else reads another
/// line: it does until the request line or a header line is found to be
/// malformed, or the empty line behind the headers is read and no body is
/// announced, or the empty line behind the body is read.
pub open spec fn wants_more(lines: Seq<Seq<char>>) -> bool {
    if lines.len() == 0 {
        true
    } else if request_line(lines[0]) is Err {
        false
    } else {
        let stop = block_end(lines, 1);
        match headers_of(lines.subrange(1, stop)) {
            None => false,
            Some(headers) => stop == lines.len() || (announces_body(headers) && block_end(
                lines,
                stop + 1,
            ) == lines.len()),
        }
    }
}

/// `block_end` stays within `from..=lines.len()`, passes over no empty line
/// and stops on one or at the end.
pub proof fn lemma_block_end(lines: Seq<Seq<char>>, from: int)
    requires
        0 <= from <= lines.len(),
    ensures
        from <= block_end(lines, from) <= lines.len(),
        forall|j: int| from <= j < block_end(lines, from) ==> (#[trigger] lines[j]).len() > 0,
        block_end(lines, from) < lines.len() ==> lines[block_end(lines, from)].len() == 0,
    decreases lines.len() - from,
{
    if from < lines.len() && lines[from].len() != 0 {
        lemma_block_end(lines, from + 1);
    }
}

/// Lines of which the first `n` hold a line that is no header write no
/// fields.
pub proof fn lemma_headers_of_prefix(lines: Seq<Seq<char>>, n: int)
    requires
        0 <= n <= lines.len(),
        headers_of(lines.take(n)) is None,
    ensures
        headers_of(lines) is None,
    decreases lines.len(),
{
    if n == lines.len() {
        assert(lines.take(n) =~= lines);
    } else {
        assert(lines.drop_last().take(n) =~= lines.take(n));
        lemma_headers_of_prefix(lines.drop_last(), n);
    }
}

/// Where the first empty line is after one more line has been read.
pub proof fn lemma_block_end_push(lines: Seq<Seq<char>>, line: Seq<char>, from: int)
    requires
        0 <= from <= lines.len(),
    ensures
        block_end(lines.push(line), from) == if block_end(lines, from) < lines.len() {
            block_end(lines, from)
        } else if line.len() == 0 {
            lines.len() as int
        } else {
            lines.len() as int + 1
        },
    decreases lines.len() - from,
{
    let longer = lines.push(line);
    if from < lines.len() {
        if lines[from].len() != 0 {
            lemma_block_end_push(lines, line, from + 1);
        }
    } else {
        assert(block_end(longer, from + 1) == longer.len());
    }
}

/// An empty line that is found in `lines` is found there in every
/// continuation of `lines`.
pub proof fn lemma_block_end_concat(lines: Seq<Seq<char>>, rest: Seq<Seq<char>>, from: int)
    requires
        0 <= from <= lines.len(),
        block_end(lines, from) < lines.len(),
    ensures
        block_end(lines + rest, from) == block_end(lines, from),
    decreases lines.len() - from,
{
    if lines[from].len() != 0 {
        lemma_block_end_concat(lines, rest, from + 1);
    }
}

/// What a reader does not read does not matter: where it reads no further
/// line after `lines`, every continuation of `lines` is decoded as `lines`
/// is.
pub proof fn lemma_rest_is_ignored(lines: Seq<Seq<char>>, rest: Seq<Seq<char>>)
    requires
        !wants_more(lines),
    ensures
        decode(lines + rest) == decode(lines),
{
    let all = lines + rest;
    if request_line(lines[0]) is Ok {
        let stop = block_end(lines, 1);
        lemma_block_end(lines, 1);
        lemma_block_end(all, 1);
        if stop < lines.len() {
            lemma_block_end_concat(lines, rest, 1);
            assert(all.subrange(1, stop) =~= lines.subrange(1, stop));
            let headers = headers_of(lines.subrange(1, stop));
            if headers is Some && announces_body(headers->0) {
                lemma_block_end(lines, stop + 1);
                lemma_block_end_concat(lines, rest, stop + 1);
                assert(all.subrange(stop + 1, block_end(lines, stop + 1)) =~= lines.subrange(
                    stop + 1,
                    block_end(lines, stop + 1),
                ));
            }
        } else {
            let block = all.subrange(1, block_end(all, 1));
            assert(block.take(lines.len() - 1) =~= lines.subrange(1, stop));
            lemma_headers_of_prefix(block, lines.len() - 1);
        }
    }
}

/// The fields that header lines write hold no name twice.
pub proof fn lemma_headers_of_distinct(lines: Seq<Seq<char>>)
    ensures
        headers_of(lines) matches Some(fields) ==> distinct_names(fields),
    decreases lines.len(),
{
    if lines.len() > 0 {
        lemma_headers_of_distinct(lines.drop_last());
        if headers_of(lines) is Some {
            lemma_put_distinct(
                headers_of(lines.drop_last())->0,
                header_name(lines.last()),
                header_value(lines.last()),
            );
        }
    }
}

/// Header lines that are all headers write fields, and a name stands in
/// those fields exactly when one of the lines has it.
pub proof fn lemma_headers_of_names(block: Seq<Seq<char>>, name: Seq<char>)
    requires
        forall|i: int| 0 <= i < block.len() ==> header_of(#[trigger] block[i]) is Some,
    ensures
        headers_of(block) is Some,
        has_name(headers_of(block)->0, name) <==> exists|i: int|
            0 <= i < block.len() && #[trigger] header_name(block[i]) == name,
    decreases block.len(),
{
    if block.len() > 0 {
        let front = block.drop_last();
        assert forall|i: int| 0 <= i < front.len() implies header_of(#[trigger] front[i])
            is Some by {}
        lemma_headers_of_names(front, name);
        let last = header_of(block.last())->0;
        lemma_put_lookup(headers_of(front)->0, last.0, last.1, name);
        if has_name(headers_of(block)->0, name) {
            if !(name == last.0) {
                let i = choose|i: int|
                    0 <= i < front.len() && #[trigger] header_name(front[i]) == name;
            }
        }
        if exists|i: int| 0 <= i < block.len() && #[trigger] header_name(block[i]) == name {
            let i = choose|i: int|
                0 <= i < block.len() && #[trigger] header_name(block[i]) == name;
            if i < front.len() {
                assert(front[i] == block[i]);
            }
        }
    }
}

/// A message with a well-formed request line and a header block of which
/// every line is a header, none named `Content-Length` or
/// `Transfer-Encoding`, is decoded, and to a request without body.
pub proof fn lemma_no_markers_no_body(lines: Seq<Seq<char>>)
    requires
        lines.len() > 0,
        request_line(lines[0]) is Ok,
        forall|i: int|
            1 <= i < block_end(lines, 1) ==> {
                &&& header_of(#[trigger] lines[i]) is Some
                &&& header_name(lines[i]) != "Content-Length"@
                &&& header_name(lines[i]) != "Transfer-Encoding"@
            },
    ensures
        decode(lines) is Ok,
        decode(lines)->Ok_0.body is None,
{
    lemma_block_end(lines, 1);
    let block = lines.subrange(1, block_end(lines, 1));
    assert forall|i: int| 0 <= i < block.len() implies header_of(#[trigger] block[i]) is Some by {}
    lemma_headers_of_names(block, "Content-Length"@);
    lemma_headers_of_names(block, "Transfer-Encoding"@);
    assert forall|i: int| 0 <= i < block.len() implies #[trigger] header_name(block[i])
        != "Content-Length"@ && header_name(block[i]) != "Transfer-Encoding"@ by {}
}

/// A request with a `Content-Length` header has a body: the lines behind
/// the empty line that ends the headers, up to the next empty line, each
/// followed by a line feed. Where no empty line follows, that is every
/// line up to the end of the input.
pub proof fn lemma_body_with_content_length(lines: Seq<Seq<char>>)
    requires
        decode(lines) is Ok,
        has_name(decode(lines)->Ok_0.headers, "Content-Length"@),
    ensures
        decode(lines)->Ok_0.body == Some(body_text(body_lines(lines, block_end(lines, 1)))),
        block_end(lines, 1) < lines.len() && (forall|j: int|
            block_end(lines, 1) < j < lines.len() ==> (#[trigger] lines[j]).len() > 0)
            ==> decode(lines)->Ok_0.body == Some(body_text(lines.skip(block_end(lines, 1) + 1))),
{
    let stop = block_end(lines, 1);
    lemma_block_end(lines, 1);
    if stop < lines.len() {
        lemma_block_end(lines, stop + 1);
    }
}

/// A message whose first line has fewer than three tokens, or which has no
/// line at all, is a malformed request line.
pub proof fn lemma_short_request_line(lines: Seq<Seq<char>>)
    requires
        lines.len() > 0 ==> tokens(lines[0]).len() < 3,
    ensures
        decode(lines) == Err::<RequestView, ParseError>(ParseError::MalformedRequestLine),
{
}

/// A message whose version token does not begin with `HTTP` is of an
/// unsupported protocol.
pub proof fn lemma_unsupported_protocol(lines: Seq<Seq<char>>)
    requires
        lines.len() > 0,
        tokens(lines[0]).len() >= 3,
        !"HTTP"@.is_prefix_of(tokens(lines[0])[2]),
    ensures
        decode(lines) == Err::<RequestView, ParseError>(ParseError::UnsupportedProtocol),
{
}

/// A request.
#[derive(Debug)]
pub struct HTTPRequest {
    method: HTTPMethod,
    version: String,
    uri: String,
    headers: Headers,
    body: Option<String>,
}

impl View for HTTPRequest {
    type V = RequestView;

    closed spec fn view(&self) -> RequestView {
        RequestView {
            method: self.method@,
            version: self.version@,
            uri: self.uri@,
            headers: self.headers@,
            body: text_of(self.body),
        }
    }
}

/// Method, URI and version of the request line `line`.
fn parse_request_line(line: &str) -> (r: Result<(HTTPMethod, String, String), ParseError>)
    ensures
        match r {
            Ok((method, uri, version)) => request_line(line@) == Ok::<
                (MethodView, Seq<char>, Seq<char>),
                ParseError,
            >((method@, uri@, version@)),
            Err(error) => request_line(line@) == Err::<
                (MethodView, Seq<char>, Seq<char>),
                ParseError,
            >(error),
        },
{
    let chars = to_chars(line);
    let (s0, e0) = match next_token(&chars, 0) {
        Some(bounds) => bounds,
        None => {
            return Err(ParseError::MalformedRequestLine);
        },
    };
    let (s1, e1) = match next_token(&chars, e0) {
        Some(bounds) => bounds,
        None => {
            return Err(ParseError::MalformedRequestLine);
        },
    };
    let (s2, e2) = match next_token(&chars, e1) {
        Some(bounds) => bounds,
        None => {
            return Err(ParseError::MalformedRequestLine);
        },
    };
    let token = line.substring_char(s2, e2);
    let token_chars = to_chars(token);
    if !starts_with(&token_chars, "HTTP") {
        return Err(ParseError::UnsupportedProtocol);
    }
    let slash = find_char(&token_chars, '/', 0);
    if slash >= token_chars.len() {
        return Err(ParseError::MalformedRequestLine);
    }
    let stop = find_char(&token_chars, '/', slash + 1);
    let version = token.substring_char(slash + 1, stop).to_owned();
    let method = HTTPMethod::from(line.substring_char(s0, e0));
    let uri = line.substring_char(s1, e1).to_owned();
    Ok((method, uri, version))
}

/// Name and value of the header line `line`.
fn parse_header(line: &str) -> (r: Option<(String, String)>)
    ensures
        match r {
            Some((name, value)) => header_of(line@) == Some((name@, value@)),
            None => header_of(line@) is None,
        },
{
    let chars = to_chars(line);
    let colon = find_char(&chars, ':', 0);
    if colon >= chars.len() {
        None
    } else {
        let name = trimmed(line.substring_char(0, colon));
        let value = trimmed(line.substring_char(colon + 1, chars.len()));
        Some((name, value))
    }
}

/// How far a decoder has read.
enum Phase {
    /// Nothing is read.
    Start,
    /// The request line is read, and header lines after it.
    Headers,
    /// The headers and the empty line behind them are read, and body lines
    /// after it.
    Body,
    /// No further line is read.
    Done,
}

/// What a request line holds.
struct Start {
    method: HTTPMethod,
    uri: String,
    version: String,
}

/// A decoder that is given the lines of a message one by one, and says
/// after each whether it reads another.
pub struct RequestDecoder {
    seen: Ghost<Seq<Seq<char>>>,
    phase: Phase,
    start: Option<Start>,
    headers: Headers,
    body: String,
    error: Option<ParseError>,
}

impl RequestDecoder {
    /// The lines that were read.
    pub closed spec fn seen(&self) -> Seq<Seq<char>> {
        self.seen@
    }

    /// Whether the request line is read and well-formed.
    spec fn started(&self) -> bool {
        &&& self.seen@.len() >= 1
        &&& self.error is None
        &&& self.start matches Some(start)
        &&& request_line(self.seen@[0]) == Ok::<(MethodView, Seq<char>, Seq<char>), ParseError>(
            (start.method@, start.uri@, start.version@),
        )
    }

    /// The request that is read, where the request line is.
    spec fn read(&self) -> RequestView {
        RequestView {
            method: self.start->0.method@,
            version: self.start->0.version@,
            uri: self.start->0.uri@,
            headers: self.headers@,
            body: if announces_body(self.headers@) {
                Some(self.body@)
            } else {
                None
            },
        }
    }

    /// What the decoder holds is what the lines that it has read stand for.
    pub closed spec fn wf(&self) -> bool {
        let seen = self.seen@;
        match self.phase {
            Phase::Start => {
                &&& seen.len() == 0
                &&& self.start is None
                &&& self.error is None
                &&& self.headers@ == Seq::<(Seq<char>, Seq<char>)>::empty()
                &&& self.body@ == Seq::<char>::empty()
            },
            Phase::Headers => {
                &&& self.started()
                &&& block_end(seen, 1) == seen.len()
                &&& headers_of(seen.subrange(1, seen.len() as int)) == Some(self.headers@)
                &&& self.body@ == Seq::<char>::empty()
            },
            Phase::Body => {
                let stop = block_end(seen, 1);
                &&& self.started()
                &&& 1 <= stop < seen.len()
                &&& headers_of(seen.subrange(1, stop)) == Some(self.headers@)
                &&& announces_body(self.headers@)
                &&& block_end(seen, stop + 1) == seen.len()
                &&& self.body@ == body_text(seen.subrange(stop + 1, seen.len() as int))
            },
            Phase::Done => {
                &&& !wants_more(seen)
                &&& match self.error {
                    Some(error) => decode(seen) == Err::<RequestView, ParseError>(error),
                    None => self.start is Some && decode(seen) == Ok::<RequestView, ParseError>(
                        self.read(),
                    ),
                }
            },
        }
    }

    /// A decoder that has read nothing.
    pub fn new() -> (decoder: Self)
        ensures
            decoder.wf(),
            decoder.seen() == Seq::<Seq<char>>::empty(),
    {
        RequestDecoder {
            seen: Ghost(Seq::empty()),
            phase: Phase::Start,
            start: None,
            headers: Headers::new(),
            body: String::new(),
            error: None,
        }
    }

    /// Reads `line`, unless the decoder reads no further line, and says
    /// whether it reads another.
    pub fn push(&mut self, line: &str) -> (more: bool)
        requires
            old(self).wf(),
        ensures
            final(self).wf(),
            final(self).seen() == if wants_more(old(self).seen()) {
                old(self).seen().push(line@)
            } else {
                old(self).seen()
            },
            more == wants_more(final(self).seen()),
    {
        let ghost before = self.seen@;
        let ghost after = before.push(line@);
        match self.phase {
            Phase::Done => false,
            Phase::Start => {
                self.seen = Ghost(after);
                match parse_request_line(line) {
                    Ok((method, uri, version)) => {
                        self.start = Some(Start { method, uri, version });
                        self.phase = Phase::Headers;
                        true
                    },
                    Err(error) => {
                        self.error = Some(error);
                        self.phase = Phase::Done;
                        false
                    },
                }
            },
            Phase::Headers => {
                proof {
                    lemma_block_end_push(before, line@, 1);
                    lemma_block_end_push(before, line@, before.len() as int);
                }
                self.seen = Ghost(after);
                if line.is_empty() {
                    proof {
                        assert(after.subrange(1, before.len() as int) =~= before.subrange(
                            1,
                            before.len() as int,
                        ));
                    }
                    if self.headers.contains_key("Content-Length") || self.headers.contains_key(
                        "Transfer-Encoding",
                    ) {
                        self.phase = Phase::Body;
                        true
                    } else {
                        self.phase = Phase::Done;
                        false
                    }
                } else {
                    proof {
                        assert(after.subrange(1, after.len() as int).drop_last()
                            =~= before.subrange(1, before.len() as int));
                    }
                    match parse_header(line) {
                        Some((name, value)) => {
                            self.headers.insert(name, value);
                            true
                        },
                        None => {
                            self.error = Some(ParseError::MalformedHeader);
                            self.phase = Phase::Done;
                            false
                        },
                    }
                }
            },
            Phase::Body => {
                let ghost stop = block_end(before, 1);
                proof {
                    lemma_block_end_push(before, line@, 1);
                    lemma_block_end_push(before, line@, stop + 1);
                    assert(after.subrange(1, stop) =~= before.subrange(1, stop));
                }
                self.seen = Ghost(after);
                if line.is_empty() {
                    proof {
                        assert(after.subrange(stop + 1, before.len() as int) =~= before.subrange(
                            stop + 1,
                            before.len() as int,
                        ));
                    }
                    self.phase = Phase::Done;
                    false
                } else {
                    proof {
                        assert(after.subrange(stop + 1, after.len() as int).drop_last()
                            =~= before.subrange(stop + 1, before.len() as int));
                        reveal_strlit("\n");
                        assert("\n"@ =~= seq!['\n']);
                    }
                    self.body.append(line);
                    self.body.append("\n");
                    true
                }
            },
        }
    }

    /// The request that the lines that were read stand for.
    pub fn finish(self) -> (r: Result<HTTPRequest, ParseError>)
        requires
            self.wf(),
        ensures
            match r {
                Ok(request) => decode(self.seen()) == Ok::<RequestView, ParseError>(request@),
                Err(error) => decode(self.seen()) == Err::<RequestView, ParseError>(error),
            },
    {
        let ghost seen = self.seen@;
        proof {
            if seen.len() > 0 {
                lemma_block_end(seen, 1);
            }
        }
        let RequestDecoder { seen: _, phase: _, start, headers, body, error } = self;
        match error {
            Some(error) => Err(error),
            None => match start {
                None => Err(ParseError::MalformedRequestLine),
                Some(Start { method, uri, version }) => {
                    let with_body = headers.contains_key("Content-Length") || headers.contains_key(
                        "Transfer-Encoding",
                    );
                    let body = if with_body {
                        Some(body)
                    } else {
                        None
                    };
                    Ok(HTTPRequest { method, version, uri, headers, body })
                },
            },
        }
    }
}

impl HTTPRequest {
    /// Decodes the lines of one message.
    pub fn parse(raw: Vec<&str>) -> (r: Result<HTTPRequest, ParseError>)
        ensures
            match r {
                Ok(request) => decode(lines_of(raw@)) == Ok::<RequestView, ParseError>(request@),
                Err(error) => decode(lines_of(raw@)) == Err::<RequestView, ParseError>(error),
            },
    {
        let ghost lines = lines_of(raw@);
        let mut decoder = RequestDecoder::new();
        let mut more = true;
        let mut i: usize = 0;
        while more && i < raw.len()
            invariant
                i <= raw.len(),
                lines == lines_of(raw@),
                decoder.wf(),
                decoder.seen() == lines.take(i as int),
                more == wants_more(lines.take(i as int)),
            decreases raw.len() - i,
        {
            proof {
                assert(lines.take(i as int).push(raw[i as int]@) =~= lines.take(i as int + 1));
            }
            more = decoder.push(raw[i]);
            i += 1;
        }
        proof {
            assert(lines.take(i as int) + lines.skip(i as int) =~= lines);
            if !(more) {
                lemma_rest_is_ignored(lines.take(i as int), lines.skip(i as int));
            }
        }
        decoder.finish()
    }

    /// The header fields.
    pub fn get_headers(&self) -> (headers: &Headers)
        ensures
            headers@ == self@.headers,
    {
        &self.headers
    }

    /// The protocol version, such as `1.1`.
    pub fn get_version(&self) -> (version: &str)
        ensures
            version@ == self@.version,
    {
        self.version.as_str()
    }

    /// The method.
    pub fn get_method(&self) -> (method: &HTTPMethod)
        ensures
            method@ == self@.method,
    {
        &self.method
    }

    /// The request URI: path and query string as they were received.
    pub fn get_uri(&self) -> (uri: &str)
        ensures
            uri@ == self@.uri,
    {
        self.uri.as_str()
    }

    /// The body, where the message has one.
    pub fn get_body(&self) -> (body: &Option<String>)
        ensures
            text_of(*body) == self@.body,
    {
        &self.body
    }
}

} // verus!
