//! The dispatcher: route bindings, an optional public folder of static
//! files, and the callback for requests that neither resolves.
use crate::file::{content_type, content_type_of, extension, extension_of, join, joined};
use crate::http::headers::Headers;
use crate::http::method::{method_of, HTTPMethod, MethodView};
use crate::http::request::{text_of, HTTPRequest, ParseError};
use crate::http::response::{wire_text, HTTPResponse, ResponseView};
use crate::http::status_code::HTTPStatusCode;
use crate::text::str_eq;
use vstd::prelude::*;

pub mod listener;

pub use listener::{Callback, RequestListener};

verus! {

/// Position of the first binding at or after `from` that is for `key`, or
/// `bindings.len()` where there is none.
pub open spec fn binding_position(
    bindings: Seq<RequestListener<'static>>,
    key: (Seq<char>, MethodView),
    from: int,
) -> int
    decreases bindings.len() - from,
{
    if from < 0 || from >= bindings.len() {
        bindings.len() as int
    } else if bindings[from].key() == key {
        from
    } else {
        binding_position(bindings, key, from + 1)
    }
}

/// The page that is sent where nothing else answers.
pub open spec fn not_found_page() -> Seq<char> {
    "<!DOCTYPE html><html><head><title>404 Not Found</title></head><body><h1>404 Not Found</h1><p>The requested resource could not be found.</p></body></html>"@
}

/// The response where nothing else answers: status 404 with the page as
/// body and no header fields.
pub open spec fn not_found_response() -> ResponseView {
    ResponseView {
        version: "1.1"@,
        status: HTTPStatusCode::NotFound,
        headers: Seq::empty(),
        body: Some(not_found_page()),
    }
}

/// The response to a message that could not be decoded: status 400 with
/// the diagnostic as body and no header fields.
pub open spec fn bad_request_response(error: ParseError) -> ResponseView {
    ResponseView {
        version: "1.1"@,
        status: HTTPStatusCode::BadRequest,
        headers: Seq::empty(),
        body: Some(error.diagnostic_text()),
    }
}

/// The response that serves the file at `path` with the content `body`:
/// status 200 with the content type of the path's extension as the only
/// header field.
pub open spec fn asset_response(path: Seq<char>, body: Seq<char>) -> ResponseView {
    ResponseView {
        version: "1.1"@,
        status: HTTPStatusCode::OK,
        headers: seq![("Content-Type"@, content_type_of(extension_of(path)))],
        body: Some(body),
    }
}

/// `binding_position` stays within `from..=bindings.len()`, passes over no
/// binding for `key` and stops on one or at the end.
pub proof fn lemma_binding_position(
    bindings: Seq<RequestListener<'static>>,
    key: (Seq<char>, MethodView),
    from: int,
)
    requires
        0 <= from <= bindings.len(),
    ensures
        from <= binding_position(bindings, key, from) <= bindings.len(),
        forall|j: int|
            from <= j < binding_position(bindings, key, from) ==> (#[trigger] bindings[j]).key()
                != key,
        binding_position(bindings, key, from) < bindings.len() ==> bindings[binding_position(
            bindings,
            key,
            from,
        )].key() == key,
    decreases bindings.len() - from,
{
    if from < bindings.len() && bindings[from].key() != key {
        lemma_binding_position(bindings, key, from + 1);
    }
}

/// Explicit routes outrank static files: where a binding is for the path
/// and method of a request, the answers of the dispatcher are those of the
/// binding's callback, whether or not a file is found.
pub proof fn lemma_binding_outranks_file(
    handler: RequestHandler,
    request: HTTPRequest,
    file: Option<Seq<char>>,
    response: HTTPResponse,
)
    requires
        handler.binding_of(request) < handler.bindings().len(),
    ensures
        handler.resolves(request, file, response) == handler.bindings()[handler.binding_of(
            request,
        )].callback.answers(request, response),
{
}

/// Without a binding for the request and without a public folder, the
/// answers of the dispatcher are those of the callback for requests that
/// nothing else answers.
pub proof fn lemma_fallback_answers(
    handler: RequestHandler,
    request: HTTPRequest,
    file: Option<Seq<char>>,
    response: HTTPResponse,
)
    requires
        handler.binding_of(request) >= handler.bindings().len(),
        handler.root() is None,
    ensures
        handler.resolves(request, file, response) == handler.fallback().answers(request, response),
{
}

/// The dispatcher of a server.
pub struct RequestHandler {
    listeners: Vec<RequestListener<'static>>,
    public_folder: Option<String>,
    not_found_callback: Box<dyn Callback>,
}

impl RequestHandler {
    /// The route bindings, in the order in which their keys were first
    /// bound.
    pub closed spec fn bindings(&self) -> Seq<RequestListener<'static>> {
        self.listeners@
    }

    /// The public folder, where one is set.
    pub closed spec fn root(&self) -> Option<Seq<char>> {
        text_of(self.public_folder)
    }

    /// The callback for requests that nothing else answers.
    pub closed spec fn fallback(&self) -> Box<dyn Callback> {
        self.not_found_callback
    }

    /// Every callback accepts every request, and no two bindings are for
    /// the same path and method.
    pub open spec fn wf(&self) -> bool {
        &&& forall|i: int| 0 <= i < self.bindings().len() ==> (#[trigger] self.bindings()[i]).total()
        &&& forall|i: int, j: int|
            0 <= i < j < self.bindings().len() ==> (#[trigger] self.bindings()[i]).key() != (
            #[trigger] self.bindings()[j]).key()
        &&& forall|request: HTTPRequest| self.fallback().accepts(request)
    }

    /// Position of the binding for `request`, or the number of bindings
    /// where there is none.
    pub open spec fn binding_of(&self, request: HTTPRequest) -> int {
        binding_position(self.bindings(), (request@.uri, request@.method), 0)
    }

    /// Whether `response` is an answer of the dispatcher to `request`, where
    /// `file` is the content of the file that the request URI names under
    /// the public folder, if there is such a file. The binding for the path
    /// and method answers where there is one; else the file is served where
    /// there is a public folder and it holds the file; else the callback for
    /// requests that nothing else answers does.
    pub open spec fn resolves(
        &self,
        request: HTTPRequest,
        file: Option<Seq<char>>,
        response: HTTPResponse,
    ) -> bool {
        let at = self.binding_of(request);
        if at < self.bindings().len() {
            self.bindings()[at].callback.answers(request, response)
        } else if self.root() is Some && file is Some {
            response@ == asset_response(joined(self.root()->0, request@.uri), file->0)
        } else {
            self.fallback().answers(request, response)
        }
    }

    /// Whether the dispatcher is `earlier` after answering requests: the
    /// same keys and public folder, and callbacks that give no answer that
    /// those of `earlier` could not give.
    pub open spec fn follows(&self, earlier: RequestHandler) -> bool {
        &&& self.root() == earlier.root()
        &&& self.bindings().len() == earlier.bindings().len()
        &&& forall|i: int|
            0 <= i < self.bindings().len() ==> (#[trigger] self.bindings()[i]).key()
                == earlier.bindings()[i].key()
        &&& forall|i: int, request: HTTPRequest, response: HTTPResponse|
            0 <= i < self.bindings().len() && #[trigger] self.bindings()[i].callback.answers(
                request,
                response,
            ) ==> earlier.bindings()[i].callback.answers(request, response)
        &&& forall|request: HTTPRequest, response: HTTPResponse| #[trigger]
            self.fallback().answers(request, response) ==> earlier.fallback().answers(
                request,
                response,
            )
    }

    /// A dispatcher without bindings and without public folder, which
    /// answers every request with status 404.
    pub fn new() -> (handler: Self)
        ensures
            handler.wf(),
            handler.bindings().len() == 0,
            handler.root() is None,
            forall|request: HTTPRequest, response: HTTPResponse|
                handler.fallback().answers(request, response) ==> response@
                    == not_found_response(),
    {
        Self::with_fallback(Self::default404)
    }

    /// A dispatcher without bindings and without public folder, which
    /// leaves to `callback` what nothing else answers.
    fn with_fallback<C: 'static + Send + FnMut(HTTPRequest) -> HTTPResponse>(callback: C) -> (handler:
        Self)
        requires
            forall|request: HTTPRequest| call_requires(callback, (request,)),
        ensures
            handler.wf(),
            handler.bindings().len() == 0,
            handler.root() is None,
            forall|request: HTTPRequest, response: HTTPResponse|
                handler.fallback().answers(request, response) ==> call_ensures(
                    callback,
                    (request,),
                    response,
                ),
    {
        let not_found_callback: Box<dyn Callback> = Box::new(callback);
        RequestHandler { listeners: Vec::new(), public_folder: None, not_found_callback }
    }

    /// The response where nothing else answers.
    pub fn default404(request: HTTPRequest) -> (response: HTTPResponse)
        ensures
            response@ == not_found_response(),
    {
        let body =
            "<!DOCTYPE html><html><head><title>404 Not Found</title></head><body><h1>404 Not Found</h1><p>The requested resource could not be found.</p></body></html>".to_owned();
        HTTPResponse::new("1.1", HTTPStatusCode::NotFound, Headers::new(), Some(body))
    }

    /// Position of the binding for `path` and `method`.
    fn find(&self, path: &str, method: &HTTPMethod) -> (at: usize)
        ensures
            at == binding_position(self.bindings(), (path@, method@), 0),
            at <= self.bindings().len(),
    {
        let mut i: usize = 0;
        while i < self.listeners.len() && !(str_eq(self.listeners[i].path.as_str(), path)
            && self.listeners[i].method == *method)
            invariant
                i <= self.listeners.len(),
                binding_position(self.bindings(), (path@, method@), 0) == binding_position(
                    self.bindings(),
                    (path@, method@),
                    i as int,
                ),
            decreases self.listeners.len() - i,
        {
            i += 1;
        }
        i
    }
    /// Binds `callback` to `path` and `method`, in place of the callback
    /// that was bound to them before.
    pub fn set_listener<C: 'static + Send + FnMut(HTTPRequest) -> HTTPResponse>(
        &mut self,
        method: &str,
        path: &str,
        callback: C,
    )
        requires
            old(self).wf(),
            forall|request: HTTPRequest| call_requires(callback, (request,)),
        ensures
            final(self).wf(),
            final(self).root() == old(self).root(),
            final(self).fallback() == old(self).fallback(),
            ({
                let key = (path@, method_of(method@));
                let at = binding_position(old(self).bindings(), key, 0);
                &&& final(self).bindings().len() == if at < old(self).bindings().len() {
                    old(self).bindings().len()
                } else {
                    old(self).bindings().len() + 1
                }
                &&& binding_position(final(self).bindings(), key, 0) == at
                &&& forall|request: HTTPRequest, response: HTTPResponse|
                    final(self).bindings()[at].callback.answers(request, response)
                        ==> call_ensures(callback, (request,), response)
                &&& forall|i: int|
                    0 <= i < old(self).bindings().len() && i != at ==> final(self).bindings()[i]
                        == #[trigger] old(self).bindings()[i]
            }),
    {
        let key_method = HTTPMethod::from(method);
        let at = self.find(path, &key_method);
        let listener = RequestListener::new(path.to_owned(), key_method, callback);
        let ghost key = (path@, method_of(method@));
        proof {
            lemma_binding_position(self.bindings(), key, 0);
        }
        let ghost before = old(self).bindings();
        if at < self.listeners.len() {
            self.listeners.set(at, listener);
        } else {
            self.listeners.push(listener);
        }
        proof {
            let after = self.bindings();
            assert forall|i: int| 0 <= i < after.len() && i != at implies #[trigger] after[i]
                == before[i] by {}
            assert forall|i: int| 0 <= i < after.len() implies (#[trigger] after[i]).total() by {}
            assert forall|i: int, j: int| 0 <= i < j < after.len() implies (#[trigger] after[i]).key()
                != (#[trigger] after[j]).key() by {}
            assert forall|request: HTTPRequest| self.fallback().accepts(request) by {
                assert(old(self).fallback().accepts(request));
            }
            lemma_binding_position(after, key, 0);
        }
    }

    /// Sets the public folder, from which static files are served.
    pub fn set_public_folder(&mut self, path: &str)
        ensures
            final(self).root() == Some(path@),
            final(self).bindings() == old(self).bindings(),
            final(self).fallback() == old(self).fallback(),
            old(self).wf() ==> final(self).wf(),
    {
        self.public_folder = Some(path.to_owned());
        proof {
            if old(self).wf() {
                assert forall|request: HTTPRequest| self.fallback().accepts(request) by {}
            }
        }
    }

    /// Sets the callback for requests that nothing else answers.
    pub fn set_not_found_callback<C: 'static + Send + FnMut(HTTPRequest) -> HTTPResponse>(
        &mut self,
        callback: C,
    )
        requires
            forall|request: HTTPRequest| call_requires(callback, (request,)),
        ensures
            final(self).root() == old(self).root(),
            final(self).bindings() == old(self).bindings(),
            old(self).wf() ==> final(self).wf(),
            forall|request: HTTPRequest| final(self).fallback().accepts(request),
            forall|request: HTTPRequest, response: HTTPResponse|
                final(self).fallback().answers(request, response) ==> call_ensures(
                    callback,
                    (request,),
                    response,
                ),
    {
        let not_found_callback: Box<dyn Callback> = Box::new(callback);
        self.not_found_callback = not_found_callback;
        proof {
            assert forall|request: HTTPRequest| self.fallback().accepts(request) by {}
            if old(self).wf() {
                let bindings = old(self).bindings();
                assert forall|i: int| 0 <= i < bindings.len() implies (#[trigger] bindings[i]).total() by {}
                assert forall|i: int, j: int| 0 <= i < j < bindings.len() implies (
                #[trigger] bindings[i]).key() != (#[trigger] bindings[j]).key() by {}
            }
        }
    }

    /// Where to look for a static file for `request`: the path of its URI
    /// under the public folder, if there is a public folder and no binding
    /// answers the request.
    pub fn asset_path(&self, request: &HTTPRequest) -> (r: Option<String>)
        ensures
            match r {
                Some(path) => {
                    &&& self.binding_of(*request) >= self.bindings().len()
                    &&& self.root() is Some
                    &&& path@ == joined(self.root()->0, request@.uri)
                },
                None => self.binding_of(*request) < self.bindings().len() || self.root() is None,
            },
    {
        let at = self.find(request.get_uri(), request.get_method());
        if at < self.listeners.len() {
            None
        } else {
            match &self.public_folder {
                Some(root) => Some(join(root.as_str(), request.get_uri())),
                None => None,
            }
        }
    }

    /// Answers `request`. `file` is the content of the file at
    /// `asset_path`, where there is such a file.
    pub fn match_request(&mut self, request: HTTPRequest, file: Option<String>) -> (response:
        HTTPResponse)
        requires
            old(self).wf(),
        ensures
            old(self).resolves(request, text_of(file), response),
            final(self).wf(),
            final(self).follows(*old(self)),
    {
        let at = self.find(request.get_uri(), request.get_method());
        proof {
            lemma_binding_position(self.bindings(), (request@.uri, request@.method), 0);
        }
        let ghost before = *old(self);
        if at < self.listeners.len() {
            let response = self.listeners[at].callback.respond(request);
            proof {
                let after = self.bindings();
                assert forall|i: int| 0 <= i < after.len() implies (#[trigger] after[i]).key()
                    == before.bindings()[i].key() && after[i].total() by {}
                assert forall|r: HTTPRequest| self.fallback().accepts(r) by {
                    assert(before.fallback().accepts(r));
                }
            }
            response
        } else {
            match (&self.public_folder, file) {
                (Some(root), Some(body)) => {
                    let path = join(root.as_str(), request.get_uri());
                    proof {
                        assert forall|r: HTTPRequest| self.fallback().accepts(r) by {}
                    }
                    Self::serve(path.as_str(), body)
                },
                _ => {
                    assert(self.fallback().accepts(request));
                    let response = self.not_found_callback.respond(request);
                    proof {
                        assert forall|r: HTTPRequest| self.fallback().accepts(r) by {
                            assert(before.fallback().accepts(r));
                        }
                    }
                    response
                },
            }
        }
    }

    /// The response that serves the file at `path` with the content `body`.
    pub fn serve(path: &str, body: String) -> (response: HTTPResponse)
        ensures
            response@ == asset_response(path@, body@),
    {
        let found = extension(path);
        let kind = content_type(
            match &found {
                Some(name) => Some(name.as_str()),
                None => None,
            },
        );
        let mut headers = Headers::new();
        headers.insert("Content-Type".to_owned(), kind.to_owned());
        HTTPResponse::new("1.1", HTTPStatusCode::OK, headers, Some(body))
    }

    /// The response to a message that could not be decoded.
    pub fn bad_request(error: ParseError) -> (response: HTTPResponse)
        ensures
            response@ == bad_request_response(error),
    {
        HTTPResponse::new("1.1", HTTPStatusCode::BadRequest, Headers::new(), Some(error.diagnostic()))
    }

    /// The text that goes onto the wire for one message: the encoded answer
    /// to the request that it was decoded to, or the encoded response that
    /// tells the peer why it could not be decoded.
    pub fn handle_request(&mut self, message: Result<HTTPRequest, ParseError>, file: Option<String>) -> (wire:
        String)
        requires
            old(self).wf(),
        ensures
            final(self).wf(),
            final(self).follows(*old(self)),
            exists|response: HTTPResponse|
                wire@ == #[trigger] wire_text(response@) && match message {
                    Ok(request) => old(self).resolves(request, text_of(file), response),
                    Err(error) => response@ == bad_request_response(error),
                },
    {
        let response = match message {
            Ok(request) => self.match_request(request, file),
            Err(error) => Self::bad_request(error),
        };
        response.construct()
    }
}

} // verus!
