//! Route bindings and the callbacks that they hold.
use crate::http::method::{HTTPMethod, MethodView};
use crate::http::request::HTTPRequest;
use crate::http::response::HTTPResponse;
use vstd::prelude::*;

verus! {

/// Something that answers requests: every function or closure from a
/// request to a response that can be sent to another thread is one.
pub trait Callback: Send {
    /// Whether the callback may be given `request`.
    spec fn accepts(&self, request: HTTPRequest) -> bool;

    /// Whether `response` is an answer that the callback may give to
    /// `request`.
    spec fn answers(&self, request: HTTPRequest, response: HTTPResponse) -> bool;

    /// Answers `request`. Afterwards the callback accepts what it accepted
    /// before, and gives no answer that it could not give before.
    fn respond(&mut self, request: HTTPRequest) -> (response: HTTPResponse)
        requires
            old(self).accepts(request),
        ensures
            old(self).answers(request, response),
            forall|r: HTTPRequest| old(self).accepts(r) ==> final(self).accepts(r),
            forall|r: HTTPRequest, o: HTTPResponse|
                final(self).answers(r, o) ==> old(self).answers(r, o),
    ;
}

impl<F: FnMut(HTTPRequest) -> HTTPResponse + Send> Callback for F {
    open spec fn accepts(&self, request: HTTPRequest) -> bool {
        call_requires(*self, (request,))
    }

    open spec fn answers(&self, request: HTTPRequest, response: HTTPResponse) -> bool {
        call_ensures(*self, (request,), response)
    }

    fn respond(&mut self, request: HTTPRequest) -> (response: HTTPResponse) {
        self(request)
    }
}

/// A route binding: the callback that answers the requests for one path
/// and method.
pub struct RequestListener<'a> {
    pub path: String,
    pub method: HTTPMethod,
    pub callback: Box<dyn Callback + 'a>,
}

impl<'a> RequestListener<'a> {
    /// The path and method that the binding is for.
    pub open spec fn key(&self) -> (Seq<char>, MethodView) {
        (self.path@, self.method@)
    }

    /// Whether the callback accepts every request.
    pub open spec fn total(&self) -> bool {
        forall|request: HTTPRequest| self.callback.accepts(request)
    }

    /// A binding of `callback` to `path` and `method`.
    pub fn new<C: 'a + Send + FnMut(HTTPRequest) -> HTTPResponse>(
        path: String,
        method: HTTPMethod,
        callback: C,
    ) -> (listener: Self)
        requires
            forall|request: HTTPRequest| call_requires(callback, (request,)),
        ensures
            listener.path == path,
            listener.method == method,
            listener.total(),
            forall|request: HTTPRequest, response: HTTPResponse|
                listener.callback.answers(request, response) ==> call_ensures(
                    callback,
                    (request,),
                    response,
                ),
    {
        let callback: Box<dyn Callback + 'a> = Box::new(callback);
        RequestListener { path, method, callback }
    }
}

} // verus!
