//! The request method.
use crate::text::str_eq;
use vstd::prelude::*;
use vstd::std_specs::cmp::PartialEqSpecImpl;
use vstd::std_specs::convert::FromSpecImpl;

verus! {

/// A request method: one of the seven common ones, or any other token.
#[derive(Debug, Hash)]
pub enum HTTPMethod {
    Get,
    Head,
    Post,
    Put,
    Delete,
    Connect,
    Options,
    Other(String),
}

/// What a method is: its variant, and the token of `Other`.
pub enum MethodView {
    Get,
    Head,
    Post,
    Put,
    Delete,
    Connect,
    Options,
    Other(Seq<char>),
}

impl View for HTTPMethod {
    type V = MethodView;

    open spec fn view(&self) -> MethodView {
        match self {
            HTTPMethod::Get => MethodView::Get,
            HTTPMethod::Head => MethodView::Head,
            HTTPMethod::Post => MethodView::Post,
            HTTPMethod::Put => MethodView::Put,
            HTTPMethod::Delete => MethodView::Delete,
            HTTPMethod::Connect => MethodView::Connect,
            HTTPMethod::Options => MethodView::Options,
            HTTPMethod::Other(token) => MethodView::Other(token@),
        }
    }
}

/// The method that a token names: the upper-case names of the seven common
/// methods stand for them, every other token for itself.
pub open spec fn method_of(token: Seq<char>) -> MethodView {
    if token == "GET"@ {
        MethodView::Get
    } else if token == "HEAD"@ {
        MethodView::Head
    } else if token == "POST"@ {
        MethodView::Post
    } else if token == "PUT"@ {
        MethodView::Put
    } else if token == "DELETE"@ {
        MethodView::Delete
    } else if token == "CONNECT"@ {
        MethodView::Connect
    } else if token == "OPTIONS"@ {
        MethodView::Options
    } else {
        MethodView::Other(token)
    }
}

impl From<&str> for HTTPMethod {
    /// The method that `source` names.
    fn from(source: &str) -> (method: HTTPMethod)
        ensures
            method@ == method_of(source@),
    {
        if str_eq(source, "GET") {
            HTTPMethod::Get
        } else if str_eq(source, "HEAD") {
            HTTPMethod::Head
        } else if str_eq(source, "POST") {
            HTTPMethod::Post
        } else if str_eq(source, "PUT") {
            HTTPMethod::Put
        } else if str_eq(source, "DELETE") {
            HTTPMethod::Delete
        } else if str_eq(source, "CONNECT") {
            HTTPMethod::Connect
        } else if str_eq(source, "OPTIONS") {
            HTTPMethod::Options
        } else {
            HTTPMethod::Other(source.to_owned())
        }
    }
}

impl FromSpecImpl<&str> for HTTPMethod {
    open spec fn obeys_from_spec() -> bool {
        false
    }

    open spec fn from_spec(source: &str) -> HTTPMethod {
        arbitrary()
    }
}

impl PartialEq for HTTPMethod {
    /// Two methods are equal when they are the same variant and, for
    /// `Other`, hold the same token.
    fn eq(&self, other: &HTTPMethod) -> (r: bool) {
        match (self, other) {
            (HTTPMethod::Get, HTTPMethod::Get) => true,
            (HTTPMethod::Head, HTTPMethod::Head) => true,
            (HTTPMethod::Post, HTTPMethod::Post) => true,
            (HTTPMethod::Put, HTTPMethod::Put) => true,
            (HTTPMethod::Delete, HTTPMethod::Delete) => true,
            (HTTPMethod::Connect, HTTPMethod::Connect) => true,
            (HTTPMethod::Options, HTTPMethod::Options) => true,
            (HTTPMethod::Other(a), HTTPMethod::Other(b)) => str_eq(a.as_str(), b.as_str()),
            _ => false,
        }
    }
}

impl PartialEqSpecImpl for HTTPMethod {
    open spec fn obeys_eq_spec() -> bool {
        true
    }

    open spec fn eq_spec(&self, other: &HTTPMethod) -> bool {
        self@ == other@
    }
}

impl Eq for HTTPMethod {

}

impl Clone for HTTPMethod {
    /// The same method once more.
    fn clone(&self) -> (method: HTTPMethod)
        ensures
            method@ == self@,
    {
        match self {
            HTTPMethod::Get => HTTPMethod::Get,
            HTTPMethod::Head => HTTPMethod::Head,
            HTTPMethod::Post => HTTPMethod::Post,
            HTTPMethod::Put => HTTPMethod::Put,
            HTTPMethod::Delete => HTTPMethod::Delete,
            HTTPMethod::Connect => HTTPMethod::Connect,
            HTTPMethod::Options => HTTPMethod::Options,
            HTTPMethod::Other(token) => HTTPMethod::Other(token.clone()),
        }
    }
}

} // verus!
