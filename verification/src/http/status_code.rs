//! The standard status codes, each with its number and its reason phrase.
use vstd::prelude::*;
use vstd::std_specs::convert::FromSpecImpl;

verus! {

/// A standard HTTP status code.
#[derive(Debug, Clone, Copy, PartialEq, Eq, Structural)]
pub enum HTTPStatusCode {
    Continue,
    SwitchingProtocols,
    Processing,
    EarlyHints,
    OK,
    Created,
    Accepted,
    NonAuthoritativeInformation,
    NoContent,
    ResetContent,
    PartialContent,
    MultiStatus,
    AlreadyReported,
    IMUsed,
    MultipleChoices,
    MovedPermanently,
    Found,
    SeeOther,
    NotModified,
    UseProxy,
    TemporaryRedirect,
    PermanentRedirect,
    BadRequest,
    Unauthorized,
    PaymentRequired,
    Forbidden,
    NotFound,
    MethodNotAllowed,
    NotAcceptable,
    ProxyAuthenticationRequired,
    RequestTimeout,
    Conflict,
    Gone,
    LengthRequired,
    PreconditionFailed,
    PayloadTooLarge,
    URITooLong,
    UnsupportedMediaType,
    RangeNotSatisfiable,
    ExpectationFailed,
    ImATeapot,
    MisdirectedRequest,
    UnprocessableEntity,
    Locked,
    FailedDependency,
    TooEarly,
    UpgradeRequired,
    PreconditionRequired,
    TooManyRequests,
    RequestHeaderFieldsTooLarge,
    UnavailableForLegalReasons,
    InternalServerError,
    NotImplemented,
    BadGateway,
    ServiceUnavailable,
    GatewayTimeout,
    HTTPVersionNotSupported,
    VariantAlsoNegotiates,
    InsufficientStorage,
    LoopDetected,
    NotExtended,
    NetworkAuthenticationRequired,
}

impl HTTPStatusCode {
    /// The number of the status code.
    pub open spec fn code(self) -> int {
        match self {
            HTTPStatusCode::Continue => 100,
            HTTPStatusCode::SwitchingProtocols => 101,
            HTTPStatusCode::Processing => 102,
            HTTPStatusCode::EarlyHints => 103,
            HTTPStatusCode::OK => 200,
            HTTPStatusCode::Created => 201,
            HTTPStatusCode::Accepted => 202,
            HTTPStatusCode::NonAuthoritativeInformation => 203,
            HTTPStatusCode::NoContent => 204,
            HTTPStatusCode::ResetContent => 205,
            HTTPStatusCode::PartialContent => 206,
            HTTPStatusCode::MultiStatus => 207,
            HTTPStatusCode::AlreadyReported => 208,
            HTTPStatusCode::IMUsed => 226,
            HTTPStatusCode::MultipleChoices => 300,
            HTTPStatusCode::MovedPermanently => 301,
            HTTPStatusCode::Found => 302,
            HTTPStatusCode::SeeOther => 303,
            HTTPStatusCode::NotModified => 304,
            HTTPStatusCode::UseProxy => 305,
            HTTPStatusCode::TemporaryRedirect => 307,
            HTTPStatusCode::PermanentRedirect => 308,
            HTTPStatusCode::BadRequest => 400,
            HTTPStatusCode::Unauthorized => 401,
            HTTPStatusCode::PaymentRequired => 402,
            HTTPStatusCode::Forbidden => 403,
            HTTPStatusCode::NotFound => 404,
            HTTPStatusCode::MethodNotAllowed => 405,
            HTTPStatusCode::NotAcceptable => 406,
            HTTPStatusCode::ProxyAuthenticationRequired => 407,
            HTTPStatusCode::RequestTimeout => 408,
            HTTPStatusCode::Conflict => 409,
            HTTPStatusCode::Gone => 410,
            HTTPStatusCode::LengthRequired => 411,
            HTTPStatusCode::PreconditionFailed => 412,
            HTTPStatusCode::PayloadTooLarge => 413,
            HTTPStatusCode::URITooLong => 414,
            HTTPStatusCode::UnsupportedMediaType => 415,
            HTTPStatusCode::RangeNotSatisfiable => 416,
            HTTPStatusCode::ExpectationFailed => 417,
            HTTPStatusCode::ImATeapot => 418,
            HTTPStatusCode::MisdirectedRequest => 421,
            HTTPStatusCode::UnprocessableEntity => 422,
            HTTPStatusCode::Locked => 423,
            HTTPStatusCode::FailedDependency => 424,
            HTTPStatusCode::TooEarly => 425,
            HTTPStatusCode::UpgradeRequired => 426,
            HTTPStatusCode::PreconditionRequired => 428,
            HTTPStatusCode::TooManyRequests => 429,
            HTTPStatusCode::RequestHeaderFieldsTooLarge => 431,
            HTTPStatusCode::UnavailableForLegalReasons => 451,
            HTTPStatusCode::InternalServerError => 500,
            HTTPStatusCode::NotImplemented => 501,
            HTTPStatusCode::BadGateway => 502,
            HTTPStatusCode::ServiceUnavailable => 503,
            HTTPStatusCode::GatewayTimeout => 504,
            HTTPStatusCode::HTTPVersionNotSupported => 505,
            HTTPStatusCode::VariantAlsoNegotiates => 506,
            HTTPStatusCode::InsufficientStorage => 507,
            HTTPStatusCode::LoopDetected => 508,
            HTTPStatusCode::NotExtended => 510,
            HTTPStatusCode::NetworkAuthenticationRequired => 511,
        }
    }

    /// The reason phrase of the status code.
    pub open spec fn reason(self) -> Seq<char> {
        match self {
            HTTPStatusCode::Continue => "Continue"@,
            HTTPStatusCode::SwitchingProtocols => "Switching Protocols"@,
            HTTPStatusCode::Processing => "Processing"@,
            HTTPStatusCode::EarlyHints => "Early Hints"@,
            HTTPStatusCode::OK => "OK"@,
            HTTPStatusCode::Created => "Created"@,
            HTTPStatusCode::Accepted => "Accepted"@,
            HTTPStatusCode::NonAuthoritativeInformation => "Non-Authoritative Information"@,
            HTTPStatusCode::NoContent => "No Content"@,
            HTTPStatusCode::ResetContent => "Reset Content"@,
            HTTPStatusCode::PartialContent => "Partial Content"@,
            HTTPStatusCode::MultiStatus => "Multi-Status"@,
            HTTPStatusCode::AlreadyReported => "Already Reported"@,
            HTTPStatusCode::IMUsed => "IM Used"@,
            HTTPStatusCode::MultipleChoices => "Multiple Choices"@,
            HTTPStatusCode::MovedPermanently => "Moved Permanently"@,
            HTTPStatusCode::Found => "Found"@,
            HTTPStatusCode::SeeOther => "See Other"@,
            HTTPStatusCode::NotModified => "Not Modified"@,
            HTTPStatusCode::UseProxy => "Use Proxy"@,
            HTTPStatusCode::TemporaryRedirect => "Temporary Redirect"@,
            HTTPStatusCode::PermanentRedirect => "Permanent Redirect"@,
            HTTPStatusCode::BadRequest => "Bad Request"@,
            HTTPStatusCode::Unauthorized => "Unauthorized"@,
            HTTPStatusCode::PaymentRequired => "Payment Required"@,
            HTTPStatusCode::Forbidden => "Forbidden"@,
            HTTPStatusCode::NotFound => "Not Found"@,
            HTTPStatusCode::MethodNotAllowed => "Method Not Allowed"@,
            HTTPStatusCode::NotAcceptable => "Not Acceptable"@,
            HTTPStatusCode::ProxyAuthenticationRequired => "Proxy Authentication Required"@,
            HTTPStatusCode::RequestTimeout => "Request Timeout"@,
            HTTPStatusCode::Conflict => "Conflict"@,
            HTTPStatusCode::Gone => "Gone"@,
            HTTPStatusCode::LengthRequired => "Length Required"@,
            HTTPStatusCode::PreconditionFailed => "Precondition Failed"@,
            HTTPStatusCode::PayloadTooLarge => "Payload Too Large"@,
            HTTPStatusCode::URITooLong => "URI Too Long"@,
            HTTPStatusCode::UnsupportedMediaType => "Unsupported Media Type"@,
            HTTPStatusCode::RangeNotSatisfiable => "Range Not Satisfiable"@,
            HTTPStatusCode::ExpectationFailed => "Expectation Failed"@,
            HTTPStatusCode::ImATeapot => "I'm a teapot"@,
            HTTPStatusCode::MisdirectedRequest => "Misdirected Request"@,
            HTTPStatusCode::UnprocessableEntity => "Unprocessable Entity"@,
            HTTPStatusCode::Locked => "Locked"@,
            HTTPStatusCode::FailedDependency => "Failed Dependency"@,
            HTTPStatusCode::TooEarly => "Too Early"@,
            HTTPStatusCode::UpgradeRequired => "Upgrade Required"@,
            HTTPStatusCode::PreconditionRequired => "Precondition Required"@,
            HTTPStatusCode::TooManyRequests => "Too Many Requests"@,
            HTTPStatusCode::RequestHeaderFieldsTooLarge => "Request Header Fields Too Large"@,
            HTTPStatusCode::UnavailableForLegalReasons => "Unavailable For Legal Reasons"@,
            HTTPStatusCode::InternalServerError => "Internal Server Error"@,
            HTTPStatusCode::NotImplemented => "Not Implemented"@,
            HTTPStatusCode::BadGateway => "Bad Gateway"@,
            HTTPStatusCode::ServiceUnavailable => "Service Unavailable"@,
            HTTPStatusCode::GatewayTimeout => "Gateway Timeout"@,
            HTTPStatusCode::HTTPVersionNotSupported => "HTTP Version Not Supported"@,
            HTTPStatusCode::VariantAlsoNegotiates => "Variant Also Negotiates"@,
            HTTPStatusCode::InsufficientStorage => "Insufficient Storage"@,
            HTTPStatusCode::LoopDetected => "Loop Detected"@,
            HTTPStatusCode::NotExtended => "Not Extended"@,
            HTTPStatusCode::NetworkAuthenticationRequired => "Network Authentication Required"@,
        }
    }

    /// The number of the status code.
    pub fn value(&self) -> (v: isize)
        ensures
            v == self.code(),
    {
        match self {
            HTTPStatusCode::Continue => 100,
            HTTPStatusCode::SwitchingProtocols => 101,
            HTTPStatusCode::Processing => 102,
            HTTPStatusCode::EarlyHints => 103,
            HTTPStatusCode::OK => 200,
            HTTPStatusCode::Created => 201,
            HTTPStatusCode::Accepted => 202,
            HTTPStatusCode::NonAuthoritativeInformation => 203,
            HTTPStatusCode::NoContent => 204,
            HTTPStatusCode::ResetContent => 205,
            HTTPStatusCode::PartialContent => 206,
            HTTPStatusCode::MultiStatus => 207,
            HTTPStatusCode::AlreadyReported => 208,
            HTTPStatusCode::IMUsed => 226,
            HTTPStatusCode::MultipleChoices => 300,
            HTTPStatusCode::MovedPermanently => 301,
            HTTPStatusCode::Found => 302,
            HTTPStatusCode::SeeOther => 303,
            HTTPStatusCode::NotModified => 304,
            HTTPStatusCode::UseProxy => 305,
            HTTPStatusCode::TemporaryRedirect => 307,
            HTTPStatusCode::PermanentRedirect => 308,
            HTTPStatusCode::BadRequest => 400,
            HTTPStatusCode::Unauthorized => 401,
            HTTPStatusCode::PaymentRequired => 402,
            HTTPStatusCode::Forbidden => 403,
            HTTPStatusCode::NotFound => 404,
            HTTPStatusCode::MethodNotAllowed => 405,
            HTTPStatusCode::NotAcceptable => 406,
            HTTPStatusCode::ProxyAuthenticationRequired => 407,
            HTTPStatusCode::RequestTimeout => 408,
            HTTPStatusCode::Conflict => 409,
            HTTPStatusCode::Gone => 410,
            HTTPStatusCode::LengthRequired => 411,
            HTTPStatusCode::PreconditionFailed => 412,
            HTTPStatusCode::PayloadTooLarge => 413,
            HTTPStatusCode::URITooLong => 414,
            HTTPStatusCode::UnsupportedMediaType => 415,
            HTTPStatusCode::RangeNotSatisfiable => 416,
            HTTPStatusCode::ExpectationFailed => 417,
            HTTPStatusCode::ImATeapot => 418,
            HTTPStatusCode::MisdirectedRequest => 421,
            HTTPStatusCode::UnprocessableEntity => 422,
            HTTPStatusCode::Locked => 423,
            HTTPStatusCode::FailedDependency => 424,
            HTTPStatusCode::TooEarly => 425,
            HTTPStatusCode::UpgradeRequired => 426,
            HTTPStatusCode::PreconditionRequired => 428,
            HTTPStatusCode::TooManyRequests => 429,
            HTTPStatusCode::RequestHeaderFieldsTooLarge => 431,
            HTTPStatusCode::UnavailableForLegalReasons => 451,
            HTTPStatusCode::InternalServerError => 500,
            HTTPStatusCode::NotImplemented => 501,
            HTTPStatusCode::BadGateway => 502,
            HTTPStatusCode::ServiceUnavailable => 503,
            HTTPStatusCode::GatewayTimeout => 504,
            HTTPStatusCode::HTTPVersionNotSupported => 505,
            HTTPStatusCode::VariantAlsoNegotiates => 506,
            HTTPStatusCode::InsufficientStorage => 507,
            HTTPStatusCode::LoopDetected => 508,
            HTTPStatusCode::NotExtended => 510,
            HTTPStatusCode::NetworkAuthenticationRequired => 511,
        }
    }

    /// The reason phrase of the status code.
    pub fn message(&self) -> (m: String)
        ensures
            m@ == self.reason(),
    {
        String::from(*self)
    }
}

impl From<HTTPStatusCode> for String {
    /// The reason phrase of `source`.
    fn from(source: HTTPStatusCode) -> (phrase: String)
        ensures
            phrase@ == source.reason(),
    {
        match source {
            HTTPStatusCode::Continue => "Continue".to_owned(),
            HTTPStatusCode::SwitchingProtocols => "Switching Protocols".to_owned(),
            HTTPStatusCode::Processing => "Processing".to_owned(),
            HTTPStatusCode::EarlyHints => "Early Hints".to_owned(),
            HTTPStatusCode::OK => "OK".to_owned(),
            HTTPStatusCode::Created => "Created".to_owned(),
            HTTPStatusCode::Accepted => "Accepted".to_owned(),
            HTTPStatusCode::NonAuthoritativeInformation => "Non-Authoritative Information".to_owned(),
            HTTPStatusCode::NoContent => "No Content".to_owned(),
            HTTPStatusCode::ResetContent => "Reset Content".to_owned(),
            HTTPStatusCode::PartialContent => "Partial Content".to_owned(),
            HTTPStatusCode::MultiStatus => "Multi-Status".to_owned(),
            HTTPStatusCode::AlreadyReported => "Already Reported".to_owned(),
            HTTPStatusCode::IMUsed => "IM Used".to_owned(),
            HTTPStatusCode::MultipleChoices => "Multiple Choices".to_owned(),
            HTTPStatusCode::MovedPermanently => "Moved Permanently".to_owned(),
            HTTPStatusCode::Found => "Found".to_owned(),
            HTTPStatusCode::SeeOther => "See Other".to_owned(),
            HTTPStatusCode::NotModified => "Not Modified".to_owned(),
            HTTPStatusCode::UseProxy => "Use Proxy".to_owned(),
            HTTPStatusCode::TemporaryRedirect => "Temporary Redirect".to_owned(),
            HTTPStatusCode::PermanentRedirect => "Permanent Redirect".to_owned(),
            HTTPStatusCode::BadRequest => "Bad Request".to_owned(),
            HTTPStatusCode::Unauthorized => "Unauthorized".to_owned(),
            HTTPStatusCode::PaymentRequired => "Payment Required".to_owned(),
            HTTPStatusCode::Forbidden => "Forbidden".to_owned(),
            HTTPStatusCode::NotFound => "Not Found".to_owned(),
            HTTPStatusCode::MethodNotAllowed => "Method Not Allowed".to_owned(),
            HTTPStatusCode::NotAcceptable => "Not Acceptable".to_owned(),
            HTTPStatusCode::ProxyAuthenticationRequired => "Proxy Authentication Required".to_owned(),
            HTTPStatusCode::RequestTimeout => "Request Timeout".to_owned(),
            HTTPStatusCode::Conflict => "Conflict".to_owned(),
            HTTPStatusCode::Gone => "Gone".to_owned(),
            HTTPStatusCode::LengthRequired => "Length Required".to_owned(),
            HTTPStatusCode::PreconditionFailed => "Precondition Failed".to_owned(),
            HTTPStatusCode::PayloadTooLarge => "Payload Too Large".to_owned(),
            HTTPStatusCode::URITooLong => "URI Too Long".to_owned(),
            HTTPStatusCode::UnsupportedMediaType => "Unsupported Media Type".to_owned(),
            HTTPStatusCode::RangeNotSatisfiable => "Range Not Satisfiable".to_owned(),
            HTTPStatusCode::ExpectationFailed => "Expectation Failed".to_owned(),
            HTTPStatusCode::ImATeapot => "I'm a teapot".to_owned(),
            HTTPStatusCode::MisdirectedRequest => "Misdirected Request".to_owned(),
            HTTPStatusCode::UnprocessableEntity => "Unprocessable Entity".to_owned(),
            HTTPStatusCode::Locked => "Locked".to_owned(),
            HTTPStatusCode::FailedDependency => "Failed Dependency".to_owned(),
            HTTPStatusCode::TooEarly => "Too Early".to_owned(),
            HTTPStatusCode::UpgradeRequired => "Upgrade Required".to_owned(),
            HTTPStatusCode::PreconditionRequired => "Precondition Required".to_owned(),
            HTTPStatusCode::TooManyRequests => "Too Many Requests".to_owned(),
            HTTPStatusCode::RequestHeaderFieldsTooLarge => "Request Header Fields Too Large".to_owned(),
            HTTPStatusCode::UnavailableForLegalReasons => "Unavailable For Legal Reasons".to_owned(),
            HTTPStatusCode::InternalServerError => "Internal Server Error".to_owned(),
            HTTPStatusCode::NotImplemented => "Not Implemented".to_owned(),
            HTTPStatusCode::BadGateway => "Bad Gateway".to_owned(),
            HTTPStatusCode::ServiceUnavailable => "Service Unavailable".to_owned(),
            HTTPStatusCode::GatewayTimeout => "Gateway Timeout".to_owned(),
            HTTPStatusCode::HTTPVersionNotSupported => "HTTP Version Not Supported".to_owned(),
            HTTPStatusCode::VariantAlsoNegotiates => "Variant Also Negotiates".to_owned(),
            HTTPStatusCode::InsufficientStorage => "Insufficient Storage".to_owned(),
            HTTPStatusCode::LoopDetected => "Loop Detected".to_owned(),
            HTTPStatusCode::NotExtended => "Not Extended".to_owned(),
            HTTPStatusCode::NetworkAuthenticationRequired => "Network Authentication Required".to_owned(),
        }
    }
}

impl FromSpecImpl<HTTPStatusCode> for String {
    open spec fn obeys_from_spec() -> bool {
        false
    }

    open spec fn from_spec(source: HTTPStatusCode) -> String {
        arbitrary()
    }
}

} // verus!
