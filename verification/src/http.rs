//! The HTTP message model and its wire codec.
pub mod headers;
pub mod method;
pub mod request;
pub mod response;
pub mod status_code;
pub use headers::Headers;
pub use method::HTTPMethod;
pub use request::HTTPRequest;
pub use response::HTTPResponse;
pub use status_code::HTTPStatusCode;
