//! An embeddable HTTP/1.1 server core: the message model, the wire codec and
//! the request dispatcher.
pub mod file;
pub mod handler;
pub mod http;
pub mod text;
