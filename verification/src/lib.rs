//! A small HTTP/1.1 message layer: requests are read from text, handed to
//! one of a few handlers by method and path, and the response is written
//! out as bytes.
//!
//! Nothing here reads a file or a socket. A handler says what it wants from
//! outside, the caller looks it up, and the handler answers with what was
//! found. One connection is one request and one response: no connection is
//! kept open, and no body is sent in chunks.
pub mod decimal;
pub mod handler;
pub mod headers;
pub mod httprequest;
pub mod httpresponse;
pub mod orders;
pub mod router;
pub mod server;
pub mod text;
