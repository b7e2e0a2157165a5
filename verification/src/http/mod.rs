//! HTTP requests and responses as the `http` crate knows them, and how they
//! are converted to and from what the management canister takes and gives.
//!
//! A [`Request`] or [`Response`] holds as plain values what the conversion
//! reads of an `http::Request` or `http::Response`. What the Internet Computer
//! adds to a request (a limit on the size of the response, a transform
//! context) rides along as it does in the extensions of an `http::Request`.

pub mod json;
pub mod request;
pub mod response;
pub mod syntax;

pub use request::{
    HttpRequest, HttpRequestConversionError, HttpRequestConverter, Request,
};
pub use response::{
    try_map_http_response, HeaderField, HttpResponse, HttpResponseConversionError, Response,
};
pub use crate::client::{MaxResponseBytesRequestExtension, TransformContextRequestExtension};
