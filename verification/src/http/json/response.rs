//! JSON responses over HTTP, the JSON-RPC response, and the test that a
//! response answers the request it is taken for.

use vstd::prelude::*;
use std::marker::PhantomData;
use crate::http::json::id::{Id, IdView};
use crate::http::json::request::HttpJsonRpcRequest;
use crate::http::json::version::Version;
use crate::http::response::Response;

verus! {

/// A JSON value of any shape. It is handed on as it is and never looked into.
#[verifier::external_type_specification]
#[verifier::external_body]
pub struct ExJsonValue(serde_json::Value);

/// What [`String::from_utf8_lossy`] makes of bytes: their text, with the
/// replacement character wherever they are not UTF-8.
pub uninterp spec fn lossy_text(bytes: Seq<u8>) -> Seq<char>;

/// Asks [`String::from_utf8_lossy`] for the text of `bytes`.
///
/// The contract gives what the call answers a name of its own and claims
/// nothing more of it: the same bytes always get the same text.
#[verifier::external_body]
fn text_of_bytes(bytes: &Vec<u8>) -> (text: String)
    ensures
        text@ == lossy_text(bytes@),
{
    String::from_utf8_lossy(bytes).into_owned()
}

/// Turns [`HttpResponse`](crate::http::HttpResponse)s into responses whose
/// body is read from JSON.
///
/// Reading the body from JSON is up to the caller, who knows the type of the
/// body; what is reported where that fails is
/// [`JsonResponseConverter::invalid_json_response`].
#[derive(Debug)]
pub struct JsonResponseConverter<T> {
    _marker: PhantomData<T>,
}

impl<T> JsonResponseConverter<T> {
    /// A new converter.
    pub fn new() -> (converter: Self) {
        Self { _marker: PhantomData }
    }

    /// The error for a response with the given status whose body `body` could
    /// not be read: it holds the status, the body as text, and why the body
    /// was refused.
    pub fn invalid_json_response(status: u16, body: &Vec<u8>, parsing_error: String) -> (error:
        JsonResponseConversionError)
        ensures
            error matches JsonResponseConversionError::InvalidJsonResponse {
                status: reported,
                body: text,
                parsing_error: reason,
            } && reported == status && text@ == lossy_text(body@) && reason == parsing_error,
    {
        JsonResponseConversionError::InvalidJsonResponse { status, body: text_of_bytes(body), parsing_error }
    }
}

impl<T> Clone for JsonResponseConverter<T> {
    fn clone(&self) -> (copy: Self) {
        Self { _marker: self._marker }
    }
}

impl<T> Default for JsonResponseConverter<T> {
    fn default() -> (converter: Self) {
        Self::new()
    }
}

/// Why the body of a response could not be read.
#[derive(Clone, Debug, PartialEq, Eq)]
pub enum JsonResponseConversionError {
    /// The body is not the JSON that was expected.
    InvalidJsonResponse {
        /// The status code of the response.
        status: u16,
        /// The body of the response, as text.
        body: String,
        /// Why the body was refused.
        parsing_error: String,
    },
}

/// JSON-RPC response over HTTP.
pub type HttpJsonRpcResponse<T> = Response<JsonRpcResponse<T>>;

/// What a JSON-RPC response holds: the result of the call, or the error.
pub type JsonRpcResult<T> = Result<T, JsonRpcError>;

/// A JSON-RPC error object.
#[derive(Clone, Debug, PartialEq, Eq)]
pub struct JsonRpcError {
    /// The kind of error that occurred.
    pub code: i64,
    /// A short description of the error.
    pub message: String,
    /// Whatever else the server says about the error.
    pub data: Option<serde_json::Value>,
}

impl JsonRpcError {
    /// An error with the given code and message, and with nothing else said.
    pub fn new(code: i64, message: &str) -> (error: Self)
        ensures
            error.code == code,
            error.message@ == message@,
            error.data is None,
    {
        Self { code, message: String::from_str(message), data: None }
    }

    /// Whether the code says that the request could not be parsed.
    pub fn is_parse_error(&self) -> (parse_error: bool)
        ensures
            parse_error == (self.code == -32700),
    {
        self.code == -32700
    }

    /// Whether the code says that the request was no valid request.
    pub fn is_invalid_request(&self) -> (invalid: bool)
        ensures
            invalid == (self.code == -32600),
    {
        self.code == -32600
    }
}

/// A JSON-RPC response.
#[derive(Clone, Debug, PartialEq, Eq)]
pub struct JsonRpcResponse<T> {
    jsonrpc: Version,
    id: Id,
    result: JsonRpcResultEnvelope<T>,
}

/// What a JSON-RPC response holds, under the names that the message has for
/// it.
#[derive(Clone, Debug, PartialEq, Eq)]
enum JsonRpcResultEnvelope<T> {
    /// The result of a call that succeeded.
    Result(T),
    /// The error of a call that failed.
    Error(JsonRpcError),
}

impl<T> JsonRpcResultEnvelope<T> {
    spec fn result(self) -> JsonRpcResult<T> {
        match self {
            JsonRpcResultEnvelope::Result(result) => Ok(result),
            JsonRpcResultEnvelope::Error(error) => Err(error),
        }
    }

    fn into_result(self) -> (result: JsonRpcResult<T>)
        ensures
            result == self.result(),
    {
        match self {
            JsonRpcResultEnvelope::Result(result) => Ok(result),
            JsonRpcResultEnvelope::Error(error) => Err(error),
        }
    }

    fn as_result(&self) -> (result: Result<&T, &JsonRpcError>)
        ensures
            result == match self.result() {
                Ok(result) => Ok::<&T, &JsonRpcError>(&result),
                Err(error) => Err::<&T, &JsonRpcError>(&error),
            },
    {
        match self {
            JsonRpcResultEnvelope::Result(result) => Ok(result),
            JsonRpcResultEnvelope::Error(error) => Err(error),
        }
    }
}

impl<T> JsonRpcResponse<T> {
    /// The identifier of the response, by what it holds.
    pub closed spec fn id_of(&self) -> IdView {
        self.id@
    }

    /// What the response holds: the result of the call, or the error.
    pub closed spec fn result_of(&self) -> JsonRpcResult<T> {
        self.result.result()
    }

    /// The response that answers the request `id` with `result`.
    pub fn from_ok(id: Id, result: T) -> (response: Self)
        ensures
            response.id_of() == id@,
            response.result_of() == Ok::<T, JsonRpcError>(result),
    {
        Self { jsonrpc: Version::V2, result: JsonRpcResultEnvelope::Result(result), id }
    }

    /// The response that answers the request `id` with `error`.
    pub fn from_error(id: Id, error: JsonRpcError) -> (response: Self)
        ensures
            response.id_of() == id@,
            response.result_of() == Err::<T, JsonRpcError>(error),
    {
        Self { jsonrpc: Version::V2, result: JsonRpcResultEnvelope::Error(error), id }
    }

    /// The response that answers the request `id` with `result`, be it a
    /// result or an error.
    pub fn from_parts(id: Id, result: JsonRpcResult<T>) -> (response: Self)
        ensures
            response.id_of() == id@,
            response.result_of() == result,
    {
        match result {
            Ok(r) => JsonRpcResponse::from_ok(id, r),
            Err(e) => JsonRpcResponse::from_error(id, e),
        }
    }

    /// The identifier of the response, and what the response holds.
    pub fn into_parts(self) -> (parts: (Id, JsonRpcResult<T>))
        ensures
            parts.0@ == self.id_of(),
            parts.1 == self.result_of(),
    {
        (self.id, self.result.into_result())
    }

    /// The identifier of the response, and what the response holds.
    pub fn as_parts(&self) -> (parts: (&Id, Result<&T, &JsonRpcError>))
        ensures
            parts.0@ == self.id_of(),
            parts.1 == match self.result_of() {
                Ok(result) => Ok::<&T, &JsonRpcError>(&result),
                Err(error) => Err::<&T, &JsonRpcError>(&error),
            },
    {
        (&self.id, self.as_result())
    }

    /// What the response holds: the result of the call, or the error.
    pub fn into_result(self) -> (result: JsonRpcResult<T>)
        ensures
            result == self.result_of(),
    {
        self.result.into_result()
    }

    /// What the response holds: the result of the call, or the error.
    pub fn as_result(&self) -> (result: Result<&T, &JsonRpcError>)
        ensures
            result == match self.result_of() {
                Ok(result) => Ok::<&T, &JsonRpcError>(&result),
                Err(error) => Err::<&T, &JsonRpcError>(&error),
            },
    {
        self.result.as_result()
    }

    /// What the response holds, to be changed in place: the result of the
    /// call, or the error. The identifier stays as it is.
    pub fn as_result_mut(&mut self) -> (result: Result<&mut T, &mut JsonRpcError>)
        ensures
            final(self).id_of() == old(self).id_of(),
            match result {
                Ok(held) => old(self).result_of() == Ok::<T, JsonRpcError>(*held) && final(self).result_of()
                    == Ok::<T, JsonRpcError>(*final(held)),
                Err(held) => old(self).result_of() == Err::<T, JsonRpcError>(*held) && final(self).result_of()
                    == Err::<T, JsonRpcError>(*final(held)),
            },
    {
        match &mut self.result {
            JsonRpcResultEnvelope::Result(result) => Ok(result),
            JsonRpcResultEnvelope::Error(error) => Err(error),
        }
    }

    /// The identifier of the response.
    pub fn id(&self) -> (id: &Id)
        ensures
            id@ == self.id_of(),
    {
        &self.id
    }

    /// The response with `f` applied to its result, if it holds one; an error
    /// stays as it is.
    pub fn map<R, F: FnOnce(T) -> R>(self, f: F) -> (mapped: JsonRpcResponse<R>)
        requires
            self.result_of() matches Ok(result) ==> call_requires(f, (result,)),
        ensures
            mapped.id_of() == self.id_of(),
            match self.result_of() {
                Ok(result) => mapped.result_of() matches Ok(image) && call_ensures(f, (result,), image),
                Err(error) => mapped.result_of() == Err::<R, JsonRpcError>(error),
            },
    {
        let result = match self.result {
            JsonRpcResultEnvelope::Result(result) => JsonRpcResultEnvelope::Result(f(result)),
            JsonRpcResultEnvelope::Error(error) => JsonRpcResultEnvelope::Error(error),
        };
        JsonRpcResponse { jsonrpc: self.jsonrpc, id: self.id, result }
    }
}

/// Why a response is not taken for the answer to a request.
#[derive(Clone, Debug, PartialEq, Eq)]
pub enum ConsistentResponseIdFilterError {
    /// The identifier of the response is not that of the request.
    InconsistentId {
        /// The status code of the response.
        status: u16,
        /// The identifier of the request.
        request_id: Id,
        /// The identifier of the response.
        response_id: Id,
    },
}

impl ConsistentResponseIdFilterError {
    /// The error as a line of text.
    pub open spec fn text(&self) -> Seq<char> {
        match self {
            ConsistentResponseIdFilterError::InconsistentId { status, request_id, response_id } =>
                "Unexpected identifier: expected response ID to be "@ + request_id.text() + ", but got "@
                    + response_id.text(),
        }
    }

    /// The error as a line of text.
    pub fn to_string(&self) -> (text: String)
        ensures
            text@ == self.text(),
    {
        match self {
            ConsistentResponseIdFilterError::InconsistentId { status, request_id, response_id } => {
                let mut text = String::from_str("Unexpected identifier: expected response ID to be ");
                text.append(request_id.to_string().as_str());
                text.append(", but got ");
                text.append(response_id.to_string().as_str());
                text
            },
        }
    }
}

/// A response under the identifier `response_id` that holds `result` answers
/// the request `request_id`: the identifiers are the same, or the response has
/// a null identifier and says that the request could not be parsed or was no
/// valid request. In both of these cases the server cannot tell the
/// identifier of the request, and JSON-RPC has it answer with null.
pub open spec fn answers<T>(request_id: IdView, response_id: IdView, result: JsonRpcResult<T>) -> bool {
    ||| request_id == response_id
    ||| response_id == IdView::Null && (result matches Err(error) && (error.code == -32700 || error.code
        == -32600))
}

/// Makes a [`ConsistentJsonRpcIdFilter`] for each request.
pub struct CreateJsonRpcIdFilter<I, O> {
    _marker: PhantomData<(I, O)>,
}

impl<I, O> CreateJsonRpcIdFilter<I, O> {
    /// A new maker of filters.
    pub fn new() -> (maker: Self) {
        Self { _marker: PhantomData }
    }

    /// The filter for the responses to `request`, whose identifier must not be
    /// null.
    pub fn create_filter(&self, request: &HttpJsonRpcRequest<I>) -> (filter: ConsistentJsonRpcIdFilter<O>)
        requires
            request.body.id_of() != IdView::Null,
        ensures
            filter.request_id() == request.body.id_of(),
    {
        ConsistentJsonRpcIdFilter::new(request.body.id().clone())
    }
}

impl<I, O> Clone for CreateJsonRpcIdFilter<I, O> {
    fn clone(&self) -> (copy: Self) {
        Self { _marker: self._marker }
    }
}

impl<I, O> Default for CreateJsonRpcIdFilter<I, O> {
    fn default() -> (maker: Self) {
        Self::new()
    }
}

/// Lets a response pass only if it answers the request whose identifier the
/// filter holds.
pub struct ConsistentJsonRpcIdFilter<O> {
    request_id: Id,
    _marker: PhantomData<O>,
}

impl<O> ConsistentJsonRpcIdFilter<O> {
    /// The identifier of the request, by what it holds.
    pub closed spec fn request_id(&self) -> IdView {
        self.request_id@
    }

    /// The filter for the responses to the request `request_id`.
    ///
    /// The identifier must not be null: a request with a null identifier is a
    /// notification, to which the client wants no response.
    pub fn new(request_id: Id) -> (filter: Self)
        requires
            request_id@ != IdView::Null,
        ensures
            filter.request_id() == request_id@,
    {
        Self { request_id, _marker: PhantomData }
    }

    /// Lets `response` pass, as it is, if it answers the request of the
    /// filter; else reports the status of the response and the two
    /// identifiers.
    pub fn filter(&mut self, response: HttpJsonRpcResponse<O>) -> (filtered: Result<
        HttpJsonRpcResponse<O>,
        ConsistentResponseIdFilterError,
    >)
        ensures
            final(self).request_id() == old(self).request_id(),
            match filtered {
                Ok(passed) => passed == response && answers(
                    old(self).request_id(),
                    response.body.id_of(),
                    response.body.result_of(),
                ),
                Err(ConsistentResponseIdFilterError::InconsistentId { status, request_id, response_id }) => {
                    &&& !answers(old(self).request_id(), response.body.id_of(), response.body.result_of())
                    &&& status == response.status
                    &&& request_id@ == old(self).request_id()
                    &&& response_id@ == response.body.id_of()
                },
            },
    {
        let (response_id, result) = response.body.as_parts();
        if self.request_id == *response_id {
            return Ok(response);
        }
        if response_id.is_null() {
            match result {
                Err(error) => {
                    if error.is_parse_error() || error.is_invalid_request() {
                        return Ok(response);
                    }
                },
                Ok(_) => {},
            }
        }
        Err(
            ConsistentResponseIdFilterError::InconsistentId {
                status: response.status,
                request_id: self.request_id.clone(),
                response_id: response_id.clone(),
            },
        )
    }
}

} // verus!
