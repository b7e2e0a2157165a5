//! JSON requests over HTTP, and the body of a JSON-RPC request.

use vstd::prelude::*;
use std::marker::PhantomData;
use crate::http::json::id::{Id, IdView};
use crate::http::json::version::Version;
use crate::http::request::{HttpRequest, Request};
use crate::http::response::{fields_of, Field, HeaderField};
use crate::text::ascii_bytes;

verus! {

/// Turns requests whose body can be written as JSON into [`HttpRequest`]s.
///
/// Writing the body as JSON is up to the caller, who knows the type of the
/// body; what is done to the request afterwards is
/// [`add_content_type_header_if_missing`].
#[derive(Debug)]
pub struct JsonRequestConverter<T> {
    _marker: PhantomData<T>,
}

impl<T> JsonRequestConverter<T> {
    /// A new converter.
    pub fn new() -> (converter: Self) {
        Self { _marker: PhantomData }
    }
}

impl<T> Clone for JsonRequestConverter<T> {
    fn clone(&self) -> (copy: Self) {
        Self { _marker: self._marker }
    }
}

impl<T> Default for JsonRequestConverter<T> {
    fn default() -> (converter: Self) {
        Self::new()
    }
}

/// Why a request cannot be sent as JSON.
#[derive(Clone, Debug, PartialEq, Eq)]
pub enum JsonRequestConversionError {
    /// The body could not be written as JSON.
    InvalidJson(String),
}

impl JsonRequestConversionError {
    /// The error as a line of text.
    pub open spec fn text(&self) -> Seq<char> {
        match self {
            JsonRequestConversionError::InvalidJson(reason) => "Invalid JSON body: "@ + reason@,
        }
    }

    /// The error as a line of text.
    pub fn to_string(&self) -> (text: String)
        ensures
            text@ == self.text(),
    {
        match self {
            JsonRequestConversionError::InvalidJson(reason) => {
                let mut text = String::from_str("Invalid JSON body: ");
                text.append(reason.as_str());
                text
            },
        }
    }
}

/// Some header of `fields` is called `name`.
pub open spec fn has_field(fields: Seq<Field>, name: Seq<char>) -> bool {
    exists|i: int| 0 <= i < fields.len() && (#[trigger] fields[i]).0 == name
}

/// Says that the body is JSON, unless the request says itself what its body
/// is: a request without a `content-type` header gets the header
/// `content-type: application/json` after its other headers, and a request
/// with one stays as it is.
pub fn add_content_type_header_if_missing(request: HttpRequest) -> (completed: HttpRequest)
    ensures
        completed.method == request.method,
        completed.uri == request.uri,
        completed.body == request.body,
        completed.max_response_bytes == request.max_response_bytes,
        completed.transform_context == request.transform_context,
        fields_of(completed.headers@) == if has_field(fields_of(request.headers@), "content-type"@) {
            fields_of(request.headers@)
        } else {
            fields_of(request.headers@).push(("content-type"@, ascii_bytes("application/json"@)))
        },
{
    let name = String::from_str("content-type");
    let mut i: usize = 0;
    while i < request.headers.len()
        invariant
            name@ == "content-type"@,
            i <= request.headers@.len(),
            forall|j: int| 0 <= j < i ==> (#[trigger] fields_of(request.headers@)[j]).0 != name@,
        decreases request.headers.len() - i,
    {
        if request.headers[i].name == name {
            assert(fields_of(request.headers@)[i as int].0 == name@);
            return request;
        }
        i += 1;
    }
    let mut completed = request;
    let value = json_media_type();
    let ghost before = fields_of(completed.headers@);
    completed.headers.push(HeaderField { name, value });
    assert(fields_of(completed.headers@) =~= before.push((name@, value@)));
    completed
}

/// The bytes of `application/json`.
fn json_media_type() -> (bytes: Vec<u8>)
    ensures
        bytes@ == ascii_bytes("application/json"@),
{
    let text = "application/json";
    proof {
        reveal_strlit("application/json");
    }
    let mut bytes: Vec<u8> = Vec::new();
    bytes.push(97);
    bytes.push(112);
    bytes.push(112);
    bytes.push(108);
    bytes.push(105);
    bytes.push(99);
    bytes.push(97);
    bytes.push(116);
    bytes.push(105);
    bytes.push(111);
    bytes.push(110);
    bytes.push(47);
    bytes.push(106);
    bytes.push(115);
    bytes.push(111);
    bytes.push(110);
    assert(bytes@ =~= ascii_bytes(text@));
    bytes
}

/// JSON-RPC request over HTTP.
pub type HttpJsonRpcRequest<T> = Request<JsonRpcRequest<T>>;

/// The body of a JSON-RPC request, see the
/// [specification](https://www.jsonrpc.org/specification).
#[derive(Clone, Debug, PartialEq, Eq)]
pub struct JsonRpcRequest<T> {
    jsonrpc: Version,
    method: String,
    id: Id,
    params: Option<T>,
}

/// Another name for the body of a JSON-RPC request.
pub type JsonRpcRequestBody<T> = JsonRpcRequest<T>;

impl<T> JsonRpcRequest<T> {
    /// The identifier of the request, by what it holds.
    pub closed spec fn id_of(&self) -> IdView {
        self.id@
    }

    /// The name of the method to call.
    pub closed spec fn method_of(&self) -> Seq<char> {
        self.method@
    }

    /// The parameters of the call.
    pub closed spec fn params_of(&self) -> Option<T> {
        self.params
    }

    /// The request that calls `method` with `params`, under the identifier
    /// zero.
    pub fn new(method: &str, params: T) -> (request: Self)
        ensures
            request.method_of() == method@,
            request.params_of() == Some(params),
            request.id_of() == IdView::Number(0),
    {
        Self { jsonrpc: Version::V2, method: String::from_str(method), id: Id::zero(), params: Some(params) }
    }

    /// The request under the identifier `id`.
    pub fn with_id(self, id: Id) -> (request: Self)
        ensures
            request.id_of() == id@,
            request.method_of() == self.method_of(),
            request.params_of() == self.params_of(),
    {
        Self { jsonrpc: self.jsonrpc, method: self.method, id, params: self.params }
    }

    /// Changes the identifier of the request to the number `id`.
    pub fn set_id(&mut self, id: u64)
        ensures
            final(self).id_of() == IdView::Number(id),
            final(self).method_of() == old(self).method_of(),
            final(self).params_of() == old(self).params_of(),
    {
        self.id = Id::Number(id);
    }

    /// The identifier of the request.
    pub fn id(&self) -> (id: &Id)
        ensures
            id@ == self.id_of(),
    {
        &self.id
    }

    /// The name of the method to call.
    pub fn method(&self) -> (method: &str)
        ensures
            method@ == self.method_of(),
    {
        self.method.as_str()
    }

    /// The parameters of the call, if there are any.
    pub fn params(&self) -> (params: Option<&T>)
        ensures
            params == match self.params_of() {
                Some(given) => Some(&given),
                None => None,
            },
    {
        self.params.as_ref()
    }
}

} // verus!
