//! Writing an HTTP request as the argument of an HTTPS outcall.

use vstd::prelude::*;
use vstd::utf8::encode_utf8;
use crate::client::{
    IcHttpHeader, IcHttpMethod, IcHttpRequest, MaxResponseBytesRequestExtension, TransformContext,
    TransformContextRequestExtension,
};
use crate::http::response::HeaderField;
use crate::http::syntax::{header_text_refusal, header_value_text, is_header_text};

verus! {

/// An HTTP request with a body of type `T`, together with what the Internet
/// Computer adds to a request.
#[derive(Clone, Debug, PartialEq, Eq)]
pub struct Request<T> {
    /// The HTTP method, as the request spells it.
    pub method: String,
    /// The requested URI.
    pub uri: String,
    /// The headers, in the order in which the message has them. A name may come
    /// more than once.
    pub headers: Vec<HeaderField>,
    /// The body.
    pub body: T,
    /// The largest response that is accepted, in bytes, if there is a limit.
    pub max_response_bytes: Option<u64>,
    /// How the replica canonicalizes the response, if it is to do so.
    pub transform_context: Option<TransformContext>,
}

/// HTTP request with a body made of bytes.
pub type HttpRequest = Request<Vec<u8>>;

impl<T> MaxResponseBytesRequestExtension for Request<T> {
    open spec fn max_response_bytes_of(&self) -> Option<u64> {
        self.max_response_bytes
    }

    fn set_max_response_bytes(&mut self, value: u64)
        ensures
            *final(self) == (Request { max_response_bytes: Some(value), ..*old(self) }),
    {
        self.max_response_bytes = Some(value);
    }

    fn get_max_response_bytes(&self) -> (limit: Option<u64>) {
        self.max_response_bytes
    }
}

impl<T> TransformContextRequestExtension for Request<T> {
    open spec fn transform_context_of(&self) -> Option<TransformContext> {
        self.transform_context
    }

    fn set_transform_context(&mut self, value: TransformContext)
        ensures
            *final(self) == (Request { transform_context: Some(value), ..*old(self) }),
    {
        self.transform_context = Some(value);
    }

    fn get_transform_context(&self) -> (context: Option<&TransformContext>) {
        self.transform_context.as_ref()
    }
}

/// Why an HTTP request cannot be sent as an HTTPS outcall.
#[derive(Clone, Debug, PartialEq, Eq)]
pub enum HttpRequestConversionError {
    /// The HTTP method is none of those that an outcall can use.
    UnsupportedHttpMethod(String),
    /// The value of a header cannot be read as text.
    InvalidHttpHeaderValue {
        /// The name of the header.
        name: String,
        /// Why the value is refused.
        reason: String,
    },
}

/// Why a request is refused, by the texts that the error holds.
pub enum HttpRequestFault {
    /// The method is refused.
    Method(Seq<char>),
    /// The value of a header is refused.
    Value { name: Seq<char>, reason: Seq<char> },
}

impl HttpRequestConversionError {
    /// The error as a line of text.
    pub open spec fn text(&self) -> Seq<char> {
        match self {
            HttpRequestConversionError::UnsupportedHttpMethod(method) => "HTTP method `"@ + method@
                + "` is not supported"@,
            HttpRequestConversionError::InvalidHttpHeaderValue { name, reason } => "HTTP header `"@ + name@
                + "` has an invalid value: "@ + reason@,
        }
    }

    /// The error as a line of text.
    pub fn to_string(&self) -> (text: String)
        ensures
            text@ == self.text(),
    {
        match self {
            HttpRequestConversionError::UnsupportedHttpMethod(method) => {
                let mut text = String::from_str("HTTP method `");
                text.append(method.as_str());
                text.append("` is not supported");
                text
            },
            HttpRequestConversionError::InvalidHttpHeaderValue { name, reason } => {
                let mut text = String::from_str("HTTP header `");
                text.append(name.as_str());
                text.append("` has an invalid value: ");
                text.append(reason.as_str());
                text
            },
        }
    }

    /// The fault that the error reports.
    pub open spec fn fault(&self) -> HttpRequestFault {
        match self {
            HttpRequestConversionError::UnsupportedHttpMethod(method) => HttpRequestFault::Method(method@),
            HttpRequestConversionError::InvalidHttpHeaderValue { name, reason } => HttpRequestFault::Value {
                name: name@,
                reason: reason@,
            },
        }
    }
}

/// The method of an outcall that an HTTP method stands for, if it is one of
/// `GET`, `POST` and `HEAD`.
pub open spec fn outcall_method(method: Seq<char>) -> Option<IcHttpMethod> {
    if method == "GET"@ {
        Some(IcHttpMethod::GET)
    } else if method == "POST"@ {
        Some(IcHttpMethod::POST)
    } else if method == "HEAD"@ {
        Some(IcHttpMethod::HEAD)
    } else {
        None
    }
}

/// The place of the first header whose value cannot be read as text; the
/// number of headers where every value can.
pub open spec fn first_unreadable(headers: Seq<HeaderField>) -> int
    decreases headers.len(),
{
    if headers.len() == 0 {
        0
    } else if !is_header_text(headers[0].value@) {
        0
    } else {
        1 + first_unreadable(headers.drop_first())
    }
}

/// The header of an outcall says what the HTTP header says: the same name, and
/// as value the text that the bytes of the value spell.
pub open spec fn same_header(written: IcHttpHeader, header: HeaderField) -> bool {
    &&& written.name@ == header.name@
    &&& encode_utf8(written.value@) == header.value@
}

/// The argument of an outcall says what the HTTP request says.
pub open spec fn same_request(written: IcHttpRequest, request: HttpRequest) -> bool {
    &&& written.url@ == request.uri@
    &&& written.max_response_bytes == request.max_response_bytes
    &&& Some(written.method) == outcall_method(request.method@)
    &&& written.headers@.len() == request.headers@.len()
    &&& forall|i: int|
        0 <= i < request.headers@.len() ==> same_header(#[trigger] written.headers@[i], request.headers@[i])
    &&& written.body == Some(request.body)
    &&& written.transform == request.transform_context
}

/// What is wrong with a request, if anything: a method that an outcall cannot
/// use, or else the first header whose value cannot be read as text.
pub open spec fn request_fault(request: HttpRequest) -> Option<HttpRequestFault> {
    let unreadable = first_unreadable(request.headers@);
    if outcall_method(request.method@) is None {
        Some(HttpRequestFault::Method(request.method@))
    } else if unreadable < request.headers@.len() {
        Some(
            HttpRequestFault::Value {
                name: request.headers@[unreadable].name@,
                reason: header_text_refusal(request.headers@[unreadable].value@),
            },
        )
    } else {
        None
    }
}

/// Writes requests of type [`HttpRequest`] as arguments of an HTTPS outcall.
#[derive(Clone, Copy, Debug)]
pub struct HttpRequestConverter;

impl HttpRequestConverter {
    /// Writes `request` as the argument of an HTTPS outcall.
    ///
    /// The method must be one of `GET`, `POST` and `HEAD`, and the value of
    /// every header must read as text. The URI, the body, the limit on the
    /// response and the transform context are handed on as they are.
    pub fn try_convert(&mut self, request: HttpRequest) -> (converted: Result<
        IcHttpRequest,
        HttpRequestConversionError,
    >)
        ensures
            match converted {
                Ok(written) => request_fault(request) is None && same_request(written, request),
                Err(error) => request_fault(request) == Some(error.fault()),
            },
    {
        let method = {
            if request.method == String::from_str("GET") {
                IcHttpMethod::GET
            } else if request.method == String::from_str("POST") {
                IcHttpMethod::POST
            } else if request.method == String::from_str("HEAD") {
                IcHttpMethod::HEAD
            } else {
                return Err(HttpRequestConversionError::UnsupportedHttpMethod(request.method));
            }
        };
        let mut headers: Vec<IcHttpHeader> = Vec::new();
        let mut i: usize = 0;
        assert(request.headers@.skip(0) == request.headers@);
        while i < request.headers.len()
            invariant
                outcall_method(request.method@) == Some(method),
                i <= request.headers@.len(),
                headers@.len() == i,
                forall|j: int| 0 <= j < i ==> same_header(#[trigger] headers@[j], request.headers@[j]),
                first_unreadable(request.headers@) == i + first_unreadable(request.headers@.skip(i as int)),
            decreases request.headers.len() - i,
        {
            proof {
                let rest = request.headers@.skip(i as int);
                assert(rest[0] == request.headers@[i as int]);
                assert(rest.drop_first() == request.headers@.skip(i + 1));
            }
            let header = &request.headers[i];
            match header_value_text(&header.value) {
                Ok(value) => {
                    headers.push(IcHttpHeader { name: header.name.clone(), value });
                },
                Err(reason) => {
                    assert(first_unreadable(request.headers@.skip(i as int)) == 0);
                    return Err(
                        HttpRequestConversionError::InvalidHttpHeaderValue { name: header.name.clone(), reason },
                    );
                },
            }
            i += 1;
        }
        Ok(
            IcHttpRequest {
                url: request.uri,
                max_response_bytes: request.max_response_bytes,
                method,
                headers,
                body: Some(request.body),
                transform: request.transform_context,
            },
        )
    }
}

} // verus!
