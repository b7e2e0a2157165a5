//! What goes over the wire to the management canister when an HTTPS outcall is
//! made, and what comes back.
//!
//! The types here hold, as plain values, what the management canister takes and
//! gives. They carry no behaviour of the network: making the call is up to the
//! caller of this library.

use vstd::prelude::*;

verus! {

/// The HTTP methods that an HTTPS outcall can use.
#[derive(Clone, Copy, Debug, PartialEq, Eq, Hash)]
pub enum IcHttpMethod {
    /// GET
    GET,
    /// POST
    POST,
    /// HEAD
    HEAD,
}

impl Default for IcHttpMethod {
    fn default() -> (method: Self)
        ensures
            method == IcHttpMethod::GET,
    {
        IcHttpMethod::GET
    }
}

/// An HTTP header as the management canister takes and gives it.
#[derive(Clone, Debug, PartialEq, Eq, Hash)]
pub struct IcHttpHeader {
    /// The name of the header.
    pub name: String,
    /// The value of the header.
    pub value: String,
}

/// Which function of which canister the replica calls to canonicalize a
/// response, and the bytes handed to it unchanged.
#[derive(Clone, Debug, PartialEq, Eq, Hash)]
pub struct TransformContext {
    /// The canister that holds the function, as the bytes of its principal.
    pub principal: Vec<u8>,
    /// The name of the function.
    pub method: String,
    /// Bytes that the function receives as they are.
    pub context: Vec<u8>,
}

/// The argument of an HTTPS outcall.
#[derive(Clone, Debug, PartialEq, Eq)]
pub struct IcHttpRequest {
    /// The requested URL.
    pub url: String,
    /// The largest response that is accepted, in bytes; 2MB where none is given.
    pub max_response_bytes: Option<u64>,
    /// The HTTP method.
    pub method: IcHttpMethod,
    /// The headers of the request.
    pub headers: Vec<IcHttpHeader>,
    /// The body of the request.
    pub body: Option<Vec<u8>>,
    /// How the replica canonicalizes the response.
    pub transform: Option<TransformContext>,
}

impl Default for IcHttpRequest {
    fn default() -> (request: Self)
        ensures
            request.url@ == Seq::<char>::empty(),
            request.max_response_bytes is None,
            request.method == IcHttpMethod::GET,
            request.headers@ == Seq::<IcHttpHeader>::empty(),
            request.body is None,
            request.transform is None,
    {
        IcHttpRequest {
            url: String::new(),
            max_response_bytes: None,
            method: IcHttpMethod::GET,
            headers: Vec::new(),
            body: None,
            transform: None,
        }
    }
}

/// The response to an HTTPS outcall.
#[derive(Clone, Debug, PartialEq, Eq)]
pub struct IcHttpResponse {
    /// The status code, as large as the replica sent it. A status beyond the
    /// range of `u128` is held as `u128::MAX`.
    pub status: u128,
    /// The headers of the response.
    pub headers: Vec<IcHttpHeader>,
    /// The body of the response.
    pub body: Vec<u8>,
}

/// An [`IcHttpRequest`] together with the cycles to attach to the outcall.
#[derive(Clone, Debug, PartialEq, Eq)]
pub struct IcHttpRequestWithCycles {
    /// The request to make.
    pub request: IcHttpRequest,
    /// The number of cycles to attach.
    pub cycles: u128,
}

impl Default for IcHttpRequestWithCycles {
    fn default() -> (request: Self)
        ensures
            request.cycles == 0,
            request.request.url@ == Seq::<char>::empty(),
            request.request.max_response_bytes is None,
            request.request.method == IcHttpMethod::GET,
            request.request.headers@ == Seq::<IcHttpHeader>::empty(),
            request.request.body is None,
            request.request.transform is None,
    {
        IcHttpRequestWithCycles { request: IcHttpRequest::default(), cycles: 0 }
    }
}

/// Support for a limit on the size of the response.
pub trait MaxResponseBytesRequestExtension: Sized {
    /// The limit that the request carries, if any.
    spec fn max_response_bytes_of(&self) -> Option<u64>;

    /// Sets the limit on the response, in bytes.
    ///
    /// The outcall is charged by this limit. A request without one is charged
    /// for the largest response there is, 2MB.
    fn set_max_response_bytes(&mut self, value: u64)
        ensures
            final(self).max_response_bytes_of() == Some(value),
    ;

    /// The limit on the response that the request carries, if any.
    fn get_max_response_bytes(&self) -> (limit: Option<u64>)
        ensures
            limit == self.max_response_bytes_of(),
    ;

    /// The request with its limit on the response set to `value`.
    fn max_response_bytes(self, value: u64) -> (request: Self)
        ensures
            request.max_response_bytes_of() == Some(value),
    {
        let mut request = self;
        request.set_max_response_bytes(value);
        request
    }
}

impl MaxResponseBytesRequestExtension for IcHttpRequest {
    open spec fn max_response_bytes_of(&self) -> Option<u64> {
        self.max_response_bytes
    }

    fn set_max_response_bytes(&mut self, value: u64)
        ensures
            *final(self) == (IcHttpRequest { max_response_bytes: Some(value), ..*old(self) }),
    {
        self.max_response_bytes = Some(value);
    }

    fn get_max_response_bytes(&self) -> (limit: Option<u64>) {
        self.max_response_bytes
    }
}

impl MaxResponseBytesRequestExtension for IcHttpRequestWithCycles {
    open spec fn max_response_bytes_of(&self) -> Option<u64> {
        self.request.max_response_bytes
    }

    fn set_max_response_bytes(&mut self, value: u64)
        ensures
            final(self).cycles == old(self).cycles,
            final(self).request == (IcHttpRequest { max_response_bytes: Some(value), ..old(self).request }),
    {
        self.request.set_max_response_bytes(value);
    }

    fn get_max_response_bytes(&self) -> (limit: Option<u64>) {
        self.request.get_max_response_bytes()
    }
}

/// Support for a transform context, which tells the replica how to
/// canonicalize the response so that the replicas are likely to agree on it.
pub trait TransformContextRequestExtension: Sized {
    /// The transform context that the request carries, if any.
    spec fn transform_context_of(&self) -> Option<TransformContext>;

    /// Sets the transform context.
    fn set_transform_context(&mut self, value: TransformContext)
        ensures
            final(self).transform_context_of() == Some(value),
    ;

    /// The transform context that the request carries, if any.
    fn get_transform_context(&self) -> (context: Option<&TransformContext>)
        ensures
            context == match self.transform_context_of() {
                Some(value) => Some(&value),
                None => None,
            },
    ;

    /// The request with its transform context set to `value`.
    fn transform_context(self, value: TransformContext) -> (request: Self)
        ensures
            request.transform_context_of() == Some(value),
    {
        let mut request = self;
        request.set_transform_context(value);
        request
    }
}

impl TransformContextRequestExtension for IcHttpRequest {
    open spec fn transform_context_of(&self) -> Option<TransformContext> {
        self.transform
    }

    fn set_transform_context(&mut self, value: TransformContext)
        ensures
            *final(self) == (IcHttpRequest { transform: Some(value), ..*old(self) }),
    {
        self.transform = Some(value);
    }

    fn get_transform_context(&self) -> (context: Option<&TransformContext>) {
        self.transform.as_ref()
    }
}

impl TransformContextRequestExtension for IcHttpRequestWithCycles {
    open spec fn transform_context_of(&self) -> Option<TransformContext> {
        self.request.transform
    }

    fn set_transform_context(&mut self, value: TransformContext)
        ensures
            final(self).cycles == old(self).cycles,
            final(self).request == (IcHttpRequest { transform: Some(value), ..old(self).request }),
    {
        self.request.set_transform_context(value);
    }

    fn get_transform_context(&self) -> (context: Option<&TransformContext>) {
        self.request.get_transform_context()
    }
}

} // verus!

verus! {

/// Why the Internet Computer rejected a call, as the CDK reports it.
#[derive(Clone, Copy, Debug, PartialEq, Eq, Hash)]
pub enum RejectionCode {
    /// No error.
    NoError,
    /// Fatal system error; a retry is unlikely to help.
    SysFatal,
    /// Transient system error; a retry might help.
    SysTransient,
    /// The destination is invalid.
    DestinationInvalid,
    /// The canister rejected the call explicitly.
    CanisterReject,
    /// The canister failed while it handled the call.
    CanisterError,
    /// A code that the CDK does not know.
    Unknown,
}

/// Why the Internet Computer rejected a call.
#[derive(Clone, Copy, Debug, PartialEq, Eq, Hash)]
pub enum RejectCode {
    /// Fatal system error; a retry is unlikely to help.
    SysFatal,
    /// Transient system error; a retry might help.
    SysTransient,
    /// The destination is invalid.
    DestinationInvalid,
    /// The canister rejected the call explicitly.
    CanisterReject,
    /// The canister failed while it handled the call.
    CanisterError,
    /// The response is unknown: the call may or may not have been handled.
    SysUnknown,
}

/// The reject code that stands for what the CDK reported, if it reported an
/// error.
///
/// A code that the CDK does not know counts as a fatal system error: none of
/// the other codes applies, and an unknown response can only come from a call
/// with a best-effort response, which an HTTPS outcall is not.
pub open spec fn reject_code_of(code: RejectionCode) -> Option<RejectCode> {
    match code {
        RejectionCode::NoError => None,
        RejectionCode::SysFatal => Some(RejectCode::SysFatal),
        RejectionCode::SysTransient => Some(RejectCode::SysTransient),
        RejectionCode::DestinationInvalid => Some(RejectCode::DestinationInvalid),
        RejectionCode::CanisterReject => Some(RejectCode::CanisterReject),
        RejectionCode::CanisterError => Some(RejectCode::CanisterError),
        RejectionCode::Unknown => Some(RejectCode::SysFatal),
    }
}

/// The reject code that stands for what the CDK reported about a failed
/// outcall. A failed outcall never reports [`RejectionCode::NoError`].
pub fn convert_reject_code(code: RejectionCode) -> (converted: RejectCode)
    requires
        code != RejectionCode::NoError,
    ensures
        Some(converted) == reject_code_of(code),
{
    match code {
        RejectionCode::SysFatal => RejectCode::SysFatal,
        RejectionCode::SysTransient => RejectCode::SysTransient,
        RejectionCode::DestinationInvalid => RejectCode::DestinationInvalid,
        RejectionCode::CanisterReject => RejectCode::CanisterReject,
        RejectionCode::CanisterError => RejectCode::CanisterError,
        RejectionCode::Unknown => RejectCode::SysFatal,
        RejectionCode::NoError => vstd::pervasive::unreached(),
    }
}

/// The name of a reject code.
pub open spec fn reject_code_name(code: RejectCode) -> Seq<char> {
    match code {
        RejectCode::SysFatal => "SysFatal"@,
        RejectCode::SysTransient => "SysTransient"@,
        RejectCode::DestinationInvalid => "DestinationInvalid"@,
        RejectCode::CanisterReject => "CanisterReject"@,
        RejectCode::CanisterError => "CanisterError"@,
        RejectCode::SysUnknown => "SysUnknown"@,
    }
}

/// Error returned by the Internet Computer when making an HTTPS outcall.
#[derive(Clone, Debug, PartialEq, Eq)]
pub struct IcError {
    /// Why the call was rejected.
    pub code: RejectCode,
    /// A message that goes with the code.
    pub message: String,
}

/// What tells errors of HTTPS outcalls apart.
pub trait HttpsOutcallError {
    /// Whether the error says that the response was larger than the request
    /// allowed. If so, a retry with a larger limit may help.
    fn is_response_too_large(&self) -> bool;
}

impl IcError {
    /// The error says that the response was larger than the request allowed: a
    /// fatal system error whose message speaks of a size limit or of a length
    /// limit.
    pub open spec fn says_response_too_large(&self) -> bool {
        &&& self.code == RejectCode::SysFatal
        &&& (crate::text::mentions(self.message@, "size limit"@) || crate::text::mentions(
            self.message@,
            "length limit"@,
        ))
    }

    /// The error as a line of text.
    pub open spec fn text(&self) -> Seq<char> {
        "Error from ICP: (code "@ + reject_code_name(self.code) + ", message "@ + self.message@ + ")"@
    }

    /// The error as a line of text.
    pub fn to_string(&self) -> (text: String)
        ensures
            text@ == self.text(),
    {
        let code = match self.code {
            RejectCode::SysFatal => "SysFatal",
            RejectCode::SysTransient => "SysTransient",
            RejectCode::DestinationInvalid => "DestinationInvalid",
            RejectCode::CanisterReject => "CanisterReject",
            RejectCode::CanisterError => "CanisterError",
            RejectCode::SysUnknown => "SysUnknown",
        };
        let mut text = String::from_str("Error from ICP: (code ");
        text.append(code);
        text.append(", message ");
        text.append(self.message.as_str());
        text.append(")");
        text
    }
}

impl HttpsOutcallError for IcError {
    fn is_response_too_large(&self) -> (too_large: bool)
        ensures
            too_large == self.says_response_too_large(),
    {
        match self.code {
            RejectCode::SysFatal => crate::text::contains(self.message.as_str(), "size limit")
                || crate::text::contains(self.message.as_str(), "length limit"),
            _ => false,
        }
    }
}

/// The client that makes the HTTPS outcall itself. The call is made by the
/// canister; this type says how what came back is to be read.
#[derive(Clone, Copy, Debug)]
pub struct Client;

impl Client {
    /// Reads what an HTTPS outcall gave: the response as it is, or the error
    /// of the Internet Computer with its reject code.
    pub fn outcome<R>(called: Result<R, (RejectionCode, String)>) -> (read: Result<R, IcError>)
        requires
            called matches Err(rejected) ==> rejected.0 != RejectionCode::NoError,
        ensures
            match called {
                Ok(response) => read == Ok::<R, IcError>(response),
                Err(rejected) => read matches Err(error) && Some(error.code) == reject_code_of(rejected.0)
                    && error.message == rejected.1,
            },
    {
        match called {
            Ok(response) => Ok(response),
            Err((code, message)) => Err(IcError { code: convert_reject_code(code), message }),
        }
    }
}

} // verus!
