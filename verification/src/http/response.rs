//! Reading the response of the management canister as an HTTP response.

use vstd::prelude::*;
use vstd::utf8::encode_utf8;
use crate::client::{IcHttpHeader, IcHttpResponse};
use crate::http::syntax::{
    accepts_status_code, header_value_refusal, is_header_value, is_status_code, parse_header_name,
    parse_header_value, parsed_header_name,
};

verus! {

/// A header of an HTTP message: its name in canonical form, which is in lower
/// case, and the bytes of its value.
#[derive(Clone, Debug, PartialEq, Eq, Hash)]
pub struct HeaderField {
    /// The name of the header.
    pub name: String,
    /// The value of the header.
    pub value: Vec<u8>,
}

/// An HTTP response with a body of type `T`.
#[derive(Clone, Debug, PartialEq, Eq)]
pub struct Response<T> {
    /// The status code.
    pub status: u16,
    /// The headers, in the order in which they are set. Where a name comes
    /// more than once, the header that is set last is the one that counts.
    pub headers: Vec<HeaderField>,
    /// The body.
    pub body: T,
}

/// HTTP response with a body made of bytes.
pub type HttpResponse = Response<Vec<u8>>;

/// Why the response of the management canister is no HTTP response.
#[derive(Clone, Debug, PartialEq, Eq)]
pub enum HttpResponseConversionError {
    /// The status is no HTTP status code.
    InvalidStatusCode,
    /// The name of a header is no HTTP header name.
    InvalidHttpHeaderName {
        /// The name as it came.
        name: String,
        /// Why it was refused.
        reason: String,
    },
    /// The value of a header is no HTTP header value.
    InvalidHttpHeaderValue {
        /// The name of the header, as it came.
        name: String,
        /// Why the value was refused.
        reason: String,
    },
}

/// A header by its name and the bytes of its value.
pub type Field = (Seq<char>, Seq<u8>);

/// The headers as names and values.
pub open spec fn fields_of(headers: Seq<HeaderField>) -> Seq<Field> {
    headers.map_values(|header: HeaderField| (header.name@, header.value@))
}

/// What one header of the management canister makes of a name and a value: the
/// canonical name with the bytes of the value, or why the header is refused.
/// The name is looked at first.
pub open spec fn read_field(header: IcHttpHeader) -> Result<Field, HttpResponseFault> {
    match parsed_header_name(header.name@) {
        Err(reason) => Err(HttpResponseFault::Name { name: header.name@, reason }),
        Ok(canonical) => if is_header_value(encode_utf8(header.value@)) {
            Ok((canonical, encode_utf8(header.value@)))
        } else {
            Err(HttpResponseFault::Value { name: header.name@, reason: header_value_refusal(header.value@) })
        },
    }
}

/// Why a response is refused, by the texts that the error holds.
pub enum HttpResponseFault {
    /// The status is no HTTP status code.
    Status,
    /// The name of a header is refused.
    Name { name: Seq<char>, reason: Seq<char> },
    /// The value of a header is refused.
    Value { name: Seq<char>, reason: Seq<char> },
}

/// What the headers of the management canister make, read one after the
/// other: the headers in their order, or the fault of the first header that is
/// refused.
pub open spec fn read_fields(headers: Seq<IcHttpHeader>) -> Result<Seq<Field>, HttpResponseFault>
    decreases headers.len(),
{
    if headers.len() == 0 {
        Ok(Seq::empty())
    } else {
        match read_fields(headers.drop_last()) {
            Err(fault) => Err(fault),
            Ok(fields) => match read_field(headers.last()) {
                Err(fault) => Err(fault),
                Ok(field) => Ok(fields.push(field)),
            },
        }
    }
}

/// What the response of the management canister makes: the status with the
/// headers as names and values, or why the response is refused. The status is
/// looked at before the headers.
pub open spec fn read_response(response: IcHttpResponse) -> Result<(u16, Seq<Field>), HttpResponseFault> {
    if response.status > u16::MAX || !is_status_code(response.status as u16) {
        Err(HttpResponseFault::Status)
    } else {
        match read_fields(response.headers@) {
            Err(fault) => Err(fault),
            Ok(fields) => Ok((response.status as u16, fields)),
        }
    }
}

impl HttpResponseConversionError {
    /// The error as a line of text.
    pub open spec fn text(&self) -> Seq<char> {
        match self {
            HttpResponseConversionError::InvalidStatusCode => "Status code is invalid"@,
            HttpResponseConversionError::InvalidHttpHeaderName { name, reason } => "HTTP header `"@ + name@
                + "` is invalid: "@ + reason@,
            HttpResponseConversionError::InvalidHttpHeaderValue { name, reason } => "HTTP header `"@
                + name@ + "` has an invalid value: "@ + reason@,
        }
    }

    /// The error as a line of text.
    pub fn to_string(&self) -> (text: String)
        ensures
            text@ == self.text(),
    {
        match self {
            HttpResponseConversionError::InvalidStatusCode => String::from_str("Status code is invalid"),
            HttpResponseConversionError::InvalidHttpHeaderName { name, reason } => {
                let mut text = String::from_str("HTTP header `");
                text.append(name.as_str());
                text.append("` is invalid: ");
                text.append(reason.as_str());
                text
            },
            HttpResponseConversionError::InvalidHttpHeaderValue { name, reason } => {
                let mut text = String::from_str("HTTP header `");
                text.append(name.as_str());
                text.append("` has an invalid value: ");
                text.append(reason.as_str());
                text
            },
        }
    }

    /// The fault that the error reports.
    pub open spec fn fault(&self) -> HttpResponseFault {
        match self {
            HttpResponseConversionError::InvalidStatusCode => HttpResponseFault::Status,
            HttpResponseConversionError::InvalidHttpHeaderName { name, reason } => HttpResponseFault::Name {
                name: name@,
                reason: reason@,
            },
            HttpResponseConversionError::InvalidHttpHeaderValue { name, reason } => HttpResponseFault::Value {
                name: name@,
                reason: reason@,
            },
        }
    }
}

/// Reads the response of the management canister as an HTTP response.
///
/// The status must be one that HTTP knows, and every header must have a name
/// and a value that HTTP accepts. The headers come out in their order, each
/// with its name in canonical form; the body is handed on as it is.
pub fn try_map_http_response(response: IcHttpResponse) -> (mapped: Result<
    HttpResponse,
    HttpResponseConversionError,
>)
    ensures
        match mapped {
            Ok(read) => read_response(response) == Ok::<(u16, Seq<Field>), HttpResponseFault>(
                (read.status, fields_of(read.headers@)),
            ) && read.body == response.body,
            Err(error) => read_response(response) == Err::<(u16, Seq<Field>), HttpResponseFault>(
                error.fault(),
            ),
        },
{
    if response.status > 0xffff {
        return Err(HttpResponseConversionError::InvalidStatusCode);
    }
    let status = response.status as u16;
    if !accepts_status_code(status) {
        return Err(HttpResponseConversionError::InvalidStatusCode);
    }
    let mut headers: Vec<HeaderField> = Vec::new();
    let mut i: usize = 0;
    assert(response.headers@.take(0) == Seq::<IcHttpHeader>::empty());
    assert(fields_of(headers@) =~= Seq::<Field>::empty());
    while i < response.headers.len()
        invariant
            response.status <= u16::MAX,
            is_status_code(status),
            status == response.status,
            i <= response.headers@.len(),
            read_fields(response.headers@.take(i as int)) == Ok::<Seq<Field>, HttpResponseFault>(
                fields_of(headers@),
            ),
        decreases response.headers.len() - i,
    {
        let header = &response.headers[i];
        proof {
            let longer = response.headers@.take(i + 1);
            assert(longer.drop_last() == response.headers@.take(i as int));
            assert(longer.last() == *header);
        }
        let name = match parse_header_name(header.name.as_str()) {
            Ok(canonical) => canonical,
            Err(reason) => {
                proof {
                    assert(read_field(*header) is Err);
                    lemma_fault_settles(response.headers@, i + 1);
                }
                return Err(
                    HttpResponseConversionError::InvalidHttpHeaderName { name: header.name.clone(), reason },
                );
            },
        };
        let value = match parse_header_value(header.value.as_str()) {
            Ok(bytes) => bytes,
            Err(reason) => {
                proof {
                    assert(read_field(*header) is Err);
                    lemma_fault_settles(response.headers@, i + 1);
                }
                return Err(
                    HttpResponseConversionError::InvalidHttpHeaderValue { name: header.name.clone(), reason },
                );
            },
        };
        let ghost before = fields_of(headers@);
        headers.push(HeaderField { name, value });
        assert(fields_of(headers@) =~= before.push((name@, value@)));
        i += 1;
    }
    assert(response.headers@.take(response.headers@.len() as int) == response.headers@);
    Ok(Response { status, headers, body: response.body })
}

/// A fault among the first headers is the fault of all of them.
proof fn lemma_fault_settles(headers: Seq<IcHttpHeader>, n: int)
    requires
        0 <= n <= headers.len(),
        read_fields(headers.take(n)) is Err,
    ensures
        read_fields(headers) == read_fields(headers.take(n)),
    decreases headers.len() - n,
{
    if n < headers.len() {
        assert(headers.take(n + 1).drop_last() == headers.take(n));
        lemma_fault_settles(headers, n + 1);
    } else {
        assert(headers.take(n) == headers);
    }
}

} // verus!
