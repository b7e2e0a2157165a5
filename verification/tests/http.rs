use canhttp::client::{
    IcHttpHeader, IcHttpMethod, IcHttpRequest, IcHttpResponse, TransformContext,
};
use canhttp::http::{
    try_map_http_response, HeaderField, HttpRequest, HttpRequestConversionError,
    HttpRequestConverter, HttpResponseConversionError, MaxResponseBytesRequestExtension, Request,
    Response, TransformContextRequestExtension,
};

fn request(method: &str, headers: Vec<HeaderField>) -> HttpRequest {
    Request {
        method: method.to_string(),
        uri: "https://httpbin.org/anything".to_string(),
        headers,
        body: "Hello, World!".as_bytes().to_vec(),
        max_response_bytes: None,
        transform_context: None,
    }
}

fn field(name: &str, value: &[u8]) -> HeaderField {
    HeaderField {
        name: name.to_string(),
        value: value.to_vec(),
    }
}

fn header(name: &str, value: &str) -> IcHttpHeader {
    IcHttpHeader {
        name: name.to_string(),
        value: value.to_string(),
    }
}

fn context() -> TransformContext {
    TransformContext {
        principal: vec![0x9d, 0xf7, 0x02],
        method: "cleanup_response".to_string(),
        context: vec![1, 2, 3],
    }
}

#[test]
fn should_convert_http_request() {
    let request = request("POST", vec![field("x-id", b"42"), field("accept", b"*/*\t;q=1")])
        .max_response_bytes(1_000)
        .transform_context(context());

    assert_eq!(
        HttpRequestConverter.try_convert(request),
        Ok(IcHttpRequest {
            url: "https://httpbin.org/anything".to_string(),
            max_response_bytes: Some(1_000),
            method: IcHttpMethod::POST,
            headers: vec![header("x-id", "42"), header("accept", "*/*\t;q=1")],
            body: Some("Hello, World!".as_bytes().to_vec()),
            transform: Some(context()),
        })
    );
}

#[test]
fn should_convert_supported_methods_only() {
    for (name, method) in [
        ("GET", IcHttpMethod::GET),
        ("POST", IcHttpMethod::POST),
        ("HEAD", IcHttpMethod::HEAD),
    ] {
        let converted = HttpRequestConverter
            .try_convert(request(name, vec![]))
            .unwrap();
        assert_eq!(converted.method, method);
        assert_eq!(converted.max_response_bytes, None);
        assert_eq!(converted.transform, None);
    }
    for name in ["PUT", "DELETE", "OPTIONS", "get", "GETS", ""] {
        let error = HttpRequestConverter
            .try_convert(request(name, vec![field("x-id", b"\xff")]))
            .unwrap_err();
        assert_eq!(
            error,
            HttpRequestConversionError::UnsupportedHttpMethod(name.to_string())
        );
        assert_eq!(
            error.to_string(),
            format!("HTTP method `{name}` is not supported")
        );
    }
}

#[test]
fn should_refuse_header_value_that_is_no_text() {
    let error = HttpRequestConverter
        .try_convert(request(
            "GET",
            vec![
                field("x-id", b"42"),
                field("x-opaque", b"hello\xfa"),
                field("x-other", b"\x80"),
            ],
        ))
        .unwrap_err();
    assert_eq!(
        error,
        HttpRequestConversionError::InvalidHttpHeaderValue {
            name: "x-opaque".to_string(),
            reason: "failed to convert header to a str".to_string(),
        }
    );
    assert_eq!(
        error.to_string(),
        "HTTP header `x-opaque` has an invalid value: failed to convert header to a str"
    );
}

#[test]
fn should_carry_extensions_on_http_request() {
    let mut request = request("GET", vec![]);
    assert_eq!(request.get_max_response_bytes(), None);
    assert_eq!(request.get_transform_context(), None);
    request.set_max_response_bytes(42);
    request.set_transform_context(context());
    assert_eq!(request.get_max_response_bytes(), Some(42));
    assert_eq!(request.get_transform_context(), Some(&context()));
    assert_eq!(request.max_response_bytes(7).get_max_response_bytes(), Some(7));
}

fn response(status: u128, headers: Vec<IcHttpHeader>) -> IcHttpResponse {
    IcHttpResponse {
        status,
        headers,
        body: b"Hello, World!".to_vec(),
    }
}

#[test]
fn should_convert_http_response() {
    let converted = try_map_http_response(response(
        200,
        vec![
            header("Content-Type", "application/json"),
            header("X-Id", "42"),
            header("content-type", "text/plain"),
            header("x-bytes", "é"),
        ],
    ));
    assert_eq!(
        converted,
        Ok(Response {
            status: 200,
            headers: vec![
                field("content-type", b"application/json"),
                field("x-id", b"42"),
                field("content-type", b"text/plain"),
                field("x-bytes", "é".as_bytes()),
            ],
            body: b"Hello, World!".to_vec(),
        })
    );
}

#[test]
fn should_refuse_invalid_status_code() {
    for status in [0, 1, 99, 1000, 65535, 65536, 65736, u128::MAX] {
        let converted = try_map_http_response(response(status, vec![header("bad name", "\n")]));
        assert_eq!(
            converted,
            Err(HttpResponseConversionError::InvalidStatusCode)
        );
    }
    for status in [100, 200, 404, 999] {
        let converted = try_map_http_response(response(status, vec![])).unwrap();
        assert_eq!(converted.status as u128, status);
        assert_eq!(converted.headers, vec![]);
    }
    assert_eq!(
        HttpResponseConversionError::InvalidStatusCode.to_string(),
        "Status code is invalid"
    );
}

#[test]
fn should_refuse_invalid_header_name() {
    let error = try_map_http_response(response(
        200,
        vec![
            header("X-Id", "42"),
            header("bad name", "\n"),
            header("", "fine"),
        ],
    ))
    .unwrap_err();
    assert_eq!(
        error,
        HttpResponseConversionError::InvalidHttpHeaderName {
            name: "bad name".to_string(),
            reason: "invalid HTTP header name".to_string(),
        }
    );
    assert_eq!(
        error.to_string(),
        "HTTP header `bad name` is invalid: invalid HTTP header name"
    );
}

#[test]
fn should_refuse_invalid_header_value() {
    let error = try_map_http_response(response(
        200,
        vec![header("X-Id", "42"), header("X-Break", "line\nbreak")],
    ))
    .unwrap_err();
    assert_eq!(
        error,
        HttpResponseConversionError::InvalidHttpHeaderValue {
            name: "X-Break".to_string(),
            reason: "failed to parse header value".to_string(),
        }
    );
    assert_eq!(
        error.to_string(),
        "HTTP header `X-Break` has an invalid value: failed to parse header value"
    );
}
