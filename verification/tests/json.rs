use canhttp::http::json::{
    add_content_type_header_if_missing, ConsistentJsonRpcIdFilter, ConsistentResponseIdFilterError,
    ConstantSizeId, CreateJsonRpcIdFilter, HttpJsonRpcRequest, HttpJsonRpcResponse, Id,
    JsonRequestConversionError, JsonRequestConverter, JsonResponseConversionError,
    JsonResponseConverter, JsonRpcError, JsonRpcRequest, JsonRpcResponse, Version,
};
use canhttp::http::{HeaderField, HttpRequest, Request, Response};

#[test]
fn should_add_padding_to_the_left() {
    let one = ConstantSizeId::from(1_u8);
    assert_eq!(one.to_string(), "00000000000000000001")
}

#[test]
fn should_have_only_necessary_padding() {
    let zero = ConstantSizeId::zero().to_string();
    let max = ConstantSizeId::max().to_string();
    assert_eq!(zero.len(), max.len());

    let u64_max = u64::MAX.to_string();
    assert_eq!(u64_max, max);
}

#[test]
fn should_map_json_rpc_response() {
    let response = JsonRpcResponse::from_ok(Id::Number(0), 0);

    assert_eq!(
        response.map(|value| value + 1),
        JsonRpcResponse::from_ok(Id::Number(0), 1)
    );
}

#[test]
fn should_leave_error_when_mapping() {
    let response: JsonRpcResponse<u64> =
        JsonRpcResponse::from_error(Id::Number(7), JsonRpcError::new(123, "Error message"));
    assert_eq!(
        response.map(|value| value + 1),
        JsonRpcResponse::from_error(Id::Number(7), JsonRpcError::new(123, "Error message"))
    );
}

#[test]
fn should_have_constant_size_for_every_id() {
    for id in [0_u64, 9, 10, 42, 99_999, u64::MAX / 2, u64::MAX - 1, u64::MAX] {
        let text = ConstantSizeId::from(id).to_string();
        assert_eq!(text.len(), 20);
        assert_eq!(text, format!("{:0>20}", id));
        assert_eq!(Id::from(ConstantSizeId::from(id)), Id::String(text));
    }
    assert_eq!(ConstantSizeId::zero(), ConstantSizeId::from(0_u8));
    assert_eq!(ConstantSizeId::max(), ConstantSizeId::from(u64::MAX));
}

#[test]
fn should_count_ids_up_and_wrap_around() {
    let mut id = ConstantSizeId::from(41_u8);
    assert_eq!(id.get_and_increment(), ConstantSizeId::from(41_u8));
    assert_eq!(id.get_and_increment(), ConstantSizeId::from(42_u8));
    assert_eq!(id, ConstantSizeId::from(43_u8));

    let mut last = ConstantSizeId::max();
    assert_eq!(last.get_and_increment(), ConstantSizeId::max());
    assert_eq!(last, ConstantSizeId::zero());
}

#[test]
fn should_write_ids_as_text() {
    assert_eq!(Id::from(42_u64).to_string(), "42");
    assert_eq!(Id::from(0_u8).to_string(), "0");
    assert_eq!(Id::Number(u64::MAX).to_string(), "18446744073709551615");
    assert_eq!(Id::String("forty two".into()).to_string(), "forty two");
    assert_eq!(Id::Null.to_string(), "null");
    assert_eq!(Id::zero(), Id::Number(0));
}

#[test]
fn should_compare_ids_by_what_they_hold() {
    assert_eq!(Id::from(1_u8), Id::Number(1));
    assert_ne!(Id::Number(1), Id::String("1".to_string()));
    assert_ne!(Id::Number(0), Id::Null);
    assert_eq!(Id::String("a".to_string()), Id::String("a".to_string()).clone());
    assert_ne!(Id::String("a".to_string()), Id::String("b".to_string()));
    assert_eq!(Id::Null, Id::Null);
    assert!(Id::Null.is_null());
    assert!(!Id::Number(0).is_null());
    assert!(!Id::String("null".to_string()).is_null());
}

#[test]
fn should_know_only_version_two() {
    assert_eq!(Version::V2.as_str(), "2.0");
    assert_eq!(Version::parse("2.0"), Some(Version::V2));
    for unknown in ["1.0", "3.0", "unexpected", "", "2.00"] {
        assert_eq!(Version::parse(unknown), None);
    }
}

#[test]
fn should_build_request_with_id() {
    let request = JsonRpcRequest::new("subtract", [43, 23]).with_id(Id::from(1_u8));
    assert_eq!(request.method(), "subtract");
    assert_eq!(request.params(), Some(&[43, 23]));
    assert_eq!(request.id(), &Id::Number(1));

    let mut request = JsonRpcRequest::new("foo", "bar");
    assert_eq!(request.id(), &Id::Number(0));
    request.set_id(42);
    assert_eq!(request.id(), &Id::Number(42));
    assert_eq!(request.method(), "foo");
}

#[test]
fn should_split_response_into_parts() {
    let ok = JsonRpcResponse::from_ok(Id::zero(), 366632694_u64);
    assert_eq!(ok.id(), &Id::Number(0));
    assert_eq!(ok.as_result(), Ok(&366632694));
    assert_eq!(ok.as_parts(), (&Id::Number(0), Ok(&366632694)));
    assert_eq!(ok.clone().into_result(), Ok(366632694));
    let (id, result) = ok.clone().into_parts();
    assert_eq!(id, Id::zero());
    assert_eq!(result, Ok(366632694));
    assert_eq!(JsonRpcResponse::from_parts(id, result), ok);

    let error = JsonRpcError::new(123, "Error message");
    let failed: JsonRpcResponse<u64> = JsonRpcResponse::from_error(Id::zero(), error.clone());
    assert_eq!(failed.as_result(), Err(&error));
    let (id, result) = failed.clone().into_parts();
    assert_eq!(id, Id::zero());
    assert_eq!(result, Err(JsonRpcError::new(123, "Error message")));
    assert_eq!(JsonRpcResponse::from_parts(id, result), failed);
}

#[test]
fn should_change_result_in_place() {
    let mut response = JsonRpcResponse::from_ok(Id::Number(3), 10_u64);
    if let Ok(value) = response.as_result_mut() {
        *value += 1;
    }
    assert_eq!(response, JsonRpcResponse::from_ok(Id::Number(3), 11));

    let mut failed: JsonRpcResponse<u64> =
        JsonRpcResponse::from_error(Id::Number(3), JsonRpcError::new(1, "first"));
    if let Err(error) = failed.as_result_mut() {
        error.code = -32600;
    }
    assert_eq!(
        failed,
        JsonRpcResponse::from_error(Id::Number(3), JsonRpcError::new(-32600, "first"))
    );
}

#[test]
fn should_tell_parse_errors_and_invalid_requests() {
    let error = JsonRpcError::new(123, "Error message");
    assert_eq!(error.code, 123);
    assert_eq!(error.message, "Error message");
    assert_eq!(error.data, None);
    assert!(!error.is_parse_error());
    assert!(!error.is_invalid_request());
    assert!(JsonRpcError::new(-32700, "Parse error").is_parse_error());
    assert!(!JsonRpcError::new(-32700, "Parse error").is_invalid_request());
    assert!(JsonRpcError::new(-32600, "Invalid request").is_invalid_request());
    assert!(!JsonRpcError::new(-32600, "Invalid request").is_parse_error());
}

fn respond(body: JsonRpcResponse<u64>) -> HttpJsonRpcResponse<u64> {
    Response {
        status: 200,
        headers: vec![],
        body,
    }
}

fn check_filter(request_id: Id, response: JsonRpcResponse<u64>, expected_error: Option<&str>) {
    let mut filter = ConsistentJsonRpcIdFilter::new(request_id.clone());
    match filter.filter(respond(response.clone())) {
        Ok(passed) => {
            assert_eq!(expected_error, None);
            assert_eq!(passed, respond(response));
        }
        Err(error) => {
            let expected_error = expected_error.unwrap();
            assert!(
                error.to_string().contains(expected_error),
                "Expected error: {expected_error}, but got {}",
                error.to_string()
            );
            assert_eq!(
                error,
                ConsistentResponseIdFilterError::InconsistentId {
                    status: 200,
                    request_id,
                    response_id: response.id().clone(),
                }
            );
        }
    }
}

#[test]
fn should_check_json_rpc_id_is_consistent() {
    check_filter(
        Id::from(42_u64),
        JsonRpcResponse::from_ok(Id::from(42_u64), 1),
        None,
    );
    check_filter(
        Id::from(42_u64),
        JsonRpcResponse::from_ok(Id::from(43_u64), 1),
        Some("expected response ID"),
    );
    check_filter(
        Id::from(42_u64),
        JsonRpcResponse::from_error(
            Id::Null,
            JsonRpcError {
                code: -32700,
                message: "Parse error".to_string(),
                data: None,
            },
        ),
        None,
    );
    check_filter(
        Id::from(42_u64),
        JsonRpcResponse::from_error(
            Id::Null,
            JsonRpcError {
                code: -32600,
                message: "Invalid request".to_string(),
                data: None,
            },
        ),
        None,
    );
}

#[test]
fn should_refuse_null_id_without_parse_error() {
    check_filter(
        Id::from(42_u64),
        JsonRpcResponse::from_ok(Id::Null, 1),
        Some("Unexpected identifier: expected response ID to be 42, but got null"),
    );
    check_filter(
        Id::from(42_u64),
        JsonRpcResponse::from_error(Id::Null, JsonRpcError::new(-32601, "Method not found")),
        Some("but got null"),
    );
    check_filter(
        Id::String("42".to_string()),
        JsonRpcResponse::from_ok(Id::Number(42), 1),
        Some("expected response ID to be 42, but got 42"),
    );
    check_filter(
        Id::from(ConstantSizeId::from(7_u8)),
        JsonRpcResponse::from_ok(Id::String("00000000000000000007".to_string()), 1),
        None,
    );
}

#[test]
fn should_create_filter_for_the_id_of_the_request() {
    let request: HttpJsonRpcRequest<u64> = Request {
        method: "POST".to_string(),
        uri: "https://internetcomputer.org/".to_string(),
        headers: vec![],
        body: JsonRpcRequest::new("foo", 1).with_id(Id::from(9_u8)),
        max_response_bytes: None,
        transform_context: None,
    };
    let maker: CreateJsonRpcIdFilter<u64, u64> = CreateJsonRpcIdFilter::new();
    let mut filter = maker.clone().create_filter(&request);
    assert!(filter
        .filter(respond(JsonRpcResponse::from_ok(Id::Number(9), 1)))
        .is_ok());
    assert!(filter
        .filter(respond(JsonRpcResponse::from_ok(Id::Number(10), 1)))
        .is_err());
    let _default: CreateJsonRpcIdFilter<u64, u64> = Default::default();
}

fn post(headers: Vec<HeaderField>) -> HttpRequest {
    Request {
        method: "POST".to_string(),
        uri: "https://internetcomputer.org/".to_string(),
        headers,
        body: br#"{"foo":"bar"}"#.to_vec(),
        max_response_bytes: None,
        transform_context: None,
    }
}

fn field(name: &str, value: &str) -> HeaderField {
    HeaderField {
        name: name.to_string(),
        value: value.as_bytes().to_vec(),
    }
}

#[test]
fn should_add_content_type_header_if_missing() {
    for (request_content_type, expected_content_type) in [
        (None, "application/json"),
        (Some("wrong-value"), "wrong-value"), //do not overwrite explicitly set header
        (Some("application/json"), "application/json"),
    ] {
        let mut headers = vec![];
        if let Some(request_content_type) = request_content_type {
            headers.push(field("content-type", request_content_type));
        }
        headers.push(field("other-header", "should-remain"));
        let request = post(headers);

        let converted_request = add_content_type_header_if_missing(request.clone());

        assert_eq!(request.method, converted_request.method);
        assert_eq!(request.uri, converted_request.uri);
        assert_eq!(request.body, converted_request.body);

        // Headers should be identical, excepted for content-type
        let mut request_headers = request.headers;
        request_headers.retain(|header| header.name != "content-type");
        let mut converted_headers = converted_request.headers;
        let content_type: Vec<_> = converted_headers
            .iter()
            .filter(|header| header.name == "content-type")
            .cloned()
            .collect();
        assert_eq!(content_type, vec![field("content-type", expected_content_type)]);
        converted_headers.retain(|header| header.name != "content-type");
        assert_eq!(request_headers, converted_headers);
    }
}

#[test]
fn should_put_the_added_content_type_last() {
    let completed = add_content_type_header_if_missing(post(vec![field("x-id", "42")]));
    assert_eq!(
        completed.headers,
        vec![field("x-id", "42"), field("content-type", "application/json")]
    );
}

#[test]
fn should_report_body_that_is_no_json() {
    let error = JsonResponseConverter::<u64>::invalid_json_response(
        503,
        &b"Service \xffunavailable".to_vec(),
        "expected value at line 1 column 1".to_string(),
    );
    assert_eq!(
        error,
        JsonResponseConversionError::InvalidJsonResponse {
            status: 503,
            body: "Service \u{fffd}unavailable".to_string(),
            parsing_error: "expected value at line 1 column 1".to_string(),
        }
    );
    let _converter: JsonResponseConverter<u64> = JsonResponseConverter::new().clone();
    let _default: JsonResponseConverter<u64> = Default::default();
}

#[test]
fn should_report_body_that_cannot_be_written() {
    let error = JsonRequestConversionError::InvalidJson("key must be a string".to_string());
    assert_eq!(error.to_string(), "Invalid JSON body: key must be a string");
    let _converter: JsonRequestConverter<u64> = JsonRequestConverter::new().clone();
    let _default: JsonRequestConverter<u64> = Default::default();
}
