use canhttp::client::{
    convert_reject_code, IcHttpRequest, IcHttpResponse, RejectCode, RejectionCode, TransformContext,
};
use canhttp::text::contains;
use canhttp::{
    Client, HttpsOutcallError, IcError, IcHttpRequestWithCycles, MaxResponseBytesRequestExtension,
    TransformContextRequestExtension,
};

fn error(code: RejectCode, message: &str) -> IcError {
    IcError {
        code,
        message: message.to_string(),
    }
}

#[test]
fn should_tell_when_response_is_too_large() {
    assert!(error(
        RejectCode::SysFatal,
        "Http body exceeds size limit of 2000000 bytes."
    )
    .is_response_too_large());
    assert!(error(RejectCode::SysFatal, "Header exceeds length limit").is_response_too_large());
    assert!(error(RejectCode::SysFatal, "size limit").is_response_too_large());
    assert!(!error(RejectCode::SysFatal, "size  limit").is_response_too_large());
    assert!(!error(RejectCode::SysFatal, "Size Limit").is_response_too_large());
    assert!(!error(RejectCode::SysFatal, "").is_response_too_large());
    assert!(!error(RejectCode::SysFatal, "Connection refused").is_response_too_large());
    for code in [
        RejectCode::SysTransient,
        RejectCode::DestinationInvalid,
        RejectCode::CanisterReject,
        RejectCode::CanisterError,
        RejectCode::SysUnknown,
    ] {
        assert!(!error(code, "Http body exceeds size limit").is_response_too_large());
    }
}

#[test]
fn should_find_phrase_in_text() {
    assert!(contains("", ""));
    assert!(contains("abc", ""));
    assert!(contains("abc", "abc"));
    assert!(contains("abc", "bc"));
    assert!(contains("aab", "ab"));
    assert!(contains("héllo wörld", "o w"));
    assert!(contains("héllo wörld", "ö"));
    assert!(!contains("abc", "abcd"));
    assert!(!contains("abc", "ac"));
    assert!(!contains("", "a"));
    assert!(!contains("héllo", "e"));
}

#[test]
fn should_write_error_as_text() {
    assert_eq!(
        error(RejectCode::SysTransient, "timeout").to_string(),
        "Error from ICP: (code SysTransient, message timeout)"
    );
}

#[test]
fn should_convert_reject_code() {
    for (reported, converted) in [
        (RejectionCode::SysFatal, RejectCode::SysFatal),
        (RejectionCode::SysTransient, RejectCode::SysTransient),
        (RejectionCode::DestinationInvalid, RejectCode::DestinationInvalid),
        (RejectionCode::CanisterReject, RejectCode::CanisterReject),
        (RejectionCode::CanisterError, RejectCode::CanisterError),
        (RejectionCode::Unknown, RejectCode::SysFatal),
    ] {
        assert_eq!(convert_reject_code(reported), converted);
    }
}

#[test]
fn should_read_outcome_of_outcall() {
    let response = IcHttpResponse {
        status: 200,
        headers: vec![],
        body: vec![1, 2, 3],
    };
    assert_eq!(Client::outcome(Ok(response.clone())), Ok(response));
    assert_eq!(
        Client::outcome::<IcHttpResponse>(Err((RejectionCode::Unknown, "no route".to_string()))),
        Err(error(RejectCode::SysFatal, "no route"))
    );
    assert_eq!(
        Client::outcome::<u8>(Err((RejectionCode::SysTransient, "busy".to_string()))),
        Err(error(RejectCode::SysTransient, "busy"))
    );
}

fn context() -> TransformContext {
    TransformContext {
        principal: vec![0x9d, 0xf7, 0x02],
        method: "cleanup_response".to_string(),
        context: vec![1, 2, 3],
    }
}

#[test]
fn should_set_max_response_bytes() {
    let mut request = IcHttpRequest::default();
    assert_eq!(request.get_max_response_bytes(), None);
    request.set_max_response_bytes(42);
    assert_eq!(request.get_max_response_bytes(), Some(42));
    assert_eq!(
        request,
        IcHttpRequest {
            max_response_bytes: Some(42),
            ..Default::default()
        }
    );

    let with_cycles = IcHttpRequestWithCycles::default().max_response_bytes(1_000);
    assert_eq!(with_cycles.get_max_response_bytes(), Some(1_000));
    assert_eq!(with_cycles.cycles, 0);
    assert_eq!(with_cycles.request.max_response_bytes, Some(1_000));
}

#[test]
fn should_set_transform_context() {
    let request = IcHttpRequest::default().transform_context(context());
    assert_eq!(request.get_transform_context(), Some(&context()));
    assert_eq!(request.transform, Some(context()));

    let mut with_cycles = IcHttpRequestWithCycles {
        request: IcHttpRequest::default(),
        cycles: 7,
    };
    assert_eq!(with_cycles.get_transform_context(), None);
    with_cycles.set_transform_context(context());
    assert_eq!(with_cycles.get_transform_context(), Some(&context()));
    assert_eq!(with_cycles.cycles, 7);
}
