use cloudiful_docling_convert::error::{ApiErrorSource, ErrorCause};
use cloudiful_docling_convert::PdfConvertError;

#[test]
fn api_error_status_code_accessor_matches_display_for_auth_and_server_errors() {
    for status in [401u16, 403, 404, 429, 500, 502, 503] {
        let message = format!("upstream failed with test status {status}");
        let error = PdfConvertError::api_error(Some(status), &message);
        assert_eq!(
            error.status_code(),
            Some(status),
            "accessor must return structured status {status}"
        );
        assert_eq!(error.api_message(), Some(message.as_str()));
        assert!(error.reqwest_source().is_none());
        let display = error.display();
        assert!(
            display.contains(&format!("HTTP {status}")),
            "Display must expose HTTP {status}: {display}"
        );
        assert!(
            display.contains(&message),
            "Display must keep message: {display}"
        );
    }
}

#[test]
fn uuid_containing_401_has_no_status_code_and_no_http_prefix() {
    let uuid_message =
        "failed to poll docling task 401de82e-e717-4f6a-9c2a-9b1a2c3d4e5f: dns error";
    let error = PdfConvertError::api_error(None, uuid_message);
    assert_eq!(error.status_code(), None);
    assert_eq!(error.api_message(), Some(uuid_message));
    let display = error.display();
    assert_eq!(display, uuid_message);
    assert!(
        !display.contains("HTTP 401") && !display.contains("HTTP 403"),
        "UUID Display must not fabricate an HTTP status: {display}"
    );

    let port_message = "http://192.168.67.31:5001/v1/status/poll unreachable";
    let port_error = PdfConvertError::api_error(None, port_message);
    assert_eq!(port_error.status_code(), None);
    assert!(!port_error.display().contains("HTTP 5"));

    let operation = PdfConvertError::operation_error("poll 401de82e task", "dns error for task");
    assert_eq!(operation.status_code(), None);
    assert_eq!(operation.api_message(), None);
    assert!(operation.reqwest_source().is_none());
    assert!(!operation.display().contains("HTTP 401"));
}

#[test]
fn transport_errors_keep_their_status_and_causes() {
    let error = PdfConvertError::from_transport(ApiErrorSource {
        status: Some(503),
        text: "HTTP status server error (503 Service Unavailable)".to_string(),
        causes: vec!["connection reset".to_string()],
    });
    assert_eq!(error.status_code(), Some(503));
    assert!(error.reqwest_source().is_some());
    let display = error.display();
    assert!(display.contains("HTTP 503"), "{display}");
    assert!(display.contains(" caused by: connection reset"), "{display}");
}

#[test]
fn every_variant_displays_its_parts() {
    let io = PdfConvertError::io_error(
        "reading input file: a.pdf",
        ErrorCause {
            text: "No such file or directory".to_string(),
            causes: vec![],
        },
    );
    assert_eq!(
        io.display(),
        "IO error while reading input file: a.pdf: No such file or directory"
    );
    assert_eq!(
        PdfConvertError::parse_error("task status response", "bad json").display(),
        "Failed to parse task status response: bad json"
    );
    assert_eq!(
        PdfConvertError::env_error("OPENAI_API_KEY", "not set").display(),
        "Environment variable error for 'OPENAI_API_KEY': not set"
    );
    assert_eq!(
        PdfConvertError::operation_error("writing output", "exists").display(),
        "writing output: exists"
    );
    assert_eq!(
        PdfConvertError::api_task_failed("Failure", "boom").display(),
        "Task failed - Status: Failure, Details: boom"
    );
}
