use cloudiful_docling_convert::models::{PublicFailureInfo, TaskProcessingMeta};
use cloudiful_docling_convert::task::{
    fetch_step, is_retriable_error_type, retry_step, task_status_errors, task_status_outcome,
    wait_step, wait_timeout_error, RetryStep, WaitStep, INITIAL_RETRY_DELAY_MS, MAX_RETRIES,
    MAX_RETRY_DELAY_MS,
};
use cloudiful_docling_convert::{ConversionStatus, PdfConvertError, TaskStatusResponse};

fn status(task_status: ConversionStatus, error_message: Option<&str>) -> TaskStatusResponse {
    TaskStatusResponse {
        task_id: "task-1".to_string(),
        task_type: Some("convert".to_string()),
        task_status,
        task_position: None,
        task_meta: Some(TaskProcessingMeta {
            num_docs: 2,
            num_processed: 2,
            num_succeeded: 1,
            num_partially_succeeded: 1,
            num_failed: 0,
        }),
        error_message: error_message.map(str::to_string),
        failure: None,
    }
}

#[test]
fn partial_success_polls_with_wait_and_reads_result_once() {
    let polled = status(ConversionStatus::PartialSuccess, Some("one document had errors"));
    match wait_step(&polled, false) {
        WaitStep::Fetch { status, errors } => {
            assert_eq!(status, ConversionStatus::PartialSuccess);
            assert_eq!(errors, vec!["one document had errors".to_string()]);
        },
        other => panic!("expected a fetch, got {other:?}"),
    }
}

#[test]
fn failure_status_does_not_require_an_unavailable_result() {
    let polled = status(ConversionStatus::Failure, Some("Internal processing error"));
    match wait_step(&polled, false) {
        WaitStep::Failed(error) => {
            assert!(error.display().contains("Internal processing error"));
            assert_eq!(
                error.display(),
                "Task failed - Status: Failure, Details: Internal processing error"
            );
        },
        other => panic!("expected a failure, got {other:?}"),
    }
}

#[test]
fn running_tasks_are_polled_until_the_deadline() {
    let running = status(ConversionStatus::Started, None);
    assert!(matches!(wait_step(&running, false), WaitStep::PollAgain));
    assert!(matches!(wait_step(&running, true), WaitStep::TimedOut));
    assert_eq!(
        wait_timeout_error("task-1", "3600s").display(),
        "waiting for Docling task: task task-1 did not reach a terminal state within 3600s"
    );
    assert!(fetch_step("task-1", &running)
        .unwrap_err()
        .display()
        .contains("has not reached a terminal state (status: Started)"));
}

#[test]
fn status_messages_are_sorted_and_kept_once() {
    let mut polled = status(ConversionStatus::Success, Some("zeta"));
    polled.failure = Some(PublicFailureInfo {
        category: "conversion".to_string(),
        message: "alpha".to_string(),
        retryable: false,
        phase: "convert".to_string(),
        details: None,
    });
    assert_eq!(
        task_status_errors(&polled),
        vec!["alpha".to_string(), "zeta".to_string()]
    );
    let mut same = status(ConversionStatus::Success, Some("same"));
    same.failure = Some(PublicFailureInfo {
        category: "conversion".to_string(),
        message: "same".to_string(),
        retryable: false,
        phase: "convert".to_string(),
        details: None,
    });
    assert_eq!(task_status_errors(&same), vec!["same".to_string()]);
    assert_eq!(task_status_outcome(&same).unwrap(), true);
    assert!(task_status_outcome(&status(ConversionStatus::Skipped, None))
        .unwrap_err()
        .display()
        .contains("Docling task status is Skipped"));
}

#[test]
fn transient_errors_are_retried_with_doubling_pauses() {
    let transient = PdfConvertError::api_error(Some(503), "unavailable");
    let mut delay = INITIAL_RETRY_DELAY_MS;
    let mut pauses = Vec::new();
    let mut attempt = 0;
    loop {
        match retry_step(attempt, delay, &transient) {
            RetryStep::Retry {
                delay_ms,
                next_delay_ms,
            } => {
                pauses.push(delay_ms);
                delay = next_delay_ms;
                attempt += 1;
            },
            RetryStep::GiveUp => break,
        }
    }
    assert_eq!(pauses, vec![1000, 2000, 4000]);
    assert_eq!(attempt, MAX_RETRIES);
    assert_eq!(
        retry_step(0, 20_000, &transient),
        RetryStep::Retry {
            delay_ms: 20_000,
            next_delay_ms: MAX_RETRY_DELAY_MS
        }
    );
}

#[test]
fn which_errors_are_transient() {
    assert!(is_retriable_error_type(&PdfConvertError::api_error(Some(500), "x")));
    assert!(is_retriable_error_type(&PdfConvertError::api_error(Some(429), "x")));
    assert!(!is_retriable_error_type(&PdfConvertError::api_error(Some(404), "timeout")));
    assert!(is_retriable_error_type(&PdfConvertError::api_error(None, "Connection Reset by peer")));
    assert!(!is_retriable_error_type(&PdfConvertError::api_error(None, "bad request")));
    assert!(!is_retriable_error_type(&PdfConvertError::validation_error("a", "b")));
    let permanent = PdfConvertError::api_error(Some(400), "bad");
    assert_eq!(retry_step(0, 1000, &permanent), RetryStep::GiveUp);
}
