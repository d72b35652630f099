//! Decisions around remote tasks: what a task status means, when to stop
//! waiting, and when a failed request is tried again.
use vstd::prelude::*;

use crate::error::{is_api, is_operation, texts, PdfConvertError, Result};
use crate::models::{status_debug_name, status_failed, status_terminal, ConversionStatus, TaskStatusResponse};
use crate::result::opt_seq;
use crate::sorting::{same_values, sorted_unique, strictly_sorted};
use crate::strings::{has_infix, has_infix_exec, lower, lower_chars, owned, to_chars};

verus! {

/// The message that describes a status: its error message, else the message
/// of its failure, else the status itself.
pub open spec fn status_error_text(s: TaskStatusResponse) -> Seq<char> {
    match s.error_message {
        Some(m) => m@,
        None => match s.failure {
            Some(f) => f.message@,
            None => "Docling task status is "@ + status_debug_name(s.task_status),
        },
    }
}

/// The messages that a status carries: its error message and the message
/// of its failure.
pub open spec fn status_messages(s: TaskStatusResponse) -> Seq<Seq<char>> {
    opt_seq(crate::config::opt_text(s.error_message)) + opt_seq(
        match s.failure {
            Some(f) => Some(f.message@),
            None => None,
        },
    )
}

/// The error of a task that failed or was skipped.
pub open spec fn is_task_failure(e: PdfConvertError, s: TaskStatusResponse) -> bool {
    is_api(
        e,
        None,
        "Task failed - Status: "@ + status_debug_name(s.task_status) + ", Details: "@
            + status_error_text(s),
    )
}

/// The message that describes a status.
pub fn task_status_error(status: &TaskStatusResponse) -> (r: String)
    ensures
        r@ == status_error_text(*status),
{
    match &status.error_message {
        Some(m) => m.clone(),
        None => match &status.failure {
            Some(f) => f.message.clone(),
            None => {
                let mut out = owned("Docling task status is ");
                out.push_str(status.task_status.debug_name());
                out
            },
        },
    }
}

/// The messages that a status carries, in order and each once.
pub fn task_status_errors(status: &TaskStatusResponse) -> (r: Vec<String>)
    ensures
        strictly_sorted(texts(r@)),
        same_values(texts(r@), status_messages(*status)),
{
    let mut errors: Vec<String> = Vec::new();
    if let Some(message) = &status.error_message {
        errors.push(message.clone());
    }
    if let Some(failure) = &status.failure {
        errors.push(failure.message.clone());
    }
    assert(texts(errors@) =~= status_messages(*status));
    sorted_unique(&errors)
}

/// The error of a task that failed or was skipped.
pub fn task_failure_error(status: &TaskStatusResponse) -> (e: PdfConvertError)
    ensures
        is_task_failure(e, *status),
{
    let details = task_status_error(status);
    PdfConvertError::api_task_failed(status.task_status.debug_name(), details.as_str())
}

/// What to do after a status was polled while waiting for a task.
#[derive(Debug)]
pub enum WaitStep {
    /// The task failed or was skipped: stop with this error.
    Failed(PdfConvertError),
    /// The task is done: fetch its result.
    Fetch { status: ConversionStatus, errors: Vec<String> },
    /// The task is still running and the deadline has passed.
    TimedOut,
    /// The task is still running: poll again.
    PollAgain,
}

/// The step after polling `status`: a failed or skipped task is an error; a
/// finished task is fetched with the messages of its status; otherwise the
/// wait ends when the deadline has passed and goes on before.
pub fn wait_step(status: &TaskStatusResponse, deadline_passed: bool) -> (r: WaitStep)
    ensures
        status_terminal(status.task_status) ==> if status_failed(status.task_status) {
            r matches WaitStep::Failed(e) && is_task_failure(e, *status)
        } else {
            r matches WaitStep::Fetch { status: s, errors } && s == status.task_status
                && strictly_sorted(texts(errors@)) && same_values(
                texts(errors@),
                status_messages(*status),
            )
        },
        !status_terminal(status.task_status) ==> if deadline_passed {
            r is TimedOut
        } else {
            r is PollAgain
        },
{
    if status.task_status.is_terminal() {
        match status.task_status {
            ConversionStatus::Failure | ConversionStatus::Skipped => {
                return WaitStep::Failed(task_failure_error(status));
            },
            _ => {},
        }
        return WaitStep::Fetch { status: status.task_status, errors: task_status_errors(status) };
    }
    if deadline_passed {
        WaitStep::TimedOut
    } else {
        WaitStep::PollAgain
    }
}

/// The error when a task did not finish in time; `timeout` is the text of
/// the time that was allowed.
pub fn wait_timeout_error(task_id: &str, timeout: &str) -> (e: PdfConvertError)
    ensures
        is_operation(
            e,
            "waiting for Docling task"@,
            "task "@ + task_id@ + " did not reach a terminal state within "@ + timeout@,
        ),
{
    let mut message = owned("task ");
    message.push_str(task_id);
    message.push_str(" did not reach a terminal state within ");
    message.push_str(timeout);
    PdfConvertError::operation_error("waiting for Docling task", message.as_str())
}

/// Whether a polled task has succeeded: an error when it failed or was
/// skipped, else whether it ended in full or partial success.
pub fn task_status_outcome(status: &TaskStatusResponse) -> (r: Result<bool>)
    ensures
        status_failed(status.task_status) ==> (r matches Err(e) && is_task_failure(e, *status)),
        !status_failed(status.task_status) ==> r == Ok::<bool, PdfConvertError>(
            status.task_status is Success || status.task_status is PartialSuccess,
        ),
{
    match status.task_status {
        ConversionStatus::Failure | ConversionStatus::Skipped => Err(task_failure_error(status)),
        _ => Ok(status.task_status.is_successful()),
    }
}

/// The error when the result of an unfinished task is asked for.
pub open spec fn is_unfinished(e: PdfConvertError, task_id: Seq<char>, s: ConversionStatus) -> bool {
    is_operation(
        e,
        "fetching Docling task result"@,
        "task "@ + task_id + " has not reached a terminal state (status: "@ + status_debug_name(s)
            + ")"@,
    )
}

/// Whether the result of task `task_id` may be fetched after `status` was
/// polled: a failed or skipped task is an error, an unfinished one too;
/// otherwise its status and messages go with the result.
pub fn fetch_step(task_id: &str, status: &TaskStatusResponse) -> (r: Result<
    (ConversionStatus, Vec<String>),
>)
    ensures
        status_failed(status.task_status) ==> (r matches Err(e) && is_task_failure(e, *status)),
        !status_terminal(status.task_status) ==> (r matches Err(e) && is_unfinished(
            e,
            task_id@,
            status.task_status,
        )),
        status_terminal(status.task_status) && !status_failed(status.task_status) ==> (r matches Ok(
            (s, errors),
        ) && s == status.task_status && strictly_sorted(texts(errors@)) && same_values(
            texts(errors@),
            status_messages(*status),
        )),
{
    match wait_step(status, false) {
        WaitStep::Failed(e) => Err(e),
        WaitStep::Fetch { status: s, errors } => Ok((s, errors)),
        _ => {
            let mut message = owned("task ");
            message.push_str(task_id);
            message.push_str(" has not reached a terminal state (status: ");
            message.push_str(status.task_status.debug_name());
            message.push_str(")");
            Err(PdfConvertError::operation_error("fetching Docling task result", message.as_str()))
        },
    }
}

/// How many times a failed request is tried again.
pub const MAX_RETRIES: u32 = 3;

/// The pause before the first retry, in milliseconds.
pub const INITIAL_RETRY_DELAY_MS: u64 = 1000;

/// The longest pause between retries, in milliseconds.
pub const MAX_RETRY_DELAY_MS: u64 = 30000;

/// A message term that marks a transient transport failure.
pub open spec fn transient_term(m: Seq<char>) -> bool {
    ||| has_infix(m, "timeout"@)
    ||| has_infix(m, "connection"@)
    ||| has_infix(m, "network"@)
    ||| has_infix(m, "closed"@)
    ||| has_infix(m, "reset"@)
    ||| has_infix(m, "broken pipe"@)
    ||| has_infix(m, "eof"@)
    ||| has_infix(m, "incomplete"@)
}

/// Whether an error may pass when the request is tried again: an API error
/// with a valid HTTP status (100 to 999) when it is a server error or 429,
/// an API error without one when its message names a transient failure,
/// and every I/O error.
pub open spec fn retriable(e: PdfConvertError) -> bool {
    match e {
        PdfConvertError::ApiError { status_code, message, .. } => match status_code {
            Some(c) if 100 <= c <= 999 => (500 <= c <= 599) || c == 429,
            _ => transient_term(lower(message@)),
        },
        PdfConvertError::IoError { .. } => true,
        _ => false,
    }
}

fn contains_term(hay: &Vec<char>, term: &str) -> (r: bool)
    ensures
        r == has_infix(hay@, term@),
{
    let needle = to_chars(term);
    has_infix_exec(hay, &needle)
}

/// Whether an error may pass when the request is tried again.
pub fn is_retriable_error_type(error: &PdfConvertError) -> (r: bool)
    ensures
        r == retriable(*error),
{
    match error {
        PdfConvertError::ApiError { status_code, message, .. } => {
            if let Some(code) = status_code {
                if 100 <= *code && *code <= 999 {
                    return (500 <= *code && *code <= 599) || *code == 429;
                }
            }
            let m = to_chars(message.as_str());
            let l = lower_chars(&m);
            contains_term(&l, "timeout") || contains_term(&l, "connection") || contains_term(
                &l,
                "network",
            ) || contains_term(&l, "closed") || contains_term(&l, "reset") || contains_term(
                &l,
                "broken pipe",
            ) || contains_term(&l, "eof") || contains_term(&l, "incomplete")
        },
        PdfConvertError::IoError { .. } => true,
        _ => false,
    }
}

/// The pause after `d`: twice as long, at most the longest pause.
pub open spec fn next_delay(d: u64) -> u64 {
    if 2 * d > MAX_RETRY_DELAY_MS {
        MAX_RETRY_DELAY_MS
    } else {
        (2 * d) as u64
    }
}

/// The pause before retry `n` (counted from 0) of a request that keeps
/// failing.
pub open spec fn retry_delay(n: nat) -> u64
    decreases n,
{
    if n == 0 {
        INITIAL_RETRY_DELAY_MS
    } else {
        next_delay(retry_delay((n - 1) as nat))
    }
}

/// The pauses of the first `n` retries, added up.
pub open spec fn total_delay(n: nat) -> int
    decreases n,
{
    if n == 0 {
        0
    } else {
        total_delay((n - 1) as nat) + retry_delay((n - 1) as nat)
    }
}

/// A request that keeps failing with errors that can pass is retried after
/// pauses that start at the initial pause and never exceed the longest
/// pause; it is retried at most `MAX_RETRIES` times, which wait 7 seconds
/// in all.
pub proof fn lemma_retry_schedule(n: nat)
    ensures
        INITIAL_RETRY_DELAY_MS <= retry_delay(n) <= MAX_RETRY_DELAY_MS,
        retry_delay(0) == 1000 && retry_delay(1) == 2000 && retry_delay(2) == 4000,
        total_delay(MAX_RETRIES as nat) == 7000,
    decreases n,
{
    if n > 0 {
        lemma_retry_schedule((n - 1) as nat);
    }
    reveal_with_fuel(retry_delay, 4);
    reveal_with_fuel(total_delay, 4);
}

/// What to do after attempt `attempt` (counted from 0) of a request failed.
#[derive(Debug, Clone, Copy, PartialEq, Eq, Structural)]
pub enum RetryStep {
    /// Stop and report the error.
    GiveUp,
    /// Wait `delay_ms`, try again, and wait `next_delay_ms` after a further
    /// failure.
    Retry { delay_ms: u64, next_delay_ms: u64 },
}

/// The step after attempt `attempt` failed with `error` when the current
/// pause is `delay_ms`: errors that cannot pass and failures of the last
/// attempt are reported; others are tried again after the pause, which then
/// doubles up to the longest pause.
pub fn retry_step(attempt: u32, delay_ms: u64, error: &PdfConvertError) -> (r: RetryStep)
    ensures
        (!retriable(*error) || attempt >= MAX_RETRIES) ==> r is GiveUp,
        (retriable(*error) && attempt < MAX_RETRIES) ==> r == (RetryStep::Retry {
            delay_ms,
            next_delay_ms: next_delay(delay_ms),
        }),
{
    if !is_retriable_error_type(error) || attempt >= MAX_RETRIES {
        return RetryStep::GiveUp;
    }
    let next = if delay_ms > MAX_RETRY_DELAY_MS / 2 {
        MAX_RETRY_DELAY_MS
    } else {
        delay_ms * 2
    };
    RetryStep::Retry { delay_ms, next_delay_ms: next }
}

/// Every server error (status 500 to 599) may pass on a new attempt, and so
/// does 429 Too Many Requests: `retry_step` tries such a request again while
/// attempts remain.
pub proof fn lemma_server_errors_are_retried(e: PdfConvertError)
    requires
        e matches PdfConvertError::ApiError { status_code: Some(c), .. } && ((500 <= c <= 599) || c
            == 429),
    ensures
        retriable(e),
{
}

/// A client error other than 429 (status 400 to 499) is reported at once,
/// whatever its message says.
pub proof fn lemma_client_errors_are_not_retried(e: PdfConvertError)
    requires
        e matches PdfConvertError::ApiError { status_code: Some(c), .. } && 400 <= c <= 499 && c
            != 429,
    ensures
        !retriable(e),
{
}

/// Where an API error carries a valid status, the status alone decides:
/// two errors with the same status are retried alike, whatever their
/// messages.
pub proof fn lemma_status_decides_retry(a: PdfConvertError, b: PdfConvertError)
    requires
        a matches PdfConvertError::ApiError { status_code: Some(c), .. } && 100 <= c <= 999,
        b matches PdfConvertError::ApiError { status_code: Some(d), .. } && d == a->status_code->0,
    ensures
        retriable(a) == retriable(b),
{
}

/// Every I/O error may pass on a new attempt; errors of validation, parsing,
/// the environment and local operations never do.
pub proof fn lemma_error_kinds_and_retry(e: PdfConvertError)
    ensures
        e is IoError ==> retriable(e),
        (e is ValidationError || e is ParseError || e is EnvError || e is OperationError)
            ==> !retriable(e),
{
}

/// Without a valid status, an API error is retried by what its message
/// says, whatever the case of its letters: two messages equal up to ASCII
/// case are retried alike, and a message that names a time-out, a lost
/// connection or a cut stream is retried.
pub proof fn lemma_message_decides_retry(a: PdfConvertError, b: PdfConvertError)
    requires
        a matches PdfConvertError::ApiError { status_code: None, .. },
        b matches PdfConvertError::ApiError { status_code: None, .. },
        lower(a->ApiError_message@) == lower(b->ApiError_message@),
    ensures
        retriable(a) == retriable(b),
        (has_infix(lower(a->ApiError_message@), "timeout"@) || has_infix(lower(a->ApiError_message@), "connection"@)
            || has_infix(lower(a->ApiError_message@), "reset"@) || has_infix(lower(a->ApiError_message@), "eof"@))
            ==> retriable(a),
{
}

} // verus!
