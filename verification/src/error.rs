//! The library's error type and its rendering as text.
use vstd::prelude::*;

use crate::strings::{dec, dec_string, owned, to_chars};

verus! {

/// What is known of an operating-system error that caused a failure: its
/// message and the messages of the errors that caused it, outermost first.
#[derive(Debug)]
pub struct ErrorCause {
    pub text: String,
    pub causes: Vec<String>,
}

impl Clone for ErrorCause {
    fn clone(&self) -> (r: Self)
        ensures
            r.text@ == self.text@,
            r.causes@ == self.causes@,
    {
        let causes = self.causes.clone();
        assert(causes@ =~= self.causes@);
        ErrorCause { text: self.text.clone(), causes }
    }
}

/// What is known of a transport error of the HTTP client: the HTTP status it
/// carries, if any, its message and the messages of its causes.
#[derive(Debug, Clone)]
pub struct ApiErrorSource {
    pub status: Option<u16>,
    pub text: String,
    pub causes: Vec<String>,
}

/// Every failure of the library.
#[derive(Debug, Clone)]
pub enum PdfConvertError {
    IoError { context: String, source: ErrorCause },
    ApiError { status_code: Option<u16>, message: String, source: Option<ApiErrorSource> },
    ParseError { target: String, message: String },
    ValidationError { parameter: String, reason: String },
    EnvError { var_name: String, message: String },
    OperationError { context: String, message: String },
}

pub type Result<T> = core::result::Result<T, PdfConvertError>;

/// The views of a list of messages.
pub open spec fn texts(v: Seq<String>) -> Seq<Seq<char>> {
    v.map_values(|s: String| s@)
}

/// `" caused by: c"` for each cause `c`, in order.
pub open spec fn cause_suffix(causes: Seq<Seq<char>>) -> Seq<char>
    decreases causes.len(),
{
    if causes.len() == 0 {
        Seq::empty()
    } else {
        cause_suffix(causes.drop_last()) + " caused by: "@ + causes.last()
    }
}

/// The text of an HTTP status line prefix: `"HTTP <code>: "`.
pub open spec fn http_prefix(code: u16) -> Seq<char> {
    "HTTP "@ + dec(code as nat) + ": "@
}

/// The human-readable text of an error.
pub open spec fn error_text(e: PdfConvertError) -> Seq<char> {
    match e {
        PdfConvertError::IoError { context, source } => "IO error while "@ + context@ + ": "@
            + source.text@ + cause_suffix(texts(source.causes@)),
        PdfConvertError::ApiError { status_code, message, source } => match source {
            Some(src) => {
                let effective = match status_code {
                    Some(c) => Some(c),
                    None => src.status,
                };
                let head = match effective {
                    Some(c) => http_prefix(c) + src.text@,
                    None => src.text@,
                };
                let tail = if message@ != src.text@ && message@.len() > 0 {
                    " ("@ + message@ + ")"@
                } else {
                    Seq::empty()
                };
                head + cause_suffix(texts(src.causes@)) + tail
            },
            None => match status_code {
                Some(c) => http_prefix(c) + message@,
                None => message@,
            },
        },
        PdfConvertError::ParseError { target, message } => "Failed to parse "@ + target@ + ": "@
            + message@,
        PdfConvertError::ValidationError { parameter, reason } => "Validation error for '"@
            + parameter@ + "': "@ + reason@,
        PdfConvertError::EnvError { var_name, message } => "Environment variable error for '"@
            + var_name@ + "': "@ + message@,
        PdfConvertError::OperationError { context, message } => context@ + ": "@ + message@,
    }
}

/// The structured HTTP status of an error.
pub open spec fn error_status(e: PdfConvertError) -> Option<u16> {
    match e {
        PdfConvertError::ApiError { status_code, source, .. } => match status_code {
            Some(c) => Some(c),
            None => match source {
                Some(src) => src.status,
                None => None,
            },
        },
        _ => None,
    }
}

/// An error is a validation error for `parameter` with `reason`.
pub open spec fn is_validation(e: PdfConvertError, parameter: Seq<char>, reason: Seq<char>) -> bool {
    e matches PdfConvertError::ValidationError { parameter: p, reason: r } && p@ == parameter
        && r@ == reason
}

/// An error is an operation error with `context` and `message`.
pub open spec fn is_operation(e: PdfConvertError, context: Seq<char>, message: Seq<char>) -> bool {
    e matches PdfConvertError::OperationError { context: c, message: m } && c@ == context
        && m@ == message
}

/// An error is a parse error for `target` with `message`.
pub open spec fn is_parse(e: PdfConvertError, target: Seq<char>, message: Seq<char>) -> bool {
    e matches PdfConvertError::ParseError { target: t, message: m } && t@ == target && m@
        == message
}

/// An error is an API error without source, with `status` and `message`.
pub open spec fn is_api(e: PdfConvertError, status: Option<u16>, message: Seq<char>) -> bool {
    e matches PdfConvertError::ApiError { status_code: s, message: m, source: None } && s
        == status && m@ == message
}

fn push_causes(out: &mut String, causes: &Vec<String>)
    ensures
        final(out)@ == old(out)@ + cause_suffix(texts(causes@)),
{
    let ghost start = out@;
    let mut i: usize = 0;
    while i < causes.len()
        invariant
            i <= causes.len(),
            out@ == start + cause_suffix(texts(causes@.take(i as int))),
        decreases causes.len() - i,
    {
        out.push_str(" caused by: ");
        out.push_str(causes[i].as_str());
        i = i + 1;
        proof {
            let t = texts(causes@.take(i as int));
            assert(t.drop_last() =~= texts(causes@.take(i - 1)));
            assert(t.last() == causes@[i - 1]@);
            assert(out@ =~= start + cause_suffix(t));
        }
    }
    assert(causes@.take(causes.len() as int) =~= causes@);
}

fn push_http_prefix(out: &mut String, code: u16)
    ensures
        final(out)@ == old(out)@ + http_prefix(code),
{
    out.push_str("HTTP ");
    let d = dec_string(code as u64);
    out.push_str(d.as_str());
    out.push_str(": ");
    assert(final(out)@ =~= old(out)@ + http_prefix(code));
}

impl PdfConvertError {
    /// An error of a file operation described by `context`.
    pub fn io_error(context: &str, source: ErrorCause) -> (e: Self)
        ensures
            e matches PdfConvertError::IoError { context: c, source: s } && c@ == context@
                && s == source,
    {
        PdfConvertError::IoError { context: owned(context), source }
    }

    /// An error reported by Docling Serve or on the way to it.
    pub fn api_error(status_code: Option<u16>, message: &str) -> (e: Self)
        ensures
            is_api(e, status_code, message@),
    {
        PdfConvertError::ApiError { status_code, message: owned(message), source: None }
    }

    /// A transport error of the HTTP client: its status and message are kept
    /// beside the error itself.
    pub fn from_transport(source: ApiErrorSource) -> (e: Self)
        ensures
            e matches PdfConvertError::ApiError { status_code, message, source: Some(s) }
                && status_code == source.status && message@ == source.text@ && s.status
                == source.status && s.text@ == source.text@ && s.causes@ == source.causes@,
    {
        let message = source.text.clone();
        PdfConvertError::ApiError { status_code: source.status, message, source: Some(source) }
    }

    /// A response or value that could not be parsed.
    pub fn parse_error(target: &str, message: &str) -> (e: Self)
        ensures
            is_parse(e, target@, message@),
    {
        PdfConvertError::ParseError { target: owned(target), message: owned(message) }
    }

    /// An argument or input that the library rejects.
    pub fn validation_error(parameter: &str, reason: &str) -> (e: Self)
        ensures
            is_validation(e, parameter@, reason@),
    {
        PdfConvertError::ValidationError { parameter: owned(parameter), reason: owned(reason) }
    }

    /// An environment variable that is missing or malformed.
    pub fn env_error(var_name: &str, message: &str) -> (e: Self)
        ensures
            e matches PdfConvertError::EnvError { var_name: v, message: m } && v@ == var_name@
                && m@ == message@,
    {
        PdfConvertError::EnvError { var_name: owned(var_name), message: owned(message) }
    }

    /// An operation that failed for a reason of its own.
    pub fn operation_error(context: &str, message: &str) -> (e: Self)
        ensures
            is_operation(e, context@, message@),
    {
        PdfConvertError::OperationError { context: owned(context), message: owned(message) }
    }

    /// A Docling task that ended in a failed state.
    pub fn api_task_failed(status: &str, details: &str) -> (e: Self)
        ensures
            is_api(e, None, "Task failed - Status: "@ + status@ + ", Details: "@ + details@),
    {
        let mut message = owned("Task failed - Status: ");
        message.push_str(status);
        message.push_str(", Details: ");
        message.push_str(details);
        PdfConvertError::ApiError { status_code: None, message, source: None }
    }

    /// The HTTP status of an API error: the stored status, else the status of
    /// its transport error; `None` for every other error.
    pub fn status_code(&self) -> (r: Option<u16>)
        ensures
            r == error_status(*self),
    {
        match self {
            PdfConvertError::ApiError { status_code: Some(code), .. } => Some(*code),
            PdfConvertError::ApiError { source: Some(source), .. } => source.status,
            PdfConvertError::ApiError { status_code, .. } => *status_code,
            _ => None,
        }
    }

    /// The message of an API error.
    pub fn api_message(&self) -> (r: Option<&str>)
        ensures
            match *self {
                PdfConvertError::ApiError { message, .. } => r is Some && r->0@ == message@,
                _ => r is None,
            },
    {
        match self {
            PdfConvertError::ApiError { message, .. } => Some(message.as_str()),
            _ => None,
        }
    }

    /// The transport error behind an API error.
    pub fn reqwest_source(&self) -> (r: Option<&ApiErrorSource>)
        ensures
            match *self {
                PdfConvertError::ApiError { source, .. } => match source {
                    Some(s) => r == Some(&s),
                    None => r is None,
                },
                _ => r is None,
            },
    {
        match self {
            PdfConvertError::ApiError { source, .. } => source.as_ref(),
            _ => None,
        }
    }

    /// The human-readable text of the error.
    pub fn display(&self) -> (r: String)
        ensures
            r@ == error_text(*self),
    {
        match self {
            PdfConvertError::IoError { context, source } => {
                let mut out = owned("IO error while ");
                out.push_str(context.as_str());
                out.push_str(": ");
                out.push_str(source.text.as_str());
                push_causes(&mut out, &source.causes);
                out
            },
            PdfConvertError::ApiError { status_code, message, source } => match source {
                Some(src) => {
                    let effective = match status_code {
                        Some(c) => Some(*c),
                        None => src.status,
                    };
                    let mut out = String::new();
                    match effective {
                        Some(c) => push_http_prefix(&mut out, c),
                        None => {},
                    }
                    out.push_str(src.text.as_str());
                    push_causes(&mut out, &src.causes);
                    let m = to_chars(message.as_str());
                    let t = to_chars(src.text.as_str());
                    let same = crate::strings::chars_eq(&m, &t);
                    if !same && m.len() > 0 {
                        out.push_str(" (");
                        out.push_str(message.as_str());
                        out.push_str(")");
                    }
                    proof {
                        let head = match effective {
                            Some(c) => http_prefix(c) + src.text@,
                            None => src.text@,
                        };
                        let tail = if message@ != src.text@ && message@.len() > 0 {
                            " ("@ + message@ + ")"@
                        } else {
                            Seq::empty()
                        };
                        assert(out@ =~= head + cause_suffix(texts(src.causes@)) + tail);
                    }
                    out
                },
                None => match status_code {
                    Some(c) => {
                        let mut out = String::new();
                        push_http_prefix(&mut out, *c);
                        out.push_str(message.as_str());
                        assert(out@ =~= http_prefix(*c) + message@);
                        out
                    },
                    None => message.clone(),
                },
            },
            PdfConvertError::ParseError { target, message } => {
                let mut out = owned("Failed to parse ");
                out.push_str(target.as_str());
                out.push_str(": ");
                out.push_str(message.as_str());
                out
            },
            PdfConvertError::ValidationError { parameter, reason } => {
                let mut out = owned("Validation error for '");
                out.push_str(parameter.as_str());
                out.push_str("': ");
                out.push_str(reason.as_str());
                out
            },
            PdfConvertError::EnvError { var_name, message } => {
                let mut out = owned("Environment variable error for '");
                out.push_str(var_name.as_str());
                out.push_str("': ");
                out.push_str(message.as_str());
                out
            },
            PdfConvertError::OperationError { context, message } => {
                let mut out = context.clone();
                out.push_str(": ");
                out.push_str(message.as_str());
                out
            },
        }
    }
}

} // verus!
