//! The errors of unsuccessful HTTP responses of Docling Serve: the status
//! line, the details found in a JSON error body, and the message that
//! combines them.
use vstd::prelude::*;

use crate::error::{is_api, PdfConvertError};
use crate::json::{copy_json, json_get, JsonValue};
use crate::strings::{dec, owned, push_dec, trim};

verus! {

/// The reason phrase that the HTTP library gives a status code, if any.
pub uninterp spec fn status_reason(code: u16) -> Option<Seq<char>>;

/// `reqwest::StatusCode::from_u16` then `canonical_reason`: the standard
/// reason phrase of a status code, or `None` for a code without one or out
/// of range. The table of phrases is named here, not stated.
#[verifier::external_body]
fn canonical_reason(code: u16) -> (r: Option<&'static str>)
    ensures
        match r {
            Some(s) => status_reason(code) == Some(s@),
            None => status_reason(code) is None,
        },
{
    match reqwest::StatusCode::from_u16(code) {
        Ok(status) => status.canonical_reason(),
        Err(_) => None,
    }
}

/// The reason phrase of a code, or `fallback`.
pub open spec fn reason_or(code: u16, fallback: Seq<char>) -> Seq<char> {
    match status_reason(code) {
        Some(r) => r,
        None => fallback,
    }
}

/// The first part of the message of a failed request: the context, the
/// status as the HTTP library writes it (code and reason), and the reason
/// again.
pub open spec fn status_message(context: Seq<char>, code: u16) -> Seq<char> {
    context + " failed: "@ + dec(code as nat) + " "@ + reason_or(code, "<unknown status code>"@)
        + " "@ + reason_or(code, "Unknown"@)
}

fn status_message_text(context: &str, code: u16) -> (r: String)
    ensures
        r@ == status_message(context@, code),
{
    let reason = canonical_reason(code);
    let mut out = owned(context);
    out.push_str(" failed: ");
    push_dec(&mut out, code as u64);
    out.push_str(" ");
    match reason {
        Some(r) => out.push_str(r),
        None => out.push_str("<unknown status code>"),
    }
    out.push_str(" ");
    match reason {
        Some(r) => out.push_str(r),
        None => out.push_str("Unknown"),
    }
    out
}

/// The message of a failed request whose body is `body` and whose details
/// are `details`: the status message alone for a blank body, else followed
/// by the details (unless they are the body itself) and the body.
pub open spec fn response_message(context: Seq<char>, code: u16, body: Seq<char>, details: Seq<char>) -> Seq<char> {
    let head = status_message(context, code);
    if trim(body).len() == 0 {
        head
    } else if details == body {
        head + "; response body: "@ + body
    } else {
        head + "; "@ + details + "; response body: "@ + body
    }
}

/// The error of an unsuccessful response: an API error with its status code
/// and the message that combines status, details and body.
pub fn response_error(context: &str, status_code: u16, body: &str, details: &str) -> (e:
    PdfConvertError)
    ensures
        is_api(e, Some(status_code), response_message(context@, status_code, body@, details@)),
{
    let mut message = status_message_text(context, status_code);
    let trimmed = crate::strings::trim_chars(&crate::strings::to_chars(body));
    if trimmed.len() == 0 {
    } else if crate::strings::str_eq(details, body) {
        message.push_str("; response body: ");
        message.push_str(body);
    } else {
        message.push_str("; ");
        message.push_str(details);
        message.push_str("; response body: ");
        message.push_str(body);
    }
    PdfConvertError::api_error(Some(status_code), message.as_str())
}

/// The error of a response whose body could not be read.
pub fn unreadable_body_error(context: &str, status_code: u16, cause: &str) -> (e: PdfConvertError)
    ensures
        is_api(
            e,
            Some(status_code),
            status_message(context@, status_code) + "; failed to read response body: "@ + cause@,
        ),
{
    let mut message = status_message_text(context, status_code);
    message.push_str("; failed to read response body: ");
    message.push_str(cause);
    PdfConvertError::api_error(Some(status_code), message.as_str())
}

/// The value of a detail: the text of a JSON string, any other value as
/// JSON.
#[derive(Debug)]
pub enum DetailValue {
    Text(String),
    Json(JsonValue),
}

/// One detail of an error body: a label and a value.
#[derive(Debug)]
pub struct ErrorDetail {
    pub label: String,
    pub value: DetailValue,
}

/// A detail is labelled `label` and holds `v`: its text when `v` is a
/// string, else a copy of `v`.
pub open spec fn detail_is(d: ErrorDetail, label: Seq<char>, v: JsonValue) -> bool {
    &&& d.label@ == label
    &&& match v {
        JsonValue::Str(s) => d.value matches DetailValue::Text(t) && t@ == s@,
        _ => d.value matches DetailValue::Json(j) && crate::json::json_same(v, j),
    }
}

/// The message of the `failure` object of `v`, labelled.
pub open spec fn failure_detail(v: JsonValue) -> Seq<(Seq<char>, JsonValue)> {
    match json_get(v, "failure"@) {
        Some(f) => if f is Object {
            match json_get(f, "message"@) {
                Some(m) => seq![("failure.message"@, m)],
                None => Seq::empty(),
            }
        } else {
            Seq::empty()
        },
        None => Seq::empty(),
    }
}

/// The document errors of the `errors` array of `v`.
pub open spec fn errors_details(v: JsonValue) -> Seq<(Seq<char>, JsonValue)> {
    match json_get(v, "errors"@) {
        Some(JsonValue::Array(items)) => document_details(items@),
        _ => Seq::empty(),
    }
}

/// The labelled values that an error body reports, in order.
pub open spec fn labelled_details(v: JsonValue) -> Seq<(Seq<char>, JsonValue)> {
    if !(v is Object) {
        Seq::empty()
    } else {
        failure_detail(v) + key_detail(v, "error_message"@) + key_detail(v, "message"@)
            + key_detail(v, "error"@) + key_detail(v, "detail"@) + errors_details(v)
    }
}

/// The member `key` of `v` labelled by its key.
pub open spec fn key_detail(v: JsonValue, key: Seq<char>) -> Seq<(Seq<char>, JsonValue)> {
    match json_get(v, key) {
        Some(x) => seq![(key, x)],
        None => Seq::empty(),
    }
}

/// The document errors of an `errors` array: each item's `error_message`,
/// else its `message`, else the item itself.
pub open spec fn document_details(items: Seq<JsonValue>) -> Seq<(Seq<char>, JsonValue)>
    decreases items.len(),
{
    if items.len() == 0 {
        Seq::empty()
    } else {
        let item = items.last();
        let shown = match json_get(item, "error_message"@) {
            Some(m) => m,
            None => match json_get(item, "message"@) {
                Some(m) => m,
                None => item,
            },
        };
        document_details(items.drop_last()).push(("document error"@, shown))
    }
}

/// The details are the labelled values, in order.
pub open spec fn details_are(ds: Seq<ErrorDetail>, ls: Seq<(Seq<char>, JsonValue)>) -> bool {
    ds.len() == ls.len() && forall|i: int|
        0 <= i < ds.len() ==> detail_is(#[trigger] ds[i], ls[i].0, ls[i].1)
}

/// The labelled values are `ls`: each label with its text, each value
/// itself.
pub open spec fn refs_are(rs: Seq<(&str, &JsonValue)>, ls: Seq<(Seq<char>, JsonValue)>) -> bool {
    rs.len() == ls.len() && forall|i: int|
        0 <= i < rs.len() ==> (#[trigger] rs[i]).0@ == ls[i].0 && *rs[i].1 == ls[i].1
}

fn push_ref<'a>(
    out: &mut Vec<(&'static str, &'a JsonValue)>,
    label: &'static str,
    v: &'a JsonValue,
    Ghost(ls): Ghost<Seq<(Seq<char>, JsonValue)>>,
)
    requires
        refs_are(old(out)@, ls),
    ensures
        refs_are(final(out)@, ls.push((label@, *v))),
{
    out.push((label, v));
    assert forall|i: int| 0 <= i < final(out)@.len() implies (#[trigger] final(out)@[i]).0@
        == ls.push((label@, *v))[i].0 && *final(out)@[i].1 == ls.push((label@, *v))[i].1 by {
        if i < ls.len() {
            assert(final(out)@[i] == old(out)@[i]);
        }
    }
}

fn push_key_ref<'a>(
    out: &mut Vec<(&'static str, &'a JsonValue)>,
    value: &'a JsonValue,
    key: &'static str,
    Ghost(ls): Ghost<Seq<(Seq<char>, JsonValue)>>,
)
    requires
        refs_are(old(out)@, ls),
    ensures
        refs_are(final(out)@, ls + key_detail(*value, key@)),
{
    match value.get(key) {
        Some(m) => {
            push_ref(out, key, m, Ghost(ls));
            assert(ls + key_detail(*value, key@) =~= ls.push((key@, *m)));
        },
        None => {
            assert(ls + key_detail(*value, key@) =~= ls);
        },
    }
}

fn push_failure_ref<'a>(
    out: &mut Vec<(&'static str, &'a JsonValue)>,
    value: &'a JsonValue,
    Ghost(ls): Ghost<Seq<(Seq<char>, JsonValue)>>,
)
    requires
        refs_are(old(out)@, ls),
    ensures
        refs_are(final(out)@, ls + failure_detail(*value)),
{
    match value.get("failure") {
        Some(f) => {
            if f.is_object() {
                match f.get("message") {
                    Some(m) => {
                        push_ref(out, "failure.message", m, Ghost(ls));
                        assert(ls + failure_detail(*value) =~= ls.push(("failure.message"@, *m)));
                        return ;
                    },
                    None => {},
                }
            }
        },
        None => {},
    }
    assert(ls + failure_detail(*value) =~= ls);
}

fn push_document_refs<'a>(
    out: &mut Vec<(&'static str, &'a JsonValue)>,
    value: &'a JsonValue,
    Ghost(ls): Ghost<Seq<(Seq<char>, JsonValue)>>,
)
    requires
        refs_are(old(out)@, ls),
    ensures
        refs_are(final(out)@, ls + errors_details(*value)),
{
    match value.get("errors") {
        Some(JsonValue::Array(items)) => {
            let mut i: usize = 0;
            assert(ls + document_details(items@.take(0)) =~= ls);
            while i < items.len()
                invariant
                    i <= items.len(),
                    refs_are(out@, ls + document_details(items@.take(i as int))),
                decreases items.len() - i,
            {
                let item = &items[i];
                let shown = match item.get("error_message") {
                    Some(m) => m,
                    None => match item.get("message") {
                        Some(m) => m,
                        None => item,
                    },
                };
                assert(items@.take(i + 1).drop_last() =~= items@.take(i as int));
                assert(items@.take(i + 1).last() == items@[i as int]);
                push_ref(out, "document error", shown, Ghost(ls + document_details(items@.take(i as int))));
                assert(ls + document_details(items@.take(i + 1)) =~= (ls + document_details(
                    items@.take(i as int),
                )).push(("document error"@, *shown)));
                i = i + 1;
            }
            assert(items@.take(items.len() as int) =~= items@);
        },
        _ => {
            assert(ls + errors_details(*value) =~= ls);
        },
    }
}

/// The labelled values of an error body, in order, as references into it.
fn labelled_refs<'a>(value: &'a JsonValue) -> (r: Vec<(&'static str, &'a JsonValue)>)
    ensures
        refs_are(r@, labelled_details(*value)),
{
    let mut out: Vec<(&'static str, &'a JsonValue)> = Vec::new();
    if !value.is_object() {
        return out;
    }
    let ghost l0: Seq<(Seq<char>, JsonValue)> = Seq::empty();
    push_failure_ref(&mut out, value, Ghost(l0));
    let ghost l1 = l0 + failure_detail(*value);
    push_key_ref(&mut out, value, "error_message", Ghost(l1));
    let ghost l2 = l1 + key_detail(*value, "error_message"@);
    push_key_ref(&mut out, value, "message", Ghost(l2));
    let ghost l3 = l2 + key_detail(*value, "message"@);
    push_key_ref(&mut out, value, "error", Ghost(l3));
    let ghost l4 = l3 + key_detail(*value, "error"@);
    push_key_ref(&mut out, value, "detail", Ghost(l4));
    let ghost l5 = l4 + key_detail(*value, "detail"@);
    push_document_refs(&mut out, value, Ghost(l5));
    assert(l0 + failure_detail(*value) =~= failure_detail(*value));
    out
}

fn detail(label: &str, v: &JsonValue) -> (d: ErrorDetail)
    ensures
        detail_is(d, label@, *v),
{
    let value = match v {
        JsonValue::Str(s) => DetailValue::Text(s.clone()),
        _ => DetailValue::Json(copy_json(v)),
    };
    ErrorDetail { label: owned(label), value }
}

/// The details that a JSON error body reports: the message of its
/// `failure`, its `error_message`, `message`, `error` and `detail`, then one
/// document error per item of `errors`; nothing for a value that is no
/// object.
pub fn collect_error_details(value: &JsonValue) -> (r: Vec<ErrorDetail>)
    ensures
        details_are(r@, labelled_details(*value)),
{
    let refs = labelled_refs(value);
    let ghost ls = labelled_details(*value);
    let mut out: Vec<ErrorDetail> = Vec::new();
    let mut i: usize = 0;
    while i < refs.len()
        invariant
            i <= refs.len(),
            refs_are(refs@, ls),
            details_are(out@, ls.take(i as int)),
        decreases refs.len() - i,
    {
        let (label, v) = refs[i];
        let d = detail(label, v);
        out.push(d);
        assert forall|j: int| 0 <= j < out@.len() implies detail_is(
            #[trigger] out@[j],
            ls.take(i + 1)[j].0,
            ls.take(i + 1)[j].1,
        ) by {
            if j < i {
                assert(ls.take(i + 1)[j] == ls.take(i as int)[j]);
            }
        }
        i = i + 1;
    }
    assert(ls.take(refs.len() as int) =~= ls);
    out
}

/// A value as a detail shows it: the text of a string, any other value as
/// compact JSON.
pub open spec fn shown_text(v: JsonValue) -> Seq<char> {
    match v {
        JsonValue::Str(s) => s@,
        _ => crate::json::json_text(v),
    }
}

/// One detail as the error message writes it: `label: value`.
pub open spec fn detail_line(d: (Seq<char>, JsonValue)) -> Seq<char> {
    d.0 + ": "@ + shown_text(d.1)
}

/// The details written one after another, separated by `, `.
pub open spec fn detail_lines(ls: Seq<(Seq<char>, JsonValue)>) -> Seq<char>
    decreases ls.len(),
{
    if ls.len() == 0 {
        Seq::empty()
    } else if ls.len() == 1 {
        detail_line(ls[0])
    } else {
        detail_lines(ls.drop_last()) + ", "@ + detail_line(ls.last())
    }
}

/// What an error body says: the body itself when it is no JSON; else its
/// details, or the compact JSON of the body where it reports none.
pub open spec fn error_details_text(text: Seq<char>) -> Seq<char> {
    match crate::json::json_of_text(text) {
        None => text,
        Some(v) => if labelled_details(v).len() == 0 {
            crate::json::json_text(v)
        } else {
            detail_lines(labelled_details(v))
        },
    }
}

/// The details of an error response body, as the error message shows them.
pub fn extract_error_details(response_text: &str) -> (r: String)
    ensures
        r@ == error_details_text(response_text@),
{
    let json = match crate::json::parse_json_text(response_text) {
        Some(v) => v,
        None => return owned(response_text),
    };
    let refs = labelled_refs(&json);
    let ghost ls = labelled_details(json);
    if refs.len() == 0 {
        return crate::json::compact_json_text(&json);
    }
    let mut out = String::new();
    let mut i: usize = 0;
    while i < refs.len()
        invariant
            i <= refs.len(),
            refs_are(refs@, ls),
            out@ == detail_lines(ls.take(i as int)),
        decreases refs.len() - i,
    {
        let (label, v) = refs[i];
        assert(ls.take(i + 1).drop_last() =~= ls.take(i as int));
        if i > 0 {
            out.push_str(", ");
        }
        out.push_str(label);
        out.push_str(": ");
        match v {
            JsonValue::Str(t) => out.push_str(t.as_str()),
            _ => {
                let shown = crate::json::compact_json_text(v);
                out.push_str(shown.as_str());
            },
        }
        i = i + 1;
    }
    assert(ls.take(refs.len() as int) =~= ls);
    out
}

} // verus!
