//! Results of Docling Serve: their shapes, the errors they report, and the
//! reading of a response body under a size limit.
use vstd::prelude::*;

use crate::error::{is_operation, texts, PdfConvertError, Result};
use crate::input_kind::opt_str;
use crate::json::{json_get, json_str, str_member, string_member, JsonValue};
use crate::models::{
    ChunkDocumentResponse, ConversionStatus, ConvertDocumentResponse, DoclingErrorItem,
    DocumentResultItem, TaskFailureResult,
};
use crate::strings::{dec, dec_string, has_infix, has_infix_exec, lower, lower_chars, owned, to_chars};

verus! {

/// A result of Docling Serve.
#[derive(Debug)]
pub enum DoclingResult {
    Convert(ConvertDocumentResponse),
    Chunk(ChunkDocumentResponse),
    Failure(TaskFailureResult),
    Json(JsonValue),
    Zip(Vec<u8>),
}

/// The result of a task together with its final status and the messages
/// that its status carried.
#[derive(Debug)]
pub struct DoclingTaskResult {
    pub status: ConversionStatus,
    pub result: DoclingResult,
    pub errors: Vec<String>,
}

/// The message of a document error, with its page when known.
pub open spec fn error_item_text(e: DoclingErrorItem) -> Seq<char> {
    let m = match e.error_message {
        Some(s) => s@,
        None => "unknown document error"@,
    };
    match e.page_no {
        Some(p) => "page "@ + dec(p as nat) + ": "@ + m,
        None => m,
    }
}

/// The messages of a list of document errors.
pub open spec fn item_texts(items: Seq<DoclingErrorItem>) -> Seq<Seq<char>> {
    items.map_values(|e: DoclingErrorItem| error_item_text(e))
}

/// The messages of the errors of every document, document by document.
pub open spec fn documents_errors(docs: Seq<DocumentResultItem>) -> Seq<Seq<char>>
    decreases docs.len(),
{
    if docs.len() == 0 {
        Seq::empty()
    } else {
        documents_errors(docs.drop_last()) + item_texts(docs.last().errors@)
    }
}

/// The one-element list of a present value.
pub open spec fn opt_seq(o: Option<Seq<char>>) -> Seq<Seq<char>> {
    match o {
        Some(s) => seq![s],
        None => Seq::empty(),
    }
}

/// The message of an item of an `errors` array: its `error_message` when it
/// has one (a non-string counts as none), else its `message`.
pub open spec fn json_item_message(item: JsonValue) -> Option<Seq<char>> {
    match json_get(item, "error_message"@) {
        Some(x) => json_str(Some(x)),
        None => str_member(item, "message"@),
    }
}

/// The messages of the items of an `errors` array.
pub open spec fn json_item_messages(items: Seq<JsonValue>) -> Seq<Seq<char>>
    decreases items.len(),
{
    if items.len() == 0 {
        Seq::empty()
    } else {
        json_item_messages(items.drop_last()) + opt_seq(json_item_message(items.last()))
    }
}

/// The items of an optional array value.
pub open spec fn array_items(v: Option<JsonValue>) -> Seq<JsonValue> {
    match v {
        Some(JsonValue::Array(items)) => items@,
        _ => Seq::empty(),
    }
}

/// The string member `key` of an optional value.
pub open spec fn opt_member(v: Option<JsonValue>, key: Seq<char>) -> Option<Seq<char>> {
    match v {
        Some(x) => str_member(x, key),
        None => None,
    }
}

/// The messages that a JSON result reports: `error_message`, `message`,
/// `failure.message`, `detail`, then the messages of `errors`.
pub open spec fn result_json_errors(v: JsonValue) -> Seq<Seq<char>> {
    opt_seq(str_member(v, "error_message"@)) + opt_seq(str_member(v, "message"@)) + opt_seq(
        opt_member(json_get(v, "failure"@), "message"@),
    ) + opt_seq(str_member(v, "detail"@)) + json_item_messages(array_items(json_get(v, "errors"@)))
}

/// The messages that a result reports.
pub open spec fn result_errors(r: DoclingResult) -> Seq<Seq<char>> {
    match r {
        DoclingResult::Convert(c) => item_texts(c.errors@),
        DoclingResult::Chunk(c) => documents_errors(c.documents@),
        DoclingResult::Failure(f) => seq![f.failure.message@],
        DoclingResult::Json(v) => result_json_errors(v),
        DoclingResult::Zip(_) => Seq::empty(),
    }
}

/// The file name that a result names.
pub open spec fn result_filename(r: DoclingResult) -> Option<Seq<char>> {
    match r {
        DoclingResult::Convert(c) => Some(c.document.filename@),
        DoclingResult::Chunk(c) => if c.chunks@.len() > 0 {
            Some(c.chunks@[0].filename@)
        } else if c.documents@.len() > 0 {
            Some(c.documents@[0].document.filename@)
        } else {
            None
        },
        _ => None,
    }
}

/// The message of a document error.
pub fn format_error(error: &DoclingErrorItem) -> (r: String)
    ensures
        r@ == error_item_text(*error),
{
    let message = match &error.error_message {
        Some(m) => m.clone(),
        None => owned("unknown document error"),
    };
    match error.page_no {
        Some(page) => {
            let mut out = owned("page ");
            let d = dec_string(page);
            out.push_str(d.as_str());
            out.push_str(": ");
            out.push_str(message.as_str());
            out
        },
        None => message,
    }
}

/// Appends the messages of `items` to `out`.
fn push_item_texts(out: &mut Vec<String>, items: &Vec<DoclingErrorItem>)
    ensures
        texts(final(out)@) == texts(old(out)@) + item_texts(items@),
{
    let ghost start = texts(out@);
    let mut i: usize = 0;
    while i < items.len()
        invariant
            i <= items.len(),
            texts(out@) == start + item_texts(items@.take(i as int)),
        decreases items.len() - i,
    {
        let t = format_error(&items[i]);
        let ghost prev = out@;
        out.push(t);
        i = i + 1;
        proof {
            assert(texts(out@) =~= texts(prev).push(t@));
            assert(item_texts(items@.take(i as int)) =~= item_texts(items@.take(i - 1)).push(
                error_item_text(items@[i - 1]),
            ));
            assert(texts(out@) =~= start + item_texts(items@.take(i as int)));
        }
    }
    assert(items@.take(items.len() as int) =~= items@);
}

/// Appends the message of `o`, when present, to `out`.
pub(crate) fn push_opt(out: &mut Vec<String>, o: Option<String>)
    ensures
        texts(final(out)@) == texts(old(out)@) + opt_seq(crate::config::opt_text(o)),
{
    match o {
        Some(s) => {
            out.push(s);
            assert(texts(final(out)@) =~= texts(old(out)@) + opt_seq(
                crate::config::opt_text(Some(s)),
            ));
        },
        None => {
            assert(texts(final(out)@) =~= texts(old(out)@) + opt_seq(None));
        },
    }
}

/// The message of an item of an `errors` array.
pub fn item_message(item: &JsonValue) -> (r: Option<String>)
    ensures
        crate::config::opt_text(r) == json_item_message(*item),
{
    match item.get("error_message") {
        Some(x) => match x.as_str() {
            Some(s) => Some(owned(s)),
            None => None,
        },
        None => string_member(item, "message"),
    }
}

/// Appends the messages of the items of an `errors` array.
pub(crate) fn push_item_messages(out: &mut Vec<String>, items: &Vec<JsonValue>)
    ensures
        texts(final(out)@) == texts(old(out)@) + json_item_messages(items@),
{
    let ghost start = texts(out@);
    let mut i: usize = 0;
    while i < items.len()
        invariant
            i <= items.len(),
            texts(out@) == start + json_item_messages(items@.take(i as int)),
        decreases items.len() - i,
    {
        let m = item_message(&items[i]);
        push_opt(out, m);
        i = i + 1;
        proof {
            assert(items@.take(i as int).drop_last() =~= items@.take(i - 1));
            assert(texts(out@) =~= start + json_item_messages(items@.take(i as int)));
        }
    }
    assert(items@.take(items.len() as int) =~= items@);
}

/// The messages that a JSON result reports.
pub fn collect_json_errors(value: &JsonValue) -> (r: Vec<String>)
    ensures
        texts(r@) == result_json_errors(*value),
{
    let mut errors: Vec<String> = Vec::new();
    push_opt(&mut errors, string_member(value, "error_message"));
    push_opt(&mut errors, string_member(value, "message"));
    let failure_message = match value.get("failure") {
        Some(f) => string_member(f, "message"),
        None => None,
    };
    push_opt(&mut errors, failure_message);
    push_opt(&mut errors, string_member(value, "detail"));
    match value.get("errors") {
        Some(e) => match e.as_array() {
            Some(items) => push_item_messages(&mut errors, items),
            None => {},
        },
        None => {},
    }
    assert(texts(errors@) =~= result_json_errors(*value));
    errors
}

impl DoclingResult {
    /// The messages that the result reports.
    pub fn errors(&self) -> (r: Vec<String>)
        ensures
            texts(r@) == result_errors(*self),
    {
        match self {
            DoclingResult::Convert(response) => {
                let mut out: Vec<String> = Vec::new();
                push_item_texts(&mut out, &response.errors);
                assert(texts(out@) =~= item_texts(response.errors@));
                out
            },
            DoclingResult::Chunk(response) => {
                let mut out: Vec<String> = Vec::new();
                let mut i: usize = 0;
                while i < response.documents.len()
                    invariant
                        i <= response.documents.len(),
                        texts(out@) == documents_errors(response.documents@.take(i as int)),
                    decreases response.documents.len() - i,
                {
                    push_item_texts(&mut out, &response.documents[i].errors);
                    i = i + 1;
                    assert(response.documents@.take(i as int).drop_last()
                        =~= response.documents@.take(i - 1));
                }
                assert(response.documents@.take(response.documents.len() as int)
                    =~= response.documents@);
                out
            },
            DoclingResult::Failure(response) => {
                let mut out: Vec<String> = Vec::new();
                out.push(response.failure.message.clone());
                assert(texts(out@) =~= seq![response.failure.message@]);
                out
            },
            DoclingResult::Json(value) => collect_json_errors(value),
            DoclingResult::Zip(_) => {
                let out: Vec<String> = Vec::new();
                assert(texts(out@) =~= Seq::<Seq<char>>::empty());
                out
            },
        }
    }

    /// The file name that the result names.
    pub fn filename(&self) -> (r: Option<&str>)
        ensures
            opt_str(r) == result_filename(*self),
    {
        match self {
            DoclingResult::Convert(response) => Some(response.document.filename.as_str()),
            DoclingResult::Chunk(response) => {
                if response.chunks.len() > 0 {
                    Some(response.chunks[0].filename.as_str())
                } else if response.documents.len() > 0 {
                    Some(response.documents[0].document.filename.as_str())
                } else {
                    None
                }
            },
            _ => None,
        }
    }
}

/// How a JSON result is to be read.
#[derive(Debug, Clone, Copy, PartialEq, Eq, Structural)]
pub enum ResultShape {
    Failure,
    Chunk,
    Convert,
    Other,
}

/// The shape of a JSON result: a failure when it says so by its `kind` or
/// carries `failure`, chunks when it carries `chunks`, a conversion when it
/// carries `document` and `status`, otherwise any JSON.
pub open spec fn shape_of(v: JsonValue) -> ResultShape {
    if str_member(v, "kind"@) == Some("TaskFailureResult"@) || json_get(v, "failure"@) is Some {
        ResultShape::Failure
    } else if json_get(v, "chunks"@) is Some {
        ResultShape::Chunk
    } else if json_get(v, "document"@) is Some && json_get(v, "status"@) is Some {
        ResultShape::Convert
    } else {
        ResultShape::Other
    }
}

/// The target named in the error when a result of this shape cannot be read.
pub open spec fn shape_target(s: ResultShape) -> Seq<char> {
    match s {
        ResultShape::Failure => "Docling failure result"@,
        ResultShape::Chunk => "Docling chunk result"@,
        ResultShape::Convert => "Docling conversion result"@,
        ResultShape::Other => "Docling result response"@,
    }
}

/// The shape of a JSON result.
pub fn classify_result(value: &JsonValue) -> (r: ResultShape)
    ensures
        r == shape_of(*value),
{
    let kind_is_failure = match value.get("kind") {
        Some(k) => match k.as_str() {
            Some(s) => crate::strings::str_eq(s, "TaskFailureResult"),
            None => false,
        },
        None => false,
    };
    if kind_is_failure || value.get("failure").is_some() {
        ResultShape::Failure
    } else if value.get("chunks").is_some() {
        ResultShape::Chunk
    } else if value.get("document").is_some() && value.get("status").is_some() {
        ResultShape::Convert
    } else {
        ResultShape::Other
    }
}

impl ResultShape {
    /// The target named when a result of this shape cannot be read.
    pub fn parse_target(self) -> (r: &'static str)
        ensures
            r@ == shape_target(self),
    {
        match self {
            ResultShape::Failure => "Docling failure result",
            ResultShape::Chunk => "Docling chunk result",
            ResultShape::Convert => "Docling conversion result",
            ResultShape::Other => "Docling result response",
        }
    }
}

/// The content type names a ZIP archive.
pub open spec fn zip_content_type(ct: Option<Seq<char>>) -> bool {
    ct matches Some(t) && has_infix(lower(t), "application/zip"@)
}

/// The body opens with the signature of a ZIP archive.
pub open spec fn zip_signature(b: Seq<u8>) -> bool {
    b.len() >= 4 && b[0] == 0x50u8 && b[1] == 0x4bu8 && b[2] == 0x03u8 && b[3] == 0x04u8
}

/// Whether a response is a ZIP archive: by its content type, or by the
/// signature at the start of its body.
pub fn is_zip_payload(content_type: Option<&str>, bytes: &Vec<u8>) -> (r: bool)
    ensures
        r == (zip_content_type(opt_str(content_type)) || zip_signature(bytes@)),
{
    let by_type = match content_type {
        Some(t) => {
            let v = to_chars(t);
            let l = lower_chars(&v);
            let needle = to_chars("application/zip");
            has_infix_exec(&l, &needle)
        },
        None => false,
    };
    by_type || (bytes.len() >= 4 && bytes[0] == 0x50u8 && bytes[1] == 0x4bu8 && bytes[2] == 0x03u8
        && bytes[3] == 0x04u8)
}

/// The message of a body that exceeds the limit.
pub open spec fn too_large_message(limit: usize, actual: Option<u64>) -> Seq<char> {
    "result body exceeds maximum of "@ + dec(limit as nat) + " bytes"@ + match actual {
        Some(n) => "; response is at least "@ + dec(n as nat) + " bytes"@,
        None => Seq::empty(),
    }
}

/// The error of a body that exceeds the limit.
pub open spec fn is_too_large(e: PdfConvertError, context: Seq<char>, limit: usize, actual: Option<
    u64,
>) -> bool {
    is_operation(e, "reading "@ + context + " response"@, too_large_message(limit, actual))
}

/// The error of a body that exceeds the limit.
pub fn result_too_large(context: &str, limit: usize, actual: Option<u64>) -> (e: PdfConvertError)
    ensures
        is_too_large(e, context@, limit, actual),
{
    let mut ctx = owned("reading ");
    ctx.push_str(context);
    ctx.push_str(" response");
    let mut message = owned("result body exceeds maximum of ");
    let d = dec_string(limit as u64);
    message.push_str(d.as_str());
    message.push_str(" bytes");
    match actual {
        Some(n) => {
            message.push_str("; response is at least ");
            let dn = dec_string(n);
            message.push_str(dn.as_str());
            message.push_str(" bytes");
        },
        None => {},
    }
    assert(ctx@ =~= "reading "@ + context@ + " response"@);
    assert(message@ =~= too_large_message(limit, actual));
    PdfConvertError::operation_error(ctx.as_str(), message.as_str())
}

/// The size that a body is read into at first: the announced length when a
/// limit admits it, else nothing.
pub fn initial_capacity(content_length: Option<u64>, limit: Option<usize>) -> (r: usize)
    ensures
        r == match (limit, content_length) {
            (Some(l), Some(n)) => if n <= l {
                n as usize
            } else {
                0usize
            },
            _ => 0usize,
        },
{
    match (limit, content_length) {
        (Some(l), Some(n)) => {
            if n <= l as u64 {
                n as usize
            } else {
                0
            }
        },
        _ => 0,
    }
}

/// A response body read chunk by chunk under an optional size limit.
pub struct BodyReader {
    body: Vec<u8>,
    limit: Option<usize>,
    context: String,
}

impl BodyReader {
    /// The bytes read so far.
    pub closed spec fn bytes(&self) -> Seq<u8> {
        self.body@
    }

    /// The limit of the body.
    pub closed spec fn max(&self) -> Option<usize> {
        self.limit
    }

    /// What the reader names in its errors.
    pub closed spec fn what(&self) -> Seq<char> {
        self.context@
    }

    /// The body is within the reader's limit.
    pub open spec fn within_limit(&self) -> bool {
        match self.max() {
            Some(l) => self.bytes().len() <= l,
            None => true,
        }
    }

    /// Starts reading a body whose announced length is `content_length`; a
    /// length above the limit is refused before anything is read.
    pub fn start(content_length: Option<u64>, limit: Option<usize>, context: &str) -> (r: Result<
        BodyReader,
    >)
        ensures
            match (limit, content_length) {
                (Some(l), Some(n)) if n > l => r matches Err(e) && is_too_large(
                    e,
                    context@,
                    l,
                    Some(n),
                ),
                _ => r matches Ok(b) && b.bytes().len() == 0 && b.max() == limit && b.what()
                    == context@ && b.within_limit(),
            },
    {
        if let (Some(l), Some(n)) = (limit, content_length) {
            if n > l as u64 {
                return Err(result_too_large(context, l, Some(n)));
            }
        }
        Ok(BodyReader { body: Vec::new(), limit, context: owned(context) })
    }

    /// Adds a chunk to the body; a chunk that would take the body above the
    /// limit is refused and the body left as it was.
    pub fn push_chunk(&mut self, chunk: &[u8]) -> (r: Result<()>)
        ensures
            final(self).max() == old(self).max(),
            final(self).what() == old(self).what(),
            old(self).within_limit() ==> final(self).within_limit(),
            ({
                let raw: int = old(self).bytes().len() as int + chunk@.len() as int;
                let next: int = if raw > usize::MAX {
                    usize::MAX as int
                } else {
                    raw
                };
                match old(self).max() {
                    Some(l) if next > l => r matches Err(e) && is_too_large(
                        e,
                        old(self).what(),
                        l,
                        Some(next as u64),
                    ) && final(self).bytes() == old(self).bytes(),
                    _ => r is Ok && final(self).bytes() == old(self).bytes() + chunk@,
                }
            }),
    {
        let next_length = self.body.len().saturating_add(chunk.len());
        if let Some(limit) = self.limit {
            if next_length > limit {
                return Err(result_too_large(self.context.as_str(), limit, Some(next_length as u64)));
            }
        }
        let ghost before = self.body@;
        let mut i: usize = 0;
        while i < chunk.len()
            invariant
                i <= chunk.len(),
                self.body@ == before + chunk@.take(i as int),
                self.limit == old(self).limit,
                self.context == old(self).context,
            decreases chunk.len() - i,
        {
            self.body.push(chunk[i]);
            i = i + 1;
            assert(chunk@.take(i as int) =~= chunk@.take(i - 1).push(chunk@[i - 1]));
        }
        assert(chunk@.take(chunk.len() as int) =~= chunk@);
        assert(self.body@.len() == self.body.len());
        assert(self.body@.len() <= usize::MAX);
        Ok(())
    }

    /// The body read.
    pub fn finish(self) -> (r: Vec<u8>)
        ensures
            r@ == self.bytes(),
    {
        self.body
    }
}

} // verus!
