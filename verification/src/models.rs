//! The values that Docling Serve returns.
use vstd::prelude::*;

use crate::config::{copy_opt, opt_text};
use crate::error::texts;
use crate::json::{copy_json, json_same, JsonValue};
use crate::strings::owned;

verus! {

/// The status of a Docling task or document.
#[derive(Debug, Clone, Copy, PartialEq, Eq, Structural)]
pub enum ConversionStatus {
    Pending,
    Started,
    Failure,
    Success,
    PartialSuccess,
    Skipped,
}

/// The debug name of a status, as it appears in messages.
pub open spec fn status_debug_name(s: ConversionStatus) -> Seq<char> {
    match s {
        ConversionStatus::Pending => "Pending"@,
        ConversionStatus::Started => "Started"@,
        ConversionStatus::Failure => "Failure"@,
        ConversionStatus::Success => "Success"@,
        ConversionStatus::PartialSuccess => "PartialSuccess"@,
        ConversionStatus::Skipped => "Skipped"@,
    }
}

/// A task in this status will not change any more.
pub open spec fn status_terminal(s: ConversionStatus) -> bool {
    !(s is Pending || s is Started)
}

/// A task in this status has failed or was skipped.
pub open spec fn status_failed(s: ConversionStatus) -> bool {
    s is Failure || s is Skipped
}

impl ConversionStatus {
    /// Whether the status is final.
    pub fn is_terminal(self) -> (r: bool)
        ensures
            r == status_terminal(self),
    {
        match self {
            ConversionStatus::Pending | ConversionStatus::Started => false,
            _ => true,
        }
    }

    /// Whether the status is a full or partial success.
    pub fn is_successful(self) -> (r: bool)
        ensures
            r == (self is Success || self is PartialSuccess),
    {
        match self {
            ConversionStatus::Success | ConversionStatus::PartialSuccess => true,
            _ => false,
        }
    }

    /// The debug name of the status.
    pub fn debug_name(self) -> (r: &'static str)
        ensures
            r@ == status_debug_name(self),
    {
        match self {
            ConversionStatus::Pending => "Pending",
            ConversionStatus::Started => "Started",
            ConversionStatus::Failure => "Failure",
            ConversionStatus::Success => "Success",
            ConversionStatus::PartialSuccess => "PartialSuccess",
            ConversionStatus::Skipped => "Skipped",
        }
    }
}

/// The answer to an asynchronous submission.
#[derive(Debug, Clone)]
pub struct TaskPostResponse {
    pub task_id: String,
}

/// Progress counters of a task.
#[derive(Debug, Clone, Default)]
pub struct TaskProcessingMeta {
    pub num_docs: u64,
    pub num_processed: u64,
    pub num_succeeded: u64,
    pub num_partially_succeeded: u64,
    pub num_failed: u64,
}

/// A failure as Docling Serve reports it.
#[derive(Debug)]
pub struct PublicFailureInfo {
    pub category: String,
    pub message: String,
    pub retryable: bool,
    pub phase: String,
    pub details: Option<JsonValue>,
}

/// The status of a task.
#[derive(Debug)]
pub struct TaskStatusResponse {
    pub task_id: String,
    pub task_type: Option<String>,
    pub task_status: ConversionStatus,
    pub task_position: Option<u64>,
    pub task_meta: Option<TaskProcessingMeta>,
    pub error_message: Option<String>,
    pub failure: Option<PublicFailureInfo>,
}

/// The result of a task that failed.
#[derive(Debug)]
pub struct TaskFailureResult {
    pub kind: String,
    pub failure: PublicFailureInfo,
}

/// The kind that a failure result carries when the response omits it.
pub fn task_failure_kind() -> (r: String)
    ensures
        r@ == "TaskFailureResult"@,
{
    owned("TaskFailureResult")
}

/// An error that Docling Serve reports for a document.
#[derive(Debug, Clone)]
pub struct DoclingErrorItem {
    pub component_type: Option<String>,
    pub module_name: Option<String>,
    pub error_message: Option<String>,
    pub category: Option<String>,
    pub page_no: Option<u64>,
}

/// A converted document in the formats that were asked for.
#[derive(Debug)]
pub struct ExportDocumentResponse {
    pub filename: String,
    pub md_content: Option<String>,
    pub json_content: Option<JsonValue>,
    pub html_content: Option<String>,
    pub text_content: Option<String>,
    pub doctags_content: Option<String>,
    pub doclang_content: Option<String>,
}

impl Default for ExportDocumentResponse {
    fn default() -> (r: ExportDocumentResponse)
        ensures
            r.filename@.len() == 0,
            r.md_content is None,
            r.json_content is None,
            r.html_content is None,
            r.text_content is None,
            r.doctags_content is None,
            r.doclang_content is None,
    {
        ExportDocumentResponse {
            filename: String::new(),
            md_content: None,
            json_content: None,
            html_content: None,
            text_content: None,
            doctags_content: None,
            doclang_content: None,
        }
    }
}

/// One document of a chunk response.
#[derive(Debug)]
pub struct DocumentResultItem {
    pub document: ExportDocumentResponse,
    pub status: ConversionStatus,
    pub errors: Vec<DoclingErrorItem>,
}

/// The result of a conversion; the processing time is kept as the bits of
/// its IEEE-754 value in seconds.
#[derive(Debug)]
pub struct ConvertDocumentResponse {
    pub document: ExportDocumentResponse,
    pub status: ConversionStatus,
    pub errors: Vec<DoclingErrorItem>,
    pub processing_time_bits: u64,
}

/// A chunk of a document.
#[derive(Debug)]
pub struct DoclingChunk {
    pub filename: String,
    pub chunk_index: u64,
    pub text: String,
    pub raw_text: Option<String>,
    pub num_tokens: Option<u64>,
    pub headings: Option<Vec<String>>,
    pub captions: Option<Vec<String>>,
    pub doc_items: Vec<String>,
    pub page_numbers: Option<Vec<u64>>,
    pub metadata: Option<JsonValue>,
}

/// The result of a chunking; the processing time is kept as the bits of its
/// IEEE-754 value in seconds.
#[derive(Debug)]
pub struct ChunkDocumentResponse {
    pub chunks: Vec<DoclingChunk>,
    pub documents: Vec<DocumentResultItem>,
    pub processing_time_bits: u64,
}

/// Two optional JSON values are both absent or the same value.
pub open spec fn opt_json_same(a: Option<JsonValue>, b: Option<JsonValue>) -> bool {
    match a {
        Some(x) => b matches Some(y) && json_same(x, y),
        None => b is None,
    }
}

/// The texts of an optional list of strings.
pub open spec fn opt_texts(o: Option<Vec<String>>) -> Option<Seq<Seq<char>>> {
    match o {
        Some(v) => Some(texts(v@)),
        None => None,
    }
}

/// The numbers of an optional list.
pub open spec fn opt_numbers(o: Option<Vec<u64>>) -> Option<Seq<u64>> {
    match o {
        Some(v) => Some(v@),
        None => None,
    }
}

/// `b` holds the same chunk as `a`.
pub open spec fn chunk_same(a: DoclingChunk, b: DoclingChunk) -> bool {
    &&& a.filename@ == b.filename@
    &&& a.chunk_index == b.chunk_index
    &&& a.text@ == b.text@
    &&& opt_text(a.raw_text) == opt_text(b.raw_text)
    &&& a.num_tokens == b.num_tokens
    &&& opt_texts(a.headings) == opt_texts(b.headings)
    &&& opt_texts(a.captions) == opt_texts(b.captions)
    &&& texts(a.doc_items@) == texts(b.doc_items@)
    &&& opt_numbers(a.page_numbers) == opt_numbers(b.page_numbers)
    &&& opt_json_same(a.metadata, b.metadata)
}

/// `b` holds the same chunks as `a`, in the same order.
pub open spec fn chunks_same(a: Seq<DoclingChunk>, b: Seq<DoclingChunk>) -> bool {
    a.len() == b.len() && forall|i: int| 0 <= i < a.len() ==> chunk_same(#[trigger] a[i], b[i])
}

/// A copy of a list of strings.
pub fn copy_strings(v: &Vec<String>) -> (r: Vec<String>)
    ensures
        texts(r@) == texts(v@),
{
    let mut r: Vec<String> = Vec::new();
    let mut i: usize = 0;
    while i < v.len()
        invariant
            i <= v.len(),
            r@.len() == i,
            forall|j: int| 0 <= j < i ==> (#[trigger] r@[j])@ == v@[j]@,
        decreases v.len() - i,
    {
        r.push(v[i].clone());
        i = i + 1;
    }
    assert(texts(r@) =~= texts(v@));
    r
}

fn copy_opt_strings(o: &Option<Vec<String>>) -> (r: Option<Vec<String>>)
    ensures
        opt_texts(r) == opt_texts(*o),
{
    match o {
        Some(v) => Some(copy_strings(v)),
        None => None,
    }
}

fn copy_opt_numbers(o: &Option<Vec<u64>>) -> (r: Option<Vec<u64>>)
    ensures
        opt_numbers(r) == opt_numbers(*o),
{
    match o {
        Some(v) => {
            let mut r: Vec<u64> = Vec::new();
            let mut i: usize = 0;
            while i < v.len()
                invariant
                    i <= v.len(),
                    r@ == v@.take(i as int),
                decreases v.len() - i,
            {
                r.push(v[i]);
                i = i + 1;
                assert(r@ =~= v@.take(i as int));
            }
            assert(v@.take(v.len() as int) =~= v@);
            Some(r)
        },
        None => None,
    }
}

/// A copy of an optional JSON value.
pub fn copy_opt_json(o: &Option<JsonValue>) -> (r: Option<JsonValue>)
    ensures
        opt_json_same(*o, r),
{
    match o {
        Some(v) => Some(copy_json(v)),
        None => None,
    }
}

/// A copy of a chunk.
pub fn copy_chunk(c: &DoclingChunk) -> (r: DoclingChunk)
    ensures
        chunk_same(*c, r),
{
    DoclingChunk {
        filename: c.filename.clone(),
        chunk_index: c.chunk_index,
        text: c.text.clone(),
        raw_text: copy_opt(&c.raw_text),
        num_tokens: c.num_tokens,
        headings: copy_opt_strings(&c.headings),
        captions: copy_opt_strings(&c.captions),
        doc_items: copy_strings(&c.doc_items),
        page_numbers: copy_opt_numbers(&c.page_numbers),
        metadata: copy_opt_json(&c.metadata),
    }
}

/// A copy of a list of chunks.
pub fn copy_chunks(v: &Vec<DoclingChunk>) -> (r: Vec<DoclingChunk>)
    ensures
        chunks_same(v@, r@),
{
    let mut r: Vec<DoclingChunk> = Vec::new();
    let mut i: usize = 0;
    while i < v.len()
        invariant
            i <= v.len(),
            r@.len() == i,
            forall|j: int| 0 <= j < i ==> chunk_same(#[trigger] v@[j], r@[j]),
        decreases v.len() - i,
    {
        let c = copy_chunk(&v[i]);
        r.push(c);
        i = i + 1;
    }
    r
}

} // verus!
