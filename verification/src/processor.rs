//! Conversion of documents: where a conversion runs, the document that a
//! result of Docling Serve makes, the local conversion of plain text, and
//! the file that a converted document is written to.
use vstd::prelude::*;

use crate::client::DoclingClient;
use crate::config::{copy_opt, opt_text, DoclingConvertRequest};
use crate::document::{
    chunking_view, format_extension, input_kind_of, kind_result, validation_outcome,
    ConvertOptions, ConvertRequest, InputDocument, OutputFormat, TextConvertOptions,
};
use crate::error::{is_api, is_operation, is_validation, texts, PdfConvertError, Result};
use crate::input_kind::{kind_generic_options, InputKind};
use crate::json::{copy_json, json_get, str_member, string_member, JsonMember, JsonValue};
use crate::models::{
    chunks_same, copy_chunks, copy_opt_json, opt_json_same, ChunkDocumentResponse, DoclingChunk,
    DoclingErrorItem, DocumentResultItem, ExportDocumentResponse,
};
use crate::paths::path_stem;
use crate::result::{
    array_items, json_item_messages, opt_seq, push_item_messages, push_opt, DoclingResult,
    DoclingTaskResult,
};
use crate::sorting::{same_values, sorted_unique, strictly_sorted};
use crate::strings::owned;
use vstd::string::StrSliceExecFns;
use vstd::utf8::encode_utf8;

verus! {

/// What is known of a converted document besides its content.
#[derive(Debug, Clone)]
pub struct ConvertedDocumentMetadata {
    pub input_kind: InputKind,
    pub media_type: String,
}

/// A converted document: its name, its content in each format that was
/// produced, its chunks, the archive of a ZIP result, and the errors that
/// were reported.
#[derive(Debug)]
pub struct ConvertedDocument {
    pub filename: String,
    pub markdown: Option<String>,
    pub text: Option<String>,
    pub json: Option<JsonValue>,
    pub html: Option<String>,
    pub doctags: Option<String>,
    pub doclang: Option<String>,
    pub chunks: Vec<DoclingChunk>,
    pub chunk_response: Option<ChunkDocumentResponse>,
    pub archive: Option<Vec<u8>>,
    pub metadata: ConvertedDocumentMetadata,
    pub errors: Vec<String>,
}

/// A request to convert a document and write one of its formats to a file
/// in `output_dir`.
#[derive(Debug, Clone)]
pub struct FileConvertRequest {
    pub request: ConvertRequest,
    pub output_dir: String,
    pub selected_output: OutputFormat,
    pub overwrite: bool,
}

/// A converted document and the files it was written to.
#[derive(Debug)]
pub struct ConvertedFile {
    pub document: ConvertedDocument,
    pub output_paths: Vec<String>,
}

/// The converter of documents, which sends remote conversions to a client
/// of Docling Serve.
#[derive(Debug)]
pub struct DocumentConverter {
    pub docling_client: DoclingClient,
}

impl Clone for DocumentConverter {
    fn clone(&self) -> (r: Self)
        ensures
            r == *self,
    {
        DocumentConverter { docling_client: self.docling_client.clone() }
    }
}

/// `dir` joined with `name`: a separator between them unless `dir` is empty
/// or already ends with one.
pub open spec fn join_path(dir: Seq<char>, name: Seq<char>) -> Seq<char> {
    if dir.len() == 0 {
        name
    } else if dir.last() == '/' {
        dir + name
    } else {
        dir + "/"@ + name
    }
}

/// The file a document is written to: its stem (`output` when its name has
/// none) with the extension of the format, in `output_dir`.
pub open spec fn output_path_of(output_dir: Seq<char>, filename: Seq<char>, format: OutputFormat) -> Seq<
    char,
> {
    let stem = match path_stem(filename) {
        Some(s) => s,
        None => "output"@,
    };
    join_path(output_dir, stem + "."@ + format_extension(format))
}

/// Where a conversion runs.
#[derive(Debug)]
pub enum ConversionRoute {
    /// Locally, as plain text.
    Local(TextConvertOptions),
    /// Remotely, by Docling Serve, with the given parameters.
    Remote(DoclingConvertRequest),
}

/// The parameters of the remote conversion of a request.
pub open spec fn remote_request_of(
    req: ConvertRequest,
    o: crate::document::RemoteConvertOptions,
    d: DoclingConvertRequest,
) -> bool {
    &&& d.output_formats@ == req.output_formats@
    &&& d.page_range is None
    &&& d.chunker == o.chunker
    &&& chunking_view(d.chunking) == chunking_view(o.chunking)
    &&& d.pipeline == o.pipeline
    &&& opt_text(d.picture_description_preset) == opt_text(o.picture_description_preset)
}

/// The route of a valid request: local text conversion for text options on
/// a text input, remote conversion for PDF options on a PDF input or for
/// generic options on a kind that takes them.
pub open spec fn route_of(req: ConvertRequest, k: InputKind, r: ConversionRoute) -> bool {
    match req.options {
        ConvertOptions::Text(t) => if k is Text {
            r == ConversionRoute::Local(t)
        } else {
            false
        },
        ConvertOptions::Generic(o) => kind_generic_options(k) && (r matches ConversionRoute::Remote(
            d,
        ) && remote_request_of(req, o, d)),
        ConvertOptions::Pdf(o) => k is Pdf && (r matches ConversionRoute::Remote(d)
            && remote_request_of(req, o, d)),
    }
}

fn remote_request(req: &ConvertRequest, o: &crate::document::RemoteConvertOptions) -> (r:
    DoclingConvertRequest)
    ensures
        remote_request_of(*req, *o, r),
{
    DoclingConvertRequest {
        output_formats: req.output_formats.clone(),
        page_range: None,
        chunker: o.chunker,
        chunking: o.chunking.clone(),
        pipeline: o.pipeline,
        picture_description_preset: crate::config::copy_opt(&o.picture_description_preset),
    }
}

impl DocumentConverter {
    /// A converter that sends remote conversions to `docling_client`.
    pub fn new(docling_client: DoclingClient) -> (r: DocumentConverter)
        ensures
            r.docling_client == docling_client,
    {
        DocumentConverter { docling_client }
    }

    /// Where a request is converted: a request that does not validate is its
    /// validation error; otherwise text options on a text input are converted
    /// locally, PDF or generic options that fit the input remotely, and any
    /// other pairing is a validation error of `request`.
    pub fn conversion_route(request: &ConvertRequest) -> (r: Result<ConversionRoute>)
        ensures
            match validation_outcome(*request) {
                Ok(k) => r matches Ok(route) && route_of(*request, k, route),
                Err((p, reason)) => r matches Err(e) && is_validation(e, p, reason),
            },
    {
        let kind = match request.validate() {
            Ok(k) => k,
            Err(e) => return Err(e),
        };
        match &request.options {
            ConvertOptions::Text(options) => {
                if matches!(kind, InputKind::Text) {
                    Ok(
                        ConversionRoute::Local(
                            TextConvertOptions {
                                normalize_line_endings: options.normalize_line_endings,
                                trim_utf8_bom: options.trim_utf8_bom,
                            },
                        ),
                    )
                } else {
                    Err(mismatch_error())
                }
            },
            ConvertOptions::Generic(options) => {
                if kind.uses_generic_convert_options() {
                    Ok(ConversionRoute::Remote(remote_request(request, options)))
                } else {
                    Err(mismatch_error())
                }
            },
            ConvertOptions::Pdf(options) => {
                if matches!(kind, InputKind::Pdf) {
                    Ok(ConversionRoute::Remote(remote_request(request, options)))
                } else {
                    Err(mismatch_error())
                }
            },
        }
    }

    /// The parameters of an asynchronous submission: the request must
    /// validate, and text inputs, which are converted locally, cannot be
    /// submitted (a validation error of `request`).
    pub fn submission_request(request: &ConvertRequest) -> (r: Result<DoclingConvertRequest>)
        ensures
            match validation_outcome(*request) {
                Ok(k) => match request.options {
                    ConvertOptions::Text(_) => r matches Err(e) && is_validation(
                        e,
                        "request"@,
                        local_text_reason(),
                    ),
                    ConvertOptions::Pdf(o) => if k is Text {
                        r matches Err(e) && is_validation(e, "request"@, local_text_reason())
                    } else {
                        r matches Ok(d) && remote_request_of(*request, o, d)
                    },
                    ConvertOptions::Generic(o) => if k is Text {
                        r matches Err(e) && is_validation(e, "request"@, local_text_reason())
                    } else {
                        r matches Ok(d) && remote_request_of(*request, o, d)
                    },
                },
                Err((p, reason)) => r matches Err(e) && is_validation(e, p, reason),
            },
    {
        let kind = match request.validate() {
            Ok(k) => k,
            Err(e) => return Err(e),
        };
        let options = match &request.options {
            ConvertOptions::Pdf(options) => options,
            ConvertOptions::Generic(options) => options,
            ConvertOptions::Text(_) => {
                return Err(
                    PdfConvertError::validation_error(
                        "request",
                        "text inputs are converted locally and cannot be submitted to Docling",
                    ),
                );
            },
        };
        if matches!(kind, InputKind::Text) {
            return Err(
                PdfConvertError::validation_error(
                    "request",
                    "text inputs are converted locally and cannot be submitted to Docling",
                ),
            );
        }
        Ok(remote_request(request, options))
    }

    /// The file that a document named `filename` is written to in the given
    /// format.
    pub fn calculate_output_path(output_dir: &str, filename: &str, output_format: OutputFormat) -> (r:
        String)
        ensures
            r@ == output_path_of(output_dir@, filename@, output_format),
    {
        let stem = match crate::paths::file_name_of(filename) {
            Some(name) => {
                let chars = crate::strings::to_chars(name.as_str());
                let s = crate::paths::name_stem_chars(&chars);
                crate::strings::string_from(&s)
            },
            None => owned("output"),
        };
        let mut name = stem;
        name.push_str(".");
        name.push_str(output_format.extension());
        let dir = crate::strings::to_chars(output_dir);
        if dir.len() == 0 {
            name
        } else if dir[dir.len() - 1] == '/' {
            let mut out = owned(output_dir);
            out.push_str(name.as_str());
            out
        } else {
            let mut out = owned(output_dir);
            out.push_str("/");
            out.push_str(name.as_str());
            out
        }
    }

    /// The refusal to write over an existing output: when overwriting is
    /// off and the file exists, an operation error of `writing output`.
    pub fn check_output_target(output_path: &str, overwrite: bool, exists: bool) -> (r: Result<()>)
        ensures
            (!overwrite && exists) ==> (r matches Err(e) && is_operation(
                e,
                "writing output"@,
                "output already exists and overwrite is disabled: "@ + output_path@,
            )),
            !(!overwrite && exists) ==> r is Ok,
    {
        if !overwrite && exists {
            let mut message = owned("output already exists and overwrite is disabled: ");
            message.push_str(output_path);
            return Err(PdfConvertError::operation_error("writing output", message.as_str()));
        }
        Ok(())
    }
}

/// Why a text input cannot be submitted.
pub open spec fn local_text_reason() -> Seq<char> {
    "text inputs are converted locally and cannot be submitted to Docling"@
}

fn mismatch_error() -> (e: PdfConvertError)
    ensures
        is_validation(e, "request"@, "input kind and convert options do not match"@),
{
    PdfConvertError::validation_error("request", "input kind and convert options do not match")
}

/// The messages of the document errors that carry one, in order.
pub open spec fn error_messages(items: Seq<DoclingErrorItem>) -> Seq<Seq<char>>
    decreases items.len(),
{
    if items.len() == 0 {
        Seq::empty()
    } else {
        error_messages(items.drop_last()) + opt_seq(opt_text(items.last().error_message))
    }
}

/// The messages of the errors of every document, document by document.
pub open spec fn documents_messages(docs: Seq<DocumentResultItem>) -> Seq<Seq<char>>
    decreases docs.len(),
{
    if docs.len() == 0 {
        Seq::empty()
    } else {
        documents_messages(docs.drop_last()) + error_messages(docs.last().errors@)
    }
}

/// The messages of a JSON result: its `error_message`, then the messages of
/// the items of its `errors`.
pub open spec fn json_result_messages(v: JsonValue) -> Seq<Seq<char>> {
    opt_seq(str_member(v, "error_message"@)) + json_item_messages(
        array_items(json_get(v, "errors"@)),
    )
}

/// The document holds no content in any format.
pub open spec fn no_content(d: ConvertedDocument) -> bool {
    &&& d.markdown is None
    &&& d.text is None
    &&& d.json is None
    &&& d.html is None
    &&& d.doctags is None
    &&& d.doclang is None
}

/// The document holds the contents of an exported document.
pub open spec fn content_of(d: ConvertedDocument, e: ExportDocumentResponse) -> bool {
    &&& opt_text(d.markdown) == opt_text(e.md_content)
    &&& opt_text(d.text) == opt_text(e.text_content)
    &&& opt_json_same(e.json_content, d.json)
    &&& opt_text(d.html) == opt_text(e.html_content)
    &&& opt_text(d.doctags) == opt_text(e.doctags_content)
    &&& opt_text(d.doclang) == opt_text(e.doclang_content)
}

/// The part of a JSON result that holds the document: its `document`
/// member, else the whole value.
pub open spec fn json_document(v: JsonValue) -> JsonValue {
    match json_get(v, "document"@) {
        Some(x) => x,
        None => v,
    }
}

/// The document holds the string contents of a JSON object, and a copy of
/// its `json_content`.
pub open spec fn content_of_json(d: ConvertedDocument, source: JsonValue) -> bool {
    &&& opt_text(d.markdown) == str_member(source, "md_content"@)
    &&& opt_text(d.text) == str_member(source, "text_content"@)
    &&& opt_json_same(json_get(source, "json_content"@), d.json)
    &&& opt_text(d.html) == str_member(source, "html_content"@)
    &&& opt_text(d.doctags) == str_member(source, "doctags_content"@)
    &&& opt_text(d.doclang) == str_member(source, "doclang_content"@)
}

/// The name of the document of a chunk result: that of its first chunk,
/// else that of its first document, else the input's.
pub open spec fn chunk_result_filename(c: ChunkDocumentResponse, input: InputDocument) -> Seq<char> {
    if c.chunks@.len() > 0 {
        c.chunks@[0].filename@
    } else if c.documents@.len() > 0 {
        c.documents@[0].document.filename@
    } else {
        input.filename@
    }
}

/// The messages that a result reports as the errors of its document.
pub open spec fn result_messages(result: DoclingResult) -> Seq<Seq<char>> {
    match result {
        DoclingResult::Convert(c) => error_messages(c.errors@),
        DoclingResult::Chunk(c) => documents_messages(c.documents@),
        DoclingResult::Json(v) => json_result_messages(v),
        DoclingResult::Zip(_) => Seq::empty(),
        DoclingResult::Failure(f) => seq![f.failure.message@],
    }
}

/// Apart from its errors, `d` is the document that `result` makes for
/// `input` of kind `k`.
pub open spec fn document_body_of(
    input: InputDocument,
    k: InputKind,
    result: DoclingResult,
    d: ConvertedDocument,
) -> bool {
    &&& d.metadata.input_kind == k
    &&& d.metadata.media_type@ == input.media_type@
    &&& match result {
        DoclingResult::Convert(c) => {
            &&& d.filename@ == c.document.filename@
            &&& content_of(d, c.document)
            &&& d.chunks@.len() == 0
            &&& d.chunk_response is None
            &&& d.archive is None
        },
        DoclingResult::Chunk(c) => {
            &&& d.filename@ == chunk_result_filename(c, input)
            &&& chunks_same(c.chunks@, d.chunks@)
            &&& if c.documents@.len() > 0 {
                content_of(d, c.documents@[0].document)
            } else {
                no_content(d)
            }
            &&& d.chunk_response == Some(c)
            &&& d.archive is None
        },
        DoclingResult::Json(v) => {
            &&& d.filename@ == input.filename@
            &&& if json_document(v) is Object {
                content_of_json(d, json_document(v))
            } else {
                no_content(d)
            }
            &&& d.chunks@.len() == 0
            &&& d.chunk_response is None
            &&& d.archive is None
        },
        DoclingResult::Zip(bytes) => {
            &&& d.filename@ == input.filename@
            &&& no_content(d)
            &&& d.chunks@.len() == 0
            &&& d.chunk_response is None
            &&& d.archive == Some(bytes)
        },
        DoclingResult::Failure(f) => {
            &&& d.filename@ == input.filename@
            &&& no_content(d)
            &&& d.chunks@.len() == 0
            &&& d.chunk_response is None
            &&& d.archive is None
        },
    }
}

/// `d` is the document that `result` makes for `input` of kind `k`, with
/// the messages of the result as its errors.
pub open spec fn document_of(input: InputDocument, k: InputKind, result: DoclingResult, d: ConvertedDocument) -> bool {
    document_body_of(input, k, result, d) && texts(d.errors@) == result_messages(result)
}

fn push_error_messages(out: &mut Vec<String>, items: &Vec<DoclingErrorItem>)
    ensures
        texts(final(out)@) == texts(old(out)@) + error_messages(items@),
{
    let ghost start = texts(out@);
    let mut i: usize = 0;
    while i < items.len()
        invariant
            i <= items.len(),
            texts(out@) == start + error_messages(items@.take(i as int)),
        decreases items.len() - i,
    {
        push_opt(out, copy_opt(&items[i].error_message));
        i = i + 1;
        proof {
            assert(items@.take(i as int).drop_last() =~= items@.take(i - 1));
            assert(texts(out@) =~= start + error_messages(items@.take(i as int)));
        }
    }
    assert(items@.take(items.len() as int) =~= items@);
}

fn empty_document(input: &InputDocument, input_kind: InputKind) -> (d: ConvertedDocument)
    ensures
        d.filename@ == input.filename@,
        no_content(d),
        d.chunks@.len() == 0,
        d.chunk_response is None,
        d.archive is None,
        d.metadata.input_kind == input_kind,
        d.metadata.media_type@ == input.media_type@,
        d.errors@.len() == 0,
{
    ConvertedDocument {
        filename: input.filename.clone(),
        markdown: None,
        text: None,
        json: None,
        html: None,
        doctags: None,
        doclang: None,
        chunks: Vec::new(),
        chunk_response: None,
        archive: None,
        metadata: ConvertedDocumentMetadata {
            input_kind,
            media_type: input.media_type.clone(),
        },
        errors: Vec::new(),
    }
}

fn copy_content(document: &mut ConvertedDocument, e: &ExportDocumentResponse)
    ensures
        content_of(*final(document), *e),
        final(document).filename == old(document).filename,
        final(document).chunks == old(document).chunks,
        final(document).chunk_response == old(document).chunk_response,
        final(document).archive == old(document).archive,
        final(document).metadata == old(document).metadata,
        final(document).errors == old(document).errors,
{
    document.markdown = copy_opt(&e.md_content);
    document.text = copy_opt(&e.text_content);
    document.json = copy_opt_json(&e.json_content);
    document.html = copy_opt(&e.html_content);
    document.doctags = copy_opt(&e.doctags_content);
    document.doclang = copy_opt(&e.doclang_content);
}

fn json_string(source: &JsonValue, key: &str) -> (r: Option<String>)
    ensures
        opt_text(r) == str_member(*source, key@),
{
    string_member(source, key)
}

impl DocumentConverter {
    /// The document that a result of Docling Serve makes for `input` of kind
    /// `input_kind`: a conversion gives its contents and the messages of its
    /// errors; a chunking its chunks, the contents of its first document and
    /// the messages of every document's errors; a JSON result the string
    /// contents of its `document` (or of itself) and its messages; a ZIP
    /// result its archive; a failure its message.
    pub fn build_document(input: &InputDocument, input_kind: InputKind, result: DoclingResult) -> (d:
        ConvertedDocument)
        ensures
            document_of(*input, input_kind, result, d),
    {
        let mut document = empty_document(input, input_kind);
        match result {
            DoclingResult::Convert(response) => {
                document.filename = response.document.filename.clone();
                copy_content(&mut document, &response.document);
                let mut errors: Vec<String> = Vec::new();
                push_error_messages(&mut errors, &response.errors);
                assert(texts(errors@) =~= error_messages(response.errors@));
                document.errors = errors;
            },
            DoclingResult::Chunk(response) => {
                document.filename = if response.chunks.len() > 0 {
                    response.chunks[0].filename.clone()
                } else if response.documents.len() > 0 {
                    response.documents[0].document.filename.clone()
                } else {
                    input.filename.clone()
                };
                document.chunks = copy_chunks(&response.chunks);
                let mut errors: Vec<String> = Vec::new();
                let mut i: usize = 0;
                while i < response.documents.len()
                    invariant
                        i <= response.documents.len(),
                        texts(errors@) == documents_messages(response.documents@.take(i as int)),
                    decreases response.documents.len() - i,
                {
                    push_error_messages(&mut errors, &response.documents[i].errors);
                    i = i + 1;
                    assert(response.documents@.take(i as int).drop_last()
                        =~= response.documents@.take(i - 1));
                }
                assert(response.documents@.take(response.documents.len() as int)
                    =~= response.documents@);
                document.errors = errors;
                if response.documents.len() > 0 {
                    copy_content(&mut document, &response.documents[0].document);
                }
                document.chunk_response = Some(response);
            },
            DoclingResult::Json(value) => {
                let source = match value.get("document") {
                    Some(x) => x,
                    None => &value,
                };
                if source.is_object() {
                    document.markdown = json_string(source, "md_content");
                    document.text = json_string(source, "text_content");
                    document.html = json_string(source, "html_content");
                    document.doctags = json_string(source, "doctags_content");
                    document.doclang = json_string(source, "doclang_content");
                    document.json = match source.get("json_content") {
                        Some(j) => Some(copy_json(j)),
                        None => None,
                    };
                }
                let mut errors: Vec<String> = Vec::new();
                push_opt(&mut errors, string_member(&value, "error_message"));
                match value.get("errors") {
                    Some(e) => match e.as_array() {
                        Some(items) => push_item_messages(&mut errors, items),
                        None => {},
                    },
                    None => {},
                }
                assert(texts(errors@) =~= json_result_messages(value));
                document.errors = errors;
            },
            DoclingResult::Zip(bytes) => {
                document.archive = Some(bytes);
                assert(texts(document.errors@) =~= Seq::<Seq<char>>::empty());
            },
            DoclingResult::Failure(failure) => {
                let mut errors: Vec<String> = Vec::new();
                errors.push(failure.failure.message);
                assert(texts(errors@) =~= seq![failure.failure.message@]);
                document.errors = errors;
            },
        }
        document
    }
}

/// The error of a result that reports a failed task.
pub open spec fn failure_text(message: Seq<char>) -> Seq<char> {
    "Task failed - Status: "@ + "failure"@ + ", Details: "@ + message
}

impl DocumentConverter {
    /// The document of a result: the input's kind must be known (its error
    /// otherwise); a failure is an API error; any other result makes the
    /// document.
    pub fn document_from_result(input: &InputDocument, result: DoclingResult) -> (r: Result<
        ConvertedDocument,
    >)
        ensures
            match input_kind_of(*input) {
                None => r matches Err(e) && kind_result(*input, Err(e)),
                Some(k) => match result {
                    DoclingResult::Failure(f) => r matches Err(e) && is_api(
                        e,
                        None,
                        failure_text(f.failure.message@),
                    ),
                    _ => r matches Ok(d) && document_of(*input, k, result, d),
                },
            },
    {
        let input_kind = match input.kind() {
            Ok(k) => k,
            Err(e) => return Err(e),
        };
        match result {
            DoclingResult::Failure(failure) => Err(
                PdfConvertError::api_task_failed("failure", failure.failure.message.as_str()),
            ),
            other => Ok(DocumentConverter::build_document(input, input_kind, other)),
        }
    }

    /// The document of a finished task: the document of its result, with the
    /// messages of the task's status added to its errors, which are then
    /// sorted and each kept once.
    pub fn document_from_task_result(input: &InputDocument, task_result: DoclingTaskResult) -> (r:
        Result<ConvertedDocument>)
        ensures
            match input_kind_of(*input) {
                None => r matches Err(e) && kind_result(*input, Err(e)),
                Some(k) => match task_result.result {
                    DoclingResult::Failure(f) => r matches Err(e) && is_api(
                        e,
                        None,
                        failure_text(f.failure.message@),
                    ),
                    _ => r matches Ok(d) && document_body_of(*input, k, task_result.result, d)
                        && strictly_sorted(texts(d.errors@)) && same_values(
                        texts(d.errors@),
                        result_messages(task_result.result) + texts(task_result.errors@),
                    ),
                },
            },
    {
        let DoclingTaskResult { status: _, result, errors } = task_result;
        let mut document = match DocumentConverter::document_from_result(input, result) {
            Ok(d) => d,
            Err(e) => return Err(e),
        };
        let ghost own = texts(document.errors@);
        let mut all: Vec<String> = Vec::new();
        all.append(&mut document.errors);
        let mut extra = errors;
        all.append(&mut extra);
        assert(texts(all@) =~= own + texts(task_result.errors@));
        document.errors = sorted_unique(&all);
        Ok(document)
    }
}

/// Apart from their errors, two documents hold the same: name, contents,
/// chunks, chunk response, archive and metadata.
pub open spec fn same_body(a: ConvertedDocument, b: ConvertedDocument) -> bool {
    &&& a.filename@ == b.filename@
    &&& opt_text(a.markdown) == opt_text(b.markdown)
    &&& opt_text(a.text) == opt_text(b.text)
    &&& opt_json_same(a.json, b.json)
    &&& opt_text(a.html) == opt_text(b.html)
    &&& opt_text(a.doctags) == opt_text(b.doctags)
    &&& opt_text(a.doclang) == opt_text(b.doclang)
    &&& chunks_same(a.chunks@, b.chunks@)
    &&& a.chunk_response == b.chunk_response
    &&& a.archive == b.archive
    &&& a.metadata.input_kind == b.metadata.input_kind
    &&& a.metadata.media_type@ == b.metadata.media_type@
}

proof fn lemma_opt_json_same_shared(a: Option<JsonValue>, b: Option<JsonValue>, c: Option<JsonValue>)
    requires
        opt_json_same(a, b),
        opt_json_same(a, c),
    ensures
        opt_json_same(b, c),
{
    if a is Some {
        crate::json::lemma_json_same_shared(a->0, b->0, c->0);
    }
}

proof fn lemma_chunks_same_shared(a: Seq<DoclingChunk>, b: Seq<DoclingChunk>, c: Seq<DoclingChunk>)
    requires
        chunks_same(a, b),
        chunks_same(a, c),
    ensures
        chunks_same(b, c),
{
    assert forall|i: int| 0 <= i < b.len() implies crate::models::chunk_same(#[trigger] b[i], c[i]) by {
        assert(crate::models::chunk_same(a[i], b[i]));
        assert(crate::models::chunk_same(a[i], c[i]));
        lemma_opt_json_same_shared(a[i].metadata, b[i].metadata, c[i].metadata);
    }
}

/// Two documents that a result makes for one input hold the same apart
/// from their errors.
pub proof fn lemma_document_body_unique(
    input: InputDocument,
    k: InputKind,
    result: DoclingResult,
    a: ConvertedDocument,
    b: ConvertedDocument,
)
    requires
        document_body_of(input, k, result, a),
        document_body_of(input, k, result, b),
    ensures
        same_body(a, b),
{
    match result {
        DoclingResult::Convert(c) => {
            lemma_opt_json_same_shared(c.document.json_content, a.json, b.json);
            assert(a.chunks@ =~= b.chunks@);
        },
        DoclingResult::Chunk(c) => {
            lemma_chunks_same_shared(c.chunks@, a.chunks@, b.chunks@);
            if c.documents@.len() > 0 {
                lemma_opt_json_same_shared(c.documents@[0].document.json_content, a.json, b.json);
            }
        },
        DoclingResult::Json(v) => {
            if json_document(v) is Object {
                lemma_opt_json_same_shared(json_get(json_document(v), "json_content"@), a.json, b.json);
            }
            assert(a.chunks@ =~= b.chunks@);
        },
        _ => {
            assert(a.chunks@ =~= b.chunks@);
        },
    }
}

/// The document of a finished task is the document of its result, but for
/// its errors: those of the result and the messages of the task's status,
/// sorted, each once.
pub proof fn lemma_task_document_is_result_document(
    input: InputDocument,
    k: InputKind,
    result: DoclingResult,
    status_messages: Seq<Seq<char>>,
    plain: ConvertedDocument,
    task: ConvertedDocument,
)
    requires
        document_of(input, k, result, plain),
        document_body_of(input, k, result, task),
        strictly_sorted(texts(task.errors@)),
        same_values(texts(task.errors@), result_messages(result) + status_messages),
    ensures
        same_body(plain, task),
        strictly_sorted(texts(task.errors@)),
        same_values(texts(task.errors@), texts(plain.errors@) + status_messages),
{
    lemma_document_body_unique(input, k, result, plain, task);
}

/// The text of bytes read as UTF-8, each invalid sequence replaced by
/// U+FFFD, as `String::from_utf8_lossy` reads them.
pub uninterp spec fn utf8_lossy(bytes: Seq<u8>) -> Seq<char>;

/// `String::from_utf8_lossy`: the bytes read as UTF-8, every invalid
/// sequence replaced by the replacement character. The decoding itself is
/// only named here, by `utf8_lossy` of the bytes.
#[verifier::external_body]
fn decode_utf8_lossy(bytes: &Vec<u8>) -> (s: String)
    ensures
        s@ == utf8_lossy(bytes@),
{
    String::from_utf8_lossy(bytes.as_slice()).into_owned()
}

/// `s` without its leading byte order marks.
pub open spec fn trim_bom(s: Seq<char>) -> Seq<char>
    decreases s.len(),
{
    if s.len() > 0 && s[0] == '\u{feff}' {
        trim_bom(s.drop_first())
    } else {
        s
    }
}

/// `s` with every `\r\n` and every other `\r` made a `\n`.
pub open spec fn unix_lines(s: Seq<char>) -> Seq<char>
    decreases s.len(),
{
    if s.len() == 0 {
        s
    } else if s.len() >= 2 && s[0] == '\r' && s[1] == '\n' {
        seq!['\n'] + unix_lines(s.subrange(2, s.len() as int))
    } else if s[0] == '\r' {
        seq!['\n'] + unix_lines(s.drop_first())
    } else {
        seq![s[0]] + unix_lines(s.drop_first())
    }
}

/// The HTML escape of one character.
pub open spec fn escape_char(c: char) -> Seq<char> {
    if c == '&' {
        "&amp;"@
    } else if c == '<' {
        "&lt;"@
    } else if c == '>' {
        "&gt;"@
    } else if c == '"' {
        "&quot;"@
    } else if c == '\'' {
        "&#39;"@
    } else {
        seq![c]
    }
}

/// `s` with the HTML special characters escaped.
pub open spec fn escaped(s: Seq<char>) -> Seq<char>
    decreases s.len(),
{
    if s.len() == 0 {
        s
    } else {
        escaped(s.drop_last()) + escape_char(s.last())
    }
}

/// The text of a local conversion: the decoded text, without leading byte
/// order marks and with Unix line endings when the options ask for them.
pub open spec fn local_text(raw: Seq<char>, o: TextConvertOptions) -> Seq<char> {
    let t = if o.trim_utf8_bom {
        trim_bom(raw)
    } else {
        raw
    };
    if o.normalize_line_endings {
        unix_lines(t)
    } else {
        t
    }
}

proof fn lemma_unix_lines(s: Seq<char>)
    ensures
        forall|i: int| 0 <= i < unix_lines(s).len() ==> #[trigger] unix_lines(s)[i] != '\r',
        s.len() > 0 && s[0] != '\r' ==> unix_lines(s).len() > 0 && unix_lines(s)[0] == s[0],
        s.len() == 0 ==> unix_lines(s).len() == 0,
    decreases s.len(),
{
    if s.len() >= 2 && s[0] == '\r' && s[1] == '\n' {
        lemma_unix_lines(s.subrange(2, s.len() as int));
        let t = unix_lines(s.subrange(2, s.len() as int));
        assert forall|i: int| 0 <= i < unix_lines(s).len() implies #[trigger] unix_lines(s)[i]
            != '\r' by {
            if i > 0 {
                assert(unix_lines(s)[i] == t[i - 1]);
            }
        }
    } else if s.len() > 0 {
        lemma_unix_lines(s.drop_first());
        let t = unix_lines(s.drop_first());
        assert forall|i: int| 0 <= i < unix_lines(s).len() implies #[trigger] unix_lines(s)[i]
            != '\r' by {
            if i > 0 {
                assert(unix_lines(s)[i] == t[i - 1]);
            }
        }
    }
}

proof fn lemma_trim_bom(s: Seq<char>)
    ensures
        trim_bom(s).len() > 0 ==> trim_bom(s)[0] != '\u{feff}',
    decreases s.len(),
{
    if s.len() > 0 && s[0] == '\u{feff}' {
        lemma_trim_bom(s.drop_first());
    }
}

/// The text of a local conversion with line endings normalized holds no
/// carriage return, and with byte order marks trimmed does not start with
/// one.
pub proof fn lemma_local_text(raw: Seq<char>, o: TextConvertOptions)
    ensures
        o.normalize_line_endings ==> forall|i: int|
            0 <= i < local_text(raw, o).len() ==> #[trigger] local_text(raw, o)[i] != '\r',
        o.trim_utf8_bom ==> (local_text(raw, o).len() > 0 ==> local_text(raw, o)[0]
            != '\u{feff}'),
{
    let t = if o.trim_utf8_bom {
        trim_bom(raw)
    } else {
        raw
    };
    lemma_trim_bom(raw);
    lemma_unix_lines(t);
    if o.normalize_line_endings && o.trim_utf8_bom && t.len() > 0 && t[0] == '\r' {
        if t.len() >= 2 && t[1] == '\n' {
            assert(unix_lines(t)[0] == '\n');
        } else {
            assert(unix_lines(t)[0] == '\n');
        }
    }
}

proof fn lemma_escape_char(c: char)
    ensures
        forall|i: int|
            0 <= i < escape_char(c).len() ==> !(#[trigger] escape_char(c)[i] == '<' || escape_char(
                c,
            )[i] == '>' || escape_char(c)[i] == '"' || escape_char(c)[i] == '\''),
{
    reveal_strlit("&amp;");
    reveal_strlit("&lt;");
    reveal_strlit("&gt;");
    reveal_strlit("&quot;");
    reveal_strlit("&#39;");
}

/// Escaped text holds none of `<`, `>`, `"` and `'`.
pub proof fn lemma_escaped_is_inert(s: Seq<char>)
    ensures
        forall|i: int|
            0 <= i < escaped(s).len() ==> !(#[trigger] escaped(s)[i] == '<' || escaped(s)[i] == '>'
                || escaped(s)[i] == '"' || escaped(s)[i] == '\''),
    decreases s.len(),
{
    if s.len() > 0 {
        lemma_escaped_is_inert(s.drop_last());
        lemma_escape_char(s.last());
        let a = escaped(s.drop_last());
        let b = escape_char(s.last());
        assert forall|i: int| 0 <= i < escaped(s).len() implies !(#[trigger] escaped(s)[i] == '<'
            || escaped(s)[i] == '>' || escaped(s)[i] == '"' || escaped(s)[i] == '\'') by {
            if i < a.len() {
                assert(escaped(s)[i] == a[i]);
            } else {
                assert(escaped(s)[i] == b[i - a.len()]);
            }
        }
    }
}

/// The text that an HTML reader sees in `s`: the entities `&amp;`, `&lt;`,
/// `&gt;`, `&quot;` and `&#39;` read as the characters they stand for,
/// every other character as itself.
pub open spec fn html_text(s: Seq<char>) -> Seq<char>
    decreases s.len(),
{
    if s.len() == 0 {
        s
    } else if s.len() >= 5 && s.take(5) == "&amp;"@ {
        seq!['&'] + html_text(s.skip(5))
    } else if s.len() >= 4 && s.take(4) == "&lt;"@ {
        seq!['<'] + html_text(s.skip(4))
    } else if s.len() >= 4 && s.take(4) == "&gt;"@ {
        seq!['>'] + html_text(s.skip(4))
    } else if s.len() >= 6 && s.take(6) == "&quot;"@ {
        seq!['"'] + html_text(s.skip(6))
    } else if s.len() >= 5 && s.take(5) == "&#39;"@ {
        seq!['\''] + html_text(s.skip(5))
    } else {
        seq![s[0]] + html_text(s.drop_first())
    }
}

proof fn lemma_escaped_front(s: Seq<char>)
    requires
        s.len() > 0,
    ensures
        escaped(s) == escape_char(s[0]) + escaped(s.drop_first()),
    decreases s.len(),
{
    if s.len() == 1 {
        assert(s.drop_last() =~= Seq::<char>::empty());
        assert(s.drop_first() =~= Seq::<char>::empty());
        assert(escaped(s) =~= escape_char(s[0]) + escaped(s.drop_first()));
    } else {
        lemma_escaped_front(s.drop_last());
        assert(s.drop_last().drop_first() =~= s.drop_first().drop_last());
        assert(s.drop_first().last() == s.last());
        assert(s.drop_last()[0] == s[0]);
        assert(escaped(s) =~= escape_char(s[0]) + escaped(s.drop_first()));
    }
}

/// Escaping loses nothing: an HTML reader sees in the escaped text exactly
/// the text that was escaped.
pub proof fn lemma_escaped_reads_back(s: Seq<char>)
    ensures
        html_text(escaped(s)) == s,
    decreases s.len(),
{
    reveal_strlit("&amp;");
    reveal_strlit("&lt;");
    reveal_strlit("&gt;");
    reveal_strlit("&quot;");
    reveal_strlit("&#39;");
    if s.len() > 0 {
        lemma_escaped_front(s);
        lemma_escaped_reads_back(s.drop_first());
        let c = s[0];
        let head = escape_char(c);
        let rest = escaped(s.drop_first());
        let e = head + rest;
        assert(e.take(head.len() as int) =~= head);
        assert(e.skip(head.len() as int) =~= rest);
        assert(e[0] == head[0]);
        assert("&amp;"@[0] == '&' && "&amp;"@[1] == 'a');
        assert("&lt;"@[0] == '&' && "&lt;"@[1] == 'l');
        assert("&gt;"@[0] == '&' && "&gt;"@[1] == 'g');
        assert("&quot;"@[0] == '&' && "&quot;"@[1] == 'q');
        assert("&#39;"@[0] == '&' && "&#39;"@[1] == '#');
        if c == '&' || c == '<' || c == '>' || c == '"' || c == '\'' {
            assert(e[1] == head[1]);
            if e.len() >= 5 {
                assert(e.take(5)[1] == e[1]);
            }
            if e.len() >= 4 {
                assert(e.take(4)[1] == e[1]);
            }
            if e.len() >= 6 {
                assert(e.take(6)[1] == e[1]);
            }
        } else {
            assert(head =~= seq![c]);
            assert(e.drop_first() =~= rest);
            if e.len() >= 5 {
                assert(e.take(5)[0] == c);
            }
            if e.len() >= 4 {
                assert(e.take(4)[0] == c);
            }
            if e.len() >= 6 {
                assert(e.take(6)[0] == c);
            }
        }
        assert(seq![c] + s.drop_first() =~= s);
    }
}

/// The HTML page of a text.
pub open spec fn text_page(content: Seq<char>) -> Seq<char> {
    "<!DOCTYPE html><html><body><pre>"@ + escaped(content) + "</pre></body></html>"@
}

/// Some requested format is `f`.
pub open spec fn has_format(fs: Seq<OutputFormat>, f: OutputFormat) -> bool {
    exists|i: int| 0 <= i < fs.len() && fs[i] == f
}

/// `v` is a JSON string with the text `t`, or null without one.
pub open spec fn str_or_null(v: JsonValue, t: Option<Seq<char>>) -> bool {
    match t {
        Some(x) => v matches JsonValue::Str(y) && y@ == x,
        None => v is Null,
    }
}

/// The JSON output of a local conversion: an object whose `document` holds
/// the text as `md_content` and `text_content`, and the HTML and DocTags
/// forms (null when not produced), keys in order.
pub open spec fn text_json(v: JsonValue, content: Seq<char>, html: Option<Seq<char>>, doctags: Option<Seq<char>>) -> bool {
    v matches JsonValue::Object(ms) && ms@.len() == 1 && ms@[0].key@ == "document"@ && (
    ms@[0].value matches JsonValue::Object(ns) && ns@.len() == 4 && ns@[0].key@
        == "doctags_content"@ && str_or_null(ns@[0].value, doctags) && ns@[1].key@
        == "html_content"@ && str_or_null(ns@[1].value, html) && ns@[2].key@ == "md_content"@
        && str_or_null(ns@[2].value, Some(content)) && ns@[3].key@ == "text_content"@
        && str_or_null(ns@[3].value, Some(content)))
}

/// `d` is the document of the local conversion of `input` whose decoded
/// text is `raw`.
pub open spec fn local_document(
    input: InputDocument,
    o: TextConvertOptions,
    fs: Seq<OutputFormat>,
    raw: Seq<char>,
    d: ConvertedDocument,
) -> bool {
    let content = local_text(raw, o);
    let html = if has_format(fs, OutputFormat::Html) {
        Some(text_page(content))
    } else {
        None
    };
    let doctags = if has_format(fs, OutputFormat::Doctags) {
        Some(content)
    } else {
        None
    };
    &&& d.filename@ == input.filename@
    &&& opt_text(d.markdown) == (if has_format(fs, OutputFormat::Md) {
        Some(content)
    } else {
        None
    })
    &&& opt_text(d.text) == (if has_format(fs, OutputFormat::Text) {
        Some(content)
    } else {
        None
    })
    &&& opt_text(d.html) == html
    &&& opt_text(d.doctags) == doctags
    &&& d.doclang is None
    &&& (if has_format(fs, OutputFormat::Json) {
        d.json matches Some(v) && text_json(v, content, html, doctags)
    } else {
        d.json is None
    })
    &&& d.chunks@.len() == 0
    &&& d.chunk_response is None
    &&& d.archive is None
    &&& d.metadata.input_kind is Text
    &&& d.metadata.media_type@ == input.media_type@
    &&& d.errors@.len() == 0
}

fn strip_boms(v: &Vec<char>) -> (r: Vec<char>)
    ensures
        r@ == trim_bom(v@),
{
    let mut i: usize = 0;
    assert(v@.subrange(0, v.len() as int) =~= v@);
    while i < v.len() && v[i] == '\u{feff}'
        invariant
            i <= v.len(),
            trim_bom(v@) == trim_bom(v@.subrange(i as int, v.len() as int)),
        decreases v.len() - i,
    {
        assert(v@.subrange(i as int, v.len() as int).drop_first() =~= v@.subrange(
            i + 1,
            v.len() as int,
        ));
        i = i + 1;
    }
    crate::strings::slice_chars(v, i, v.len())
}

fn to_unix_lines(v: &Vec<char>) -> (r: Vec<char>)
    ensures
        r@ == unix_lines(v@),
{
    let mut out: Vec<char> = Vec::new();
    let mut i: usize = 0;
    assert(v@.subrange(0, v.len() as int) =~= v@);
    while i < v.len()
        invariant
            i <= v.len(),
            out@ + unix_lines(v@.subrange(i as int, v.len() as int)) == unix_lines(v@),
        decreases v.len() - i,
    {
        let ghost rest = v@.subrange(i as int, v.len() as int);
        if v[i] == '\r' && i + 1 < v.len() && v[i + 1] == '\n' {
            assert(rest.subrange(2, rest.len() as int) =~= v@.subrange(i + 2, v.len() as int));
            out.push('\n');
            assert(out@ + unix_lines(v@.subrange(i + 2, v.len() as int)) =~= out@.drop_last() + (
            seq!['\n'] + unix_lines(v@.subrange(i + 2, v.len() as int))));
            i = i + 2;
        } else {
            assert(rest.drop_first() =~= v@.subrange(i + 1, v.len() as int));
            let c = if v[i] == '\r' {
                '\n'
            } else {
                v[i]
            };
            out.push(c);
            assert(out@ + unix_lines(v@.subrange(i + 1, v.len() as int)) =~= out@.drop_last() + (
            seq![c] + unix_lines(v@.subrange(i + 1, v.len() as int))));
            i = i + 1;
        }
    }
    assert(v@.subrange(v.len() as int, v.len() as int) =~= Seq::<char>::empty());
    assert(out@ + Seq::<char>::empty() =~= out@);
    out
}

fn escape_html(v: &Vec<char>) -> (r: String)
    ensures
        r@ == escaped(v@),
{
    let mut out = String::new();
    let mut i: usize = 0;
    while i < v.len()
        invariant
            i <= v.len(),
            out@ == escaped(v@.take(i as int)),
        decreases v.len() - i,
    {
        assert(v@.take(i + 1).drop_last() =~= v@.take(i as int));
        let c = v[i];
        if c == '&' {
            out.push_str("&amp;");
        } else if c == '<' {
            out.push_str("&lt;");
        } else if c == '>' {
            out.push_str("&gt;");
        } else if c == '"' {
            out.push_str("&quot;");
        } else if c == '\'' {
            out.push_str("&#39;");
        } else {
            out.push(c);
            assert(out@ =~= escaped(v@.take(i as int)) + seq![c]);
        }
        i = i + 1;
    }
    assert(v@.take(v.len() as int) =~= v@);
    out
}

fn has_format_exec(fs: &Vec<OutputFormat>, f: OutputFormat) -> (r: bool)
    ensures
        r == has_format(fs@, f),
{
    let mut i: usize = 0;
    while i < fs.len()
        invariant
            i <= fs.len(),
            forall|j: int| 0 <= j < i ==> fs@[j] != f,
        decreases fs.len() - i,
    {
        if fs[i] == f {
            return true;
        }
        i = i + 1;
    }
    false
}

fn str_or_null_value(t: &Option<String>) -> (v: JsonValue)
    ensures
        str_or_null(v, opt_text(*t)),
{
    match t {
        Some(x) => JsonValue::Str(x.clone()),
        None => JsonValue::Null,
    }
}

fn member(key: &str, value: JsonValue) -> (m: JsonMember)
    ensures
        m.key@ == key@,
        m.value == value,
{
    JsonMember { key: owned(key), value }
}

impl DocumentConverter {
    /// The document of the local conversion of a text input whose decoded
    /// text is `raw`: the text in each requested text format, its escaped HTML
    /// page and its JSON form when asked for.
    pub fn text_document(
        input: &InputDocument,
        options: &TextConvertOptions,
        output_formats: &Vec<OutputFormat>,
        raw: &str,
    ) -> (d: ConvertedDocument)
        ensures
            local_document(*input, *options, output_formats@, raw@, d),
    {
        let mut chars = crate::strings::to_chars(raw);
        if options.trim_utf8_bom {
            chars = strip_boms(&chars);
        }
        if options.normalize_line_endings {
            chars = to_unix_lines(&chars);
        }
        let content = crate::strings::string_from(&chars);
        let html = if has_format_exec(output_formats, OutputFormat::Html) {
            let mut page = owned("<!DOCTYPE html><html><body><pre>");
            let body = escape_html(&chars);
            page.push_str(body.as_str());
            page.push_str("</pre></body></html>");
            Some(page)
        } else {
            None
        };
        let doctags = if has_format_exec(output_formats, OutputFormat::Doctags) {
            Some(content.clone())
        } else {
            None
        };
        let markdown = if has_format_exec(output_formats, OutputFormat::Md) {
            Some(content.clone())
        } else {
            None
        };
        let text = if has_format_exec(output_formats, OutputFormat::Text) {
            Some(content.clone())
        } else {
            None
        };
        let json = if has_format_exec(output_formats, OutputFormat::Json) {
            let mut inner: Vec<JsonMember> = Vec::new();
            inner.push(member("doctags_content", str_or_null_value(&doctags)));
            inner.push(member("html_content", str_or_null_value(&html)));
            inner.push(member("md_content", JsonValue::Str(content.clone())));
            inner.push(member("text_content", JsonValue::Str(content.clone())));
            let mut outer: Vec<JsonMember> = Vec::new();
            outer.push(member("document", JsonValue::Object(inner)));
            Some(JsonValue::Object(outer))
        } else {
            None
        };
        ConvertedDocument {
            filename: input.filename.clone(),
            markdown,
            text,
            json,
            html,
            doctags,
            doclang: None,
            chunks: Vec::new(),
            chunk_response: None,
            archive: None,
            metadata: ConvertedDocumentMetadata {
                input_kind: InputKind::Text,
                media_type: input.media_type.clone(),
            },
            errors: Vec::new(),
        }
    }

    /// The local conversion of a text input: its bytes are read as UTF-8
    /// (invalid sequences replaced), then converted by `text_document`.
    pub fn convert_text(
        &self,
        input: &InputDocument,
        options: &TextConvertOptions,
        output_formats: &Vec<OutputFormat>,
    ) -> (r: Result<ConvertedDocument>)
        ensures
            r matches Ok(d) && local_document(
                *input,
                *options,
                output_formats@,
                utf8_lossy(input.bytes@),
                d,
            ),
    {
        let raw = decode_utf8_lossy(&input.bytes);
        Ok(DocumentConverter::text_document(input, options, output_formats, raw.as_str()))
    }
}

/// The part of a converted document that a file in some format holds.
#[derive(Debug, Clone, Copy, PartialEq, Eq, Structural)]
pub enum OutputSource {
    Archive,
    ChunkResponse,
    Json,
    Markdown,
    Text,
    Html,
    Doctags,
    Doclang,
}

/// What a file in format `f` is written from: the archive for the archive
/// formats, the chunk response for chunks, otherwise the content of that
/// format; an operation error when the document lacks it.
pub open spec fn output_source_of(d: ConvertedDocument, f: OutputFormat, r: Result<OutputSource>) -> bool {
    if crate::document::format_is_archive(f) {
        if d.archive is Some {
            r == Ok::<OutputSource, PdfConvertError>(OutputSource::Archive)
        } else {
            r matches Err(e) && is_operation(
                e,
                "writing archive"@,
                "Docling did not return an application/zip response"@,
            )
        }
    } else if f is Chunks {
        if d.chunk_response is Some {
            r == Ok::<OutputSource, PdfConvertError>(OutputSource::ChunkResponse)
        } else {
            r matches Err(e) && is_operation(
                e,
                "writing chunks"@,
                "Docling did not return a chunk response"@,
            )
        }
    } else if f is Json {
        if d.json is Some {
            r == Ok::<OutputSource, PdfConvertError>(OutputSource::Json)
        } else {
            r matches Err(e) && is_operation(e, "writing json"@, "JSON output is empty"@)
        }
    } else {
        let (present, source, name) = match f {
            OutputFormat::Md => (d.markdown is Some, OutputSource::Markdown, "markdown"@),
            OutputFormat::Text => (d.text is Some, OutputSource::Text, "text"@),
            OutputFormat::Html => (d.html is Some, OutputSource::Html, "html"@),
            OutputFormat::Doctags => (d.doctags is Some, OutputSource::Doctags, "doctags"@),
            _ => (d.doclang is Some, OutputSource::Doclang, "doclang"@),
        };
        if present {
            r == Ok::<OutputSource, PdfConvertError>(source)
        } else {
            r matches Err(e) && is_operation(e, "writing "@ + name, "output is empty"@)
        }
    }
}

fn text_source(present: bool, source: OutputSource, name: &str) -> (r: Result<OutputSource>)
    ensures
        present ==> r == Ok::<OutputSource, PdfConvertError>(source),
        !present ==> (r matches Err(e) && is_operation(e, "writing "@ + name@, "output is empty"@)),
{
    if present {
        Ok(source)
    } else {
        let context = crate::strings::concat("writing ", name);
        Err(PdfConvertError::operation_error(context.as_str(), "output is empty"))
    }
}

/// What a file in `output_format` is written from.
pub fn select_output_content(document: &ConvertedDocument, output_format: OutputFormat) -> (r:
    Result<OutputSource>)
    ensures
        output_source_of(*document, output_format, r),
{
    if output_format.is_archive() {
        if document.archive.is_some() {
            return Ok(OutputSource::Archive);
        }
        return Err(
            PdfConvertError::operation_error(
                "writing archive",
                "Docling did not return an application/zip response",
            ),
        );
    }
    if output_format.is_chunk_output() {
        if document.chunk_response.is_some() {
            return Ok(OutputSource::ChunkResponse);
        }
        return Err(
            PdfConvertError::operation_error(
                "writing chunks",
                "Docling did not return a chunk response",
            ),
        );
    }
    match output_format {
        OutputFormat::Json => {
            if document.json.is_some() {
                Ok(OutputSource::Json)
            } else {
                Err(PdfConvertError::operation_error("writing json", "JSON output is empty"))
            }
        },
        OutputFormat::Md => text_source(document.markdown.is_some(), OutputSource::Markdown, "markdown"),
        OutputFormat::Text => text_source(document.text.is_some(), OutputSource::Text, "text"),
        OutputFormat::Html => text_source(document.html.is_some(), OutputSource::Html, "html"),
        OutputFormat::Doctags => text_source(document.doctags.is_some(), OutputSource::Doctags, "doctags"),
        _ => text_source(document.doclang.is_some(), OutputSource::Doclang, "doclang"),
    }
}

/// What a file in some format holds: bytes ready to be written, or the
/// chunk response, which is written as the JSON of its type.
#[derive(Debug)]
pub enum OutputContent {
    Bytes(Vec<u8>),
    ChunkResponse,
}

/// `c` is what the part `s` of `d` gives a file: the archive's bytes, the
/// UTF-8 bytes of a text, the UTF-8 bytes of the indented JSON.
pub open spec fn content_is(d: ConvertedDocument, s: OutputSource, c: OutputContent) -> bool {
    match s {
        OutputSource::Archive => c matches OutputContent::Bytes(b) && d.archive matches Some(a)
            && b@ == a@,
        OutputSource::ChunkResponse => c is ChunkResponse,
        OutputSource::Json => c matches OutputContent::Bytes(b) && d.json matches Some(v) && b@
            == encode_utf8(crate::json::json_pretty_text(v)),
        OutputSource::Markdown => c matches OutputContent::Bytes(b) && d.markdown matches Some(t)
            && b@ == encode_utf8(t@),
        OutputSource::Text => c matches OutputContent::Bytes(b) && d.text matches Some(t) && b@
            == encode_utf8(t@),
        OutputSource::Html => c matches OutputContent::Bytes(b) && d.html matches Some(t) && b@
            == encode_utf8(t@),
        OutputSource::Doctags => c matches OutputContent::Bytes(b) && d.doctags matches Some(t)
            && b@ == encode_utf8(t@),
        OutputSource::Doclang => c matches OutputContent::Bytes(b) && d.doclang matches Some(t)
            && b@ == encode_utf8(t@),
    }
}

/// The part of a document that holds the output of a text format: the
/// Markdown for `md`, the plain text for `text`, the HTML for `html`, the
/// DocTags for `doctags`, the DocLang for `doclang`.
pub open spec fn text_part(d: ConvertedDocument, f: OutputFormat) -> Option<String> {
    match f {
        OutputFormat::Md => d.markdown,
        OutputFormat::Text => d.text,
        OutputFormat::Html => d.html,
        OutputFormat::Doctags => d.doctags,
        OutputFormat::Doclang => d.doclang,
        _ => None,
    }
}

/// The formats whose file holds one text part of the document.
pub open spec fn is_text_format(f: OutputFormat) -> bool {
    f is Md || f is Text || f is Html || f is Doctags || f is Doclang
}

/// A file in a text format holds the document's part of that same format,
/// as UTF-8: whatever other parts the document has, none of them is written
/// in its place.
pub proof fn lemma_text_output_is_its_own_part(
    d: ConvertedDocument,
    f: OutputFormat,
    s: OutputSource,
    c: OutputContent,
)
    requires
        is_text_format(f),
        output_source_of(d, f, Ok(s)),
        content_is(d, s, c),
    ensures
        text_part(d, f) matches Some(t) && c matches OutputContent::Bytes(b) && b@ == encode_utf8(
            t@,
        ),
{
}

/// A file in a text format cannot be written exactly when the document
/// lacks the part of that format.
pub proof fn lemma_text_output_fails_without_its_part(d: ConvertedDocument, f: OutputFormat, r: Result<OutputSource>)
    requires
        is_text_format(f),
        output_source_of(d, f, r),
    ensures
        r is Err <==> text_part(d, f) is None,
{
}

/// A file in an archive format holds the archive's bytes, a JSON file the
/// document's JSON indented, a chunks file the chunk response; each is an
/// error exactly when the document lacks that part.
pub proof fn lemma_other_outputs(
    d: ConvertedDocument,
    f: OutputFormat,
    r: Result<OutputSource>,
    c: OutputContent,
)
    requires
        !is_text_format(f),
        output_source_of(d, f, r),
        r matches Ok(s) ==> content_is(d, s, c),
    ensures
        crate::document::format_is_archive(f) ==> (r is Err <==> d.archive is None),
        crate::document::format_is_archive(f) && r is Ok ==> (d.archive matches Some(a) && c matches OutputContent::Bytes(b) && b@ == a@),
        f is Json ==> (r is Err <==> d.json is None),
        f is Json && r is Ok ==> (d.json matches Some(v) && c matches OutputContent::Bytes(b) && b@
            == encode_utf8(crate::json::json_pretty_text(v))),
        f is Chunks ==> (r is Err <==> d.chunk_response is None) && (r is Ok ==> c is ChunkResponse),
{
}

fn text_bytes(t: &Option<String>) -> (r: Vec<u8>)
    requires
        t is Some,
    ensures
        t matches Some(s) && r@ == encode_utf8(s@),
{
    match t {
        Some(s) => s.as_str().as_bytes_vec(),
        None => Vec::new(),
    }
}

/// What a file in `output_format` holds: the part of the document that
/// `select_output_content` chooses, as bytes (the chunk response is left to
/// the serialization of its type); its error where the part is missing.
pub fn output_content(document: &ConvertedDocument, output_format: OutputFormat) -> (r: Result<
    OutputContent,
>)
    ensures
        match r {
            Err(e) => output_source_of(*document, output_format, Err(e)),
            Ok(c) => exists|s: OutputSource|
                output_source_of(*document, output_format, Ok(s)) && #[trigger] content_is(
                    *document,
                    s,
                    c,
                ),
        },
{
    let source = match select_output_content(document, output_format) {
        Ok(s) => s,
        Err(e) => return Err(e),
    };
    let content = match source {
        OutputSource::Archive => match &document.archive {
            Some(a) => OutputContent::Bytes(a.clone()),
            None => OutputContent::Bytes(Vec::new()),
        },
        OutputSource::ChunkResponse => OutputContent::ChunkResponse,
        OutputSource::Json => match &document.json {
            Some(v) => OutputContent::Bytes(crate::json::pretty_json_text(v).as_str().as_bytes_vec()),
            None => OutputContent::Bytes(Vec::new()),
        },
        OutputSource::Markdown => OutputContent::Bytes(text_bytes(&document.markdown)),
        OutputSource::Text => OutputContent::Bytes(text_bytes(&document.text)),
        OutputSource::Html => OutputContent::Bytes(text_bytes(&document.html)),
        OutputSource::Doctags => OutputContent::Bytes(text_bytes(&document.doctags)),
        OutputSource::Doclang => OutputContent::Bytes(text_bytes(&document.doclang)),
    };
    assert(content_is(*document, source, content));
    Ok(content)
}

impl DocumentConverter {
    /// The input and the parameters of the remote conversion of a source
    /// that is fetched by URL: an empty document of the given name and kind,
    /// with the kind's canonical media type for a source.
    pub fn source_plan(
        filename: &str,
        input_kind: InputKind,
        output_formats: Vec<OutputFormat>,
        options: &crate::document::RemoteConvertOptions,
    ) -> (r: (InputDocument, DoclingConvertRequest))
        ensures
            r.0.filename@ == filename@,
            r.0.media_type@ == crate::input_kind::canonical_media(
                input_kind,
                crate::paths::lower_extension("source"@),
                None,
            ),
            r.0.bytes@.len() == 0,
            r.0.input_kind_override == Some(input_kind),
            r.1.output_formats@ == output_formats@,
            r.1.page_range is None,
            r.1.chunker == options.chunker,
            chunking_view(r.1.chunking) == chunking_view(options.chunking),
            r.1.pipeline == options.pipeline,
            opt_text(r.1.picture_description_preset) == opt_text(options.picture_description_preset),
    {
        let media_type = input_kind.canonical_media_type("source", None);
        let input = InputDocument::new(filename, media_type, Vec::new()).with_input_kind(input_kind);
        let request = DoclingConvertRequest {
            output_formats,
            page_range: None,
            chunker: options.chunker,
            chunking: options.chunking.clone(),
            pipeline: options.pipeline,
            picture_description_preset: crate::config::copy_opt(&options.picture_description_preset),
        };
        (input, request)
    }
}

} // verus!
