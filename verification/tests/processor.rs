use cloudiful_docling_convert::json::{JsonMember, JsonValue};
use cloudiful_docling_convert::models::{
    ChunkDocumentResponse, DoclingChunk, DoclingErrorItem, DocumentResultItem,
    ExportDocumentResponse, PublicFailureInfo, TaskFailureResult,
};
use cloudiful_docling_convert::processor::{
    output_content, select_output_content, ConversionRoute, OutputContent, OutputSource,
};
use cloudiful_docling_convert::{
    ChunkerKind, ConversionStatus, ConvertDocumentResponse, ConvertOptions, ConvertRequest,
    DoclingClient, DoclingConfig, DoclingResult, DoclingTaskResult, DocumentConverter,
    InputDocument, InputKind, OutputFormat, RemoteConvertOptions, TextConvertOptions,
};

fn object(members: Vec<(&str, JsonValue)>) -> JsonValue {
    JsonValue::Object(
        members
            .into_iter()
            .map(|(key, value)| JsonMember {
                key: key.to_string(),
                value,
            })
            .collect(),
    )
}

fn text(s: &str) -> JsonValue {
    JsonValue::Str(s.to_string())
}

fn converter() -> DocumentConverter {
    DocumentConverter::new(
        DoclingClient::new(DoclingConfig::without_vlm("http://localhost:5001/v1")).unwrap(),
    )
}

fn markdown_input() -> InputDocument {
    InputDocument::new("notes.md", "text/markdown", b"# hi".to_vec())
}

fn error_item(message: Option<&str>) -> DoclingErrorItem {
    DoclingErrorItem {
        component_type: None,
        module_name: None,
        error_message: message.map(str::to_string),
        category: None,
        page_no: None,
    }
}

fn chunk(filename: &str, index: u64) -> DoclingChunk {
    DoclingChunk {
        filename: filename.to_string(),
        chunk_index: index,
        text: format!("chunk {index}"),
        raw_text: None,
        num_tokens: Some(3),
        headings: Some(vec!["Intro".to_string()]),
        captions: None,
        doc_items: vec!["#/texts/0".to_string()],
        page_numbers: Some(vec![1]),
        metadata: Some(object(vec![("origin", text("docling"))])),
    }
}

#[test]
fn output_paths_use_the_stem_and_the_format_extension() {
    assert_eq!(
        DocumentConverter::calculate_output_path("out", "report.pdf", OutputFormat::Md),
        "out/report.md"
    );
    assert_eq!(
        DocumentConverter::calculate_output_path("out/", "archive.tar.gz", OutputFormat::Yaml),
        "out/archive.tar.zip"
    );
    assert_eq!(
        DocumentConverter::calculate_output_path("", ".hidden", OutputFormat::Chunks),
        ".hidden.chunks.json"
    );
    assert_eq!(
        DocumentConverter::calculate_output_path(".", "..", OutputFormat::Json),
        "./output.json"
    );
}

#[test]
fn existing_outputs_are_only_replaced_when_asked() {
    assert!(DocumentConverter::check_output_target("out/a.md", false, false).is_ok());
    assert!(DocumentConverter::check_output_target("out/a.md", true, true).is_ok());
    assert_eq!(
        DocumentConverter::check_output_target("out/a.md", false, true)
            .unwrap_err()
            .display(),
        "writing output: output already exists and overwrite is disabled: out/a.md"
    );
}

#[test]
fn conversion_results_become_documents() {
    let result = DoclingResult::Convert(ConvertDocumentResponse {
        document: ExportDocumentResponse {
            filename: "remote.md".to_string(),
            md_content: Some("# remote".to_string()),
            json_content: Some(object(vec![("k", JsonValue::Bool(true))])),
            ..ExportDocumentResponse::default()
        },
        status: ConversionStatus::PartialSuccess,
        errors: vec![error_item(Some("page failed")), error_item(None)],
        processing_time_bits: 0,
    });
    let document = DocumentConverter::build_document(&markdown_input(), InputKind::Markdown, result);
    assert_eq!(document.filename, "remote.md");
    assert_eq!(document.markdown.as_deref(), Some("# remote"));
    assert_eq!(document.json, Some(object(vec![("k", JsonValue::Bool(true))])));
    assert_eq!(document.errors, vec!["page failed".to_string()]);
    assert_eq!(document.metadata.input_kind, InputKind::Markdown);
    assert_eq!(document.metadata.media_type, "text/markdown");
}

#[test]
fn chunk_results_keep_chunks_and_the_first_document() {
    let response = ChunkDocumentResponse {
        chunks: vec![chunk("first.pdf", 0), chunk("first.pdf", 1)],
        documents: vec![
            DocumentResultItem {
                document: ExportDocumentResponse {
                    filename: "doc.pdf".to_string(),
                    text_content: Some("plain".to_string()),
                    ..ExportDocumentResponse::default()
                },
                status: ConversionStatus::Success,
                errors: vec![error_item(Some("a"))],
            },
            DocumentResultItem {
                document: ExportDocumentResponse::default(),
                status: ConversionStatus::Failure,
                errors: vec![error_item(Some("b")), error_item(None)],
            },
        ],
        processing_time_bits: 0,
    };
    let document = DocumentConverter::build_document(
        &markdown_input(),
        InputKind::Pdf,
        DoclingResult::Chunk(response),
    );
    assert_eq!(document.filename, "first.pdf");
    assert_eq!(document.chunks.len(), 2);
    assert_eq!(document.chunks[1].text, "chunk 1");
    assert_eq!(
        document.chunks[0].metadata,
        Some(object(vec![("origin", text("docling"))]))
    );
    assert_eq!(document.text.as_deref(), Some("plain"));
    assert_eq!(document.errors, vec!["a".to_string(), "b".to_string()]);
    assert_eq!(document.chunk_response.as_ref().unwrap().chunks.len(), 2);
}

#[test]
fn json_results_read_their_document_member() {
    let value = object(vec![
        (
            "document",
            object(vec![
                ("md_content", text("# md")),
                ("html_content", JsonValue::Number("3".to_string())),
                ("json_content", object(vec![("x", JsonValue::Null)])),
            ]),
        ),
        ("error_message", text("outer")),
        ("message", text("not collected")),
        (
            "errors",
            JsonValue::Array(vec![
                object(vec![("error_message", text("inner"))]),
                object(vec![("message", text("fallback"))]),
            ]),
        ),
    ]);
    let document =
        DocumentConverter::build_document(&markdown_input(), InputKind::Markdown, DoclingResult::Json(value));
    assert_eq!(document.filename, "notes.md");
    assert_eq!(document.markdown.as_deref(), Some("# md"));
    assert_eq!(document.html, None);
    assert_eq!(document.json, Some(object(vec![("x", JsonValue::Null)])));
    assert_eq!(
        document.errors,
        vec![
            "outer".to_string(),
            "inner".to_string(),
            "fallback".to_string()
        ]
    );
}

#[test]
fn zip_and_failure_results() {
    let zipped = DocumentConverter::build_document(
        &markdown_input(),
        InputKind::Markdown,
        DoclingResult::Zip(b"PK\x03\x04".to_vec()),
    );
    assert_eq!(zipped.archive, Some(b"PK\x03\x04".to_vec()));
    assert!(zipped.errors.is_empty());
    let failure = DoclingResult::Failure(TaskFailureResult {
        kind: "TaskFailureResult".to_string(),
        failure: PublicFailureInfo {
            category: "conversion".to_string(),
            message: "broken".to_string(),
            retryable: false,
            phase: "convert".to_string(),
            details: None,
        },
    });
    assert_eq!(
        DocumentConverter::document_from_result(&markdown_input(), failure)
            .unwrap_err()
            .display(),
        "Task failed - Status: failure, Details: broken"
    );
}

#[test]
fn task_results_merge_sort_and_dedup_errors() {
    let result = DoclingResult::Convert(ConvertDocumentResponse {
        document: ExportDocumentResponse::default(),
        status: ConversionStatus::PartialSuccess,
        errors: vec![error_item(Some("zeta")), error_item(Some("alpha"))],
        processing_time_bits: 0,
    });
    let document = DocumentConverter::document_from_task_result(
        &markdown_input(),
        DoclingTaskResult {
            status: ConversionStatus::PartialSuccess,
            result,
            errors: vec!["alpha".to_string(), "mid".to_string()],
        },
    )
    .unwrap();
    assert_eq!(
        document.errors,
        vec!["alpha".to_string(), "mid".to_string(), "zeta".to_string()]
    );
    let unknown = InputDocument::new("paper.xml", "application/xml", vec![]);
    assert!(DocumentConverter::document_from_result(&unknown, DoclingResult::Zip(vec![]))
        .unwrap_err()
        .display()
        .contains("explicit input_format override"));
}

#[test]
fn text_inputs_are_converted_locally() {
    let input = InputDocument::new(
        "notes.txt",
        "text/plain",
        b"\xef\xbb\xbf<a> & \"b\"\r\nnext\rlast\xff".to_vec(),
    );
    let document = converter()
        .convert_text(
            &input,
            &TextConvertOptions::default(),
            &vec![OutputFormat::Md, OutputFormat::Html, OutputFormat::Json],
        )
        .unwrap();
    let content = "<a> & \"b\"\nnext\nlast\u{fffd}";
    assert_eq!(document.markdown.as_deref(), Some(content));
    assert_eq!(document.text, None);
    assert_eq!(
        document.html.as_deref(),
        Some("<!DOCTYPE html><html><body><pre>&lt;a&gt; &amp; &quot;b&quot;\nnext\nlast\u{fffd}</pre></body></html>")
    );
    let html = document.html.clone().unwrap();
    assert_eq!(
        document.json,
        Some(object(vec![(
            "document",
            object(vec![
                ("doctags_content", JsonValue::Null),
                ("html_content", text(&html)),
                ("md_content", text(content)),
                ("text_content", text(content)),
            ])
        )]))
    );
    assert_eq!(document.metadata.input_kind, InputKind::Text);
    assert!(document.errors.is_empty());
}

#[test]
fn text_options_can_keep_the_raw_text() {
    let input = InputDocument::new("notes.txt", "text/plain", b"\xef\xbb\xbfa\r\nb".to_vec());
    let options = TextConvertOptions {
        normalize_line_endings: false,
        trim_utf8_bom: false,
    };
    let document = converter()
        .convert_text(&input, &options, &vec![OutputFormat::Text, OutputFormat::Doctags])
        .unwrap();
    assert_eq!(document.text.as_deref(), Some("\u{feff}a\r\nb"));
    assert_eq!(document.doctags.as_deref(), Some("\u{feff}a\r\nb"));
    assert_eq!(document.json, None);
}

#[test]
fn output_content_needs_the_matching_part() {
    let input = markdown_input();
    let document = DocumentConverter::text_document(
        &input,
        &TextConvertOptions::default(),
        &vec![OutputFormat::Md],
        "hello",
    );
    assert_eq!(
        select_output_content(&document, OutputFormat::Md).unwrap(),
        OutputSource::Markdown
    );
    assert_eq!(
        select_output_content(&document, OutputFormat::Html)
            .unwrap_err()
            .display(),
        "writing html: output is empty"
    );
    assert_eq!(
        select_output_content(&document, OutputFormat::Json)
            .unwrap_err()
            .display(),
        "writing json: JSON output is empty"
    );
    assert_eq!(
        select_output_content(&document, OutputFormat::Dclx)
            .unwrap_err()
            .display(),
        "writing archive: Docling did not return an application/zip response"
    );
    assert_eq!(
        select_output_content(&document, OutputFormat::Chunks)
            .unwrap_err()
            .display(),
        "writing chunks: Docling did not return a chunk response"
    );
}

#[test]
fn requests_are_routed_by_kind_and_options() {
    let text_request = ConvertRequest {
        input: InputDocument::new("a.txt", "text/plain", b"x".to_vec()),
        output_formats: vec![OutputFormat::Md],
        options: ConvertOptions::Text(TextConvertOptions::default()),
    };
    assert!(matches!(
        DocumentConverter::conversion_route(&text_request).unwrap(),
        ConversionRoute::Local(_)
    ));
    assert_eq!(
        DocumentConverter::submission_request(&text_request)
            .unwrap_err()
            .display(),
        "Validation error for 'request': text inputs are converted locally and cannot be submitted to Docling"
    );
    let mut remote = RemoteConvertOptions::default();
    remote.chunker = ChunkerKind::Hybrid;
    remote.picture_description_preset = Some("smolvlm".to_string());
    let pdf_request = ConvertRequest {
        input: InputDocument::new("a.pdf", "application/pdf", b"%PDF".to_vec()),
        output_formats: vec![OutputFormat::Chunks],
        options: ConvertOptions::Pdf(remote),
    };
    match DocumentConverter::conversion_route(&pdf_request).unwrap() {
        ConversionRoute::Remote(request) => {
            assert_eq!(request.chunker, ChunkerKind::Hybrid);
            assert_eq!(request.output_formats, vec![OutputFormat::Chunks]);
            assert_eq!(request.picture_description_preset.as_deref(), Some("smolvlm"));
        },
        ConversionRoute::Local(_) => panic!("expected a remote conversion"),
    }
    let submitted = DocumentConverter::submission_request(&pdf_request).unwrap();
    assert_eq!(submitted.chunker, ChunkerKind::Hybrid);
}

#[test]
fn sources_are_sent_as_empty_documents_of_their_kind() {
    let (input, request) = DocumentConverter::source_plan(
        "report",
        InputKind::Pdf,
        vec![OutputFormat::Md],
        &RemoteConvertOptions::default(),
    );
    assert_eq!(input.filename, "report");
    assert_eq!(input.media_type, "application/pdf");
    assert!(input.bytes.is_empty());
    assert_eq!(input.kind().unwrap(), InputKind::Pdf);
    assert_eq!(request.output_formats, vec![OutputFormat::Md]);
    assert_eq!(request.page_range, None);
}

#[test]
fn output_content_gives_the_bytes_to_write() {
    let input = markdown_input();
    let mut document = DocumentConverter::text_document(
        &input,
        &TextConvertOptions::default(),
        &vec![OutputFormat::Md],
        "h\u{e9}llo",
    );
    match output_content(&document, OutputFormat::Md).unwrap() {
        OutputContent::Bytes(bytes) => assert_eq!(bytes, "h\u{e9}llo".as_bytes().to_vec()),
        OutputContent::ChunkResponse => panic!("expected bytes"),
    }
    document.json = Some(cloudiful_docling_convert::json::JsonValue::Object(vec![
        cloudiful_docling_convert::json::JsonMember {
            key: "a".to_string(),
            value: cloudiful_docling_convert::json::JsonValue::Number("1".to_string()),
        },
    ]));
    match output_content(&document, OutputFormat::Json).unwrap() {
        OutputContent::Bytes(bytes) => assert_eq!(bytes, b"{\n  \"a\": 1\n}".to_vec()),
        OutputContent::ChunkResponse => panic!("expected bytes"),
    }
    document.archive = Some(vec![0x50, 0x4b, 3, 4]);
    match output_content(&document, OutputFormat::Dclx).unwrap() {
        OutputContent::Bytes(bytes) => assert_eq!(bytes, vec![0x50, 0x4b, 3, 4]),
        OutputContent::ChunkResponse => panic!("expected bytes"),
    }
    assert_eq!(
        output_content(&document, OutputFormat::Html).unwrap_err().display(),
        "writing html: output is empty"
    );
    assert_eq!(
        output_content(&document, OutputFormat::Chunks).unwrap_err().display(),
        "writing chunks: Docling did not return a chunk response"
    );
}

#[test]
fn task_document_is_the_result_document_but_for_its_errors() {
    let make = || {
        DoclingResult::Convert(ConvertDocumentResponse {
            document: ExportDocumentResponse {
                filename: "remote.md".to_string(),
                md_content: Some("# remote".to_string()),
                json_content: Some(object(vec![("k", JsonValue::Bool(true))])),
                ..ExportDocumentResponse::default()
            },
            status: ConversionStatus::PartialSuccess,
            errors: vec![error_item(Some("zeta")), error_item(Some("alpha"))],
            processing_time_bits: 0,
        })
    };
    let plain = DocumentConverter::document_from_result(&markdown_input(), make()).unwrap();
    let task = DocumentConverter::document_from_task_result(
        &markdown_input(),
        DoclingTaskResult {
            status: ConversionStatus::PartialSuccess,
            result: make(),
            errors: vec!["zeta".to_string(), "beta".to_string()],
        },
    )
    .unwrap();
    assert_eq!(task.filename, plain.filename);
    assert_eq!(task.markdown, plain.markdown);
    assert_eq!(task.json, plain.json);
    assert_eq!(task.metadata.media_type, plain.metadata.media_type);
    assert_eq!(plain.errors, vec!["zeta".to_string(), "alpha".to_string()]);
    assert_eq!(
        task.errors,
        vec!["alpha".to_string(), "beta".to_string(), "zeta".to_string()]
    );
}
