use cloudiful_docling_convert::json::{JsonMember, JsonValue};
use cloudiful_docling_convert::models::{ConvertDocumentResponse, DoclingErrorItem, ExportDocumentResponse};
use cloudiful_docling_convert::result::{
    classify_result, initial_capacity, is_zip_payload, BodyReader, ResultShape,
};
use cloudiful_docling_convert::{ConversionStatus, DoclingResult};

fn object(members: Vec<(&str, JsonValue)>) -> JsonValue {
    JsonValue::Object(
        members
            .into_iter()
            .map(|(key, value)| JsonMember {
                key: key.to_string(),
                value,
            })
            .collect(),
    )
}

fn text(s: &str) -> JsonValue {
    JsonValue::Str(s.to_string())
}

#[test]
fn limited_reader_accepts_exact_limit() {
    let mut reader = BodyReader::start(None, Some(4), "test").unwrap();
    reader.push_chunk(b"1234").unwrap();
    assert_eq!(reader.finish(), b"1234".to_vec());
}

#[test]
fn limited_reader_rejects_chunked_body_over_limit() {
    let mut reader = BodyReader::start(None, Some(4), "test").unwrap();
    reader.push_chunk(b"1234").unwrap();
    let error = reader
        .push_chunk(b"5")
        .expect_err("oversized body should fail");
    assert!(error.display().contains("exceeds maximum of 4 bytes"));
    assert_eq!(reader.finish(), b"1234".to_vec());
}

#[test]
fn limited_reader_rejects_known_length_before_reading() {
    let error = match BodyReader::start(Some(5), Some(4), "test") {
        Ok(_) => panic!("oversized content length should fail"),
        Err(error) => error,
    };
    assert!(error.display().contains("response is at least 5 bytes"));
    assert_eq!(
        error.display(),
        "reading test response: result body exceeds maximum of 4 bytes; response is at least 5 bytes"
    );
}

#[test]
fn unlimited_reader_keeps_every_chunk() {
    let mut reader = BodyReader::start(Some(1_000_000), None, "test").unwrap();
    reader.push_chunk(b"ab").unwrap();
    reader.push_chunk(b"").unwrap();
    reader.push_chunk(b"cd").unwrap();
    assert_eq!(reader.finish(), b"abcd".to_vec());
    assert_eq!(initial_capacity(Some(3), Some(4)), 3);
    assert_eq!(initial_capacity(Some(5), Some(4)), 0);
    assert_eq!(initial_capacity(Some(5), None), 0);
}

#[test]
fn zip_results_are_recognised_by_type_or_signature() {
    assert!(is_zip_payload(Some("Application/ZIP"), &b"anything".to_vec()));
    assert!(is_zip_payload(None, &b"PK\x03\x04zip".to_vec()));
    assert!(!is_zip_payload(Some("application/json"), &b"{}".to_vec()));
}

#[test]
fn json_results_are_classified_by_their_members() {
    assert_eq!(
        classify_result(&object(vec![("kind", text("TaskFailureResult"))])),
        ResultShape::Failure
    );
    assert_eq!(
        classify_result(&object(vec![("failure", object(vec![]))])),
        ResultShape::Failure
    );
    assert_eq!(
        classify_result(&object(vec![("chunks", JsonValue::Array(vec![]))])),
        ResultShape::Chunk
    );
    assert_eq!(
        classify_result(&object(vec![("document", object(vec![])), ("status", text("success"))])),
        ResultShape::Convert
    );
    assert_eq!(
        classify_result(&object(vec![("document", text("ok"))])),
        ResultShape::Other
    );
    assert_eq!(ResultShape::Chunk.parse_target(), "Docling chunk result");
}

#[test]
fn result_errors_and_file_names() {
    let result = DoclingResult::Convert(ConvertDocumentResponse {
        document: ExportDocumentResponse {
            filename: "notes.md".to_string(),
            ..ExportDocumentResponse::default()
        },
        status: ConversionStatus::PartialSuccess,
        errors: vec![
            DoclingErrorItem {
                component_type: None,
                module_name: None,
                error_message: Some("table failed".to_string()),
                category: None,
                page_no: Some(3),
            },
            DoclingErrorItem {
                component_type: None,
                module_name: None,
                error_message: None,
                category: None,
                page_no: None,
            },
        ],
        processing_time_bits: 0,
    });
    assert_eq!(
        result.errors(),
        vec![
            "page 3: table failed".to_string(),
            "unknown document error".to_string()
        ]
    );
    assert_eq!(result.filename(), Some("notes.md"));
    let json = DoclingResult::Json(object(vec![
        ("error_message", text("outer")),
        ("detail", text("bad request")),
        (
            "errors",
            JsonValue::Array(vec![object(vec![("message", text("inner"))])]),
        ),
    ]));
    assert_eq!(
        json.errors(),
        vec![
            "outer".to_string(),
            "bad request".to_string(),
            "inner".to_string()
        ]
    );
    assert_eq!(json.filename(), None);
    assert!(DoclingResult::Zip(vec![1, 2]).errors().is_empty());
}
