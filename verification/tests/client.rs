use cloudiful_docling_convert::api::{FieldValue, FormPlan};
use cloudiful_docling_convert::client::{
    endpoint, poll_path, result_path, source_body, Delivery, SourceBody, TargetKind,
};
use cloudiful_docling_convert::{
    ChunkerKind, ChunkingOptions, DoclingClient, DoclingConfig, DoclingConvertRequest, EnvSettings,
    InputDocument, InputKind, OutputFormat,
};

fn input() -> InputDocument {
    InputDocument::new("notes.md", "text/markdown", b"# hello".to_vec())
}

fn text_fields(form: &FormPlan) -> Vec<(String, String)> {
    form.fields
        .iter()
        .map(|field| {
            let value = match &field.value {
                FieldValue::Text(text) => text.clone(),
                FieldValue::Json(_) => "<json>".to_string(),
            };
            (field.name.clone(), value)
        })
        .collect()
}

fn has_field(form: &FormPlan, name: &str, value: &str) -> bool {
    text_fields(form)
        .iter()
        .any(|(n, v)| n == name && v == value)
}

fn has_name(form: &FormPlan, name: &str) -> bool {
    form.fields.iter().any(|field| field.name == name)
}

fn vlm_config() -> DoclingConfig {
    let mut config = DoclingConfig::without_vlm("http://localhost:5001/v1");
    config.openai_base_url = "https://example.com/v1".to_string();
    config.vlm_pipeline_model = "pipeline-model".to_string();
    config.picture_description_model = "picture-model".to_string();
    config.code_formula_model = "formula-model".to_string();
    config.openai_api_key = Some("sk-test".to_string());
    config
}

#[test]
fn build_form_uses_input_media_type_and_format() {
    let client =
        DoclingClient::new(DoclingConfig::without_vlm("http://localhost:5001/v1")).unwrap();
    let input = InputDocument::new("notes.md", "text/markdown", b"# hello".to_vec());
    let request = DoclingConvertRequest::for_outputs(vec![OutputFormat::Md, OutputFormat::Text]);

    let form = client.build_form(&input, &request).unwrap();
    let debug = format!("{form:?}");
    assert!(debug.contains("text/markdown"));
    assert!(debug.contains("notes.md"));
    assert!(debug.contains("to_formats"));
    assert!(debug.contains("target_type"));
}

#[test]
fn build_form_skips_page_range_for_generic_requests() {
    let client =
        DoclingClient::new(DoclingConfig::without_vlm("http://localhost:5001/v1")).unwrap();
    let input = InputDocument::new(
        "doc.docx",
        "application/vnd.openxmlformats-officedocument.wordprocessingml.document",
        b"PK".to_vec(),
    );
    let request = DoclingConvertRequest::for_outputs(vec![OutputFormat::Md]);

    let form = client.build_form(&input, &request).unwrap();
    let debug = format!("{form:?}");
    assert!(!debug.contains("page_range"));
    assert!(debug.contains("from_formats"));
}

#[test]
fn new_with_result_body_limit_rejects_zero() {
    let error = DoclingClient::new_with_result_body_limit(
        DoclingConfig::without_vlm("http://localhost:5001/v1"),
        0,
    )
    .unwrap_err();

    assert!(error.display().contains("result_body_limit"));
    assert!(error.display().contains("greater than 0"));
}

#[test]
fn hybrid_chunk_request_uses_native_multipart_fields() {
    let client = DoclingClient::new(DoclingConfig::without_vlm("http://localhost:5001/v1")).unwrap();
    let request = DoclingConvertRequest {
        output_formats: vec![OutputFormat::Chunks],
        page_range: None,
        chunker: ChunkerKind::Hybrid,
        chunking: ChunkingOptions {
            use_markdown_tables: true,
            use_markdown_images: true,
            image_placeholder: "[IMAGE]".to_string(),
            include_raw_text: true,
            max_tokens: Some(128),
            tokenizer: Some("test-tokenizer".to_string()),
            merge_peers: false,
        },
        pipeline: None,
        picture_description_preset: None,
    };
    let form = client.build_form(&input(), &request).unwrap();
    assert_eq!(endpoint(ChunkerKind::Hybrid, Delivery::File), "chunk/hybrid/file");
    for field in [
        "convert_from_formats",
        "convert_to_formats",
        "chunking_use_markdown_tables",
        "chunking_use_markdown_images",
        "chunking_image_placeholder",
        "chunking_include_raw_text",
        "chunking_max_tokens",
        "chunking_tokenizer",
        "chunking_merge_peers",
    ] {
        assert!(has_name(&form, field), "missing multipart field {field}");
    }
    assert!(!has_name(&form, "include_chunking"));
    assert!(has_field(&form, "chunking_max_tokens", "128"));
    assert!(has_field(&form, "chunking_merge_peers", "false"));
}

#[test]
fn convert_file_sends_picture_description_preset_in_multipart() {
    let client = DoclingClient::new(DoclingConfig::without_vlm("http://localhost:5001/v1")).unwrap();
    let mut request = DoclingConvertRequest::for_outputs(vec![OutputFormat::Md]);
    request.picture_description_preset = Some("granite_vision".to_string());
    let form = client.build_form(&input(), &request).unwrap();
    assert!(has_field(&form, "picture_description_preset", "granite_vision"));
}

#[test]
fn convert_file_omits_picture_description_preset_when_unset() {
    let client = DoclingClient::new(DoclingConfig::without_vlm("http://localhost:5001/v1")).unwrap();
    let form = client
        .build_form(&input(), &DoclingConvertRequest::for_outputs(vec![OutputFormat::Md]))
        .unwrap();
    assert!(!has_name(&form, "picture_description_preset"));
}

#[test]
fn preset_overrides_legacy_picture_custom_vlm_config_in_multipart() {
    let client = DoclingClient::new(vlm_config()).unwrap();
    let pdf = InputDocument::new("paper.pdf", "application/pdf", b"%PDF".to_vec());
    let mut request = DoclingConvertRequest::for_outputs(vec![OutputFormat::Md]);
    request.picture_description_preset = Some("smolvlm".to_string());
    let form = client.build_form(&pdf, &request).unwrap();
    assert!(has_field(&form, "picture_description_preset", "smolvlm"));
    assert!(has_name(&form, "vlm_pipeline_custom_config"));
    assert!(has_name(&form, "code_formula_custom_config"));
    assert!(!has_name(&form, "picture_description_custom_config"));
}

#[test]
fn legacy_picture_custom_vlm_config_remains_when_preset_unset() {
    let client = DoclingClient::new(vlm_config()).unwrap();
    let pdf = InputDocument::new("paper.pdf", "application/pdf", b"%PDF".to_vec());
    let form = client
        .build_form(&pdf, &DoclingConvertRequest::for_outputs(vec![OutputFormat::Md]))
        .unwrap();
    assert!(has_name(&form, "picture_description_custom_config"));
    assert!(has_field(&form, "ocr_engine", "rapidocr"));
    assert!(!has_name(&form, "picture_description_preset"));
}

#[test]
fn hybrid_chunk_file_sends_convert_picture_description_preset() {
    let client = DoclingClient::new(DoclingConfig::without_vlm("http://localhost:5001/v1")).unwrap();
    let request = DoclingConvertRequest {
        output_formats: vec![OutputFormat::Chunks],
        page_range: None,
        chunker: ChunkerKind::Hybrid,
        chunking: ChunkingOptions::hybrid_defaults(),
        pipeline: None,
        picture_description_preset: Some("granite_vision".to_string()),
    };
    let form = client.build_form(&input(), &request).unwrap();
    assert!(has_field(&form, "convert_picture_description_preset", "granite_vision"));
    assert!(!has_name(&form, "picture_description_preset"));
}

#[test]
fn chunk_file_omits_convert_picture_description_preset_when_unset() {
    let client = DoclingClient::new(DoclingConfig::without_vlm("http://localhost:5001/v1")).unwrap();
    let request = DoclingConvertRequest {
        output_formats: vec![OutputFormat::Chunks],
        page_range: None,
        chunker: ChunkerKind::Hierarchical,
        chunking: ChunkingOptions::hierarchical_defaults(),
        pipeline: None,
        picture_description_preset: None,
    };
    let form = client.build_form(&input(), &request).unwrap();
    assert!(!has_name(&form, "convert_picture_description_preset"));
    assert!(!has_name(&form, "chunking_merge_peers"));
}

#[test]
fn partial_vlm_bundle_fails_the_form_of_a_pdf() {
    let mut config = DoclingConfig::without_vlm("http://localhost:5001/v1");
    config.openai_base_url = "https://example.com/v1".to_string();
    let client = DoclingClient::new(config).unwrap();
    let pdf = InputDocument::new("paper.pdf", "application/pdf", b"%PDF".to_vec());
    let error = client
        .build_form(&pdf, &DoclingConvertRequest::for_outputs(vec![OutputFormat::Md]))
        .unwrap_err();
    assert!(error.display().contains("optional VLM runtime config is incomplete"));
}

#[test]
fn urls_join_with_one_slash() {
    let client = DoclingClient::new(DoclingConfig::without_vlm("http://localhost:5001/v1//")).unwrap();
    assert_eq!(client.url("/convert/file"), "http://localhost:5001/v1/convert/file");
    assert_eq!(client.url("convert/file"), "http://localhost:5001/v1/convert/file");
    assert_eq!(poll_path("task-1"), "status/poll/task-1?wait=30");
    assert_eq!(result_path("task-1"), "result/task-1");
}

#[test]
fn source_request_uses_auth_headers_and_target_object() {
    let mut config = DoclingConfig::without_vlm("http://localhost:5001/v1");
    config.api_key = Some("secret-key".to_string());
    config.tenant_id = Some("tenant-a".to_string());
    let client = DoclingClient::new(config).unwrap();
    let headers = client.request_headers();
    assert_eq!(
        headers,
        vec![
            ("X-Api-Key".to_string(), "secret-key".to_string()),
            ("X-Tenant-Id".to_string(), "tenant-a".to_string()),
        ]
    );
    assert_eq!(endpoint(ChunkerKind::Disabled, Delivery::Source), "convert/source");
    let request = DoclingConvertRequest::for_outputs(vec![OutputFormat::Md]);
    match source_body("https://example.com/report.pdf", InputKind::Pdf, &request).unwrap() {
        SourceBody::Convert(body) => {
            assert_eq!(body.options.from_formats, vec!["pdf".to_string()]);
            assert_eq!(body.target, TargetKind::Inbody);
            assert_eq!(body.sources.len(), 1);
        },
        SourceBody::Chunk(_) => panic!("expected a conversion body"),
    }
}

#[test]
fn source_json_request_sends_picture_description_preset() {
    let mut request = DoclingConvertRequest::for_outputs(vec![OutputFormat::Yaml]);
    request.picture_description_preset = Some("granite_vision".to_string());
    match source_body("https://example.com/a.pdf", InputKind::Pdf, &request).unwrap() {
        SourceBody::Convert(body) => {
            assert_eq!(
                body.options.picture_description_preset.as_deref(),
                Some("granite_vision")
            );
            assert_eq!(body.target, TargetKind::Zip);
        },
        SourceBody::Chunk(_) => panic!("expected a conversion body"),
    }
}

#[test]
fn request_timeout_falls_back_to_the_environment() {
    let client = DoclingClient::new(DoclingConfig::without_vlm("http://localhost:5001/v1")).unwrap();
    let env = EnvSettings {
        http_timeout_secs: Some("42".to_string()),
        ..EnvSettings::default()
    };
    assert_eq!(client.request_timeout(&env), std::time::Duration::from_secs(42));
    assert_eq!(
        client.request_timeout(&EnvSettings::default()),
        std::time::Duration::from_secs(3600)
    );
}

#[test]
fn build_form_refuses_a_media_type_the_multipart_part_refuses() {
    let client =
        DoclingClient::new(DoclingConfig::without_vlm("http://localhost:5001/v1")).unwrap();
    let input = InputDocument::new("report.pdf", "not a media type", b"%PDF".to_vec());
    let request = DoclingConvertRequest::for_outputs(vec![OutputFormat::Md]);
    let error = client.build_form(&input, &request).unwrap_err();
    assert_eq!(error.api_message(), Some("failed to create multipart file: builder error"));
    assert_eq!(error.status_code(), None);

    let mut chunk_request = DoclingConvertRequest::for_outputs(vec![OutputFormat::Chunks]);
    chunk_request.chunker = ChunkerKind::Hybrid;
    let error = client.build_form(&input, &chunk_request).unwrap_err();
    assert_eq!(error.api_message(), Some("failed to create multipart file: builder error"));

    let fine = InputDocument::new("report.pdf", "application/pdf", b"%PDF".to_vec());
    assert!(client.build_form(&fine, &request).is_ok());
}

#[test]
fn json_fields_are_sent_as_compact_json() {
    let client = DoclingClient::new(vlm_config()).unwrap();
    let input = InputDocument::new("report.pdf", "application/pdf", b"%PDF".to_vec());
    let request = DoclingConvertRequest::for_outputs(vec![OutputFormat::Md]);
    let form = client.build_form(&input, &request).unwrap();
    let json_fields: Vec<_> = form
        .fields
        .iter()
        .filter(|field| matches!(field.value, FieldValue::Json(_)))
        .collect();
    assert!(!json_fields.is_empty());
    for field in json_fields {
        let text = field.text_value();
        let parsed: serde_json::Value = serde_json::from_str(&text).unwrap();
        assert_eq!(text, parsed.to_string());
        assert!(!text.contains('\n'));
    }
    let text_field = form.fields.iter().find(|f| f.name == "from_formats").unwrap();
    assert_eq!(text_field.text_value(), "pdf");
}
