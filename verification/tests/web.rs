use cloudiful_docling_convert::models::TaskProcessingMeta;
use cloudiful_docling_convert::web::{
    behavior_from_task_config, create_docling_client, docling_status_update, output_content_type,
    resolve_input_kind, sanitize_filename, task_file_request, task_outcome, task_remote_options,
    url_input_kind, ChunkingOptionsInput, ServiceSettings, StatusUpdate, TaskConfig,
    TaskConfigInput, TaskStatus,
};
use cloudiful_docling_convert::client::{source_body, SourceBody};
use cloudiful_docling_convert::{
    ChunkerKind, ConversionStatus, DocumentConverter, EnvSettings, InputDocument, InputKind, OutputFormat,
    PipelineKind, TaskStatusResponse,
};

fn fields(pairs: &[(&str, &str)]) -> Vec<(String, String)> {
    pairs
        .iter()
        .map(|(key, value)| (key.to_string(), value.to_string()))
        .collect()
}

#[test]
fn test_sanitize_filename() {
    assert_eq!(sanitize_filename("document.pdf"), "document.pdf");
    assert_eq!(sanitize_filename("/path/to/document.pdf"), "document.pdf");
    assert_eq!(sanitize_filename("C:\\Users\\doc.pdf"), "doc.pdf");
    assert_eq!(sanitize_filename("doc.pdf?token=123"), "doc.pdf");
    assert_eq!(sanitize_filename("doc.pdf#page=1"), "doc.pdf");
    assert_eq!(
        sanitize_filename("doc< > : \" | *.pdf"),
        "doc_ _ _ _ _ _.pdf"
    );
    assert_eq!(sanitize_filename("..pdf"), "pdf");
    assert_eq!(sanitize_filename(".pdf"), "pdf");
    assert_eq!(sanitize_filename("test."), "test");
    assert_eq!(sanitize_filename(""), "downloaded");
    assert_eq!(sanitize_filename("   "), "downloaded");
}

#[test]
fn sanitized_names_are_never_empty_or_unsafe() {
    for name in ["/", "a/b\\c?d#e", "<>:\"|*", "...", " . a", "https://x.org/dl?file=a.pdf#x"] {
        let safe = sanitize_filename(name);
        assert!(!safe.is_empty(), "{name}");
        assert!(
            !safe.contains(['/', '\\', '?', '#', '<', '>', ':', '"', '|', '*', '\0']),
            "{name} gave {safe}"
        );
    }
}

#[test]
fn resolves_native_chunker_and_pipeline() {
    let config = TaskConfigInput {
        format: Some("chunks".into()),
        chunker: Some("hybrid".into()),
        pipeline: Some("asr".into()),
        ..TaskConfigInput::default()
    }
    .resolve()
    .unwrap();

    assert_eq!(config.chunker, ChunkerKind::Hybrid);
    assert_eq!(config.pipeline, Some(PipelineKind::Asr));
}

#[test]
fn maps_legacy_chunking_true_to_hybrid() {
    let config = TaskConfigInput {
        chunking: Some(true),
        ..TaskConfigInput::default()
    }
    .resolve()
    .unwrap();
    assert_eq!(config.chunker, ChunkerKind::Hybrid);
}

#[test]
fn multipart_parses_chunk_options_without_old_split_fields() {
    let fields = fields(&[
        ("format", "chunks"),
        ("chunker", "hierarchical"),
        ("include_raw_text", "true"),
    ]);
    let config = TaskConfigInput::from_multipart_fields(&fields)
        .unwrap()
        .resolve()
        .unwrap();
    assert_eq!(config.chunker, ChunkerKind::Hierarchical);
    assert!(config.chunking_options.include_raw_text);
}

#[test]
fn resolves_picture_description_preset_from_json_input() {
    let config = TaskConfigInput {
        picture_description_preset: Some("smolvlm".to_string()),
        ..TaskConfigInput::default()
    }
    .resolve()
    .unwrap();
    assert_eq!(
        config.picture_description_preset.as_deref(),
        Some("smolvlm")
    );
}

#[test]
fn empty_picture_description_preset_resolves_to_none() {
    let config = TaskConfigInput {
        picture_description_preset: Some("   ".to_string()),
        ..TaskConfigInput::default()
    }
    .resolve()
    .unwrap();
    assert!(config.picture_description_preset.is_none());
}

#[test]
fn multipart_parses_picture_description_preset() {
    let fields = fields(&[("picture_description_preset", "granite_vision")]);
    let config = TaskConfigInput::from_multipart_fields(&fields)
        .unwrap()
        .resolve()
        .unwrap();
    assert_eq!(
        config.picture_description_preset.as_deref(),
        Some("granite_vision")
    );
}

#[test]
fn bad_task_settings_are_bad_requests() {
    for input in [
        TaskConfigInput {
            format: Some("pdf".into()),
            ..TaskConfigInput::default()
        },
        TaskConfigInput {
            input_format: Some("xml".into()),
            ..TaskConfigInput::default()
        },
        TaskConfigInput {
            chunker: Some("semantic".into()),
            ..TaskConfigInput::default()
        },
        TaskConfigInput {
            pipeline: Some("fast".into()),
            ..TaskConfigInput::default()
        },
    ] {
        assert_eq!(input.resolve().unwrap_err(), 400);
    }
    assert_eq!(
        TaskConfigInput::from_multipart_fields(&fields(&[("chunking", "maybe")])).unwrap_err(),
        400
    );
    assert_eq!(
        TaskConfigInput::from_multipart_fields(&fields(&[("max_tokens", "-1")])).unwrap_err(),
        400
    );
}

#[test]
fn multipart_fields_fill_the_chunking_options() {
    let input = TaskConfigInput::from_multipart_fields(&fields(&[
        ("chunking", " TRUE "),
        ("max_tokens", "256"),
        ("merge_peers", "0"),
        ("tokenizer", "tok"),
        ("format", "md"),
        ("format", "json"),
    ]))
    .unwrap();
    assert_eq!(input.chunking, Some(true));
    assert_eq!(input.format.as_deref(), Some("json"));
    let options = input.chunking_options.clone().unwrap();
    assert_eq!(options.max_tokens, Some(256));
    assert_eq!(options.merge_peers, Some(false));
    assert_eq!(options.use_markdown_tables, None);
    let config = input.resolve().unwrap();
    assert_eq!(config.chunker, ChunkerKind::Hybrid);
    assert_eq!(config.format, "json");
    assert_eq!(config.chunking_options.max_tokens, Some(256));
    assert!(!config.chunking_options.merge_peers);
    assert_eq!(config.chunking_options.tokenizer.as_deref(), Some("tok"));
    assert_eq!(config.chunking_options.image_placeholder, "![IMAGE]");
    let without = TaskConfigInput::from_multipart_fields(&fields(&[("format", "md")])).unwrap();
    assert!(without.chunking_options.is_none());
    let defaults = TaskConfigInput {
        chunking_options: Some(ChunkingOptionsInput::default()),
        ..TaskConfigInput::default()
    }
    .resolve()
    .unwrap();
    assert_eq!(
        defaults.chunking_options.tokenizer.as_deref(),
        Some("sentence-transformers/all-MiniLM-L6-v2")
    );
}

#[test]
fn uploads_resolve_their_kind() {
    assert_eq!(
        resolve_input_kind("paper.xml", "application/xml", None),
        Err(400)
    );
    assert_eq!(
        resolve_input_kind("paper.xml", "application/xml", Some("xml_jats")),
        Ok(InputKind::XmlJats)
    );
    assert_eq!(
        resolve_input_kind("binary.exe", "application/octet-stream", None),
        Err(415)
    );
    assert_eq!(
        resolve_input_kind("notes.md", "text/markdown", None),
        Ok(InputKind::Markdown)
    );
    assert_eq!(resolve_input_kind("a.pdf", "", Some("nope")), Err(400));
}

#[test]
fn downloads_have_content_types() {
    assert_eq!(output_content_type("json"), "application/json");
    assert_eq!(output_content_type("text"), "text/plain; charset=utf-8");
    assert_eq!(output_content_type("html"), "text/html; charset=utf-8");
    assert_eq!(output_content_type("doctags"), "text/plain; charset=utf-8");
    assert_eq!(output_content_type("md"), "text/markdown; charset=utf-8");
    assert_eq!(output_content_type("anything"), "text/markdown; charset=utf-8");
}

fn status(meta: Option<(u64, u64)>, error_message: Option<&str>) -> TaskStatusResponse {
    TaskStatusResponse {
        task_id: "t".to_string(),
        task_type: None,
        task_status: ConversionStatus::Started,
        task_position: None,
        task_meta: meta.map(|(docs, processed)| TaskProcessingMeta {
            num_docs: docs,
            num_processed: processed,
            ..TaskProcessingMeta::default()
        }),
        error_message: error_message.map(str::to_string),
        failure: None,
    }
}

#[test]
fn docling_progress_runs_from_ten_to_ninety() {
    match docling_status_update(&status(Some((4, 1)), None)) {
        StatusUpdate::Documents {
            completed,
            total,
            progress,
            message,
        } => {
            assert_eq!((completed, total, progress), (1, 4, 30));
            assert_eq!(message, "Docling processed 1/4 documents");
        },
        other => panic!("unexpected update {other:?}"),
    }
    match docling_status_update(&status(Some((2, 5)), Some("slow"))) {
        StatusUpdate::Documents {
            completed,
            progress,
            message,
            ..
        } => {
            assert_eq!((completed, progress), (2, 90));
            assert_eq!(message, "slow");
        },
        other => panic!("unexpected update {other:?}"),
    }
    match docling_status_update(&status(Some((0, 0)), None)) {
        StatusUpdate::Documents { progress, .. } => assert_eq!(progress, 10),
        other => panic!("unexpected update {other:?}"),
    }
    match docling_status_update(&status(None, Some("queued"))) {
        StatusUpdate::Processing { progress, message } => {
            assert_eq!(progress, 20);
            assert_eq!(message, "queued");
        },
        other => panic!("unexpected update {other:?}"),
    }
    assert!(matches!(
        docling_status_update(&status(None, None)),
        StatusUpdate::Unchanged
    ));
    let mut previous = 0;
    for processed in 0..=7 {
        match docling_status_update(&status(Some((7, processed)), None)) {
            StatusUpdate::Documents { progress, .. } => {
                assert!(progress >= previous && (10..=90).contains(&progress));
                previous = progress;
            },
            other => panic!("unexpected update {other:?}"),
        }
    }
}

#[test]
fn finished_tasks_report_chunks_and_errors() {
    let done = task_outcome(0, &vec![]);
    assert_eq!(done.status, TaskStatus::Completed);
    assert_eq!(done.total_chunks, 1);
    assert_eq!(done.message, "Conversion completed");
    let partial = task_outcome(12, &vec!["a".to_string(), "b".to_string()]);
    assert_eq!(partial.status, TaskStatus::Partial);
    assert_eq!(partial.total_chunks, 12);
    assert_eq!(partial.message, "a; b");
}

#[test]
fn url_tasks_need_a_kind() {
    assert_eq!(url_input_kind(Some("json_docling"), "download").unwrap(), InputKind::JsonDocling);
    assert_eq!(url_input_kind(None, "report.pdf").unwrap(), InputKind::Pdf);
    assert_eq!(
        url_input_kind(None, "download").unwrap_err().display(),
        "Validation error for 'input_format': URL filename has no supported extension; provide input_format"
    );
    assert!(url_input_kind(Some("xml"), "report.pdf").is_err());
}

#[test]
fn task_requests_follow_the_task_settings() {
    let mut config = TaskConfig::default();
    config.format = "json".to_string();
    config.chunker = ChunkerKind::Hierarchical;
    config.pipeline = Some(PipelineKind::Vlm);
    let behavior = behavior_from_task_config(&config);
    assert_eq!(behavior.chunker, ChunkerKind::Hierarchical);
    assert_eq!(behavior.pipeline, Some(PipelineKind::Vlm));
    let request = task_file_request(
        InputDocument::new("a.docx", "application/vnd.openxmlformats-officedocument.wordprocessingml.document", vec![]),
        &config,
        "/tmp/task",
    )
    .unwrap();
    assert_eq!(request.selected_output, OutputFormat::Json);
    assert!(request.overwrite);
    assert_eq!(request.output_dir, "/tmp/task");
    let options = task_remote_options(&config);
    assert_eq!(options.chunker, ChunkerKind::Hierarchical);
    assert!(options.picture_description_preset.is_none());
    let settings = ServiceSettings {
        docling_base_url: "http://docling:5001/v1".to_string(),
        openai_base_url: String::new(),
        vlm_pipeline_model: String::new(),
        picture_description_model: String::new(),
        code_formula_model: String::new(),
    };
    let env = EnvSettings {
        openai_api_key: Some("sk".to_string()),
        docling_api_key: Some("dk".to_string()),
        ..EnvSettings::default()
    };
    let client = create_docling_client(&settings, &env).unwrap();
    assert_eq!(client.config().openai_api_key.as_deref(), Some("sk"));
    assert_eq!(client.config().api_key.as_deref(), Some("sk"));
    let env = EnvSettings {
        docling_api_key: Some("dk".to_string()),
        ..EnvSettings::default()
    };
    let client = create_docling_client(&settings, &env).unwrap();
    assert_eq!(client.config().openai_api_key, None);
    assert_eq!(client.config().api_key.as_deref(), Some("dk"));
}

#[test]
fn url_task_forwards_its_picture_description_preset() {
    let mut config = TaskConfig::default();
    config.picture_description_preset = Some("smolvlm".to_string());
    let options = task_remote_options(&config);
    assert_eq!(options.picture_description_preset.as_deref(), Some("smolvlm"));
    let (_, request) = DocumentConverter::source_plan(
        "report.pdf",
        InputKind::Pdf,
        vec![OutputFormat::Md],
        &options,
    );
    assert_eq!(request.picture_description_preset.as_deref(), Some("smolvlm"));
    match source_body("https://example.com/report.pdf", InputKind::Pdf, &request).unwrap() {
        SourceBody::Convert(body) => assert_eq!(
            body.options.picture_description_preset.as_deref(),
            Some("smolvlm")
        ),
        SourceBody::Chunk(_) => panic!("expected a conversion body"),
    }

    let options = task_remote_options(&TaskConfig::default());
    assert!(options.picture_description_preset.is_none());
    let (_, request) = DocumentConverter::source_plan(
        "report.pdf",
        InputKind::Pdf,
        vec![OutputFormat::Md],
        &options,
    );
    match source_body("https://example.com/report.pdf", InputKind::Pdf, &request).unwrap() {
        SourceBody::Convert(body) => assert!(body.options.picture_description_preset.is_none()),
        SourceBody::Chunk(_) => panic!("expected a conversion body"),
    }
}
