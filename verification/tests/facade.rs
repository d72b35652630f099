use cloudiful_docling_convert::{
    ChunkerKind, ConversionBehavior, ConvertOptions, ConverterBuilder, DoclingRuntimeConfig,
    EnvSettings, InputDocument, InputKind, OutputFormat, PdfConvert,
};

fn runtime() -> DoclingRuntimeConfig {
    DoclingRuntimeConfig {
        docling_base_url: "http://127.0.0.1:5001/v1".into(),
        openai_base_url: "https://example.com/v1".into(),
        vlm_pipeline_model: "test-model".into(),
        picture_description_model: "test-model".into(),
        code_formula_model: "test-model".into(),
        api_key: Some("key".into()),
        ..DoclingRuntimeConfig::without_vlm("http://127.0.0.1:5001/v1")
    }
}

#[test]
fn builder_defaults_to_markdown_output() {
    let converter = ConverterBuilder::new(runtime())
        .build(&EnvSettings::default())
        .unwrap();

    let request = converter
        .request_for_input(InputDocument::new(
            "notes.md",
            "text/markdown",
            b"# hi".to_vec(),
        ))
        .unwrap();

    assert_eq!(request.output_formats, vec![OutputFormat::Md]);
}

#[test]
fn convert_bytes_rejects_unknown_extensions() {
    let error = PdfConvert::input_for_bytes("notes.bin", b"test".to_vec()).unwrap_err();

    assert!(error.display().contains("unsupported input type"));
}

#[test]
fn convert_bytes_with_input_kind_accepts_ambiguous_sources() {
    let converter = ConverterBuilder::new(runtime())
        .build(&EnvSettings::default())
        .unwrap();

    let request = converter
        .request_for_input(
            InputDocument::new("paper.xml", "application/xml", b"<article />".to_vec())
                .with_input_kind(InputKind::XmlJats),
        )
        .unwrap();

    assert_eq!(request.input.kind().unwrap(), InputKind::XmlJats);
}

#[test]
fn builder_result_body_limit_zero_fails_build() {
    let error = match ConverterBuilder::new(runtime())
        .result_body_limit(0)
        .build(&EnvSettings::default())
    {
        Ok(_) => panic!("build should fail"),
        Err(error) => error,
    };

    assert!(error.display().contains("result_body_limit"));
    assert!(error.display().contains("greater than 0"));
}

#[test]
fn builder_result_body_limit_builds_with_default_outputs() {
    let converter = ConverterBuilder::new(runtime())
        .result_body_limit(1024)
        .build(&EnvSettings::default())
        .unwrap();

    let request = converter
        .request_for_input(InputDocument::new(
            "notes.md",
            "text/markdown",
            b"# hi".to_vec(),
        ))
        .unwrap();

    assert_eq!(request.output_formats, vec![OutputFormat::Md]);
    assert_eq!(
        converter.converter().docling_client.result_body_limit(),
        Some(1024)
    );
}

#[test]
fn builder_keeps_behavior_and_outputs() {
    let converter = PdfConvert::builder(runtime())
        .behavior(ConversionBehavior {
            chunker: ChunkerKind::Hybrid,
            ..ConversionBehavior::default()
        })
        .output_formats(vec![OutputFormat::Chunks, OutputFormat::Json])
        .build(&EnvSettings {
            tenant_id: Some("tenant".to_string()),
            ..EnvSettings::default()
        })
        .unwrap();
    let request = converter
        .request_for_input(InputDocument::new("a.pdf", "application/pdf", b"%PDF".to_vec()))
        .unwrap();
    assert_eq!(
        request.output_formats,
        vec![OutputFormat::Chunks, OutputFormat::Json]
    );
    match request.options {
        ConvertOptions::Pdf(options) => assert_eq!(options.chunker, ChunkerKind::Hybrid),
        _ => panic!("expected PDF options"),
    }
    let settings = converter.converter().docling_client.config();
    assert_eq!(settings.tenant_id.as_deref(), Some("tenant"));
    assert_eq!(settings.api_key.as_deref(), Some("key"));

    let empty = PdfConvert::builder(runtime())
        .output_formats(vec![])
        .build(&EnvSettings::default())
        .unwrap();
    let request = empty
        .request_for_input(InputDocument::new("a.pdf", "application/pdf", vec![]))
        .unwrap();
    assert_eq!(request.output_formats, vec![OutputFormat::Md]);
}

#[test]
fn byte_inputs_take_the_canonical_media_type() {
    let input = PdfConvert::input_for_bytes("cover.JPG", vec![1, 2]).unwrap();
    assert_eq!(input.media_type, "image/jpeg");
    assert_eq!(input.kind().unwrap(), InputKind::Image);
    let forced = PdfConvert::input_for_bytes_with_kind("paper.xml", vec![], InputKind::XmlJats);
    assert_eq!(forced.kind().unwrap(), InputKind::XmlJats);
}

#[test]
fn task_handles_remember_their_task() {
    let converter = PdfConvert::from_runtime_config(runtime(), &EnvSettings::default()).unwrap();
    let handle = converter.task_handle(
        InputDocument::new("notes.md", "text/markdown", vec![]),
        "task-9".to_string(),
    );
    assert_eq!(handle.task_id(), "task-9");
    assert_eq!(handle.input().filename, "notes.md");
    let from_config = PdfConvert::from_docling_config(
        cloudiful_docling_convert::DoclingConfig::without_vlm("http://localhost:5001/v1"),
    )
    .unwrap();
    assert!(from_config
        .request_for_input(InputDocument::new("notes.bin", "", vec![]))
        .is_err());
}
