use cloudiful_docling_convert::{
    ChunkerKind, ChunkingOptions, ConvertOptions, ConvertRequest, InputDocument, InputKind,
    OutputFormat,
    PipelineKind, RemoteConvertOptions,
};

#[test]
fn output_format_supports_native_and_archive_outputs() {
    for (value, format) in [
        ("md", OutputFormat::Md),
        ("markdown", OutputFormat::Md),
        ("json", OutputFormat::Json),
        ("yaml", OutputFormat::Yaml),
        ("yml", OutputFormat::Yaml),
        ("html", OutputFormat::Html),
        ("html_split_page", OutputFormat::HtmlSplitPage),
        ("html-split-page", OutputFormat::HtmlSplitPage),
        ("text", OutputFormat::Text),
        ("txt", OutputFormat::Text),
        ("doctags", OutputFormat::Doctags),
        ("vtt", OutputFormat::Vtt),
        ("doclang", OutputFormat::Doclang),
        ("dclx", OutputFormat::Dclx),
        ("chunks", OutputFormat::Chunks),
    ] {
        assert_eq!(value.parse::<OutputFormat>().unwrap(), format);
    }

    assert_eq!(OutputFormat::Chunks.extension(), "chunks.json");
    for format in [
        OutputFormat::Yaml,
        OutputFormat::HtmlSplitPage,
        OutputFormat::Vtt,
        OutputFormat::Dclx,
    ] {
        assert_eq!(format.extension(), "zip");
        assert!(format.is_archive());
    }
}

#[test]
fn chunking_rejects_archive_outputs() {
    let request = ConvertRequest {
        input: InputDocument::new("a.pdf", "application/pdf", b"%PDF".to_vec()),
        output_formats: vec![OutputFormat::Yaml],
        options: ConvertOptions::Pdf(RemoteConvertOptions {
            chunker: ChunkerKind::Hybrid,
            ..RemoteConvertOptions::default()
        }),
    };

    assert!(request
        .validate()
        .unwrap_err()
        .display()
        .contains("archive"));
}

#[test]
fn chunks_require_a_native_chunker() {
    let request = ConvertRequest {
        input: InputDocument::new("a.pdf", "application/pdf", b"%PDF".to_vec()),
        output_formats: vec![OutputFormat::Chunks],
        options: ConvertOptions::Pdf(RemoteConvertOptions::default()),
    };

    assert!(request
        .validate()
        .unwrap_err()
        .display()
        .contains("requires"));
}

#[test]
fn ambiguous_xml_requires_explicit_override() {
    let error = InputDocument::new("paper.xml", "application/xml", b"<article />".to_vec())
        .kind()
        .unwrap_err();

    assert!(error.display().contains("explicit input_format override"));
}

#[test]
fn remote_convert_options_default_omits_picture_description_preset() {
    let options = RemoteConvertOptions::default();
    assert!(
        options.picture_description_preset.is_none(),
        "default RemoteConvertOptions must not carry a picture_description_preset so the legacy custom VLM bundle is preserved"
    );
}

#[test]
fn remote_convert_options_round_trip_picture_description_preset() {
    let options = RemoteConvertOptions {
        chunker: ChunkerKind::Disabled,
        chunking: ChunkingOptions::default(),
        pipeline: None,
        picture_description_preset: Some("granite_vision".to_string()),
    };
    assert_eq!(
        options.picture_description_preset.as_deref(),
        Some("granite_vision")
    );
}

#[test]
fn names_parse_back_to_their_values() {
    for format in [
        OutputFormat::Json,
        OutputFormat::Md,
        OutputFormat::Yaml,
        OutputFormat::Html,
        OutputFormat::HtmlSplitPage,
        OutputFormat::Text,
        OutputFormat::Doctags,
        OutputFormat::Vtt,
        OutputFormat::Doclang,
        OutputFormat::Dclx,
        OutputFormat::Chunks,
    ] {
        assert_eq!(OutputFormat::parse(format.as_api_value()).unwrap(), format);
    }
    for chunker in [ChunkerKind::Disabled, ChunkerKind::Hybrid, ChunkerKind::Hierarchical] {
        assert_eq!(ChunkerKind::parse(chunker.name()).unwrap(), chunker);
    }
    for pipeline in [
        PipelineKind::Legacy,
        PipelineKind::Standard,
        PipelineKind::Vlm,
        PipelineKind::Asr,
    ] {
        assert_eq!(PipelineKind::parse(pipeline.name()).unwrap(), pipeline);
    }
}

#[test]
fn parsing_ignores_case_and_surrounding_space() {
    assert_eq!(OutputFormat::parse("  MarkDown ").unwrap(), OutputFormat::Md);
    assert_eq!(ChunkerKind::parse(" HYBRID").unwrap(), ChunkerKind::Hybrid);
    assert_eq!(ChunkerKind::parse("").unwrap(), ChunkerKind::Disabled);
    assert_eq!(PipelineKind::parse("Vlm\n").unwrap(), PipelineKind::Vlm);
}

#[test]
fn unknown_names_are_validation_errors() {
    assert_eq!(
        OutputFormat::parse(" PDF ").unwrap_err().display(),
        "Validation error for 'format': unsupported output format: pdf"
    );
    assert_eq!(
        ChunkerKind::parse("semantic").unwrap_err().display(),
        "Validation error for 'chunker': unsupported chunker: semantic"
    );
    assert_eq!(
        PipelineKind::parse("fast").unwrap_err().display(),
        "Validation error for 'pipeline': unsupported pipeline: fast"
    );
}

#[test]
fn validation_reports_each_broken_rule() {
    let no_outputs = ConvertRequest {
        input: InputDocument::new("a.pdf", "application/pdf", b"%PDF".to_vec()),
        output_formats: vec![],
        options: ConvertOptions::Pdf(RemoteConvertOptions::default()),
    };
    assert_eq!(
        no_outputs.validate().unwrap_err().display(),
        "Validation error for 'output_formats': at least one output format is required"
    );

    let wrong_options = ConvertRequest {
        input: InputDocument::new("a.pdf", "application/pdf", b"%PDF".to_vec()),
        output_formats: vec![OutputFormat::Md],
        options: ConvertOptions::Generic(RemoteConvertOptions::default()),
    };
    assert_eq!(
        wrong_options.validate().unwrap_err().display(),
        "Validation error for 'options': PDF input requires PdfConvertOptions"
    );

    let fine = ConvertRequest {
        input: InputDocument::new(
            "a.docx",
            "application/vnd.openxmlformats-officedocument.wordprocessingml.document",
            b"PK".to_vec(),
        ),
        output_formats: vec![OutputFormat::Chunks],
        options: ConvertOptions::Generic(RemoteConvertOptions {
            chunker: ChunkerKind::Hierarchical,
            ..RemoteConvertOptions::default()
        }),
    };
    assert_eq!(
        fine.validate().unwrap(),
        cloudiful_docling_convert::InputKind::Docx
    );
}

#[test]
fn input_documents_from_paths() {
    let document = InputDocument::from_path_and_bytes("/data/report.PDF", b"%PDF".to_vec()).unwrap();
    assert_eq!(document.filename, "report.PDF");
    assert_eq!(document.media_type, "application/pdf");
    assert!(InputDocument::from_path_and_bytes("/data/paper.xml", vec![])
        .unwrap_err()
        .display()
        .contains("unsupported file type"));
    let forced = InputDocument::from_path_and_bytes_with_kind(
        "/data/paper.xml",
        vec![],
        cloudiful_docling_convert::InputKind::XmlJats,
    )
    .unwrap();
    assert_eq!(
        forced.kind().unwrap(),
        cloudiful_docling_convert::InputKind::XmlJats
    );
    assert!(cloudiful_docling_convert::supported_input_kind("notes.md"));
    assert!(!cloudiful_docling_convert::supported_input_kind("notes.bin"));
}

#[test]
fn document_from_path_keeps_the_kind_of_its_path() {
    for (path, kind, media) in [
        ("in/report.pdf", InputKind::Pdf, "application/pdf"),
        ("in/page.XHTML", InputKind::Html, "application/xhtml+xml"),
        ("in/page.htm", InputKind::Html, "text/html"),
        ("in/mail.msg", InputKind::Email, "application/vnd.ms-outlook"),
        ("in/photo.JPEG", InputKind::Image, "image/jpeg"),
        ("in/scan.tif", InputKind::Image, "image/tiff"),
        ("in/logo.svg", InputKind::Image, "image/svg+xml"),
        ("in/notes.asc", InputKind::Asciidoc, "text/asciidoc"),
        ("in/paper.tex", InputKind::Latex, "application/x-tex"),
        ("in/readme.txt", InputKind::Text, "text/plain"),
    ] {
        let document = InputDocument::from_path_and_bytes(path, b"x".to_vec()).unwrap();
        assert_eq!(document.media_type, media);
        assert_eq!(document.kind().unwrap(), kind);
        assert_eq!(
            InputKind::from_filename_and_media_type(&document.filename, Some(&document.media_type)),
            Some(kind)
        );
    }
}

#[test]
fn names_parse_as_their_trimmed_lower_case_form() {
    for value in [" MD ", "Html_Split_Page", " chunks", "bogus "] {
        let normalized = value.trim().to_ascii_lowercase();
        assert_eq!(
            format!("{:?}", OutputFormat::parse(value)),
            format!("{:?}", OutputFormat::parse(&normalized))
        );
    }
    for value in [" Hybrid", "NONE", "  ", "x"] {
        let normalized = value.trim().to_ascii_lowercase();
        assert_eq!(
            format!("{:?}", ChunkerKind::parse(value)),
            format!("{:?}", ChunkerKind::parse(&normalized))
        );
    }
    for value in [" VLM ", "Legacy", "y"] {
        let normalized = value.trim().to_ascii_lowercase();
        assert_eq!(
            format!("{:?}", PipelineKind::parse(value)),
            format!("{:?}", PipelineKind::parse(&normalized))
        );
    }
}
