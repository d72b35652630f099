use cloudiful_docling_convert::cli::{
    collect_override_input_file, collect_path_files, create_docling_client, failure_summary,
    file_request, is_supported_input_file, parse_chunker, parse_input_format, parse_output_format,
    parse_pipeline, parse_positive_u32, sort_by_file_name, Args, PathEntry,
};
use cloudiful_docling_convert::cli::{batch_output_path, file_step, run_outcome};
use cloudiful_docling_convert::{
    ChunkerKind, ConvertOptions, EnvSettings, InputKind, OutputFormat, PipelineKind,
};

fn args(input_files: &[&str]) -> Args {
    Args {
        input_files: input_files.iter().map(|s| s.to_string()).collect(),
        output_dir: ".".to_string(),
        docling_base_url: "http://127.0.0.1:5001/v1".to_string(),
        format: OutputFormat::Md,
        input_format: None,
        chunker: ChunkerKind::Disabled,
        use_markdown_tables: false,
        use_markdown_images: false,
        image_placeholder: "![IMAGE]".to_string(),
        include_raw_text: false,
        max_tokens: None,
        tokenizer: None,
        merge_peers: true,
        pipeline: None,
        openai_base_url: None,
        vlm_pipeline_model: None,
        picture_description_model: None,
        code_formula_model: None,
        overwrite: false,
    }
}

#[test]
fn parses_native_chunker_and_pipeline() {
    assert_eq!(parse_output_format("chunks").unwrap(), OutputFormat::Chunks);
    assert_eq!(parse_chunker("hybrid").unwrap(), ChunkerKind::Hybrid);
    assert_eq!(parse_pipeline("asr").unwrap(), PipelineKind::Asr);
}

#[test]
fn parses_input_format_override() {
    assert_eq!(parse_input_format("xml_jats").unwrap(), InputKind::XmlJats);
}

#[test]
fn rejects_zero_max_tokens() {
    let error = parse_positive_u32("0").unwrap_err();
    assert!(error.contains("1 or greater"));
}

#[test]
fn option_values_report_what_is_wrong() {
    assert_eq!(
        parse_positive_u32("ten").unwrap_err(),
        "invalid integer value: ten"
    );
    assert_eq!(parse_positive_u32("+128").unwrap(), 128);
    assert_eq!(
        parse_positive_u32("4294967296").unwrap_err(),
        "invalid integer value: 4294967296"
    );
    assert_eq!(
        parse_output_format("pdf").unwrap_err(),
        "Validation error for 'format': unsupported output format: pdf"
    );
    assert_eq!(
        parse_chunker("semantic").unwrap_err(),
        "Validation error for 'chunker': unsupported chunker: semantic"
    );
}

#[test]
fn input_format_rejects_directory_scan() {
    let mut args = args(&["."]);
    args.input_format = Some(InputKind::XmlJats);
    let err = collect_override_input_file(&args, InputKind::XmlJats, &PathEntry::Directory(vec![]))
        .unwrap_err();
    assert!(err.display().contains("directory scanning"));
}

#[test]
fn input_format_rejects_multiple_paths() {
    let mut args = args(&["a.xml", "b.xml"]);
    args.input_format = Some(InputKind::XmlJats);
    let err = collect_override_input_file(&args, InputKind::XmlJats, &PathEntry::File).unwrap_err();
    assert!(err.display().contains("exactly one input file path"));
}

#[test]
fn ambiguous_xml_file_requires_input_format_override() {
    let err = collect_path_files("/tmp/work/paper.xml", &PathEntry::File).unwrap_err();
    assert!(err.display().contains("--input-format"));
}

#[test]
fn input_paths_contribute_their_supported_files() {
    assert_eq!(
        collect_path_files("report.pdf", &PathEntry::File).unwrap(),
        vec!["report.pdf".to_string()]
    );
    assert_eq!(
        collect_path_files("notes.bin", &PathEntry::File)
            .unwrap_err()
            .display(),
        "Validation error for 'input_path': unsupported file type for 'notes.bin'"
    );
    assert_eq!(
        collect_path_files(
            "docs",
            &PathEntry::Directory(vec![
                "docs/a.md".to_string(),
                "docs/b.xml".to_string(),
                "docs/c.docx".to_string(),
            ])
        )
        .unwrap(),
        vec!["docs/a.md".to_string(), "docs/c.docx".to_string()]
    );
    assert!(collect_path_files("missing", &PathEntry::Missing).unwrap().is_empty());
    let mut single = args(&["paper.xml"]);
    single.input_format = Some(InputKind::XmlJats);
    assert_eq!(
        collect_override_input_file(&single, InputKind::XmlJats, &PathEntry::File).unwrap(),
        vec!["paper.xml".to_string()]
    );
    assert_eq!(
        collect_override_input_file(&single, InputKind::XmlJats, &PathEntry::Missing)
            .unwrap_err()
            .display(),
        "Validation error for 'input_path': input file does not exist: paper.xml"
    );
    assert!(is_supported_input_file("a.md", true));
    assert!(!is_supported_input_file("a.md", false));
}

#[test]
fn files_are_processed_in_the_order_of_their_names() {
    let sorted = sort_by_file_name(&vec![
        "z/b.md".to_string(),
        "a/c.md".to_string(),
        "y/b.md".to_string(),
        "a.md".to_string(),
    ]);
    assert_eq!(
        sorted,
        vec![
            "a.md".to_string(),
            "z/b.md".to_string(),
            "y/b.md".to_string(),
            "a/c.md".to_string()
        ]
    );
}

#[test]
fn failures_are_summarised() {
    let error = failure_summary(&vec![
        ("a.pdf".to_string(), "boom".to_string()),
        ("b.md".to_string(), "bang".to_string()),
    ]);
    assert_eq!(
        error.display(),
        "converting input files: 2 file(s) failed: a.pdf (boom), b.md (bang)"
    );
}

#[test]
fn behaviour_and_settings_follow_the_options() {
    let mut options = args(&["a.pdf"]);
    options.chunker = ChunkerKind::Hybrid;
    options.max_tokens = Some(64);
    options.tokenizer = Some("tok".to_string());
    options.openai_base_url = Some("https://example.com/v1".to_string());
    let behavior = options.behavior();
    assert_eq!(behavior.chunker, ChunkerKind::Hybrid);
    assert_eq!(behavior.chunking.max_tokens, Some(64));
    assert_eq!(behavior.chunking.tokenizer.as_deref(), Some("tok"));
    assert!(behavior.chunking.merge_peers);
    let env = EnvSettings {
        openai_api_key: Some("sk".to_string()),
        task_timeout_secs: Some("30".to_string()),
        ..EnvSettings::default()
    };
    let runtime = options.runtime_config(&env);
    assert_eq!(runtime.openai_base_url, "https://example.com/v1");
    assert_eq!(runtime.vlm_pipeline_model, "");
    assert_eq!(runtime.openai_api_key.as_deref(), Some("sk"));
    assert_eq!(runtime.task_timeout, Some(std::time::Duration::from_secs(30)));
    assert_eq!(runtime.request_timeout, None);
    let client = create_docling_client(&options, &env).unwrap();
    assert_eq!(client.config().base_url, "http://127.0.0.1:5001/v1");
}

#[test]
fn file_requests_carry_the_options() {
    let mut options = args(&["in/a.pdf"]);
    options.output_dir = "out".to_string();
    options.format = OutputFormat::Json;
    let request = file_request(&options, "in/a.pdf", b"%PDF".to_vec()).unwrap();
    assert_eq!(request.output_dir, "out");
    assert_eq!(request.selected_output, OutputFormat::Json);
    assert_eq!(request.request.output_formats, vec![OutputFormat::Json]);
    assert_eq!(request.request.input.filename, "a.pdf");
    assert!(matches!(request.request.options, ConvertOptions::Pdf(_)));
    assert!(file_request(&options, "in/paper.xml", vec![]).is_err());
    options.input_format = Some(InputKind::XmlJats);
    let forced = file_request(&options, "in/paper.xml", vec![]).unwrap();
    assert_eq!(forced.request.input.kind().unwrap(), InputKind::XmlJats);
    assert!(matches!(forced.request.options, ConvertOptions::Generic(_)));
}

#[test]
fn a_run_skips_existing_outputs_and_reports_failures() {
    assert!(file_step(false, true));
    assert!(!file_step(true, true));
    assert!(!file_step(false, false));
    let mut a = args(&["in"]);
    a.output_dir = "out".to_string();
    assert_eq!(batch_output_path(&a, "in/report.pdf"), "out/report.md");
    assert_eq!(batch_output_path(&a, "in/.."), "out/output.md");
    assert!(run_outcome(&Vec::new()).is_ok());
    let failed = vec![
        ("a.pdf".to_string(), "boom".to_string()),
        ("b.pdf".to_string(), "bad".to_string()),
    ];
    assert_eq!(
        run_outcome(&failed).unwrap_err().display(),
        "converting input files: 2 file(s) failed: a.pdf (boom), b.pdf (bad)"
    );
}

#[test]
fn sort_by_file_name_keeps_equal_names_in_their_order() {
    let paths = vec![
        "b/x.pdf".to_string(),
        "a/x.pdf".to_string(),
        "c/a.pdf".to_string(),
        "d/x.pdf".to_string(),
    ];
    assert_eq!(
        sort_by_file_name(&paths),
        vec![
            "c/a.pdf".to_string(),
            "b/x.pdf".to_string(),
            "a/x.pdf".to_string(),
            "d/x.pdf".to_string(),
        ]
    );
}
