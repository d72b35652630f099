use cloudiful_docling_convert::InputKind;

struct Row {
    kind: InputKind,
    extensions: &'static [&'static str],
    media_types: &'static [&'static str],
    default_extension: &'static str,
    default_media_type: &'static str,
    from_formats_value: &'static str,
    reading_label: &'static str,
    auto_detect: bool,
    generic_convert_options: bool,
    supports_vlm: bool,
}

const ROWS: &[Row] = &[
    Row {
        kind: InputKind::Pdf,
        extensions: &["pdf"],
        media_types: &["application/pdf"],
        default_extension: "pdf",
        default_media_type: "application/pdf",
        from_formats_value: "pdf",
        reading_label: "Reading PDF...",
        auto_detect: true,
        generic_convert_options: false,
        supports_vlm: true,
    },
    Row {
        kind: InputKind::Docx,
        extensions: &["docx"],
        media_types: &["application/vnd.openxmlformats-officedocument.wordprocessingml.document"],
        default_extension: "docx",
        default_media_type: "application/vnd.openxmlformats-officedocument.wordprocessingml.document",
        from_formats_value: "docx",
        reading_label: "Reading DOCX...",
        auto_detect: true,
        generic_convert_options: true,
        supports_vlm: true,
    },
    Row {
        kind: InputKind::Pptx,
        extensions: &["pptx"],
        media_types: &["application/vnd.openxmlformats-officedocument.presentationml.presentation"],
        default_extension: "pptx",
        default_media_type: "application/vnd.openxmlformats-officedocument.presentationml.presentation",
        from_formats_value: "pptx",
        reading_label: "Reading PPTX...",
        auto_detect: true,
        generic_convert_options: true,
        supports_vlm: false,
    },
    Row {
        kind: InputKind::Html,
        extensions: &["html", "htm", "xhtml"],
        media_types: &["text/html", "application/xhtml+xml"],
        default_extension: "html",
        default_media_type: "text/html",
        from_formats_value: "html",
        reading_label: "Reading HTML...",
        auto_detect: true,
        generic_convert_options: true,
        supports_vlm: false,
    },
    Row {
        kind: InputKind::Asciidoc,
        extensions: &["adoc", "asciidoc", "asc"],
        media_types: &["text/asciidoc", "text/x-asciidoc"],
        default_extension: "adoc",
        default_media_type: "text/asciidoc",
        from_formats_value: "asciidoc",
        reading_label: "Reading AsciiDoc...",
        auto_detect: true,
        generic_convert_options: true,
        supports_vlm: false,
    },
    Row {
        kind: InputKind::Markdown,
        extensions: &["md", "markdown"],
        media_types: &["text/markdown", "text/x-markdown"],
        default_extension: "md",
        default_media_type: "text/markdown",
        from_formats_value: "md",
        reading_label: "Reading Markdown...",
        auto_detect: true,
        generic_convert_options: true,
        supports_vlm: true,
    },
    Row {
        kind: InputKind::Csv,
        extensions: &["csv"],
        media_types: &["text/csv", "application/csv"],
        default_extension: "csv",
        default_media_type: "text/csv",
        from_formats_value: "csv",
        reading_label: "Reading CSV...",
        auto_detect: true,
        generic_convert_options: true,
        supports_vlm: false,
    },
    Row {
        kind: InputKind::Xlsx,
        extensions: &["xlsx"],
        media_types: &["application/vnd.openxmlformats-officedocument.spreadsheetml.sheet"],
        default_extension: "xlsx",
        default_media_type: "application/vnd.openxmlformats-officedocument.spreadsheetml.sheet",
        from_formats_value: "xlsx",
        reading_label: "Reading XLSX...",
        auto_detect: true,
        generic_convert_options: true,
        supports_vlm: false,
    },
    Row {
        kind: InputKind::Odt,
        extensions: &["odt"],
        media_types: &["application/vnd.oasis.opendocument.text"],
        default_extension: "odt",
        default_media_type: "application/vnd.oasis.opendocument.text",
        from_formats_value: "odt",
        reading_label: "Reading ODT...",
        auto_detect: true,
        generic_convert_options: true,
        supports_vlm: false,
    },
    Row {
        kind: InputKind::Ods,
        extensions: &["ods"],
        media_types: &["application/vnd.oasis.opendocument.spreadsheet"],
        default_extension: "ods",
        default_media_type: "application/vnd.oasis.opendocument.spreadsheet",
        from_formats_value: "ods",
        reading_label: "Reading ODS...",
        auto_detect: true,
        generic_convert_options: true,
        supports_vlm: false,
    },
    Row {
        kind: InputKind::Odp,
        extensions: &["odp"],
        media_types: &["application/vnd.oasis.opendocument.presentation"],
        default_extension: "odp",
        default_media_type: "application/vnd.oasis.opendocument.presentation",
        from_formats_value: "odp",
        reading_label: "Reading ODP...",
        auto_detect: true,
        generic_convert_options: true,
        supports_vlm: false,
    },
    Row {
        kind: InputKind::Epub,
        extensions: &["epub"],
        media_types: &["application/epub+zip"],
        default_extension: "epub",
        default_media_type: "application/epub+zip",
        from_formats_value: "epub",
        reading_label: "Reading EPUB...",
        auto_detect: true,
        generic_convert_options: true,
        supports_vlm: false,
    },
    Row {
        kind: InputKind::Email,
        extensions: &["eml", "msg"],
        media_types: &["message/rfc822", "application/vnd.ms-outlook"],
        default_extension: "eml",
        default_media_type: "message/rfc822",
        from_formats_value: "email",
        reading_label: "Reading email...",
        auto_detect: true,
        generic_convert_options: true,
        supports_vlm: false,
    },
    Row {
        kind: InputKind::Image,
        extensions: &["png", "jpg", "jpeg", "gif", "bmp", "tif", "tiff", "webp", "svg"],
        media_types: &["image/png", "image/jpeg", "image/gif", "image/bmp", "image/tiff", "image/webp", "image/svg+xml"],
        default_extension: "png",
        default_media_type: "image/png",
        from_formats_value: "image",
        reading_label: "Reading image...",
        auto_detect: true,
        generic_convert_options: true,
        supports_vlm: true,
    },
    Row {
        kind: InputKind::XmlUspto,
        extensions: &["xml"],
        media_types: &["application/xml", "text/xml"],
        default_extension: "xml",
        default_media_type: "application/xml",
        from_formats_value: "xml_uspto",
        reading_label: "Reading XML USPTO...",
        auto_detect: false,
        generic_convert_options: true,
        supports_vlm: false,
    },
    Row {
        kind: InputKind::XmlJats,
        extensions: &["xml"],
        media_types: &["application/xml", "text/xml"],
        default_extension: "xml",
        default_media_type: "application/xml",
        from_formats_value: "xml_jats",
        reading_label: "Reading XML JATS...",
        auto_detect: false,
        generic_convert_options: true,
        supports_vlm: false,
    },
    Row {
        kind: InputKind::XmlXbrl,
        extensions: &["xml"],
        media_types: &["application/xml", "text/xml"],
        default_extension: "xml",
        default_media_type: "application/xml",
        from_formats_value: "xml_xbrl",
        reading_label: "Reading XML XBRL...",
        auto_detect: false,
        generic_convert_options: true,
        supports_vlm: false,
    },
    Row {
        kind: InputKind::XmlDoclang,
        extensions: &["xml"],
        media_types: &["application/xml", "text/xml"],
        default_extension: "xml",
        default_media_type: "application/xml",
        from_formats_value: "xml_doclang",
        reading_label: "Reading XML Docling...",
        auto_detect: false,
        generic_convert_options: true,
        supports_vlm: false,
    },
    Row {
        kind: InputKind::MetsGbs,
        extensions: &["xml"],
        media_types: &["application/xml", "text/xml"],
        default_extension: "xml",
        default_media_type: "application/xml",
        from_formats_value: "mets_gbs",
        reading_label: "Reading METS GBS...",
        auto_detect: false,
        generic_convert_options: true,
        supports_vlm: false,
    },
    Row {
        kind: InputKind::JsonDocling,
        extensions: &["json"],
        media_types: &["application/json", "text/json"],
        default_extension: "json",
        default_media_type: "application/json",
        from_formats_value: "json_docling",
        reading_label: "Reading JSON Docling...",
        auto_detect: false,
        generic_convert_options: true,
        supports_vlm: false,
    },
    Row {
        kind: InputKind::Latex,
        extensions: &["tex"],
        media_types: &["application/x-tex", "application/x-latex", "text/x-tex", "text/x-latex"],
        default_extension: "tex",
        default_media_type: "application/x-tex",
        from_formats_value: "latex",
        reading_label: "Reading LaTeX...",
        auto_detect: true,
        generic_convert_options: true,
        supports_vlm: false,
    },
    Row {
        kind: InputKind::Text,
        extensions: &["txt"],
        media_types: &["text/plain"],
        default_extension: "txt",
        default_media_type: "text/plain",
        from_formats_value: "text",
        reading_label: "Reading text file...",
        auto_detect: true,
        generic_convert_options: false,
        supports_vlm: false,
    },
];

#[test]
fn metadata_methods_match_specs() {
    for spec in ROWS {
        assert_eq!(spec.kind.default_extension(), spec.default_extension);
        assert_eq!(spec.kind.media_type(), spec.default_media_type);
        assert_eq!(spec.kind.from_formats_value(), spec.from_formats_value);
        assert_eq!(spec.kind.reading_label(), spec.reading_label);
        assert_eq!(
            spec.kind.uses_generic_convert_options(),
            spec.generic_convert_options
        );
        assert_eq!(spec.kind.supports_vlm(), spec.supports_vlm);
    }
}

#[test]
fn detects_first_wave_and_latex_input_kinds_from_extension() {
    for spec in ROWS.iter().filter(|spec| spec.auto_detect) {
        for extension in spec.extensions {
            let filename = format!("sample.{}", extension);
            assert_eq!(
                InputKind::from_path(&filename),
                Some(spec.kind),
                "failed to detect extension '{}'",
                extension
            );
        }
    }
}

#[test]
fn generic_xml_and_json_do_not_auto_map() {
    assert_eq!(InputKind::from_path("a.xml"), None);
    assert_eq!(InputKind::from_path("a.json"), None);
    assert_eq!(
        InputKind::from_filename_and_media_type("downloaded", Some("application/xml")),
        None
    );
    assert_eq!(
        InputKind::from_filename_and_media_type("downloaded", Some("application/json")),
        None
    );
}

#[test]
fn detects_supported_input_kinds_from_mime_type() {
    for spec in ROWS.iter().filter(|spec| spec.auto_detect) {
        for media_type in spec.media_types {
            assert_eq!(
                InputKind::from_filename_and_media_type("upload", Some(media_type)),
                Some(spec.kind),
                "failed to detect media type '{}'",
                media_type
            );
        }
    }
}

#[test]
fn reports_override_only_sources() {
    assert!(InputKind::requires_explicit_override("paper.xml", None));
    assert!(InputKind::requires_explicit_override(
        "paper",
        Some("application/xml")
    ));
    assert!(InputKind::requires_explicit_override("paper.json", None));
    assert!(InputKind::requires_explicit_override(
        "paper",
        Some("application/json")
    ));
    assert!(!InputKind::requires_explicit_override("paper.tex", None));
}

#[test]
fn derives_second_wave_defaults() {
    assert_eq!(InputKind::XmlJats.default_extension(), "xml");
    assert_eq!(InputKind::JsonDocling.default_extension(), "json");
    assert_eq!(InputKind::Latex.default_extension(), "tex");
    assert_eq!(InputKind::XmlUspto.from_formats_value(), "xml_uspto");
    assert_eq!(InputKind::JsonDocling.from_formats_value(), "json_docling");
    assert_eq!(InputKind::Latex.from_formats_value(), "latex");
}

#[test]
fn parses_input_format_strings() {
    assert_eq!("xml_jats".parse::<InputKind>().unwrap(), InputKind::XmlJats);
    assert_eq!(
        "json_docling".parse::<InputKind>().unwrap(),
        InputKind::JsonDocling
    );
    assert_eq!("latex".parse::<InputKind>().unwrap(), InputKind::Latex);
    assert_eq!("msg".parse::<InputKind>().unwrap(), InputKind::Email);
    assert!("xml".parse::<InputKind>().is_err());
}

#[test]
fn preserves_specific_media_types() {
    assert_eq!(
        InputKind::Image.canonical_media_type("cover.jpg", None),
        "image/jpeg"
    );
    assert_eq!(
        InputKind::Email.canonical_media_type("message.msg", None),
        "application/vnd.ms-outlook"
    );
    assert_eq!(
        InputKind::Html.canonical_media_type("page.xhtml", None),
        "application/xhtml+xml"
    );
}

#[test]
fn every_kind_parses_back_from_its_formats_value() {
    for spec in ROWS {
        assert_eq!(
            InputKind::parse_format(spec.from_formats_value).unwrap(),
            spec.kind
        );
        assert_eq!(
            InputKind::parse_format(&format!("  {}  ", spec.from_formats_value.to_uppercase()))
                .unwrap(),
            spec.kind
        );
    }
}

#[test]
fn explicit_override_sources_are_never_detected() {
    for name in ["paper.xml", "paper.json", "PAPER.XML"] {
        assert!(InputKind::requires_explicit_override(name, None));
        assert_eq!(InputKind::from_filename_and_media_type(name, None), None);
    }
}

#[test]
fn default_extension_for_media_type_keeps_image_kinds() {
    assert_eq!(
        InputKind::Image.default_extension_for_media_type(Some("image/png")),
        "png"
    );
    assert_eq!(InputKind::Pdf.default_extension_for_media_type(None), "pdf");
}

#[test]
fn values_parse_as_their_trimmed_lower_case_form() {
    for value in ["  PDF ", "Xml_Jats", "\tMarkDown\n", " nothing "] {
        let normalized = value.trim().to_ascii_lowercase();
        assert_eq!(
            format!("{:?}", InputKind::parse_format(value)),
            format!("{:?}", InputKind::parse_format(&normalized))
        );
    }
    assert_eq!(InputKind::parse_format(" PDF ").unwrap(), InputKind::Pdf);
    for kind in [InputKind::Pdf, InputKind::Email, InputKind::JsonDocling, InputKind::Text] {
        assert_eq!(InputKind::parse_format(kind.from_formats_value()).unwrap(), kind);
    }
}
