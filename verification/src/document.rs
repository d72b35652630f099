//! Output formats, chunking and pipeline choices, input documents and the
//! validation of a conversion request.
use vstd::prelude::*;

use crate::error::{is_validation, PdfConvertError, Result};
use crate::input_kind::{
    detect, kind_generic_options, requires_override, InputKind,
};
use crate::paths::file_name;
use crate::strings::{lemma_token_plain, chars_are, owned, string_from, token, token_chars};

verus! {

/// An output format of Docling Serve.
#[derive(Debug, Clone, Copy, PartialEq, Eq, Structural)]
pub enum OutputFormat {
    Json,
    Md,
    Yaml,
    Html,
    HtmlSplitPage,
    Text,
    Doctags,
    Vtt,
    Doclang,
    Dclx,
    Chunks,
}

/// The value of `to_formats` that Docling Serve expects for a format.
pub open spec fn format_api_value(f: OutputFormat) -> Seq<char> {
    match f {
        OutputFormat::Json => "json"@,
        OutputFormat::Md => "md"@,
        OutputFormat::Yaml => "yaml"@,
        OutputFormat::Html => "html"@,
        OutputFormat::HtmlSplitPage => "html_split_page"@,
        OutputFormat::Text => "text"@,
        OutputFormat::Doctags => "doctags"@,
        OutputFormat::Vtt => "vtt"@,
        OutputFormat::Doclang => "doclang"@,
        OutputFormat::Dclx => "dclx"@,
        OutputFormat::Chunks => "chunks"@,
    }
}

/// The formats that Docling Serve returns as a ZIP archive.
pub open spec fn format_is_archive(f: OutputFormat) -> bool {
    f is Yaml || f is HtmlSplitPage || f is Vtt || f is Dclx
}

/// The file extension of a written output.
pub open spec fn format_extension(f: OutputFormat) -> Seq<char> {
    if f is Chunks {
        "chunks.json"@
    } else if format_is_archive(f) {
        "zip"@
    } else {
        format_api_value(f)
    }
}

/// The format named by a token.
pub open spec fn format_named(t: Seq<char>) -> Option<OutputFormat> {
    if t == "json"@ {
        Some(OutputFormat::Json)
    } else if t == "md"@ || t == "markdown"@ {
        Some(OutputFormat::Md)
    } else if t == "yaml"@ || t == "yml"@ {
        Some(OutputFormat::Yaml)
    } else if t == "html"@ {
        Some(OutputFormat::Html)
    } else if t == "html_split_page"@ || t == "html-split-page"@ {
        Some(OutputFormat::HtmlSplitPage)
    } else if t == "text"@ || t == "txt"@ {
        Some(OutputFormat::Text)
    } else if t == "doctags"@ {
        Some(OutputFormat::Doctags)
    } else if t == "vtt"@ {
        Some(OutputFormat::Vtt)
    } else if t == "doclang"@ {
        Some(OutputFormat::Doclang)
    } else if t == "dclx"@ {
        Some(OutputFormat::Dclx)
    } else if t == "chunks"@ {
        Some(OutputFormat::Chunks)
    } else {
        None
    }
}

/// The outcome of parsing `value` as a name of `T`: the named value, else a
/// validation error of `parameter` with `prefix` followed by the token.
pub open spec fn parsed_as<T>(
    r: Result<T>,
    named: Option<T>,
    parameter: Seq<char>,
    prefix: Seq<char>,
    t: Seq<char>,
) -> bool {
    match named {
        Some(v) => r == Ok::<T, PdfConvertError>(v),
        None => r matches Err(e) && is_validation(e, parameter, prefix + t),
    }
}

fn unsupported(parameter: &str, prefix: &str, t: &Vec<char>) -> (e: PdfConvertError)
    ensures
        is_validation(e, parameter@, prefix@ + t@),
{
    let mut reason = owned(prefix);
    let ts = string_from(t);
    reason.push_str(ts.as_str());
    PdfConvertError::validation_error(parameter, reason.as_str())
}

impl OutputFormat {
    /// The value of `to_formats` for this format.
    pub fn as_api_value(self) -> (r: &'static str)
        ensures
            r@ == format_api_value(self),
    {
        match self {
            OutputFormat::Json => "json",
            OutputFormat::Md => "md",
            OutputFormat::Yaml => "yaml",
            OutputFormat::Html => "html",
            OutputFormat::HtmlSplitPage => "html_split_page",
            OutputFormat::Text => "text",
            OutputFormat::Doctags => "doctags",
            OutputFormat::Vtt => "vtt",
            OutputFormat::Doclang => "doclang",
            OutputFormat::Dclx => "dclx",
            OutputFormat::Chunks => "chunks",
        }
    }

    /// The file extension of an output in this format.
    pub fn extension(self) -> (r: &'static str)
        ensures
            r@ == format_extension(self),
    {
        match self {
            OutputFormat::Chunks => "chunks.json",
            OutputFormat::Yaml | OutputFormat::HtmlSplitPage | OutputFormat::Vtt
            | OutputFormat::Dclx => "zip",
            _ => self.as_api_value(),
        }
    }

    /// Whether Docling Serve returns this format as a ZIP archive.
    pub fn is_archive(self) -> (r: bool)
        ensures
            r == format_is_archive(self),
    {
        match self {
            OutputFormat::Yaml | OutputFormat::HtmlSplitPage | OutputFormat::Vtt
            | OutputFormat::Dclx => true,
            _ => false,
        }
    }

    /// Whether this is the native chunk output.
    pub fn is_chunk_output(self) -> (r: bool)
        ensures
            r == (self is Chunks),
    {
        match self {
            OutputFormat::Chunks => true,
            _ => false,
        }
    }

    /// The format named by `value` (trimmed, any case).
    pub fn parse(value: &str) -> (r: Result<OutputFormat>)
        ensures
            parsed_as(
                r,
                format_named(token(value@)),
                "format"@,
                "unsupported output format: "@,
                token(value@),
            ),
    {
        let t = token_chars(value);
        if chars_are(&t, "json") {
            Ok(OutputFormat::Json)
        } else if chars_are(&t, "md") || chars_are(&t, "markdown") {
            Ok(OutputFormat::Md)
        } else if chars_are(&t, "yaml") || chars_are(&t, "yml") {
            Ok(OutputFormat::Yaml)
        } else if chars_are(&t, "html") {
            Ok(OutputFormat::Html)
        } else if chars_are(&t, "html_split_page") || chars_are(&t, "html-split-page") {
            Ok(OutputFormat::HtmlSplitPage)
        } else if chars_are(&t, "text") || chars_are(&t, "txt") {
            Ok(OutputFormat::Text)
        } else if chars_are(&t, "doctags") {
            Ok(OutputFormat::Doctags)
        } else if chars_are(&t, "vtt") {
            Ok(OutputFormat::Vtt)
        } else if chars_are(&t, "doclang") {
            Ok(OutputFormat::Doclang)
        } else if chars_are(&t, "dclx") {
            Ok(OutputFormat::Dclx)
        } else if chars_are(&t, "chunks") {
            Ok(OutputFormat::Chunks)
        } else {
            Err(unsupported("format", "unsupported output format: ", &t))
        }
    }
}

impl core::str::FromStr for OutputFormat {
    type Err = PdfConvertError;

    fn from_str(value: &str) -> (r: Result<OutputFormat>)
        ensures
            parsed_as(
                r,
                format_named(token(value@)),
                "format"@,
                "unsupported output format: "@,
                token(value@),
            ),
    {
        OutputFormat::parse(value)
    }
}

/// The native chunker of Docling Serve, or none.
#[derive(Debug, Clone, Copy, PartialEq, Eq, Structural)]
pub enum ChunkerKind {
    Disabled,
    Hybrid,
    Hierarchical,
}

/// The chunker named by a token; the empty token names no chunker.
pub open spec fn chunker_named(t: Seq<char>) -> Option<ChunkerKind> {
    if t == "none"@ || t == ""@ {
        Some(ChunkerKind::Disabled)
    } else if t == "hybrid"@ {
        Some(ChunkerKind::Hybrid)
    } else if t == "hierarchical"@ {
        Some(ChunkerKind::Hierarchical)
    } else {
        None
    }
}

/// The name of a chunker.
pub open spec fn chunker_name(c: ChunkerKind) -> Seq<char> {
    match c {
        ChunkerKind::Disabled => "none"@,
        ChunkerKind::Hybrid => "hybrid"@,
        ChunkerKind::Hierarchical => "hierarchical"@,
    }
}

impl Default for ChunkerKind {
    fn default() -> (r: ChunkerKind)
        ensures
            r is Disabled,
    {
        ChunkerKind::Disabled
    }
}

impl ChunkerKind {
    /// Whether a native chunker is chosen.
    pub fn is_enabled(self) -> (r: bool)
        ensures
            r == !(self is Disabled),
    {
        match self {
            ChunkerKind::Disabled => false,
            _ => true,
        }
    }

    /// The name of the chunker.
    pub fn name(self) -> (r: &'static str)
        ensures
            r@ == chunker_name(self),
    {
        match self {
            ChunkerKind::Disabled => "none",
            ChunkerKind::Hybrid => "hybrid",
            ChunkerKind::Hierarchical => "hierarchical",
        }
    }

    /// The chunker named by `value` (trimmed, any case).
    pub fn parse(value: &str) -> (r: Result<ChunkerKind>)
        ensures
            parsed_as(
                r,
                chunker_named(token(value@)),
                "chunker"@,
                "unsupported chunker: "@,
                token(value@),
            ),
    {
        let t = token_chars(value);
        if chars_are(&t, "none") || chars_are(&t, "") {
            Ok(ChunkerKind::Disabled)
        } else if chars_are(&t, "hybrid") {
            Ok(ChunkerKind::Hybrid)
        } else if chars_are(&t, "hierarchical") {
            Ok(ChunkerKind::Hierarchical)
        } else {
            Err(unsupported("chunker", "unsupported chunker: ", &t))
        }
    }
}

impl core::str::FromStr for ChunkerKind {
    type Err = PdfConvertError;

    fn from_str(value: &str) -> (r: Result<ChunkerKind>)
        ensures
            parsed_as(
                r,
                chunker_named(token(value@)),
                "chunker"@,
                "unsupported chunker: "@,
                token(value@),
            ),
    {
        ChunkerKind::parse(value)
    }
}

/// The options of the native chunkers.
#[derive(Debug, PartialEq, Eq)]
pub struct ChunkingOptions {
    pub use_markdown_tables: bool,
    pub use_markdown_images: bool,
    pub image_placeholder: String,
    pub include_raw_text: bool,
    pub max_tokens: Option<u32>,
    pub tokenizer: Option<String>,
    pub merge_peers: bool,
}

/// The placeholder written for images in chunks by default.
pub open spec fn default_image_placeholder() -> Seq<char> {
    "![IMAGE]"@
}

/// The tokenizer of the hybrid chunker by default.
pub open spec fn default_tokenizer() -> Seq<char> {
    "sentence-transformers/all-MiniLM-L6-v2"@
}

/// The field-wise view of chunking options.
pub open spec fn chunking_view(o: ChunkingOptions) -> (
    bool,
    bool,
    Seq<char>,
    bool,
    Option<u32>,
    Option<Seq<char>>,
    bool,
) {
    (
        o.use_markdown_tables,
        o.use_markdown_images,
        o.image_placeholder@,
        o.include_raw_text,
        o.max_tokens,
        match o.tokenizer {
            Some(t) => Some(t@),
            None => None,
        },
        o.merge_peers,
    )
}

/// The defaults of the hybrid chunker.
pub open spec fn hybrid_view() -> (
    bool,
    bool,
    Seq<char>,
    bool,
    Option<u32>,
    Option<Seq<char>>,
    bool,
) {
    (false, false, default_image_placeholder(), false, None, Some(default_tokenizer()), true)
}

/// The defaults of the hierarchical chunker.
pub open spec fn hierarchical_view() -> (
    bool,
    bool,
    Seq<char>,
    bool,
    Option<u32>,
    Option<Seq<char>>,
    bool,
) {
    (false, false, default_image_placeholder(), false, None, None, true)
}

impl Clone for ChunkingOptions {
    fn clone(&self) -> (r: Self)
        ensures
            chunking_view(r) == chunking_view(*self),
    {
        ChunkingOptions {
            use_markdown_tables: self.use_markdown_tables,
            use_markdown_images: self.use_markdown_images,
            image_placeholder: self.image_placeholder.clone(),
            include_raw_text: self.include_raw_text,
            max_tokens: self.max_tokens,
            tokenizer: match &self.tokenizer {
                Some(t) => Some(t.clone()),
                None => None,
            },
            merge_peers: self.merge_peers,
        }
    }
}

impl Default for ChunkingOptions {
    fn default() -> (r: ChunkingOptions)
        ensures
            chunking_view(r) == (false, false, Seq::<char>::empty(), false, None::<u32>, None::<
                Seq<char>,
            >, false),
    {
        ChunkingOptions {
            use_markdown_tables: false,
            use_markdown_images: false,
            image_placeholder: String::new(),
            include_raw_text: false,
            max_tokens: None,
            tokenizer: None,
            merge_peers: false,
        }
    }
}

impl ChunkingOptions {
    /// The defaults of the hybrid chunker.
    pub fn hybrid_defaults() -> (r: ChunkingOptions)
        ensures
            chunking_view(r) == hybrid_view(),
    {
        ChunkingOptions {
            use_markdown_tables: false,
            use_markdown_images: false,
            image_placeholder: owned("![IMAGE]"),
            include_raw_text: false,
            max_tokens: None,
            tokenizer: Some(owned("sentence-transformers/all-MiniLM-L6-v2")),
            merge_peers: true,
        }
    }

    /// The defaults of the hierarchical chunker.
    pub fn hierarchical_defaults() -> (r: ChunkingOptions)
        ensures
            chunking_view(r) == hierarchical_view(),
    {
        ChunkingOptions {
            use_markdown_tables: false,
            use_markdown_images: false,
            image_placeholder: owned("![IMAGE]"),
            include_raw_text: false,
            max_tokens: None,
            tokenizer: None,
            merge_peers: true,
        }
    }
}

/// A conversion pipeline of Docling Serve.
#[derive(Debug, Clone, Copy, PartialEq, Eq, Structural)]
pub enum PipelineKind {
    Legacy,
    Standard,
    Vlm,
    Asr,
}

/// The pipeline named by a token.
pub open spec fn pipeline_named(t: Seq<char>) -> Option<PipelineKind> {
    if t == "legacy"@ {
        Some(PipelineKind::Legacy)
    } else if t == "standard"@ {
        Some(PipelineKind::Standard)
    } else if t == "vlm"@ {
        Some(PipelineKind::Vlm)
    } else if t == "asr"@ {
        Some(PipelineKind::Asr)
    } else {
        None
    }
}

/// The name of a pipeline.
pub open spec fn pipeline_name(p: PipelineKind) -> Seq<char> {
    match p {
        PipelineKind::Legacy => "legacy"@,
        PipelineKind::Standard => "standard"@,
        PipelineKind::Vlm => "vlm"@,
        PipelineKind::Asr => "asr"@,
    }
}

impl PipelineKind {
    /// The name of the pipeline.
    pub fn name(self) -> (r: &'static str)
        ensures
            r@ == pipeline_name(self),
    {
        match self {
            PipelineKind::Legacy => "legacy",
            PipelineKind::Standard => "standard",
            PipelineKind::Vlm => "vlm",
            PipelineKind::Asr => "asr",
        }
    }

    /// The pipeline named by `value` (trimmed, any case).
    pub fn parse(value: &str) -> (r: Result<PipelineKind>)
        ensures
            parsed_as(
                r,
                pipeline_named(token(value@)),
                "pipeline"@,
                "unsupported pipeline: "@,
                token(value@),
            ),
    {
        let t = token_chars(value);
        if chars_are(&t, "legacy") {
            Ok(PipelineKind::Legacy)
        } else if chars_are(&t, "standard") {
            Ok(PipelineKind::Standard)
        } else if chars_are(&t, "vlm") {
            Ok(PipelineKind::Vlm)
        } else if chars_are(&t, "asr") {
            Ok(PipelineKind::Asr)
        } else {
            Err(unsupported("pipeline", "unsupported pipeline: ", &t))
        }
    }
}

impl core::str::FromStr for PipelineKind {
    type Err = PdfConvertError;

    fn from_str(value: &str) -> (r: Result<PipelineKind>)
        ensures
            parsed_as(
                r,
                pipeline_named(token(value@)),
                "pipeline"@,
                "unsupported pipeline: "@,
                token(value@),
            ),
    {
        PipelineKind::parse(value)
    }
}

/// A document to convert: its name, media type and content, and the kind
/// chosen explicitly, if any.
#[derive(Debug, Clone)]
pub struct InputDocument {
    pub filename: String,
    pub media_type: String,
    pub bytes: Vec<u8>,
    pub input_kind_override: Option<InputKind>,
}

/// The reason given when an input's kind cannot be determined.
pub open spec fn kind_failure_reason(filename: Seq<char>, media: Seq<char>) -> Seq<char> {
    if requires_override(filename, Some(media)) {
        "ambiguous input type for '"@ + filename + "' ("@ + media
            + "); provide an explicit input_format override"@
    } else {
        "unsupported input type for '"@ + filename + "' ("@ + media + ")"@
    }
}

/// The kind of an input: the override when given, else what its name and
/// media type select; `None` when neither decides.
pub open spec fn input_kind_of(d: InputDocument) -> Option<InputKind> {
    match d.input_kind_override {
        Some(k) => Some(k),
        None => detect(d.filename@, Some(d.media_type@)),
    }
}

/// `r` is the outcome of determining the kind of `d`.
pub open spec fn kind_result(d: InputDocument, r: Result<InputKind>) -> bool {
    match input_kind_of(d) {
        Some(k) => r == Ok::<InputKind, PdfConvertError>(k),
        None => r matches Err(e) && is_validation(
            e,
            "input"@,
            kind_failure_reason(d.filename@, d.media_type@),
        ),
    }
}

impl InputDocument {
    /// A document with the given name, media type and content, whose kind is
    /// determined from its name and media type.
    pub fn new(filename: &str, media_type: &str, bytes: Vec<u8>) -> (r: InputDocument)
        ensures
            r.filename@ == filename@,
            r.media_type@ == media_type@,
            r.bytes == bytes,
            r.input_kind_override is None,
    {
        InputDocument {
            filename: owned(filename),
            media_type: owned(media_type),
            bytes,
            input_kind_override: None,
        }
    }

    /// The same document with its kind chosen explicitly.
    pub fn with_input_kind(self, input_kind: InputKind) -> (r: InputDocument)
        ensures
            r.filename == self.filename,
            r.media_type == self.media_type,
            r.bytes == self.bytes,
            r.input_kind_override == Some(input_kind),
    {
        let mut d = self;
        d.input_kind_override = Some(input_kind);
        d
    }

    /// A document read from `path`, its kind and media type taken from the
    /// file name, so that the document has the kind of its path; a path
    /// without a file name or of an unknown kind is a validation error of
    /// `input_path`.
    pub fn from_path_and_bytes(path: &str, bytes: Vec<u8>) -> (r: Result<InputDocument>)
        ensures
            match file_name(path@) {
                None => r matches Err(e) && is_validation(
                    e,
                    "input_path"@,
                    "path '"@ + path@ + "' does not have a valid file name"@,
                ),
                Some(n) => match detect(n, None) {
                    None => r matches Err(e) && is_validation(
                        e,
                        "input_path"@,
                        "unsupported file type for '"@ + path@ + "'"@,
                    ),
                    Some(k) => r matches Ok(d) && d.filename@ == n && d.media_type@
                        == crate::input_kind::canonical_media(
                        k,
                        crate::paths::lower_extension(n),
                        None,
                    ) && d.bytes == bytes && d.input_kind_override is None && input_kind_of(d) == Some(k),
                },
            },
    {
        let filename = match crate::paths::file_name_of(path) {
            Some(n) => n,
            None => {
                let mut reason = owned("path '");
                reason.push_str(path);
                reason.push_str("' does not have a valid file name");
                return Err(PdfConvertError::validation_error("input_path", reason.as_str()));
            },
        };
        let kind = match InputKind::from_filename_and_media_type(filename.as_str(), None) {
            Some(k) => k,
            None => {
                let mut reason = owned("unsupported file type for '");
                reason.push_str(path);
                reason.push_str("'");
                return Err(PdfConvertError::validation_error("input_path", reason.as_str()));
            },
        };
        let media = kind.canonical_media_type(filename.as_str(), None);
        proof {
            crate::input_kind::lemma_canonical_media_redetected(filename@);
        }
        Ok(InputDocument::new(filename.as_str(), media, bytes))
    }

    /// A document read from `path` whose kind is chosen explicitly; a path
    /// without a file name is a validation error of `input_path`.
    pub fn from_path_and_bytes_with_kind(path: &str, bytes: Vec<u8>, input_kind: InputKind) -> (r:
        Result<InputDocument>)
        ensures
            match file_name(path@) {
                None => r matches Err(e) && is_validation(
                    e,
                    "input_path"@,
                    "path '"@ + path@ + "' does not have a valid file name"@,
                ),
                Some(n) => r matches Ok(d) && d.filename@ == n && d.media_type@
                    == crate::input_kind::canonical_media(
                    input_kind,
                    crate::paths::lower_extension(n),
                    None,
                ) && d.bytes == bytes && d.input_kind_override == Some(input_kind),
            },
    {
        let filename = match crate::paths::file_name_of(path) {
            Some(n) => n,
            None => {
                let mut reason = owned("path '");
                reason.push_str(path);
                reason.push_str("' does not have a valid file name");
                return Err(PdfConvertError::validation_error("input_path", reason.as_str()));
            },
        };
        let media = input_kind.canonical_media_type(filename.as_str(), None);
        Ok(InputDocument::new(filename.as_str(), media, bytes).with_input_kind(input_kind))
    }

    /// The kind of the document: the override when given, else what its name
    /// and media type select; otherwise a validation error of `input` that
    /// says whether an override is needed.
    pub fn kind(&self) -> (r: Result<InputKind>)
        ensures
            kind_result(*self, r),
    {
        if let Some(input_kind) = self.input_kind_override {
            return Ok(input_kind);
        }
        match InputKind::from_filename_and_media_type(
            self.filename.as_str(),
            Some(self.media_type.as_str()),
        ) {
            Some(k) => Ok(k),
            None => {
                let ambiguous = InputKind::requires_explicit_override(
                    self.filename.as_str(),
                    Some(self.media_type.as_str()),
                );
                let mut reason = if ambiguous {
                    owned("ambiguous input type for '")
                } else {
                    owned("unsupported input type for '")
                };
                reason.push_str(self.filename.as_str());
                reason.push_str("' (");
                reason.push_str(self.media_type.as_str());
                if ambiguous {
                    reason.push_str("); provide an explicit input_format override");
                } else {
                    reason.push_str(")");
                }
                Err(PdfConvertError::validation_error("input", reason.as_str()))
            },
        }
    }
}

/// Options of a conversion done remotely by Docling Serve.
#[derive(Debug, Clone, PartialEq, Eq)]
pub struct RemoteConvertOptions {
    pub chunker: ChunkerKind,
    pub chunking: ChunkingOptions,
    pub pipeline: Option<PipelineKind>,
    /// Preset of the picture description, sent to Docling Serve as
    /// `picture_description_preset`; when it is set the custom picture
    /// description configuration of a VLM bundle is not sent.
    pub picture_description_preset: Option<String>,
}

impl Default for RemoteConvertOptions {
    fn default() -> (r: RemoteConvertOptions)
        ensures
            r.chunker is Disabled,
            chunking_view(r.chunking) == hybrid_view(),
            r.pipeline is None,
            r.picture_description_preset is None,
    {
        RemoteConvertOptions {
            chunker: ChunkerKind::Disabled,
            chunking: ChunkingOptions::hybrid_defaults(),
            pipeline: None,
            picture_description_preset: None,
        }
    }
}

pub type PdfConvertOptions = RemoteConvertOptions;

pub type GenericFileConvertOptions = RemoteConvertOptions;

/// Options of the local conversion of plain text.
#[derive(Debug, Clone, PartialEq, Eq)]
pub struct TextConvertOptions {
    pub normalize_line_endings: bool,
    pub trim_utf8_bom: bool,
}

impl Default for TextConvertOptions {
    fn default() -> (r: TextConvertOptions)
        ensures
            r.normalize_line_endings,
            r.trim_utf8_bom,
    {
        TextConvertOptions { normalize_line_endings: true, trim_utf8_bom: true }
    }
}

/// The options of a conversion, by the way the input is converted.
#[derive(Debug, Clone)]
pub enum ConvertOptions {
    Pdf(PdfConvertOptions),
    Generic(GenericFileConvertOptions),
    Text(TextConvertOptions),
}

/// A request to convert one document into the given formats.
#[derive(Debug, Clone)]
pub struct ConvertRequest {
    pub input: InputDocument,
    pub output_formats: Vec<OutputFormat>,
    pub options: ConvertOptions,
}

/// Why options of the given sort do not fit an input of kind `k`.
pub open spec fn options_mismatch(o: ConvertOptions, k: InputKind) -> Option<Seq<char>> {
    if (o is Pdf && k is Pdf) || (o is Text && k is Text) || (o is Generic
        && kind_generic_options(k)) {
        None
    } else if k is Pdf {
        Some("PDF input requires PdfConvertOptions"@)
    } else if k is Text {
        Some("txt input requires TextConvertOptions"@)
    } else {
        Some("non-pdf, non-text input requires GenericFileConvertOptions"@)
    }
}

/// The chunker that options choose; local text conversion never chunks.
pub open spec fn options_chunker(o: ConvertOptions) -> ChunkerKind {
    match o {
        ConvertOptions::Pdf(p) => p.chunker,
        ConvertOptions::Generic(p) => p.chunker,
        ConvertOptions::Text(_) => ChunkerKind::Disabled,
    }
}

/// Some requested format is an archive.
pub open spec fn any_archive(fs: Seq<OutputFormat>) -> bool {
    exists|i: int| 0 <= i < fs.len() && format_is_archive(#[trigger] fs[i])
}

/// Some requested format is the chunk output.
pub open spec fn any_chunks(fs: Seq<OutputFormat>) -> bool {
    exists|i: int| 0 <= i < fs.len() && (#[trigger] fs[i]) is Chunks
}

/// The outcome of validating a request: the input's kind, or the first rule
/// that the request breaks, as `(parameter, reason)`.
pub open spec fn validation_outcome(req: ConvertRequest) -> core::result::Result<
    InputKind,
    (Seq<char>, Seq<char>),
> {
    match input_kind_of(req.input) {
        None => Err(
            ("input"@, kind_failure_reason(req.input.filename@, req.input.media_type@)),
        ),
        Some(k) => match options_mismatch(req.options, k) {
            Some(reason) => Err(("options"@, reason)),
            None => if req.output_formats@.len() == 0 {
                Err(("output_formats"@, "at least one output format is required"@))
            } else if !(options_chunker(req.options) is Disabled) && any_archive(
                req.output_formats@,
            ) {
                Err(
                    (
                        "output_formats"@,
                        "native chunking cannot be combined with archive outputs"@,
                    ),
                )
            } else if any_chunks(req.output_formats@) && options_chunker(req.options) is Disabled {
                Err(("chunker"@, "chunks output requires hybrid or hierarchical chunking"@))
            } else {
                Ok(k)
            },
        },
    }
}

/// Whether some format of `formats` is an archive.
pub fn has_archive_format(formats: &Vec<OutputFormat>) -> (r: bool)
    ensures
        r == any_archive(formats@),
{
    let mut i: usize = 0;
    while i < formats.len()
        invariant
            i <= formats.len(),
            forall|j: int| 0 <= j < i ==> !format_is_archive(#[trigger] formats@[j]),
        decreases formats.len() - i,
    {
        if formats[i].is_archive() {
            return true;
        }
        i = i + 1;
    }
    false
}

/// Whether some format of `formats` is the chunk output.
pub fn has_chunk_format(formats: &Vec<OutputFormat>) -> (r: bool)
    ensures
        r == any_chunks(formats@),
{
    let mut i: usize = 0;
    while i < formats.len()
        invariant
            i <= formats.len(),
            forall|j: int| 0 <= j < i ==> !((#[trigger] formats@[j]) is Chunks),
        decreases formats.len() - i,
    {
        if formats[i].is_chunk_output() {
            return true;
        }
        i = i + 1;
    }
    false
}

impl ConvertRequest {
    /// Checks that the options fit the input's kind, that some output is
    /// requested, that chunking is not combined with archive outputs and that
    /// chunk output comes with a chunker; returns the input's kind.
    pub fn validate(&self) -> (r: Result<InputKind>)
        ensures
            match validation_outcome(*self) {
                Ok(k) => r == Ok::<InputKind, PdfConvertError>(k),
                Err((p, reason)) => r matches Err(e) && is_validation(e, p, reason),
            },
    {
        let kind = match self.input.kind() {
            Ok(k) => k,
            Err(e) => return Err(e),
        };
        let fits = match (&self.options, kind) {
            (ConvertOptions::Pdf(_), InputKind::Pdf) => true,
            (ConvertOptions::Text(_), InputKind::Text) => true,
            (ConvertOptions::Generic(_), _) => kind.uses_generic_convert_options(),
            _ => false,
        };
        if !fits {
            match kind {
                InputKind::Pdf => {
                    return Err(
                        PdfConvertError::validation_error(
                            "options",
                            "PDF input requires PdfConvertOptions",
                        ),
                    );
                },
                InputKind::Text => {
                    return Err(
                        PdfConvertError::validation_error(
                            "options",
                            "txt input requires TextConvertOptions",
                        ),
                    );
                },
                _ => {
                    return Err(
                        PdfConvertError::validation_error(
                            "options",
                            "non-pdf, non-text input requires GenericFileConvertOptions",
                        ),
                    );
                },
            }
        }
        if self.output_formats.len() == 0 {
            return Err(
                PdfConvertError::validation_error(
                    "output_formats",
                    "at least one output format is required",
                ),
            );
        }
        let chunker = match &self.options {
            ConvertOptions::Pdf(options) => options.chunker,
            ConvertOptions::Generic(options) => options.chunker,
            ConvertOptions::Text(_) => ChunkerKind::Disabled,
        };
        if chunker.is_enabled() && has_archive_format(&self.output_formats) {
            return Err(
                PdfConvertError::validation_error(
                    "output_formats",
                    "native chunking cannot be combined with archive outputs",
                ),
            );
        }
        if has_chunk_format(&self.output_formats) && !chunker.is_enabled() {
            return Err(
                PdfConvertError::validation_error(
                    "chunker",
                    "chunks output requires hybrid or hierarchical chunking",
                ),
            );
        }
        Ok(kind)
    }
}

/// Whether the file named by `path` has a kind that is detected without an
/// override.
pub fn supported_input_kind(path: &str) -> (r: bool)
    ensures
        r == (crate::input_kind::kind_of_path(path@) is Some),
{
    InputKind::from_path(path).is_some()
}

/// The name of every output format parses back to the format.
pub proof fn lemma_format_name_round_trip(f: OutputFormat)
    ensures
        format_named(token(format_api_value(f))) == Some(f),
{
    reveal_strlit("json");
    reveal_strlit("md");
    reveal_strlit("markdown");
    reveal_strlit("yaml");
    reveal_strlit("yml");
    reveal_strlit("html");
    reveal_strlit("html_split_page");
    reveal_strlit("html-split-page");
    reveal_strlit("text");
    reveal_strlit("txt");
    reveal_strlit("doctags");
    reveal_strlit("vtt");
    reveal_strlit("doclang");
    reveal_strlit("dclx");
    reveal_strlit("chunks");
    lemma_token_plain(format_api_value(f));
}

/// The name of every chunker parses back to the chunker.
pub proof fn lemma_chunker_name_round_trip(c: ChunkerKind)
    ensures
        chunker_named(token(chunker_name(c))) == Some(c),
{
    reveal_strlit("none");
    reveal_strlit("");
    reveal_strlit("hybrid");
    reveal_strlit("hierarchical");
    lemma_token_plain(chunker_name(c));
}

/// The name of every pipeline parses back to the pipeline.
pub proof fn lemma_pipeline_name_round_trip(p: PipelineKind)
    ensures
        pipeline_named(token(pipeline_name(p))) == Some(p),
{
    reveal_strlit("legacy");
    reveal_strlit("standard");
    reveal_strlit("vlm");
    reveal_strlit("asr");
    lemma_token_plain(pipeline_name(p));
}

/// A value and its trimmed, lower-cased form parse alike as an output
/// format, a chunker and a pipeline: to the same value, or to the same
/// error, whose text holds the same token.
pub proof fn lemma_parse_names_normalized(s: Seq<char>)
    ensures
        token(token(s)) == token(s),
        format_named(token(token(s))) == format_named(token(s)),
        chunker_named(token(token(s))) == chunker_named(token(s)),
        pipeline_named(token(token(s))) == pipeline_named(token(s)),
{
    crate::strings::lemma_token_idempotent(s);
}

} // verus!
