//! The simple entry point of the library: a converter built from runtime
//! settings, with one conversion behaviour and one set of outputs for every
//! input, and resumable handles of remote tasks.
use vstd::prelude::*;

use crate::client::DoclingClient;
use crate::config::{
    build_convert_options, docling_config_of, options_fit, ConversionBehavior, DoclingConfig,
    DoclingRuntimeConfig, EnvSettings,
};
use crate::document::{
    chunking_view, hybrid_view, input_kind_of, kind_result, ConvertRequest, InputDocument,
    OutputFormat,
};
use crate::error::{is_validation, PdfConvertError, Result};
use crate::input_kind::{canonical_media, detect, InputKind};
use crate::paths::lower_extension;
use crate::processor::DocumentConverter;
use crate::strings::owned;

verus! {

/// The behaviour of a converter that was not given one: no chunker, the
/// hybrid defaults, no pipeline.
pub open spec fn default_behavior(b: ConversionBehavior) -> bool {
    b.chunker is Disabled && chunking_view(b.chunking) == hybrid_view() && b.pipeline is None
}

/// The builder of a converter.
pub struct ConverterBuilder {
    config: DoclingRuntimeConfig,
    behavior: ConversionBehavior,
    output_formats: Vec<OutputFormat>,
    result_body_limit: Option<usize>,
}

impl ConverterBuilder {
    /// The runtime settings.
    pub closed spec fn settings(&self) -> DoclingRuntimeConfig {
        self.config
    }

    /// The conversion behaviour.
    pub closed spec fn chosen_behavior(&self) -> ConversionBehavior {
        self.behavior
    }

    /// The requested outputs.
    pub closed spec fn formats(&self) -> Seq<OutputFormat> {
        self.output_formats@
    }

    /// The limit on result bodies.
    pub closed spec fn body_limit(&self) -> Option<usize> {
        self.result_body_limit
    }

    /// A builder for `config` with the default behaviour, Markdown output and
    /// no limit on result bodies.
    pub fn new(config: DoclingRuntimeConfig) -> (r: ConverterBuilder)
        ensures
            r.settings() == config,
            default_behavior(r.chosen_behavior()),
            r.formats() == seq![OutputFormat::Md],
            r.body_limit() is None,
    {
        let mut output_formats: Vec<OutputFormat> = Vec::new();
        output_formats.push(OutputFormat::Md);
        ConverterBuilder {
            config,
            behavior: ConversionBehavior::default(),
            output_formats,
            result_body_limit: None,
        }
    }

    /// The same builder with the given behaviour.
    pub fn behavior(self, behavior: ConversionBehavior) -> (r: ConverterBuilder)
        ensures
            r.settings() == self.settings(),
            r.chosen_behavior() == behavior,
            r.formats() == self.formats(),
            r.body_limit() == self.body_limit(),
    {
        let mut r = self;
        r.behavior = behavior;
        r
    }

    /// The same builder with the given outputs.
    pub fn output_formats(self, output_formats: Vec<OutputFormat>) -> (r: ConverterBuilder)
        ensures
            r.settings() == self.settings(),
            r.chosen_behavior() == self.chosen_behavior(),
            r.formats() == output_formats@,
            r.body_limit() == self.body_limit(),
    {
        let mut r = self;
        r.output_formats = output_formats;
        r
    }

    /// The same builder with a limit on result bodies.
    pub fn result_body_limit(self, result_body_limit: usize) -> (r: ConverterBuilder)
        ensures
            r.settings() == self.settings(),
            r.chosen_behavior() == self.chosen_behavior(),
            r.formats() == self.formats(),
            r.body_limit() == Some(result_body_limit),
    {
        let mut r = self;
        r.result_body_limit = Some(result_body_limit);
        r
    }

    /// The converter: a client for the settings (keys that they leave unset
    /// taken from the environment), the behaviour, and the outputs (Markdown
    /// when none were given); a limit of 0 is a validation error of
    /// `result_body_limit`.
    pub fn build(self, env: &EnvSettings) -> (r: Result<PdfConvert>)
        ensures
            self.body_limit() == Some(0usize) ==> (r matches Err(e) && is_validation(
                e,
                "result_body_limit"@,
                "value must be greater than 0"@,
            )),
            self.body_limit() != Some(0usize) ==> (r matches Ok(p) && docling_config_of(
                self.settings(),
                *env,
                p.client_settings(),
            ) && p.client_body_limit() == self.body_limit() && p.behavior_of()
                == self.chosen_behavior() && p.formats() == (if self.formats().len() == 0 {
                seq![OutputFormat::Md]
            } else {
                self.formats()
            })),
    {
        let output_formats = if self.output_formats.len() == 0 {
            let mut v: Vec<OutputFormat> = Vec::new();
            v.push(OutputFormat::Md);
            v
        } else {
            self.output_formats
        };
        let config = self.config.into_docling_config(env);
        let client = match self.result_body_limit {
            Some(limit) => match DoclingClient::new_with_result_body_limit(config, limit) {
                Ok(c) => c,
                Err(e) => return Err(e),
            },
            None => match DoclingClient::new(config) {
                Ok(c) => c,
                Err(e) => return Err(e),
            },
        };
        Ok(
            PdfConvert {
                converter: DocumentConverter::new(client),
                behavior: self.behavior,
                output_formats,
            },
        )
    }
}

/// A converter with one behaviour and one set of outputs.
#[derive(Debug)]
pub struct PdfConvert {
    converter: DocumentConverter,
    behavior: ConversionBehavior,
    output_formats: Vec<OutputFormat>,
}

/// The document of `filename` and `bytes` whose kind is `k`: its media type
/// is the canonical one of the kind for that name.
pub open spec fn bytes_input(filename: Seq<char>, bytes: Seq<u8>, k: InputKind, d: InputDocument) -> bool {
    &&& d.filename@ == filename
    &&& d.media_type@ == canonical_media(k, lower_extension(filename), None)
    &&& d.bytes@ == bytes
}

impl PdfConvert {
    /// The settings of the client.
    pub closed spec fn client_settings(&self) -> DoclingConfig {
        self.converter.docling_client.settings()
    }

    /// The limit of the client on result bodies.
    pub closed spec fn client_body_limit(&self) -> Option<usize> {
        self.converter.docling_client.body_limit()
    }

    /// The conversion behaviour.
    pub closed spec fn behavior_of(&self) -> ConversionBehavior {
        self.behavior
    }

    /// The requested outputs.
    pub closed spec fn formats(&self) -> Seq<OutputFormat> {
        self.output_formats@
    }

    /// The converter that runs the conversions.
    pub closed spec fn converter_of(&self) -> DocumentConverter {
        self.converter
    }

    /// A builder for `config`.
    pub fn builder(config: DoclingRuntimeConfig) -> (r: ConverterBuilder)
        ensures
            r.settings() == config,
            default_behavior(r.chosen_behavior()),
            r.formats() == seq![OutputFormat::Md],
            r.body_limit() is None,
    {
        ConverterBuilder::new(config)
    }

    /// The converter of `config` with the defaults.
    pub fn from_runtime_config(config: DoclingRuntimeConfig, env: &EnvSettings) -> (r: Result<
        PdfConvert,
    >)
        ensures
            r matches Ok(p) && docling_config_of(config, *env, p.client_settings())
                && p.client_body_limit() is None && default_behavior(p.behavior_of()) && p.formats()
                == seq![OutputFormat::Md],
    {
        PdfConvert::builder(config).build(env)
    }

    /// The converter of client settings, with the default behaviour and
    /// Markdown output.
    pub fn from_docling_config(config: DoclingConfig) -> (r: Result<PdfConvert>)
        ensures
            r matches Ok(p) && p.client_settings() == config && p.client_body_limit() is None
                && default_behavior(p.behavior_of()) && p.formats() == seq![OutputFormat::Md],
    {
        let client = match DoclingClient::new(config) {
            Ok(c) => c,
            Err(e) => return Err(e),
        };
        let mut output_formats: Vec<OutputFormat> = Vec::new();
        output_formats.push(OutputFormat::Md);
        Ok(
            PdfConvert {
                converter: DocumentConverter::new(client),
                behavior: ConversionBehavior::default(),
                output_formats,
            },
        )
    }

    /// The converter that runs the conversions.
    pub fn converter(&self) -> (r: &DocumentConverter)
        ensures
            *r == self.converter_of(),
    {
        &self.converter
    }

    /// The request that converts `input` into the outputs of the converter,
    /// with options for its kind under the converter's behaviour; an input
    /// whose kind is not known is its validation error.
    pub fn request_for_input(&self, input: InputDocument) -> (r: Result<ConvertRequest>)
        ensures
            match input_kind_of(input) {
                None => r matches Err(e) && kind_result(input, Err(e)),
                Some(k) => r matches Ok(req) && req.input == input && req.output_formats@
                    == self.formats() && options_fit(k, self.behavior_of(), req.options),
            },
    {
        let input_kind = match input.kind() {
            Ok(k) => k,
            Err(e) => return Err(e),
        };
        let options = match build_convert_options(input_kind, &self.behavior) {
            Ok(o) => o,
            Err(e) => return Err(e),
        };
        let output_formats = self.output_formats.clone();
        assert(output_formats@ =~= self.output_formats@);
        Ok(ConvertRequest { input, output_formats, options })
    }

    /// The input of `convert_bytes`: the kind that the name selects, with
    /// its canonical media type; a name that selects none is a validation
    /// error of `filename`.
    pub fn input_for_bytes(filename: &str, bytes: Vec<u8>) -> (r: Result<InputDocument>)
        ensures
            match detect(filename@, None) {
                Some(k) => r matches Ok(d) && bytes_input(filename@, bytes@, k, d)
                    && d.input_kind_override is None,
                None => r matches Err(e) && is_validation(
                    e,
                    "filename"@,
                    "unsupported input type for '"@ + filename@ + "'"@,
                ),
            },
    {
        match InputKind::from_filename_and_media_type(filename, None) {
            Some(kind) => {
                let media_type = kind.canonical_media_type(filename, None);
                Ok(InputDocument::new(filename, media_type, bytes))
            },
            None => {
                let mut reason = owned("unsupported input type for '");
                reason.push_str(filename);
                reason.push_str("'");
                Err(PdfConvertError::validation_error("filename", reason.as_str()))
            },
        }
    }

    /// The input of `convert_bytes_with_input_kind`: the given kind, with its
    /// canonical media type for the name.
    pub fn input_for_bytes_with_kind(filename: &str, bytes: Vec<u8>, input_kind: InputKind) -> (r:
        InputDocument)
        ensures
            bytes_input(filename@, bytes@, input_kind, r),
            r.input_kind_override == Some(input_kind),
    {
        let media_type = input_kind.canonical_media_type(filename, None);
        InputDocument::new(filename, media_type, bytes).with_input_kind(input_kind)
    }

    /// The handle of a remote task that was submitted for `input`.
    pub fn task_handle(&self, input: InputDocument, task_id: String) -> (r: DoclingTaskHandle)
        ensures
            r.converter_of() == self.converter_of(),
            r.input_of() == input,
            r.task() == task_id,
    {
        DoclingTaskHandle { converter: self.converter.clone(), input, task_id }
    }
}

/// A resumable handle of a remote conversion: the converter, the input and
/// the id of the task at Docling Serve.
#[derive(Debug)]
pub struct DoclingTaskHandle {
    converter: DocumentConverter,
    input: InputDocument,
    task_id: String,
}

impl DoclingTaskHandle {
    /// The converter of the task.
    pub closed spec fn converter_of(&self) -> DocumentConverter {
        self.converter
    }

    /// The input of the task.
    pub closed spec fn input_of(&self) -> InputDocument {
        self.input
    }

    /// The id of the task.
    pub closed spec fn task(&self) -> String {
        self.task_id
    }

    /// The id of the task.
    pub fn task_id(&self) -> (r: &str)
        ensures
            r@ == self.task()@,
    {
        self.task_id.as_str()
    }

    /// The input of the task.
    pub fn input(&self) -> (r: &InputDocument)
        ensures
            *r == self.input_of(),
    {
        &self.input
    }

    /// The converter of the task.
    pub fn converter(&self) -> (r: &DocumentConverter)
        ensures
            *r == self.converter_of(),
    {
        &self.converter
    }
}

} // verus!
