//! Connection settings of Docling Serve, the optional VLM bundle, and the
//! behaviour that a caller chooses for a conversion.
use vstd::prelude::*;

use crate::document::{
    any_archive, any_chunks, chunking_view, hybrid_view, input_kind_of, options_chunker,
    options_mismatch, validation_outcome, ChunkerKind, ChunkingOptions, ConvertOptions,
    ConvertRequest, OutputFormat, PipelineKind, RemoteConvertOptions, TextConvertOptions,
};
use crate::error::{is_validation, PdfConvertError, Result};
use crate::input_kind::{kind_generic_options, InputKind};
use crate::strings::{owned, parse_bounded, parse_unsigned, string_from, to_chars, trim, trim_chars};

verus! {

/// The view of an optional string.
pub open spec fn opt_text(o: Option<String>) -> Option<Seq<char>> {
    match o {
        Some(s) => Some(s@),
        None => None,
    }
}

/// A copy of an optional string.
pub fn copy_opt(o: &Option<String>) -> (r: Option<String>)
    ensures
        opt_text(r) == opt_text(*o),
{
    match o {
        Some(s) => Some(s.clone()),
        None => None,
    }
}

/// The settings of a client of Docling Serve.
#[derive(Debug)]
pub struct DoclingConfig {
    pub base_url: String,
    pub openai_base_url: String,
    pub vlm_pipeline_model: String,
    pub picture_description_model: String,
    pub code_formula_model: String,
    pub api_key: Option<String>,
    pub openai_api_key: Option<String>,
    pub tenant_id: Option<String>,
    pub request_timeout: Option<std::time::Duration>,
    pub task_timeout: Option<std::time::Duration>,
}

/// An equal copy of an optional string.
pub fn clone_opt(o: &Option<String>) -> (r: Option<String>)
    ensures
        r == *o,
{
    match o {
        Some(s) => Some(s.clone()),
        None => None,
    }
}

impl Clone for DoclingConfig {
    fn clone(&self) -> (r: Self)
        ensures
            r == *self,
    {
        DoclingConfig {
            base_url: self.base_url.clone(),
            openai_base_url: self.openai_base_url.clone(),
            vlm_pipeline_model: self.vlm_pipeline_model.clone(),
            picture_description_model: self.picture_description_model.clone(),
            code_formula_model: self.code_formula_model.clone(),
            api_key: clone_opt(&self.api_key),
            openai_api_key: clone_opt(&self.openai_api_key),
            tenant_id: clone_opt(&self.tenant_id),
            request_timeout: self.request_timeout,
            task_timeout: self.task_timeout,
        }
    }
}

impl DoclingConfig {
    /// Settings for `base_url` with no VLM bundle, no keys and default
    /// timeouts.
    pub fn without_vlm(base_url: &str) -> (r: DoclingConfig)
        ensures
            r.base_url@ == base_url@,
            r.openai_base_url@.len() == 0,
            r.vlm_pipeline_model@.len() == 0,
            r.picture_description_model@.len() == 0,
            r.code_formula_model@.len() == 0,
            r.api_key is None,
            r.openai_api_key is None,
            r.tenant_id is None,
            r.request_timeout is None,
            r.task_timeout is None,
    {
        DoclingConfig {
            base_url: owned(base_url),
            openai_base_url: String::new(),
            vlm_pipeline_model: String::new(),
            picture_description_model: String::new(),
            code_formula_model: String::new(),
            api_key: None,
            openai_api_key: None,
            tenant_id: None,
            request_timeout: None,
            task_timeout: None,
        }
    }
}

/// A complete VLM bundle: every value trimmed and non-empty.
#[derive(Debug, Clone, PartialEq, Eq)]
pub struct ResolvedVlmConfig {
    pub openai_base_url: String,
    pub vlm_pipeline_model: String,
    pub picture_description_model: String,
    pub code_formula_model: String,
    pub api_key: String,
}

/// `s` trimmed, or `None` when nothing remains.
pub open spec fn trimmed_present(s: Seq<char>) -> Option<Seq<char>> {
    if trim(s).len() == 0 {
        None
    } else {
        Some(trim(s))
    }
}

/// The trimmed key of an optional key.
pub open spec fn trimmed_key(o: Option<String>) -> Option<Seq<char>> {
    match o {
        Some(k) => trimmed_present(k@),
        None => None,
    }
}

/// The five values of the VLM bundle of a configuration, trimmed.
pub open spec fn vlm_values(c: DoclingConfig) -> Seq<Option<Seq<char>>> {
    seq![
        trimmed_present(c.openai_base_url@),
        trimmed_present(c.vlm_pipeline_model@),
        trimmed_present(c.picture_description_model@),
        trimmed_present(c.code_formula_model@),
        trimmed_key(c.openai_api_key),
    ]
}

/// The reason given for an incomplete VLM bundle.
pub open spec fn incomplete_vlm_reason() -> Seq<char> {
    "optional VLM runtime config is incomplete; provide all of: docling_openai_base_url, docling_vlm_pipeline_model, docling_picture_description_model, docling_code_formula_model, openai_api_key, or leave all unset"@
}

/// `s` trimmed, or `None` when nothing remains.
pub fn trimmed_non_empty(value: &str) -> (r: Option<String>)
    ensures
        opt_text(r) == trimmed_present(value@),
{
    let v = to_chars(value);
    let t = trim_chars(&v);
    if t.len() == 0 {
        None
    } else {
        Some(string_from(&t))
    }
}

impl DoclingConfig {
    /// The VLM bundle of the configuration: `None` when none of its five
    /// values is set, the trimmed values when all are, and a validation error
    /// of `docling runtime` when only some are.
    pub fn resolved_vlm_config(&self) -> (r: Result<Option<ResolvedVlmConfig>>)
        ensures
            (forall|i: int| 0 <= i < 5 ==> (#[trigger] vlm_values(*self)[i]) is None) ==> r
                == Ok::<Option<ResolvedVlmConfig>, PdfConvertError>(None),
            (forall|i: int| 0 <= i < 5 ==> (#[trigger] vlm_values(*self)[i]) is Some) ==> (r
                matches Ok(Some(v)) && Some(v.openai_base_url@) == vlm_values(*self)[0] && Some(
                v.vlm_pipeline_model@,
            ) == vlm_values(*self)[1] && Some(v.picture_description_model@) == vlm_values(
                *self,
            )[2] && Some(v.code_formula_model@) == vlm_values(*self)[3] && Some(v.api_key@)
                == vlm_values(*self)[4]),
            ((exists|i: int| 0 <= i < 5 && (#[trigger] vlm_values(*self)[i]) is None) && (exists|
                j: int,
            |
                0 <= j < 5 && (#[trigger] vlm_values(*self)[j]) is Some)) ==> (r matches Err(e)
                && is_validation(e, "docling runtime"@, incomplete_vlm_reason())),
    {
        let openai_base_url = trimmed_non_empty(self.openai_base_url.as_str());
        let vlm_pipeline_model = trimmed_non_empty(self.vlm_pipeline_model.as_str());
        let picture_description_model = trimmed_non_empty(
            self.picture_description_model.as_str(),
        );
        let code_formula_model = trimmed_non_empty(self.code_formula_model.as_str());
        let api_key = match &self.openai_api_key {
            Some(k) => trimmed_non_empty(k.as_str()),
            None => None,
        };
        let ghost vals = vlm_values(*self);
        let mut present: u32 = 0;
        if openai_base_url.is_some() {
            present = present + 1;
        }
        if vlm_pipeline_model.is_some() {
            present = present + 1;
        }
        if picture_description_model.is_some() {
            present = present + 1;
        }
        if code_formula_model.is_some() {
            present = present + 1;
        }
        if api_key.is_some() {
            present = present + 1;
        }
        assert(vals[0] == opt_text(openai_base_url));
        assert(vals[1] == opt_text(vlm_pipeline_model));
        assert(vals[2] == opt_text(picture_description_model));
        assert(vals[3] == opt_text(code_formula_model));
        assert(vals[4] == opt_text(api_key));
        if present == 0 {
            return Ok(None);
        }
        if present != 5 {
            return Err(
                PdfConvertError::validation_error(
                    "docling runtime",
                    "optional VLM runtime config is incomplete; provide all of: docling_openai_base_url, docling_vlm_pipeline_model, docling_picture_description_model, docling_code_formula_model, openai_api_key, or leave all unset",
                ),
            );
        }
        match (openai_base_url, vlm_pipeline_model, picture_description_model, code_formula_model, api_key) {
            (Some(a), Some(b), Some(c), Some(d), Some(e)) => Ok(
                Some(
                    ResolvedVlmConfig {
                        openai_base_url: a,
                        vlm_pipeline_model: b,
                        picture_description_model: c,
                        code_formula_model: d,
                        api_key: e,
                    },
                ),
            ),
            _ => {
                proof {
                    assert(false);
                }
                Ok(None)
            },
        }
    }
}

/// The values of the environment variables that the settings read:
/// `DOCLING_API_KEY`, `OPENAI_API_KEY`, `DOCLING_TENANT_ID`,
/// `DOCLING_HTTP_TIMEOUT_SECS`, `DOCLING_SERVE_MAX_SYNC_WAIT` and
/// `DOCLING_TASK_TIMEOUT_SECS`, each `None` when unset.
#[derive(Debug, Clone, Default)]
pub struct EnvSettings {
    pub docling_api_key: Option<String>,
    pub openai_api_key: Option<String>,
    pub tenant_id: Option<String>,
    pub http_timeout_secs: Option<String>,
    pub max_sync_wait_secs: Option<String>,
    pub task_timeout_secs: Option<String>,
}

/// The duration of `secs` seconds, as `Duration::from_secs` makes it.
pub uninterp spec fn secs_duration(secs: u64) -> std::time::Duration;

/// `std::time::Duration::from_secs`: the duration of `secs` whole seconds.
/// The duration is opaque here; the contract only names it by its seconds.
#[verifier::external_body]
fn duration_from_secs(secs: u64) -> (d: std::time::Duration)
    ensures
        d == secs_duration(secs),
{
    std::time::Duration::from_secs(secs)
}

/// The seconds that an optional setting spells as a `u64`.
pub open spec fn secs_value(value: Option<Seq<char>>) -> Option<u64> {
    match value {
        Some(v) => match parse_unsigned(v, u64::MAX as int) {
            Some(n) => Some(n as u64),
            None => None,
        },
        None => None,
    }
}

/// The seconds of a default timeout: the setting when it spells a `u64`,
/// else an hour; at least one second.
pub open spec fn default_secs(value: Option<Seq<char>>) -> u64 {
    match secs_value(value) {
        Some(n) => if n == 0 {
            1
        } else {
            n
        },
        None => 3600,
    }
}

fn secs_of(value: &Option<String>) -> (r: Option<u64>)
    ensures
        r == secs_value(opt_text(*value)),
{
    match value {
        Some(v) => parse_bounded(v.as_str(), 18446744073709551615u64),
        None => None,
    }
}

/// The optional timeout that a setting gives: its seconds when it spells a
/// `u64`, else none.
pub fn timeout_setting(value: &Option<String>) -> (r: Option<std::time::Duration>)
    ensures
        r == match secs_value(opt_text(*value)) {
            Some(n) => Some(secs_duration(n)),
            None => None,
        },
{
    match secs_of(value) {
        Some(n) => Some(duration_from_secs(n)),
        None => None,
    }
}

/// The timeout of a request when the settings give none:
/// `DOCLING_HTTP_TIMEOUT_SECS`, else `DOCLING_SERVE_MAX_SYNC_WAIT` (the first
/// that is set counts), else an hour; at least one second.
pub fn default_request_timeout(env: &EnvSettings) -> (r: std::time::Duration)
    ensures
        r == secs_duration(
            default_secs(or_else(opt_text(env.http_timeout_secs), opt_text(env.max_sync_wait_secs))),
        ),
{
    let chosen = if env.http_timeout_secs.is_some() {
        &env.http_timeout_secs
    } else {
        &env.max_sync_wait_secs
    };
    let secs: u64 = match secs_of(chosen) {
        Some(n) => if n == 0 {
            1
        } else {
            n
        },
        None => 3600,
    };
    duration_from_secs(secs)
}

/// The time a task may take when the settings give none:
/// `DOCLING_TASK_TIMEOUT_SECS`, else an hour; at least one second.
pub fn default_task_timeout(env: &EnvSettings) -> (r: std::time::Duration)
    ensures
        r == secs_duration(default_secs(opt_text(env.task_timeout_secs))),
{
    let secs: u64 = match secs_of(&env.task_timeout_secs) {
        Some(n) => if n == 0 {
            1
        } else {
            n
        },
        None => 3600,
    };
    duration_from_secs(secs)
}

/// The settings from which a client is built.
#[derive(Debug, Clone)]
pub struct DoclingRuntimeConfig {
    pub docling_base_url: String,
    pub openai_base_url: String,
    pub vlm_pipeline_model: String,
    pub picture_description_model: String,
    pub code_formula_model: String,
    pub api_key: Option<String>,
    pub tenant_id: Option<String>,
    pub openai_api_key: Option<String>,
    pub request_timeout: Option<std::time::Duration>,
    pub task_timeout: Option<std::time::Duration>,
}

/// `a`, else `b`.
pub open spec fn or_else(a: Option<Seq<char>>, b: Option<Seq<char>>) -> Option<Seq<char>> {
    match a {
        Some(x) => Some(x),
        None => b,
    }
}

fn first_of(a: Option<String>, b: &Option<String>) -> (r: Option<String>)
    ensures
        opt_text(r) == or_else(opt_text(a), opt_text(*b)),
{
    match a {
        Some(x) => Some(x),
        None => copy_opt(b),
    }
}

/// `r` is the client settings of `rt`: every value carried over, each key
/// that `rt` leaves unset taken from the environment.
pub open spec fn docling_config_of(rt: DoclingRuntimeConfig, env: EnvSettings, r: DoclingConfig) -> bool {
    &&& r.base_url == rt.docling_base_url
    &&& r.openai_base_url == rt.openai_base_url
    &&& r.vlm_pipeline_model == rt.vlm_pipeline_model
    &&& r.picture_description_model == rt.picture_description_model
    &&& r.code_formula_model == rt.code_formula_model
    &&& opt_text(r.api_key) == or_else(opt_text(rt.api_key), opt_text(env.docling_api_key))
    &&& opt_text(r.openai_api_key) == or_else(opt_text(rt.openai_api_key), opt_text(env.openai_api_key))
    &&& opt_text(r.tenant_id) == or_else(opt_text(rt.tenant_id), opt_text(env.tenant_id))
    &&& r.request_timeout == rt.request_timeout
    &&& r.task_timeout == rt.task_timeout
}

impl DoclingRuntimeConfig {
    /// Settings for `docling_base_url` with no VLM bundle, no keys and
    /// default timeouts.
    pub fn without_vlm(docling_base_url: &str) -> (r: DoclingRuntimeConfig)
        ensures
            r.docling_base_url@ == docling_base_url@,
            r.openai_base_url@.len() == 0,
            r.vlm_pipeline_model@.len() == 0,
            r.picture_description_model@.len() == 0,
            r.code_formula_model@.len() == 0,
            r.api_key is None,
            r.tenant_id is None,
            r.openai_api_key is None,
            r.request_timeout is None,
            r.task_timeout is None,
    {
        DoclingRuntimeConfig {
            docling_base_url: owned(docling_base_url),
            openai_base_url: String::new(),
            vlm_pipeline_model: String::new(),
            picture_description_model: String::new(),
            code_formula_model: String::new(),
            api_key: None,
            tenant_id: None,
            openai_api_key: None,
            request_timeout: None,
            task_timeout: None,
        }
    }

    /// Settings for `docling_base_url` with no VLM bundle, the keys and the
    /// tenant from the environment, the request timeout from the
    /// environment when it spells whole seconds, and no task timeout.
    pub fn from_env(docling_base_url: &str, env: &EnvSettings) -> (r: DoclingRuntimeConfig)
        ensures
            r.docling_base_url@ == docling_base_url@,
            r.openai_base_url@.len() == 0,
            r.vlm_pipeline_model@.len() == 0,
            r.picture_description_model@.len() == 0,
            r.code_formula_model@.len() == 0,
            opt_text(r.api_key) == opt_text(env.docling_api_key),
            opt_text(r.tenant_id) == opt_text(env.tenant_id),
            opt_text(r.openai_api_key) == opt_text(env.openai_api_key),
            r.request_timeout == match secs_value(opt_text(env.http_timeout_secs)) {
                Some(n) => Some(secs_duration(n)),
                None => None,
            },
            r.task_timeout is None,
    {
        let mut config = DoclingRuntimeConfig::without_vlm(docling_base_url);
        config.api_key = copy_opt(&env.docling_api_key);
        config.tenant_id = copy_opt(&env.tenant_id);
        config.openai_api_key = copy_opt(&env.openai_api_key);
        config.request_timeout = timeout_setting(&env.http_timeout_secs);
        config
    }

    /// The client settings: every value carried over, each key that the
    /// configuration leaves unset taken from the environment.
    pub fn into_docling_config(self, env: &EnvSettings) -> (r: DoclingConfig)
        ensures
            docling_config_of(self, *env, r),
    {
        DoclingConfig {
            base_url: self.docling_base_url,
            openai_base_url: self.openai_base_url,
            vlm_pipeline_model: self.vlm_pipeline_model,
            picture_description_model: self.picture_description_model,
            code_formula_model: self.code_formula_model,
            api_key: first_of(self.api_key, &env.docling_api_key),
            openai_api_key: first_of(self.openai_api_key, &env.openai_api_key),
            tenant_id: first_of(self.tenant_id, &env.tenant_id),
            request_timeout: self.request_timeout,
            task_timeout: self.task_timeout,
        }
    }
}

/// How documents are converted: the chunker, its options and the pipeline.
#[derive(Debug, Clone, PartialEq, Eq)]
pub struct ConversionBehavior {
    pub chunker: ChunkerKind,
    pub chunking: ChunkingOptions,
    pub pipeline: Option<PipelineKind>,
}

impl Default for ConversionBehavior {
    fn default() -> (r: ConversionBehavior)
        ensures
            r.chunker is Disabled,
            chunking_view(r.chunking) == hybrid_view(),
            r.pipeline is None,
    {
        ConversionBehavior {
            chunker: ChunkerKind::Disabled,
            chunking: ChunkingOptions::hybrid_defaults(),
            pipeline: None,
        }
    }
}

/// The options under which an input of kind `k` is converted with the
/// chunker `chunker`, the chunking options `chunking` and the pipeline
/// `pipeline`: PDF options for PDF, generic options for the kinds that use
/// them, local text options otherwise.
pub open spec fn options_fit_parts(
    k: InputKind,
    chunker: ChunkerKind,
    chunking: (bool, bool, Seq<char>, bool, Option<u32>, Option<Seq<char>>, bool),
    pipeline: Option<PipelineKind>,
    o: ConvertOptions,
) -> bool {
    let remote_fits = |r: RemoteConvertOptions|
        r.chunker == chunker && chunking_view(r.chunking) == chunking && r.pipeline == pipeline
            && r.picture_description_preset is None;
    if k is Pdf {
        o matches ConvertOptions::Pdf(r) && remote_fits(r)
    } else if kind_generic_options(k) {
        o matches ConvertOptions::Generic(r) && remote_fits(r)
    } else {
        o matches ConvertOptions::Text(t) && t.normalize_line_endings && t.trim_utf8_bom
    }
}

/// The options under which an input of kind `k` is converted with the
/// behaviour `b`.
pub open spec fn options_fit(k: InputKind, b: ConversionBehavior, o: ConvertOptions) -> bool {
    options_fit_parts(k, b.chunker, chunking_view(b.chunking), b.pipeline, o)
}

/// The options built for a kind always fit it: a request carrying them is
/// refused only for its outputs. It is validated exactly when some output is
/// requested, no archive output comes with a chunker and chunk output comes
/// with one, where the chunker is the behaviour's for a remote conversion
/// and none for local text.
pub proof fn lemma_built_options_validate(req: ConvertRequest, k: InputKind, b: ConversionBehavior)
    requires
        input_kind_of(req.input) == Some(k),
        options_fit(k, b, req.options),
    ensures
        options_mismatch(req.options, k) is None,
        options_chunker(req.options) == (if k is Text {
            ChunkerKind::Disabled
        } else {
            b.chunker
        }),
        validation_outcome(req) == (if req.output_formats@.len() == 0 {
            Err(("output_formats"@, "at least one output format is required"@))
        } else if !(options_chunker(req.options) is Disabled) && any_archive(req.output_formats@) {
            Err(("output_formats"@, "native chunking cannot be combined with archive outputs"@))
        } else if any_chunks(req.output_formats@) && options_chunker(req.options) is Disabled {
            Err(("chunker"@, "chunks output requires hybrid or hierarchical chunking"@))
        } else {
            Ok::<InputKind, (Seq<char>, Seq<char>)>(k)
        }),
{
}

/// The options under which an input of kind `input_kind` is converted with
/// `behavior`.
pub fn build_convert_options(input_kind: InputKind, behavior: &ConversionBehavior) -> (r: Result<
    ConvertOptions,
>)
    ensures
        r matches Ok(o) && options_fit(input_kind, *behavior, o),
{
    let remote_options = RemoteConvertOptions {
        chunker: behavior.chunker,
        chunking: behavior.chunking.clone(),
        pipeline: behavior.pipeline,
        picture_description_preset: None,
    };
    if matches!(input_kind, InputKind::Pdf) {
        Ok(ConvertOptions::Pdf(remote_options))
    } else if input_kind.uses_generic_convert_options() {
        Ok(ConvertOptions::Generic(remote_options))
    } else {
        Ok(ConvertOptions::Text(TextConvertOptions::default()))
    }
}

/// The parameters of one remote conversion.
#[derive(Debug, Clone)]
pub struct DoclingConvertRequest {
    pub output_formats: Vec<OutputFormat>,
    pub page_range: Option<(u32, u32)>,
    pub chunker: ChunkerKind,
    pub chunking: ChunkingOptions,
    pub pipeline: Option<PipelineKind>,
    pub picture_description_preset: Option<String>,
}

impl DoclingConvertRequest {
    /// A request for the given outputs, without chunking, page range,
    /// pipeline or preset.
    pub fn for_outputs(output_formats: Vec<OutputFormat>) -> (r: DoclingConvertRequest)
        ensures
            r.output_formats == output_formats,
            r.page_range is None,
            r.chunker is Disabled,
            chunking_view(r.chunking) == hybrid_view(),
            r.pipeline is None,
            r.picture_description_preset is None,
    {
        DoclingConvertRequest {
            output_formats,
            page_range: None,
            chunker: ChunkerKind::Disabled,
            chunking: ChunkingOptions::hybrid_defaults(),
            pipeline: None,
            picture_description_preset: None,
        }
    }

    /// The same request with the given chunker and options.
    pub fn with_chunker(self, chunker: ChunkerKind, options: ChunkingOptions) -> (r:
        DoclingConvertRequest)
        ensures
            r.output_formats == self.output_formats,
            r.page_range == self.page_range,
            r.chunker == chunker,
            r.chunking == options,
            r.pipeline == self.pipeline,
            r.picture_description_preset == self.picture_description_preset,
    {
        let mut r = self;
        r.chunker = chunker;
        r.chunking = options;
        r
    }

    /// The same request with the given pipeline.
    pub fn with_pipeline(self, pipeline: Option<PipelineKind>) -> (r: DoclingConvertRequest)
        ensures
            r.output_formats == self.output_formats,
            r.page_range == self.page_range,
            r.chunker == self.chunker,
            r.chunking == self.chunking,
            r.pipeline == pipeline,
            r.picture_description_preset == self.picture_description_preset,
    {
        let mut r = self;
        r.pipeline = pipeline;
        r
    }
}

} // verus!
