//! What is sent to Docling Serve: endpoints, URLs, headers, multipart forms
//! and the JSON bodies of source conversions.
use vstd::prelude::*;

use crate::config::{opt_text, DoclingConfig, DoclingConvertRequest, ResolvedVlmConfig};
use crate::document::{
    any_archive, format_api_value, has_archive_format, pipeline_name, ChunkerKind, InputDocument,
    OutputFormat,
};
use crate::error::{is_api, is_validation, PdfConvertError, Result};
use crate::input_kind::{kind_formats_value, kind_supports_vlm, InputKind};
use crate::json::{JsonMember, JsonValue};
use crate::strings::{dec, dec_string, owned};

verus! {

/// The part of a multipart form that carries the document.
#[derive(Debug, Clone)]
pub struct FilePart {
    pub filename: String,
    pub media_type: String,
    pub bytes: Vec<u8>,
}

/// The value of a field of a multipart form.
#[derive(Debug)]
pub enum FieldValue {
    Text(String),
    Json(JsonValue),
}

/// A field of a multipart form.
#[derive(Debug)]
pub struct FormField {
    pub name: String,
    pub value: FieldValue,
}

impl FormField {
    /// The text that the field sends: its text, or its JSON written
    /// compactly.
    pub fn text_value(&self) -> (r: String)
        ensures
            match self.value {
                FieldValue::Text(t) => r@ == t@,
                FieldValue::Json(v) => r@ == crate::json::json_text(v),
            },
    {
        match &self.value {
            FieldValue::Text(t) => t.clone(),
            FieldValue::Json(v) => crate::json::compact_json_text(v),
        }
    }
}

/// A multipart form: the document under `files`, then the fields in order.
#[derive(Debug)]
pub struct FormPlan {
    pub file: FilePart,
    pub fields: Vec<FormField>,
}

/// A field by its name and, for a text field, its text.
pub open spec fn field_view(f: FormField) -> (Seq<char>, Option<Seq<char>>) {
    (
        f.name@,
        match f.value {
            FieldValue::Text(t) => Some(t@),
            FieldValue::Json(_) => None,
        },
    )
}

/// The fields of a form by name and text.
pub open spec fn fields_view(fs: Seq<FormField>) -> Seq<(Seq<char>, Option<Seq<char>>)> {
    fs.map_values(|f: FormField| field_view(f))
}

/// A text field.
pub open spec fn tf(name: Seq<char>, value: Seq<char>) -> (Seq<char>, Option<Seq<char>>) {
    (name, Some(value))
}

/// The text of a boolean.
pub open spec fn bool_text(b: bool) -> Seq<char> {
    if b {
        "true"@
    } else {
        "false"@
    }
}

/// The target of a request: a ZIP archive when an output is an archive,
/// else the response body.
pub open spec fn target_name(formats: Seq<OutputFormat>) -> Seq<char> {
    if any_archive(formats) {
        "zip"@
    } else {
        "inbody"@
    }
}

/// One field `name` per requested format, with the format's API value.
pub open spec fn format_fields(name: Seq<char>, formats: Seq<OutputFormat>) -> Seq<
    (Seq<char>, Option<Seq<char>>),
> {
    formats.map_values(|f: OutputFormat| tf(name, format_api_value(f)))
}

/// The two fields `name` of a page range.
pub open spec fn page_fields(name: Seq<char>, range: Option<(u32, u32)>) -> Seq<
    (Seq<char>, Option<Seq<char>>),
> {
    match range {
        Some((a, b)) => seq![tf(name, dec(a as nat)), tf(name, dec(b as nat))],
        None => Seq::empty(),
    }
}

/// The field `name` of an optional value.
pub open spec fn opt_field(name: Seq<char>, v: Option<Seq<char>>) -> Seq<
    (Seq<char>, Option<Seq<char>>),
> {
    match v {
        Some(t) => seq![tf(name, t)],
        None => Seq::empty(),
    }
}

/// The pipeline's name.
pub open spec fn pipeline_text(p: Option<crate::document::PipelineKind>) -> Option<Seq<char>> {
    match p {
        Some(k) => Some(pipeline_name(k)),
        None => None,
    }
}

/// The fields of the VLM bundle; the custom picture description is left out
/// when a preset is chosen.
pub open spec fn vlm_fields(preset_chosen: bool) -> Seq<(Seq<char>, Option<Seq<char>>)> {
    seq![(
        "vlm_pipeline_custom_config"@,
        None::<Seq<char>>,
    )] + (if preset_chosen {
        Seq::empty()
    } else {
        seq![("picture_description_custom_config"@, None::<Seq<char>>)]
    }) + seq![
        ("code_formula_custom_config"@, None::<Seq<char>>),
        tf("do_code_enrichment"@, "true"@),
        tf("do_formula_enrichment"@, "true"@),
        tf("do_picture_description"@, "true"@),
        tf("ocr_engine"@, "rapidocr"@),
        tf("image_export_mode"@, "placeholder"@),
    ]
}

/// The fields of a conversion form, without those of a VLM bundle.
pub open spec fn convert_fields(k: InputKind, r: DoclingConvertRequest) -> Seq<
    (Seq<char>, Option<Seq<char>>),
> {
    seq![tf("target_type"@, target_name(r.output_formats@)), tf("from_formats"@, kind_formats_value(k))]
        + format_fields("to_formats"@, r.output_formats@) + page_fields(
        "page_range"@,
        r.page_range,
    ) + opt_field("pipeline"@, pipeline_text(r.pipeline)) + opt_field(
        "picture_description_preset"@,
        opt_text(r.picture_description_preset),
    )
}

/// The fields of a chunking form.
pub open spec fn chunk_fields(k: InputKind, r: DoclingConvertRequest) -> Seq<
    (Seq<char>, Option<Seq<char>>),
> {
    seq![
        tf("include_converted_doc"@, "false"@),
        tf("target_type"@, target_name(r.output_formats@)),
        tf("convert_from_formats"@, kind_formats_value(k)),
    ] + format_fields("convert_to_formats"@, r.output_formats@) + page_fields(
        "convert_page_range"@,
        r.page_range,
    ) + opt_field("convert_pipeline"@, pipeline_text(r.pipeline)) + opt_field(
        "convert_picture_description_preset"@,
        opt_text(r.picture_description_preset),
    ) + chunk_option_fields(r)
}

/// The fields that carry the chunking options.
pub open spec fn chunk_option_fields(r: DoclingConvertRequest) -> Seq<
    (Seq<char>, Option<Seq<char>>),
> {
    seq![
        tf("chunking_use_markdown_tables"@, bool_text(r.chunking.use_markdown_tables)),
        tf("chunking_use_markdown_images"@, bool_text(r.chunking.use_markdown_images)),
        tf("chunking_image_placeholder"@, r.chunking.image_placeholder@),
        tf("chunking_include_raw_text"@, bool_text(r.chunking.include_raw_text)),
    ] + opt_field(
        "chunking_max_tokens"@,
        match r.chunking.max_tokens {
            Some(n) => Some(dec(n as nat)),
            None => None,
        },
    ) + opt_field("chunking_tokenizer"@, opt_text(r.chunking.tokenizer)) + (if r.chunker is Hybrid {
        seq![tf("chunking_merge_peers"@, bool_text(r.chunking.merge_peers))]
    } else {
        Seq::empty()
    })
}

/// The document part of a form carries the input's name, media type and
/// bytes.
pub open spec fn file_of(p: FilePart, d: InputDocument) -> bool {
    p.filename@ == d.filename@ && p.media_type@ == d.media_type@ && p.bytes@ == d.bytes@
}

fn push_text(fields: &mut Vec<FormField>, name: &str, value: &str)
    ensures
        fields_view(final(fields)@) == fields_view(old(fields)@).push(tf(name@, value@)),
        final(fields)@.drop_last() == old(fields)@,
        final(fields)@.len() == old(fields)@.len() + 1,
{
    fields.push(FormField { name: owned(name), value: FieldValue::Text(owned(value)) });
    assert(fields_view(final(fields)@) =~= fields_view(old(fields)@).push(tf(name@, value@)));
}

fn push_json(fields: &mut Vec<FormField>, name: &str, value: JsonValue)
    ensures
        fields_view(final(fields)@) == fields_view(old(fields)@).push((name@, None::<Seq<char>>)),
        final(fields)@.last().value == FieldValue::Json(value),
        final(fields)@.drop_last() == old(fields)@,
        final(fields)@.len() == old(fields)@.len() + 1,
{
    fields.push(FormField { name: owned(name), value: FieldValue::Json(value) });
    assert(fields_view(final(fields)@) =~= fields_view(old(fields)@).push(
        (name@, None::<Seq<char>>),
    ));
}

fn push_formats(fields: &mut Vec<FormField>, name: &str, formats: &Vec<OutputFormat>)
    ensures
        fields_view(final(fields)@) == fields_view(old(fields)@) + format_fields(name@, formats@),
{
    let ghost start = fields_view(fields@);
    let mut i: usize = 0;
    while i < formats.len()
        invariant
            i <= formats.len(),
            fields_view(fields@) == start + format_fields(name@, formats@.take(i as int)),
        decreases formats.len() - i,
    {
        push_text(fields, name, formats[i].as_api_value());
        i = i + 1;
        assert(format_fields(name@, formats@.take(i as int)) =~= format_fields(
            name@,
            formats@.take(i - 1),
        ).push(tf(name@, format_api_value(formats@[i - 1]))));
        assert(fields_view(fields@) =~= start + format_fields(name@, formats@.take(i as int)));
    }
    assert(formats@.take(formats.len() as int) =~= formats@);
}

fn push_pages(fields: &mut Vec<FormField>, name: &str, range: Option<(u32, u32)>)
    ensures
        fields_view(final(fields)@) == fields_view(old(fields)@) + page_fields(name@, range),
{
    match range {
        Some((start, end)) => {
            let a = dec_string(start as u64);
            let b = dec_string(end as u64);
            push_text(fields, name, a.as_str());
            push_text(fields, name, b.as_str());
            assert(fields_view(final(fields)@) =~= fields_view(old(fields)@) + page_fields(
                name@,
                range,
            ));
        },
        None => {
            assert(fields_view(final(fields)@) =~= fields_view(old(fields)@) + page_fields(
                name@,
                range,
            ));
        },
    }
}

fn push_opt_text(fields: &mut Vec<FormField>, name: &str, value: Option<&str>)
    ensures
        fields_view(final(fields)@) == fields_view(old(fields)@) + opt_field(
            name@,
            crate::input_kind::opt_str(value),
        ),
{
    match value {
        Some(v) => {
            push_text(fields, name, v);
            assert(fields_view(final(fields)@) =~= fields_view(old(fields)@) + opt_field(
                name@,
                crate::input_kind::opt_str(value),
            ));
        },
        None => {
            assert(fields_view(final(fields)@) =~= fields_view(old(fields)@) + opt_field(
                name@,
                crate::input_kind::opt_str(value),
            ));
        },
    }
}

fn bool_str(b: bool) -> (r: &'static str)
    ensures
        r@ == bool_text(b),
{
    if b {
        "true"
    } else {
        "false"
    }
}

fn pipeline_str(p: Option<crate::document::PipelineKind>) -> (r: Option<&'static str>)
    ensures
        crate::input_kind::opt_str(r) == pipeline_text(p),
{
    match p {
        Some(k) => Some(k.name()),
        None => None,
    }
}

fn opt_as_str(o: &Option<String>) -> (r: Option<&str>)
    ensures
        crate::input_kind::opt_str(r) == opt_text(*o),
{
    match o {
        Some(s) => Some(s.as_str()),
        None => None,
    }
}

/// `"zip"` when an output is an archive, else `"inbody"`.
pub fn target_type(request: &DoclingConvertRequest) -> (r: &'static str)
    ensures
        r@ == target_name(request.output_formats@),
{
    if has_archive_format(&request.output_formats) {
        "zip"
    } else {
        "inbody"
    }
}

/// Member `i` of `ms` is `key` with the string `text`.
pub open spec fn str_at(ms: Seq<JsonMember>, i: int, key: Seq<char>, text: Seq<char>) -> bool {
    ms[i].key@ == key && (ms[i].value matches JsonValue::Str(t) && t@ == text)
}

/// Member `i` of `ms` is `key` with the number written `text`.
pub open spec fn num_at(ms: Seq<JsonMember>, i: int, key: Seq<char>, text: Seq<char>) -> bool {
    ms[i].key@ == key && (ms[i].value matches JsonValue::Number(t) && t@ == text)
}

/// Member `i` of `ms` is `key` with the boolean `b`.
pub open spec fn bool_at(ms: Seq<JsonMember>, i: int, key: Seq<char>, b: bool) -> bool {
    ms[i].key@ == key && ms[i].value == JsonValue::Bool(b)
}

/// The settings of an OpenAI-compatible engine: its base URL, key, model,
/// timeout and concurrency, in that order.
pub open spec fn engine_json(
    v: JsonValue,
    base: Seq<char>,
    key: Seq<char>,
    model: Seq<char>,
    timeout: Seq<char>,
    concurrency: Seq<char>,
) -> bool {
    v matches JsonValue::Object(ms) && ms@.len() == 5 && str_at(ms@, 0, "base_url"@, base)
        && str_at(ms@, 1, "api_key"@, key) && str_at(ms@, 2, "model"@, model) && num_at(
        ms@,
        3,
        "timeout"@,
        timeout,
    ) && num_at(ms@, 4, "concurrency"@, concurrency)
}

/// The model specification: the model, its prompt and its token budget.
pub open spec fn model_spec_json(v: JsonValue, model: Seq<char>, prompt: Seq<char>, max: Seq<char>) -> bool {
    v matches JsonValue::Object(ms) && ms@.len() == 3 && str_at(ms@, 0, "model"@, model) && str_at(
        ms@,
        1,
        "prompt"@,
        prompt,
    ) && num_at(ms@, 2, "max_new_tokens"@, max)
}

/// The prompt of the code and formula model.
pub open spec fn code_formula_prompt() -> Seq<char> {
    "Recognize code blocks and mathematical formulas in the image. For code, output the full code; for mathematical formulas, output in LaTeX format."@
}

/// The custom configurations of a VLM bundle whose values are `vals`
/// (base URL, pipeline model, picture model, code model, key): the pipeline,
/// then, without a preset, the picture description, then code and formulas.
pub open spec fn vlm_json_fields(fs: Seq<FormField>, vals: Seq<Seq<char>>, preset_chosen: bool) -> bool {
    let base = vals[0];
    let key = vals[4];
    let code_at: int = if preset_chosen {
        1
    } else {
        2
    };
    &&& fs.len() >= 3
    &&& fs[0].value matches FieldValue::Json(p) && (p matches JsonValue::Object(ms) && ms@.len()
        == 4 && ms@[0].key@ == "engine_options"@ && engine_json(
        ms@[0].value,
        base,
        key,
        vals[1],
        "30"@,
        "2"@,
    ) && ms@[1].key@ == "model_spec"@ && model_spec_json(ms@[1].value, vals[1], ""@, "1000"@)
        && num_at(ms@, 2, "scale"@, "1.0"@) && bool_at(ms@, 3, "force_backend_text"@, true))
    &&& !preset_chosen ==> (fs[1].value matches FieldValue::Json(p) && (p matches JsonValue::Object(
        ms,
    ) && ms@.len() == 3 && ms@[0].key@ == "engine_options"@ && engine_json(
        ms@[0].value,
        base,
        key,
        vals[2],
        "60"@,
        "1"@,
    ) && str_at(ms@, 1, "prompt"@, "Describe this image in a few sentences."@) && num_at(
        ms@,
        2,
        "max_tokens"@,
        "300"@,
    )))
    &&& fs[code_at].value matches FieldValue::Json(c) && (c matches JsonValue::Object(ms)
        && ms@.len() == 5 && num_at(ms@, 0, "scale"@, "2.0"@) && bool_at(
        ms@,
        1,
        "extract_code"@,
        true,
    ) && bool_at(ms@, 2, "extract_formulas"@, true) && ms@[3].key@ == "engine_options"@
        && engine_json(ms@[3].value, base, key, vals[3], "30"@, "2"@) && ms@[4].key@
        == "model_spec"@ && model_spec_json(ms@[4].value, vals[3], code_formula_prompt(), "1000"@))
}

/// The five values of a complete VLM bundle of `config`, trimmed.
pub open spec fn vlm_texts(config: DoclingConfig) -> Seq<Seq<char>> {
    crate::config::vlm_values(config).map_values(|o: Option<Seq<char>>| o.unwrap())
}

/// A JSON member with a string value.
fn str_member(key: &str, value: &str) -> (m: JsonMember)
    ensures
        m.key@ == key@,
        m.value matches JsonValue::Str(t) && t@ == value@,
{
    JsonMember { key: owned(key), value: JsonValue::string(value) }
}

/// A JSON member with a numeric value written as `text`.
fn num_member(key: &str, text: &str) -> (m: JsonMember)
    ensures
        m.key@ == key@,
        m.value matches JsonValue::Number(t) && t@ == text@,
{
    JsonMember { key: owned(key), value: JsonValue::Number(owned(text)) }
}

/// A JSON member with a boolean value.
fn bool_member(key: &str, value: bool) -> (m: JsonMember)
    ensures
        m.key@ == key@,
        m.value == JsonValue::Bool(value),
{
    JsonMember { key: owned(key), value: JsonValue::Bool(value) }
}

/// The settings of an OpenAI-compatible engine for `model`.
fn engine_options(vlm: &ResolvedVlmConfig, model: &str, timeout: &str, concurrency: &str) -> (r:
    JsonValue)
    ensures
        engine_json(r, vlm.openai_base_url@, vlm.api_key@, model@, timeout@, concurrency@),
{
    let mut members: Vec<JsonMember> = Vec::new();
    members.push(str_member("base_url", vlm.openai_base_url.as_str()));
    members.push(str_member("api_key", vlm.api_key.as_str()));
    members.push(str_member("model", model));
    members.push(num_member("timeout", timeout));
    members.push(num_member("concurrency", concurrency));
    JsonValue::Object(members)
}

/// The model specification: the model, its prompt and its token budget.
fn model_spec(model: &str, prompt: &str, max_new_tokens: &str) -> (r: JsonValue)
    ensures
        model_spec_json(r, model@, prompt@, max_new_tokens@),
{
    let mut members: Vec<JsonMember> = Vec::new();
    members.push(str_member("model", model));
    members.push(str_member("prompt", prompt));
    members.push(num_member("max_new_tokens", max_new_tokens));
    JsonValue::Object(members)
}

/// Adds the fields of a VLM bundle to a conversion form.
fn push_vlm_fields(fields: &mut Vec<FormField>, vlm: &ResolvedVlmConfig, preset_chosen: bool)
    ensures
        fields_view(final(fields)@) == fields_view(old(fields)@) + vlm_fields(preset_chosen),
        vlm_json_fields(
            final(fields)@.skip(old(fields)@.len() as int),
            seq![
                vlm.openai_base_url@,
                vlm.vlm_pipeline_model@,
                vlm.picture_description_model@,
                vlm.code_formula_model@,
                vlm.api_key@,
            ],
            preset_chosen,
        ),
{
    let ghost start = fields@.len();
    let mut pipeline: Vec<JsonMember> = Vec::new();
    pipeline.push(
        JsonMember {
            key: owned("engine_options"),
            value: engine_options(vlm, vlm.vlm_pipeline_model.as_str(), "30", "2"),
        },
    );
    pipeline.push(
        JsonMember {
            key: owned("model_spec"),
            value: model_spec(vlm.vlm_pipeline_model.as_str(), "", "1000"),
        },
    );
    pipeline.push(num_member("scale", "1.0"));
    pipeline.push(bool_member("force_backend_text", true));
    let pipeline_json = JsonValue::Object(pipeline);
    let ghost pj = pipeline_json;
    push_json(fields, "vlm_pipeline_custom_config", pipeline_json);
    let ghost after_pipeline = fields@;
    if !preset_chosen {
        let mut picture: Vec<JsonMember> = Vec::new();
        picture.push(
            JsonMember {
                key: owned("engine_options"),
                value: engine_options(vlm, vlm.picture_description_model.as_str(), "60", "1"),
            },
        );
        picture.push(str_member("prompt", "Describe this image in a few sentences."));
        picture.push(num_member("max_tokens", "300"));
        let picture_json = JsonValue::Object(picture);
        assert(picture_json matches JsonValue::Object(ms) && ms@.len() == 3 && str_at(
            ms@,
            1,
            "prompt"@,
            "Describe this image in a few sentences."@,
        ));
        push_json(fields, "picture_description_custom_config", picture_json);
    }
    let ghost after_picture = fields@;
    let mut code: Vec<JsonMember> = Vec::new();
    code.push(num_member("scale", "2.0"));
    code.push(bool_member("extract_code", true));
    code.push(bool_member("extract_formulas", true));
    code.push(
        JsonMember {
            key: owned("engine_options"),
            value: engine_options(vlm, vlm.code_formula_model.as_str(), "30", "2"),
        },
    );
    code.push(
        JsonMember {
            key: owned("model_spec"),
            value: model_spec(
                vlm.code_formula_model.as_str(),
                "Recognize code blocks and mathematical formulas in the image. For code, output the full code; for mathematical formulas, output in LaTeX format.",
                "1000",
            ),
        },
    );
    let code_json = JsonValue::Object(code);
    let ghost cj = code_json;
    push_json(fields, "code_formula_custom_config", code_json);
    let ghost after_code = fields@;
    push_text(fields, "do_code_enrichment", "true");
    push_text(fields, "do_formula_enrichment", "true");
    push_text(fields, "do_picture_description", "true");
    push_text(fields, "ocr_engine", "rapidocr");
    push_text(fields, "image_export_mode", "placeholder");
    assert(fields_view(final(fields)@) =~= fields_view(old(fields)@) + vlm_fields(preset_chosen));
    proof {
        let tail = final(fields)@.skip(start as int);
        let code_at: int = if preset_chosen {
            1
        } else {
            2
        };
        assert(after_code.len() == start + code_at + 1);
        assert(tail[0] == after_pipeline[start as int]);
        assert(tail[code_at] == after_code[start as int + code_at]);
        if !preset_chosen {
            assert(tail[1] == after_picture[start as int + 1]);
        }
    }
}

/// The document part of a form.
fn file_part(input: &InputDocument) -> (p: FilePart)
    ensures
        file_of(p, *input),
{
    FilePart {
        filename: input.filename.clone(),
        media_type: input.media_type.clone(),
        bytes: input.bytes.clone(),
    }
}

/// Whether the multipart part refuses a media type: `reqwest` parses it as
/// a MIME type and refuses what does not parse.
pub uninterp spec fn mime_refused(media_type: Seq<char>) -> bool;

/// `reqwest::multipart::Part::mime_str`: `None` where the part takes the
/// media type; else the text of the builder error that it returns, which
/// `reqwest` writes as `builder error` for an error without a URL. Which
/// texts parse as MIME types is named, not stated.
#[verifier::external_body]
fn media_type_refusal(media_type: &str) -> (r: Option<String>)
    ensures
        match r {
            Some(t) => mime_refused(media_type@) && t@ == "builder error"@,
            None => !mime_refused(media_type@),
        },
{
    match reqwest::multipart::Part::bytes(Vec::new()).mime_str(media_type) {
        Ok(_) => None,
        Err(error) => Some(error.to_string()),
    }
}

/// The error of a document whose media type the multipart part refuses.
pub open spec fn part_error_text() -> Seq<char> {
    "failed to create multipart file: builder error"@
}

/// The error of a form whose document part cannot be made.
fn part_error(media_type: &str) -> (r: Option<PdfConvertError>)
    ensures
        mime_refused(media_type@) ==> (r matches Some(e) && is_api(e, None, part_error_text())),
        !mime_refused(media_type@) ==> r is None,
{
    match media_type_refusal(media_type) {
        Some(t) => {
            let message = crate::strings::concat("failed to create multipart file: ", t.as_str());
            proof {
                reveal_strlit("failed to create multipart file: ");
                reveal_strlit("builder error");
                reveal_strlit("failed to create multipart file: builder error");
                assert(message@ =~= part_error_text());
            }
            Some(PdfConvertError::api_error(None, message.as_str()))
        },
        None => None,
    }
}

/// The outcome of building a conversion form.
pub open spec fn convert_form_outcome(
    config: DoclingConfig,
    input: InputDocument,
    request: DoclingConvertRequest,
    r: Result<FormPlan>,
) -> bool {
    let all_set = forall|i: int|
        0 <= i < 5 ==> (#[trigger] crate::config::vlm_values(config)[i]) is Some;
    let none_set = forall|i: int|
        0 <= i < 5 ==> (#[trigger] crate::config::vlm_values(config)[i]) is None;
    match crate::document::input_kind_of(input) {
        None => r matches Err(e) && is_validation(
            e,
            "input"@,
            crate::document::kind_failure_reason(input.filename@, input.media_type@),
        ),
        Some(k) => if mime_refused(input.media_type@) {
            r matches Err(e) && is_api(e, None, part_error_text())
        } else {
            &&& (kind_supports_vlm(k) && all_set) ==> (r matches Ok(plan) && file_of(plan.file, input)
                && fields_view(plan.fields@) == convert_fields(k, request) + vlm_fields(
                request.picture_description_preset is Some,
            ) && vlm_json_fields(
                plan.fields@.skip(convert_fields(k, request).len() as int),
                vlm_texts(config),
                request.picture_description_preset is Some,
            ))
            &&& (!kind_supports_vlm(k) || none_set) ==> (r matches Ok(plan) && file_of(
                plan.file,
                input,
            ) && fields_view(plan.fields@) == convert_fields(k, request))
            &&& (kind_supports_vlm(k) && !all_set && !none_set) ==> (r matches Err(e)
                && is_validation(e, "docling runtime"@, crate::config::incomplete_vlm_reason()))
        },
    }
}

/// The form of a conversion: the input's kind must be known and its media
/// type one that the multipart part takes; when it
/// supports VLM enrichment and the configuration carries a complete VLM
/// bundle, the bundle's fields follow.
pub fn build_convert_file_form(
    config: &DoclingConfig,
    input: &InputDocument,
    request: &DoclingConvertRequest,
) -> (r: Result<FormPlan>)
    ensures
        convert_form_outcome(*config, *input, *request, r),
{
    let input_kind = match input.kind() {
        Ok(k) => k,
        Err(e) => return Err(e),
    };
    if let Some(e) = part_error(input.media_type.as_str()) {
        return Err(e);
    }
    let mut fields: Vec<FormField> = Vec::new();
    push_text(&mut fields, "target_type", target_type(request));
    push_text(&mut fields, "from_formats", input_kind.from_formats_value());
    push_formats(&mut fields, "to_formats", &request.output_formats);
    push_pages(&mut fields, "page_range", request.page_range);
    push_opt_text(&mut fields, "pipeline", pipeline_str(request.pipeline));
    push_opt_text(
        &mut fields,
        "picture_description_preset",
        opt_as_str(&request.picture_description_preset),
    );
    assert(fields_view(fields@) =~= convert_fields(input_kind, *request));
    if input_kind.supports_vlm() {
        let resolved = match config.resolved_vlm_config() {
            Ok(v) => v,
            Err(e) => return Err(e),
        };
        if let Some(vlm) = resolved {
            push_vlm_fields(&mut fields, &vlm, request.picture_description_preset.is_some());
        }
    }
    Ok(FormPlan { file: file_part(input), fields })
}

/// The outcome of building a chunking form.
pub open spec fn chunk_form_outcome(
    input: InputDocument,
    request: DoclingConvertRequest,
    r: Result<FormPlan>,
) -> bool {
        match crate::document::input_kind_of(input) {
            None => r matches Err(e) && is_validation(
                e,
                "input"@,
                crate::document::kind_failure_reason(input.filename@, input.media_type@),
            ),
            Some(k) => if mime_refused(input.media_type@) {
                r matches Err(e) && is_api(e, None, part_error_text())
            } else {
                r matches Ok(plan) && file_of(plan.file, input) && fields_view(plan.fields@)
                    == chunk_fields(k, request)
            },
        }
}

/// The form of a chunking: the input's kind must be known and its media
/// type one that the multipart part takes.
pub fn build_file_form(input: &InputDocument, request: &DoclingConvertRequest) -> (r: Result<
    FormPlan,
>)
    ensures
        chunk_form_outcome(*input, *request, r),
{
    let input_kind = match input.kind() {
        Ok(k) => k,
        Err(e) => return Err(e),
    };
    if let Some(e) = part_error(input.media_type.as_str()) {
        return Err(e);
    }
    let mut fields: Vec<FormField> = Vec::new();
    push_text(&mut fields, "include_converted_doc", "false");
    push_text(&mut fields, "target_type", target_type(request));
    push_text(&mut fields, "convert_from_formats", input_kind.from_formats_value());
    push_formats(&mut fields, "convert_to_formats", &request.output_formats);
    push_pages(&mut fields, "convert_page_range", request.page_range);
    push_opt_text(&mut fields, "convert_pipeline", pipeline_str(request.pipeline));
    push_opt_text(
        &mut fields,
        "convert_picture_description_preset",
        opt_as_str(&request.picture_description_preset),
    );
    let ghost head = fields_view(fields@);
    push_chunk_options(&mut fields, request);
    assert(fields_view(fields@) =~= chunk_fields(input_kind, *request));
    Ok(FormPlan { file: file_part(input), fields })
}

/// Adds the fields that carry the chunking options.
fn push_chunk_options(fields: &mut Vec<FormField>, request: &DoclingConvertRequest)
    ensures
        fields_view(final(fields)@) == fields_view(old(fields)@) + chunk_option_fields(*request),
{
    let options = &request.chunking;
    push_text(fields, "chunking_use_markdown_tables", bool_str(options.use_markdown_tables));
    push_text(fields, "chunking_use_markdown_images", bool_str(options.use_markdown_images));
    push_text(fields, "chunking_image_placeholder", options.image_placeholder.as_str());
    push_text(fields, "chunking_include_raw_text", bool_str(options.include_raw_text));
    let max_tokens = match options.max_tokens {
        Some(n) => Some(dec_string(n as u64)),
        None => None,
    };
    push_opt_text(fields, "chunking_max_tokens", opt_as_str(&max_tokens));
    push_opt_text(fields, "chunking_tokenizer", opt_as_str(&options.tokenizer));
    if matches!(request.chunker, ChunkerKind::Hybrid) {
        push_text(fields, "chunking_merge_peers", bool_str(options.merge_peers));
    }
    assert(fields_view(final(fields)@) =~= fields_view(old(fields)@) + chunk_option_fields(*request));
}

} // verus!
