//! The client side of Docling Serve: its settings, its endpoints and the
//! JSON bodies of conversions of remote sources.
use vstd::prelude::*;

use crate::api::{build_convert_file_form, build_file_form, FormPlan};
use crate::config::{
    default_request_timeout, default_secs, opt_text, or_else, secs_duration, DoclingConfig,
    DoclingConvertRequest, EnvSettings,
};
use crate::document::{
    any_archive, default_image_placeholder, default_tokenizer, format_api_value,
    has_archive_format, ChunkerKind, ChunkingOptions, InputDocument,
};
use crate::error::{is_validation, PdfConvertError, Result};
use crate::input_kind::{kind_formats_value, InputKind};
use crate::json::JsonMember;
use crate::strings::{owned, string_from, to_chars};

verus! {

/// A client of Docling Serve: its settings and the largest result body it
/// accepts.
#[derive(Debug)]
pub struct DoclingClient {
    config: DoclingConfig,
    result_body_limit: Option<usize>,
}

impl Clone for DoclingClient {
    fn clone(&self) -> (r: Self)
        ensures
            r == *self,
    {
        DoclingClient { config: self.config.clone(), result_body_limit: self.result_body_limit }
    }
}

impl DoclingClient {
    /// The settings of the client.
    pub closed spec fn settings(&self) -> DoclingConfig {
        self.config
    }

    /// The limit on result bodies.
    pub closed spec fn body_limit(&self) -> Option<usize> {
        self.result_body_limit
    }

    /// A client with the given settings and no limit on result bodies.
    pub fn new(config: DoclingConfig) -> (r: Result<DoclingClient>)
        ensures
            r matches Ok(c) && c.settings() == config && c.body_limit() is None,
    {
        Ok(DoclingClient { config, result_body_limit: None })
    }

    /// A client that refuses result bodies above `result_body_limit` bytes; a
    /// limit of 0 is a validation error of `result_body_limit`.
    pub fn new_with_result_body_limit(config: DoclingConfig, result_body_limit: usize) -> (r:
        Result<DoclingClient>)
        ensures
            result_body_limit == 0 ==> (r matches Err(e) && is_validation(
                e,
                "result_body_limit"@,
                "value must be greater than 0"@,
            )),
            result_body_limit > 0 ==> (r matches Ok(c) && c.settings() == config && c.body_limit()
                == Some(result_body_limit)),
    {
        if result_body_limit == 0 {
            return Err(
                PdfConvertError::validation_error(
                    "result_body_limit",
                    "value must be greater than 0",
                ),
            );
        }
        Ok(DoclingClient { config, result_body_limit: Some(result_body_limit) })
    }

    /// The settings of the client.
    pub fn config(&self) -> (r: &DoclingConfig)
        ensures
            *r == self.settings(),
    {
        &self.config
    }

    /// The limit on result bodies.
    pub fn result_body_limit(&self) -> (r: Option<usize>)
        ensures
            r == self.body_limit(),
    {
        self.result_body_limit
    }

    /// The timeout of requests and of waiting for a task: the one the
    /// settings give, else the default from the environment.
    pub fn request_timeout(&self, env: &EnvSettings) -> (r: std::time::Duration)
        ensures
            r == match self.settings().request_timeout {
                Some(d) => d,
                None => secs_duration(
                    default_secs(
                        or_else(opt_text(env.http_timeout_secs), opt_text(env.max_sync_wait_secs)),
                    ),
                ),
            },
    {
        match self.config.request_timeout {
            Some(d) => d,
            None => default_request_timeout(env),
        }
    }

    /// The URL of `path` under the base URL: one slash between them.
    pub fn url(&self, path: &str) -> (r: String)
        ensures
            r@ == join_url(self.settings().base_url@, path@),
    {
        let base = to_chars(self.config.base_url.as_str());
        let p = to_chars(path);
        let b = strip_trailing_slashes(&base);
        let q = strip_leading_slashes(&p);
        let mut out = string_from(&b);
        out.push_str("/");
        let qs = string_from(&q);
        out.push_str(qs.as_str());
        out
    }

    /// The headers of every request: the API key and the tenant, when set.
    pub fn request_headers(&self) -> (r: Vec<(String, String)>)
        ensures
            headers_view(r@) == opt_header("X-Api-Key"@, opt_text(self.settings().api_key))
                + opt_header("X-Tenant-Id"@, opt_text(self.settings().tenant_id)),
    {
        let mut headers: Vec<(String, String)> = Vec::new();
        if let Some(key) = &self.config.api_key {
            headers.push((owned("X-Api-Key"), key.clone()));
        }
        let ghost mid = headers@;
        if let Some(tenant) = &self.config.tenant_id {
            headers.push((owned("X-Tenant-Id"), tenant.clone()));
        }
        assert(headers_view(headers@) =~= opt_header("X-Api-Key"@, opt_text(self.settings().api_key))
            + opt_header("X-Tenant-Id"@, opt_text(self.settings().tenant_id)));
        headers
    }

    /// The multipart form of a file conversion: a conversion form without a
    /// chunker, a chunking form with one.
    pub fn build_form(&self, input: &InputDocument, request: &DoclingConvertRequest) -> (r: Result<
        FormPlan,
    >)
        ensures
            request.chunker is Disabled ==> crate::api::convert_form_outcome(
                self.settings(),
                *input,
                *request,
                r,
            ),
            !(request.chunker is Disabled) ==> crate::api::chunk_form_outcome(*input, *request, r),
    {
        match request.chunker {
            ChunkerKind::Disabled => build_convert_file_form(&self.config, input, request),
            _ => build_file_form(input, request),
        }
    }
}

/// Headers by name and value.
pub open spec fn headers_view(h: Seq<(String, String)>) -> Seq<(Seq<char>, Seq<char>)> {
    h.map_values(|p: (String, String)| (p.0@, p.1@))
}

/// The header `name` of an optional value.
pub open spec fn opt_header(name: Seq<char>, v: Option<Seq<char>>) -> Seq<(Seq<char>, Seq<char>)> {
    match v {
        Some(t) => seq![(name, t)],
        None => Seq::empty(),
    }
}

/// `s` without its trailing slashes.
pub open spec fn trim_end_slashes(s: Seq<char>) -> Seq<char>
    decreases s.len(),
{
    if s.len() > 0 && s.last() == '/' {
        trim_end_slashes(s.drop_last())
    } else {
        s
    }
}

/// `s` without its leading slashes.
pub open spec fn trim_start_slashes(s: Seq<char>) -> Seq<char>
    decreases s.len(),
{
    if s.len() > 0 && s[0] == '/' {
        trim_start_slashes(s.drop_first())
    } else {
        s
    }
}

/// A base URL and a path joined by exactly one slash.
pub open spec fn join_url(base: Seq<char>, path: Seq<char>) -> Seq<char> {
    trim_end_slashes(base) + "/"@ + trim_start_slashes(path)
}

/// Slashes between the base URL and the path do not change the URL: a
/// trailing slash of the base or a leading slash of the path is dropped.
pub proof fn lemma_join_url_slashes(base: Seq<char>, path: Seq<char>)
    ensures
        join_url(base.push('/'), path) == join_url(base, path),
        join_url(base, seq!['/'] + path) == join_url(base, path),
{
    assert(base.push('/').drop_last() =~= base);
    assert((seq!['/'] + path).drop_first() =~= path);
}

fn strip_trailing_slashes(v: &Vec<char>) -> (r: Vec<char>)
    ensures
        r@ == trim_end_slashes(v@),
{
    let mut j: usize = v.len();
    assert(v@.subrange(0, j as int) =~= v@);
    while j > 0 && v[j - 1] == '/'
        invariant
            j <= v.len(),
            trim_end_slashes(v@) == trim_end_slashes(v@.subrange(0, j as int)),
        decreases j,
    {
        assert(v@.subrange(0, j as int).drop_last() =~= v@.subrange(0, j - 1));
        j = j - 1;
    }
    crate::strings::slice_chars(v, 0, j)
}

fn strip_leading_slashes(v: &Vec<char>) -> (r: Vec<char>)
    ensures
        r@ == trim_start_slashes(v@),
{
    let mut i: usize = 0;
    assert(v@.subrange(0, v.len() as int) =~= v@);
    while i < v.len() && v[i] == '/'
        invariant
            i <= v.len(),
            trim_start_slashes(v@) == trim_start_slashes(v@.subrange(i as int, v.len() as int)),
        decreases v.len() - i,
    {
        assert(v@.subrange(i as int, v.len() as int).drop_first() =~= v@.subrange(
            i + 1,
            v.len() as int,
        ));
        i = i + 1;
    }
    crate::strings::slice_chars(v, i, v.len())
}

/// How a document reaches Docling Serve.
#[derive(Debug, Clone, Copy, PartialEq, Eq, Structural)]
pub enum Delivery {
    /// The file is uploaded and converted while the request waits.
    File,
    /// The file is uploaded and converted by a task.
    FileAsync,
    /// Docling Serve fetches the source and converts it while the request
    /// waits.
    Source,
    /// Docling Serve fetches the source and converts it by a task.
    SourceAsync,
}

/// The endpoint of a conversion.
pub open spec fn route(chunker: ChunkerKind, delivery: Delivery) -> Seq<char> {
    match chunker {
        ChunkerKind::Disabled => match delivery {
            Delivery::File => "convert/file"@,
            Delivery::FileAsync => "convert/file/async"@,
            Delivery::Source => "convert/source"@,
            Delivery::SourceAsync => "convert/source/async"@,
        },
        ChunkerKind::Hybrid => match delivery {
            Delivery::File => "chunk/hybrid/file"@,
            Delivery::FileAsync => "chunk/hybrid/file/async"@,
            Delivery::Source => "chunk/hybrid/source"@,
            Delivery::SourceAsync => "chunk/hybrid/source/async"@,
        },
        ChunkerKind::Hierarchical => match delivery {
            Delivery::File => "chunk/hierarchical/file"@,
            Delivery::FileAsync => "chunk/hierarchical/file/async"@,
            Delivery::Source => "chunk/hierarchical/source"@,
            Delivery::SourceAsync => "chunk/hierarchical/source/async"@,
        },
    }
}

/// The last part of an endpoint: what is delivered, and `/async` for a task.
pub open spec fn delivery_path(delivery: Delivery) -> Seq<char> {
    match delivery {
        Delivery::File => "file"@,
        Delivery::FileAsync => "file/async"@,
        Delivery::Source => "source"@,
        Delivery::SourceAsync => "source/async"@,
    }
}

/// A conversion goes to `convert/`, a chunking to `chunk/` followed by the
/// name under which its chunker is parsed; then comes what is delivered.
/// The chunker's name parses back to that chunker.
pub proof fn lemma_route_names_the_chunker(chunker: ChunkerKind, delivery: Delivery)
    ensures
        chunker is Disabled ==> route(chunker, delivery) == "convert/"@ + delivery_path(delivery),
        !(chunker is Disabled) ==> route(chunker, delivery) == "chunk/"@ + crate::document::chunker_name(chunker)
            + "/"@ + delivery_path(delivery),
        !(chunker is Disabled) ==> crate::document::chunker_named(crate::document::chunker_name(chunker)) == Some(chunker),
{
    reveal_strlit("convert/");
    reveal_strlit("chunk/");
    reveal_strlit("/");
    reveal_strlit("file");
    reveal_strlit("file/async");
    reveal_strlit("source");
    reveal_strlit("source/async");
    reveal_strlit("hybrid");
    reveal_strlit("hierarchical");
    reveal_strlit("none");
    reveal_strlit("convert/file");
    reveal_strlit("convert/file/async");
    reveal_strlit("convert/source");
    reveal_strlit("convert/source/async");
    reveal_strlit("chunk/hybrid/file");
    reveal_strlit("chunk/hybrid/file/async");
    reveal_strlit("chunk/hybrid/source");
    reveal_strlit("chunk/hybrid/source/async");
    reveal_strlit("chunk/hierarchical/file");
    reveal_strlit("chunk/hierarchical/file/async");
    reveal_strlit("chunk/hierarchical/source");
    reveal_strlit("chunk/hierarchical/source/async");
    reveal_strlit("");
    assert("hybrid"@.len() == 6 && "hierarchical"@.len() == 12 && "none"@.len() == 4 && ""@.len()
        == 0);
    if chunker is Disabled {
        assert(route(chunker, delivery) =~= "convert/"@ + delivery_path(delivery));
    } else {
        assert(route(chunker, delivery) =~= "chunk/"@ + crate::document::chunker_name(chunker) + "/"@ + delivery_path(
            delivery,
        ));
    }
}

/// A task goes to the endpoint of the request that waits, followed by
/// `/async`.
pub proof fn lemma_async_route(chunker: ChunkerKind)
    ensures
        route(chunker, Delivery::FileAsync) == route(chunker, Delivery::File) + "/async"@,
        route(chunker, Delivery::SourceAsync) == route(chunker, Delivery::Source) + "/async"@,
{
    reveal_strlit("/async");
    lemma_route_names_the_chunker(chunker, Delivery::File);
    lemma_route_names_the_chunker(chunker, Delivery::FileAsync);
    lemma_route_names_the_chunker(chunker, Delivery::Source);
    lemma_route_names_the_chunker(chunker, Delivery::SourceAsync);
    reveal_strlit("file");
    reveal_strlit("file/async");
    reveal_strlit("source");
    reveal_strlit("source/async");
    assert("file/async"@ =~= "file"@ + "/async"@);
    assert("source/async"@ =~= "source"@ + "/async"@);
    assert(route(chunker, Delivery::FileAsync) =~= route(chunker, Delivery::File) + "/async"@);
    assert(route(chunker, Delivery::SourceAsync) =~= route(chunker, Delivery::Source) + "/async"@);
}

/// The endpoint of a conversion with the given chunker and delivery.
pub fn endpoint(chunker: ChunkerKind, delivery: Delivery) -> (r: &'static str)
    ensures
        r@ == route(chunker, delivery),
{
    match chunker {
        ChunkerKind::Disabled => match delivery {
            Delivery::File => "convert/file",
            Delivery::FileAsync => "convert/file/async",
            Delivery::Source => "convert/source",
            Delivery::SourceAsync => "convert/source/async",
        },
        ChunkerKind::Hybrid => match delivery {
            Delivery::File => "chunk/hybrid/file",
            Delivery::FileAsync => "chunk/hybrid/file/async",
            Delivery::Source => "chunk/hybrid/source",
            Delivery::SourceAsync => "chunk/hybrid/source/async",
        },
        ChunkerKind::Hierarchical => match delivery {
            Delivery::File => "chunk/hierarchical/file",
            Delivery::FileAsync => "chunk/hierarchical/file/async",
            Delivery::Source => "chunk/hierarchical/source",
            Delivery::SourceAsync => "chunk/hierarchical/source/async",
        },
    }
}

/// The path that long-polls the status of a task.
pub fn poll_path(task_id: &str) -> (r: String)
    ensures
        r@ == "status/poll/"@ + task_id@ + "?wait=30"@,
{
    let mut p = owned("status/poll/");
    p.push_str(task_id);
    p.push_str("?wait=30");
    p
}

/// The path of the result of a task.
pub fn result_path(task_id: &str) -> (r: String)
    ensures
        r@ == "result/"@ + task_id@,
{
    let mut p = owned("result/");
    p.push_str(task_id);
    p
}

/// A source that Docling Serve fetches over HTTP.
#[derive(Debug)]
pub enum HttpSource {
    Http { url: String, headers: Vec<JsonMember> },
}

impl HttpSource {
    /// The source at `url`, without headers.
    pub fn new(url: &str) -> (r: HttpSource)
        ensures
            r matches HttpSource::Http { url: u, headers } && u@ == url@ && headers@.len() == 0,
    {
        HttpSource::Http { url: owned(url), headers: Vec::new() }
    }
}

/// Where Docling Serve puts a result.
#[derive(Debug, Clone, Copy, PartialEq, Eq, Structural)]
pub enum TargetKind {
    Inbody,
    Zip,
}

/// The options of a conversion of sources.
#[derive(Debug)]
pub struct ConvertDocumentsOptions {
    pub from_formats: Vec<String>,
    pub to_formats: Vec<String>,
    pub pipeline: Option<String>,
    pub page_range: Option<(u64, u64)>,
    pub picture_description_preset: Option<String>,
}

/// The body of a conversion of sources.
#[derive(Debug)]
pub struct ConvertSourcesRequest {
    pub options: ConvertDocumentsOptions,
    pub sources: Vec<HttpSource>,
    pub target: TargetKind,
}

/// The chunking options of a chunking of sources.
#[derive(Debug)]
pub enum ChunkingRequestOptions {
    Hybrid {
        use_markdown_tables: bool,
        use_markdown_images: bool,
        image_placeholder: String,
        include_raw_text: bool,
        max_tokens: Option<u32>,
        tokenizer: String,
        merge_peers: bool,
    },
    Hierarchical {
        use_markdown_tables: bool,
        use_markdown_images: bool,
        image_placeholder: String,
        include_raw_text: bool,
    },
}

/// The body of a chunking of sources.
#[derive(Debug)]
pub struct ChunkSourcesRequest {
    pub convert_options: ConvertDocumentsOptions,
    pub sources: Vec<HttpSource>,
    pub include_converted_doc: bool,
    pub target: TargetKind,
    pub chunking_options: ChunkingRequestOptions,
}

/// The body of a source request: a conversion without a chunker, a chunking
/// with one.
#[derive(Debug)]
pub enum SourceBody {
    Convert(ConvertSourcesRequest),
    Chunk(ChunkSourcesRequest),
}

/// The views of a list of strings.
pub open spec fn strs(v: Seq<String>) -> Seq<Seq<char>> {
    v.map_values(|s: String| s@)
}

/// The options of a conversion of sources carry the input's format, the
/// requested formats, the pipeline, the page range and the preset.
pub open spec fn options_of(o: ConvertDocumentsOptions, k: InputKind, r: DoclingConvertRequest) -> bool {
    &&& strs(o.from_formats@) == seq![kind_formats_value(k)]
    &&& strs(o.to_formats@) == r.output_formats@.map_values(|f| format_api_value(f))
    &&& opt_text(o.pipeline) == crate::api::pipeline_text(r.pipeline)
    &&& o.page_range == match r.page_range {
        Some((a, b)) => Some((a as u64, b as u64)),
        None => None,
    }
    &&& opt_text(o.picture_description_preset) == opt_text(r.picture_description_preset)
}

/// The target of a request.
pub open spec fn target_of(r: DoclingConvertRequest) -> TargetKind {
    if any_archive(r.output_formats@) {
        TargetKind::Zip
    } else {
        TargetKind::Inbody
    }
}

/// The sources are the one HTTP source `url`.
pub open spec fn single_source(s: Seq<HttpSource>, url: Seq<char>) -> bool {
    s.len() == 1 && (s[0] matches HttpSource::Http { url: u, headers } && u@ == url
        && headers@.len() == 0)
}

/// The options of a conversion of sources.
pub fn convert_options(input_kind: InputKind, request: &DoclingConvertRequest) -> (r:
    ConvertDocumentsOptions)
    ensures
        options_of(r, input_kind, *request),
{
    let mut from_formats: Vec<String> = Vec::new();
    from_formats.push(owned(input_kind.from_formats_value()));
    assert(strs(from_formats@) =~= seq![kind_formats_value(input_kind)]);
    let mut to_formats: Vec<String> = Vec::new();
    let mut i: usize = 0;
    while i < request.output_formats.len()
        invariant
            i <= request.output_formats.len(),
            strs(to_formats@) == request.output_formats@.take(i as int).map_values(
                |f| format_api_value(f),
            ),
        decreases request.output_formats.len() - i,
    {
        let ghost prev = to_formats@;
        let name = owned(request.output_formats[i].as_api_value());
        to_formats.push(name);
        i = i + 1;
        assert(strs(to_formats@) =~= strs(prev).push(format_api_value(request.output_formats@[i - 1])));
        assert(request.output_formats@.take(i as int).map_values(|f| format_api_value(f))
            =~= request.output_formats@.take(i - 1).map_values(|f| format_api_value(f)).push(
            format_api_value(request.output_formats@[i - 1]),
        ));
    }
    assert(request.output_formats@.take(request.output_formats.len() as int)
        =~= request.output_formats@);
    let pipeline = match request.pipeline {
        Some(p) => Some(owned(p.name())),
        None => None,
    };
    let page_range = match request.page_range {
        Some((start, end)) => Some((start as u64, end as u64)),
        None => None,
    };
    ConvertDocumentsOptions {
        from_formats,
        to_formats,
        pipeline,
        page_range,
        picture_description_preset: crate::config::copy_opt(&request.picture_description_preset),
    }
}

/// The target of a request.
pub fn target_for(request: &DoclingConvertRequest) -> (r: TargetKind)
    ensures
        r == target_of(*request),
{
    if has_archive_format(&request.output_formats) {
        TargetKind::Zip
    } else {
        TargetKind::Inbody
    }
}

/// The chunking options sent with a chunker: an empty placeholder is
/// replaced by the default, an unset tokenizer of the hybrid chunker by its
/// default; without a chunker it is a validation error of `chunker`.
pub open spec fn chunking_options_of(
    c: ChunkerKind,
    o: ChunkingOptions,
    r: Result<ChunkingRequestOptions>,
) -> bool {
    let placeholder = if o.image_placeholder@.len() == 0 {
        default_image_placeholder()
    } else {
        o.image_placeholder@
    };
    match c {
        ChunkerKind::Hybrid => r matches Ok(
            ChunkingRequestOptions::Hybrid {
                use_markdown_tables,
                use_markdown_images,
                image_placeholder,
                include_raw_text,
                max_tokens,
                tokenizer,
                merge_peers,
            },
        ) && use_markdown_tables == o.use_markdown_tables && use_markdown_images
            == o.use_markdown_images && image_placeholder@ == placeholder && include_raw_text
            == o.include_raw_text && max_tokens == o.max_tokens && tokenizer@ == (match o.tokenizer {
            Some(t) => t@,
            None => default_tokenizer(),
        }) && merge_peers == o.merge_peers,
        ChunkerKind::Hierarchical => r matches Ok(
            ChunkingRequestOptions::Hierarchical {
                use_markdown_tables,
                use_markdown_images,
                image_placeholder,
                include_raw_text,
            },
        ) && use_markdown_tables == o.use_markdown_tables && use_markdown_images
            == o.use_markdown_images && image_placeholder@ == placeholder && include_raw_text
            == o.include_raw_text,
        ChunkerKind::Disabled => r matches Err(e) && is_validation(
            e,
            "chunker"@,
            "chunking options require hybrid or hierarchical"@,
        ),
    }
}

/// The chunking options sent with a chunker.
pub fn chunking_options(chunker: ChunkerKind, options: &ChunkingOptions) -> (r: Result<
    ChunkingRequestOptions,
>)
    ensures
        chunking_options_of(chunker, *options, r),
{
    let placeholder = if options.image_placeholder.as_str().is_empty() {
        owned("![IMAGE]")
    } else {
        options.image_placeholder.clone()
    };
    match chunker {
        ChunkerKind::Hybrid => {
            let tokenizer = match &options.tokenizer {
                Some(t) => t.clone(),
                None => owned("sentence-transformers/all-MiniLM-L6-v2"),
            };
            Ok(
                ChunkingRequestOptions::Hybrid {
                    use_markdown_tables: options.use_markdown_tables,
                    use_markdown_images: options.use_markdown_images,
                    image_placeholder: placeholder,
                    include_raw_text: options.include_raw_text,
                    max_tokens: options.max_tokens,
                    tokenizer,
                    merge_peers: options.merge_peers,
                },
            )
        },
        ChunkerKind::Hierarchical => Ok(
            ChunkingRequestOptions::Hierarchical {
                use_markdown_tables: options.use_markdown_tables,
                use_markdown_images: options.use_markdown_images,
                image_placeholder: placeholder,
                include_raw_text: options.include_raw_text,
            },
        ),
        ChunkerKind::Disabled => Err(
            PdfConvertError::validation_error(
                "chunker",
                "chunking options require hybrid or hierarchical",
            ),
        ),
    }
}

/// The body of a conversion of the source `url`.
pub fn source_request(url: &str, input_kind: InputKind, request: &DoclingConvertRequest) -> (r:
    ConvertSourcesRequest)
    ensures
        options_of(r.options, input_kind, *request),
        single_source(r.sources@, url@),
        r.target == target_of(*request),
{
    let mut sources: Vec<HttpSource> = Vec::new();
    sources.push(HttpSource::new(url));
    ConvertSourcesRequest {
        options: convert_options(input_kind, request),
        sources,
        target: target_for(request),
    }
}

/// The body of a chunking of the source `url`.
pub fn chunk_source_request(url: &str, input_kind: InputKind, request: &DoclingConvertRequest) -> (r:
    Result<ChunkSourcesRequest>)
    ensures
        request.chunker is Disabled ==> (r matches Err(e) && is_validation(
            e,
            "chunker"@,
            "chunking options require hybrid or hierarchical"@,
        )),
        !(request.chunker is Disabled) ==> (r matches Ok(c) && options_of(
            c.convert_options,
            input_kind,
            *request,
        ) && single_source(c.sources@, url@) && !c.include_converted_doc && c.target == target_of(
            *request,
        ) && chunking_options_of(request.chunker, request.chunking, Ok(c.chunking_options))),
{
    let chunking = match chunking_options(request.chunker, &request.chunking) {
        Ok(c) => c,
        Err(e) => return Err(e),
    };
    let mut sources: Vec<HttpSource> = Vec::new();
    sources.push(HttpSource::new(url));
    Ok(
        ChunkSourcesRequest {
            convert_options: convert_options(input_kind, request),
            sources,
            include_converted_doc: false,
            target: target_for(request),
            chunking_options: chunking,
        },
    )
}

/// The body of a request for the source `url`: a conversion without a
/// chunker, a chunking with one.
pub fn source_body(url: &str, input_kind: InputKind, request: &DoclingConvertRequest) -> (r: Result<
    SourceBody,
>)
    ensures
        request.chunker is Disabled ==> (r matches Ok(SourceBody::Convert(c)) && options_of(
            c.options,
            input_kind,
            *request,
        ) && single_source(c.sources@, url@) && c.target == target_of(*request)),
        !(request.chunker is Disabled) ==> (r matches Ok(SourceBody::Chunk(c)) && options_of(
            c.convert_options,
            input_kind,
            *request,
        ) && single_source(c.sources@, url@) && !c.include_converted_doc && c.target == target_of(
            *request,
        ) && chunking_options_of(request.chunker, request.chunking, Ok(c.chunking_options))),
{
    match request.chunker {
        ChunkerKind::Disabled => Ok(SourceBody::Convert(source_request(url, input_kind, request))),
        _ => match chunk_source_request(url, input_kind, request) {
            Ok(c) => Ok(SourceBody::Chunk(c)),
            Err(e) => Err(e),
        },
    }
}

/// The client of runtime settings: their client settings, keys left unset
/// taken from the environment.
pub fn build_docling_client(config: crate::config::DoclingRuntimeConfig, env: &EnvSettings) -> (r:
    Result<DoclingClient>)
    ensures
        r matches Ok(c) && crate::config::docling_config_of(config, *env, c.settings())
            && c.body_limit() is None,
{
    DoclingClient::new(config.into_docling_config(env))
}

} // verus!
