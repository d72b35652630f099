//! The rules of the web service: file names of uploads, task settings
//! from JSON or multipart fields, content types of downloads and the
//! progress of tasks.
use vstd::prelude::*;

use crate::config::{copy_opt, opt_text, ConversionBehavior};
use crate::document::{
    chunker_named, chunking_view, hybrid_view, pipeline_named, ChunkerKind, ChunkingOptions,
    OutputFormat, PipelineKind,
};
use crate::error::{is_validation, PdfConvertError, Result};
use crate::input_kind::{detect, first_alias, kind_of_path, kind_order, requires_override, InputKind};
use crate::models::TaskStatusResponse;
use crate::paths::{before_first, before_first_chars, last_index, last_index_in};
use crate::strings::{
    chars_are, chars_eq, dec, owned, push_dec, parse_bounded, parse_unsigned, slice_chars, string_from,
    to_chars, token, token_chars, trim, trim_chars,
};

verus! {

/// The part of `s` after its last `c` (all of `s` when there is none).
pub open spec fn after_last(s: Seq<char>, c: char) -> Seq<char> {
    let i = last_index(s, c);
    if i < 0 {
        s
    } else {
        s.subrange(i + 1, s.len() as int)
    }
}

/// A character that file names may not hold.
pub open spec fn forbidden_char(c: char) -> bool {
    c == '<' || c == '>' || c == ':' || c == '"' || c == '|' || c == '*' || c == '\0'
}

/// `s` without its leading and trailing dots.
pub open spec fn trim_dots(s: Seq<char>) -> Seq<char>
    decreases s.len(),
{
    if s.len() > 0 && s[0] == '.' {
        trim_dots(s.drop_first())
    } else if s.len() > 0 && s.last() == '.' {
        trim_dots(s.drop_last())
    } else {
        s
    }
}

/// The safe file name of an upload or URL: its last path component without
/// query or fragment, forbidden characters replaced by `_`, white space and
/// dots trimmed; `downloaded` when nothing remains.
pub open spec fn sanitized(name: Seq<char>) -> Seq<char> {
    let base = after_last(after_last(name, '/'), '\\');
    let plain = before_first(before_first(base, '?'), '#');
    let replaced = plain.map_values(|c: char| if forbidden_char(c) { '_' } else { c });
    let result = trim_dots(trim(replaced));
    if result.len() == 0 {
        "downloaded"@
    } else {
        result
    }
}

fn after_last_chars(v: &Vec<char>, c: char) -> (r: Vec<char>)
    ensures
        r@ == after_last(v@, c),
{
    assert(v@.subrange(0, v.len() as int) =~= v@);
    match last_index_in(v, v.len(), c) {
        Some(i) => slice_chars(v, i + 1, v.len()),
        None => slice_chars(v, 0, v.len()),
    }
}

fn trim_dot_chars(v: &Vec<char>) -> (r: Vec<char>)
    ensures
        r@ == trim_dots(v@),
{
    let mut i: usize = 0;
    let mut j: usize = v.len();
    assert(v@.subrange(0, v.len() as int) =~= v@);
    while i < j && (v[i] == '.' || v[j - 1] == '.')
        invariant
            i <= j <= v.len(),
            trim_dots(v@) == trim_dots(v@.subrange(i as int, j as int)),
        decreases j - i,
    {
        if v[i] == '.' {
            assert(v@.subrange(i as int, j as int).drop_first() =~= v@.subrange(i + 1, j as int));
            i = i + 1;
        } else {
            assert(v@.subrange(i as int, j as int).drop_last() =~= v@.subrange(i as int, j - 1));
            j = j - 1;
        }
    }
    slice_chars(v, i, j)
}

/// Every character of `s` satisfies `p`.
pub open spec fn all_chars(s: Seq<char>, p: spec_fn(char) -> bool) -> bool {
    forall|i: int| 0 <= i < s.len() ==> p(#[trigger] s[i])
}

/// A character that a sanitized file name never holds: a path separator,
/// the start of a query or fragment, or a forbidden character.
pub open spec fn unsafe_char(c: char) -> bool {
    c == '/' || c == '\\' || c == '?' || c == '#' || forbidden_char(c)
}

proof fn lemma_after_last_excludes(s: Seq<char>, c: char)
    ensures
        all_chars(after_last(s, c), |x: char| x != c),
        forall|p: spec_fn(char) -> bool| all_chars(s, p) ==> all_chars(after_last(s, c), p),
    decreases s.len(),
{
    crate::paths::lemma_last_index_bounds(s, c);
    let i = last_index(s, c);
    if s.len() > 0 && s.last() != c {
        lemma_after_last_excludes(s.drop_last(), c);
        let t = after_last(s.drop_last(), c);
        assert(after_last(s, c) =~= t.push(s.last()));
    }
    if s.len() == 0 {
        assert(after_last(s, c) =~= s);
    }
    assert forall|p: spec_fn(char) -> bool| all_chars(s, p) implies all_chars(
        after_last(s, c),
        p,
    ) by {
        assert forall|j: int| 0 <= j < after_last(s, c).len() implies p(
            #[trigger] after_last(s, c)[j],
        ) by {
            if i < 0 {
                assert(after_last(s, c)[j] == s[j]);
            } else {
                assert(after_last(s, c)[j] == s[i + 1 + j]);
            }
        }
    }
}

proof fn lemma_before_first_excludes(s: Seq<char>, c: char)
    ensures
        all_chars(before_first(s, c), |x: char| x != c),
        forall|p: spec_fn(char) -> bool| all_chars(s, p) ==> all_chars(before_first(s, c), p),
        -1 <= crate::paths::first_index(s, c) < s.len(),
    decreases s.len(),
{
    if s.len() > 0 && s[0] != c {
        lemma_before_first_excludes(s.drop_first(), c);
        let t = before_first(s.drop_first(), c);
        let r = crate::paths::first_index(s.drop_first(), c);
        if r < 0 {
            assert(before_first(s, c) =~= seq![s[0]] + t);
        } else {
            assert(before_first(s, c) =~= seq![s[0]] + t);
        }
        assert forall|p: spec_fn(char) -> bool| all_chars(s, p) implies all_chars(
            before_first(s, c),
            p,
        ) by {
            assert(all_chars(s.drop_first(), p)) by {
                assert forall|j: int| 0 <= j < s.drop_first().len() implies p(
                    #[trigger] s.drop_first()[j],
                ) by {
                    assert(s.drop_first()[j] == s[j + 1]);
                }
            }
            assert forall|j: int| 0 <= j < before_first(s, c).len() implies p(
                #[trigger] before_first(s, c)[j],
            ) by {
                if j > 0 {
                    assert(before_first(s, c)[j] == t[j - 1]);
                }
            }
        }
    } else if s.len() > 0 {
        assert(before_first(s, c) =~= Seq::<char>::empty());
    } else {
        assert(before_first(s, c) =~= s);
    }
}

proof fn lemma_trim_end_of(s: Seq<char>, p: spec_fn(char) -> bool)
    requires
        all_chars(s, p),
    ensures
        all_chars(crate::strings::trim_end(s), p),
    decreases s.len(),
{
    if s.len() > 0 {
        assert(all_chars(s.drop_last(), p)) by {
            assert forall|j: int| 0 <= j < s.drop_last().len() implies p(
                #[trigger] s.drop_last()[j],
            ) by {
                assert(s.drop_last()[j] == s[j]);
            }
        }
        lemma_trim_end_of(s.drop_last(), p);
    }
}

proof fn lemma_trim_start_of(s: Seq<char>, p: spec_fn(char) -> bool)
    requires
        all_chars(s, p),
    ensures
        all_chars(crate::strings::trim_start(s), p),
    decreases s.len(),
{
    if s.len() > 0 {
        assert(all_chars(s.drop_first(), p)) by {
            assert forall|j: int| 0 <= j < s.drop_first().len() implies p(
                #[trigger] s.drop_first()[j],
            ) by {
                assert(s.drop_first()[j] == s[j + 1]);
            }
        }
        lemma_trim_start_of(s.drop_first(), p);
    }
}

proof fn lemma_trim_dots_of(s: Seq<char>, p: spec_fn(char) -> bool)
    requires
        all_chars(s, p),
    ensures
        all_chars(trim_dots(s), p),
    decreases s.len(),
{
    if s.len() > 0 {
        assert(all_chars(s.drop_first(), p)) by {
            assert forall|j: int| 0 <= j < s.drop_first().len() implies p(
                #[trigger] s.drop_first()[j],
            ) by {
                assert(s.drop_first()[j] == s[j + 1]);
            }
        }
        assert(all_chars(s.drop_last(), p)) by {
            assert forall|j: int| 0 <= j < s.drop_last().len() implies p(
                #[trigger] s.drop_last()[j],
            ) by {
                assert(s.drop_last()[j] == s[j]);
            }
        }
        lemma_trim_dots_of(s.drop_first(), p);
        lemma_trim_dots_of(s.drop_last(), p);
    }
}

/// A sanitized file name is never empty and holds no path separator, no
/// `?` or `#`, and none of the characters that file names may not hold.
pub proof fn lemma_sanitized_is_safe(name: Seq<char>)
    ensures
        sanitized(name).len() > 0,
        forall|i: int| 0 <= i < sanitized(name).len() ==> !unsafe_char(#[trigger] sanitized(name)[i]),
{
    let a = after_last(name, '/');
    let b = after_last(a, '\\');
    let c = before_first(b, '?');
    let d = before_first(c, '#');
    lemma_after_last_excludes(name, '/');
    lemma_after_last_excludes(a, '\\');
    lemma_before_first_excludes(b, '?');
    lemma_before_first_excludes(c, '#');
    let p1 = |x: char| x != '/';
    let p2 = |x: char| x != '/' && x != '\\';
    let p3 = |x: char| x != '/' && x != '\\' && x != '?';
    let p4 = |x: char| x != '/' && x != '\\' && x != '?' && x != '#';
    assert(all_chars(a, p1));
    assert(all_chars(b, p1));
    assert(all_chars(b, p2));
    assert(all_chars(c, p2));
    assert(all_chars(c, p3));
    assert(all_chars(d, p3));
    assert(all_chars(d, p4));
    let replaced = d.map_values(|x: char| if forbidden_char(x) { '_' } else { x });
    let safe = |x: char| !unsafe_char(x);
    assert(all_chars(replaced, safe));
    lemma_trim_start_of(replaced, safe);
    lemma_trim_end_of(crate::strings::trim_start(replaced), safe);
    lemma_trim_dots_of(trim(replaced), safe);
    reveal_strlit("downloaded");
}

/// The safe file name of an upload or URL.
pub fn sanitize_filename(name: &str) -> (r: String)
    ensures
        r@ == sanitized(name@),
{
    let v = to_chars(name);
    let a = after_last_chars(&v, '/');
    let b = after_last_chars(&a, '\\');
    let c = before_first_chars(&b, '?');
    let d = before_first_chars(&c, '#');
    let mut replaced: Vec<char> = Vec::new();
    let mut i: usize = 0;
    while i < d.len()
        invariant
            i <= d.len(),
            replaced@ =~= d@.take(i as int).map_values(
                |c: char| if forbidden_char(c) { '_' } else { c },
            ),
        decreases d.len() - i,
    {
        let ch = d[i];
        let out = if ch == '<' || ch == '>' || ch == ':' || ch == '"' || ch == '|' || ch == '*'
            || ch == '\0' {
            '_'
        } else {
            ch
        };
        replaced.push(out);
        i = i + 1;
        assert(d@.take(i as int).map_values(|c: char| if forbidden_char(c) { '_' } else { c })
            =~= d@.take(i - 1).map_values(|c: char| if forbidden_char(c) { '_' } else { c }).push(
            out,
        ));
    }
    assert(d@.take(d.len() as int) =~= d@);
    let t = trim_chars(&replaced);
    let result = trim_dot_chars(&t);
    if result.len() == 0 {
        owned("downloaded")
    } else {
        string_from(&result)
    }
}

/// The output format named by `value`.
pub fn parse_output_format(value: &str) -> (r: Result<OutputFormat>)
    ensures
        crate::document::parsed_as(
            r,
            crate::document::format_named(token(value@)),
            "format"@,
            "unsupported output format: "@,
            token(value@),
        ),
{
    OutputFormat::parse(value)
}

/// The input kind named by `value`.
pub fn parse_input_format(value: &str) -> (r: Result<InputKind>)
    ensures
        crate::document::parsed_as(
            r,
            first_alias(kind_order(), token(value@)),
            "input_format"@,
            "unsupported input format: "@,
            token(value@),
        ),
{
    InputKind::parse_format(value)
}

/// The HTTP status of a bad request.
pub const BAD_REQUEST: u16 = 400;

/// The HTTP status of an unsupported media type.
pub const UNSUPPORTED_MEDIA_TYPE: u16 = 415;

/// The kind of an upload: the explicit input format when given (a bad one
/// is a bad request), else what the file name and media type select; an
/// ambiguous upload is a bad request, an unknown one an unsupported media
/// type.
pub fn resolve_input_kind(file_name: &str, media_type: &str, input_format: Option<&str>) -> (r:
    core::result::Result<InputKind, u16>)
    ensures
        match input_format {
            Some(f) => match first_alias(kind_order(), token(f@)) {
                Some(k) => r == Ok::<InputKind, u16>(k),
                None => r == Err::<InputKind, u16>(BAD_REQUEST),
            },
            None => match detect(file_name@, Some(media_type@)) {
                Some(k) => r == Ok::<InputKind, u16>(k),
                None => r == Err::<InputKind, u16>(
                    if requires_override(file_name@, Some(media_type@)) {
                        BAD_REQUEST
                    } else {
                        UNSUPPORTED_MEDIA_TYPE
                    },
                ),
            },
        },
{
    if let Some(f) = input_format {
        return match parse_input_format(f) {
            Ok(k) => Ok(k),
            Err(_) => Err(BAD_REQUEST),
        };
    }
    match InputKind::from_filename_and_media_type(file_name, Some(media_type)) {
        Some(k) => Ok(k),
        None => {
            if InputKind::requires_explicit_override(file_name, Some(media_type)) {
                Err(BAD_REQUEST)
            } else {
                Err(UNSUPPORTED_MEDIA_TYPE)
            }
        },
    }
}

/// The content type of a download in the given format.
pub open spec fn content_type_of(format: Seq<char>) -> Seq<char> {
    if format == "json"@ {
        "application/json"@
    } else if format == "text"@ {
        "text/plain; charset=utf-8"@
    } else if format == "html"@ {
        "text/html; charset=utf-8"@
    } else if format == "doctags"@ {
        "text/plain; charset=utf-8"@
    } else {
        "text/markdown; charset=utf-8"@
    }
}

/// The content type of a download in the given format.
pub fn output_content_type(format: &str) -> (r: &'static str)
    ensures
        r@ == content_type_of(format@),
{
    let f = to_chars(format);
    if chars_are(&f, "json") {
        "application/json"
    } else if chars_are(&f, "text") {
        "text/plain; charset=utf-8"
    } else if chars_are(&f, "html") {
        "text/html; charset=utf-8"
    } else if chars_are(&f, "doctags") {
        "text/plain; charset=utf-8"
    } else {
        "text/markdown; charset=utf-8"
    }
}

/// The settings of a conversion task of the web service.
#[derive(Debug, Clone)]
pub struct TaskConfig {
    pub format: String,
    pub input_format: Option<String>,
    pub chunker: ChunkerKind,
    pub pipeline: Option<PipelineKind>,
    pub chunking_options: ChunkingOptions,
    pub picture_description_preset: Option<String>,
}

impl Default for TaskConfig {
    fn default() -> (r: TaskConfig)
        ensures
            r.format@ == "md"@,
            r.input_format is None,
            r.chunker is Disabled,
            r.pipeline is None,
            chunking_view(r.chunking_options) == hybrid_view(),
            r.picture_description_preset is None,
    {
        TaskConfig {
            format: owned("md"),
            input_format: None,
            chunker: ChunkerKind::Disabled,
            pipeline: None,
            chunking_options: ChunkingOptions::hybrid_defaults(),
            picture_description_preset: None,
        }
    }
}

/// Chunking options that a task may set, each optional.
#[derive(Debug, Clone, Default)]
pub struct ChunkingOptionsInput {
    pub use_markdown_tables: Option<bool>,
    pub use_markdown_images: Option<bool>,
    pub image_placeholder: Option<String>,
    pub include_raw_text: Option<bool>,
    pub max_tokens: Option<u32>,
    pub tokenizer: Option<String>,
    pub merge_peers: Option<bool>,
}

/// The settings of a task as a client sends them, each optional.
#[derive(Debug, Clone, Default)]
pub struct TaskConfigInput {
    pub format: Option<String>,
    pub input_format: Option<String>,
    pub chunker: Option<String>,
    pub chunking: Option<bool>,
    pub pipeline: Option<String>,
    pub chunking_options: Option<ChunkingOptionsInput>,
    pub picture_description_preset: Option<String>,
}

/// `o`, or `d` when it is unset.
pub open spec fn or_keep<T>(o: Option<T>, d: T) -> T {
    match o {
        Some(v) => v,
        None => d,
    }
}

/// Chunking options (as their field-wise view) with every value that the
/// input sets replaced.
pub open spec fn applied(
    v: (bool, bool, Seq<char>, bool, Option<u32>, Option<Seq<char>>, bool),
    i: ChunkingOptionsInput,
) -> (bool, bool, Seq<char>, bool, Option<u32>, Option<Seq<char>>, bool) {
    (
        or_keep(i.use_markdown_tables, v.0),
        or_keep(i.use_markdown_images, v.1),
        or_keep(opt_text(i.image_placeholder), v.2),
        or_keep(i.include_raw_text, v.3),
        if i.max_tokens is Some {
            i.max_tokens
        } else {
            v.4
        },
        if i.tokenizer is Some {
            opt_text(i.tokenizer)
        } else {
            v.5
        },
        or_keep(i.merge_peers, v.6),
    )
}

/// Replaces every chunking option that the input sets.
pub fn apply_chunking_options(options: &mut ChunkingOptions, input: ChunkingOptionsInput)
    ensures
        chunking_view(*final(options)) == applied(chunking_view(*old(options)), input),
{
    if let Some(value) = input.use_markdown_tables {
        options.use_markdown_tables = value;
    }
    if let Some(value) = input.use_markdown_images {
        options.use_markdown_images = value;
    }
    if let Some(value) = input.image_placeholder {
        options.image_placeholder = value;
    }
    if let Some(value) = input.include_raw_text {
        options.include_raw_text = value;
    }
    if input.max_tokens.is_some() {
        options.max_tokens = input.max_tokens;
    }
    if let Some(value) = input.tokenizer {
        options.tokenizer = Some(value);
    }
    if let Some(value) = input.merge_peers {
        options.merge_peers = value;
    }
}

/// A preset trimmed, or `None` when nothing remains.
pub open spec fn preset_of(o: Option<Seq<char>>) -> Option<Seq<char>> {
    match o {
        Some(p) => crate::config::trimmed_present(p),
        None => None,
    }
}

/// The chunker that a task asks for: its named chunker, else the hybrid
/// chunker when legacy chunking is on, else none; `None` when the name is
/// unknown.
pub open spec fn chunker_of(i: TaskConfigInput) -> Option<ChunkerKind> {
    match i.chunker {
        Some(c) => chunker_named(token(c@)),
        None => if i.chunking == Some(true) {
            Some(ChunkerKind::Hybrid)
        } else {
            Some(ChunkerKind::Disabled)
        },
    }
}

/// Every name that the input gives is known.
pub open spec fn resolution_valid(i: TaskConfigInput) -> bool {
    &&& (i.format matches Some(f) ==> crate::document::format_named(token(f@)) is Some)
    &&& (i.input_format matches Some(f) ==> first_alias(kind_order(), token(f@)) is Some)
    &&& chunker_of(i) is Some
    &&& (i.pipeline matches Some(p) ==> pipeline_named(token(p@)) is Some)
}

/// The task settings that a valid input resolves to.
pub open spec fn resolved_as(i: TaskConfigInput, c: TaskConfig) -> bool {
    &&& c.format@ == or_keep(opt_text(i.format), "md"@)
    &&& opt_text(c.input_format) == opt_text(i.input_format)
    &&& Some(c.chunker) == chunker_of(i)
    &&& c.pipeline == match i.pipeline {
        Some(p) => pipeline_named(token(p@)),
        None => None,
    }
    &&& opt_text(c.picture_description_preset) == preset_of(opt_text(i.picture_description_preset))
    &&& chunking_view(c.chunking_options) == match i.chunking_options {
        Some(o) => applied(hybrid_view(), o),
        None => hybrid_view(),
    }
}

/// The value of the last field named `key`.
pub open spec fn field(fields: Seq<(String, String)>, key: Seq<char>) -> Option<Seq<char>>
    decreases fields.len(),
{
    if fields.len() == 0 {
        None
    } else if fields.last().0@ == key {
        Some(fields.last().1@)
    } else {
        field(fields.drop_last(), key)
    }
}

/// The truth value that a field spells: `true` or `1`, `false` or `0`,
/// trimmed and in any ASCII case.
pub open spec fn truth_of(s: Seq<char>) -> Option<bool> {
    let t = token(s);
    if t == "true"@ || t == "1"@ {
        Some(true)
    } else if t == "false"@ || t == "0"@ {
        Some(false)
    } else {
        None
    }
}

/// The truth value of an optional field (`None` when it is absent or
/// spells none).
pub open spec fn bool_field(fields: Seq<(String, String)>, key: Seq<char>) -> Option<bool> {
    match field(fields, key) {
        Some(v) => truth_of(v),
        None => None,
    }
}

/// An optional field is absent or spells a truth value.
pub open spec fn bool_field_ok(fields: Seq<(String, String)>, key: Seq<char>) -> bool {
    match field(fields, key) {
        Some(v) => truth_of(v) is Some,
        None => true,
    }
}

/// The `u32` that an optional field spells.
pub open spec fn u32_field(fields: Seq<(String, String)>, key: Seq<char>) -> Option<u32> {
    match field(fields, key) {
        Some(v) => match parse_unsigned(v, u32::MAX as int) {
            Some(n) => Some(n as u32),
            None => None,
        },
        None => None,
    }
}

/// An optional field is absent or spells a `u32`.
pub open spec fn u32_field_ok(fields: Seq<(String, String)>, key: Seq<char>) -> bool {
    match field(fields, key) {
        Some(v) => parse_unsigned(v, u32::MAX as int) is Some,
        None => true,
    }
}

/// A name of a field of the chunking options.
pub open spec fn is_chunking_key(k: Seq<char>) -> bool {
    ||| k == "use_markdown_tables"@
    ||| k == "use_markdown_images"@
    ||| k == "image_placeholder"@
    ||| k == "include_raw_text"@
    ||| k == "max_tokens"@
    ||| k == "tokenizer"@
    ||| k == "merge_peers"@
}

/// Some field belongs to the chunking options.
pub open spec fn has_chunking_field(fields: Seq<(String, String)>) -> bool {
    exists|i: int| 0 <= i < fields.len() && is_chunking_key(#[trigger] fields[i].0@)
}

/// Every boolean and number among the fields parses.
pub open spec fn multipart_valid(fields: Seq<(String, String)>) -> bool {
    &&& bool_field_ok(fields, "chunking"@)
    &&& has_chunking_field(fields) ==> {
        &&& bool_field_ok(fields, "use_markdown_tables"@)
        &&& bool_field_ok(fields, "use_markdown_images"@)
        &&& bool_field_ok(fields, "include_raw_text"@)
        &&& u32_field_ok(fields, "max_tokens"@)
        &&& bool_field_ok(fields, "merge_peers"@)
    }
}

/// The chunking options that the fields give.
pub open spec fn chunking_fields(fields: Seq<(String, String)>, o: ChunkingOptionsInput) -> bool {
    &&& o.use_markdown_tables == bool_field(fields, "use_markdown_tables"@)
    &&& o.use_markdown_images == bool_field(fields, "use_markdown_images"@)
    &&& opt_text(o.image_placeholder) == field(fields, "image_placeholder"@)
    &&& o.include_raw_text == bool_field(fields, "include_raw_text"@)
    &&& o.max_tokens == u32_field(fields, "max_tokens"@)
    &&& opt_text(o.tokenizer) == field(fields, "tokenizer"@)
    &&& o.merge_peers == bool_field(fields, "merge_peers"@)
}

/// The task input that the fields give.
pub open spec fn input_fields(fields: Seq<(String, String)>, i: TaskConfigInput) -> bool {
    &&& opt_text(i.format) == field(fields, "format"@)
    &&& opt_text(i.input_format) == field(fields, "input_format"@)
    &&& opt_text(i.chunker) == field(fields, "chunker"@)
    &&& i.chunking == bool_field(fields, "chunking"@)
    &&& opt_text(i.pipeline) == field(fields, "pipeline"@)
    &&& opt_text(i.picture_description_preset) == field(fields, "picture_description_preset"@)
    &&& (has_chunking_field(fields) <==> i.chunking_options is Some)
    &&& (i.chunking_options matches Some(o) ==> chunking_fields(fields, o))
}

/// A copy of the value of the last field named `key`.
fn get_field(fields: &Vec<(String, String)>, key: &str) -> (r: Option<String>)
    ensures
        opt_text(r) == field(fields@, key@),
{
    let k = to_chars(key);
    let mut i: usize = fields.len();
    assert(fields@.take(i as int) =~= fields@);
    while i > 0
        invariant
            i <= fields.len(),
            k@ == key@,
            field(fields@, key@) == field(fields@.take(i as int), key@),
        decreases i,
    {
        let name = to_chars(fields[i - 1].0.as_str());
        assert(fields@.take(i as int).last() == fields@[i - 1]);
        assert(fields@.take(i as int).drop_last() =~= fields@.take(i - 1));
        if chars_eq(&name, &k) {
            return Some(fields[i - 1].1.clone());
        }
        i = i - 1;
    }
    None
}

/// The truth value that `s` spells.
fn truth_value(s: &str) -> (r: Option<bool>)
    ensures
        r == truth_of(s@),
{
    let t = token_chars(s);
    if chars_are(&t, "true") || chars_are(&t, "1") {
        Some(true)
    } else if chars_are(&t, "false") || chars_are(&t, "0") {
        Some(false)
    } else {
        None
    }
}

/// The truth value of an optional field; a bad request when it spells none.
fn parse_optional_bool(fields: &Vec<(String, String)>, key: &str) -> (r: core::result::Result<
    Option<bool>,
    u16,
>)
    ensures
        bool_field_ok(fields@, key@) ==> r == Ok::<Option<bool>, u16>(bool_field(fields@, key@)),
        !bool_field_ok(fields@, key@) ==> r == Err::<Option<bool>, u16>(BAD_REQUEST),
{
    match get_field(fields, key) {
        Some(value) => match truth_value(value.as_str()) {
            Some(b) => Ok(Some(b)),
            None => Err(BAD_REQUEST),
        },
        None => Ok(None),
    }
}

/// The `u32` of an optional field; a bad request when it spells none.
fn parse_optional_u32(fields: &Vec<(String, String)>, key: &str) -> (r: core::result::Result<
    Option<u32>,
    u16,
>)
    ensures
        u32_field_ok(fields@, key@) ==> r == Ok::<Option<u32>, u16>(u32_field(fields@, key@)),
        !u32_field_ok(fields@, key@) ==> r == Err::<Option<u32>, u16>(BAD_REQUEST),
{
    match get_field(fields, key) {
        Some(value) => match parse_bounded(value.as_str(), 4294967295u64) {
            Some(n) => {
                assert(u32::MAX as int == 4294967295u64 as int);
                Ok(Some(n as u32))
            },
            None => Err(BAD_REQUEST),
        },
        None => Ok(None),
    }
}

/// Whether some field belongs to the chunking options.
fn has_chunking_field_exec(fields: &Vec<(String, String)>) -> (r: bool)
    ensures
        r == has_chunking_field(fields@),
{
    let mut i: usize = 0;
    while i < fields.len()
        invariant
            i <= fields.len(),
            forall|j: int| 0 <= j < i ==> !is_chunking_key(#[trigger] fields@[j].0@),
        decreases fields.len() - i,
    {
        let k = to_chars(fields[i].0.as_str());
        if chars_are(&k, "use_markdown_tables") || chars_are(&k, "use_markdown_images")
            || chars_are(&k, "image_placeholder") || chars_are(&k, "include_raw_text")
            || chars_are(&k, "max_tokens") || chars_are(&k, "tokenizer") || chars_are(
            &k,
            "merge_peers",
        ) {
            return true;
        }
        i = i + 1;
    }
    false
}

impl TaskConfigInput {
    /// The task settings: each given name must be known (a bad request
    /// otherwise); the format and the input format are kept as written; the
    /// preset is trimmed and dropped when empty; the chunking options that
    /// are given replace the hybrid defaults.
    pub fn resolve(self) -> (r: core::result::Result<TaskConfig, u16>)
        ensures
            !resolution_valid(self) ==> r == Err::<TaskConfig, u16>(BAD_REQUEST),
            resolution_valid(self) ==> (r matches Ok(c) && resolved_as(self, c)),
    {
        let ghost input = self;
        let mut config = TaskConfig::default();
        if let Some(format) = self.format {
            if OutputFormat::parse(format.as_str()).is_err() {
                return Err(BAD_REQUEST);
            }
            config.format = format;
        }
        if let Some(input_format) = self.input_format {
            if InputKind::parse_format(input_format.as_str()).is_err() {
                return Err(BAD_REQUEST);
            }
            config.input_format = Some(input_format);
        }
        config.chunker = match self.chunker {
            Some(value) => match ChunkerKind::parse(value.as_str()) {
                Ok(c) => c,
                Err(_) => return Err(BAD_REQUEST),
            },
            None => if self.chunking == Some(true) {
                ChunkerKind::Hybrid
            } else {
                ChunkerKind::Disabled
            },
        };
        config.pipeline = match self.pipeline {
            Some(value) => match PipelineKind::parse(value.as_str()) {
                Ok(p) => Some(p),
                Err(_) => return Err(BAD_REQUEST),
            },
            None => None,
        };
        config.picture_description_preset = match &self.picture_description_preset {
            Some(p) => crate::config::trimmed_non_empty(p.as_str()),
            None => None,
        };
        if let Some(options) = self.chunking_options {
            apply_chunking_options(&mut config.chunking_options, options);
        }
        Ok(config)
    }

    /// The task settings of a multipart upload: each field by its name (the
    /// last one of a name counts); the chunking options are present when any
    /// of their fields is; a boolean or number that does not parse is a bad
    /// request.
    pub fn from_multipart_fields(fields: &Vec<(String, String)>) -> (r: core::result::Result<
        TaskConfigInput,
        u16,
    >)
        ensures
            multipart_valid(fields@) ==> (r matches Ok(i) && input_fields(fields@, i)),
            !multipart_valid(fields@) ==> r == Err::<TaskConfigInput, u16>(BAD_REQUEST),
    {
        let has_options = has_chunking_field_exec(fields);
        let chunking_options = if has_options {
            let use_markdown_tables = parse_optional_bool(fields, "use_markdown_tables")?;
            let use_markdown_images = parse_optional_bool(fields, "use_markdown_images")?;
            let include_raw_text = parse_optional_bool(fields, "include_raw_text")?;
            let max_tokens = parse_optional_u32(fields, "max_tokens")?;
            let merge_peers = parse_optional_bool(fields, "merge_peers")?;
            Some(
                ChunkingOptionsInput {
                    use_markdown_tables,
                    use_markdown_images,
                    image_placeholder: get_field(fields, "image_placeholder"),
                    include_raw_text,
                    max_tokens,
                    tokenizer: get_field(fields, "tokenizer"),
                    merge_peers,
                },
            )
        } else {
            None
        };
        let chunking = parse_optional_bool(fields, "chunking")?;
        Ok(
            TaskConfigInput {
                format: get_field(fields, "format"),
                input_format: get_field(fields, "input_format"),
                chunker: get_field(fields, "chunker"),
                chunking,
                pipeline: get_field(fields, "pipeline"),
                chunking_options,
                picture_description_preset: get_field(fields, "picture_description_preset"),
            },
        )
    }
}

/// The behaviour of a conversion task: its chunker, chunking options and
/// pipeline.
pub fn behavior_from_task_config(config: &TaskConfig) -> (r: ConversionBehavior)
    ensures
        r.chunker == config.chunker,
        chunking_view(r.chunking) == chunking_view(config.chunking_options),
        r.pipeline == config.pipeline,
{
    ConversionBehavior {
        chunker: config.chunker,
        chunking: config.chunking_options.clone(),
        pipeline: config.pipeline,
    }
}

/// The kind of a URL source: the task's input format when it has one (a
/// bad one is its parse error), else what the fallback file name selects;
/// a validation error of `input_format` when neither gives a kind.
pub fn url_input_kind(input_format: Option<&str>, fallback_file_name: &str) -> (r: Result<
    InputKind,
>)
    ensures
        match input_format {
            Some(f) => crate::document::parsed_as(
                r,
                first_alias(kind_order(), token(f@)),
                "input_format"@,
                "unsupported input format: "@,
                token(f@),
            ),
            None => match kind_of_path(fallback_file_name@) {
                Some(k) => r == Ok::<InputKind, PdfConvertError>(k),
                None => r matches Err(e) && is_validation(
                    e,
                    "input_format"@,
                    "URL filename has no supported extension; provide input_format"@,
                ),
            },
        },
{
    match input_format {
        Some(f) => parse_input_format(f),
        None => match InputKind::from_path(fallback_file_name) {
            Some(k) => Ok(k),
            None => Err(
                PdfConvertError::validation_error(
                    "input_format",
                    "URL filename has no supported extension; provide input_format",
                ),
            ),
        },
    }
}

/// The number of documents that a task counts, capped at `u32::MAX`.
pub open spec fn docs_total(num_docs: u64) -> int {
    if num_docs > u32::MAX {
        u32::MAX as int
    } else {
        num_docs as int
    }
}

/// The number of processed documents, capped at the total.
pub open spec fn docs_completed(num_processed: u64, total: int) -> int {
    if num_processed > total {
        total
    } else {
        num_processed as int
    }
}

/// The progress of a task from its document counts: 10 before any
/// document is known, else 10 plus 80 times the share of processed
/// documents (the product saturating at `u32::MAX`), at most 90.
pub open spec fn progress_of(completed: int, total: int) -> int {
    if total == 0 {
        10
    } else {
        let product = if completed * 80 > u32::MAX {
            u32::MAX as int
        } else {
            completed * 80
        };
        if 10 + product / total > 90 {
            90
        } else {
            10 + product / total
        }
    }
}

/// The message of a status update: Docling's error message, else its
/// failure's message, else the document counts.
pub open spec fn progress_message(status: TaskStatusResponse, completed: int, total: int) -> Seq<
    char,
> {
    match status.error_message {
        Some(m) => m@,
        None => match status.failure {
            Some(f) => f.message@,
            None => "Docling processed "@ + dec(completed as nat) + "/"@ + dec(total as nat)
                + " documents"@,
        },
    }
}

/// What a status of Docling Serve changes in a task of the web service.
#[derive(Debug)]
pub enum StatusUpdate {
    /// Nothing changes.
    Unchanged,
    /// The task is processing, at the given progress.
    Processing { progress: u8, message: String },
    /// The task is processing, with document counts.
    Documents { completed: u32, total: u32, progress: u8, message: String },
}

/// The update that a status of Docling Serve makes.
pub open spec fn status_update_of(status: TaskStatusResponse, u: StatusUpdate) -> bool {
    match status.task_meta {
        None => match status.error_message {
            Some(m) => u matches StatusUpdate::Processing { progress, message } && progress == 20
                && message@ == m@,
            None => u is Unchanged,
        },
        Some(meta) => {
            let total = docs_total(meta.num_docs);
            let completed = docs_completed(meta.num_processed, total);
            u matches StatusUpdate::Documents { completed: c, total: t, progress, message }
                && c == completed && t == total && progress == progress_of(completed, total)
                && message@ == progress_message(status, completed, total)
        },
    }
}

proof fn lemma_progress_bounds(completed: int, total: int)
    requires
        0 <= completed <= total <= u32::MAX,
    ensures
        10 <= progress_of(completed, total) <= 90,
        total > 0 ==> progress_of(completed, total) == 10 + (if completed * 80 > u32::MAX {
            u32::MAX as int
        } else {
            completed * 80
        }) / total,
{
    if total > 0 {
        let product = if completed * 80 > u32::MAX {
            u32::MAX as int
        } else {
            completed * 80
        };
        assert(product <= total * 80) by (nonlinear_arith)
            requires
                product <= completed * 80 || product <= u32::MAX,
                product == completed * 80 || (product == u32::MAX && completed * 80 > u32::MAX),
                0 <= completed <= total,
        ;
        assert(0 <= product / total <= 80) by (nonlinear_arith)
            requires
                0 <= product <= total * 80,
                total > 0,
        ;
    }
}

/// The progress of a task never goes down as more of its documents are
/// processed, and reaches 90 when all are (for totals whose product with 80
/// does not saturate).
pub proof fn lemma_progress_monotone(c1: int, c2: int, total: int)
    requires
        0 <= c1 <= c2 <= total <= u32::MAX,
    ensures
        progress_of(c1, total) <= progress_of(c2, total),
        0 < total && total * 80 <= u32::MAX ==> progress_of(total, total) == 90,
{
    lemma_progress_bounds(c1, total);
    lemma_progress_bounds(c2, total);
    lemma_progress_bounds(total, total);
    if total > 0 {
        let p1 = if c1 * 80 > u32::MAX {
            u32::MAX as int
        } else {
            c1 * 80
        };
        let p2 = if c2 * 80 > u32::MAX {
            u32::MAX as int
        } else {
            c2 * 80
        };
        assert(c1 * 80 <= c2 * 80) by (nonlinear_arith)
            requires
                c1 <= c2,
        ;
        assert(p1 / total <= p2 / total) by (nonlinear_arith)
            requires
                0 <= p1 <= p2,
                total > 0,
        ;
        let pt = if total * 80 > u32::MAX {
            u32::MAX as int
        } else {
            total * 80
        };
        if total * 80 <= u32::MAX {
            assert(pt / total == 80) by (nonlinear_arith)
                requires
                    pt == total * 80,
                    total > 0,
            ;
        }
    }
}

/// The update that a status of Docling Serve makes: without counters, its
/// error message at progress 20 (or nothing); with counters, the counts
/// capped at `u32::MAX` and at each other, the progress between 10 and 90,
/// and a message.
pub fn docling_status_update(status: &TaskStatusResponse) -> (r: StatusUpdate)
    ensures
        status_update_of(*status, r),
        r matches StatusUpdate::Documents { progress, .. } ==> 10 <= progress <= 90,
{
    match &status.task_meta {
        None => match &status.error_message {
            Some(m) => StatusUpdate::Processing { progress: 20, message: m.clone() },
            None => StatusUpdate::Unchanged,
        },
        Some(meta) => {
            let total: u32 = if meta.num_docs > 4294967295u64 {
                4294967295u32
            } else {
                meta.num_docs as u32
            };
            let completed: u32 = if meta.num_processed > total as u64 {
                total
            } else {
                meta.num_processed as u32
            };
            proof {
                lemma_progress_bounds(completed as int, total as int);
            }
            let progress: u8 = if total == 0 {
                10
            } else {
                let product: u64 = completed as u64 * 80;
                let saturated: u32 = if product > 4294967295u64 {
                    4294967295u32
                } else {
                    product as u32
                };
                let p: u32 = 10 + saturated / total;
                if p > 90 {
                    90
                } else {
                    p as u8
                }
            };
            let message = match &status.error_message {
                Some(m) => m.clone(),
                None => match &status.failure {
                    Some(f) => f.message.clone(),
                    None => {
                        let mut text = owned("Docling processed ");
                        push_dec(&mut text, completed as u64);
                        text.push_str("/");
                        push_dec(&mut text, total as u64);
                        text.push_str(" documents");
                        text
                    },
                },
            };
            StatusUpdate::Documents { completed, total, progress, message }
        },
    }
}

/// The state of a task of the web service.
#[derive(Debug, Clone, Copy, PartialEq, Eq, Structural)]
pub enum TaskStatus {
    Pending,
    Processing,
    Completed,
    Partial,
    Failed,
}

/// How a finished conversion task ends: its state, its number of chunks
/// and its message.
#[derive(Debug)]
pub struct TaskOutcome {
    pub status: TaskStatus,
    pub total_chunks: u32,
    pub message: String,
}

/// The strings joined with `sep` between each two.
pub open spec fn joined(parts: Seq<String>, sep: Seq<char>) -> Seq<char>
    decreases parts.len(),
{
    if parts.len() == 0 {
        Seq::empty()
    } else if parts.len() == 1 {
        parts[0]@
    } else {
        joined(parts.drop_last(), sep) + sep + parts.last()@
    }
}

/// The strings joined with `sep` between each two.
pub fn join_strings(parts: &Vec<String>, sep: &str) -> (r: String)
    ensures
        r@ == joined(parts@, sep@),
{
    let mut r = String::new();
    let mut i: usize = 0;
    while i < parts.len()
        invariant
            i <= parts.len(),
            r@ == joined(parts@.take(i as int), sep@),
        decreases parts.len() - i,
    {
        assert(parts@.take(i + 1).drop_last() =~= parts@.take(i as int));
        if i > 0 {
            r.push_str(sep);
        }
        r.push_str(parts[i].as_str());
        i = i + 1;
    }
    assert(parts@.take(parts.len() as int) =~= parts@);
    r
}

/// How a finished conversion ends: completed when the document has no
/// error, partial otherwise with the errors joined by `; `; the number of
/// chunks is at least 1 and capped at `u32::MAX`.
pub fn task_outcome(chunk_count: usize, errors: &Vec<String>) -> (r: TaskOutcome)
    ensures
        r.total_chunks == (if chunk_count == 0 {
            1
        } else if chunk_count > u32::MAX {
            u32::MAX as int
        } else {
            chunk_count as int
        }),
        errors.len() == 0 ==> r.status is Completed && r.message@ == "Conversion completed"@,
        errors.len() > 0 ==> r.status is Partial && r.message@ == joined(errors@, "; "@),
{
    let total_chunks: u32 = if chunk_count == 0 {
        1
    } else if chunk_count as u64 > 4294967295u64 {
        4294967295u32
    } else {
        chunk_count as u32
    };
    if errors.len() == 0 {
        TaskOutcome { status: TaskStatus::Completed, total_chunks, message: owned("Conversion completed") }
    } else {
        TaskOutcome { status: TaskStatus::Partial, total_chunks, message: join_strings(errors, "; ") }
    }
}

/// The settings of the web service that its clients of Docling Serve use.
#[derive(Debug, Clone)]
pub struct ServiceSettings {
    pub docling_base_url: String,
    pub openai_base_url: String,
    pub vlm_pipeline_model: String,
    pub picture_description_model: String,
    pub code_formula_model: String,
}

/// The client of the service's settings: its base URL and VLM bundle; the
/// key sent to Docling Serve is the OpenAI key of the environment, or the
/// Docling key where there is none; the OpenAI key and the tenant come from
/// the environment when the client is built.
pub fn create_docling_client(settings: &ServiceSettings, env: &crate::config::EnvSettings) -> (r:
    Result<crate::client::DoclingClient>)
    ensures
        r matches Ok(c) && c.body_limit() is None && c.settings().base_url
            == settings.docling_base_url && c.settings().openai_base_url == settings.openai_base_url
            && c.settings().vlm_pipeline_model == settings.vlm_pipeline_model
            && c.settings().picture_description_model == settings.picture_description_model
            && c.settings().code_formula_model == settings.code_formula_model && opt_text(
            c.settings().openai_api_key,
        ) == opt_text(env.openai_api_key) && opt_text(c.settings().api_key) == (if env.openai_api_key is Some {
            opt_text(env.openai_api_key)
        } else {
            opt_text(env.docling_api_key)
        }) && opt_text(c.settings().tenant_id) == opt_text(env.tenant_id)
            && c.settings().request_timeout is None,
{
    let config = crate::config::DoclingRuntimeConfig {
        docling_base_url: settings.docling_base_url.clone(),
        openai_base_url: settings.openai_base_url.clone(),
        vlm_pipeline_model: settings.vlm_pipeline_model.clone(),
        picture_description_model: settings.picture_description_model.clone(),
        code_formula_model: settings.code_formula_model.clone(),
        api_key: copy_opt(&env.openai_api_key),
        tenant_id: None,
        openai_api_key: None,
        request_timeout: None,
        task_timeout: None,
    };
    crate::client::build_docling_client(config, env)
}

/// The request of an uploaded file of a task: the input converted into the
/// task's format with options for its kind under the task's behaviour,
/// written to `output_dir`, overwriting. An input of unknown kind, or a
/// format that does not parse, is its error.
pub fn task_file_request(input: crate::document::InputDocument, config: &TaskConfig, output_dir: &str) -> (r:
    Result<crate::processor::FileConvertRequest>)
    ensures
        match crate::document::input_kind_of(input) {
            None => r matches Err(e) && crate::document::kind_result(input, Err(e)),
            Some(k) => match crate::document::format_named(token(config.format@)) {
                None => r matches Err(e) && is_validation(
                    e,
                    "format"@,
                    "unsupported output format: "@ + token(config.format@),
                ),
                Some(f) => r matches Ok(fr) && fr.request.input == input
                    && fr.request.output_formats@ == seq![f] && fr.selected_output == f
                    && fr.overwrite && fr.output_dir@ == output_dir@
                    && crate::config::options_fit_parts(
                    k,
                    config.chunker,
                    chunking_view(config.chunking_options),
                    config.pipeline,
                    fr.request.options,
                ),
            },
        },
{
    let input_kind = match input.kind() {
        Ok(k) => k,
        Err(e) => return Err(e),
    };
    let output_format = match parse_output_format(config.format.as_str()) {
        Ok(f) => f,
        Err(e) => return Err(e),
    };
    let behavior = behavior_from_task_config(config);
    let options = match crate::config::build_convert_options(input_kind, &behavior) {
        Ok(o) => o,
        Err(e) => return Err(e),
    };
    let mut output_formats: Vec<OutputFormat> = Vec::new();
    output_formats.push(output_format);
    assert(output_formats@ =~= seq![output_format]);
    Ok(
        crate::processor::FileConvertRequest {
            request: crate::document::ConvertRequest { input, output_formats, options },
            output_dir: crate::strings::owned(output_dir),
            selected_output: output_format,
            overwrite: true,
        },
    )
}

/// The remote options of a URL task: its chunker, chunking options,
/// pipeline and picture description preset.
pub fn task_remote_options(config: &TaskConfig) -> (r: crate::document::RemoteConvertOptions)
    ensures
        r.chunker == config.chunker,
        chunking_view(r.chunking) == chunking_view(config.chunking_options),
        r.pipeline == config.pipeline,
        opt_text(r.picture_description_preset) == opt_text(config.picture_description_preset),
{
    let behavior = behavior_from_task_config(config);
    crate::document::RemoteConvertOptions {
        chunker: behavior.chunker,
        chunking: behavior.chunking,
        pipeline: behavior.pipeline,
        picture_description_preset: copy_opt(&config.picture_description_preset),
    }
}

} // verus!
