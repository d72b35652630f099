//! The rules of the command line: the values its options take, the
//! behaviour and settings they select, and which input files are converted.
use vstd::prelude::*;

use crate::config::{
    copy_opt, opt_text, secs_duration, secs_value, timeout_setting, ConversionBehavior,
    DoclingRuntimeConfig, EnvSettings,
};
use crate::document::{
    chunker_named, chunking_view, format_named, pipeline_named, ChunkerKind, ChunkingOptions,
    OutputFormat, PipelineKind,
};
use crate::error::{error_text, is_validation, PdfConvertError, Result};
use crate::input_kind::{first_alias, kind_formats_value, kind_of_path, kind_order, requires_override, InputKind};
use crate::paths::file_name;
use crate::sorting::text_lt;
use crate::strings::{owned, parse_bounded, parse_unsigned, token};

verus! {

/// The text of a validation error of `parameter` for `reason`.
pub open spec fn validation_text(parameter: Seq<char>, reason: Seq<char>) -> Seq<char> {
    "Validation error for '"@ + parameter + "': "@ + reason
}

/// `r` is the value that `named` gives, or the text of the validation error
/// of `parameter` that names the token `t` after `prefix`.
pub open spec fn option_value<T>(
    r: core::result::Result<T, String>,
    named: Option<T>,
    parameter: Seq<char>,
    prefix: Seq<char>,
    t: Seq<char>,
) -> bool {
    match named {
        Some(v) => r == Ok::<T, String>(v),
        None => r matches Err(m) && m@ == validation_text(parameter, prefix + t),
    }
}

fn message_of(e: PdfConvertError) -> (m: String)
    ensures
        m@ == error_text(e),
{
    e.display()
}

/// The value of `--format`.
pub fn parse_output_format(value: &str) -> (r: core::result::Result<OutputFormat, String>)
    ensures
        option_value(
            r,
            format_named(token(value@)),
            "format"@,
            "unsupported output format: "@,
            token(value@),
        ),
{
    match OutputFormat::parse(value) {
        Ok(f) => Ok(f),
        Err(e) => Err(message_of(e)),
    }
}

/// The value of `--input-format`.
pub fn parse_input_format(value: &str) -> (r: core::result::Result<InputKind, String>)
    ensures
        option_value(
            r,
            first_alias(kind_order(), token(value@)),
            "input_format"@,
            "unsupported input format: "@,
            token(value@),
        ),
{
    match InputKind::parse_format(value) {
        Ok(k) => Ok(k),
        Err(e) => Err(message_of(e)),
    }
}

/// The value of `--chunker`.
pub fn parse_chunker(value: &str) -> (r: core::result::Result<ChunkerKind, String>)
    ensures
        option_value(
            r,
            chunker_named(token(value@)),
            "chunker"@,
            "unsupported chunker: "@,
            token(value@),
        ),
{
    match ChunkerKind::parse(value) {
        Ok(c) => Ok(c),
        Err(e) => Err(message_of(e)),
    }
}

/// The value of `--pipeline`.
pub fn parse_pipeline(value: &str) -> (r: core::result::Result<PipelineKind, String>)
    ensures
        option_value(
            r,
            pipeline_named(token(value@)),
            "pipeline"@,
            "unsupported pipeline: "@,
            token(value@),
        ),
{
    match PipelineKind::parse(value) {
        Ok(p) => Ok(p),
        Err(e) => Err(message_of(e)),
    }
}

/// A count of at least 1: a value that is no `u32` is an invalid integer,
/// and 0 is refused.
pub fn parse_positive_u32(value: &str) -> (r: core::result::Result<u32, String>)
    ensures
        match parse_unsigned(value@, u32::MAX as int) {
            Some(n) => if n > 0 {
                r == Ok::<u32, String>(n as u32)
            } else {
                r matches Err(m) && m@ == "value must be 1 or greater"@
            },
            None => r matches Err(m) && m@ == "invalid integer value: "@ + value@,
        },
{
    match parse_bounded(value, 4294967295u64) {
        Some(n) => {
            assert(u32::MAX as int == 4294967295u64 as int);
            if n > 0 {
                Ok(n as u32)
            } else {
                Err(owned("value must be 1 or greater"))
            }
        },
        None => {
            let mut m = owned("invalid integer value: ");
            m.push_str(value);
            Err(m)
        },
    }
}

/// The options of the command line, each with its value after parsing.
#[derive(Debug, Clone)]
pub struct Args {
    pub input_files: Vec<String>,
    pub output_dir: String,
    pub docling_base_url: String,
    pub format: OutputFormat,
    pub input_format: Option<InputKind>,
    pub chunker: ChunkerKind,
    pub use_markdown_tables: bool,
    pub use_markdown_images: bool,
    pub image_placeholder: String,
    pub include_raw_text: bool,
    pub max_tokens: Option<u32>,
    pub tokenizer: Option<String>,
    pub merge_peers: bool,
    pub pipeline: Option<PipelineKind>,
    pub openai_base_url: Option<String>,
    pub vlm_pipeline_model: Option<String>,
    pub picture_description_model: Option<String>,
    pub code_formula_model: Option<String>,
    pub overwrite: bool,
}

/// An optional string, or the empty string.
pub open spec fn or_empty(o: Option<String>) -> Seq<char> {
    match o {
        Some(s) => s@,
        None => Seq::empty(),
    }
}

fn string_or_empty(o: &Option<String>) -> (r: String)
    ensures
        r@ == or_empty(*o),
{
    match o {
        Some(s) => s.clone(),
        None => String::new(),
    }
}

/// The chunking options that the command-line options give.
pub open spec fn args_chunking(a: Args) -> (bool, bool, Seq<char>, bool, Option<u32>, Option<Seq<char>>, bool) {
    (
        a.use_markdown_tables,
        a.use_markdown_images,
        a.image_placeholder@,
        a.include_raw_text,
        a.max_tokens,
        opt_text(a.tokenizer),
        a.merge_peers,
    )
}

impl Args {
    /// The conversion behaviour that the options select: the chunker, each
    /// chunking option as given, and the pipeline.
    pub fn behavior(&self) -> (r: ConversionBehavior)
        ensures
            r.chunker == self.chunker,
            chunking_view(r.chunking) == args_chunking(*self),
            r.pipeline == self.pipeline,
    {
        ConversionBehavior {
            chunker: self.chunker,
            chunking: ChunkingOptions {
                use_markdown_tables: self.use_markdown_tables,
                use_markdown_images: self.use_markdown_images,
                image_placeholder: self.image_placeholder.clone(),
                include_raw_text: self.include_raw_text,
                max_tokens: self.max_tokens,
                tokenizer: copy_opt(&self.tokenizer),
                merge_peers: self.merge_peers,
            },
            pipeline: self.pipeline,
        }
    }

    /// The settings of Docling Serve: the base URL and VLM values of the
    /// options (empty when not given), the keys and tenant of the
    /// environment, and the timeouts of the environment when they spell whole
    /// seconds.
    pub fn runtime_config(&self, env: &EnvSettings) -> (r: DoclingRuntimeConfig)
        ensures
            r.docling_base_url@ == self.docling_base_url@,
            r.openai_base_url@ == or_empty(self.openai_base_url),
            r.vlm_pipeline_model@ == or_empty(self.vlm_pipeline_model),
            r.picture_description_model@ == or_empty(self.picture_description_model),
            r.code_formula_model@ == or_empty(self.code_formula_model),
            opt_text(r.api_key) == opt_text(env.docling_api_key),
            opt_text(r.tenant_id) == opt_text(env.tenant_id),
            opt_text(r.openai_api_key) == opt_text(env.openai_api_key),
            r.request_timeout == match secs_value(opt_text(env.http_timeout_secs)) {
                Some(n) => Some(secs_duration(n)),
                None => None,
            },
            r.task_timeout == match secs_value(opt_text(env.task_timeout_secs)) {
                Some(n) => Some(secs_duration(n)),
                None => None,
            },
    {
        DoclingRuntimeConfig {
            docling_base_url: self.docling_base_url.clone(),
            openai_base_url: string_or_empty(&self.openai_base_url),
            vlm_pipeline_model: string_or_empty(&self.vlm_pipeline_model),
            picture_description_model: string_or_empty(&self.picture_description_model),
            code_formula_model: string_or_empty(&self.code_formula_model),
            api_key: copy_opt(&env.docling_api_key),
            tenant_id: copy_opt(&env.tenant_id),
            openai_api_key: copy_opt(&env.openai_api_key),
            request_timeout: timeout_setting(&env.http_timeout_secs),
            task_timeout: timeout_setting(&env.task_timeout_secs),
        }
    }
}

/// What the file system holds at a path given on the command line.
#[derive(Debug, Clone)]
pub enum PathEntry {
    /// A file.
    File,
    /// A directory, with the paths of its entries that are files.
    Directory(Vec<String>),
    /// Nothing that can be read.
    Missing,
}

/// The text of a path list.
pub open spec fn path_texts(v: Seq<String>) -> Seq<Seq<char>> {
    v.map_values(|s: String| s@)
}

/// The paths of a list that name a detectable kind, in order.
pub open spec fn supported_paths(v: Seq<Seq<char>>) -> Seq<Seq<char>>
    decreases v.len(),
{
    if v.len() == 0 {
        Seq::empty()
    } else if kind_of_path(v.last()) is Some {
        supported_paths(v.drop_last()).push(v.last())
    } else {
        supported_paths(v.drop_last())
    }
}

/// The reason why the file at `path` is refused: an ambiguous extension asks
/// for `--input-format`, any other is unsupported.
pub open spec fn refusal_reason(path: Seq<char>) -> Seq<char> {
    let name = match file_name(path) {
        Some(n) => n,
        None => Seq::empty(),
    };
    if requires_override(name, None) {
        "ambiguous input type for '"@ + path
            + "'; use --input-format to choose the Docling source format"@
    } else {
        "unsupported file type for '"@ + path + "'"@
    }
}

/// The files that one command-line path contributes: a file of a detectable
/// kind itself (any other file is a validation error of `input_path`), the
/// files of a directory that have a detectable kind, nothing otherwise.
pub fn collect_path_files(path: &str, entry: &PathEntry) -> (r: Result<Vec<String>>)
    ensures
        match entry {
            PathEntry::File => if kind_of_path(path@) is Some {
                r matches Ok(v) && path_texts(v@) == seq![path@]
            } else {
                r matches Err(e) && is_validation(e, "input_path"@, refusal_reason(path@))
            },
            PathEntry::Directory(entries) => r matches Ok(v) && path_texts(v@) == supported_paths(
                path_texts(entries@),
            ),
            PathEntry::Missing => r matches Ok(v) && v@.len() == 0,
        },
{
    match entry {
        PathEntry::File => {
            if crate::document::supported_input_kind(path) {
                let mut v: Vec<String> = Vec::new();
                v.push(owned(path));
                assert(path_texts(v@) =~= seq![path@]);
                Ok(v)
            } else {
                Err(rejected_input_file(path))
            }
        },
        PathEntry::Directory(entries) => {
            let mut v: Vec<String> = Vec::new();
            let mut i: usize = 0;
            while i < entries.len()
                invariant
                    i <= entries.len(),
                    path_texts(v@) == supported_paths(path_texts(entries@.take(i as int))),
                decreases entries.len() - i,
            {
                assert(path_texts(entries@.take(i + 1)).drop_last() =~= path_texts(
                    entries@.take(i as int),
                ));
                assert(path_texts(entries@.take(i + 1)).last() == entries@[i as int]@);
                if crate::document::supported_input_kind(entries[i].as_str()) {
                    v.push(entries[i].clone());
                    assert(path_texts(v@) =~= path_texts(v@.drop_last()).push(v@.last()@));
                }
                i = i + 1;
            }
            assert(entries@.take(entries.len() as int) =~= entries@);
            Ok(v)
        },
        PathEntry::Missing => Ok(Vec::new()),
    }
}

/// The error for a file of the command line whose kind is not detected.
pub fn rejected_input_file(path: &str) -> (e: PdfConvertError)
    ensures
        is_validation(e, "input_path"@, refusal_reason(path@)),
{
    let name = match crate::paths::file_name_of(path) {
        Some(n) => n,
        None => String::new(),
    };
    let reason = if InputKind::requires_explicit_override(name.as_str(), None) {
        let mut text = owned("ambiguous input type for '");
        text.push_str(path);
        text.push_str("'; use --input-format to choose the Docling source format");
        text
    } else {
        let mut text = owned("unsupported file type for '");
        text.push_str(path);
        text.push_str("'");
        text
    };
    PdfConvertError::validation_error("input_path", reason.as_str())
}

/// The one file that an explicit `--input-format` converts: exactly one
/// path must be given, and it must be a file rather than a directory.
pub fn collect_override_input_file(args: &Args, input_kind: InputKind, entry: &PathEntry) -> (r:
    Result<Vec<String>>)
    ensures
        args.input_files.len() != 1 ==> (r matches Err(e) && is_validation(
            e,
            "input_format"@,
            "--input-format "@ + kind_formats_value(input_kind)
                + " requires exactly one input file path"@,
        )),
        args.input_files.len() == 1 ==> match entry {
            PathEntry::Directory(_) => r matches Err(e) && is_validation(
                e,
                "input_format"@,
                "--input-format "@ + kind_formats_value(input_kind)
                    + " only supports a single file input, not directory scanning"@,
            ),
            PathEntry::Missing => r matches Err(e) && is_validation(
                e,
                "input_path"@,
                "input file does not exist: "@ + args.input_files@[0]@,
            ),
            PathEntry::File => r matches Ok(v) && path_texts(v@) == seq![args.input_files@[0]@],
        },
{
    if args.input_files.len() != 1 {
        let mut reason = owned("--input-format ");
        reason.push_str(input_kind.from_formats_value());
        reason.push_str(" requires exactly one input file path");
        return Err(PdfConvertError::validation_error("input_format", reason.as_str()));
    }
    let path = &args.input_files[0];
    match entry {
        PathEntry::Directory(_) => {
            let mut reason = owned("--input-format ");
            reason.push_str(input_kind.from_formats_value());
            reason.push_str(" only supports a single file input, not directory scanning");
            Err(PdfConvertError::validation_error("input_format", reason.as_str()))
        },
        PathEntry::Missing => {
            let mut reason = owned("input file does not exist: ");
            reason.push_str(path.as_str());
            Err(PdfConvertError::validation_error("input_path", reason.as_str()))
        },
        PathEntry::File => {
            let mut v: Vec<String> = Vec::new();
            v.push(path.clone());
            assert(path_texts(v@) =~= seq![args.input_files@[0]@]);
            Ok(v)
        },
    }
}

/// The summary of the files that failed: their number, then each path with
/// its error in brackets, separated by commas.
pub open spec fn failures_text(failed: Seq<(String, String)>) -> Seq<char>
    decreases failed.len(),
{
    if failed.len() == 0 {
        Seq::empty()
    } else if failed.len() == 1 {
        failed[0].0@ + " ("@ + failed[0].1@ + ")"@
    } else {
        failures_text(failed.drop_last()) + ", "@ + failed.last().0@ + " ("@ + failed.last().1@
            + ")"@
    }
}

/// Where a run writes the output of `file_path`: the output directory, the
/// file's stem (`output` for a path without a file name) and the format's
/// extension.
pub fn batch_output_path(args: &Args, file_path: &str) -> (r: String)
    ensures
        r@ == crate::processor::output_path_of(args.output_dir@, file_path@, args.format),
{
    crate::processor::DocumentConverter::calculate_output_path(args.output_dir.as_str(), file_path, args.format)
}

/// Whether a run skips a file: its output exists and `--overwrite` is not
/// given.
pub fn file_step(overwrite: bool, output_exists: bool) -> (skip: bool)
    ensures
        skip == (output_exists && !overwrite),
{
    output_exists && !overwrite
}

/// How a run ends once every file was tried: success when none failed,
/// else the error that lists the failed files with their errors.
pub fn run_outcome(failed: &Vec<(String, String)>) -> (r: Result<()>)
    ensures
        failed@.len() == 0 <==> r is Ok,
        r matches Err(e) ==> crate::error::is_operation(
            e,
            "converting input files"@,
            crate::strings::dec(failed.len() as nat) + " file(s) failed: "@ + failures_text(failed@),
        ),
{
    if failed.len() == 0 {
        Ok(())
    } else {
        Err(failure_summary(failed))
    }
}

/// The error of a run in which some files failed.
pub fn failure_summary(failed: &Vec<(String, String)>) -> (e: PdfConvertError)
    ensures
        crate::error::is_operation(
            e,
            "converting input files"@,
            crate::strings::dec(failed.len() as nat) + " file(s) failed: "@ + failures_text(failed@),
        ),
{
    let mut list = String::new();
    let mut i: usize = 0;
    while i < failed.len()
        invariant
            i <= failed.len(),
            list@ == failures_text(failed@.take(i as int)),
        decreases failed.len() - i,
    {
        assert(failed@.take(i + 1).drop_last() =~= failed@.take(i as int));
        if i > 0 {
            list.push_str(", ");
        }
        list.push_str(failed[i].0.as_str());
        list.push_str(" (");
        list.push_str(failed[i].1.as_str());
        list.push_str(")");
        i = i + 1;
    }
    assert(failed@.take(failed.len() as int) =~= failed@);
    let mut message = String::new();
    crate::strings::push_dec(&mut message, failed.len() as u64);
    message.push_str(" file(s) failed: ");
    message.push_str(list.as_str());
    PdfConvertError::operation_error("converting input files", message.as_str())
}

/// The key by which input files are ordered: their file name.
pub open spec fn name_key(p: Seq<char>) -> Option<Seq<char>> {
    file_name(p)
}

/// The order of keys: a path without a file name first, then file names in
/// the order of their text.
pub open spec fn key_le(a: Option<Seq<char>>, b: Option<Seq<char>>) -> bool {
    match a {
        None => true,
        Some(x) => match b {
            None => false,
            Some(y) => !text_lt(y, x),
        },
    }
}

/// `p` inserted into `s` after every path whose key is not greater.
pub open spec fn insert_by_name(s: Seq<Seq<char>>, p: Seq<char>) -> Seq<Seq<char>>
    decreases s.len(),
{
    if s.len() == 0 {
        seq![p]
    } else if key_le(name_key(s.last()), name_key(p)) {
        s.push(p)
    } else {
        insert_by_name(s.drop_last(), p).push(s.last())
    }
}

/// The paths in the order of their file names; paths with equal names keep
/// their order.
pub open spec fn sorted_by_name(s: Seq<Seq<char>>) -> Seq<Seq<char>>
    decreases s.len(),
{
    if s.len() == 0 {
        s
    } else {
        insert_by_name(sorted_by_name(s.drop_last()), s.last())
    }
}

/// Every path's key is not greater than any later one's.
pub open spec fn name_ordered(s: Seq<Seq<char>>) -> bool {
    forall|i: int, j: int|
        0 <= i < j < s.len() ==> key_le(name_key(#[trigger] s[i]), name_key(#[trigger] s[j]))
}

proof fn lemma_key_le_total(a: Option<Seq<char>>, b: Option<Seq<char>>)
    ensures
        key_le(a, b) || key_le(b, a),
{
    if let (Some(x), Some(y)) = (a, b) {
        crate::sorting::lemma_text_lt_total(x, y);
    }
}

proof fn lemma_key_le_transitive(a: Option<Seq<char>>, b: Option<Seq<char>>, c: Option<Seq<char>>)
    requires
        key_le(a, b),
        key_le(b, c),
    ensures
        key_le(a, c),
{
    if let (Some(x), Some(y), Some(z)) = (a, b, c) {
        crate::sorting::lemma_text_lt_total(x, y);
        crate::sorting::lemma_text_lt_total(y, z);
        crate::sorting::lemma_text_lt_total(x, z);
        if text_lt(z, x) {
            if x != y && y != z {
                crate::sorting::lemma_text_lt_transitive(x, y, z);
            }
        }
    }
}

proof fn lemma_insert_by_name(s: Seq<Seq<char>>, p: Seq<char>)
    ensures
        insert_by_name(s, p).to_multiset() =~= s.to_multiset().insert(p),
        forall|x: Seq<char>| #[trigger] insert_by_name(s, p).contains(x) ==> x == p || s.contains(x),
        name_ordered(s) ==> name_ordered(insert_by_name(s, p)),
    decreases s.len(),
{
    broadcast use vstd::seq_lib::group_to_multiset_ensures;

    if s.len() == 0 {
        assert(s.push(p) =~= seq![p]);
    } else if key_le(name_key(s.last()), name_key(p)) {
        let r = s.push(p);
        assert forall|x: Seq<char>| #[trigger] r.contains(x) implies x == p || s.contains(x) by {
            let k = choose|k: int| 0 <= k < r.len() && r[k] == x;
            if k < s.len() {
                assert(s[k] == x);
            }
        }
        if name_ordered(s) {
            assert forall|i: int, j: int| 0 <= i < j < r.len() implies key_le(
                name_key(#[trigger] r[i]),
                name_key(#[trigger] r[j]),
            ) by {
                if j == s.len() {
                    if i < s.len() - 1 {
                        assert(key_le(name_key(s[i]), name_key(s[s.len() - 1])));
                        lemma_key_le_transitive(name_key(s[i]), name_key(s.last()), name_key(p));
                    }
                } else {
                    assert(r[i] == s[i] && r[j] == s[j]);
                }
            }
        }
    } else {
        let t = s.drop_last();
        let last = s.last();
        lemma_insert_by_name(t, p);
        let inner = insert_by_name(t, p);
        let r = inner.push(last);
        assert(s =~= t.push(last));
        assert forall|x: Seq<char>| #[trigger] r.contains(x) implies x == p || s.contains(x) by {
            let k = choose|k: int| 0 <= k < r.len() && r[k] == x;
            if k < inner.len() {
                assert(inner.contains(x));
                if t.contains(x) {
                    let m = choose|m: int| 0 <= m < t.len() && t[m] == x;
                    assert(s[m] == x);
                }
            } else {
                assert(s[s.len() - 1] == x);
            }
        }
        if name_ordered(s) {
            assert(name_ordered(t)) by {
                assert forall|i: int, j: int| 0 <= i < j < t.len() implies key_le(
                    name_key(#[trigger] t[i]),
                    name_key(#[trigger] t[j]),
                ) by {
                    assert(t[i] == s[i] && t[j] == s[j]);
                }
            }
            lemma_key_le_total(name_key(last), name_key(p));
            assert forall|i: int, j: int| 0 <= i < j < r.len() implies key_le(
                name_key(#[trigger] r[i]),
                name_key(#[trigger] r[j]),
            ) by {
                if j == inner.len() {
                    let x = r[i];
                    assert(inner[i] == x);
                    assert(inner.contains(x));
                    if x != p {
                        let m = choose|m: int| 0 <= m < t.len() && t[m] == x;
                        assert(s[m] == x);
                        assert(key_le(name_key(s[m]), name_key(s[s.len() - 1])));
                    }
                } else {
                    assert(r[i] == inner[i] && r[j] == inner[j]);
                }
            }
        }
    }
}

/// The paths of `s` whose key is `k`, in their order.
pub open spec fn with_key(s: Seq<Seq<char>>, k: Option<Seq<char>>) -> Seq<Seq<char>>
    decreases s.len(),
{
    if s.len() == 0 {
        Seq::empty()
    } else if name_key(s.last()) == k {
        with_key(s.drop_last(), k).push(s.last())
    } else {
        with_key(s.drop_last(), k)
    }
}

proof fn lemma_insert_keeps_key_order(s: Seq<Seq<char>>, p: Seq<char>, k: Option<Seq<char>>)
    ensures
        with_key(insert_by_name(s, p), k) == with_key(s.push(p), k),
    decreases s.len(),
{
    assert(s.push(p).drop_last() =~= s);
    if s.len() == 0 {
        assert(seq![p] =~= s.push(p));
    } else if key_le(name_key(s.last()), name_key(p)) {
    } else {
        let t = s.drop_last();
        let last = s.last();
        lemma_insert_keeps_key_order(t, p, k);
        let inner = insert_by_name(t, p);
        assert(inner.push(last).drop_last() =~= inner);
        assert(t.push(p).drop_last() =~= t);
        assert(s =~= t.push(last));
        if let Some(x) = name_key(p) {
            crate::sorting::lemma_text_lt_irreflexive(x);
        }
        assert(name_key(last) != name_key(p));
        assert(with_key(inner.push(last), k) == if name_key(last) == k {
            with_key(inner, k).push(last)
        } else {
            with_key(inner, k)
        });
        assert(with_key(t.push(p), k) == if name_key(p) == k {
            with_key(t, k).push(p)
        } else {
            with_key(t, k)
        });
        assert(with_key(s, k) == if name_key(last) == k {
            with_key(t, k).push(last)
        } else {
            with_key(t, k)
        });
        assert(with_key(s.push(p), k) == if name_key(p) == k {
            with_key(s, k).push(p)
        } else {
            with_key(s, k)
        });
    }
}

/// The sort by file name is stable: the paths of each file name come out
/// in the order in which they came in.
pub proof fn lemma_sort_by_name_stable(s: Seq<Seq<char>>, k: Option<Seq<char>>)
    ensures
        with_key(sorted_by_name(s), k) == with_key(s, k),
    decreases s.len(),
{
    if s.len() > 0 {
        lemma_sort_by_name_stable(s.drop_last(), k);
        lemma_insert_keeps_key_order(sorted_by_name(s.drop_last()), s.last(), k);
        let u = sorted_by_name(s.drop_last());
        assert(u.push(s.last()).drop_last() =~= u);
        assert(s.drop_last().push(s.last()) =~= s);
    }
}

/// The order of input files is a sort by file name: it holds the same
/// paths, each as often, and each path's file name is not greater than any
/// later one's; `lemma_sort_by_name_stable` states that it is stable.
pub proof fn lemma_sorted_by_name(s: Seq<Seq<char>>)
    ensures
        sorted_by_name(s).to_multiset() =~= s.to_multiset(),
        name_ordered(sorted_by_name(s)),
    decreases s.len(),
{
    broadcast use vstd::seq_lib::group_to_multiset_ensures;

    if s.len() > 0 {
        lemma_sorted_by_name(s.drop_last());
        lemma_insert_by_name(sorted_by_name(s.drop_last()), s.last());
        assert(s =~= s.drop_last().push(s.last()));
    }
}

fn key_le_exec(a: &Option<String>, b: &Option<String>) -> (r: bool)
    ensures
        r == key_le(opt_text(*a), opt_text(*b)),
{
    match a {
        None => true,
        Some(x) => match b {
            None => false,
            Some(y) => crate::sorting::compare_text(y.as_str(), x.as_str()) >= 0,
        },
    }
}

fn name_key_of(p: &String) -> (r: Option<String>)
    ensures
        opt_text(r) == name_key(p@),
{
    crate::paths::file_name_of(p.as_str())
}

/// The paths in the order of their file names, paths with equal names
/// keeping their order.
pub fn sort_by_file_name(paths: &Vec<String>) -> (r: Vec<String>)
    ensures
        path_texts(r@) == sorted_by_name(path_texts(paths@)),
{
    let mut r: Vec<String> = Vec::new();
    let mut i: usize = 0;
    while i < paths.len()
        invariant
            i <= paths.len(),
            path_texts(r@) == sorted_by_name(path_texts(paths@.take(i as int))),
        decreases paths.len() - i,
    {
        let ghost before = path_texts(r@);
        assert(path_texts(paths@.take(i + 1)).drop_last() =~= path_texts(paths@.take(i as int)));
        assert(path_texts(paths@.take(i + 1)).last() == paths@[i as int]@);
        let x = paths[i].clone();
        let kx = name_key_of(&x);
        let mut j: usize = r.len();
        assert(before.take(j as int) =~= before);
        assert(before.skip(j as int) =~= Seq::<Seq<char>>::empty());
        loop
            invariant
                j <= r.len(),
                path_texts(r@) == before,
                opt_text(kx) == name_key(x@),
                insert_by_name(before, x@) == insert_by_name(before.take(j as int), x@) + before.skip(
                    j as int,
                ),
            ensures
                j <= r.len(),
                path_texts(r@) == before,
                insert_by_name(before, x@) == before.take(j as int).push(x@) + before.skip(j as int),
            decreases j,
        {
            if j == 0 {
                assert(before.take(0) =~= Seq::<Seq<char>>::empty());
                assert(insert_by_name(Seq::<Seq<char>>::empty(), x@) =~= seq![x@]);
                break;
            }
            let kj = name_key_of(&r[j - 1]);
            assert(before.take(j as int).last() == before[j - 1]);
            if key_le_exec(&kj, &kx) {
                break;
            }
            assert(before.take(j as int).drop_last() =~= before.take(j - 1));
            assert(before.skip(j - 1) =~= seq![before[j - 1]] + before.skip(j as int));
            assert(insert_by_name(before.take(j - 1), x@).push(before[j - 1]) + before.skip(
                j as int,
            ) =~= insert_by_name(before.take(j - 1), x@) + before.skip(j - 1));
            j = j - 1;
        }
        r.insert(j, x);
        assert(path_texts(r@) =~= before.take(j as int).push(paths@[i as int]@) + before.skip(
            j as int,
        ));
        i = i + 1;
    }
    assert(paths@.take(paths.len() as int) =~= paths@);
    r
}

/// The client of the options' settings.
pub fn create_docling_client(args: &Args, env: &EnvSettings) -> (r: Result<crate::client::DoclingClient>)
    ensures
        r matches Ok(c) && c.body_limit() is None && c.settings().base_url@ == args.docling_base_url@,
{
    let config = args.runtime_config(env);
    crate::client::build_docling_client(config, env)
}

/// A path is converted when it is a file whose kind is detected.
pub fn is_supported_input_file(path: &str, is_file: bool) -> (r: bool)
    ensures
        r == (is_file && kind_of_path(path@) is Some),
{
    is_file && crate::document::supported_input_kind(path)
}

/// `fr` converts the document named `name` with `bytes`, of kind `k`, into
/// the chosen format with the options' behaviour, written to the output
/// directory.
pub open spec fn file_request_of(args: Args, name: Seq<char>, bytes: Seq<u8>, k: InputKind, fr: crate::processor::FileConvertRequest) -> bool {
    &&& fr.output_dir@ == args.output_dir@
    &&& fr.selected_output == args.format
    &&& fr.overwrite == args.overwrite
    &&& fr.request.output_formats@ == seq![args.format]
    &&& fr.request.input.filename@ == name
    &&& fr.request.input.bytes@ == bytes
    &&& crate::document::input_kind_of(fr.request.input) == Some(k)
    &&& crate::config::options_fit_parts(
        k,
        args.chunker,
        args_chunking(args),
        args.pipeline,
        fr.request.options,
    )
}

/// The request of one input file of the command line: the document of its
/// path and bytes (of the kind of `--input-format` when given, else the
/// kind its name selects), converted into the chosen format with the
/// options' behaviour, written to the output directory. A path without a
/// file name, or without `--input-format` one whose kind is not detected,
/// is an error.
pub fn file_request(args: &Args, file_path: &str, bytes: Vec<u8>) -> (r: Result<
    crate::processor::FileConvertRequest,
>)
    ensures
        match file_name(file_path@) {
            None => r is Err,
            Some(n) => match args.input_format {
                Some(k) => r matches Ok(fr) && file_request_of(*args, n, bytes@, k, fr)
                    && fr.request.input.input_kind_override == Some(k),
                None => match crate::input_kind::detect(n, None) {
                    None => r is Err,
                    Some(k) => r matches Ok(fr) && file_request_of(*args, n, bytes@, k, fr)
                        && fr.request.input.input_kind_override is None,
                },
            },
        },
{
    let ghost b = bytes@;
    let input = match args.input_format {
        Some(kind) => match crate::document::InputDocument::from_path_and_bytes_with_kind(
            file_path,
            bytes,
            kind,
        ) {
            Ok(d) => d,
            Err(e) => return Err(e),
        },
        None => match crate::document::InputDocument::from_path_and_bytes(file_path, bytes) {
            Ok(d) => d,
            Err(e) => return Err(e),
        },
    };
    let input_kind = match input.kind() {
        Ok(k) => k,
        Err(e) => return Err(e),
    };
    let behavior = args.behavior();
    let options = match crate::config::build_convert_options(input_kind, &behavior) {
        Ok(o) => o,
        Err(e) => return Err(e),
    };
    let mut output_formats: Vec<OutputFormat> = Vec::new();
    output_formats.push(args.format);
    let fr = crate::processor::FileConvertRequest {
        request: crate::document::ConvertRequest { input, output_formats, options },
        output_dir: args.output_dir.clone(),
        selected_output: args.format,
        overwrite: args.overwrite,
    };
    assert(fr.request.output_formats@ =~= seq![args.format]);
    assert(file_request_of(*args, fr.request.input.filename@, b, input_kind, fr));
    Ok(fr)
}

} // verus!
