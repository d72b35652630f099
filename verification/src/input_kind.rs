//! The kinds of input that Docling Serve converts, and how a file name and
//! a media type select one.
use vstd::prelude::*;

use crate::error::{is_validation, PdfConvertError, Result};
use crate::paths::{before_first, before_first_chars, lower_extension, lower_extension_chars};
use crate::strings::{chars_are, lower, lower_chars, to_chars, token, token_chars, trim, trim_chars};

verus! {

/// A source format of Docling Serve.
#[derive(Debug, Clone, Copy, PartialEq, Eq, Structural)]
pub enum InputKind {
    Pdf,
    Docx,
    Pptx,
    Html,
    Asciidoc,
    Markdown,
    Csv,
    Xlsx,
    Odt,
    Ods,
    Odp,
    Epub,
    Email,
    Image,
    XmlUspto,
    XmlJats,
    XmlXbrl,
    XmlDoclang,
    MetsGbs,
    JsonDocling,
    Latex,
    Text,
}

/// Every input kind, in the order in which they are searched.
pub open spec fn kind_order() -> Seq<InputKind> {
    seq![
        InputKind::Pdf,
        InputKind::Docx,
        InputKind::Pptx,
        InputKind::Html,
        InputKind::Asciidoc,
        InputKind::Markdown,
        InputKind::Csv,
        InputKind::Xlsx,
        InputKind::Odt,
        InputKind::Ods,
        InputKind::Odp,
        InputKind::Epub,
        InputKind::Email,
        InputKind::Image,
        InputKind::XmlUspto,
        InputKind::XmlJats,
        InputKind::XmlXbrl,
        InputKind::XmlDoclang,
        InputKind::MetsGbs,
        InputKind::JsonDocling,
        InputKind::Latex,
        InputKind::Text,
    ]
}

/// The kinds that a file name or a media type selects without an explicit
/// override, in the order in which they are searched.
pub open spec fn auto_kinds() -> Seq<InputKind> {
    seq![
        InputKind::Pdf,
        InputKind::Docx,
        InputKind::Pptx,
        InputKind::Html,
        InputKind::Asciidoc,
        InputKind::Markdown,
        InputKind::Csv,
        InputKind::Xlsx,
        InputKind::Odt,
        InputKind::Ods,
        InputKind::Odp,
        InputKind::Epub,
        InputKind::Email,
        InputKind::Image,
        InputKind::Latex,
        InputKind::Text,
    ]
}

/// Whether `e` is one of the file extensions of `k`.
pub open spec fn kind_extension(k: InputKind, e: Seq<char>) -> bool {
    match k {
        InputKind::Pdf => e == "pdf"@,
        InputKind::Docx => e == "docx"@,
        InputKind::Pptx => e == "pptx"@,
        InputKind::Html => e == "html"@ || e == "htm"@ || e == "xhtml"@,
        InputKind::Asciidoc => e == "adoc"@ || e == "asciidoc"@ || e == "asc"@,
        InputKind::Markdown => e == "md"@ || e == "markdown"@,
        InputKind::Csv => e == "csv"@,
        InputKind::Xlsx => e == "xlsx"@,
        InputKind::Odt => e == "odt"@,
        InputKind::Ods => e == "ods"@,
        InputKind::Odp => e == "odp"@,
        InputKind::Epub => e == "epub"@,
        InputKind::Email => e == "eml"@ || e == "msg"@,
        InputKind::Image => e == "png"@ || e == "jpg"@ || e == "jpeg"@ || e == "gif"@ || e == "bmp"@ || e == "tif"@ || e == "tiff"@ || e == "webp"@ || e == "svg"@,
        InputKind::XmlUspto => e == "xml"@,
        InputKind::XmlJats => e == "xml"@,
        InputKind::XmlXbrl => e == "xml"@,
        InputKind::XmlDoclang => e == "xml"@,
        InputKind::MetsGbs => e == "xml"@,
        InputKind::JsonDocling => e == "json"@,
        InputKind::Latex => e == "tex"@,
        InputKind::Text => e == "txt"@,
    }
}

/// Whether `m` is one of the media types of `k`.
pub open spec fn kind_media_type(k: InputKind, m: Seq<char>) -> bool {
    match k {
        InputKind::Pdf => m == "application/pdf"@,
        InputKind::Docx => m == "application/vnd.openxmlformats-officedocument.wordprocessingml.document"@,
        InputKind::Pptx => m == "application/vnd.openxmlformats-officedocument.presentationml.presentation"@,
        InputKind::Html => m == "text/html"@ || m == "application/xhtml+xml"@,
        InputKind::Asciidoc => m == "text/asciidoc"@ || m == "text/x-asciidoc"@,
        InputKind::Markdown => m == "text/markdown"@ || m == "text/x-markdown"@,
        InputKind::Csv => m == "text/csv"@ || m == "application/csv"@,
        InputKind::Xlsx => m == "application/vnd.openxmlformats-officedocument.spreadsheetml.sheet"@,
        InputKind::Odt => m == "application/vnd.oasis.opendocument.text"@,
        InputKind::Ods => m == "application/vnd.oasis.opendocument.spreadsheet"@,
        InputKind::Odp => m == "application/vnd.oasis.opendocument.presentation"@,
        InputKind::Epub => m == "application/epub+zip"@,
        InputKind::Email => m == "message/rfc822"@ || m == "application/vnd.ms-outlook"@,
        InputKind::Image => m == "image/png"@ || m == "image/jpeg"@ || m == "image/gif"@ || m == "image/bmp"@ || m == "image/tiff"@ || m == "image/webp"@ || m == "image/svg+xml"@,
        InputKind::XmlUspto => m == "application/xml"@ || m == "text/xml"@,
        InputKind::XmlJats => m == "application/xml"@ || m == "text/xml"@,
        InputKind::XmlXbrl => m == "application/xml"@ || m == "text/xml"@,
        InputKind::XmlDoclang => m == "application/xml"@ || m == "text/xml"@,
        InputKind::MetsGbs => m == "application/xml"@ || m == "text/xml"@,
        InputKind::JsonDocling => m == "application/json"@ || m == "text/json"@,
        InputKind::Latex => m == "application/x-tex"@ || m == "application/x-latex"@ || m == "text/x-tex"@ || m == "text/x-latex"@,
        InputKind::Text => m == "text/plain"@,
    }
}

/// Whether `a` is one of the names under which `k` is parsed.
pub open spec fn kind_alias(k: InputKind, a: Seq<char>) -> bool {
    match k {
        InputKind::Pdf => a == "pdf"@,
        InputKind::Docx => a == "docx"@,
        InputKind::Pptx => a == "pptx"@,
        InputKind::Html => a == "html"@,
        InputKind::Asciidoc => a == "asciidoc"@ || a == "adoc"@,
        InputKind::Markdown => a == "markdown"@ || a == "md"@,
        InputKind::Csv => a == "csv"@,
        InputKind::Xlsx => a == "xlsx"@,
        InputKind::Odt => a == "odt"@,
        InputKind::Ods => a == "ods"@,
        InputKind::Odp => a == "odp"@,
        InputKind::Epub => a == "epub"@,
        InputKind::Email => a == "email"@ || a == "eml"@ || a == "msg"@,
        InputKind::Image => a == "image"@,
        InputKind::XmlUspto => a == "xml_uspto"@,
        InputKind::XmlJats => a == "xml_jats"@,
        InputKind::XmlXbrl => a == "xml_xbrl"@,
        InputKind::XmlDoclang => a == "xml_doclang"@,
        InputKind::MetsGbs => a == "mets_gbs"@,
        InputKind::JsonDocling => a == "json_docling"@,
        InputKind::Latex => a == "latex"@ || a == "tex"@,
        InputKind::Text => a == "text"@ || a == "txt"@,
    }
}

/// The extension given to files of kind `k`.
pub open spec fn kind_default_extension(k: InputKind) -> Seq<char> {
    match k {
        InputKind::Pdf => "pdf"@,
        InputKind::Docx => "docx"@,
        InputKind::Pptx => "pptx"@,
        InputKind::Html => "html"@,
        InputKind::Asciidoc => "adoc"@,
        InputKind::Markdown => "md"@,
        InputKind::Csv => "csv"@,
        InputKind::Xlsx => "xlsx"@,
        InputKind::Odt => "odt"@,
        InputKind::Ods => "ods"@,
        InputKind::Odp => "odp"@,
        InputKind::Epub => "epub"@,
        InputKind::Email => "eml"@,
        InputKind::Image => "png"@,
        InputKind::XmlUspto => "xml"@,
        InputKind::XmlJats => "xml"@,
        InputKind::XmlXbrl => "xml"@,
        InputKind::XmlDoclang => "xml"@,
        InputKind::MetsGbs => "xml"@,
        InputKind::JsonDocling => "json"@,
        InputKind::Latex => "tex"@,
        InputKind::Text => "txt"@,
    }
}

/// The media type of kind `k` when nothing more specific is known.
pub open spec fn kind_default_media_type(k: InputKind) -> Seq<char> {
    match k {
        InputKind::Pdf => "application/pdf"@,
        InputKind::Docx => "application/vnd.openxmlformats-officedocument.wordprocessingml.document"@,
        InputKind::Pptx => "application/vnd.openxmlformats-officedocument.presentationml.presentation"@,
        InputKind::Html => "text/html"@,
        InputKind::Asciidoc => "text/asciidoc"@,
        InputKind::Markdown => "text/markdown"@,
        InputKind::Csv => "text/csv"@,
        InputKind::Xlsx => "application/vnd.openxmlformats-officedocument.spreadsheetml.sheet"@,
        InputKind::Odt => "application/vnd.oasis.opendocument.text"@,
        InputKind::Ods => "application/vnd.oasis.opendocument.spreadsheet"@,
        InputKind::Odp => "application/vnd.oasis.opendocument.presentation"@,
        InputKind::Epub => "application/epub+zip"@,
        InputKind::Email => "message/rfc822"@,
        InputKind::Image => "image/png"@,
        InputKind::XmlUspto => "application/xml"@,
        InputKind::XmlJats => "application/xml"@,
        InputKind::XmlXbrl => "application/xml"@,
        InputKind::XmlDoclang => "application/xml"@,
        InputKind::MetsGbs => "application/xml"@,
        InputKind::JsonDocling => "application/json"@,
        InputKind::Latex => "application/x-tex"@,
        InputKind::Text => "text/plain"@,
    }
}

/// The value of `from_formats` that Docling Serve expects for `k`.
pub open spec fn kind_formats_value(k: InputKind) -> Seq<char> {
    match k {
        InputKind::Pdf => "pdf"@,
        InputKind::Docx => "docx"@,
        InputKind::Pptx => "pptx"@,
        InputKind::Html => "html"@,
        InputKind::Asciidoc => "asciidoc"@,
        InputKind::Markdown => "md"@,
        InputKind::Csv => "csv"@,
        InputKind::Xlsx => "xlsx"@,
        InputKind::Odt => "odt"@,
        InputKind::Ods => "ods"@,
        InputKind::Odp => "odp"@,
        InputKind::Epub => "epub"@,
        InputKind::Email => "email"@,
        InputKind::Image => "image"@,
        InputKind::XmlUspto => "xml_uspto"@,
        InputKind::XmlJats => "xml_jats"@,
        InputKind::XmlXbrl => "xml_xbrl"@,
        InputKind::XmlDoclang => "xml_doclang"@,
        InputKind::MetsGbs => "mets_gbs"@,
        InputKind::JsonDocling => "json_docling"@,
        InputKind::Latex => "latex"@,
        InputKind::Text => "text"@,
    }
}

/// The progress label shown while a file of kind `k` is read.
pub open spec fn kind_reading_label(k: InputKind) -> Seq<char> {
    match k {
        InputKind::Pdf => "Reading PDF..."@,
        InputKind::Docx => "Reading DOCX..."@,
        InputKind::Pptx => "Reading PPTX..."@,
        InputKind::Html => "Reading HTML..."@,
        InputKind::Asciidoc => "Reading AsciiDoc..."@,
        InputKind::Markdown => "Reading Markdown..."@,
        InputKind::Csv => "Reading CSV..."@,
        InputKind::Xlsx => "Reading XLSX..."@,
        InputKind::Odt => "Reading ODT..."@,
        InputKind::Ods => "Reading ODS..."@,
        InputKind::Odp => "Reading ODP..."@,
        InputKind::Epub => "Reading EPUB..."@,
        InputKind::Email => "Reading email..."@,
        InputKind::Image => "Reading image..."@,
        InputKind::XmlUspto => "Reading XML USPTO..."@,
        InputKind::XmlJats => "Reading XML JATS..."@,
        InputKind::XmlXbrl => "Reading XML XBRL..."@,
        InputKind::XmlDoclang => "Reading XML Docling..."@,
        InputKind::MetsGbs => "Reading METS GBS..."@,
        InputKind::JsonDocling => "Reading JSON Docling..."@,
        InputKind::Latex => "Reading LaTeX..."@,
        InputKind::Text => "Reading text file..."@,
    }
}

/// Whether file names and media types select `k` without an override.
pub open spec fn kind_auto_detect(k: InputKind) -> bool {
    match k {
        InputKind::Pdf => true,
        InputKind::Docx => true,
        InputKind::Pptx => true,
        InputKind::Html => true,
        InputKind::Asciidoc => true,
        InputKind::Markdown => true,
        InputKind::Csv => true,
        InputKind::Xlsx => true,
        InputKind::Odt => true,
        InputKind::Ods => true,
        InputKind::Odp => true,
        InputKind::Epub => true,
        InputKind::Email => true,
        InputKind::Image => true,
        InputKind::XmlUspto => false,
        InputKind::XmlJats => false,
        InputKind::XmlXbrl => false,
        InputKind::XmlDoclang => false,
        InputKind::MetsGbs => false,
        InputKind::JsonDocling => false,
        InputKind::Latex => true,
        InputKind::Text => true,
    }
}

/// Whether `k` is converted with the generic remote options.
pub open spec fn kind_generic_options(k: InputKind) -> bool {
    match k {
        InputKind::Pdf => false,
        InputKind::Docx => true,
        InputKind::Pptx => true,
        InputKind::Html => true,
        InputKind::Asciidoc => true,
        InputKind::Markdown => true,
        InputKind::Csv => true,
        InputKind::Xlsx => true,
        InputKind::Odt => true,
        InputKind::Ods => true,
        InputKind::Odp => true,
        InputKind::Epub => true,
        InputKind::Email => true,
        InputKind::Image => true,
        InputKind::XmlUspto => true,
        InputKind::XmlJats => true,
        InputKind::XmlXbrl => true,
        InputKind::XmlDoclang => true,
        InputKind::MetsGbs => true,
        InputKind::JsonDocling => true,
        InputKind::Latex => true,
        InputKind::Text => false,
    }
}

/// Whether the VLM enrichment applies to `k`.
pub open spec fn kind_supports_vlm(k: InputKind) -> bool {
    match k {
        InputKind::Pdf => true,
        InputKind::Docx => true,
        InputKind::Pptx => false,
        InputKind::Html => false,
        InputKind::Asciidoc => false,
        InputKind::Markdown => true,
        InputKind::Csv => false,
        InputKind::Xlsx => false,
        InputKind::Odt => false,
        InputKind::Ods => false,
        InputKind::Odp => false,
        InputKind::Epub => false,
        InputKind::Email => false,
        InputKind::Image => true,
        InputKind::XmlUspto => false,
        InputKind::XmlJats => false,
        InputKind::XmlXbrl => false,
        InputKind::XmlDoclang => false,
        InputKind::MetsGbs => false,
        InputKind::JsonDocling => false,
        InputKind::Latex => false,
        InputKind::Text => false,
    }
}

/// `k` is selected by the extension or by the media type.
pub open spec fn auto_matches(k: InputKind, ext: Option<Seq<char>>, media: Option<Seq<char>>) -> bool {
    (ext matches Some(e) && kind_extension(k, e)) || (media matches Some(m) && kind_media_type(k, m))
}

/// The first kind of `ks` that the extension or the media type selects.
pub open spec fn first_auto(ks: Seq<InputKind>, ext: Option<Seq<char>>, media: Option<Seq<char>>) -> Option<InputKind>
    decreases ks.len(),
{
    if ks.len() == 0 {
        None
    } else if auto_matches(ks[0], ext, media) {
        Some(ks[0])
    } else {
        first_auto(ks.drop_first(), ext, media)
    }
}

/// The first kind of `ks` parsed under the name `a`.
pub open spec fn first_alias(ks: Seq<InputKind>, a: Seq<char>) -> Option<InputKind>
    decreases ks.len(),
{
    if ks.len() == 0 {
        None
    } else if kind_alias(ks[0], a) {
        Some(ks[0])
    } else {
        first_alias(ks.drop_first(), a)
    }
}

/// The view of an optional string slice.
pub open spec fn opt_str(o: Option<&str>) -> Option<Seq<char>> {
    match o {
        Some(s) => Some(s@),
        None => None,
    }
}

/// The view of an optional character vector.
pub open spec fn opt_chars(o: Option<Vec<char>>) -> Option<Seq<char>> {
    match o {
        Some(v) => Some(v@),
        None => None,
    }
}

/// A media type reduced to its essence: parameters after `;` dropped,
/// trimmed and lower-cased.
pub open spec fn norm_media(o: Option<Seq<char>>) -> Option<Seq<char>> {
    match o {
        Some(v) => Some(lower(trim(before_first(v, ';')))),
        None => None,
    }
}

/// The extension or the media type is one that several kinds share
/// (generic XML or JSON), so that only an explicit override can choose.
pub open spec fn needs_override(ext: Option<Seq<char>>, media: Option<Seq<char>>) -> bool {
    ||| ext == Some("xml"@)
    ||| ext == Some("json"@)
    ||| media == Some("application/xml"@)
    ||| media == Some("text/xml"@)
    ||| media == Some("application/json"@)
    ||| media == Some("text/json"@)
}

/// A file name and a media type need an explicit override.
pub open spec fn requires_override(filename: Seq<char>, media: Option<Seq<char>>) -> bool {
    needs_override(lower_extension(filename), norm_media(media))
}

/// The kind that a file name and a media type select on their own.
pub open spec fn detect(filename: Seq<char>, media: Option<Seq<char>>) -> Option<InputKind> {
    if requires_override(filename, media) {
        None
    } else {
        first_auto(auto_kinds(), lower_extension(filename), norm_media(media))
    }
}

/// The kind of the file named by a path, from its extension alone.
pub open spec fn kind_of_path(p: Seq<char>) -> Option<InputKind> {
    match crate::paths::file_name(p) {
        Some(n) => detect(n, None),
        None => None,
    }
}

/// The media type of an image, from its extension or its media type.
pub open spec fn image_media(ext: Option<Seq<char>>, media: Option<Seq<char>>) -> Seq<char> {
    if ext == Some("jpg"@) || ext == Some("jpeg"@) || media == Some("image/jpeg"@) {
        "image/jpeg"@
    } else if ext == Some("gif"@) || media == Some("image/gif"@) {
        "image/gif"@
    } else if ext == Some("bmp"@) || media == Some("image/bmp"@) {
        "image/bmp"@
    } else if ext == Some("tif"@) || ext == Some("tiff"@) || media == Some("image/tiff"@) {
        "image/tiff"@
    } else if ext == Some("webp"@) || media == Some("image/webp"@) {
        "image/webp"@
    } else if ext == Some("svg"@) || media == Some("image/svg+xml"@) {
        "image/svg+xml"@
    } else {
        "image/png"@
    }
}

/// The extension of an image with the given media type.
pub open spec fn image_ext(media: Option<Seq<char>>) -> Seq<char> {
    if media == Some("image/jpeg"@) {
        "jpg"@
    } else if media == Some("image/gif"@) {
        "gif"@
    } else if media == Some("image/bmp"@) {
        "bmp"@
    } else if media == Some("image/tiff"@) {
        "tiff"@
    } else if media == Some("image/webp"@) {
        "webp"@
    } else if media == Some("image/svg+xml"@) {
        "svg"@
    } else {
        "png"@
    }
}

/// The media type sent for a file of kind `k` with the given normalized
/// extension and media type.
pub open spec fn canonical_media(k: InputKind, ext: Option<Seq<char>>, media: Option<Seq<char>>) -> Seq<char> {
    match k {
        InputKind::Html => if ext == Some("xhtml"@) || media == Some("application/xhtml+xml"@) {
            "application/xhtml+xml"@
        } else {
            kind_default_media_type(k)
        },
        InputKind::Email => if ext == Some("msg"@) || media == Some("application/vnd.ms-outlook"@) {
            "application/vnd.ms-outlook"@
        } else {
            kind_default_media_type(k)
        },
        InputKind::Image => image_media(ext, media),
        _ => kind_default_media_type(k),
    }
}

/// The extension given to a file of kind `k` with the given normalized
/// media type.
pub open spec fn extension_for_media(k: InputKind, media: Option<Seq<char>>) -> Seq<char> {
    match k {
        InputKind::Html => if media == Some("application/xhtml+xml"@) {
            "xhtml"@
        } else {
            kind_default_extension(k)
        },
        InputKind::Email => if media == Some("application/vnd.ms-outlook"@) {
            "msg"@
        } else {
            kind_default_extension(k)
        },
        InputKind::Image => image_ext(media),
        _ => kind_default_extension(k),
    }
}

/// The metadata of one input kind.
#[derive(Debug, Clone, Copy)]
struct InputKindSpec {
    kind: InputKind,
    default_extension: &'static str,
    default_media_type: &'static str,
    from_formats_value: &'static str,
    reading_label: &'static str,
    auto_detect: bool,
    generic_convert_options: bool,
    supports_vlm: bool,
}

/// Whether `o` holds exactly the characters of `s`.
fn opt_is(o: &Option<Vec<char>>, s: &str) -> (r: bool)
    ensures
        r == (opt_chars(*o) == Some(s@)),
{
    match o {
        Some(v) => chars_are(v, s),
        None => false,
    }
}

/// Whether `e` is an extension of `k`.
fn has_extension(k: InputKind, e: &Vec<char>) -> (r: bool)
    ensures
        r == kind_extension(k, e@),
{
    match k {
        InputKind::Pdf => chars_are(e, "pdf"),
        InputKind::Docx => chars_are(e, "docx"),
        InputKind::Pptx => chars_are(e, "pptx"),
        InputKind::Html => chars_are(e, "html") || chars_are(e, "htm") || chars_are(e, "xhtml"),
        InputKind::Asciidoc => chars_are(e, "adoc") || chars_are(e, "asciidoc") || chars_are(e, "asc"),
        InputKind::Markdown => chars_are(e, "md") || chars_are(e, "markdown"),
        InputKind::Csv => chars_are(e, "csv"),
        InputKind::Xlsx => chars_are(e, "xlsx"),
        InputKind::Odt => chars_are(e, "odt"),
        InputKind::Ods => chars_are(e, "ods"),
        InputKind::Odp => chars_are(e, "odp"),
        InputKind::Epub => chars_are(e, "epub"),
        InputKind::Email => chars_are(e, "eml") || chars_are(e, "msg"),
        InputKind::Image => chars_are(e, "png") || chars_are(e, "jpg") || chars_are(e, "jpeg") || chars_are(e, "gif") || chars_are(e, "bmp") || chars_are(e, "tif") || chars_are(e, "tiff") || chars_are(e, "webp") || chars_are(e, "svg"),
        InputKind::XmlUspto => chars_are(e, "xml"),
        InputKind::XmlJats => chars_are(e, "xml"),
        InputKind::XmlXbrl => chars_are(e, "xml"),
        InputKind::XmlDoclang => chars_are(e, "xml"),
        InputKind::MetsGbs => chars_are(e, "xml"),
        InputKind::JsonDocling => chars_are(e, "json"),
        InputKind::Latex => chars_are(e, "tex"),
        InputKind::Text => chars_are(e, "txt"),
    }
}

/// Whether `m` is a media type of `k`.
fn has_media_type(k: InputKind, m: &Vec<char>) -> (r: bool)
    ensures
        r == kind_media_type(k, m@),
{
    match k {
        InputKind::Pdf => chars_are(m, "application/pdf"),
        InputKind::Docx => chars_are(m, "application/vnd.openxmlformats-officedocument.wordprocessingml.document"),
        InputKind::Pptx => chars_are(m, "application/vnd.openxmlformats-officedocument.presentationml.presentation"),
        InputKind::Html => chars_are(m, "text/html") || chars_are(m, "application/xhtml+xml"),
        InputKind::Asciidoc => chars_are(m, "text/asciidoc") || chars_are(m, "text/x-asciidoc"),
        InputKind::Markdown => chars_are(m, "text/markdown") || chars_are(m, "text/x-markdown"),
        InputKind::Csv => chars_are(m, "text/csv") || chars_are(m, "application/csv"),
        InputKind::Xlsx => chars_are(m, "application/vnd.openxmlformats-officedocument.spreadsheetml.sheet"),
        InputKind::Odt => chars_are(m, "application/vnd.oasis.opendocument.text"),
        InputKind::Ods => chars_are(m, "application/vnd.oasis.opendocument.spreadsheet"),
        InputKind::Odp => chars_are(m, "application/vnd.oasis.opendocument.presentation"),
        InputKind::Epub => chars_are(m, "application/epub+zip"),
        InputKind::Email => chars_are(m, "message/rfc822") || chars_are(m, "application/vnd.ms-outlook"),
        InputKind::Image => chars_are(m, "image/png") || chars_are(m, "image/jpeg") || chars_are(m, "image/gif") || chars_are(m, "image/bmp") || chars_are(m, "image/tiff") || chars_are(m, "image/webp") || chars_are(m, "image/svg+xml"),
        InputKind::XmlUspto => chars_are(m, "application/xml") || chars_are(m, "text/xml"),
        InputKind::XmlJats => chars_are(m, "application/xml") || chars_are(m, "text/xml"),
        InputKind::XmlXbrl => chars_are(m, "application/xml") || chars_are(m, "text/xml"),
        InputKind::XmlDoclang => chars_are(m, "application/xml") || chars_are(m, "text/xml"),
        InputKind::MetsGbs => chars_are(m, "application/xml") || chars_are(m, "text/xml"),
        InputKind::JsonDocling => chars_are(m, "application/json") || chars_are(m, "text/json"),
        InputKind::Latex => chars_are(m, "application/x-tex") || chars_are(m, "application/x-latex") || chars_are(m, "text/x-tex") || chars_are(m, "text/x-latex"),
        InputKind::Text => chars_are(m, "text/plain"),
    }
}

/// Whether `a` is a name of `k`.
fn has_alias(k: InputKind, a: &Vec<char>) -> (r: bool)
    ensures
        r == kind_alias(k, a@),
{
    match k {
        InputKind::Pdf => chars_are(a, "pdf"),
        InputKind::Docx => chars_are(a, "docx"),
        InputKind::Pptx => chars_are(a, "pptx"),
        InputKind::Html => chars_are(a, "html"),
        InputKind::Asciidoc => chars_are(a, "asciidoc") || chars_are(a, "adoc"),
        InputKind::Markdown => chars_are(a, "markdown") || chars_are(a, "md"),
        InputKind::Csv => chars_are(a, "csv"),
        InputKind::Xlsx => chars_are(a, "xlsx"),
        InputKind::Odt => chars_are(a, "odt"),
        InputKind::Ods => chars_are(a, "ods"),
        InputKind::Odp => chars_are(a, "odp"),
        InputKind::Epub => chars_are(a, "epub"),
        InputKind::Email => chars_are(a, "email") || chars_are(a, "eml") || chars_are(a, "msg"),
        InputKind::Image => chars_are(a, "image"),
        InputKind::XmlUspto => chars_are(a, "xml_uspto"),
        InputKind::XmlJats => chars_are(a, "xml_jats"),
        InputKind::XmlXbrl => chars_are(a, "xml_xbrl"),
        InputKind::XmlDoclang => chars_are(a, "xml_doclang"),
        InputKind::MetsGbs => chars_are(a, "mets_gbs"),
        InputKind::JsonDocling => chars_are(a, "json_docling"),
        InputKind::Latex => chars_are(a, "latex") || chars_are(a, "tex"),
        InputKind::Text => chars_are(a, "text") || chars_are(a, "txt"),
    }
}

/// Every kind, in search order.
fn all_kinds() -> (v: Vec<InputKind>)
    ensures
        v@ == kind_order(),
{
    let mut v: Vec<InputKind> = Vec::new();
    v.push(InputKind::Pdf);
    v.push(InputKind::Docx);
    v.push(InputKind::Pptx);
    v.push(InputKind::Html);
    v.push(InputKind::Asciidoc);
    v.push(InputKind::Markdown);
    v.push(InputKind::Csv);
    v.push(InputKind::Xlsx);
    v.push(InputKind::Odt);
    v.push(InputKind::Ods);
    v.push(InputKind::Odp);
    v.push(InputKind::Epub);
    v.push(InputKind::Email);
    v.push(InputKind::Image);
    v.push(InputKind::XmlUspto);
    v.push(InputKind::XmlJats);
    v.push(InputKind::XmlXbrl);
    v.push(InputKind::XmlDoclang);
    v.push(InputKind::MetsGbs);
    v.push(InputKind::JsonDocling);
    v.push(InputKind::Latex);
    v.push(InputKind::Text);
    assert(v@ =~= kind_order());
    v
}

/// The auto-detected kinds, in search order.
fn auto_kind_list() -> (v: Vec<InputKind>)
    ensures
        v@ == auto_kinds(),
{
    let mut v: Vec<InputKind> = Vec::new();
    v.push(InputKind::Pdf);
    v.push(InputKind::Docx);
    v.push(InputKind::Pptx);
    v.push(InputKind::Html);
    v.push(InputKind::Asciidoc);
    v.push(InputKind::Markdown);
    v.push(InputKind::Csv);
    v.push(InputKind::Xlsx);
    v.push(InputKind::Odt);
    v.push(InputKind::Ods);
    v.push(InputKind::Odp);
    v.push(InputKind::Epub);
    v.push(InputKind::Email);
    v.push(InputKind::Image);
    v.push(InputKind::Latex);
    v.push(InputKind::Text);
    assert(v@ =~= auto_kinds());
    v
}

proof fn lemma_first_auto_step(ks: Seq<InputKind>, i: int, ext: Option<Seq<char>>, media: Option<Seq<char>>)
    requires
        0 <= i < ks.len(),
        !auto_matches(ks[i], ext, media),
    ensures
        first_auto(ks.skip(i), ext, media) == first_auto(ks.skip(i + 1), ext, media),
{
    assert(ks.skip(i).drop_first() =~= ks.skip(i + 1));
}

proof fn lemma_first_alias_step(ks: Seq<InputKind>, i: int, a: Seq<char>)
    requires
        0 <= i < ks.len(),
        !kind_alias(ks[i], a),
    ensures
        first_alias(ks.skip(i), a) == first_alias(ks.skip(i + 1), a),
{
    assert(ks.skip(i).drop_first() =~= ks.skip(i + 1));
}

/// The first auto-detected kind that the extension or the media type selects.
fn detect_auto_kind(extension: &Option<Vec<char>>, media_type: &Option<Vec<char>>) -> (r: Option<InputKind>)
    ensures
        r == first_auto(auto_kinds(), opt_chars(*extension), opt_chars(*media_type)),
{
    let ks = auto_kind_list();
    let ghost ext = opt_chars(*extension);
    let ghost media = opt_chars(*media_type);
    let mut i: usize = 0;
    assert(ks@.skip(0) =~= ks@);
    while i < ks.len()
        invariant
            ks@ == auto_kinds(),
            i <= ks.len(),
            ext == opt_chars(*extension),
            media == opt_chars(*media_type),
            first_auto(ks@, ext, media) == first_auto(ks@.skip(i as int), ext, media),
        decreases ks.len() - i,
    {
        let k = ks[i];
        let by_ext = match extension {
            Some(e) => has_extension(k, e),
            None => false,
        };
        let by_media = match media_type {
            Some(m) => has_media_type(k, m),
            None => false,
        };
        if by_ext || by_media {
            return Some(k);
        }
        proof {
            lemma_first_auto_step(ks@, i as int, ext, media);
        }
        i = i + 1;
    }
    None
}

/// The media type of an image from its normalized extension and media type.
fn image_media_type(extension: &Option<Vec<char>>, media_type: &Option<Vec<char>>) -> (r: &'static str)
    ensures
        r@ == image_media(opt_chars(*extension), opt_chars(*media_type)),
{
    if opt_is(extension, "jpg") || opt_is(extension, "jpeg") || opt_is(media_type, "image/jpeg") {
        "image/jpeg"
    } else if opt_is(extension, "gif") || opt_is(media_type, "image/gif") {
        "image/gif"
    } else if opt_is(extension, "bmp") || opt_is(media_type, "image/bmp") {
        "image/bmp"
    } else if opt_is(extension, "tif") || opt_is(extension, "tiff") || opt_is(media_type, "image/tiff") {
        "image/tiff"
    } else if opt_is(extension, "webp") || opt_is(media_type, "image/webp") {
        "image/webp"
    } else if opt_is(extension, "svg") || opt_is(media_type, "image/svg+xml") {
        "image/svg+xml"
    } else {
        "image/png"
    }
}

/// The extension of an image from its normalized media type.
fn image_extension(media_type: &Option<Vec<char>>) -> (r: &'static str)
    ensures
        r@ == image_ext(opt_chars(*media_type)),
{
    if opt_is(media_type, "image/jpeg") {
        "jpg"
    } else if opt_is(media_type, "image/gif") {
        "gif"
    } else if opt_is(media_type, "image/bmp") {
        "bmp"
    } else if opt_is(media_type, "image/tiff") {
        "tiff"
    } else if opt_is(media_type, "image/webp") {
        "webp"
    } else if opt_is(media_type, "image/svg+xml") {
        "svg"
    } else {
        "png"
    }
}

/// The lower-cased extension of the file name of `filename`.
fn normalized_extension(filename: &str) -> (r: Option<Vec<char>>)
    ensures
        opt_chars(r) == lower_extension(filename@),
{
    lower_extension_chars(filename)
}

/// A media type without parameters, trimmed and lower-cased.
fn normalized_media_type(media_type: Option<&str>) -> (r: Option<Vec<char>>)
    ensures
        opt_chars(r) == norm_media(opt_str(media_type)),
{
    match media_type {
        Some(value) => {
            let v = to_chars(value);
            let essence = before_first_chars(&v, ';');
            let t = trim_chars(&essence);
            Some(lower_chars(&t))
        },
        None => None,
    }
}

fn needs_override_exec(ext: &Option<Vec<char>>, media: &Option<Vec<char>>) -> (r: bool)
    ensures
        r == needs_override(opt_chars(*ext), opt_chars(*media)),
{
    opt_is(ext, "xml") || opt_is(ext, "json") || opt_is(media, "application/xml") || opt_is(
        media,
        "text/xml",
    ) || opt_is(media, "application/json") || opt_is(media, "text/json")
}

impl InputKind {
    /// The metadata of this kind.
    fn spec(self) -> (r: InputKindSpec)
        ensures
            r.kind == self,
            r.default_extension@ == kind_default_extension(self),
            r.default_media_type@ == kind_default_media_type(self),
            r.from_formats_value@ == kind_formats_value(self),
            r.reading_label@ == kind_reading_label(self),
            r.auto_detect == kind_auto_detect(self),
            r.generic_convert_options == kind_generic_options(self),
            r.supports_vlm == kind_supports_vlm(self),
    {
        match self {
            InputKind::Pdf => InputKindSpec {
                kind: InputKind::Pdf,
                default_extension: "pdf",
                default_media_type: "application/pdf",
                from_formats_value: "pdf",
                reading_label: "Reading PDF...",
                auto_detect: true,
                generic_convert_options: false,
                supports_vlm: true,
            },
            InputKind::Docx => InputKindSpec {
                kind: InputKind::Docx,
                default_extension: "docx",
                default_media_type: "application/vnd.openxmlformats-officedocument.wordprocessingml.document",
                from_formats_value: "docx",
                reading_label: "Reading DOCX...",
                auto_detect: true,
                generic_convert_options: true,
                supports_vlm: true,
            },
            InputKind::Pptx => InputKindSpec {
                kind: InputKind::Pptx,
                default_extension: "pptx",
                default_media_type: "application/vnd.openxmlformats-officedocument.presentationml.presentation",
                from_formats_value: "pptx",
                reading_label: "Reading PPTX...",
                auto_detect: true,
                generic_convert_options: true,
                supports_vlm: false,
            },
            InputKind::Html => InputKindSpec {
                kind: InputKind::Html,
                default_extension: "html",
                default_media_type: "text/html",
                from_formats_value: "html",
                reading_label: "Reading HTML...",
                auto_detect: true,
                generic_convert_options: true,
                supports_vlm: false,
            },
            InputKind::Asciidoc => InputKindSpec {
                kind: InputKind::Asciidoc,
                default_extension: "adoc",
                default_media_type: "text/asciidoc",
                from_formats_value: "asciidoc",
                reading_label: "Reading AsciiDoc...",
                auto_detect: true,
                generic_convert_options: true,
                supports_vlm: false,
            },
            InputKind::Markdown => InputKindSpec {
                kind: InputKind::Markdown,
                default_extension: "md",
                default_media_type: "text/markdown",
                from_formats_value: "md",
                reading_label: "Reading Markdown...",
                auto_detect: true,
                generic_convert_options: true,
                supports_vlm: true,
            },
            InputKind::Csv => InputKindSpec {
                kind: InputKind::Csv,
                default_extension: "csv",
                default_media_type: "text/csv",
                from_formats_value: "csv",
                reading_label: "Reading CSV...",
                auto_detect: true,
                generic_convert_options: true,
                supports_vlm: false,
            },
            InputKind::Xlsx => InputKindSpec {
                kind: InputKind::Xlsx,
                default_extension: "xlsx",
                default_media_type: "application/vnd.openxmlformats-officedocument.spreadsheetml.sheet",
                from_formats_value: "xlsx",
                reading_label: "Reading XLSX...",
                auto_detect: true,
                generic_convert_options: true,
                supports_vlm: false,
            },
            InputKind::Odt => InputKindSpec {
                kind: InputKind::Odt,
                default_extension: "odt",
                default_media_type: "application/vnd.oasis.opendocument.text",
                from_formats_value: "odt",
                reading_label: "Reading ODT...",
                auto_detect: true,
                generic_convert_options: true,
                supports_vlm: false,
            },
            InputKind::Ods => InputKindSpec {
                kind: InputKind::Ods,
                default_extension: "ods",
                default_media_type: "application/vnd.oasis.opendocument.spreadsheet",
                from_formats_value: "ods",
                reading_label: "Reading ODS...",
                auto_detect: true,
                generic_convert_options: true,
                supports_vlm: false,
            },
            InputKind::Odp => InputKindSpec {
                kind: InputKind::Odp,
                default_extension: "odp",
                default_media_type: "application/vnd.oasis.opendocument.presentation",
                from_formats_value: "odp",
                reading_label: "Reading ODP...",
                auto_detect: true,
                generic_convert_options: true,
                supports_vlm: false,
            },
            InputKind::Epub => InputKindSpec {
                kind: InputKind::Epub,
                default_extension: "epub",
                default_media_type: "application/epub+zip",
                from_formats_value: "epub",
                reading_label: "Reading EPUB...",
                auto_detect: true,
                generic_convert_options: true,
                supports_vlm: false,
            },
            InputKind::Email => InputKindSpec {
                kind: InputKind::Email,
                default_extension: "eml",
                default_media_type: "message/rfc822",
                from_formats_value: "email",
                reading_label: "Reading email...",
                auto_detect: true,
                generic_convert_options: true,
                supports_vlm: false,
            },
            InputKind::Image => InputKindSpec {
                kind: InputKind::Image,
                default_extension: "png",
                default_media_type: "image/png",
                from_formats_value: "image",
                reading_label: "Reading image...",
                auto_detect: true,
                generic_convert_options: true,
                supports_vlm: true,
            },
            InputKind::XmlUspto => InputKindSpec {
                kind: InputKind::XmlUspto,
                default_extension: "xml",
                default_media_type: "application/xml",
                from_formats_value: "xml_uspto",
                reading_label: "Reading XML USPTO...",
                auto_detect: false,
                generic_convert_options: true,
                supports_vlm: false,
            },
            InputKind::XmlJats => InputKindSpec {
                kind: InputKind::XmlJats,
                default_extension: "xml",
                default_media_type: "application/xml",
                from_formats_value: "xml_jats",
                reading_label: "Reading XML JATS...",
                auto_detect: false,
                generic_convert_options: true,
                supports_vlm: false,
            },
            InputKind::XmlXbrl => InputKindSpec {
                kind: InputKind::XmlXbrl,
                default_extension: "xml",
                default_media_type: "application/xml",
                from_formats_value: "xml_xbrl",
                reading_label: "Reading XML XBRL...",
                auto_detect: false,
                generic_convert_options: true,
                supports_vlm: false,
            },
            InputKind::XmlDoclang => InputKindSpec {
                kind: InputKind::XmlDoclang,
                default_extension: "xml",
                default_media_type: "application/xml",
                from_formats_value: "xml_doclang",
                reading_label: "Reading XML Docling...",
                auto_detect: false,
                generic_convert_options: true,
                supports_vlm: false,
            },
            InputKind::MetsGbs => InputKindSpec {
                kind: InputKind::MetsGbs,
                default_extension: "xml",
                default_media_type: "application/xml",
                from_formats_value: "mets_gbs",
                reading_label: "Reading METS GBS...",
                auto_detect: false,
                generic_convert_options: true,
                supports_vlm: false,
            },
            InputKind::JsonDocling => InputKindSpec {
                kind: InputKind::JsonDocling,
                default_extension: "json",
                default_media_type: "application/json",
                from_formats_value: "json_docling",
                reading_label: "Reading JSON Docling...",
                auto_detect: false,
                generic_convert_options: true,
                supports_vlm: false,
            },
            InputKind::Latex => InputKindSpec {
                kind: InputKind::Latex,
                default_extension: "tex",
                default_media_type: "application/x-tex",
                from_formats_value: "latex",
                reading_label: "Reading LaTeX...",
                auto_detect: true,
                generic_convert_options: true,
                supports_vlm: false,
            },
            InputKind::Text => InputKindSpec {
                kind: InputKind::Text,
                default_extension: "txt",
                default_media_type: "text/plain",
                from_formats_value: "text",
                reading_label: "Reading text file...",
                auto_detect: true,
                generic_convert_options: false,
                supports_vlm: false,
            },
        }
    }

    /// The kind of the file named by the path, from its extension alone.
    pub fn from_path(path: &str) -> (r: Option<InputKind>)
        ensures
            r == kind_of_path(path@),
    {
        match crate::paths::file_name_of(path) {
            Some(name) => InputKind::from_filename_and_media_type(name.as_str(), None),
            None => None,
        }
    }

    /// The kind that a file name and a media type select, unless they are
    /// ambiguous (generic XML or JSON) and need an explicit override.
    pub fn from_filename_and_media_type(filename: &str, media_type: Option<&str>) -> (r: Option<InputKind>)
        ensures
            r == detect(filename@, opt_str(media_type)),
    {
        let ext = normalized_extension(filename);
        let media = normalized_media_type(media_type);
        if needs_override_exec(&ext, &media) {
            return None;
        }
        detect_auto_kind(&ext, &media)
    }

    /// Whether a file name and a media type are ambiguous, so that only an
    /// explicit input format can choose the kind.
    pub fn requires_explicit_override(filename: &str, media_type: Option<&str>) -> (r: bool)
        ensures
            r == requires_override(filename@, opt_str(media_type)),
    {
        let ext = normalized_extension(filename);
        let media = normalized_media_type(media_type);
        needs_override_exec(&ext, &media)
    }

    /// The default media type of the kind.
    pub fn media_type(self) -> (r: &'static str)
        ensures
            r@ == kind_default_media_type(self),
    {
        self.spec().default_media_type
    }

    /// The media type to send for a file of this kind: the specific one that
    /// the file name or media type shows for HTML, e-mail and images, else
    /// the default.
    pub fn canonical_media_type(self, filename: &str, media_type: Option<&str>) -> (r: &'static str)
        ensures
            r@ == canonical_media(self, lower_extension(filename@), norm_media(opt_str(media_type))),
    {
        let ext = normalized_extension(filename);
        let media = normalized_media_type(media_type);
        match self {
            InputKind::Html => if opt_is(&ext, "xhtml") || opt_is(&media, "application/xhtml+xml") {
                "application/xhtml+xml"
            } else {
                self.media_type()
            },
            InputKind::Email => if opt_is(&ext, "msg") || opt_is(&media, "application/vnd.ms-outlook") {
                "application/vnd.ms-outlook"
            } else {
                self.media_type()
            },
            InputKind::Image => image_media_type(&ext, &media),
            _ => self.media_type(),
        }
    }

    /// The default extension of the kind.
    pub fn default_extension(self) -> (r: &'static str)
        ensures
            r@ == kind_default_extension(self),
    {
        self.spec().default_extension
    }

    /// The extension to give a file of this kind with the given media type.
    pub fn default_extension_for_media_type(self, media_type: Option<&str>) -> (r: &'static str)
        ensures
            r@ == extension_for_media(self, norm_media(opt_str(media_type))),
    {
        let media = normalized_media_type(media_type);
        match self {
            InputKind::Html => if opt_is(&media, "application/xhtml+xml") {
                "xhtml"
            } else {
                self.default_extension()
            },
            InputKind::Email => if opt_is(&media, "application/vnd.ms-outlook") {
                "msg"
            } else {
                self.default_extension()
            },
            InputKind::Image => image_extension(&media),
            _ => self.default_extension(),
        }
    }

    /// The progress label shown while a file of this kind is read.
    pub fn reading_label(self) -> (r: &'static str)
        ensures
            r@ == kind_reading_label(self),
    {
        self.spec().reading_label
    }

    /// The `from_formats` value of the kind.
    pub fn from_formats_value(self) -> (r: &'static str)
        ensures
            r@ == kind_formats_value(self),
    {
        self.spec().from_formats_value
    }

    /// Whether the kind is converted with the generic remote options.
    pub fn uses_generic_convert_options(self) -> (r: bool)
        ensures
            r == kind_generic_options(self),
    {
        self.spec().generic_convert_options
    }

    /// Whether the VLM enrichment applies to the kind.
    pub fn supports_vlm(self) -> (r: bool)
        ensures
            r == kind_supports_vlm(self),
    {
        self.spec().supports_vlm
    }

    /// The kind named by `value` (trimmed, any case); an unknown name is a
    /// validation error of `input_format`.
    pub fn parse_format(value: &str) -> (r: Result<InputKind>)
        ensures
            match first_alias(kind_order(), token(value@)) {
                Some(k) => r == Ok::<InputKind, PdfConvertError>(k),
                None => r matches Err(e) && is_validation(
                    e,
                    "input_format"@,
                    "unsupported input format: "@ + token(value@),
                ),
            },
    {
        let normalized = token_chars(value);
        let ks = all_kinds();
        let mut i: usize = 0;
        assert(ks@.skip(0) =~= ks@);
        while i < ks.len()
            invariant
                ks@ == kind_order(),
                i <= ks.len(),
                normalized@ == token(value@),
                first_alias(ks@, normalized@) == first_alias(ks@.skip(i as int), normalized@),
            decreases ks.len() - i,
        {
            if has_alias(ks[i], &normalized) {
                return Ok(ks[i]);
            }
            proof {
                lemma_first_alias_step(ks@, i as int, normalized@);
            }
            i = i + 1;
        }
        let mut reason = crate::strings::owned("unsupported input format: ");
        let n = crate::strings::string_from(&normalized);
        reason.push_str(n.as_str());
        Err(PdfConvertError::validation_error("input_format", reason.as_str()))
    }
}

impl core::str::FromStr for InputKind {
    type Err = PdfConvertError;

    fn from_str(value: &str) -> (r: Result<InputKind>)
        ensures
            match first_alias(kind_order(), token(value@)) {
                Some(k) => r == Ok::<InputKind, PdfConvertError>(k),
                None => r matches Err(e) && is_validation(
                    e,
                    "input_format"@,
                    "unsupported input format: "@ + token(value@),
                ),
            },
    {
        InputKind::parse_format(value)
    }
}

/// The `from_formats` value of every kind parses back to the kind.
#[verifier::rlimit(40)]
pub proof fn lemma_formats_value_round_trip(k: InputKind)
    ensures
        first_alias(kind_order(), token(kind_formats_value(k))) == Some(k),
{
    reveal_strlit("pdf");
    reveal_strlit("docx");
    reveal_strlit("pptx");
    reveal_strlit("html");
    reveal_strlit("asciidoc");
    reveal_strlit("adoc");
    reveal_strlit("markdown");
    reveal_strlit("md");
    reveal_strlit("csv");
    reveal_strlit("xlsx");
    reveal_strlit("odt");
    reveal_strlit("ods");
    reveal_strlit("odp");
    reveal_strlit("epub");
    reveal_strlit("email");
    reveal_strlit("eml");
    reveal_strlit("msg");
    reveal_strlit("image");
    reveal_strlit("xml_uspto");
    reveal_strlit("xml_jats");
    reveal_strlit("xml_xbrl");
    reveal_strlit("xml_doclang");
    reveal_strlit("mets_gbs");
    reveal_strlit("json_docling");
    reveal_strlit("latex");
    reveal_strlit("tex");
    reveal_strlit("text");
    reveal_strlit("txt");
    crate::strings::lemma_token_plain(kind_formats_value(k));
    reveal_with_fuel(first_alias, 23);
}

/// A source that needs an explicit input format is never given a kind from
/// its name and media type alone, nor, by its path, from its extension.
pub proof fn lemma_override_not_detected(filename: Seq<char>, media: Option<Seq<char>>)
    ensures
        requires_override(filename, media) ==> detect(filename, media) is None,
        requires_override(filename, None) ==> (crate::paths::file_name(filename) == Some(filename)
            ==> kind_of_path(filename) is None),
{
}

/// Every character of `m` is kept by normalization: no white space, no
/// capital, no `;`.
pub open spec fn normal_media_chars(m: Seq<char>) -> bool {
    forall|i: int| 0 <= i < m.len() ==> crate::strings::plain_char(#[trigger] m[i]) && m[i] != ';'
}

proof fn lemma_norm_media_plain(m: Seq<char>)
    requires
        normal_media_chars(m),
    ensures
        norm_media(Some(m)) == Some(m),
{
    crate::paths::lemma_first_index_none(m, ';');
    assert(before_first(m, ';') == m);
    crate::strings::lemma_token_plain(m);
}

proof fn lemma_first_auto_extension(ks: Seq<InputKind>, ext: Option<Seq<char>>)
    ensures
        first_auto(ks, ext, None) matches Some(k) ==> ext matches Some(e) && kind_extension(k, e)
            && exists|j: int| 0 <= j < ks.len() && ks[j] == k,
    decreases ks.len(),
{
    if ks.len() > 0 && !auto_matches(ks[0], ext, None) {
        lemma_first_auto_extension(ks.drop_first(), ext);
        if first_auto(ks, ext, None) is Some {
            let j = choose|j: int| 0 <= j < ks.drop_first().len() && ks.drop_first()[j] == first_auto(ks, ext, None)->0;
            assert(ks[j + 1] == ks.drop_first()[j]);
        }
    } else if ks.len() > 0 {
        assert(ks[0] == first_auto(ks, ext, None)->0);
    }
}

proof fn lemma_first_auto_media(ks: Seq<InputKind>, ext: Option<Seq<char>>, m: Seq<char>, k: InputKind)
    requires
        first_auto(ks, ext, None) == Some(k),
        kind_media_type(k, m),
        forall|j: int| 0 <= j < ks.len() && ks[j] != k ==> !kind_media_type(#[trigger] ks[j], m),
    ensures
        first_auto(ks, ext, Some(m)) == Some(k),
    decreases ks.len(),
{
    if ks.len() > 0 && !auto_matches(ks[0], ext, None) && ks[0] != k {
        assert forall|j: int| 0 <= j < ks.drop_first().len() && ks.drop_first()[j] != k implies !kind_media_type(
            #[trigger] ks.drop_first()[j],
            m,
        ) by {
            assert(ks.drop_first()[j] == ks[j + 1]);
        }
        lemma_first_auto_media(ks.drop_first(), ext, m, k);
    }
}

/// The media types of the kinds, told apart by their lengths and, among
/// those of one length, by one character.
proof fn lemma_media_literals()
    ensures
        "application/csv"@.len() == 15,
        "application/csv"@[12] == 'c',
        "application/epub+zip"@.len() == 20,
        "application/json"@.len() == 16,
        "application/pdf"@.len() == 15,
        "application/pdf"@[12] == 'p',
        "application/vnd.ms-outlook"@.len() == 26,
        "application/vnd.oasis.opendocument.presentation"@.len() == 47,
        "application/vnd.oasis.opendocument.spreadsheet"@.len() == 46,
        "application/vnd.oasis.opendocument.text"@.len() == 39,
        "application/vnd.openxmlformats-officedocument.presentationml.presentation"@.len() == 73,
        "application/vnd.openxmlformats-officedocument.spreadsheetml.sheet"@.len() == 65,
        "application/vnd.openxmlformats-officedocument.wordprocessingml.document"@.len() == 71,
        "application/x-latex"@.len() == 19,
        "application/x-tex"@.len() == 17,
        "application/xhtml+xml"@.len() == 21,
        "application/xml"@.len() == 15,
        "application/xml"@[12] == 'x',
        "image/bmp"@.len() == 9,
        "image/bmp"@[6] == 'b',
        "image/gif"@.len() == 9,
        "image/gif"@[6] == 'g',
        "image/jpeg"@.len() == 10,
        "image/jpeg"@[6] == 'j',
        "image/png"@.len() == 9,
        "image/png"@[6] == 'p',
        "image/svg+xml"@.len() == 13,
        "image/svg+xml"@[5] == '/',
        "image/tiff"@.len() == 10,
        "image/tiff"@[6] == 't',
        "image/webp"@.len() == 10,
        "image/webp"@[6] == 'w',
        "message/rfc822"@.len() == 14,
        "text/asciidoc"@.len() == 13,
        "text/asciidoc"@[5] == 'a',
        "text/csv"@.len() == 8,
        "text/csv"@[5] == 'c',
        "text/html"@.len() == 9,
        "text/html"@[6] == 't',
        "text/json"@.len() == 9,
        "text/json"@[6] == 's',
        "text/markdown"@.len() == 13,
        "text/markdown"@[5] == 'm',
        "text/plain"@.len() == 10,
        "text/plain"@[6] == 'l',
        "text/x-asciidoc"@.len() == 15,
        "text/x-asciidoc"@[12] == 'd',
        "text/x-latex"@.len() == 12,
        "text/x-markdown"@.len() == 15,
        "text/x-markdown"@[12] == 'o',
        "text/x-tex"@.len() == 10,
        "text/x-tex"@[6] == '-',
        "text/xml"@.len() == 8,
        "text/xml"@[5] == 'x',
{
    reveal_strlit("application/csv");
    reveal_strlit("application/epub+zip");
    reveal_strlit("application/json");
    reveal_strlit("application/pdf");
    reveal_strlit("application/vnd.ms-outlook");
    reveal_strlit("application/vnd.oasis.opendocument.presentation");
    reveal_strlit("application/vnd.oasis.opendocument.spreadsheet");
    reveal_strlit("application/vnd.oasis.opendocument.text");
    reveal_strlit("application/vnd.openxmlformats-officedocument.presentationml.presentation");
    reveal_strlit("application/vnd.openxmlformats-officedocument.spreadsheetml.sheet");
    reveal_strlit("application/vnd.openxmlformats-officedocument.wordprocessingml.document");
    reveal_strlit("application/x-latex");
    reveal_strlit("application/x-tex");
    reveal_strlit("application/xhtml+xml");
    reveal_strlit("application/xml");
    reveal_strlit("image/bmp");
    reveal_strlit("image/gif");
    reveal_strlit("image/jpeg");
    reveal_strlit("image/png");
    reveal_strlit("image/svg+xml");
    reveal_strlit("image/tiff");
    reveal_strlit("image/webp");
    reveal_strlit("message/rfc822");
    reveal_strlit("text/asciidoc");
    reveal_strlit("text/csv");
    reveal_strlit("text/html");
    reveal_strlit("text/json");
    reveal_strlit("text/markdown");
    reveal_strlit("text/plain");
    reveal_strlit("text/x-asciidoc");
    reveal_strlit("text/x-latex");
    reveal_strlit("text/x-markdown");
    reveal_strlit("text/x-tex");
    reveal_strlit("text/xml");
}

proof fn lemma_canonical_media_own(k: InputKind, x: Seq<char>)
    requires
        kind_auto_detect(k),
        kind_extension(k, x),
    ensures
        normal_media_chars(canonical_media(k, Some(x), None)),
        kind_media_type(k, canonical_media(k, Some(x), None)),
        forall|k2: InputKind| k2 != k ==> !kind_media_type(k2, canonical_media(k, Some(x), None)),
        !needs_override(None, Some(canonical_media(k, Some(x), None))),
{
    lemma_media_literals();
    reveal_strlit("application/csv");
    reveal_strlit("application/epub+zip");
    reveal_strlit("application/json");
    reveal_strlit("application/pdf");
    reveal_strlit("application/vnd.ms-outlook");
    reveal_strlit("application/vnd.oasis.opendocument.presentation");
    reveal_strlit("application/vnd.oasis.opendocument.spreadsheet");
    reveal_strlit("application/vnd.oasis.opendocument.text");
    reveal_strlit("application/vnd.openxmlformats-officedocument.presentationml.presentation");
    reveal_strlit("application/vnd.openxmlformats-officedocument.spreadsheetml.sheet");
    reveal_strlit("application/vnd.openxmlformats-officedocument.wordprocessingml.document");
    reveal_strlit("application/x-latex");
    reveal_strlit("application/x-tex");
    reveal_strlit("application/xhtml+xml");
    reveal_strlit("application/xml");
    reveal_strlit("image/bmp");
    reveal_strlit("image/gif");
    reveal_strlit("image/jpeg");
    reveal_strlit("image/png");
    reveal_strlit("image/svg+xml");
    reveal_strlit("image/tiff");
    reveal_strlit("image/webp");
    reveal_strlit("message/rfc822");
    reveal_strlit("text/asciidoc");
    reveal_strlit("text/csv");
    reveal_strlit("text/html");
    reveal_strlit("text/json");
    reveal_strlit("text/markdown");
    reveal_strlit("text/plain");
    reveal_strlit("text/x-asciidoc");
    reveal_strlit("text/x-latex");
    reveal_strlit("text/x-markdown");
    reveal_strlit("text/x-tex");
    reveal_strlit("text/xml");
}

/// A file whose name selects a kind is given that kind again when its name
/// is read beside the media type that the kind gives to its extension: a
/// document made from a path keeps the kind of the path.
pub proof fn lemma_canonical_media_redetected(n: Seq<char>)
    requires
        detect(n, None) is Some,
    ensures
        detect(n, Some(canonical_media(detect(n, None)->0, lower_extension(n), None))) == detect(n, None),
{
    let k = detect(n, None)->0;
    let e = lower_extension(n);
    lemma_first_auto_extension(auto_kinds(), e);
    let x = e->0;
    assert(kind_auto_detect(k)) by {
        let j = choose|j: int| 0 <= j < auto_kinds().len() && auto_kinds()[j] == k;
        assert(forall|i: int| 0 <= i < auto_kinds().len() ==> kind_auto_detect(#[trigger] auto_kinds()[i]));
    }
    let m = canonical_media(k, e, None);
    lemma_canonical_media_own(k, x);
    lemma_norm_media_plain(m);
    lemma_first_auto_media(auto_kinds(), e, m, k);
}

/// A value and its trimmed, lower-cased form parse alike: to the same kind,
/// or to the same error, whose text holds the same token.
pub proof fn lemma_parse_format_normalized(s: Seq<char>)
    ensures
        token(token(s)) == token(s),
        first_alias(kind_order(), token(token(s))) == first_alias(kind_order(), token(s)),
{
    crate::strings::lemma_token_idempotent(s);
}

/// An image extension with its other spelling folded in: `jpeg` is `jpg`,
/// `tif` is `tiff`.
pub open spec fn image_family(e: Seq<char>) -> Seq<char> {
    if e == "jpeg"@ {
        "jpg"@
    } else if e == "tif"@ {
        "tiff"@
    } else {
        e
    }
}

/// The media type sent for an image agrees with its extension: it is one
/// of the image media types, and the extension that it gives back is the
/// file's own (up to the other spelling of `jpg` and `tiff`).
pub proof fn lemma_image_media_matches_extension(e: Seq<char>)
    requires
        kind_extension(InputKind::Image, e),
    ensures
        kind_media_type(InputKind::Image, canonical_media(InputKind::Image, Some(e), None)),
        image_family(extension_for_media(InputKind::Image, Some(canonical_media(InputKind::Image, Some(e), None))))
            == image_family(e),
{
    reveal_strlit("png");
    reveal_strlit("jpg");
    reveal_strlit("jpeg");
    reveal_strlit("gif");
    reveal_strlit("bmp");
    reveal_strlit("tif");
    reveal_strlit("tiff");
    reveal_strlit("webp");
    reveal_strlit("svg");
    lemma_media_literals();
    assert("png"@.len() == 3 && "png"@[0] == 'p' && "jpg"@.len() == 3 && "jpg"@[0] == 'j' && "jpeg"@.len() == 4 && "jpeg"@[0] == 'j' && "gif"@.len() == 3 && "gif"@[0] == 'g' && "bmp"@.len() == 3 && "bmp"@[0] == 'b' && "tif"@.len() == 3 && "tif"@[0] == 't' && "tiff"@.len() == 4 && "tiff"@[0] == 't' && "webp"@.len() == 4 && "webp"@[0] == 'w' && "svg"@.len() == 3 && "svg"@[0] == 's');
}

} // verus!
