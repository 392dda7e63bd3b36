use vstd::prelude::*;
use crate::text::{chars_of, strip_ws, with_extension, change_file_name, remove_whitespace};

verus! {

/// The MIME type that the signature detector finds in a leading byte window,
/// if any.
pub uninterp spec fn sniffed_mime(buf: Seq<u8>) -> Option<Seq<char>>;

/// Whether the signature detector knows a file type with this extension.
pub uninterp spec fn detector_supports(ext: Seq<char>) -> bool;

/// Relies on infer::get: the MIME type of the first matching signature, a
/// function of the bytes alone.
#[verifier::external_body]
fn sniff(buf: &[u8]) -> (r: Option<String>)
    ensures
        r is Some == sniffed_mime(buf@) is Some,
        r is Some ==> r->0@ == sniffed_mime(buf@)->0,
{
    infer::get(buf).map(|t| t.mime_type().to_string())
}

/// Relies on infer::is_supported: whether a known file type has this
/// extension, a function of the extension alone.
#[verifier::external_body]
fn detector_knows(ext: &str) -> (r: bool)
    ensures
        r == detector_supports(ext@),
{
    infer::is_supported(ext)
}

/// Whether two texts hold the same characters.
pub fn text_eq(a: &str, b: &str) -> (r: bool)
    ensures
        r == (a@ == b@),
{
    let x = chars_of(a);
    let y = chars_of(b);
    if x.len() != y.len() {
        return false;
    }
    let mut i: usize = 0;
    while i < x.len()
        invariant
            i <= x.len() == y.len(),
            x@ == a@,
            y@ == b@,
            x@.subrange(0, i as int) == y@.subrange(0, i as int),
        decreases x.len() - i,
    {
        if x[i] != y[i] {
            assert(x@[i as int] != y@[i as int]);
            return false;
        }
        assert(x@.subrange(0, i as int + 1) =~= x@.subrange(0, i as int).push(x@[i as int]));
        assert(y@.subrange(0, i as int + 1) =~= y@.subrange(0, i as int).push(y@[i as int]));
        i = i + 1;
    }
    assert(x@ =~= x@.subrange(0, i as int));
    assert(y@ =~= y@.subrange(0, i as int));
    true
}

/// The canonical extension of a MIME type, where the table lists it.
pub open spec fn canonical_ext(m: Seq<char>) -> Option<Seq<char>> {
    if m == "application/vnd.openxmlformats-officedocument.wordprocessingml.document"@ {
        Some("docx"@)
    } else if m == "application/vnd.openxmlformats-officedocument.wordprocessingml.template"@ {
        Some("dotx"@)
    } else if m == "application/vnd.openxmlformats-officedocument.spreadsheetml.sheet"@ {
        Some("xlsx"@)
    } else if m == "application/vnd.openxmlformats-officedocument.presentationml.presentation"@ {
        Some("pptx"@)
    } else if m == "text/csv"@ {
        Some("csv"@)
    } else if m == "application/gzip"@ {
        Some("gz"@)
    } else if m == "image/gif"@ {
        Some("gif"@)
    } else if m == "text/html"@ {
        Some("html"@)
    } else if m == "image/jpeg"@ {
        Some("jpeg"@)
    } else if m == "application/json"@ {
        Some("json"@)
    } else if m == "video/mp4"@ {
        Some("mp4"@)
    } else if m == "video/mpeg"@ {
        Some("mpeg"@)
    } else if m == "audio/mpeg"@ {
        Some("mp3"@)
    } else if m == "image/png"@ {
        Some("png"@)
    } else if m == "application/pdf"@ {
        Some("pdf"@)
    } else if m == "application/vnd.rar"@ {
        Some("rar"@)
    } else if m == "application/rtf"@ {
        Some("rtf"@)
    } else if m == "image/svg+xml"@ {
        Some("svg"@)
    } else if m == "application/x-tar"@ {
        Some("tar"@)
    } else if m == "image/tiff"@ {
        Some("tiff"@)
    } else if m == "text/plain"@ {
        Some("txt"@)
    } else if m == "text/rtf"@ {
        Some("rtf"@)
    } else if m == "image/webp"@ {
        Some("webp"@)
    } else if m == "application/xml"@ {
        Some("xml"@)
    } else if m == "application/zip"@ {
        Some("zip"@)
    } else if m == "application/x-7z-compressed"@ {
        Some("7z"@)
    } else if m == "application/x-xz"@ {
        Some("tar.xz"@)
    } else {
        None
    }
}

/// Looks a MIME type up in the table of canonical extensions.
pub fn canonical_extension(mime: &str) -> (r: Option<&'static str>)
    ensures
        r is Some == canonical_ext(mime@) is Some,
        r is Some ==> r->0@ == canonical_ext(mime@)->0,
{
    proof { reveal_strlit("application/vnd.openxmlformats-officedocument.wordprocessingml.document"); reveal_strlit("docx"); reveal_strlit("application/vnd.openxmlformats-officedocument.wordprocessingml.template"); reveal_strlit("dotx"); reveal_strlit("application/vnd.openxmlformats-officedocument.spreadsheetml.sheet"); reveal_strlit("xlsx"); reveal_strlit("application/vnd.openxmlformats-officedocument.presentationml.presentation"); reveal_strlit("pptx"); reveal_strlit("text/csv"); reveal_strlit("csv"); reveal_strlit("application/gzip"); reveal_strlit("gz"); reveal_strlit("image/gif"); reveal_strlit("gif"); reveal_strlit("text/html"); reveal_strlit("html"); reveal_strlit("image/jpeg"); reveal_strlit("jpeg"); reveal_strlit("application/json"); reveal_strlit("json"); reveal_strlit("video/mp4"); reveal_strlit("mp4"); reveal_strlit("video/mpeg"); reveal_strlit("mpeg"); reveal_strlit("audio/mpeg"); reveal_strlit("mp3"); reveal_strlit("image/png"); reveal_strlit("png"); reveal_strlit("application/pdf"); reveal_strlit("pdf"); reveal_strlit("application/vnd.rar"); reveal_strlit("rar"); reveal_strlit("application/rtf"); reveal_strlit("rtf"); reveal_strlit("image/svg+xml"); reveal_strlit("svg"); reveal_strlit("application/x-tar"); reveal_strlit("tar"); reveal_strlit("image/tiff"); reveal_strlit("tiff"); reveal_strlit("text/plain"); reveal_strlit("txt"); reveal_strlit("text/rtf"); reveal_strlit("rtf"); reveal_strlit("image/webp"); reveal_strlit("webp"); reveal_strlit("application/xml"); reveal_strlit("xml"); reveal_strlit("application/zip"); reveal_strlit("zip"); reveal_strlit("application/x-7z-compressed"); reveal_strlit("7z"); reveal_strlit("application/x-xz"); reveal_strlit("tar.xz"); }
    if text_eq(mime, "application/vnd.openxmlformats-officedocument.wordprocessingml.document") {
        Some("docx")
    } else if text_eq(mime, "application/vnd.openxmlformats-officedocument.wordprocessingml.template") {
        Some("dotx")
    } else if text_eq(mime, "application/vnd.openxmlformats-officedocument.spreadsheetml.sheet") {
        Some("xlsx")
    } else if text_eq(mime, "application/vnd.openxmlformats-officedocument.presentationml.presentation") {
        Some("pptx")
    } else if text_eq(mime, "text/csv") {
        Some("csv")
    } else if text_eq(mime, "application/gzip") {
        Some("gz")
    } else if text_eq(mime, "image/gif") {
        Some("gif")
    } else if text_eq(mime, "text/html") {
        Some("html")
    } else if text_eq(mime, "image/jpeg") {
        Some("jpeg")
    } else if text_eq(mime, "application/json") {
        Some("json")
    } else if text_eq(mime, "video/mp4") {
        Some("mp4")
    } else if text_eq(mime, "video/mpeg") {
        Some("mpeg")
    } else if text_eq(mime, "audio/mpeg") {
        Some("mp3")
    } else if text_eq(mime, "image/png") {
        Some("png")
    } else if text_eq(mime, "application/pdf") {
        Some("pdf")
    } else if text_eq(mime, "application/vnd.rar") {
        Some("rar")
    } else if text_eq(mime, "application/rtf") {
        Some("rtf")
    } else if text_eq(mime, "image/svg+xml") {
        Some("svg")
    } else if text_eq(mime, "application/x-tar") {
        Some("tar")
    } else if text_eq(mime, "image/tiff") {
        Some("tiff")
    } else if text_eq(mime, "text/plain") {
        Some("txt")
    } else if text_eq(mime, "text/rtf") {
        Some("rtf")
    } else if text_eq(mime, "image/webp") {
        Some("webp")
    } else if text_eq(mime, "application/xml") {
        Some("xml")
    } else if text_eq(mime, "application/zip") {
        Some("zip")
    } else if text_eq(mime, "application/x-7z-compressed") {
        Some("7z")
    } else if text_eq(mime, "application/x-xz") {
        Some("tar.xz")
    } else {
        None
    }
}

/// Legacy and modern office extensions, whose signatures the detector
/// conflates.
pub open spec fn is_office_exception(ext: Seq<char>) -> bool {
    ext == "pptx"@ || ext == "ppt"@ || ext == "xls"@ || ext == "doc"@ || ext == "xlsx"@ || ext == "docx"@
}

/// Modern office extensions, which are never corrected.
pub open spec fn is_modern_office(ext: Seq<char>) -> bool {
    ext == "docx"@ || ext == "xlsx"@ || ext == "pptx"@
}

/// Whether a file with this extension has its content type sniffed.
pub open spec fn sniff_candidate(ext: Seq<char>) -> bool {
    detector_supports(ext) || is_office_exception(ext)
}

/// Whether a file with extension `ext` has its content type sniffed: the
/// detector knows the extension, or it is an office format.
pub fn is_sniff_candidate(ext: &str) -> (r: bool)
    ensures
        r == sniff_candidate(ext@),
{
    proof { reveal_strlit("pptx"); reveal_strlit("ppt"); reveal_strlit("xls"); reveal_strlit("doc"); reveal_strlit("xlsx"); reveal_strlit("docx"); }
    detector_knows(ext) || text_eq(ext, "pptx") || text_eq(ext, "ppt") || text_eq(ext, "xls")
        || text_eq(ext, "doc") || text_eq(ext, "xlsx") || text_eq(ext, "docx")
}

/// The extension a file keeps once its sniffed type `mime` is known.
pub open spec fn resolved_ext(ext: Seq<char>, mime: Seq<char>) -> Seq<char> {
    if is_modern_office(ext) {
        ext
    } else {
        match canonical_ext(mime) {
            Some(c) => c,
            None => ext,
        }
    }
}

/// The archive name of a file: renamed to the resolved extension where that
/// differs, and without whitespace.
pub open spec fn archive_name_of(name: Seq<char>, ext: Seq<char>, mime: Seq<char>) -> Seq<char> {
    if resolved_ext(ext, mime) == ext {
        strip_ws(name)
    } else {
        strip_ws(with_extension(name, resolved_ext(ext, mime)))
    }
}

/// The extension that a file with extension `ext` and sniffed type `mime`
/// is archived under.
pub fn resolve_extension(ext: &str, mime: &str) -> (r: String)
    ensures
        r@ == resolved_ext(ext@, mime@),
{
    proof { reveal_strlit("pptx"); reveal_strlit("xlsx"); reveal_strlit("docx"); }
    if text_eq(ext, "docx") || text_eq(ext, "xlsx") || text_eq(ext, "pptx") {
        return ext.to_owned();
    }
    match canonical_extension(mime) {
        Some(c) => c.to_owned(),
        None => ext.to_owned(),
    }
}

/// The name under which a file called `name`, with extension `ext` and
/// sniffed type `mime`, is archived.
pub fn archive_name(name: &str, ext: &str, mime: &str) -> (r: String)
    ensures
        r@ == archive_name_of(name@, ext@, mime@),
{
    let resolved = resolve_extension(ext, mime);
    let mut out = if text_eq(resolved.as_str(), ext) {
        name.to_owned()
    } else {
        change_file_name(name, resolved.as_str())
    };
    remove_whitespace(&mut out);
    out
}

/// The sniffed MIME type of a file's leading bytes; `None` where no signature
/// matches.
pub fn sniff_mime(leading: &[u8]) -> (r: Option<String>)
    ensures
        r is Some == sniffed_mime(leading@) is Some,
        r is Some ==> r->0@ == sniffed_mime(leading@)->0,
{
    sniff(leading)
}

} // verus!
