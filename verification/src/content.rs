//! Content typing: mapping a file name to a MIME type and building the
//! `Content-Type` header line. The MIME type and subtype names themselves come
//! from the `mime` crate.
use vstd::prelude::*;
use vstd::string::StringExecFns;

verus! {

/// A response body, as raw bytes.
pub type Message = Vec<u8>;

/// The MIME types the server can name in a `Content-Type` header.
#[derive(Debug, Clone, Copy, PartialEq, Eq, Structural)]
pub enum MimeKind {
    Html,
    Png,
    Jpeg,
    Json,
    Plain,
}

/// The type name of each MIME kind, as the `mime` crate's constants carry it.
pub open spec fn mime_type_chars(k: MimeKind) -> Seq<char> {
    match k {
        MimeKind::Html => "text"@,
        MimeKind::Png => "image"@,
        MimeKind::Jpeg => "image"@,
        MimeKind::Json => "application"@,
        MimeKind::Plain => "text"@,
    }
}

/// The subtype name of each MIME kind, as the `mime` crate's constants carry it.
pub open spec fn mime_subtype_chars(k: MimeKind) -> Seq<char> {
    match k {
        MimeKind::Html => "html"@,
        MimeKind::Png => "png"@,
        MimeKind::Jpeg => "jpeg"@,
        MimeKind::Json => "json"@,
        MimeKind::Plain => "plain"@,
    }
}

/// Relies on the `mime` crate's constants `TEXT_HTML`, `IMAGE_PNG`,
/// `IMAGE_JPEG`, `APPLICATION_JSON` and `TEXT_PLAIN`: their `type_()` and
/// `subtype()` accessors return the names the constants are parsed from.
#[verifier::external_body]
fn mime_parts(kind: &MimeKind) -> (r: (String, String))
    ensures
        r.0@ == mime_type_chars(*kind),
        r.1@ == mime_subtype_chars(*kind),
{
    let m = match kind {
        MimeKind::Html => mime::TEXT_HTML,
        MimeKind::Png => mime::IMAGE_PNG,
        MimeKind::Jpeg => mime::IMAGE_JPEG,
        MimeKind::Json => mime::APPLICATION_JSON,
        MimeKind::Plain => mime::TEXT_PLAIN,
    };
    (m.type_().as_str().to_string(), m.subtype().as_str().to_string())
}

/// The last dot at or before `k`, if any.
pub open spec fn last_dot_from(s: Seq<char>, k: int) -> Option<int>
    decreases k,
{
    if k < 0 {
        None
    } else if s[k] == '.' {
        Some(k)
    } else if k == 0 {
        None
    } else {
        last_dot_from(s, k - 1)
    }
}

/// The extension of a file name: what follows the last dot, or the whole name
/// when it has no dot.
pub open spec fn spec_extension(s: Seq<char>) -> Seq<char> {
    match last_dot_from(s, s.len() - 1) {
        None => s,
        Some(d) => s.subrange(d + 1, s.len() as int),
    }
}

/// The MIME kind an extension maps to; `text/plain` is the default.
pub open spec fn spec_mime_kind(ext: Seq<char>) -> MimeKind {
    if ext == "html"@ {
        MimeKind::Html
    } else if ext == "png"@ {
        MimeKind::Png
    } else if ext == "jpg"@ {
        MimeKind::Jpeg
    } else if ext == "json"@ {
        MimeKind::Json
    } else {
        MimeKind::Plain
    }
}

/// Returns the MIME kind for a file name, decided by its extension.
/// Returns the kind of `text/plain` by default.
pub fn find_mimetype(filename: &str) -> (k: MimeKind)
    ensures
        k == spec_mime_kind(spec_extension(filename@)),
{
    let n = filename.unicode_len();
    let mut i: usize = n;
    let mut dot: Option<usize> = None;
    while i > 0 && dot.is_none()
        invariant
            i <= n,
            n == filename@.len(),
            match dot {
                None => last_dot_from(filename@, n as int - 1) == last_dot_from(
                    filename@,
                    i as int - 1,
                ),
                Some(d) => d < n && last_dot_from(filename@, n as int - 1) == Some(d as int),
            },
        decreases i,
    {
        i -= 1;
        if filename.get_char(i) == '.' {
            dot = Some(i);
        }
    }
    let ext = match dot {
        None => filename,
        Some(d) => filename.substring_char(d + 1, n),
    };
    if crate::request::str_eq(ext, "html") {
        MimeKind::Html
    } else if crate::request::str_eq(ext, "png") {
        MimeKind::Png
    } else if crate::request::str_eq(ext, "jpg") {
        MimeKind::Jpeg
    } else if crate::request::str_eq(ext, "json") {
        MimeKind::Json
    } else {
        MimeKind::Plain
    }
}

/// The `Content-Type` header line for a MIME kind.
pub open spec fn spec_content_type(k: MimeKind) -> Seq<char> {
    "Content-Type: "@ + mime_type_chars(k) + "/"@ + mime_subtype_chars(k) + "\r\n"@
}

/// Returns a standard `Content-Type` header line for the MIME kind.
pub fn build_content_type(kind: &MimeKind) -> (r: String)
    ensures
        r@ == spec_content_type(*kind),
{
    let parts = mime_parts(kind);
    let mut r = String::from_str("Content-Type: ");
    r.append(parts.0.as_str());
    r.append("/");
    r.append(parts.1.as_str());
    r.append("\r\n");
    proof {
        assert(r@ =~= spec_content_type(*kind));
    }
    r
}

} // verus!
