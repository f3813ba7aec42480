//! Metadata of a media file: name, size, MIME type, format and dimensions.
use vstd::prelude::*;
use vstd::string::StringExecFns;
use crate::paths::{
    dotted_extension, dotted_tail, ext_in_path, path_extension, path_file_name, path_tail, plain_tail,
    tail_extension, to_uppercase, uppered,
};
use crate::text::{opt_view, concat3, decimal, has_prefix, starts_with, str_eq, u64_to_decimal};

verus! {

/// Metadata about a multimedia file.
#[derive(Debug, Clone)]
pub struct MediaMetadata {
    /// File name (last path component).
    pub name: String,
    /// Absolute path to the file.
    pub path: String,
    /// File size in bytes.
    pub size_bytes: u64,
    /// MIME type (e.g., "image/png", "application/pdf").
    pub mime_type: String,
    /// File format/extension in uppercase (e.g., "PNG", "JPG").
    pub format: String,
    /// Image dimensions as "WxH" (None for non-image files).
    pub dimensions: Option<String>,
}

/// The MIME type that `mime_guess` gives for a file extension (the first
/// guess, or `application/octet-stream` when there is none).
pub uninterp spec fn mime_of_ext(ext: Seq<char>) -> Seq<char>;

/// The MIME type guessed from a file extension
/// (`mime_guess::from_ext(ext).first_or_octet_stream()`).
#[verifier::external_body]
fn mime_for_extension(ext: &str) -> (r: String)
    ensures
        r@ == mime_of_ext(ext@),
{
    mime_guess::from_ext(ext).first_or_octet_stream().to_string()
}

/// The MIME type of a file whose extension is `ext` (none: octet stream).
pub open spec fn mime_spec(ext: Option<Seq<char>>) -> Seq<char> {
    match ext {
        Some(e) => mime_of_ext(e),
        None => "application/octet-stream"@,
    }
}

/// The format shown for a file whose extension is `ext`: the extension in
/// upper case, or `UNKNOWN`.
pub open spec fn format_spec(ext: Option<Seq<char>>) -> Seq<char> {
    match ext {
        Some(e) => uppered(e),
        None => "UNKNOWN"@,
    }
}

/// Dimensions are read for images other than SVG.
pub open spec fn dimensions_wanted_spec(mime: Seq<char>) -> bool {
    has_prefix(mime, "image/"@) && mime != "image/svg+xml"@
}

/// Every image type but SVG has its dimensions read, whatever its subtype
/// (`image/png`, `image/gif`, `image/webp`, ...); SVG and every type that is
/// not an image do not.
pub proof fn lemma_dimensions_for_images(sub: Seq<char>, other: Seq<char>)
    ensures
        sub != "svg+xml"@ ==> dimensions_wanted_spec("image/"@ + sub),
        !dimensions_wanted_spec("image/svg+xml"@),
        !has_prefix(other, "image/"@) ==> !dimensions_wanted_spec(other),
{
    let m = "image/"@ + sub;
    assert(m.subrange(0, "image/"@.len() as int) =~= "image/"@);
    if sub != "svg+xml"@ {
        if m == "image/svg+xml"@ {
            reveal_strlit("image/svg+xml");
            reveal_strlit("image/");
            reveal_strlit("svg+xml");
            assert(sub =~= m.subrange(6, m.len() as int));
            assert(sub =~= "svg+xml"@);
        }
    }
}

/// `W` and `H` in decimal, joined by `x`.
pub open spec fn dimensions_text(w: u32, h: u32) -> Seq<char> {
    decimal(w as nat) + "x"@ + decimal(h as nat)
}

/// The MIME type of a path, from its extension (`mime_guess::from_path`).
pub fn mime_for_path(path: &str) -> (r: String)
    ensures
        exists|ext: Option<Seq<char>>| ext_in_path(path@, ext) && r@ == mime_spec(ext),
        plain_tail(path@) ==> r@ == mime_spec(tail_extension(path_tail(path@))),
        dotted_tail(path@) ==> r@ == mime_of_ext(dotted_extension(path@)),
{
    let ext = path_extension(path);
    let ghost e = opt_view(ext);
    let r = match &ext {
        Some(x) => mime_for_extension(x.as_str()),
        None => String::from_str("application/octet-stream"),
    };
    assert(r@ == mime_spec(e));
    r
}

/// Whether the dimensions of a file of this MIME type are read: images other than SVG.
pub fn dimensions_wanted(mime: &str) -> (r: bool)
    ensures
        r == dimensions_wanted_spec(mime@),
        r == (has_prefix(mime@, "image/"@) && mime@ != "image/svg+xml"@),
{
    starts_with(mime, "image/") && !str_eq(mime, "image/svg+xml")
}

/// `WxH` for width `w` and height `h`.
pub fn format_dimensions(w: u32, h: u32) -> (r: String)
    ensures
        r@ == dimensions_text(w, h),
{
    let ws = u64_to_decimal(w as u64);
    let hs = u64_to_decimal(h as u64);
    concat3(ws.as_str(), "x", hs.as_str())
}

/// The metadata of the file at `path`, given its size, its final component
/// `name`, its extension `ext`, and the dimensions read from it when
/// `dimensions_wanted` holds of its MIME type.
pub fn metadata_from_parts(
    path: &str,
    size: u64,
    name: Option<String>,
    ext: Option<String>,
    dims: Option<(u32, u32)>,
) -> (m: MediaMetadata)
    ensures
        m.path@ == path@,
        m.size_bytes == size,
        m.name@ == match opt_view(name) { Some(n) => n, None => Seq::<char>::empty() },
        m.mime_type@ == mime_spec(opt_view(ext)),
        m.format@ == format_spec(opt_view(ext)),
        m.dimensions matches Some(d) <==> dimensions_wanted_spec(m.mime_type@) && dims is Some,
        m.dimensions matches Some(d) ==> (match dims { Some((w, h)) => d@ == dimensions_text(w, h), None => false }),
{
    let name = match name {
        Some(n) => n,
        None => String::new(),
    };
    let (mime, format) = match &ext {
        Some(e) => (mime_for_extension(e.as_str()), to_uppercase(e.as_str())),
        None => (String::from_str("application/octet-stream"), String::from_str("UNKNOWN")),
    };
    let dimensions = if dimensions_wanted(mime.as_str()) {
        match dims {
            Some((w, h)) => Some(format_dimensions(w, h)),
            None => None,
        }
    } else {
        None
    };
    MediaMetadata {
        name,
        path: String::from_str(path),
        size_bytes: size,
        mime_type: mime,
        format,
        dimensions,
    }
}

/// A final path component as every platform gives it: not empty.
pub open spec fn plausible_name(n: Option<Seq<char>>) -> bool {
    n matches Some(x) ==> x.len() > 0
}

/// The metadata of the file at `path` of `size` bytes, with the dimensions
/// read from it (see `dimensions_wanted`). The name and extension are the
/// platform's reading of the path; for a path of `plain_tail` form they are
/// the part after its last `/` and what follows that part's last `.`, and
/// for a path of `dotted_tail` form the extension is what follows the last
/// `.` after its last separator.
pub fn build_metadata(path: &str, size: u64, dims: Option<(u32, u32)>) -> (m: MediaMetadata)
    ensures
        m.path@ == path@,
        m.size_bytes == size,
        exists|name: Option<Seq<char>>, ext: Option<Seq<char>>|
            {
                &&& plausible_name(name)
                &&& ext_in_path(path@, ext)
                &&& m.name@ == match name {
                    Some(n) => n,
                    None => Seq::<char>::empty(),
                }
                &&& m.mime_type@ == mime_spec(ext)
                &&& m.format@ == format_spec(ext)
            },
        plain_tail(path@) ==> {
            &&& m.name@ == path_tail(path@)
            &&& m.mime_type@ == mime_spec(tail_extension(path_tail(path@)))
            &&& m.format@ == format_spec(tail_extension(path_tail(path@)))
        },
        dotted_tail(path@) ==> {
            &&& m.mime_type@ == mime_of_ext(dotted_extension(path@))
            &&& m.format@ == uppered(dotted_extension(path@))
        },
        m.dimensions matches Some(d) <==> dimensions_wanted_spec(m.mime_type@) && dims is Some,
        m.dimensions matches Some(d) ==> (match dims { Some((w, h)) => d@ == dimensions_text(w, h), None => false }),
{
    let name = path_file_name(path);
    let ext = path_extension(path);
    let ghost n = opt_view(name);
    let ghost e = opt_view(ext);
    let m = metadata_from_parts(path, size, name, ext, dims);
    assert(plausible_name(n) && ext_in_path(path@, e) && m.name@ == match n {
        Some(x) => x,
        None => Seq::<char>::empty(),
    } && m.mime_type@ == mime_spec(e) && m.format@ == format_spec(e));
    m
}

/// The error reported for a path where no file exists.
pub fn file_not_found_message(path: &str) -> (r: String)
    ensures
        r@ == "File not found: "@ + path@,
{
    crate::text::concat("File not found: ", path)
}

} // verus!
