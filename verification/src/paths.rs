//! The parts of a file path that the service reads: existence, final
//! component, extension and case conversion of that extension.
use vstd::prelude::*;
use crate::text::opt_view;

verus! {

/// `s` holds the character `c`.
pub open spec fn has_char(s: Seq<char>, c: char) -> bool {
    exists|k: int| 0 <= k < s.len() && s[k] == c
}

/// Whether something exists at `path` (`Path::exists`). The answer depends on
/// the file system at the moment of the call, so nothing is stated of it.
#[verifier::external_body]
pub(crate) fn path_exists(path: &str) -> (r: bool) {
    std::path::Path::new(path).exists()
}

/// `c` is the backslash.
pub open spec fn is_backslash(c: char) -> bool {
    c as u32 == 92
}

/// `s` holds a backslash.
pub open spec fn has_backslash(s: Seq<char>) -> bool {
    exists|k: int| 0 <= k < s.len() && is_backslash(s[k])
}

/// The part of `s` after its last `c` (all of `s` when it holds no `c`).
pub open spec fn after_last(s: Seq<char>, c: char) -> Seq<char>
    decreases s.len(),
{
    if s.len() == 0 {
        s
    } else if s.last() == c {
        Seq::empty()
    } else {
        after_last(s.drop_last(), c).push(s.last())
    }
}

/// The part of `path` after its last `/`.
pub open spec fn path_tail(path: Seq<char>) -> Seq<char> {
    after_last(path, '/')
}

/// A path whose final component every platform reads the same way: it holds
/// no backslash, does not start with `//`, and the part after its last `/`
/// is not empty, does not start with `.` and holds no `:`. (A backslash and a
/// leading `//` begin Windows prefixes; `:` ends a Windows drive.)
pub open spec fn plain_tail(path: Seq<char>) -> bool {
    let t = path_tail(path);
    &&& !has_backslash(path)
    &&& !(path.len() >= 2 && path[0] == '/' && path[1] == '/')
    &&& t.len() > 0
    &&& t[0] != '.'
    &&& !has_char(t, ':')
}

/// The extension of a final component that does not start with `.`: what
/// follows its last `.`, if it holds one.
pub open spec fn tail_extension(t: Seq<char>) -> Option<Seq<char>> {
    if has_char(t, '.') {
        Some(after_last(t, '.'))
    } else {
        None
    }
}

/// `c` separates path components on some platform: `/` everywhere, the
/// backslash on Windows.
pub open spec fn is_separator(c: char) -> bool {
    c == '/' || is_backslash(c)
}

/// The part of `s` after its last separator (all of `s` when it holds none).
pub open spec fn after_last_separator(s: Seq<char>) -> Seq<char>
    decreases s.len(),
{
    if s.len() == 0 {
        s
    } else if is_separator(s.last()) {
        Seq::empty()
    } else {
        after_last_separator(s.drop_last()).push(s.last())
    }
}

/// `path` begins with a verbatim drive, a backslash-separated `\\?\X:\`
/// where `X` is an ASCII letter (the form `canonicalize` gives on Windows).
pub open spec fn verbatim_drive_start(path: Seq<char>) -> bool {
    &&& path.len() >= 7
    &&& is_backslash(path[0])
    &&& is_backslash(path[1])
    &&& path[2] == '?'
    &&& is_backslash(path[3])
    &&& (('a' <= path[4] <= 'z') || ('A' <= path[4] <= 'Z'))
    &&& path[5] == ':'
    &&& is_backslash(path[6])
}

/// A path whose extension every platform reads the same way. The part `t`
/// after its last `/` or backslash holds a `.` after its first character, is
/// not `..` and holds no `:`; and the path does not begin with two
/// separators, unless it begins with a verbatim drive. (Two leading
/// separators begin the other Windows prefixes, and a `:` ends a drive.)
/// Then on Unix and on Windows the extension is what follows the last `.` of `t`.
pub open spec fn dotted_tail(path: Seq<char>) -> bool {
    let t = after_last_separator(path);
    &&& exists|k: int| 1 <= k < t.len() && t[k] == '.'
    &&& !(t.len() == 2 && t[0] == '.' && t[1] == '.')
    &&& !has_char(t, ':')
    &&& (path.len() >= 2 && is_separator(path[0]) && is_separator(path[1])) ==> verbatim_drive_start(path)
}

/// The extension of a `dotted_tail` path: what follows the last `.` after
/// its last separator.
pub open spec fn dotted_extension(path: Seq<char>) -> Seq<char> {
    after_last(after_last_separator(path), '.')
}

/// The final component of `path` (`Path::file_name`). Which component that is
/// depends on the platform's separators and prefixes; what holds everywhere
/// is that a name is not empty, and that a path of `plain_tail` form has the
/// part after its last `/` as its name.
#[verifier::external_body]
pub(crate) fn path_file_name(path: &str) -> (r: Option<String>)
    ensures
        r matches Some(n) ==> n@.len() > 0,
        plain_tail(path@) ==> opt_view(r) == Some(path_tail(path@)),
{
    std::path::Path::new(path).file_name().map(|n| n.to_string_lossy().to_string())
}

/// `ext`, when present, holds no `.` and stands in `path` right after a `.`:
/// what every platform's reading of an extension satisfies.
pub open spec fn ext_in_path(path: Seq<char>, ext: Option<Seq<char>>) -> bool {
    ext matches Some(e) ==> !has_char(e, '.') && exists|k: int|
        1 <= k && k + e.len() <= path.len() && path[k - 1] == '.' && #[trigger] path.subrange(
            k,
            k + e.len(),
        ) == e
}

/// The extension of `path` (`Path::extension`): what follows the last `.` of
/// the final component. Which component that is depends on the platform;
/// what holds everywhere is that the extension holds no `.` and stands in
/// `path` right after a `.`; that a path of `plain_tail` form has the extension of the part
/// after its last `/`; and that a path of `dotted_tail` form, Windows paths
/// such as `D:\scan.png` among them, has what follows the last `.` after
/// its last separator.
#[verifier::external_body]
pub(crate) fn path_extension(path: &str) -> (r: Option<String>)
    ensures
        ext_in_path(path@, opt_view(r)),
        plain_tail(path@) ==> opt_view(r) == tail_extension(path_tail(path@)),
        dotted_tail(path@) ==> opt_view(r) == Some(dotted_extension(path@)),
{
    std::path::Path::new(path).extension().map(|e| e.to_string_lossy().to_string())
}

/// Every character of `s` is ASCII.
pub open spec fn all_ascii(s: Seq<char>) -> bool {
    forall|k: int| 0 <= k < s.len() ==> (s[k] as u32) < 128
}

/// The ASCII lower case of `c`.
pub open spec fn ascii_lower(c: char) -> char {
    if 'A' <= c <= 'Z' {
        ((c as u32) + 32) as char
    } else {
        c
    }
}

/// The ASCII upper case of `c`.
pub open spec fn ascii_upper(c: char) -> char {
    if 'a' <= c <= 'z' {
        ((c as u32) - 32) as char
    } else {
        c
    }
}

/// What `str::to_lowercase` gives for `s` (Unicode lower-case mapping).
pub uninterp spec fn lowercase_of(s: Seq<char>) -> Seq<char>;

/// What `str::to_uppercase` gives for `s` (Unicode upper-case mapping).
pub uninterp spec fn uppercase_of(s: Seq<char>) -> Seq<char>;

/// `s` in lower case: ASCII letters mapped one by one for an ASCII string,
/// the Unicode mapping otherwise.
pub open spec fn lowered(s: Seq<char>) -> Seq<char> {
    if all_ascii(s) {
        s.map_values(|c: char| ascii_lower(c))
    } else {
        lowercase_of(s)
    }
}

/// `s` in upper case: ASCII letters mapped one by one for an ASCII string,
/// the Unicode mapping otherwise.
pub open spec fn uppered(s: Seq<char>) -> Seq<char> {
    if all_ascii(s) {
        s.map_values(|c: char| ascii_upper(c))
    } else {
        uppercase_of(s)
    }
}

/// `s` in lower case (`str::to_lowercase`).
#[verifier::external_body]
pub(crate) fn to_lowercase(s: &str) -> (r: String)
    ensures
        r@ == lowercase_of(s@),
        all_ascii(s@) ==> r@ == s@.map_values(|c: char| ascii_lower(c)),
{
    s.to_lowercase()
}

/// `s` in upper case (`str::to_uppercase`).
#[verifier::external_body]
pub(crate) fn to_uppercase(s: &str) -> (r: String)
    ensures
        r@ == uppercase_of(s@),
        all_ascii(s@) ==> r@ == s@.map_values(|c: char| ascii_upper(c)),
{
    s.to_uppercase()
}

} // verus!
