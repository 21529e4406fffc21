use vstd::prelude::*;

verus! {

use crate::strutil::{spec_after_last, spec_lower, after_last, ascii_lower};
use vstd::string::StrSliceExecFns;

/// The extraction strategy families. The set is closed: every candidate path
/// routes to exactly one of them, by extension alone.
#[derive(PartialEq, Eq, Structural, Clone, Copy, Debug)]
pub enum Strategy {
    Pdf,
    Notebook,
    Media,
    PlainText,
}

/// The base name of a path: the part after the last separator.
pub open spec fn spec_file_name(path: Seq<char>) -> Seq<char> {
    spec_after_last(path, '/')
}

/// The extension of a base name, as written: the part after the last dot,
/// provided a dot occurs at some position past the first character (so a
/// name that is only a leading dot has no extension).
pub open spec fn spec_extension_raw(path: Seq<char>) -> Seq<char> {
    let name = spec_file_name(path);
    if exists|i: int| 1 <= i < name.len() && name[i] == '.' {
        spec_after_last(name, '.')
    } else {
        Seq::empty()
    }
}

/// The extension of a base name, lower-cased for classification.
pub open spec fn spec_extension(path: Seq<char>) -> Seq<char> {
    spec_lower(spec_extension_raw(path))
}

/// Extracts the base name of a path.
pub fn file_name(path: &str) -> (r: String)
    ensures
        r@ == spec_file_name(path@),
{
    after_last(path, '/')
}

/// Extracts the extension of a path as written; empty when there is none.
pub fn extension_raw(path: &str) -> (r: String)
    ensures
        r@ == spec_extension_raw(path@),
{
    let name = file_name(path);
    let n = name.as_str().unicode_len();
    let mut has_dot = false;
    let mut i: usize = 1;
    while i < n
        invariant
            n == name@.len(),
            1 <= i,
            i <= n || (n <= 1 && i == 1),
            has_dot == exists|j: int| 1 <= j < i && name@[j] == '.',
        decreases n - i,
    {
        if name.as_str().get_char(i) == '.' {
            has_dot = true;
        }
        i = i + 1;
    }
    if has_dot {
        after_last(name.as_str(), '.')
    } else {
        String::new()
    }
}

/// Extracts the lower-cased extension of a path; empty when there is none.
pub fn extension(path: &str) -> (r: String)
    ensures
        r@ == spec_extension(path@),
{
    let raw = extension_raw(path);
    ascii_lower(raw.as_str())
}

/// The media extension set: common image and video containers.
pub open spec fn spec_is_media_ext(e: Seq<char>) -> bool {
    ||| e == "jpg"@
    ||| e == "jpeg"@
    ||| e == "png"@
    ||| e == "gif"@
    ||| e == "bmp"@
    ||| e == "webp"@
    ||| e == "mp4"@
    ||| e == "mov"@
    ||| e == "avi"@
    ||| e == "mkv"@
    ||| e == "webm"@
    ||| e == "m4v"@
    ||| e == "3gp"@
}

/// The strategy a path routes to, decided by its extension alone.
pub open spec fn spec_classify(path: Seq<char>) -> Strategy {
    let e = spec_extension(path);
    if e == "pdf"@ {
        Strategy::Pdf
    } else if e == "ipynb"@ {
        Strategy::Notebook
    } else if spec_is_media_ext(e) {
        Strategy::Media
    } else {
        Strategy::PlainText
    }
}

fn str_eq_lit(s: &str, lit: &str) -> (r: bool)
    ensures
        r == (s@ == lit@),
{
    crate::strutil::str_eq(s, lit)
}

/// Chooses the extraction strategy for a path by its extension.
pub fn classify(path: &str) -> (r: Strategy)
    ensures
        r == spec_classify(path@),
{
    let e = extension(path);
    let es = e.as_str();
    if str_eq_lit(es, "pdf") {
        Strategy::Pdf
    } else if str_eq_lit(es, "ipynb") {
        Strategy::Notebook
    } else if str_eq_lit(es, "jpg") || str_eq_lit(es, "jpeg") || str_eq_lit(es, "png")
        || str_eq_lit(es, "gif") || str_eq_lit(es, "bmp") || str_eq_lit(es, "webp") || str_eq_lit(
        es,
        "mp4",
    ) || str_eq_lit(es, "mov") || str_eq_lit(es, "avi") || str_eq_lit(es, "mkv") || str_eq_lit(
        es,
        "webm",
    ) || str_eq_lit(es, "m4v") || str_eq_lit(es, "3gp") {
        Strategy::Media
    } else {
        Strategy::PlainText
    }
}

} // verus!
