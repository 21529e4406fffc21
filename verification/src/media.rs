use vstd::prelude::*;

verus! {

use crate::classify::{spec_file_name, file_name};
use crate::strutil::{spec_dec, u64_to_string, str_eq};
use vstd::string::StringExecFns;

/// The MIME type that `mime_guess` derives from a path's extension; a
/// function of the path text alone.
pub uninterp spec fn mime_of(path: Seq<char>) -> Seq<char>;

/// Relies on `mime_guess::from_path` with `first_or_octet_stream`: the
/// guess is derived from the path's extension alone, defaulting to the
/// octet-stream type when nothing is known for it.
#[verifier::external_body]
fn guess_mime(path: &str) -> (r: String)
    ensures
        r@ == mime_of(path@),
{
    mime_guess::from_path(path).first_or_octet_stream().to_string()
}

/// Relies on `image::ImageReader`: opens the file and decodes only enough
/// header to learn the pixel dimensions. The result depends on what is on
/// disk, so nothing is stated of it; any failure is an absent dimension.
#[verifier::external_body]
fn image_dimensions(path: &str) -> (r: Option<(u32, u32)>) {
    match image::ImageReader::open(path) {
        Ok(reader) => reader.into_dimensions().ok(),
        Err(_) => None,
    }
}

/// Relies on `nom_exif::MediaParser`: reads the file's embedded metadata
/// container and hands each entry out as tag and value text; an entry
/// without a known tag has none, one whose value fails to parse has empty
/// text. The result depends on what is on disk, so nothing is stated of it.
#[verifier::external_body]
fn exif_entries(path: &str) -> (r: Vec<(Option<String>, String)>) {
    let mut parser = nom_exif::MediaParser::new();
    match nom_exif::MediaSource::open(path) {
        Ok(ms) => match parser.parse_exif(ms) {
            Ok(iter) => iter.map(
                |e| (
                    e.tag().tag().map(|t| t.to_string()),
                    e.value().map(|v| v.to_string()).unwrap_or_default(),
                ),
            ).collect(),
            Err(_) => Vec::new(),
        },
        Err(_) => Vec::new(),
    }
}

/// The fixed allow-list of metadata tags that the summary reports.
pub open spec fn spec_allowed_tag(t: Seq<char>) -> bool {
    ||| t == "Duration"@
    ||| t == "ImageWidth"@
    ||| t == "ImageHeight"@
    ||| t == "Make"@
    ||| t == "Model"@
    ||| t == "CreateDate"@
    ||| t == "FrameRate"@
    ||| t == "BitRate"@
}

/// The line one metadata entry contributes: `tag: value` for an allowed
/// tag, nothing for an unknown or disallowed one.
pub open spec fn spec_tag_line(e: (Option<String>, String)) -> Seq<char> {
    if e.0 is Some && spec_allowed_tag(e.0->0@) {
        e.0->0@ + ": "@ + e.1@ + "\n"@
    } else {
        Seq::empty()
    }
}

/// The lines of the first `k` metadata entries.
pub open spec fn spec_tags_upto(tags: Seq<(Option<String>, String)>, k: int) -> Seq<char>
    decreases k,
{
    if k <= 0 || tags.len() < k {
        Seq::empty()
    } else {
        spec_tags_upto(tags, k - 1) + spec_tag_line(tags[k - 1])
    }
}

/// The dimensions line, when pixel dimensions could be read.
pub open spec fn spec_dims_part(dims: Option<(u32, u32)>) -> Seq<char> {
    match dims {
        Some(d) => "Dimensions: "@ + spec_dec(d.0 as int) + "x"@ + spec_dec(d.1 as int) + "\n"@,
        None => Seq::empty(),
    }
}

/// The whole metadata summary of a media file: a header block with the
/// path, base name, byte size and guessed MIME type, then the dimensions
/// line when available and the allow-listed metadata lines. With no
/// readable metadata it degrades to just the header.
pub open spec fn spec_media_summary(
    path: Seq<char>,
    size: u64,
    mime: Seq<char>,
    dims: Option<(u32, u32)>,
    tags: Seq<(Option<String>, String)>,
) -> Seq<char> {
    "-------------------\n"@ + path + "\n"@ + "-------------------\n"@ + "Name: "@
        + spec_file_name(path) + " | Size: "@ + spec_dec(size as int) + " bytes | Type: "@ + mime
        + "\n"@ + "-------------------\n\n"@ + "Metadata:\n"@ + spec_dims_part(dims)
        + spec_tags_upto(tags, tags.len() as int)
}

fn allowed_tag(t: &str) -> (r: bool)
    ensures
        r == spec_allowed_tag(t@),
{
    str_eq(t, "Duration") || str_eq(t, "ImageWidth") || str_eq(t, "ImageHeight") || str_eq(
        t,
        "Make",
    ) || str_eq(t, "Model") || str_eq(t, "CreateDate") || str_eq(t, "FrameRate") || str_eq(
        t,
        "BitRate",
    )
}

/// Renders the metadata summary from the observed inputs: the header from
/// path, size and MIME type, then the dimensions line and the allow-listed
/// tag lines, in the order the entries came.
pub fn media_summary(
    path: &String,
    size: u64,
    mime: &String,
    dims: Option<(u32, u32)>,
    tags: &Vec<(Option<String>, String)>,
) -> (r: String)
    ensures
        r@ == spec_media_summary(path@, size, mime@, dims, tags@),
{
    let name = file_name(path.as_str());
    let size_s = u64_to_string(size);
    let mut out = String::from_str("-------------------\n");
    out.append(path.as_str());
    out.append("\n");
    out.append("-------------------\n");
    out.append("Name: ");
    out.append(name.as_str());
    out.append(" | Size: ");
    out.append(size_s.as_str());
    out.append(" bytes | Type: ");
    out.append(mime.as_str());
    out.append("\n");
    out.append("-------------------\n\n");
    out.append("Metadata:\n");
    let ghost header = "-------------------\n"@ + path@ + "\n"@ + "-------------------\n"@
        + "Name: "@ + spec_file_name(path@) + " | Size: "@ + spec_dec(size as int)
        + " bytes | Type: "@ + mime@ + "\n"@ + "-------------------\n\n"@ + "Metadata:\n"@;
    proof {
        assert(out@ =~= header);
    }
    match dims {
        Some(d) => {
            let w = u64_to_string(d.0 as u64);
            let h = u64_to_string(d.1 as u64);
            out.append("Dimensions: ");
            out.append(w.as_str());
            out.append("x");
            out.append(h.as_str());
            out.append("\n");
        },
        None => {},
    }
    proof {
        assert(out@ =~= header + spec_dims_part(dims));
    }
    let mut i: usize = 0;
    while i < tags.len()
        invariant
            i <= tags@.len(),
            out@ == header + spec_dims_part(dims) + spec_tags_upto(tags@, i as int),
        decreases tags@.len() - i,
    {
        match &tags[i].0 {
            Some(t) => {
                if allowed_tag(t.as_str()) {
                    out.append(t.as_str());
                    out.append(": ");
                    out.append(tags[i].1.as_str());
                    out.append("\n");
                }
            },
            None => {},
        }
        proof {
            assert(out@ =~= header + spec_dims_part(dims) + spec_tags_upto(tags@, i + 1 as int));
        }
        i = i + 1;
    }
    proof {
        assert(out@ =~= spec_media_summary(path@, size, mime@, dims, tags@));
    }
    out
}

/// Produces the metadata summary of the media file at `path`, whose byte
/// size the caller observed. Pixel dimensions and embedded metadata come
/// from what is on disk, so the summary is pinned only up to whatever the
/// readers returned for them; the MIME type is a function of the path.
pub fn read_metadata(path: &String, size: u64) -> (r: String)
    ensures
        exists|dims: Option<(u32, u32)>, tags: Seq<(Option<String>, String)>|
            r@ == spec_media_summary(path@, size, mime_of(path@), dims, tags),
{
    let mime = guess_mime(path.as_str());
    let dims = image_dimensions(path.as_str());
    let tags = exif_entries(path.as_str());
    let r = media_summary(path, size, &mime, dims, &tags);
    proof {
        assert(r@ == spec_media_summary(path@, size, mime_of(path@), dims, tags@));
    }
    r
}

} // verus!
