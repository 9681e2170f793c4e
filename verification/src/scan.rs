//! Helpers for the directory-scanning collaborator: the supported-extension
//! filter and the construction of `FileInfo` records.

use vstd::prelude::*;
use crate::config::FileInfo;

verus! {

/// What `str::to_lowercase` returns; it depends on the characters alone.
pub uninterp spec fn lower_of(s: Seq<char>) -> Seq<char>;

/// What `str::to_uppercase` returns; it depends on the characters alone.
pub uninterp spec fn upper_of(s: Seq<char>) -> Seq<char>;

/// Relies on `str::to_lowercase`: Unicode lowercasing, locale-independent.
#[verifier::external_body]
fn to_lowercase_string(s: &String) -> (r: String)
    ensures
        r@ == lower_of(s@),
{
    s.as_str().to_lowercase()
}

/// Relies on `str::to_uppercase`: Unicode uppercasing, locale-independent.
#[verifier::external_body]
fn to_uppercase_string(s: &String) -> (r: String)
    ensures
        r@ == upper_of(s@),
{
    s.as_str().to_uppercase()
}

/// Whether a file extension, lowercased, is one the scanner lists.
pub open spec fn is_supported_ext_spec(ext: Seq<char>) -> bool {
    ||| lower_of(ext) == "png"@
    ||| lower_of(ext) == "jpg"@
    ||| lower_of(ext) == "jpeg"@
    ||| lower_of(ext) == "webp"@
    ||| lower_of(ext) == "bmp"@
    ||| lower_of(ext) == "tiff"@
    ||| lower_of(ext) == "gif"@
}

/// Checks whether a file extension names a supported raster format, whatever
/// its case.
pub fn is_supported_extension(ext: &String) -> (r: bool)
    ensures
        r == is_supported_ext_spec(ext@),
{
    let low = to_lowercase_string(ext);
    low == String::from_str("png") || low == String::from_str("jpg") || low == String::from_str(
        "jpeg",
    ) || low == String::from_str("webp") || low == String::from_str("bmp") || low
        == String::from_str("tiff") || low == String::from_str("gif")
}

/// Builds the scan record for one file.
///
/// `dims` carries the header-read result: when it failed, the record gets the
/// `(0, 0)` dimensions and the `unknown` format sentinel; otherwise the
/// format is the uppercased extension.
pub fn build_file_info(
    path: &String,
    name: &String,
    size: u64,
    dims: Option<(u32, u32)>,
    ext: &String,
) -> (r: FileInfo)
    ensures
        r.path@ == path@,
        r.name@ == name@,
        r.size == size,
        dims matches Some(d) ==> r.width == d.0 && r.height == d.1 && r.format@ == upper_of(ext@),
        dims is None ==> r.width == 0 && r.height == 0 && r.format@ == "unknown"@,
{
    match dims {
        Some(d) => FileInfo {
            path: path.clone(),
            name: name.clone(),
            size,
            width: d.0,
            height: d.1,
            format: to_uppercase_string(ext),
        },
        None => FileInfo {
            path: path.clone(),
            name: name.clone(),
            size,
            width: 0,
            height: 0,
            format: String::from_str("unknown"),
        },
    }
}

} // verus!
