use vstd::prelude::*;

verus! {

/// An image codec that the tool can read or write.
#[derive(Clone, Copy, Debug, PartialEq, Eq, Structural)]
pub enum Format {
    Jpeg,
    Png,
    Gif,
    Webp,
    Tiff,
    Tga,
    Bmp,
    Ico,
    Hdr,
    Pnm,
}

/// The format that a lowercase extension stands for, if any.
pub open spec fn format_of(ext: Seq<char>) -> Option<Format> {
    if ext == "jpg"@ || ext == "jpeg"@ {
        Some(Format::Jpeg)
    } else if ext == "png"@ {
        Some(Format::Png)
    } else if ext == "gif"@ {
        Some(Format::Gif)
    } else if ext == "webp"@ {
        Some(Format::Webp)
    } else if ext == "tif"@ || ext == "tiff"@ {
        Some(Format::Tiff)
    } else if ext == "tga"@ {
        Some(Format::Tga)
    } else if ext == "bmp"@ {
        Some(Format::Bmp)
    } else if ext == "ico"@ {
        Some(Format::Ico)
    } else if ext == "hdr"@ {
        Some(Format::Hdr)
    } else if ext == "pbm"@ || ext == "pam"@ || ext == "ppm"@ || ext == "pgm"@ {
        Some(Format::Pnm)
    } else {
        None
    }
}

/// Whether two strings hold the same characters.
pub(crate) fn same_chars(a: &str, b: &str) -> (r: bool)
    ensures
        r == (a@ == b@),
{
    let n = a.unicode_len();
    if n != b.unicode_len() {
        return false;
    }
    let mut i: usize = 0;
    while i < n
        invariant
            n == a@.len(),
            n == b@.len(),
            i <= n,
            forall|j: int| 0 <= j < i ==> a@[j] == b@[j],
        decreases n - i,
    {
        if a.get_char(i) != b.get_char(i) {
            return false;
        }
        i = i + 1;
    }
    assert(a@ =~= b@);
    true
}

/// Looks up the format of a lowercase extension. The match is exact: callers
/// lowercase the extension first.
pub fn detect_format(ext: &str) -> (r: Option<Format>)
    ensures
        r == format_of(ext@),
{
    if same_chars(ext, "jpg") || same_chars(ext, "jpeg") {
        Some(Format::Jpeg)
    } else if same_chars(ext, "png") {
        Some(Format::Png)
    } else if same_chars(ext, "gif") {
        Some(Format::Gif)
    } else if same_chars(ext, "webp") {
        Some(Format::Webp)
    } else if same_chars(ext, "tif") || same_chars(ext, "tiff") {
        Some(Format::Tiff)
    } else if same_chars(ext, "tga") {
        Some(Format::Tga)
    } else if same_chars(ext, "bmp") {
        Some(Format::Bmp)
    } else if same_chars(ext, "ico") {
        Some(Format::Ico)
    } else if same_chars(ext, "hdr") {
        Some(Format::Hdr)
    } else if same_chars(ext, "pbm") || same_chars(ext, "pam") || same_chars(ext, "ppm")
        || same_chars(ext, "pgm") {
        Some(Format::Pnm)
    } else {
        None
    }
}

} // verus!
