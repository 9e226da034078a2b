//! Selection of the image files listed in the project's image index.

use vstd::prelude::*;
use crate::text::{lowercase, to_lowercase, str_eq};
use base64::engine::general_purpose::STANDARD;
use base64::Engine;
use image::ImageFormat;
use image::imageops::FilterType;
use std::io::Cursor;

verus! {

/// The extension of a path (the part of its file name after the last dot,
/// as `std::path::Path::extension` splits it).
pub uninterp spec fn path_extension(path: Seq<char>) -> Option<Seq<char>>;

/// Calls `Path::extension` on `path` and converts it back to a string. Trusted:
/// the result is the named `path_extension` of the argument; the conversion is
/// lossless because the extension of a UTF-8 path is UTF-8.
#[verifier::external_body]
fn extension_of(path: &str) -> (r: Option<String>)
    ensures
        r is None <==> path_extension(path@) is None,
        r matches Some(e) ==> path_extension(path@) == Some(e@),
{
    std::path::Path::new(path).extension().map(|e| e.to_string_lossy().into_owned())
}

/// The lowercase extensions of the supported image formats.
pub open spec fn is_image_extension(lower: Seq<char>) -> bool {
    lower == "jpg"@ || lower == "jpeg"@ || lower == "png"@ || lower == "gif"@
}

/// Whether an already lowercased extension names a supported image format.
pub fn is_supported_extension(lower: &str) -> (r: bool)
    ensures
        r == is_image_extension(lower@),
{
    str_eq(lower, "jpg") || str_eq(lower, "jpeg") || str_eq(lower, "png") || str_eq(lower, "gif")
}

/// Whether `path` names a JPEG, PNG or GIF file, judged by its extension
/// regardless of case.
pub fn is_supported_image(path: &str) -> (r: bool)
    ensures
        r == (path_extension(path@) matches Some(e) && is_image_extension(lowercase(e))),
{
    match extension_of(path) {
        Some(ext) => {
            let lower = to_lowercase(ext.as_str());
            is_supported_extension(lower.as_str())
        },
        None => false,
    }
}

/// The characters of standard base64 (RFC 4648), by value.
pub open spec fn base64_alphabet() -> Seq<char> {
    "ABCDEFGHIJKLMNOPQRSTUVWXYZabcdefghijklmnopqrstuvwxyz0123456789+/"@
}

/// The four characters that write a group of 24 bits, most significant first.
pub open spec fn base64_quad(n: int) -> Seq<char> {
    let a = base64_alphabet();
    seq![a[(n / 262144) % 64], a[(n / 4096) % 64], a[(n / 64) % 64], a[n % 64]]
}

/// The standard base64 encoding of `bytes`: each group of three bytes as four
/// characters; a last group of one or two bytes as two or three characters
/// followed by `=` padding to four.
pub open spec fn base64_standard(bytes: Seq<u8>) -> Seq<char>
    decreases bytes.len(),
{
    if bytes.len() == 0 {
        Seq::empty()
    } else if bytes.len() == 1 {
        base64_quad(bytes[0] * 65536).take(2) + "=="@
    } else if bytes.len() == 2 {
        base64_quad(bytes[0] * 65536 + bytes[1] * 256).take(3) + "="@
    } else {
        base64_quad(bytes[0] * 65536 + bytes[1] * 256 + bytes[2]) + base64_standard(bytes.skip(3))
    }
}

/// Calls base64's `Engine::encode` on the `STANDARD` engine. Trusted: the
/// result is the standard padded encoding stated by `base64_standard`. The
/// encoder panics when the encoded length overflows `usize`; inputs of at most
/// half the address range are far from that.
#[verifier::external_body]
pub(crate) fn encode_base64(bytes: &[u8]) -> (r: String)
    requires
        bytes@.len() <= usize::MAX / 2,
    ensures
        r@ == base64_standard(bytes@),
{
    STANDARD.encode(bytes)
}

/// The resampling filters of the image crate's `FilterType`.
#[derive(Clone, Copy, Debug, PartialEq, Eq, Structural)]
pub enum ResizeFilter {
    Nearest,
    Triangle,
    CatmullRom,
    Gaussian,
    Lanczos3,
}

/// `png` is a PNG that the image crate wrote for the image `image`, read in
/// the format that the file extension `extension` names, resized with
/// `filter` to fit `max_width` by `max_height` pixels. Only this relation is
/// claimed: the decoders and the resampling may take different paths on
/// different machines, so the bytes are not named.
pub uninterp spec fn png_thumbnail_of(
    image: Seq<u8>,
    extension: Seq<char>,
    max_width: u32,
    max_height: u32,
    filter: ResizeFilter,
    png: Seq<u8>,
) -> bool;

/// Calls image's `ImageFormat::from_extension`, `load_from_memory_with_format`,
/// `DynamicImage::resize` and `write_to` in PNG format. Trusted: a result is a
/// PNG written for these arguments (`png_thumbnail_of`); `None` when the
/// extension names no format the crate knows, or when decoding or encoding
/// reports an error. Nothing more is stated of the pixels.
#[verifier::external_body]
fn thumbnail_png(
    image_bytes: &[u8],
    extension: &str,
    max_width: u32,
    max_height: u32,
    filter: ResizeFilter,
) -> (r: Option<Vec<u8>>)
    ensures
        r matches Some(p) ==> png_thumbnail_of(
            image_bytes@,
            extension@,
            max_width,
            max_height,
            filter,
            p@,
        ),
{
    let format = ImageFormat::from_extension(extension)?;
    let filter = match filter {
        ResizeFilter::Nearest => FilterType::Nearest,
        ResizeFilter::Triangle => FilterType::Triangle,
        ResizeFilter::CatmullRom => FilterType::CatmullRom,
        ResizeFilter::Gaussian => FilterType::Gaussian,
        ResizeFilter::Lanczos3 => FilterType::Lanczos3,
    };
    let img = image::load_from_memory_with_format(image_bytes, format).ok()?;
    let mut png: Vec<u8> = Vec::new();
    img.resize(max_width, max_height, filter).write_to(&mut Cursor::new(&mut png), ImageFormat::Png).ok()?;
    Some(png)
}

/// The largest width and height of an index thumbnail, in pixels.
pub const THUMBNAIL_SIZE: u32 = 1000;

/// The heading line that starts the index.
pub open spec fn index_header() -> Seq<char> {
    "Files sorted from most to least recent\n\n"@
}

/// The index entry of an image: a heading with its file name, then the image
/// inlined as base64 PNG data, shown 500 pixels wide.
pub open spec fn index_entry_text(filename: Seq<char>, png: Seq<u8>) -> Seq<char> {
    "## "@ + filename + "\n<img alt=\""@ + filename
        + "\" width=\"500\" src=\"data:image/png;base64,"@ + base64_standard(png) + "\">\n\n"@
}

/// The texts one after the other.
pub open spec fn concat_all(parts: Seq<Seq<char>>) -> Seq<char>
    decreases parts.len(),
{
    if parts.len() == 0 {
        Seq::empty()
    } else {
        concat_all(parts.drop_last()) + parts.last()
    }
}

/// The index entry of the image `filename` whose PNG data is `png`.
pub fn index_entry(filename: &str, png: &[u8]) -> (r: String)
    requires
        png@.len() <= usize::MAX / 2,
    ensures
        r@ == index_entry_text(filename@, png@),
{
    let data = encode_base64(png);
    let mut r = String::from_str("## ");
    r.append(filename);
    r.append("\n<img alt=\"");
    r.append(filename);
    r.append("\" width=\"500\" src=\"data:image/png;base64,");
    r.append(data.as_str());
    r.append("\">\n\n");
    r
}

/// The index entry of the image `filename` with contents `image_bytes`: the
/// image, read in the format its extension names, is scaled with a Lanczos
/// filter to fit `THUMBNAIL_SIZE` by `THUMBNAIL_SIZE` pixels and inlined as
/// PNG. `None` when the file name has no extension, or when the image cannot
/// be decoded or re-encoded.
pub fn index_entry_for_image(filename: &str, image_bytes: &[u8]) -> (r: Option<String>)
    ensures
        path_extension(filename@) is None ==> r is None,
        r matches Some(e) ==> exists|png: Seq<u8>|
            png_thumbnail_of(
                image_bytes@,
                path_extension(filename@)->0,
                THUMBNAIL_SIZE,
                THUMBNAIL_SIZE,
                ResizeFilter::Lanczos3,
                png,
            ) && e@ == #[trigger] index_entry_text(filename@, png),
{
    let ext = match extension_of(filename) {
        Some(ext) => ext,
        None => {
            return None;
        },
    };
    match thumbnail_png(image_bytes, ext.as_str(), THUMBNAIL_SIZE, THUMBNAIL_SIZE, ResizeFilter::Lanczos3) {
        Some(png) => {
            if png.len() > usize::MAX / 2 {
                return None;
            }
            let e = index_entry(filename, png.as_slice());
            assert(e@ == index_entry_text(filename@, png@));
            Some(e)
        },
        None => None,
    }
}

/// The index document: the heading line, then the entries in order.
pub fn index_markdown(entries: &Vec<String>) -> (r: String)
    ensures
        r@ == index_header() + concat_all(entries@.map_values(|e: String| e@)),
{
    let mut r = String::from_str("Files sorted from most to least recent\n\n");
    let ghost views = entries@.map_values(|e: String| e@);
    let mut i: usize = 0;
    while i < entries.len()
        invariant
            i <= entries@.len(),
            views == entries@.map_values(|e: String| e@),
            r@ == index_header() + concat_all(views.take(i as int)),
        decreases entries@.len() - i,
    {
        assert(views.take(i + 1).drop_last() =~= views.take(i as int));
        r.append(entries[i].as_str());
        i = i + 1;
        assert(r@ =~= index_header() + concat_all(views.take(i as int)));
    }
    assert(views.take(entries@.len() as int) =~= views);
    r
}

} // verus!
