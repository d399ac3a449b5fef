use image::imageops::FilterType;
use vstd::prelude::*;

verus! {

/// The side length, in pixels, of the cover thumbnail the window shows.
pub const THUMBNAIL_SIZE: u32 = 80;

/// The largest side length a picture is resized to.
pub const MAX_RESIZE: u32 = 4096;

/// The resampling filters of `image::imageops::FilterType`.
#[derive(Clone, Copy, Debug, PartialEq, Eq, Structural)]
pub enum ResizeFilter {
    Nearest,
    Triangle,
    CatmullRom,
    Gaussian,
    Lanczos3,
}

/// The eight bytes every PNG stream starts with.
pub open spec fn png_signature() -> Seq<u8> {
    seq![137u8, 80u8, 78u8, 71u8, 13u8, 10u8, 26u8, 10u8]
}

/// The bytes start with the PNG signature.
pub open spec fn is_png(bytes: Seq<u8>) -> bool {
    bytes.len() >= 8 && bytes.subrange(0, 8) == png_signature()
}

/// The IHDR chunk type, which the PNG signature is followed by.
pub open spec fn ihdr_chunk_type() -> Seq<u8> {
    seq![73u8, 72u8, 68u8, 82u8]
}

/// The big-endian 32-bit word at byte `i`.
pub open spec fn be_u32_at(bytes: Seq<u8>, i: int) -> int {
    bytes[i] * 16777216 + bytes[i + 1] * 65536 + bytes[i + 2] * 256 + bytes[i + 3]
}

/// The width a PNG stream's header gives: the first IHDR word.
pub open spec fn png_width(bytes: Seq<u8>) -> int {
    be_u32_at(bytes, 16)
}

/// The height a PNG stream's header gives: the second IHDR word.
pub open spec fn png_height(bytes: Seq<u8>) -> int {
    be_u32_at(bytes, 20)
}

/// The bytes are a PNG stream whose header (signature, then IHDR) gives an
/// image of `width` x `height` pixels.
pub open spec fn is_png_of_size(bytes: Seq<u8>, width: int, height: int) -> bool {
    &&& is_png(bytes)
    &&& bytes.len() >= 24
    &&& bytes.subrange(12, 16) == ihdr_chunk_type()
    &&& png_width(bytes) == width
    &&& png_height(bytes) == height
}

/// Whether `image` makes a PNG thumbnail of these bytes: the format it
/// guesses from them decodes them (`image::load_from_memory`, default limits)
/// into a colour type that its PNG encoder writes (8 or 16 bits per channel,
/// grey or RGB, with or without alpha). Both depend on the bytes alone.
pub uninterp spec fn thumbnail_encodes(data: Seq<u8>) -> bool;

/// Calls `image::load_from_memory`, `DynamicImage::resize_exact` with the
/// filter given and `DynamicImage::write_to` (`ImageFormat::Png`) into an
/// empty buffer. Claimed: it returns bytes exactly when the picture decodes
/// and its colour type encodes as PNG (resizing keeps the colour type; other
/// types are refused by `PngEncoder::write_image`), and those bytes start
/// with the PNG signature and an IHDR chunk holding the new width and height
/// (`png` writes them first, in `Writer::encode_header`). The pixels are left
/// unsaid: the filters compute in floating point, so they may differ from one
/// machine to another. The sizes are bounded so that the new buffer can be
/// allocated.
#[verifier::external_body]
fn png_thumbnail(data: &[u8], width: u32, height: u32, filter: ResizeFilter) -> (r: Option<Vec<u8>>)
    requires
        0 < width <= MAX_RESIZE,
        0 < height <= MAX_RESIZE,
    ensures
        r is Some <==> thumbnail_encodes(data@),
        r matches Some(v) ==> is_png_of_size(v@, width as int, height as int),
{
    let filter = match filter {
        ResizeFilter::Nearest => FilterType::Nearest,
        ResizeFilter::Triangle => FilterType::Triangle,
        ResizeFilter::CatmullRom => FilterType::CatmullRom,
        ResizeFilter::Gaussian => FilterType::Gaussian,
        ResizeFilter::Lanczos3 => FilterType::Lanczos3,
    };
    let resized = image::load_from_memory(data).ok()?.resize_exact(width, height, filter);
    let mut buffer: Vec<u8> = Vec::new();
    resized.write_to(&mut std::io::Cursor::new(&mut buffer), image::ImageFormat::Png).ok()?;
    Some(buffer)
}

/// The bytes the cover image is shown from: the thumbnail when one could be
/// made, else the picture as it was embedded.
pub open spec fn cover_bytes(original: Seq<u8>, thumbnail: Option<Seq<u8>>) -> Seq<u8> {
    match thumbnail {
        Some(t) => t,
        None => original,
    }
}

/// Chooses between a made thumbnail and the embedded picture.
pub fn choose_cover(original: Vec<u8>, thumbnail: Option<Vec<u8>>) -> (r: Vec<u8>)
    ensures
        r@ == cover_bytes(original@, match thumbnail { Some(t) => Some(t@), None => None }),
{
    match thumbnail {
        Some(t) => t,
        None => original,
    }
}

/// A PNG thumbnail of `width` x `height` pixels made with `filter`, or `None`
/// when the picture does not decode or its colour type has no PNG encoding.
pub fn make_thumbnail(data: &[u8], width: u32, height: u32, filter: ResizeFilter) -> (r: Option<Vec<u8>>)
    requires
        0 < width <= MAX_RESIZE,
        0 < height <= MAX_RESIZE,
    ensures
        r is Some <==> thumbnail_encodes(data@),
        r matches Some(v) ==> is_png_of_size(v@, width as int, height as int),
{
    png_thumbnail(data, width, height, filter)
}

/// The cover shown for an embedded picture: an 80x80 PNG thumbnail when one
/// can be made from it, else the picture itself.
pub open spec fn is_cover_art_of(cover: Seq<u8>, picture: Seq<u8>) -> bool {
    if thumbnail_encodes(picture) {
        is_png_of_size(cover, THUMBNAIL_SIZE as int, THUMBNAIL_SIZE as int)
    } else {
        cover == picture
    }
}

/// The bytes of the cover shown for an embedded picture: an 80x80 PNG
/// thumbnail (Lanczos3), or the picture itself when no thumbnail can be
/// made from it.
pub fn cover_art(data: Vec<u8>) -> (r: Vec<u8>)
    ensures
        thumbnail_encodes(data@) ==> is_png_of_size(r@, 80, 80),
        !thumbnail_encodes(data@) ==> r@ == data@,
        is_cover_art_of(r@, data@),
{
    let thumbnail = make_thumbnail(data.as_slice(), THUMBNAIL_SIZE, THUMBNAIL_SIZE, ResizeFilter::Lanczos3);
    choose_cover(data, thumbnail)
}

} // verus!
