//! The trusted boundary to the `image` codec crate: decoding a file's bytes
//! into an in-memory image, and re-encoding that image as PNG or JPEG.
//!
//! Decoding and encoding are deterministic: they depend on the input bytes
//! alone. Their results are therefore given names (`decodes`, `png_encoding`,
//! `jpeg_encoding`) that the rest of the library reasons with, without
//! restating the codecs' algorithms.

use vstd::prelude::*;

verus! {

#[verifier::external_type_specification]
#[verifier::external_body]
pub struct ExDynamicImage(image::DynamicImage);

#[verifier::external_type_specification]
#[verifier::external_body]
pub struct ExImageError(image::ImageError);

/// Whether the `image` crate, guessing the format from the content, can
/// decode these bytes as an image.
pub uninterp spec fn decodes(src: Seq<u8>) -> bool;

/// What PNG re-encoding, at best compression with adaptive filtering, of the
/// image decoded from `src` produces: the encoded bytes, or a codec failure.
pub uninterp spec fn png_encoding(src: Seq<u8>) -> Result<Seq<u8>, ()>;

/// What JPEG re-encoding at the given quality of the image decoded from
/// `src` produces: the encoded bytes, or a codec failure.
pub uninterp spec fn jpeg_encoding(src: Seq<u8>, quality: u8) -> Result<Seq<u8>, ()>;

/// A decoded in-memory image, together with the bytes it was decoded from.
///
/// Values are built only by `decode_image`, so the image field always holds
/// exactly the image the `image` crate decodes from `source_bytes`; the
/// encoding wrappers below state their results over those bytes.
pub struct LoadedImage {
    image: image::DynamicImage,
    source: Ghost<Seq<u8>>,
}

impl LoadedImage {
    /// The bytes of the file this image was decoded from.
    pub closed spec fn source_bytes(self) -> Seq<u8> {
        self.source@
    }
}

/// Relies on `image::load_from_memory`: guesses the format from the bytes and
/// decodes them; success and the decoded image depend on the bytes alone.
#[verifier::external_body]
fn load_from_memory(data: &Vec<u8>) -> (r: Result<image::DynamicImage, image::ImageError>)
    ensures
        r is Ok <==> decodes(data@),
{
    image::load_from_memory(data)
}

/// Decodes the bytes of an image file, recording which bytes the image came
/// from so that later re-encodings can be stated over them.
pub fn decode_image(data: &Vec<u8>) -> (r: Result<LoadedImage, image::ImageError>)
    ensures
        r is Ok <==> decodes(data@),
        r matches Ok(img) ==> img.source_bytes() == data@,
{
    match load_from_memory(data) {
        Ok(image) => Ok(LoadedImage { image, source: Ghost(data@) }),
        Err(e) => Err(e),
    }
}

/// Relies on `DynamicImage::write_with_encoder` with a
/// `png::PngEncoder` built by `new_with_quality` at `CompressionType::Best`
/// and `FilterType::Adaptive`: the encoder writes only to the buffer handed
/// to it, and its output depends on the decoded image alone.
#[verifier::external_body]
pub(crate) fn encode_png_best(img: &LoadedImage) -> (r: Result<Vec<u8>, image::ImageError>)
    ensures
        r is Ok <==> png_encoding(img.source_bytes()) is Ok,
        r is Ok ==> png_encoding(img.source_bytes()) == Ok::<Seq<u8>, ()>(r.unwrap()@),
{
    let mut buf = Vec::new();
    let encoder = image::codecs::png::PngEncoder::new_with_quality(
        &mut buf,
        image::codecs::png::CompressionType::Best,
        image::codecs::png::FilterType::Adaptive,
    );
    match img.image.write_with_encoder(encoder) {
        Ok(()) => Ok(buf),
        Err(e) => Err(e),
    }
}

/// Relies on `DynamicImage::write_with_encoder` with a
/// `jpeg::JpegEncoder` built by `new_with_quality`: the quality is clamped to
/// 1..=100 rather than rejected, the encoder writes only to the buffer handed
/// to it, and its output depends on the decoded image and the quality alone.
#[verifier::external_body]
pub(crate) fn encode_jpeg(img: &LoadedImage, quality: u8) -> (r: Result<
    Vec<u8>,
    image::ImageError,
>)
    ensures
        r is Ok <==> jpeg_encoding(img.source_bytes(), quality) is Ok,
        r is Ok ==> jpeg_encoding(img.source_bytes(), quality) == Ok::<Seq<u8>, ()>(r.unwrap()@),
{
    let mut buf = Vec::new();
    let encoder = image::codecs::jpeg::JpegEncoder::new_with_quality(&mut buf, quality);
    match img.image.write_with_encoder(encoder) {
        Ok(()) => Ok(buf),
        Err(e) => Err(e),
    }
}

} // verus!
