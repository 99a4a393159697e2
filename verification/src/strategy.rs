//! The catalog of re-encoding strategies, in fixed priority order: lossless
//! PNG at best compression first, then JPEG at quality 100, then JPEG at
//! quality 90. Earlier entries are preferred; the order is part of the
//! library's contract.

use vstd::prelude::*;

use crate::codec::{encode_jpeg, encode_png_best, jpeg_encoding, png_encoding, LoadedImage};

verus! {

/// One candidate re-encoding: a codec together with its settings. Each
/// strategy is a pure transformation from a decoded image to encoded bytes
/// plus a fixed file extension.
#[derive(Clone, Copy, Debug, PartialEq, Eq, Structural)]
pub enum Strategy {
    /// Lossless PNG at maximum compression effort with adaptive filtering.
    PngBest,
    /// Lossy JPEG at the given quality on a 1..=100 scale.
    JpegQuality(u8),
}

/// What encoding an image under a strategy produces, stated over the bytes
/// the image was decoded from: the encoded bytes, or a codec failure.
pub open spec fn strategy_encoding(s: Strategy, src: Seq<u8>) -> Result<Seq<u8>, ()> {
    match s {
        Strategy::PngBest => png_encoding(src),
        Strategy::JpegQuality(quality) => jpeg_encoding(src, quality),
    }
}

/// The file extension an output written by this strategy carries, as bytes.
pub open spec fn spec_extension(s: Strategy) -> Seq<u8> {
    match s {
        Strategy::PngBest => seq![46u8, 112u8, 110u8, 103u8],  // ".png"
        Strategy::JpegQuality(_) => seq![46u8, 106u8, 112u8, 103u8],  // ".jpg"
    }
}

/// The catalog in priority order, highest fidelity first.
pub open spec fn spec_catalog() -> Seq<Strategy> {
    seq![Strategy::PngBest, Strategy::JpegQuality(100), Strategy::JpegQuality(90)]
}

/// Builds the fixed strategy catalog. Every call returns the same list, in
/// the same order: strategy precedence is deterministic.
pub fn catalog() -> (v: Vec<Strategy>)
    ensures
        v@ == spec_catalog(),
{
    let mut v: Vec<Strategy> = Vec::new();
    v.push(Strategy::PngBest);
    v.push(Strategy::JpegQuality(100));
    v.push(Strategy::JpegQuality(90));
    proof {
        assert(v@ =~= spec_catalog());
    }
    v
}

/// The file extension for outputs of this strategy: ".png" or ".jpg".
pub fn extension_of(s: Strategy) -> (r: Vec<u8>)
    ensures
        r@ == spec_extension(s),
{
    let mut r: Vec<u8> = Vec::new();
    r.push(46u8);
    match s {
        Strategy::PngBest => {
            r.push(112u8);
            r.push(110u8);
            r.push(103u8);
        },
        Strategy::JpegQuality(_) => {
            r.push(106u8);
            r.push(112u8);
            r.push(103u8);
        },
    }
    proof {
        assert(r@ =~= spec_extension(s));
    }
    r
}

/// Runs one strategy's encoder on a decoded image. Pure: the outcome depends
/// only on the image's source bytes and the strategy.
pub fn encode_with(img: &LoadedImage, s: Strategy) -> (r: Result<Vec<u8>, image::ImageError>)
    ensures
        r is Ok <==> strategy_encoding(s, img.source_bytes()) is Ok,
        r is Ok ==> strategy_encoding(s, img.source_bytes()) == Ok::<Seq<u8>, ()>(r.unwrap()@),
{
    match s {
        Strategy::PngBest => encode_png_best(img),
        Strategy::JpegQuality(quality) => encode_jpeg(img, quality),
    }
}

} // verus!
