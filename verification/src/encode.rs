//! Image encoding: packed RGBA pixels framed as a PNG stream by the `png`
//! crate.

use vstd::prelude::*;
use crate::error::PipelineError;
use crate::readback::row_bytes;

verus! {

/// The error type of the `png` encoder, carried through unopened.
#[verifier::external_type_specification]
#[verifier::external_body]
pub struct ExEncodingError(png::EncodingError);

/// What the `png` encoder, with its default compression and filter, makes of
/// an image `width` by `height` pixels with the packed 8-bit RGBA data
/// `pixels`: the PNG stream it writes, or `None` where it reports an error.
pub uninterp spec fn png_rgba8_outcome(width: u32, height: u32, pixels: Seq<u8>) -> Option<
    Seq<u8>,
>;

/// The four bytes of `value`, most significant first.
pub open spec fn big_endian(value: u32) -> Seq<u8> {
    seq![
        (value / 0x100_0000) as u8,
        (value / 0x1_0000 % 0x100) as u8,
        (value / 0x100 % 0x100) as u8,
        (value % 0x100) as u8,
    ]
}

/// The eight bytes every PNG stream begins with.
pub open spec fn png_signature() -> Seq<u8> {
    seq![137u8, 80u8, 78u8, 71u8, 13u8, 10u8, 26u8, 10u8]
}

/// `stream` begins as a PNG stream whose header chunk declares an image
/// `width` by `height` pixels with four 8-bit channels, red, green, blue and
/// alpha, not interlaced: the signature, the chunk's length of 13 and its
/// name `IHDR`, then the two sizes, bit depth 8, colour type 6 and three
/// zero bytes. The chunk's checksum follows.
pub open spec fn declares_rgba8(stream: Seq<u8>, width: u32, height: u32) -> bool {
    &&& stream.len() >= 33
    &&& stream.subrange(0, 8) == png_signature()
    &&& stream.subrange(8, 16) == seq![0u8, 0u8, 0u8, 13u8, 73u8, 72u8, 68u8, 82u8]
    &&& stream.subrange(16, 20) == big_endian(width)
    &&& stream.subrange(20, 24) == big_endian(height)
    &&& stream.subrange(24, 29) == seq![8u8, 6u8, 0u8, 0u8, 0u8]
}

/// Runs `png::Encoder` over an in-memory buffer: `Encoder::new` with the two
/// sizes, `set_color(ColorType::Rgba)`, `set_depth(BitDepth::Eight)`,
/// `write_header`, `Writer::write_image_data` with `pixels` and
/// `Writer::finish`.
///
/// Trusted: whether the encoder succeeds, and the stream it then wrote into
/// the buffer, depend on the two sizes and the pixels alone; and a stream it
/// wrote begins with the signature and the header chunk that `write_header`
/// writes from the sizes, the depth and the colour type. On which images it
/// succeeds is not claimed: with a buffer to write to, an error could only
/// come from the compressor underneath, which documents none and rules none
/// out. The encoder multiplies the sizes in `usize` without a check, so it is
/// only handed pixels whose number it can count.
#[verifier::external_body]
fn png_encode(width: u32, height: u32, pixels: &[u8]) -> (outcome: Result<
    Vec<u8>,
    png::EncodingError,
>)
    requires
        is_image(width, height, pixels@.len() as int),
    ensures
        outcome matches Ok(stream) ==> png_rgba8_outcome(width, height, pixels@) == Some(stream@),
        outcome is Err ==> png_rgba8_outcome(width, height, pixels@) is None,
        outcome matches Ok(stream) ==> declares_rgba8(stream@, width, height),
{
    let mut stream = Vec::new();
    let mut encoder = png::Encoder::new(&mut stream, width, height);
    encoder.set_color(png::ColorType::Rgba);
    encoder.set_depth(png::BitDepth::Eight);
    let mut writer = encoder.write_header()?;
    writer.write_image_data(pixels)?;
    writer.finish()?;
    Ok(stream)
}

/// `len` bytes are the packed pixels of an image `width` by `height` pixels
/// that has at least one pixel.
pub open spec fn is_image(width: u32, height: u32, len: int) -> bool {
    &&& width > 0
    &&& height > 0
    &&& len == row_bytes(width as int) * height
}

/// Whether `len` bytes are the packed pixels of an image `width` by `height`
/// pixels that has at least one pixel.
pub fn check_image(width: u32, height: u32, len: usize) -> (ok: bool)
    ensures
        ok == is_image(width, height, len as int),
{
    if width == 0 || height == 0 {
        return false;
    }
    assert(row_bytes(width as int) * height <= 4 * 0xffff_ffff * 0xffff_ffff) by (nonlinear_arith)
        requires
            0 <= width <= 0xffff_ffff,
            0 <= height <= 0xffff_ffff,
            row_bytes(width as int) == 4 * width,
    ;
    let expected: u128 = (width as u128) * 4 * (height as u128);
    len as u128 == expected
}

/// What the pipeline makes of the encoder's outcome: the stream where there
/// is one, [`PipelineError::Encode`] for any error.
pub fn encoded_or_error(outcome: Result<Vec<u8>, png::EncodingError>) -> (result: Result<
    Vec<u8>,
    PipelineError,
>)
    ensures
        outcome matches Ok(stream) ==> result == Ok::<Vec<u8>, PipelineError>(stream),
        outcome is Err ==> result == Err::<Vec<u8>, PipelineError>(PipelineError::Encode),
{
    match outcome {
        Ok(stream) => Ok(stream),
        Err(_) => Err(PipelineError::Encode),
    }
}

/// The stream that encoding gives: that of the encoder for the pixels of an
/// image with at least one pixel, none for any other pixels.
pub open spec fn encoded(width: u32, height: u32, pixels: Seq<u8>) -> Option<Seq<u8>> {
    if is_image(width, height, pixels.len() as int) {
        png_rgba8_outcome(width, height, pixels)
    } else {
        None
    }
}

/// Encodes packed RGBA pixels, 8 bits per channel, as a PNG stream.
///
/// Pixels that are not those of an image `width` by `height` with at least
/// one pixel are refused with [`PipelineError::Encode`] before the encoder
/// sees them. Of the others the encoder decides: its stream is handed on, its
/// error becomes [`PipelineError::Encode`].
pub fn encode_rgba8(width: u32, height: u32, pixels: &[u8]) -> (result: Result<
    Vec<u8>,
    PipelineError,
>)
    ensures
        result is Ok <==> is_image(width, height, pixels@.len() as int) && png_rgba8_outcome(
            width,
            height,
            pixels@,
        ) is Some,
        result matches Ok(stream) ==> encoded(width, height, pixels@) == Some(stream@),
        result matches Ok(stream) ==> declares_rgba8(stream@, width, height),
        result matches Err(e) ==> e == PipelineError::Encode,
{
    if !check_image(width, height, pixels.len()) {
        return Err(PipelineError::Encode);
    }
    encoded_or_error(png_encode(width, height, pixels))
}

} // verus!
