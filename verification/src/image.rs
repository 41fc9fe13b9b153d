//! Encoding of the image read back from the GPU as a PNG stream.

use crate::readback::{dense_len, row_bytes};
use vstd::prelude::*;

verus! {

/// `png::EncodingError`, the reason the encoder gave up. Nothing is said of
/// its value; it is only told apart from success.
#[verifier::external_type_specification]
#[verifier::external_body]
pub struct ExEncodingError(png::EncodingError);

/// The PNG stream that the `png` crate's encoder writes for an image of
/// `width` by `height` pixels with eight bits for each of red, green, blue and
/// alpha, all other settings left at their defaults.
pub uninterp spec fn png_stream(width: u32, height: u32, data: Seq<u8>) -> Seq<u8>;

/// The four bytes of `value`, highest first.
pub open spec fn be_bytes(value: u32) -> Seq<u8> {
    seq![
        (value / 0x100_0000) as u8,
        (value / 0x1_0000 % 0x100) as u8,
        (value / 0x100 % 0x100) as u8,
        (value % 0x100) as u8,
    ]
}

/// The first 29 bytes of every such stream: the PNG signature, then the start
/// of the header chunk, which declares 13 bytes of content under the name
/// `IHDR`: width, height, a bit depth of 8, colour type 6 (red, green, blue,
/// alpha), and zero for compression, filter and interlace methods.
pub open spec fn png_header(width: u32, height: u32) -> Seq<u8> {
    seq![137u8, 80, 78, 71, 13, 10, 26, 10] + seq![0u8, 0, 0, 13] + seq![73u8, 72, 68, 82]
        + be_bytes(width) + be_bytes(height) + seq![8u8, 6, 0, 0, 0]
}

/// Whether `stream` begins with the header of an image of these dimensions.
pub open spec fn starts_with_header(stream: Seq<u8>, width: u32, height: u32) -> bool {
    stream.len() >= 29 && stream.subrange(0, 29) == png_header(width, height)
}

/// Why an image was not encoded.
#[derive(Clone, Copy, Debug, PartialEq, Eq, Structural)]
pub enum ImageError {
    /// The image has no columns.
    ZeroWidth,
    /// The image has no rows.
    ZeroHeight,
    /// A row takes 4 GiB or more, or the image is larger than memory can hold.
    TooLarge,
    /// The pixel data does not have four bytes for every pixel.
    SizeMismatch { actual: usize },
}

/// Bytes of the image once every row is preceded by its filter byte, which is
/// the form the encoder compresses.
pub open spec fn filtered_len(width: int, height: int) -> int {
    (row_bytes(width) + 1) * height
}

/// Whether the encoder can take an image of these dimensions: a row stays
/// below 4 GiB, and the filtered image is no larger than an object in memory
/// may be.
pub open spec fn encodable(width: u32, height: u32) -> bool {
    &&& row_bytes(width as int) < 0x1_0000_0000
    &&& filtered_len(width as int, height as int) <= isize::MAX
}

/// The error an image of these dimensions is refused with, given the length
/// of its pixel data.
pub open spec fn refusal(width: u32, height: u32, len: int) -> Option<ImageError> {
    if width == 0 {
        Some(ImageError::ZeroWidth)
    } else if height == 0 {
        Some(ImageError::ZeroHeight)
    } else if !encodable(width, height) {
        Some(ImageError::TooLarge)
    } else if len != dense_len(width as int, height as int) {
        Some(ImageError::SizeMismatch { actual: len as usize })
    } else {
        None
    }
}

/// Runs the `png` crate's encoder over an in-memory buffer: `Encoder::new`,
/// `set_color` with `Rgba`, `set_depth` with `Eight`, `write_header`,
/// `write_image_data` and `finish`.
///
/// With a buffer as the sink no write can fail, so the encoder's own checks
/// are the only source of errors: it refuses a width or height of zero and
/// pixel data whose length is not four bytes per pixel. What it writes is
/// named `png_stream`; of its content only the leading header bytes are
/// stated.
///
/// The encoder compresses one filtered row at a time and counts the zero
/// bytes of a row in 32 bits, and it computes the length of the whole
/// filtered image in `usize`; images beyond either limit are kept out.
#[verifier::external_body]
fn encode_rgba8(
    data: &[u8],
    width: u32,
    height: u32,
) -> (stream: Result<Vec<u8>, png::EncodingError>)
    requires
        encodable(width, height),
    ensures
        stream is Ok <==> refusal(width, height, data@.len() as int) is None,
        stream matches Ok(bytes) ==> bytes@ == png_stream(width, height, data@),
        stream matches Ok(bytes) ==> starts_with_header(bytes@, width, height),
{
    let mut out: Vec<u8> = Vec::new();
    let mut encoder = png::Encoder::new(&mut out, width, height);
    encoder.set_color(png::ColorType::Rgba);
    encoder.set_depth(png::BitDepth::Eight);
    let mut writer = encoder.write_header()?;
    writer.write_image_data(data)?;
    writer.finish()?;
    Ok(out)
}

/// Decides whether the encoder can take an image of these dimensions.
fn fits_encoder(width: u32, height: u32) -> (fits: bool)
    ensures
        fits == encodable(width, height),
{
    let row: u64 = 4 * (width as u64);
    assert((row + 1) * height <= u128::MAX && (row + 1) * height == filtered_len(
        width as int,
        height as int,
    )) by (nonlinear_arith)
        requires
            row == 4 * width,
            width <= u32::MAX,
            height <= u32::MAX,
    ;
    let filtered: u128 = ((row + 1) as u128) * (height as u128);
    row < 0x1_0000_0000 && filtered <= isize::MAX as u128
}

/// Names the reason an image was refused.
fn classify(width: u32, height: u32, len: usize) -> (error: ImageError)
    requires
        refusal(width, height, len as int) is Some,
    ensures
        Some(error) == refusal(width, height, len as int),
{
    if width == 0 {
        ImageError::ZeroWidth
    } else if height == 0 {
        ImageError::ZeroHeight
    } else if !fits_encoder(width, height) {
        ImageError::TooLarge
    } else {
        ImageError::SizeMismatch { actual: len }
    }
}

/// Encodes densely packed RGBA pixels as a PNG stream.
///
/// An image is encoded exactly when it has at least one pixel, is of a size
/// the encoder can take, and `data` holds four bytes for each pixel;
/// otherwise the reason is returned.
pub fn encode_png(data: &[u8], width: u32, height: u32) -> (stream: Result<Vec<u8>, ImageError>)
    ensures
        match refusal(width, height, data@.len() as int) {
            None => stream matches Ok(bytes) && {
                &&& bytes@ == png_stream(width, height, data@)
                &&& starts_with_header(bytes@, width, height)
            },
            Some(error) => stream == Err::<Vec<u8>, ImageError>(error),
        },
{
    if !fits_encoder(width, height) {
        return Err(classify(width, height, data.len()));
    }
    match encode_rgba8(data, width, height) {
        Ok(bytes) => Ok(bytes),
        Err(_) => Err(classify(width, height, data.len())),
    }
}

/// A stream that starts with the header declares, at fixed places, the PNG
/// signature, the width and the height with the highest byte first, a bit
/// depth of 8 and the colour type 6 of red, green, blue and alpha.
pub proof fn lemma_header_fields(stream: Seq<u8>, width: u32, height: u32)
    requires
        starts_with_header(stream, width, height),
    ensures
        stream.subrange(0, 8) == seq![137u8, 80, 78, 71, 13, 10, 26, 10],
        stream.subrange(12, 16) == seq![73u8, 72, 68, 82],
        stream.subrange(16, 20) == be_bytes(width),
        stream.subrange(20, 24) == be_bytes(height),
        stream[24] == 8,
        stream[25] == 6,
        width == stream[16] * 0x100_0000 + stream[17] * 0x1_0000 + stream[18] * 0x100 + stream[19],
        height == stream[20] * 0x100_0000 + stream[21] * 0x1_0000 + stream[22] * 0x100
            + stream[23],
{
    let header = png_header(width, height);
    lemma_header_layout(width, height);
    assert forall|i: int| 0 <= i < 29 implies stream[i] == header[i] by {
        assert(stream.subrange(0, 29)[i] == stream[i]);
    }
    assert(stream.subrange(0, 8) =~= seq![137u8, 80, 78, 71, 13, 10, 26, 10]);
    assert(stream.subrange(12, 16) =~= seq![73u8, 72, 68, 82]);
    assert(stream.subrange(16, 20) =~= be_bytes(width));
    assert(stream.subrange(20, 24) =~= be_bytes(height));
}

/// Where each part of the header lies.
proof fn lemma_header_layout(width: u32, height: u32)
    ensures
        png_header(width, height).len() == 29,
        png_header(width, height).subrange(0, 8) == seq![137u8, 80, 78, 71, 13, 10, 26, 10],
        png_header(width, height).subrange(12, 16) == seq![73u8, 72, 68, 82],
        png_header(width, height).subrange(16, 20) == be_bytes(width),
        png_header(width, height).subrange(20, 24) == be_bytes(height),
        png_header(width, height)[24] == 8,
        png_header(width, height)[25] == 6,
        width == png_header(width, height)[16] * 0x100_0000 + png_header(width, height)[17]
            * 0x1_0000 + png_header(width, height)[18] * 0x100 + png_header(width, height)[19],
        height == png_header(width, height)[20] * 0x100_0000 + png_header(width, height)[21]
            * 0x1_0000 + png_header(width, height)[22] * 0x100 + png_header(width, height)[23],
{
    let start = seq![137u8, 80, 78, 71, 13, 10, 26, 10] + seq![0u8, 0, 0, 13] + seq![
        73u8,
        72,
        68,
        82,
    ];
    let sized = start + be_bytes(width) + be_bytes(height);
    let header = sized + seq![8u8, 6, 0, 0, 0];
    assert(header == png_header(width, height));
    assert(start.len() == 16);
    assert(sized.len() == 24);
    assert(header.len() == 29);
    assert(header.subrange(0, 8) =~= seq![137u8, 80, 78, 71, 13, 10, 26, 10]);
    assert(header.subrange(12, 16) =~= seq![73u8, 72, 68, 82]);
    assert(header.subrange(16, 20) =~= be_bytes(width));
    assert(header.subrange(20, 24) =~= be_bytes(height));
    assert(header[16] == be_bytes(width)[0] && header[17] == be_bytes(width)[1]);
    assert(header[18] == be_bytes(width)[2] && header[19] == be_bytes(width)[3]);
    assert(header[20] == be_bytes(height)[0] && header[21] == be_bytes(height)[1]);
    assert(header[22] == be_bytes(height)[2] && header[23] == be_bytes(height)[3]);
    lemma_be_bytes_value(width);
    lemma_be_bytes_value(height);
}

/// The four bytes of a value, highest first, give the value back.
proof fn lemma_be_bytes_value(value: u32)
    ensures
        value == be_bytes(value)[0] * 0x100_0000 + be_bytes(value)[1] * 0x1_0000 + be_bytes(
            value,
        )[2] * 0x100 + be_bytes(value)[3],
{
}

} // verus!
