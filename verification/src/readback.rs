//! Layout of the staging buffer used to read an image back, and the step that
//! turns the mapped buffer into densely packed pixels.

use crate::dispatch::groups_needed;
use vstd::prelude::*;

verus! {

/// Bytes per pixel of the output format: four channels of eight bits.
pub const BYTES_PER_PIXEL: u32 = 4;

/// Row pitch alignment that buffer copies are laid out with.
pub const ROW_PITCH_ALIGNMENT: u32 = 256;

/// Bytes in one densely packed row of `width` pixels.
pub open spec fn row_bytes(width: int) -> int {
    4 * width
}

/// Bytes in a densely packed image of `width` by `height` pixels.
pub open spec fn dense_len(width: int, height: int) -> int {
    4 * width * height
}

/// The smallest multiple of `alignment` that holds one dense row.
pub open spec fn padded_row_bytes(width: int, alignment: int) -> int
    recommends
        width >= 0,
        alignment > 0,
{
    groups_needed(row_bytes(width), alignment) * alignment
}

/// The dense image held in a buffer whose rows start every `pitch` bytes:
/// byte `i` of the image is byte `i % row` of buffer row `i / row`.
pub open spec fn dense_pixels(mapped: Seq<u8>, width: int, height: int, pitch: int) -> Seq<u8> {
    Seq::new(
        dense_len(width, height) as nat,
        |i: int| mapped[(i / row_bytes(width)) * pitch + i % row_bytes(width)],
    )
}

/// Why a mapped staging buffer was not accepted.
#[derive(Clone, Copy, Debug, PartialEq, Eq, Structural)]
pub enum ReadbackError {
    /// The mapped range does not have the length the layout asks for.
    LengthMismatch { expected: u64, actual: u64 },
}

/// How an image of `width` by `height` pixels lies in a staging buffer.
#[derive(Clone, Copy, Debug)]
pub struct ReadbackLayout {
    width: u32,
    height: u32,
    bytes_per_row: u32,
    buffer_size: u64,
}

impl ReadbackLayout {
    #[verifier::type_invariant]
    spec fn valid(self) -> bool {
        &&& row_bytes(self.width as int) <= self.bytes_per_row
        &&& self.buffer_size == self.bytes_per_row * self.height
        &&& dense_len(self.width as int, self.height as int) <= usize::MAX
    }

    /// Width of the image, in pixels.
    pub closed spec fn width_spec(self) -> u32 {
        self.width
    }

    /// Height of the image, in pixels.
    pub closed spec fn height_spec(self) -> u32 {
        self.height
    }

    /// Distance in bytes between the starts of two rows in the buffer.
    pub closed spec fn pitch_spec(self) -> u32 {
        self.bytes_per_row
    }

    /// Size of the staging buffer, in bytes.
    pub closed spec fn size_spec(self) -> u64 {
        self.buffer_size
    }

    /// The layout for the given image and row alignment, where one exists:
    /// the alignment is positive, the padded row fits in 32 bits and the
    /// dense image can be held in memory.
    pub open spec fn layout_exists(width: u32, height: u32, alignment: u32) -> bool {
        &&& alignment > 0
        &&& padded_row_bytes(width as int, alignment as int) <= u32::MAX
        &&& dense_len(width as int, height as int) <= usize::MAX
    }

    /// Lays out the staging buffer for an image of `width` by `height` pixels
    /// whose rows must start at multiples of `alignment` bytes.
    pub fn new(width: u32, height: u32, alignment: u32) -> (layout: Option<ReadbackLayout>)
        ensures
            layout is Some <==> Self::layout_exists(width, height, alignment),
            layout matches Some(l) ==> {
                &&& l.width_spec() == width
                &&& l.height_spec() == height
                &&& l.pitch_spec() == padded_row_bytes(width as int, alignment as int)
                &&& l.size_spec() == l.pitch_spec() * height
                &&& l.pitch_spec() >= row_bytes(width as int)
                &&& l.pitch_spec() % alignment == 0
                &&& l.pitch_spec() - row_bytes(width as int) < alignment
            },
    {
        if alignment == 0 {
            return None;
        }
        let row: u64 = 4 * (width as u64);
        let whole: u64 = row / (alignment as u64);
        let blocks: u64 = if row % (alignment as u64) == 0 {
            whole
        } else {
            whole + 1
        };
        proof {
            crate::dispatch::lemma_groups_needed_is_least(row as int, alignment as int);
            crate::dispatch::lemma_groups_needed_by_parts(row as int, alignment as int);
            let n = groups_needed(row as int, alignment as int);
            assert(n == blocks);
            assert(blocks * alignment < row + alignment) by (nonlinear_arith)
                requires
                    n == blocks,
                    alignment > 0,
                    row > 0 ==> (n - 1) * alignment < row,
                    row == 0 ==> n == 0,
            ;
            assert((blocks * alignment) % (alignment as int) == 0) by (nonlinear_arith)
                requires
                    alignment > 0,
            ;
        }
        let pitch: u64 = blocks * (alignment as u64);
        if pitch > u32::MAX as u64 {
            return None;
        }
        assert(row * height <= u128::MAX) by (nonlinear_arith)
            requires
                row <= u64::MAX,
                height <= u32::MAX,
        ;
        let dense: u128 = (row as u128) * (height as u128);
        assert(dense == dense_len(width as int, height as int)) by (nonlinear_arith)
            requires
                dense == row * height,
                row == 4 * width,
        ;
        if dense > usize::MAX as u128 {
            return None;
        }
        let bytes_per_row: u32 = pitch as u32;
        assert(bytes_per_row * height <= u64::MAX) by (nonlinear_arith)
            requires
                bytes_per_row <= u32::MAX,
                height <= u32::MAX,
        ;
        let buffer_size: u64 = (bytes_per_row as u64) * (height as u64);
        Some(ReadbackLayout { width, height, bytes_per_row, buffer_size })
    }

    /// Width of the image, in pixels.
    pub fn width(&self) -> (w: u32)
        ensures
            w == self.width_spec(),
    {
        self.width
    }

    /// Height of the image, in pixels.
    pub fn height(&self) -> (h: u32)
        ensures
            h == self.height_spec(),
    {
        self.height
    }

    /// Distance in bytes between the starts of two rows in the buffer.
    pub fn bytes_per_row(&self) -> (pitch: u32)
        ensures
            pitch == self.pitch_spec(),
            pitch >= row_bytes(self.width_spec() as int),
    {
        proof {
            use_type_invariant(self);
        }
        self.bytes_per_row
    }

    /// Size of the staging buffer, in bytes.
    pub fn buffer_size(&self) -> (size: u64)
        ensures
            size == self.size_spec(),
            size == self.pitch_spec() * self.height_spec(),
    {
        proof {
            use_type_invariant(self);
        }
        self.buffer_size
    }

    /// Length in bytes of the densely packed image that `unpack` returns.
    pub fn image_len(&self) -> (len: usize)
        ensures
            len == dense_len(self.width_spec() as int, self.height_spec() as int),
    {
        proof {
            use_type_invariant(self);
        }
        if self.height == 0 {
            assert(dense_len(self.width as int, 0) == 0) by (nonlinear_arith);
            return 0;
        }
        assert(4 * self.width <= dense_len(self.width as int, self.height as int))
            by (nonlinear_arith)
            requires
                self.height >= 1,
        ;
        let row: usize = 4 * (self.width as usize);
        assert(row * self.height == dense_len(self.width as int, self.height as int))
            by (nonlinear_arith)
            requires
                row == 4 * self.width,
        ;
        row * (self.height as usize)
    }

    /// Copies the image out of the mapped staging buffer, dropping the padding
    /// at the end of each row. The buffer is refused unless its length is the
    /// size this layout was made for.
    pub fn unpack(&self, mapped: &[u8]) -> (out: Result<Vec<u8>, ReadbackError>)
        ensures
            out is Ok <==> mapped@.len() == self.size_spec(),
            out matches Ok(pixels) ==> {
                &&& pixels@.len() == dense_len(
                    self.width_spec() as int,
                    self.height_spec() as int,
                )
                &&& pixels@ == dense_pixels(
                    mapped@,
                    self.width_spec() as int,
                    self.height_spec() as int,
                    self.pitch_spec() as int,
                )
            },
            out matches Err(e) ==> e == (ReadbackError::LengthMismatch {
                expected: self.size_spec(),
                actual: mapped@.len() as u64,
            }),
    {
        proof {
            use_type_invariant(self);
        }
        let actual: u64 = mapped.len() as u64;
        if actual != self.buffer_size {
            return Err(ReadbackError::LengthMismatch { expected: self.buffer_size, actual });
        }
        let total: usize = self.image_len();
        let mut pixels: Vec<u8> = Vec::new();
        if total == 0 {
            assert(pixels@ =~= dense_pixels(
                mapped@,
                self.width as int,
                self.height as int,
                self.bytes_per_row as int,
            ));
            return Ok(pixels);
        }
        assert(self.width > 0 && self.height > 0 && 4 * self.width <= total) by (nonlinear_arith)
            requires
                total == 4 * self.width * self.height,
                total > 0,
        ;
        let row: usize = 4 * (self.width as usize);
        let pitch: usize = self.bytes_per_row as usize;
        let height: usize = self.height as usize;
        let mut r: usize = 0;
        while r < height
            invariant
                r <= height,
                0 < row <= pitch,
                row == row_bytes(self.width as int),
                pitch * height == mapped@.len(),
                mapped@.len() <= usize::MAX,
                pixels@.len() == r * row,
                forall|i: int|
                    0 <= i < pixels@.len() ==> pixels@[i] == mapped@[(i / row as int) * pitch + i
                        % row as int],
            decreases height - r,
        {
            assert(r * pitch + pitch <= pitch * height && r * pitch >= 0) by (nonlinear_arith)
                requires
                    r < height,
                    pitch >= 0,
            ;
            let base: usize = r * pitch;
            let mut c: usize = 0;
            while c < row
                invariant
                    c <= row,
                    r < height,
                    0 < row <= pitch,
                    base == r * pitch,
                    base + pitch <= mapped@.len(),
                    mapped@.len() <= usize::MAX,
                    pixels@.len() == r * row + c,
                    forall|i: int|
                        0 <= i < pixels@.len() ==> pixels@[i] == mapped@[(i / row as int) * pitch
                            + i % row as int],
                decreases row - c,
            {
                let byte: u8 = mapped[base + c];
                proof {
                    lemma_row_and_column(r as int, c as int, row as int);
                }
                pixels.push(byte);
                c = c + 1;
            }
            assert(r * row + row == (r + 1) * row) by (nonlinear_arith);
            r = r + 1;
        }
        assert(pixels@.len() == dense_len(self.width as int, self.height as int))
            by (nonlinear_arith)
            requires
                pixels@.len() == height * row,
                row == 4 * self.width,
                height == self.height,
        ;
        assert(pixels@ =~= dense_pixels(
            mapped@,
            self.width as int,
            self.height as int,
            self.bytes_per_row as int,
        ));
        Ok(pixels)
    }
}

/// Byte `column` of row `line` is at index `line * row + column` of the dense
/// image, and that index leads back to the same line and column.
proof fn lemma_row_and_column(line: int, column: int, row: int)
    requires
        line >= 0,
        0 <= column < row,
    ensures
        (line * row + column) / row == line,
        (line * row + column) % row == column,
{
    let i = line * row + column;
    assert(i == row * (i / row) + i % row && 0 <= i % row < row) by (nonlinear_arith)
        requires
            row > 0,
    ;
    assert(i / row == line) by (nonlinear_arith)
        requires
            i == line * row + column,
            i == row * (i / row) + i % row,
            0 <= i % row < row,
            0 <= column < row,
    ;
    assert(i % row == column) by (nonlinear_arith)
        requires
            i == line * row + column,
            i == row * (i / row) + i % row,
            i / row == line,
    ;
}

/// When rows are not padded, the staging buffer already is the dense image:
/// unpacking a buffer whose pitch is the row length changes nothing.
pub proof fn lemma_unpadded_buffer_is_image(mapped: Seq<u8>, width: int, height: int)
    requires
        width >= 0,
        height >= 0,
        mapped.len() == dense_len(width, height),
    ensures
        dense_pixels(mapped, width, height, row_bytes(width)) == mapped,
{
    let row = row_bytes(width);
    let image = dense_pixels(mapped, width, height, row);
    assert(image.len() == mapped.len());
    assert forall|i: int| 0 <= i < image.len() implies image[i] == mapped[i] by {
        assert(row > 0) by (nonlinear_arith)
            requires
                row == 4 * width,
                width >= 0,
                0 <= i < 4 * width * height,
        ;
        assert((i / row) * row + i % row == i) by (nonlinear_arith)
            requires
                row > 0,
        ;
    }
    assert(image =~= mapped);
}

/// Unpacking keeps every pixel where the copy put it: byte `column` of row
/// `line` of the image is the byte at `line * pitch + column` of the buffer.
pub proof fn lemma_unpacked_pixel(
    mapped: Seq<u8>,
    width: int,
    height: int,
    pitch: int,
    line: int,
    column: int,
)
    requires
        0 <= line < height,
        0 <= column < row_bytes(width),
    ensures
        0 <= line * row_bytes(width) + column < dense_len(width, height),
        dense_pixels(mapped, width, height, pitch)[line * row_bytes(width) + column]
            == mapped[line * pitch + column],
{
    let row = row_bytes(width);
    lemma_row_and_column(line, column, row);
    assert(0 <= line * row + column < 4 * width * height) by (nonlinear_arith)
        requires
            0 <= line < height,
            0 <= column < row,
            row == 4 * width,
    ;
}

/// Rows whose length is a multiple of the alignment are not padded: the
/// pitch is four bytes per pixel of a row, and the staging buffer is exactly
/// as large as the dense image.
pub proof fn lemma_aligned_rows_need_no_padding(width: int, height: int, alignment: int)
    requires
        width >= 0,
        height >= 0,
        alignment > 0,
        row_bytes(width) % alignment == 0,
    ensures
        padded_row_bytes(width, alignment) == row_bytes(width),
        padded_row_bytes(width, alignment) * height == dense_len(width, height),
{
    crate::dispatch::lemma_groups_needed_is_least(row_bytes(width), alignment);
    assert(row_bytes(width) * height == dense_len(width, height)) by (nonlinear_arith);
}

} // verus!
