//! Texture readback: the row-padded layout of the buffer a texture is copied
//! into, and the removal of that padding.
//!
//! A GPU copies a texture into a buffer row by row, and every row must start
//! at a multiple of [`ROW_ALIGNMENT`] bytes. A row of the buffer therefore
//! holds the pixels of the row followed by up to 255 bytes of padding.

use vstd::prelude::*;
use vstd::slice::slice_subrange;
use crate::board::{Config, BOARD_CELLS};
use crate::error::PipelineError;

verus! {

/// Bytes per pixel: red, green, blue, alpha.
pub const BYTES_PER_PIXEL: u32 = 4;

/// Every row of the buffer starts at a multiple of this many bytes.
pub const ROW_ALIGNMENT: u32 = 256;

/// Bytes of pixel data in a row `width` pixels wide.
pub open spec fn row_bytes(width: int) -> int {
    BYTES_PER_PIXEL * width
}

/// The least multiple of [`ROW_ALIGNMENT`] that holds a row `width` pixels
/// wide.
pub open spec fn padded_stride(width: int) -> int {
    (row_bytes(width) + ROW_ALIGNMENT - 1) / (ROW_ALIGNMENT as int) * ROW_ALIGNMENT
}

/// Row `r` of `data`: the `len` bytes from offset `r * stride`.
pub open spec fn row(data: Seq<u8>, r: int, stride: int, len: int) -> Seq<u8> {
    data.subrange(r * stride, r * stride + len)
}

/// The first `rows` rows of `data` without their padding, one after another.
pub open spec fn packed_rows(data: Seq<u8>, rows: int, stride: int, len: int) -> Seq<u8>
    decreases rows,
{
    if rows <= 0 {
        Seq::empty()
    } else {
        packed_rows(data, rows - 1, stride, len) + row(data, rows - 1, stride, len)
    }
}

/// The stride is a multiple of the alignment, holds the row, and pads it by
/// less than the alignment.
pub proof fn lemma_stride_bounds(width: int)
    requires
        0 <= width,
    ensures
        padded_stride(width) >= row_bytes(width),
        padded_stride(width) % (ROW_ALIGNMENT as int) == 0,
        padded_stride(width) - row_bytes(width) < ROW_ALIGNMENT,
{
    let b = row_bytes(width);
    let q = (b + 255) / 256;
    assert(q * 256 % 256 == 0) by (nonlinear_arith);
}

/// No other number is a multiple of the alignment, holds the row, and pads
/// it by less than the alignment.
pub proof fn lemma_stride_unique(width: int, stride: int)
    requires
        0 <= width,
        stride >= row_bytes(width),
        stride % (ROW_ALIGNMENT as int) == 0,
        stride - row_bytes(width) < ROW_ALIGNMENT,
    ensures
        stride == padded_stride(width),
{
    lemma_stride_bounds(width);
    let s = padded_stride(width);
    assert(stride == (stride / 256) * 256);
    assert(s == (s / 256) * 256);
    if stride / 256 < s / 256 {
        assert(stride / 256 + 1 <= s / 256);
    } else if stride / 256 > s / 256 {
        assert(s / 256 + 1 <= stride / 256);
    }
}

/// A row whose pixel data already ends on the alignment is not padded.
pub proof fn lemma_aligned_row_unpadded(width: int)
    requires
        0 <= width,
        row_bytes(width) % (ROW_ALIGNMENT as int) == 0,
    ensures
        padded_stride(width) == row_bytes(width),
{
    lemma_stride_unique(width, row_bytes(width));
}

/// The stride of a row `width` pixels wide, or [`PipelineError::Conversion`]
/// where it does not fit 32 bits.
pub fn stride_for(width: u32) -> (result: Result<u32, PipelineError>)
    ensures
        result is Ok <==> padded_stride(width as int) <= u32::MAX,
        result matches Ok(stride) ==> stride == padded_stride(width as int),
        result matches Err(e) ==> e == PipelineError::Conversion,
{
    proof {
        lemma_stride_bounds(width as int);
    }
    let bytes = match width.checked_mul(BYTES_PER_PIXEL) {
        Some(bytes) => bytes,
        None => {
            return Err(PipelineError::Conversion);
        },
    };
    let over = bytes % ROW_ALIGNMENT;
    if over == 0 {
        proof {
            lemma_aligned_row_unpadded(width as int);
        }
        Ok(bytes)
    } else {
        proof {
            lemma_stride_unique(width as int, bytes + (ROW_ALIGNMENT - over));
        }
        match bytes.checked_add(ROW_ALIGNMENT - over) {
            Some(stride) => Ok(stride),
            None => Err(PipelineError::Conversion),
        }
    }
}

/// The packed rows have no padding between them, and row `r` of them is the
/// pixel data of row `r` of the buffer: the padding is dropped and nothing
/// else, and the rows keep their order.
pub proof fn lemma_packed_rows(data: Seq<u8>, rows: int, stride: int, len: int, r: int)
    requires
        0 <= stride,
        0 <= len,
        0 <= r < rows,
        (rows - 1) * stride + len <= data.len(),
    ensures
        packed_rows(data, rows, stride, len).len() == rows * len,
        row(packed_rows(data, rows, stride, len), r, len, len) == row(data, r, stride, len),
    decreases rows,
{
    let before = packed_rows(data, rows - 1, stride, len);
    let last = row(data, rows - 1, stride, len);
    assert((rows - 1) * stride >= 0) by (nonlinear_arith)
        requires
            rows >= 1,
            stride >= 0,
    ;
    assert(last.len() == len);
    if rows == 1 {
        assert(before.len() == 0);
        assert((before + last) =~= last);
    } else {
        assert((rows - 2) * stride + len <= (rows - 1) * stride + len) by (nonlinear_arith)
            requires
                stride >= 0,
        ;
        lemma_packed_rows(data, rows - 1, stride, len, 0);
        assert(before.len() == (rows - 1) * len);
        assert((rows - 1) * len + len == rows * len) by (nonlinear_arith);
        if r < rows - 1 {
            lemma_packed_rows(data, rows - 1, stride, len, r);
            assert(r * len + len <= (rows - 1) * len) by (nonlinear_arith)
                requires
                    0 <= r < rows - 1,
                    0 <= len,
            ;
            assert(r * len >= 0) by (nonlinear_arith)
                requires
                    0 <= r,
                    0 <= len,
            ;
            assert(row(before + last, r, len, len) =~= row(before, r, len, len));
        } else {
            assert(row(before + last, r, len, len) =~= last);
        }
    }
}

/// A texture `width` by `height` pixels and the stride of its rows in the
/// buffer it is read back through.
#[derive(Clone, Copy, Debug, PartialEq, Eq, Structural)]
pub struct Layout {
    pub width: u32,
    pub height: u32,
    pub stride: u32,
}

impl Layout {
    /// Bytes in the padded buffer.
    pub open spec fn buffer_len(self) -> int {
        self.stride * self.height
    }

    /// Bytes in the packed pixels.
    pub open spec fn packed_len(self) -> int {
        row_bytes(self.width as int) * self.height
    }

    /// A buffer of `len` bytes holds the pixel data of every row, and the
    /// packed pixels can be addressed.
    pub open spec fn readable_from(self, len: int) -> bool {
        &&& self.packed_len() <= usize::MAX
        &&& self.height > 0 ==> (self.height - 1) * self.stride + row_bytes(self.width as int)
            <= len
    }

    /// The layout of a texture `width` by `height` pixels, or
    /// [`PipelineError::Conversion`] where its stride does not fit 32 bits.
    pub fn new(width: u32, height: u32) -> (result: Result<Layout, PipelineError>)
        ensures
            result is Ok <==> padded_stride(width as int) <= u32::MAX,
            result matches Ok(layout) ==> layout == (Layout {
                width,
                height,
                stride: padded_stride(width as int) as u32,
            }),
            result matches Err(e) ==> e == PipelineError::Conversion,
    {
        match stride_for(width) {
            Ok(stride) => Ok(Layout { width, height, stride }),
            Err(e) => Err(e),
        }
    }

    /// The layout of the texture a board is rendered into: a square with a
    /// side of as many pixels as the board has.
    pub fn for_board(config: &Config) -> (result: Result<Layout, PipelineError>)
        ensures
            result is Ok <==> padded_stride(BOARD_CELLS * config.cell_size) <= u32::MAX,
            result matches Ok(layout) ==> {
                &&& layout.width == BOARD_CELLS * config.cell_size
                &&& layout.height == BOARD_CELLS * config.cell_size
                &&& layout.stride == padded_stride(BOARD_CELLS * config.cell_size)
            },
            result matches Err(e) ==> e == PipelineError::Conversion,
    {
        proof {
            lemma_stride_bounds(BOARD_CELLS * config.cell_size);
        }
        match config.dimension() {
            Ok(side) => Layout::new(side, side),
            Err(e) => Err(e),
        }
    }

    /// Whether the texture has no pixels: no columns or no rows.
    pub fn is_empty(&self) -> (empty: bool)
        ensures
            empty == (self.width == 0 || self.height == 0),
    {
        self.width == 0 || self.height == 0
    }

    /// Bytes to allocate for the padded buffer.
    pub fn buffer_size(&self) -> (size: u64)
        ensures
            size == self.buffer_len(),
    {
        assert(self.stride * self.height <= 0xffff_ffff * 0xffff_ffff) by (nonlinear_arith)
            requires
                0 <= self.stride <= 0xffff_ffff,
                0 <= self.height <= 0xffff_ffff,
        ;
        self.stride as u64 * self.height as u64
    }
}

/// A buffer of the size the layout asks for holds every row: reading it back
/// can only fail where the packed pixels would exceed the address space.
pub proof fn lemma_whole_buffer_readable(layout: Layout)
    requires
        layout.stride == padded_stride(layout.width as int),
        layout.packed_len() <= usize::MAX,
    ensures
        layout.readable_from(layout.buffer_len()),
{
    lemma_stride_bounds(layout.width as int);
    if layout.height > 0 {
        assert((layout.height - 1) * layout.stride + layout.stride == layout.height
            * layout.stride) by (nonlinear_arith);
    }
}

/// Copies the pixel data of every row of `mapped` into a packed buffer, top
/// row first, and leaves the padding behind. Fails with
/// [`PipelineError::Conversion`] where `mapped` is too short for `layout` or
/// the packed pixels would exceed the address space.
pub fn strip_padding(mapped: &[u8], layout: &Layout) -> (result: Result<Vec<u8>, PipelineError>)
    ensures
        result is Ok <==> layout.readable_from(mapped@.len() as int),
        result matches Ok(pixels) ==> pixels@ == packed_rows(
            mapped@,
            layout.height as int,
            layout.stride as int,
            row_bytes(layout.width as int),
        ),
        result matches Err(e) ==> e == PipelineError::Conversion,
{
    let per_pixel: u64 = BYTES_PER_PIXEL as u64;
    assert(per_pixel == 4);
    let row_len: u64 = layout.width as u64 * per_pixel;
    let stride: u64 = layout.stride as u64;
    let height: u64 = layout.height as u64;
    let packed = match row_len.checked_mul(height) {
        Some(packed) => packed,
        None => {
            return Err(PipelineError::Conversion);
        },
    };
    if packed > usize::MAX as u64 {
        return Err(PipelineError::Conversion);
    }
    let mut pixels: Vec<u8> = Vec::with_capacity(packed as usize);
    if height == 0 {
        return Ok(pixels);
    }
    assert((height - 1) * stride <= 0xffff_ffff * 0xffff_ffff) by (nonlinear_arith)
        requires
            0 <= height - 1 <= 0xffff_ffff,
            0 <= stride <= 0xffff_ffff,
    ;
    let available = mapped.len() as u64;
    let end = match ((height - 1) * stride).checked_add(row_len) {
        Some(end) => end,
        None => {
            return Err(PipelineError::Conversion);
        },
    };
    if end > available {
        return Err(PipelineError::Conversion);
    }
    let mut r: u64 = 0;
    while r < height
        invariant
            r <= height,
            height == layout.height,
            stride == layout.stride,
            row_len == row_bytes(layout.width as int),
            (height - 1) * stride + row_len <= mapped@.len() <= usize::MAX,
            pixels@ == packed_rows(mapped@, r as int, stride as int, row_len as int),
        decreases height - r,
    {
        assert(0 <= r * stride <= (height - 1) * stride) by (nonlinear_arith)
            requires
                0 <= r <= height - 1,
                0 <= stride,
        ;
        let start = (r * stride) as usize;
        let pixel_row = slice_subrange(mapped, start, start + row_len as usize);
        let ghost before = pixels@;
        pixels.extend_from_slice(pixel_row);
        assert(pixels@ =~= before + row(mapped@, r as int, stride as int, row_len as int));
        r += 1;
    }
    Ok(pixels)
}

} // verus!
