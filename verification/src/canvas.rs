//! A caller-owned pixel buffer with a declared format and row stride.

use vstd::prelude::*;
use vstd::arithmetic::div_mod::{lemma_fundamental_div_mod, lemma_fundamental_div_mod_converse};
use vstd::arithmetic::mul::{lemma_mul_inequality, lemma_mul_is_commutative};
use crate::geometry::Size;

verus! {

/// The layout of one pixel.
#[derive(Clone, Copy, Debug, PartialEq, Eq, Structural)]
pub enum Format {
    /// Four bytes per pixel: red, green, blue, alpha.
    Rgba32,
    /// Three bytes per pixel, one for each subpixel channel.
    Rgb24,
    /// One byte of coverage per pixel.
    A8,
}

/// How glyph coverage is sampled.
#[derive(Clone, Copy, Debug, PartialEq, Eq, Structural)]
pub enum RasterizationOptions {
    /// Black and white, no antialiasing.
    Bilevel,
    /// Grayscale antialiasing.
    GrayscaleAa,
    /// Subpixel (LCD) antialiasing.
    SubpixelAa,
}

impl Format {
    /// Bytes that one pixel occupies: 1 for `A8`, 3 for `Rgb24`, 4 for `Rgba32`.
    pub open spec fn spec_bytes_per_pixel(self) -> int {
        match self {
            Format::Rgba32 => 4,
            Format::Rgb24 => 3,
            Format::A8 => 1,
        }
    }

    /// Bits that one pixel occupies.
    pub fn bits_per_pixel(self) -> (bits: u8)
        ensures
            bits == 8 * self.spec_bytes_per_pixel(),
    {
        match self {
            Format::Rgba32 => 32,
            Format::Rgb24 => 24,
            Format::A8 => 8,
        }
    }

    /// Bytes that one pixel occupies.
    pub fn bytes_per_pixel(self) -> (bytes: u8)
        ensures
            bytes == self.spec_bytes_per_pixel(),
            1 <= bytes <= 4,
    {
        self.bits_per_pixel() / 8
    }
}

/// Whether byte `i` of a buffer with rows of `stride` bytes lies in the first
/// `row_bytes` bytes of one of the first `rows` rows.
pub open spec fn in_region(i: int, stride: int, rows: int, row_bytes: int) -> bool {
    stride > 0 && i / stride < rows && i % stride < row_bytes
}

/// The buffer `dest` after the region of `rows` rows by `row_bytes` bytes has
/// been copied from `src`, row `y` of the source starting at `y * src_stride`
/// and row `y` of the destination at `y * dest_stride`. Every byte outside the
/// region keeps its value.
pub open spec fn blitted(
    dest: Seq<u8>,
    dest_stride: int,
    src: Seq<u8>,
    src_stride: int,
    rows: int,
    row_bytes: int,
) -> Seq<u8> {
    Seq::new(
        dest.len(),
        |i: int|
            if in_region(i, dest_stride, rows, row_bytes) {
                src[(i / dest_stride) * src_stride + i % dest_stride]
            } else {
                dest[i]
            },
    )
}

/// The smaller of two pixel counts.
pub open spec fn least(a: u32, b: u32) -> int {
    if a <= b {
        a as int
    } else {
        b as int
    }
}

/// A pixel buffer, its size in pixels, the bytes from one row to the next, and
/// the layout of a pixel.
pub struct Canvas {
    pub pixels: Vec<u8>,
    pub size: Size,
    pub stride: usize,
    pub format: Format,
}

impl Canvas {
    /// Bytes that the pixels of one row occupy.
    pub open spec fn row_bytes(&self) -> int {
        self.size.width * self.format.spec_bytes_per_pixel()
    }

    /// A row fits in the stride and every row fits in the buffer.
    pub open spec fn well_formed(&self) -> bool {
        &&& self.stride >= self.row_bytes()
        &&& self.pixels@.len() >= self.stride * self.size.height
    }

    /// Tests `well_formed`.
    pub fn is_well_formed(&self) -> (ok: bool)
        ensures
            ok == self.well_formed(),
    {
        let width: u128 = self.size.width as u128;
        let pixel_bytes: u128 = self.format.bytes_per_pixel() as u128;
        assert(width * pixel_bytes <= 0xffff_ffff * 4) by (nonlinear_arith)
            requires
                0 <= width <= 0xffff_ffff,
                0 <= pixel_bytes <= 4,
        ;
        let row_bytes: u128 = width * pixel_bytes;
        let stride: u128 = self.stride as u128;
        let height: u128 = self.size.height as u128;
        assert(stride * height <= 0xffff_ffff_ffff_ffff * 0xffff_ffff) by (nonlinear_arith)
            requires
                0 <= stride <= 0xffff_ffff_ffff_ffff,
                0 <= height <= 0xffff_ffff,
        ;
        stride >= row_bytes && self.pixels.len() as u128 >= stride * height
    }

    /// A zeroed canvas whose stride is exactly the bytes of one row.
    pub fn new(size: &Size, format: Format) -> (canvas: Canvas)
        requires
            size.width * format.spec_bytes_per_pixel() <= usize::MAX,
            size.width * format.spec_bytes_per_pixel() * size.height <= usize::MAX,
        ensures
            canvas.well_formed(),
            canvas.size == *size,
            canvas.format == format,
            canvas.stride == size.width * format.spec_bytes_per_pixel(),
            canvas.pixels@.len() == canvas.stride * size.height,
            canvas.pixels@ == Seq::new((canvas.stride * size.height) as nat, |i: int| 0u8),
    {
        let stride: usize = size.width as usize * format.bytes_per_pixel() as usize;
        Canvas::with_stride(size, stride, format)
    }

    /// A zeroed canvas of `stride * height` bytes.
    pub fn with_stride(size: &Size, stride: usize, format: Format) -> (canvas: Canvas)
        requires
            stride >= size.width * format.spec_bytes_per_pixel(),
            stride * size.height <= usize::MAX,
        ensures
            canvas.well_formed(),
            canvas.size == *size,
            canvas.format == format,
            canvas.stride == stride,
            canvas.pixels@.len() == stride * size.height,
            canvas.pixels@ == Seq::new((stride * size.height) as nat, |i: int| 0u8),
    {
        let length: usize = stride * size.height as usize;
        let pixels: Vec<u8> = vec![0u8; length];
        assert(pixels@ =~= Seq::new((stride * size.height) as nat, |i: int| 0u8));
        Canvas { pixels, size: *size, stride, format }
    }
}

impl Canvas {
    /// Rows that a copy from a source of `src_size` pixels covers.
    pub open spec fn blit_rows(&self, src_size: Size) -> int {
        least(src_size.height, self.size.height)
    }

    /// Bytes of each row that a copy from a source of `src_size` pixels covers.
    pub open spec fn blit_row_bytes(&self, src_size: Size) -> int {
        least(src_size.width, self.size.width) * self.format.spec_bytes_per_pixel()
    }

    /// Whether a foreign buffer of `src_len` bytes can be copied into the
    /// canvas: it has the canvas's format, a row of it fits in its stride and
    /// every row of it lies within the buffer.
    pub open spec fn can_blit_from(
        &self,
        src_len: int,
        src_size: Size,
        src_stride: int,
        src_format: Format,
    ) -> bool {
        &&& self.well_formed()
        &&& src_format == self.format
        &&& src_stride >= src_size.width * src_format.spec_bytes_per_pixel()
        &&& src_len >= src_stride * src_size.height
    }

    /// Tests `can_blit_from`.
    pub fn check_blit_from(
        &self,
        src_len: usize,
        src_size: &Size,
        src_stride: usize,
        src_format: Format,
    ) -> (ok: bool)
        ensures
            ok == self.can_blit_from(src_len as int, *src_size, src_stride as int, src_format),
    {
        if !self.is_well_formed() || src_format != self.format {
            return false;
        }
        let width: u128 = src_size.width as u128;
        let pixel_bytes: u128 = src_format.bytes_per_pixel() as u128;
        assert(width * pixel_bytes <= 0xffff_ffff * 4) by (nonlinear_arith)
            requires
                0 <= width <= 0xffff_ffff,
                0 <= pixel_bytes <= 4,
        ;
        let stride: u128 = src_stride as u128;
        let height: u128 = src_size.height as u128;
        assert(stride * height <= 0xffff_ffff_ffff_ffff * 0xffff_ffff) by (nonlinear_arith)
            requires
                0 <= stride <= 0xffff_ffff_ffff_ffff,
                0 <= height <= 0xffff_ffff,
        ;
        stride >= width * pixel_bytes && src_len as u128 >= stride * height
    }

    /// Copies a foreign buffer of the same format into the canvas row by row,
    /// converting only the stride. The rows copied are the smaller of the two
    /// heights, and each is cut to the smaller of the two widths; every other
    /// byte of the canvas keeps its value.
    pub fn blit_from(
        &mut self,
        src_bytes: &[u8],
        src_size: &Size,
        src_stride: usize,
        src_format: Format,
    )
        requires
            old(self).can_blit_from(
                src_bytes@.len() as int,
                *src_size,
                src_stride as int,
                src_format,
            ),
        ensures
            final(self).well_formed(),
            final(self).size == old(self).size,
            final(self).stride == old(self).stride,
            final(self).format == old(self).format,
            final(self).pixels@.len() == old(self).pixels@.len(),
            final(self).pixels@ == blitted(
                old(self).pixels@,
                old(self).stride as int,
                src_bytes@,
                src_stride as int,
                old(self).blit_rows(*src_size),
                old(self).blit_row_bytes(*src_size),
            ),
    {
        let width: u32 = if src_size.width <= self.size.width {
            src_size.width
        } else {
            self.size.width
        };
        let rows: u32 = if src_size.height <= self.size.height {
            src_size.height
        } else {
            self.size.height
        };
        let pixel_bytes: usize = self.format.bytes_per_pixel() as usize;
        let stride: usize = self.stride;
        proof {
            lemma_mul_inequality(
                width as int,
                self.size.width as int,
                self.format.spec_bytes_per_pixel(),
            );
            lemma_mul_inequality(
                width as int,
                src_size.width as int,
                self.format.spec_bytes_per_pixel(),
            );
        }
        let row_bytes: usize = width as usize * pixel_bytes;
        let ghost before = self.pixels@;
        let dest_len: usize = self.pixels.len();
        let src_len: usize = src_bytes.len();
        let mut y: u32 = 0;
        let mut dest_row: usize = 0;
        let mut src_row: usize = 0;
        while y < rows
            invariant
                y <= rows,
                rows <= self.size.height,
                rows <= src_size.height,
                row_bytes <= stride,
                row_bytes <= src_stride,
                stride == self.stride,
                self.size == old(self).size,
                self.format == old(self).format,
                self.pixels@.len() == before.len(),
                before.len() == dest_len,
                src_bytes@.len() == src_len,
                before.len() >= stride * self.size.height,
                src_bytes@.len() >= src_stride * src_size.height,
                dest_row == y * stride,
                src_row == y * src_stride,
                self.pixels@ == blitted(
                    before,
                    stride as int,
                    src_bytes@,
                    src_stride as int,
                    y as int,
                    row_bytes as int,
                ),
            decreases rows - y,
        {
            proof {
                lemma_row_fits(y as int, stride as int, self.size.height as int);
                lemma_row_fits(y as int, src_stride as int, src_size.height as int);
            }
            assert(self.pixels@ =~= partly_blitted(
                before,
                stride as int,
                src_bytes@,
                src_stride as int,
                y as int,
                row_bytes as int,
                0,
            ));
            let mut x: usize = 0;
            while x < row_bytes
                invariant
                    x <= row_bytes,
                    y < rows,
                    row_bytes <= stride,
                    row_bytes <= src_stride,
                    stride == self.stride,
                    self.size == old(self).size,
                    self.format == old(self).format,
                    self.pixels@.len() == before.len(),
                    before.len() == dest_len,
                    src_bytes@.len() == src_len,
                    dest_row == y * stride,
                    src_row == y * src_stride,
                    dest_row + stride <= before.len(),
                    src_row + src_stride <= src_bytes@.len(),
                    self.pixels@ == partly_blitted(
                        before,
                        stride as int,
                        src_bytes@,
                        src_stride as int,
                        y as int,
                        row_bytes as int,
                        x as int,
                    ),
                decreases row_bytes - x,
            {
                let byte: u8 = src_bytes[src_row + x];
                self.pixels.set(dest_row + x, byte);
                proof {
                    lemma_blit_step(
                        before,
                        stride as int,
                        src_bytes@,
                        src_stride as int,
                        y as int,
                        row_bytes as int,
                        x as int,
                    );
                }
                x = x + 1;
            }
            proof {
                assert(self.pixels@ =~= blitted(
                    before,
                    stride as int,
                    src_bytes@,
                    src_stride as int,
                    y + 1,
                    row_bytes as int,
                ));
                assert((y + 1) * stride == y * stride + stride) by (nonlinear_arith);
                assert((y + 1) * src_stride == y * src_stride + src_stride) by (nonlinear_arith);
            }
            y = y + 1;
            dest_row = dest_row + stride;
            src_row = src_row + src_stride;
        }
    }
}

/// Row `y` of `height` rows of `stride` bytes ends within `stride * height` bytes.
proof fn lemma_row_fits(y: int, stride: int, height: int)
    requires
        0 <= y < height,
        0 <= stride,
    ensures
        y * stride + stride <= stride * height,
        0 <= y * stride,
{
    assert(y * stride + stride <= stride * height) by (nonlinear_arith)
        requires
            0 <= y < height,
            0 <= stride,
    ;
    assert(0 <= y * stride) by (nonlinear_arith)
        requires
            0 <= y,
            0 <= stride,
    ;
}

/// Byte `x` of row `y` is the one byte whose quotient by the stride is `y` and
/// whose remainder is `x`.
proof fn lemma_position(i: int, stride: int, y: int, x: int)
    requires
        0 <= x < stride,
        0 <= y,
        0 <= i,
    ensures
        (i / stride == y && i % stride == x) <==> i == y * stride + x,
{
    lemma_fundamental_div_mod(i, stride);
    lemma_mul_is_commutative(stride, i / stride);
    if i == y * stride + x {
        lemma_mul_is_commutative(stride, y);
        lemma_fundamental_div_mod_converse(i, stride, y, x);
    }
}

/// The buffer while row `y` is being copied: the first `y` rows of the region
/// are done, and so are the first `x` bytes of row `y`.
spec fn partly_blitted(
    dest: Seq<u8>,
    dest_stride: int,
    src: Seq<u8>,
    src_stride: int,
    y: int,
    row_bytes: int,
    x: int,
) -> Seq<u8> {
    Seq::new(
        dest.len(),
        |i: int|
            if in_region(i, dest_stride, y, row_bytes) || (dest_stride > 0 && i / dest_stride == y
                && i % dest_stride < x) {
                src[(i / dest_stride) * src_stride + i % dest_stride]
            } else {
                dest[i]
            },
    )
}

/// Writing byte `x` of row `y` extends the part of that row already copied by one byte.
proof fn lemma_blit_step(
    dest: Seq<u8>,
    stride: int,
    src: Seq<u8>,
    src_stride: int,
    y: int,
    row_bytes: int,
    x: int,
)
    requires
        0 <= x < row_bytes <= stride,
        0 <= y,
        y * stride + x < dest.len(),
    ensures
        partly_blitted(dest, stride, src, src_stride, y, row_bytes, x).update(
            y * stride + x,
            src[y * src_stride + x],
        ) == partly_blitted(dest, stride, src, src_stride, y, row_bytes, x + 1),
{
    let previous = partly_blitted(dest, stride, src, src_stride, y, row_bytes, x);
    let next = previous.update(y * stride + x, src[y * src_stride + x]);
    let target = partly_blitted(dest, stride, src, src_stride, y, row_bytes, x + 1);
    assert forall|i: int| 0 <= i < next.len() implies next[i] == target[i] by {
        lemma_position(i, stride, y, x);
    }
    assert(next =~= target);
}

/// Inside the copied region a blit puts byte `x` of source row `y` at byte `x`
/// of destination row `y`.
pub proof fn lemma_blitted_inside(
    dest: Seq<u8>,
    dest_stride: int,
    src: Seq<u8>,
    src_stride: int,
    rows: int,
    row_bytes: int,
    y: int,
    x: int,
)
    requires
        0 <= y < rows,
        0 <= x < row_bytes <= dest_stride,
        y * dest_stride + x < dest.len(),
    ensures
        blitted(dest, dest_stride, src, src_stride, rows, row_bytes)[y * dest_stride + x]
            == src[y * src_stride + x],
{
    lemma_row_fits(y, dest_stride, y + 1);
    lemma_position(y * dest_stride + x, dest_stride, y, x);
}

/// A blit keeps the length of the destination and every byte outside the
/// copied region.
pub proof fn lemma_blitted_outside(
    dest: Seq<u8>,
    dest_stride: int,
    src: Seq<u8>,
    src_stride: int,
    rows: int,
    row_bytes: int,
    i: int,
)
    requires
        0 <= i < dest.len(),
        !in_region(i, dest_stride, rows, row_bytes),
    ensures
        blitted(dest, dest_stride, src, src_stride, rows, row_bytes).len() == dest.len(),
        blitted(dest, dest_stride, src, src_stride, rows, row_bytes)[i] == dest[i],
{
}

/// A blit from a source that is at least as large as the canvas covers
/// exactly the rows of the canvas, each cut to the bytes of a canvas row, and
/// fills that region with the matching bytes of the source.
pub proof fn lemma_blit_clamped(canvas: Canvas, src: Seq<u8>, src_size: Size, src_stride: int)
    requires
        canvas.well_formed(),
        src_size.width >= canvas.size.width,
        src_size.height >= canvas.size.height,
    ensures
        canvas.blit_rows(src_size) == canvas.size.height,
        canvas.blit_row_bytes(src_size) == canvas.row_bytes(),
        forall|y: int, x: int|
            0 <= y < canvas.size.height && 0 <= x < canvas.row_bytes() ==> #[trigger] blitted(
                canvas.pixels@,
                canvas.stride as int,
                src,
                src_stride,
                canvas.size.height as int,
                canvas.row_bytes(),
            )[y * canvas.stride + x] == src[y * src_stride + x],
{
    assert forall|y: int, x: int|
        0 <= y < canvas.size.height && 0 <= x < canvas.row_bytes() implies #[trigger] blitted(
        canvas.pixels@,
        canvas.stride as int,
        src,
        src_stride,
        canvas.size.height as int,
        canvas.row_bytes(),
    )[y * canvas.stride + x] == src[y * src_stride + x] by {
        lemma_row_fits(y, canvas.stride as int, canvas.size.height as int);
        lemma_blitted_inside(
            canvas.pixels@,
            canvas.stride as int,
            src,
            src_stride,
            canvas.size.height as int,
            canvas.row_bytes(),
            y,
            x,
        );
    }
}

/// A pixel takes one byte in `A8`, three in `Rgb24` and four in `Rgba32`, and
/// a row of a well-formed canvas never takes more than its stride.
pub proof fn lemma_format_widths(canvas: Canvas)
    requires
        canvas.well_formed(),
    ensures
        Format::A8.spec_bytes_per_pixel() == 1,
        Format::Rgb24.spec_bytes_per_pixel() == 3,
        Format::Rgba32.spec_bytes_per_pixel() == 4,
        canvas.stride >= canvas.size.width * canvas.format.spec_bytes_per_pixel(),
{
}

} // verus!
