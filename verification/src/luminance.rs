//! How a captured frame is addressed and sampled.
//!
//! A frame is 8-bit BGRA with a top-left origin, and its rows are padded: the
//! GPU hands back rows of `row_pitch` bytes, which may exceed `width * 4`.
//! Reading `width * 4 * y` as a row start drifts into the padding on any frame
//! whose width is not a nice multiple; everything here addresses rows by the
//! pitch and proves that padding bytes are never read.
//!
//! The sampling grid is fixed (`GRID_X` by `GRID_Y` cells), so the cost of a
//! measurement never grows with the window size.

use vstd::prelude::*;
use std::sync::Arc;
use std::sync::atomic::AtomicU32;

verus! {

/// Columns of the fixed sampling grid.
pub const GRID_X: u32 = 64;

/// Rows of the fixed sampling grid. 64x36 keeps the aspect of a typical window.
pub const GRID_Y: u32 = 36;

/// One captured frame: 8-bit BGRA, top-left origin, rows padded to `row_pitch`.
pub struct Frame<'a> {
    pub pixels: &'a [u8],
    pub width: u32,
    pub height: u32,
    /// Bytes per row, padding included. Never less than `width * 4` in a
    /// well-formed frame; a smaller value is read as `width * 4`.
    pub row_pitch: u32,
}

/// The colour of one sample, its channels taken out of BGRA order.
#[derive(Clone, Copy, Debug, PartialEq, Eq, Structural)]
pub struct Rgb {
    pub r: u8,
    pub g: u8,
    pub b: u8,
}

impl<'a> Frame<'a> {
    /// The frame has no pixel at all.
    pub open spec fn degenerate(&self) -> bool {
        self.width == 0 || self.height == 0
    }

    /// The frame's width in bytes fits the `u32` that rows are measured in.
    pub open spec fn width_fits(&self) -> bool {
        4 * self.width <= u32::MAX
    }

    /// Bytes from one row start to the next: the row pitch, but never less
    /// than the pixels of a row.
    pub open spec fn pitch_of(&self) -> int {
        if self.row_pitch >= 4 * self.width {
            self.row_pitch as int
        } else {
            4 * self.width
        }
    }

    /// Where the BGRA bytes of pixel `(x, y)` start in `pixels`.
    pub open spec fn offset_of(&self, x: int, y: int) -> int {
        y * self.pitch_of() + 4 * x
    }

    /// The buffer holds all four bytes of pixel `(x, y)`.
    pub open spec fn holds(&self, x: int, y: int) -> bool {
        self.offset_of(x, y) + 4 <= self.pixels@.len()
    }

    /// The colour of pixel `(x, y)`, or `None` where the buffer is shorter
    /// than the frame claims.
    pub open spec fn rgb_of(&self, x: int, y: int) -> Option<Rgb> {
        if self.holds(x, y) {
            let o = self.offset_of(x, y);
            Some(Rgb { r: self.pixels@[o + 2], g: self.pixels@[o + 1], b: self.pixels@[o] })
        } else {
            None
        }
    }

    /// The buffer holds every row of the frame, up to the last pixel of the
    /// last row (the padding after it may be cut off).
    pub open spec fn covers(&self) -> bool {
        !self.degenerate() ==> self.pixels@.len() >= (self.height - 1) * self.pitch_of() + 4
            * self.width
    }

    /// Two frames show the same image: same size, and the same bytes in every
    /// row's pixels, whatever their pitch and whatever their padding holds.
    pub open spec fn same_image(&self, other: &Frame) -> bool {
        &&& self.width == other.width
        &&& self.height == other.height
        &&& forall|y: int, i: int|
            0 <= y < self.height && 0 <= i < 4 * self.width ==> #[trigger] self.pixels@[y
                * self.pitch_of() + i] == #[trigger] other.pixels@[y * other.pitch_of() + i]
    }

    /// A raw sample position, truncated from the grid, kept inside `0..limit`.
    pub open spec fn clamp_to(pos: u32, limit: u32) -> int {
        if pos < limit { pos as int } else { limit - 1 }
    }

    /// The frame has no pixel to measure: such a frame reads as darkness.
    pub fn is_degenerate(&self) -> (res: bool)
        ensures
            res == self.degenerate(),
    {
        self.width == 0 || self.height == 0
    }

    /// Bytes from one row start to the next.
    pub fn pitch(&self) -> (res: u32)
        requires
            self.width_fits(),
        ensures
            res == self.pitch_of(),
            res >= 4 * self.width,
    {
        let row_bytes = self.width * 4;
        if self.row_pitch >= row_bytes {
            self.row_pitch
        } else {
            row_bytes
        }
    }
}


/// A pixel offset inside a frame whose rows fit `u32` never exceeds `u64`.
proof fn lemma_offset_bound(x: int, y: int, width: int, height: int, pitch: int)
    requires
        0 <= x < width,
        0 <= y < height,
        height <= u32::MAX,
        4 * width <= pitch <= u32::MAX,
    ensures
        0 <= y * pitch,
        y * pitch + 4 * x < (u32::MAX as int + 1) * (u32::MAX as int),
{
    assert(y * pitch + 4 * x < (y + 1) * pitch) by (nonlinear_arith)
        requires
            0 <= x < width,
            4 * width <= pitch,
            0 <= y,
    ;
    assert((y + 1) * pitch <= (u32::MAX as int + 1) * (u32::MAX as int)) by (nonlinear_arith)
        requires
            0 <= y < height,
            height <= u32::MAX,
            0 <= pitch <= u32::MAX,
    ;
    assert(0 <= y * pitch) by (nonlinear_arith)
        requires
            0 <= y,
            0 <= pitch,
    ;
}

impl<'a> Frame<'a> {
    /// The colour of pixel `(x, y)`, read from its BGRA bytes at the row
    /// pitch, or `None` where the buffer is shorter than the frame claims.
    /// Never reads past the pixels of row `y`, so row padding is never read.
    pub fn rgb_at(&self, x: u32, y: u32) -> (res: Option<Rgb>)
        requires
            self.width_fits(),
            x < self.width,
            y < self.height,
        ensures
            res == self.rgb_of(x as int, y as int),
            res is Some <==> self.holds(x as int, y as int),
            self.offset_of(x as int, y as int) + 4 <= y * self.pitch_of() + 4 * self.width,
            ({
                let p = if self.row_pitch >= 4 * self.width {
                    self.row_pitch as int
                } else {
                    4 * self.width
                };
                let o = y * p + 4 * x;
                &&& o + 4 <= self.pixels@.len() ==> res == Some(
                    Rgb { r: self.pixels@[o + 2], g: self.pixels@[o + 1], b: self.pixels@[o] },
                )
                &&& o + 4 > self.pixels@.len() ==> res is None
            }),
    {
        let pitch = self.pitch();
        proof {
            lemma_offset_bound(x as int, y as int, self.width as int, self.height as int, pitch as int);
            assert(x * 4 + 4 <= 4 * self.width);
        }
        let offset: u64 = (y as u64) * (pitch as u64) + (x as u64) * 4;
        let len: u64 = self.pixels.len() as u64;
        if offset + 4 <= len {
            let o: usize = offset as usize;
            Some(Rgb { r: self.pixels[o + 2], g: self.pixels[o + 1], b: self.pixels[o] })
        } else {
            None
        }
    }

    /// The colour at every cell of a sampling grid, row by row: cell `(i, j)`
    /// is the pixel at column `columns[j]` of row `rows[i]`, each position
    /// clamped into the frame, and `None` where the buffer is shorter than the
    /// frame claims. The caller computes the raw positions from the cell
    /// centres.
    pub fn sample_grid(&self, columns: &Vec<u32>, rows: &Vec<u32>) -> (res: Vec<Vec<Option<Rgb>>>)
        requires
            !self.degenerate(),
            self.width_fits(),
        ensures
            res.len() == rows.len(),
            forall|i: int|
                #![trigger res[i]]
                0 <= i < rows.len() ==> res[i].len() == columns.len(),
            forall|i: int, j: int|
                0 <= i < rows.len() && 0 <= j < columns.len() ==> #[trigger] res[i][j]
                    == self.rgb_of(
                    Self::clamp_to(columns[j], self.width),
                    Self::clamp_to(rows[i], self.height),
                ),
    {
        let mut res: Vec<Vec<Option<Rgb>>> = Vec::new();
        let mut i: usize = 0;
        while i < rows.len()
            invariant
                !self.degenerate(),
                self.width_fits(),
                i <= rows.len(),
                res.len() == i,
                forall|k: int|
                    #![trigger res[k]]
                    0 <= k < i ==> res[k].len() == columns.len(),
                forall|k: int, j: int|
                    0 <= k < i && 0 <= j < columns.len() ==> #[trigger] res[k][j]
                        == self.rgb_of(
                        Self::clamp_to(columns[j], self.width),
                        Self::clamp_to(rows[k], self.height),
                    ),
            decreases rows.len() - i,
        {
            let y = if rows[i] < self.height {
                rows[i]
            } else {
                self.height - 1
            };
            let mut line: Vec<Option<Rgb>> = Vec::new();
            let mut j: usize = 0;
            while j < columns.len()
                invariant
                    !self.degenerate(),
                    self.width_fits(),
                    i < rows.len(),
                    y == Self::clamp_to(rows[i as int], self.height),
                    j <= columns.len(),
                    line.len() == j,
                    forall|m: int|
                        0 <= m < j ==> #[trigger] line[m] == self.rgb_of(
                            Self::clamp_to(columns[m], self.width),
                            y as int,
                        ),
                decreases columns.len() - j,
            {
                let x = if columns[j] < self.width {
                    columns[j]
                } else {
                    self.width - 1
                };
                line.push(self.rgb_at(x, y));
                j = j + 1;
            }
            res.push(line);
            i = i + 1;
        }
        res
    }
}

/// A buffer that covers its frame holds every pixel of it: sampling such a
/// frame never comes up empty.
pub proof fn lemma_covering_frame_holds_every_pixel(f: Frame, x: int, y: int)
    requires
        f.covers(),
        0 <= x < f.width,
        0 <= y < f.height,
    ensures
        f.holds(x, y),
        f.rgb_of(x, y) is Some,
{
    let p = f.pitch_of();
    assert(y * p <= (f.height - 1) * p) by (nonlinear_arith)
        requires
            0 <= y <= f.height - 1,
            0 <= p,
    ;
}

/// Row padding is never read: two frames that show the same image, once with
/// tight rows and once with padded rows holding anything at all, read the same
/// colour at every pixel.
pub proof fn lemma_padding_is_never_read(a: Frame, b: Frame, x: int, y: int)
    requires
        a.same_image(&b),
        a.covers(),
        b.covers(),
        0 <= x < a.width,
        0 <= y < a.height,
    ensures
        a.rgb_of(x, y) == b.rgb_of(x, y),
{
    lemma_covering_frame_holds_every_pixel(a, x, y);
    lemma_covering_frame_holds_every_pixel(b, x, y);
    let pa = a.pitch_of();
    let pb = b.pitch_of();
    assert(a.pixels@[y * pa + 4 * x] == b.pixels@[y * pb + 4 * x]);
    assert(a.pixels@[y * pa + (4 * x + 1)] == b.pixels@[y * pb + (4 * x + 1)]);
    assert(a.pixels@[y * pa + (4 * x + 2)] == b.pixels@[y * pb + (4 * x + 2)]);
}

/// The pitch is the row pitch the frame was handed with, however large its
/// padding, and only a pitch too small to hold a row of pixels is raised to
/// `4 * width`.
pub proof fn lemma_pitch_keeps_the_padding(f: Frame)
    ensures
        f.row_pitch >= 4 * f.width ==> f.pitch_of() == f.row_pitch,
        f.row_pitch < 4 * f.width ==> f.pitch_of() == 4 * f.width,
        f.pitch_of() >= f.row_pitch,
        f.pitch_of() >= 4 * f.width,
{
}

/// A pixel's colour is its blue, green and red bytes, in that order, at
/// `y * pitch + 4 * x`; a pixel whose bytes run past the buffer has none.
pub proof fn lemma_colour_is_the_bgr_bytes(f: Frame, x: int, y: int)
    ensures
        ({
            let p = if f.row_pitch >= 4 * f.width {
                f.row_pitch as int
            } else {
                4 * f.width
            };
            let o = y * p + 4 * x;
            &&& o + 4 <= f.pixels@.len() ==> f.rgb_of(x, y) == Some(
                Rgb { r: f.pixels@[o + 2], g: f.pixels@[o + 1], b: f.pixels@[o] },
            )
            &&& o + 4 > f.pixels@.len() ==> f.rgb_of(x, y) is None
        }),
{
}

/// The alpha byte is never read: two frames of the same layout whose bytes
/// differ at most in the alpha byte of a pixel read the same colour there.
pub proof fn lemma_alpha_is_never_read(a: Frame, b: Frame, x: int, y: int)
    requires
        a.width == b.width,
        a.height == b.height,
        a.row_pitch == b.row_pitch,
        a.pixels@.len() == b.pixels@.len(),
        0 <= x < a.width,
        0 <= y < a.height,
        forall|i: int|
            0 <= i < a.pixels@.len() && i != a.offset_of(x, y) + 3 ==> #[trigger] a.pixels@[i]
                == b.pixels@[i],
    ensures
        a.rgb_of(x, y) == b.rgb_of(x, y),
{
    let o = a.offset_of(x, y);
    assert(b.offset_of(x, y) == o);
    assert(0 <= y * a.pitch_of()) by (nonlinear_arith)
        requires
            0 <= y,
            0 <= a.pitch_of(),
    ;
    if a.holds(x, y) {
        assert(a.pixels@[o] == b.pixels@[o]);
        assert(a.pixels@[o + 1] == b.pixels@[o + 1]);
        assert(a.pixels@[o + 2] == b.pixels@[o + 2]);
    }
}

/// The latest reading, shared between the capture callback and the loop that
/// drives the pupil. A slot rather than a queue on purpose: if the loop is
/// late, it wants the newest measurement, never a backlog of stale ones.
/// Lock-free so the capture callback never blocks on the consumer.
///
/// The slot holds the raw 32-bit pattern of a reading; clones share the slot.
#[derive(Clone, Debug)]
pub struct LatestLuminance(Arc<AtomicU32>);

impl LatestLuminance {
    /// A fresh slot holding the bit pattern of a 0.0 reading (all bits
    /// clear), so that nothing measured yet reads as darkness.
    pub fn new() -> Self {
        LatestLuminance(Arc::new(AtomicU32::new(0)))
    }

    /// Replaces the reading with the bit pattern `bits` (a plain store, not a
    /// maximum or an accumulation: the newest reading wins). No clause states
    /// what a later `get_bits` returns: clones share the slot across threads,
    /// so another writer may come in between, and the atomic carries no model
    /// of its value to state it over.
    pub fn set_bits(&self, bits: u32) {
        self.0.store(bits, std::sync::atomic::Ordering::Relaxed)
    }

    /// The bit pattern of the newest reading.
    pub fn get_bits(&self) -> u32 {
        self.0.load(std::sync::atomic::Ordering::Relaxed)
    }
}

impl Default for LatestLuminance {
    fn default() -> Self {
        Self::new()
    }
}

} // verus!
