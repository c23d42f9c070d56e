//! The mathematical model of a frame: its size, its bytes, and where in those
//! bytes each pixel lives.

use vstd::prelude::*;
use crate::color::{lemma_yuv_ext, yuv, YUV};

verus! {

/// Why a frame was refused or a pixel could not be reached.
#[derive(Clone, Copy, Debug, PartialEq, Eq, Structural)]
pub enum SurfaceError {
    /// The width or the height is odd, so the frame does not split into 2x2 blocks.
    OddDimension,
    /// The bytes are fewer than the two planes need.
    BufferTooShort,
    /// The coordinate lies outside the frame.
    OutOfBounds,
}

/// `n` rounded down to an even number.
pub open spec fn snap(n: int) -> int {
    n - n % 2
}

/// A frame as a plain value: `width * height` luma bytes in row-major order,
/// then one `(chroma-1, chroma-2)` pair per 2x2 block, in row-major block order.
pub struct Frame {
    pub width: int,
    pub height: int,
    pub data: Seq<u8>,
}

impl Frame {
    /// The number of luma bytes, which is also where the chroma plane starts.
    pub open spec fn gray_size(self) -> int {
        self.width * self.height
    }

    /// What is wrong with the frame, if anything.
    pub open spec fn defect(self) -> Option<SurfaceError> {
        if self.width % 2 != 0 || self.height % 2 != 0 {
            Some(SurfaceError::OddDimension)
        } else if self.data.len() < self.gray_size() + self.gray_size() / 2 {
            Some(SurfaceError::BufferTooShort)
        } else {
            None
        }
    }

    /// Both dimensions are even and the bytes cover both planes.
    pub open spec fn wf(self) -> bool {
        &&& 0 <= self.width
        &&& 0 <= self.height
        &&& self.defect() is None
    }

    /// Whether the frame has a pixel at `(x, y)`.
    pub open spec fn in_bounds(self, x: int, y: int) -> bool {
        0 <= x < self.width && 0 <= y < self.height
    }

    /// Where the luma sample of `(x, y)` lives.
    pub open spec fn luma_index(self, x: int, y: int) -> int {
        y * self.width + x
    }

    /// Where the chroma pair of the block that holds `(x, y)` starts.
    pub open spec fn chroma_index(self, x: int, y: int) -> int {
        self.gray_size() + (snap(y) / 2) * self.width + snap(x)
    }

    /// The colour read at `(x, y)`: the luma of the block's top-left sample and
    /// the block's chroma pair. A pixel's own luma byte is not consulted.
    pub open spec fn get(self, x: int, y: int) -> YUV {
        yuv(
            self.data[self.luma_index(snap(x), snap(y))],
            self.data[self.chroma_index(x, y)],
            self.data[self.chroma_index(x, y) + 1],
        )
    }

    /// The frame after `c` was written at `(x, y)`: the four luma samples of the
    /// block take `c`'s luma, and the block's chroma pair takes `c`'s chroma.
    pub open spec fn put(self, x: int, y: int, c: YUV) -> Frame {
        let base = self.luma_index(snap(x), snap(y));
        let pair = self.chroma_index(x, y);
        Frame {
            width: self.width,
            height: self.height,
            data: self.data.update(base, c.luma()).update(base + 1, c.luma()).update(
                base + self.width,
                c.luma(),
            ).update(base + self.width + 1, c.luma()).update(pair, c.chroma1()).update(
                pair + 1,
                c.chroma2(),
            ),
        }
    }

    /// What a read at `(x, y)` answers, for any coordinate.
    pub open spec fn read(self, x: int, y: int) -> Result<YUV, SurfaceError> {
        if self.in_bounds(x, y) {
            Ok(self.get(x, y))
        } else {
            Err(SurfaceError::OutOfBounds)
        }
    }

    /// The frame that a write at `(x, y)` leaves, for any coordinate.
    pub open spec fn write(self, x: int, y: int, c: YUV) -> Frame {
        if self.in_bounds(x, y) {
            self.put(x, y, c)
        } else {
            self
        }
    }

    /// Whether `(x1, y1)` and `(x2, y2)` lie in the same 2x2 block.
    pub open spec fn same_block(x1: int, y1: int, x2: int, y2: int) -> bool {
        snap(x1) == snap(x2) && snap(y1) == snap(y2)
    }
}

/// The bytes of the block whose top-left pixel is `(x, y)` lie where they
/// should: the four luma bytes in the luma plane, the chroma pair in the chroma
/// plane, and both planes within the frame's bytes.
pub proof fn lemma_block_in_planes(f: Frame, x: int, y: int)
    requires
        f.wf(),
        f.in_bounds(x, y),
        x % 2 == 0,
        y % 2 == 0,
    ensures
        0 <= f.luma_index(x, y),
        f.luma_index(x, y) + f.width + 1 < f.gray_size(),
        f.gray_size() <= f.chroma_index(x, y),
        f.chroma_index(x, y) + 1 < f.gray_size() + f.gray_size() / 2,
        f.gray_size() + f.gray_size() / 2 <= f.data.len(),
        (y * f.width) / 2 == (y / 2) * f.width,
        f.chroma_index(x, y) == f.gray_size() + (y * f.width) / 2 + x,
{
    let w = f.width;
    let h = f.height;
    let k = y / 2;
    let m = h / 2;
    assert(y == 2 * k && h == 2 * m && k + 1 <= m);
    assert(y * w == 2 * (k * w)) by (nonlinear_arith)
        requires
            y == 2 * k,
    ;
    assert(w * h == 2 * (m * w)) by (nonlinear_arith)
        requires
            h == 2 * m,
    ;
    assert((k + 1) * w <= m * w) by (nonlinear_arith)
        requires
            k + 1 <= m,
            0 <= w,
    ;
    assert((k + 1) * w == k * w + w) by (nonlinear_arith);
    assert(0 <= k * w) by (nonlinear_arith)
        requires
            0 <= k,
            0 <= w,
    ;
    assert((y + 2) * w <= h * w) by (nonlinear_arith)
        requires
            y + 2 <= h,
            0 <= w,
    ;
    assert((y + 2) * w == y * w + 2 * w) by (nonlinear_arith);
    assert(h * w == w * h) by (nonlinear_arith);
}

/// A write keeps the frame's size, the number of its bytes, and so its
/// well-formedness.
pub proof fn lemma_write_keeps_shape(f: Frame, x: int, y: int, c: YUV)
    requires
        f.wf(),
    ensures
        f.write(x, y, c).width == f.width,
        f.write(x, y, c).height == f.height,
        f.write(x, y, c).data.len() == f.data.len(),
        f.write(x, y, c).wf(),
{
    if f.in_bounds(x, y) {
        lemma_block_in_planes(f, snap(x), snap(y));
    }
}

/// After `c` was written at `(x, y)`, every pixel of the same 2x2 block reads
/// as `c`.
pub proof fn lemma_put_get_same_block(f: Frame, x: int, y: int, c: YUV, x2: int, y2: int)
    requires
        f.wf(),
        f.in_bounds(x, y),
        f.in_bounds(x2, y2),
        Frame::same_block(x, y, x2, y2),
    ensures
        f.put(x, y, c).get(x2, y2) == c,
{
    lemma_block_in_planes(f, snap(x), snap(y));
    lemma_yuv_ext(f.put(x, y, c).get(x2, y2), c);
}

/// A write at `(x, y)` changes what is read in the block of `(x, y)` and
/// nowhere else.
pub proof fn lemma_put_get_other_block(f: Frame, x: int, y: int, c: YUV, x2: int, y2: int)
    requires
        f.wf(),
        f.in_bounds(x, y),
        f.in_bounds(x2, y2),
        !Frame::same_block(x, y, x2, y2),
    ensures
        f.put(x, y, c).get(x2, y2) == f.get(x2, y2),
{
    let w = f.width;
    let (xs, ys) = (snap(x), snap(y));
    let (xt, yt) = (snap(x2), snap(y2));
    lemma_block_in_planes(f, xs, ys);
    lemma_block_in_planes(f, xt, yt);
    let d = yt - ys;
    let e = yt / 2 - ys / 2;
    assert(yt * w - ys * w == d * w) by (nonlinear_arith)
        requires
            d == yt - ys,
    ;
    assert((yt / 2) * w - (ys / 2) * w == e * w) by (nonlinear_arith)
        requires
            e == yt / 2 - ys / 2,
    ;
    assert(d >= 2 ==> d * w >= 2 * w) by (nonlinear_arith)
        requires
            0 <= w,
    ;
    assert(d <= -2 ==> d * w <= -2 * w) by (nonlinear_arith)
        requires
            0 <= w,
    ;
    assert(e >= 1 ==> e * w >= w) by (nonlinear_arith)
        requires
            0 <= w,
    ;
    assert(e <= -1 ==> e * w <= -w) by (nonlinear_arith)
        requires
            0 <= w,
    ;
    assert(d == 0 ==> d * w == 0) by (nonlinear_arith);
    assert(e == 0 ==> e * w == 0) by (nonlinear_arith);
    let base = f.luma_index(xs, ys);
    let pair = f.chroma_index(x, y);
    let base2 = f.luma_index(xt, yt);
    let pair2 = f.chroma_index(x2, y2);
    assert(base2 != base && base2 != base + 1 && base2 != base + w && base2 != base + w + 1);
    assert(pair2 != pair && pair2 != pair + 1 && pair2 + 1 != pair);
    lemma_yuv_ext(f.put(x, y, c).get(x2, y2), f.get(x2, y2));
}

} // verus!
