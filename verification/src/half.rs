//! The half-resolution view: a surface addressed by 2x2 blocks.

use vstd::prelude::*;
use crate::color::YUV;
use crate::frame::SurfaceError;
use crate::surface::{ByteStore, NV12Image};

verus! {

/// A surface addressed by block: pixel `(x, y)` here is the block of pixel
/// `(2x, 2y)` there. It holds the surface and adds no bytes of its own.
pub struct NV12Image2<T: ByteStore>(pub NV12Image<T>);

impl<T: ByteStore> NV12Image2<T> {
    /// Half the surface's width and half its height.
    pub fn dimensions(&self) -> (r: (u32, u32))
        ensures
            r.0 == self.0@.width / 2,
            r.1 == self.0@.height / 2,
    {
        let (width, height) = self.0.dimensions();
        (width / 2, height / 2)
    }

    /// The rectangle that the view covers: its origin, then its size.
    pub fn bounds(&self) -> (r: (u32, u32, u32, u32))
        ensures
            r.0 == 0,
            r.1 == 0,
            r.2 == self.0@.width / 2,
            r.3 == self.0@.height / 2,
    {
        let (width, height) = self.0.dimensions();
        (0, 0, width / 2, height / 2)
    }

    /// What the surface reads at `(2x, 2y)`; `OutOfBounds` exactly where `(x, y)`
    /// lies outside the halved dimensions.
    pub fn get_pixel(&self, x: u32, y: u32) -> (r: Result<YUV, SurfaceError>)
        requires
            self.0.wf(),
        ensures
            r == self.0@.read(2 * x, 2 * y),
            r is Ok <==> x < self.0@.width / 2 && y < self.0@.height / 2,
    {
        proof {
            self.0.lemma_wf_frame();
        }
        if x > u32::MAX / 2 || y > u32::MAX / 2 {
            Err(SurfaceError::OutOfBounds)
        } else {
            self.0.get_pixel(x * 2, y * 2)
        }
    }

    /// What the surface does for a write at `(2x, 2y)`: the block takes
    /// `pixel`, or nothing changes and the answer is `OutOfBounds`.
    pub fn put_pixel(&mut self, x: u32, y: u32, pixel: YUV) -> (r: Result<(), SurfaceError>)
        requires
            old(self).0.wf(),
        ensures
            final(self).0.wf(),
            final(self).0@ == old(self).0@.write(2 * x, 2 * y, pixel),
            r == if old(self).0@.in_bounds(2 * x, 2 * y) {
                Ok::<(), SurfaceError>(())
            } else {
                Err::<(), SurfaceError>(SurfaceError::OutOfBounds)
            },
            r is Ok <==> x < old(self).0@.width / 2 && y < old(self).0@.height / 2,
    {
        proof {
            self.0.lemma_wf_frame();
        }
        if x > u32::MAX / 2 || y > u32::MAX / 2 {
            Err(SurfaceError::OutOfBounds)
        } else {
            self.0.put_pixel(x * 2, y * 2, pixel)
        }
    }

    /// The same as [`NV12Image2::put_pixel`]: the block is overwritten, nothing is mixed.
    pub fn blend_pixel(&mut self, x: u32, y: u32, pixel: YUV) -> (r: Result<(), SurfaceError>)
        requires
            old(self).0.wf(),
        ensures
            final(self).0.wf(),
            final(self).0@ == old(self).0@.write(2 * x, 2 * y, pixel),
            r == if old(self).0@.in_bounds(2 * x, 2 * y) {
                Ok::<(), SurfaceError>(())
            } else {
                Err::<(), SurfaceError>(SurfaceError::OutOfBounds)
            },
            r is Ok <==> x < old(self).0@.width / 2 && y < old(self).0@.height / 2,
    {
        self.put_pixel(x, y, pixel)
    }
}

} // verus!
