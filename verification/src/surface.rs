//! The full-resolution surface over a frame's bytes.

use vstd::prelude::*;
use crate::color::YUV;
use crate::frame::{lemma_block_in_planes, snap, Frame, SurfaceError};

verus! {

/// A container of bytes that can be read and written by index. A surface works
/// on any such container; `Vec<u8>` is one.
pub trait ByteStore {
    /// The bytes held, in order.
    spec fn bytes(&self) -> Seq<u8>;

    /// How many bytes are held.
    fn byte_len(&self) -> (n: usize)
        ensures
            n == self.bytes().len(),
    ;

    /// The byte at `i`.
    fn byte_at(&self, i: usize) -> (b: u8)
        requires
            i < self.bytes().len(),
        ensures
            b == self.bytes()[i as int],
    ;

    /// Puts `b` at `i` and leaves every other byte as it is.
    fn set_byte(&mut self, i: usize, b: u8)
        requires
            i < old(self).bytes().len(),
        ensures
            final(self).bytes() == old(self).bytes().update(i as int, b),
    ;
}

impl ByteStore for Vec<u8> {
    open spec fn bytes(&self) -> Seq<u8> {
        self@
    }

    fn byte_len(&self) -> (n: usize) {
        self.len()
    }

    fn byte_at(&self, i: usize) -> (b: u8) {
        self[i]
    }

    fn set_byte(&mut self, i: usize, b: u8) {
        self[i] = b;
    }
}

/// A frame addressed by full-resolution pixel coordinates.
pub struct NV12Image<T: ByteStore> {
    data: T,
    width: u32,
    height: u32,
    gray_size: usize,
}

impl<T: ByteStore> View for NV12Image<T> {
    type V = Frame;

    closed spec fn view(&self) -> Frame {
        Frame { width: self.width as int, height: self.height as int, data: self.data.bytes() }
    }
}

impl<T: ByteStore> NV12Image<T> {
    /// The container that holds the frame's bytes.
    pub closed spec fn store(&self) -> T {
        self.data
    }

    /// The frame's bytes are those of the container.
    pub proof fn lemma_store_bytes(&self)
        ensures
            self.store().bytes() == self@.data,
    {
    }

    /// The surface is a well-formed frame, and knows where its chroma plane starts.
    pub closed spec fn wf(&self) -> bool {
        &&& self@.wf()
        &&& self.gray_size == self@.gray_size()
        &&& self.data.bytes().len() <= usize::MAX
    }

    /// A well-formed surface is a well-formed frame whose sides fit in 32 bits.
    pub proof fn lemma_wf_frame(&self)
        requires
            self.wf(),
        ensures
            self@.wf(),
            self@.width <= u32::MAX,
            self@.height <= u32::MAX,
    {
    }

    /// `n` rounded down to an even number.
    pub fn to_zero_or_even(n: u32) -> (r: u32)
        ensures
            r == snap(n as int),
    {
        n - n % 2
    }

    /// Takes `data` as a frame of `width` by `height` pixels, or says what is
    /// wrong with it.
    pub fn from(data: T, width: u32, height: u32) -> (r: Result<Self, SurfaceError>)
        ensures
            match r {
                Ok(img) => img@ == (Frame {
                    width: width as int,
                    height: height as int,
                    data: data.bytes(),
                }) && img.store() == data && img.wf() && img@.wf(),
                Err(e) => (Frame {
                    width: width as int,
                    height: height as int,
                    data: data.bytes(),
                }).defect() == Some(e),
            },
    {
        if width % 2 != 0 || height % 2 != 0 {
            return Err(SurfaceError::OddDimension);
        }
        assert(width * height <= u64::MAX) by (nonlinear_arith)
            requires
                width <= u32::MAX,
                height <= u32::MAX,
        ;
        let gray: u64 = (width as u64) * (height as u64);
        let len: u64 = data.byte_len() as u64;
        if len < gray || len - gray < gray / 2 {
            return Err(SurfaceError::BufferTooShort);
        }
        Ok(NV12Image { data, width, height, gray_size: gray as usize })
    }

    /// Gives the container back, with the frame's bytes in it.
    pub fn take_data(self) -> (r: T)
        ensures
            r == self.store(),
            r.bytes() == self@.data,
    {
        self.data
    }

    /// Lends the container, with the frame's bytes in it.
    pub fn ref_data(&self) -> (r: &T)
        ensures
            *r == self.store(),
            r.bytes() == self@.data,
    {
        &self.data
    }

    /// The width and the height.
    pub fn dimensions(&self) -> (r: (u32, u32))
        ensures
            r.0 == self@.width,
            r.1 == self@.height,
    {
        (self.width, self.height)
    }

    /// The rectangle that the surface covers: its origin, then its size.
    pub fn bounds(&self) -> (r: (u32, u32, u32, u32))
        ensures
            r.0 == 0,
            r.1 == 0,
            r.2 == self@.width,
            r.3 == self@.height,
    {
        (0, 0, self.width, self.height)
    }

    /// Tells whether `(x, y)` lies on the surface.
    pub fn check_bounds(&self, x: u32, y: u32) -> (r: Result<(), SurfaceError>)
        ensures
            r == if self@.in_bounds(x as int, y as int) {
                Ok::<(), SurfaceError>(())
            } else {
                Err::<(), SurfaceError>(SurfaceError::OutOfBounds)
            },
    {
        if x >= self.width || y >= self.height {
            Err(SurfaceError::OutOfBounds)
        } else {
            Ok(())
        }
    }

    /// Where the block whose top-left pixel is `(x, y)` keeps its luma sample
    /// and its two chroma samples.
    pub fn pixel_indices(&self, x: u32, y: u32) -> (r: (usize, usize, usize))
        requires
            self.wf(),
            self@.in_bounds(x as int, y as int),
            x % 2 == 0,
            y % 2 == 0,
        ensures
            r.0 == self@.luma_index(x as int, y as int),
            r.1 == self@.chroma_index(x as int, y as int),
            r.2 == r.1 + 1,
            r.0 + self@.width + 1 < self@.gray_size(),
            self@.gray_size() <= r.1,
            r.2 < self@.gray_size() + self@.gray_size() / 2,
            self@.gray_size() + self@.gray_size() / 2 <= self@.data.len(),
    {
        proof {
            lemma_block_in_planes(self@, x as int, y as int);
        }
        let width = self.width as usize;
        let offset = (y as usize) * width;
        let y_index = offset + x as usize;
        let uv_index = self.gray_size + offset / 2 + x as usize;
        (y_index, uv_index, uv_index + 1)
    }

    /// The colour at `(x, y)`, or `OutOfBounds` where the surface has no such
    /// pixel. The luma is that of the block's top-left sample.
    pub fn get_pixel(&self, x: u32, y: u32) -> (r: Result<YUV, SurfaceError>)
        requires
            self.wf(),
        ensures
            r == self@.read(x as int, y as int),
    {
        match self.check_bounds(x, y) {
            Err(e) => Err(e),
            Ok(()) => {
                let x = Self::to_zero_or_even(x);
                let y = Self::to_zero_or_even(y);
                let indices = self.pixel_indices(x, y);
                let pixel = YUV(
                    [
                        self.data.byte_at(indices.0),
                        self.data.byte_at(indices.1),
                        self.data.byte_at(indices.2),
                    ],
                );
                Ok(pixel)
            },
        }
    }

    /// Writes `pixel` to the whole 2x2 block that holds `(x, y)`, or leaves the
    /// surface as it is and answers `OutOfBounds` where it has no such pixel.
    pub fn put_pixel(&mut self, x: u32, y: u32, pixel: YUV) -> (r: Result<(), SurfaceError>)
        requires
            old(self).wf(),
        ensures
            final(self).wf(),
            final(self)@ == old(self)@.write(x as int, y as int, pixel),
            r == if old(self)@.in_bounds(x as int, y as int) {
                Ok::<(), SurfaceError>(())
            } else {
                Err::<(), SurfaceError>(SurfaceError::OutOfBounds)
            },
    {
        match self.check_bounds(x, y) {
            Err(e) => Err(e),
            Ok(()) => {
                let x = Self::to_zero_or_even(x);
                let y = Self::to_zero_or_even(y);
                let indices = self.pixel_indices(x, y);
                let width = self.width as usize;
                self.data.set_byte(indices.0, pixel.0[0]);
                self.data.set_byte(indices.0 + 1, pixel.0[0]);
                self.data.set_byte(indices.0 + width, pixel.0[0]);
                self.data.set_byte(indices.0 + width + 1, pixel.0[0]);
                self.data.set_byte(indices.1, pixel.0[1]);
                self.data.set_byte(indices.2, pixel.0[2]);
                Ok(())
            },
        }
    }

    /// The same as [`NV12Image::put_pixel`]: the block is overwritten, nothing is mixed.
    pub fn blend_pixel(&mut self, x: u32, y: u32, pixel: YUV) -> (r: Result<(), SurfaceError>)
        requires
            old(self).wf(),
        ensures
            final(self).wf(),
            final(self)@ == old(self)@.write(x as int, y as int, pixel),
            r == if old(self)@.in_bounds(x as int, y as int) {
                Ok::<(), SurfaceError>(())
            } else {
                Err::<(), SurfaceError>(SurfaceError::OutOfBounds)
            },
    {
        self.put_pixel(x, y, pixel)
    }
}

} // verus!
