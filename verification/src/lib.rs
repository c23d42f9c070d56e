//! Pixel access on semi-planar 4:2:0 video frames.
//!
//! A frame is one flat run of bytes: a full-resolution luma plane followed by a
//! plane of interleaved chroma pairs, one pair for each 2x2 block of luma
//! samples. [`YUV`] is a colour in the frame's own space, [`NV12Image`] addresses
//! a frame by full-resolution pixel coordinates, and [`NV12Image2`] addresses the
//! same frame by block coordinates.

pub mod color;
pub mod frame;
pub mod half;
pub mod surface;

pub use color::{YUV, BLACK, BLUE, CYAN, GREEN, RED, WHITE, YELLOW};
pub use frame::{Frame, SurfaceError};
pub use half::NV12Image2;
pub use surface::{ByteStore, NV12Image};
