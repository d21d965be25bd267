//! Shared pixel buffers: the bookkeeping of one compositor-visible image.
//!
//! The memory itself is mapped by the caller; this type records its shape and
//! whether the compositor may still be reading it.
use crate::vector::{Vector2D, FIXED_ONE};
use vstd::prelude::*;

verus! {

/// Largest byte length of a buffer (the compositor takes pool sizes as `i32`).
pub const POOL_SIZE_MAX: u64 = 0x7fff_ffff;

/// Pixel format code of 32-bit ARGB in the shared-memory protocol.
pub const FORMAT_ARGB8888: u32 = 0;

/// Bytes per ARGB pixel.
pub const BYTES_PER_PIXEL: i64 = 4;

/// Why a buffer could not be described.
#[derive(Clone, Copy, Debug, PartialEq, Eq, Structural)]
pub enum BufferError {
    /// A width, height or stride that leaves no pixels.
    Empty,
    /// More bytes than a shared-memory pool can hold.
    TooLarge,
}

/// Shape and state of one shared-memory buffer.
#[derive(Clone, Copy, Debug, PartialEq, Eq, Structural)]
pub struct PoolBuffer {
    /// Width and height in whole pixels (as sub-pixel steps).
    pub pixel_size: Vector2D,
    pub format: u32,
    /// Bytes per row.
    pub stride: u32,
    /// Byte length of the region: `stride * height`.
    pub size: usize,
    /// The compositor may still be reading the buffer.
    pub busy: bool,
}

/// The byte length that a buffer of this shape needs, if it can be allocated.
pub open spec fn buffer_len(height: int, stride: int) -> Result<int, BufferError> {
    if height <= 0 || stride <= 0 {
        Err(BufferError::Empty)
    } else if stride * height > POOL_SIZE_MAX {
        Err(BufferError::TooLarge)
    } else {
        Ok(stride * height)
    }
}

/// A free ARGB buffer covering `pixel_size`, rounded down to whole pixels.
pub open spec fn surface_buffer(pixel_size: Vector2D) -> Result<PoolBuffer, BufferError> {
    let w = pixel_size.x / 256;
    let h = pixel_size.y / 256;
    if w <= 0 || h <= 0 {
        Err(BufferError::Empty)
    } else if 4 * w * h > POOL_SIZE_MAX {
        Err(BufferError::TooLarge)
    } else {
        Ok(
            PoolBuffer {
                pixel_size: Vector2D { x: (w * 256) as i64, y: (h * 256) as i64 },
                format: FORMAT_ARGB8888,
                stride: (4 * w) as u32,
                size: (4 * w * h) as usize,
                busy: false,
            },
        )
    }
}

impl PoolBuffer {
    /// Describes an ARGB buffer for a surface of `pixel_size`, four bytes
    /// per pixel and no padding between rows.
    pub fn for_surface(pixel_size: Vector2D) -> (r: Result<Self, BufferError>)
        ensures
            r == surface_buffer(pixel_size),
    {
        let w = pixel_size.x.checked_div_euclid(FIXED_ONE).unwrap();
        let h = pixel_size.y.checked_div_euclid(FIXED_ONE).unwrap();
        if w <= 0 || h <= 0 {
            return Err(BufferError::Empty);
        }
        if w > 0x2000_0000 || h > POOL_SIZE_MAX as i64 {
            assert(4 * w * h > POOL_SIZE_MAX) by (nonlinear_arith)
                requires
                    w > 0,
                    h > 0,
                    w > 0x2000_0000 || h > POOL_SIZE_MAX,
            ;
            return Err(BufferError::TooLarge);
        }
        assert(4 * w * h <= 4 * 0x2000_0000 * POOL_SIZE_MAX) by (nonlinear_arith)
            requires
                0 < w <= 0x2000_0000,
                0 < h <= POOL_SIZE_MAX,
        ;
        let len = BYTES_PER_PIXEL * w * h;
        if len > POOL_SIZE_MAX as i64 {
            return Err(BufferError::TooLarge);
        }
        assert(4 * w <= len) by (nonlinear_arith)
            requires
                len == 4 * w * h,
                w > 0,
                h >= 1,
        ;
        Ok(
            PoolBuffer {
                pixel_size: Vector2D::new(w * FIXED_ONE, h * FIXED_ONE),
                format: FORMAT_ARGB8888,
                stride: (BYTES_PER_PIXEL * w) as u32,
                size: len as usize,
                busy: false,
            },
        )
    }

    /// Describes a new, free buffer of `width` x `height` pixels with rows
    /// of `stride` bytes.
    pub fn new(width: i32, height: i32, format: u32, stride: u32) -> (r: Result<Self, BufferError>)
        ensures
            width <= 0 ==> r == Err::<Self, BufferError>(BufferError::Empty),
            width > 0 ==> match buffer_len(height as int, stride as int) {
                Ok(len) => r matches Ok(b) && b.size == len && b.pixel_size == Vector2D {
                    x: (width * 256) as i64,
                    y: (height * 256) as i64,
                } && b.format == format && b.stride == stride && !b.busy,
                Err(e) => r == Err::<Self, BufferError>(e),
            },
    {
        if width <= 0 || height <= 0 || stride == 0 {
            return Err(BufferError::Empty);
        }
        assert(stride as u64 * height as u64 <= 0xffff_ffff * 0x7fff_ffff) by (nonlinear_arith)
            requires
                stride <= 0xffff_ffff,
                0 < height <= 0x7fff_ffff,
        ;
        let len: u64 = stride as u64 * height as u64;
        if len > POOL_SIZE_MAX {
            return Err(BufferError::TooLarge);
        }
        Ok(
            PoolBuffer {
                pixel_size: Vector2D::new(width as i64 * FIXED_ONE, height as i64 * FIXED_ONE),
                format,
                stride,
                size: len as usize,
                busy: false,
            },
        )
    }

    pub fn set_busy(&mut self, busy: bool)
        ensures
            *final(self) == (PoolBuffer { busy, ..*old(self) }),
    {
        self.busy = busy;
    }
}

} // verus!
