//! Pointer position tracking and the normalization of surface-local
//! coordinates.
use crate::vector::Vector2D;
use vstd::prelude::*;

verus! {

/// Some compositors report a position left of (or above) a monitor's origin
/// as a negative offset from its far edge: such a coordinate is taken from
/// the monitor's extent.
pub open spec fn normalized(raw: int, extent: int) -> int {
    if raw < 0 {
        extent + raw
    } else {
        raw
    }
}

pub open spec fn normalized_position(raw: Vector2D, size: Vector2D) -> Vector2D {
    Vector2D {
        x: normalized(raw.x as int, size.x as int) as i64,
        y: normalized(raw.y as int, size.y as int) as i64,
    }
}

/// Both coordinates lie within `[0, size]`.
pub open spec fn within(p: Vector2D, size: Vector2D) -> bool {
    0 <= p.x <= size.x && 0 <= p.y <= size.y
}

/// Maps a coordinate reported by the compositor to a monitor-local one:
/// a negative coordinate is counted back from the monitor's extent, any
/// other passes through unchanged.
pub fn normalize_coordinate(raw: i64, extent: i64) -> (r: i64)
    requires
        raw < 0 ==> i64::MIN <= extent + raw,
    ensures
        r == normalized(raw as int, extent as int),
{
    if raw < 0 {
        extent + raw
    } else {
        raw
    }
}

/// Normalizes both coordinates of a reported position.
pub fn normalize_position(raw: Vector2D, size: Vector2D) -> (r: Vector2D)
    requires
        raw.x < 0 ==> i64::MIN <= size.x + raw.x,
        raw.y < 0 ==> i64::MIN <= size.y + raw.y,
    ensures
        r == normalized_position(raw, size),
{
    Vector2D::new(normalize_coordinate(raw.x, size.x), normalize_coordinate(raw.y, size.y))
}

/// Whether a position lies on a monitor of the given size, edges included.
pub fn is_within(p: Vector2D, size: Vector2D) -> (r: bool)
    ensures
        r == within(p, size),
{
    p.x >= 0 && p.x <= size.x && p.y >= 0 && p.y <= size.y
}

/// Last known position of the pointer on a surface.
#[derive(Clone, Copy, Debug, PartialEq, Eq, Structural)]
pub struct Pointer {
    pub position: Vector2D,
    /// The pointer is over one of the overlay surfaces.
    pub entered: bool,
}

impl Pointer {
    pub fn new() -> (r: Self)
        ensures
            r.position == (Vector2D { x: 0, y: 0 }),
            !r.entered,
    {
        Pointer { position: Vector2D::new(0, 0), entered: false }
    }

    pub fn handle_enter(&mut self, surface_x: i64, surface_y: i64)
        ensures
            final(self).position == (Vector2D { x: surface_x, y: surface_y }),
            final(self).entered,
    {
        self.position = Vector2D::new(surface_x, surface_y);
        self.entered = true;
    }

    pub fn handle_leave(&mut self)
        ensures
            final(self).position == old(self).position,
            !final(self).entered,
    {
        self.entered = false;
    }

    pub fn handle_motion(&mut self, surface_x: i64, surface_y: i64)
        ensures
            final(self).position == (Vector2D { x: surface_x, y: surface_y }),
            final(self).entered == old(self).entered,
    {
        self.position = Vector2D::new(surface_x, surface_y);
    }
}

} // verus!
