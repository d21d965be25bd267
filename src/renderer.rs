//! The magnification transform: zoom level and the plan of a composited frame.
//!
//! Drawing itself (clearing, painting the capture with bilinear or nearest
//! filtering, stroking the outline) is done by the caller following a
//! `RenderPlan`; this module decides which stages run and where they paint.
use crate::config::{clamp, RATIO_ONE};
use crate::vector::{fits_i64, floor_px, size_in_range, Vector2D, COORD_LIMIT, FIXED_ONE};
use vstd::prelude::*;

verus! {

/// Smallest zoom factor (0.01): the strongest magnification.
pub const ZOOM_MIN: i64 = 10_000;

/// Zoom factor of a new renderer (0.5: half the area, twice the size).
pub const ZOOM_DEFAULT: i64 = 500_000;

/// Zoom is the fraction of the captured area that is shown, in millionths:
/// lower is more magnified, `RATIO_ONE` is no magnification.
pub struct Renderer {
    pub zoom: i64,
}

/// An axis-aligned rectangle.
#[derive(Clone, Copy, Debug, PartialEq, Eq, Structural)]
pub struct Rect {
    pub origin: Vector2D,
    pub size: Vector2D,
}

/// Where the magnified region is painted and framed.
#[derive(Clone, Copy, Debug, PartialEq, Eq, Structural)]
pub struct MagnifierPlan {
    /// The pointer position rounded down to a whole pixel: the fixed point
    /// of the magnification.
    pub anchor: Vector2D,
    /// Zoom factor of the sampling transform, in millionths.
    pub zoom: i64,
    /// The anchor mapped into the capture: anchor / output size x capture
    /// size, rounded down to a sub-pixel step. The sampling transform keeps
    /// this capture point under the anchor.
    pub capture_anchor: Vector2D,
    /// The magnified pixels are clipped to this rectangle, centred on the anchor.
    pub clip: Rect,
    /// The 2-pixel gray frame: the same bounds as the clip.
    pub outline: Rect,
}

/// The stages of one frame. The output is always first cleared to fully
/// transparent pixels.
#[derive(Clone, Copy, Debug, PartialEq, Eq, Structural)]
pub struct RenderPlan {
    /// Paint the whole capture, scaled to the output, with bilinear filtering.
    pub background: bool,
    /// Capture size over output size, per axis, in sub-pixel steps
    /// (`FIXED_ONE` is 1), rounded down.
    pub capture_scale: Vector2D,
    /// Paint the magnified region and its outline.
    pub magnifier: Option<MagnifierPlan>,
}

pub open spec fn clamp_zoom(z: int) -> int {
    clamp(z, ZOOM_MIN as int, RATIO_ONE as int)
}

/// A rectangle of `size` centred on `center` (half sizes rounded down).
pub open spec fn centered(center: Vector2D, size: Vector2D) -> Rect {
    Rect {
        origin: Vector2D { x: (center.x - size.x / 2) as i64, y: (center.y - size.y / 2) as i64 },
        size,
    }
}

pub open spec fn anchor_of(position: Vector2D) -> Vector2D {
    Vector2D { x: floor_px(position.x as int) as i64, y: floor_px(position.y as int) as i64 }
}

/// A point of the output mapped into the capture: `p / output * capture`.
pub open spec fn capture_point(p: Vector2D, output: Vector2D, capture: Vector2D) -> (int, int) {
    ((p.x * capture.x) / (output.x as int), (p.y * capture.y) / (output.y as int))
}

/// Capture size over output size, in sub-pixel steps.
pub open spec fn capture_ratio(output: Vector2D, capture: Vector2D) -> (int, int) {
    ((capture.x * 256) / (output.x as int), (capture.y * 256) / (output.y as int))
}

/// The output has pixels and the mapping of `anchor` into the capture, and
/// the ratio of the sizes, fit in 64 bits.
pub open spec fn mapping_in_range(anchor: Vector2D, output: Vector2D, capture: Vector2D) -> bool {
    &&& output.x > 0
    &&& output.y > 0
    &&& fits_i64(capture_point(anchor, output, capture).0)
    &&& fits_i64(capture_point(anchor, output, capture).1)
    &&& fits_i64(capture_ratio(output, capture).0)
    &&& fits_i64(capture_ratio(output, capture).1)
}

pub open spec fn magnifier_spec(
    zoom: i64,
    position: Vector2D,
    size: Vector2D,
    output: Vector2D,
    capture: Vector2D,
) -> MagnifierPlan {
    let anchor = anchor_of(position);
    MagnifierPlan {
        anchor,
        zoom,
        capture_anchor: Vector2D {
            x: capture_point(anchor, output, capture).0 as i64,
            y: capture_point(anchor, output, capture).1 as i64,
        },
        clip: centered(anchor, size),
        outline: centered(anchor, size),
    }
}

/// The background runs unless the frame is forced inactive without
/// `render_inactive`; the magnifier runs only when not forced inactive.
pub open spec fn plan_spec(
    zoom: i64,
    position: Vector2D,
    size: Vector2D,
    output: Vector2D,
    capture: Vector2D,
    force_inactive: bool,
    render_inactive: bool,
) -> RenderPlan {
    RenderPlan {
        background: !force_inactive || render_inactive,
        capture_scale: Vector2D {
            x: capture_ratio(output, capture).0 as i64,
            y: capture_ratio(output, capture).1 as i64,
        },
        magnifier: if force_inactive {
            None
        } else {
            Some(magnifier_spec(zoom, position, size, output, capture))
        },
    }
}

/// `v * k / d`, the division Euclidean, computed without overflow.
fn mul_div(v: i64, k: i64, d: i64) -> (r: i128)
    requires
        d > 0,
    ensures
        r == (v * k) / (d as int),
{
    assert(-0x4000_0000_0000_0000_0000_0000_0000_0000 <= v * k <= 0x4000_0000_0000_0000_0000_0000_0000_0000)
        by (nonlinear_arith)
        requires
            i64::MIN <= v <= i64::MAX,
            i64::MIN <= k <= i64::MAX,
    ;
    let p: i128 = v as i128 * k as i128;
    if p >= 0 {
        assert(0 <= (p as int) / (d as int) <= p) by (nonlinear_arith)
            requires
                p >= 0,
                d > 0,
        ;
    } else {
        assert(p <= (p as int) / (d as int) < 0) by (nonlinear_arith)
            requires
                p < 0,
                d > 0,
        ;
    }
    p.checked_div_euclid(d as i128).unwrap()
}

/// Whether a frame anchored at `anchor` can be mapped into the capture
/// (see `mapping_in_range`).
pub fn mapping_fits(anchor: Vector2D, output: Vector2D, capture: Vector2D) -> (r: bool)
    ensures
        r == mapping_in_range(anchor, output, capture),
{
    if output.x <= 0 || output.y <= 0 {
        return false;
    }
    let px = mul_div(anchor.x, capture.x, output.x);
    let py = mul_div(anchor.y, capture.y, output.y);
    let rx = mul_div(capture.x, FIXED_ONE, output.x);
    let ry = mul_div(capture.y, FIXED_ONE, output.y);
    let lo = i64::MIN as i128;
    let hi = i64::MAX as i128;
    lo <= px && px <= hi && lo <= py && py <= hi && lo <= rx && rx <= hi && lo <= ry && ry <= hi
}

fn centered_rect(center: Vector2D, size: Vector2D) -> (r: Rect)
    requires
        -COORD_LIMIT - 256 <= center.x <= COORD_LIMIT,
        -COORD_LIMIT - 256 <= center.y <= COORD_LIMIT,
        size_in_range(size),
    ensures
        r == centered(center, size),
{
    Rect { origin: Vector2D::new(center.x - size.x / 2, center.y - size.y / 2), size }
}

impl Renderer {
    pub open spec fn wf(&self) -> bool {
        ZOOM_MIN <= self.zoom <= RATIO_ONE
    }

    pub fn new() -> (r: Self)
        ensures
            r.wf(),
            r.zoom == ZOOM_DEFAULT,
    {
        Renderer { zoom: ZOOM_DEFAULT }
    }

    /// Sets the zoom factor, clamped to [0.01, 1.0].
    pub fn set_zoom(&mut self, zoom: i64)
        ensures
            final(self).wf(),
            final(self).zoom == clamp_zoom(zoom as int),
    {
        self.zoom = if zoom < ZOOM_MIN {
            ZOOM_MIN
        } else if zoom > RATIO_ONE {
            RATIO_ONE
        } else {
            zoom
        };
    }

    /// Adds `delta` to the zoom factor, clamping the sum to [0.01, 1.0].
    pub fn adjust_zoom(&mut self, delta: i64)
        requires
            old(self).wf(),
        ensures
            final(self).wf(),
            final(self).zoom == clamp_zoom(old(self).zoom + delta),
    {
        let sum: i128 = self.zoom as i128 + delta as i128;
        self.zoom = if sum < ZOOM_MIN as i128 {
            ZOOM_MIN
        } else if sum > RATIO_ONE as i128 {
            RATIO_ONE
        } else {
            sum as i64
        };
    }

    /// Plans one frame of the overlay, of `output_size`, from a capture of
    /// `capture_size`, for a pointer at `position` and a magnifying frame of
    /// `magnifier_size`.
    pub fn render_surface(
        &self,
        position: Vector2D,
        magnifier_size: Vector2D,
        output_size: Vector2D,
        capture_size: Vector2D,
        force_inactive: bool,
        render_inactive: bool,
    ) -> (r: RenderPlan)
        requires
            position.in_range(),
            size_in_range(magnifier_size),
            mapping_in_range(anchor_of(position), output_size, capture_size),
        ensures
            r == plan_spec(
                self.zoom,
                position,
                magnifier_size,
                output_size,
                capture_size,
                force_inactive,
                render_inactive,
            ),
    {
        let background = !force_inactive || render_inactive;
        let capture_scale = Vector2D::new(
            mul_div(capture_size.x, FIXED_ONE, output_size.x) as i64,
            mul_div(capture_size.y, FIXED_ONE, output_size.y) as i64,
        );
        if force_inactive {
            RenderPlan { background, capture_scale, magnifier: None }
        } else {
            let m = self.render_magnified_region(position, magnifier_size, output_size, capture_size);
            let outline = self.draw_outline(position, magnifier_size);
            RenderPlan { background, capture_scale, magnifier: Some(MagnifierPlan { outline, ..m }) }
        }
    }

    /// The anchor of the magnification, its point in the capture, and the
    /// rectangle the magnified pixels are clipped to.
    pub fn render_magnified_region(
        &self,
        position: Vector2D,
        size: Vector2D,
        output_size: Vector2D,
        capture_size: Vector2D,
    ) -> (r: MagnifierPlan)
        requires
            position.in_range(),
            size_in_range(size),
            mapping_in_range(anchor_of(position), output_size, capture_size),
        ensures
            r == magnifier_spec(self.zoom, position, size, output_size, capture_size),
    {
        let anchor = position.floor();
        let clip = centered_rect(anchor, size);
        let capture_anchor = Vector2D::new(
            mul_div(anchor.x, capture_size.x, output_size.x) as i64,
            mul_div(anchor.y, capture_size.y, output_size.y) as i64,
        );
        MagnifierPlan { anchor, zoom: self.zoom, capture_anchor, clip, outline: clip }
    }

    /// The rectangle that frames the magnified region: the clip bounds,
    /// centred on the pointer position rounded down to a whole pixel.
    pub fn draw_outline(&self, position: Vector2D, size: Vector2D) -> (r: Rect)
        requires
            position.in_range(),
            size_in_range(size),
        ensures
            r == centered(anchor_of(position), size),
    {
        centered_rect(position.floor(), size)
    }
}

impl Default for Renderer {
    fn default() -> (r: Self)
        ensures
            r.wf(),
            r.zoom == ZOOM_DEFAULT,
    {
        Renderer::new()
    }
}

} // verus!
