//! Two-dimensional fixed-point vectors.
//!
//! Coordinates are held in 1/256 of a pixel, the resolution in which the
//! compositor reports pointer positions, so that arithmetic on them is exact.
use vstd::prelude::*;

verus! {

/// Sub-pixel steps per pixel.
pub const FIXED_ONE: i64 = 256;

/// Largest magnitude of a component that the rounding and length operations accept.
pub const COORD_LIMIT: i64 = 0x100_0000_0000;

/// Round down to a whole pixel (a multiple of `FIXED_ONE`).
pub open spec fn floor_px(v: int) -> int {
    (v / 256) * 256
}

/// Round up to a whole pixel.
pub open spec fn ceil_px(v: int) -> int {
    -floor_px(-v)
}

/// Round to the nearest whole pixel, halves away from zero.
pub open spec fn round_px(v: int) -> int {
    if v >= 0 {
        floor_px(v + 128)
    } else {
        -floor_px(-v + 128)
    }
}

/// `r` is the square root of `n`, rounded down.
pub open spec fn is_floor_sqrt(n: int, r: int) -> bool {
    0 <= r && r * r <= n < (r + 1) * (r + 1)
}

pub open spec fn fits_i64(v: int) -> bool {
    i64::MIN <= v <= i64::MAX
}

/// A size with no negative component, small enough that its half can be
/// taken away from any coordinate in range.
pub open spec fn size_in_range(size: Vector2D) -> bool {
    0 <= size.x <= COORD_LIMIT && 0 <= size.y <= COORD_LIMIT
}

/// A point or size in the plane, each component in 1/256 pixel.
#[derive(Clone, Copy, Debug, PartialEq, Eq, Structural)]
pub struct Vector2D {
    pub x: i64,
    pub y: i64,
}

fn floor_component(v: i64) -> (r: i64)
    requires
        -COORD_LIMIT - 256 <= v <= COORD_LIMIT + 256,
    ensures
        r == floor_px(v as int),
{
    let q = v.checked_div_euclid(FIXED_ONE).unwrap();
    q * FIXED_ONE
}

fn ceil_component(v: i64) -> (r: i64)
    requires
        -COORD_LIMIT <= v <= COORD_LIMIT,
    ensures
        r == ceil_px(v as int),
{
    -floor_component(-v)
}

fn round_component(v: i64) -> (r: i64)
    requires
        -COORD_LIMIT <= v <= COORD_LIMIT,
    ensures
        r == round_px(v as int),
{
    if v >= 0 {
        floor_component(v + 128)
    } else {
        -floor_component(-v + 128)
    }
}

/// Floor of the square root.
fn isqrt(n: u128) -> (r: u64)
    requires
        n <= 0x4_0000_0000_0000_0000_0000,
    ensures
        r * r <= n < (r + 1) * (r + 1),
{
    let mut lo: u128 = 0;
    let mut hi: u128 = 0x400_0000_0000;
    assert(hi * hi == 0x10_0000_0000_0000_0000_0000) by (nonlinear_arith)
        requires
            hi == 0x400_0000_0000,
    ;
    while hi - lo > 1
        invariant
            lo < hi <= 0x400_0000_0000,
            lo * lo <= n,
            n < hi * hi,
        decreases hi - lo,
    {
        let mid = lo + (hi - lo) / 2;
        assert(mid * mid <= 0x10_0000_0000_0000_0000_0000) by (nonlinear_arith)
            requires
                mid <= 0x400_0000_0000,
        ;
        if mid * mid <= n {
            lo = mid;
        } else {
            hi = mid;
        }
    }
    assert(hi == lo + 1);
    lo as u64
}

/// `v * k / d`, the division Euclidean.
fn scale_component(v: i64, k: i64, d: i64) -> (r: i64)
    requires
        d != 0,
        fits_i64((v * k) / (d as int)),
    ensures
        r == (v * k) / (d as int),
{
    assert(-0x4000_0000_0000_0000_0000_0000_0000_0000 <= v * k <= 0x4000_0000_0000_0000_0000_0000_0000_0000)
        by (nonlinear_arith)
        requires
            i64::MIN <= v <= i64::MAX,
            i64::MIN <= k <= i64::MAX,
    ;
    let p: i128 = v as i128 * k as i128;
    let q = p.checked_div_euclid(d as i128).unwrap();
    q as i64
}

proof fn lemma_scaled_fits(v: i64, len: i64)
    requires
        -COORD_LIMIT <= v <= COORD_LIMIT,
        len >= 1,
    ensures
        fits_i64((v * 256) / (len as int)),
{
    assert(-COORD_LIMIT * 256 <= v * 256 <= COORD_LIMIT * 256) by (nonlinear_arith)
        requires
            -COORD_LIMIT <= v <= COORD_LIMIT,
    ;
    if v >= 0 {
        assert(0 <= (v * 256) / (len as int) <= v * 256) by (nonlinear_arith)
            requires
                v >= 0,
                len >= 1,
        ;
    } else {
        assert(v * 256 <= (v * 256) / (len as int) < 0) by (nonlinear_arith)
            requires
                v < 0,
                len >= 1,
        ;
    }
}

impl Vector2D {
    pub open spec fn in_range(self) -> bool {
        -COORD_LIMIT <= self.x <= COORD_LIMIT && -COORD_LIMIT <= self.y <= COORD_LIMIT
    }

    pub fn new(x: i64, y: i64) -> (r: Self)
        ensures
            r.x == x,
            r.y == y,
    {
        Vector2D { x, y }
    }

    pub fn floor(self) -> (r: Self)
        requires
            self.in_range(),
        ensures
            r.x == floor_px(self.x as int),
            r.y == floor_px(self.y as int),
    {
        Vector2D { x: floor_component(self.x), y: floor_component(self.y) }
    }

    pub fn round(self) -> (r: Self)
        requires
            self.in_range(),
        ensures
            r.x == round_px(self.x as int),
            r.y == round_px(self.y as int),
    {
        Vector2D { x: round_component(self.x), y: round_component(self.y) }
    }

    pub fn ceil(self) -> (r: Self)
        requires
            self.in_range(),
        ensures
            r.x == ceil_px(self.x as int),
            r.y == ceil_px(self.y as int),
    {
        Vector2D { x: ceil_component(self.x), y: ceil_component(self.y) }
    }

    /// Squared Euclidean length, in squared sub-pixel steps.
    pub open spec fn norm_sq(self) -> int {
        self.x * self.x + self.y * self.y
    }

    /// Euclidean length in sub-pixel steps, rounded down.
    pub fn length(self) -> (r: i64)
        requires
            self.in_range(),
        ensures
            is_floor_sqrt(self.norm_sq(), r as int),
    {
        let ax: u128 = if self.x >= 0 { self.x as u128 } else { (-self.x) as u128 };
        let ay: u128 = if self.y >= 0 { self.y as u128 } else { (-self.y) as u128 };
        assert(ax * ax == self.x * self.x && ay * ay == self.y * self.y) by (nonlinear_arith)
            requires
                ax == self.x || ax == -self.x,
                ay == self.y || ay == -self.y,
        ;
        assert(ax * ax <= 0x1_0000_0000_0000_0000_0000 && ay * ay <= 0x1_0000_0000_0000_0000_0000)
            by (nonlinear_arith)
            requires
                ax <= 0x100_0000_0000,
                ay <= 0x100_0000_0000,
        ;
        let r = isqrt(ax * ax + ay * ay);
        assert(r <= 0x200_0000_0000) by (nonlinear_arith)
            requires
                r * r <= 0x2_0000_0000_0000_0000_0000,
        ;
        r as i64
    }

    /// The vector scaled to a length of one pixel, each component rounded
    /// down; the zero vector is returned unchanged.
    pub fn normalize(self) -> (r: Self)
        requires
            self.in_range(),
        ensures
            self.norm_sq() == 0 ==> r == self,
            self.norm_sq() != 0 ==> exists|len: int|
                #[trigger] is_floor_sqrt(self.norm_sq(), len) && len > 0 && r.x == (self.x * 256)
                    / len && r.y == (self.y * 256) / len,
    {
        let len = self.length();
        if len == 0 {
            assert(self.x * self.x >= 0 && self.y * self.y >= 0) by (nonlinear_arith);
            assert(self.norm_sq() == 0);
            self
        } else {
            assert(self.norm_sq() != 0) by (nonlinear_arith)
                requires
                    len * len <= self.norm_sq(),
                    len >= 1,
            ;
            proof {
                lemma_scaled_fits(self.x, len);
                lemma_scaled_fits(self.y, len);
            }
            let r = self.div(len);
            assert(is_floor_sqrt(self.norm_sq(), len as int));
            assert(r.x == (self.x * 256) / (len as int));
            assert(r.y == (self.y * 256) / (len as int));
            r
        }
    }

    pub fn add(self, o: Self) -> (r: Self)
        requires
            fits_i64(self.x + o.x),
            fits_i64(self.y + o.y),
        ensures
            r.x == self.x + o.x,
            r.y == self.y + o.y,
    {
        Vector2D { x: self.x + o.x, y: self.y + o.y }
    }

    pub fn sub(self, o: Self) -> (r: Self)
        requires
            fits_i64(self.x - o.x),
            fits_i64(self.y - o.y),
        ensures
            r.x == self.x - o.x,
            r.y == self.y - o.y,
    {
        Vector2D { x: self.x - o.x, y: self.y - o.y }
    }

    /// Multiply by a fixed-point factor (`FIXED_ONE` is 1), rounding down.
    pub fn mul(self, k: i64) -> (r: Self)
        requires
            fits_i64((self.x * k) / 256),
            fits_i64((self.y * k) / 256),
        ensures
            r.x == (self.x * k) / 256,
            r.y == (self.y * k) / 256,
    {
        Vector2D { x: scale_component(self.x, k, FIXED_ONE), y: scale_component(self.y, k, FIXED_ONE) }
    }

    /// Multiply component by component, rounding down.
    pub fn mul_vec(self, o: Self) -> (r: Self)
        requires
            fits_i64((self.x * o.x) / 256),
            fits_i64((self.y * o.y) / 256),
        ensures
            r.x == (self.x * o.x) / 256,
            r.y == (self.y * o.y) / 256,
    {
        Vector2D { x: scale_component(self.x, o.x, FIXED_ONE), y: scale_component(self.y, o.y, FIXED_ONE) }
    }

    /// Divide by a fixed-point divisor (Euclidean division of the scaled value).
    pub fn div(self, d: i64) -> (r: Self)
        requires
            d != 0,
            fits_i64((self.x * 256) / (d as int)),
            fits_i64((self.y * 256) / (d as int)),
        ensures
            r.x == (self.x * 256) / (d as int),
            r.y == (self.y * 256) / (d as int),
    {
        Vector2D { x: scale_component(self.x, FIXED_ONE, d), y: scale_component(self.y, FIXED_ONE, d) }
    }

    /// Divide component by component (Euclidean division of the scaled value).
    pub fn div_vec(self, o: Self) -> (r: Self)
        requires
            o.x != 0,
            o.y != 0,
            fits_i64((self.x * 256) / (o.x as int)),
            fits_i64((self.y * 256) / (o.y as int)),
        ensures
            r.x == (self.x * 256) / (o.x as int),
            r.y == (self.y * 256) / (o.y as int),
    {
        Vector2D { x: scale_component(self.x, FIXED_ONE, o.x), y: scale_component(self.y, FIXED_ONE, o.y) }
    }
}

impl Default for Vector2D {
    fn default() -> (r: Self)
        ensures
            r.x == 0,
            r.y == 0,
    {
        Vector2D { x: 0, y: 0 }
    }
}

/// Whole pixels to sub-pixel steps.
impl From<(i32, i32)> for Vector2D {
    fn from(p: (i32, i32)) -> (r: Self) {
        Vector2D { x: p.0 as i64 * FIXED_ONE, y: p.1 as i64 * FIXED_ONE }
    }
}

impl vstd::std_specs::convert::FromSpecImpl<(i32, i32)> for Vector2D {
    open spec fn obeys_from_spec() -> bool {
        true
    }

    open spec fn from_spec(p: (i32, i32)) -> Self {
        Vector2D { x: (p.0 * 256) as i64, y: (p.1 * 256) as i64 }
    }
}

} // verus!
