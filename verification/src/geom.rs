//! Planar geometry over fixed-point integer coordinates: points, axis-aligned
//! rectangles, squared distances, and an integer square root used to scale
//! direction vectors.

use vstd::prelude::*;

verus! {

/// Coordinates are kept within this bound so that squared distances and the
/// products in movement arithmetic fit in an `i64`.
pub const COORD_LIMIT: i64 = 1000000000;

/// A point or direction in the plane, in fixed-point coordinate units.
#[derive(Clone, Copy, Debug, PartialEq, Eq, Structural)]
pub struct Vec2i {
    pub x: i64,
    pub y: i64,
}

/// True when both coordinates of `v` are within the global coordinate bound.
pub open spec fn in_coord_range(v: Vec2i) -> bool {
    -COORD_LIMIT <= v.x <= COORD_LIMIT && -COORD_LIMIT <= v.y <= COORD_LIMIT
}

/// Squared Euclidean distance between `a` and `b`.
pub open spec fn spec_dist_sq(a: Vec2i, b: Vec2i) -> int {
    (a.x - b.x) * (a.x - b.x) + (a.y - b.y) * (a.y - b.y)
}

impl Vec2i {
    pub fn new(x: i64, y: i64) -> (r: Vec2i)
        ensures
            r.x == x && r.y == y,
    {
        Vec2i { x, y }
    }

    /// Squared distance to another point; used for all range and
    /// nearest-target tests so that no square root is needed.
    pub fn dist_sq(&self, other: &Vec2i) -> (r: i64)
        requires
            in_coord_range(*self),
            in_coord_range(*other),
        ensures
            r == spec_dist_sq(*self, *other),
            r >= 0,
    {
        let dx: i64 = self.x - other.x;
        let dy: i64 = self.y - other.y;
        proof {
            square_bound(dx as int, 2 * COORD_LIMIT as int);
            square_bound(dy as int, 2 * COORD_LIMIT as int);
        }
        dx * dx + dy * dy
    }
}

/// |d| <= m implies d * d <= m * m, and squares are nonnegative.
proof fn square_bound(d: int, m: int)
    by (nonlinear_arith)
    requires
        -m <= d <= m,
    ensures
        0 <= d * d <= m * m,
{
}

/// An axis-aligned rectangle. Well-formed rectangles keep `min` at or below
/// `max` on both axes and all corners within the coordinate bound.
#[derive(Clone, Copy, Debug, PartialEq, Eq, Structural)]
pub struct Recti {
    pub min: Vec2i,
    pub max: Vec2i,
}

/// Well-formedness of a rectangle: ordered corners inside the coordinate bound.
pub open spec fn rect_wf(r: Recti) -> bool {
    &&& in_coord_range(r.min)
    &&& in_coord_range(r.max)
    &&& r.min.x <= r.max.x
    &&& r.min.y <= r.max.y
}

/// Membership of a point in a rectangle, inclusive on all edges.
pub open spec fn rect_contains(r: Recti, p: Vec2i) -> bool {
    r.min.x <= p.x <= r.max.x && r.min.y <= p.y <= r.max.y
}

/// Area of a rectangle.
pub open spec fn spec_area(r: Recti) -> int {
    (r.max.x - r.min.x) * (r.max.y - r.min.y)
}

/// Intersection of two rectangles, with an empty overlap collapsed so that
/// the corners stay ordered.
pub open spec fn spec_intersect(a: Recti, b: Recti) -> Recti {
    let hi = Vec2i { x: min_spec(a.max.x as int, b.max.x as int) as i64, y: min_spec(a.max.y as int, b.max.y as int) as i64 };
    let lo = Vec2i {
        x: min_spec(max_spec(a.min.x as int, b.min.x as int), hi.x as int) as i64,
        y: min_spec(max_spec(a.min.y as int, b.min.y as int), hi.y as int) as i64,
    };
    Recti { min: lo, max: hi }
}

impl Recti {
    /// Builds a rectangle from two arbitrary corners, ordering each axis.
    pub fn from_corners(a: Vec2i, b: Vec2i) -> (r: Recti)
        requires
            in_coord_range(a),
            in_coord_range(b),
        ensures
            rect_wf(r),
            r.min.x == if a.x <= b.x { a.x } else { b.x },
            r.min.y == if a.y <= b.y { a.y } else { b.y },
            r.max.x == if a.x >= b.x { a.x } else { b.x },
            r.max.y == if a.y >= b.y { a.y } else { b.y },
    {
        Recti {
            min: Vec2i { x: min_i64(a.x, b.x), y: min_i64(a.y, b.y) },
            max: Vec2i { x: max_i64(a.x, b.x), y: max_i64(a.y, b.y) },
        }
    }

    pub fn width(&self) -> (r: i64)
        requires
            rect_wf(*self),
        ensures
            r == self.max.x - self.min.x,
            r >= 0,
    {
        self.max.x - self.min.x
    }

    pub fn height(&self) -> (r: i64)
        requires
            rect_wf(*self),
        ensures
            r == self.max.y - self.min.y,
            r >= 0,
    {
        self.max.y - self.min.y
    }

    /// Area of the rectangle; fits in `i64` because each side is at most
    /// twice the coordinate bound.
    pub fn area(&self) -> (r: i64)
        requires
            rect_wf(*self),
        ensures
            r == spec_area(*self),
            0 <= r <= 4000000000000000000,
    {
        let w: i64 = self.width();
        let h: i64 = self.height();
        proof {
            mul_bound(w as int, h as int, 2 * COORD_LIMIT as int);
        }
        w * h
    }

    pub fn contains(&self, p: Vec2i) -> (r: bool)
        ensures
            r == rect_contains(*self, p),
    {
        self.min.x <= p.x && p.x <= self.max.x && self.min.y <= p.y && p.y <= self.max.y
    }

    /// Intersection of two rectangles. When they do not overlap, the result
    /// is collapsed to an empty rectangle (equal corners on the empty axis)
    /// so that it stays well-formed.
    pub fn intersect(&self, other: &Recti) -> (r: Recti)
        requires
            rect_wf(*self),
            rect_wf(*other),
        ensures
            rect_wf(r),
            r == spec_intersect(*self, *other),
    {
        let hi = Vec2i { x: min_i64(self.max.x, other.max.x), y: min_i64(self.max.y, other.max.y) };
        let lo = Vec2i {
            x: min_i64(max_i64(self.min.x, other.min.x), hi.x),
            y: min_i64(max_i64(self.min.y, other.min.y), hi.y),
        };
        Recti { min: lo, max: hi }
    }
}

/// 0 <= a <= m and 0 <= b <= m imply a * b <= m * m.
proof fn mul_bound(a: int, b: int, m: int)
    by (nonlinear_arith)
    requires
        0 <= a <= m,
        0 <= b <= m,
    ensures
        0 <= a * b <= m * m,
{
}

pub open spec fn min_spec(a: int, b: int) -> int {
    if a <= b {
        a
    } else {
        b
    }
}

pub open spec fn max_spec(a: int, b: int) -> int {
    if a >= b {
        a
    } else {
        b
    }
}

pub fn min_i64(a: i64, b: i64) -> (r: i64)
    ensures
        r == min_spec(a as int, b as int),
{
    if a <= b {
        a
    } else {
        b
    }
}

pub fn max_i64(a: i64, b: i64) -> (r: i64)
    ensures
        r == max_spec(a as int, b as int),
{
    if a >= b {
        a
    } else {
        b
    }
}

/// `r` is the integer square root of `n`: the largest integer whose square
/// does not exceed `n`.
pub open spec fn is_sqrt(n: int, r: int) -> bool {
    r >= 0 && r * r <= n < (r + 1) * (r + 1)
}

/// The integer square root is unique.
pub proof fn lemma_sqrt_unique(n: int, a: int, b: int)
    by (nonlinear_arith)
    requires
        is_sqrt(n, a),
        is_sqrt(n, b),
    ensures
        a == b,
{
}

/// Integer square root by binary search.
pub fn isqrt(n: u64) -> (r: u64)
    ensures
        is_sqrt(n as int, r as int),
{
    if n == 0 {
        return 0;
    }
    let mut lo: u64 = 0;
    let mut hi: u64 = 4294967296;
    proof {
        assert(n < hi * hi) by (nonlinear_arith)
            requires hi == 4294967296 && n <= u64::MAX;
    }
    while lo + 1 < hi
        invariant
            0 <= lo < hi <= 4294967296,
            lo * lo <= n as int,
            (n as int) < hi * hi,
        decreases hi - lo,
    {
        let mid: u64 = lo + (hi - lo) / 2;
        proof {
            assert(mid * mid < 4294967296 * 4294967296) by (nonlinear_arith)
                requires
                    0 <= mid < 4294967296,
            ;
        }
        if mid * mid <= n {
            lo = mid;
        } else {
            hi = mid;
        }
    }
    lo
}

/// The component of a direction vector `d`, rescaled so that the whole vector
/// has length `s`, where `l` is the vector's current length: the integer
/// counterpart of `d / |d| * s`, with division truncating toward zero.
pub open spec fn spec_scaled(d: int, s: int, l: int) -> int {
    if d >= 0 {
        (d * s) / l
    } else {
        -((-d * s) / l)
    }
}

/// Multiplies a nonnegative value by `s` and divides by `l`, all in `u64`
/// space, to avoid signed division.
fn mul_div_u64(d: u64, s: u64, l: u64) -> (r: u64)
    requires
        l > 0,
        d * s <= u64::MAX,
    ensures
        r == (d * s) / (l as int),
{
    (d * s) / l
}

impl Vec2i {
    /// Rescales this vector to have length `target_len` (up to rounding
    /// toward zero), using the integer square root of its squared length.
    /// The zero vector is returned unchanged.
    pub fn scaled_to(&self, target_len: i64) -> (r: Vec2i)
        requires
            in_coord_range(*self),
            0 < target_len <= 4000000000,
        ensures
            r == spec_scaled_vec(*self, target_len as int),
            -target_len <= r.x <= target_len,
            -target_len <= r.y <= target_len,
            !(self.x == 0 && self.y == 0) ==> spec_len(*self) > 0,
    {
        if self.x == 0 && self.y == 0 {
            return *self;
        }
        let d2: i64 = self.dist_sq(&Vec2i { x: 0, y: 0 });
        let len: u64 = isqrt(d2 as u64);
        proof {
            assert(is_sqrt(d2 as int, len as int));
            assert(exists|l: int| is_sqrt(spec_dist_sq(*self, Vec2i { x: 0, y: 0 }), l)) by {
                assert(is_sqrt(spec_dist_sq(*self, Vec2i { x: 0, y: 0 }), len as int));
            }
            lemma_sqrt_unique(d2 as int, len as int, spec_len(*self));
            assert(d2 > 0) by (nonlinear_arith)
                requires
                    d2 == (self.x as int) * (self.x as int) + (self.y as int) * (self.y as int),
                    !(self.x == 0 && self.y == 0),
            ;
            assert(len > 0) by (nonlinear_arith)
                requires
                    is_sqrt(d2 as int, len as int),
                    d2 > 0,
            ;
            lemma_len_bounds_component(self.x as int, self.y as int, len as int);
            lemma_len_bounds_component(self.y as int, self.x as int, len as int);
        }
        let sx: u64 = if self.x >= 0 { self.x as u64 } else { (-self.x) as u64 };
        let sy: u64 = if self.y >= 0 { self.y as u64 } else { (-self.y) as u64 };
        proof {
            mul_bound_asym(sx as int, target_len as int, 2000000001, 4000000000);
            mul_bound_asym(sy as int, target_len as int, 2000000001, 4000000000);
        }
        let mx: u64 = mul_div_u64(sx, target_len as u64, len);
        let my: u64 = mul_div_u64(sy, target_len as u64, len);
        proof {
            lemma_scaled_le(sx as int, target_len as int, len as int);
            lemma_scaled_le(sy as int, target_len as int, len as int);
        }
        Vec2i {
            x: if self.x >= 0 { mx as i64 } else { -(mx as i64) },
            y: if self.y >= 0 { my as i64 } else { -(my as i64) },
        }
    }
}

/// Length of a vector: the integer square root of its squared length.
pub open spec fn spec_len(v: Vec2i) -> int {
    choose|l: int| is_sqrt(spec_dist_sq(v, Vec2i { x: 0, y: 0 }), l)
}

/// A vector rescaled to length `s` (rounding each component toward zero);
/// the zero vector stays put.
pub open spec fn spec_scaled_vec(v: Vec2i, s: int) -> Vec2i {
    if v.x == 0 && v.y == 0 {
        v
    } else {
        let l = spec_len(v);
        Vec2i {
            x: spec_scaled(v.x as int, s, l) as i64,
            y: spec_scaled(v.y as int, s, l) as i64,
        }
    }
}

/// A component's magnitude never exceeds the vector's length when the other
/// component is present: |x| <= isqrt(x*x + y*y).
proof fn lemma_len_bounds_component(x: int, y: int, l: int)
    by (nonlinear_arith)
    requires
        is_sqrt(x * x + y * y, l),
    ensures
        -l <= x <= l,
{
}

/// 0 <= a <= ma and 0 <= b <= mb imply a * b <= ma * mb.
proof fn mul_bound_asym(a: int, b: int, ma: int, mb: int)
    by (nonlinear_arith)
    requires
        0 <= a <= ma,
        0 <= b <= mb,
    ensures
        0 <= a * b <= ma * mb,
{
}

/// A magnitude scaled down by its own length stays within the target length.
proof fn lemma_scaled_le(d: int, s: int, l: int)
    by (nonlinear_arith)
    requires
        0 <= d <= l,
        0 <= s,
        l > 0,
    ensures
        0 <= (d * s) / l <= s,
{
}

/// Division truncating toward zero, for a positive divisor.
pub open spec fn spec_trunc_div(n: int, d: int) -> int {
    if n >= 0 {
        n / d
    } else {
        -((-n) / d)
    }
}

/// The point a fraction `t` thousandths of the way from `a` to `b`,
/// rounding toward zero. A fraction past one whole overshoots `b`, as the
/// unclamped interpolation does.
pub open spec fn spec_lerp(a: int, b: int, t: int) -> int {
    a + spec_trunc_div((b - a) * t, 1000)
}

/// A quotient of a nonnegative value by a positive divisor is no larger
/// than the value.
pub proof fn lemma_div_le(n: int, d: int)
    by (nonlinear_arith)
    requires
        n >= 0,
        d >= 1,
    ensures
        0 <= n / d <= n,
{
}

/// Linear interpolation in thousandths.
pub fn lerp_milli(a: i64, b: i64, t: i64) -> (r: i64)
    requires
        -1000000000 <= a <= 1000000000,
        -1000000000 <= b <= 1000000000,
        0 <= t <= 100000,
    ensures
        r == spec_lerp(a as int, b as int, t as int),
{
    let diff: i64 = b - a;
    let scaled: i64 = if diff >= 0 {
        proof {
            mul_bound_asym(diff as int, t as int, 2000000000, 100000);
            lemma_div_le(diff * t, 1000);
        }
        (((diff as u64) * (t as u64)) / 1000) as i64
    } else {
        proof {
            mul_bound_asym(-diff as int, t as int, 2000000000, 100000);
            lemma_div_le(-diff * t, 1000);
            assert((-diff) * t == -(diff * t)) by (nonlinear_arith);
        }
        -((((-diff) as u64) * (t as u64) / 1000) as i64)
    };
    a + scaled
}

/// Clamps `v` into the inclusive range `[lo, hi]`.
pub fn clamp_i64(v: i64, lo: i64, hi: i64) -> (r: i64)
    requires
        lo <= hi,
    ensures
        r == min_spec(max_spec(v as int, lo as int), hi as int),
        lo <= r <= hi,
{
    if v < lo {
        lo
    } else if v > hi {
        hi
    } else {
        v
    }
}

} // verus!
