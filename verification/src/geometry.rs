//! Points, wall segments, distances, and exact segment intersection.
//!
//! Coordinates are integers in milli-units, so the intersection predicates —
//! the numerically delicate heart of a raycaster — are decided exactly: a
//! determinant is zero or it is not, with no epsilon anywhere.

use vstd::prelude::*;
use crate::arith::{
    div_to_zero, div_i128, isqrt, lemma_div_to_zero_signed_range, lemma_mul_bound,
    lemma_sqrt_floor_is, lemma_sqrt_le, lemma_sqrt_of_square, sqrt_floor, wide_mul,
};

verus! {

/// A position in the 2D world, in milli-units.
#[derive(Clone, Copy, PartialEq, Eq, Structural, Debug)]
pub struct Point {
    pub x: i64,
    pub y: i64,
}

impl Point {
    /// Both coordinates within `m` in magnitude.
    pub open spec fn bounded(self, m: int) -> bool {
        &&& -m <= self.x <= m
        &&& -m <= self.y <= m
    }

    /// A coordinate pair the engine's arithmetic handles without overflow.
    pub open spec fn wf(self) -> bool {
        self.bounded(crate::COORD_LIMIT as int)
    }
}

/// A directed wall segment from `a` to `b`.  The direction matters for the
/// lighting heuristic, not for intersection.  A degenerate segment
/// (`a == b`) is rejected at scene construction.
#[derive(Clone, Copy, PartialEq, Eq, Structural, Debug)]
pub struct Wall {
    pub a: Point,
    pub b: Point,
}

impl Wall {
    /// Both endpoints within `m` in magnitude.
    pub open spec fn bounded(self, m: int) -> bool {
        self.a.bounded(m) && self.b.bounded(m)
    }

    /// In range and non-degenerate.
    pub open spec fn wf(self) -> bool {
        self.bounded(crate::COORD_LIMIT as int) && self.a != self.b
    }
}

/// Squared Euclidean distance between two points.
pub open spec fn dist_sq_spec(p: Point, q: Point) -> int {
    (p.x - q.x) * (p.x - q.x) + (p.y - q.y) * (p.y - q.y)
}

/// Euclidean distance between two points, in milli-units, rounded down.
pub open spec fn dist_spec(p: Point, q: Point) -> int {
    sqrt_floor(dist_sq_spec(p, q))
}

/// Euclidean distance between two points, in milli-units.
pub fn dist(p: Point, q: Point) -> (r: i64)
    requires
        p.wf(),
        q.wf(),
    ensures
        r as int == dist_spec(p, q),
        0 <= r <= 3_000_000_000,
{
    let dx: i64 = p.x - q.x;
    let dy: i64 = p.y - q.y;
    proof {
        lemma_mul_bound(dx as int, dx as int, 2_000_000_000int, 2_000_000_000int);
        lemma_mul_bound(dy as int, dy as int, 2_000_000_000int, 2_000_000_000int);
        assert(dx as int * dx as int >= 0 && dy as int * dy as int >= 0) by (nonlinear_arith);
    }
    let sq: u64 = (wide_mul(dx, dx) + wide_mul(dy, dy)) as u64;
    let r: u64 = isqrt(sq);
    proof {
        lemma_sqrt_of_square(3_000_000_000int);
        lemma_sqrt_le(sq as int, 9_000_000_000_000_000_000int);
    }
    r as i64
}

/// Determinant of the line/line system for segments `u` and `v`: zero
/// exactly when the supporting lines are parallel (or a segment is
/// degenerate).
pub open spec fn det_spec(u: Wall, v: Wall) -> int {
    (u.a.x - u.b.x) * (v.a.y - v.b.y) - (u.a.y - u.b.y) * (v.a.x - v.b.x)
}

/// Numerator of the interpolation parameter along `u` (the wall).
pub open spec fn t_num_spec(u: Wall, v: Wall) -> int {
    (u.a.x - v.a.x) * (v.a.y - v.b.y) - (u.a.y - v.a.y) * (v.a.x - v.b.x)
}

/// Numerator of the interpolation parameter along `v` (the ray).
pub open spec fn u_num_spec(u: Wall, v: Wall) -> int {
    -((u.a.x - u.b.x) * (u.a.y - v.a.y) - (u.a.y - u.b.y) * (u.a.x - v.a.x))
}

/// The rational `num/den` lies strictly between 0 and 1.
pub open spec fn param_strict_01(num: int, den: int) -> bool {
    if den > 0 {
        0 < num < den
    } else {
        den < num < 0
    }
}

/// The rational `num/den` is strictly positive.
pub open spec fn param_pos(num: int, den: int) -> bool {
    if den > 0 {
        num > 0
    } else {
        num < 0
    }
}

/// Two *open* segments cross: both interpolation parameters lie strictly in
/// (0, 1).  Endpoints touching does not count, and parallel or collinear
/// segments (determinant exactly zero) are reported as not crossing.
pub open spec fn segments_cross_spec(u: Wall, v: Wall) -> bool {
    let d = det_spec(u, v);
    &&& d != 0
    &&& param_strict_01(t_num_spec(u, v), d)
    &&& param_strict_01(u_num_spec(u, v), d)
}

/// Signed 128-bit value of `det_spec`, and friends, for executable use.
fn det_exec(u: &Wall, v: &Wall) -> (r: i128)
    requires
        u.bounded(2 * crate::COORD_LIMIT as int),
        v.bounded(2 * crate::COORD_LIMIT as int),
    ensures
        r == det_spec(*u, *v),
        -32_000_000_000_000_000_000_000i128 as int <= r <= 32_000_000_000_000_000_000_000i128 as int,
{
    let p1: i128 = wide_mul(u.a.x - u.b.x, v.a.y - v.b.y);
    let p2: i128 = wide_mul(u.a.y - u.b.y, v.a.x - v.b.x);
    proof {
        lemma_mul_bound(
            u.a.x as int - u.b.x as int, v.a.y as int - v.b.y as int,
            4_000_000_000int, 4_000_000_000int,
        );
        lemma_mul_bound(
            u.a.y as int - u.b.y as int, v.a.x as int - v.b.x as int,
            4_000_000_000int, 4_000_000_000int,
        );
    }
    p1 - p2
}

fn t_num_exec(u: &Wall, v: &Wall) -> (r: i128)
    requires
        u.bounded(2 * crate::COORD_LIMIT as int),
        v.bounded(2 * crate::COORD_LIMIT as int),
    ensures
        r == t_num_spec(*u, *v),
        -32_000_000_000_000_000_000_000i128 as int <= r <= 32_000_000_000_000_000_000_000i128 as int,
{
    let p1: i128 = wide_mul(u.a.x - v.a.x, v.a.y - v.b.y);
    let p2: i128 = wide_mul(u.a.y - v.a.y, v.a.x - v.b.x);
    proof {
        lemma_mul_bound(
            u.a.x as int - v.a.x as int, v.a.y as int - v.b.y as int,
            4_000_000_000int, 4_000_000_000int,
        );
        lemma_mul_bound(
            u.a.y as int - v.a.y as int, v.a.x as int - v.b.x as int,
            4_000_000_000int, 4_000_000_000int,
        );
    }
    p1 - p2
}

fn u_num_exec(u: &Wall, v: &Wall) -> (r: i128)
    requires
        u.bounded(2 * crate::COORD_LIMIT as int),
        v.bounded(2 * crate::COORD_LIMIT as int),
    ensures
        r == u_num_spec(*u, *v),
        -32_000_000_000_000_000_000_000i128 as int <= r <= 32_000_000_000_000_000_000_000i128 as int,
{
    let p1: i128 = wide_mul(u.a.x - u.b.x, u.a.y - v.a.y);
    let p2: i128 = wide_mul(u.a.y - u.b.y, u.a.x - v.a.x);
    proof {
        lemma_mul_bound(
            u.a.x as int - u.b.x as int, u.a.y as int - v.a.y as int,
            4_000_000_000int, 4_000_000_000int,
        );
        lemma_mul_bound(
            u.a.y as int - u.b.y as int, u.a.x as int - v.a.x as int,
            4_000_000_000int, 4_000_000_000int,
        );
    }
    -(p1 - p2)
}

/// Do the two open segments cross?
pub fn segments_intersect(u: &Wall, v: &Wall) -> (r: bool)
    requires
        u.bounded(2 * crate::COORD_LIMIT as int),
        v.bounded(2 * crate::COORD_LIMIT as int),
    ensures
        r == segments_cross_spec(*u, *v),
{
    let d = det_exec(u, v);
    if d == 0 {
        return false;
    }
    let tn = t_num_exec(u, v);
    let un = u_num_exec(u, v);
    if d > 0 {
        0 < tn && tn < d && 0 < un && un < d
    } else {
        d < tn && tn < 0 && d < un && un < 0
    }
}

/// A forward ray hit: the parameter along the wall lies strictly in (0, 1)
/// and the parameter along the ray is strictly positive — hits beyond the
/// ray's nominal length still count here; the caster clamps by distance.
pub open spec fn ray_hits_wall_spec(w: Wall, o: Point, g: Point) -> bool {
    let ray = (Wall { a: o, b: g });
    let d = det_spec(w, ray);
    &&& d != 0
    &&& param_strict_01(t_num_spec(w, ray), d)
    &&& param_pos(u_num_spec(w, ray), d)
}

/// The point where the ray's supporting line meets the wall, coordinates
/// rounded toward zero; meaningful when `ray_hits_wall_spec` holds.
pub open spec fn hit_point_spec(w: Wall, o: Point, g: Point) -> Point {
    let ray = (Wall { a: o, b: g });
    let d = det_spec(w, ray);
    let dn = if d < 0 { -d } else { d };
    let tn = if d < 0 { -t_num_spec(w, ray) } else { t_num_spec(w, ray) };
    Point {
        x: (w.a.x + div_to_zero(tn * (w.b.x - w.a.x), dn)) as i64,
        y: (w.a.y + div_to_zero(tn * (w.b.y - w.a.y), dn)) as i64,
    }
}

/// Distance from the ray origin to its hit on the wall, if the ray hits
/// it.  A genuine forward crossing is never at distance zero: when the
/// crossing lies within one milli-unit of the origin, so that the rounded
/// hit point coincides with it, the distance reported is the one-milli
/// quantum.
pub open spec fn wall_hit_dist_spec(w: Wall, o: Point, g: Point) -> Option<int> {
    if ray_hits_wall_spec(w, o, g) {
        let d = dist_spec(o, hit_point_spec(w, o, g));
        Some(if d == 0 { 1int } else { d })
    } else {
        None
    }
}

/// Where does the ray from `o` toward `g` strike the wall `w`, if at all?
/// The hit point always lies on the wall segment, between its endpoints.
pub fn ray_wall_hit_point(w: &Wall, o: Point, g: Point) -> (r: Option<Point>)
    requires
        w.bounded(crate::COORD_LIMIT as int),
        o.bounded(crate::COORD_LIMIT as int),
        g.bounded(2 * crate::COORD_LIMIT as int),
    ensures
        match r {
            Some(p) => {
                &&& ray_hits_wall_spec(*w, o, g)
                &&& p == hit_point_spec(*w, o, g)
                &&& p.bounded(crate::COORD_LIMIT as int)
            },
            None => !ray_hits_wall_spec(*w, o, g),
        },
{
    let ray = Wall { a: o, b: g };
    let d = det_exec(w, &ray);
    if d == 0 {
        return None;
    }
    let tn = t_num_exec(w, &ray);
    let un = u_num_exec(w, &ray);
    let hits: bool = if d > 0 {
        0 < tn && tn < d && un > 0
    } else {
        d < tn && tn < 0 && un < 0
    };
    if !hits {
        return None;
    }
    let dn: i128 = if d < 0 { -d } else { d };
    let tnn: i128 = if d < 0 { -tn } else { tn };
    let ex: i128 = (w.b.x - w.a.x) as i128;
    let ey: i128 = (w.b.y - w.a.y) as i128;
    proof {
        lemma_mul_bound(tnn as int, ex as int, dn as int, 2_000_000_000int);
        lemma_mul_bound(tnn as int, ey as int, dn as int, 2_000_000_000int);
        assert(dn as int * 2_000_000_000int
            <= 32_000_000_000_000_000_000_000int * 2_000_000_000int) by (nonlinear_arith)
            requires
                dn as int <= 32_000_000_000_000_000_000_000int,
        ;
    }
    let offx: i128 = div_i128(tnn * ex, dn);
    let offy: i128 = div_i128(tnn * ey, dn);
    proof {
        lemma_div_to_zero_signed_range(tnn as int * ex as int, dn as int, ex as int);
        lemma_div_to_zero_signed_range(tnn as int * ey as int, dn as int, ey as int);
        assert(ex >= 0 ==> 0 <= tnn as int * ex as int <= ex as int * dn as int) by (nonlinear_arith)
            requires
                0 < (tnn as int) && (tnn as int) < (dn as int),
        ;
        assert(ex < 0 ==> ex as int * dn as int <= tnn as int * ex as int <= 0) by (nonlinear_arith)
            requires
                0 < (tnn as int) && (tnn as int) < (dn as int),
        ;
        assert(ey >= 0 ==> 0 <= tnn as int * ey as int <= ey as int * dn as int) by (nonlinear_arith)
            requires
                0 < (tnn as int) && (tnn as int) < (dn as int),
        ;
        assert(ey < 0 ==> ey as int * dn as int <= tnn as int * ey as int <= 0) by (nonlinear_arith)
            requires
                0 < (tnn as int) && (tnn as int) < (dn as int),
        ;
        assert(ex as int * dn as int == dn as int * ex as int) by (nonlinear_arith);
        assert(ey as int * dn as int == dn as int * ey as int) by (nonlinear_arith);
    }
    let hx: i64 = w.a.x + (offx as i64);
    let hy: i64 = w.a.y + (offy as i64);
    Some(Point { x: hx, y: hy })
}

/// Distance from `o` to the wall hit, if the ray from `o` toward `g` hits.
pub fn ray_wall_hit_dist(w: &Wall, o: Point, g: Point) -> (r: Option<i64>)
    requires
        w.bounded(crate::COORD_LIMIT as int),
        o.bounded(crate::COORD_LIMIT as int),
        g.bounded(2 * crate::COORD_LIMIT as int),
    ensures
        match r {
            Some(d) => {
                &&& wall_hit_dist_spec(*w, o, g) == Some(d as int)
                &&& 0 < d
            },
            None => wall_hit_dist_spec(*w, o, g) is None,
        },
{
    match ray_wall_hit_point(w, o, g) {
        Some(p) => {
            let d = dist(o, p);
            if d == 0 {
                Some(1)
            } else {
                Some(d)
            }
        },
        None => None,
    }
}

} // verus!
