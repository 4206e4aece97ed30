//! Pure geometric primitives over points and samples.
//!
//! All functions here are total: they never fail and never mutate their
//! inputs. Distances are reported squared, which keeps them exact; the
//! default gesture thresholds compare squared distances against the
//! squared threshold, which is equivalent to comparing the Euclidean
//! distance against the threshold itself.

use vstd::prelude::*;

use crate::sample::Point;

verus! {

/// The midpoint coordinate of `a` and `b`, rounded toward negative
/// infinity when the exact midpoint falls between two units.
pub open spec fn spec_mid(a: int, b: int) -> int {
    (a + b) / 2
}

/// The linear midpoint of two points, coordinate-wise.
pub open spec fn spec_center(a: Point, b: Point) -> Point {
    Point { x: spec_mid(a.x as int, b.x as int) as i32, y: spec_mid(a.y as int, b.y as int) as i32 }
}

/// The squared Euclidean distance between two points.
pub open spec fn spec_distance_squared(a: Point, b: Point) -> int {
    (a.x - b.x) * (a.x - b.x) + (a.y - b.y) * (a.y - b.y)
}

/// The midpoint of two coordinates, rounding toward negative infinity.
fn mid_coord(a: i32, b: i32) -> (r: i32)
    ensures
        r == spec_mid(a as int, b as int),
{
    let s: i64 = a as i64 + b as i64;
    let r: i64 = if s >= 0 {
        s / 2
    } else {
        (s - 1) / 2
    };
    proof {
        assert(r == (a + b) / 2);
        assert(i32::MIN <= (a + b) / 2 <= i32::MAX);
    }
    r as i32
}

/// The linear midpoint of `a` and `b`.
pub fn center(a: Point, b: Point) -> (r: Point)
    ensures
        r == spec_center(a, b),
{
    Point { x: mid_coord(a.x, b.x), y: mid_coord(a.y, b.y) }
}

/// The squared Euclidean distance between `a` and `b`.
pub fn distance_squared(a: Point, b: Point) -> (r: i128)
    ensures
        r == spec_distance_squared(a, b),
{
    let dx: i64 = a.x as i64 - b.x as i64;
    let dy: i64 = a.y as i64 - b.y as i64;
    proof {
        let m: int = 0x1_0000_0000;
        assert(-m <= dx <= m && -m <= dy <= m);
        assert((dx as int) * (dx as int) <= m * m && (dx as int) * (dx as int) >= 0)
            by (nonlinear_arith)
            requires -m <= dx <= m && m == 0x1_0000_0000;
        assert((dy as int) * (dy as int) <= m * m && (dy as int) * (dy as int) >= 0)
            by (nonlinear_arith)
            requires -m <= dy <= m && m == 0x1_0000_0000;
    }
    let dx2: i128 = (dx as i128) * (dx as i128);
    let dy2: i128 = (dy as i128) * (dy as i128);
    dx2 + dy2
}

/// The midpoint does not depend on the order of its arguments.
pub proof fn lemma_center_symmetric(a: Point, b: Point)
    ensures
        spec_center(a, b) == spec_center(b, a),
{
}

/// The squared distance does not depend on the order of its arguments.
pub proof fn lemma_distance_squared_symmetric(a: Point, b: Point)
    ensures
        spec_distance_squared(a, b) == spec_distance_squared(b, a),
{
    assert((a.x - b.x) * (a.x - b.x) == (b.x - a.x) * (b.x - a.x)) by (nonlinear_arith);
    assert((a.y - b.y) * (a.y - b.y) == (b.y - a.y) * (b.y - a.y)) by (nonlinear_arith);
}

/// The squared distance of a point to itself is zero.
pub proof fn lemma_distance_squared_self(a: Point)
    ensures
        spec_distance_squared(a, a) == 0,
{
}

} // verus!
