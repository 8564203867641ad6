//! The centroid of a frame's bright pixels.

use vstd::prelude::*;
use crate::geometry::Point;

verus! {

/// One of the two image axes.
#[derive(Clone, Copy, Debug, PartialEq, Eq, Structural)]
pub enum Axis {
    X,
    Y,
}

/// The coordinate of `p` along `axis`.
pub open spec fn coordinate(p: Point, axis: Axis) -> int {
    match axis {
        Axis::X => p.x as int,
        Axis::Y => p.y as int,
    }
}

/// The sum of the coordinates of `points` along `axis`.
pub open spec fn coordinate_sum(points: Seq<Point>, axis: Axis) -> int
    decreases points.len(),
{
    if points.len() == 0 {
        0
    } else {
        coordinate_sum(points.drop_last(), axis) + coordinate(points.last(), axis)
    }
}

/// The quotient of `n` by a positive `d`, rounded toward zero.
pub open spec fn truncating_div(n: int, d: int) -> int
    recommends
        d > 0,
{
    if n >= 0 {
        n / d
    } else {
        -((-n) / d)
    }
}

/// The mean of the coordinates of `points` along `axis`, rounded toward zero.
pub open spec fn mean_coordinate(points: Seq<Point>, axis: Axis) -> int
    recommends
        points.len() > 0,
{
    truncating_div(coordinate_sum(points, axis), points.len() as int)
}

/// The centroid of `points`: absent for no points, else the componentwise
/// mean, each component rounded toward zero.
pub open spec fn centroid(points: Seq<Point>) -> Option<Point> {
    if points.len() == 0 {
        None
    } else {
        Some(
            Point {
                x: mean_coordinate(points, Axis::X) as i32,
                y: mean_coordinate(points, Axis::Y) as i32,
            },
        )
    }
}

/// A sum of `i32` coordinates lies between the count times the least and the
/// count times the greatest `i32`.
pub proof fn lemma_coordinate_sum_bounds(points: Seq<Point>, axis: Axis)
    ensures
        points.len() * i32::MIN <= coordinate_sum(points, axis) <= points.len() * i32::MAX,
    decreases points.len(),
{
    if points.len() > 0 {
        lemma_coordinate_sum_bounds(points.drop_last(), axis);
    }
}

/// A quotient rounded toward zero stays within the bounds of the values averaged.
proof fn lemma_truncating_div_bounds(n: int, d: int, lo: int, hi: int)
    requires
        d > 0,
        lo <= 0 <= hi,
        d * lo <= n <= d * hi,
    ensures
        lo <= truncating_div(n, d) <= hi,
{
    if n >= 0 {
        assert(0 <= n / d <= hi) by (nonlinear_arith)
            requires
                d > 0,
                0 <= n <= d * hi,
        ;
    } else {
        assert(d * (-lo) == -(d * lo)) by (nonlinear_arith);
        assert(0 <= (-n) / d <= -lo) by (nonlinear_arith)
            requires
                d > 0,
                0 <= -n <= d * (-lo),
        ;
    }
}

/// The mean of `i32` coordinates is itself an `i32`, so the components of
/// `centroid` are exact.
pub proof fn lemma_mean_coordinate_is_i32(points: Seq<Point>, axis: Axis)
    requires
        points.len() > 0,
    ensures
        i32::MIN <= mean_coordinate(points, axis) <= i32::MAX,
{
    lemma_coordinate_sum_bounds(points, axis);
    lemma_truncating_div_bounds(
        coordinate_sum(points, axis),
        points.len() as int,
        i32::MIN as int,
        i32::MAX as int,
    );
}

/// Taking one point out of a sequence lowers its coordinate sum by that
/// point's coordinate.
proof fn lemma_coordinate_sum_remove(points: Seq<Point>, i: int, axis: Axis)
    requires
        0 <= i < points.len(),
    ensures
        coordinate_sum(points, axis) == coordinate_sum(points.remove(i), axis) + coordinate(
            points[i],
            axis,
        ),
    decreases points.len(),
{
    if i == points.len() - 1 {
        assert(points.remove(i) == points.drop_last());
    } else {
        assert(points.remove(i).drop_last() == points.drop_last().remove(i));
        assert(points.remove(i).last() == points.last());
        lemma_coordinate_sum_remove(points.drop_last(), i, axis);
    }
}

/// Two listings of the same points, in any order, have the same coordinate sums.
pub proof fn lemma_coordinate_sum_order_independent(a: Seq<Point>, b: Seq<Point>, axis: Axis)
    requires
        a.to_multiset() == b.to_multiset(),
    ensures
        coordinate_sum(a, axis) == coordinate_sum(b, axis),
    decreases a.len(),
{
    a.to_multiset_ensures();
    b.to_multiset_ensures();
    if a.len() > 0 {
        let last = a.last();
        assert(a.contains(last));
        assert(b.to_multiset().count(last) > 0);
        let j = choose|j: int| 0 <= j < b.len() && b[j] == last;
        assert(a.drop_last() == a.remove(a.len() - 1));
        lemma_coordinate_sum_order_independent(a.drop_last(), b.remove(j), axis);
        lemma_coordinate_sum_remove(b, j, axis);
    }
}

/// The centroid of a set of points does not depend on the order in which the
/// points are listed, and so not on the order in which they are summed.
pub proof fn lemma_centroid_order_independent(a: Seq<Point>, b: Seq<Point>)
    requires
        a.to_multiset() == b.to_multiset(),
    ensures
        centroid(a) == centroid(b),
        mean_coordinate(a, Axis::X) == mean_coordinate(b, Axis::X),
        mean_coordinate(a, Axis::Y) == mean_coordinate(b, Axis::Y),
{
    a.to_multiset_ensures();
    b.to_multiset_ensures();
    lemma_coordinate_sum_order_independent(a, b, Axis::X);
    lemma_coordinate_sum_order_independent(a, b, Axis::Y);
}

/// Averages the bright-pixel coordinates of one frame.
///
/// Returns nothing for an empty set of points. Otherwise each component of
/// the result is the sum of that component over all points, divided by the
/// number of points and rounded toward zero. The sums are exact: they are
/// accumulated in a type wide enough for any number of `i32` coordinates.
pub fn mean_point(points: Vec<Point>) -> (result: Option<Point>)
    ensures
        result == centroid(points@),
        result is None <==> points@.len() == 0,
        result matches Some(c) ==> c.x == mean_coordinate(points@, Axis::X) && c.y
            == mean_coordinate(points@, Axis::Y),
{
    let count: usize = points.len();
    if count == 0 {
        return None;
    }
    let mut sum_x: i128 = 0;
    let mut sum_y: i128 = 0;
    let mut i: usize = 0;
    while i < count
        invariant
            i <= count,
            count == points@.len(),
            sum_x == coordinate_sum(points@.take(i as int), Axis::X),
            sum_y == coordinate_sum(points@.take(i as int), Axis::Y),
            i * i32::MIN <= sum_x <= i * i32::MAX,
            i * i32::MIN <= sum_y <= i * i32::MAX,
        decreases count - i,
    {
        let p: Point = points[i];
        assert(points@.take(i + 1).drop_last() == points@.take(i as int));
        sum_x = sum_x + p.x as i128;
        sum_y = sum_y + p.y as i128;
        i = i + 1;
    }
    proof {
        assert(points@.take(count as int) == points@);
        lemma_mean_coordinate_is_i32(points@, Axis::X);
        lemma_mean_coordinate_is_i32(points@, Axis::Y);
    }
    let x: i32 = (sum_x / (count as i128)) as i32;
    let y: i32 = (sum_y / (count as i128)) as i32;
    Some(Point { x, y })
}

} // verus!
