//! Points, polygons and the even-odd containment test.

use vstd::prelude::*;
use crate::scale::PlotX;

verus! {

/// A point of the chart in domain units: a frequency in kHz and a time in
/// microseconds.
#[derive(Clone, Copy, PartialEq, Eq, Structural, Debug)]
pub struct Point {
    /// Frequency, in kHz.
    pub x: i32,
    /// Time, in microseconds.
    pub y: i32,
}

/// A point of the plot: a position on the frequency axis and a time in
/// microseconds.
#[derive(Clone, Copy, PartialEq, Eq, Structural, Debug)]
pub struct PlotPoint {
    /// Position on the frequency axis.
    pub x: PlotX,
    /// Time, in microseconds.
    pub y: i32,
}

/// The reciprocal of the small constant that the containment test adds to the
/// denominator of each edge: that constant is `2^-52`.
pub const EPSILON_INV: i128 = 4_503_599_627_370_496;

/// The small constant added to the denominator of each edge, `2^-52`.
pub open spec fn epsilon() -> real {
    1 as real / (EPSILON_INV as real)
}

/// Whether the edge from `pj` to `pi` toggles the membership of `(x, y)`: the
/// edge straddles the horizontal line through the point, and the point lies
/// to the left of the place where the edge meets that line.  The denominator
/// carries `epsilon()` and is never tested for zero.
pub open spec fn edge_toggles(pi: Point, pj: Point, x: int, y: int) -> bool {
    &&& (pi.y > y) != (pj.y > y)
    &&& (x as real) < ((pj.x - pi.x) * (y - pi.y)) as real / ((pj.y - pi.y) as real + epsilon())
        + pi.x as real
}

/// The vertex that closes the edge ending at vertex `i`: the one before it,
/// and the last one for the first.
pub open spec fn prev_vertex(n: int, i: int) -> int {
    if i == 0 {
        n - 1
    } else {
        i - 1
    }
}

/// Membership of `(x, y)` after the edges that end at the first `k` vertices
/// have been walked: true when an odd number of them toggled it.
pub open spec fn toggled_after(poly: Seq<Point>, x: int, y: int, k: nat) -> bool
    decreases k,
{
    if k == 0 {
        false
    } else {
        let i = k - 1;
        toggled_after(poly, x, y, i as nat) != edge_toggles(
            poly[i],
            poly[prev_vertex(poly.len() as int, i)],
            x,
            y,
        )
    }
}

/// Whether the polygon with vertices `poly` contains `(x, y)` by the even-odd
/// rule: a ray from the point crosses an odd number of edges.
pub open spec fn contains_point(poly: Seq<Point>, x: int, y: int) -> bool {
    toggled_after(poly, x, y, poly.len())
}

/// Over the reals: with `e > 0` and `d * e + 1` not zero, comparing `a` with
/// `m / (d + 1 / e)` is comparing `a * (d * e + 1)` with `m * e`, in the
/// direction that the sign of `d * e + 1` gives.
proof fn lemma_scaled_comparison(a: real, m: real, d: real, e: real)
    requires
        e > 0 as real,
        d * e + 1 as real != 0 as real,
    ensures
        (a < m / (d + 1 as real / e)) == (if d * e + 1 as real > 0 as real {
            a * (d * e + 1 as real) < m * e
        } else {
            a * (d * e + 1 as real) > m * e
        }),
{
    let eps = 1 as real / e;
    let den = d * e + 1 as real;
    let q = m / (d + eps);
    assert(eps * e == 1 as real) by (nonlinear_arith)
        requires
            e > 0 as real,
            eps == 1 as real / e,
    ;
    assert((d + eps) * e == den) by (nonlinear_arith)
        requires
            eps * e == 1 as real,
            den == d * e + 1 as real,
    ;
    assert(d + eps != 0 as real) by (nonlinear_arith)
        requires
            (d + eps) * e == den,
            den != 0 as real,
    ;
    assert(q * (d + eps) == m) by (nonlinear_arith)
        requires
            q == m / (d + eps),
            d + eps != 0 as real,
    ;
    assert(q * den == m * e) by (nonlinear_arith)
        requires
            q * (d + eps) == m,
            (d + eps) * e == den,
    ;
    if den > 0 as real {
        assert((a < q) == (a * den < m * e)) by (nonlinear_arith)
            requires
                q * den == m * e,
                den > 0 as real,
        ;
    } else {
        assert((a < q) == (a * den > m * e)) by (nonlinear_arith)
            requires
                q * den == m * e,
                den < 0 as real,
        ;
    }
}

/// The comparison of `edge_toggles` on integers: both sides of
/// `x - xi < (xj - xi)(y - yi) / (yj - yi + 2^-52)` are multiplied by the
/// denominator scaled to an integer, `(yj - yi) * 2^52 + 1`, whose sign gives
/// the direction of the comparison.
pub open spec fn edge_toggles_scaled(pi: Point, pj: Point, x: int, y: int) -> bool {
    let den = (pj.y - pi.y) * EPSILON_INV + 1;
    let num = (pj.x - pi.x) * (y - pi.y) * EPSILON_INV;
    &&& (pi.y > y) != (pj.y > y)
    &&& if den > 0 {
        (x - pi.x) * den < num
    } else {
        (x - pi.x) * den > num
    }
}

/// The scaled integer comparison decides exactly what the comparison with the
/// small constant in the denominator decides.
pub proof fn lemma_edge_toggles_scaled(pi: Point, pj: Point, x: int, y: int)
    ensures
        edge_toggles(pi, pj, x, y) == edge_toggles_scaled(pi, pj, x, y),
{
    if (pi.y > y) != (pj.y > y) {
        let e = EPSILON_INV as int;
        let d = pj.y - pi.y;
        let m = (pj.x - pi.x) * (y - pi.y);
        let a = x - pi.x;
        let den = d * e + 1;
        assert(den != 0) by (nonlinear_arith)
            requires
                d != 0,
                e == 4_503_599_627_370_496,
                den == d * e + 1,
        ;
        assert((d as real) * (e as real) + 1 as real == den as real) by (nonlinear_arith)
            requires
                den == d * e + 1,
        ;
        lemma_scaled_comparison(a as real, m as real, d as real, e as real);
        assert((a as real) * (den as real) == (a * den) as real) by (nonlinear_arith);
        assert((m as real) * (e as real) == (m * e) as real) by (nonlinear_arith);
        assert(epsilon() == 1 as real / (e as real));
        assert(((x as real) < (m as real) / ((d as real) + epsilon()) + pi.x as real) == ((
        a as real) < (m as real) / ((d as real) + epsilon())));
    }
}

/// What the small constant decides.  For a point off the line through the
/// edge it decides nothing: the point lies left of the crossing exactly when
/// it lies on the left side of that line.  A point on the line itself is
/// counted as left of the crossing when it lies on the side of `pi` towards
/// which the denominator's sign points: left of `pi` on an edge walked
/// downwards to `pi`, right of `pi` on an edge walked upwards to `pi`.
pub proof fn lemma_small_constant(pi: Point, pj: Point, x: i32, y: i32)
    requires
        (pi.y > y) != (pj.y > y),
    ensures
        ({
            let d = pj.y - pi.y;
            let side = (x - pi.x) * d - (pj.x - pi.x) * (y - pi.y);
            edge_toggles(pi, pj, x as int, y as int) == (if side != 0 {
                (d > 0) == (side < 0)
            } else if d > 0 {
                x < pi.x
            } else {
                x > pi.x
            })
        }),
{
    lemma_edge_toggles_scaled(pi, pj, x as int, y as int);
    let e = EPSILON_INV as int;
    let d = pj.y - pi.y;
    let a = x - pi.x;
    let m = (pj.x - pi.x) * (y - pi.y);
    let side = a * d - m;
    let den = d * e + 1;
    let num = m * e;
    assert(a * den - num == side * e + a) by (nonlinear_arith)
        requires
            den == d * e + 1,
            num == m * e,
            side == a * d - m,
    ;
    assert(side >= 1 ==> side * e + a > 0) by (nonlinear_arith)
        requires
            e == 4_503_599_627_370_496,
            -0x1_0000_0000 < a < 0x1_0000_0000,
    ;
    assert(side <= -1 ==> side * e + a < 0) by (nonlinear_arith)
        requires
            e == 4_503_599_627_370_496,
            -0x1_0000_0000 < a < 0x1_0000_0000,
    ;
    assert(side == 0 ==> side * e + a == a) by (nonlinear_arith);
    assert(den > 0 <==> d > 0) by (nonlinear_arith)
        requires
            d != 0,
            e == 4_503_599_627_370_496,
            den == d * e + 1,
    ;
}

/// Decides whether the edge from `pj` to `pi` toggles the membership of
/// `(x, y)`, in exact integer arithmetic.
pub fn edge_crossed(pi: Point, pj: Point, x: i32, y: i32) -> (toggles: bool)
    ensures
        toggles == edge_toggles(pi, pj, x as int, y as int),
{
    proof {
        lemma_edge_toggles_scaled(pi, pj, x as int, y as int);
    }
    if (pi.y > y) == (pj.y > y) {
        return false;
    }
    let d: i128 = pj.y as i128 - pi.y as i128;
    let w: i128 = pj.x as i128 - pi.x as i128;
    let h: i128 = y as i128 - pi.y as i128;
    let a: i128 = x as i128 - pi.x as i128;
    assert(-0x1_0000_0000 * 4_503_599_627_370_496 < d * EPSILON_INV < 0x1_0000_0000
        * 4_503_599_627_370_496) by (nonlinear_arith)
        requires
            -0x1_0000_0000 < d < 0x1_0000_0000,
            EPSILON_INV == 4_503_599_627_370_496,
    ;
    let den: i128 = d * EPSILON_INV + 1;
    assert(-0x1_0000_0000 * 0x1_0000_0000 <= w * h <= 0x1_0000_0000 * 0x1_0000_0000)
        by (nonlinear_arith)
        requires
            -0x1_0000_0000 < w < 0x1_0000_0000,
            -0x1_0000_0000 < h < 0x1_0000_0000,
    ;
    let m: i128 = w * h;
    assert(-0x1_0000_0000_0000_0000 * 4_503_599_627_370_496 <= m * EPSILON_INV
        <= 0x1_0000_0000_0000_0000 * 4_503_599_627_370_496) by (nonlinear_arith)
        requires
            -0x1_0000_0000_0000_0000 <= m <= 0x1_0000_0000_0000_0000,
            EPSILON_INV == 4_503_599_627_370_496,
    ;
    let num: i128 = m * EPSILON_INV;
    assert(-0x1_0000_0000 * (0x1_0000_0000 * 4_503_599_627_370_496) <= a * den <= 0x1_0000_0000
        * (0x1_0000_0000 * 4_503_599_627_370_496)) by (nonlinear_arith)
        requires
            -0x1_0000_0000 < a < 0x1_0000_0000,
            -0x1_0000_0000 * 4_503_599_627_370_496 < den < 0x1_0000_0000
                * 4_503_599_627_370_496,
    ;
    let lhs: i128 = a * den;
    if den > 0 {
        lhs < num
    } else {
        lhs > num
    }
}

/// Tests whether the polygon with vertices `points` contains `(x, y)`, by
/// casting a ray from the point and counting the edges it crosses (even-odd
/// rule).  The test is meant for polygons of three vertices or more.
pub fn polygon_contains(points: &Vec<Point>, x: i32, y: i32) -> (inside: bool)
    requires
        points@.len() >= 3,
    ensures
        inside == contains_point(points@, x as int, y as int),
{
    let n = points.len();
    let mut inside = false;
    let mut j: usize = n - 1;
    let mut i: usize = 0;
    while i < n
        invariant
            n == points@.len(),
            n >= 3,
            i <= n,
            j == prev_vertex(n as int, i as int),
            inside == toggled_after(points@, x as int, y as int, i as nat),
        decreases n - i,
    {
        if edge_crossed(points[i], points[j], x, y) {
            inside = !inside;
        }
        j = i;
        i = i + 1;
    }
    inside
}

/// The axis-aligned rectangle over `[x0, x1]` and `[y0, y1]`, walked from
/// `(x0, y0)` along the lower side first.
pub open spec fn rectangle(x0: i32, x1: i32, y0: i32, y1: i32) -> Seq<Point> {
    seq![
        Point { x: x0, y: y0 },
        Point { x: x1, y: y0 },
        Point { x: x1, y: y1 },
        Point { x: x0, y: y1 },
    ]
}

/// Builds the four vertices of the axis-aligned rectangle over `[x0, x1]` and
/// `[y0, y1]`.
pub fn rectangle_points(x0: i32, x1: i32, y0: i32, y1: i32) -> (points: Vec<Point>)
    ensures
        points@ == rectangle(x0, x1, y0, y1),
        points@.len() == 4,
{
    let mut points: Vec<Point> = Vec::new();
    points.push(Point { x: x0, y: y0 });
    points.push(Point { x: x1, y: y0 });
    points.push(Point { x: x1, y: y1 });
    points.push(Point { x: x0, y: y1 });
    assert(points@ =~= rectangle(x0, x1, y0, y1));
    points
}

/// A vertical edge toggles the membership of the points whose height it
/// spans and that lie strictly to its left.
pub proof fn lemma_vertical_edge(pi: Point, pj: Point, x: int, y: int)
    requires
        pi.x == pj.x,
    ensures
        edge_toggles(pi, pj, x, y) == (((pi.y > y) != (pj.y > y)) && x < pi.x),
{
    lemma_edge_toggles_scaled(pi, pj, x, y);
    if (pi.y > y) != (pj.y > y) {
        let d = pj.y - pi.y;
        let a = x - pi.x;
        let den = d * EPSILON_INV + 1;
        assert((pj.x - pi.x) * (y - pi.y) * EPSILON_INV == 0) by (nonlinear_arith)
            requires
                pj.x - pi.x == 0,
        ;
        assert(if den > 0 {
            (a * den < 0) == (a < 0)
        } else {
            (a * den > 0) == (a < 0)
        }) by (nonlinear_arith)
            requires
                d != 0,
                den == d * 4_503_599_627_370_496 + 1,
        ;
    }
}

/// On an axis-aligned rectangle the even-odd test is a range test, closed on
/// the lower and left sides and open on the upper and right ones.
pub proof fn lemma_rectangle_contains(x0: i32, x1: i32, y0: i32, y1: i32, x: int, y: int)
    requires
        x0 <= x1,
        y0 <= y1,
    ensures
        contains_point(rectangle(x0, x1, y0, y1), x, y) == (x0 <= x < x1 && y0 <= y < y1),
{
    let r = rectangle(x0, x1, y0, y1);
    reveal_with_fuel(toggled_after, 5);
    lemma_vertical_edge(r[0], r[3], x, y);
    lemma_vertical_edge(r[2], r[1], x, y);
    assert(!edge_toggles(r[1], r[0], x, y));
    assert(!edge_toggles(r[3], r[2], x, y));
}

} // verus!
