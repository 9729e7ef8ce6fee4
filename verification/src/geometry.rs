//! Exact integer geometry: the pairwise overlap and containment tests.
//!
//! Every test follows one strict-inequality convention: two shapes that
//! merely touch (equal distance, shared edge, shared vertex) do not
//! overlap, and a point on a circle's rim or a rectangle's edge is not
//! contained.  Distances are compared in squared, scaled form so that no
//! rounding ever occurs: `|a - b| < r` becomes `4 * |a - b|^2 < (2r)^2`.

use vstd::prelude::*;

verus! {

/// Largest coordinate or dimension a collidable shape may use.  Keeping
/// every operand at or below 2^30 lets every intermediate product of the
/// exact integer tests fit comfortably in an `i128`.
pub const COORD_LIMIT: u32 = 0x4000_0000;

/// A point of the board: a pair of non-negative integer coordinates.
#[derive(Clone, Copy, Debug, PartialEq, Eq, Structural)]
pub struct Position {
    pub x: u32,
    pub y: u32,
}

/// Both coordinates small enough for the exact collision arithmetic.
pub open spec fn pos_ok(p: Position) -> bool {
    p.x <= COORD_LIMIT && p.y <= COORD_LIMIT
}

/// A dimension (diameter, width, height) small enough for the arithmetic.
pub open spec fn dim_ok(d: u32) -> bool {
    d <= COORD_LIMIT
}

/// Squared Euclidean distance between two points.
pub open spec fn pdist_sq(a: Position, b: Position) -> int {
    (a.x - b.x) * (a.x - b.x) + (a.y - b.y) * (a.y - b.y)
}

/// Twice the signed area of the triangle (a, b, c).  Its sign tells on
/// which side of the directed line a -> b the point c lies; zero means
/// the three points are collinear.
pub open spec fn orient(a: Position, b: Position, c: Position) -> int {
    (b.x - a.x) * (c.y - a.y) - (b.y - a.y) * (c.x - a.x)
}

pub open spec fn clamp_int(v: int, lo: int, hi: int) -> int {
    if v < lo {
        lo
    } else if v > hi {
        hi
    } else {
        v
    }
}

/// Circles overlap iff the distance between their centers is strictly
/// less than the sum of their radii: |c1 - c2| < (d1 + d2) / 2.  Equality
/// (touching circles) is not overlap.
pub open spec fn circles_overlap(c1: Position, d1: u32, c2: Position, d2: u32) -> bool {
    4 * pdist_sq(c1, c2) < (d1 + d2) * (d1 + d2)
}

/// Axis-aligned rectangles, each anchored at its top-left corner, overlap
/// iff their coordinate intervals overlap strictly on both axes.
/// Touching edges are not overlap.  A zero-width or zero-height
/// rectangle behaves like an infinitely thin segment: it overlaps
/// whatever its line crosses strictly, as `x1 < x2 + 0` keeps the strict
/// comparison against the degenerate side.
pub open spec fn rects_overlap(
    p1: Position,
    w1: u32,
    h1: u32,
    p2: Position,
    w2: u32,
    h2: u32,
) -> bool {
    &&& p1.x < p2.x + w2
    &&& p2.x < p1.x + w1
    &&& p1.y < p2.y + h2
    &&& p2.y < p1.y + h1
}

/// A circle and a rectangle overlap iff the distance from the circle's
/// center to the nearest point of the closed rectangle is strictly less
/// than the radius.
pub open spec fn circle_rect_overlap(c: Position, d: u32, p: Position, w: u32, h: u32) -> bool {
    let nx = clamp_int(c.x as int, p.x as int, p.x + w);
    let ny = clamp_int(c.y as int, p.y as int, p.y + h);
    4 * ((c.x - nx) * (c.x - nx) + (c.y - ny) * (c.y - ny)) < d * d
}

/// A point lies strictly inside a circle.
pub open spec fn circle_contains(c: Position, d: u32, p: Position) -> bool {
    4 * pdist_sq(c, p) < d * d
}

/// A point lies strictly inside a rectangle's open interior.
pub open spec fn rect_contains(r: Position, w: u32, h: u32, p: Position) -> bool {
    &&& r.x < p.x < r.x + w
    &&& r.y < p.y < r.y + h
}

/// Touching circles do not overlap: when the distance between the
/// centers equals the sum of the radii exactly, the strict test fails.
pub proof fn lemma_touching_circles_no_overlap(c1: Position, d1: u32, c2: Position, d2: u32)
    requires
        4 * pdist_sq(c1, c2) == (d1 + d2) * (d1 + d2),
    ensures
        !circles_overlap(c1, d1, c2, d2),
{
}

/// Rectangles that merely share an edge do not overlap: when one's
/// right edge sits exactly on the other's left edge, the open-interval
/// test fails.
pub proof fn lemma_touching_rects_no_overlap(
    p1: Position,
    w1: u32,
    h1: u32,
    p2: Position,
    w2: u32,
    h2: u32,
)
    requires
        p1.x + w1 == p2.x,
    ensures
        !rects_overlap(p1, w1, h1, p2, w2, h2),
{
}

/// A point lies on the closed segment from `a` to `b`: collinear with the
/// endpoints and within their bounding box.  A segment is infinitely thin,
/// so membership in the point set is the only containment it has.
pub open spec fn seg_contains(a: Position, b: Position, p: Position) -> bool {
    &&& orient(a, b, p) == 0
    &&& (a.x <= p.x <= b.x || b.x <= p.x <= a.x)
    &&& (a.y <= p.y <= b.y || b.y <= p.y <= a.y)
}

/// Two segments cross properly: each strictly separates the other's
/// endpoints.  Touching at an endpoint, or collinear contact, is not
/// overlap, by the strict convention.
pub open spec fn segs_cross(a: Position, b: Position, c: Position, d: Position) -> bool {
    let o1 = orient(a, b, c);
    let o2 = orient(a, b, d);
    let o3 = orient(c, d, a);
    let o4 = orient(c, d, b);
    &&& (o1 > 0 && o2 < 0 || o1 < 0 && o2 > 0)
    &&& (o3 > 0 && o4 < 0 || o3 < 0 && o4 > 0)
}

/// A segment and a circle overlap iff the distance from the circle's
/// center to the nearest point of the closed segment is strictly less
/// than the radius.  The nearest point is one of the endpoints when the
/// center's projection falls outside the segment, and the foot of the
/// perpendicular otherwise; in the latter case the squared distance is
/// `orient(a, b, c)^2 / |b - a|^2`, compared here in cleared form.
pub open spec fn seg_circle_overlap(a: Position, b: Position, c: Position, d: u32) -> bool {
    let abx = b.x - a.x;
    let aby = b.y - a.y;
    let dot = (c.x - a.x) * abx + (c.y - a.y) * aby;
    let len2 = abx * abx + aby * aby;
    if len2 == 0 {
        circle_contains(c, d, a)
    } else if dot <= 0 {
        circle_contains(c, d, a)
    } else if dot >= len2 {
        circle_contains(c, d, b)
    } else {
        let cr = orient(a, b, c);
        4 * (cr * cr) < (d * d) * len2
    }
}

/// Every vertex within the arithmetic bound.
pub open spec fn pts_ok(pts: Seq<Position>) -> bool {
    forall|i: int| 0 <= i < pts.len() ==> pos_ok(#[trigger] pts[i])
}

/// Index of the vertex that follows `i`, wrapping at the end.
pub open spec fn next_vertex(pts: Seq<Position>, i: int) -> int {
    if i + 1 == pts.len() {
        0
    } else {
        i + 1
    }
}

/// Orientation of point `p` against the directed polygon edge that starts
/// at vertex `i`.
pub open spec fn edge_orient(pts: Seq<Position>, i: int, p: Position) -> int {
    orient(pts[i], pts[next_vertex(pts, i)], p)
}

/// A point lies strictly inside a convex polygon: it is on the same
/// strict side of every directed edge.  Vertex lists are taken convex and
/// in order; either winding direction is accepted.
pub open spec fn poly_contains(pts: Seq<Position>, p: Position) -> bool {
    pts.len() >= 3 && ((forall|i: int| 0 <= i < pts.len() ==> #[trigger] edge_orient(pts, i, p)
        > 0) || (forall|i: int| 0 <= i < pts.len() ==> #[trigger] edge_orient(pts, i, p) < 0))
}

/// Both coordinates within twice the arithmetic bound: what the far
/// corner of a well-formed rectangle may reach.
pub open spec fn pos_ok_wide(p: Position) -> bool {
    p.x <= 0x8000_0000 && p.y <= 0x8000_0000
}

/// Every vertex within the widened bound.
pub open spec fn pts_ok_wide(pts: Seq<Position>) -> bool {
    forall|i: int| 0 <= i < pts.len() ==> pos_ok_wide(#[trigger] pts[i])
}

/// The scaled normal of the directed edge that starts at vertex `i`:
/// the edge vector rotated a quarter turn.  A zero-length edge yields
/// the zero normal.
pub open spec fn edge_normal(pts: Seq<Position>, i: int) -> (int, int) {
    let u = pts[i];
    let v = pts[next_vertex(pts, i)];
    (u.y - v.y, v.x - u.x)
}

/// Projection of a point onto a scaled axis.
pub open spec fn proj(p: Position, nx: int, ny: int) -> int {
    p.x * nx + p.y * ny
}

/// On the axis (nx, ny) the two vertex lists' projection intervals
/// overlap strictly: some point of each projects strictly below some
/// point of the other.  Equal extremes (mere touching on this axis) do
/// not count.
pub open spec fn axis_strictly_overlaps(
    p1: Seq<Position>,
    p2: Seq<Position>,
    nx: int,
    ny: int,
) -> bool {
    &&& exists|i: int, j: int|
        #![trigger proj(p1[i], nx, ny), proj(p2[j], nx, ny)]
        0 <= i < p1.len() && 0 <= j < p2.len() && proj(p1[i], nx, ny) < proj(p2[j], nx, ny)
    &&& exists|i: int, j: int|
        #![trigger proj(p2[i], nx, ny), proj(p1[j], nx, ny)]
        0 <= i < p2.len() && 0 <= j < p1.len() && proj(p2[i], nx, ny) < proj(p1[j], nx, ny)
}

/// A candidate separating axis is answered: it is degenerate (a
/// zero-length edge), or the projections overlap strictly on it.
pub open spec fn axis_ok(p1: Seq<Position>, p2: Seq<Position>, n: (int, int)) -> bool {
    n == (0int, 0int) || axis_strictly_overlaps(p1, p2, n.0, n.1)
}

/// Separating-axis test for two convex vertex lists, under the strict
/// convention: they overlap iff no edge normal of either list separates
/// their projections, strictly on every axis.  For convex polygons with
/// interior this holds exactly when the open interiors intersect; a
/// two-point list behaves as a closed segment against the other's
/// interior.
pub open spec fn convex_overlap(p1: Seq<Position>, p2: Seq<Position>) -> bool {
    &&& p1.len() > 0
    &&& p2.len() > 0
    &&& forall|k: int| 0 <= k < p1.len() ==> axis_ok(p1, p2, #[trigger] edge_normal(p1, k))
    &&& forall|k: int| 0 <= k < p2.len() ==> axis_ok(p1, p2, #[trigger] edge_normal(p2, k))
}

/// A segment and a convex polygon overlap: the separating-axis test
/// over the polygon's edge normals and the segment's own normal.
pub open spec fn seg_poly_overlap(a: Position, b: Position, pts: Seq<Position>) -> bool {
    convex_overlap(seq![a, b], pts)
}

/// The polygon edge that starts at vertex `i` passes strictly within the
/// circle's radius.
pub open spec fn edge_near_circle(pts: Seq<Position>, i: int, c: Position, d: u32) -> bool {
    seg_circle_overlap(pts[i], pts[next_vertex(pts, i)], c, d)
}

/// A convex polygon and a circle overlap: the center lies strictly
/// inside, or some edge passes strictly within the radius.
pub open spec fn poly_circle_overlap(pts: Seq<Position>, c: Position, d: u32) -> bool {
    ||| poly_contains(pts, c)
    ||| exists|i: int| 0 <= i < pts.len() && #[trigger] edge_near_circle(pts, i, c, d)
}

/// Two convex polygons overlap: the separating-axis test over the edge
/// normals of both.
pub open spec fn polys_overlap(p1: Seq<Position>, p2: Seq<Position>) -> bool {
    convex_overlap(p1, p2)
}

/// Exact product of two bounded integers.  One multiplication routine
/// serves every overlap test; its bound admits every operand those tests
/// ever produce.
pub(crate) fn mul_wide(a: i128, b: i128) -> (r: i128)
    requires
        -0x4000_0000_0000_0000 <= a <= 0x4000_0000_0000_0000,
        -0x4000_0000_0000_0000 <= b <= 0x4000_0000_0000_0000,
    ensures
        r == a * b,
        -0x1000_0000_0000_0000_0000_0000_0000_0000 <= r
            <= 0x1000_0000_0000_0000_0000_0000_0000_0000,
        (-0x1_0000_0000 <= a <= 0x1_0000_0000 && -0x1_0000_0000 <= b <= 0x1_0000_0000)
            ==> -0x1_0000_0000_0000_0000 <= r <= 0x1_0000_0000_0000_0000,
        (-0x4000_0000 <= a <= 0x4000_0000 && -0x4000_0000 <= b <= 0x4000_0000)
            ==> -0x1000_0000_0000_0000 <= r <= 0x1000_0000_0000_0000,
        a == b ==> r >= 0,
{
    proof {
        assert(-0x1000_0000_0000_0000_0000_0000_0000_0000 <= a * b
            <= 0x1000_0000_0000_0000_0000_0000_0000_0000) by (nonlinear_arith)
            requires
                -0x4000_0000_0000_0000 <= a <= 0x4000_0000_0000_0000,
                -0x4000_0000_0000_0000 <= b <= 0x4000_0000_0000_0000,
        ;
        assert((-0x1_0000_0000 <= a <= 0x1_0000_0000 && -0x1_0000_0000 <= b <= 0x1_0000_0000)
            ==> -0x1_0000_0000_0000_0000 <= a * b <= 0x1_0000_0000_0000_0000) by (nonlinear_arith);
        assert((-0x4000_0000 <= a <= 0x4000_0000 && -0x4000_0000 <= b <= 0x4000_0000)
            ==> -0x1000_0000_0000_0000 <= a * b <= 0x1000_0000_0000_0000) by (nonlinear_arith);
        assert(a == b ==> a * b >= 0) by (nonlinear_arith);
    }
    a * b
}

/// Squared distance between two points, exactly.
pub(crate) fn pdist_sq_ex(a: Position, b: Position) -> (r: i128)
    ensures
        r == pdist_sq(a, b),
        0 <= r <= 0x2_0000_0000_0000_0000,
        pos_ok(a) && pos_ok(b) ==> r <= 0x2000_0000_0000_0000,
{
    let dx: i128 = a.x as i128 - b.x as i128;
    let dy: i128 = a.y as i128 - b.y as i128;
    mul_wide(dx, dx) + mul_wide(dy, dy)
}

/// Twice the signed triangle area, exactly.
pub(crate) fn orient_ex(a: Position, b: Position, c: Position) -> (r: i128)
    ensures
        r == orient(a, b, c),
        -0x2_0000_0000_0000_0000 <= r <= 0x2_0000_0000_0000_0000,
        pos_ok(a) && pos_ok(b) && pos_ok(c) ==> -0x2000_0000_0000_0000 <= r
            <= 0x2000_0000_0000_0000,
{
    let abx: i128 = b.x as i128 - a.x as i128;
    let aby: i128 = b.y as i128 - a.y as i128;
    let acx: i128 = c.x as i128 - a.x as i128;
    let acy: i128 = c.y as i128 - a.y as i128;
    mul_wide(abx, acy) - mul_wide(aby, acx)
}

/// Exact circle-circle test; see `circles_overlap`.
pub fn circles_overlap_ex(c1: Position, d1: u32, c2: Position, d2: u32) -> (r: bool)
    requires
        dim_ok(d1),
        dim_ok(d2),
    ensures
        r == circles_overlap(c1, d1, c2, d2),
{
    let dist4: i128 = 4 * pdist_sq_ex(c1, c2);
    let sum: i128 = d1 as i128 + d2 as i128;
    dist4 < mul_wide(sum, sum)
}

/// Exact rectangle-rectangle test; see `rects_overlap`.
pub fn rects_overlap_ex(p1: Position, w1: u32, h1: u32, p2: Position, w2: u32, h2: u32) -> (r:
    bool)
    ensures
        r == rects_overlap(p1, w1, h1, p2, w2, h2),
{
    (p1.x as u64) < p2.x as u64 + w2 as u64 && (p2.x as u64) < p1.x as u64 + w1 as u64 && (
    p1.y as u64) < p2.y as u64 + h2 as u64 && (p2.y as u64) < p1.y as u64 + h1 as u64
}

/// Exact circle-rectangle test; see `circle_rect_overlap`.
pub fn circle_rect_overlap_ex(c: Position, d: u32, p: Position, w: u32, h: u32) -> (r: bool)
    requires
        dim_ok(d),
        pos_ok(p),
        dim_ok(w),
        dim_ok(h),
    ensures
        r == circle_rect_overlap(c, d, p, w, h),
{
    let cx: i128 = c.x as i128;
    let cy: i128 = c.y as i128;
    let lox: i128 = p.x as i128;
    let hix: i128 = p.x as i128 + w as i128;
    let loy: i128 = p.y as i128;
    let hiy: i128 = p.y as i128 + h as i128;
    let nx: i128 = if cx < lox {
        lox
    } else if cx > hix {
        hix
    } else {
        cx
    };
    let ny: i128 = if cy < loy {
        loy
    } else if cy > hiy {
        hiy
    } else {
        cy
    };
    let dx: i128 = cx - nx;
    let dy: i128 = cy - ny;
    let dist4: i128 = 4 * (mul_wide(dx, dx) + mul_wide(dy, dy));
    dist4 < mul_wide(d as i128, d as i128)
}

/// Exact point-in-circle test; see `circle_contains`.
pub fn circle_contains_ex(c: Position, d: u32, p: Position) -> (r: bool)
    requires
        dim_ok(d),
    ensures
        r == circle_contains(c, d, p),
{
    let dist4: i128 = 4 * pdist_sq_ex(c, p);
    dist4 < mul_wide(d as i128, d as i128)
}

/// Exact point-in-rectangle test; see `rect_contains`.
pub fn rect_contains_ex(r: Position, w: u32, h: u32, p: Position) -> (b: bool)
    ensures
        b == rect_contains(r, w, h, p),
{
    (r.x as u64) < p.x as u64 && (p.x as u64) < r.x as u64 + w as u64 && (r.y as u64) < p.y as u64
        && (p.y as u64) < r.y as u64 + h as u64
}

/// Exact point-on-segment test; see `seg_contains`.
pub fn seg_contains_ex(a: Position, b: Position, p: Position) -> (r: bool)
    ensures
        r == seg_contains(a, b, p),
{
    orient_ex(a, b, p) == 0 && (a.x <= p.x && p.x <= b.x || b.x <= p.x && p.x <= a.x) && (a.y
        <= p.y && p.y <= b.y || b.y <= p.y && p.y <= a.y)
}

/// Exact proper-crossing test; see `segs_cross`.
pub fn segs_cross_ex(a: Position, b: Position, c: Position, d: Position) -> (r: bool)
    ensures
        r == segs_cross(a, b, c, d),
{
    let o1 = orient_ex(a, b, c);
    let o2 = orient_ex(a, b, d);
    let o3 = orient_ex(c, d, a);
    let o4 = orient_ex(c, d, b);
    (o1 > 0 && o2 < 0 || o1 < 0 && o2 > 0) && (o3 > 0 && o4 < 0 || o3 < 0 && o4 > 0)
}

/// Exact segment-circle test; see `seg_circle_overlap`.
pub fn seg_circle_overlap_ex(a: Position, b: Position, c: Position, d: u32) -> (r: bool)
    requires
        pos_ok(a),
        pos_ok(b),
        pos_ok(c),
        dim_ok(d),
    ensures
        r == seg_circle_overlap(a, b, c, d),
{
    let abx: i128 = b.x as i128 - a.x as i128;
    let aby: i128 = b.y as i128 - a.y as i128;
    let acx: i128 = c.x as i128 - a.x as i128;
    let acy: i128 = c.y as i128 - a.y as i128;
    let dot: i128 = mul_wide(acx, abx) + mul_wide(acy, aby);
    let len2: i128 = mul_wide(abx, abx) + mul_wide(aby, aby);
    if len2 == 0 {
        circle_contains_ex(c, d, a)
    } else if dot <= 0 {
        circle_contains_ex(c, d, a)
    } else if dot >= len2 {
        circle_contains_ex(c, d, b)
    } else {
        let cr: i128 = orient_ex(a, b, c);
        let cr2: i128 = mul_wide(cr, cr);
        let d2: i128 = mul_wide(d as i128, d as i128);
        4 * cr2 < mul_wide(d2, len2)
    }
}

/// Exact point-in-convex-polygon test; see `poly_contains`.
pub fn poly_contains_ex(pts: &Vec<Position>, p: Position) -> (r: bool)
    ensures
        r == poly_contains(pts@, p),
{
    let n = pts.len();
    if n < 3 {
        return false;
    }
    let mut all_pos = true;
    let mut all_neg = true;
    let mut i: usize = 0;
    while i < n
        invariant
            3 <= n == pts.len(),
            0 <= i <= n,
            all_pos <==> (forall|j: int| 0 <= j < i ==> #[trigger] edge_orient(pts@, j, p) > 0),
            all_neg <==> (forall|j: int| 0 <= j < i ==> #[trigger] edge_orient(pts@, j, p) < 0),
        decreases n - i,
    {
        let nxt: usize = if i + 1 == n {
            0
        } else {
            i + 1
        };
        let o = orient_ex(pts[i], pts[nxt], p);
        proof {
            assert(o == edge_orient(pts@, i as int, p));
        }
        all_pos = all_pos && o > 0;
        all_neg = all_neg && o < 0;
        i = i + 1;
    }
    all_pos || all_neg
}

/// Exact polygon-circle test; see `poly_circle_overlap`.
pub fn poly_circle_overlap_ex(pts: &Vec<Position>, c: Position, d: u32) -> (r: bool)
    requires
        pts_ok(pts@),
        pos_ok(c),
        dim_ok(d),
    ensures
        r == poly_circle_overlap(pts@, c, d),
{
    if poly_contains_ex(pts, c) {
        return true;
    }
    let n = pts.len();
    let mut i: usize = 0;
    while i < n
        invariant
            n == pts.len(),
            0 <= i <= n,
            pts_ok(pts@),
            pos_ok(c),
            dim_ok(d),
            forall|j: int| 0 <= j < i ==> !#[trigger] edge_near_circle(pts@, j, c, d),
        decreases n - i,
    {
        let nxt: usize = if i + 1 == n {
            0
        } else {
            i + 1
        };
        if seg_circle_overlap_ex(pts[i], pts[nxt], c, d) {
            proof {
                assert(edge_near_circle(pts@, i as int, c, d));
            }
            return true;
        }
        i = i + 1;
    }
    false
}

/// Vertices within the tight arithmetic bound stay within the widened
/// one.
pub proof fn lemma_pts_ok_wide(pts: Seq<Position>)
    requires
        pts_ok(pts),
    ensures
        pts_ok_wide(pts),
{
    assert forall|i: int| 0 <= i < pts.len() implies pos_ok_wide(#[trigger] pts[i]) by {
        assert(pos_ok(pts[i]));
    }
}

/// Exact projection of a point onto a scaled axis.
fn proj_ex(p: Position, nx: i128, ny: i128) -> (r: i128)
    requires
        -0x1_0000_0000 <= nx <= 0x1_0000_0000,
        -0x1_0000_0000 <= ny <= 0x1_0000_0000,
    ensures
        r == proj(p, nx as int, ny as int),
{
    mul_wide(p.x as i128, nx) + mul_wide(p.y as i128, ny)
}

/// The least and greatest projection of a vertex list onto an axis,
/// each attained by some vertex.
fn min_max_proj(pts: &Vec<Position>, nx: i128, ny: i128) -> (r: (i128, i128))
    requires
        pts@.len() > 0,
        -0x1_0000_0000 <= nx <= 0x1_0000_0000,
        -0x1_0000_0000 <= ny <= 0x1_0000_0000,
    ensures
        forall|i: int|
            0 <= i < pts@.len() ==> r.0 <= #[trigger] proj(pts@[i], nx as int, ny as int) <= r.1,
        exists|i: int|
            0 <= i < pts@.len() && #[trigger] proj(pts@[i], nx as int, ny as int) == r.0,
        exists|i: int|
            0 <= i < pts@.len() && #[trigger] proj(pts@[i], nx as int, ny as int) == r.1,
{
    let n = pts.len();
    let first = proj_ex(pts[0], nx, ny);
    let mut mn: i128 = first;
    let mut mx: i128 = first;
    let mut k: usize = 1;
    while k < n
        invariant
            n == pts.len(),
            1 <= k <= n,
            -0x1_0000_0000 <= nx <= 0x1_0000_0000,
            -0x1_0000_0000 <= ny <= 0x1_0000_0000,
            forall|i: int|
                0 <= i < k ==> mn <= #[trigger] proj(pts@[i], nx as int, ny as int) <= mx,
            exists|i: int| 0 <= i < k && #[trigger] proj(pts@[i], nx as int, ny as int) == mn,
            exists|i: int| 0 <= i < k && #[trigger] proj(pts@[i], nx as int, ny as int) == mx,
        decreases n - k,
    {
        let v = proj_ex(pts[k], nx, ny);
        if v < mn {
            mn = v;
        }
        if v > mx {
            mx = v;
        }
        k = k + 1;
    }
    (mn, mx)
}

/// Exact strict interval-overlap test on one axis; see
/// `axis_strictly_overlaps`.
fn axis_overlap_ex(p1: &Vec<Position>, p2: &Vec<Position>, nx: i128, ny: i128) -> (r: bool)
    requires
        p1@.len() > 0,
        p2@.len() > 0,
        -0x1_0000_0000 <= nx <= 0x1_0000_0000,
        -0x1_0000_0000 <= ny <= 0x1_0000_0000,
    ensures
        r == axis_strictly_overlaps(p1@, p2@, nx as int, ny as int),
{
    let pr1 = min_max_proj(p1, nx, ny);
    let pr2 = min_max_proj(p2, nx, ny);
    let r = pr1.0 < pr2.1 && pr2.0 < pr1.1;
    proof {
        let nxi = nx as int;
        let nyi = ny as int;
        if r {
            let i1 = choose|i: int| 0 <= i < p1@.len() && #[trigger] proj(p1@[i], nxi, nyi) == pr1.0;
            let j2 = choose|j: int| 0 <= j < p2@.len() && #[trigger] proj(p2@[j], nxi, nyi) == pr2.1;
            assert(proj(p1@[i1], nxi, nyi) < proj(p2@[j2], nxi, nyi));
            let i2 = choose|i: int| 0 <= i < p2@.len() && #[trigger] proj(p2@[i], nxi, nyi) == pr2.0;
            let j1 = choose|j: int| 0 <= j < p1@.len() && #[trigger] proj(p1@[j], nxi, nyi) == pr1.1;
            assert(proj(p2@[i2], nxi, nyi) < proj(p1@[j1], nxi, nyi));
            assert(axis_strictly_overlaps(p1@, p2@, nxi, nyi));
        } else {
            if axis_strictly_overlaps(p1@, p2@, nxi, nyi) {
                let (a1, b2) = choose|i: int, j: int|
                    0 <= i < p1@.len() && 0 <= j < p2@.len() && #[trigger] proj(p1@[i], nxi, nyi)
                        < #[trigger] proj(p2@[j], nxi, nyi);
                assert(pr1.0 <= proj(p1@[a1], nxi, nyi));
                assert(proj(p2@[b2], nxi, nyi) <= pr2.1);
                let (a2, b1) = choose|i: int, j: int|
                    0 <= i < p2@.len() && 0 <= j < p1@.len() && #[trigger] proj(p2@[i], nxi, nyi)
                        < #[trigger] proj(p1@[j], nxi, nyi);
                assert(pr2.0 <= proj(p2@[a2], nxi, nyi));
                assert(proj(p1@[b1], nxi, nyi) <= pr1.1);
                assert(false);
            }
        }
    }
    r
}

/// Exact separating-axis test for two convex vertex lists; see
/// `convex_overlap`.
pub fn convex_overlap_ex(p1: &Vec<Position>, p2: &Vec<Position>) -> (r: bool)
    requires
        pts_ok_wide(p1@),
        pts_ok_wide(p2@),
    ensures
        r == convex_overlap(p1@, p2@),
{
    let n1 = p1.len();
    let n2 = p2.len();
    if n1 == 0 || n2 == 0 {
        return false;
    }
    let mut k: usize = 0;
    while k < n1
        invariant
            pts_ok_wide(p1@),
            pts_ok_wide(p2@),
            n1 == p1.len(),
            n2 == p2.len(),
            n1 > 0,
            n2 > 0,
            0 <= k <= n1,
            forall|j: int| 0 <= j < k ==> axis_ok(p1@, p2@, #[trigger] edge_normal(p1@, j)),
        decreases n1 - k,
    {
        let nxt: usize = if k + 1 == n1 {
            0
        } else {
            k + 1
        };
        let u = p1[k];
        let v = p1[nxt];
        let nx: i128 = u.y as i128 - v.y as i128;
        let ny: i128 = v.x as i128 - u.x as i128;
        proof {
            assert(edge_normal(p1@, k as int) == (nx as int, ny as int));
        }
        if nx == 0 && ny == 0 {
        } else if !axis_overlap_ex(p1, p2, nx, ny) {
            proof {
                assert(!axis_ok(p1@, p2@, edge_normal(p1@, k as int)));
            }
            return false;
        }
        k = k + 1;
    }
    let mut k: usize = 0;
    while k < n2
        invariant
            pts_ok_wide(p1@),
            pts_ok_wide(p2@),
            n1 == p1.len(),
            n2 == p2.len(),
            n1 > 0,
            n2 > 0,
            0 <= k <= n2,
            forall|j: int| 0 <= j < n1 ==> axis_ok(p1@, p2@, #[trigger] edge_normal(p1@, j)),
            forall|j: int| 0 <= j < k ==> axis_ok(p1@, p2@, #[trigger] edge_normal(p2@, j)),
        decreases n2 - k,
    {
        let nxt: usize = if k + 1 == n2 {
            0
        } else {
            k + 1
        };
        let u = p2[k];
        let v = p2[nxt];
        let nx: i128 = u.y as i128 - v.y as i128;
        let ny: i128 = v.x as i128 - u.x as i128;
        proof {
            assert(edge_normal(p2@, k as int) == (nx as int, ny as int));
        }
        if nx == 0 && ny == 0 {
        } else if !axis_overlap_ex(p1, p2, nx, ny) {
            proof {
                assert(!axis_ok(p1@, p2@, edge_normal(p2@, k as int)));
            }
            return false;
        }
        k = k + 1;
    }
    true
}

/// Exact segment-polygon test; see `seg_poly_overlap`.
pub fn seg_poly_overlap_ex(a: Position, b: Position, pts: &Vec<Position>) -> (r: bool)
    requires
        pos_ok_wide(a),
        pos_ok_wide(b),
        pts_ok_wide(pts@),
    ensures
        r == seg_poly_overlap(a, b, pts@),
{
    let seg: Vec<Position> = vec![a, b];
    proof {
        assert(seg@ =~= seq![a, b]);
        assert forall|i: int| 0 <= i < seg@.len() implies pos_ok_wide(#[trigger] seg@[i]) by {
            if i == 0 {
                assert(seg@[i] == a);
            } else {
                assert(seg@[i] == b);
            }
        }
    }
    convex_overlap_ex(&seg, pts)
}

/// Exact convex-polygon pair test; see `polys_overlap`.
pub fn polys_overlap_ex(p1: &Vec<Position>, p2: &Vec<Position>) -> (r: bool)
    requires
        pts_ok_wide(p1@),
        pts_ok_wide(p2@),
    ensures
        r == polys_overlap(p1@, p2@),
{
    convex_overlap_ex(p1, p2)
}

} // verus!
