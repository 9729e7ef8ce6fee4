//! Shape model and collider builder.
//!
//! A record's kind, anchor points and dimensions either yield a positioned
//! collider (`Shape`) or nothing at all: a record lacking the minimum
//! geometry for its kind, or using coordinates beyond the arithmetic
//! bound, is inert, silently excluded from every collision and selection
//! query.  Text never produces a collider.
//!
//! Interpretation per kind: a circle's single anchor point is its center
//! and its first dimension the diameter; a rectangle is anchored at its
//! top-left corner with dimensions width and height; a line's two anchor
//! points are its endpoints, collided as an infinitely thin segment
//! whatever its cosmetic thickness; a polygon's anchor points are its
//! convex vertex list in order.

use vstd::prelude::*;

use crate::geometry::COORD_LIMIT;
use crate::geometry::Position;
use crate::geometry::circle_contains;
use crate::geometry::circle_contains_ex;
use crate::geometry::circle_rect_overlap;
use crate::geometry::circle_rect_overlap_ex;
use crate::geometry::circles_overlap;
use crate::geometry::circles_overlap_ex;
use crate::geometry::dim_ok;
use crate::geometry::poly_circle_overlap;
use crate::geometry::poly_circle_overlap_ex;
use crate::geometry::poly_contains;
use crate::geometry::poly_contains_ex;
use crate::geometry::polys_overlap;
use crate::geometry::polys_overlap_ex;
use crate::geometry::pos_ok;
use crate::geometry::lemma_pts_ok_wide;
use crate::geometry::pts_ok;
use crate::geometry::pts_ok_wide;
use crate::geometry::pos_ok_wide;
use crate::geometry::rect_contains;
use crate::geometry::rect_contains_ex;
use crate::geometry::rects_overlap;
use crate::geometry::rects_overlap_ex;
use crate::geometry::seg_circle_overlap;
use crate::geometry::seg_circle_overlap_ex;
use crate::geometry::seg_contains;
use crate::geometry::seg_contains_ex;
use crate::geometry::seg_poly_overlap;
use crate::geometry::seg_poly_overlap_ex;
use crate::geometry::segs_cross;
use crate::geometry::segs_cross_ex;

verus! {

/// The kinds of shape a record may carry.  Text carries no collidable
/// geometry.
#[derive(Clone, Copy, Debug, PartialEq, Eq, Structural)]
pub enum ShapeType {
    Circle,
    Rectangle,
    Line,
    Polygon,
    Text,
}

/// A positioned collider, in absolute board coordinates.
#[derive(Debug)]
pub enum Shape {
    Circle { c: Position, d: u32 },
    Rect { p: Position, w: u32, h: u32 },
    Seg { a: Position, b: Position },
    Poly { pts: Vec<Position> },
}

/// The mathematical model of a positioned collider.
pub enum ShapeModel {
    Circle { c: Position, d: u32 },
    Rect { p: Position, w: u32, h: u32 },
    Seg { a: Position, b: Position },
    Poly { pts: Seq<Position> },
}

impl View for Shape {
    type V = ShapeModel;

    open spec fn view(&self) -> ShapeModel {
        match self {
            Shape::Circle { c, d } => ShapeModel::Circle { c: *c, d: *d },
            Shape::Rect { p, w, h } => ShapeModel::Rect { p: *p, w: *w, h: *h },
            Shape::Seg { a, b } => ShapeModel::Seg { a: *a, b: *b },
            Shape::Poly { pts } => ShapeModel::Poly { pts: pts@ },
        }
    }
}

/// A well-formed collider: every coordinate and dimension within the
/// arithmetic bound, and a polygon with at least three vertices.
pub open spec fn shape_wf(s: ShapeModel) -> bool {
    match s {
        ShapeModel::Circle { c, d } => pos_ok(c) && dim_ok(d),
        ShapeModel::Rect { p, w, h } => pos_ok(p) && dim_ok(w) && dim_ok(h),
        ShapeModel::Seg { a, b } => pos_ok(a) && pos_ok(b),
        ShapeModel::Poly { pts } => pts.len() >= 3 && pts_ok(pts),
    }
}

/// The collider a record yields, or `None` for an inert record: too few
/// anchor points or dimensions for its kind, a coordinate or dimension
/// beyond the arithmetic bound, or the Text kind.
pub open spec fn spec_collider(
    kind: ShapeType,
    pts: Seq<Position>,
    dims: Seq<u32>,
) -> Option<ShapeModel> {
    match kind {
        ShapeType::Circle => if pts.len() >= 1 && dims.len() >= 1 && pos_ok(pts[0]) && dim_ok(
            dims[0],
        ) {
            Some(ShapeModel::Circle { c: pts[0], d: dims[0] })
        } else {
            None
        },
        ShapeType::Rectangle => if pts.len() >= 1 && dims.len() >= 2 && pos_ok(pts[0]) && dim_ok(
            dims[0],
        ) && dim_ok(dims[1]) {
            Some(ShapeModel::Rect { p: pts[0], w: dims[0], h: dims[1] })
        } else {
            None
        },
        ShapeType::Line => if pts.len() >= 2 && pos_ok(pts[0]) && pos_ok(pts[1]) {
            Some(ShapeModel::Seg { a: pts[0], b: pts[1] })
        } else {
            None
        },
        ShapeType::Polygon => if pts.len() >= 3 && pts_ok(pts) {
            Some(ShapeModel::Poly { pts })
        } else {
            None
        },
        ShapeType::Text => None,
    }
}

/// Whatever collider a record yields is well-formed.
pub proof fn lemma_collider_wf(kind: ShapeType, pts: Seq<Position>, dims: Seq<u32>)
    ensures
        spec_collider(kind, pts, dims) matches Some(m) ==> shape_wf(m),
{
}

/// Builds the positioned collider for one record, or `None` for an inert
/// record; see `spec_collider`.
pub fn create_shape_obj(kind: &ShapeType, positions: &Vec<Position>, sizes: &Vec<u32>) -> (r:
    Option<Shape>)
    ensures
        r is Some <==> spec_collider(*kind, positions@, sizes@) is Some,
        r matches Some(sh) ==> sh@ == spec_collider(*kind, positions@, sizes@).unwrap(),
{
    match *kind {
        ShapeType::Circle => {
            if positions.len() >= 1 && sizes.len() >= 1 {
                let c = positions[0];
                let d = sizes[0];
                if c.x <= COORD_LIMIT && c.y <= COORD_LIMIT && d <= COORD_LIMIT {
                    Some(Shape::Circle { c, d })
                } else {
                    None
                }
            } else {
                None
            }
        },
        ShapeType::Rectangle => {
            if positions.len() >= 1 && sizes.len() >= 2 {
                let p = positions[0];
                let w = sizes[0];
                let h = sizes[1];
                if p.x <= COORD_LIMIT && p.y <= COORD_LIMIT && w <= COORD_LIMIT && h
                    <= COORD_LIMIT {
                    Some(Shape::Rect { p, w, h })
                } else {
                    None
                }
            } else {
                None
            }
        },
        ShapeType::Line => {
            if positions.len() >= 2 {
                let a = positions[0];
                let b = positions[1];
                if a.x <= COORD_LIMIT && a.y <= COORD_LIMIT && b.x <= COORD_LIMIT && b.y
                    <= COORD_LIMIT {
                    Some(Shape::Seg { a, b })
                } else {
                    None
                }
            } else {
                None
            }
        },
        ShapeType::Polygon => {
            let n = positions.len();
            if n < 3 {
                return None;
            }
            let mut pts: Vec<Position> = Vec::new();
            let mut i: usize = 0;
            while i < n
                invariant
                    *kind == ShapeType::Polygon,
                    3 <= n == positions.len(),
                    0 <= i <= n,
                    pts@ == positions@.take(i as int),
                    forall|j: int| 0 <= j < i ==> pos_ok(#[trigger] positions@[j]),
                decreases n - i,
            {
                let p = positions[i];
                if p.x > COORD_LIMIT || p.y > COORD_LIMIT {
                    proof {
                        assert(!pos_ok(positions@[i as int]));
                        assert(!pts_ok(positions@));
                    }
                    return None;
                }
                pts.push(p);
                proof {
                    assert(pts@ =~= positions@.take(i + 1 as int));
                }
                i = i + 1;
            }
            proof {
                assert(pts@ =~= positions@);
            }
            Some(Shape::Poly { pts })
        },
        ShapeType::Text => None,
    }
}

/// The four corners of a rectangle, as a convex vertex list.
pub open spec fn rect_pts(p: Position, w: u32, h: u32) -> Seq<Position> {
    seq![
        p,
        Position { x: (p.x + w) as u32, y: p.y },
        Position { x: (p.x + w) as u32, y: (p.y + h) as u32 },
        Position { x: p.x, y: (p.y + h) as u32 },
    ]
}

fn rect_pts_ex(p: Position, w: u32, h: u32) -> (v: Vec<Position>)
    requires
        pos_ok(p),
        dim_ok(w),
        dim_ok(h),
    ensures
        v@ == rect_pts(p, w, h),
        pts_ok_wide(v@),
{
    let mut v: Vec<Position> = Vec::new();
    v.push(p);
    v.push(Position { x: p.x + w, y: p.y });
    v.push(Position { x: p.x + w, y: p.y + h });
    v.push(Position { x: p.x, y: p.y + h });
    proof {
        assert(v@ =~= rect_pts(p, w, h));
        assert forall|i: int| 0 <= i < v@.len() implies pos_ok_wide(#[trigger] v@[i]) by {
            if i == 0 {
                assert(pos_ok_wide(v@[0]));
            } else if i == 1 {
                assert(pos_ok_wide(v@[1]));
            } else if i == 2 {
                assert(pos_ok_wide(v@[2]));
            } else {
                assert(pos_ok_wide(v@[3]));
            }
        }
    }
    v
}

/// Two positioned colliders overlap.  Each pair of kinds has its exact
/// test; a rectangle meets segments and polygons as its four-corner
/// vertex list.
pub open spec fn shapes_overlap(s1: ShapeModel, s2: ShapeModel) -> bool {
    match (s1, s2) {
        (ShapeModel::Circle { c: c1, d: d1 }, ShapeModel::Circle { c: c2, d: d2 }) =>
            circles_overlap(c1, d1, c2, d2),
        (ShapeModel::Circle { c, d }, ShapeModel::Rect { p, w, h }) => circle_rect_overlap(
            c, d, p, w, h,
        ),
        (ShapeModel::Rect { p, w, h }, ShapeModel::Circle { c, d }) => circle_rect_overlap(
            c, d, p, w, h,
        ),
        (ShapeModel::Circle { c, d }, ShapeModel::Seg { a, b }) => seg_circle_overlap(a, b, c, d),
        (ShapeModel::Seg { a, b }, ShapeModel::Circle { c, d }) => seg_circle_overlap(a, b, c, d),
        (ShapeModel::Circle { c, d }, ShapeModel::Poly { pts }) => poly_circle_overlap(pts, c, d),
        (ShapeModel::Poly { pts }, ShapeModel::Circle { c, d }) => poly_circle_overlap(pts, c, d),
        (
            ShapeModel::Rect { p: p1, w: w1, h: h1 },
            ShapeModel::Rect { p: p2, w: w2, h: h2 },
        ) => rects_overlap(p1, w1, h1, p2, w2, h2),
        (ShapeModel::Rect { p, w, h }, ShapeModel::Seg { a, b }) => seg_poly_overlap(
            a, b, rect_pts(p, w, h),
        ),
        (ShapeModel::Seg { a, b }, ShapeModel::Rect { p, w, h }) => seg_poly_overlap(
            a, b, rect_pts(p, w, h),
        ),
        (ShapeModel::Rect { p, w, h }, ShapeModel::Poly { pts }) => polys_overlap(
            rect_pts(p, w, h), pts,
        ),
        (ShapeModel::Poly { pts }, ShapeModel::Rect { p, w, h }) => polys_overlap(
            pts, rect_pts(p, w, h),
        ),
        (ShapeModel::Seg { a: a1, b: b1 }, ShapeModel::Seg { a: a2, b: b2 }) => segs_cross(
            a1, b1, a2, b2,
        ),
        (ShapeModel::Seg { a, b }, ShapeModel::Poly { pts }) => seg_poly_overlap(a, b, pts),
        (ShapeModel::Poly { pts }, ShapeModel::Seg { a, b }) => seg_poly_overlap(a, b, pts),
        (ShapeModel::Poly { pts: q1 }, ShapeModel::Poly { pts: q2 }) => polys_overlap(q1, q2),
    }
}

/// Exact overlap test for two positioned colliders; see `shapes_overlap`.
pub fn shapes_overlap_ex(s1: &Shape, s2: &Shape) -> (r: bool)
    requires
        shape_wf(s1@),
        shape_wf(s2@),
    ensures
        r == shapes_overlap(s1@, s2@),
{
    match (s1, s2) {
        (Shape::Circle { c: c1, d: d1 }, Shape::Circle { c: c2, d: d2 }) => circles_overlap_ex(
            *c1, *d1, *c2, *d2,
        ),
        (Shape::Circle { c, d }, Shape::Rect { p, w, h }) => circle_rect_overlap_ex(
            *c, *d, *p, *w, *h,
        ),
        (Shape::Rect { p, w, h }, Shape::Circle { c, d }) => circle_rect_overlap_ex(
            *c, *d, *p, *w, *h,
        ),
        (Shape::Circle { c, d }, Shape::Seg { a, b }) => seg_circle_overlap_ex(*a, *b, *c, *d),
        (Shape::Seg { a, b }, Shape::Circle { c, d }) => seg_circle_overlap_ex(*a, *b, *c, *d),
        (Shape::Circle { c, d }, Shape::Poly { pts }) => poly_circle_overlap_ex(pts, *c, *d),
        (Shape::Poly { pts }, Shape::Circle { c, d }) => poly_circle_overlap_ex(pts, *c, *d),
        (Shape::Rect { p: p1, w: w1, h: h1 }, Shape::Rect { p: p2, w: w2, h: h2 }) =>
            rects_overlap_ex(*p1, *w1, *h1, *p2, *w2, *h2),
        (Shape::Rect { p, w, h }, Shape::Seg { a, b }) => {
            let corners = rect_pts_ex(*p, *w, *h);
            seg_poly_overlap_ex(*a, *b, &corners)
        },
        (Shape::Seg { a, b }, Shape::Rect { p, w, h }) => {
            let corners = rect_pts_ex(*p, *w, *h);
            seg_poly_overlap_ex(*a, *b, &corners)
        },
        (Shape::Rect { p, w, h }, Shape::Poly { pts }) => {
            let corners = rect_pts_ex(*p, *w, *h);
            proof {
                lemma_pts_ok_wide(pts@);
            }
            polys_overlap_ex(&corners, pts)
        },
        (Shape::Poly { pts }, Shape::Rect { p, w, h }) => {
            let corners = rect_pts_ex(*p, *w, *h);
            proof {
                lemma_pts_ok_wide(pts@);
            }
            polys_overlap_ex(pts, &corners)
        },
        (Shape::Seg { a: a1, b: b1 }, Shape::Seg { a: a2, b: b2 }) => segs_cross_ex(
            *a1, *b1, *a2, *b2,
        ),
        (Shape::Seg { a, b }, Shape::Poly { pts }) => {
            proof {
                lemma_pts_ok_wide(pts@);
            }
            seg_poly_overlap_ex(*a, *b, pts)
        },
        (Shape::Poly { pts }, Shape::Seg { a, b }) => {
            proof {
                lemma_pts_ok_wide(pts@);
            }
            seg_poly_overlap_ex(*a, *b, pts)
        },
        (Shape::Poly { pts: q1 }, Shape::Poly { pts: q2 }) => {
            proof {
                lemma_pts_ok_wide(q1@);
                lemma_pts_ok_wide(q2@);
            }
            polys_overlap_ex(q1, q2)
        },
    }
}

/// A positioned collider contains a point, under the strict convention:
/// the open interior for circles, rectangles and polygons, exact
/// membership for a segment's point set.
pub open spec fn shape_contains(s: ShapeModel, p: Position) -> bool {
    match s {
        ShapeModel::Circle { c, d } => circle_contains(c, d, p),
        ShapeModel::Rect { p: r, w, h } => rect_contains(r, w, h, p),
        ShapeModel::Seg { a, b } => seg_contains(a, b, p),
        ShapeModel::Poly { pts } => poly_contains(pts, p),
    }
}

/// Exact containment test for a positioned collider; see `shape_contains`.
pub fn shape_contains_ex(s: &Shape, p: Position) -> (r: bool)
    requires
        shape_wf(s@),
    ensures
        r == shape_contains(s@, p),
{
    match s {
        Shape::Circle { c, d } => circle_contains_ex(*c, *d, p),
        Shape::Rect { p: r, w, h } => rect_contains_ex(*r, *w, *h, p),
        Shape::Seg { a, b } => seg_contains_ex(*a, *b, p),
        Shape::Poly { pts } => poly_contains_ex(pts, p),
    }
}

} // verus!
