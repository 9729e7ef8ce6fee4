use board_engine::geometry::Position;
use board_engine::geometry::circle_contains_ex;
use board_engine::geometry::circle_rect_overlap_ex;
use board_engine::geometry::circles_overlap_ex;
use board_engine::geometry::poly_circle_overlap_ex;
use board_engine::geometry::poly_contains_ex;
use board_engine::geometry::polys_overlap_ex;
use board_engine::geometry::rect_contains_ex;
use board_engine::geometry::rects_overlap_ex;
use board_engine::geometry::seg_circle_overlap_ex;
use board_engine::geometry::seg_contains_ex;
use board_engine::geometry::seg_poly_overlap_ex;
use board_engine::geometry::segs_cross_ex;

fn p(x: u32, y: u32) -> Position {
    Position { x, y }
}

fn square() -> Vec<Position> {
    vec![p(0, 0), p(10, 0), p(10, 10), p(0, 10)]
}

#[test]
fn circles_touching_do_not_overlap() {
    // centers 10 apart, radii 5 + 5: touching exactly
    assert!(!circles_overlap_ex(p(0, 0), 10, p(10, 0), 10));
}

#[test]
fn circles_closer_than_radii_overlap() {
    assert!(circles_overlap_ex(p(0, 0), 10, p(10, 0), 12));
    assert!(circles_overlap_ex(p(50, 50), 28, p(70, 50), 28));
}

#[test]
fn circles_apart_do_not_overlap() {
    assert!(!circles_overlap_ex(p(0, 0), 10, p(100, 0), 10));
}

#[test]
fn rects_sharing_an_edge_do_not_overlap() {
    assert!(!rects_overlap_ex(p(0, 0), 10, 10, p(10, 0), 10, 10));
    assert!(!rects_overlap_ex(p(0, 0), 10, 10, p(0, 10), 10, 10));
}

#[test]
fn rects_with_open_interval_overlap_overlap() {
    assert!(rects_overlap_ex(p(0, 0), 10, 10, p(9, 0), 10, 10));
    assert!(rects_overlap_ex(p(0, 0), 10, 10, p(5, 5), 2, 2));
}

#[test]
fn rects_apart_do_not_overlap() {
    assert!(!rects_overlap_ex(p(0, 0), 10, 10, p(50, 50), 10, 10));
}

#[test]
fn circle_center_inside_rect_overlaps() {
    assert!(circle_rect_overlap_ex(p(45, 45), 28, p(40, 40), 20, 20));
}

#[test]
fn circle_touching_rect_edge_does_not_overlap() {
    // nearest point of the rectangle is 5 away, radius is 5
    assert!(!circle_rect_overlap_ex(p(25, 10), 10, p(30, 0), 20, 20));
    // one step closer and they overlap
    assert!(circle_rect_overlap_ex(p(26, 10), 10, p(30, 0), 20, 20));
}

#[test]
fn circle_far_from_rect_does_not_overlap() {
    assert!(!circle_rect_overlap_ex(p(200, 200), 28, p(40, 40), 20, 20));
}

#[test]
fn circle_contains_center_but_not_rim() {
    assert!(circle_contains_ex(p(50, 50), 28, p(50, 50)));
    assert!(circle_contains_ex(p(50, 50), 28, p(63, 50)));
    // the rim itself: distance 14 equals the radius
    assert!(!circle_contains_ex(p(50, 50), 28, p(64, 50)));
}

#[test]
fn rect_contains_interior_but_not_edge() {
    assert!(rect_contains_ex(p(40, 40), 20, 20, p(50, 50)));
    assert!(!rect_contains_ex(p(40, 40), 20, 20, p(40, 50)));
    assert!(!rect_contains_ex(p(40, 40), 20, 20, p(60, 60)));
}

#[test]
fn segment_contains_its_points() {
    assert!(seg_contains_ex(p(0, 0), p(10, 10), p(5, 5)));
    assert!(seg_contains_ex(p(0, 0), p(10, 10), p(10, 10)));
    assert!(!seg_contains_ex(p(0, 0), p(10, 10), p(5, 6)));
    assert!(!seg_contains_ex(p(0, 0), p(10, 10), p(11, 11)));
}

#[test]
fn segments_crossing_properly_overlap() {
    assert!(segs_cross_ex(p(0, 0), p(10, 10), p(0, 10), p(10, 0)));
}

#[test]
fn segments_touching_at_endpoint_do_not_overlap() {
    assert!(!segs_cross_ex(p(0, 0), p(10, 10), p(10, 10), p(20, 0)));
}

#[test]
fn parallel_segments_do_not_overlap() {
    assert!(!segs_cross_ex(p(0, 0), p(10, 0), p(0, 5), p(10, 5)));
}

#[test]
fn segment_within_radius_of_circle_overlaps() {
    // the segment passes 10 above the center; radius 11
    assert!(seg_circle_overlap_ex(p(0, 10), p(20, 10), p(10, 0), 22));
}

#[test]
fn segment_at_exact_radius_does_not_overlap() {
    assert!(!seg_circle_overlap_ex(p(0, 10), p(20, 10), p(10, 0), 20));
}

#[test]
fn segment_near_an_endpoint_of_circle() {
    // the center projects beyond the segment end; nearest point is (20, 10)
    assert!(seg_circle_overlap_ex(p(0, 10), p(20, 10), p(24, 10), 10));
    assert!(!seg_circle_overlap_ex(p(0, 10), p(20, 10), p(25, 10), 10));
}

#[test]
fn polygon_contains_interior_point_either_winding() {
    let cw: Vec<Position> = vec![p(0, 0), p(0, 10), p(10, 10), p(10, 0)];
    assert!(poly_contains_ex(&square(), p(5, 5)));
    assert!(poly_contains_ex(&cw, p(5, 5)));
}

#[test]
fn polygon_does_not_contain_edge_or_outside_point() {
    assert!(!poly_contains_ex(&square(), p(0, 5)));
    assert!(!poly_contains_ex(&square(), p(10, 10)));
    assert!(!poly_contains_ex(&square(), p(20, 5)));
}

#[test]
fn degenerate_polygon_contains_nothing() {
    let two: Vec<Position> = vec![p(0, 0), p(10, 0)];
    assert!(!poly_contains_ex(&two, p(5, 0)));
}

#[test]
fn polygons_overlapping_by_containment() {
    let small: Vec<Position> = vec![p(4, 4), p(6, 4), p(6, 6), p(4, 6)];
    assert!(polys_overlap_ex(&square(), &small));
    assert!(polys_overlap_ex(&small, &square()));
}

#[test]
fn polygons_overlapping_by_edge_crossing() {
    let other: Vec<Position> = vec![p(5, 5), p(15, 5), p(15, 15), p(5, 15)];
    assert!(polys_overlap_ex(&square(), &other));
}

#[test]
fn polygons_sharing_an_edge_do_not_overlap() {
    let right: Vec<Position> = vec![p(10, 0), p(20, 0), p(20, 10), p(10, 10)];
    assert!(!polys_overlap_ex(&square(), &right));
}

#[test]
fn polygons_with_collinear_vertex_contact_overlap() {
    // every vertex of each square lies on an edge line of the other,
    // yet the interiors share a 5 by 10 region
    let shifted: Vec<Position> = vec![p(5, 0), p(15, 0), p(15, 10), p(5, 10)];
    assert!(polys_overlap_ex(&square(), &shifted));
}

#[test]
fn segment_through_polygon_corners_overlaps() {
    // the diagonal enters and leaves the square exactly at two corners
    let inner: Vec<Position> = vec![p(2, 2), p(8, 2), p(8, 8), p(2, 8)];
    assert!(seg_poly_overlap_ex(p(0, 0), p(10, 10), &inner));
}

#[test]
fn segment_grazing_polygon_edge_does_not_overlap() {
    // the segment runs along the square's right edge line
    assert!(!seg_poly_overlap_ex(p(10, 0), p(10, 20), &square()));
}

#[test]
fn segment_through_polygon_overlaps() {
    assert!(seg_poly_overlap_ex(p(5, 5), p(7, 7), &square()));
    assert!(seg_poly_overlap_ex(p(5, 20), p(5, 5), &square()));
}

#[test]
fn segment_outside_polygon_does_not_overlap() {
    assert!(!seg_poly_overlap_ex(p(20, 0), p(20, 20), &square()));
}

#[test]
fn circle_center_inside_polygon_overlaps() {
    assert!(poly_circle_overlap_ex(&square(), p(5, 5), 2));
}

#[test]
fn circle_near_polygon_edge_overlaps() {
    // center 2 right of the right edge, radius 3
    assert!(poly_circle_overlap_ex(&square(), p(12, 5), 6));
    // radius 2: touches exactly, no overlap
    assert!(!poly_circle_overlap_ex(&square(), p(12, 5), 4));
}

#[test]
fn circle_far_from_polygon_does_not_overlap() {
    assert!(!poly_circle_overlap_ex(&square(), p(50, 50), 10));
}
