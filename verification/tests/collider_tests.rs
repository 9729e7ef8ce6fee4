use board_engine::collider::Shape;
use board_engine::collider::ShapeType;
use board_engine::collider::create_shape_obj;
use board_engine::collider::shape_contains_ex;
use board_engine::collider::shapes_overlap_ex;
use board_engine::geometry::Position;

fn p(x: u32, y: u32) -> Position {
    Position { x, y }
}

#[test]
fn circle_record_yields_circle_collider() {
    let r = create_shape_obj(&ShapeType::Circle, &vec![p(50, 50)], &vec![28]);
    match r {
        Some(Shape::Circle { c, d }) => {
            assert_eq!(c, p(50, 50));
            assert_eq!(d, 28);
        }
        _ => panic!("expected a circle collider"),
    }
}

#[test]
fn rectangle_record_yields_rect_collider() {
    let r = create_shape_obj(&ShapeType::Rectangle, &vec![p(40, 40)], &vec![20, 30]);
    match r {
        Some(Shape::Rect { p: corner, w, h }) => {
            assert_eq!(corner, p(40, 40));
            assert_eq!(w, 20);
            assert_eq!(h, 30);
        }
        _ => panic!("expected a rectangle collider"),
    }
}

#[test]
fn line_record_yields_segment_collider() {
    let r = create_shape_obj(&ShapeType::Line, &vec![p(0, 0), p(10, 10)], &vec![3]);
    match r {
        Some(Shape::Seg { a, b }) => {
            assert_eq!(a, p(0, 0));
            assert_eq!(b, p(10, 10));
        }
        _ => panic!("expected a segment collider"),
    }
}

#[test]
fn polygon_record_yields_polygon_collider() {
    let pts = vec![p(0, 0), p(10, 0), p(5, 10)];
    let r = create_shape_obj(&ShapeType::Polygon, &pts, &vec![]);
    match r {
        Some(Shape::Poly { pts: got }) => assert_eq!(got, pts),
        _ => panic!("expected a polygon collider"),
    }
}

#[test]
fn text_never_yields_a_collider() {
    assert!(create_shape_obj(&ShapeType::Text, &vec![p(0, 0)], &vec![24]).is_none());
}

#[test]
fn records_lacking_geometry_are_inert() {
    // circle without a diameter
    assert!(create_shape_obj(&ShapeType::Circle, &vec![p(0, 0)], &vec![]).is_none());
    // circle without an anchor point
    assert!(create_shape_obj(&ShapeType::Circle, &vec![], &vec![28]).is_none());
    // rectangle with only one dimension
    assert!(create_shape_obj(&ShapeType::Rectangle, &vec![p(0, 0)], &vec![20]).is_none());
    // line with one endpoint
    assert!(create_shape_obj(&ShapeType::Line, &vec![p(0, 0)], &vec![1]).is_none());
    // polygon with two vertices
    assert!(create_shape_obj(&ShapeType::Polygon, &vec![p(0, 0), p(1, 1)], &vec![]).is_none());
}

#[test]
fn oversized_coordinates_are_inert() {
    let big: u32 = 0x4000_0001;
    assert!(create_shape_obj(&ShapeType::Circle, &vec![p(big, 0)], &vec![28]).is_none());
    assert!(create_shape_obj(&ShapeType::Circle, &vec![p(0, 0)], &vec![big]).is_none());
    assert!(
        create_shape_obj(&ShapeType::Polygon, &vec![p(0, 0), p(1, 0), p(big, 1)], &vec![])
            .is_none()
    );
}

#[test]
fn mixed_shape_pairs_dispatch() {
    let circle = Shape::Circle { c: p(45, 45), d: 28 };
    let rect = Shape::Rect { p: p(40, 40), w: 20, h: 20 };
    let far_rect = Shape::Rect { p: p(300, 300), w: 20, h: 20 };
    let seg = Shape::Seg { a: p(0, 50), b: p(100, 50) };
    let tri = Shape::Poly { pts: vec![p(45, 42), p(55, 42), p(50, 55)] };
    assert!(shapes_overlap_ex(&circle, &rect));
    assert!(shapes_overlap_ex(&rect, &circle));
    assert!(!shapes_overlap_ex(&circle, &far_rect));
    assert!(shapes_overlap_ex(&seg, &circle));
    assert!(shapes_overlap_ex(&seg, &rect));
    assert!(shapes_overlap_ex(&tri, &rect));
    assert!(shapes_overlap_ex(&tri, &circle));
    assert!(!shapes_overlap_ex(&seg, &far_rect));
}

#[test]
fn shape_containment_dispatch() {
    let circle = Shape::Circle { c: p(50, 50), d: 28 };
    let rect = Shape::Rect { p: p(40, 40), w: 20, h: 20 };
    let seg = Shape::Seg { a: p(0, 0), b: p(10, 10) };
    let tri = Shape::Poly { pts: vec![p(0, 0), p(10, 0), p(5, 10)] };
    assert!(shape_contains_ex(&circle, p(50, 50)));
    assert!(!shape_contains_ex(&circle, p(64, 50)));
    assert!(shape_contains_ex(&rect, p(50, 50)));
    assert!(!shape_contains_ex(&rect, p(40, 40)));
    assert!(shape_contains_ex(&seg, p(5, 5)));
    assert!(!shape_contains_ex(&seg, p(5, 6)));
    assert!(shape_contains_ex(&tri, p(5, 3)));
    assert!(!shape_contains_ex(&tri, p(0, 10)));
}
