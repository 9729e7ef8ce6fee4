use board_engine::collider::ShapeType;
use board_engine::geometry::Position;
use board_engine::records::Terrain;
use board_engine::records::Unit;
use board_engine::scene::build_colliders;
use board_engine::scene::check_shape_collision_items;
use board_engine::scene::find_item_at_point;
use board_engine::scene::hit_test;
use board_engine::scene::overlaps;

fn p(x: u32, y: u32) -> Position {
    Position { x, y }
}

fn circle_unit(id: u64, x: u32, y: u32, d: u32) -> Unit {
    Unit {
        id,
        game_id: 1,
        shape_type: ShapeType::Circle,
        size: vec![d],
        color: "blue".to_string(),
        position: vec![p(x, y)],
    }
}

fn rect_terrain(id: u64, x: u32, y: u32, w: u32, h: u32, traversable: bool) -> Terrain {
    Terrain {
        id,
        game_id: 1,
        shape_type: ShapeType::Rectangle,
        size: vec![w, h],
        color: "green".to_string(),
        position: vec![p(x, y)],
        traversable,
    }
}

#[test]
fn scene_holds_one_entry_per_collidable_record() {
    let units = vec![circle_unit(1, 50, 50, 28), circle_unit(2, 150, 50, 28)];
    let scene = build_colliders(&units, false, None);
    assert_eq!(scene.entries.len(), 2);
    assert_eq!(scene.entries[0].0, 1);
    assert_eq!(scene.entries[1].0, 2);
}

#[test]
fn scene_skips_the_excluded_mover() {
    let units = vec![circle_unit(1, 50, 50, 28), circle_unit(2, 150, 50, 28)];
    let scene = build_colliders(&units, true, Some(1));
    assert_eq!(scene.entries.len(), 1);
    assert_eq!(scene.entries[0].0, 2);
}

#[test]
fn scene_skips_traversable_terrain_when_asked() {
    let terrains = vec![
        rect_terrain(1, 0, 0, 10, 10, true),
        rect_terrain(2, 20, 0, 10, 10, false),
    ];
    let skipping = build_colliders(&terrains, true, None);
    assert_eq!(skipping.entries.len(), 1);
    assert_eq!(skipping.entries[0].0, 2);
    let keeping = build_colliders(&terrains, false, None);
    assert_eq!(keeping.entries.len(), 2);
}

#[test]
fn scene_excludes_inert_records() {
    let mut broken = circle_unit(3, 50, 50, 28);
    broken.size = vec![];
    let units = vec![circle_unit(1, 50, 50, 28), broken];
    let scene = build_colliders(&units, false, None);
    assert_eq!(scene.entries.len(), 1);
    assert_eq!(scene.entries[0].0, 1);
}

#[test]
fn overlaps_finds_any_hit() {
    let units = vec![circle_unit(1, 50, 50, 28), circle_unit(2, 150, 50, 28)];
    let scene = build_colliders(&units, false, None);
    assert!(overlaps(&ShapeType::Circle, &vec![p(60, 50)], &vec![28], &scene));
    assert!(!overlaps(&ShapeType::Circle, &vec![p(100, 200)], &vec![28], &scene));
}

#[test]
fn inert_candidate_never_overlaps() {
    let units = vec![circle_unit(1, 50, 50, 28)];
    let scene = build_colliders(&units, false, None);
    assert!(!overlaps(&ShapeType::Circle, &vec![p(50, 50)], &vec![], &scene));
    assert!(!overlaps(&ShapeType::Text, &vec![p(50, 50)], &vec![24], &scene));
}

#[test]
fn hit_test_returns_first_in_build_order() {
    // both circles contain the probe point
    let units = vec![circle_unit(7, 50, 50, 28), circle_unit(8, 52, 50, 28)];
    let scene = build_colliders(&units, false, None);
    assert_eq!(hit_test(p(51, 50), &scene), Some(7));
}

#[test]
fn hit_test_inside_exactly_one_returns_it() {
    let units = vec![circle_unit(1, 50, 50, 28), circle_unit(2, 150, 50, 28)];
    let scene = build_colliders(&units, false, None);
    assert_eq!(hit_test(p(150, 50), &scene), Some(2));
}

#[test]
fn hit_test_inside_none_returns_none() {
    let units = vec![circle_unit(1, 50, 50, 28), circle_unit(2, 150, 50, 28)];
    let scene = build_colliders(&units, false, None);
    assert_eq!(hit_test(p(300, 300), &scene), None);
}

#[test]
fn find_item_at_point_reports_record_id() {
    let units = vec![circle_unit(4, 50, 50, 28), circle_unit(9, 150, 50, 28)];
    assert_eq!(find_item_at_point(&units, 150, 50), Some(9));
    assert_eq!(find_item_at_point(&units, 300, 300), None);
}

#[test]
fn collision_check_skips_self_and_traversable() {
    let units = vec![circle_unit(1, 50, 50, 28), circle_unit(2, 70, 50, 28)];
    // unit 1 moved onto unit 2, itself excluded: collides
    assert!(check_shape_collision_items(
        &ShapeType::Circle,
        &vec![p(65, 50)],
        &vec![28],
        &units,
        Some(1),
    ));
    // moved to free space: clear
    assert!(!check_shape_collision_items(
        &ShapeType::Circle,
        &vec![p(300, 300)],
        &vec![28],
        &units,
        Some(1),
    ));
    let terrains = vec![rect_terrain(1, 40, 40, 20, 20, true)];
    // traversable terrain is skipped entirely
    assert!(!check_shape_collision_items(
        &ShapeType::Circle,
        &vec![p(45, 45)],
        &vec![28],
        &terrains,
        None,
    ));
}
