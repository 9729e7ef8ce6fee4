use board_engine::board::RecordKind;
use board_engine::board::add_terrain;
use board_engine::board::add_underlay;
use board_engine::board::add_unit;
use board_engine::board::delete_all;
use board_engine::board::delete_at_coordinates;
use board_engine::board::delete_terrain;
use board_engine::board::delete_unit;
use board_engine::board::pick;
use board_engine::board::pick_any_kind;
use board_engine::board::validate_move;
use board_engine::collider::ShapeType;
use board_engine::geometry::Position;
use board_engine::records::GameState;

fn p(x: u32, y: u32) -> Position {
    Position { x, y }
}

/// One unit A (circle, diameter 28, center (50, 50)) and one
/// non-traversable terrain B (rectangle, corner (40, 40), 20 by 20).
fn scenario_board() -> (GameState, u64, u64) {
    let mut gs = GameState::new(1);
    let a = add_unit(
        &mut gs,
        ShapeType::Circle,
        vec![28],
        "blue".to_string(),
        vec![p(50, 50)],
    )
    .unwrap();
    let b = add_terrain(
        &mut gs,
        ShapeType::Rectangle,
        vec![20, 20],
        "brown".to_string(),
        vec![p(40, 40)],
        false,
    )
    .unwrap();
    (gs, a, b)
}

#[test]
fn add_assigns_smallest_free_ids() {
    let mut gs = GameState::new(3);
    assert_eq!(
        add_unit(&mut gs, ShapeType::Circle, vec![28], "a".to_string(), vec![p(1, 1)]),
        Ok(1)
    );
    assert_eq!(
        add_unit(&mut gs, ShapeType::Circle, vec![28], "b".to_string(), vec![p(90, 1)]),
        Ok(2)
    );
    assert_eq!(gs.units.len(), 2);
    assert_eq!(gs.units[0].id, 1);
    assert_eq!(gs.units[1].id, 2);
    assert_eq!(gs.units[1].game_id, 3);
    assert_eq!(gs.units[1].color, "b");
}

#[test]
fn add_reuses_a_freed_id() {
    let mut gs = GameState::new(1);
    add_unit(&mut gs, ShapeType::Circle, vec![28], "a".to_string(), vec![p(1, 1)]).unwrap();
    add_unit(&mut gs, ShapeType::Circle, vec![28], "b".to_string(), vec![p(90, 1)]).unwrap();
    assert!(delete_unit(&mut gs, 1));
    assert_eq!(
        add_unit(&mut gs, ShapeType::Circle, vec![28], "c".to_string(), vec![p(200, 1)]),
        Ok(1)
    );
}

#[test]
fn delete_of_missing_id_is_a_no_op() {
    let (mut gs, a, b) = scenario_board();
    assert!(!delete_unit(&mut gs, a + 10));
    assert!(!delete_terrain(&mut gs, b + 10));
    assert_eq!(gs.units.len(), 1);
    assert_eq!(gs.terrains.len(), 1);
}

#[test]
fn delete_removes_only_the_named_record() {
    let mut gs = GameState::new(1);
    add_unit(&mut gs, ShapeType::Circle, vec![28], "a".to_string(), vec![p(1, 1)]).unwrap();
    add_unit(&mut gs, ShapeType::Circle, vec![28], "b".to_string(), vec![p(90, 1)]).unwrap();
    assert!(delete_unit(&mut gs, 1));
    assert_eq!(gs.units.len(), 1);
    assert_eq!(gs.units[0].id, 2);
}

#[test]
fn validate_move_into_solid_terrain_is_rejected() {
    let (gs, a, _) = scenario_board();
    assert!(!validate_move(&gs, a, &vec![p(45, 45)]));
}

#[test]
fn validate_move_into_free_space_is_accepted() {
    let (gs, a, _) = scenario_board();
    assert!(validate_move(&gs, a, &vec![p(200, 200)]));
}

#[test]
fn validate_move_of_missing_unit_is_rejected() {
    let (gs, a, _) = scenario_board();
    assert!(!validate_move(&gs, a + 10, &vec![p(200, 200)]));
}

#[test]
fn validate_move_onto_other_unit_is_rejected() {
    let (mut gs, a, _) = scenario_board();
    let other = add_unit(
        &mut gs,
        ShapeType::Circle,
        vec![28],
        "red".to_string(),
        vec![p(200, 200)],
    )
    .unwrap();
    assert!(other != a);
    assert!(!validate_move(&gs, a, &vec![p(210, 200)]));
}

#[test]
fn validate_move_onto_traversable_terrain_is_accepted() {
    let mut gs = GameState::new(1);
    let a = add_unit(&mut gs, ShapeType::Circle, vec![28], "blue".to_string(), vec![p(50, 50)])
        .unwrap();
    add_terrain(
        &mut gs,
        ShapeType::Rectangle,
        vec![20, 20],
        "grass".to_string(),
        vec![p(140, 140)],
        true,
    )
    .unwrap();
    assert!(validate_move(&gs, a, &vec![p(145, 145)]));
}

#[test]
fn pick_finds_the_unit_under_the_point() {
    let (gs, a, _) = scenario_board();
    assert_eq!(pick(&gs, 50, 50), Some(a));
    assert_eq!(pick(&gs, 300, 300), None);
}

#[test]
fn pick_any_kind_prefers_units_over_terrain() {
    let (mut gs, a, b) = scenario_board();
    // (45, 45) is inside both A and B: the unit wins
    assert_eq!(pick_any_kind(&gs, 45, 45), Some((RecordKind::Unit, a)));
    // with the unit gone, the terrain is found
    assert!(delete_unit(&mut gs, a));
    assert_eq!(pick_any_kind(&gs, 45, 45), Some((RecordKind::Terrain, b)));
    assert_eq!(pick_any_kind(&gs, 300, 300), None);
}

#[test]
fn delete_at_coordinates_removes_unit_first() {
    let (mut gs, _, _) = scenario_board();
    delete_at_coordinates(&mut gs, 45, 45);
    assert_eq!(gs.units.len(), 0);
    assert_eq!(gs.terrains.len(), 1);
}

#[test]
fn delete_at_coordinates_falls_back_to_terrain() {
    let (mut gs, _, _) = scenario_board();
    // the first call removes the unit under the point, the second the
    // terrain left beneath it
    delete_at_coordinates(&mut gs, 45, 45);
    delete_at_coordinates(&mut gs, 45, 45);
    assert_eq!(gs.units.len(), 0);
    assert_eq!(gs.terrains.len(), 0);
}

#[test]
fn delete_at_coordinates_on_empty_space_is_a_no_op() {
    let (mut gs, _, _) = scenario_board();
    delete_at_coordinates(&mut gs, 300, 300);
    assert_eq!(gs.units.len(), 1);
    assert_eq!(gs.terrains.len(), 1);
}

#[test]
fn delete_all_clears_units_and_terrain_only() {
    let (mut gs, _, _) = scenario_board();
    add_underlay(
        &mut gs,
        ShapeType::Circle,
        vec![100],
        "shade".to_string(),
        vec![p(300, 300)],
    )
    .unwrap();
    delete_all(&mut gs);
    assert_eq!(gs.units.len(), 0);
    assert_eq!(gs.terrains.len(), 0);
    assert_eq!(gs.underlays.len(), 1);
}
