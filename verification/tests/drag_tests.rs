use board_engine::board::add_terrain;
use board_engine::board::add_unit;
use board_engine::collider::ShapeType;
use board_engine::drag::MouseEvent;
use board_engine::drag::SelectedUnit;
use board_engine::drag::drag;
use board_engine::drag::handle_mouse_event;
use board_engine::drag::press;
use board_engine::drag::release;
use board_engine::geometry::Position;
use board_engine::records::GameState;

fn p(x: u32, y: u32) -> Position {
    Position { x, y }
}

fn board_with_circle_unit() -> (GameState, u64) {
    let mut gs = GameState::new(1);
    let a = add_unit(&mut gs, ShapeType::Circle, vec![28], "blue".to_string(), vec![p(50, 50)])
        .unwrap();
    (gs, a)
}

#[test]
fn press_drag_release_scenario() {
    let (mut gs, a) = board_with_circle_unit();
    let mut sel: Option<SelectedUnit> = None;
    // press at (50, 50) selects A
    press(&gs, &mut sel, 50, 50);
    let s = sel.expect("press should select the unit");
    assert_eq!(s.id, a);
    assert_eq!(s.start_x, 50);
    assert_eq!(s.start_y, 50);
    // drag (+10, +10) with no obstruction moves A to (60, 60)
    drag(&mut gs, &sel, 10, 10);
    assert_eq!(gs.units[0].position, vec![p(60, 60)]);
    // release clears the selection
    release(&mut sel);
    assert!(sel.is_none());
    // a subsequent drag with no active selection is a no-op
    drag(&mut gs, &sel, 10, 10);
    assert_eq!(gs.units[0].position, vec![p(60, 60)]);
}

#[test]
fn drag_is_cumulative_from_current_anchor() {
    let (mut gs, _) = board_with_circle_unit();
    let mut sel: Option<SelectedUnit> = None;
    press(&gs, &mut sel, 50, 50);
    drag(&mut gs, &sel, 10, 0);
    drag(&mut gs, &sel, 10, 0);
    drag(&mut gs, &sel, 0, -20);
    assert_eq!(gs.units[0].position, vec![p(70, 30)]);
}

#[test]
fn press_on_empty_space_stays_idle() {
    let (gs, _) = board_with_circle_unit();
    let mut sel: Option<SelectedUnit> = None;
    press(&gs, &mut sel, 300, 300);
    assert!(sel.is_none());
}

#[test]
fn second_press_while_dragging_is_ignored() {
    let (mut gs, a) = board_with_circle_unit();
    add_unit(&mut gs, ShapeType::Circle, vec![28], "red".to_string(), vec![p(200, 200)]).unwrap();
    let mut sel: Option<SelectedUnit> = None;
    press(&gs, &mut sel, 50, 50);
    press(&gs, &mut sel, 200, 200);
    assert_eq!(sel.unwrap().id, a);
}

#[test]
fn drag_onto_another_unit_is_rejected() {
    let (mut gs, _) = board_with_circle_unit();
    add_unit(&mut gs, ShapeType::Circle, vec![28], "red".to_string(), vec![p(70, 50)]).unwrap();
    let mut sel: Option<SelectedUnit> = None;
    press(&gs, &mut sel, 50, 50);
    // (60, 50) is 10 from the other center; radii sum to 28
    drag(&mut gs, &sel, 10, 0);
    assert_eq!(gs.units[0].position, vec![p(50, 50)]);
}

#[test]
fn drag_onto_solid_terrain_is_rejected() {
    let (mut gs, _) = board_with_circle_unit();
    add_terrain(
        &mut gs,
        ShapeType::Rectangle,
        vec![20, 20],
        "brown".to_string(),
        vec![p(60, 40)],
        false,
    )
    .unwrap();
    let mut sel: Option<SelectedUnit> = None;
    press(&gs, &mut sel, 50, 50);
    drag(&mut gs, &sel, 10, 0);
    assert_eq!(gs.units[0].position, vec![p(50, 50)]);
}

#[test]
fn drag_onto_traversable_terrain_is_accepted() {
    let (mut gs, _) = board_with_circle_unit();
    add_terrain(
        &mut gs,
        ShapeType::Rectangle,
        vec![20, 20],
        "grass".to_string(),
        vec![p(60, 40)],
        true,
    )
    .unwrap();
    let mut sel: Option<SelectedUnit> = None;
    press(&gs, &mut sel, 50, 50);
    drag(&mut gs, &sel, 10, 0);
    assert_eq!(gs.units[0].position, vec![p(60, 50)]);
}

#[test]
fn drag_off_the_board_is_rejected() {
    let (mut gs, _) = board_with_circle_unit();
    let mut sel: Option<SelectedUnit> = None;
    press(&gs, &mut sel, 50, 50);
    // past the left edge
    drag(&mut gs, &sel, -60, 0);
    assert_eq!(gs.units[0].position, vec![p(50, 50)]);
    // past the right edge (board is 600 wide)
    drag(&mut gs, &sel, 560, 0);
    assert_eq!(gs.units[0].position, vec![p(50, 50)]);
    // up to the edge itself is fine
    drag(&mut gs, &sel, 550, 0);
    assert_eq!(gs.units[0].position, vec![p(600, 50)]);
}

#[test]
fn drag_after_unit_deleted_is_a_no_op() {
    let (mut gs, a) = board_with_circle_unit();
    let mut sel: Option<SelectedUnit> = None;
    press(&gs, &mut sel, 50, 50);
    board_engine::board::delete_unit(&mut gs, a);
    drag(&mut gs, &sel, 10, 10);
    assert_eq!(gs.units.len(), 0);
}

#[test]
fn release_is_idempotent() {
    let mut sel: Option<SelectedUnit> = None;
    release(&mut sel);
    assert!(sel.is_none());
}

#[test]
fn mouse_events_drive_the_machine() {
    let (mut gs, a) = board_with_circle_unit();
    let mut sel: Option<SelectedUnit> = None;
    handle_mouse_event(&mut gs, &mut sel, MouseEvent::Down { x: 50, y: 50 });
    assert_eq!(sel.unwrap().id, a);
    handle_mouse_event(&mut gs, &mut sel, MouseEvent::Move { dx: 10, dy: 10 });
    assert_eq!(gs.units[0].position, vec![p(60, 60)]);
    handle_mouse_event(&mut gs, &mut sel, MouseEvent::Up);
    assert!(sel.is_none());
    handle_mouse_event(&mut gs, &mut sel, MouseEvent::Move { dx: 10, dy: 10 });
    assert_eq!(gs.units[0].position, vec![p(60, 60)]);
}
