//! The drag-selection state machine.
//!
//! The interaction has two states: idle (no selection) and dragging
//! (exactly one unit held, with its press point).  A press while idle
//! hit-tests the units and selects the first hit; a press while dragging
//! is ignored.  A drag moves the held unit by an offset relative to its
//! current anchor (cumulative per event, not relative to the press
//! point); the move is silently dropped when any translated anchor point
//! would leave the board, or when the moved shape would overlap another
//! unit or non-traversable terrain.  A release clears the selection,
//! idempotently, from any state.

use vstd::prelude::*;

use crate::geometry::Position;
use crate::records::BOARD_HEIGHT;
use crate::records::BOARD_WIDTH;
use crate::records::GameState;
use crate::records::Unit;
use crate::scene::check_shape_collision_items;
use crate::scene::find_item_at_point;
use crate::scene::spec_check_collision;
use crate::scene::spec_find_item;

verus! {

/// The selection record: the one unit currently being dragged, with the
/// point it was pressed at.  At most one exists per session.
#[derive(Clone, Copy, Debug, PartialEq, Eq, Structural)]
pub struct SelectedUnit {
    pub id: u64,
    pub game_id: u64,
    pub start_x: u32,
    pub start_y: u32,
    pub offset_x: u32,
    pub offset_y: u32,
}

/// One pointer event, as the host hands it in.
#[derive(Clone, Copy, Debug, PartialEq, Eq, Structural)]
pub enum MouseEvent {
    Down { x: u32, y: u32 },
    Move { dx: i32, dy: i32 },
    Up,
}

/// The translated point stays on the board.
pub open spec fn in_board(p: Position, dx: int, dy: int) -> bool {
    &&& 0 <= p.x + dx <= BOARD_WIDTH
    &&& 0 <= p.y + dy <= BOARD_HEIGHT
}

/// Every anchor point stays on the board after translation.
pub open spec fn all_in_board(pts: Seq<Position>, dx: int, dy: int) -> bool {
    forall|i: int| 0 <= i < pts.len() ==> in_board(#[trigger] pts[i], dx, dy)
}

/// A point translated by the drag offset.
pub open spec fn translate_pt(p: Position, dx: int, dy: int) -> Position {
    Position { x: (p.x + dx) as u32, y: (p.y + dy) as u32 }
}

/// All anchor points translated by the drag offset.
pub open spec fn translate_pts(pts: Seq<Position>, dx: int, dy: int) -> Seq<Position> {
    pts.map_values(|p: Position| translate_pt(p, dx, dy))
}

/// A drag of this unit by the offset goes through: the translated
/// anchors stay on the board, and the moved shape overlaps neither any
/// other unit nor any non-traversable terrain.
pub open spec fn spec_move_allowed(gs: GameState, u: Unit, dx: int, dy: int) -> bool {
    &&& all_in_board(u.position@, dx, dy)
    &&& !spec_check_collision(
        u.shape_type,
        translate_pts(u.position@, dx, dy),
        u.size@,
        gs.units@,
        Some(u.id),
    )
    &&& !spec_check_collision(
        u.shape_type,
        translate_pts(u.position@, dx, dy),
        u.size@,
        gs.terrains@,
        None,
    )
}

/// The selection a press at this point creates from the idle state.
pub open spec fn spec_press(gs: GameState, x: u32, y: u32) -> Option<SelectedUnit> {
    match spec_find_item(gs.units@, x, y) {
        Some(uid) => Some(
            SelectedUnit {
                id: uid,
                game_id: gs.game_id,
                start_x: x,
                start_y: y,
                offset_x: 0,
                offset_y: 0,
            },
        ),
        None => None,
    }
}

/// The moved unit: either translated by the offset, when the move was
/// allowed against the old board, or unchanged.
pub open spec fn moved_or_same(gs: GameState, u_old: Unit, u_new: Unit, dx: i32, dy: i32) -> bool {
    if spec_move_allowed(gs, u_old, dx as int, dy as int) {
        &&& u_new.id == u_old.id
        &&& u_new.game_id == u_old.game_id
        &&& u_new.shape_type == u_old.shape_type
        &&& u_new.size == u_old.size
        &&& u_new.color == u_old.color
        &&& u_new.position@ == translate_pts(u_old.position@, dx as int, dy as int)
    } else {
        u_new == u_old
    }
}

/// How a drag by the offset relates the new board to the old one: with
/// no selection nothing changes; with one, exactly the selected unit is
/// translated when the move is allowed, and nothing changes otherwise.
pub open spec fn spec_drag(
    gs_old: GameState,
    gs_new: GameState,
    sel: Option<SelectedUnit>,
    dx: i32,
    dy: i32,
) -> bool {
    &&& gs_new.terrains == gs_old.terrains
    &&& gs_new.underlays == gs_old.underlays
    &&& gs_new.overlays == gs_old.overlays
    &&& gs_new.game_id == gs_old.game_id
    &&& gs_new.units@.len() == gs_old.units@.len()
    &&& match sel {
        None => gs_new == gs_old,
        Some(s) => {
            &&& forall|j: int|
                #![trigger gs_old.units@[j]]
                0 <= j < gs_old.units@.len() && gs_old.units@[j].id != s.id ==> gs_new.units@[j]
                    == gs_old.units@[j]
            &&& forall|j: int|
                #![trigger gs_new.units@[j]]
                0 <= j < gs_old.units@.len() && gs_old.units@[j].id == s.id ==> moved_or_same(
                    gs_old,
                    gs_old.units@[j],
                    gs_new.units@[j],
                    dx,
                    dy,
                )
        },
    }
}

/// Index of the first unit carrying this id.
fn find_unit_index(units: &Vec<Unit>, id: u64) -> (r: Option<usize>)
    ensures
        r matches Some(i) ==> 0 <= i < units@.len() && units@[i as int].id == id,
        r is None ==> forall|j: int| 0 <= j < units@.len() ==> #[trigger] units@[j].id != id,
{
    let n = units.len();
    let mut i: usize = 0;
    while i < n
        invariant
            n == units.len(),
            0 <= i <= n,
            forall|j: int| 0 <= j < i ==> #[trigger] units@[j].id != id,
        decreases n - i,
    {
        if units[i].id == id {
            return Some(i);
        }
        i = i + 1;
    }
    None
}

/// Press at a point: from idle, hit-test the units and hold the first
/// hit together with the press point; a miss stays idle.  While a drag
/// is active a second press is ignored.
pub fn press(gs: &GameState, sel: &mut Option<SelectedUnit>, x: u32, y: u32)
    ensures
        *old(sel) is Some ==> *final(sel) == *old(sel),
        *old(sel) is None ==> *final(sel) == spec_press(*gs, x, y),
{
    if sel.is_some() {
        return ;
    }
    *sel = match find_item_at_point(&gs.units, x, y) {
        Some(uid) => Some(
            SelectedUnit {
                id: uid,
                game_id: gs.game_id,
                start_x: x,
                start_y: y,
                offset_x: 0,
                offset_y: 0,
            },
        ),
        None => None,
    };
}

/// Drag by an offset: move the selected unit relative to its current
/// anchor, or change nothing when there is no selection, the unit is
/// gone, a translated anchor would leave the board, or the moved shape
/// would overlap another unit or non-traversable terrain.  Every
/// rejection is a silent no-op.
pub fn drag(gs: &mut GameState, sel: &Option<SelectedUnit>, dx: i32, dy: i32)
    requires
        old(gs).wf(),
    ensures
        final(gs).wf(),
        spec_drag(*old(gs), *final(gs), *sel, dx, dy),
{
    let s = match *sel {
        Some(s) => s,
        None => {
            return ;
        },
    };
    let idx = match find_unit_index(&gs.units, s.id) {
        Some(i) => i,
        None => {
            return ;
        },
    };
    let pos_len = gs.units[idx].position.len();
    let mut newpts: Vec<Position> = Vec::new();
    let mut k: usize = 0;
    while k < pos_len
        invariant
            old(gs).wf(),
            gs == old(gs),
            *sel == Some(s),
            0 <= idx < gs.units@.len(),
            gs.units@[idx as int].id == s.id,
            pos_len == gs.units@[idx as int].position@.len(),
            0 <= k <= pos_len,
            newpts@ == translate_pts(
                gs.units@[idx as int].position@.take(k as int),
                dx as int,
                dy as int,
            ),
            forall|j: int|
                0 <= j < k ==> in_board(
                    #[trigger] gs.units@[idx as int].position@[j],
                    dx as int,
                    dy as int,
                ),
        decreases pos_len - k,
    {
        let p = gs.units[idx].position[k];
        let nx: i64 = p.x as i64 + dx as i64;
        let ny: i64 = p.y as i64 + dy as i64;
        if nx < 0 || nx > BOARD_WIDTH as i64 || ny < 0 || ny > BOARD_HEIGHT as i64 {
            proof {
                assert(!in_board(gs.units@[idx as int].position@[k as int], dx as int, dy as int));
                assert(!all_in_board(gs.units@[idx as int].position@, dx as int, dy as int));
                lemma_unchanged_is_drag(*gs, s, dx, dy, idx as int);
            }
            return ;
        }
        newpts.push(Position { x: nx as u32, y: ny as u32 });
        proof {
            assert(newpts@ =~= translate_pts(
                gs.units@[idx as int].position@.take(k + 1 as int),
                dx as int,
                dy as int,
            ));
        }
        k = k + 1;
    }
    proof {
        assert(gs.units@[idx as int].position@.take(pos_len as int) =~= gs.units@[idx as int].position@);
    }
    let moving_shape = gs.units[idx].shape_type;
    let blocked_by_unit = check_shape_collision_items(
        &moving_shape,
        &newpts,
        &gs.units[idx].size,
        &gs.units,
        Some(s.id),
    );
    if blocked_by_unit {
        proof {
            lemma_unchanged_is_drag(*gs, s, dx, dy, idx as int);
        }
        return ;
    }
    let blocked_by_terrain = check_shape_collision_items(
        &moving_shape,
        &newpts,
        &gs.units[idx].size,
        &gs.terrains,
        None,
    );
    if blocked_by_terrain {
        proof {
            lemma_unchanged_is_drag(*gs, s, dx, dy, idx as int);
        }
        return ;
    }
    proof {
        assert(spec_move_allowed(*gs, gs.units@[idx as int], dx as int, dy as int));
    }
    let mut u = gs.units.remove(idx);
    u.position = newpts;
    gs.units.insert(idx, u);
    proof {
        let su = old(gs).units@;
        let nu = gs.units@;
        assert(nu =~= su.update(idx as int, nu[idx as int]));
        assert forall|a: int, b: int|
            0 <= a < b < nu.len() implies #[trigger] nu[a].id != #[trigger] nu[b].id by {
            assert(nu[a].id == su[a].id);
            assert(nu[b].id == su[b].id);
        }
        assert forall|a: int| 0 <= a < nu.len() implies #[trigger] nu[a].game_id == gs.game_id by {
            assert(nu[a].game_id == su[a].game_id);
        }
        assert forall|j: int|
            #![trigger su[j]]
            0 <= j < su.len() && su[j].id == s.id implies j == idx as int by {
            if j != idx as int {
                assert(su[j].id != su[idx as int].id);
            }
        }
        assert(moved_or_same(*old(gs), su[idx as int], nu[idx as int], dx, dy));
    }
}

/// When the board is left untouched, the drag relation holds whatever
/// blocked the move of the unit at this index.
proof fn lemma_unchanged_is_drag(gs: GameState, s: SelectedUnit, dx: i32, dy: i32, idx: int)
    requires
        gs.wf(),
        0 <= idx < gs.units@.len(),
        gs.units@[idx].id == s.id,
        !spec_move_allowed(gs, gs.units@[idx], dx as int, dy as int),
    ensures
        spec_drag(gs, gs, Some(s), dx, dy),
{
    assert forall|j: int|
        #![trigger gs.units@[j]]
        0 <= j < gs.units@.len() && gs.units@[j].id == s.id implies moved_or_same(
        gs,
        gs.units@[j],
        gs.units@[j],
        dx,
        dy,
    ) by {
        if j != idx {
            assert(gs.units@[j].id != gs.units@[idx].id);
        }
        assert(gs.units@[j] == gs.units@[idx]);
        assert(!spec_move_allowed(gs, gs.units@[j], dx as int, dy as int));
    }
}

/// Release: clear the selection and return to idle, idempotently, from
/// any state.
pub fn release(sel: &mut Option<SelectedUnit>)
    ensures
        *final(sel) is None,
{
    *sel = None;
}

/// Dispatches one pointer event to the press, drag or release
/// transition.
pub fn handle_mouse_event(gs: &mut GameState, sel: &mut Option<SelectedUnit>, event: MouseEvent)
    requires
        old(gs).wf(),
    ensures
        final(gs).wf(),
        match event {
            MouseEvent::Down { x, y } => {
                &&& *final(gs) == *old(gs)
                &&& (*old(sel) is Some ==> *final(sel) == *old(sel))
                &&& (*old(sel) is None ==> *final(sel) == spec_press(*old(gs), x, y))
            },
            MouseEvent::Move { dx, dy } => {
                &&& *final(sel) == *old(sel)
                &&& spec_drag(*old(gs), *final(gs), *old(sel), dx, dy)
            },
            MouseEvent::Up => {
                &&& *final(gs) == *old(gs)
                &&& *final(sel) is None
            },
        },
{
    match event {
        MouseEvent::Down { x, y } => {
            press(gs, sel, x, y);
        },
        MouseEvent::Move { dx, dy } => {
            drag(gs, sel, dx, dy);
        },
        MouseEvent::Up => {
            release(sel);
        },
    }
}

} // verus!
