//! Record operations and exposed queries over one board.
//!
//! Every mutating operation works on the full record set of one board as
//! one atomic step; the host serializes them.  Adds assign the smallest
//! free id of the table; deletes of an absent id are no-ops.  The
//! queries rebuild their disposable scene from the current records on
//! every call.

use vstd::prelude::*;

use crate::allocator::AllocError;
use crate::allocator::allocate;
use crate::geometry::Position;
use crate::collider::ShapeType;
use crate::records::GameState;
use crate::records::Overlay;
use crate::records::Terrain;
use crate::records::Underlay;
use crate::records::Unit;
use crate::collider::ShapeModel;
use crate::collider::shape_contains;
use crate::collider::shapes_overlap;
use crate::collider::spec_collider;
use crate::scene::Collidable;
use crate::scene::check_shape_collision_items;
use crate::scene::find_item_at_point;
use crate::scene::lemma_hit_test_in_scene;
use crate::scene::lemma_scene_ids;
use crate::scene::lemma_scene_member;
use crate::scene::lemma_scene_push;
use crate::scene::scene_overlaps;
use crate::scene::spec_check_collision;
use crate::scene::spec_entry;
use crate::scene::spec_find_item;
use crate::scene::spec_scene;

verus! {

/// Some unit of the sequence carries this id.
pub open spec fn has_unit_id(units: Seq<Unit>, id: u64) -> bool {
    exists|i: int| 0 <= i < units.len() && #[trigger] units[i].id == id
}

/// Some terrain of the sequence carries this id.
pub open spec fn has_terrain_id(terrains: Seq<Terrain>, id: u64) -> bool {
    exists|i: int| 0 <= i < terrains.len() && #[trigger] terrains[i].id == id
}

/// Some underlay of the sequence carries this id.
pub open spec fn has_underlay_id(underlays: Seq<Underlay>, id: u64) -> bool {
    exists|i: int| 0 <= i < underlays.len() && #[trigger] underlays[i].id == id
}

/// Some overlay of the sequence carries this id.
pub open spec fn has_overlay_id(overlays: Seq<Overlay>, id: u64) -> bool {
    exists|i: int| 0 <= i < overlays.len() && #[trigger] overlays[i].id == id
}

fn collect_unit_ids(units: &Vec<Unit>) -> (ids: Vec<u64>)
    ensures
        ids@.len() == units@.len(),
        forall|j: int| 0 <= j < units@.len() ==> ids@[j] == #[trigger] units@[j].id,
{
    let n = units.len();
    let mut ids: Vec<u64> = Vec::new();
    let mut i: usize = 0;
    while i < n
        invariant
            n == units.len(),
            0 <= i <= n,
            ids@.len() == i,
            forall|j: int| 0 <= j < i ==> ids@[j] == #[trigger] units@[j].id,
        decreases n - i,
    {
        ids.push(units[i].id);
        i = i + 1;
    }
    ids
}

fn collect_terrain_ids(terrains: &Vec<Terrain>) -> (ids: Vec<u64>)
    ensures
        ids@.len() == terrains@.len(),
        forall|j: int| 0 <= j < terrains@.len() ==> ids@[j] == #[trigger] terrains@[j].id,
{
    let n = terrains.len();
    let mut ids: Vec<u64> = Vec::new();
    let mut i: usize = 0;
    while i < n
        invariant
            n == terrains.len(),
            0 <= i <= n,
            ids@.len() == i,
            forall|j: int| 0 <= j < i ==> ids@[j] == #[trigger] terrains@[j].id,
        decreases n - i,
    {
        ids.push(terrains[i].id);
        i = i + 1;
    }
    ids
}

fn collect_underlay_ids(underlays: &Vec<Underlay>) -> (ids: Vec<u64>)
    ensures
        ids@.len() == underlays@.len(),
        forall|j: int| 0 <= j < underlays@.len() ==> ids@[j] == #[trigger] underlays@[j].id,
{
    let n = underlays.len();
    let mut ids: Vec<u64> = Vec::new();
    let mut i: usize = 0;
    while i < n
        invariant
            n == underlays.len(),
            0 <= i <= n,
            ids@.len() == i,
            forall|j: int| 0 <= j < i ==> ids@[j] == #[trigger] underlays@[j].id,
        decreases n - i,
    {
        ids.push(underlays[i].id);
        i = i + 1;
    }
    ids
}

fn collect_overlay_ids(overlays: &Vec<Overlay>) -> (ids: Vec<u64>)
    ensures
        ids@.len() == overlays@.len(),
        forall|j: int| 0 <= j < overlays@.len() ==> ids@[j] == #[trigger] overlays@[j].id,
{
    let n = overlays.len();
    let mut ids: Vec<u64> = Vec::new();
    let mut i: usize = 0;
    while i < n
        invariant
            n == overlays.len(),
            0 <= i <= n,
            ids@.len() == i,
            forall|j: int| 0 <= j < i ==> ids@[j] == #[trigger] overlays@[j].id,
        decreases n - i,
    {
        ids.push(overlays[i].id);
        i = i + 1;
    }
    ids
}

/// Adds a unit under the smallest free unit id at or above 1; `Err`
/// exactly when the whole id space is taken.
pub fn add_unit(
    gs: &mut GameState,
    shape_type: ShapeType,
    size: Vec<u32>,
    color: String,
    position: Vec<Position>,
) -> (r: Result<u64, AllocError>)
    requires
        old(gs).wf(),
    ensures
        final(gs).wf(),
        final(gs).terrains == old(gs).terrains,
        final(gs).underlays == old(gs).underlays,
        final(gs).overlays == old(gs).overlays,
        final(gs).game_id == old(gs).game_id,
        r matches Ok(new_id) ==> {
            &&& new_id >= 1
            &&& !has_unit_id(old(gs).units@, new_id)
            &&& forall|k: u64| 1 <= k < new_id ==> has_unit_id(old(gs).units@, k)
            &&& final(gs).units@ == old(gs).units@.push(
                Unit {
                    id: new_id,
                    game_id: old(gs).game_id,
                    shape_type,
                    size,
                    color,
                    position,
                },
            )
        },
        r is Err <==> (forall|k: u64| 1 <= k ==> has_unit_id(old(gs).units@, k)),
        r is Err ==> final(gs).units == old(gs).units,
{
    let ids = collect_unit_ids(&gs.units);
    match allocate(1, &ids) {
        Ok(new_id) => {
            proof {
                assert forall|k: u64| 1 <= k < new_id implies has_unit_id(old(gs).units@, k) by {
                    assert(ids@.contains(k));
                    let j = choose|j: int| 0 <= j < ids@.len() && ids@[j] == k;
                    assert(old(gs).units@[j].id == k);
                }
                assert(!has_unit_id(old(gs).units@, new_id)) by {
                    if has_unit_id(old(gs).units@, new_id) {
                        let j = choose|j: int|
                            0 <= j < old(gs).units@.len() && #[trigger] old(gs).units@[j].id
                                == new_id;
                        assert(ids@[j] == new_id);
                        assert(ids@.contains(new_id));
                    }
                }
            }
            let u = Unit {
                id: new_id,
                game_id: gs.game_id,
                shape_type,
                size,
                color,
                position,
            };
            gs.units.push(u);
            Ok(new_id)
        },
        Err(e) => {
            proof {
                assert forall|k: u64| 1 <= k implies has_unit_id(old(gs).units@, k) by {
                    assert(ids@.contains(k));
                    let j = choose|j: int| 0 <= j < ids@.len() && ids@[j] == k;
                    assert(old(gs).units@[j].id == k);
                }
            }
            Err(e)
        },
    }
}

/// Adds a terrain region under the smallest free terrain id at or above
/// 1; `Err` exactly when the whole id space is taken.
pub fn add_terrain(
    gs: &mut GameState,
    shape_type: ShapeType,
    size: Vec<u32>,
    color: String,
    position: Vec<Position>,
    traversable: bool,
) -> (r: Result<u64, AllocError>)
    requires
        old(gs).wf(),
    ensures
        final(gs).wf(),
        final(gs).units == old(gs).units,
        final(gs).underlays == old(gs).underlays,
        final(gs).overlays == old(gs).overlays,
        final(gs).game_id == old(gs).game_id,
        r matches Ok(new_id) ==> {
            &&& new_id >= 1
            &&& !has_terrain_id(old(gs).terrains@, new_id)
            &&& forall|k: u64| 1 <= k < new_id ==> has_terrain_id(old(gs).terrains@, k)
            &&& final(gs).terrains@ == old(gs).terrains@.push(
                Terrain {
                    id: new_id,
                    game_id: old(gs).game_id,
                    shape_type,
                    size,
                    color,
                    position,
                    traversable,
                },
            )
        },
        r is Err <==> (forall|k: u64| 1 <= k ==> has_terrain_id(old(gs).terrains@, k)),
        r is Err ==> final(gs).terrains == old(gs).terrains,
{
    let ids = collect_terrain_ids(&gs.terrains);
    match allocate(1, &ids) {
        Ok(new_id) => {
            proof {
                assert forall|k: u64| 1 <= k < new_id implies has_terrain_id(old(gs).terrains@, k) by {
                    assert(ids@.contains(k));
                    let j = choose|j: int| 0 <= j < ids@.len() && ids@[j] == k;
                    assert(old(gs).terrains@[j].id == k);
                }
                assert(!has_terrain_id(old(gs).terrains@, new_id)) by {
                    if has_terrain_id(old(gs).terrains@, new_id) {
                        let j = choose|j: int|
                            0 <= j < old(gs).terrains@.len() && #[trigger] old(gs).terrains@[j].id
                                == new_id;
                        assert(ids@[j] == new_id);
                        assert(ids@.contains(new_id));
                    }
                }
            }
            let t = Terrain {
                id: new_id,
                game_id: gs.game_id,
                shape_type,
                size,
                color,
                position,
                traversable,
            };
            gs.terrains.push(t);
            Ok(new_id)
        },
        Err(e) => {
            proof {
                assert forall|k: u64| 1 <= k implies has_terrain_id(old(gs).terrains@, k) by {
                    assert(ids@.contains(k));
                    let j = choose|j: int| 0 <= j < ids@.len() && ids@[j] == k;
                    assert(old(gs).terrains@[j].id == k);
                }
            }
            Err(e)
        },
    }
}

/// Adds an underlay under the smallest free underlay id at or above 1;
/// `Err` exactly when the whole id space is taken.
pub fn add_underlay(
    gs: &mut GameState,
    shape_type: ShapeType,
    size: Vec<u32>,
    color: String,
    position: Vec<Position>,
) -> (r: Result<u64, AllocError>)
    requires
        old(gs).wf(),
    ensures
        final(gs).wf(),
        final(gs).units == old(gs).units,
        final(gs).terrains == old(gs).terrains,
        final(gs).overlays == old(gs).overlays,
        final(gs).game_id == old(gs).game_id,
        r matches Ok(new_id) ==> {
            &&& new_id >= 1
            &&& !has_underlay_id(old(gs).underlays@, new_id)
            &&& forall|k: u64| 1 <= k < new_id ==> has_underlay_id(old(gs).underlays@, k)
            &&& final(gs).underlays@ == old(gs).underlays@.push(
                Underlay {
                    id: new_id,
                    game_id: old(gs).game_id,
                    shape_type,
                    size,
                    color,
                    position,
                },
            )
        },
        r is Err <==> (forall|k: u64| 1 <= k ==> has_underlay_id(old(gs).underlays@, k)),
        r is Err ==> final(gs).underlays == old(gs).underlays,
{
    let ids = collect_underlay_ids(&gs.underlays);
    match allocate(1, &ids) {
        Ok(new_id) => {
            proof {
                assert forall|k: u64| 1 <= k < new_id implies has_underlay_id(old(gs).underlays@, k) by {
                    assert(ids@.contains(k));
                    let j = choose|j: int| 0 <= j < ids@.len() && ids@[j] == k;
                    assert(old(gs).underlays@[j].id == k);
                }
                assert(!has_underlay_id(old(gs).underlays@, new_id)) by {
                    if has_underlay_id(old(gs).underlays@, new_id) {
                        let j = choose|j: int|
                            0 <= j < old(gs).underlays@.len() && #[trigger] old(gs).underlays@[j].id
                                == new_id;
                        assert(ids@[j] == new_id);
                        assert(ids@.contains(new_id));
                    }
                }
            }
            let u = Underlay {
                id: new_id,
                game_id: gs.game_id,
                shape_type,
                size,
                color,
                position,
            };
            gs.underlays.push(u);
            Ok(new_id)
        },
        Err(e) => {
            proof {
                assert forall|k: u64| 1 <= k implies has_underlay_id(old(gs).underlays@, k) by {
                    assert(ids@.contains(k));
                    let j = choose|j: int| 0 <= j < ids@.len() && ids@[j] == k;
                    assert(old(gs).underlays@[j].id == k);
                }
            }
            Err(e)
        },
    }
}

/// Adds an overlay under the smallest free overlay id at or above 1;
/// `Err` exactly when the whole id space is taken.
pub fn add_overlay(
    gs: &mut GameState,
    shape_type: ShapeType,
    size: Vec<u32>,
    color: String,
    position: Vec<Position>,
) -> (r: Result<u64, AllocError>)
    requires
        old(gs).wf(),
    ensures
        final(gs).wf(),
        final(gs).units == old(gs).units,
        final(gs).terrains == old(gs).terrains,
        final(gs).underlays == old(gs).underlays,
        final(gs).game_id == old(gs).game_id,
        r matches Ok(new_id) ==> {
            &&& new_id >= 1
            &&& !has_overlay_id(old(gs).overlays@, new_id)
            &&& forall|k: u64| 1 <= k < new_id ==> has_overlay_id(old(gs).overlays@, k)
            &&& final(gs).overlays@ == old(gs).overlays@.push(
                Overlay {
                    id: new_id,
                    game_id: old(gs).game_id,
                    shape_type,
                    size,
                    color,
                    position,
                },
            )
        },
        r is Err <==> (forall|k: u64| 1 <= k ==> has_overlay_id(old(gs).overlays@, k)),
        r is Err ==> final(gs).overlays == old(gs).overlays,
{
    let ids = collect_overlay_ids(&gs.overlays);
    match allocate(1, &ids) {
        Ok(new_id) => {
            proof {
                assert forall|k: u64| 1 <= k < new_id implies has_overlay_id(old(gs).overlays@, k) by {
                    assert(ids@.contains(k));
                    let j = choose|j: int| 0 <= j < ids@.len() && ids@[j] == k;
                    assert(old(gs).overlays@[j].id == k);
                }
                assert(!has_overlay_id(old(gs).overlays@, new_id)) by {
                    if has_overlay_id(old(gs).overlays@, new_id) {
                        let j = choose|j: int|
                            0 <= j < old(gs).overlays@.len() && #[trigger] old(gs).overlays@[j].id
                                == new_id;
                        assert(ids@[j] == new_id);
                        assert(ids@.contains(new_id));
                    }
                }
            }
            let o = Overlay {
                id: new_id,
                game_id: gs.game_id,
                shape_type,
                size,
                color,
                position,
            };
            gs.overlays.push(o);
            Ok(new_id)
        },
        Err(e) => {
            proof {
                assert forall|k: u64| 1 <= k implies has_overlay_id(old(gs).overlays@, k) by {
                    assert(ids@.contains(k));
                    let j = choose|j: int| 0 <= j < ids@.len() && ids@[j] == k;
                    assert(old(gs).overlays@[j].id == k);
                }
            }
            Err(e)
        },
    }
}

/// Deletes the unit carrying this id; a miss is a no-op.
pub fn delete_unit(gs: &mut GameState, unit_id: u64) -> (found: bool)
    requires
        old(gs).wf(),
    ensures
        final(gs).wf(),
        final(gs).terrains == old(gs).terrains,
        final(gs).underlays == old(gs).underlays,
        final(gs).overlays == old(gs).overlays,
        final(gs).game_id == old(gs).game_id,
        found <==> has_unit_id(old(gs).units@, unit_id),
        !found ==> final(gs).units == old(gs).units,
        found ==> exists|i: int|
            0 <= i < old(gs).units@.len() && old(gs).units@[i].id == unit_id && final(gs).units@
                == old(gs).units@.remove(i),
{
    let n = gs.units.len();
    let mut i: usize = 0;
    while i < n
        invariant
            old(gs).wf(),
            gs == old(gs),
            n == gs.units.len(),
            0 <= i <= n,
            forall|j: int| 0 <= j < i ==> #[trigger] gs.units@[j].id != unit_id,
        decreases n - i,
    {
        if gs.units[i].id == unit_id {
            proof {
                assert(gs.units@[i as int].id == unit_id);
            }
            gs.units.remove(i);
            return true;
        }
        i = i + 1;
    }
    false
}

/// Deletes the terrain carrying this id; a miss is a no-op.
pub fn delete_terrain(gs: &mut GameState, terrain_id: u64) -> (found: bool)
    requires
        old(gs).wf(),
    ensures
        final(gs).wf(),
        final(gs).units == old(gs).units,
        final(gs).underlays == old(gs).underlays,
        final(gs).overlays == old(gs).overlays,
        final(gs).game_id == old(gs).game_id,
        found <==> has_terrain_id(old(gs).terrains@, terrain_id),
        !found ==> final(gs).terrains == old(gs).terrains,
        found ==> exists|i: int|
            0 <= i < old(gs).terrains@.len() && old(gs).terrains@[i].id == terrain_id && final(gs).terrains@ == old(gs).terrains@.remove(i),
{
    let n = gs.terrains.len();
    let mut i: usize = 0;
    while i < n
        invariant
            old(gs).wf(),
            gs == old(gs),
            n == gs.terrains.len(),
            0 <= i <= n,
            forall|j: int| 0 <= j < i ==> #[trigger] gs.terrains@[j].id != terrain_id,
        decreases n - i,
    {
        if gs.terrains[i].id == terrain_id {
            proof {
                assert(gs.terrains@[i as int].id == terrain_id);
            }
            gs.terrains.remove(i);
            return true;
        }
        i = i + 1;
    }
    false
}

/// Deletes the underlay carrying this id; a miss is a no-op.
pub fn delete_underlay(gs: &mut GameState, underlay_id: u64) -> (found: bool)
    requires
        old(gs).wf(),
    ensures
        final(gs).wf(),
        final(gs).units == old(gs).units,
        final(gs).terrains == old(gs).terrains,
        final(gs).overlays == old(gs).overlays,
        final(gs).game_id == old(gs).game_id,
        found <==> has_underlay_id(old(gs).underlays@, underlay_id),
        !found ==> final(gs).underlays == old(gs).underlays,
        found ==> exists|i: int|
            0 <= i < old(gs).underlays@.len() && old(gs).underlays@[i].id == underlay_id && final(gs).underlays@ == old(gs).underlays@.remove(i),
{
    let n = gs.underlays.len();
    let mut i: usize = 0;
    while i < n
        invariant
            old(gs).wf(),
            gs == old(gs),
            n == gs.underlays.len(),
            0 <= i <= n,
            forall|j: int| 0 <= j < i ==> #[trigger] gs.underlays@[j].id != underlay_id,
        decreases n - i,
    {
        if gs.underlays[i].id == underlay_id {
            proof {
                assert(gs.underlays@[i as int].id == underlay_id);
            }
            gs.underlays.remove(i);
            return true;
        }
        i = i + 1;
    }
    false
}

/// Deletes the overlay carrying this id; a miss is a no-op.
pub fn delete_overlay(gs: &mut GameState, overlay_id: u64) -> (found: bool)
    requires
        old(gs).wf(),
    ensures
        final(gs).wf(),
        final(gs).units == old(gs).units,
        final(gs).terrains == old(gs).terrains,
        final(gs).underlays == old(gs).underlays,
        final(gs).game_id == old(gs).game_id,
        found <==> has_overlay_id(old(gs).overlays@, overlay_id),
        !found ==> final(gs).overlays == old(gs).overlays,
        found ==> exists|i: int|
            0 <= i < old(gs).overlays@.len() && old(gs).overlays@[i].id == overlay_id && final(gs).overlays@ == old(gs).overlays@.remove(i),
{
    let n = gs.overlays.len();
    let mut i: usize = 0;
    while i < n
        invariant
            old(gs).wf(),
            gs == old(gs),
            n == gs.overlays.len(),
            0 <= i <= n,
            forall|j: int| 0 <= j < i ==> #[trigger] gs.overlays@[j].id != overlay_id,
        decreases n - i,
    {
        if gs.overlays[i].id == overlay_id {
            proof {
                assert(gs.overlays@[i as int].id == overlay_id);
            }
            gs.overlays.remove(i);
            return true;
        }
        i = i + 1;
    }
    false
}

/// Clears every unit and terrain of the board; underlays and overlays
/// stay.
pub fn delete_all(gs: &mut GameState)
    requires
        old(gs).wf(),
    ensures
        final(gs).wf(),
        final(gs).units@.len() == 0,
        final(gs).terrains@.len() == 0,
        final(gs).underlays == old(gs).underlays,
        final(gs).overlays == old(gs).overlays,
        final(gs).game_id == old(gs).game_id,
{
    gs.units = Vec::new();
    gs.terrains = Vec::new();
}

/// The unit that carries this id.
pub open spec fn selected_unit_of(gs: GameState, unit_id: u64) -> Unit
    recommends
        has_unit_id(gs.units@, unit_id),
{
    gs.units@[choose|i: int| 0 <= i < gs.units@.len() && #[trigger] gs.units@[i].id == unit_id]
}

/// A move of the unit carrying `unit_id` to the proposed anchor points
/// is legal: the unit exists, and the candidate placement overlaps
/// neither any other unit nor any non-traversable terrain.  Each check
/// is independent; traversable terrain never blocks, and an inert
/// candidate overlaps nothing.
pub open spec fn spec_validate_move(gs: GameState, unit_id: u64, proposed: Seq<Position>) -> bool {
    &&& has_unit_id(gs.units@, unit_id)
    &&& !spec_check_collision(
        selected_unit_of(gs, unit_id).shape_type,
        proposed,
        selected_unit_of(gs, unit_id).size@,
        gs.units@,
        Some(unit_id),
    )
    &&& !spec_check_collision(
        selected_unit_of(gs, unit_id).shape_type,
        proposed,
        selected_unit_of(gs, unit_id).size@,
        gs.terrains@,
        None,
    )
}

/// A move is legal iff the moved shape, placed at the proposed anchor
/// points, overlaps neither the other units nor any non-traversable
/// terrain; see `spec_validate_move`.  A missing unit is never legal to
/// move.
pub fn validate_move(gs: &GameState, unit_id: u64, proposed_anchor: &Vec<Position>) -> (legal:
    bool)
    requires
        gs.wf(),
    ensures
        legal == spec_validate_move(*gs, unit_id, proposed_anchor@),
{
    let n = gs.units.len();
    let mut i: usize = 0;
    while i < n
        invariant
            gs.wf(),
            n == gs.units.len(),
            0 <= i <= n,
            forall|j: int| 0 <= j < i ==> #[trigger] gs.units@[j].id != unit_id,
        decreases n - i,
    {
        if gs.units[i].id == unit_id {
            proof {
                assert(gs.units@[i as int].id == unit_id);
                assert(has_unit_id(gs.units@, unit_id));
                let ci = choose|ci: int|
                    0 <= ci < gs.units@.len() && #[trigger] gs.units@[ci].id == unit_id;
                if ci < i as int {
                    assert(gs.units@[ci].id != gs.units@[i as int].id);
                    assert(false);
                } else if ci > i as int {
                    assert(gs.units@[i as int].id != gs.units@[ci].id);
                    assert(false);
                }
                assert(selected_unit_of(*gs, unit_id) == gs.units@[i as int]);
            }
            let moving_shape = gs.units[i].shape_type;
            let c1 = check_shape_collision_items(
                &moving_shape,
                proposed_anchor,
                &gs.units[i].size,
                &gs.units,
                Some(unit_id),
            );
            let c2 = check_shape_collision_items(
                &moving_shape,
                proposed_anchor,
                &gs.units[i].size,
                &gs.terrains,
                None,
            );
            return !c1 && !c2;
        }
        i = i + 1;
    }
    proof {
        assert(!has_unit_id(gs.units@, unit_id));
    }
    false
}

/// The kind of record a point query may land on.
#[derive(Clone, Copy, Debug, PartialEq, Eq, Structural)]
pub enum RecordKind {
    Unit,
    Terrain,
}

/// The id of the first unit whose collider contains the point, or none.
pub fn pick(gs: &GameState, x: u32, y: u32) -> (r: Option<u64>)
    ensures
        r == spec_find_item(gs.units@, x, y),
{
    find_item_at_point(&gs.units, x, y)
}

/// The first unit whose collider contains the point; failing that, the
/// first terrain.
pub open spec fn spec_pick_any_kind(gs: GameState, x: u32, y: u32) -> Option<(RecordKind, u64)> {
    match spec_find_item(gs.units@, x, y) {
        Some(uid) => Some((RecordKind::Unit, uid)),
        None => match spec_find_item(gs.terrains@, x, y) {
            Some(tid) => Some((RecordKind::Terrain, tid)),
            None => None,
        },
    }
}

/// Finds the record under a point: units are searched before terrain,
/// each in record order.
pub fn pick_any_kind(gs: &GameState, x: u32, y: u32) -> (r: Option<(RecordKind, u64)>)
    ensures
        r == spec_pick_any_kind(*gs, x, y),
{
    match find_item_at_point(&gs.units, x, y) {
        Some(uid) => Some((RecordKind::Unit, uid)),
        None => match find_item_at_point(&gs.terrains, x, y) {
            Some(tid) => Some((RecordKind::Terrain, tid)),
            None => None,
        },
    }
}

/// Deletes the record under a point: the first unit hit, failing that
/// the first terrain hit, failing that nothing.
pub fn delete_at_coordinates(gs: &mut GameState, x: u32, y: u32)
    requires
        old(gs).wf(),
    ensures
        final(gs).wf(),
        final(gs).underlays == old(gs).underlays,
        final(gs).overlays == old(gs).overlays,
        final(gs).game_id == old(gs).game_id,
        match spec_find_item(old(gs).units@, x, y) {
            Some(uid) => {
                &&& final(gs).terrains == old(gs).terrains
                &&& exists|i: int|
                    0 <= i < old(gs).units@.len() && old(gs).units@[i].id == uid && final(gs).units@ == old(gs).units@.remove(i)
            },
            None => {
                &&& final(gs).units == old(gs).units
                &&& match spec_find_item(old(gs).terrains@, x, y) {
                    Some(tid) => exists|i: int|
                        0 <= i < old(gs).terrains@.len() && old(gs).terrains@[i].id == tid
                            && final(gs).terrains@ == old(gs).terrains@.remove(i),
                    None => final(gs).terrains == old(gs).terrains,
                }
            },
        },
{
    let hit = find_item_at_point(&gs.units, x, y);
    if let Some(uid) = hit {
        proof {
            let p = Position { x, y };
            let sc = spec_scene(gs.units@, false, None);
            lemma_hit_test_in_scene(sc, p);
            let k = choose|k: int|
                0 <= k < sc.len() && #[trigger] sc[k].0 == uid && shape_contains(sc[k].1, p);
            lemma_scene_ids(gs.units@, false, None);
            let j = choose|j: int| 0 <= j < gs.units@.len() && gs.units@[j].s_id() == sc[k].0;
            assert(gs.units@[j].id == uid);
            assert(has_unit_id(gs.units@, uid));
        }
        delete_unit(gs, uid);
        return ;
    }
    let hit2 = find_item_at_point(&gs.terrains, x, y);
    if let Some(tid) = hit2 {
        proof {
            let p = Position { x, y };
            let sc = spec_scene(gs.terrains@, false, None);
            lemma_hit_test_in_scene(sc, p);
            let k = choose|k: int|
                0 <= k < sc.len() && #[trigger] sc[k].0 == tid && shape_contains(sc[k].1, p);
            lemma_scene_ids(gs.terrains@, false, None);
            let j = choose|j: int|
                0 <= j < gs.terrains@.len() && gs.terrains@[j].s_id() == sc[k].0;
            assert(gs.terrains@[j].id == tid);
            assert(has_terrain_id(gs.terrains@, tid));
        }
        delete_terrain(gs, tid);
    }
}

/// Moving a unit onto another unit is always rejected: whenever the
/// candidate placement's collider overlaps the collider of any other
/// unit, the move is illegal.
pub proof fn lemma_move_onto_unit_rejected(
    gs: GameState,
    unit_id: u64,
    proposed: Seq<Position>,
    j: int,
)
    requires
        gs.wf(),
        has_unit_id(gs.units@, unit_id),
        0 <= j < gs.units@.len(),
        gs.units@[j].id != unit_id,
        spec_collider(
            selected_unit_of(gs, unit_id).shape_type,
            proposed,
            selected_unit_of(gs, unit_id).size@,
        ) is Some,
        spec_collider(
            gs.units@[j].shape_type,
            gs.units@[j].position@,
            gs.units@[j].size@,
        ) is Some,
        shapes_overlap(
            spec_collider(
                selected_unit_of(gs, unit_id).shape_type,
                proposed,
                selected_unit_of(gs, unit_id).size@,
            ).unwrap(),
            spec_collider(
                gs.units@[j].shape_type,
                gs.units@[j].position@,
                gs.units@[j].size@,
            ).unwrap(),
        ),
    ensures
        !spec_validate_move(gs, unit_id, proposed),
{
    let cand = spec_collider(
        selected_unit_of(gs, unit_id).shape_type,
        proposed,
        selected_unit_of(gs, unit_id).size@,
    ).unwrap();
    let other = spec_collider(
        gs.units@[j].shape_type,
        gs.units@[j].position@,
        gs.units@[j].size@,
    ).unwrap();
    lemma_scene_member(gs.units@, true, Some(unit_id), j);
    let sc = spec_scene(gs.units@, true, Some(unit_id));
    let v = (gs.units@[j].s_id(), other);
    let k = choose|k: int| 0 <= k < sc.len() && sc[k] == v;
    assert(shapes_overlap(cand, sc[k].1));
    assert(scene_overlaps(cand, sc));
}

/// Moving a unit onto non-traversable terrain is rejected: whenever the
/// candidate placement's collider overlaps the collider of any solid
/// terrain region, the move is illegal.
pub proof fn lemma_move_onto_solid_terrain_rejected(
    gs: GameState,
    unit_id: u64,
    proposed: Seq<Position>,
    j: int,
)
    requires
        gs.wf(),
        has_unit_id(gs.units@, unit_id),
        0 <= j < gs.terrains@.len(),
        !gs.terrains@[j].traversable,
        spec_collider(
            selected_unit_of(gs, unit_id).shape_type,
            proposed,
            selected_unit_of(gs, unit_id).size@,
        ) is Some,
        spec_collider(
            gs.terrains@[j].shape_type,
            gs.terrains@[j].position@,
            gs.terrains@[j].size@,
        ) is Some,
        shapes_overlap(
            spec_collider(
                selected_unit_of(gs, unit_id).shape_type,
                proposed,
                selected_unit_of(gs, unit_id).size@,
            ).unwrap(),
            spec_collider(
                gs.terrains@[j].shape_type,
                gs.terrains@[j].position@,
                gs.terrains@[j].size@,
            ).unwrap(),
        ),
    ensures
        !spec_validate_move(gs, unit_id, proposed),
{
    let cand = spec_collider(
        selected_unit_of(gs, unit_id).shape_type,
        proposed,
        selected_unit_of(gs, unit_id).size@,
    ).unwrap();
    let other = spec_collider(
        gs.terrains@[j].shape_type,
        gs.terrains@[j].position@,
        gs.terrains@[j].size@,
    ).unwrap();
    lemma_scene_member(gs.terrains@, true, None, j);
    let sc = spec_scene(gs.terrains@, true, None);
    let v = (gs.terrains@[j].s_id(), other);
    let k = choose|k: int| 0 <= k < sc.len() && sc[k] == v;
    assert(shapes_overlap(cand, sc[k].1));
    assert(scene_overlaps(cand, sc));
}

/// Traversable terrain never blocks: adding a traversable terrain
/// region leaves the legality of every move unchanged.
pub proof fn lemma_traversable_terrain_ignored(
    gs: GameState,
    gs2: GameState,
    unit_id: u64,
    proposed: Seq<Position>,
    t: Terrain,
)
    requires
        t.traversable,
        gs2.units == gs.units,
        gs2.terrains@ == gs.terrains@.push(t),
    ensures
        spec_validate_move(gs2, unit_id, proposed) == spec_validate_move(gs, unit_id, proposed),
{
    lemma_scene_push(gs.terrains@, true, None, t);
    assert(spec_entry(t, true, None) =~= Seq::<(u64, ShapeModel)>::empty());
    assert(spec_scene(gs2.terrains@, true, None) =~= spec_scene(gs.terrains@, true, None));
    assert(gs2.units@ == gs.units@);
    assert(selected_unit_of(gs2, unit_id) == selected_unit_of(gs, unit_id));
}

} // verus!
