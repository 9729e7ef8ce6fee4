//! The intersection query service.
//!
//! The engine is polymorphic over any record type exposing the collidable
//! view (`Collidable`).  A `Scene` is the disposable set of positioned
//! colliders built from an ordered record sequence by one pass of
//! `build_colliders`, together with each collider's originating record
//! id; it is rebuilt fresh for every query and never cached.  Two
//! stateless queries answer over a scene: `overlaps` and `hit_test`.

use vstd::prelude::*;

use crate::collider::Shape;
use crate::collider::ShapeModel;
use crate::collider::ShapeType;
use crate::collider::create_shape_obj;
use crate::collider::shape_contains;
use crate::collider::shape_contains_ex;
use crate::collider::shape_wf;
use crate::collider::shapes_overlap;
use crate::collider::shapes_overlap_ex;
use crate::collider::spec_collider;
use crate::geometry::Position;

verus! {

/// The read-only projection every record kind exposes to the engine:
/// identity, shape kind, anchor points, dimensions, and whether units may
/// pass through it.
pub trait Collidable {
    /// The record's identity.
    spec fn s_id(&self) -> u64;

    /// The record's shape kind.
    spec fn s_shape_type(&self) -> ShapeType;

    /// The record's anchor points.
    spec fn s_position(&self) -> Seq<Position>;

    /// The record's dimensions.
    spec fn s_size(&self) -> Seq<u32>;

    /// Whether units may occupy the same space as this record.
    spec fn s_traversable(&self) -> bool;

    fn id(&self) -> (r: u64)
        ensures
            r == self.s_id(),
    ;

    fn shape_type(&self) -> (r: &ShapeType)
        ensures
            *r == self.s_shape_type(),
    ;

    fn position(&self) -> (r: &Vec<Position>)
        ensures
            r@ == self.s_position(),
    ;

    fn size(&self) -> (r: &Vec<u32>)
        ensures
            r@ == self.s_size(),
    ;

    fn traversable(&self) -> (r: bool)
        ensures
            r == self.s_traversable(),
    ;
}

/// A disposable scene: positioned colliders in record order, each paired
/// with its originating record id.
pub struct Scene {
    pub entries: Vec<(u64, Shape)>,
}

impl View for Scene {
    type V = Seq<(u64, ShapeModel)>;

    open spec fn view(&self) -> Seq<(u64, ShapeModel)> {
        self.entries@.map_values(|e: (u64, Shape)| (e.0, e.1@))
    }
}

/// Every collider of the scene is well-formed.
pub open spec fn scene_wf(s: Seq<(u64, ShapeModel)>) -> bool {
    forall|i: int| 0 <= i < s.len() ==> shape_wf(#[trigger] s[i].1)
}

/// A record is left out of a scene: it is the excluded mover itself, or
/// the scene skips traversable records and the record is traversable.
pub open spec fn spec_skipped<T: Collidable>(
    item: T,
    traversable_check: bool,
    skip_id: Option<u64>,
) -> bool {
    ||| (skip_id matches Some(sid) && item.s_id() == sid)
    ||| (traversable_check && item.s_traversable())
}

/// The scene entries one record contributes: none when it is skipped or
/// inert, else its positioned collider under its id.
pub open spec fn spec_entry<T: Collidable>(
    item: T,
    traversable_check: bool,
    skip_id: Option<u64>,
) -> Seq<(u64, ShapeModel)> {
    if spec_skipped(item, traversable_check, skip_id) {
        Seq::empty()
    } else {
        match spec_collider(item.s_shape_type(), item.s_position(), item.s_size()) {
            None => Seq::empty(),
            Some(m) => seq![(item.s_id(), m)],
        }
    }
}

/// The scene an ordered record sequence yields, in record order.
pub open spec fn spec_scene<T: Collidable>(
    items: Seq<T>,
    traversable_check: bool,
    skip_id: Option<u64>,
) -> Seq<(u64, ShapeModel)>
    decreases items.len(),
{
    if items.len() == 0 {
        Seq::empty()
    } else {
        spec_entry(items[0], traversable_check, skip_id) + spec_scene(
            items.skip(1),
            traversable_check,
            skip_id,
        )
    }
}

/// Appending a record appends its scene entries.
pub proof fn lemma_scene_push<T: Collidable>(
    items: Seq<T>,
    traversable_check: bool,
    skip_id: Option<u64>,
    x: T,
)
    ensures
        spec_scene(items.push(x), traversable_check, skip_id) == spec_scene(
            items,
            traversable_check,
            skip_id,
        ) + spec_entry(x, traversable_check, skip_id),
    decreases items.len(),
{
    if items.len() == 0 {
        assert(items.push(x).skip(1) =~= items);
        assert(items.push(x)[0] == x);
        assert(spec_scene(items, traversable_check, skip_id) == Seq::<(u64, ShapeModel)>::empty());
        assert(spec_scene(items.push(x), traversable_check, skip_id) =~= spec_scene(
            items,
            traversable_check,
            skip_id,
        ) + spec_entry(x, traversable_check, skip_id));
    } else {
        assert(items.push(x).skip(1) =~= items.skip(1).push(x));
        lemma_scene_push(items.skip(1), traversable_check, skip_id, x);
        assert(items.push(x)[0] == items[0]);
        assert(spec_scene(items.push(x), traversable_check, skip_id) =~= spec_scene(
            items,
            traversable_check,
            skip_id,
        ) + spec_entry(x, traversable_check, skip_id));
    }
}

/// Every entry a record sequence yields holds a well-formed collider.
pub proof fn lemma_scene_wf<T: Collidable>(
    items: Seq<T>,
    traversable_check: bool,
    skip_id: Option<u64>,
)
    ensures
        scene_wf(spec_scene(items, traversable_check, skip_id)),
    decreases items.len(),
{
    if items.len() > 0 {
        lemma_scene_wf(items.skip(1), traversable_check, skip_id);
    }
}

/// Builds the disposable scene for an ordered record sequence: skipped
/// and inert records contribute nothing, every other record its
/// positioned collider, in record order.
pub fn build_colliders<T: Collidable>(
    items: &Vec<T>,
    traversable_check: bool,
    skip_id: Option<u64>,
) -> (scene: Scene)
    ensures
        scene@ == spec_scene(items@, traversable_check, skip_id),
{
    let n = items.len();
    let mut entries: Vec<(u64, Shape)> = Vec::new();
    let mut i: usize = 0;
    while i < n
        invariant
            n == items.len(),
            0 <= i <= n,
            entries@.map_values(|e: (u64, Shape)| (e.0, e.1@)) == spec_scene(
                items@.take(i as int),
                traversable_check,
                skip_id,
            ),
        decreases n - i,
    {
        let it = &items[i];
        let ghost prev = entries@.map_values(|e: (u64, Shape)| (e.0, e.1@));
        proof {
            lemma_scene_push(items@.take(i as int), traversable_check, skip_id, items@[i as int]);
            assert(items@.take(i + 1 as int) =~= items@.take(i as int).push(items@[i as int]));
        }
        let mut skip = false;
        if let Some(sid) = skip_id {
            if it.id() == sid {
                skip = true;
            }
        }
        if !skip && traversable_check && it.traversable() {
            skip = true;
        }
        if !skip {
            match create_shape_obj(it.shape_type(), it.position(), it.size()) {
                Some(sh) => {
                    let rid = it.id();
                    entries.push((rid, sh));
                    proof {
                        assert(entries@.map_values(|e: (u64, Shape)| (e.0, e.1@)) =~= prev + seq![
                            (rid, sh@),
                        ]);
                        assert(spec_entry(items@[i as int], traversable_check, skip_id) =~= seq![
                            (rid, sh@),
                        ]);
                    }
                },
                None => {
                    proof {
                        assert(spec_entry(items@[i as int], traversable_check, skip_id) =~= Seq::<
                            (u64, ShapeModel),
                        >::empty());
                        assert(prev + spec_entry(items@[i as int], traversable_check, skip_id)
                            =~= prev);
                    }
                },
            }
        } else {
            proof {
                assert(spec_skipped(items@[i as int], traversable_check, skip_id));
                assert(prev + spec_entry(items@[i as int], traversable_check, skip_id) =~= prev);
            }
        }
        i = i + 1;
    }
    proof {
        assert(items@.take(n as int) =~= items@);
    }
    Scene { entries }
}

/// A record that is neither skipped nor inert puts its collider, under
/// its id, into the scene.
pub proof fn lemma_scene_member<T: Collidable>(
    items: Seq<T>,
    traversable_check: bool,
    skip_id: Option<u64>,
    j: int,
)
    requires
        0 <= j < items.len(),
        !spec_skipped(items[j], traversable_check, skip_id),
        spec_collider(items[j].s_shape_type(), items[j].s_position(), items[j].s_size()) is Some,
    ensures
        spec_scene(items, traversable_check, skip_id).contains(
            (
                items[j].s_id(),
                spec_collider(
                    items[j].s_shape_type(),
                    items[j].s_position(),
                    items[j].s_size(),
                ).unwrap(),
            ),
        ),
    decreases j,
{
    let e = spec_entry(items[0], traversable_check, skip_id);
    let rest = spec_scene(items.skip(1), traversable_check, skip_id);
    let scene = spec_scene(items, traversable_check, skip_id);
    if j == 0 {
        assert(scene[0] == (
            items[0].s_id(),
            spec_collider(items[0].s_shape_type(), items[0].s_position(), items[0].s_size()).unwrap(),
        ));
    } else {
        lemma_scene_member(items.skip(1), traversable_check, skip_id, j - 1);
        assert(items.skip(1)[j - 1] == items[j]);
        let v = (
            items[j].s_id(),
            spec_collider(items[j].s_shape_type(), items[j].s_position(), items[j].s_size()).unwrap(),
        );
        let k = choose|k: int| 0 <= k < rest.len() && rest[k] == v;
        assert(scene[e.len() + k] == v);
    }
}

/// Every scene entry's id is the id of some record of the sequence.
pub proof fn lemma_scene_ids<T: Collidable>(items: Seq<T>, traversable_check: bool, skip_id: Option<u64>)
    ensures
        forall|k: int|
            0 <= k < spec_scene(items, traversable_check, skip_id).len() ==> exists|i: int|
                0 <= i < items.len() && items[i].s_id() == #[trigger] spec_scene(
                    items,
                    traversable_check,
                    skip_id,
                )[k].0,
    decreases items.len(),
{
    if items.len() > 0 {
        lemma_scene_ids(items.skip(1), traversable_check, skip_id);
        let e = spec_entry(items[0], traversable_check, skip_id);
        let rest = spec_scene(items.skip(1), traversable_check, skip_id);
        let scene = spec_scene(items, traversable_check, skip_id);
        assert forall|k: int| 0 <= k < scene.len() implies exists|i: int|
            0 <= i < items.len() && items[i].s_id() == #[trigger] scene[k].0 by {
            if k < e.len() {
                assert(scene[k] == e[k]);
                assert(0 <= 0 < items.len() && items[0].s_id() == scene[k].0);
            } else {
                let k2 = k - e.len();
                assert(scene[k] == rest[k2]);
                let i = choose|i: int|
                    0 <= i < items.skip(1).len() && items.skip(1)[i].s_id() == rest[k2].0;
                assert(items.skip(1)[i] == items[i + 1]);
                assert(0 <= i + 1 < items.len() && items[i + 1].s_id() == scene[k].0);
            }
        }
    }
}

/// A hit returns the id of a scene member that contains the point.
pub proof fn lemma_hit_test_in_scene(scene: Seq<(u64, ShapeModel)>, p: Position)
    ensures
        spec_hit_test(scene, p) matches Some(id) ==> exists|i: int|
            0 <= i < scene.len() && #[trigger] scene[i].0 == id && shape_contains(scene[i].1, p),
    decreases scene.len(),
{
    if scene.len() > 0 {
        if shape_contains(scene[0].1, p) {
            assert(scene[0].0 == scene[0].0 && shape_contains(scene[0].1, p));
        } else {
            lemma_hit_test_in_scene(scene.skip(1), p);
            if spec_hit_test(scene, p) is Some {
                let id = spec_hit_test(scene, p).unwrap();
                let i = choose|i: int|
                    0 <= i < scene.skip(1).len() && #[trigger] scene.skip(1)[i].0 == id
                        && shape_contains(scene.skip(1)[i].1, p);
                assert(scene.skip(1)[i] == scene[i + 1]);
                assert(scene[i + 1].0 == id && shape_contains(scene[i + 1].1, p));
            }
        }
    }
}


/// The candidate collider overlaps some member of the scene.
pub open spec fn scene_overlaps(cand: ShapeModel, scene: Seq<(u64, ShapeModel)>) -> bool {
    exists|i: int| 0 <= i < scene.len() && shapes_overlap(cand, #[trigger] scene[i].1)
}

/// A candidate placement, given as shape kind, anchor points and
/// dimensions, overlaps the scene.  An inert candidate overlaps nothing.
pub open spec fn spec_overlaps(
    kind: ShapeType,
    pts: Seq<Position>,
    dims: Seq<u32>,
    scene: Seq<(u64, ShapeModel)>,
) -> bool {
    match spec_collider(kind, pts, dims) {
        None => false,
        Some(m) => scene_overlaps(m, scene),
    }
}

/// True iff the candidate, placed as specified, intersects any member of
/// the scene.  No ordering or priority among members; an inert candidate
/// never overlaps.
pub fn overlaps(
    candidate_shape_kind: &ShapeType,
    candidate_anchor_points: &Vec<Position>,
    candidate_dimensions: &Vec<u32>,
    scene: &Scene,
) -> (r: bool)
    requires
        scene_wf(scene@),
    ensures
        r == spec_overlaps(
            *candidate_shape_kind,
            candidate_anchor_points@,
            candidate_dimensions@,
            scene@,
        ),
{
    let cand = match create_shape_obj(
        candidate_shape_kind,
        candidate_anchor_points,
        candidate_dimensions,
    ) {
        Some(sh) => sh,
        None => {
            return false;
        },
    };
    let n = scene.entries.len();
    let mut i: usize = 0;
    while i < n
        invariant
            n == scene.entries.len(),
            0 <= i <= n,
            shape_wf(cand@),
            scene_wf(scene@),
            cand@ == spec_collider(
                *candidate_shape_kind,
                candidate_anchor_points@,
                candidate_dimensions@,
            ).unwrap(),
            spec_collider(
                *candidate_shape_kind,
                candidate_anchor_points@,
                candidate_dimensions@,
            ) is Some,
            forall|j: int| 0 <= j < i ==> !shapes_overlap(cand@, #[trigger] scene@[j].1),
        decreases n - i,
    {
        proof {
            assert(scene@[i as int] == (scene.entries@[i as int].0, scene.entries@[i as int].1@));
            assert(shape_wf(scene@[i as int].1));
        }
        if shapes_overlap_ex(&cand, &scene.entries[i].1) {
            proof {
                assert(shapes_overlap(cand@, scene@[i as int].1));
            }
            return true;
        }
        i = i + 1;
    }
    false
}

/// The id of the first scene member, in build order, whose geometry
/// contains the point; `None` when no member contains it.
pub open spec fn spec_hit_test(scene: Seq<(u64, ShapeModel)>, p: Position) -> Option<u64>
    decreases scene.len(),
{
    if scene.len() == 0 {
        None
    } else if shape_contains(scene[0].1, p) {
        Some(scene[0].0)
    } else {
        spec_hit_test(scene.skip(1), p)
    }
}

/// When no member among the first `i` contains the point, the search may
/// start at `i`.
pub proof fn lemma_hit_test_skip(scene: Seq<(u64, ShapeModel)>, p: Position, i: int)
    requires
        0 <= i <= scene.len(),
        forall|j: int| 0 <= j < i ==> !shape_contains(#[trigger] scene[j].1, p),
    ensures
        spec_hit_test(scene, p) == spec_hit_test(scene.skip(i), p),
    decreases i,
{
    if i > 0 {
        assert(!shape_contains(scene[0].1, p));
        lemma_hit_test_skip(scene.skip(1), p, i - 1);
        assert(scene.skip(1).skip(i - 1) =~= scene.skip(i));
    } else {
        assert(scene.skip(0) =~= scene);
    }
}

/// Returns the id of the first scene member containing the point; see
/// `spec_hit_test`.
pub fn hit_test(p: Position, scene: &Scene) -> (r: Option<u64>)
    requires
        scene_wf(scene@),
    ensures
        r == spec_hit_test(scene@, p),
{
    let n = scene.entries.len();
    let mut i: usize = 0;
    while i < n
        invariant
            n == scene.entries.len(),
            0 <= i <= n,
            scene_wf(scene@),
            forall|j: int| 0 <= j < i ==> !shape_contains(#[trigger] scene@[j].1, p),
        decreases n - i,
    {
        proof {
            assert(scene@[i as int] == (scene.entries@[i as int].0, scene.entries@[i as int].1@));
            assert(shape_wf(scene@[i as int].1));
        }
        if shape_contains_ex(&scene.entries[i].1, p) {
            let rid = scene.entries[i].0;
            proof {
                lemma_hit_test_skip(scene@, p, i as int);
                assert(scene@.skip(i as int)[0] == scene@[i as int]);
            }
            return Some(rid);
        }
        i = i + 1;
    }
    proof {
        lemma_hit_test_skip(scene@, p, n as int);
        assert(scene@.skip(n as int) =~= Seq::<(u64, ShapeModel)>::empty());
    }
    None
}

/// Hitting a point strictly inside exactly one scene member returns that
/// member's id, whatever its place in build order.
pub proof fn lemma_hit_test_unique(scene: Seq<(u64, ShapeModel)>, p: Position, i: int)
    requires
        0 <= i < scene.len(),
        shape_contains(scene[i].1, p),
        forall|j: int| 0 <= j < scene.len() && j != i ==> !shape_contains(#[trigger] scene[j].1, p),
    ensures
        spec_hit_test(scene, p) == Some(scene[i].0),
{
    lemma_hit_test_skip(scene, p, i);
    assert(scene.skip(i)[0] == scene[i]);
}

/// Hitting a point inside no scene member returns `None`.
pub proof fn lemma_hit_test_none(scene: Seq<(u64, ShapeModel)>, p: Position)
    requires
        forall|j: int| 0 <= j < scene.len() ==> !shape_contains(#[trigger] scene[j].1, p),
    ensures
        spec_hit_test(scene, p) is None,
{
    lemma_hit_test_skip(scene, p, scene.len() as int);
    assert(scene.skip(scene.len() as int) =~= Seq::<(u64, ShapeModel)>::empty());
}

/// The candidate placement overlaps some member of the scene built from
/// `items` with traversable records skipped; an inert candidate overlaps
/// nothing.
pub open spec fn spec_check_collision<T: Collidable>(
    kind: ShapeType,
    pts: Seq<Position>,
    dims: Seq<u32>,
    items: Seq<T>,
    skip_id: Option<u64>,
) -> bool {
    spec_overlaps(kind, pts, dims, spec_scene(items, true, skip_id))
}

/// Whether a candidate placement collides with any solid member of
/// `items`: traversable records are skipped, and so is the record named
/// by `skip_id` (the mover itself).
pub fn check_shape_collision_items<T: Collidable>(
    moving_shape_type: &ShapeType,
    moving_pos: &Vec<Position>,
    moving_size: &Vec<u32>,
    items: &Vec<T>,
    skip_id: Option<u64>,
) -> (r: bool)
    ensures
        r == spec_check_collision(*moving_shape_type, moving_pos@, moving_size@, items@, skip_id),
{
    let scene = build_colliders(items, true, skip_id);
    proof {
        lemma_scene_wf(items@, true, skip_id);
    }
    overlaps(moving_shape_type, moving_pos, moving_size, &scene)
}

/// The first record of `items`, in order, whose collider contains the
/// point; inert records never match.
pub open spec fn spec_find_item<T: Collidable>(items: Seq<T>, x: u32, y: u32) -> Option<u64> {
    spec_hit_test(spec_scene(items, false, None), Position { x, y })
}

/// Finds the id of the first record whose collider contains the point.
pub fn find_item_at_point<T: Collidable>(items: &Vec<T>, x: u32, y: u32) -> (r: Option<u64>)
    ensures
        r == spec_find_item(items@, x, y),
{
    let scene = build_colliders(items, false, None);
    proof {
        lemma_scene_wf(items@, false, None);
    }
    hit_test(Position { x, y }, &scene)
}

} // verus!
