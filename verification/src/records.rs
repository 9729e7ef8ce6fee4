//! The geometric records of one board, and the action log entry.
//!
//! Units are the movable pieces and are always solid; terrain is static
//! and blocks movement unless marked traversable; underlays and overlays
//! are decorative annotations that never collide.  Each record carries
//! its shape kind, dimensions, anchor points and a display-only color.

use vstd::prelude::*;

use crate::collider::ShapeType;
use crate::geometry::Position;
use crate::scene::Collidable;

verus! {

/// Width of the board: the greatest x coordinate a piece may be dragged
/// to.
pub const BOARD_WIDTH: u32 = 600;

/// Height of the board: the greatest y coordinate a piece may be
/// dragged to.
pub const BOARD_HEIGHT: u32 = 400;

/// A movable piece.  Units are implicitly solid: they always block other
/// units.
#[derive(Clone, Debug)]
pub struct Unit {
    pub id: u64,
    pub game_id: u64,
    pub shape_type: ShapeType,
    pub size: Vec<u32>,
    pub color: String,
    pub position: Vec<Position>,
}

impl Collidable for Unit {
    open spec fn s_id(&self) -> u64 {
        self.id
    }

    open spec fn s_shape_type(&self) -> ShapeType {
        self.shape_type
    }

    open spec fn s_position(&self) -> Seq<Position> {
        self.position@
    }

    open spec fn s_size(&self) -> Seq<u32> {
        self.size@
    }

    open spec fn s_traversable(&self) -> bool {
        false
    }

    fn id(&self) -> u64 {
        self.id
    }

    fn shape_type(&self) -> &ShapeType {
        &self.shape_type
    }

    fn position(&self) -> &Vec<Position> {
        &self.position
    }

    fn size(&self) -> &Vec<u32> {
        &self.size
    }

    fn traversable(&self) -> bool {
        false
    }
}

/// A static region.  When `traversable` is set, units may occupy the
/// same space without being blocked.
#[derive(Clone, Debug)]
pub struct Terrain {
    pub id: u64,
    pub game_id: u64,
    pub shape_type: ShapeType,
    pub size: Vec<u32>,
    pub color: String,
    pub position: Vec<Position>,
    pub traversable: bool,
}

impl Collidable for Terrain {
    open spec fn s_id(&self) -> u64 {
        self.id
    }

    open spec fn s_shape_type(&self) -> ShapeType {
        self.shape_type
    }

    open spec fn s_position(&self) -> Seq<Position> {
        self.position@
    }

    open spec fn s_size(&self) -> Seq<u32> {
        self.size@
    }

    open spec fn s_traversable(&self) -> bool {
        self.traversable
    }

    fn id(&self) -> u64 {
        self.id
    }

    fn shape_type(&self) -> &ShapeType {
        &self.shape_type
    }

    fn position(&self) -> &Vec<Position> {
        &self.position
    }

    fn size(&self) -> &Vec<u32> {
        &self.size
    }

    fn traversable(&self) -> bool {
        self.traversable
    }
}

/// A decorative annotation drawn beneath the pieces; never collides.
#[derive(Clone, Debug)]
pub struct Underlay {
    pub id: u64,
    pub game_id: u64,
    pub shape_type: ShapeType,
    pub size: Vec<u32>,
    pub color: String,
    pub position: Vec<Position>,
}

/// A decorative annotation drawn above the pieces; never collides.
#[derive(Clone, Debug)]
pub struct Overlay {
    pub id: u64,
    pub game_id: u64,
    pub shape_type: ShapeType,
    pub size: Vec<u32>,
    pub color: String,
    pub position: Vec<Position>,
}

/// A named board.
#[derive(Clone, Debug)]
pub struct Game {
    pub id: u64,
    pub name: String,
    pub description: String,
}

/// The complete record set of one board: every record carries the
/// board's `game_id`, and ids are unique within each table.
#[derive(Clone, Debug)]
pub struct GameState {
    pub terrains: Vec<Terrain>,
    pub units: Vec<Unit>,
    pub underlays: Vec<Underlay>,
    pub overlays: Vec<Overlay>,
    pub game_id: u64,
}

impl GameState {
    /// Ids are unique within each table, and every record belongs to
    /// this board.
    pub open spec fn wf(self) -> bool {
        &&& forall|i: int, j: int|
            0 <= i < j < self.units.len() ==> #[trigger] self.units[i].id != #[trigger] self.units[j].id
        &&& forall|i: int, j: int|
            0 <= i < j < self.terrains.len() ==> #[trigger] self.terrains[i].id
                != #[trigger] self.terrains[j].id
        &&& forall|i: int, j: int|
            0 <= i < j < self.underlays.len() ==> #[trigger] self.underlays[i].id
                != #[trigger] self.underlays[j].id
        &&& forall|i: int, j: int|
            0 <= i < j < self.overlays.len() ==> #[trigger] self.overlays[i].id
                != #[trigger] self.overlays[j].id
        &&& forall|i: int| 0 <= i < self.units.len() ==> #[trigger] self.units[i].game_id == self.game_id
        &&& forall|i: int|
            0 <= i < self.terrains.len() ==> #[trigger] self.terrains[i].game_id == self.game_id
        &&& forall|i: int|
            0 <= i < self.underlays.len() ==> #[trigger] self.underlays[i].game_id == self.game_id
        &&& forall|i: int|
            0 <= i < self.overlays.len() ==> #[trigger] self.overlays[i].game_id == self.game_id
    }

    /// An empty board.
    pub fn new(game_id: u64) -> (gs: GameState)
        ensures
            gs.wf(),
            gs.game_id == game_id,
            gs.units@.len() == 0,
            gs.terrains@.len() == 0,
            gs.underlays@.len() == 0,
            gs.overlays@.len() == 0,
    {
        GameState {
            terrains: Vec::new(),
            units: Vec::new(),
            underlays: Vec::new(),
            overlays: Vec::new(),
            game_id,
        }
    }
}

/// One entry of the shared action log.  The timestamp is microseconds
/// since the epoch, as the host hands it in.
#[derive(Clone, Debug)]
pub struct Action {
    pub id: u64,
    pub game_id: u64,
    pub timestamp: i64,
    pub action_type: String,
    pub description: String,
    pub game_state: Option<GameState>,
}

/// The description a die roll is logged under: the die glyph, then
/// the rolled value.
pub open spec fn dice_text(dice_value: u64) -> Seq<char> {
    if dice_value == 1 {
        "\u{1F3B2} Dice Roll: 1"@
    } else if dice_value == 2 {
        "\u{1F3B2} Dice Roll: 2"@
    } else if dice_value == 3 {
        "\u{1F3B2} Dice Roll: 3"@
    } else if dice_value == 4 {
        "\u{1F3B2} Dice Roll: 4"@
    } else if dice_value == 5 {
        "\u{1F3B2} Dice Roll: 5"@
    } else {
        "\u{1F3B2} Dice Roll: 6"@
    }
}

/// Builds the log entry for a die roll, with a snapshot of the board.
/// The id is left to the caller's store to assign.
pub fn roll_dice(game_id: u64, timestamp: i64, dice_value: u64, snapshot: GameState) -> (a: Action)
    requires
        1 <= dice_value <= 6,
    ensures
        a.id == 0,
        a.game_id == game_id,
        a.timestamp == timestamp,
        a.action_type@ == "DICE_ROLL"@,
        a.description@ == dice_text(dice_value),
        a.game_state == Some(snapshot),
{
    let description = if dice_value == 1 {
        "\u{1F3B2} Dice Roll: 1"
    } else if dice_value == 2 {
        "\u{1F3B2} Dice Roll: 2"
    } else if dice_value == 3 {
        "\u{1F3B2} Dice Roll: 3"
    } else if dice_value == 4 {
        "\u{1F3B2} Dice Roll: 4"
    } else if dice_value == 5 {
        "\u{1F3B2} Dice Roll: 5"
    } else {
        "\u{1F3B2} Dice Roll: 6"
    };
    Action {
        id: 0,
        game_id,
        timestamp,
        action_type: "DICE_ROLL".to_owned(),
        description: description.to_owned(),
        game_state: Some(snapshot),
    }
}

/// Builds the log entry for a chat message.  The id is left to the
/// caller's store to assign.
pub fn chat_message(game_id: u64, timestamp: i64, message: String) -> (a: Action)
    ensures
        a.id == 0,
        a.game_id == game_id,
        a.timestamp == timestamp,
        a.action_type@ == "CHAT_MESSAGE"@,
        a.description == message,
        a.game_state is None,
{
    Action {
        id: 0,
        game_id,
        timestamp,
        action_type: "CHAT_MESSAGE".to_owned(),
        description: message,
        game_state: None,
    }
}

} // verus!
