//! The simulation state: the entity arena, the player's handle, the volley
//! counter, the score, and the game-over flag, together with the
//! well-formedness invariant every tick preserves.

use vstd::prelude::*;

use crate::entity::Entity;
use crate::entity::EntityData;
use crate::geom::Vec2i;
use crate::store::EntityStore;
use crate::store::Handle;
use crate::PLAYER_SPEED;
use crate::SHOT_INTERVAL;

verus! {

/// The pressed-key snapshot a tick consumes: one flag per direction. The
/// axes are independent; pressing two directions at once moves diagonally
/// at full speed on each axis.
#[derive(Clone, Copy, PartialEq, Eq, Structural, Debug)]
pub struct PressedKeys {
    pub left: bool,
    pub right: bool,
    pub up: bool,
    pub down: bool,
}

impl PressedKeys {
    pub fn none() -> (k: PressedKeys)
        ensures
            k == (PressedKeys { left: false, right: false, up: false, down: false }),
    {
        PressedKeys { left: false, right: false, up: false, down: false }
    }
}

/// The random draws one tick of the spawner consumes: `n` decides whether
/// and which enemy spawns; the other three place it and, for a meteor,
/// pick its drift. Only the low three decimal digits of each `u32` are
/// used, as thousandths of the unit interval.
#[derive(Clone, Copy, PartialEq, Eq, Structural, Debug)]
pub struct SpawnDraws {
    pub n: u8,
    pub pos: u32,
    pub drift: u32,
    pub fall: u32,
}

/// The whole simulation: every live entity plus the process-wide counters.
pub struct SimState {
    pub store: EntityStore,
    pub player: Handle,
    pub shot_counter: u8,
    pub score: u64,
    pub game_over: bool,
}

impl SimState {
    /// The player's entity record.
    pub open spec fn player_entity(self) -> Entity {
        self.store.at(self.player)
    }

    /// Well-formedness, with `slack` extra positional room on linear
    /// movers (nonzero only mid-tick, between integration and culling):
    /// the player handle is live and is the one player in the store, every
    /// live entity obeys its positional bounds, and the volley counter
    /// stays below its firing threshold.
    pub open spec fn wf_with(self, slack: int) -> bool {
        &&& self.store.valid(self.player)
        &&& self.store.at(self.player).is_player()
        &&& forall|h: Handle| #![auto]
            self.store.valid(h) && self.store.at(h).is_player() ==> h == self.player
        &&& forall|h: Handle| #![auto] self.store.valid(h) ==> self.store.at(h).ok_with_slack(slack)
        &&& self.shot_counter < SHOT_INTERVAL
    }

    /// Well-formedness at a tick boundary.
    pub open spec fn wf(self) -> bool {
        self.wf_with(0)
    }

    /// A fresh simulation: the player ship alone, centered, counters at
    /// zero.
    pub fn new() -> (s: SimState)
        ensures
            s.wf(),
            s.store.at(s.player) == (Entity {
                pos: Vec2i { x: 0, y: 0 },
                data: EntityData::Player { speed: PLAYER_SPEED },
            }),
            forall|h: Handle| s.store.valid(h) <==> h == s.player,
            s.shot_counter == 0,
            s.score == 0,
            !s.game_over,
    {
        let mut store = EntityStore::new();
        let player = store.create(
            Entity { pos: Vec2i { x: 0, y: 0 }, data: EntityData::Player { speed: PLAYER_SPEED } },
        );
        SimState { store, player, shot_counter: 0, score: 0, game_over: false }
    }
}

} // verus!
