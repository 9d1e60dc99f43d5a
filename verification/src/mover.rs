//! The mover: player displacement from the pressed-key snapshot, homing
//! steps for drill enemies, and straight-line integration for everything
//! that carries a constant velocity.

use vstd::prelude::*;

use crate::entity::EnemyKind;
use crate::entity::Entity;
use crate::entity::EntityData;
use crate::geom::abs_spec;
use crate::geom::clamp_i64;
use crate::geom::clamp_spec;
use crate::geom::Vec2i;
use crate::homing::drill_tick;
use crate::homing::drill_tick_spec;
use crate::sim::PressedKeys;
use crate::sim::SimState;
use crate::store::Handle;
use crate::HALF_X;
use crate::HALF_Y;
use crate::PLAYER_SPEED;
use crate::VEL_LIMIT;

verus! {

/// The player's horizontal displacement for one tick.
pub open spec fn key_dx(keys: PressedKeys, speed: int) -> int {
    (if keys.right {
        speed
    } else {
        0
    }) - (if keys.left {
        speed
    } else {
        0
    })
}

/// The player's vertical displacement for one tick.
pub open spec fn key_dy(keys: PressedKeys, speed: int) -> int {
    (if keys.up {
        speed
    } else {
        0
    }) - (if keys.down {
        speed
    } else {
        0
    })
}

/// Where the player stands after one tick: the previous position is first
/// clamped into the arena's half-extents, then the displacement is added.
/// Because the clamp runs before the move, a player pushing against the
/// boundary rests one displacement beyond it.
pub open spec fn player_move_spec(pos: Vec2i, keys: PressedKeys, speed: int) -> Vec2i {
    Vec2i {
        x: (clamp_spec(pos.x as int, HALF_X as int) + key_dx(keys, speed)) as i64,
        y: (clamp_spec(pos.y as int, HALF_Y as int) + key_dy(keys, speed)) as i64,
    }
}

/// The clamp invariant of player movement: after any tick the player
/// rests at most one displacement beyond the arena's half-extents, and
/// within them on every axis whose keys are idle. The clamp runs before
/// the displacement is added, so a player pushing against the boundary
/// stands one step past it and is pulled back the moment the key is
/// released.
pub proof fn lemma_player_clamp_invariant(pos: Vec2i, keys: PressedKeys, speed: int)
    requires
        0 <= speed <= PLAYER_SPEED,
    ensures
        abs_spec(player_move_spec(pos, keys, speed).x as int) <= HALF_X + speed,
        abs_spec(player_move_spec(pos, keys, speed).y as int) <= HALF_Y + speed,
        !keys.left && !keys.right ==> abs_spec(player_move_spec(pos, keys, speed).x as int)
            <= HALF_X,
        !keys.up && !keys.down ==> abs_spec(player_move_spec(pos, keys, speed).y as int) <= HALF_Y,
{
}

/// A linear mover one tick later: its velocity added to its position.
pub open spec fn linear_moved_spec(e: Entity) -> Entity {
    Entity {
        pos: Vec2i {
            x: (e.pos.x + e.linear_vel().x) as i64,
            y: (e.pos.y + e.linear_vel().y) as i64,
        },
        data: e.data,
    }
}

/// Everything one player-movement pass does: the player entity moves by
/// `player_move_spec`, and nothing else changes.
pub open spec fn player_moved(pre: SimState, post: SimState, keys: PressedKeys) -> bool {
    &&& post.wf()
    &&& post.player == pre.player
    &&& post.shot_counter == pre.shot_counter
    &&& post.score == pre.score
    &&& post.game_over == pre.game_over
    &&& forall|h: Handle| post.store.valid(h) <==> pre.store.valid(h)
    &&& forall|h: Handle| #![auto] pre.store.retired(h) ==> post.store.retired(h)
    &&& forall|h: Handle| #![auto]
        h != pre.player && pre.store.valid(h) ==> post.store.at(h) == pre.store.at(h)
    &&& post.player_entity() == (Entity {
        pos: player_move_spec(
            pre.player_entity().pos,
            keys,
            pre.player_entity().data->Player_speed as int,
        ),
        data: pre.player_entity().data,
    })
}

/// Everything one homing pass does: every drill steps by
/// `drill_tick_spec` toward the player, and nothing else changes.
pub open spec fn drills_moved(pre: SimState, post: SimState) -> bool {
    &&& post.wf()
    &&& post.player == pre.player
    &&& post.shot_counter == pre.shot_counter
    &&& post.score == pre.score
    &&& post.game_over == pre.game_over
    &&& forall|h: Handle| post.store.valid(h) <==> pre.store.valid(h)
    &&& forall|h: Handle| #![auto] pre.store.retired(h) ==> post.store.retired(h)
    &&& forall|h: Handle| #![auto]
        pre.store.valid(h) && !pre.store.at(h).is_drill() ==> post.store.at(h) == pre.store.at(h)
    &&& forall|h: Handle| #![auto]
        pre.store.valid(h) && pre.store.at(h).is_drill() ==> post.store.at(h) == (Entity {
            pos: drill_tick_spec(pre.store.at(h).pos, pre.player_entity().pos),
            data: pre.store.at(h).data,
        })
}

/// Everything one integration pass does: every linear mover advances by
/// its stored velocity, and nothing else changes.
pub open spec fn linear_applied(pre: SimState, post: SimState) -> bool {
    &&& post.wf_with(VEL_LIMIT as int)
    &&& post.player == pre.player
    &&& post.shot_counter == pre.shot_counter
    &&& post.score == pre.score
    &&& post.game_over == pre.game_over
    &&& forall|h: Handle| post.store.valid(h) <==> pre.store.valid(h)
    &&& forall|h: Handle| #![auto] pre.store.retired(h) ==> post.store.retired(h)
    &&& forall|h: Handle| #![auto]
        pre.store.valid(h) && !pre.store.at(h).is_linear() ==> post.store.at(h) == pre.store.at(h)
    &&& forall|h: Handle| #![auto]
        pre.store.valid(h) && pre.store.at(h).is_linear() ==> post.store.at(h)
            == linear_moved_spec(pre.store.at(h))
}

impl SimState {
    /// Moves the player by the pressed-key displacement, clamping the
    /// previous position into the arena first, exactly in that order.
    pub fn move_player(&mut self, keys: PressedKeys)
        requires
            old(self).wf(),
        ensures
            player_moved(*old(self), *final(self), keys),
    {
        let h = self.player;
        let e = match self.store.get(h) {
            Some(e) => e,
            None => Entity { pos: Vec2i { x: 0, y: 0 }, data: EntityData::Player { speed: 0 } },
        };
        let speed = match e.data {
            EntityData::Player { speed } => speed,
            _ => 0,
        };
        let mut x = clamp_i64(e.pos.x, HALF_X);
        let mut y = clamp_i64(e.pos.y, HALF_Y);
        if keys.right {
            x = x + speed;
        }
        if keys.left {
            x = x - speed;
        }
        if keys.up {
            y = y + speed;
        }
        if keys.down {
            y = y - speed;
        }
        self.store.update(h, Entity { pos: Vec2i { x, y }, data: e.data });
    }

    /// Advances every drill enemy one homing step toward the player and
    /// clamps it into the arena. Drills exactly on the player stay put.
    pub fn move_drills(&mut self)
        requires
            old(self).wf(),
        ensures
            drills_moved(*old(self), *final(self)),
    {
        let ppos = match self.store.get(self.player) {
            Some(e) => e.pos,
            None => Vec2i { x: 0, y: 0 },
        };
        let n = self.store.slot_count();
        let mut i: usize = 0;
        while i < n
            invariant
                old(self).wf(),
                n == self.store.slots@.len(),
                i <= n,
                ppos == old(self).player_entity().pos,
                self.player == old(self).player,
                self.shot_counter == old(self).shot_counter,
                self.score == old(self).score,
                self.game_over == old(self).game_over,
                self.store.slots@.len() == old(self).store.slots@.len(),
                forall|h: Handle| self.store.valid(h) <==> old(self).store.valid(h),
                forall|h: Handle| #![auto] old(self).store.retired(h) ==> self.store.retired(h),
                forall|h: Handle| #![auto]
                    old(self).store.valid(h) && (!old(self).store.at(h).is_drill() || h.index >= i)
                        ==> self.store.at(h) == old(self).store.at(h),
                forall|h: Handle| #![auto]
                    old(self).store.valid(h) && old(self).store.at(h).is_drill() && h.index < i
                        ==> self.store.at(h) == (Entity {
                        pos: drill_tick_spec(
                            old(self).store.at(h).pos,
                            old(self).player_entity().pos,
                        ),
                        data: old(self).store.at(h).data,
                    }),
            decreases n - i,
        {
            match self.store.entry_at(i) {
                Some((h, e)) => {
                    let is_drill = match e.data {
                        EntityData::Enemy { kind: EnemyKind::Drill } => true,
                        _ => false,
                    };
                    if is_drill {
                        let newpos = drill_tick(e.pos, ppos);
                        self.store.update(h, Entity { pos: newpos, data: e.data });
                    }
                },
                None => {},
            }
            i = i + 1;
        }
    }

    /// Adds its stored velocity to the position of every linear mover:
    /// shots, meteors and regular enemies. Afterwards a linear mover may
    /// overshoot the culling limits by at most one velocity step, which
    /// the boundary culler removes in the same tick.
    pub fn apply_linear_movement(&mut self)
        requires
            old(self).wf(),
        ensures
            linear_applied(*old(self), *final(self)),
    {
        let n = self.store.slot_count();
        let mut i: usize = 0;
        while i < n
            invariant
                old(self).wf(),
                n == self.store.slots@.len(),
                i <= n,
                self.player == old(self).player,
                self.shot_counter == old(self).shot_counter,
                self.score == old(self).score,
                self.game_over == old(self).game_over,
                self.store.slots@.len() == old(self).store.slots@.len(),
                forall|h: Handle| self.store.valid(h) <==> old(self).store.valid(h),
                forall|h: Handle| #![auto] old(self).store.retired(h) ==> self.store.retired(h),
                forall|h: Handle| #![auto]
                    old(self).store.valid(h) && (!old(self).store.at(h).is_linear() || h.index >= i)
                        ==> self.store.at(h) == old(self).store.at(h),
                forall|h: Handle| #![auto]
                    old(self).store.valid(h) && old(self).store.at(h).is_linear() && h.index < i
                        ==> self.store.at(h) == linear_moved_spec(old(self).store.at(h)),
            decreases n - i,
        {
            match self.store.entry_at(i) {
                Some((h, e)) => {
                    let vel = match e.data {
                        EntityData::Enemy { kind: EnemyKind::Regular { vel } } => Some(vel),
                        EntityData::Enemy { kind: EnemyKind::Meteor { vel } } => Some(vel),
                        EntityData::Shot { vel } => Some(vel),
                        _ => None,
                    };
                    match vel {
                        Some(v) => {
                            let newpos = Vec2i { x: e.pos.x + v.x, y: e.pos.y + v.y };
                            self.store.update(h, Entity { pos: newpos, data: e.data });
                        },
                        None => {},
                    }
                },
                None => {},
            }
            i = i + 1;
        }
    }
}

} // verus!
