//! The spawner: per tick, at most one new enemy, decided by one uniform
//! byte; and on a fixed cadence a volley of two shots at the player's
//! position.

use vstd::prelude::*;

use crate::entity::EnemyKind;
use crate::entity::Entity;
use crate::entity::EntityData;
use crate::geom::Vec2i;
use crate::sim::SimState;
use crate::sim::SpawnDraws;
use crate::store::Handle;
use crate::DRILL_SPAWN_Y;
use crate::HALF_X;
use crate::HALF_Y;
use crate::SHOT_INTERVAL;
use crate::SHOT_OFFSET_X;
use crate::SHOT_OFFSET_Y;
use crate::SHOT_SPEED;

verus! {

/// The low three decimal digits of a draw, read as thousandths of the
/// unit interval.
pub open spec fn frac(r: u32) -> int {
    r as int % 1000
}

/// A drill spawns at the top edge, uniformly across the arena's width:
/// x = HALF_X - frac * BOUNDS_X.
pub open spec fn drill_spawn_x(r: u32) -> int {
    HALF_X - frac(r) * 600
}

/// A meteor spawns at the clamp band's top, uniformly across the arena's
/// width: x = frac * BOUNDS_X - HALF_X.
pub open spec fn meteor_spawn_x(r: u32) -> int {
    frac(r) * 600 - HALF_X
}

/// A meteor's velocity: horizontal drift symmetric about zero, up to half
/// of METEOR_SPEED either way; vertical always downward, between half of
/// METEOR_SPEED and all of it.
pub open spec fn meteor_vel(d: SpawnDraws) -> Vec2i {
    Vec2i {
        x: ((frac(d.drift) - 500) * 4) as i64,
        y: (-(if frac(d.fall) < 500 {
            500
        } else {
            frac(d.fall)
        }) * 4) as i64,
    }
}

/// The drill entity a draw spawns.
pub open spec fn drill_spawn(d: SpawnDraws) -> Entity {
    Entity {
        pos: Vec2i { x: drill_spawn_x(d.pos) as i64, y: DRILL_SPAWN_Y },
        data: EntityData::Enemy { kind: EnemyKind::Drill },
    }
}

/// The meteor entity a draw spawns.
pub open spec fn meteor_spawn(d: SpawnDraws) -> Entity {
    Entity {
        pos: Vec2i { x: meteor_spawn_x(d.pos) as i64, y: HALF_Y },
        data: EntityData::Enemy { kind: EnemyKind::Meteor { vel: meteor_vel(d) } },
    }
}

/// The shot entity of a volley: the player's position shifted by
/// (`side`, SHOT_OFFSET_Y), moving straight up.
pub open spec fn shot_spawn(ppos: Vec2i, side: int) -> Entity {
    Entity {
        pos: Vec2i { x: (ppos.x + side) as i64, y: (ppos.y + SHOT_OFFSET_Y) as i64 },
        data: EntityData::Shot { vel: Vec2i { x: 0, y: SHOT_SPEED } },
    }
}

/// Everything one enemy-spawn pass does, `spawned` being the handle it
/// returns: above 240 one drill, above 220 one meteor, otherwise nothing,
/// and never more than the one returned entity.
pub open spec fn enemy_spawned(
    pre: SimState,
    post: SimState,
    d: SpawnDraws,
    spawned: Option<Handle>,
) -> bool {
    &&& post.wf()
    &&& post.player == pre.player
    &&& post.shot_counter == pre.shot_counter
    &&& post.score == pre.score
    &&& post.game_over == pre.game_over
    &&& forall|h: Handle| #![auto] pre.store.retired(h) ==> post.store.retired(h)
    &&& (spawned is Some <==> d.n > 220)
    &&& (spawned is None ==> post.store.slots@ == pre.store.slots@)
    &&& (spawned matches Some(h) ==> {
        &&& !pre.store.valid(h)
        &&& post.store.valid(h)
        &&& post.store.at(h) == if d.n > 240 {
            drill_spawn(d)
        } else {
            meteor_spawn(d)
        }
        &&& forall|h2: Handle| post.store.valid(h2) <==> pre.store.valid(h2) || h2 == h
        &&& forall|h2: Handle| #![auto]
            h2 != h && pre.store.valid(h2) ==> post.store.at(h2) == pre.store.at(h2)
    })
    // At most one entity is ever created per pass: every handle live
    // afterwards but not before is the spawned one.
    &&& forall|h: Handle| post.store.valid(h) && !pre.store.valid(h) ==> spawned == Some(h)
}

/// Everything one shot-spawn pass does, `fired` being the pair it
/// returns: the counter advances and, on reaching SHOT_INTERVAL, resets
/// while two shots appear at the player's position, symmetric about it.
pub open spec fn shots_spawned(
    pre: SimState,
    post: SimState,
    fired: Option<(Handle, Handle)>,
) -> bool {
    &&& post.wf()
    &&& post.player == pre.player
    &&& post.score == pre.score
    &&& post.game_over == pre.game_over
    &&& forall|h: Handle| #![auto] pre.store.retired(h) ==> post.store.retired(h)
    &&& (fired is Some <==> pre.shot_counter + 1 == SHOT_INTERVAL)
    &&& post.shot_counter == if pre.shot_counter + 1 == SHOT_INTERVAL {
        0int
    } else {
        pre.shot_counter + 1
    }
    &&& (fired is None ==> post.store.slots@ == pre.store.slots@)
    &&& (fired matches Some((a, b)) ==> {
        &&& a != b
        &&& !pre.store.valid(a)
        &&& !pre.store.valid(b)
        &&& post.store.valid(a)
        &&& post.store.valid(b)
        &&& post.store.at(a) == shot_spawn(pre.player_entity().pos, SHOT_OFFSET_X as int)
        &&& post.store.at(b) == shot_spawn(pre.player_entity().pos, -SHOT_OFFSET_X as int)
        &&& forall|h2: Handle|
            post.store.valid(h2) <==> pre.store.valid(h2) || h2 == a || h2 == b
        &&& forall|h2: Handle| #![auto]
            h2 != a && h2 != b && pre.store.valid(h2) ==> post.store.at(h2) == pre.store.at(h2)
    })
    // Shots are created in twos and only on the firing tick.
    &&& forall|h: Handle|
        post.store.valid(h) && !pre.store.valid(h) ==> fired is Some && (h == fired->Some_0.0 || h
            == fired->Some_0.1)
}

fn frac_of(r: u32) -> (f: i64)
    ensures
        f == frac(r),
        0 <= f < 1000,
{
    (r % 1000) as i64
}

impl SimState {
    /// Spawns at most one enemy, decided by the draw byte: above 240 a
    /// drill at the arena's top edge, above 220 a drifting meteor, and
    /// otherwise nothing. Returns the new entity's handle, if any.
    pub fn maybe_spawn_enemy(&mut self, d: SpawnDraws) -> (spawned: Option<Handle>)
        requires
            old(self).wf(),
        ensures
            enemy_spawned(*old(self), *final(self), d, spawned),
    {
        if d.n > 240 {
            let f = frac_of(d.pos);
            let x = HALF_X - f * 600;
            let e = Entity {
                pos: Vec2i { x, y: DRILL_SPAWN_Y },
                data: EntityData::Enemy { kind: EnemyKind::Drill },
            };
            let h = self.store.create(e);
            Some(h)
        } else if d.n > 220 {
            let f = frac_of(d.pos);
            let x = f * 600 - HALF_X;
            let fx = frac_of(d.drift);
            let vx = (fx - 500) * 4;
            let fy = frac_of(d.fall);
            let vy = -(if fy < 500 {
                500
            } else {
                fy
            }) * 4;
            let e = Entity {
                pos: Vec2i { x, y: HALF_Y },
                data: EntityData::Enemy {
                    kind: EnemyKind::Meteor { vel: Vec2i { x: vx, y: vy } },
                },
            };
            let h = self.store.create(e);
            Some(h)
        } else {
            None
        }
    }

    /// Advances the volley counter; when it reaches SHOT_INTERVAL, resets
    /// it and fires two shots at the player's position, offset
    /// symmetrically by +SHOT_OFFSET_X and -SHOT_OFFSET_X. Returns the
    /// pair's handles when it fires.
    pub fn spawn_shots(&mut self) -> (fired: Option<(Handle, Handle)>)
        requires
            old(self).wf(),
        ensures
            shots_spawned(*old(self), *final(self), fired),
    {
        let c = self.shot_counter + 1;
        if c == SHOT_INTERVAL {
            let ppos = match self.store.get(self.player) {
                Some(e) => e.pos,
                None => Vec2i { x: 0, y: 0 },
            };
            let vel = Vec2i { x: 0, y: SHOT_SPEED };
            let a = self.store.create(
                Entity {
                    pos: Vec2i { x: ppos.x + SHOT_OFFSET_X, y: ppos.y + SHOT_OFFSET_Y },
                    data: EntityData::Shot { vel },
                },
            );
            let b = self.store.create(
                Entity {
                    pos: Vec2i { x: ppos.x - SHOT_OFFSET_X, y: ppos.y + SHOT_OFFSET_Y },
                    data: EntityData::Shot { vel },
                },
            );
            self.shot_counter = 0;
            Some((a, b))
        } else {
            self.shot_counter = c;
            None
        }
    }
}

} // verus!
