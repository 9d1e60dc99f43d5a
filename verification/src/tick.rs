//! One simulation tick: the fixed order in which the systems run.
//!
//! Input -> player move -> homing -> enemy spawn -> shot spawn ->
//! collision resolution -> linear integration -> boundary culling.

use vstd::prelude::*;

use crate::collider::collisions_resolved;
use crate::culler::culled_pass;
use crate::entity::Entity;
use crate::mover::drills_moved;
use crate::mover::linear_applied;
use crate::mover::player_move_spec;
use crate::mover::player_moved;
use crate::sim::PressedKeys;
use crate::sim::SimState;
use crate::sim::SpawnDraws;
use crate::spawner::enemy_spawned;
use crate::spawner::shots_spawned;
use crate::store::Handle;
use crate::SHOT_INTERVAL;

verus! {

/// Everything one tick does: the seven systems' relations, chained in the
/// fixed order through the intermediate states they pass one another.
pub open spec fn tick_relation(
    pre: SimState,
    post: SimState,
    keys: PressedKeys,
    draws: SpawnDraws,
) -> bool {
    exists|
        s1: SimState,
        s2: SimState,
        s3: SimState,
        s4: SimState,
        s5: SimState,
        s6: SimState,
        spawned: Option<Handle>,
        fired: Option<(Handle, Handle)>,
    |
        #![trigger player_moved(pre, s1, keys), drills_moved(s1, s2),
            enemy_spawned(s2, s3, draws, spawned), shots_spawned(s3, s4, fired),
            collisions_resolved(s4, s5), linear_applied(s5, s6), culled_pass(s6, post)]
        {
            &&& player_moved(pre, s1, keys)
            &&& drills_moved(s1, s2)
            &&& enemy_spawned(s2, s3, draws, spawned)
            &&& shots_spawned(s3, s4, fired)
            &&& collisions_resolved(s4, s5)
            &&& linear_applied(s5, s6)
            &&& culled_pass(s6, post)
        }
}

/// Destroyed means gone for good: a handle retired before a tick — as
/// every handle the resolver or the culler destroys is — is still retired
/// after it, and so can never again reach an entity in any later tick.
pub proof fn lemma_retired_outlives_tick(
    pre: SimState,
    post: SimState,
    keys: PressedKeys,
    draws: SpawnDraws,
    h: Handle,
)
    requires
        tick_relation(pre, post, keys, draws),
        pre.store.retired(h),
    ensures
        post.store.retired(h),
        !post.store.valid(h),
{
    let (s1, s2, s3, s4, s5, s6, spawned, fired) = choose|
        s1: SimState,
        s2: SimState,
        s3: SimState,
        s4: SimState,
        s5: SimState,
        s6: SimState,
        spawned: Option<Handle>,
        fired: Option<(Handle, Handle)>,
    |
        #![trigger player_moved(pre, s1, keys), drills_moved(s1, s2),
            enemy_spawned(s2, s3, draws, spawned), shots_spawned(s3, s4, fired),
            collisions_resolved(s4, s5), linear_applied(s5, s6), culled_pass(s6, post)]
        {
            &&& player_moved(pre, s1, keys)
            &&& drills_moved(s1, s2)
            &&& enemy_spawned(s2, s3, draws, spawned)
            &&& shots_spawned(s3, s4, fired)
            &&& collisions_resolved(s4, s5)
            &&& linear_applied(s5, s6)
            &&& culled_pass(s6, post)
        };
    assert(s6.store.retired(h));
    post.store.lemma_retired_not_valid(h);
}

impl SimState {
    /// Runs one tick with the spawner's random draws given as arguments,
    /// so that every property below holds for every possible outcome of
    /// the draws. The tick relation composes the seven systems; the
    /// clauses after it restate its most-used consequences.
    pub fn tick_with_draws(&mut self, keys: PressedKeys, draws: SpawnDraws)
        requires
            old(self).wf(),
        ensures
            tick_relation(*old(self), *final(self), keys, draws),
            final(self).wf(),
            final(self).player == old(self).player,
            final(self).player_entity() == (Entity {
                pos: player_move_spec(
                    old(self).player_entity().pos,
                    keys,
                    old(self).player_entity().data->Player_speed as int,
                ),
                data: old(self).player_entity().data,
            }),
            final(self).shot_counter == if old(self).shot_counter + 1 == SHOT_INTERVAL {
                0int
            } else {
                old(self).shot_counter + 1
            },
            final(self).score == old(self).score,
            old(self).game_over ==> final(self).game_over,
            forall|h: Handle| #![auto]
                old(self).store.retired(h) ==> final(self).store.retired(h),
    {
        let ghost s0 = *self;
        self.move_player(keys);
        let ghost s1 = *self;
        self.move_drills();
        let ghost s2 = *self;
        let spawned = self.maybe_spawn_enemy(draws);
        let ghost s3 = *self;
        let fired = self.spawn_shots();
        let ghost s4 = *self;
        self.check_for_collisions();
        let ghost s5 = *self;
        self.apply_linear_movement();
        let ghost s6 = *self;
        self.cull_outside();
        proof {
            assert(player_moved(s0, s1, keys));
            assert(drills_moved(s1, s2));
            assert(enemy_spawned(s2, s3, draws, spawned));
            assert(shots_spawned(s3, s4, fired));
            assert(collisions_resolved(s4, s5));
            assert(linear_applied(s5, s6));
            assert(culled_pass(s6, *self));
            assert(tick_relation(s0, *self, keys, draws));
        }
    }

    /// Runs one tick, drawing the spawner's randomness from the process
    /// random source: the tick relation holds for whatever was drawn.
    pub fn tick(&mut self, keys: PressedKeys)
        requires
            old(self).wf(),
        ensures
            exists|draws: SpawnDraws|
                #[trigger] tick_relation(*old(self), *final(self), keys, draws),
            final(self).wf(),
            final(self).player == old(self).player,
            final(self).player_entity() == (Entity {
                pos: player_move_spec(
                    old(self).player_entity().pos,
                    keys,
                    old(self).player_entity().data->Player_speed as int,
                ),
                data: old(self).player_entity().data,
            }),
            final(self).shot_counter == if old(self).shot_counter + 1 == SHOT_INTERVAL {
                0int
            } else {
                old(self).shot_counter + 1
            },
            final(self).score == old(self).score,
            old(self).game_over ==> final(self).game_over,
            forall|h: Handle| #![auto]
                old(self).store.retired(h) ==> final(self).store.retired(h),
    {
        let n: u8 = rand::random::<u8>();
        let pos: u32 = rand::random::<u32>();
        let drift: u32 = rand::random::<u32>();
        let fall: u32 = rand::random::<u32>();
        self.tick_with_draws(keys, SpawnDraws { n, pos, drift, fall });
    }
}

} // verus!
