//! The boundary culler: entities that carry a constant velocity and have
//! drifted past the arena's half-extents plus a margin are destroyed. The
//! player and the homing drills are clamped instead and never culled.

use vstd::prelude::*;

use crate::entity::EnemyKind;
use crate::entity::Entity;
use crate::entity::EntityData;
use crate::geom::abs_i64;
use crate::geom::abs_spec;
use crate::geom::Vec2i;
use crate::sim::SimState;
use crate::store::Handle;
use crate::CULL_X;
use crate::CULL_Y;
use crate::VEL_LIMIT;

verus! {

/// Whether a position lies beyond the culling limits on either axis.
pub open spec fn outside_bounds(pos: Vec2i) -> bool {
    abs_spec(pos.y as int) > CULL_Y || abs_spec(pos.x as int) > CULL_X
}

/// Whether the culler removes this entity: it moves linearly and stands
/// outside the culling limits.
pub open spec fn culled(e: Entity) -> bool {
    e.is_linear() && outside_bounds(e.pos)
}

/// Everything one culling pass does: exactly the linear movers outside
/// the culling limits are destroyed — and retired for good — and
/// everything else stays as it was.
pub open spec fn culled_pass(pre: SimState, post: SimState) -> bool {
    &&& post.wf()
    &&& post.player == pre.player
    &&& post.shot_counter == pre.shot_counter
    &&& post.score == pre.score
    &&& post.game_over == pre.game_over
    &&& forall|h: Handle| post.store.valid(h) <==> pre.store.valid(h) && !culled(pre.store.at(h))
    &&& forall|h: Handle| #![auto] post.store.valid(h) ==> post.store.at(h) == pre.store.at(h)
    &&& forall|h: Handle| #![auto] pre.store.retired(h) ==> post.store.retired(h)
    &&& forall|h: Handle| #![auto]
        pre.store.valid(h) && culled(pre.store.at(h)) ==> post.store.retired(h)
}

impl SimState {
    /// Destroys every linear mover outside the culling limits. The `y`
    /// axis is checked first; an entity out on both axes is destroyed all
    /// the same.
    pub fn cull_outside(&mut self)
        requires
            old(self).wf_with(VEL_LIMIT as int),
        ensures
            culled_pass(*old(self), *final(self)),
    {
        let n = self.store.slot_count();
        let mut i: usize = 0;
        while i < n
            invariant
                old(self).wf_with(VEL_LIMIT as int),
                n == self.store.slots@.len(),
                i <= n,
                self.player == old(self).player,
                self.shot_counter == old(self).shot_counter,
                self.score == old(self).score,
                self.game_over == old(self).game_over,
                self.store.slots@.len() == old(self).store.slots@.len(),
                forall|h: Handle|
                    self.store.valid(h) <==> old(self).store.valid(h) && !(culled(
                        old(self).store.at(h),
                    ) && h.index < i),
                forall|h: Handle| #![auto]
                    self.store.valid(h) ==> self.store.at(h) == old(self).store.at(h),
                forall|h: Handle| #![auto] old(self).store.retired(h) ==> self.store.retired(h),
                forall|h: Handle| #![auto]
                    old(self).store.valid(h) && culled(old(self).store.at(h)) && h.index < i
                        ==> self.store.retired(h),
            decreases n - i,
        {
            match self.store.entry_at(i) {
                Some((h, e)) => {
                    let linear = match e.data {
                        EntityData::Enemy { kind: EnemyKind::Drill } => false,
                        EntityData::Enemy { .. } => true,
                        EntityData::Shot { .. } => true,
                        EntityData::Player { .. } => false,
                    };
                    if linear {
                        if abs_i64(e.pos.y) > CULL_Y {
                            self.store.destroy(h);
                        } else if abs_i64(e.pos.x) > CULL_X {
                            self.store.destroy(h);
                        }
                    }
                },
                None => {},
            }
            i = i + 1;
        }
    }
}

} // verus!
