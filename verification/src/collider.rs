//! The collision resolver: every (shot, enemy) pair with overlapping boxes
//! marks both for destruction; every (enemy, player) overlap ends the
//! game. Marks are deduplicated and applied as one batch after the whole
//! scan, so an entity hit several times in one tick is destroyed exactly
//! once.

use vstd::prelude::*;

use crate::entity::Entity;
use crate::entity::EntityData;
use crate::geom::aabb_overlap;
use crate::geom::aabb_overlap_spec;
use crate::geom::Vec2i;
use crate::sim::SimState;
use crate::store::EntityStore;
use crate::store::Handle;
use crate::ENEMY_HALF_X;
use crate::ENEMY_HALF_Y;
use crate::PLAYER_HALF_X;
use crate::PLAYER_HALF_Y;
use crate::SHOT_HALF_X;
use crate::SHOT_HALF_Y;

verus! {

/// Whether a shot's box overlaps an enemy's box.
pub open spec fn shot_hits_enemy(shot: Entity, enemy: Entity) -> bool {
    aabb_overlap_spec(
        shot.pos,
        SHOT_HALF_X as int,
        SHOT_HALF_Y as int,
        enemy.pos,
        ENEMY_HALF_X as int,
        ENEMY_HALF_Y as int,
    )
}

/// Whether an enemy's box overlaps the player's box.
pub open spec fn enemy_hits_player(enemy: Entity, player: Entity) -> bool {
    aabb_overlap_spec(
        player.pos,
        PLAYER_HALF_X as int,
        PLAYER_HALF_Y as int,
        enemy.pos,
        ENEMY_HALF_X as int,
        ENEMY_HALF_Y as int,
    )
}

/// Whether the resolver destroys the entity behind `h`: an enemy
/// overlapping some live shot, or a shot overlapping some live enemy.
pub open spec fn hit(s: EntityStore, h: Handle) -> bool {
    s.valid(h) && ((s.at(h).is_enemy() && exists|h2: Handle| #![auto]
        s.valid(h2) && s.at(h2).is_shot() && shot_hits_enemy(s.at(h2), s.at(h))) || (
    s.at(h).is_shot() && exists|h2: Handle| #![auto]
        s.valid(h2) && s.at(h2).is_enemy() && shot_hits_enemy(s.at(h), s.at(h2))))
}

/// `hit`, restricted to the enemies of the first `i` slots: the part of
/// the scan already covered.
spec fn hit_upto(s: EntityStore, h: Handle, i: int) -> bool {
    s.valid(h) && ((s.at(h).is_enemy() && h.index < i && exists|h2: Handle| #![auto]
        s.valid(h2) && s.at(h2).is_shot() && shot_hits_enemy(s.at(h2), s.at(h))) || (
    s.at(h).is_shot() && exists|h2: Handle| #![auto]
        s.valid(h2) && s.at(h2).is_enemy() && h2.index < i && shot_hits_enemy(s.at(h), s.at(h2))))
}

/// Extending the scanned prefix past a slot that holds no live enemy
/// changes nothing.
proof fn lemma_hit_upto_skip(s: EntityStore, i: int)
    requires
        0 <= i < s.slots@.len(),
        !(s.live_at(i) && s.at(s.handle_of(i)).is_enemy()),
    ensures
        forall|h: Handle| hit_upto(s, h, i + 1) <==> hit_upto(s, h, i),
{
    assert forall|h: Handle| hit_upto(s, h, i + 1) implies hit_upto(s, h, i) by {
        if s.at(h).is_enemy() && h.index < i + 1 && exists|h2: Handle| #![auto]
            s.valid(h2) && s.at(h2).is_shot() && shot_hits_enemy(s.at(h2), s.at(h)) {
            assert(h.index != i);
        } else {
            let h2 = choose|h2: Handle| #![auto]
                s.valid(h2) && s.at(h2).is_enemy() && h2.index < i + 1 && shot_hits_enemy(
                    s.at(h),
                    s.at(h2),
                );
            assert(h2.index != i);
            assert(s.valid(h2) && s.at(h2).is_enemy() && h2.index < i && shot_hits_enemy(
                s.at(h),
                s.at(h2),
            ));
        }
    }
    assert forall|h: Handle| hit_upto(s, h, i) implies hit_upto(s, h, i + 1) by {
        if s.at(h).is_enemy() && h.index < i {
        } else {
            let h2 = choose|h2: Handle| #![auto]
                s.valid(h2) && s.at(h2).is_enemy() && h2.index < i && shot_hits_enemy(
                    s.at(h),
                    s.at(h2),
                );
            assert(s.valid(h2) && s.at(h2).is_enemy() && h2.index < i + 1 && shot_hits_enemy(
                s.at(h),
                s.at(h2),
            ));
        }
    }
}

/// The whole arena scanned is the full `hit` relation.
proof fn lemma_hit_upto_full(s: EntityStore)
    ensures
        forall|h: Handle| hit_upto(s, h, s.slots@.len() as int) <==> hit(s, h),
{
    let n = s.slots@.len() as int;
    assert forall|h: Handle| hit(s, h) implies hit_upto(s, h, n) by {
        if s.at(h).is_enemy() && exists|h2: Handle| #![auto]
            s.valid(h2) && s.at(h2).is_shot() && shot_hits_enemy(s.at(h2), s.at(h)) {
            assert(h.index < n);
        } else {
            let h2 = choose|h2: Handle| #![auto]
                s.valid(h2) && s.at(h2).is_enemy() && shot_hits_enemy(s.at(h), s.at(h2));
            assert(s.valid(h2) && s.at(h2).is_enemy() && h2.index < n && shot_hits_enemy(
                s.at(h),
                s.at(h2),
            ));
        }
    }
    assert forall|h: Handle| hit_upto(s, h, n) implies hit(s, h) by {
        if s.at(h).is_enemy() && h.index < n && exists|h2: Handle| #![auto]
            s.valid(h2) && s.at(h2).is_shot() && shot_hits_enemy(s.at(h2), s.at(h)) {
        } else {
            let h2 = choose|h2: Handle| #![auto]
                s.valid(h2) && s.at(h2).is_enemy() && h2.index < n && shot_hits_enemy(
                    s.at(h),
                    s.at(h2),
                );
            assert(s.valid(h2) && s.at(h2).is_enemy() && shot_hits_enemy(s.at(h), s.at(h2)));
        }
    }
}

fn contains_handle(v: &Vec<Handle>, h: Handle) -> (r: bool)
    ensures
        r == v@.contains(h),
{
    let mut k: usize = 0;
    while k < v.len()
        invariant
            k <= v@.len(),
            forall|t: int| 0 <= t < k ==> v@[t] != h,
        decreases v@.len() - k,
    {
        if v[k] == h {
            return true;
        }
        k = k + 1;
    }
    false
}

/// Appends `h` unless it is already marked: the deduplication that makes
/// the destruction batch hit each entity once.
fn push_unique(v: &mut Vec<Handle>, h: Handle)
    ensures
        forall|h2: Handle| final(v)@.contains(h2) <==> old(v)@.contains(h2) || h2 == h,
{
    if !contains_handle(v, h) {
        let ghost prev = v@;
        v.push(h);
        proof {
            assert forall|h2: Handle| prev.contains(h2) implies v@.contains(h2) by {
                let k = choose|k: int| 0 <= k < prev.len() && prev[k] == h2;
                assert(v@[k] == h2);
            }
            assert(v@[v@.len() - 1] == h);
            assert forall|h2: Handle| v@.contains(h2) implies prev.contains(h2) || h2 == h by {
                let k = choose|k: int| 0 <= k < v@.len() && v@[k] == h2;
                if k < v@.len() - 1 {
                    assert(prev[k] == h2);
                }
            }
        }
    }
}

/// Everything one resolver pass does: exactly the hit shots and enemies
/// are destroyed — and retired for good — everything else stays, and the
/// game ends iff it had ended or some enemy overlaps the player.
pub open spec fn collisions_resolved(pre: SimState, post: SimState) -> bool {
    &&& post.wf()
    &&& post.player == pre.player
    &&& post.shot_counter == pre.shot_counter
    &&& post.score == pre.score
    &&& forall|h: Handle| post.store.valid(h) <==> pre.store.valid(h) && !hit(pre.store, h)
    &&& forall|h: Handle| #![auto] post.store.valid(h) ==> post.store.at(h) == pre.store.at(h)
    &&& forall|h: Handle| #![auto] pre.store.retired(h) ==> post.store.retired(h)
    &&& forall|h: Handle| #![auto]
        pre.store.valid(h) && hit(pre.store, h) ==> post.store.retired(h)
    &&& post.game_over == (pre.game_over || exists|h: Handle| #![auto]
        pre.store.valid(h) && pre.store.at(h).is_enemy() && enemy_hits_player(
            pre.store.at(h),
            pre.player_entity(),
        ))
}

impl SimState {
    /// Scans every (enemy, shot) pair and destroys, in one deduplicated
    /// batch, every shot and enemy whose boxes overlap; an enemy
    /// overlapping the player ends the game. The player entity itself is
    /// never destroyed.
    pub fn check_for_collisions(&mut self)
        requires
            old(self).wf(),
        ensures
            collisions_resolved(*old(self), *final(self)),
    {
        let pe = match self.store.get(self.player) {
            Some(e) => e,
            None => Entity { pos: Vec2i { x: 0, y: 0 }, data: EntityData::Player { speed: 0 } },
        };
        let n = self.store.slot_count();
        let mut marked: Vec<Handle> = Vec::new();
        let mut player_hit = false;
        let mut i: usize = 0;
        while i < n
            invariant
                old(self).wf(),
                *self == *old(self),
                n == self.store.slots@.len(),
                i <= n,
                pe == old(self).player_entity(),
                forall|h: Handle|
                    marked@.contains(h) <==> hit_upto(old(self).store, h, i as int),
                player_hit <==> exists|h: Handle| #![auto]
                    old(self).store.valid(h) && old(self).store.at(h).is_enemy() && h.index < i
                        && enemy_hits_player(old(self).store.at(h), pe),
            decreases n - i,
        {
            match self.store.entry_at(i) {
                Some((he, ee)) => {
                    let is_enemy = match ee.data {
                        EntityData::Enemy { .. } => true,
                        _ => false,
                    };
                    if is_enemy {
                        if aabb_overlap(
                            pe.pos,
                            PLAYER_HALF_X,
                            PLAYER_HALF_Y,
                            ee.pos,
                            ENEMY_HALF_X,
                            ENEMY_HALF_Y,
                        ) {
                            player_hit = true;
                        }
                        let mut j: usize = 0;
                        while j < n
                            invariant
                                old(self).wf(),
                                *self == *old(self),
                                n == self.store.slots@.len(),
                                i < n,
                                j <= n,
                                pe == old(self).player_entity(),
                                self.store.valid(he),
                                he.index == i,
                                self.store.at(he) == ee,
                                ee.is_enemy(),
                                he == self.store.handle_of(i as int),
                                forall|h: Handle|
                                    marked@.contains(h) <==> hit_upto(old(self).store, h, i as int)
                                        || (h == he && exists|hs: Handle| #![auto]
                                        old(self).store.valid(hs) && old(self).store.at(
                                        hs).is_shot() && hs.index < j && shot_hits_enemy(
                                        old(self).store.at(hs),
                                        ee,
                                    )) || (old(self).store.valid(h) && old(self).store.at(
                                    h).is_shot() && h.index < j && shot_hits_enemy(
                                        old(self).store.at(h),
                                        ee,
                                    )),
                                player_hit <==> exists|h: Handle| #![auto]
                                    old(self).store.valid(h) && old(self).store.at(h).is_enemy()
                                        && h.index < i + 1 && enemy_hits_player(
                                        old(self).store.at(h),
                                        pe,
                                    ),
                            decreases n - j,
                        {
                            match self.store.entry_at(j) {
                                Some((hs, es)) => {
                                    let is_shot = match es.data {
                                        EntityData::Shot { .. } => true,
                                        _ => false,
                                    };
                                    if is_shot && aabb_overlap(
                                        es.pos,
                                        SHOT_HALF_X,
                                        SHOT_HALF_Y,
                                        ee.pos,
                                        ENEMY_HALF_X,
                                        ENEMY_HALF_Y,
                                    ) {
                                        push_unique(&mut marked, he);
                                        push_unique(&mut marked, hs);
                                        proof {
                                            assert(old(self).store.valid(hs) && old(
                                                self,
                                            ).store.at(hs).is_shot() && hs.index < j + 1
                                                && shot_hits_enemy(old(self).store.at(hs), ee));
                                        }
                                    }
                                },
                                None => {},
                            }
                            j = j + 1;
                        }
                        proof {
                            assert forall|h: Handle| marked@.contains(h) implies hit_upto(
                                old(self).store,
                                h,
                                i + 1,
                            ) by {
                                if hit_upto(old(self).store, h, i as int) {
                                } else if h == he {
                                    let hs = choose|hs: Handle| #![auto]
                                        old(self).store.valid(hs) && old(self).store.at(
                                        hs).is_shot() && hs.index < n && shot_hits_enemy(
                                            old(self).store.at(hs),
                                            ee,
                                        );
                                    assert(old(self).store.valid(hs) && old(self).store.at(
                                    hs).is_shot() && shot_hits_enemy(
                                        old(self).store.at(hs),
                                        old(self).store.at(h),
                                    ));
                                } else {
                                    assert(old(self).store.valid(he) && old(self).store.at(
                                    he).is_enemy() && he.index < i + 1 && shot_hits_enemy(
                                        old(self).store.at(h),
                                        old(self).store.at(he),
                                    ));
                                }
                            }
                            assert forall|h: Handle| hit_upto(old(self).store, h, i + 1) implies
                                marked@.contains(h) by {
                                if hit_upto(old(self).store, h, i as int) {
                                } else if old(self).store.at(h).is_enemy() && h.index < i + 1
                                    && exists|h2: Handle| #![auto]
                                    old(self).store.valid(h2) && old(self).store.at(h2).is_shot()
                                        && shot_hits_enemy(
                                        old(self).store.at(h2),
                                        old(self).store.at(h),
                                    ) {
                                    assert(h.index == i);
                                    assert(h == he);
                                    let h2 = choose|h2: Handle| #![auto]
                                        old(self).store.valid(h2) && old(self).store.at(
                                        h2).is_shot() && shot_hits_enemy(
                                            old(self).store.at(h2),
                                            old(self).store.at(h),
                                        );
                                    assert(old(self).store.valid(h2) && old(self).store.at(
                                    h2).is_shot() && h2.index < n && shot_hits_enemy(
                                        old(self).store.at(h2),
                                        ee,
                                    ));
                                } else {
                                    let h2 = choose|h2: Handle| #![auto]
                                        old(self).store.valid(h2) && old(self).store.at(
                                        h2).is_enemy() && h2.index < i + 1 && shot_hits_enemy(
                                            old(self).store.at(h),
                                            old(self).store.at(h2),
                                        );
                                    assert(h2.index == i);
                                    assert(h2 == he);
                                    assert(old(self).store.valid(h) && old(self).store.at(
                                    h).is_shot() && h.index < n && shot_hits_enemy(
                                        old(self).store.at(h),
                                        ee,
                                    ));
                                }
                            }
                        }
                    } else {
                        proof {
                            lemma_hit_upto_skip(old(self).store, i as int);
                        }
                    }
                },
                None => {
                    proof {
                        lemma_hit_upto_skip(old(self).store, i as int);
                    }
                },
            }
            i = i + 1;
        }
        proof {
            lemma_hit_upto_full(old(self).store);
        }
        let m = marked.len();
        let mut k: usize = 0;
        while k < m
            invariant
                old(self).wf(),
                k <= m,
                m == marked@.len(),
                self.player == old(self).player,
                self.shot_counter == old(self).shot_counter,
                self.score == old(self).score,
                self.game_over == old(self).game_over,
                forall|h: Handle| marked@.contains(h) <==> hit(old(self).store, h),
                forall|h: Handle|
                    self.store.valid(h) <==> old(self).store.valid(h) && !(exists|t: int|
                        0 <= t < k && marked@[t] == h),
                forall|h: Handle| #![auto]
                    self.store.valid(h) ==> self.store.at(h) == old(self).store.at(h),
                forall|h: Handle| #![auto] old(self).store.retired(h) ==> self.store.retired(h),
                forall|h: Handle| #![auto]
                    old(self).store.valid(h) && (exists|t: int| 0 <= t < k && marked@[t] == h)
                        ==> self.store.retired(h),
            decreases m - k,
        {
            let victim = marked[k];
            self.store.destroy(victim);
            proof {
                assert(marked@[k as int] == victim);
            }
            k = k + 1;
        }
        proof {
            assert forall|h: Handle|
                self.store.valid(h) <==> (old(self).store.valid(h) && !hit(
                    old(self).store,
                    h,
                )) by {
                if marked@.contains(h) {
                    let t = choose|t: int| 0 <= t < marked@.len() && marked@[t] == h;
                    assert(exists|t2: int| 0 <= t2 < m && marked@[t2] == h);
                } else {
                    if exists|t: int| 0 <= t < m && marked@[t] == h {
                        let t = choose|t: int| 0 <= t < m && marked@[t] == h;
                        assert(marked@.contains(h));
                    }
                }
            }
            assert(!hit(old(self).store, old(self).player));
            assert forall|h: Handle|
                old(self).store.valid(h) && hit(old(self).store, h) implies self.store.retired(
                h,
            ) by {
                let t = choose|t: int| 0 <= t < marked@.len() && marked@[t] == h;
                assert(exists|t2: int| 0 <= t2 < m && marked@[t2] == h);
            }
        }
        if player_hit {
            self.game_over = true;
        }
    }
}

} // verus!
