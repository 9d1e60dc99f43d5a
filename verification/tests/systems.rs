//! The per-tick systems, each exercised directly: spawner thresholds and
//! formulas, homing steps, linear integration, boundary culling, and
//! collision resolution.

use voidship::entity::{EnemyKind, Entity, EntityData};
use voidship::geom::Vec2i;
use voidship::sim::{PressedKeys, SimState, SpawnDraws};
use voidship::store::Handle;
use voidship::{
    CULL_X, CULL_Y, DRILL_SPAWN_Y, HALF_X, HALF_Y, METEOR_SPEED, SHOT_OFFSET_X, SHOT_OFFSET_Y,
    SHOT_SPEED,
};

fn draws(n: u8, pos: u32, drift: u32, fall: u32) -> SpawnDraws {
    SpawnDraws { n, pos, drift, fall }
}

fn meteor(pos: Vec2i, vel: Vec2i) -> Entity {
    Entity { pos, data: EntityData::Enemy { kind: EnemyKind::Meteor { vel } } }
}

fn shot(pos: Vec2i) -> Entity {
    Entity { pos, data: EntityData::Shot { vel: Vec2i { x: 0, y: SHOT_SPEED } } }
}

fn live_count(state: &SimState) -> usize {
    state.store.live_handles().len()
}

#[test]
fn no_enemy_spawns_at_or_below_220() {
    let mut state = SimState::new();
    assert_eq!(state.maybe_spawn_enemy(draws(220, 5, 6, 7)), None);
    assert_eq!(state.maybe_spawn_enemy(draws(0, 5, 6, 7)), None);
    assert_eq!(live_count(&state), 1);
}

#[test]
fn drill_spawns_above_240_at_top_edge() {
    let mut state = SimState::new();
    let h = state.maybe_spawn_enemy(draws(241, 0, 0, 0)).unwrap();
    let e = state.store.get(h).unwrap();
    assert_eq!(e.pos, Vec2i { x: HALF_X, y: DRILL_SPAWN_Y });
    assert_eq!(e.data, EntityData::Enemy { kind: EnemyKind::Drill });
    assert_eq!(live_count(&state), 2);
}

#[test]
fn drill_spawn_x_spans_arena_width() {
    let mut state = SimState::new();
    // frac 500 lands in the middle, frac 999 just shy of the left edge.
    let mid = state.maybe_spawn_enemy(draws(255, 1_500, 0, 0)).unwrap();
    assert_eq!(state.store.get(mid).unwrap().pos.x, HALF_X - 500 * 600);
    let left = state.maybe_spawn_enemy(draws(255, 999, 0, 0)).unwrap();
    assert_eq!(state.store.get(left).unwrap().pos.x, HALF_X - 999 * 600);
}

#[test]
fn meteor_spawns_between_221_and_240() {
    let mut state = SimState::new();
    let h = state.maybe_spawn_enemy(draws(230, 0, 0, 0)).unwrap();
    let e = state.store.get(h).unwrap();
    assert_eq!(e.pos, Vec2i { x: -HALF_X, y: HALF_Y });
    match e.data {
        EntityData::Enemy { kind: EnemyKind::Meteor { vel } } => {
            // drift draw 0: full leftward drift; fall draw 0: half speed down.
            assert_eq!(vel, Vec2i { x: -500 * 4, y: -METEOR_SPEED / 2 });
        }
        other => panic!("expected a meteor, got {:?}", other),
    }
}

#[test]
fn meteor_velocity_bounds_from_extreme_draws() {
    let mut state = SimState::new();
    let fast = state.maybe_spawn_enemy(draws(240, 999, 999, 999)).unwrap();
    match state.store.get(fast).unwrap().data {
        EntityData::Enemy { kind: EnemyKind::Meteor { vel } } => {
            assert_eq!(vel, Vec2i { x: (999 - 500) * 4, y: -999 * 4 });
        }
        other => panic!("expected a meteor, got {:?}", other),
    }
    let slow = state.maybe_spawn_enemy(draws(221, 0, 250, 499)).unwrap();
    match state.store.get(slow).unwrap().data {
        EntityData::Enemy { kind: EnemyKind::Meteor { vel } } => {
            // The downward speed never falls below half of METEOR_SPEED.
            assert_eq!(vel, Vec2i { x: (250 - 500) * 4, y: -2_000 });
        }
        other => panic!("expected a meteor, got {:?}", other),
    }
}

#[test]
fn at_most_one_enemy_per_spawn_call() {
    let mut state = SimState::new();
    for n in [0u8, 100, 220, 221, 240, 241, 255] {
        let before = live_count(&state);
        let spawned = state.maybe_spawn_enemy(draws(n, 123, 456, 789));
        let grown = if n > 220 { 1 } else { 0 };
        assert_eq!(live_count(&state), before + grown);
        assert_eq!(spawned.is_some(), n > 220);
    }
}

#[test]
fn shots_fire_in_pairs_every_fourth_call() {
    let mut state = SimState::new();
    for round in 0..2 {
        for _ in 0..3 {
            assert_eq!(state.spawn_shots(), None, "round {round}");
        }
        let (a, b) = state.spawn_shots().expect("fourth call fires");
        assert_ne!(a, b);
        let ea = state.store.get(a).unwrap();
        let eb = state.store.get(b).unwrap();
        // Symmetric about the player's x, shifted up, moving straight up.
        assert_eq!(ea.pos, Vec2i { x: SHOT_OFFSET_X, y: SHOT_OFFSET_Y });
        assert_eq!(eb.pos, Vec2i { x: -SHOT_OFFSET_X, y: SHOT_OFFSET_Y });
        assert_eq!(ea.data, EntityData::Shot { vel: Vec2i { x: 0, y: SHOT_SPEED } });
        assert_eq!(eb.data, EntityData::Shot { vel: Vec2i { x: 0, y: SHOT_SPEED } });
    }
}

#[test]
fn drill_homes_straight_down_by_one_step() {
    let mut state = SimState::new();
    let h = state.store.create(Entity {
        pos: Vec2i { x: 0, y: HALF_Y },
        data: EntityData::Enemy { kind: EnemyKind::Drill },
    });
    state.move_drills();
    // Straight above the player, the whole step is vertical: 3333.
    assert_eq!(state.store.get(h).unwrap().pos, Vec2i { x: 0, y: HALF_Y - 3_333 });
}

#[test]
fn drill_step_splits_across_axes() {
    let mut state = SimState::new();
    let h = state.store.create(Entity {
        pos: Vec2i { x: 30_000, y: 40_000 },
        data: EntityData::Enemy { kind: EnemyKind::Drill },
    });
    state.move_drills();
    // Distance 50_000: the axes move 30000*3333/50000 = 1999 (rounded
    // down) and 40000*3333/50000 = 2666.
    assert_eq!(state.store.get(h).unwrap().pos, Vec2i { x: 30_000 - 1_999, y: 40_000 - 2_666 });
}

#[test]
fn drill_within_one_step_lands_on_player() {
    let mut state = SimState::new();
    let h = state.store.create(Entity {
        pos: Vec2i { x: 0, y: 3_000 },
        data: EntityData::Enemy { kind: EnemyKind::Drill },
    });
    state.move_drills();
    assert_eq!(state.store.get(h).unwrap().pos, Vec2i { x: 0, y: 0 });
}

#[test]
fn drill_exactly_on_player_stays_put() {
    let mut state = SimState::new();
    let h = state.store.create(Entity {
        pos: Vec2i { x: 0, y: 0 },
        data: EntityData::Enemy { kind: EnemyKind::Drill },
    });
    state.move_drills();
    assert_eq!(state.store.get(h).unwrap().pos, Vec2i { x: 0, y: 0 });
}

#[test]
fn fresh_drill_is_clamped_into_arena_on_first_step() {
    let mut state = SimState::new();
    let h = state.maybe_spawn_enemy(draws(255, 1_500, 0, 0)).unwrap();
    assert_eq!(state.store.get(h).unwrap().pos.y, DRILL_SPAWN_Y);
    state.move_drills();
    // The step from the top edge toward the player ends far above the
    // clamp band, so the clamp pins y at HALF_Y.
    assert_eq!(state.store.get(h).unwrap().pos.y, HALF_Y);
}

#[test]
fn linear_movement_adds_velocity_once() {
    let mut state = SimState::new();
    let m = state
        .store
        .create(meteor(Vec2i { x: 1_000, y: 2_000 }, Vec2i { x: -30, y: -4_000 }));
    let s = state.store.create(shot(Vec2i { x: 0, y: 10_000 }));
    state.apply_linear_movement();
    assert_eq!(state.store.get(m).unwrap().pos, Vec2i { x: 970, y: -2_000 });
    assert_eq!(state.store.get(s).unwrap().pos, Vec2i { x: 0, y: 20_000 });
    // The player carries no velocity and stays put.
    assert_eq!(state.store.get(state.player).unwrap().pos, Vec2i { x: 0, y: 0 });
}

#[test]
fn culler_removes_linear_movers_past_margin() {
    let mut state = SimState::new();
    let out_y = state.store.create(meteor(Vec2i { x: 0, y: CULL_Y + 1 }, Vec2i { x: 0, y: 0 }));
    let out_x = state.store.create(shot(Vec2i { x: -CULL_X - 1, y: 0 }));
    let out_both =
        state.store.create(meteor(Vec2i { x: CULL_X + 5, y: -CULL_Y - 5 }, Vec2i { x: 0, y: 0 }));
    let edge = state.store.create(meteor(Vec2i { x: CULL_X, y: -CULL_Y }, Vec2i { x: 0, y: 0 }));
    state.cull_outside();
    assert_eq!(state.store.get(out_y), None);
    assert_eq!(state.store.get(out_x), None);
    assert_eq!(state.store.get(out_both), None);
    // Exactly on the limit is not beyond it.
    assert!(state.store.get(edge).is_some());
}

#[test]
fn culler_spares_player_and_drills() {
    let mut state = SimState::new();
    let drill = state.store.create(Entity {
        pos: Vec2i { x: 0, y: DRILL_SPAWN_Y },
        data: EntityData::Enemy { kind: EnemyKind::Drill },
    });
    state.cull_outside();
    assert!(state.store.get(drill).is_some());
    assert!(state.store.get(state.player).is_some());
}

#[test]
fn shot_and_enemy_destroyed_on_overlap() {
    let mut state = SimState::new();
    let e = state.store.create(meteor(Vec2i { x: 0, y: 200_000 }, Vec2i { x: 0, y: 0 }));
    let s = state.store.create(shot(Vec2i { x: 0, y: 190_000 }));
    state.check_for_collisions();
    assert_eq!(state.store.get(e), None);
    assert_eq!(state.store.get(s), None);
    assert!(state.store.get(state.player).is_some());
    assert!(!state.game_over);
}

#[test]
fn disjoint_boxes_survive_collision_pass() {
    let mut state = SimState::new();
    // 34_000 apart vertically: the half-extents sum to exactly 34_000 and
    // overlap is strict, so the boxes only touch.
    let e = state.store.create(meteor(Vec2i { x: 0, y: 134_000 }, Vec2i { x: 0, y: 0 }));
    let s = state.store.create(shot(Vec2i { x: 0, y: 100_000 }));
    state.check_for_collisions();
    assert!(state.store.get(e).is_some());
    assert!(state.store.get(s).is_some());
}

#[test]
fn two_shots_one_enemy_destroyed_exactly_once() {
    let mut state = SimState::new();
    let e = state.store.create(meteor(Vec2i { x: 0, y: 200_000 }, Vec2i { x: 0, y: 0 }));
    let s1 = state.store.create(shot(Vec2i { x: -2_000, y: 200_000 }));
    let s2 = state.store.create(shot(Vec2i { x: 2_000, y: 200_000 }));
    state.check_for_collisions();
    assert_eq!(state.store.get(e), None);
    assert_eq!(state.store.get(s1), None);
    assert_eq!(state.store.get(s2), None);
    assert_eq!(state.store.live_handles(), vec![state.player]);
}

#[test]
fn one_shot_two_enemies_both_destroyed() {
    let mut state = SimState::new();
    let e1 = state.store.create(meteor(Vec2i { x: -20_000, y: 200_000 }, Vec2i { x: 0, y: 0 }));
    let e2 = state.store.create(meteor(Vec2i { x: 20_000, y: 200_000 }, Vec2i { x: 0, y: 0 }));
    let s = state.store.create(shot(Vec2i { x: 0, y: 200_000 }));
    state.check_for_collisions();
    assert_eq!(state.store.get(e1), None);
    assert_eq!(state.store.get(e2), None);
    assert_eq!(state.store.get(s), None);
}

#[test]
fn enemy_overlapping_player_ends_game() {
    let mut state = SimState::new();
    let e = state.store.create(meteor(Vec2i { x: 0, y: 30_000 }, Vec2i { x: 0, y: 0 }));
    state.check_for_collisions();
    assert!(state.game_over);
    // The player entity itself is not destroyed, and the enemy was not
    // hit by any shot.
    assert!(state.store.get(state.player).is_some());
    assert!(state.store.get(e).is_some());
}

#[test]
fn enemy_clear_of_player_leaves_game_running() {
    let mut state = SimState::new();
    // 42_000 is the exact sum of the half-extents; strict overlap fails.
    state.store.create(meteor(Vec2i { x: 0, y: 42_000 }, Vec2i { x: 0, y: 0 }));
    state.check_for_collisions();
    assert!(!state.game_over);
}

#[test]
fn player_moves_on_both_axes_independently() {
    let mut state = SimState::new();
    let keys = PressedKeys { left: false, right: true, up: true, down: false };
    state.move_player(keys);
    assert_eq!(state.store.get(state.player).unwrap().pos, Vec2i { x: 10_000, y: 10_000 });
    let opposed = PressedKeys { left: true, right: true, up: false, down: true };
    state.move_player(opposed);
    // Opposed horizontal keys cancel; down moves alone.
    assert_eq!(state.store.get(state.player).unwrap().pos, Vec2i { x: 10_000, y: 0 });
}

#[test]
fn destroyed_handles_stay_invalid_across_later_ticks() {
    let mut state = SimState::new();
    let e = state.store.create(meteor(Vec2i { x: 0, y: 200_000 }, Vec2i { x: 0, y: 0 }));
    let s = state.store.create(shot(Vec2i { x: 0, y: 200_000 }));
    state.check_for_collisions();
    assert_eq!(state.store.get(e), None);
    for _ in 0..8 {
        state.tick_with_draws(PressedKeys::none(), draws(0, 0, 0, 0));
        assert_eq!(state.store.get(e), None);
        assert_eq!(state.store.get(s), None);
    }
}

#[test]
fn handles_of_unknown_slots_are_invalid() {
    let state = SimState::new();
    assert_eq!(state.store.get(Handle { index: 99, gen: 0 }), None);
}
