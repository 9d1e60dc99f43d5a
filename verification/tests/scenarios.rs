//! Whole-tick scenarios: the clamp behavior over many ticks, the volley
//! cadence inside full ticks, an immediate-overlap resolution, and runs
//! with the live random source.

use voidship::entity::{EnemyKind, Entity, EntityData};
use voidship::geom::Vec2i;
use voidship::sim::{PressedKeys, SimState, SpawnDraws};
use voidship::{HALF_X, HALF_Y, PLAYER_SPEED, SHOT_SPEED};

fn no_spawn() -> SpawnDraws {
    SpawnDraws { n: 0, pos: 0, drift: 0, fall: 0 }
}

fn right() -> PressedKeys {
    PressedKeys { left: false, right: true, up: false, down: false }
}

fn player_pos(state: &SimState) -> Vec2i {
    state.store.get(state.player).unwrap().pos
}

#[test]
fn sixty_ticks_right_ends_one_step_past_the_clamp() {
    let mut state = SimState::new();
    for _ in 0..60 {
        state.tick_with_draws(right(), no_spawn());
    }
    // 60 steps of 10 units would reach 600, but each tick clamps the
    // previous position into [-300, 300] before adding the step, so the
    // player settles one step past the half-extent: 310 units.
    assert_eq!(player_pos(&state).x, HALF_X + PLAYER_SPEED);
    assert_eq!(player_pos(&state).y, 0);
}

#[test]
fn releasing_the_key_pulls_the_player_back_inside() {
    let mut state = SimState::new();
    for _ in 0..40 {
        state.tick_with_draws(right(), no_spawn());
    }
    assert_eq!(player_pos(&state).x, HALF_X + PLAYER_SPEED);
    state.tick_with_draws(PressedKeys::none(), no_spawn());
    assert_eq!(player_pos(&state).x, HALF_X);
}

#[test]
fn player_position_is_cumulative_before_the_clamp() {
    let mut state = SimState::new();
    for k in 1i64..=25 {
        state.tick_with_draws(right(), no_spawn());
        assert_eq!(player_pos(&state).x, k * PLAYER_SPEED);
    }
}

#[test]
fn volley_fires_every_fourth_tick_and_moves_once() {
    let mut state = SimState::new();
    for t in 1..=8 {
        let before = state.store.live_handles().len();
        state.tick_with_draws(PressedKeys::none(), no_spawn());
        let after = state.store.live_handles().len();
        if t % 4 == 0 {
            assert_eq!(after, before + 2, "tick {t}");
        } else {
            assert_eq!(after, before, "tick {t}");
        }
    }
    // Shots spawn 20 units above the player and have moved with every
    // tick since; after tick 8 the first pair sits at 20 + 5 * 10 and
    // the second at 20 + 1 * 10 units.
    let mut ys: Vec<i64> = state
        .store
        .live_handles()
        .into_iter()
        .map(|h| state.store.get(h).unwrap())
        .filter(|e| matches!(e.data, EntityData::Shot { .. }))
        .map(|e| e.pos.y)
        .collect();
    ys.sort();
    assert_eq!(ys, vec![30_000, 30_000, 70_000, 70_000]);
}

#[test]
fn immediate_overlap_invalidates_both_handles() {
    let mut state = SimState::new();
    let enemy = state.store.create(Entity {
        pos: Vec2i { x: 0, y: HALF_Y },
        data: EntityData::Enemy { kind: EnemyKind::Meteor { vel: Vec2i { x: 0, y: 0 } } },
    });
    let shot = state.store.create(Entity {
        pos: Vec2i { x: 0, y: HALF_Y },
        data: EntityData::Shot { vel: Vec2i { x: 0, y: SHOT_SPEED } },
    });
    state.check_for_collisions();
    assert_eq!(state.store.get(enemy), None);
    assert_eq!(state.store.get(shot), None);
}

#[test]
fn drill_closes_in_on_the_player_every_tick() {
    let mut state = SimState::new();
    let drill = state.store.create(Entity {
        pos: Vec2i { x: 120_000, y: 250_000 },
        data: EntityData::Enemy { kind: EnemyKind::Drill },
    });
    let dist2 = |p: Vec2i| p.x * p.x + p.y * p.y;
    let mut last = dist2(state.store.get(drill).unwrap().pos);
    for _ in 0..40 {
        state.move_drills();
        let now = dist2(state.store.get(drill).unwrap().pos);
        assert!(now < last, "distance must shrink every tick");
        last = now;
    }
}

#[test]
fn live_random_ticks_keep_the_player_centered_and_well_formed() {
    let mut state = SimState::new();
    for _ in 0..120 {
        state.tick(PressedKeys::none());
        let p = state.store.get(state.player).expect("player stays live");
        assert_eq!(p.pos, Vec2i { x: 0, y: 0 });
        assert!(matches!(p.data, EntityData::Player { .. }));
        assert!(state.shot_counter < 4);
    }
}

#[test]
fn score_starts_at_zero_and_is_untouched_by_ticks() {
    let mut state = SimState::new();
    assert_eq!(state.score, 0);
    for _ in 0..10 {
        state.tick_with_draws(right(), no_spawn());
    }
    assert_eq!(state.score, 0);
}
