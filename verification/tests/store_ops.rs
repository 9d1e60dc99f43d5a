//! The entity store: handle lifecycle, idempotent destruction, and
//! generation-protected slot reuse.

use voidship::entity::{EnemyKind, Entity, EntityData};
use voidship::geom::Vec2i;
use voidship::store::EntityStore;

fn meteor_at(x: i64, y: i64) -> Entity {
    Entity {
        pos: Vec2i { x, y },
        data: EntityData::Enemy { kind: EnemyKind::Meteor { vel: Vec2i { x: 0, y: 0 } } },
    }
}

#[test]
fn create_then_get_returns_entity() {
    let mut store = EntityStore::new();
    let e = meteor_at(10, 20);
    let h = store.create(e);
    assert_eq!(store.get(h), Some(e));
}

#[test]
fn destroy_invalidates_handle() {
    let mut store = EntityStore::new();
    let h = store.create(meteor_at(0, 0));
    store.destroy(h);
    assert_eq!(store.get(h), None);
}

#[test]
fn destroy_is_idempotent() {
    let mut store = EntityStore::new();
    let h = store.create(meteor_at(0, 0));
    let keep = store.create(meteor_at(5, 5));
    store.destroy(h);
    store.destroy(h);
    store.destroy(h);
    assert_eq!(store.get(h), None);
    assert_eq!(store.get(keep), Some(meteor_at(5, 5)));
}

#[test]
fn destroy_unknown_handle_is_noop() {
    let mut store = EntityStore::new();
    let h = store.create(meteor_at(1, 1));
    store.destroy(voidship::store::Handle { index: 17, gen: 3 });
    assert_eq!(store.get(h), Some(meteor_at(1, 1)));
}

#[test]
fn stale_handle_never_reaches_reused_slot() {
    let mut store = EntityStore::new();
    let old = store.create(meteor_at(1, 1));
    store.destroy(old);
    // The freed slot is reused with a bumped generation.
    let new = store.create(meteor_at(2, 2));
    assert_eq!(new.index, old.index);
    assert_ne!(new.gen, old.gen);
    assert_eq!(store.get(old), None);
    assert_eq!(store.get(new), Some(meteor_at(2, 2)));
    // Destroying through the stale handle must not touch the new entity.
    store.destroy(old);
    assert_eq!(store.get(new), Some(meteor_at(2, 2)));
}

#[test]
fn update_replaces_entity_and_rejects_stale() {
    let mut store = EntityStore::new();
    let h = store.create(meteor_at(1, 1));
    assert!(store.update(h, meteor_at(9, 9)));
    assert_eq!(store.get(h), Some(meteor_at(9, 9)));
    store.destroy(h);
    assert!(!store.update(h, meteor_at(3, 3)));
    assert_eq!(store.get(h), None);
}

#[test]
fn live_handles_lists_live_entities_in_slot_order() {
    let mut store = EntityStore::new();
    let a = store.create(meteor_at(1, 0));
    let b = store.create(meteor_at(2, 0));
    let c = store.create(meteor_at(3, 0));
    store.destroy(b);
    let live = store.live_handles();
    assert_eq!(live, vec![a, c]);
}
