use rideways::components::{EntityData, Invincibility, IsAlien, IsPlayer, Position, Sprite, Velocity};
use rideways::entity::{Entities, Entity};
use rideways::geometry::{Position as Point, Rect, RectSize};
use rideways::random::RandomSource;
use rideways::resources::{Arena, ControlState, ElapsedSeconds, PlayingGameState};
use rideways::storage::Storage;
use rideways::world::{Command, World};

fn arena() -> Arena {
    Arena(Rect::new(Point(0, 32_000_000), RectSize(1_200_000_000, 568_000_000)))
}

fn thing_at(x: i64, y: i64) -> EntityData {
    let mut d = EntityData::empty();
    d.position = Some(Position { rect: Rect::new(Point(x, y), RectSize(10, 10)) });
    d
}

#[test]
fn storage_gets_sets_and_removes_by_index() {
    let mut s: Storage<Velocity> = Storage::new();
    assert!(s.is_empty());
    assert_eq!(s.len(), 0);
    assert_eq!(s.get(0), None);
    s.push(None);
    s.push(None);
    s.insert(1, Velocity { x: 3, y: 4 });
    assert_eq!(s.get(1), Some(Velocity { x: 3, y: 4 }));
    assert_eq!(s.get(0), None);
    assert!(s.contains(1));
    assert!(!s.contains(0));
    assert!(!s.contains(7));
    assert!(!s.is_empty());
    s.remove(1);
    s.remove(9);
    assert_eq!(s.get(1), None);
    assert!(s.is_empty());
    s.put(0, Some(Velocity { x: -1, y: 0 }));
    assert_eq!(s.get(0), Some(Velocity { x: -1, y: 0 }));
    s.put(0, None);
    assert_eq!(s.get(0), None);
}

#[test]
fn registry_reuses_the_least_free_slot_with_a_new_generation() {
    let mut entities = Entities::new();
    let a = entities.create();
    let b = entities.create();
    let c = entities.create();
    assert_eq!(a, Entity { index: 0, generation: 0 });
    assert_eq!(b, Entity { index: 1, generation: 0 });
    assert_eq!(c, Entity { index: 2, generation: 0 });
    assert!(entities.delete(b));
    assert!(entities.delete(a));
    assert!(!entities.is_alive(a));
    assert!(!entities.is_alive(b));
    assert!(entities.is_alive(c));
    assert_eq!(entities.find_free(), 0);
    let d = entities.create();
    assert_eq!(d, Entity { index: 0, generation: 1 });
    assert!(entities.is_alive(d));
    assert!(!entities.is_alive(a));
    let e = entities.create();
    assert_eq!(e, Entity { index: 1, generation: 1 });
    assert_eq!(entities.len(), 3);
    assert_eq!(entities.entity_at(0), Some(d));
    assert_eq!(entities.entity_at(5), None);
    assert_eq!(entities.handle(2), c);
    assert!(entities.slot_alive(2));
    assert!(!entities.slot_alive(3));
}

#[test]
fn deleting_twice_is_a_no_op() {
    let mut entities = Entities::new();
    let a = entities.create();
    assert!(entities.delete(a));
    assert!(!entities.delete(a));
    assert!(!entities.delete(Entity { index: 40, generation: 0 }));
    assert_eq!(entities.handle(0).generation, 1);
}

#[test]
fn a_new_world_is_empty() {
    let world = World::new(arena());
    assert_eq!(world.len(), 0);
    assert_eq!(world.arena, arena());
    assert_eq!(world.elapsed, ElapsedSeconds(0));
    assert_eq!(world.control_state, ControlState::new());
    assert_eq!(world.playing_state, PlayingGameState { score: 0, lives_left: 3 });
    assert!(world.pending.is_empty());
}

#[test]
fn entities_made_at_once_can_be_read_back() {
    let mut world = World::new(arena());
    let mut d = thing_at(5, 6);
    d.is_alien = Some(IsAlien);
    d.velocity = Some(Velocity { x: 1, y: 2 });
    let e = world.create_now(d);
    assert_eq!(e, Entity { index: 0, generation: 0 });
    assert_eq!(world.read(0), d);
    assert_eq!(world.read(3), EntityData::empty());
    world.delete_now(e);
    assert_eq!(world.read(0), EntityData::empty());
    assert!(!world.entities.is_alive(e));
    world.delete_now(e);
    assert_eq!(world.len(), 1);
    let again = world.create_now(thing_at(1, 1));
    assert_eq!(again, Entity { index: 0, generation: 1 });
    assert_eq!(world.read(0), thing_at(1, 1));
}

#[test]
fn queued_commands_wait_for_maintain() {
    let mut world = World::new(arena());
    let first = world.create_now(thing_at(1, 1));
    world.queue(Command::Create(thing_at(2, 2)));
    world.queue(Command::Delete(first));
    world.queue(Command::Create(thing_at(3, 3)));
    assert_eq!(world.len(), 1);
    assert!(world.entities.is_alive(first));
    assert_eq!(world.pending.len(), 3);
    world.maintain();
    assert!(world.pending.is_empty());
    assert!(!world.entities.is_alive(first));
    assert_eq!(world.len(), 2);
    assert_eq!(world.read(1), thing_at(2, 2));
    assert_eq!(world.read(0), thing_at(3, 3));
    assert_eq!(world.entities.handle(0), Entity { index: 0, generation: 1 });
}

#[test]
fn commands_on_dead_entities_change_nothing() {
    let mut world = World::new(arena());
    let e = world.create_now(thing_at(1, 1));
    world.delete_now(e);
    let other = world.create_now(thing_at(2, 2));
    assert_eq!(other.index, e.index);
    world.queue(Command::SetSprite(e, Sprite::Glow));
    world.queue(Command::RemoveInvincibility(e));
    world.queue(Command::Delete(e));
    world.maintain();
    assert_eq!(world.read(0), thing_at(2, 2));
    assert!(world.entities.is_alive(other));
}

#[test]
fn invincibility_and_sprite_commands_touch_one_component() {
    let mut world = World::new(arena());
    let mut d = thing_at(1, 1);
    d.is_player = Some(IsPlayer);
    d.sprite = Some(Sprite::PlayerGhost);
    d.invincibility = Some(Invincibility { micros_left: 7 });
    let e = world.create_now(d);
    world.apply(Command::RemoveInvincibility(e));
    d.invincibility = None;
    assert_eq!(world.read(0), d);
    world.apply(Command::SetSprite(e, Sprite::Player));
    d.sprite = Some(Sprite::Player);
    assert_eq!(world.read(0), d);
}

#[test]
fn delete_all_leaves_nothing_and_moves_generations_on() {
    let mut world = World::new(arena());
    let a = world.create_now(thing_at(1, 1));
    let b = world.create_now(thing_at(2, 2));
    world.delete_now(a);
    world.queue(Command::Create(thing_at(3, 3)));
    world.delete_all();
    assert!(world.pending.is_empty());
    assert_eq!(world.len(), 2);
    assert_eq!(world.read(1), EntityData::empty());
    assert!(!world.entities.is_alive(b));
    assert_eq!(world.entities.handle(0).generation, 1);
    assert_eq!(world.entities.handle(1).generation, 1);
    world.maintain();
    assert_eq!(world.len(), 2);
    assert_eq!(world.read(0), EntityData::empty());
}

#[test]
fn resources_are_replaced_one_by_one() {
    let mut world = World::new(arena());
    world.set_elapsed(ElapsedSeconds(16_000));
    world.set_playing_state(PlayingGameState { score: 9, lives_left: 1 });
    let mut control = ControlState::new();
    control.fire = true;
    world.set_control_state(control);
    let small = Arena(Rect::new(Point(0, 0), RectSize(5, 5)));
    world.set_arena(small);
    assert_eq!(world.elapsed, ElapsedSeconds(16_000));
    assert_eq!(world.playing_state, PlayingGameState { score: 9, lives_left: 1 });
    assert_eq!(world.control_state, control);
    assert_eq!(world.arena, small);
}

#[test]
fn random_source_stays_in_range() {
    let mut rng = RandomSource::new(7);
    for _ in 0..1000 {
        let r = rng.between(-600, -200);
        assert!((-600..-200).contains(&r));
    }
    assert_eq!(rng.between(5, 6), 5);
}

#[test]
fn random_source_gives_up_on_empty_ranges() {
    let mut rng = RandomSource::new(7);
    assert_eq!(rng.between(5, 5), 5);
    assert_eq!(rng.between(9, 2), 9);
}

#[test]
fn random_source_varies_and_repeats_by_seed() {
    let mut rng = RandomSource::new(42);
    let draws: Vec<i64> = (0..100).map(|_| rng.between(0, 1_000_000)).collect();
    assert!(draws.iter().any(|d| *d != draws[0]));
    assert!(draws.iter().any(|d| *d != 0));
    let mut same = RandomSource::new(42);
    let again: Vec<i64> = (0..100).map(|_| same.between(0, 1_000_000)).collect();
    assert_eq!(draws, again);
    let mut other = RandomSource::new(43);
    let different: Vec<i64> = (0..100).map(|_| other.between(0, 1_000_000)).collect();
    assert_ne!(draws, different);
}

#[test]
fn components_can_be_tested_before_they_are_handed_over() {
    assert!(EntityData::empty().is_wf());
    assert!(thing_at(1, 2).is_wf());
    let mut lost = EntityData::empty();
    lost.reap_when_outside = Some(rideways::components::ReapWhenOutside);
    assert!(!lost.is_wf());
    lost.position = thing_at(1, 2).position;
    assert!(lost.is_wf());
    let mut broken = thing_at(1, 2);
    broken.position = Some(Position {
        rect: Rect { topleft: Point(0, 0), size: RectSize(-1, 5) },
    });
    assert!(!broken.is_wf());
    assert!(!Rect { topleft: Point(i64::MAX, 0), size: RectSize(1, 5) }.is_wf());
    assert!(Rect::new(Point(i64::MAX, 0), RectSize(1, 5)).is_wf());
}
