use rideways::components::{
    EntityData, HarmsAliens, HarmsPlayer, Invincibility, IsAlien, IsExplosion, IsPlayer, Lifetime,
    Position, SpawnerKind,
};
use rideways::geometry::{Position as Point, Rect, RectSize};
use rideways::resources::{Arena, PlayingGameState};
use rideways::systems::collision_checker_system::{make_explosion, CollisionChecker, Victim};
use rideways::world::{Command, World};

const PX: i64 = 1_000_000;

fn arena() -> Arena {
    Arena(Rect::new(Point(0, 32 * PX), RectSize(1200 * PX, 568 * PX)))
}

fn at(x: i64, y: i64, w: i64, h: i64) -> EntityData {
    let mut d = EntityData::empty();
    d.position = Some(Position { rect: Rect::new(Point(x, y), RectSize(w, h)) });
    d
}

fn alien_at(x: i64, y: i64) -> EntityData {
    let mut d = at(x, y, 30 * PX, 30 * PX);
    d.is_alien = Some(IsAlien);
    d
}

fn shot_at(x: i64, y: i64) -> EntityData {
    let mut d = at(x, y, 16 * PX, 4 * PX);
    d.harms_aliens = Some(HarmsAliens);
    d
}

fn bomb_at(x: i64, y: i64) -> EntityData {
    let mut d = at(x, y, 8 * PX, 8 * PX);
    d.harms_player = Some(HarmsPlayer);
    d
}

fn player_at(x: i64, y: i64) -> EntityData {
    let mut d = at(x, y, 40 * PX, 20 * PX);
    d.is_player = Some(IsPlayer);
    d
}

fn alien_blast(x: i64, y: i64) -> EntityData {
    let mut d = at(x, y, 0, 0);
    d.spawner_kind = Some(SpawnerKind::Fire(200_000));
    d.lifetime = Some(Lifetime { micros: 100_000 });
    d.is_explosion = Some(IsExplosion);
    d
}

fn player_blast(x: i64, y: i64) -> EntityData {
    let mut d = at(x, y, 0, 0);
    d.spawner_kind = Some(SpawnerKind::Fire(500_000));
    d.lifetime = Some(Lifetime { micros: 500_000 });
    d.is_explosion = Some(IsExplosion);
    d
}

#[test]
fn explosions_are_made_of_a_spawner_and_a_lifetime() {
    assert_eq!(make_explosion(Point(3, 4), 200_000, 100_000), alien_blast(3, 4));
    assert_eq!(make_explosion(Point(3, 4), 500_000, 500_000), player_blast(3, 4));
}

#[test]
fn a_shot_that_hits_an_alien_scores_and_leaves_an_explosion() {
    let mut world = World::new(arena());
    let alien = world.create_now(alien_at(500 * PX, 300 * PX));
    let shot = world.create_now(shot_at(490 * PX, 310 * PX));
    let far = world.create_now(alien_at(900 * PX, 300 * PX));
    CollisionChecker.run(&mut world);
    assert_eq!(world.playing_state, PlayingGameState { score: 1, lives_left: 3 });
    assert_eq!(
        world.pending,
        vec![
            Command::Delete(alien),
            Command::Delete(shot),
            Command::Create(alien_blast(500 * PX, 300 * PX)),
        ]
    );
    assert!(world.entities.is_alive(alien));
    world.maintain();
    assert!(!world.entities.is_alive(alien));
    assert!(!world.entities.is_alive(shot));
    assert!(world.entities.is_alive(far));
    assert_eq!(world.read(0), alien_blast(500 * PX, 300 * PX));
    assert_eq!(world.read(1), EntityData::empty());
}

#[test]
fn touching_is_hitting() {
    let mut world = World::new(arena());
    world.create_now(alien_at(500 * PX, 300 * PX));
    world.create_now(shot_at(484 * PX, 296 * PX));
    assert_eq!(world.find_hits(Victim::Alien), vec![(1, 0)]);
    let mut apart = World::new(arena());
    apart.create_now(alien_at(500 * PX, 300 * PX));
    apart.create_now(shot_at(484 * PX - 1, 296 * PX));
    assert_eq!(apart.find_hits(Victim::Alien), vec![]);
    CollisionChecker.run(&mut apart);
    assert!(apart.pending.is_empty());
    assert_eq!(apart.playing_state.score, 0);
}

#[test]
fn one_shot_on_two_aliens_scores_twice() {
    let mut world = World::new(arena());
    let a = world.create_now(alien_at(500 * PX, 300 * PX));
    let b = world.create_now(alien_at(505 * PX, 305 * PX));
    let shot = world.create_now(shot_at(506 * PX, 310 * PX));
    assert_eq!(world.find_hits(Victim::Alien), vec![(2, 0), (2, 1)]);
    CollisionChecker.run(&mut world);
    assert_eq!(world.playing_state.score, 2);
    assert_eq!(
        world.pending,
        vec![
            Command::Delete(a),
            Command::Delete(shot),
            Command::Delete(b),
            Command::Delete(shot),
            Command::Create(alien_blast(500 * PX, 300 * PX)),
            Command::Create(alien_blast(505 * PX, 305 * PX)),
        ]
    );
    world.maintain();
    assert!(!world.entities.is_alive(a));
    assert!(!world.entities.is_alive(b));
    assert!(!world.entities.is_alive(shot));
    assert_eq!(world.read(0), alien_blast(500 * PX, 300 * PX));
    assert_eq!(world.read(1), alien_blast(505 * PX, 305 * PX));
    assert_eq!(world.read(2), EntityData::empty());
}

#[test]
fn two_shots_on_one_alien_score_twice() {
    let mut world = World::new(arena());
    world.create_now(shot_at(500 * PX, 300 * PX));
    world.create_now(alien_at(500 * PX, 300 * PX));
    world.create_now(shot_at(501 * PX, 301 * PX));
    assert_eq!(world.find_hits(Victim::Alien), vec![(0, 1), (2, 1)]);
    CollisionChecker.run(&mut world);
    assert_eq!(world.playing_state.score, 2);
}

#[test]
fn the_score_stops_at_its_ceiling() {
    let mut world = World::new(arena());
    world.create_now(shot_at(500 * PX, 300 * PX));
    world.create_now(alien_at(500 * PX, 300 * PX));
    world.create_now(alien_at(501 * PX, 300 * PX));
    world.set_playing_state(PlayingGameState { score: u32::MAX - 1, lives_left: 2 });
    CollisionChecker.run(&mut world);
    assert_eq!(world.playing_state, PlayingGameState { score: u32::MAX, lives_left: 2 });
    let mut state = PlayingGameState { score: u32::MAX, lives_left: 1 };
    state.add_point();
    assert_eq!(state.score, u32::MAX);
    let mut small = PlayingGameState::new();
    small.add_point();
    assert_eq!(small.score, 1);
    world.add_points(0);
    assert_eq!(world.playing_state.score, u32::MAX);
}

#[test]
fn the_player_is_hit_by_what_harms_it() {
    let mut world = World::new(arena());
    let player = world.create_now(player_at(100 * PX, 300 * PX));
    let bomb = world.create_now(bomb_at(120 * PX, 310 * PX));
    let shot = world.create_now(shot_at(100 * PX, 300 * PX));
    CollisionChecker.run(&mut world);
    assert_eq!(world.playing_state.score, 0);
    assert_eq!(
        world.pending,
        vec![
            Command::Delete(bomb),
            Command::Delete(player),
            Command::Create(player_blast(100 * PX, 300 * PX)),
        ]
    );
    world.maintain();
    assert!(!world.entities.is_alive(player));
    assert!(!world.entities.is_alive(bomb));
    assert!(world.entities.is_alive(shot));
}

#[test]
fn every_hit_on_the_player_leaves_an_explosion() {
    let mut world = World::new(arena());
    let bomb_a = world.create_now(bomb_at(120 * PX, 310 * PX));
    let player = world.create_now(player_at(100 * PX, 300 * PX));
    let bomb_b = world.create_now(bomb_at(130 * PX, 310 * PX));
    CollisionChecker.run(&mut world);
    assert_eq!(
        world.pending,
        vec![
            Command::Delete(bomb_a),
            Command::Delete(player),
            Command::Delete(bomb_b),
            Command::Delete(player),
            Command::Create(player_blast(100 * PX, 300 * PX)),
            Command::Create(player_blast(100 * PX, 300 * PX)),
        ]
    );
    world.maintain();
    assert!(!world.entities.is_alive(player));
    assert!(!world.entities.is_alive(bomb_a));
    assert!(!world.entities.is_alive(bomb_b));
    let blasts = (0..world.len())
        .filter(|i| world.read(*i) == player_blast(100 * PX, 300 * PX))
        .count();
    assert_eq!(blasts, 2);
}

#[test]
fn an_invincible_player_is_not_hit() {
    let mut world = World::new(arena());
    let mut ghost = player_at(100 * PX, 300 * PX);
    ghost.invincibility = Some(Invincibility { micros_left: 1 });
    world.create_now(ghost);
    world.create_now(bomb_at(120 * PX, 310 * PX));
    assert_eq!(world.find_hits(Victim::Player), vec![]);
    CollisionChecker.run(&mut world);
    assert!(world.pending.is_empty());
}

#[test]
fn aliens_do_not_harm_each_other_nor_shots_the_player() {
    let mut world = World::new(arena());
    world.create_now(alien_at(100 * PX, 300 * PX));
    world.create_now(alien_at(100 * PX, 300 * PX));
    world.create_now(player_at(100 * PX, 300 * PX));
    world.create_now(shot_at(2000 * PX, 300 * PX));
    let mut no_place = EntityData::empty();
    no_place.harms_aliens = Some(HarmsAliens);
    no_place.harms_player = Some(HarmsPlayer);
    world.create_now(no_place);
    assert!(world.slot_can_be_hit(0, Victim::Alien));
    assert!(!world.slot_can_be_hit(0, Victim::Player));
    assert!(world.slot_can_be_hit(2, Victim::Player));
    assert!(world.slot_harms(3, Victim::Alien));
    assert!(!world.slot_harms(3, Victim::Player));
    assert!(!world.slot_harms(4, Victim::Alien));
    CollisionChecker.run(&mut world);
    assert!(world.pending.is_empty());
    assert_eq!(world.playing_state.score, 0);
}
