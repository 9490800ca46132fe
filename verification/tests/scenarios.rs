use rideways::components::{
    EntityData, HarmsAliens, HarmsPlayer, Invincibility, IsAlien, IsExplosion, IsPlayer,
    KeepInside, Lifetime, Position, SpawnerKind, Sprite, Velocity,
};
use rideways::dispatcher::Dispatcher;
use rideways::geometry::{Position as Point, Rect, RectSize};
use rideways::random::RandomSource;
use rideways::resources::{Arena, ElapsedSeconds, EntitySizes, PlayingGameState};
use rideways::scheduler::SystemId;
use rideways::setup::setup;
use rideways::world::World;

const PX: i64 = 1_000_000;

fn sizes() -> EntitySizes {
    EntitySizes {
        player_size: (40, 20),
        basic_shot_size: (16, 4),
        ufo_size: (30, 30),
        ufo_shot_size: (8, 8),
    }
}

fn game() -> (World, Dispatcher) {
    let (mut world, dispatcher) = setup(sizes()).unwrap();
    world.set_arena(Arena(Rect::new(Point(0, 32 * PX), RectSize(1200 * PX, 568 * PX))));
    (world, dispatcher)
}

fn at(x: i64, y: i64, w: i64, h: i64) -> EntityData {
    let mut d = EntityData::empty();
    d.position = Some(Position { rect: Rect::new(Point(x, y), RectSize(w, h)) });
    d
}

fn count(world: &World, of: fn(&EntityData) -> bool) -> usize {
    (0..world.len()).filter(|i| of(&world.read(*i))).count()
}

#[test]
fn the_game_runs_its_systems_in_the_registered_order() {
    let (_, dispatcher) = game();
    assert_eq!(
        dispatcher.schedule.order,
        vec![
            SystemId::NonPlayerControl,
            SystemId::PlayerControl,
            SystemId::PlayerShooting,
            SystemId::AlienShooting,
            SystemId::UpdatePos,
            SystemId::ReapOutsiders,
            SystemId::ForceInside,
            SystemId::CollisionChecker,
            SystemId::EnemySpawning,
            SystemId::SpawnerSpawning,
            SystemId::LifetimeWatching,
            SystemId::InvincibilityWatching,
            SystemId::StarSpawner,
        ]
    );
    assert_eq!(dispatcher.player_shooting.shot_size, (16, 4));
    assert!(!dispatcher.player_shooting.has_shot);
    assert_eq!(dispatcher.alien_shooting.shot_size, RectSize(8 * PX, 8 * PX));
    assert_eq!(dispatcher.enemy_spawning.ufo_size, RectSize(30 * PX, 30 * PX));
}

#[test]
fn a_hit_alien_is_gone_after_one_tick() {
    let (mut world, mut dispatcher) = game();
    let mut rng = RandomSource::new(2024);
    let mut alien = at(500 * PX, 300 * PX, 30 * PX, 30 * PX);
    alien.is_alien = Some(IsAlien);
    let mut shot = at(490 * PX, 310 * PX, 16 * PX, 4 * PX);
    shot.harms_aliens = Some(HarmsAliens);
    let alien = world.create_now(alien);
    let shot = world.create_now(shot);
    world.set_elapsed(ElapsedSeconds(16_000));

    dispatcher.dispatch(&mut world, &mut rng);

    assert!(world.pending.is_empty());
    assert!(!world.entities.is_alive(alien));
    assert!(!world.entities.is_alive(shot));
    assert_eq!(world.playing_state, PlayingGameState { score: 1, lives_left: 3 });
    assert_eq!(count(&world, |d| d.harms_aliens.is_some()), 0);
    assert_eq!(count(&world, |d| d.is_explosion.is_some()), 1);
    assert_eq!(count(&world, |d| d.spawner_kind.is_some()), 1);
    let blast = (0..world.len())
        .map(|i| world.read(i))
        .find(|d| d.is_explosion.is_some())
        .unwrap();
    assert_eq!(blast.position, at(500 * PX, 300 * PX, 0, 0).position);
    assert_eq!(blast.spawner_kind, Some(SpawnerKind::Fire(200_000)));
    assert_eq!(blast.lifetime, Some(Lifetime { micros: 100_000 }));
    assert_eq!(blast.is_explosion, Some(IsExplosion));
}

#[test]
fn collisions_alone_take_one_tick_to_show() {
    let (mut world, mut dispatcher) = game();
    dispatcher.schedule.order = vec![SystemId::CollisionChecker];
    let mut rng = RandomSource::new(1);
    let mut alien = at(500 * PX, 300 * PX, 30 * PX, 30 * PX);
    alien.is_alien = Some(IsAlien);
    let mut shot = at(490 * PX, 310 * PX, 16 * PX, 4 * PX);
    shot.harms_aliens = Some(HarmsAliens);
    world.create_now(alien);
    world.create_now(shot);
    dispatcher.dispatch(&mut world, &mut rng);
    assert_eq!(world.len(), 2);
    let mut blast = at(500 * PX, 300 * PX, 0, 0);
    blast.spawner_kind = Some(SpawnerKind::Fire(200_000));
    blast.lifetime = Some(Lifetime { micros: 100_000 });
    blast.is_explosion = Some(IsExplosion);
    assert_eq!(world.read(0), blast);
    assert_eq!(world.read(1), EntityData::empty());
    assert_eq!(world.playing_state.score, 1);
}

#[test]
fn an_explosion_burns_for_a_tenth_of_a_second_and_its_glow_for_two() {
    let (mut world, mut dispatcher) = game();
    dispatcher.schedule.order = vec![
        SystemId::UpdatePos,
        SystemId::SpawnerSpawning,
        SystemId::LifetimeWatching,
    ];
    let mut rng = RandomSource::new(8);
    let mut blast = at(500 * PX, 300 * PX, 0, 0);
    blast.spawner_kind = Some(SpawnerKind::Fire(200_000));
    blast.lifetime = Some(Lifetime { micros: 100_000 });
    blast.is_explosion = Some(IsExplosion);
    let source = world.create_now(blast);
    world.set_elapsed(ElapsedSeconds(25_000));
    for tick in 1..=3 {
        dispatcher.dispatch(&mut world, &mut rng);
        assert!(world.entities.is_alive(source));
        assert_eq!(count(&world, |d| d.sprite == Some(Sprite::Glow)), 10 * tick);
    }
    dispatcher.dispatch(&mut world, &mut rng);
    assert!(!world.entities.is_alive(source));
    assert_eq!(count(&world, |d| d.spawner_kind.is_some()), 0);
    assert_eq!(count(&world, |d| d.sprite == Some(Sprite::Glow)), 40);
    for _ in 5..=8 {
        dispatcher.dispatch(&mut world, &mut rng);
    }
    assert_eq!(count(&world, |d| d.sprite == Some(Sprite::Glow)), 40);
    dispatcher.dispatch(&mut world, &mut rng);
    assert_eq!(count(&world, |d| d.sprite == Some(Sprite::Glow)), 30);
    dispatcher.dispatch(&mut world, &mut rng);
    assert_eq!(count(&world, |d| d.sprite == Some(Sprite::Glow)), 20);
    dispatcher.dispatch(&mut world, &mut rng);
    dispatcher.dispatch(&mut world, &mut rng);
    assert_eq!(count(&world, |d| d.is_explosion.is_some()), 0);
}

fn ghost_player() -> EntityData {
    let mut d = at(0, 300 * PX, 40 * PX, 20 * PX);
    d.velocity = Some(Velocity { x: 0, y: 0 });
    d.sprite = Some(Sprite::PlayerGhost);
    d.is_player = Some(IsPlayer);
    d.keep_inside = Some(KeepInside);
    d.invincibility = Some(Invincibility { micros_left: 5_000_000 });
    d
}

#[test]
fn an_invincible_player_survives_until_the_invincibility_ends() {
    let (mut world, mut dispatcher) = game();
    let mut rng = RandomSource::new(77);
    let player = world.create_now(ghost_player());
    let mut bomb = at(10 * PX, 305 * PX, 8 * PX, 8 * PX);
    bomb.harms_player = Some(HarmsPlayer);
    let bomb = world.create_now(bomb);
    world.set_elapsed(ElapsedSeconds(100_000));

    for _ in 0..49 {
        dispatcher.dispatch(&mut world, &mut rng);
    }
    assert!(world.entities.is_alive(player));
    assert!(world.entities.is_alive(bomb));
    let d = world.read(player.index);
    assert_eq!(d.invincibility, Some(Invincibility { micros_left: 100_000 }));
    assert_eq!(d.sprite, Some(Sprite::PlayerGhost));

    world.set_elapsed(ElapsedSeconds(200_000));
    dispatcher.dispatch(&mut world, &mut rng);
    assert!(world.entities.is_alive(player));
    let d = world.read(player.index);
    assert_eq!(d.invincibility, None);
    assert_eq!(d.sprite, Some(Sprite::Player));
    assert_eq!(d.is_player, Some(IsPlayer));

    dispatcher.dispatch(&mut world, &mut rng);
    assert!(!world.entities.is_alive(player));
    assert!(!world.entities.is_alive(bomb));
}

#[test]
fn input_moves_the_player_in_the_same_tick_and_the_arena_holds_it() {
    let (mut world, mut dispatcher) = game();
    let mut rng = RandomSource::new(5);
    let player = world.create_now(ghost_player());
    let mut control = rideways::resources::ControlState::new();
    control.right = true;
    control.up = true;
    world.set_control_state(control);
    world.set_elapsed(ElapsedSeconds(500_000));
    dispatcher.dispatch(&mut world, &mut rng);
    let rect = world.read(player.index).position.unwrap().rect;
    assert_eq!((rect.left(), rect.top()), (200 * PX, 100 * PX));
    dispatcher.dispatch(&mut world, &mut rng);
    let rect = world.read(player.index).position.unwrap().rect;
    assert_eq!((rect.left(), rect.top()), (400 * PX, 32 * PX));
    for _ in 0..10 {
        dispatcher.dispatch(&mut world, &mut rng);
    }
    let rect = world.read(player.index).position.unwrap().rect;
    assert_eq!((rect.right(), rect.top()), (1200 * PX, 32 * PX));
}

#[test]
fn shots_leave_through_the_right_edge_and_are_reaped() {
    let (mut world, mut dispatcher) = game();
    let mut rng = RandomSource::new(5);
    world.create_now(ghost_player());
    let mut control = rideways::resources::ControlState::new();
    control.fire = true;
    world.set_control_state(control);
    world.set_elapsed(ElapsedSeconds(100_000));
    for _ in 0..5 {
        dispatcher.dispatch(&mut world, &mut rng);
    }
    assert_eq!(count(&world, |d| d.harms_aliens.is_some()), 1);
    let shot = (0..world.len()).map(|i| world.read(i)).find(|d| d.harms_aliens.is_some()).unwrap();
    assert_eq!(shot.position.unwrap().rect.left(), 40 * PX + 4 * 150 * PX);
    for _ in 0..5 {
        dispatcher.dispatch(&mut world, &mut rng);
    }
    assert_eq!(count(&world, |d| d.harms_aliens.is_some()), 0);
}
