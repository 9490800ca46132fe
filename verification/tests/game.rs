use rideways::components::{
    Draw, EntityData, Invincibility, IsAlien, IsExplosion, IsPlayer, KeepInside, Position, Sprite,
    Velocity,
};
use rideways::direction::{cosine, share_of_speed, sine};
use rideways::game_state::{
    game_over, idle, make_player, play, play_outcome, GameState, GAME_OVER_MICROS,
};
use rideways::geometry::{Position as Point, Rect, RectSize};
use rideways::math::{aim, integer_sqrt};
use rideways::queries::{all_explosions_gone, get_playing_state, is_player_dead};
use rideways::random::RandomSource;
use rideways::reset::{idle_frame, initialize_world, reset};
use rideways::resources::{
    Arena, ControlState, ElapsedSeconds, EntitySizes, Key, KeyEvent, PlayingGameState,
};
use rideways::scheduler::{Schedule, ScheduleError, SystemEntry, SystemId};
use rideways::setup::{setup, standard_entries};
use rideways::world::{Command, World};

const PX: i64 = 1_000_000;

fn arena() -> Arena {
    Arena(Rect::new(Point(0, 32 * PX), RectSize(1200 * PX, 568 * PX)))
}

fn sizes() -> EntitySizes {
    EntitySizes {
        player_size: (40, 20),
        basic_shot_size: (16, 4),
        ufo_size: (30, 30),
        ufo_shot_size: (8, 8),
    }
}

fn at(x: i64, y: i64, w: i64, h: i64) -> EntityData {
    let mut d = EntityData::empty();
    d.position = Some(Position { rect: Rect::new(Point(x, y), RectSize(w, h)) });
    d
}

fn fire(on: bool) -> ControlState {
    ControlState { left: false, right: false, up: false, down: false, fire: on }
}

fn new_player() -> EntityData {
    let mut d = at(0, 300 * PX, 40 * PX, 20 * PX);
    d.velocity = Some(Velocity { x: 0, y: 0 });
    d.sprite = Some(Sprite::PlayerGhost);
    d.is_player = Some(IsPlayer);
    d.keep_inside = Some(KeepInside);
    d.invincibility = Some(Invincibility { micros_left: 5_000_000 });
    d
}

#[test]
fn square_roots_are_rounded_down() {
    assert_eq!(integer_sqrt(0), 0);
    assert_eq!(integer_sqrt(1), 1);
    assert_eq!(integer_sqrt(3), 1);
    assert_eq!(integer_sqrt(4), 2);
    assert_eq!(integer_sqrt(24), 4);
    assert_eq!(integer_sqrt(25), 5);
    assert_eq!(integer_sqrt(1_000_000_000_000), 1_000_000);
    assert_eq!(integer_sqrt(999_999_999_999), 999_999);
    assert_eq!(integer_sqrt(u128::MAX), u64::MAX);
}

#[test]
fn aiming_scales_the_direction_to_the_speed() {
    assert_eq!(aim(Point(0, 0), Point(30, 40), 500), Velocity { x: 300, y: 400 });
    assert_eq!(aim(Point(0, 0), Point(-30, -40), 500), Velocity { x: -300, y: -400 });
    assert_eq!(aim(Point(10, 10), Point(10, -90), 500), Velocity { x: 0, y: -500 });
    assert_eq!(aim(Point(5, 5), Point(5, 5), 500), Velocity { x: 0, y: 0 });
    assert_eq!(aim(Point(0, 0), Point(1, 1), 500), Velocity { x: 500, y: 500 });
    assert_eq!(aim(Point(0, 0), Point(100, 100), 500), Velocity { x: 354, y: 354 });
}

#[test]
fn sines_and_cosines_in_thousandths() {
    assert_eq!(sine(0), 0);
    assert_eq!(sine(30), 500);
    assert_eq!(sine(45), 707);
    assert_eq!(sine(90), 1000);
    assert_eq!(sine(150), 500);
    assert_eq!(sine(180), 0);
    assert_eq!(sine(210), -500);
    assert_eq!(sine(270), -1000);
    assert_eq!(sine(359), -17);
    assert_eq!(cosine(0), 1000);
    assert_eq!(cosine(60), 500);
    assert_eq!(cosine(90), 0);
    assert_eq!(cosine(180), -1000);
    assert_eq!(cosine(270), 0);
    assert_eq!(cosine(300), 500);
    assert_eq!(cosine(359), 1000);
    for d in 0..360u16 {
        let s = sine(d) as i64;
        let c = cosine(d) as i64;
        let unit = s * s + c * c;
        assert!((998_000..=1_002_000).contains(&unit), "{} degrees", d);
    }
}

#[test]
fn shares_of_speed_round_towards_zero() {
    assert_eq!(share_of_speed(399, 866), 345);
    assert_eq!(share_of_speed(399, -866), -345);
    assert_eq!(share_of_speed(100, 1000), 100);
    assert_eq!(share_of_speed(100, -1000), -100);
    assert_eq!(share_of_speed(1, 999), 0);
    assert_eq!(share_of_speed(1, -999), 0);
    assert_eq!(share_of_speed(0, 1000), 0);
}

#[test]
fn keys_set_and_clear_their_flags() {
    let mut state = ControlState::new();
    assert_eq!(state, fire(false));
    state.update(&KeyEvent::Pressed(Key::Up));
    state.update(&KeyEvent::Pressed(Key::Left));
    state.update(&KeyEvent::Pressed(Key::Fire));
    state.update(&KeyEvent::Pressed(Key::Other));
    state.update(&KeyEvent::Unrelated);
    assert_eq!(
        state,
        ControlState { left: true, right: false, up: true, down: false, fire: true }
    );
    state.update(&KeyEvent::Released(Key::Up));
    state.update(&KeyEvent::Released(Key::Right));
    state.update(&KeyEvent::Pressed(Key::Down));
    state.update(&KeyEvent::Pressed(Key::Right));
    state.update(&KeyEvent::Released(Key::Other));
    assert_eq!(
        state,
        ControlState { left: true, right: true, up: false, down: true, fire: true }
    );
    state.update(&KeyEvent::Released(Key::Left));
    state.update(&KeyEvent::Released(Key::Right));
    state.update(&KeyEvent::Released(Key::Down));
    state.update(&KeyEvent::Released(Key::Fire));
    assert_eq!(state, ControlState::new());
}

#[test]
fn a_game_starts_with_three_lives() {
    let mut state = PlayingGameState::new();
    assert_eq!(state, PlayingGameState { score: 0, lives_left: 3 });
    assert!(state.any_lives_left());
    state.one_dead();
    state.one_dead();
    assert!(state.any_lives_left());
    state.one_dead();
    assert_eq!(state.lives_left, 0);
    assert!(!state.any_lives_left());
    state.one_dead();
    assert_eq!(state.lives_left, -1);
    assert!(!state.any_lives_left());
}

#[test]
fn a_plan_keeps_the_order_of_registration() {
    let entries = vec![
        SystemEntry { id: SystemId::PlayerControl, after: vec![] },
        SystemEntry { id: SystemId::UpdatePos, after: vec![SystemId::PlayerControl] },
        SystemEntry {
            id: SystemId::ForceInside,
            after: vec![SystemId::UpdatePos, SystemId::PlayerControl],
        },
    ];
    let schedule = Schedule::build(&entries).unwrap();
    assert_eq!(
        schedule.order,
        vec![SystemId::PlayerControl, SystemId::UpdatePos, SystemId::ForceInside]
    );
    assert_eq!(Schedule::build(&vec![]).unwrap().order, vec![]);
}

#[test]
fn a_system_cannot_be_registered_twice() {
    let entries = vec![
        SystemEntry { id: SystemId::PlayerControl, after: vec![] },
        SystemEntry { id: SystemId::UpdatePos, after: vec![] },
        SystemEntry { id: SystemId::PlayerControl, after: vec![SystemId::StarSpawner] },
    ];
    assert_eq!(
        Schedule::build(&entries).err(),
        Some(ScheduleError::Duplicate(SystemId::PlayerControl))
    );
}

#[test]
fn a_system_cannot_run_after_one_that_is_not_there() {
    let entries = vec![
        SystemEntry { id: SystemId::PlayerControl, after: vec![] },
        SystemEntry {
            id: SystemId::UpdatePos,
            after: vec![SystemId::PlayerControl, SystemId::ForceInside, SystemId::StarSpawner],
        },
        SystemEntry { id: SystemId::ForceInside, after: vec![] },
    ];
    assert_eq!(
        Schedule::build(&entries).err(),
        Some(ScheduleError::MissingDependency {
            system: SystemId::UpdatePos,
            needs: SystemId::ForceInside,
        })
    );
}

#[test]
fn circular_constraints_are_refused() {
    let entries = vec![
        SystemEntry { id: SystemId::PlayerControl, after: vec![SystemId::ForceInside] },
        SystemEntry { id: SystemId::UpdatePos, after: vec![SystemId::PlayerControl] },
        SystemEntry { id: SystemId::ForceInside, after: vec![SystemId::UpdatePos] },
    ];
    assert_eq!(
        Schedule::build(&entries).err(),
        Some(ScheduleError::MissingDependency {
            system: SystemId::PlayerControl,
            needs: SystemId::ForceInside,
        })
    );
    let on_itself = vec![SystemEntry { id: SystemId::UpdatePos, after: vec![SystemId::UpdatePos] }];
    assert_eq!(
        Schedule::build(&on_itself).err(),
        Some(ScheduleError::MissingDependency {
            system: SystemId::UpdatePos,
            needs: SystemId::UpdatePos,
        })
    );
}

#[test]
fn the_games_own_registrations_give_a_plan() {
    let entries = standard_entries();
    assert_eq!(entries.len(), 13);
    assert_eq!(entries[4].id, SystemId::UpdatePos);
    assert_eq!(entries[4].after, vec![SystemId::NonPlayerControl, SystemId::PlayerControl]);
    assert_eq!(entries[5].after, vec![SystemId::UpdatePos]);
    assert_eq!(entries[6].after, vec![SystemId::UpdatePos]);
    assert_eq!(entries[7].id, SystemId::CollisionChecker);
    assert_eq!(entries[7].after, vec![SystemId::ForceInside]);
    assert!(Schedule::build(&entries).is_ok());
    let (world, _) = setup(sizes()).unwrap();
    assert_eq!(world.len(), 0);
    assert_eq!(world.arena, Arena(Rect::new(Point(0, 0), RectSize(0, 0))));
}

#[test]
fn the_program_starts_idle() {
    assert_eq!(GameState::new(), GameState::Idle { button_pressed: false });
}

#[test]
fn idling_waits_for_fire_to_be_pressed_and_released() {
    assert_eq!(idle(false, fire(false)), GameState::Idle { button_pressed: false });
    assert_eq!(idle(false, fire(true)), GameState::Idle { button_pressed: true });
    assert_eq!(idle(true, fire(true)), GameState::Idle { button_pressed: true });
    assert_eq!(
        idle(true, fire(false)),
        GameState::Playing { state: PlayingGameState { score: 0, lives_left: 3 } }
    );
}

#[test]
fn game_over_is_shown_for_two_seconds() {
    assert_eq!(GAME_OVER_MICROS, 2_000_000);
    assert_eq!(game_over(2_000_000, 16_000), GameState::GameOver { micros_left: 1_984_000 });
    assert_eq!(game_over(16_001, 16_000), GameState::GameOver { micros_left: 1 });
    assert_eq!(game_over(16_000, 16_000), GameState::Idle { button_pressed: false });
    assert_eq!(game_over(5, 16_000), GameState::Idle { button_pressed: false });
}

#[test]
fn a_new_player_is_an_invincible_ghost_at_the_left_edge() {
    assert_eq!(make_player((40, 20)), new_player());
}

#[test]
fn play_goes_on_while_the_player_lives() {
    let mut world = World::new(arena());
    let mut player = at(0, 0, PX, PX);
    player.is_player = Some(IsPlayer);
    world.create_now(player);
    world.set_playing_state(PlayingGameState { score: 4, lives_left: 0 });
    assert!(!is_player_dead(&world));
    assert!(all_explosions_gone(&world));
    let next = play_outcome(&mut world, (40, 20));
    assert_eq!(next, GameState::Playing { state: PlayingGameState { score: 4, lives_left: 0 } });
    assert_eq!(world.len(), 1);
}

#[test]
fn play_waits_for_the_explosion_to_burn_out() {
    let mut world = World::new(arena());
    let mut glow = at(0, 0, PX, PX);
    glow.is_explosion = Some(IsExplosion);
    world.create_now(glow);
    world.set_playing_state(PlayingGameState { score: 4, lives_left: 2 });
    assert!(is_player_dead(&world));
    assert!(!all_explosions_gone(&world));
    let next = play_outcome(&mut world, (40, 20));
    assert_eq!(next, GameState::Playing { state: PlayingGameState { score: 4, lives_left: 2 } });
    assert_eq!(world.len(), 1);
}

#[test]
fn a_dead_player_costs_a_life_and_comes_back_as_a_ghost() {
    let mut world = World::new(arena());
    let mut alien = at(500 * PX, 100 * PX, PX, PX);
    alien.is_alien = Some(IsAlien);
    world.create_now(alien);
    world.set_playing_state(PlayingGameState { score: 4, lives_left: 1 });
    assert_eq!(get_playing_state(&world), PlayingGameState { score: 4, lives_left: 1 });
    let next = play_outcome(&mut world, (40, 20));
    assert_eq!(next, GameState::Playing { state: PlayingGameState { score: 4, lives_left: 0 } });
    assert_eq!(world.len(), 2);
    assert_eq!(world.read(1), new_player());
    assert_eq!(world.read(0), alien);
    assert!(!is_player_dead(&world));
}

#[test]
fn the_game_is_over_when_no_life_is_left() {
    let mut world = World::new(arena());
    world.set_playing_state(PlayingGameState { score: 4, lives_left: 0 });
    let next = play_outcome(&mut world, (40, 20));
    assert_eq!(next, GameState::GameOver { micros_left: 2_000_000 });
    assert_eq!(world.len(), 0);
    world.set_playing_state(PlayingGameState { score: 4, lives_left: -3 });
    assert_eq!(play_outcome(&mut world, (40, 20)), GameState::GameOver { micros_left: 2_000_000 });
}

#[test]
fn a_frame_of_play_puts_the_resources_in_and_runs_the_systems() {
    let (mut world, mut dispatcher) = setup(sizes()).unwrap();
    world.set_arena(arena());
    let mut rng = RandomSource::new(3);
    world.create_now(new_player());
    let mut control = fire(true);
    control.down = true;
    let state = PlayingGameState { score: 7, lives_left: 2 };
    let next =
        play(state, &mut world, &mut dispatcher, control, ElapsedSeconds(10_000), (40, 20), &mut rng);
    assert_eq!(next, GameState::Playing { state });
    assert_eq!(world.control_state, control);
    assert_eq!(world.elapsed, ElapsedSeconds(10_000));
    assert_eq!(world.playing_state, state);
    assert!(world.pending.is_empty());
    let player = world.read(0);
    assert_eq!(player.velocity, Some(Velocity { x: 0, y: 400 }));
    assert_eq!(player.position, at(0, 304 * PX, 40 * PX, 20 * PX).position);
    assert_eq!(player.invincibility, Some(Invincibility { micros_left: 4_990_000 }));
    let shots = (0..world.len()).filter(|i| world.read(*i).harms_aliens.is_some()).count();
    assert_eq!(shots, 1);
    assert!(dispatcher.player_shooting.has_shot);
}

#[test]
fn a_game_is_played_to_its_end() {
    let (mut world, mut dispatcher) = setup(sizes()).unwrap();
    world.set_arena(arena());
    let mut rng = RandomSource::new(3);
    let mut state = GameState::Playing { state: PlayingGameState { score: 0, lives_left: 1 } };
    let mut frames = 0;
    loop {
        state = match state {
            GameState::Playing { state } => play(
                state,
                &mut world,
                &mut dispatcher,
                fire(false),
                ElapsedSeconds(16_000),
                (40, 20),
                &mut rng,
            ),
            other => other,
        };
        frames += 1;
        if frames == 1 {
            assert_eq!(
                state,
                GameState::Playing { state: PlayingGameState { score: 0, lives_left: 0 } }
            );
            let player = (0..world.len()).find(|i| world.read(*i).is_player.is_some()).unwrap();
            world.delete_now(world.entities.handle(player));
        }
        if frames == 2 {
            break;
        }
    }
    assert_eq!(state, GameState::GameOver { micros_left: 2_000_000 });
}

#[test]
fn the_sky_is_full_of_stars_when_a_game_begins() {
    let mut world = World::new(arena());
    let mut rng = RandomSource::new(99);
    let mut alien = at(500 * PX, 100 * PX, PX, PX);
    alien.is_alien = Some(IsAlien);
    let old = world.create_now(alien);
    world.queue(Command::Create(alien));
    world.set_playing_state(PlayingGameState { score: 50, lives_left: 0 });
    initialize_world(&mut world, &mut rng);
    assert!(world.pending.is_empty());
    assert!(!world.entities.is_alive(old));
    assert_eq!(world.playing_state, PlayingGameState { score: 0, lives_left: 3 });
    assert_eq!(world.arena, arena());
    assert_eq!(world.elapsed, ElapsedSeconds(16_000));
    let mut stars = 0;
    for i in 0..world.len() {
        let d = world.read(i);
        if d == EntityData::empty() {
            continue;
        }
        stars += 1;
        assert!(matches!(d.draw, Some(Draw::Star(1..=4))));
        assert!(d.reap_when_outside.is_some());
        let v = d.velocity.unwrap();
        assert!((-49..=-15).contains(&v.x) && v.y == 0);
        let rect = d.position.unwrap().rect;
        assert!(rect.left() < 1199 * PX);
        assert!(rect.top() >= 32 * PX && rect.top() < 600 * PX);
        assert_eq!(d.is_alien, None);
        assert_eq!(d.is_player, None);
        assert_eq!(d.sprite, None);
    }
    assert!(stars > 100 && stars < 220, "{} stars", stars);
    assert!(world.sprites().is_empty());
    assert_eq!(world.shapes().len(), stars);
}

#[test]
fn a_reset_leaves_one_player_and_no_enemy() {
    let mut world = World::new(arena());
    let mut rng = RandomSource::new(4);
    let mut alien = at(500 * PX, 100 * PX, PX, PX);
    alien.is_alien = Some(IsAlien);
    world.create_now(alien);
    let mut old_player = new_player();
    old_player.invincibility = None;
    let old_player = world.create_now(old_player);
    world.set_playing_state(PlayingGameState { score: 50, lives_left: 1 });
    reset(&mut world, (40, 20), &mut rng);
    let all: Vec<EntityData> = (0..world.len()).map(|i| world.read(i)).collect();
    assert_eq!(all.iter().filter(|d| d.is_player.is_some()).count(), 1);
    assert_eq!(all.iter().filter(|d| **d == new_player()).count(), 1);
    assert_eq!(all.iter().filter(|d| d.is_alien.is_some()).count(), 0);
    assert_eq!(all.iter().filter(|d| d.harms_aliens.is_some()).count(), 0);
    assert_eq!(all.iter().filter(|d| d.harms_player.is_some()).count(), 0);
    assert_eq!(all.iter().filter(|d| d.is_explosion.is_some()).count(), 0);
    assert!(!world.entities.is_alive(old_player));
    assert_eq!(world.playing_state, PlayingGameState { score: 0, lives_left: 3 });
    assert!(world.pending.is_empty());
    assert_eq!(world.sprites().len(), 1);
    assert_eq!(world.find_player_rect(), Some(Rect::new(Point(0, 300 * PX), RectSize(40 * PX, 20 * PX))));
}

#[test]
fn an_idle_frame_resets_the_world_only_when_the_game_starts() {
    let mut world = World::new(arena());
    let mut rng = RandomSource::new(4);
    let mut alien = at(500 * PX, 100 * PX, PX, PX);
    alien.is_alien = Some(IsAlien);
    world.create_now(alien);
    assert_eq!(
        idle_frame(false, fire(true), &mut world, (40, 20), &mut rng),
        GameState::Idle { button_pressed: true }
    );
    assert_eq!(world.len(), 1);
    assert_eq!(world.read(0), alien);
    assert_eq!(
        idle_frame(false, fire(false), &mut world, (40, 20), &mut rng),
        GameState::Idle { button_pressed: false }
    );
    assert_eq!(world.read(0), alien);
    assert_eq!(
        idle_frame(true, fire(false), &mut world, (40, 20), &mut rng),
        GameState::Playing { state: PlayingGameState { score: 0, lives_left: 3 } }
    );
    let all: Vec<EntityData> = (0..world.len()).map(|i| world.read(i)).collect();
    assert_eq!(all.iter().filter(|d| d.is_player.is_some()).count(), 1);
    assert_eq!(all.iter().filter(|d| d.is_alien.is_some()).count(), 0);
}

#[test]
fn drawables_come_in_slot_order() {
    let mut world = World::new(arena());
    let mut star = at(5 * PX, 5 * PX, 0, 0);
    star.draw = Some(Draw::Star(2));
    let mut ufo = at(7 * PX, 7 * PX, PX, PX);
    ufo.sprite = Some(Sprite::UFO);
    let mut both = at(9 * PX, 9 * PX, PX, PX);
    both.sprite = Some(Sprite::Glow);
    both.draw = Some(Draw::Star(4));
    let mut nowhere = EntityData::empty();
    nowhere.sprite = Some(Sprite::Player);
    world.create_now(ufo);
    world.create_now(star);
    world.create_now(nowhere);
    world.create_now(both);
    assert_eq!(
        world.sprites(),
        vec![(ufo.position.unwrap(), Sprite::UFO), (both.position.unwrap(), Sprite::Glow)]
    );
    assert_eq!(
        world.shapes(),
        vec![(star.position.unwrap(), Draw::Star(2)), (both.position.unwrap(), Draw::Star(4))]
    );
    assert_eq!(world.find_player_rect(), None);
}
