//! The outer state machine: idle, playing, game over, and idle again.

use vstd::prelude::*;
use crate::components::{
    EntityData, Invincibility, IsPlayer, KeepInside, Position, Sprite, Velocity,
};
use crate::dispatcher::{dispatched, frames_keep_one_player, Dispatcher};
use crate::entity::first_free_is_least;
use crate::geometry::{Position as Point, Rect, RectSize};
use crate::queries::{all_explosions_gone, get_playing_state, is_player_dead};
use crate::random::RandomSource;
use crate::resources::{ControlState, ElapsedSeconds, PlayingGameState};
use crate::world::{at_most_one_player, none_makes_a_player, World, WorldView};

verus! {

/// For how long "game over" is shown, in microseconds.
pub const GAME_OVER_MICROS: u64 = 2_000_000;

/// For how long a new player is invincible, in microseconds.
pub const INVINCIBILITY_MICROS: i64 = 5_000_000;

/// How far below the top of the screen a new player appears, in
/// micro-pixels. It appears at the left edge.
pub const PLAYER_START_Y: i64 = 300_000_000;

/// What the game is doing.
#[derive(Debug, Copy, Clone, PartialEq, Eq, Structural)]
pub enum GameState {
    /// Waiting for fire to be pressed and let go.
    Idle { button_pressed: bool },
    /// A game is on.
    Playing { state: PlayingGameState },
    /// "Game over" is shown for `micros_left` more microseconds.
    GameOver { micros_left: u64 },
}

impl GameState {
    /// The state in which the program starts.
    pub fn new() -> (s: GameState)
        ensures
            s == (GameState::Idle { button_pressed: false }),
    {
        GameState::Idle { button_pressed: false }
    }
}

/// What follows an idle frame: while fire is held the game waits for it to
/// be let go; once it was held and is let go a game starts with a fresh
/// score.
pub open spec fn idled(button_pressed: bool, control_state: ControlState) -> GameState {
    if control_state.fire {
        GameState::Idle { button_pressed: true }
    } else if button_pressed {
        GameState::Playing {
            state: PlayingGameState { score: 0, lives_left: crate::resources::STARTING_LIVES },
        }
    } else {
        GameState::Idle { button_pressed }
    }
}

/// Decides what follows an idle frame.
pub fn idle(button_pressed: bool, control_state: ControlState) -> (next: GameState)
    ensures
        next == idled(button_pressed, control_state),
{
    if control_state.fire {
        GameState::Idle { button_pressed: true }
    } else if button_pressed {
        GameState::Playing { state: PlayingGameState::new() }
    } else {
        GameState::Idle { button_pressed }
    }
}

/// What follows a frame of "game over" that took `micros_passed`: the rest
/// of the time, or idling once no time is left.
pub open spec fn game_over_then(micros_left: u64, micros_passed: u64) -> GameState {
    if micros_left > micros_passed {
        GameState::GameOver { micros_left: (micros_left - micros_passed) as u64 }
    } else {
        GameState::Idle { button_pressed: false }
    }
}

/// Decides what follows a frame of "game over".
pub fn game_over(micros_left: u64, micros_passed: u64) -> (next: GameState)
    ensures
        next == game_over_then(micros_left, micros_passed),
{
    if micros_left > micros_passed {
        GameState::GameOver { micros_left: micros_left - micros_passed }
    } else {
        GameState::Idle { button_pressed: false }
    }
}

/// A new player whose picture is `player_size` whole pixels large: a ghost
/// at the left edge that stands still, stays inside the arena and is
/// invincible for a while.
pub open spec fn new_player(player_size: (u32, u32)) -> EntityData {
    let size = RectSize::spec_from_pixels(player_size);
    EntityData {
        position: Some(
            Position { rect: Rect::spec_new(0, PLAYER_START_Y as int, size.0 as int, size.1 as int) },
        ),
        velocity: Some(Velocity { x: 0, y: 0 }),
        sprite: Some(Sprite::PlayerGhost),
        is_player: Some(IsPlayer),
        keep_inside: Some(KeepInside),
        invincibility: Some(Invincibility { micros_left: INVINCIBILITY_MICROS }),
        ..EntityData::spec_empty()
    }
}

/// Builds a new player.
pub fn make_player(player_size: (u32, u32)) -> (d: EntityData)
    ensures
        d == new_player(player_size),
        d.wf(),
{
    let mut d = EntityData::empty();
    d.position = Some(
        Position { rect: Rect::new(Point(0, PLAYER_START_Y), RectSize::from_pixels(player_size)) },
    );
    d.velocity = Some(Velocity { x: 0, y: 0 });
    d.sprite = Some(Sprite::PlayerGhost);
    d.is_player = Some(IsPlayer);
    d.keep_inside = Some(KeepInside);
    d.invincibility = Some(Invincibility { micros_left: INVINCIBILITY_MICROS });
    d
}

/// Whether the player is gone and its explosion has burnt out.
pub open spec fn round_is_over(w: WorldView) -> bool {
    w.player_dead() && w.explosions_gone()
}

/// What follows a frame of play, judged by the store as the frame left it:
/// the game goes on while there is a player or something still explodes;
/// after that a life is taken and a new player made, or the game is over
/// where no life is left.
pub open spec fn play_goes_on(w: WorldView) -> GameState {
    if round_is_over(w) && w.playing_state.lives_left <= 0 {
        GameState::GameOver { micros_left: GAME_OVER_MICROS }
    } else if round_is_over(w) {
        GameState::Playing {
            state: PlayingGameState {
                lives_left: (w.playing_state.lives_left - 1) as i32,
                ..w.playing_state
            },
        }
    } else {
        GameState::Playing { state: w.playing_state }
    }
}

/// The store after the frame was judged: a new player is there where a
/// life was taken.
pub open spec fn play_leaves(w: WorldView, player_size: (u32, u32)) -> WorldView {
    if round_is_over(w) && w.playing_state.lives_left > 0 {
        w.create(new_player(player_size))
    } else {
        w
    }
}

/// A new player comes only when there is none: judging a frame leaves at
/// most one player where there was at most one.
pub proof fn new_players_come_alone(w: WorldView, player_size: (u32, u32))
    requires
        w.wf(),
        at_most_one_player(w.data),
    ensures
        at_most_one_player(play_leaves(w, player_size).data),
{
    let after = play_leaves(w, player_size);
    if after != w {
        first_free_is_least(w.alive, w.generations, 0);
        let p = w.next_index();
        assert forall|i: int, j: int|
            0 <= i < after.data.len() && 0 <= j < after.data.len() && (#[trigger] after.data[i])
                .is_player is Some && (#[trigger] after.data[j]).is_player is Some implies i
            == j by {
            if i != p {
                assert(w.data[i].is_player is None);
            }
            if j != p {
                assert(w.data[j].is_player is None);
            }
        }
    }
}

/// Judges the store after a frame of play and makes a new player where
/// one is due.
pub fn play_outcome(world: &mut World, player_size: (u32, u32)) -> (next: GameState)
    requires
        old(world).wf(),
    ensures
        final(world).wf(),
        next == play_goes_on(old(world)@),
        final(world)@ == play_leaves(old(world)@, player_size),
        at_most_one_player(old(world)@.data) ==> at_most_one_player(final(world)@.data),
{
    proof {
        if at_most_one_player(old(world)@.data) {
            new_players_come_alone(old(world)@, player_size);
        }
    }
    let mut state = get_playing_state(world);
    let player_dead = is_player_dead(world);
    let explosions_gone = all_explosions_gone(world);
    if player_dead && explosions_gone && !state.any_lives_left() {
        GameState::GameOver { micros_left: GAME_OVER_MICROS }
    } else {
        if player_dead && explosions_gone {
            state.one_dead();
            let _ = world.create_now(make_player(player_size));
        }
        GameState::Playing { state }
    }
}

/// The store as a frame of play finds it: the frame's input, duration and
/// score are put in.
pub open spec fn play_starts(
    w: WorldView,
    state: PlayingGameState,
    control_state: ControlState,
    elapsed: ElapsedSeconds,
) -> WorldView {
    WorldView { control_state, elapsed, playing_state: state, ..w }
}

/// Plays one frame: puts the frame's input, duration and score into the
/// store, lets every system run, carries out what they asked for, and then
/// judges what follows.
pub fn play(
    state: PlayingGameState,
    world: &mut World,
    dispatcher: &mut Dispatcher,
    control_state: ControlState,
    elapsed: ElapsedSeconds,
    player_size: (u32, u32),
    rng: &mut RandomSource,
) -> (next: GameState)
    requires
        old(world).wf(),
    ensures
        final(world).wf(),
        exists|ran: WorldView|
            {
                &&& dispatched(
                    *old(dispatcher),
                    play_starts(old(world)@, state, control_state, elapsed),
                    *final(dispatcher),
                    ran,
                )
                &&& next == play_goes_on(ran)
                &&& final(world)@ == play_leaves(ran, player_size)
            },
        at_most_one_player(old(world)@.data) && none_makes_a_player(old(world)@.pending)
            ==> at_most_one_player(final(world)@.data),
{
    world.set_control_state(control_state);
    world.set_elapsed(elapsed);
    world.set_playing_state(state);
    let ghost started = world@;
    dispatcher.dispatch(world, rng);
    proof {
        if at_most_one_player(old(world)@.data) && none_makes_a_player(old(world)@.pending) {
            frames_keep_one_player(*old(dispatcher), started, *dispatcher, world@);
        }
    }
    play_outcome(world, player_size)
}

} // verus!
