//! Values of which the world holds exactly one, visible to every system.

use vstd::prelude::*;
use crate::geometry::Rect;

verus! {

/// Micro-pixels per pixel, and microseconds per second.
pub const UNITS_PER_WHOLE: i64 = 1_000_000;

/// The playable rectangle, in micro-pixels.
#[derive(Debug, Copy, Clone, PartialEq, Eq, Structural)]
pub struct Arena(pub Rect);

/// The time that the current frame covers, in microseconds.
#[derive(Debug, Copy, Clone, PartialEq, Eq, Structural)]
pub struct ElapsedSeconds(pub u32);

/// The decoded wishes of the player for one frame.
#[derive(Debug, Copy, Clone, PartialEq, Eq, Structural)]
pub struct ControlState {
    pub left: bool,
    pub right: bool,
    pub up: bool,
    pub down: bool,
    pub fire: bool,
}

/// The keys that the game listens to.
#[derive(Debug, Copy, Clone, PartialEq, Eq, Structural)]
pub enum Key {
    Up,
    Left,
    Down,
    Right,
    Fire,
    Other,
}

/// What the input device reported.
#[derive(Debug, Copy, Clone, PartialEq, Eq, Structural)]
pub enum KeyEvent {
    Pressed(Key),
    Released(Key),
    Unrelated,
}

impl ControlState {
    /// The state that `key` going down (`held` true) or up (`held` false)
    /// leads to.
    pub open spec fn with_key(self, key: Key, held: bool) -> ControlState {
        match key {
            Key::Up => ControlState { up: held, ..self },
            Key::Left => ControlState { left: held, ..self },
            Key::Down => ControlState { down: held, ..self },
            Key::Right => ControlState { right: held, ..self },
            Key::Fire => ControlState { fire: held, ..self },
            Key::Other => self,
        }
    }

    /// The state that `event` leads to.
    pub open spec fn after(self, event: KeyEvent) -> ControlState {
        match event {
            KeyEvent::Pressed(key) => self.with_key(key, true),
            KeyEvent::Released(key) => self.with_key(key, false),
            KeyEvent::Unrelated => self,
        }
    }

    /// Nothing is held.
    pub fn new() -> (s: ControlState)
        ensures
            s == (ControlState { left: false, right: false, up: false, down: false, fire: false }),
    {
        ControlState { left: false, right: false, up: false, down: false, fire: false }
    }

    /// Takes one device event into account.
    pub fn update(&mut self, event: &KeyEvent)
        ensures
            *final(self) == old(self).after(*event),
    {
        match event {
            KeyEvent::Released(key) => match key {
                Key::Up => self.up = false,
                Key::Left => self.left = false,
                Key::Down => self.down = false,
                Key::Right => self.right = false,
                Key::Fire => self.fire = false,
                Key::Other => {},
            },
            KeyEvent::Pressed(key) => match key {
                Key::Up => self.up = true,
                Key::Left => self.left = true,
                Key::Down => self.down = true,
                Key::Right => self.right = true,
                Key::Fire => self.fire = true,
                Key::Other => {},
            },
            KeyEvent::Unrelated => {},
        }
    }
}

/// Score and remaining lives of the game in progress.
#[derive(Debug, Copy, Clone, PartialEq, Eq, Structural)]
pub struct PlayingGameState {
    pub score: u32,
    pub lives_left: i32,
}

/// The number of lives that a game starts with.
pub const STARTING_LIVES: i32 = 3;

impl PlayingGameState {
    pub fn new() -> (s: PlayingGameState)
        ensures
            s == (PlayingGameState { score: 0, lives_left: STARTING_LIVES }),
    {
        PlayingGameState { score: 0, lives_left: STARTING_LIVES }
    }

    pub fn any_lives_left(&self) -> (r: bool)
        ensures
            r == (self.lives_left > 0),
    {
        self.lives_left > 0
    }

    /// Takes one life away.
    pub fn one_dead(&mut self)
        requires
            old(self).lives_left > i32::MIN,
        ensures
            final(self).lives_left == old(self).lives_left - 1,
            final(self).score == old(self).score,
    {
        self.lives_left -= 1;
    }

    /// The score after `points` more points; it stops at the largest score
    /// that can be held.
    pub open spec fn score_after(score: u32, points: nat) -> u32 {
        if score + points > u32::MAX {
            u32::MAX
        } else {
            (score + points) as u32
        }
    }

    /// Adds one point.
    pub fn add_point(&mut self)
        ensures
            final(self).lives_left == old(self).lives_left,
            final(self).score == PlayingGameState::score_after(old(self).score, 1),
    {
        if self.score < u32::MAX {
            self.score += 1;
        }
    }
}

/// Picture sizes in whole pixels, width first, as the drawing side reports
/// them.
#[derive(Debug, Copy, Clone)]
pub struct EntitySizes {
    pub player_size: (u32, u32),
    pub basic_shot_size: (u32, u32),
    pub ufo_size: (u32, u32),
    pub ufo_shot_size: (u32, u32),
}

/// Where a text is anchored on the screen, in whole pixels.
#[derive(Debug, Copy, Clone, PartialEq, Eq, Structural)]
pub enum TextPosition {
    Center(u32, u32),
    TopRight(u32, u32),
}

/// The two typefaces of the game.
#[derive(Debug, Copy, Clone, PartialEq, Eq, Structural)]
pub enum FontType {
    Title,
    Info,
}

} // verus!
