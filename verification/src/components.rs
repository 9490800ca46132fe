//! The component types that can be attached to an entity.

use vstd::prelude::*;
use crate::geometry::Rect;

verus! {

/// Where an entity is: its bounding rectangle, in micro-pixels.
#[derive(Debug, Copy, Clone, PartialEq, Eq, Structural)]
pub struct Position {
    pub rect: Rect,
}

/// How fast an entity moves, in pixels per second.
#[derive(Debug, Copy, Clone, PartialEq, Eq, Structural)]
pub struct Velocity {
    pub x: i32,
    pub y: i32,
}

/// Which picture stands for an entity.
#[derive(Debug, Copy, Clone, PartialEq, Eq, Structural)]
pub enum Sprite {
    Player,
    PlayerGhost,
    BasicShot,
    UFO,
    UFOShot,
    Glow,
}

/// The name under which callers that draw pictures know a `Sprite`.
pub type RenderKind = Sprite;

/// Shapes that are drawn rather than copied from a picture.
#[derive(Debug, Copy, Clone, PartialEq, Eq, Structural)]
pub enum Draw {
    /// A background star with the given radius in pixels.
    Star(i16),
}

/// How an entity that the player does not steer moves.
#[derive(Debug, Copy, Clone, PartialEq, Eq, Structural)]
pub enum MovementKind {
    /// Turns around at the edges of the arena.
    SideToSide,
}

/// Marks an entity as a source of particles.
#[derive(Debug, Copy, Clone, PartialEq, Eq, Structural)]
pub enum SpawnerKind {
    /// Emits glowing particles, each living for the given microseconds.
    Fire(i64),
}

/// Countdown, in microseconds, after which the entity is removed.
#[derive(Debug, Copy, Clone, PartialEq, Eq, Structural)]
pub struct Lifetime {
    pub micros: i64,
}

/// Countdown, in microseconds, during which nothing harms the entity.
#[derive(Debug, Copy, Clone, PartialEq, Eq, Structural)]
pub struct Invincibility {
    pub micros_left: i64,
}

/// Marks the entity that the player steers.
#[derive(Debug, Copy, Clone, PartialEq, Eq, Structural)]
pub struct IsPlayer;

/// Marks an enemy.
#[derive(Debug, Copy, Clone, PartialEq, Eq, Structural)]
pub struct IsAlien;

/// Marks what belongs to an explosion: its source and its particles.
#[derive(Debug, Copy, Clone, PartialEq, Eq, Structural)]
pub struct IsExplosion;

/// Marks what kills the player on touch.
#[derive(Debug, Copy, Clone, PartialEq, Eq, Structural)]
pub struct HarmsPlayer;

/// Marks what kills an alien on touch.
#[derive(Debug, Copy, Clone, PartialEq, Eq, Structural)]
pub struct HarmsAliens;

/// Marks what must never leave the arena.
#[derive(Debug, Copy, Clone, PartialEq, Eq, Structural)]
pub struct KeepInside;

/// Marks what is removed once it has left the arena.
#[derive(Debug, Copy, Clone, PartialEq, Eq, Structural)]
pub struct ReapWhenOutside;

/// Everything that can be attached to one entity.
#[derive(Debug, Copy, Clone, PartialEq, Eq, Structural)]
pub struct EntityData {
    pub position: Option<Position>,
    pub velocity: Option<Velocity>,
    pub sprite: Option<Sprite>,
    pub draw: Option<Draw>,
    pub movement_kind: Option<MovementKind>,
    pub spawner_kind: Option<SpawnerKind>,
    pub lifetime: Option<Lifetime>,
    pub invincibility: Option<Invincibility>,
    pub is_player: Option<IsPlayer>,
    pub is_alien: Option<IsAlien>,
    pub is_explosion: Option<IsExplosion>,
    pub harms_player: Option<HarmsPlayer>,
    pub harms_aliens: Option<HarmsAliens>,
    pub keep_inside: Option<KeepInside>,
    pub reap_when_outside: Option<ReapWhenOutside>,
}

impl EntityData {
    /// No component at all.
    pub open spec fn spec_empty() -> EntityData {
        EntityData {
            position: None,
            velocity: None,
            sprite: None,
            draw: None,
            movement_kind: None,
            spawner_kind: None,
            lifetime: None,
            invincibility: None,
            is_player: None,
            is_alien: None,
            is_explosion: None,
            harms_player: None,
            harms_aliens: None,
            keep_inside: None,
            reap_when_outside: None,
        }
    }

    /// The rectangle, if there is one, is well formed, and an entity that is
    /// reaped outside the arena has a position to be judged by.
    pub open spec fn wf(&self) -> bool {
        &&& self.position matches Some(p) ==> p.rect.wf()
        &&& self.reap_when_outside is Some ==> self.position is Some
    }

    /// Whether the components are well formed, and so may be handed to the
    /// store.
    pub fn is_wf(&self) -> (r: bool)
        ensures
            r == self.wf(),
    {
        let placed = match self.position {
            Some(p) => p.rect.is_wf(),
            None => true,
        };
        placed && (self.reap_when_outside.is_none() || self.position.is_some())
    }

    /// An entity without any component.
    pub fn empty() -> (d: EntityData)
        ensures
            d == EntityData::spec_empty(),
            d.wf(),
    {
        EntityData {
            position: None,
            velocity: None,
            sprite: None,
            draw: None,
            movement_kind: None,
            spawner_kind: None,
            lifetime: None,
            invincibility: None,
            is_player: None,
            is_alien: None,
            is_explosion: None,
            harms_player: None,
            harms_aliens: None,
            keep_inside: None,
            reap_when_outside: None,
        }
    }
}

} // verus!
