//! Sends in the aliens.

use vstd::prelude::*;
use crate::components::{EntityData, IsAlien, MovementKind, Position, Sprite, Velocity};
use crate::geometry::{Position as Point, Rect, RectSize};
use crate::random::RandomSource;
use crate::resources::Arena;
use crate::systems::alien_shooting_system::ROLL_LIMIT;
use crate::world::{queue_nothing, Command, World, WorldView};

verus! {

/// An alien appears when the roll is above this: about once in a hundred
/// frames.
pub const ENEMY_ABOVE: i64 = 9900;

/// How far beyond the right edge of the arena an alien appears, in
/// micro-pixels.
pub const ENEMY_LEAD: i64 = 100_000_000;

/// What chance decides of one frame's alien: whether there is one, how far
/// down it appears and how fast it drifts, in pixels per second.
#[derive(Debug, Copy, Clone, PartialEq, Eq, Structural)]
pub struct EnemyRoll {
    pub roll: i64,
    pub y: i64,
    pub vx: i32,
    pub vy: i32,
}

impl EnemyRoll {
    /// Whether chance can have decided so for the arena and an alien
    /// `height` high: the alien, if there is one, appears with its whole
    /// height between the top and the bottom edge where there is room, and
    /// drifts to the left.
    pub open spec fn fits(&self, arena: Arena, height: int) -> bool {
        &&& 0 <= self.roll < ROLL_LIMIT
        &&& self.roll > ENEMY_ABOVE ==> {
            &&& arena.0.spec_top() < arena.0.spec_bottom() - height ==> arena.0.spec_top()
                <= self.y < arena.0.spec_bottom() - height
            &&& arena.0.spec_top() >= arena.0.spec_bottom() - height ==> self.y
                == arena.0.spec_top()
            &&& -600 <= self.vx < -200
            &&& -35 <= self.vy < 35
        }
    }
}

/// The alien that `roll` describes, of size `size`.
pub open spec fn enemy(arena: Arena, size: RectSize, roll: EnemyRoll) -> EntityData {
    EntityData {
        position: Some(
            Position {
                rect: Rect::spec_new(
                    arena.0.spec_right() + ENEMY_LEAD,
                    roll.y as int,
                    size.0 as int,
                    size.1 as int,
                ),
            },
        ),
        velocity: Some(Velocity { x: roll.vx, y: roll.vy }),
        movement_kind: Some(MovementKind::SideToSide),
        sprite: Some(Sprite::UFO),
        is_alien: Some(IsAlien),
        ..EntityData::spec_empty()
    }
}

/// What one frame brings: an alien where the roll says so.
pub open spec fn enemies(w: WorldView, size: RectSize, roll: EnemyRoll) -> Seq<Command> {
    if roll.roll > ENEMY_ABOVE {
        seq![Command::Create(enemy(w.arena, size, roll))]
    } else {
        Seq::empty()
    }
}

/// The system that sends in the aliens; it knows their size, in
/// micro-pixels.
pub struct EnemySpawning {
    pub ufo_size: RectSize,
}

impl EnemySpawning {
    pub fn new(ufo_size: RectSize) -> (s: EnemySpawning)
        ensures
            s.ufo_size == ufo_size,
    {
        EnemySpawning { ufo_size }
    }

    /// Builds an alien.
    pub fn make_enemy(&self, arena: &Arena, roll: EnemyRoll) -> (d: EntityData)
        requires
            arena.0.wf(),
        ensures
            d == enemy(*arena, self.ufo_size, roll),
            d.wf(),
    {
        let x = arena.0.right() + ENEMY_LEAD;
        let mut d = EntityData::empty();
        d.position = Some(Position { rect: Rect::new(Point(x, roll.y), self.ufo_size) });
        d.velocity = Some(Velocity { x: roll.vx, y: roll.vy });
        d.movement_kind = Some(MovementKind::SideToSide);
        d.sprite = Some(Sprite::UFO);
        d.is_alien = Some(IsAlien);
        d
    }

    /// Queues the alien that `roll` calls for, if any. The store itself
    /// stays as it is.
    pub fn run_with(&mut self, world: &mut World, roll: EnemyRoll)
        requires
            old(world).wf(),
        ensures
            *final(self) == *old(self),
            final(world).wf(),
            final(world)@ == old(world)@.queue_all(enemies(old(world)@, old(self).ufo_size, roll)),
    {
        proof {
            queue_nothing(old(world)@);
        }
        if roll.roll > ENEMY_ABOVE {
            let arena = world.arena;
            let alien = self.make_enemy(&arena, roll);
            world.queue(Command::Create(alien));
            proof {
                assert(old(world)@.pending.push(Command::Create(alien)) =~= old(world)@.pending
                    + seq![Command::Create(alien)]);
            }
        }
    }

    /// Lets chance decide about this frame's alien.
    pub fn roll(&self, arena: &Arena, rng: &mut RandomSource) -> (roll: EnemyRoll)
        requires
            arena.0.wf(),
        ensures
            roll.fits(*arena, self.ufo_size.1 as int),
    {
        let first = rng.between(0, ROLL_LIMIT);
        if first > ENEMY_ABOVE {
            let lowest: i128 = arena.0.bottom() as i128 - self.ufo_size.1 as i128;
            let y = if lowest > arena.0.top() as i128 {
                rng.between(arena.0.top(), lowest as i64)
            } else {
                arena.0.top()
            };
            let vx = rng.between(-600, -200);
            let vy = rng.between(-35, 35);
            EnemyRoll { roll: first, y, vx: vx as i32, vy: vy as i32 }
        } else {
            EnemyRoll { roll: first, y: 0, vx: 0, vy: 0 }
        }
    }

    /// Rolls, and queues an alien where the roll says so.
    pub fn run(&mut self, world: &mut World, rng: &mut RandomSource)
        requires
            old(world).wf(),
        ensures
            *final(self) == *old(self),
            final(world).wf(),
            exists|roll: EnemyRoll|
                roll.fits(old(world)@.arena, old(self).ufo_size.1 as int) && final(world)@ == old(
                    world,
                )@.queue_all(enemies(old(world)@, old(self).ufo_size, roll)),
    {
        let arena = world.arena;
        let roll = self.roll(&arena, rng);
        self.run_with(world, roll);
    }
}

} // verus!
