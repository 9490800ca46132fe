//! Scatters the stars of the background.

use vstd::prelude::*;
use crate::components::{Draw, EntityData, Position, ReapWhenOutside, Velocity};
use crate::geometry::{Position as Point, Rect, RectSize};
use crate::random::RandomSource;
use crate::resources::{Arena, UNITS_PER_WHOLE};
use crate::systems::alien_shooting_system::ROLL_LIMIT;
use crate::world::{queue_nothing, Command, World, WorldView};

verus! {

/// A star appears when the roll is above this: about once in twenty frames.
pub const STAR_ABOVE: i64 = 9500;

/// What chance decides of one frame's star: whether there is one, how far
/// down it appears, how large it is in pixels and how fast it drifts in
/// pixels per second.
#[derive(Debug, Copy, Clone, PartialEq, Eq, Structural)]
pub struct StarRoll {
    pub roll: i64,
    pub y: i64,
    pub radius: i16,
    pub speed: u16,
}

impl StarRoll {
    /// Whether chance can have decided so for the arena: the star, if there
    /// is one, appears between the top and the bottom edge, with a radius
    /// from 1 to 4 and a speed from 15 to 49.
    pub open spec fn fits(&self, arena: Arena) -> bool {
        &&& 0 <= self.roll < ROLL_LIMIT
        &&& self.roll > STAR_ABOVE ==> {
            &&& arena.0.spec_top() < arena.0.spec_bottom() ==> arena.0.spec_top() <= self.y
                < arena.0.spec_bottom()
            &&& arena.0.spec_top() >= arena.0.spec_bottom() ==> self.y == arena.0.spec_top()
            &&& 1 <= self.radius < 5
            &&& 15 <= self.speed < 50
        }
    }
}

/// The star that `roll` describes: a point one pixel inside the right
/// edge of the arena, drifting to the left.
pub open spec fn star(arena: Arena, roll: StarRoll) -> EntityData {
    EntityData {
        position: Some(
            Position {
                rect: Rect::spec_new(arena.0.spec_right() - UNITS_PER_WHOLE, roll.y as int, 0, 0),
            },
        ),
        velocity: Some(Velocity { x: (-(roll.speed as int)) as i32, y: 0 }),
        draw: Some(Draw::Star(roll.radius)),
        reap_when_outside: Some(ReapWhenOutside),
        ..EntityData::spec_empty()
    }
}

/// What one frame brings: a star where the roll says so.
pub open spec fn stars(w: WorldView, roll: StarRoll) -> Seq<Command> {
    if roll.roll > STAR_ABOVE {
        seq![Command::Create(star(w.arena, roll))]
    } else {
        Seq::empty()
    }
}

/// Builds a star.
pub fn make_star(arena: &Arena, roll: StarRoll) -> (d: EntityData)
    requires
        arena.0.wf(),
    ensures
        d == star(*arena, roll),
        d.wf(),
{
    let x = arena.0.right() - UNITS_PER_WHOLE;
    let mut d = EntityData::empty();
    d.position = Some(Position { rect: Rect::new(Point(x, roll.y), RectSize(0, 0)) });
    d.velocity = Some(Velocity { x: -(roll.speed as i32), y: 0 });
    d.draw = Some(Draw::Star(roll.radius));
    d.reap_when_outside = Some(ReapWhenOutside);
    d
}

/// The system that scatters the stars.
pub struct StarSpawner;

impl StarSpawner {
    /// Queues the star that `roll` calls for, if any. The store itself
    /// stays as it is.
    pub fn run_with(&mut self, world: &mut World, roll: StarRoll)
        requires
            old(world).wf(),
        ensures
            final(world).wf(),
            final(world)@ == old(world)@.queue_all(stars(old(world)@, roll)),
    {
        proof {
            queue_nothing(old(world)@);
        }
        if roll.roll > STAR_ABOVE {
            let arena = world.arena;
            let new_star = make_star(&arena, roll);
            world.queue(Command::Create(new_star));
            proof {
                assert(old(world)@.pending.push(Command::Create(new_star)) =~= old(world)@.pending
                    + seq![Command::Create(new_star)]);
            }
        }
    }

    /// Lets chance decide about this frame's star.
    pub fn roll(arena: &Arena, rng: &mut RandomSource) -> (roll: StarRoll)
        requires
            arena.0.wf(),
        ensures
            roll.fits(*arena),
    {
        let first = rng.between(0, ROLL_LIMIT);
        if first > STAR_ABOVE {
            let y = rng.between(arena.0.top(), arena.0.bottom());
            let radius = rng.between(1, 5);
            let speed = rng.between(15, 50);
            StarRoll { roll: first, y, radius: radius as i16, speed: speed as u16 }
        } else {
            StarRoll { roll: first, y: 0, radius: 0, speed: 0 }
        }
    }

    /// Rolls, and queues a star where the roll says so.
    pub fn run(&mut self, world: &mut World, rng: &mut RandomSource)
        requires
            old(world).wf(),
        ensures
            final(world).wf(),
            exists|roll: StarRoll|
                roll.fits(old(world)@.arena) && final(world)@ == old(world)@.queue_all(
                    stars(old(world)@, roll),
                ),
    {
        let arena = world.arena;
        let roll = StarSpawner::roll(&arena, rng);
        self.run_with(world, roll);
    }
}

} // verus!
