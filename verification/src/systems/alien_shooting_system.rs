//! Lets aliens shoot at the player now and then.

use vstd::prelude::*;
use crate::components::{EntityData, HarmsPlayer, Position, ReapWhenOutside, Sprite, Velocity};
use crate::geometry::{Rect, RectSize};
use crate::math::{aim, aimed_velocity};
use crate::queries::first_player_rect;
use crate::random::RandomSource;
use crate::world::{
    none_makes_a_player, pushed_makes_no_player, queue_extends, queue_nothing, Command, World,
    WorldView,
};

verus! {

/// A roll is one of this many equally likely numbers, counted from zero.
pub const ROLL_LIMIT: i64 = 10000;

/// An alien fires when its roll is above this: about once in a hundred
/// frames.
pub const ALIEN_FIRE_ABOVE: i64 = 9900;

/// The speed of an alien's shot, in pixels per second.
pub const ALIEN_SHOT_SPEED: u16 = 500;

/// Whether the entity is an alien that fires on `roll`.
pub open spec fn alien_fires(d: EntityData, roll: i64) -> bool {
    d.is_alien is Some && d.position is Some && roll > ALIEN_FIRE_ABOVE
}

/// The shot that an alien at `alien` fires at a player at `player`: it
/// starts at the alien's middle and flies towards the player's middle.
pub open spec fn alien_shot(alien: Rect, player: Rect, shot_size: RectSize) -> EntityData {
    let from = alien.spec_center();
    let v = aimed_velocity(from, player.spec_center(), ALIEN_SHOT_SPEED as int);
    EntityData {
        position: Some(
            Position {
                rect: Rect::spec_new(
                    from.0 as int,
                    from.1 as int,
                    shot_size.0 as int,
                    shot_size.1 as int,
                ),
            },
        ),
        velocity: Some(Velocity { x: v.0 as i32, y: v.1 as i32 }),
        sprite: Some(Sprite::UFOShot),
        reap_when_outside: Some(ReapWhenOutside),
        harms_player: Some(HarmsPlayer),
        ..EntityData::spec_empty()
    }
}

/// The shots that the aliens in the first `n` slots fire, in slot order,
/// where `rolls` holds one roll per slot. Without a player nobody fires.
pub open spec fn alien_shots(w: WorldView, shot_size: RectSize, rolls: Seq<i64>, n: nat) -> Seq<
    Command,
>
    decreases n,
{
    if n == 0 {
        Seq::empty()
    } else {
        let rest = alien_shots(w, shot_size, rolls, (n - 1) as nat);
        match (first_player_rect(w.data, 0), w.data[n - 1].position) {
            (Some(player), Some(p)) if alien_fires(w.data[n - 1], rolls[n - 1]) => rest.push(
                Command::Create(alien_shot(p.rect, player, shot_size)),
            ),
            _ => rest,
        }
    }
}

/// No alien's shot is a player.
pub proof fn alien_shots_make_no_player(
    w: WorldView,
    shot_size: RectSize,
    rolls: Seq<i64>,
    n: nat,
)
    ensures
        none_makes_a_player(alien_shots(w, shot_size, rolls, n)),
    decreases n,
{
    if n > 0 {
        alien_shots_make_no_player(w, shot_size, rolls, (n - 1) as nat);
        let rest = alien_shots(w, shot_size, rolls, (n - 1) as nat);
        if alien_shots(w, shot_size, rolls, n) != rest {
            pushed_makes_no_player(rest, alien_shots(w, shot_size, rolls, n).last());
        }
    }
}

/// Whether `rolls` holds one roll for each of `n` slots.
pub open spec fn are_rolls(rolls: Seq<i64>, n: nat) -> bool {
    &&& rolls.len() == n
    &&& forall|i: int| 0 <= i < n ==> 0 <= #[trigger] rolls[i] < ROLL_LIMIT
}

/// The system that lets aliens shoot; it knows the size of their shots,
/// in micro-pixels.
pub struct AlienShooting {
    pub shot_size: RectSize,
}

impl AlienShooting {
    pub fn new(shot_size: RectSize) -> (s: AlienShooting)
        ensures
            s.shot_size == shot_size,
    {
        AlienShooting { shot_size }
    }

    /// Builds the shot of one alien.
    pub fn make_shot(&self, alien: Rect, player: Rect) -> (d: EntityData)
        requires
            alien.wf(),
            player.wf(),
        ensures
            d == alien_shot(alien, player, self.shot_size),
            d.wf(),
    {
        let from = alien.center();
        let v = aim(from, player.center(), ALIEN_SHOT_SPEED);
        let mut d = EntityData::empty();
        d.position = Some(Position { rect: Rect::new(from, self.shot_size) });
        d.velocity = Some(v);
        d.sprite = Some(Sprite::UFOShot);
        d.reap_when_outside = Some(ReapWhenOutside);
        d.harms_player = Some(HarmsPlayer);
        d
    }

    /// Queues a shot for every alien whose roll says so, given one roll per
    /// slot. The store itself stays as it is.
    pub fn run_with(&mut self, world: &mut World, rolls: &Vec<i64>)
        requires
            old(world).wf(),
            rolls@.len() == old(world)@.len(),
        ensures
            *final(self) == *old(self),
            final(world).wf(),
            final(world)@ == old(world)@.queue_all(
                alien_shots(old(world)@, old(self).shot_size, rolls@, old(world)@.len()),
            ),
    {
        let n = world.len();
        let player = world.find_player_rect();
        let mut i: usize = 0;
        proof {
            queue_nothing(old(world)@);
        }
        while i < n
            invariant
                *self == *old(self),
                world.wf(),
                i <= n,
                n == old(world)@.data.len(),
                n == rolls@.len(),
                old(world).wf(),
                player == first_player_rect(old(world)@.data, 0),
                world@ == old(world)@.queue_all(
                    alien_shots(old(world)@, self.shot_size, rolls@, i as nat),
                ),
            decreases n - i,
        {
            let ghost so_far = alien_shots(old(world)@, self.shot_size, rolls@, i as nat);
            assert(world@.data == old(world)@.data);
            assert(old(world)@.data[i as int].wf());
            if world.is_alien.contains(i) && rolls[i] > ALIEN_FIRE_ABOVE {
                match (player, world.position.get(i)) {
                    (Some(target), Some(p)) => {
                        proof {
                            crate::queries::first_player_rect_is_wf(old(world)@, 0);
                        }
                        let shot = self.make_shot(p.rect, target);
                        world.queue(Command::Create(shot));
                        proof {
                            queue_extends(old(world)@, so_far, Command::Create(shot));
                        }
                    },
                    _ => {},
                }
            }
            i += 1;
        }
    }

    /// Rolls once for every alien that has a position and queues the shots
    /// that the rolls call for.
    pub fn run(&mut self, world: &mut World, rng: &mut RandomSource)
        requires
            old(world).wf(),
        ensures
            *final(self) == *old(self),
            final(world).wf(),
            exists|rolls: Seq<i64>|
                are_rolls(rolls, old(world)@.len()) && final(world)@ == old(world)@.queue_all(
                    alien_shots(old(world)@, old(self).shot_size, rolls, old(world)@.len()),
                ),
    {
        let n = world.len();
        let mut rolls: Vec<i64> = Vec::new();
        let mut i: usize = 0;
        while i < n
            invariant
                world.wf(),
                n == world@.len(),
                i <= n,
                are_rolls(rolls@, i as nat),
            decreases n - i,
        {
            let roll = if world.is_alien.contains(i) && world.position.contains(i) {
                rng.between(0, ROLL_LIMIT)
            } else {
                0
            };
            rolls.push(roll);
            i += 1;
        }
        self.run_with(world, &rolls);
        proof {
            assert(are_rolls(rolls@, old(world)@.len()));
        }
    }
}

} // verus!
