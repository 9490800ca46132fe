//! Lets every particle source emit its burst of glowing particles.

use vstd::prelude::*;
use crate::components::{
    EntityData, IsExplosion, Lifetime, Position, SpawnerKind, Sprite, Velocity,
};
use crate::direction::{
    cosine, cosine_thousandths, quotient_toward_zero, share_of_speed, sine, sine_thousandths,
};
use crate::geometry::{Position as Point, Rect, RectSize};
use crate::random::RandomSource;
use crate::resources::UNITS_PER_WHOLE;
use crate::world::{
    joined_make_no_player, none_makes_a_player, pushed_makes_no_player, queue_extends,
    queue_joins, queue_nothing, Command, World, WorldView,
};

verus! {

/// The number of particles that a source emits in one frame.
pub const PARTICLES_PER_FRAME: usize = 10;

/// The least speed of a particle, in pixels per second.
pub const PARTICLE_SPEED_FROM: i64 = 100;

/// The speed that no particle reaches, in pixels per second.
pub const PARTICLE_SPEED_BELOW: i64 = 400;

/// What chance decides of one particle: its speed in pixels per second and
/// its direction in whole degrees, counted anticlockwise from east.
#[derive(Debug, Copy, Clone, PartialEq, Eq, Structural)]
pub struct ParticleRoll {
    pub speed: i32,
    pub degrees: u16,
}

impl ParticleRoll {
    /// Whether chance can have decided so.
    pub open spec fn wf(&self) -> bool {
        PARTICLE_SPEED_FROM <= self.speed < PARTICLE_SPEED_BELOW && self.degrees < 360
    }
}

/// The particle that a source at `at` emits on `roll`; it glows for
/// `glow_micros`. On screen the vertical axis points down, so a direction
/// above east flies up.
pub open spec fn particle(at: Point, glow_micros: i64, roll: ParticleRoll) -> EntityData {
    EntityData {
        sprite: Some(Sprite::Glow),
        position: Some(
            Position {
                rect: Rect::spec_new(
                    at.0 as int,
                    at.1 as int,
                    UNITS_PER_WHOLE as int,
                    UNITS_PER_WHOLE as int,
                ),
            },
        ),
        velocity: Some(
            Velocity {
                x: quotient_toward_zero(
                    roll.speed * cosine_thousandths(roll.degrees as int),
                    1000,
                ) as i32,
                y: (-quotient_toward_zero(roll.speed * sine_thousandths(roll.degrees as int), 1000)) as i32,
            },
        ),
        lifetime: Some(Lifetime { micros: glow_micros }),
        is_explosion: Some(IsExplosion),
        ..EntityData::spec_empty()
    }
}

/// Whether the entity is a particle source with a place to emit from.
pub open spec fn emits(d: EntityData) -> bool {
    d.spawner_kind is Some && d.position is Some
}

/// The first `p_end` particles of the source `d`, one for each roll.
pub open spec fn burst(d: EntityData, rolls: Seq<ParticleRoll>, p_end: nat) -> Seq<Command>
    decreases p_end,
{
    if p_end == 0 {
        Seq::empty()
    } else {
        let SpawnerKind::Fire(glow_micros) = d.spawner_kind->0;
        burst(d, rolls, (p_end - 1) as nat).push(
            Command::Create(
                particle(d.position->0.rect.spec_center(), glow_micros, rolls[p_end - 1]),
            ),
        )
    }
}

/// The particles of all sources in the first `n` slots, in slot order,
/// where `rolls` holds the rolls of each slot.
pub open spec fn particles(w: WorldView, rolls: Seq<Seq<ParticleRoll>>, n: nat) -> Seq<Command>
    decreases n,
{
    if n == 0 {
        Seq::empty()
    } else {
        let rest = particles(w, rolls, (n - 1) as nat);
        if emits(w.data[n - 1]) {
            rest + burst(w.data[n - 1], rolls[n - 1], PARTICLES_PER_FRAME as nat)
        } else {
            rest
        }
    }
}

/// No particle is a player.
pub proof fn burst_makes_no_player(d: EntityData, rolls: Seq<ParticleRoll>, p_end: nat)
    ensures
        none_makes_a_player(burst(d, rolls, p_end)),
    decreases p_end,
{
    if p_end > 0 {
        burst_makes_no_player(d, rolls, (p_end - 1) as nat);
        pushed_makes_no_player(burst(d, rolls, (p_end - 1) as nat), burst(d, rolls, p_end).last());
    }
}

/// No particle of any source is a player.
pub proof fn particles_make_no_player(w: WorldView, rolls: Seq<Seq<ParticleRoll>>, n: nat)
    ensures
        none_makes_a_player(particles(w, rolls, n)),
    decreases n,
{
    if n > 0 {
        particles_make_no_player(w, rolls, (n - 1) as nat);
        if emits(w.data[n - 1]) {
            burst_makes_no_player(w.data[n - 1], rolls[n - 1], PARTICLES_PER_FRAME as nat);
            joined_make_no_player(
                particles(w, rolls, (n - 1) as nat),
                burst(w.data[n - 1], rolls[n - 1], PARTICLES_PER_FRAME as nat),
            );
        }
    }
}

/// The rolls of each slot as sequences.
pub open spec fn rolls_of(rolls: Seq<Vec<ParticleRoll>>) -> Seq<Seq<ParticleRoll>> {
    Seq::new(rolls.len(), |i: int| rolls[i]@)
}

/// Whether `rolls` holds, for each of the first `n` slots of `w` that is a
/// particle source, a roll for every particle of its burst.
pub open spec fn are_particle_rolls(w: WorldView, rolls: Seq<Seq<ParticleRoll>>, n: nat) -> bool {
    &&& rolls.len() == n
    &&& n <= w.data.len()
    &&& forall|i: int|
        0 <= i < n && emits(w.data[i]) ==> {
            &&& (#[trigger] rolls[i]).len() == PARTICLES_PER_FRAME
            &&& forall|p: int| 0 <= p < PARTICLES_PER_FRAME ==> (#[trigger] rolls[i][p]).wf()
        }
}

/// Builds one particle.
pub fn make_particle(at: Point, glow_micros: i64, roll: ParticleRoll) -> (d: EntityData)
    requires
        roll.wf(),
    ensures
        d == particle(at, glow_micros, roll),
        d.wf(),
{
    let x = share_of_speed(roll.speed, cosine(roll.degrees));
    let y = share_of_speed(roll.speed, sine(roll.degrees));
    let mut d = EntityData::empty();
    d.sprite = Some(Sprite::Glow);
    d.position = Some(Position { rect: Rect::new(at, RectSize(UNITS_PER_WHOLE, UNITS_PER_WHOLE)) });
    d.velocity = Some(Velocity { x, y: -y });
    d.lifetime = Some(Lifetime { micros: glow_micros });
    d.is_explosion = Some(IsExplosion);
    d
}

/// The system that lets particle sources emit.
pub struct SpawnerSpawning;

impl SpawnerSpawning {
    /// Queues the burst of every particle source, given the rolls of each
    /// slot. The store itself stays as it is.
    pub fn run_with(&mut self, world: &mut World, rolls: &Vec<Vec<ParticleRoll>>)
        requires
            old(world).wf(),
            are_particle_rolls(old(world)@, rolls_of(rolls@), old(world)@.len()),
        ensures
            final(world).wf(),
            final(world)@ == old(world)@.queue_all(
                particles(old(world)@, rolls_of(rolls@), old(world)@.len()),
            ),
    {
        let n = world.len();
        let ghost all_rolls = rolls_of(rolls@);
        let mut i: usize = 0;
        proof {
            queue_nothing(old(world)@);
        }
        while i < n
            invariant
                world.wf(),
                old(world).wf(),
                i <= n,
                n == old(world)@.data.len(),
                all_rolls == rolls_of(rolls@),
                are_particle_rolls(old(world)@, all_rolls, n as nat),
                world@ == old(world)@.queue_all(particles(old(world)@, all_rolls, i as nat)),
            decreases n - i,
        {
            let ghost earlier = particles(old(world)@, all_rolls, i as nat);
            let ghost source = old(world)@.data[i as int];
            assert(world@.data == old(world)@.data);
            assert(source.wf());
            match (world.spawner_kind.get(i), world.position.get(i)) {
                (Some(SpawnerKind::Fire(glow_micros)), Some(place)) => {
                    let at = place.rect.center();
                    let mine = &rolls[i];
                    assert(mine@ == all_rolls[i as int]);
                    let mut p: usize = 0;
                    proof {
                        queue_joins(old(world)@, earlier, Seq::empty());
                        assert(earlier + Seq::<Command>::empty() =~= earlier);
                    }
                    while p < PARTICLES_PER_FRAME
                        invariant
                            world.wf(),
                            p <= PARTICLES_PER_FRAME,
                            i < n,
                            n == old(world)@.data.len(),
                            source == old(world)@.data[i as int],
                            source.spawner_kind == Some(SpawnerKind::Fire(glow_micros)),
                            source.position == Some(place),
                            at == place.rect.spec_center(),
                            mine@ == all_rolls[i as int],
                            mine@.len() == PARTICLES_PER_FRAME,
                            forall|q: int| 0 <= q < PARTICLES_PER_FRAME ==> (#[trigger] mine@[q]).wf(),
                            world@ == old(world)@.queue_all(
                                earlier + burst(source, mine@, p as nat),
                            ),
                        decreases PARTICLES_PER_FRAME - p,
                    {
                        let ghost so_far = earlier + burst(source, mine@, p as nat);
                        let roll = mine[p];
                        let glow = make_particle(at, glow_micros, roll);
                        world.queue(Command::Create(glow));
                        proof {
                            queue_extends(old(world)@, so_far, Command::Create(glow));
                            assert(so_far.push(Command::Create(glow)) =~= earlier + burst(
                                source,
                                mine@,
                                (p + 1) as nat,
                            ));
                        }
                        p += 1;
                    }
                },
                _ => {},
            }
            i += 1;
        }
    }

    /// Rolls speed and direction for every particle and queues the bursts.
    pub fn run(&mut self, world: &mut World, rng: &mut RandomSource)
        requires
            old(world).wf(),
        ensures
            final(world).wf(),
            exists|rolls: Seq<Seq<ParticleRoll>>|
                are_particle_rolls(old(world)@, rolls, old(world)@.len()) && final(world)@ == old(
                    world,
                )@.queue_all(particles(old(world)@, rolls, old(world)@.len())),
    {
        let n = world.len();
        let mut rolls: Vec<Vec<ParticleRoll>> = Vec::new();
        let mut i: usize = 0;
        while i < n
            invariant
                world.wf(),
                *world == *old(world),
                n == world@.data.len(),
                i <= n,
                are_particle_rolls(world@, rolls_of(rolls@), i as nat),
            decreases n - i,
        {
            let ghost before = rolls_of(rolls@);
            let mut mine: Vec<ParticleRoll> = Vec::new();
            if world.spawner_kind.contains(i) && world.position.contains(i) {
                let mut p: usize = 0;
                while p < PARTICLES_PER_FRAME
                    invariant
                        p <= PARTICLES_PER_FRAME,
                        mine@.len() == p,
                        forall|q: int| 0 <= q < p ==> (#[trigger] mine@[q]).wf(),
                    decreases PARTICLES_PER_FRAME - p,
                {
                    let speed = rng.between(PARTICLE_SPEED_FROM, PARTICLE_SPEED_BELOW);
                    let degrees = rng.between(0, 360);
                    mine.push(ParticleRoll { speed: speed as i32, degrees: degrees as u16 });
                    p += 1;
                }
            }
            rolls.push(mine);
            proof {
                let after = rolls_of(rolls@);
                assert forall|j: int| 0 <= j < i + 1 && emits(world@.data[j]) implies {
                    &&& (#[trigger] after[j]).len() == PARTICLES_PER_FRAME
                    &&& forall|q: int| 0 <= q < PARTICLES_PER_FRAME ==> (#[trigger] after[j][q]).wf()
                } by {
                    if j < i {
                        assert(after[j] == before[j]);
                    }
                }
            }
            i += 1;
        }
        self.run_with(world, &rolls);
        proof {
            assert(are_particle_rolls(old(world)@, rolls_of(rolls@), old(world)@.len()));
        }
    }
}

} // verus!
