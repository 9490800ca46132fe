//! Runs the systems of one frame by the plan and then carries out the
//! structural changes that they asked for.

use vstd::prelude::*;
use crate::access::{access, Part};
use crate::components::EntityData;
use crate::random::RandomSource;
use crate::scheduler::{Schedule, SystemId};
use crate::systems::alien_shooting_system::{
    alien_shots, alien_shots_make_no_player, are_rolls, AlienShooting,
};
use crate::systems::collision_checker_system::{
    collided, collision_commands, collisions_make_no_player, CollisionChecker,
};
use crate::systems::enemy_spawning_system::{enemies, EnemyRoll, EnemySpawning};
use crate::systems::force_inside_system::{force_inside_all, ForceInside};
use crate::systems::invincibility_watching_system::{
    faded, invincibility_ends, invincibility_ends_make_no_player, InvincibilityWatching,
};
use crate::systems::lifetime_watching_system::{
    aged, lifetime_deletes, lifetime_deletes_make_no_player, LifetimeWatching,
};
use crate::systems::non_player_control_system::{turn_all, NonPlayerControl};
use crate::systems::player_control_system::{steer_all, PlayerControl};
use crate::systems::player_shooting_system::{player_shots, PlayerShooting};
use crate::systems::reap_outsiders_system::{
    outsider_deletes, outsider_deletes_make_no_player, ReapOutsiders,
};
use crate::systems::spawner_spawning_system::{
    are_particle_rolls, particles, particles_make_no_player, ParticleRoll, SpawnerSpawning,
};
use crate::systems::star_spawner_system::{stars, StarRoll, StarSpawner};
use crate::systems::update_pos_system::{move_all, UpdatePos};
use crate::world::{
    at_most_one_player, joined_make_no_player, maintained_keeps_one_player, none_makes_a_player,
    World, WorldView,
};

verus! {

/// The plan together with the systems that keep something between frames
/// or were made with a size.
pub struct Dispatcher {
    pub schedule: Schedule,
    pub player_shooting: PlayerShooting,
    pub alien_shooting: AlienShooting,
    pub enemy_spawning: EnemySpawning,
}

/// Whether one run of the system `id` can lead from the store `before` to
/// the store `after`, the player's shooting going from `shooting` to
/// `shooting_after`. Where chance takes part, some outcome of it must lead
/// there.
pub open spec fn system_ran(
    id: SystemId,
    alien_shooting: AlienShooting,
    enemy_spawning: EnemySpawning,
    shooting: PlayerShooting,
    before: WorldView,
    shooting_after: PlayerShooting,
    after: WorldView,
) -> bool {
    match id {
        SystemId::NonPlayerControl => shooting_after == shooting && after == turn_all(before),
        SystemId::PlayerControl => shooting_after == shooting && after == steer_all(before),
        SystemId::PlayerShooting => {
            &&& shooting_after.shot_size == shooting.shot_size
            &&& shooting_after.has_shot == before.control_state.fire
            &&& after == before.queue_all(
                player_shots(before, shooting.has_shot, shooting.shot_size),
            )
        },
        SystemId::AlienShooting => shooting_after == shooting && exists|rolls: Seq<i64>|
            are_rolls(rolls, before.len()) && after == before.queue_all(
                alien_shots(before, alien_shooting.shot_size, rolls, before.len()),
            ),
        SystemId::UpdatePos => shooting_after == shooting && after == move_all(before),
        SystemId::ReapOutsiders => shooting_after == shooting && after == before.queue_all(
            outsider_deletes(before, before.data.len()),
        ),
        SystemId::ForceInside => shooting_after == shooting && after == force_inside_all(before),
        SystemId::CollisionChecker => shooting_after == shooting && after == collided(before),
        SystemId::EnemySpawning => shooting_after == shooting && exists|roll: EnemyRoll|
            roll.fits(before.arena, enemy_spawning.ufo_size.1 as int) && after
                == before.queue_all(enemies(before, enemy_spawning.ufo_size, roll)),
        SystemId::SpawnerSpawning => shooting_after == shooting && exists|
            rolls: Seq<Seq<ParticleRoll>>,
        |
            are_particle_rolls(before, rolls, before.len()) && after == before.queue_all(
                particles(before, rolls, before.len()),
            ),
        SystemId::LifetimeWatching => shooting_after == shooting && after == aged(before),
        SystemId::InvincibilityWatching => shooting_after == shooting && after == faded(before),
        SystemId::StarSpawner => shooting_after == shooting && exists|roll: StarRoll|
            roll.fits(before.arena) && after == before.queue_all(stars(before, roll)),
    }
}

/// Whether two entities have the same component of the kind `part`.
pub open spec fn same_component(a: EntityData, b: EntityData, part: Part) -> bool {
    match part {
        Part::Position => a.position == b.position,
        Part::Velocity => a.velocity == b.velocity,
        Part::Sprite => a.sprite == b.sprite,
        Part::Draw => a.draw == b.draw,
        Part::MovementKind => a.movement_kind == b.movement_kind,
        Part::SpawnerKind => a.spawner_kind == b.spawner_kind,
        Part::Lifetime => a.lifetime == b.lifetime,
        Part::Invincibility => a.invincibility == b.invincibility,
        Part::IsPlayer => a.is_player == b.is_player,
        Part::IsAlien => a.is_alien == b.is_alien,
        Part::IsExplosion => a.is_explosion == b.is_explosion,
        Part::HarmsPlayer => a.harms_player == b.harms_player,
        Part::HarmsAliens => a.harms_aliens == b.harms_aliens,
        Part::KeepInside => a.keep_inside == b.keep_inside,
        Part::ReapWhenOutside => a.reap_when_outside == b.reap_when_outside,
        _ => true,
    }
}

/// Whether the part `part` of the store is in `after` as it was in
/// `before`.
pub open spec fn part_unchanged(before: WorldView, after: WorldView, part: Part) -> bool {
    match part {
        Part::Arena => after.arena == before.arena,
        Part::Elapsed => after.elapsed == before.elapsed,
        Part::ControlState => after.control_state == before.control_state,
        Part::PlayingState => after.playing_state == before.playing_state,
        _ => after.data.len() == before.data.len() && forall|i: int|
            0 <= i < before.data.len() ==> same_component(
                before.data[i],
                #[trigger] after.data[i],
                part,
            ),
    }
}

/// A system changes nothing but what it declares to write: whatever part
/// the system `id` does not declare to write is after its run as it was
/// before. Nor does a system make or delete an entity, or take back what
/// was asked for: the registry is as it was, and the queue has only grown.
pub proof fn systems_write_what_they_declare(
    id: SystemId,
    alien_shooting: AlienShooting,
    enemy_spawning: EnemySpawning,
    shooting: PlayerShooting,
    before: WorldView,
    shooting_after: PlayerShooting,
    after: WorldView,
    part: Part,
)
    requires
        system_ran(id, alien_shooting, enemy_spawning, shooting, before, shooting_after, after),
    ensures
        !(access(id, part) is Write) ==> part_unchanged(before, after, part),
        after.alive == before.alive,
        after.generations == before.generations,
        before.pending.is_prefix_of(after.pending),
{
    match id {
        SystemId::CollisionChecker => {
            assert(after.data == before.data);
        },
        _ => {},
    }
}

/// No system makes a player, and none turns anything into one: where there
/// is at most one player before a system runs, and nothing that waits
/// makes one, the same holds after the run.
pub proof fn systems_keep_one_player(
    id: SystemId,
    alien_shooting: AlienShooting,
    enemy_spawning: EnemySpawning,
    shooting: PlayerShooting,
    before: WorldView,
    shooting_after: PlayerShooting,
    after: WorldView,
)
    requires
        system_ran(id, alien_shooting, enemy_spawning, shooting, before, shooting_after, after),
        at_most_one_player(before.data),
        none_makes_a_player(before.pending),
    ensures
        at_most_one_player(after.data),
        none_makes_a_player(after.pending),
{
    systems_write_what_they_declare(
        id,
        alien_shooting,
        enemy_spawning,
        shooting,
        before,
        shooting_after,
        after,
        Part::IsPlayer,
    );
    assert forall|i: int, j: int|
        0 <= i < after.data.len() && 0 <= j < after.data.len() && (#[trigger] after.data[i])
            .is_player is Some && (#[trigger] after.data[j]).is_player is Some implies i == j by {
        assert(same_component(before.data[i], after.data[i], Part::IsPlayer));
        assert(same_component(before.data[j], after.data[j], Part::IsPlayer));
        assert(before.data[i].is_player is Some);
        assert(before.data[j].is_player is Some);
    }
    match id {
        SystemId::PlayerShooting => {
            joined_make_no_player(
                before.pending,
                player_shots(before, shooting.has_shot, shooting.shot_size),
            );
        },
        SystemId::AlienShooting => {
            let rolls = choose|rolls: Seq<i64>|
                are_rolls(rolls, before.len()) && after == before.queue_all(
                    alien_shots(before, alien_shooting.shot_size, rolls, before.len()),
                );
            alien_shots_make_no_player(before, alien_shooting.shot_size, rolls, before.len());
            joined_make_no_player(
                before.pending,
                alien_shots(before, alien_shooting.shot_size, rolls, before.len()),
            );
        },
        SystemId::ReapOutsiders => {
            outsider_deletes_make_no_player(before, before.data.len());
            joined_make_no_player(before.pending, outsider_deletes(before, before.data.len()));
        },
        SystemId::CollisionChecker => {
            collisions_make_no_player(before);
            joined_make_no_player(before.pending, collision_commands(before));
        },
        SystemId::EnemySpawning => {
            let roll = choose|roll: EnemyRoll|
                roll.fits(before.arena, enemy_spawning.ufo_size.1 as int) && after
                    == before.queue_all(enemies(before, enemy_spawning.ufo_size, roll));
            joined_make_no_player(before.pending, enemies(before, enemy_spawning.ufo_size, roll));
        },
        SystemId::SpawnerSpawning => {
            let rolls = choose|rolls: Seq<Seq<ParticleRoll>>|
                are_particle_rolls(before, rolls, before.len()) && after == before.queue_all(
                    particles(before, rolls, before.len()),
                );
            particles_make_no_player(before, rolls, before.len());
            joined_make_no_player(before.pending, particles(before, rolls, before.len()));
        },
        SystemId::LifetimeWatching => {
            lifetime_deletes_make_no_player(before, before.data.len());
            joined_make_no_player(before.pending, lifetime_deletes(before, before.data.len()));
        },
        SystemId::InvincibilityWatching => {
            invincibility_ends_make_no_player(before, before.data.len());
            joined_make_no_player(before.pending, invincibility_ends(before, before.data.len()));
        },
        SystemId::StarSpawner => {
            let roll = choose|roll: StarRoll|
                roll.fits(before.arena) && after == before.queue_all(stars(before, roll));
            joined_make_no_player(before.pending, stars(before, roll));
        },
        _ => {},
    }
}

/// Where the systems ran one after the other from a store with at most one
/// player in which nothing that waits makes one, every store on the way
/// has at most one player, and nothing that waits in it makes one.
pub proof fn runs_keep_one_player(
    order: Seq<SystemId>,
    alien_shooting: AlienShooting,
    enemy_spawning: EnemySpawning,
    worlds: Seq<WorldView>,
    shootings: Seq<PlayerShooting>,
    n: nat,
    k: int,
)
    requires
        systems_ran(order, alien_shooting, enemy_spawning, worlds, shootings, n),
        at_most_one_player(worlds[0].data),
        none_makes_a_player(worlds[0].pending),
        0 <= k <= n,
    ensures
        at_most_one_player(worlds[k].data),
        none_makes_a_player(worlds[k].pending),
    decreases k,
{
    if k > 0 {
        runs_keep_one_player(order, alien_shooting, enemy_spawning, worlds, shootings, n, k - 1);
        assert(system_ran(
            order[k - 1],
            alien_shooting,
            enemy_spawning,
            shootings[k - 1],
            worlds[k - 1],
            shootings[k],
            worlds[k],
        ));
        systems_keep_one_player(
            order[k - 1],
            alien_shooting,
            enemy_spawning,
            shootings[k - 1],
            worlds[k - 1],
            shootings[k],
            worlds[k],
        );
    }
}

/// There is never more than one player: a frame that starts with at most
/// one player, and with nothing waiting that makes one, ends with at most
/// one player.
pub proof fn frames_keep_one_player(
    start: Dispatcher,
    before: WorldView,
    end: Dispatcher,
    after: WorldView,
)
    requires
        dispatched(start, before, end, after),
        at_most_one_player(before.data),
        none_makes_a_player(before.pending),
    ensures
        after.wf(),
        after.pending.len() == 0,
        at_most_one_player(after.data),
{
    let (worlds, shootings) = choose|worlds: Seq<WorldView>, shootings: Seq<PlayerShooting>|
        {
            &&& systems_ran(
                start.schedule.order@,
                start.alien_shooting,
                start.enemy_spawning,
                worlds,
                shootings,
                start.schedule.order@.len(),
            )
            &&& worlds[0] == before
            &&& shootings[0] == start.player_shooting
            &&& end.player_shooting == shootings.last()
            &&& after == worlds.last().maintained()
        };
    let n = start.schedule.order@.len();
    runs_keep_one_player(
        start.schedule.order@,
        start.alien_shooting,
        start.enemy_spawning,
        worlds,
        shootings,
        n,
        n as int,
    );
    assert(worlds[n as int].wf());
    maintained_keeps_one_player(worlds.last());
}

/// Whether `worlds` and `shootings` tell of the first `n` systems of
/// `order` running one after the other: each pair of neighbours is one run,
/// and every store on the way is well formed.
pub open spec fn systems_ran(
    order: Seq<SystemId>,
    alien_shooting: AlienShooting,
    enemy_spawning: EnemySpawning,
    worlds: Seq<WorldView>,
    shootings: Seq<PlayerShooting>,
    n: nat,
) -> bool {
    &&& n <= order.len()
    &&& worlds.len() == n + 1
    &&& shootings.len() == n + 1
    &&& forall|k: int| 0 <= k <= n ==> (#[trigger] worlds[k]).wf()
    &&& forall|k: int|
        0 <= k < n ==> system_ran(
            #[trigger] order[k],
            alien_shooting,
            enemy_spawning,
            shootings[k],
            worlds[k],
            shootings[k + 1],
            worlds[k + 1],
        )
}

/// Whether one frame can lead from the store `before` to the store
/// `after`, the dispatcher going from `start` to `end`: the systems of the
/// plan ran one after the other, and the commands that they queued were
/// carried out at the end.
pub open spec fn dispatched(start: Dispatcher, before: WorldView, end: Dispatcher, after: WorldView) -> bool {
    &&& end.schedule == start.schedule
    &&& end.alien_shooting == start.alien_shooting
    &&& end.enemy_spawning == start.enemy_spawning
    &&& exists|worlds: Seq<WorldView>, shootings: Seq<PlayerShooting>|
        {
            &&& systems_ran(
                start.schedule.order@,
                start.alien_shooting,
                start.enemy_spawning,
                worlds,
                shootings,
                start.schedule.order@.len(),
            )
            &&& worlds[0] == before
            &&& shootings[0] == start.player_shooting
            &&& end.player_shooting == shootings.last()
            &&& after == worlds.last().maintained()
        }
}

impl Dispatcher {
    /// Runs one system.
    pub fn run_system(&mut self, id: SystemId, world: &mut World, rng: &mut RandomSource)
        requires
            old(world).wf(),
        ensures
            final(world).wf(),
            final(self).schedule == old(self).schedule,
            final(self).alien_shooting == old(self).alien_shooting,
            final(self).enemy_spawning == old(self).enemy_spawning,
            system_ran(
                id,
                old(self).alien_shooting,
                old(self).enemy_spawning,
                old(self).player_shooting,
                old(world)@,
                final(self).player_shooting,
                final(world)@,
            ),
    {
        match id {
            SystemId::NonPlayerControl => {
                let mut system = NonPlayerControl;
                system.run(world);
            },
            SystemId::PlayerControl => {
                let mut system = PlayerControl;
                system.run(world);
            },
            SystemId::PlayerShooting => {
                self.player_shooting.run(world);
            },
            SystemId::AlienShooting => {
                self.alien_shooting.run(world, rng);
            },
            SystemId::UpdatePos => {
                let mut system = UpdatePos;
                system.run(world);
            },
            SystemId::ReapOutsiders => {
                let mut system = ReapOutsiders;
                system.run(world);
            },
            SystemId::ForceInside => {
                let mut system = ForceInside;
                system.run(world);
            },
            SystemId::CollisionChecker => {
                let mut system = CollisionChecker;
                system.run(world);
            },
            SystemId::EnemySpawning => {
                self.enemy_spawning.run(world, rng);
            },
            SystemId::SpawnerSpawning => {
                let mut system = SpawnerSpawning;
                system.run(world, rng);
            },
            SystemId::LifetimeWatching => {
                let mut system = LifetimeWatching;
                system.run(world);
            },
            SystemId::InvincibilityWatching => {
                let mut system = InvincibilityWatching;
                system.run(world);
            },
            SystemId::StarSpawner => {
                let mut system = StarSpawner;
                system.run(world, rng);
            },
        }
    }

    /// Runs every system of the plan once, in the plan's order, and then
    /// carries out the structural changes that they asked for. No system
    /// sees an entity made or deleted in the same frame.
    pub fn dispatch(&mut self, world: &mut World, rng: &mut RandomSource)
        requires
            old(world).wf(),
        ensures
            final(world).wf(),
            final(world)@.pending.len() == 0,
            dispatched(*old(self), old(world)@, *final(self), final(world)@),
    {
        let n = self.schedule.order.len();
        let ghost mut worlds: Seq<WorldView> = seq![world@];
        let ghost mut shootings: Seq<PlayerShooting> = seq![self.player_shooting];
        let mut k: usize = 0;
        while k < n
            invariant
                world.wf(),
                k <= n,
                n == self.schedule.order@.len(),
                self.schedule == old(self).schedule,
                self.alien_shooting == old(self).alien_shooting,
                self.enemy_spawning == old(self).enemy_spawning,
                systems_ran(
                    self.schedule.order@,
                    self.alien_shooting,
                    self.enemy_spawning,
                    worlds,
                    shootings,
                    k as nat,
                ),
                worlds[0] == old(world)@,
                shootings[0] == old(self).player_shooting,
                worlds.last() == world@,
                shootings.last() == self.player_shooting,
            decreases n - k,
        {
            let id = self.schedule.order[k];
            let ghost before_worlds = worlds;
            let ghost before_shootings = shootings;
            self.run_system(id, world, rng);
            proof {
                worlds = worlds.push(world@);
                shootings = shootings.push(self.player_shooting);
                assert forall|j: int| 0 <= j <= k + 1 implies (#[trigger] worlds[j]).wf() by {
                    if j <= k {
                        assert(worlds[j] == before_worlds[j]);
                        assert(before_worlds[j].wf());
                    }
                }
                assert forall|j: int| 0 <= j < k + 1 implies system_ran(
                    #[trigger] self.schedule.order@[j],
                    self.alien_shooting,
                    self.enemy_spawning,
                    shootings[j],
                    worlds[j],
                    shootings[j + 1],
                    worlds[j + 1],
                ) by {
                    if j < k {
                        assert(worlds[j] == before_worlds[j]);
                        assert(worlds[j + 1] == before_worlds[j + 1]);
                        assert(shootings[j] == before_shootings[j]);
                        assert(shootings[j + 1] == before_shootings[j + 1]);
                    }
                }
            }
            k += 1;
        }
        world.maintain();
    }
}

} // verus!
