//! Puts the store and the dispatcher of the game together.

use vstd::prelude::*;
use crate::dispatcher::Dispatcher;
use crate::geometry::{Position, Rect, RectSize};
use crate::resources::{Arena, EntitySizes};
use crate::scheduler::{
    entry_fault, first_fault, ids_of, ids_of_is_pointwise, registered_before, stages_of, Schedule,
    ScheduleError, SystemEntry, SystemId,
};
use crate::systems::alien_shooting_system::AlienShooting;
use crate::systems::enemy_spawning_system::EnemySpawning;
use crate::systems::player_shooting_system::PlayerShooting;
use crate::world::World;

verus! {

/// The systems of the game in the order in which they are registered, and
/// so run.
pub open spec fn standard_order() -> Seq<SystemId> {
    seq![
        SystemId::NonPlayerControl,
        SystemId::PlayerControl,
        SystemId::PlayerShooting,
        SystemId::AlienShooting,
        SystemId::UpdatePos,
        SystemId::ReapOutsiders,
        SystemId::ForceInside,
        SystemId::CollisionChecker,
        SystemId::EnemySpawning,
        SystemId::SpawnerSpawning,
        SystemId::LifetimeWatching,
        SystemId::InvincibilityWatching,
        SystemId::StarSpawner,
    ]
}

/// The systems after which `id` must run. Movement comes after steering,
/// so that a frame's input moves the player in that frame; reaping and
/// pushing inside come after movement; collisions come after pushing
/// inside, so that they see the player where it ends up.
pub open spec fn standard_after(id: SystemId) -> Seq<SystemId> {
    match id {
        SystemId::UpdatePos => seq![SystemId::NonPlayerControl, SystemId::PlayerControl],
        SystemId::ReapOutsiders => seq![SystemId::UpdatePos],
        SystemId::ForceInside => seq![SystemId::UpdatePos],
        SystemId::CollisionChecker => seq![SystemId::ForceInside],
        _ => Seq::empty(),
    }
}

/// Whether `entries` are the registrations of the game.
pub open spec fn is_standard(entries: Seq<SystemEntry>) -> bool {
    &&& entries.len() == standard_order().len()
    &&& forall|i: int|
        0 <= i < entries.len() ==> (#[trigger] entries[i]).id == standard_order()[i]
            && entries[i].after@ == standard_after(entries[i].id)
}

/// One registration.
pub fn entry(id: SystemId, after: Vec<SystemId>) -> (e: SystemEntry)
    ensures
        e.id == id,
        e.after == after,
{
    SystemEntry { id, after }
}

/// The registrations of the game.
pub fn standard_entries() -> (entries: Vec<SystemEntry>)
    ensures
        is_standard(entries@),
{
    let mut entries: Vec<SystemEntry> = Vec::new();
    entries.push(entry(SystemId::NonPlayerControl, Vec::new()));
    entries.push(entry(SystemId::PlayerControl, Vec::new()));
    entries.push(entry(SystemId::PlayerShooting, Vec::new()));
    entries.push(entry(SystemId::AlienShooting, Vec::new()));
    entries.push(
        entry(SystemId::UpdatePos, vec![SystemId::NonPlayerControl, SystemId::PlayerControl]),
    );
    entries.push(entry(SystemId::ReapOutsiders, vec![SystemId::UpdatePos]));
    entries.push(entry(SystemId::ForceInside, vec![SystemId::UpdatePos]));
    entries.push(entry(SystemId::CollisionChecker, vec![SystemId::ForceInside]));
    entries.push(entry(SystemId::EnemySpawning, Vec::new()));
    entries.push(entry(SystemId::SpawnerSpawning, Vec::new()));
    entries.push(entry(SystemId::LifetimeWatching, Vec::new()));
    entries.push(entry(SystemId::InvincibilityWatching, Vec::new()));
    entries.push(entry(SystemId::StarSpawner, Vec::new()));
    proof {
        assert forall|i: int| 0 <= i < entries@.len() implies (#[trigger] entries@[i]).id
            == standard_order()[i] && entries@[i].after@ == standard_after(entries@[i].id) by {
            assert(entries@[i].after@ =~= standard_after(entries@[i].id));
        }
    }
    entries
}

/// The registrations of the game give a plan: no system is there twice,
/// and each comes after those it must run after.
pub proof fn standard_entries_are_sound(entries: Seq<SystemEntry>)
    requires
        is_standard(entries),
    ensures
        first_fault(entries, entries.len()) is None,
        ids_of(entries, entries.len()) == standard_order(),
{
    assert(entries[0].id == SystemId::NonPlayerControl);
    assert(entries[1].id == SystemId::PlayerControl);
    assert(entries[2].id == SystemId::PlayerShooting);
    assert(entries[3].id == SystemId::AlienShooting);
    assert(entries[4].id == SystemId::UpdatePos);
    assert(entries[5].id == SystemId::ReapOutsiders);
    assert(entries[6].id == SystemId::ForceInside);
    assert(entries[7].id == SystemId::CollisionChecker);
    assert(entries[8].id == SystemId::EnemySpawning);
    assert(entries[9].id == SystemId::SpawnerSpawning);
    assert(entries[10].id == SystemId::LifetimeWatching);
    assert(entries[11].id == SystemId::InvincibilityWatching);
    assert(entries[12].id == SystemId::StarSpawner);
    assert forall|i: int| 0 <= i < entries.len() implies entry_fault(entries, i) is None by {
        assert(entries[i].id == standard_order()[i]);
        assert(!registered_before(entries, i, entries[i].id));
        reveal_with_fuel(crate::scheduler::first_missing, 3);
        assert(registered_before(entries, 4, SystemId::NonPlayerControl));
        assert(registered_before(entries, 4, SystemId::PlayerControl));
        assert(registered_before(entries, 5, SystemId::UpdatePos));
        assert(registered_before(entries, 6, SystemId::UpdatePos));
        assert(registered_before(entries, 7, SystemId::ForceInside));
    }
    no_faults_add_up(entries, entries.len());
    ids_of_is_pointwise(entries, entries.len());
    assert(ids_of(entries, entries.len()) =~= standard_order());
}

/// Where none of the first `n` registrations is at fault, there is no
/// first fault among them.
pub proof fn no_faults_add_up(entries: Seq<SystemEntry>, n: nat)
    requires
        n <= entries.len(),
        forall|i: int| 0 <= i < n ==> entry_fault(entries, i) is None,
    ensures
        first_fault(entries, n) is None,
    decreases n,
{
    if n > 0 {
        no_faults_add_up(entries, (n - 1) as nat);
    }
}

/// The arena of a store for which none was set yet: a single point.
pub open spec fn no_arena() -> Arena {
    Arena(Rect { topleft: Position(0, 0), size: RectSize(0, 0) })
}

/// Makes the empty store and the dispatcher of the game, whose systems
/// spawn entities of the given picture sizes. The arena is still to be set.
pub fn setup(entity_sizes: EntitySizes) -> (r: Result<(World, Dispatcher), ScheduleError>)
    ensures
        r matches Ok(pair) && {
            &&& pair.0.wf()
            &&& pair.0@ == World::spec_new(no_arena())
            &&& pair.1.schedule.order@ == standard_order()
            &&& exists|entries: Seq<SystemEntry>|
                is_standard(entries) && pair.1.schedule.stages@ == stages_of(
                    entries,
                    entries.len(),
                )
            &&& pair.1.player_shooting.shot_size == entity_sizes.basic_shot_size
            &&& !pair.1.player_shooting.has_shot
            &&& pair.1.alien_shooting.shot_size == RectSize::spec_from_pixels(
                entity_sizes.ufo_shot_size,
            )
            &&& pair.1.enemy_spawning.ufo_size == RectSize::spec_from_pixels(
                entity_sizes.ufo_size,
            )
        },
{
    let world = World::new(Arena(Rect::new(Position(0, 0), RectSize(0, 0))));
    let entries = standard_entries();
    proof {
        standard_entries_are_sound(entries@);
    }
    match Schedule::build(&entries) {
        Ok(schedule) => Ok(
            (
                world,
                Dispatcher {
                    schedule,
                    player_shooting: PlayerShooting::new(entity_sizes.basic_shot_size),
                    alien_shooting: AlienShooting::new(
                        RectSize::from_pixels(entity_sizes.ufo_shot_size),
                    ),
                    enemy_spawning: EnemySpawning::new(RectSize::from_pixels(entity_sizes.ufo_size)),
                },
            ),
        ),
        Err(e) => Err(e),
    }
}

} // verus!
