//! What each system declares to read and to write, and when two systems
//! may not run at the same time.

use vstd::prelude::*;
use crate::scheduler::SystemId;

verus! {

/// A part of the store: one component storage or one resource.
#[derive(Debug, Copy, Clone, PartialEq, Eq, Structural)]
pub enum Part {
    Position,
    Velocity,
    Sprite,
    Draw,
    MovementKind,
    SpawnerKind,
    Lifetime,
    Invincibility,
    IsPlayer,
    IsAlien,
    IsExplosion,
    HarmsPlayer,
    HarmsAliens,
    KeepInside,
    ReapWhenOutside,
    Arena,
    Elapsed,
    ControlState,
    PlayingState,
}

/// What a system does with a part of the store.
#[derive(Debug, Copy, Clone, PartialEq, Eq, Structural)]
pub enum Access {
    Nothing,
    Read,
    Write,
}

/// Every part of the store.
pub const PARTS: [Part; 19] = [
    Part::Position,
    Part::Velocity,
    Part::Sprite,
    Part::Draw,
    Part::MovementKind,
    Part::SpawnerKind,
    Part::Lifetime,
    Part::Invincibility,
    Part::IsPlayer,
    Part::IsAlien,
    Part::IsExplosion,
    Part::HarmsPlayer,
    Part::HarmsAliens,
    Part::KeepInside,
    Part::ReapWhenOutside,
    Part::Arena,
    Part::Elapsed,
    Part::ControlState,
    Part::PlayingState,
];

/// The place of `part` in `PARTS`.
pub open spec fn place_of(part: Part) -> int {
    match part {
        Part::Position => 0,
        Part::Velocity => 1,
        Part::Sprite => 2,
        Part::Draw => 3,
        Part::MovementKind => 4,
        Part::SpawnerKind => 5,
        Part::Lifetime => 6,
        Part::Invincibility => 7,
        Part::IsPlayer => 8,
        Part::IsAlien => 9,
        Part::IsExplosion => 10,
        Part::HarmsPlayer => 11,
        Part::HarmsAliens => 12,
        Part::KeepInside => 13,
        Part::ReapWhenOutside => 14,
        Part::Arena => 15,
        Part::Elapsed => 16,
        Part::ControlState => 17,
        Part::PlayingState => 18,
    }
}

/// `PARTS` holds every part, each at its place.
pub proof fn parts_are_complete(part: Part)
    ensures
        0 <= place_of(part) < 19,
        PARTS[place_of(part)] == part,
{
}

/// What the system `id` declares to do with `part`. Making and deleting
/// entities is not declared: it is asked for, and carried out when every
/// system has run.
pub open spec fn access(id: SystemId, part: Part) -> Access {
    match id {
        SystemId::NonPlayerControl => match part {
            Part::Velocity => Access::Write,
            Part::MovementKind | Part::Position | Part::Arena => Access::Read,
            _ => Access::Nothing,
        },
        SystemId::PlayerControl => match part {
            Part::Velocity => Access::Write,
            Part::IsPlayer | Part::ControlState => Access::Read,
            _ => Access::Nothing,
        },
        SystemId::PlayerShooting => match part {
            Part::IsPlayer | Part::Position | Part::ControlState => Access::Read,
            _ => Access::Nothing,
        },
        SystemId::AlienShooting => match part {
            Part::IsAlien | Part::IsPlayer | Part::Position => Access::Read,
            _ => Access::Nothing,
        },
        SystemId::UpdatePos => match part {
            Part::Position => Access::Write,
            Part::Velocity | Part::Elapsed => Access::Read,
            _ => Access::Nothing,
        },
        SystemId::ReapOutsiders => match part {
            Part::ReapWhenOutside | Part::Position | Part::Arena => Access::Read,
            _ => Access::Nothing,
        },
        SystemId::ForceInside => match part {
            Part::Position => Access::Write,
            Part::KeepInside | Part::Arena => Access::Read,
            _ => Access::Nothing,
        },
        SystemId::CollisionChecker => match part {
            Part::PlayingState => Access::Write,
            Part::Position | Part::IsAlien | Part::HarmsAliens | Part::IsPlayer
            | Part::HarmsPlayer | Part::Invincibility => Access::Read,
            _ => Access::Nothing,
        },
        SystemId::EnemySpawning => match part {
            Part::Arena => Access::Read,
            _ => Access::Nothing,
        },
        SystemId::SpawnerSpawning => match part {
            Part::SpawnerKind | Part::Position => Access::Read,
            _ => Access::Nothing,
        },
        SystemId::LifetimeWatching => match part {
            Part::Lifetime => Access::Write,
            Part::Elapsed => Access::Read,
            _ => Access::Nothing,
        },
        SystemId::InvincibilityWatching => match part {
            Part::Invincibility => Access::Write,
            Part::Elapsed => Access::Read,
            _ => Access::Nothing,
        },
        SystemId::StarSpawner => match part {
            Part::Arena => Access::Read,
            _ => Access::Nothing,
        },
    }
}

/// Tells what the system `id` declares to do with `part`.
pub fn access_of(id: SystemId, part: Part) -> (a: Access)
    ensures
        a == access(id, part),
{
    match id {
        SystemId::NonPlayerControl => match part {
            Part::Velocity => Access::Write,
            Part::MovementKind | Part::Position | Part::Arena => Access::Read,
            _ => Access::Nothing,
        },
        SystemId::PlayerControl => match part {
            Part::Velocity => Access::Write,
            Part::IsPlayer | Part::ControlState => Access::Read,
            _ => Access::Nothing,
        },
        SystemId::PlayerShooting => match part {
            Part::IsPlayer | Part::Position | Part::ControlState => Access::Read,
            _ => Access::Nothing,
        },
        SystemId::AlienShooting => match part {
            Part::IsAlien | Part::IsPlayer | Part::Position => Access::Read,
            _ => Access::Nothing,
        },
        SystemId::UpdatePos => match part {
            Part::Position => Access::Write,
            Part::Velocity | Part::Elapsed => Access::Read,
            _ => Access::Nothing,
        },
        SystemId::ReapOutsiders => match part {
            Part::ReapWhenOutside | Part::Position | Part::Arena => Access::Read,
            _ => Access::Nothing,
        },
        SystemId::ForceInside => match part {
            Part::Position => Access::Write,
            Part::KeepInside | Part::Arena => Access::Read,
            _ => Access::Nothing,
        },
        SystemId::CollisionChecker => match part {
            Part::PlayingState => Access::Write,
            Part::Position | Part::IsAlien | Part::HarmsAliens | Part::IsPlayer
            | Part::HarmsPlayer | Part::Invincibility => Access::Read,
            _ => Access::Nothing,
        },
        SystemId::EnemySpawning => match part {
            Part::Arena => Access::Read,
            _ => Access::Nothing,
        },
        SystemId::SpawnerSpawning => match part {
            Part::SpawnerKind | Part::Position => Access::Read,
            _ => Access::Nothing,
        },
        SystemId::LifetimeWatching => match part {
            Part::Lifetime => Access::Write,
            Part::Elapsed => Access::Read,
            _ => Access::Nothing,
        },
        SystemId::InvincibilityWatching => match part {
            Part::Invincibility => Access::Write,
            Part::Elapsed => Access::Read,
            _ => Access::Nothing,
        },
        SystemId::StarSpawner => match part {
            Part::Arena => Access::Read,
            _ => Access::Nothing,
        },
    }
}

/// Whether two uses of one part get in each other's way: one writes what
/// the other reads or writes.
pub open spec fn clash(a: Access, b: Access) -> bool {
    (a is Write && !(b is Nothing)) || (b is Write && !(a is Nothing))
}

/// Whether the systems `a` and `b` may not run at the same time: one of
/// them writes a part that the other reads or writes.
pub open spec fn conflict(a: SystemId, b: SystemId) -> bool {
    exists|part: Part| clash(access(a, part), access(b, part))
}

/// Tells whether two uses of one part get in each other's way.
pub fn clashes(a: Access, b: Access) -> (r: bool)
    ensures
        r == clash(a, b),
{
    match (a, b) {
        (Access::Write, Access::Read) => true,
        (Access::Write, Access::Write) => true,
        (Access::Read, Access::Write) => true,
        _ => false,
    }
}

/// Tells whether two systems may not run at the same time.
pub fn conflicts(a: SystemId, b: SystemId) -> (r: bool)
    ensures
        r == conflict(a, b),
{
    let mut k: usize = 0;
    while k < 19
        invariant
            k <= 19,
            forall|j: int| 0 <= j < k ==> !clash(access(a, #[trigger] PARTS[j]), access(b, PARTS[j])),
        decreases 19 - k,
    {
        let part = PARTS[k];
        if clashes(access_of(a, part), access_of(b, part)) {
            return true;
        }
        k += 1;
    }
    proof {
        assert forall|part: Part| !clash(access(a, part), access(b, part)) by {
            parts_are_complete(part);
            assert(PARTS[place_of(part)] == part);
        }
    }
    false
}

/// Conflict does not depend on the order of the two systems.
pub proof fn conflict_is_symmetric(a: SystemId, b: SystemId)
    ensures
        conflict(a, b) == conflict(b, a),
{
    if conflict(a, b) {
        let part = choose|part: Part| clash(access(a, part), access(b, part));
        assert(clash(access(b, part), access(a, part)));
    }
    if conflict(b, a) {
        let part = choose|part: Part| clash(access(b, part), access(a, part));
        assert(clash(access(a, part), access(b, part)));
    }
}

} // verus!
