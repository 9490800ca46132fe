use rideways::access::{access_of, clashes, conflicts, Access, Part, PARTS};
use rideways::resources::EntitySizes;
use rideways::scheduler::{Schedule, SystemEntry, SystemId};
use rideways::setup::setup;

#[test]
fn systems_declare_what_they_read_and_write() {
    assert_eq!(access_of(SystemId::PlayerControl, Part::Velocity), Access::Write);
    assert_eq!(access_of(SystemId::PlayerControl, Part::ControlState), Access::Read);
    assert_eq!(access_of(SystemId::PlayerControl, Part::IsPlayer), Access::Read);
    assert_eq!(access_of(SystemId::PlayerControl, Part::Position), Access::Nothing);
    assert_eq!(access_of(SystemId::UpdatePos, Part::Position), Access::Write);
    assert_eq!(access_of(SystemId::UpdatePos, Part::Velocity), Access::Read);
    assert_eq!(access_of(SystemId::UpdatePos, Part::Elapsed), Access::Read);
    assert_eq!(access_of(SystemId::ForceInside, Part::Position), Access::Write);
    assert_eq!(access_of(SystemId::CollisionChecker, Part::PlayingState), Access::Write);
    assert_eq!(access_of(SystemId::CollisionChecker, Part::Invincibility), Access::Read);
    assert_eq!(access_of(SystemId::LifetimeWatching, Part::Lifetime), Access::Write);
    assert_eq!(access_of(SystemId::InvincibilityWatching, Part::Invincibility), Access::Write);
    assert_eq!(access_of(SystemId::StarSpawner, Part::Arena), Access::Read);
    for part in PARTS {
        assert_ne!(access_of(SystemId::StarSpawner, part), Access::Write);
        assert_ne!(access_of(SystemId::PlayerShooting, part), Access::Write);
        assert_ne!(access_of(SystemId::ReapOutsiders, part), Access::Write);
    }
    assert_eq!(PARTS.len(), 19);
}

#[test]
fn writing_clashes_with_reading_and_writing() {
    assert!(clashes(Access::Write, Access::Write));
    assert!(clashes(Access::Write, Access::Read));
    assert!(clashes(Access::Read, Access::Write));
    assert!(!clashes(Access::Read, Access::Read));
    assert!(!clashes(Access::Write, Access::Nothing));
    assert!(!clashes(Access::Nothing, Access::Write));
    assert!(!clashes(Access::Nothing, Access::Nothing));
}

#[test]
fn systems_conflict_over_what_one_of_them_writes() {
    assert!(conflicts(SystemId::PlayerControl, SystemId::NonPlayerControl));
    assert!(conflicts(SystemId::PlayerControl, SystemId::UpdatePos));
    assert!(conflicts(SystemId::UpdatePos, SystemId::ForceInside));
    assert!(conflicts(SystemId::ForceInside, SystemId::CollisionChecker));
    assert!(conflicts(SystemId::CollisionChecker, SystemId::InvincibilityWatching));
    assert!(conflicts(SystemId::UpdatePos, SystemId::UpdatePos));
    assert!(!conflicts(SystemId::PlayerShooting, SystemId::AlienShooting));
    assert!(!conflicts(SystemId::StarSpawner, SystemId::EnemySpawning));
    assert!(!conflicts(SystemId::StarSpawner, SystemId::StarSpawner));
    assert!(!conflicts(SystemId::LifetimeWatching, SystemId::InvincibilityWatching));
    assert!(!conflicts(SystemId::PlayerControl, SystemId::CollisionChecker));
    let all = [
        SystemId::NonPlayerControl,
        SystemId::PlayerControl,
        SystemId::PlayerShooting,
        SystemId::AlienShooting,
        SystemId::UpdatePos,
        SystemId::ReapOutsiders,
        SystemId::ForceInside,
        SystemId::CollisionChecker,
        SystemId::EnemySpawning,
        SystemId::SpawnerSpawning,
        SystemId::LifetimeWatching,
        SystemId::InvincibilityWatching,
        SystemId::StarSpawner,
    ];
    for a in all {
        for b in all {
            assert_eq!(conflicts(a, b), conflicts(b, a));
        }
    }
}

#[test]
fn a_system_runs_a_stage_after_what_it_waits_for() {
    let entries = vec![
        SystemEntry { id: SystemId::StarSpawner, after: vec![] },
        SystemEntry { id: SystemId::EnemySpawning, after: vec![] },
        SystemEntry { id: SystemId::PlayerShooting, after: vec![SystemId::StarSpawner] },
        SystemEntry { id: SystemId::UpdatePos, after: vec![] },
        SystemEntry { id: SystemId::ForceInside, after: vec![] },
        SystemEntry { id: SystemId::AlienShooting, after: vec![SystemId::PlayerShooting] },
    ];
    let schedule = Schedule::build(&entries).unwrap();
    assert_eq!(schedule.stages, vec![0, 0, 1, 2, 3, 4]);
}

#[test]
fn the_games_plan_has_its_stages() {
    let sizes = EntitySizes {
        player_size: (40, 20),
        basic_shot_size: (16, 4),
        ufo_size: (30, 30),
        ufo_shot_size: (8, 8),
    };
    let (_, dispatcher) = setup(sizes).unwrap();
    let stages = &dispatcher.schedule.stages;
    let order = &dispatcher.schedule.order;
    assert_eq!(stages.len(), order.len());
    assert_eq!(stages[0], 0);
    for i in 0..order.len() {
        for j in 0..i {
            if conflicts(order[i], order[j]) {
                assert!(stages[j] < stages[i], "{:?} and {:?}", order[j], order[i]);
            }
        }
    }
    assert_eq!(*stages, vec![0, 1, 0, 0, 2, 3, 4, 5, 0, 5, 0, 6, 0]);
}
