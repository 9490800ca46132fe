//! The gameplay systems: each one is a unit of per-frame behaviour that
//! reads and writes a part of the store.

pub mod alien_shooting_system;
pub mod collision_checker_system;
pub mod enemy_spawning_system;
pub mod force_inside_system;
pub mod invincibility_watching_system;
pub mod lifetime_watching_system;
pub mod non_player_control_system;
pub mod player_control_system;
pub mod player_shooting_system;
pub mod reap_outsiders_system;
pub mod spawner_spawning_system;
pub mod star_spawner_system;
pub mod update_pos_system;

pub use alien_shooting_system::AlienShooting;
pub use collision_checker_system::CollisionChecker;
pub use enemy_spawning_system::EnemySpawning;
pub use force_inside_system::ForceInside;
pub use invincibility_watching_system::InvincibilityWatching;
pub use lifetime_watching_system::LifetimeWatching;
pub use non_player_control_system::NonPlayerControl;
pub use player_control_system::PlayerControl;
pub use player_shooting_system::PlayerShooting;
pub use reap_outsiders_system::ReapOutsiders;
pub use spawner_spawning_system::SpawnerSpawning;
pub use star_spawner_system::StarSpawner;
pub use update_pos_system::UpdatePos;
