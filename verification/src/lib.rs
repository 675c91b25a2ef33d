//! Verified core of a top-down arcade game: a ship steers and fires in a
//! wrap-around arena while drifting asteroids split and score points.
//!
//! All simulation state is fixed-point: positions and distances in
//! thousandths of a world unit, angles in milliradians and times in
//! milliseconds, so that every stage of the per-tick pipeline can be
//! stated and proved exactly.
pub mod angles;
pub mod model;
pub mod steps;
pub mod lemmas;
pub mod laws;
mod random;
pub mod world;

pub use angles::PI_MR;
pub use angles::TAU_MR;
pub use model::Asteroid;
pub use model::AsteroidV;
pub use model::Config;
pub use model::ConfigV;
pub use model::EntityState;
pub use model::GameV;
pub use model::Input;
pub use model::Projectile;
pub use model::ProjectileV;
pub use model::Ship;
pub use model::ShipState;
pub use model::ShipV;
pub use model::WorldV;
pub use world::World;
