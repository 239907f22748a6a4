//! A toy particle flow: particles spawn inside a container, fall under
//! gravity, bounce off the container's side walls and are pulled down a
//! tube below it, with an optional sideways branch at the tube's end.
//!
//! All quantities are exact fixed-point integers (see `units`), so every
//! step of the simulation is stated and proved with exact arithmetic.

pub mod units;
pub mod particle;
mod random;
pub mod system;
pub mod laws;

pub use particle::Particle;
pub use particle::Vec2;
pub use system::ParticleSystem;
pub use system::SystemView;
