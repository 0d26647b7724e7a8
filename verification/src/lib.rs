//! Waypoint patrols on an integer lattice.
//!
//! A [`MovingPlatform`](platform::MovingPlatform) cycles a body through a
//! closed loop of waypoints at constant speed.  Positions are lattice points,
//! time is counted in whole ticks and speed in lattice units per tick, so every
//! comparison the controller makes is exact.
pub mod dimensionality;
pub mod geometry;
pub mod laws;
pub mod platform;
pub mod velocity;

pub use crate::dimensionality::Dimensionality;
pub use crate::geometry::{Offset3, Vector3};
pub use crate::platform::{MovingPlatform, PatrolError, PatrolView, Tick};
pub use crate::velocity::Velocity;
