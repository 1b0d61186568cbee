//! Verified physics core of a kinematic 2D character controller.
//!
//! The crate covers the three stages that run once per fixed simulation
//! step: ground detection, gravity integration, and collision response
//! (collide-and-slide with slope snapping and speculative contacts).
//! All physical quantities are fixed-point integers: a value of
//! [`math::SCALE`] stands for one world unit, so the arithmetic is exact
//! and deterministic. An external narrow phase supplies contact manifolds
//! and shape-cast hits; this crate consumes them as plain values.

pub mod body;
pub mod collider;
pub mod contact;
pub mod gravity;
pub mod ground;
pub mod laws;
pub mod math;
pub mod movement;
pub mod resolver;
pub mod step;
