//! A deterministic pendulum simulation engine.
//!
//! Two simulations share one core: a single pendulum with optional linear
//! damping, and a chaotic double pendulum integrated from the Lagrangian
//! equations of motion. Each is advanced one frame per `step` by
//! semi-implicit Euler and keeps a bounded trail of recent positions for
//! rendering; a coordinate converter maps the polar state to Cartesian
//! points for whatever draws them.
//!
//! All physical quantities are fixed-point numbers: an `i64` holding the
//! value in millionths of a unit (`fixed::SCALE` steps per unit), angles in
//! micro-radians, lengths in micro-length-units. Working over integers
//! keeps every trajectory exactly reproducible and lets each arithmetic
//! step carry a precise contract: every public operation states the exact
//! value it computes, a step either yields exactly the specified next
//! state or fails fast on a degenerate configuration, and the history
//! buffer never outgrows its capacity.
//!
//! Modules, leaf to top: [`fixed`] (checked fixed-point scalars), [`trig`]
//! (sine and cosine), [`coords`] (polar and Cartesian vectors),
//! [`history`] (the bounded trail), [`simple_pendulum`] and
//! [`double_pendulum`] (integrators and drivers), [`errors`].

pub mod coords;
pub mod double_pendulum;
pub mod errors;
pub mod fixed;
pub mod history;
pub mod simple_pendulum;
pub mod trig;

pub use coords::{Polar, XY};
pub use double_pendulum::{DoublePendulum, DoubleState};
pub use errors::DegenerateConfigurationError;
pub use fixed::{fx_add, fx_div, fx_mul, fx_neg, fx_sub};
pub use fixed::{FX_MAX, SCALE};
pub use history::History;
pub use simple_pendulum::{SimplePendulum, SimpleState};
pub use trig::{cos_fx, sin_fx, HALF_PI_FX, PI_FX, TWO_PI_FX};
