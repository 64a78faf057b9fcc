//! A verified game-session core: a finite-state match lifecycle (idle,
//! countdown, playing, game over) driven by timer events and external
//! signals, together with the randomized geometry that places newly
//! spawned enemies on a closed path.
//!
//! Rendering, physics, audio and UI are collaborators outside this crate:
//! the controller hands them a list of actions to perform after each
//! event, and they hand events back in. All quantities are fixed-point
//! integers (counts of millionths), so that the geometry and the session
//! rules can be stated and proved exactly; the host converts to its own
//! floating-point units at the boundary.

pub mod clock;
pub mod geometry;
pub mod rng;
pub mod session;
