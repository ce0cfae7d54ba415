//! Game-state logic of a small Asteroids game: screens and the transitions
//! between them, input gating, the start menu, level progression, bullet hits,
//! asteroid splitting and collision bookkeeping.
//!
//! Geometry and physics work on floating-point vectors and live with the
//! program around this library; everything here is discrete and verified.

pub mod transition;
pub mod input;
pub mod game;
pub mod screen;
pub mod start_screen;
