//! Game state for a small arcade shooter: a player walks toward the last
//! clicked point and fires projectiles at an enemy that pursues it, through
//! welcome, playing, win and lose screens.
//!
//! Coordinates are whole pixels held as `i64`; every rule of a frame is an
//! integer step, so the state is exact and each frame is a pure function of
//! the previous one.
pub mod actor;
pub mod game;
pub mod laws;
pub mod scene;
pub mod transition;
