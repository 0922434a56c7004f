//! Verified core of a family of small 2D arcade games.
//!
//! The library models the recurring per-frame pattern of such games —
//! move every entity, test axis-aligned overlaps, remove hit entities,
//! spawn new ones on a fixed cadence — over exact integer coordinates.
//! Rendering, audio and input polling are left to the surrounding
//! program; the state transitions here are verified.

pub mod ants;
pub mod ascii;
pub mod board;
pub mod cadence;
pub mod dino;
pub mod domination;
pub mod geometry;
pub mod invaders;
pub mod motion;
pub mod particles;
mod random;
pub mod removal;
pub mod roadway;
pub mod shooter;
pub mod snake;
pub mod trash;
pub mod typing;
