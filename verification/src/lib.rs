//! A swarm of discs that bounce inside a square arena, with a frame-rate meter
//! and the frame-by-frame driver that advances both.
//!
//! Every length, speed, timestamp and rate is a fixed-point number held in an
//! `i64`: one whole unit is [`fixed::UNIT`] steps, so all arithmetic is exact.

pub mod arena;
pub mod config;
pub mod fixed;
pub mod particle;
pub mod meter;
pub mod session;
pub mod spawn;
pub mod swarm;
