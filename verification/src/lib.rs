//! Gameplay core of a tile-based side-scrolling platformer: a frame-stepped
//! character controller, the tile grid it collides with, and the debris
//! particles thrown up when a tile is broken.
//!
//! All quantities are fixed-point integers. Lengths are counted in millionths
//! of a pixel, time in microseconds, speeds in length units per second and
//! accelerations in length units per second squared.

pub mod units;
pub mod stage;
pub mod particles;
pub mod player;
