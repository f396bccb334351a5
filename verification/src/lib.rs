//! Core of a tilt-driven physics game: a bounded event bridge between an
//! external sensor producer and the per-frame game loop, a calibrated and
//! filtered tilt-input state, control handlers, and a throttled gravity step.
//!
//! All angles are carried as integers in millidegrees (1 degree = 1000) and
//! all ratios in thousandths (1.0 = 1000), so every constant of the design
//! (a 0.3 smoothing coefficient, a 2.0-degree dead zone, a 45-degree full
//! scale) is represented exactly.

pub mod bridge;
pub mod calibration;
pub mod gravity;
pub mod math;
pub mod tilt;
