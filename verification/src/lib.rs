//! Rejection sampling of labelled planar point clouds.
//!
//! A run draws candidate points uniformly from an axis-aligned region and
//! tests each against the density of the task whose turn it is; accepted
//! candidates are written out with the task's label.
//!
//! Numbers travel through this library as binary64 encodings (see
//! [`scalar`]), so that everything it decides is decided on integers: the
//! order of two numbers, membership in the region, the acceptance test, the
//! place in the schedule, the framing of the output. Arithmetic on the
//! numbers, the random draws and the writing are the caller's: the caller
//! implements [`distribution::Distribution`] for its shapes, feeds a
//! [`runner::Runner`] one trial at a time, and writes the lines it gets.
pub mod aabb;
pub mod distribution;
pub mod point;
pub mod run;
pub mod runner;
pub mod sampling_task;
pub mod scalar;
pub mod schedule;
pub mod text;
