//! Modelling of astrophysical gas clouds: element and molecule data,
//! coordinate hashing, and a state-interpolation engine that blends a
//! composite gas state from an origin towards a target along a progress
//! parameter, with optional easing and per-field asynchronous offsets.
//!
//! All quantities are carried as exact scaled integers: progress as a count
//! of millionths of a full transition, atomic masses as ten-thousandths of a
//! dalton, and physical fields as plain `i64` values in whatever unit and
//! scale the caller chooses.

pub mod chemistry;
pub mod coordinates;
pub mod gas;
pub mod hash;
pub mod transition;
