//! Core simulation of a two-paddle ball-volley arcade match.
//!
//! All physics runs on fixed-point integers: lengths in milliunits
//! (1000 per world unit on an 800 x 450 field) and time in units of
//! 1/60000 second, so that a 60 Hz frame is exactly 1000 time units.
//! The frontend converts wall-clock frame times and asset dimensions
//! at the boundary and renders from the state this crate computes.

pub mod ball;
pub mod collision;
pub mod config;
pub mod game;
pub mod motion;
pub mod paddle;
pub mod score;
pub mod session;
