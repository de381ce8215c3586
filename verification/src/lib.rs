//! Signal-path core of a stereo delay effect: a circular sample store per
//! channel, one shared pair of read and write positions, and the three
//! read/advance policies that a delay mode selects between.
//!
//! Samples are carried as the 32-bit patterns of single-precision values; the
//! library moves and places them and never interprets them.

pub mod delaybuffer;
pub mod laws;
pub mod processor;
