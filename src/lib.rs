//! Speedrun timing decisions for a launcher that bundles several game titles.
pub mod cell;
pub mod names;
pub mod splitter;
pub mod snapshot;
pub mod start;
pub mod reset;
pub mod split;
pub mod clock;
pub mod continuity;
pub mod controller;
pub mod laws;
