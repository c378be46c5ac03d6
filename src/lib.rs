//! Colour-cluster detection over captured pixel buffers.
//!
//! The library decides, for one frame, whether a cluster of pixels close to a
//! target colour is dense enough and close enough to the centre of the screen
//! to call for a click, and decides for the dispatch loop when a frame is due.
//! Distances are compared in squared form so that every decision is made over
//! integers.
pub mod color;
pub mod config;
pub mod geometry;
pub mod scan;
pub mod scheduler;
