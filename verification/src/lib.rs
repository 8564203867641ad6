//! Bright-spot hit detection for a camera feed.
//!
//! Each processed frame yields the coordinates of its bright pixels. The
//! library averages them to a centroid, latches the first centroid of every
//! uninterrupted run of detections as a "hit", and decides what the
//! acquisition loop does next.

pub mod geometry;
pub mod centroid;
pub mod tracker;
pub mod command;
pub mod overlay;
pub mod pipeline;
pub mod session;
