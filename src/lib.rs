//! A named FIFO bucket of items with a capped, timestamped history of what was
//! polled from it, a single-step undo, and clear-on-limit guards.


pub mod bucket;
pub mod model;
pub mod laws;
