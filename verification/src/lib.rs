//! Core of a frame-pacing harness for a windowed presentation surface.
//!
//! The library holds the state and the decisions of the render loop: a
//! fixed-size pool of presentable buffers with a free/in-use bitmap, a
//! frame clock with a rolling frames-per-window counter, the pacing policy
//! (fifo or mailbox) with its optional pacing capability, the window
//! geometry with the orbit animation of the overlay, and the event
//! dispatch that ties them together.  Everything here is plain data and
//! verified logic; the display transport, the clock source and the
//! trigonometry that drives the orbit live outside and hand in plain
//! values.

pub mod clock;
pub mod geometry;
pub mod policy;
pub mod pool;
pub mod scheduler;
