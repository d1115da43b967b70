//! Input and composition logic of a web view that is drawn into a shared
//! visual tree instead of a child window.
//!
//! The crate decides, and never calls the operating system. It takes window
//! messages, answers and outcomes as plain values, and hands back the next
//! thing to do.

pub mod controller;
pub mod dispatch;
pub mod geometry;
pub mod host;
pub mod input;
pub mod keys;
pub mod laws;
pub mod message;
pub mod plan;
pub mod runs;
