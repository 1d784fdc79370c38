//! A minimal shell that turns a webpage into a desktop application: it
//! opens a native window of a requested size and drives an embeddable
//! browser control through its two-step asynchronous initialization,
//! finally navigating it to the caller's URL.
//!
//! The decision logic lives here and is verified; the operating-system
//! calls that carry the decisions out live in the surrounding binary.

pub mod chain;
pub mod config;
pub mod shell;
pub mod wide;
pub mod window;
