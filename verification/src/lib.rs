//! A minimal real-time rendering session, modelled and verified.
//!
//! The crate owns the logic of a small GPU-backed window session: a
//! validated background color, the swapchain configuration and its
//! resize rule, a bank of render pipelines with a selection index,
//! the two-pass frame-composition protocol, and the mapping from
//! input events to state changes.  The surrounding program performs
//! the actual window and GPU calls and interprets the frame plans
//! that this crate produces.

pub mod bank;
pub mod color;
pub mod frame;
pub mod geometry;
pub mod reactor;
pub mod session;
