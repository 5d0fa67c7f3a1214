//! Per-window reconciliation for a compositor-driven windowing protocol.
//!
//! A window receives notifications from the compositor (configure, close,
//! scale change, frame ready) in bursts.  This crate coalesces them into one
//! pending record, reconciles that record against the window's canonical
//! geometry, and answers with the ordered list of actions that the embedding
//! program has to carry out: events for the application, and requests to the
//! compositor.

pub mod event;
pub mod first_configure;
pub mod geometry;
pub mod laws;
pub mod model;
pub mod pending;
pub mod registry;
pub mod state;
pub mod window;
