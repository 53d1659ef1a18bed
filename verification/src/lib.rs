//! Event-correlation engine for a focus-follows-keyboard daemon.
//!
//! The library tracks, per physical keyboard device, whether a modifier key
//! is held ([`tracker`]), decides which bus signals announce a focus change
//! or a window activation ([`classifier`]), and maintains a fixed two-slot
//! table binding the most recently seen focus-subject paths ([`binding`]).
//! The [`mux`] module ties the three together: one `step` per incoming
//! event, ready to be driven by any event loop.

pub mod binding;
pub mod classifier;
pub mod keys;
pub mod mux;
pub mod tracker;
