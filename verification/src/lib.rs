//! Core of a one-writer, many-reader cue broadcast: a director sets a shared
//! "section" value and every connected viewer is pushed the new value, with
//! last-value-wins (coalescing) delivery.
//!
//! The library holds the verified logic only: the shared value and its
//! single-slot store, the change signal with per-subscriber generations, the
//! wire codec, and the viewer- and director-side state machines. Sockets,
//! routing and the async runtime live outside, around these contracts.

pub mod client;
pub mod control;
pub mod laws;
pub mod section;
pub mod signal;
pub mod viewer;
pub mod wire;
