//! Device-control synchronisation for a video capture previewer.
//!
//! The crate holds the decisions of a capture application: which devices can
//! be offered, how a stream is negotiated, how a device's controls are
//! catalogued, presented and written, and how frames and captures are handled.
//! Device and file access stay with the caller, which hands plain values in
//! and carries the returned actions out.

pub mod capture;
pub mod catalog;
pub mod control;
pub mod devices;
pub mod frame;
mod moves;
pub mod negotiate;
pub mod session;
pub mod shadow;
pub mod status;
pub mod sync;
pub mod text;
