//! Keepalive planning for a mesh VPN overlay.
//!
//! The library models the peer roster reported by the overlay's control
//! plane, decides which peers should receive a keepalive probe, validates
//! IPv4 address strings, and computes the exact list of probe targets and
//! the per-cycle counters. The surrounding process (socket, control-plane
//! command, timer loop) lives outside the library.

pub mod model;
pub mod filter;
pub mod ipv4;
pub mod cycle;
pub mod json;
pub mod roster;
pub mod summary;
