//! Verified core of a dodecahedron-shaped flame rig.
//!
//! The rig has 32 vertices and 30 quadrilateral faces; each face carries a
//! remotely switched flame whose control state arrives over the ArtNet
//! lighting protocol.  This crate holds the logic worth proving: the exact
//! geometric tables, per-face centers, the positional channel-pair mapping
//! from an ArtNet Output payload onto face state, and the derivation of
//! visual parameters from that state.  Socket I/O and rendering live outside.

pub mod geometry;
pub mod registry;
pub mod mapper;
