//! The decision core of a single-window GPU renderer.
//!
//! Everything here works on plain values: the negotiated surface
//! configuration, the description of the one render pipeline, and two
//! protocols (start-up and per-frame) that tell a driver which backend
//! operation comes next. The driver owns the GPU handles, performs each
//! operation and reports its outcome back.

pub mod backend;
pub mod surface;
pub mod pipeline;
pub mod frame;


pub mod application;
pub mod bootstrap;
