//! Automation bridge for a visual infrastructure designer.
//!
//! The bridge mirrors the diagram of every open project window, resolves
//! ambiguous window addressing, validates and applies structural mutations
//! (containment and referential integrity), and coordinates a UI-driven
//! code-generation round trip under a timeout. The host layer owns the
//! transport, the locks and all I/O; everything that decides or computes
//! lives here, verified.

pub mod azure;
pub mod catalog;
pub mod diagram;
pub mod dispatch;
pub mod engine;
pub mod generation;
pub mod ids;
pub mod keyed;
pub mod laws;
pub mod model;
pub mod names;
pub mod paths;
pub mod pending;
pub mod props;
pub mod protocol;
pub mod recent;
pub mod registry;
pub mod resolver;
pub mod terraform;
pub mod text;
