//! Synchronized material upgrading for groups of streamed sub-scenes.
//!
//! Many independently streamed sub-scenes are grouped under a single
//! interaction point, a *sink*. Each sink owns one derived material,
//! cloned once from a shared palette. When a sub-scene finishes
//! materializing, an upgrade pass rewrites every surface-material
//! reference in its subtree to the owning sink's derived material, so
//! that all of the group's surfaces share one material instance while
//! each sink keeps its own hit-test entity.

pub mod registry;
pub mod sink;
pub mod store;
pub mod upgrade;
pub mod world;
