//! Build-time integration layer for embedding a Flutter UI: locates a
//! Flutter SDK, plans tool invocations, discovers platform plugins from a
//! YAML manifest, and reconciles artifact files into a destination layout.
//!
//! All filesystem effects are modelled on an explicit in-memory tree
//! ([`fstree::FsTree`]); the embedding program mirrors the planned
//! operations onto the real filesystem.

pub mod emitter;
pub mod error;
pub mod fstree;
pub mod invoker;
pub mod locator;
pub mod manifest;
pub mod path;
pub mod utils;
