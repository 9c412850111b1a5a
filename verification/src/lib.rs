//! Loading of CLAP plugin libraries: path resolution, the entry point's
//! init/deinit lifecycle, factory dispatch, plugin metadata extraction and
//! plugin instantiation.
//!
//! Everything that crosses the FFI boundary (opening the module, resolving
//! the entry symbol, calling into the entry point's function table) is
//! performed by the embedding program; this crate holds the verified
//! decision logic: it validates paths and identifiers, drives the lifecycle
//! state machine, converts raw descriptor fields into structured metadata,
//! and checks the global invariants over the result.

pub mod descriptor;
pub mod error;
pub mod library;
pub mod metadata;
pub mod path;
pub mod version;
