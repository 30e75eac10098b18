//! Runtime bridge and dynamic hooking subsystem for a native bootstrap that
//! injects custom behaviour into a running game-engine process.
//!
//! The library holds the decision logic of the bootstrap: classifying the
//! engine's managed runtime, planning the symbol patches, bookkeeping for the
//! in-memory hook engine, the two-stage handshake with the managed host, the
//! internal-call registry, and the path/package rules. Everything that touches
//! the process itself (library loading, JNI, invoking raw function pointers)
//! lives outside and drives these functions with plain values.

pub mod assets;
pub mod bridge;
pub mod detector;
pub mod errors;
pub mod hook;
pub mod interop;
pub mod package_guard;
pub mod paths;
pub mod patches;
pub mod pipeline;
pub mod registry;
pub mod strutil;
pub mod symbols;
