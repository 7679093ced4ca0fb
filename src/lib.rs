//! A verified boundary layer around a native fastText engine.
//!
//! The native engine is reached through a flat C ABI: opaque handles, result
//! envelopes whose error pointer takes precedence over their payload, and
//! arrays that the native side allocates and the caller must free. This crate
//! holds every decision of that boundary as plain values: encoding of text
//! arguments, the result/error adapter, the lifetime of the engine handle and
//! the copy-then-free protocol for native buffers. The raw calls themselves are
//! made by the embedding program, which follows the actions returned here.

pub mod buffer;
pub mod encode;
pub mod error;
pub mod handle;
pub mod protocol;
pub mod vector;
