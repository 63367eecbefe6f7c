//! Core of a real-time renderer: vertex schema descriptors, topology policy
//! (primitive expansion and index width selection), a byte-level buffer
//! builder for GPU upload, and a device state cache that elides redundant
//! state transitions.
//!
//! Everything here is pure logic over plain values. Device calls, windowing,
//! and floating-point kernels (centroid averaging, distance keys) live in the
//! embedding application; floats cross this boundary as IEEE-754 bit
//! patterns.

pub mod builder;
pub mod cache;
pub mod codec;
pub mod resources;
pub mod schema;
pub mod sort;
pub mod topology;
