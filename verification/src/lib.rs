//! Core data structures of an offline Monte-Carlo path tracer.
//!
//! The renderer produces a row-major grid of RGB byte triples, one per
//! pixel; workers report finished pixels as `(index, colour)` events.
//! This crate verifies the discrete bookkeeping of that pipeline: the
//! pixel grid and its linear-index addressing, the event-driven frame
//! buffer, image-texture pixel lookup, and the Perlin permutation
//! tables used by the noise texture.

pub mod checker;
pub mod colour;
pub mod frame;
pub mod grid;
pub mod image_texture;
pub mod perlin;
