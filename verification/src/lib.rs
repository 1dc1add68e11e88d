//! Core of a cross-platform front-end shell for a logic-circuit simulator.
//!
//! The shell mediates between heterogeneous host windowing systems and the
//! simulator core: it translates raw multi-touch streams into desktop-style
//! pointer events, normalizes platform key events (including dead-key
//! accents), keeps the host IME and the application's active text field
//! consistent, accumulates 2D primitives into GPU-ready meshes, and drives
//! the window lifecycle with a fixed-cadence redraw tick.
//!
//! Geometry is carried in a saturating 16.16 fixed-point scalar so that every
//! computation is exact and total; pointer input is carried in whole pixels.
//! The host-specific plumbing (window system, GPU upload, persistence I/O)
//! lives outside this crate and exchanges plain values with it.

pub mod driver;
pub mod fx;
pub mod geom;
pub mod input;
pub mod keys;
pub mod model;
pub mod text;
pub mod touch;

use vstd::prelude::*;

verus! {

/// An opaque identifier, as a 64-bit value.
#[derive(Hash, Debug, Eq, PartialEq, Clone, Copy)]
pub struct Id(pub u64);

/// Relies on std's `Hash::hash`: feeds the value into the hasher as the
/// value's `Hash` implementation decides, of which nothing is stated.
#[verifier::external_body]
fn feed_hasher<T: std::hash::Hash>(v: &T, state: &mut std::collections::hash_map::DefaultHasher) {
    std::hash::Hash::hash(v, state)
}

impl Id {
    /// Digests an arbitrary hashable value into 64 bits with std's
    /// `DefaultHasher`, whose digest is deterministic within a process.
    pub fn new<T: std::hash::Hash>(v: T) -> Self {
        let mut hasher = std::collections::hash_map::DefaultHasher::new();
        feed_hasher(&v, &mut hasher);
        Self(std::hash::Hasher::finish(&hasher))
    }
}

} // verus!
