//! Deterministic symmetric encryption keyed by a set of spatial parameters.
//!
//! A point, a rotation axis, an iteration count and a strength value are
//! encoded byte for byte and hashed with SHA-256 into a 256-bit key. That key
//! seals and opens payloads with ChaCha20-Poly1305 (the authenticated
//! variant), or drives a seeded keystream that is XORed over the data (the
//! unauthenticated stream variant).
//!
//! Floating-point values are carried as their IEEE-754 bit patterns
//! (`f64::to_bits`), which is all that key derivation reads of them.

pub mod bytes;
pub mod point3d;
pub mod primitives;
pub mod rotation_axis;
pub mod spatial_hasher;

pub use point3d::Point3D;
pub use rotation_axis::RotationAxis;
pub use spatial_hasher::{DecryptError, Parameters, Spha256};

