//! A fixed-length, digit-only passcode: uniformly random generation, a
//! compact in-memory byte representation, and a lossless raw-byte codec
//! for a storage column.

pub mod code;
pub mod rng;
