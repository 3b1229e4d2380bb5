//! Deterministic identity images: a salted-hash derivation that maps a name
//! to a stable identifier, and a cache-aside resolver that serves the image
//! bytes stored under that identifier, generating and caching them on a miss.

pub mod identity;
pub mod resolver;
