//! Confidential-computing data hub: the verified core of an agent that
//! mediates between encrypted workloads and remote trust authorities.
//!
//! The crate covers the cryptographic data plane: the attested key-acquisition
//! protocol against a Key Broker Service (KBS), the polymorphic unseal engine
//! for tagged secrets, and the image-layer key-unwrap path.  All decisions and
//! transformations are verified; calls into outside crypto and codec crates
//! stand behind small trusted wrappers whose contracts name their results.

pub mod annotation;
pub mod b64;
pub mod error;
pub mod hash;
pub mod hub;
pub mod jsontext;
pub mod kbs;
pub mod keyprovider;
pub mod kms;
pub mod rng;
pub mod rsakey;
pub mod secret;
pub mod smap;
pub mod storage;
pub mod strutil;
pub mod symm;
pub mod tee;
pub mod uri;
