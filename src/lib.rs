//! Threshold Schnorr signatures over Ristretto: distributed key generation,
//! threshold signing and verification, with the protocol's decisions verified
//! and the group arithmetic left to `frost_dalek`.

pub mod error;
pub mod frost;
pub mod keygen;
pub mod signing;
