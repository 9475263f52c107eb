//! The record layer: authenticated encryption of TLS records.

pub mod aead;
pub mod gcm;
pub mod ghash;
