//! Attested secure-channel connection layer.
//!
//! This crate establishes a trustworthy, encrypted channel to a remote
//! service running inside a hardware-attested enclave, over an untrusted
//! network: candidate routes are enumerated and raced, the winning
//! transport is upgraded through an attestation handshake, and the
//! resulting channel carries length-framed request/response traffic and a
//! bounded-retry backup/restore protocol.

pub mod attest;
pub mod chat;
pub mod credentials;
pub mod crypto;
pub mod dns;
pub mod errors;
pub mod frame;
pub mod metrics;
pub mod race;
pub mod route;
pub mod svr;
