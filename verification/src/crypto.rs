//! Trusted wrappers around the cryptographic primitives.
//!
//! The channel needs exactly four primitives: a hash for transcript
//! binding and key derivation, a Diffie-Hellman exchange for forward
//! secrecy, a signature check for the evidence's chain to the trusted
//! root, and an authenticated cipher for the traffic under the derived
//! session keys. Each is one call into an outside crate; its result is
//! named by an uninterpreted spec function, since no statement short of
//! the algorithm itself would pin it down, and everything built on top
//! is verified against those names.

use chacha20poly1305::aead::{Aead, KeyInit};
use sha2::Digest;
use vstd::prelude::*;

verus! {

/// The SHA-256 digest of a byte string.
pub uninterp spec fn spec_sha256(data: Seq<u8>) -> Seq<u8>;

/// Hash a byte string.
///
/// Relies on `sha2::Sha256`: the digest is 32 bytes and depends on the
/// input bytes alone.
#[verifier::external_body]
pub fn sha256(data: &Vec<u8>) -> (r: Vec<u8>)
    ensures
        r@ == spec_sha256(data@),
        r@.len() == 32,
{
    sha2::Sha256::digest(data.as_slice()).to_vec()
}

/// The X25519 shared secret for scalar `k` and point `u`.
pub uninterp spec fn spec_x25519(k: Seq<u8>, u: Seq<u8>) -> Seq<u8>;

/// One X25519 Diffie-Hellman exchange.
///
/// Relies on `x25519_dalek::x25519`: the result is 32 bytes and a
/// function of the two inputs alone. Public keys are produced by
/// calling this with the basepoint as `u`.
#[verifier::external_body]
pub fn x25519_dh(k: &Vec<u8>, u: &Vec<u8>) -> (r: Vec<u8>)
    requires
        k@.len() == 32,
        u@.len() == 32,
    ensures
        r@ == spec_x25519(k@, u@),
        r@.len() == 32,
{
    let mut ka = [0u8; 32];
    ka.copy_from_slice(k.as_slice());
    let mut ua = [0u8; 32];
    ua.copy_from_slice(u.as_slice());
    x25519_dalek::x25519(ka, ua).to_vec()
}

/// The standard X25519 basepoint, as bytes: the u-coordinate 9.
pub open spec fn spec_x25519_basepoint() -> Seq<u8> {
    Seq::new(32, |i: int| if i == 0 { 9u8 } else { 0u8 })
}

/// The standard X25519 basepoint.
pub fn x25519_basepoint() -> (r: Vec<u8>)
    ensures
        r@ == spec_x25519_basepoint(),
{
    let mut v: Vec<u8> = Vec::new();
    v.push(9);
    let mut i: usize = 1;
    while i < 32
        invariant
            1 <= i <= 32,
            v@.len() == i,
            forall|k: int| 0 <= k < i ==> v@[k] == spec_x25519_basepoint()[k],
        decreases 32 - i,
    {
        v.push(0);
        i = i + 1;
    }
    proof {
        assert(v@ =~= spec_x25519_basepoint());
    }
    v
}

/// The cipher refuses messages at or beyond this many bytes.
pub const MAX_MESSAGE_LEN: u64 = 0x3fffffffc0;

/// The authenticated ciphertext for a key, a nonce and a plaintext.
pub uninterp spec fn spec_seal(key: Seq<u8>, nonce: Seq<u8>, plaintext: Seq<u8>) -> Seq<u8>;

/// What opening a ciphertext under a key and nonce yields: the sealed
/// plaintext, or nothing when the ciphertext does not authenticate.
pub uninterp spec fn spec_open(key: Seq<u8>, nonce: Seq<u8>, ciphertext: Seq<u8>) -> Option<
    Seq<u8>,
>;

/// Seal a message under a key and a fresh nonce.
///
/// Relies on `chacha20poly1305::ChaCha20Poly1305` (`Aead::encrypt`):
/// the ciphertext is a function of key, nonce and plaintext alone, is
/// one 16-byte tag longer than the plaintext, and opening it under the
/// same key and nonce gives the plaintext back. The length bound rules
/// out the one input the cipher refuses.
#[verifier::external_body]
pub fn aead_seal(key: &Vec<u8>, nonce: &Vec<u8>, plaintext: &Vec<u8>) -> (r: Vec<u8>)
    requires
        key@.len() == 32,
        nonce@.len() == 12,
        plaintext@.len() < MAX_MESSAGE_LEN,
    ensures
        r@ == spec_seal(key@, nonce@, plaintext@),
        r@.len() == plaintext@.len() + 16,
        spec_open(key@, nonce@, r@) == Some(plaintext@),
{
    let cipher = chacha20poly1305::ChaCha20Poly1305::new(
        chacha20poly1305::Key::from_slice(key.as_slice()),
    );
    cipher.encrypt(
        chacha20poly1305::Nonce::from_slice(nonce.as_slice()),
        plaintext.as_slice(),
    ).expect("message length is within the cipher's bound")
}

/// Open a sealed message.
///
/// Relies on `chacha20poly1305::ChaCha20Poly1305` (`Aead::decrypt`):
/// the verdict and the plaintext are functions of key, nonce and
/// ciphertext alone, and a ciphertext that fails authentication yields
/// nothing.
#[verifier::external_body]
pub fn aead_open(key: &Vec<u8>, nonce: &Vec<u8>, ciphertext: &Vec<u8>) -> (r: Option<Vec<u8>>)
    requires
        key@.len() == 32,
        nonce@.len() == 12,
    ensures
        match r {
            Some(p) => spec_open(key@, nonce@, ciphertext@) == Some(p@),
            None => spec_open(key@, nonce@, ciphertext@) is None,
        },
{
    let cipher = chacha20poly1305::ChaCha20Poly1305::new(
        chacha20poly1305::Key::from_slice(key.as_slice()),
    );
    cipher.decrypt(
        chacha20poly1305::Nonce::from_slice(nonce.as_slice()),
        ciphertext.as_slice(),
    ).ok()
}

/// Whether `sig` is a valid Ed25519 signature over `msg` by `key`.
pub uninterp spec fn spec_ed25519_verify(key: Seq<u8>, msg: Seq<u8>, sig: Seq<u8>) -> bool;

/// Check an Ed25519 signature.
///
/// Relies on `ed25519_dalek::VerifyingKey::from_bytes` and
/// `VerifyingKey::verify_strict`: whether the signature verifies
/// depends on the three byte strings alone. A key that does not decode
/// to a valid verifying key verifies nothing.
#[verifier::external_body]
pub fn ed25519_verify(key: &Vec<u8>, msg: &Vec<u8>, sig: &Vec<u8>) -> (r: bool)
    requires
        key@.len() == 32,
        sig@.len() == 64,
    ensures
        r == spec_ed25519_verify(key@, msg@, sig@),
{
    let mut ka = [0u8; 32];
    ka.copy_from_slice(key.as_slice());
    let mut sa = [0u8; 64];
    sa.copy_from_slice(sig.as_slice());
    match ed25519_dalek::VerifyingKey::from_bytes(&ka) {
        Ok(vk) => vk.verify_strict(
            msg.as_slice(),
            &ed25519_dalek::Signature::from_bytes(&sa),
        ).is_ok(),
        Err(_) => false,
    }
}

} // verus!
