use attested_net::attest::{complete_handshake, initiate_handshake, verify_evidence};
use attested_net::errors::AttestationFailure;
use chacha20poly1305::aead::{Aead, KeyInit};
use ed25519_dalek::Signer;
use sha2::Digest;

const MEASUREMENT: [u8; 32] = [0xAB; 32];
const ROOT_SEED: [u8; 32] = [7u8; 32];
const CLIENT_SECRET: [u8; 32] = [3u8; 32];
const SERVER_SECRET: [u8; 32] = [5u8; 32];
const VALID_FROM: u64 = 1_000;
const VALID_UNTIL: u64 = 2_000;
const NOW: u64 = 1_500;

fn root_signing_key() -> ed25519_dalek::SigningKey {
    ed25519_dalek::SigningKey::from_bytes(&ROOT_SEED)
}

fn root_public_key() -> Vec<u8> {
    root_signing_key().verifying_key().to_bytes().to_vec()
}

fn server_public() -> [u8; 32] {
    x25519_dalek::x25519(SERVER_SECRET, x25519_dalek::X25519_BASEPOINT_BYTES)
}

fn binding(client_pub: &[u8], server_pub: &[u8]) -> Vec<u8> {
    let mut transcript = client_pub.to_vec();
    transcript.extend_from_slice(server_pub);
    sha2::Sha256::digest(&transcript).to_vec()
}

/// One signed evidence document binding `MEASUREMENT` and the validity
/// window to the session with the given binding hash.
fn signed_evidence(binding: &[u8], measurement: &[u8; 32], from: u64, until: u64) -> Vec<u8> {
    let mut body = measurement.to_vec();
    body.extend_from_slice(&from.to_be_bytes());
    body.extend_from_slice(&until.to_be_bytes());
    let mut payload = body.clone();
    payload.extend_from_slice(binding);
    let sig = root_signing_key().sign(&payload);
    let mut evidence = body;
    evidence.extend_from_slice(&sig.to_bytes());
    assert_eq!(evidence.len(), 112);
    evidence
}

fn server_message(client_pub: &[u8], measurement: &[u8; 32], from: u64, until: u64) -> Vec<u8> {
    let server_pub = server_public();
    let b = binding(client_pub, &server_pub);
    let mut msg = server_pub.to_vec();
    msg.extend_from_slice(&signed_evidence(&b, measurement, from, until));
    assert_eq!(msg.len(), 144);
    msg
}

#[test]
fn valid_evidence_yields_an_attested_channel() {
    let (st, hello) = initiate_handshake(CLIENT_SECRET.to_vec());
    assert_eq!(
        hello,
        x25519_dalek::x25519(CLIENT_SECRET, x25519_dalek::X25519_BASEPOINT_BYTES).to_vec()
    );
    let msg = server_message(&hello, &MEASUREMENT, VALID_FROM, VALID_UNTIL);
    let ch = complete_handshake(
        &st,
        &msg,
        &vec![MEASUREMENT.to_vec()],
        &root_public_key(),
        NOW,
    )
    .expect("attestation must succeed");
    assert_eq!(ch.measurement, MEASUREMENT.to_vec());

    // The channel keys are the transcript-bound digests, so both ends
    // can derive them; recompute the send key here from the shared
    // secret the server side would compute.
    let server_pub = server_public();
    let shared = x25519_dalek::x25519(SERVER_SECRET, {
        let mut h = [0u8; 32];
        h.copy_from_slice(&hello);
        h
    });
    let mut material = shared.to_vec();
    material.extend_from_slice(&hello);
    material.extend_from_slice(&server_pub);
    material.push(1);
    let expected_send = sha2::Sha256::digest(&material).to_vec();
    assert_eq!(ch.send_key, expected_send);
    assert_ne!(ch.send_key, ch.recv_key);
}

/// The 12-byte message nonce: zero padding, then the big-endian counter.
fn nonce_bytes(counter: u64) -> Vec<u8> {
    let mut n = vec![0u8; 4];
    n.extend_from_slice(&counter.to_be_bytes());
    n
}

#[test]
fn channel_seals_and_opens_its_traffic() {
    let (st, hello) = initiate_handshake(CLIENT_SECRET.to_vec());
    let msg = server_message(&hello, &MEASUREMENT, VALID_FROM, VALID_UNTIL);
    let ch = complete_handshake(&st, &msg, &vec![MEASUREMENT.to_vec()], &root_public_key(), NOW)
        .expect("attestation must succeed");

    // Sealing matches the cipher run directly under the send key, so a
    // peer holding the mirrored keys can open it.
    let payload = vec![1u8, 2, 3, 4];
    let counter = 9u64;
    let sealed = ch.seal_message(counter, &payload);
    assert_eq!(sealed.len(), payload.len() + 16);
    let cipher = chacha20poly1305::ChaCha20Poly1305::new(
        chacha20poly1305::Key::from_slice(&ch.send_key),
    );
    let expected = cipher
        .encrypt(
            chacha20poly1305::Nonce::from_slice(&nonce_bytes(counter)),
            payload.as_slice(),
        )
        .unwrap();
    assert_eq!(sealed, expected);

    // Opening accepts exactly what was sealed under the receive key...
    let peer = chacha20poly1305::ChaCha20Poly1305::new(
        chacha20poly1305::Key::from_slice(&ch.recv_key),
    );
    let incoming = peer
        .encrypt(
            chacha20poly1305::Nonce::from_slice(&nonce_bytes(3)),
            payload.as_slice(),
        )
        .unwrap();
    assert_eq!(ch.open_message(3, &incoming), Some(payload.clone()));

    // ...and rejects a flipped byte and a mismatched counter.
    let mut tampered = incoming.clone();
    tampered[0] ^= 0x01;
    assert_eq!(ch.open_message(3, &tampered), None);
    assert_eq!(ch.open_message(4, &incoming), None);
}

#[test]
fn mismatched_measurement_is_rejected_and_no_channel_exists() {
    // Evidence valid in every other respect, but its measurement is not
    // in the expected set: attestation fails and no channel is built.
    let (st, hello) = initiate_handshake(CLIENT_SECRET.to_vec());
    let msg = server_message(&hello, &MEASUREMENT, VALID_FROM, VALID_UNTIL);
    let other = [0xCD; 32];
    let r = complete_handshake(&st, &msg, &vec![other.to_vec()], &root_public_key(), NOW);
    assert!(matches!(r, Err(AttestationFailure::MeasurementMismatch)));
}

#[test]
fn expired_evidence_is_rejected() {
    // Measurement and signature are good; only the window has passed.
    let (st, hello) = initiate_handshake(CLIENT_SECRET.to_vec());
    let msg = server_message(&hello, &MEASUREMENT, VALID_FROM, VALID_UNTIL);
    let r = complete_handshake(
        &st,
        &msg,
        &vec![MEASUREMENT.to_vec()],
        &root_public_key(),
        VALID_UNTIL + 1,
    );
    assert!(matches!(r, Err(AttestationFailure::ExpiredEvidence)));
    let r = complete_handshake(
        &st,
        &msg,
        &vec![MEASUREMENT.to_vec()],
        &root_public_key(),
        VALID_FROM - 1,
    );
    assert!(matches!(r, Err(AttestationFailure::ExpiredEvidence)));
}

#[test]
fn tampered_signature_is_rejected() {
    // Measurement and window are good; one flipped signature byte must
    // break the chain to the trusted root.
    let (st, hello) = initiate_handshake(CLIENT_SECRET.to_vec());
    let mut msg = server_message(&hello, &MEASUREMENT, VALID_FROM, VALID_UNTIL);
    let last = msg.len() - 1;
    msg[last] ^= 0x01;
    let r = complete_handshake(&st, &msg, &vec![MEASUREMENT.to_vec()], &root_public_key(), NOW);
    assert!(matches!(r, Err(AttestationFailure::UntrustedSigner)));
}

#[test]
fn evidence_signed_for_another_session_is_rejected() {
    // A replayed document: correctly signed, but over another session's
    // binding, so it must not verify for this one.
    let (st, hello) = initiate_handshake(CLIENT_SECRET.to_vec());
    let server_pub = server_public();
    let foreign_binding = binding(&[0x11; 32], &server_pub);
    let mut msg = server_pub.to_vec();
    msg.extend_from_slice(&signed_evidence(
        &foreign_binding,
        &MEASUREMENT,
        VALID_FROM,
        VALID_UNTIL,
    ));
    let r = complete_handshake(&st, &msg, &vec![MEASUREMENT.to_vec()], &root_public_key(), NOW);
    assert!(matches!(r, Err(AttestationFailure::UntrustedSigner)));
}

#[test]
fn malformed_server_message_is_rejected() {
    let (st, _) = initiate_handshake(CLIENT_SECRET.to_vec());
    let r = complete_handshake(
        &st,
        &vec![0u8; 50],
        &vec![MEASUREMENT.to_vec()],
        &root_public_key(),
        NOW,
    );
    assert!(matches!(r, Err(AttestationFailure::MalformedEvidence)));
}

#[test]
fn verify_evidence_checks_length_first() {
    let r = verify_evidence(
        &vec![0u8; 111],
        &vec![MEASUREMENT.to_vec()],
        &root_public_key(),
        &vec![0u8; 32],
        NOW,
    );
    assert!(matches!(r, Err(AttestationFailure::MalformedEvidence)));
}

#[test]
fn window_boundaries_are_inclusive() {
    let (st, hello) = initiate_handshake(CLIENT_SECRET.to_vec());
    let msg = server_message(&hello, &MEASUREMENT, VALID_FROM, VALID_UNTIL);
    let expected = vec![MEASUREMENT.to_vec()];
    let root = root_public_key();
    assert!(complete_handshake(&st, &msg, &expected, &root, VALID_FROM).is_ok());
    assert!(complete_handshake(&st, &msg, &expected, &root, VALID_UNTIL).is_ok());
}
