//! Attestation handshake: from a raw transport to a verified channel.
//!
//! The client opens with an ephemeral X25519 public key. The enclave
//! answers with its own ephemeral key and an attestation evidence
//! document that binds the session to a hardware-rooted identity. The
//! client accepts only when, in this order, the message parses, the
//! claimed code measurement is in the expected set, the evidence
//! validity window contains the current time, and the evidence
//! signature verifies under the trusted root key over a payload that
//! includes the session transcript's hash. Only then are the channel
//! keys derived and an [`AttestedChannel`] constructed; every failed
//! check rejects the whole attempt with its own failure kind, and no
//! check is skipped on account of another.
//!
//! Evidence document layout, 112 bytes: a 32-byte measurement, two
//! 8-byte big-endian timestamps (validity window), and a 64-byte
//! Ed25519 signature over the first 48 bytes followed by the 32-byte
//! session binding, which is the hash of the two public keys.

use vstd::prelude::*;

use crate::crypto::{
    aead_open, aead_seal, sha256, spec_ed25519_verify, spec_open, spec_seal, spec_sha256,
    spec_x25519, spec_x25519_basepoint, x25519_basepoint, x25519_dh, ed25519_verify,
    MAX_MESSAGE_LEN,
};
use crate::errors::AttestationFailure;
use crate::frame::{push_u64_be, read_u64_be, spec_read_u64_be, spec_u64_be};

verus! {

/// Bytes in a measurement, a key, or a binding hash.
pub const KEY_LEN: usize = 32;

/// Bytes in an evidence document.
pub const EVIDENCE_LEN: usize = 112;

/// Bytes in the enclave's handshake message: its public key, then the
/// evidence document.
pub const SERVER_MSG_LEN: usize = 144;

/// The claimed code measurement of an evidence document.
pub open spec fn spec_ev_measurement(ev: Seq<u8>) -> Seq<u8> {
    ev.subrange(0, 32)
}

/// The start of an evidence document's validity window.
pub open spec fn spec_ev_valid_from(ev: Seq<u8>) -> u64 {
    spec_read_u64_be(ev.subrange(32, 40))
}

/// The end of an evidence document's validity window.
pub open spec fn spec_ev_valid_until(ev: Seq<u8>) -> u64 {
    spec_read_u64_be(ev.subrange(40, 48))
}

/// The signature of an evidence document.
pub open spec fn spec_ev_signature(ev: Seq<u8>) -> Seq<u8> {
    ev.subrange(48, 112)
}

/// The session binding: the hash of the client's and then the
/// enclave's public key.
pub open spec fn spec_binding(client_pub: Seq<u8>, server_pub: Seq<u8>) -> Seq<u8> {
    spec_sha256(client_pub + server_pub)
}

/// What the evidence signature must cover: the measurement and window,
/// then the session binding, so evidence cannot be replayed for another
/// session.
pub open spec fn spec_signed_payload(ev: Seq<u8>, binding: Seq<u8>) -> Seq<u8> {
    ev.subrange(0, 48) + binding
}

/// Whether a measurement is in the expected set.
pub open spec fn spec_measurement_allowed(m: Seq<u8>, expected: Seq<Vec<u8>>) -> bool {
    exists|i: int| 0 <= i < expected.len() && (#[trigger] expected[i])@ == m
}

/// Whether the current time lies in the evidence validity window.
pub open spec fn spec_window_ok(ev: Seq<u8>, now: u64) -> bool {
    spec_ev_valid_from(ev) <= now <= spec_ev_valid_until(ev)
}

/// Whether the evidence signature chains to the trusted root for this
/// session.
pub open spec fn spec_sig_ok(ev: Seq<u8>, root_key: Seq<u8>, binding: Seq<u8>) -> bool {
    spec_ed25519_verify(root_key, spec_signed_payload(ev, binding), spec_ev_signature(ev))
}

/// Copy `buf[start..end]` into a fresh vector.
fn subvec(buf: &Vec<u8>, start: usize, end: usize) -> (r: Vec<u8>)
    requires
        start <= end <= buf@.len(),
    ensures
        r@ == buf@.subrange(start as int, end as int),
{
    let mut out: Vec<u8> = Vec::new();
    let mut i: usize = start;
    while i < end
        invariant
            start <= i <= end <= buf@.len(),
            out@ == buf@.subrange(start as int, i as int),
        decreases end - i,
    {
        out.push(buf[i]);
        assert(out@ =~= buf@.subrange(start as int, i + 1));
        i = i + 1;
    }
    out
}

/// Append `b` to `a`.
fn append_bytes(a: &mut Vec<u8>, b: &Vec<u8>)
    ensures
        final(a)@ == old(a)@ + b@,
{
    let mut i: usize = 0;
    while i < b.len()
        invariant
            i <= b@.len(),
            a@ == old(a)@ + b@.subrange(0, i as int),
        decreases b@.len() - i,
    {
        a.push(b[i]);
        assert(a@ =~= old(a)@ + b@.subrange(0, i + 1));
        i = i + 1;
    }
    assert(a@ =~= old(a)@ + b@);
}

/// Whether two byte vectors hold the same bytes.
fn bytes_eq(a: &Vec<u8>, b: &Vec<u8>) -> (r: bool)
    ensures
        r <==> a@ == b@,
{
    if a.len() != b.len() {
        proof {
            assert(a@.len() != b@.len());
        }
        return false;
    }
    let n = a.len();
    let mut i: usize = 0;
    while i < n
        invariant
            n == a@.len() == b@.len(),
            i <= n,
            forall|k: int| 0 <= k < i ==> a@[k] == b@[k],
        decreases n - i,
    {
        if a[i] != b[i] {
            return false;
        }
        i = i + 1;
    }
    proof {
        assert(a@ =~= b@);
    }
    true
}

/// Whether `m` is one of the expected measurements.
fn measurement_allowed(m: &Vec<u8>, expected: &Vec<Vec<u8>>) -> (r: bool)
    ensures
        r == spec_measurement_allowed(m@, expected@),
{
    let n = expected.len();
    let mut i: usize = 0;
    while i < n
        invariant
            n == expected@.len(),
            i <= n,
            forall|k: int| 0 <= k < i ==> (#[trigger] expected@[k])@ != m@,
        decreases n - i,
    {
        if bytes_eq(&expected[i], m) {
            return true;
        }
        i = i + 1;
    }
    false
}

/// Check an evidence document against the expected measurements, the
/// trusted root key, this session's binding, and the current time.
///
/// The checks are independent: each failure kind reports exactly the
/// first check that failed with all earlier ones passing, so a
/// mismatched measurement, an expired window, and a tampered signature
/// are each rejected on their own, whatever the rest of the document
/// says.
pub fn verify_evidence(
    evidence: &Vec<u8>,
    expected: &Vec<Vec<u8>>,
    root_key: &Vec<u8>,
    binding: &Vec<u8>,
    now: u64,
) -> (r: Result<(), AttestationFailure>)
    requires
        root_key@.len() == 32,
    ensures
        match r {
            Ok(()) => {
                &&& evidence@.len() == EVIDENCE_LEN
                &&& spec_measurement_allowed(spec_ev_measurement(evidence@), expected@)
                &&& spec_window_ok(evidence@, now)
                &&& spec_sig_ok(evidence@, root_key@, binding@)
            },
            Err(AttestationFailure::MalformedEvidence) => evidence@.len() != EVIDENCE_LEN,
            Err(AttestationFailure::MeasurementMismatch) => {
                &&& evidence@.len() == EVIDENCE_LEN
                &&& !spec_measurement_allowed(spec_ev_measurement(evidence@), expected@)
            },
            Err(AttestationFailure::ExpiredEvidence) => {
                &&& evidence@.len() == EVIDENCE_LEN
                &&& spec_measurement_allowed(spec_ev_measurement(evidence@), expected@)
                &&& !spec_window_ok(evidence@, now)
            },
            Err(AttestationFailure::UntrustedSigner) => {
                &&& evidence@.len() == EVIDENCE_LEN
                &&& spec_measurement_allowed(spec_ev_measurement(evidence@), expected@)
                &&& spec_window_ok(evidence@, now)
                &&& !spec_sig_ok(evidence@, root_key@, binding@)
            },
            Err(AttestationFailure::Transport) => false,
        },
{
    if evidence.len() != EVIDENCE_LEN {
        return Err(AttestationFailure::MalformedEvidence);
    }
    let measurement = subvec(evidence, 0, 32);
    if !measurement_allowed(&measurement, expected) {
        return Err(AttestationFailure::MeasurementMismatch);
    }
    let valid_from = read_u64_be(evidence, 32);
    let valid_until = read_u64_be(evidence, 40);
    if !(valid_from <= now && now <= valid_until) {
        return Err(AttestationFailure::ExpiredEvidence);
    }
    let mut payload = subvec(evidence, 0, 48);
    append_bytes(&mut payload, binding);
    let signature = subvec(evidence, 48, 112);
    if !ed25519_verify(root_key, &payload, &signature) {
        return Err(AttestationFailure::UntrustedSigner);
    }
    Ok(())
}

/// A verified, encrypted channel to an attested enclave.
///
/// Constructed only by [`complete_handshake`], and only after every
/// attestation check has passed: holding one means the peer presented
/// evidence whose measurement was expected, whose window was current,
/// and whose signature chained to the trusted root for this very
/// session.
pub struct AttestedChannel {
    /// Key for traffic from client to enclave.
    pub send_key: Vec<u8>,
    /// Key for traffic from enclave to client.
    pub recv_key: Vec<u8>,
    /// The measurement the enclave proved.
    pub measurement: Vec<u8>,
}

/// The 12-byte cipher nonce for one channel message: zero padding, then
/// the message's counter. Counters are the correlation ids of
/// [`crate::chat::RequestTable`], unique for the channel's lifetime, and
/// the channel's write path is single-writer, so no nonce repeats under
/// one key.
pub open spec fn spec_message_nonce(counter: u64) -> Seq<u8> {
    seq![0u8, 0u8, 0u8, 0u8] + spec_u64_be(counter)
}

/// Build the cipher nonce for one channel message.
fn message_nonce(counter: u64) -> (r: Vec<u8>)
    ensures
        r@ == spec_message_nonce(counter),
        r@.len() == 12,
{
    let mut nonce: Vec<u8> = Vec::new();
    nonce.push(0);
    nonce.push(0);
    nonce.push(0);
    nonce.push(0);
    push_u64_be(&mut nonce, counter);
    proof {
        assert(nonce@ =~= spec_message_nonce(counter));
    }
    nonce
}

impl AttestedChannel {
    /// Channel keys are always full cipher keys; every constructor in
    /// this module guarantees it.
    pub open spec fn wf(&self) -> bool {
        &&& self.send_key@.len() == 32
        &&& self.recv_key@.len() == 32
    }

    /// Seal one outgoing message under the channel's send key and the
    /// message's counter.
    ///
    /// What this seals, the peer's matching open under the same key and
    /// counter gives back, and nothing else authenticates.
    pub fn seal_message(&self, counter: u64, payload: &Vec<u8>) -> (r: Vec<u8>)
        requires
            self.wf(),
            payload@.len() < MAX_MESSAGE_LEN,
        ensures
            r@ == spec_seal(self.send_key@, spec_message_nonce(counter), payload@),
            r@.len() == payload@.len() + 16,
            spec_open(self.send_key@, spec_message_nonce(counter), r@) == Some(payload@),
    {
        let nonce = message_nonce(counter);
        aead_seal(&self.send_key, &nonce, payload)
    }

    /// Open one incoming message under the channel's receive key and
    /// the message's counter. A ciphertext that does not authenticate
    /// yields nothing.
    pub fn open_message(&self, counter: u64, ciphertext: &Vec<u8>) -> (r: Option<Vec<u8>>)
        requires
            self.wf(),
        ensures
            match r {
                Some(p) => spec_open(self.recv_key@, spec_message_nonce(counter), ciphertext@)
                    == Some(p@),
                None => spec_open(self.recv_key@, spec_message_nonce(counter), ciphertext@)
                    is None,
            },
    {
        let nonce = message_nonce(counter);
        aead_open(&self.recv_key, &nonce, ciphertext)
    }
}

/// The client half of a handshake in flight.
pub struct HandshakeState {
    /// The client's ephemeral secret.
    pub eph_secret: Vec<u8>,
    /// The client's public key, sent in the opening message.
    pub client_public: Vec<u8>,
}

impl HandshakeState {
    /// The public key belongs to the secret.
    pub open spec fn wf(&self) -> bool {
        &&& self.eph_secret@.len() == 32
        &&& self.client_public@ == spec_x25519(self.eph_secret@, spec_x25519_basepoint())
    }
}

/// Open a handshake: derive the public key for a caller-supplied fresh
/// ephemeral secret and hand back the opening message, which is that
/// key. The caller draws the secret from its randomness source; any
/// 32-byte value yields a well-formed handshake.
pub fn initiate_handshake(eph_secret: Vec<u8>) -> (r: (HandshakeState, Vec<u8>))
    requires
        eph_secret@.len() == 32,
    ensures
        r.0.wf(),
        r.0.eph_secret == eph_secret,
        r.1@ == r.0.client_public@,
{
    let base = x25519_basepoint();
    let client_public = x25519_dh(&eph_secret, &base);
    let hello = subvec(&client_public, 0, client_public.len());
    proof {
        assert(hello@ =~= client_public@);
    }
    (HandshakeState { eph_secret, client_public }, hello)
}

/// Finish a handshake with the enclave's reply.
///
/// The reply must be the enclave's public key followed by its evidence
/// document. The evidence is checked against the expected measurements,
/// the trusted root and the current time, bound to this session's
/// transcript; on any failure no channel exists and the failure kind
/// says which check refused. On success the channel keys are derived
/// from the shared secret and the transcript, and the verified
/// measurement is recorded in the channel.
pub fn complete_handshake(
    st: &HandshakeState,
    server_msg: &Vec<u8>,
    expected: &Vec<Vec<u8>>,
    root_key: &Vec<u8>,
    now: u64,
) -> (r: Result<AttestedChannel, AttestationFailure>)
    requires
        st.wf(),
        root_key@.len() == 32,
    ensures
        match r {
            Ok(ch) => {
                &&& server_msg@.len() == SERVER_MSG_LEN
                &&& ch.wf()
                &&& {
                    let server_pub = server_msg@.subrange(0, 32);
                    let ev = server_msg@.subrange(32, SERVER_MSG_LEN as int);
                    let binding = spec_binding(st.client_public@, server_pub);
                    let shared = spec_x25519(st.eph_secret@, server_pub);
                    &&& spec_measurement_allowed(spec_ev_measurement(ev), expected@)
                    &&& spec_window_ok(ev, now)
                    &&& spec_sig_ok(ev, root_key@, binding)
                    &&& ch.measurement@ == spec_ev_measurement(ev)
                    &&& ch.send_key@ == spec_sha256(
                        shared + st.client_public@ + server_pub + seq![1u8],
                    )
                    &&& ch.recv_key@ == spec_sha256(
                        shared + st.client_public@ + server_pub + seq![2u8],
                    )
                }
            },
            Err(AttestationFailure::MalformedEvidence) => server_msg@.len() != SERVER_MSG_LEN,
            Err(f) => {
                &&& server_msg@.len() == SERVER_MSG_LEN
                &&& {
                    let server_pub = server_msg@.subrange(0, 32);
                    let ev = server_msg@.subrange(32, SERVER_MSG_LEN as int);
                    let binding = spec_binding(st.client_public@, server_pub);
                    match f {
                        AttestationFailure::MeasurementMismatch => !spec_measurement_allowed(
                            spec_ev_measurement(ev),
                            expected@,
                        ),
                        AttestationFailure::ExpiredEvidence => {
                            &&& spec_measurement_allowed(spec_ev_measurement(ev), expected@)
                            &&& !spec_window_ok(ev, now)
                        },
                        AttestationFailure::UntrustedSigner => {
                            &&& spec_measurement_allowed(spec_ev_measurement(ev), expected@)
                            &&& spec_window_ok(ev, now)
                            &&& !spec_sig_ok(ev, root_key@, binding)
                        },
                        _ => false,
                    }
                }
            },
        },
{
    if server_msg.len() != SERVER_MSG_LEN {
        return Err(AttestationFailure::MalformedEvidence);
    }
    let server_pub = subvec(server_msg, 0, 32);
    let evidence = subvec(server_msg, 32, SERVER_MSG_LEN);
    let mut transcript = subvec(&st.client_public, 0, st.client_public.len());
    proof {
        assert(transcript@ =~= st.client_public@);
    }
    append_bytes(&mut transcript, &server_pub);
    let binding = sha256(&transcript);
    match verify_evidence(&evidence, expected, root_key, &binding, now) {
        Ok(()) => {},
        Err(f) => {
            return Err(f);
        },
    }
    let shared = x25519_dh(&st.eph_secret, &server_pub);
    let mut send_material = subvec(&shared, 0, shared.len());
    proof {
        assert(send_material@ =~= shared@);
    }
    append_bytes(&mut send_material, &st.client_public);
    append_bytes(&mut send_material, &server_pub);
    send_material.push(1);
    let mut recv_material = subvec(&shared, 0, shared.len());
    proof {
        assert(recv_material@ =~= shared@);
    }
    append_bytes(&mut recv_material, &st.client_public);
    append_bytes(&mut recv_material, &server_pub);
    recv_material.push(2);
    let measurement = subvec(&evidence, 0, 32);
    proof {
        assert(send_material@ =~= spec_x25519(st.eph_secret@, server_msg@.subrange(0, 32))
            + st.client_public@ + server_msg@.subrange(0, 32) + seq![1u8]);
        assert(recv_material@ =~= spec_x25519(st.eph_secret@, server_msg@.subrange(0, 32))
            + st.client_public@ + server_msg@.subrange(0, 32) + seq![2u8]);
        assert(evidence@.subrange(0, 32) =~= server_msg@.subrange(32, SERVER_MSG_LEN as int).subrange(
            0,
            32,
        ));
    }
    let send_key = sha256(&send_material);
    let recv_key = sha256(&recv_material);
    Ok(AttestedChannel { send_key, recv_key, measurement })
}

} // verus!
