//! Length-framed wire format for channel messages.
//!
//! Every message on an attested channel is one frame: an 8-byte
//! big-endian correlation id, a 4-byte big-endian payload length, then
//! the payload bytes. The schemas inside the payload belong to the
//! protocols built on the channel; this module only frames and checks.

use vstd::prelude::*;

verus! {

/// Bytes of frame bookkeeping before the payload: id plus length.
pub const HEADER_LEN: usize = 12;

/// The big-endian bytes of a 64-bit correlation id.
pub open spec fn spec_u64_be(n: u64) -> Seq<u8> {
    seq![
        (n >> 56) as u8,
        (n >> 48) as u8,
        (n >> 40) as u8,
        (n >> 32) as u8,
        (n >> 24) as u8,
        (n >> 16) as u8,
        (n >> 8) as u8,
        n as u8,
    ]
}

/// The big-endian bytes of a 32-bit length.
pub open spec fn spec_u32_be(n: u32) -> Seq<u8> {
    seq![(n >> 24) as u8, (n >> 16) as u8, (n >> 8) as u8, n as u8]
}

/// The 64-bit value read back from 8 big-endian bytes.
pub open spec fn spec_read_u64_be(b: Seq<u8>) -> u64
    recommends
        b.len() == 8,
{
    (
    ((b[0] as u64) << 56) | ((b[1] as u64) << 48) | ((b[2] as u64) << 40) | ((b[3] as u64) << 32)
        | ((b[4] as u64) << 24) | ((b[5] as u64) << 16) | ((b[6] as u64) << 8) | (b[7] as u64)
    ) as u64
}

/// The 32-bit value read back from 4 big-endian bytes.
pub open spec fn spec_read_u32_be(b: Seq<u8>) -> u32
    recommends
        b.len() == 4,
{
    (((b[0] as u32) << 24) | ((b[1] as u32) << 16) | ((b[2] as u32) << 8) | (b[3] as u32)) as u32
}

/// The frame that carries `payload` under correlation id `id`.
pub open spec fn spec_frame(id: u64, payload: Seq<u8>) -> Seq<u8> {
    spec_u64_be(id) + spec_u32_be(payload.len() as u32) + payload
}

/// A byte string is one well-formed frame when it has a full header and
/// the declared payload length matches what follows the header.
pub open spec fn spec_frame_wf(b: Seq<u8>) -> bool {
    &&& b.len() >= HEADER_LEN
    &&& b.len() - HEADER_LEN <= u32::MAX
    &&& spec_read_u32_be(b.subrange(8, HEADER_LEN as int)) == b.len() - HEADER_LEN
}

/// Writing a 64-bit id and reading it back is the identity.
pub proof fn lemma_u64_be_round_trip(n: u64)
    ensures
        spec_read_u64_be(spec_u64_be(n)) == n,
{
    assert(((((n >> 56) as u8) as u64) << 56) | ((((n >> 48) as u8) as u64) << 48) | ((((n >> 40)
        as u8) as u64) << 40) | ((((n >> 32) as u8) as u64) << 32) | ((((n >> 24) as u8) as u64)
        << 24) | ((((n >> 16) as u8) as u64) << 16) | ((((n >> 8) as u8) as u64) << 8) | ((n as u8)
        as u64) == n) by (bit_vector);
}

/// Writing a 32-bit length and reading it back is the identity.
pub proof fn lemma_u32_be_round_trip(n: u32)
    ensures
        spec_read_u32_be(spec_u32_be(n)) == n,
{
    assert(((((n >> 24) as u8) as u32) << 24) | ((((n >> 16) as u8) as u32) << 16) | ((((n >> 8)
        as u8) as u32) << 8) | ((n as u8) as u32) == n) by (bit_vector);
}

/// Push the big-endian bytes of `n` onto `out`.
pub(crate) fn push_u64_be(out: &mut Vec<u8>, n: u64)
    ensures
        final(out)@ == old(out)@ + spec_u64_be(n),
{
    out.push((n >> 56) as u8);
    out.push((n >> 48) as u8);
    out.push((n >> 40) as u8);
    out.push((n >> 32) as u8);
    out.push((n >> 24) as u8);
    out.push((n >> 16) as u8);
    out.push((n >> 8) as u8);
    out.push(n as u8);
    assert(out@ =~= old(out)@ + spec_u64_be(n));
}

/// Push the big-endian bytes of `n` onto `out`.
fn push_u32_be(out: &mut Vec<u8>, n: u32)
    ensures
        final(out)@ == old(out)@ + spec_u32_be(n),
{
    out.push((n >> 24) as u8);
    out.push((n >> 16) as u8);
    out.push((n >> 8) as u8);
    out.push(n as u8);
    assert(out@ =~= old(out)@ + spec_u32_be(n));
}

/// Read the 64-bit big-endian value starting at `start`.
pub(crate) fn read_u64_be(b: &Vec<u8>, start: usize) -> (r: u64)
    requires
        start + 8 <= b@.len(),
    ensures
        r == spec_read_u64_be(b@.subrange(start as int, start + 8)),
{
    let n = b.len();
    let r = ((b[start] as u64) << 56) | ((b[start + 1] as u64) << 48) | ((b[start + 2] as u64)
        << 40) | ((b[start + 3] as u64) << 32) | ((b[start + 4] as u64) << 24) | ((b[start + 5]
        as u64) << 16) | ((b[start + 6] as u64) << 8) | (b[start + 7] as u64);
    assert(b@.subrange(start as int, start + 8)[0] == b@[start as int]);
    r
}

/// Read the 32-bit big-endian value starting at `start`.
fn read_u32_be(b: &Vec<u8>, start: usize) -> (r: u32)
    requires
        start + 4 <= b@.len(),
    ensures
        r == spec_read_u32_be(b@.subrange(start as int, start + 4)),
{
    let n = b.len();
    let r = ((b[start] as u32) << 24) | ((b[start + 1] as u32) << 16) | ((b[start + 2] as u32)
        << 8) | (b[start + 3] as u32);
    assert(b@.subrange(start as int, start + 4)[0] == b@[start as int]);
    r
}

/// Frame `payload` under correlation id `id`.
pub fn encode_frame(id: u64, payload: &Vec<u8>) -> (r: Vec<u8>)
    requires
        payload@.len() <= u32::MAX,
    ensures
        r@ == spec_frame(id, payload@),
{
    let mut out: Vec<u8> = Vec::new();
    push_u64_be(&mut out, id);
    push_u32_be(&mut out, payload.len() as u32);
    let mut i: usize = 0;
    while i < payload.len()
        invariant
            i <= payload@.len(),
            payload@.len() <= u32::MAX,
            out@ == spec_u64_be(id) + spec_u32_be(payload@.len() as u32) + payload@.subrange(
                0,
                i as int,
            ),
        decreases payload@.len() - i,
    {
        out.push(payload[i]);
        assert(out@ =~= spec_u64_be(id) + spec_u32_be(payload@.len() as u32) + payload@.subrange(
            0,
            i + 1,
        ));
        i = i + 1;
    }
    assert(payload@.subrange(0, payload@.len() as int) =~= payload@);
    out
}

/// Split one well-formed frame into its correlation id and payload.
///
/// Returns the id and payload exactly when `buf` is one well-formed
/// frame, and nothing otherwise.
pub fn decode_frame(buf: &Vec<u8>) -> (r: Option<(u64, Vec<u8>)>)
    ensures
        r is Some <==> spec_frame_wf(buf@),
        match r {
            Some((id, payload)) => {
                &&& id == spec_read_u64_be(buf@.subrange(0, 8))
                &&& payload@ == buf@.subrange(HEADER_LEN as int, buf@.len() as int)
            },
            None => true,
        },
{
    if buf.len() < HEADER_LEN {
        return None;
    }
    let declared = read_u32_be(buf, 8);
    if (declared as usize) != buf.len() - HEADER_LEN {
        return None;
    }
    let id = read_u64_be(buf, 0);
    let mut payload: Vec<u8> = Vec::new();
    let mut i: usize = HEADER_LEN;
    while i < buf.len()
        invariant
            HEADER_LEN <= i <= buf@.len(),
            payload@ == buf@.subrange(HEADER_LEN as int, i as int),
        decreases buf@.len() - i,
    {
        payload.push(buf[i]);
        assert(payload@ =~= buf@.subrange(HEADER_LEN as int, i + 1));
        i = i + 1;
    }
    Some((id, payload))
}

/// Framing round trip: decoding a frame built by [`encode_frame`] gives
/// back exactly the correlation id and payload that went in.
pub proof fn lemma_frame_round_trip(id: u64, payload: Seq<u8>)
    requires
        payload.len() <= u32::MAX,
    ensures
        spec_frame_wf(spec_frame(id, payload)),
        spec_read_u64_be(spec_frame(id, payload).subrange(0, 8)) == id,
        spec_frame(id, payload).subrange(HEADER_LEN as int, spec_frame(id, payload).len() as int)
            =~= payload,
{
    let f = spec_frame(id, payload);
    assert(f.subrange(0, 8) =~= spec_u64_be(id));
    assert(f.subrange(8, HEADER_LEN as int) =~= spec_u32_be(payload.len() as u32));
    lemma_u64_be_round_trip(id);
    lemma_u32_be_round_trip(payload.len() as u32);
}

} // verus!
