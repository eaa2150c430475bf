//! UBX frame codec: building an outbound frame and validating an inbound one.
//!
//! Wire layout: `0xB5 0x62 class id len_lo len_hi payload.. ck_a ck_b`, where the
//! checksum covers `class` through the last payload byte.
use vstd::prelude::*;
use vstd::slice::{slice_subrange, slice_to_vec};
use crate::checksum::{ck_a, ck_b, byte_sum, ubx_checksum, lemma_ck_a_is_sum, lemma_byte_sum_concat};

verus! {

/// First synchronisation byte of every frame.
pub const SYNC_1: u8 = 0xB5;

/// Second synchronisation byte of every frame.
pub const SYNC_2: u8 = 0x62;

/// Largest payload whose length fits the 16-bit length field.
pub const MAX_PAYLOAD: usize = 65535;

/// A validated inbound frame: its class, its identifier and its payload.
#[derive(Debug)]
pub struct UbxMessage {
    pub class: u8,
    pub id: u8,
    pub payload: Vec<u8>,
}

impl View for UbxMessage {
    type V = (u8, u8, Seq<u8>);

    open spec fn view(&self) -> (u8, u8, Seq<u8>) {
        (self.class, self.id, self.payload@)
    }
}

/// Why a frame could not be built.
#[derive(Debug, PartialEq, Eq, Structural)]
pub enum FrameError {
    /// The payload is longer than the 16-bit length field can describe.
    PayloadTooLarge,
}

/// The bytes that the checksum covers: class, id, little-endian length, payload.
pub open spec fn frame_body(class: u8, id: u8, payload: Seq<u8>) -> Seq<u8> {
    seq![class, id, (payload.len() % 256) as u8, (payload.len() / 256) as u8] + payload
}

/// The complete frame for a message.
pub open spec fn frame_bytes(class: u8, id: u8, payload: Seq<u8>) -> Seq<u8> {
    let body = frame_body(class, id, payload);
    seq![SYNC_1, SYNC_2] + body + seq![ck_a(body), ck_b(body)]
}

/// The payload length that a buffer's header declares.
pub open spec fn declared_len(data: Seq<u8>) -> int {
    data[4] + 256 * data[5]
}

/// What a buffer decodes to: the message of the frame at its start, or nothing
/// when the buffer is too short, the sync bytes differ, the declared payload
/// does not fit, or the checksum does not match.
pub open spec fn decode_spec(data: Seq<u8>) -> Option<(u8, u8, Seq<u8>)> {
    if data.len() < 8 || data[0] != SYNC_1 || data[1] != SYNC_2 {
        None
    } else {
        let n = declared_len(data);
        if data.len() < 8 + n {
            None
        } else {
            let body = data.subrange(2, 6 + n);
            if data[6 + n] == ck_a(body) && data[7 + n] == ck_b(body) {
                Some((data[2], data[3], data.subrange(6, 6 + n)))
            } else {
                None
            }
        }
    }
}

/// Builds the frame for `class`, `id` and `payload`; refuses a payload whose
/// length does not fit in 16 bits.
pub fn encode_ubx_frame(class: u8, id: u8, payload: &[u8]) -> (r: Result<Vec<u8>, FrameError>)
    ensures
        payload@.len() > MAX_PAYLOAD <==> r == Err::<Vec<u8>, FrameError>(FrameError::PayloadTooLarge),
        r matches Ok(v) ==> v@ == frame_bytes(class, id, payload@),
{
    if payload.len() > MAX_PAYLOAD {
        return Err(FrameError::PayloadTooLarge);
    }
    let n: usize = payload.len();
    let mut body: Vec<u8> = Vec::new();
    body.push(class);
    body.push(id);
    body.push((n % 256) as u8);
    body.push((n / 256) as u8);
    let mut i: usize = 0;
    while i < n
        invariant
            n == payload@.len(),
            i <= n,
            body@ == seq![class, id, (n % 256) as u8, (n / 256) as u8] + payload@.subrange(0, i as int),
        decreases n - i,
    {
        body.push(payload[i]);
        i = i + 1;
        assert(body@ =~= seq![class, id, (n % 256) as u8, (n / 256) as u8] + payload@.subrange(0, i as int));
    }
    assert(payload@.subrange(0, n as int) =~= payload@);
    let (a, b) = ubx_checksum(body.as_slice());
    let mut frame: Vec<u8> = Vec::new();
    frame.push(SYNC_1);
    frame.push(SYNC_2);
    let mut j: usize = 0;
    while j < body.len()
        invariant
            j <= body@.len(),
            frame@ == seq![SYNC_1, SYNC_2] + body@.subrange(0, j as int),
        decreases body@.len() - j,
    {
        frame.push(body[j]);
        j = j + 1;
        assert(frame@ =~= seq![SYNC_1, SYNC_2] + body@.subrange(0, j as int));
    }
    assert(body@.subrange(0, body@.len() as int) =~= body@);
    frame.push(a);
    frame.push(b);
    assert(frame@ =~= frame_bytes(class, id, payload@));
    Ok(frame)
}

/// Decodes the frame at the start of `data`; any bytes after it are ignored.
pub fn parse_ubx_message(data: &[u8]) -> (r: Option<UbxMessage>)
    ensures
        decode_spec(data@) == (match r {
            Some(m) => Some(m@),
            None => None::<(u8, u8, Seq<u8>)>,
        }),
{
    if data.len() < 8 || data[0] != SYNC_1 || data[1] != SYNC_2 {
        return None;
    }
    let class = data[2];
    let id = data[3];
    let len: usize = data[4] as usize + (data[5] as usize) * 256;
    if data.len() < 8 + len {
        return None;
    }
    let (calc_a, calc_b) = ubx_checksum(slice_subrange(data, 2, 6 + len));
    if data[6 + len] == calc_a && data[7 + len] == calc_b {
        let payload = slice_to_vec(slice_subrange(data, 6, 6 + len));
        Some(UbxMessage { class, id, payload })
    } else {
        None
    }
}

/// Decoding the frame built for any class, id and payload of at most 65535
/// bytes gives back that class, id and payload.
pub proof fn lemma_round_trip(class: u8, id: u8, payload: Seq<u8>)
    requires
        payload.len() <= MAX_PAYLOAD,
    ensures
        decode_spec(frame_bytes(class, id, payload)) == Some((class, id, payload)),
{
    let n = payload.len() as int;
    let body = frame_body(class, id, payload);
    let f = frame_bytes(class, id, payload);
    assert(declared_len(f) == n);
    assert(f.subrange(2, 6 + n) =~= body);
    assert(f.subrange(6, 6 + n) =~= payload);
}

/// A buffer shorter than the eight bytes of an empty frame decodes to nothing.
pub proof fn lemma_short_buffer(data: Seq<u8>)
    requires
        data.len() < 8,
    ensures
        decode_spec(data) is None,
{
}

/// A buffer whose header declares more payload than the buffer still holds
/// decodes to nothing.
pub proof fn lemma_declared_len_too_large(data: Seq<u8>)
    requires
        data.len() >= 6,
        declared_len(data) + 8 > data.len(),
    ensures
        decode_spec(data) is None,
{
}

/// Replacing one byte by another moves the byte sum by their difference.
proof fn lemma_byte_sum_update(s: Seq<u8>, j: int, x: u8)
    requires
        0 <= j < s.len(),
    ensures
        byte_sum(s.update(j, x)) == byte_sum(s) - s[j] + x,
{
    let pre = s.subrange(0, j);
    let post = s.subrange(j + 1, s.len() as int);
    assert(s =~= pre + seq![s[j]] + post);
    assert(s.update(j, x) =~= pre + seq![x] + post);
    lemma_byte_sum_concat(pre + seq![s[j]], post);
    lemma_byte_sum_concat(pre, seq![s[j]]);
    lemma_byte_sum_concat(pre + seq![x], post);
    lemma_byte_sum_concat(pre, seq![x]);
    assert(seq![s[j]].drop_last() =~= Seq::<u8>::empty());
    assert(seq![x].drop_last() =~= Seq::<u8>::empty());
}

/// A valid frame with one payload byte changed decodes to nothing: accumulator
/// `a` always notices a single changed byte.
pub proof fn lemma_corrupted_payload(class: u8, id: u8, payload: Seq<u8>, k: int, x: u8)
    requires
        payload.len() <= MAX_PAYLOAD,
        0 <= k < payload.len(),
        x != payload[k],
    ensures
        decode_spec(frame_bytes(class, id, payload).update(6 + k, x)) is None,
{
    let n = payload.len() as int;
    let body = frame_body(class, id, payload);
    let f = frame_bytes(class, id, payload);
    let c = f.update(6 + k, x);
    assert(declared_len(c) == n);
    assert(c.subrange(2, 6 + n) =~= body.update(4 + k, x));
    lemma_byte_sum_update(body, 4 + k, x);
    lemma_ck_a_is_sum(body);
    lemma_ck_a_is_sum(body.update(4 + k, x));
    assert(c[6 + n] == ck_a(body));
    assert(ck_a(body.update(4 + k, x)) != ck_a(body));
}

} // verus!
