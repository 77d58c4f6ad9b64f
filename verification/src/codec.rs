//! Binary wire codec of the minimal protocol.
//!
//! A control record is exactly three little-endian 32-bit integers (12
//! bytes). An error record is the same 12-byte header with `arg` fixed to
//! the sentinel `-1`, followed by the raw error-code bytes, the raw
//! error-message bytes, and 0 to 3 ASCII-space bytes of padding so that the
//! total length is a multiple of 4.

use vstd::prelude::*;
use vstd::bytes::*;

verus! {

/// Minimal-protocol envelope: a synchronous call when `promise_id == 0`,
/// otherwise `promise_id` correlates an asynchronous response to a pending
/// guest-side continuation.
#[derive(Copy, Clone, Debug, PartialEq, Eq, Structural)]
pub struct Record {
    pub promise_id: i32,
    pub arg: i32,
    pub result: i32,
}

/// Minimal-protocol failure envelope. `arg` carries the sentinel `-1` on the
/// wire; `error_len` is the byte length of `error_code`.
pub struct ErrorRecord {
    pub promise_id: i32,
    pub arg: i32,
    pub error_len: i32,
    pub error_code: Vec<u8>,
    pub error_message: Vec<u8>,
}

/// The unsigned two's-complement image of a 32-bit signed value.
pub open spec fn u32_of_i32(x: i32) -> u32 {
    if x >= 0 {
        x as u32
    } else {
        (x + 0x1_0000_0000) as u32
    }
}

/// The 32-bit signed value whose two's-complement image is `u`.
pub open spec fn i32_of_u32(u: u32) -> i32 {
    if u < 0x8000_0000 {
        u as i32
    } else {
        (u - 0x1_0000_0000) as i32
    }
}

pub proof fn lemma_i32_u32_round_trip(x: i32)
    ensures
        i32_of_u32(u32_of_i32(x)) == x,
{
}

/// The 4-byte little-endian encoding of a signed 32-bit value.
pub open spec fn spec_i32_to_le_bytes(x: i32) -> Seq<u8> {
    spec_u32_to_le_bytes(u32_of_i32(x))
}

/// The signed 32-bit value read little-endian from 4 bytes.
pub open spec fn spec_i32_from_le_bytes(s: Seq<u8>) -> i32
    recommends
        s.len() == 4,
{
    i32_of_u32(spec_u32_from_le_bytes(s))
}

fn encode_i32_le(x: i32) -> (r: Vec<u8>)
    ensures
        r@ == spec_i32_to_le_bytes(x),
        r@.len() == 4,
{
    let u: u32 = if x >= 0 {
        x as u32
    } else {
        (((x as i64) + 0x1_0000_0000i64) as u32)
    };
    assert(u == u32_of_i32(x));
    proof {
        lemma_auto_spec_u32_to_from_le_bytes();
    }
    u32_to_le_bytes(u)
}

fn decode_i32_le(bytes: &[u8]) -> (x: i32)
    requires
        bytes@.len() == 4,
    ensures
        x == spec_i32_from_le_bytes(bytes@),
{
    let u = u32_from_le_bytes(bytes);
    if u < 0x8000_0000 {
        u as i32
    } else {
        (((u as i64) - 0x1_0000_0000i64) as i32)
    }
}

/// The 12-byte wire form of a control record.
pub open spec fn spec_encode_record(r: Record) -> Seq<u8> {
    spec_i32_to_le_bytes(r.promise_id) + spec_i32_to_le_bytes(r.arg) + spec_i32_to_le_bytes(
        r.result,
    )
}

/// The control record read from `bytes`, defined only when `bytes` is
/// exactly three little-endian 32-bit integers.
pub open spec fn spec_decode_record(bytes: Seq<u8>) -> Option<Record> {
    if bytes.len() == 12 {
        Some(
            Record {
                promise_id: spec_i32_from_le_bytes(bytes.subrange(0, 4)),
                arg: spec_i32_from_le_bytes(bytes.subrange(4, 8)),
                result: spec_i32_from_le_bytes(bytes.subrange(8, 12)),
            },
        )
    } else {
        None
    }
}

impl Record {
    /// Encodes the record as exactly 12 little-endian bytes.
    pub fn encode(self) -> (r: Vec<u8>)
        ensures
            r@ == spec_encode_record(self),
            r@.len() == 12,
    {
        let mut v = encode_i32_le(self.promise_id);
        let mut a = encode_i32_le(self.arg);
        let mut b = encode_i32_le(self.result);
        v.append(&mut a);
        v.append(&mut b);
        v
    }
}

/// Decodes a control record. Succeeds exactly when `bytes` is 12 bytes long
/// (a positive multiple of 4 holding exactly three 32-bit values); any other
/// shape yields `None`, never a fault.
pub fn parse_min_record(bytes: &[u8]) -> (r: Option<Record>)
    ensures
        r == spec_decode_record(bytes@),
        r is Some <==> bytes@.len() == 12,
{
    if bytes.len() % 4 != 0 {
        return None;
    }
    if bytes.len() / 4 != 3 {
        return None;
    }
    assert(bytes@.len() == 12);
    let promise_id = decode_i32_le(&bytes[0..4]);
    let arg = decode_i32_le(&bytes[4..8]);
    let result = decode_i32_le(&bytes[8..12]);
    Some(Record { promise_id, arg, result })
}

/// The unpadded wire bytes of an error record: 12-byte header, then the raw
/// code bytes, then the raw message bytes.
pub open spec fn spec_error_body(
    promise_id: i32,
    arg: i32,
    error_len: i32,
    code: Seq<u8>,
    message: Seq<u8>,
) -> Seq<u8> {
    spec_i32_to_le_bytes(promise_id) + spec_i32_to_le_bytes(arg) + spec_i32_to_le_bytes(error_len)
        + code + message
}

/// How many fill bytes pad `n` bytes to the next 4-byte boundary.
pub open spec fn spec_pad_len(n: int) -> int {
    (4 - n % 4) % 4
}

/// The full wire form of an error record: the body padded with ASCII spaces
/// to a multiple of 4 bytes. Error payloads are never truncated, only padded.
pub open spec fn spec_error_bytes(
    promise_id: i32,
    arg: i32,
    error_len: i32,
    code: Seq<u8>,
    message: Seq<u8>,
) -> Seq<u8> {
    let body = spec_error_body(promise_id, arg, error_len, code, message);
    body + Seq::new(spec_pad_len(body.len() as int) as nat, |i: int| 32u8)
}

pub open spec fn spec_encode_error(e: ErrorRecord) -> Seq<u8> {
    spec_error_bytes(e.promise_id, e.arg, e.error_len, e.error_code@, e.error_message@)
}

impl ErrorRecord {
    /// Encodes the error record: 12-byte little-endian header, raw code
    /// bytes, raw message bytes, then 0 to 3 space bytes so the total length
    /// is a multiple of 4.
    pub fn encode(self) -> (r: Vec<u8>)
        ensures
            r@ == spec_encode_error(self),
            r@.len() % 4 == 0,
    {
        let ghost g = self;
        let mut v = encode_i32_le(self.promise_id);
        let mut a = encode_i32_le(self.arg);
        let mut l = encode_i32_le(self.error_len);
        let mut code = self.error_code;
        let mut message = self.error_message;
        v.append(&mut a);
        v.append(&mut l);
        v.append(&mut code);
        v.append(&mut message);
        let ghost body = spec_error_body(g.promise_id, g.arg, g.error_len, g.error_code@,
            g.error_message@);
        assert(v@ == body);
        let pad: usize = (4 - (v.len() % 4)) % 4;
        assert(pad == spec_pad_len(body.len() as int));
        let mut i: usize = 0;
        while i < pad
            invariant
                i <= pad,
                pad == spec_pad_len(body.len() as int),
                pad <= 3,
                v@ == body + Seq::new(i as nat, |j: int| 32u8),
            decreases pad - i,
        {
            v.push(32u8);
            i = i + 1;
            proof {
                assert(v@ =~= body + Seq::new(i as nat, |j: int| 32u8));
            }
        }
        proof {
            assert(v@ =~= spec_encode_error(g));
            assert(v@.len() % 4 == 0);
        }
        v
    }
}

/// Every valid control record decodes back from its own encoding.
pub proof fn lemma_record_round_trip(r: Record)
    ensures
        spec_decode_record(spec_encode_record(r)) == Some(r),
{
    lemma_auto_spec_u32_to_from_le_bytes();
    let e = spec_encode_record(r);
    assert(e.subrange(0, 4) =~= spec_i32_to_le_bytes(r.promise_id));
    assert(e.subrange(4, 8) =~= spec_i32_to_le_bytes(r.arg));
    assert(e.subrange(8, 12) =~= spec_i32_to_le_bytes(r.result));
    lemma_i32_u32_round_trip(r.promise_id);
    lemma_i32_u32_round_trip(r.arg);
    lemma_i32_u32_round_trip(r.result);
}

} // verus!
