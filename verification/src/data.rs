//! The fixed test payload and its byte encoding.
//!
//! A case writes a 12-byte record of three 32-bit unsigned integers into the
//! exported memory and compares it with what the imported view reads back.
//! The record travels as an explicit little-endian encoding, padded with
//! zeroes up to the device's alignment.

use vstd::prelude::*;

verus! {

/// Number of payload bytes: three little-endian 32-bit fields.
pub const PAYLOAD_LEN: u64 = 12;

/// The round-trip fingerprint: three 32-bit unsigned integers.
#[derive(Clone, Copy, Debug, PartialEq, Eq, Structural)]
pub struct DataTest {
    pub data: u32,
    pub data2: u32,
    pub data3: u32,
}

impl Default for DataTest {
    /// The all-zero payload.
    fn default() -> (d: DataTest)
        ensures
            d == (DataTest { data: 0, data2: 0, data3: 0 }),
    {
        DataTest { data: 0, data2: 0, data3: 0 }
    }
}

/// The four little-endian bytes of a 32-bit value.
pub open spec fn u32_le_bytes(x: u32) -> Seq<u8> {
    seq![
        (x & 0xff) as u8,
        ((x >> 8) & 0xff) as u8,
        ((x >> 16) & 0xff) as u8,
        ((x >> 24) & 0xff) as u8,
    ]
}

/// The 32-bit value read from four little-endian bytes.
pub open spec fn u32_from_le_bytes(b0: u8, b1: u8, b2: u8, b3: u8) -> u32 {
    (b0 as u32) | ((b1 as u32) << 8) | ((b2 as u32) << 16) | ((b3 as u32) << 24)
}

/// The 12-byte wire form of a payload.
pub open spec fn payload_bytes(d: DataTest) -> Seq<u8> {
    u32_le_bytes(d.data) + u32_le_bytes(d.data2) + u32_le_bytes(d.data3)
}

/// The wire form padded with zeroes up to `len` bytes.
pub open spec fn padded_payload_bytes(d: DataTest, len: int) -> Seq<u8>
    recommends
        len >= PAYLOAD_LEN,
{
    payload_bytes(d) + Seq::new((len - PAYLOAD_LEN) as nat, |i: int| 0u8)
}

/// The payload read from a byte sequence, if it holds at least 12 bytes.
pub open spec fn decoded_payload(s: Seq<u8>) -> Option<DataTest> {
    if s.len() >= PAYLOAD_LEN {
        Some(DataTest {
            data: u32_from_le_bytes(s[0], s[1], s[2], s[3]),
            data2: u32_from_le_bytes(s[4], s[5], s[6], s[7]),
            data3: u32_from_le_bytes(s[8], s[9], s[10], s[11]),
        })
    } else {
        None
    }
}

/// Reading four little-endian bytes gives back the encoded value.
pub proof fn lemma_u32_le_round_trip(x: u32)
    ensures
        u32_from_le_bytes(
            (x & 0xff) as u8,
            ((x >> 8) & 0xff) as u8,
            ((x >> 16) & 0xff) as u8,
            ((x >> 24) & 0xff) as u8,
        ) == x,
{
    assert(((x & 0xff) as u8 as u32) | ((((x >> 8) & 0xff) as u8 as u32) << 8)
        | ((((x >> 16) & 0xff) as u8 as u32) << 16) | ((((x >> 24) & 0xff) as u8 as u32) << 24)
        == x) by (bit_vector);
}

/// Decoding the wire form of a payload gives back the payload.
pub proof fn lemma_payload_round_trip(d: DataTest)
    ensures
        decoded_payload(payload_bytes(d)) == Some(d),
{
    lemma_u32_le_round_trip(d.data);
    lemma_u32_le_round_trip(d.data2);
    lemma_u32_le_round_trip(d.data3);
}

/// Padding does not disturb the payload: however far the wire form is padded,
/// decoding gives back the payload.
pub proof fn lemma_padded_payload_round_trip(d: DataTest, len: int)
    requires
        len >= PAYLOAD_LEN,
    ensures
        padded_payload_bytes(d, len).len() == len,
        decoded_payload(padded_payload_bytes(d, len)) == Some(d),
{
    lemma_payload_round_trip(d);
    assert forall|i: int| 0 <= i < PAYLOAD_LEN implies padded_payload_bytes(d, len)[i]
        == payload_bytes(d)[i] by {}
}

/// A length rounded up to the next multiple of `align`.
pub open spec fn pad_size_spec(len: u64, align: u64) -> int
    recommends
        align >= 1,
{
    ((len + align - 1) / (align as int)) * align
}

/// Rounds `len` up to the next multiple of the device's alignment.
pub fn pad_size(len: u64, align: u64) -> (r: u64)
    requires
        1 <= align,
        len + align - 1 <= u64::MAX,
    ensures
        r == pad_size_spec(len, align),
        len <= r < len + align,
        r % align == 0,
{
    let x: u64 = len + (align - 1);
    let q: u64 = x / align;
    proof {
        vstd::arithmetic::div_mod::lemma_fundamental_div_mod(x as int, align as int);
        vstd::arithmetic::div_mod::lemma_mod_bound(x as int, align as int);
        vstd::arithmetic::div_mod::lemma_mod_multiples_basic(q as int, align as int);
        assert((align as int) * (q as int) == (q as int) * (align as int)) by (nonlinear_arith);
        assert(q * align == x - (x as int) % (align as int));
    }
    q * align
}

/// Encodes a payload as 12 little-endian bytes.
pub fn encode_payload(d: &DataTest) -> (out: Vec<u8>)
    ensures
        out@ == payload_bytes(*d),
{
    let mut out: Vec<u8> = Vec::new();
    push_u32_le(&mut out, d.data);
    push_u32_le(&mut out, d.data2);
    push_u32_le(&mut out, d.data3);
    assert(out@ =~= payload_bytes(*d));
    out
}

/// Encodes a payload and pads it with zeroes up to `len` bytes.
pub fn encode_padded_payload(d: &DataTest, len: usize) -> (out: Vec<u8>)
    requires
        len >= PAYLOAD_LEN,
    ensures
        out@ == padded_payload_bytes(*d, len as int),
{
    let mut out: Vec<u8> = encode_payload(d);
    while out.len() < len
        invariant
            PAYLOAD_LEN <= out@.len() <= len,
            out@.subrange(0, PAYLOAD_LEN as int) == payload_bytes(*d),
            forall|i: int| PAYLOAD_LEN <= i < out@.len() ==> out@[i] == 0u8,
        decreases len - out@.len(),
    {
        out.push(0u8);
        assert(out@.subrange(0, PAYLOAD_LEN as int) =~= payload_bytes(*d));
    }
    assert(out@ =~= padded_payload_bytes(*d, len as int));
    out
}

/// Decodes the payload from the first 12 bytes read back, if present.
pub fn decode_payload(bytes: &Vec<u8>) -> (r: Option<DataTest>)
    ensures
        r == decoded_payload(bytes@),
{
    if bytes.len() < 12 {
        None
    } else {
        let data: u32 = (bytes[0] as u32) | ((bytes[1] as u32) << 8) | ((bytes[2] as u32) << 16)
            | ((bytes[3] as u32) << 24);
        let data2: u32 = (bytes[4] as u32) | ((bytes[5] as u32) << 8) | ((bytes[6] as u32) << 16)
            | ((bytes[7] as u32) << 24);
        let data3: u32 = (bytes[8] as u32) | ((bytes[9] as u32) << 8) | ((bytes[10] as u32) << 16)
            | ((bytes[11] as u32) << 24);
        Some(DataTest { data, data2, data3 })
    }
}

/// Appends the four little-endian bytes of `x`.
fn push_u32_le(out: &mut Vec<u8>, x: u32)
    ensures
        final(out)@ == old(out)@ + u32_le_bytes(x),
{
    out.push((x & 0xff) as u8);
    out.push(((x >> 8) & 0xff) as u8);
    out.push(((x >> 16) & 0xff) as u8);
    out.push(((x >> 24) & 0xff) as u8);
    assert(out@ =~= old(out)@ + u32_le_bytes(x));
}

} // verus!
