//! Canonical byte serialization of trade intents.
//!
//! The attestation digest is taken over exactly these bytes, so one
//! signature authorizes the whole intent atomically. Integers are little
//! endian, the market flag is one byte, identifiers are their raw 32 bytes.

use vstd::prelude::*;

use crate::order::types::OrderPayload;

verus! {

/// Little-endian bytes of a 64-bit value.
pub open spec fn spec_u64_le(x: u64) -> Seq<u8> {
    seq![
        (x & 0xff) as u8,
        ((x >> 8) & 0xff) as u8,
        ((x >> 16) & 0xff) as u8,
        ((x >> 24) & 0xff) as u8,
        ((x >> 32) & 0xff) as u8,
        ((x >> 40) & 0xff) as u8,
        ((x >> 48) & 0xff) as u8,
        ((x >> 56) & 0xff) as u8,
    ]
}

/// Two's-complement bit pattern of a signed 64-bit value.
pub open spec fn spec_i64_bits(x: i64) -> u64 {
    if x >= 0 {
        x as u64
    } else {
        (x + 0x10000000000000000) as u64
    }
}

/// Little-endian bytes of a signed 64-bit value, two's complement.
pub open spec fn spec_i64_le(x: i64) -> Seq<u8> {
    spec_u64_le(spec_i64_bits(x))
}

/// The serialized trade intent: each field in declaration order.
pub open spec fn spec_serialize_payload(p: OrderPayload) -> Seq<u8> {
    spec_u64_le(p.id) + seq![if p.market { 1u8 } else { 0u8 }] + p.ticker_mint@ + spec_u64_le(
        p.amount,
    ) + p.payment_mint@ + spec_u64_le(p.price) + spec_u64_le(p.fee) + spec_i64_le(p.expires_at)
}

/// Appends the little-endian bytes of `x`.
pub fn push_u64_le(out: &mut Vec<u8>, x: u64)
    ensures
        final(out)@ == old(out)@ + spec_u64_le(x),
{
    out.push((x & 0xff) as u8);
    out.push(((x >> 8) & 0xff) as u8);
    out.push(((x >> 16) & 0xff) as u8);
    out.push(((x >> 24) & 0xff) as u8);
    out.push(((x >> 32) & 0xff) as u8);
    out.push(((x >> 40) & 0xff) as u8);
    out.push(((x >> 48) & 0xff) as u8);
    out.push(((x >> 56) & 0xff) as u8);
    assert(out@ =~= old(out)@ + spec_u64_le(x));
}

/// Appends the little-endian two's-complement bytes of `x`.
pub fn push_i64_le(out: &mut Vec<u8>, x: i64)
    ensures
        final(out)@ == old(out)@ + spec_i64_le(x),
{
    let bits: u64 = if x >= 0 {
        x as u64
    } else {
        let wide: i128 = (x as i128) + 0x10000000000000000i128;
        wide as u64
    };
    assert(bits == spec_i64_bits(x));
    push_u64_le(out, bits);
}

/// Appends the raw bytes of a 32-byte identifier.
pub fn push_bytes32(out: &mut Vec<u8>, b: &[u8; 32])
    ensures
        final(out)@ == old(out)@ + b@,
{
    let mut i: usize = 0;
    while i < 32
        invariant
            0 <= i <= 32,
            out@ == old(out)@ + b@.take(i as int),
        decreases 32 - i,
    {
        out.push(b[i]);
        assert(out@ =~= old(out)@ + b@.take(i as int + 1));
        i += 1;
    }
    assert(out@ =~= old(out)@ + b@);
}

/// Serializes a trade intent into the exact bytes the attestation digest
/// covers.
pub fn serialize_payload(p: &OrderPayload) -> (r: Vec<u8>)
    ensures
        r@ == spec_serialize_payload(*p),
{
    let mut out: Vec<u8> = Vec::new();
    push_u64_le(&mut out, p.id);
    out.push(if p.market {
        1u8
    } else {
        0u8
    });
    push_bytes32(&mut out, &p.ticker_mint);
    push_u64_le(&mut out, p.amount);
    push_bytes32(&mut out, &p.payment_mint);
    push_u64_le(&mut out, p.price);
    push_u64_le(&mut out, p.fee);
    push_i64_le(&mut out, p.expires_at);
    assert(out@ =~= spec_serialize_payload(*p));
    out
}

/// Reads a 16-bit little-endian value out of two bytes.
pub open spec fn spec_u16_of_le(lo: u8, hi: u8) -> int {
    lo + hi * 256
}

/// Combines two bytes little endian.
pub fn u16_of_le(lo: u8, hi: u8) -> (r: u16)
    ensures
        r == spec_u16_of_le(lo, hi),
{
    (lo as u16) + (hi as u16) * 256
}

} // verus!
