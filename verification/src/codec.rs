//! Big-endian encoding of the millisecond timestamps kept in the deny list.

use vstd::prelude::*;

verus! {

/// The eight big-endian bytes of `t` in two's complement.
pub open spec fn time_bytes(t: i64) -> Seq<u8> {
    seq![
        (t >> 56u64) as u8,
        (t >> 48u64) as u8,
        (t >> 40u64) as u8,
        (t >> 32u64) as u8,
        (t >> 24u64) as u8,
        (t >> 16u64) as u8,
        (t >> 8u64) as u8,
        t as u8,
    ]
}

/// The signed integer whose big-endian two's-complement bytes are the first
/// eight bytes of `b`.
pub open spec fn time_of_bytes(b: Seq<u8>) -> i64
    recommends
        b.len() >= 8,
{
    ((b[0] as i64) << 56u64) | ((b[1] as i64) << 48u64) | ((b[2] as i64) << 40u64) | ((
    b[3] as i64) << 32u64) | ((b[4] as i64) << 24u64) | ((b[5] as i64) << 16u64) | ((b[6] as i64)
        << 8u64) | (b[7] as i64)
}

/// Decoding the encoding of a timestamp gives the timestamp back.
pub proof fn lemma_time_bytes_roundtrip(t: i64)
    ensures
        time_bytes(t).len() == 8,
        time_of_bytes(time_bytes(t)) == t,
{
    let b = time_bytes(t);
    assert(b[0] == (t >> 56u64) as u8);
    assert(b[7] == t as u8);
    assert(((((t >> 56u64) as u8) as i64) << 56u64) | ((((t >> 48u64) as u8) as i64) << 48u64) | ((
    ((t >> 40u64) as u8) as i64) << 40u64) | ((((t >> 32u64) as u8) as i64) << 32u64) | ((((t
        >> 24u64) as u8) as i64) << 24u64) | ((((t >> 16u64) as u8) as i64) << 16u64) | ((((t
        >> 8u64) as u8) as i64) << 8u64) | ((t as u8) as i64) == t) by (bit_vector);
}

/// Encodes a timestamp as its eight big-endian bytes (as `i64::to_be_bytes`).
pub fn time_to_be_bytes(t: i64) -> (r: Vec<u8>)
    ensures
        r@ == time_bytes(t),
{
    let r = vec![
        (t >> 56u64) as u8,
        (t >> 48u64) as u8,
        (t >> 40u64) as u8,
        (t >> 32u64) as u8,
        (t >> 24u64) as u8,
        (t >> 16u64) as u8,
        (t >> 8u64) as u8,
        t as u8,
    ];
    assert(r@ =~= time_bytes(t));
    r
}

} // verus!
