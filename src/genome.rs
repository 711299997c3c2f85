//! Genome derivation: a 128-bit value drawn from a randomness seed, the
//! caller and the call index, and the bitwise mix used when breeding.

use vstd::prelude::*;
use parity_scale_codec::Encode;

verus! {

/// The little-endian bytes of a `u32`.
pub open spec fn le_bytes_u32(x: u32) -> Seq<u8> {
    seq![
        (x & 0xff) as u8,
        ((x >> 8u32) & 0xff) as u8,
        ((x >> 16u32) & 0xff) as u8,
        ((x >> 24u32) & 0xff) as u8,
    ]
}

/// The little-endian bytes of a `u64`.
pub open spec fn le_bytes_u64(x: u64) -> Seq<u8> {
    seq![
        (x & 0xff) as u8,
        ((x >> 8u64) & 0xff) as u8,
        ((x >> 16u64) & 0xff) as u8,
        ((x >> 24u64) & 0xff) as u8,
        ((x >> 32u64) & 0xff) as u8,
        ((x >> 40u64) & 0xff) as u8,
        ((x >> 48u64) & 0xff) as u8,
        ((x >> 56u64) & 0xff) as u8,
    ]
}

/// SCALE encoding of an optional call index: a tag byte, then the value.
pub open spec fn call_index_bytes(index: Option<u32>) -> Seq<u8> {
    match index {
        None => seq![0u8],
        Some(i) => seq![1u8] + le_bytes_u32(i),
    }
}

/// SCALE encoding of the tuple `(seed, account, call_index)` that is hashed
/// to draw a genome: the seed's bytes as they stand, then the account, then
/// the call index.
pub open spec fn genome_payload(seed: Seq<u8>, account: u64, index: Option<u32>) -> Seq<u8> {
    seed + le_bytes_u64(account) + call_index_bytes(index)
}

/// The BLAKE2b digest, 128 bits long, of a byte string.
pub uninterp spec fn blake2_128_of(data: Seq<u8>) -> Seq<u8>;

/// The genome drawn for `account` from `seed` at call `index`.
pub open spec fn random_genome(seed: Seq<u8>, account: u64, index: Option<u32>) -> Seq<u8> {
    blake2_128_of(genome_payload(seed, account, index))
}

/// The child genome: each bit comes from `a` where the selector's bit is set,
/// and from `b` where it is clear.
pub open spec fn mixed_genome(selector: Seq<u8>, a: Seq<u8>, b: Seq<u8>) -> Seq<u8> {
    Seq::new(16, |i: int| (selector[i] & a[i]) | (!selector[i] & b[i]))
}

/// Relies on `Encode::encode` of parity-scale-codec for a tuple of a byte
/// array, a `u64` and an `Option<u32>`: fields in order, the array without a
/// length prefix, integers little-endian, an option as a tag byte and its value.
#[verifier::external_body]
fn encode_payload(seed: &[u8; 32], account: u64, index: Option<u32>) -> (r: Vec<u8>)
    ensures
        r@ == genome_payload(seed@, account, index),
{
    (*seed, account, index).encode()
}

/// Relies on `sp_core_hashing::blake2_128`: the 16-byte BLAKE2b digest of
/// the data, a function of the data alone.
#[verifier::external_body]
fn blake2_128(data: &Vec<u8>) -> (r: [u8; 16])
    ensures
        r@ == blake2_128_of(data@),
{
    sp_core_hashing::blake2_128(data.as_slice())
}

/// Draws a genome for `account` from the host's randomness `seed` and the
/// index of the current call within its transaction.
pub fn random_value(seed: &[u8; 32], account: u64, index: Option<u32>) -> (r: [u8; 16])
    ensures
        r@ == random_genome(seed@, account, index),
{
    let payload = encode_payload(seed, account, index);
    blake2_128(&payload)
}

/// Combines two parent genomes bit by bit under `selector`.
pub fn mix_genomes(selector: &[u8; 16], a: &[u8; 16], b: &[u8; 16]) -> (r: [u8; 16])
    ensures
        r@ == mixed_genome(selector@, a@, b@),
{
    let mut out = [0u8; 16];
    let mut i: usize = 0;
    while i < 16
        invariant
            i <= 16,
            out@.len() == 16,
            forall|j: int| 0 <= j < i ==> out@[j] == (selector@[j] & a@[j]) | (!selector@[j] & b@[j]),
        decreases 16 - i,
    {
        out[i] = (selector[i] & a[i]) | (!selector[i] & b[i]);
        i = i + 1;
    }
    assert(out@ =~= mixed_genome(selector@, a@, b@));
    out
}

/// Every byte of a mixed genome takes each bit from one of its parents:
/// bits where the parents agree are kept, and no bit is set that neither
/// parent has.
pub proof fn mixed_bits_come_from_parents(selector: Seq<u8>, a: Seq<u8>, b: Seq<u8>, i: int)
    requires
        selector.len() == 16,
        a.len() == 16,
        b.len() == 16,
        0 <= i < 16,
    ensures
        mixed_genome(selector, a, b)[i] & !(a[i] | b[i]) == 0,
        (a[i] & b[i]) & !mixed_genome(selector, a, b)[i] == 0,
{
    let s = selector[i];
    let x = a[i];
    let y = b[i];
    assert(((s & x) | (!s & y)) & !(x | y) == 0) by (bit_vector);
    assert((x & y) & !((s & x) | (!s & y)) == 0) by (bit_vector);
}

} // verus!
