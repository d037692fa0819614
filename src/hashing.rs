//! Hashing and encoding primitives shared by the contract records and the
//! identity derivations.

use parity_scale_codec::Encode;
use vstd::prelude::*;

verus! {

/// The 256-bit BLAKE2b digest of a byte string.
pub uninterp spec fn blake2_256_of(data: Seq<u8>) -> Seq<u8>;

/// The `n` low-order bytes of `v`, least significant first.
pub open spec fn le_bytes(v: nat, n: nat) -> Seq<u8>
    decreases n,
{
    if n == 0 {
        Seq::empty()
    } else {
        seq![(v % 256) as u8] + le_bytes(v / 256, (n - 1) as nat)
    }
}

/// The SCALE compact encoding of a collection length that fits in 32 bits.
pub open spec fn compact_len_prefix(n: nat) -> Seq<u8> {
    if n < 0x40 {
        seq![(n * 4) as u8]
    } else if n < 0x4000 {
        le_bytes(n * 4 + 1, 2)
    } else if n < 0x4000_0000 {
        le_bytes(n * 4 + 2, 4)
    } else {
        seq![3u8] + le_bytes(n, 4)
    }
}

/// The SCALE encoding of a byte string: its compact length, then the bytes.
pub open spec fn scale_bytes(b: Seq<u8>) -> Seq<u8> {
    compact_len_prefix(b.len()) + b
}

/// Relies on sp_crypto_hashing::blake2_256: a 32-byte digest that depends on
/// the input bytes alone.
#[verifier::external_body]
pub(crate) fn blake2_256(data: &[u8]) -> (r: Vec<u8>)
    ensures
        r@ == blake2_256_of(data@),
        r@.len() == 32,
{
    sp_crypto_hashing::blake2_256(data).to_vec()
}

/// Relies on parity_scale_codec's `Encode` for `[u8]`: the compact-encoded
/// length, then the bytes; it panics on a length above `u32::MAX`.
#[verifier::external_body]
pub(crate) fn scale_encode_bytes(b: &[u8]) -> (r: Vec<u8>)
    requires
        b@.len() <= u32::MAX,
    ensures
        r@ == scale_bytes(b@),
{
    b.encode()
}

/// Appends `src` to `buf`, byte by byte.
pub(crate) fn append_bytes(buf: &mut Vec<u8>, src: &[u8])
    ensures
        final(buf)@ == old(buf)@ + src@,
{
    let mut i: usize = 0;
    while i < src.len()
        invariant
            i <= src@.len(),
            buf@ == old(buf)@ + src@.subrange(0, i as int),
        decreases src@.len() - i,
    {
        buf.push(src[i]);
        i = i + 1;
        assert(src@.subrange(0, i as int) == src@.subrange(0, i - 1) + seq![src@[i - 1]]);
    }
    assert(src@.subrange(0, src@.len() as int) == src@);
}

/// The eight little-endian bytes of `v`.
pub fn u64_to_le_bytes(v: u64) -> (r: Vec<u8>)
    ensures
        r@ == le_bytes(v as nat, 8),
{
    let mut r: Vec<u8> = Vec::new();
    let mut x: u64 = v;
    let mut i: u64 = 0;
    while i < 8
        invariant
            i <= 8,
            r@ + le_bytes(x as nat, (8 - i) as nat) == le_bytes(v as nat, 8),
        decreases 8 - i,
    {
        let ghost before = r@;
        r.push((x % 256) as u8);
        assert(le_bytes(x as nat, (8 - i) as nat) == seq![(x as nat % 256) as u8] + le_bytes(
            x as nat / 256,
            (8 - i - 1) as nat,
        ));
        assert(r@ == before + seq![(x as nat % 256) as u8]);
        x = x / 256;
        i = i + 1;
    }
    assert(le_bytes(x as nat, 0) == Seq::<u8>::empty());
    r
}

/// Whether two byte strings are equal.
pub fn bytes_eq(a: &[u8], b: &[u8]) -> (r: bool)
    ensures
        r == (a@ == b@),
{
    if a.len() != b.len() {
        return false;
    }
    let mut i: usize = 0;
    while i < a.len()
        invariant
            a@.len() == b@.len(),
            i <= a@.len(),
            forall|j: int| 0 <= j < i ==> a@[j] == b@[j],
        decreases a@.len() - i,
    {
        if a[i] != b[i] {
            return false;
        }
        i = i + 1;
    }
    assert(a@ =~= b@);
    true
}

} // verus!
