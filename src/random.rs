use vstd::prelude::*;

use crate::types::AccountId;

verus! {

/// The 16-byte BLAKE2b digest of `data`.
pub uninterp spec fn blake2_128_of(data: Seq<u8>) -> Seq<u8>;

/// Relies on sp_io::hashing::blake2_128: the 128-bit BLAKE2b digest of
/// `data`, which depends on those bytes alone.
#[verifier::external_body]
fn blake2_128(data: &[u8]) -> (r: [u8; 16])
    ensures
        r@ == blake2_128_of(data@),
{
    sp_io::hashing::blake2_128(data)
}

/// The `n` low bytes of `x`, least significant first.
pub open spec fn le_bytes(x: nat, n: nat) -> Seq<u8>
    decreases n,
{
    if n == 0 {
        Seq::empty()
    } else {
        seq![(x % 256) as u8] + le_bytes(x / 256, (n - 1) as nat)
    }
}

/// The bytes hashed into a random value: the seed as it stands, the account
/// as 8 little-endian bytes, then the extrinsic index as an optional value
/// (a 0 byte for none; a 1 byte and 4 little-endian bytes for some).
pub open spec fn spec_payload(seed: Seq<u8>, who: AccountId, extrinsic_index: Option<u32>) -> Seq<u8> {
    seed + le_bytes(who as nat, 8) + match extrinsic_index {
        None => seq![0u8],
        Some(i) => seq![1u8] + le_bytes(i as nat, 4),
    }
}

/// Appends the `n` low bytes of `x`, least significant first.
fn push_le_bytes(out: &mut Vec<u8>, x: u64, n: usize)
    requires
        n <= 8,
    ensures
        final(out)@ == old(out)@ + le_bytes(x as nat, n as nat),
{
    let mut v: u64 = x;
    let mut i: usize = 0;
    while i < n
        invariant
            i <= n,
            out@ + le_bytes(v as nat, (n - i) as nat) == old(out)@ + le_bytes(x as nat, n as nat),
        decreases n - i,
    {
        let ghost pre = out@;
        let ghost rest = le_bytes((v / 256) as nat, (n - i - 1) as nat);
        out.push((v % 256) as u8);
        proof {
            assert(out@ + rest =~= pre + le_bytes(v as nat, (n - i) as nat));
        }
        v = v / 256;
        i = i + 1;
    }
}

/// The bytes that `random_value` hashes.
pub fn payload(seed: &[u8; 32], who: AccountId, extrinsic_index: Option<u32>) -> (r: Vec<u8>)
    ensures
        r@ == spec_payload(seed@, who, extrinsic_index),
{
    let mut out: Vec<u8> = Vec::new();
    let mut i: usize = 0;
    while i < 32
        invariant
            i <= 32,
            out@ == seed@.subrange(0, i as int),
        decreases 32 - i,
    {
        out.push(seed[i]);
        i = i + 1;
        assert(out@ =~= seed@.subrange(0, i as int));
    }
    assert(seed@.subrange(0, 32) =~= seed@);
    push_le_bytes(&mut out, who, 8);
    match extrinsic_index {
        None => {
            out.push(0u8);
        },
        Some(idx) => {
            out.push(1u8);
            push_le_bytes(&mut out, idx as u64, 4);
        },
    }
    assert(out@ =~= spec_payload(seed@, who, extrinsic_index));
    out
}

/// A 16-byte value drawn for `who`: the digest of the runtime's random
/// seed, the account, and the index of the extrinsic in its block, so that
/// two calls under one seed still differ.
pub fn random_value(seed: &[u8; 32], who: AccountId, extrinsic_index: Option<u32>) -> (r: [u8; 16])
    ensures
        r@ == blake2_128_of(spec_payload(seed@, who, extrinsic_index)),
{
    let data = payload(seed, who, extrinsic_index);
    blake2_128(data.as_slice())
}

} // verus!
