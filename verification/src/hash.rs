//! FNV-1a hashes over byte strings, as used by the game's RTTI to identify
//! names (64-bit) and by other identifiers (32-bit).
use vstd::prelude::*;
use vstd::string::StringSliceAdditionalSpecFns;

verus! {

/// The 64-bit FNV-1a offset basis.
pub const FNV64_SEED: u64 = 0xCBF2_9CE4_8422_2325u64;

/// The 64-bit FNV-1a prime.
pub const FNV64_PRIME: u64 = 0x0100_0000_01b3u64;

/// The 32-bit FNV-1a offset basis.
pub const FNV32_SEED: u32 = 0x811C_9DC5u32;

/// The 32-bit FNV-1a prime.
pub const FNV32_PRIME: u32 = 0x0100_0193u32;

/// One FNV-1a step: xor in the byte, then multiply by the prime modulo 2^64.
pub open spec fn fnv64_step(hash: u64, byte: u8) -> u64 {
    ((((hash ^ (byte as u64)) as nat) * (FNV64_PRIME as nat)) % 0x1_0000_0000_0000_0000nat) as u64
}

/// One 32-bit FNV-1a step.
pub open spec fn fnv32_step(hash: u32, byte: u8) -> u32 {
    ((((hash ^ (byte as u32)) as nat) * (FNV32_PRIME as nat)) % 0x1_0000_0000nat) as u32
}

/// The 64-bit FNV-1a hash of `bytes`, continuing from `seed`.
pub open spec fn fnv1a64_from(seed: u64, bytes: Seq<u8>) -> u64
    decreases bytes.len(),
{
    if bytes.len() == 0 {
        seed
    } else {
        fnv64_step(fnv1a64_from(seed, bytes.drop_last()), bytes.last())
    }
}

/// The 32-bit FNV-1a hash of `bytes`, continuing from `seed`.
pub open spec fn fnv1a32_from(seed: u32, bytes: Seq<u8>) -> u32
    decreases bytes.len(),
{
    if bytes.len() == 0 {
        seed
    } else {
        fnv32_step(fnv1a32_from(seed, bytes.drop_last()), bytes.last())
    }
}

/// The 64-bit FNV-1a hash of a byte string.
pub open spec fn spec_fnv1a64(bytes: Seq<u8>) -> u64 {
    fnv1a64_from(FNV64_SEED, bytes)
}

/// The 32-bit FNV-1a hash of a byte string.
pub open spec fn spec_fnv1a32(bytes: Seq<u8>) -> u32 {
    fnv1a32_from(FNV32_SEED, bytes)
}

/// Hashes a byte string with 64-bit FNV-1a.
pub fn fnv1a64_bytes(bytes: &[u8]) -> (hash: u64)
    ensures
        hash == spec_fnv1a64(bytes@),
{
    let mut hash: u64 = FNV64_SEED;
    let mut i: usize = 0;
    while i < bytes.len()
        invariant
            i <= bytes@.len(),
            hash == fnv1a64_from(FNV64_SEED, bytes@.take(i as int)),
        decreases bytes@.len() - i,
    {
        let head = bytes[i];
        hash = hash ^ (head as u64);
        hash = hash.wrapping_mul(FNV64_PRIME);
        assert(bytes@.take(i + 1).drop_last() =~= bytes@.take(i as int));
        i = i + 1;
    }
    assert(bytes@.take(i as int) =~= bytes@);
    hash
}

/// Hashes a byte string with 32-bit FNV-1a.
pub fn fnv1a32_bytes(bytes: &[u8]) -> (hash: u32)
    ensures
        hash == spec_fnv1a32(bytes@),
{
    let mut hash: u32 = FNV32_SEED;
    let mut i: usize = 0;
    while i < bytes.len()
        invariant
            i <= bytes@.len(),
            hash == fnv1a32_from(FNV32_SEED, bytes@.take(i as int)),
        decreases bytes@.len() - i,
    {
        let head = bytes[i];
        hash = hash ^ (head as u32);
        hash = hash.wrapping_mul(FNV32_PRIME);
        assert(bytes@.take(i + 1).drop_last() =~= bytes@.take(i as int));
        i = i + 1;
    }
    assert(bytes@.take(i as int) =~= bytes@);
    hash
}

/// Hashes the UTF-8 bytes of a string with 64-bit FNV-1a.
pub fn fnv1a64(str: &str) -> (hash: u64)
    ensures
        hash == spec_fnv1a64(str.spec_bytes()),
{
    fnv1a64_bytes(str.as_bytes())
}

/// Hashes the UTF-8 bytes of a string with 32-bit FNV-1a.
pub fn fnv1a32(str: &str) -> (hash: u32)
    ensures
        hash == spec_fnv1a32(str.spec_bytes()),
{
    fnv1a32_bytes(str.as_bytes())
}

/// Hashing is incremental: hashing `a + b` is hashing `b` starting from the
/// hash of `a`.
pub proof fn lemma_fnv1a64_concat(seed: u64, a: Seq<u8>, b: Seq<u8>)
    ensures
        fnv1a64_from(seed, a + b) == fnv1a64_from(fnv1a64_from(seed, a), b),
    decreases b.len(),
{
    if b.len() == 0 {
        assert(a + b =~= a);
    } else {
        lemma_fnv1a64_concat(seed, a, b.drop_last());
        assert((a + b).drop_last() =~= a + b.drop_last());
        assert((a + b).last() == b.last());
    }
}

} // verus!
