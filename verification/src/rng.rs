//! Deterministic seed derivation and generator construction.
//!
//! Every random stream of the backend is a PCG32 generator. Its 32-bit seed
//! is either the spec's base seed or one derived from it with BLAKE3, so the
//! streams of different layers and components are independent yet fully
//! determined by the base seed.

use rand::SeedableRng;
use rand_pcg::Pcg32;
use vstd::bytes::{spec_u32_from_le_bytes, spec_u32_to_le_bytes, u32_from_le_bytes, u32_to_le_bytes};
use vstd::prelude::*;
use vstd::string::StringSliceAdditionalSpecFns;
use vstd::utf8::encode_utf8;

verus! {

/// The PCG32 generator of `rand_pcg` (`Lcg64Xsh32`): 64 bits of state and a
/// 64-bit stream increment, both private.
#[verifier::external_type_specification]
#[verifier::external_body]
pub struct ExLcg64Xsh32(rand_pcg::Lcg64Xsh32);

/// The generator that `Pcg32::seed_from_u64` builds from `seed`.
pub uninterp spec fn pcg32_seeded(seed: u64) -> Pcg32;

/// The 32-byte BLAKE3 digest of `input`.
pub uninterp spec fn blake3_digest(input: Seq<u8>) -> Seq<u8>;

/// Calls `SeedableRng::seed_from_u64` of `rand_pcg::Pcg32` (the default
/// method of rand_core 0.6, which expands the `u64` with a fixed PCG step
/// into a 16-byte seed and calls `from_seed`). The contract claims only that
/// the generator is determined by the seed: the same seed gives an equal
/// generator. Its internal state is not stated.
#[verifier::external_body]
fn pcg32_seed_from_u64(seed: u64) -> (rng: Pcg32)
    ensures
        rng == pcg32_seeded(seed),
{
    Pcg32::seed_from_u64(seed)
}

/// Calls `blake3::hash` and copies the bytes of the returned `Hash`. The
/// contract claims that the digest is determined by the input bytes and is
/// `blake3::OUT_LEN` (32) bytes long; the hash function itself is not stated.
#[verifier::external_body]
fn blake3_hash(input: &[u8]) -> (digest: Vec<u8>)
    ensures
        digest@ == blake3_digest(input@),
        digest@.len() == 32,
{
    blake3::hash(input).as_bytes().to_vec()
}

/// The 64-bit generator seed made from a 32-bit seed: the value repeated in
/// both halves.
pub open spec fn expanded_seed(seed: u32) -> u64 {
    (seed * 0x1_0000_0000 + seed) as u64
}

/// The generator that `create_rng(seed)` returns.
pub open spec fn seeded_rng(seed: u32) -> Pcg32 {
    pcg32_seeded(expanded_seed(seed))
}

/// The seed that BLAKE3 derives from `base_seed` and the bytes `tag`: the
/// first four digest bytes of `le(base_seed) ++ tag`, read little-endian.
pub open spec fn hashed_seed(base_seed: u32, tag: Seq<u8>) -> u32 {
    spec_u32_from_le_bytes(blake3_digest(spec_u32_to_le_bytes(base_seed) + tag).take(4))
}

/// The seed of layer `layer_index`.
pub open spec fn layer_seed(base_seed: u32, layer_index: u32) -> u32 {
    hashed_seed(base_seed, spec_u32_to_le_bytes(layer_index))
}

/// The seed of the component named `key` (its UTF-8 bytes are hashed).
pub open spec fn component_seed(base_seed: u32, key: Seq<char>) -> u32 {
    hashed_seed(base_seed, encode_utf8(key))
}

/// Expands a 32-bit seed to the 64-bit form the generator is seeded with.
pub fn expand_seed(seed: u32) -> (seed64: u64)
    ensures
        seed64 == expanded_seed(seed),
        seed64 % 0x1_0000_0000 == seed,
        seed64 / 0x1_0000_0000 == seed,
{
    let s: u64 = seed as u64;
    let r: u64 = s | (s << 32u64);
    assert(r == s * 0x1_0000_0000u64 + s) by (bit_vector)
        requires
            s <= 0xffff_ffffu64,
            r == s | (s << 32u64),
    ;
    r
}

/// Creates a PCG32 generator from a 32-bit seed; the seed is repeated in
/// both halves of the 64-bit generator seed.
pub fn create_rng(seed: u32) -> (rng: Pcg32)
    ensures
        rng == seeded_rng(seed),
{
    let seed64 = expand_seed(seed);
    pcg32_seed_from_u64(seed64)
}

/// Hashes `le(base_seed) ++ tag` and reads the first four digest bytes as a
/// little-endian `u32`.
fn hash_seed(base_seed: u32, tag: &[u8]) -> (seed: u32)
    ensures
        seed == hashed_seed(base_seed, tag@),
{
    let mut input = u32_to_le_bytes(base_seed);
    let mut i: usize = 0;
    while i < tag.len()
        invariant
            i <= tag@.len(),
            input@ == spec_u32_to_le_bytes(base_seed) + tag@.take(i as int),
        decreases tag@.len() - i,
    {
        input.push(tag[i]);
        assert(tag@.take(i as int + 1) == tag@.take(i as int).push(tag@[i as int]));
        i = i + 1;
    }
    assert(tag@.take(tag@.len() as int) == tag@);
    let digest = blake3_hash(input.as_slice());
    let mut first: Vec<u8> = Vec::new();
    let mut j: usize = 0;
    while j < 4
        invariant
            j <= 4,
            digest@.len() == 32,
            first@ == digest@.take(j as int),
        decreases 4 - j,
    {
        first.push(digest[j]);
        assert(digest@.take(j as int + 1) == digest@.take(j as int).push(digest@[j as int]));
        j = j + 1;
    }
    u32_from_le_bytes(first.as_slice())
}

/// Derives the seed of a layer from the base seed: BLAKE3 over the
/// little-endian bytes of `base_seed` and `layer_index`, truncated to the
/// first four bytes (little-endian).
pub fn derive_layer_seed(base_seed: u32, layer_index: u32) -> (seed: u32)
    ensures
        seed == layer_seed(base_seed, layer_index),
{
    let tag = u32_to_le_bytes(layer_index);
    hash_seed(base_seed, tag.as_slice())
}

/// Derives the seed of a named component from the base seed: BLAKE3 over the
/// little-endian bytes of `base_seed` followed by the UTF-8 bytes of `key`,
/// truncated to the first four bytes (little-endian).
pub fn derive_component_seed(base_seed: u32, key: &str) -> (seed: u32)
    ensures
        seed == component_seed(base_seed, key@),
{
    hash_seed(base_seed, key.as_bytes())
}

/// Creates the generator of a layer: the generator of the layer's derived
/// seed.
pub fn create_layer_rng(base_seed: u32, layer_index: u32) -> (rng: Pcg32)
    ensures
        rng == seeded_rng(layer_seed(base_seed, layer_index)),
{
    let seed = derive_layer_seed(base_seed, layer_index);
    create_rng(seed)
}

/// Different 32-bit seeds seed the generator with different 64-bit seeds.
pub proof fn seed_expansion_is_injective(a: u32, b: u32)
    ensures
        expanded_seed(a) == expanded_seed(b) ==> a == b,
{
    assert(expanded_seed(a) % 0x1_0000_0000 == a);
    assert(expanded_seed(b) % 0x1_0000_0000 == b);
}

} // verus!
