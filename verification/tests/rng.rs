use rand::Rng;
use rand::SeedableRng;
use rand_pcg::Pcg32;
use speccade_backend_audio::rng::{
    create_layer_rng, create_rng, derive_component_seed, derive_layer_seed, expand_seed,
};

#[test]
fn test_rng_determinism() {
    let mut rng1 = create_rng(42);
    let mut rng2 = create_rng(42);

    let values1: Vec<f32> = (0..100).map(|_| rng1.gen()).collect();
    let values2: Vec<f32> = (0..100).map(|_| rng2.gen()).collect();

    assert_eq!(values1, values2);
}

#[test]
fn test_different_seeds_produce_different_sequences() {
    let mut rng1 = create_rng(42);
    let mut rng2 = create_rng(43);

    let values1: Vec<f32> = (0..10).map(|_| rng1.gen()).collect();
    let values2: Vec<f32> = (0..10).map(|_| rng2.gen()).collect();

    assert_ne!(values1, values2);
}

#[test]
fn test_layer_seed_derivation_consistency() {
    let base = 42u32;

    let seed_a = derive_layer_seed(base, 0);
    let seed_b = derive_layer_seed(base, 0);
    assert_eq!(seed_a, seed_b);

    let seed_1 = derive_layer_seed(base, 1);
    assert_ne!(seed_a, seed_1);
}

#[test]
fn test_component_seed_derivation() {
    let base = 42u32;

    let seed_noise = derive_component_seed(base, "noise");
    let seed_osc = derive_component_seed(base, "oscillator");
    assert_ne!(seed_noise, seed_osc);

    // Same key produces same seed
    let seed_noise2 = derive_component_seed(base, "noise");
    assert_eq!(seed_noise, seed_noise2);
}

#[test]
fn test_layer_rng_independence() {
    let base = 42u32;

    let mut rng0 = create_layer_rng(base, 0);
    let mut rng1 = create_layer_rng(base, 1);

    let values0: Vec<f32> = (0..10).map(|_| rng0.gen()).collect();
    let values1: Vec<f32> = (0..10).map(|_| rng1.gen()).collect();

    assert_ne!(values0, values1);
}

#[test]
fn expand_seed_repeats_the_seed_in_both_halves() {
    assert_eq!(expand_seed(0), 0);
    assert_eq!(expand_seed(1), 0x0000_0001_0000_0001);
    assert_eq!(expand_seed(0xdead_beef), 0xdead_beef_dead_beef);
    assert_eq!(expand_seed(u32::MAX), u64::MAX);
}

#[test]
fn create_rng_seeds_pcg32_with_the_expanded_seed() {
    let from_library = create_rng(1234);
    let direct = Pcg32::seed_from_u64(0x0000_04d2_0000_04d2);
    assert_eq!(from_library, direct);
    assert_ne!(create_rng(1234), Pcg32::seed_from_u64(1234));
}

#[test]
fn layer_seed_is_truncated_blake3_of_le_bytes() {
    let mut input = Vec::new();
    input.extend_from_slice(&42u32.to_le_bytes());
    input.extend_from_slice(&3u32.to_le_bytes());
    let hash = blake3::hash(&input);
    let expected = u32::from_le_bytes(hash.as_bytes()[0..4].try_into().unwrap());
    assert_eq!(derive_layer_seed(42, 3), expected);
    // The seed is not read from the hashed bytes themselves.
    assert_ne!(derive_layer_seed(0, 0), 0);
}

#[test]
fn component_seed_hashes_the_utf8_key() {
    let mut input = Vec::new();
    input.extend_from_slice(&7u32.to_le_bytes());
    input.extend_from_slice("supersaw_voice_é".as_bytes());
    let hash = blake3::hash(&input);
    let expected = u32::from_le_bytes(hash.as_bytes()[0..4].try_into().unwrap());
    assert_eq!(derive_component_seed(7, "supersaw_voice_é"), expected);
    // An empty key hashes only the base seed bytes.
    let only_base = blake3::hash(&7u32.to_le_bytes());
    let expected_empty = u32::from_le_bytes(only_base.as_bytes()[0..4].try_into().unwrap());
    assert_eq!(derive_component_seed(7, ""), expected_empty);
}

#[test]
fn layer_rng_is_rng_of_layer_seed() {
    let seed = derive_layer_seed(99, 5);
    assert_eq!(create_layer_rng(99, 5), create_rng(seed));
}
