//! The deterministic reference generator: distinct seeds and distinct
//! phases give distinct streams, the same pair replays the same stream,
//! and draws advance — nothing hands the input buffer back.

use engine_core::rng::{create_rng, gen_random, Phase};

#[test]
fn should_generate_different_numbers_for_different_seeds() {
    let mut rng_a = create_rng([1u8; 32], Phase::Session);
    let mut rng_b = create_rng([2u8; 32], Phase::Session);
    let random_a = gen_random(&mut rng_a);
    let random_b = gen_random(&mut rng_b);

    assert_ne!(random_a, random_b)
}

#[test]
fn should_generate_same_numbers_for_same_seed() {
    let mut rng_a = create_rng([1u8; 32], Phase::Session);
    let mut rng_b = create_rng([1u8; 32], Phase::Session);
    let random_a = gen_random(&mut rng_a);
    let random_b = gen_random(&mut rng_b);

    assert_eq!(random_a, random_b)
}

#[test]
fn should_not_generate_same_numbers_for_different_phase() {
    let deploy_hash = [1u8; 32];
    let mut rng_a = create_rng(deploy_hash, Phase::Payment);
    let mut rng_b = create_rng(deploy_hash, Phase::Session);
    let random_a = gen_random(&mut rng_a);
    let random_b = gen_random(&mut rng_b);

    assert_ne!(
        random_a, random_b,
        "different phase should have different output"
    );

    let mut rng_c = create_rng(deploy_hash, Phase::FinalizePayment);
    let random_c = gen_random(&mut rng_c);

    assert_ne!(
        random_a, random_c,
        "different phase should have different output"
    );
}

#[test]
fn draws_advance_and_do_not_echo_the_buffer() {
    let mut rng = create_rng([7u8; 32], Phase::Payment);
    let first = gen_random(&mut rng);
    let second = gen_random(&mut rng);
    // the stream moves on between draws of one session
    assert_ne!(first, second);
    // the bytes come from the stream, not from the zeroed buffer
    assert_ne!(first, [0u8; 32]);
    assert_ne!(second, [0u8; 32]);
}

#[test]
fn repeated_construction_replays_the_stream() {
    let mut rng_a = create_rng([9u8; 32], Phase::FinalizePayment);
    let a1 = gen_random(&mut rng_a);
    let a2 = gen_random(&mut rng_a);

    let mut rng_b = create_rng([9u8; 32], Phase::FinalizePayment);
    let b1 = gen_random(&mut rng_b);
    let b2 = gen_random(&mut rng_b);

    assert_eq!(a1, b1);
    assert_eq!(a2, b2);
}
