//! Behaviour of the generated sequences, exercised with real draws from a
//! seeded standard generator.

use rand_seq::bounds::f32_boundary_values;
use rand_seq::bounds::f64_boundary_values;
use rand_seq::generator::generate;
use rand_seq::generator::rand_seq_f32;
use rand_seq::generator::rand_seq_f64;
use rand_seq::generator::rand_seq_i32;
use rand_seq::generator::ApiCategory;
use rand_seq::generator::Domain;
use rand_seq::generator::GeneratedSequence;
use rand_seq::source::RandSource;

fn std_rng(seed: u64) -> rand::rngs::StdRng {
    <rand::rngs::StdRng as rand::SeedableRng>::seed_from_u64(seed)
}

fn seeded(seed: u64) -> RandSource {
    RandSource::from_std_rng(std_rng(seed))
}

#[test]
fn f32_boundary_bits_match_std_constants() {
    let bits = f32_boundary_values();
    assert_eq!(bits.len(), 9);
    assert!(f32::from_bits(bits[0]).is_nan());
    assert_eq!(bits[1], f32::INFINITY.to_bits());
    assert_eq!(bits[2], f32::NEG_INFINITY.to_bits());
    assert_eq!(bits[3], f32::EPSILON.to_bits());
    assert_eq!(bits[4], (-f32::EPSILON).to_bits());
    assert_eq!(bits[5], f32::MAX.to_bits());
    assert_eq!(bits[6], f32::MIN.to_bits());
    assert_eq!(bits[7], f32::MIN_POSITIVE.to_bits());
    assert_eq!(bits[8], (-f32::MIN_POSITIVE).to_bits());
}

#[test]
fn f64_boundary_bits_match_std_constants() {
    let bits = f64_boundary_values();
    assert_eq!(bits.len(), 9);
    assert!(f64::from_bits(bits[0]).is_nan());
    assert_eq!(bits[1], f64::INFINITY.to_bits());
    assert_eq!(bits[2], f64::NEG_INFINITY.to_bits());
    assert_eq!(bits[3], f64::EPSILON.to_bits());
    assert_eq!(bits[4], (-f64::EPSILON).to_bits());
    assert_eq!(bits[5], f64::MAX.to_bits());
    assert_eq!(bits[6], f64::MIN.to_bits());
    assert_eq!(bits[7], f64::MIN_POSITIVE.to_bits());
    assert_eq!(bits[8], (-f64::MIN_POSITIVE).to_bits());
}

#[test]
fn f32_exact_boundary_length_makes_no_draws() {
    let mut rng = seeded(7);
    let v = rand_seq_f32(&mut rng, 9);
    assert_eq!(v, f32_boundary_values());
    // the source was not advanced: its next draw is the first draw of a
    // fresh source built from the same seed
    let mut fresh = seeded(7);
    assert_eq!(rng.draw_u32(), fresh.draw_u32());
}

#[test]
fn f32_longer_request_appends_exactly_the_fresh_draws() {
    let mut rng = seeded(11);
    let v = rand_seq_f32(&mut rng, 12);
    assert_eq!(v.len(), 12);
    assert_eq!(&v[..9], &f32_boundary_values()[..]);
    // the suffix is the first three draws of a same-seeded source, and the
    // source advanced by exactly three: the fourth draws line up too
    let mut fresh = seeded(11);
    assert_eq!(v[9], fresh.draw_u32());
    assert_eq!(v[10], fresh.draw_u32());
    assert_eq!(v[11], fresh.draw_u32());
    assert_eq!(rng.draw_u32(), fresh.draw_u32());
}

#[test]
fn f32_short_request_truncates_boundary_set() {
    let mut rng = seeded(3);
    let v = rand_seq_f32(&mut rng, 4);
    assert_eq!(v, f32_boundary_values()[..4].to_vec());
    let mut fresh = seeded(3);
    assert_eq!(rng.draw_u32(), fresh.draw_u32());
}

#[test]
fn f32_empty_request_yields_empty_sequence() {
    let mut rng = seeded(5);
    let v = rand_seq_f32(&mut rng, 0);
    assert!(v.is_empty());
}

#[test]
fn f64_longer_request_appends_exactly_the_fresh_draws() {
    let mut rng = seeded(23);
    let v = rand_seq_f64(&mut rng, 11);
    assert_eq!(v.len(), 11);
    assert_eq!(&v[..9], &f64_boundary_values()[..]);
    let mut fresh = seeded(23);
    assert_eq!(v[9], fresh.draw_u64());
    assert_eq!(v[10], fresh.draw_u64());
    assert_eq!(rng.draw_u64(), fresh.draw_u64());
}

#[test]
fn i32_iteration_count_masks_every_draw() {
    let mut rng = seeded(42);
    let v = rand_seq_i32(Some(ApiCategory::IterationCount), &mut rng, 5);
    assert_eq!(v.len(), 5);
    for &value in &v {
        assert_eq!(value & 0xffff, value);
    }
}

#[test]
fn i32_iteration_count_masks_the_actual_draws() {
    let mut rng = seeded(42);
    let v = rand_seq_i32(Some(ApiCategory::IterationCount), &mut rng, 5);
    let mut fresh = seeded(42);
    for &value in &v {
        assert_eq!(value, fresh.draw_i32() & 0xffff);
    }
}

#[test]
fn i32_without_category_passes_draws_through() {
    let mut rng = seeded(19);
    let v = rand_seq_i32(None, &mut rng, 6);
    assert_eq!(v.len(), 6);
    let mut fresh = seeded(19);
    for &value in &v {
        assert_eq!(value, fresh.draw_i32());
    }
    // with this seed at least one raw draw has high bits set, so masking
    // would have been observable
    assert!(v.iter().any(|&value| value & 0xffff != value));
}

#[test]
fn i32_empty_request_yields_empty_sequence() {
    let mut rng = seeded(1);
    let v = rand_seq_i32(None, &mut rng, 0);
    assert!(v.is_empty());
}

#[test]
fn structure_is_idempotent_across_sources() {
    let mut first_rng = seeded(100);
    let mut second_rng = seeded(200);
    let a = rand_seq_f32(&mut first_rng, 20);
    let b = rand_seq_f32(&mut second_rng, 20);
    assert_eq!(a.len(), b.len());
    assert_eq!(&a[..9], &b[..9]);
    // only the randomized suffix differs
    assert_ne!(&a[9..], &b[9..]);
}

#[test]
fn generate_dispatches_f32() {
    let mut rng = seeded(8);
    match generate(Domain::F32, None, &mut rng, 10) {
        GeneratedSequence::F32Bits(v) => {
            assert_eq!(v.len(), 10);
            assert_eq!(&v[..9], &f32_boundary_values()[..]);
        }
        other => panic!("wrong variant: {:?}", other),
    }
}

#[test]
fn generate_dispatches_f64() {
    let mut rng = seeded(8);
    match generate(Domain::F64, None, &mut rng, 9) {
        GeneratedSequence::F64Bits(v) => {
            assert_eq!(v, f64_boundary_values());
        }
        other => panic!("wrong variant: {:?}", other),
    }
}

#[test]
fn generate_dispatches_i32_with_category() {
    let mut rng = seeded(8);
    match generate(Domain::I32, Some(ApiCategory::IterationCount), &mut rng, 7) {
        GeneratedSequence::I32Values(v) => {
            assert_eq!(v.len(), 7);
            for &value in &v {
                assert_eq!(value & 0xffff, value);
            }
        }
        other => panic!("wrong variant: {:?}", other),
    }
}
