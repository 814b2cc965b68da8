//! The aggregate of a buffer is the exact arithmetic mean: the pair
//! `(sum, count)` of a populated buffer equals the sum and length of the
//! samples, for hand-picked and for randomly generated sequences.

use device_session::Mean;
use device_session::SessionError;
use device_session::aggregate::mean_of;
use rand::Rng;
use rand::SeedableRng;

#[test]
fn mean_of_empty_fails() {
    let samples: Vec<i64> = Vec::new();
    assert_eq!(mean_of(&samples), Err(SessionError::EmptyBuffer));
}

#[test]
fn mean_of_examples_is_exact() {
    assert_eq!(mean_of(&vec![7]), Ok(Mean { sum: 7, count: 1 }));
    assert_eq!(mean_of(&vec![1, 2, 4]), Ok(Mean { sum: 7, count: 3 }));
    assert_eq!(mean_of(&vec![-5, 5]), Ok(Mean { sum: 0, count: 2 }));
    // 0.9 in thousandths, three times: the mean is 2700 / 3 = 900 exactly
    assert_eq!(mean_of(&vec![900, 900, 900]), Ok(Mean { sum: 2700, count: 3 }));
}

#[test]
fn mean_of_extreme_values_does_not_overflow() {
    let samples = vec![i64::MAX, i64::MAX, i64::MIN];
    let expected: i128 = (i64::MAX as i128) * 2 + (i64::MIN as i128);
    assert_eq!(mean_of(&samples), Ok(Mean { sum: expected, count: 3 }));
}

#[test]
fn mean_of_random_sequences_matches_direct_sum() {
    let mut rng = rand::rngs::StdRng::seed_from_u64(20_240_901);
    for _ in 0..200 {
        let len = rng.gen_range(1usize..=64);
        let samples: Vec<i64> = (0..len).map(|_| rng.gen_range(-1_000_000i64..=1_000_000)).collect();
        let direct: i128 = samples.iter().map(|&v| v as i128).sum();
        let m = mean_of(&samples).unwrap();
        assert_eq!(m.sum, direct);
        assert_eq!(m.count, len);
        // as a rational, the aggregate is exactly sum / len: cross-multiply
        // against a float mean only to sanity-check the representation
        let float_mean = direct as f64 / len as f64;
        assert!((m.sum as f64 / m.count as f64 - float_mean).abs() < 1e-9);
    }
}
