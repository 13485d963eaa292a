//! Estimator and sample algebra.

use lucifer::fx;
use lucifer::lighting::Albedo;
use lucifer::lighting::Radiance;
use lucifer::montecarlo::{Estimator, Sample};

#[test]
fn estimator_round_trip_is_exact() {
    // Feeding N certain samples of one value yields exactly that value:
    // the mean of a constant is the constant.
    let v = Radiance::new(fx::ONE, fx::HALF, 16384);
    let mut est = Estimator::new();
    for _ in 0..10 {
        est.add(Sample::from(v));
    }
    assert_eq!(est.value(), v);
}

#[test]
fn estimator_round_trip_with_one_sample() {
    let v = Radiance::new(-fx::ONE, 3, 0);
    let mut est = Estimator::new();
    est.add(Sample::from(v));
    assert_eq!(est.value(), v);
}

#[test]
fn estimator_divides_by_probability() {
    // A half-probability sample counts double.
    let v = Radiance::gray(fx::ONE);
    let mut est = Estimator::new();
    est.add(Sample::new(v, fx::HALF));
    assert_eq!(est.value(), Radiance::gray(2 * fx::ONE));
}

#[test]
fn estimator_averages_two_samples() {
    let mut est = Estimator::new();
    est.add(Sample::from(Radiance::gray(fx::ONE)));
    est.add(Sample::from(Radiance::gray(3 * fx::ONE)));
    assert_eq!(est.value(), Radiance::gray(2 * fx::ONE));
}

#[test]
fn sample_addition_multiplies_probabilities() {
    let a = Sample::new(Radiance::gray(fx::ONE), fx::HALF);
    let b = Sample::new(Radiance::gray(fx::ONE), fx::HALF);
    let c = a.add(b);
    assert_eq!(c.value, Radiance::gray(2 * fx::ONE));
    assert_eq!(c.probability, fx::ONE / 4);
}

#[test]
fn sample_multiplication_absorbs_and_weights() {
    let a = Sample::new(Radiance::gray(2 * fx::ONE), fx::ONE);
    let c = a.mul(Albedo::gray(fx::HALF), fx::HALF);
    assert_eq!(c.value, Radiance::gray(fx::ONE));
    assert_eq!(c.probability, fx::HALF);
}
