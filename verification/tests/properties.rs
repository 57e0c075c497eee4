//! Table invariants, accessor edges, rejection reasons, symmetry and
//! accuracy of the lookup against the reference sine.

use static_trignometry::Precision;
use static_trignometry::QuarterSineTable;
use static_trignometry::StaticTrigF32;
use static_trignometry::StaticTrigF64;
use static_trignometry::TableError;
use static_trignometry::TrigF32Engine;
use static_trignometry::TrigF64Engine;
use static_trignometry::bits;

fn f32_table(n: usize) -> Vec<u32> {
    let step = std::f32::consts::FRAC_PI_2 / n as f32;
    (0..n).map(|i| (step * i as f32).sin().to_bits()).collect()
}

fn f64_table(n: usize) -> Vec<u64> {
    let step = std::f64::consts::FRAC_PI_2 / n as f64;
    (0..n).map(|i| (step * i as f64).sin().to_bits()).collect()
}

fn sin64(e: &TrigF64Engine, x: f64) -> f64 {
    f64::from_bits(e.sin(x.to_bits()).expect("reduction left the table range"))
}

#[test]
fn constants_match_ieee() {
    assert_eq!(bits::PI_BITS_64, std::f64::consts::PI.to_bits());
    assert_eq!(bits::TWO_PI_BITS_64, (std::f64::consts::PI + std::f64::consts::PI).to_bits());
    assert_eq!(bits::FRAC_PI_2_BITS_64, std::f64::consts::FRAC_PI_2.to_bits());
    assert_eq!(bits::FRAC_2_PI_BITS_64, std::f64::consts::FRAC_2_PI.to_bits());
    assert_eq!(bits::ONE_BITS_64, 1.0f64.to_bits());
    assert_eq!(bits::PI_BITS_32, std::f32::consts::PI.to_bits() as u64);
    assert_eq!(bits::TWO_PI_BITS_32, (std::f32::consts::PI + std::f32::consts::PI).to_bits() as u64);
    assert_eq!(bits::FRAC_PI_2_BITS_32, std::f32::consts::FRAC_PI_2.to_bits() as u64);
    assert_eq!(bits::FRAC_2_PI_BITS_32, std::f32::consts::FRAC_2_PI.to_bits() as u64);
    assert_eq!(bits::ONE_BITS_32, 1.0f32.to_bits() as u64);
}

#[test]
fn angle_grid_matches_hardware() {
    let grid = static_trignometry::generate::sample_angles(Precision::Double, 256);
    assert_eq!(grid.len(), 256);
    let step = std::f64::consts::FRAC_PI_2 / 256.0;
    for (i, &a) in grid.iter().enumerate() {
        assert_eq!(a, (step * i as f64).to_bits());
    }
    let grid32 = static_trignometry::generate::sample_angles(Precision::Single, 100);
    let step32 = std::f32::consts::FRAC_PI_2 / 100.0;
    for (i, &a) in grid32.iter().enumerate() {
        assert_eq!(a as u32, (step32 * i as f32).to_bits());
    }
}

#[test]
fn generated_table_starts_at_zero() {
    for n in [1usize, 2, 7, 256, 1024] {
        assert_eq!(f64_table(n)[0], 0);
        assert_eq!(f32_table(n)[0], 0);
    }
}

#[test]
fn generated_table_is_non_decreasing() {
    for n in [1usize, 2, 7, 256, 1024] {
        let t64 = f64_table(n);
        assert!(t64.windows(2).all(|w| w[0] <= w[1]));
        assert!(t64.iter().all(|&s| f64::from_bits(s) < 1.0));
        let t32 = f32_table(n);
        assert!(t32.windows(2).all(|w| w[0] <= w[1]));
    }
}

#[test]
fn sampled_sin_edges() {
    let e = TrigF64Engine::new(f64_table(1024)).unwrap();
    // The implicit endpoint is exactly one.
    assert_eq!(e.sampled_sin_inclusive(1024), Some(1.0f64.to_bits()));
    // The plain accessor refuses the endpoint and everything past it.
    assert_eq!(e.sampled_sin(1024), None);
    assert_eq!(e.sampled_sin(1025), None);
    assert_eq!(e.sampled_sin(usize::MAX), None);
    assert_eq!(e.sampled_sin_inclusive(1025), None);
    // Stored samples come back as stored.
    assert_eq!(e.sampled_sin(0), Some(0));
    let f = TrigF32Engine::new(f32_table(64)).unwrap();
    assert_eq!(f.sampled_sin_inclusive(64), Some(1.0f32.to_bits()));
    assert_eq!(f.sampled_sin(64), None);
    assert_eq!(f.sampled_sin(65), None);
}

fn err_of<T>(r: Result<T, TableError>) -> TableError {
    match r {
        Err(e) => e,
        Ok(_) => panic!("expected the samples to be rejected"),
    }
}

#[test]
fn rejection_reasons() {
    assert_eq!(err_of(TrigF64Engine::new(vec![])), TableError::Empty);
    assert_eq!(
        err_of(TrigF64Engine::new(vec![0.5f64.to_bits()])),
        TableError::FirstSampleNotZero,
    );
    assert_eq!(
        err_of(TrigF64Engine::new(vec![0, 0.5f64.to_bits(), 0.25f64.to_bits()])),
        TableError::Decreasing,
    );
    assert_eq!(
        err_of(TrigF64Engine::new(vec![0, 0.5f64.to_bits(), 1.5f64.to_bits()])),
        TableError::AboveOne,
    );
    assert_eq!(err_of(TrigF32Engine::new(vec![])), TableError::Empty);
    assert_eq!(
        err_of(TrigF32Engine::new(vec![0, 1.5f32.to_bits(), 0.5f32.to_bits()])),
        TableError::Decreasing,
    );
    assert!(QuarterSineTable::new(vec![0], Precision::Double).is_ok());
}

#[test]
fn periodicity_within_one_step() {
    let e = TrigF64Engine::new(f64_table(1024)).unwrap();
    let step = std::f64::consts::FRAC_PI_2 / 1024.0;
    let two_pi = std::f64::consts::PI + std::f64::consts::PI;
    for x in [0.0f64, 0.3, 0.75, 1.5, 2.9, 4.4, 6.0] {
        let base = sin64(&e, x);
        for k in [-3.0f64, -1.0, 1.0, 4.0] {
            let shifted = sin64(&e, x + two_pi * k);
            assert!((shifted - base).abs() <= step + 1e-9);
        }
    }
}

#[test]
fn odd_symmetry_is_bit_exact() {
    let e = TrigF64Engine::new(f64_table(1024)).unwrap();
    for x in [0.0f64, 0.5, 1.2345, 2.0, 3.3, 5.9, 7.7, 1.0e6, 1.0e-9] {
        let plus = e.sin(x.to_bits()).unwrap();
        let minus = e.sin((-x).to_bits()).unwrap();
        assert_eq!(minus, plus ^ (1u64 << 63));
    }
    let f = TrigF32Engine::new(f32_table(1024)).unwrap();
    for x in [0.0f32, 0.5, 2.0, 100.5] {
        let plus = f.sin(x.to_bits()).unwrap();
        let minus = f.sin((-x).to_bits()).unwrap();
        assert_eq!(minus, plus ^ (1u32 << 31));
    }
}

#[test]
fn cosine_is_shifted_sine() {
    let e = TrigF64Engine::new(f64_table(1024)).unwrap();
    for x in [0.0f64, 0.5, 1.0, 2.5, -0.7, 4.0, 12.0] {
        let c = e.cos(x.to_bits()).unwrap();
        let s = e.sin((x + std::f64::consts::FRAC_PI_2).to_bits()).unwrap();
        assert_eq!(c, s);
    }
}

#[test]
fn accuracy_within_table_resolution() {
    let e = TrigF64Engine::new(f64_table(1024)).unwrap();
    let bound = std::f64::consts::FRAC_PI_2 / 1024.0 + 1e-9;
    let mut x = -10.0f64;
    while x < 10.0 {
        assert!((sin64(&e, x) - x.sin()).abs() <= bound, "off at {x}");
        x += 0.0137;
    }
}

#[test]
fn tangent_diverges_at_the_asymptote() {
    let e = TrigF64Engine::new(f64_table(1024)).unwrap();
    for x in [
        std::f64::consts::FRAC_PI_2,
        std::f64::consts::FRAC_PI_2 + 0.0004,
        -std::f64::consts::FRAC_PI_2,
        3.0 * std::f64::consts::FRAC_PI_2,
    ] {
        let t = f64::from_bits(e.tan(x.to_bits()).unwrap());
        assert!(!t.is_finite() || t.abs() > 100.0, "tame tangent at {x}: {t}");
    }
    // Away from the asymptotes the tangent is ordinary.
    let t = f64::from_bits(e.tan((std::f64::consts::FRAC_PI_2 / 2.0).to_bits()).unwrap());
    assert!(t.is_finite());
}

#[test]
fn non_finite_angles_are_refused() {
    let e = TrigF64Engine::new(f64_table(16)).unwrap();
    assert_eq!(e.sin(f64::NAN.to_bits()), None);
    assert_eq!(e.sin(f64::INFINITY.to_bits()), None);
    assert_eq!(e.sin(f64::NEG_INFINITY.to_bits()), None);
    assert_eq!(e.tan(f64::NAN.to_bits()), None);
}
