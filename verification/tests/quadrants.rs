//! Quadrant-boundary checks at both widths, on engines bound to tables of
//! 1024 samples.

use static_trignometry::StaticTrigF32;
use static_trignometry::StaticTrigF64;
use static_trignometry::TrigF32Engine;
use static_trignometry::TrigF64Engine;

fn f32_table(n: usize) -> Vec<u32> {
    let step = std::f32::consts::FRAC_PI_2 / n as f32;
    (0..n).map(|i| (step * i as f32).sin().to_bits()).collect()
}

fn f64_table(n: usize) -> Vec<u64> {
    let step = std::f64::consts::FRAC_PI_2 / n as f64;
    (0..n).map(|i| (step * i as f64).sin().to_bits()).collect()
}

fn sin32(e: &TrigF32Engine, x: f32) -> f32 {
    f32::from_bits(e.sin(x.to_bits()).expect("reduction left the table range"))
}

fn sin64(e: &TrigF64Engine, x: f64) -> f64 {
    f64::from_bits(e.sin(x.to_bits()).expect("reduction left the table range"))
}

#[test]
fn sin_f32_quadrants() {
    let e = TrigF32Engine::new(f32_table(1024)).unwrap();
    assert_eq!(sin32(&e, std::f32::consts::FRAC_PI_2), 1.);
    assert_eq!(sin32(&e, std::f32::consts::PI), 0.);
    assert_eq!(sin32(&e, std::f32::consts::PI + std::f32::consts::FRAC_PI_2), -1.);
    assert_eq!(sin32(&e, std::f32::consts::PI + std::f32::consts::PI), 0.);

    assert_eq!(sin32(&e, -std::f32::consts::FRAC_PI_2), -1.);
    assert_eq!(sin32(&e, -(std::f32::consts::PI + std::f32::consts::FRAC_PI_2)), 1.);
}

#[test]
fn sin_f64_quadrants() {
    let e = TrigF64Engine::new(f64_table(1024)).unwrap();
    assert_eq!(sin64(&e, std::f64::consts::FRAC_PI_2), 1.);
    assert_eq!(sin64(&e, std::f64::consts::PI), 0.);
    assert_eq!(sin64(&e, std::f64::consts::PI + std::f64::consts::FRAC_PI_2), -1.);
    assert_eq!(sin64(&e, std::f64::consts::PI + std::f64::consts::PI), 0.);

    assert_eq!(sin64(&e, -std::f64::consts::FRAC_PI_2), -1.);
    assert_eq!(sin64(&e, -(std::f64::consts::PI + std::f64::consts::FRAC_PI_2)), 1.);
}
