use rustiching::{derive_seed, push_decimal};
use std::collections::hash_map::DefaultHasher;
use std::hash::{Hash, Hasher};

fn std_hash(azimuth: f64, timestamp: i64, acceleration: f64) -> u64 {
    let mut hasher = DefaultHasher::new();
    azimuth.to_bits().hash(&mut hasher);
    timestamp.hash(&mut hasher);
    acceleration.to_bits().hash(&mut hasher);
    hasher.finish()
}

#[test]
fn seed_is_the_default_hash_of_the_three_inputs() {
    for &(a, t, c) in &[
        (0.0, 0i64, 0.0),
        (123.5, 1_700_000_000_000, 9.81),
        (-0.0, -1, -3.25),
        (359.99, i64::MAX, f64::MIN_POSITIVE),
    ] {
        let seed = derive_seed(f64::to_bits(a), t, f64::to_bits(c));
        assert_eq!(seed, std_hash(a, t, c));
    }
}

#[test]
fn seed_is_deterministic() {
    let a = derive_seed(45.0f64.to_bits(), 1234, 9.8f64.to_bits());
    let b = derive_seed(45.0f64.to_bits(), 1234, 9.8f64.to_bits());
    assert_eq!(a, b);
}

#[test]
fn seed_depends_on_order_of_inputs() {
    let x = 1.5f64.to_bits();
    let y = 2.5f64.to_bits();
    assert_ne!(derive_seed(x, 7, y), derive_seed(y, 7, x));
}

#[test]
fn seed_sees_bit_patterns_not_values() {
    assert_ne!(
        derive_seed(0.0f64.to_bits(), 0, 0),
        derive_seed((-0.0f64).to_bits(), 0, 0)
    );
}

#[test]
fn seed_of_non_finite_inputs() {
    let nan = derive_seed(f64::NAN.to_bits(), 0, f64::NAN.to_bits());
    let inf = derive_seed(f64::INFINITY.to_bits(), -5, f64::NEG_INFINITY.to_bits());
    assert_eq!(nan, derive_seed(f64::NAN.to_bits(), 0, f64::NAN.to_bits()));
    assert_ne!(nan, inf);
}

#[test]
fn decimal_rendering() {
    for &(n, text) in &[(0u64, "0"), (7, "7"), (120, "120"), (u64::MAX, "18446744073709551615")] {
        let mut s = String::from("x");
        push_decimal(&mut s, n);
        assert_eq!(s, format!("x{}", text));
    }
}
