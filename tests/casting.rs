use rand::{Rng, SeedableRng};
use rand_chacha::ChaCha8Rng;
use rustiching::{cast_lines, derive_seed, divination, render_report, LineSequence, YaoType};

use YaoType::{OldYang, OldYin, YoungYang, YoungYin};

#[test]
fn report_layout() {
    let seq = LineSequence { lines: [OldYin, YoungYang, YoungYin, OldYang, YoungYin, YoungYang] };
    let text = render_report(42, &seq);
    let expected = "种子: 42\n\n\
上爻(7): ——————  \n  爻(8): ——  ——  \n  爻(9): —————— O\n  爻(8): ——  ——  \n  爻(7): ——————  \n初爻(6): ——  —— X\n\
\n序列: [7, 8, 9, 8, 7, 6]\n本卦: 水火既济\n变卦: 风雷益";
    assert_eq!(text, expected);
}

#[test]
fn report_names_follow_the_keys() {
    let seq = LineSequence { lines: [OldYin; 6] };
    let text = render_report(0, &seq);
    assert!(text.ends_with("本卦: 坤为地\n变卦: 乾为天"));
}

#[test]
fn casting_is_repeatable() {
    for seed in [0u64, 1, 42, u64::MAX] {
        assert_eq!(cast_lines(seed), cast_lines(seed));
    }
    let a = divination(12.5f64.to_bits(), 1_700_000_000, 0.3f64.to_bits());
    let b = divination(12.5f64.to_bits(), 1_700_000_000, 0.3f64.to_bits());
    assert_eq!(a, b);
}

#[test]
fn different_seeds_give_different_castings() {
    let distinct: std::collections::HashSet<[YaoType; 6]> =
        (0..200u64).map(|s| cast_lines(s).lines).collect();
    assert!(distinct.len() > 150);
}

#[test]
fn divination_is_the_report_of_its_seed_and_lines() {
    let (a, t, c) = (87.25f64.to_bits(), 1_650_000_000_123i64, 9.80665f64.to_bits());
    let seed = derive_seed(a, t, c);
    let lines = cast_lines(seed);
    assert_eq!(divination(a, t, c), render_report(seed, &lines));
}

#[test]
fn non_finite_readings_still_cast() {
    for &(a, c) in &[
        (f64::NAN, f64::NAN),
        (f64::INFINITY, f64::NEG_INFINITY),
        (f64::NEG_INFINITY, 0.0),
        (0.0, f64::INFINITY),
    ] {
        let text = divination(a.to_bits(), i64::MIN, c.to_bits());
        assert!(text.starts_with("种子: "));
        assert!(text.contains("序列: ["));
        assert!(text.contains("本卦: "));
        assert!(text.contains("变卦: "));
        assert!(!text.contains("未知"));
        assert_eq!(text.lines().filter(|l| l.contains("爻(")).count(), 6);
    }
}

#[test]
fn line_frequencies_follow_three_coins() {
    let mut counts = [0usize; 4];
    let mut total = 0usize;
    for s in 0..20_000u64 {
        let seed = derive_seed((s as f64 * 0.37).to_bits(), s as i64, (s as f64).sqrt().to_bits());
        for line in cast_lines(seed).lines {
            let k = match line {
                OldYin => 0,
                YoungYang => 1,
                YoungYin => 2,
                OldYang => 3,
            };
            counts[k] += 1;
            total += 1;
        }
    }
    let expected = [1.0 / 8.0, 3.0 / 8.0, 3.0 / 8.0, 1.0 / 8.0];
    for k in 0..4 {
        let freq = counts[k] as f64 / total as f64;
        assert!((freq - expected[k]).abs() < 0.01, "category {} at {}", k, freq);
    }
}

#[test]
fn zero_readings_give_a_fixed_casting() {
    let seed = derive_seed(0.0f64.to_bits(), 0, 0.0f64.to_bits());
    assert_eq!(seed, 17942395924573474124);
    let lines = cast_lines(seed);
    assert_eq!(lines.lines, [YoungYin, YoungYang, YoungYin, OldYin, YoungYang, YoungYang]);
    assert_eq!(lines.encode_keys(), (50, 58));
    let expected = "种子: 17942395924573474124\n\n\
上爻(7): ——————  \n  爻(7): ——————  \n  爻(6): ——  —— X\n  爻(8): ——  ——  \n  爻(7): ——————  \n初爻(8): ——  ——  \n\
\n序列: [7, 7, 6, 8, 7, 8]\n本卦: 水泽节\n变卦: 水天需";
    for _ in 0..3 {
        assert_eq!(divination(0.0f64.to_bits(), 0, 0.0f64.to_bits()), expected);
    }
}

#[test]
fn lines_are_successive_draws_of_the_seeded_stream() {
    for seed in [0u64, 7, 17942395924573474124, u64::MAX] {
        let mut rng = ChaCha8Rng::seed_from_u64(seed);
        let mut coins = [0u8; 18];
        for coin in coins.iter_mut() {
            *coin = rng.gen_range(0..=1u8);
        }
        assert_eq!(cast_lines(seed), LineSequence::from_coins(&coins));
    }
}
