use yin::difference::MAX_SQUARE;
use yin::ratio::less_frac;
use yin::{
    cmndf, compute_diff_min, compute_sample_frequency, convert_to_frequency, diff_function, Ratio,
    UnknownPitch, Yin32,
};

fn sine(sample_rate: f64, freq: f64, len: usize, amplitude: f64) -> Vec<i16> {
    (0..len)
        .map(|i| {
            let t = i as f64 / sample_rate;
            (amplitude * (2.0 * std::f64::consts::PI * freq * t).sin()).round() as i16
        })
        .collect()
}

fn ratio(num: u128, den: u128) -> Ratio {
    Ratio { num, den }
}

#[test]
fn benchmark_sine_gives_one_hundred_hertz() {
    let sample = sine(1000.0, 100.0, 44100, 16000.0);
    let yin = Yin32::init(ratio(1, 10), 50, 500, 1000);
    let f = yin.estimate_freq(&sample).unwrap();
    assert_eq!(f, ratio(1000, 10));
    assert_eq!(f.num / f.den, 100);
}

#[test]
fn stateless_pipeline_matches_benchmark() {
    let sample = sine(1000.0, 100.0, 44100, 16000.0);
    let f = compute_sample_frequency(&sample, 2, 20, 1000, ratio(1, 10));
    assert_eq!(f, Some(ratio(1000, 10)));
}

#[test]
fn sine_at_audio_rate_within_five_percent() {
    let sample = sine(44100.0, 441.0, 4096, 12000.0);
    let yin = Yin32::init(ratio(15, 100), 100, 1000, 44100);
    let f = yin.estimate_freq(&sample).unwrap();
    let hz = f.num as f64 / f.den as f64;
    assert!((hz - 441.0).abs() <= 0.05 * 441.0);
}

#[test]
fn silent_buffer_is_unknown_pitch() {
    let sample = vec![0i16; 2048];
    let yin = Yin32::init(ratio(1, 10), 50, 500, 1000);
    assert_eq!(yin.estimate_freq(&sample), Err(UnknownPitch));
    assert_eq!(compute_sample_frequency(&sample, 0, 20, 1000, ratio(1, 10)), None);
    assert_eq!(compute_sample_frequency(&[], 2, 20, 1000, ratio(1, 10)), None);
}

#[test]
fn estimate_is_repeatable() {
    let sample = sine(1000.0, 125.0, 4000, 9000.0);
    let yin = Yin32::init(ratio(1, 10), 50, 500, 1000);
    let first = yin.estimate_freq(&sample);
    let second = yin.estimate_freq(&sample);
    assert_eq!(first, second);
    assert_eq!(first, Ok(ratio(1000, 8)));
}

#[test]
fn init_derives_lag_bounds() {
    let yin = Yin32::init(ratio(1, 10), 50, 500, 1000);
    assert_eq!(yin.tau_max, 20);
    assert_eq!(yin.tau_min, 2);
    assert_eq!(yin.sample_rate, 1000);
    assert_eq!(yin.threshold, ratio(1, 10));
    let truncated = Yin32::init(ratio(1, 10), 3, 7, 100);
    assert_eq!(truncated.tau_max, 33);
    assert_eq!(truncated.tau_min, 14);
}

#[test]
fn difference_function_exact_values() {
    let s: Vec<i16> = vec![1, 3, 6, 10, 15, 0, 0, 0];
    let d = diff_function(&s, 3);
    assert_eq!(d, vec![0, 279, 480]);
}

#[test]
fn difference_function_lags_past_buffer_are_zero() {
    let s: Vec<i16> = vec![4, -4, 4, -4];
    let d = diff_function(&s, 6);
    assert_eq!(d, vec![0, 0, 0, 0, 0, 0]);
    let s: Vec<i16> = vec![4, -4, 4, -4, 4, -4];
    let d = diff_function(&s, 3);
    assert_eq!(d, vec![0, 192, 0]);
}

#[test]
fn difference_function_first_entry_is_zero() {
    let s = sine(8000.0, 300.0, 512, 20000.0);
    let d = diff_function(&s, 100);
    assert_eq!(d.len(), 100);
    assert_eq!(d[0], 0);
}

#[test]
fn difference_function_short_buffers() {
    assert_eq!(diff_function(&[], 4), vec![0, 0, 0, 0]);
    assert_eq!(diff_function(&[7], 4), vec![0, 0, 0, 0]);
    assert_eq!(diff_function(&[7, 9], 0), Vec::<u64>::new());
}

#[test]
fn difference_function_extreme_samples() {
    let s: Vec<i16> = vec![i16::MIN, i16::MAX, i16::MIN, i16::MAX];
    let d = diff_function(&s, 2);
    assert_eq!(d, vec![0, 2 * MAX_SQUARE]);
}

#[test]
fn normalizer_exact_values() {
    let c = cmndf(&[0, 279, 480]);
    assert_eq!(c, vec![ratio(0, 1), ratio(279, 279), ratio(960, 759)]);
}

#[test]
fn normalizer_keeps_length_and_sentinel() {
    let d: Vec<u64> = vec![9, 1, 2, 3, 4];
    let c = cmndf(&d);
    assert_eq!(c.len(), d.len());
    assert_eq!(c[0], ratio(0, 1));
    assert_eq!(c[4], ratio(16, 10));
    assert_eq!(cmndf(&[]), Vec::<Ratio>::new());
}

#[test]
fn normalizer_zero_running_sum_is_undefined() {
    let c = cmndf(&[0, 0, 5]);
    assert_eq!(c, vec![ratio(0, 1), ratio(0, 0), ratio(10, 5)]);
    assert!(!c[1].lt(&ratio(1, 10)));
    assert!(!ratio(1, 10).lt(&c[1]));
}

#[test]
fn normalizer_largest_values() {
    let c = cmndf(&[0, u64::MAX, u64::MAX]);
    assert_eq!(c[2], ratio(2 * u64::MAX as u128, 2 * u64::MAX as u128));
}

#[test]
fn lag_search_descends_to_local_minimum() {
    let c = vec![ratio(0, 1), ratio(5, 1), ratio(1, 20), ratio(1, 30), ratio(1, 2)];
    assert_eq!(compute_diff_min(&c, 1, 5, ratio(1, 10)), Some(3));
    assert_eq!(compute_diff_min(&c, 1, 4, ratio(1, 10)), Some(3));
    assert_eq!(compute_diff_min(&c, 1, 3, ratio(1, 10)), Some(2));
}

#[test]
fn lag_search_stops_at_first_crossing() {
    let c = vec![
        ratio(0, 1),
        ratio(1, 20),
        ratio(1, 2),
        ratio(1, 1000),
        ratio(1, 2),
    ];
    assert_eq!(compute_diff_min(&c, 1, 5, ratio(1, 10)), Some(1));
}

#[test]
fn lag_search_stays_in_range() {
    let c = vec![ratio(0, 1), ratio(1, 2), ratio(1, 3), ratio(1, 20), ratio(1, 40)];
    let r = compute_diff_min(&c, 2, 4, ratio(1, 10));
    assert_eq!(r, Some(3));
    assert_eq!(compute_diff_min(&c, 4, 4, ratio(1, 10)), None);
    assert_eq!(compute_diff_min(&c, 4, 2, ratio(1, 10)), None);
    assert_eq!(compute_diff_min(&c, 1, 3, ratio(1, 10)), None);
}

#[test]
fn lag_search_never_returns_lag_zero() {
    let c = vec![ratio(0, 1), ratio(1, 20), ratio(1, 30)];
    assert_eq!(compute_diff_min(&c, 0, 3, ratio(1, 10)), None);
    assert_eq!(compute_diff_min(&c, 0, 3, ratio(0, 1)), None);
}

#[test]
fn convert_zero_period_is_no_frequency() {
    assert_eq!(convert_to_frequency(&[], 0, 0, 44100), None);
    assert_eq!(convert_to_frequency(&[0, 1], 2, 0, 1), None);
}

#[test]
fn convert_period_to_frequency() {
    assert_eq!(convert_to_frequency(&[], 0, 10, 1000), Some(ratio(1000, 10)));
    assert_eq!(convert_to_frequency(&[], 0, 100, 44100), Some(ratio(44100, 100)));
}

#[test]
fn ratio_comparison_is_exact() {
    assert!(ratio(1, 3).lt(&ratio(1, 2)));
    assert!(!ratio(1, 2).lt(&ratio(1, 3)));
    assert!(!ratio(2, 4).lt(&ratio(1, 2)));
    assert!(ratio(u128::MAX - 1, u128::MAX).lt(&ratio(u128::MAX, u128::MAX)));
    assert!(!ratio(0, 0).lt(&ratio(0, 0)));
    assert!(less_frac(u128::MAX, u128::MAX - 1, u128::MAX - 1, u128::MAX - 2));
    assert!(!less_frac(7, 3, 14, 6));
}
