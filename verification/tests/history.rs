use claritty::fraction::Fraction;
use claritty::history::{FrameHistory, HISTORY_CAPACITY, NANOS_PER_SECOND};

fn fraction(numerator: u128, denominator: u128) -> Fraction {
    Fraction { numerator, denominator }
}

fn as_float(value: Fraction) -> f64 {
    value.numerator as f64 / value.denominator as f64
}

fn filled(intervals: &[u64]) -> FrameHistory {
    let mut history = FrameHistory::new();
    for interval in intervals {
        history.record(*interval);
    }
    history
}

#[test]
fn capacity_is_sixty() {
    assert_eq!(HISTORY_CAPACITY, 60);
    assert_eq!(NANOS_PER_SECOND, 1_000_000_000);
}

#[test]
fn new_history_is_empty() {
    let history = FrameHistory::new();
    assert_eq!(history.len(), 0);
    assert_eq!(history.intervals(), &[] as &[u64]);
    assert_eq!(history.total_ns(), 0);
}

#[test]
fn history_below_capacity_keeps_everything() {
    let pushes: Vec<u64> = (1..=59).collect();
    let history = filled(&pushes);
    assert_eq!(history.len(), 59);
    assert_eq!(history.intervals(), &pushes[..]);
}

#[test]
fn history_at_capacity_keeps_everything() {
    let pushes: Vec<u64> = (1..=60).collect();
    let history = filled(&pushes);
    assert_eq!(history.len(), 60);
    assert_eq!(history.intervals(), &pushes[..]);
}

#[test]
fn sixty_first_push_evicts_the_oldest() {
    let pushes: Vec<u64> = (1..=61).collect();
    let history = filled(&pushes);
    assert_eq!(history.len(), 60);
    assert_eq!(history.intervals(), &pushes[1..]);
}

#[test]
fn history_never_exceeds_capacity_and_holds_the_most_recent_pushes() {
    let pushes: Vec<u64> = (0..500).map(|i| i * i + 3).collect();
    let mut history = FrameHistory::new();
    for (count, interval) in pushes.iter().enumerate() {
        history.record(*interval);
        let seen = count + 1;
        let kept = seen.min(60);
        assert!(history.len() <= 60);
        assert_eq!(history.len(), kept);
        assert_eq!(history.intervals(), &pushes[seen - kept..seen]);
    }
}

#[test]
fn total_average_and_rate_of_mixed_intervals() {
    let history = filled(&[10, 20, 30]);
    assert_eq!(history.total_ns(), 60);
    assert_eq!(history.average_interval(), fraction(60, 3));
    assert_eq!(history.rate(), fraction(3_000_000_000, 60));
    assert_eq!(as_float(history.average_interval()), 20.0);
    assert_eq!(as_float(history.rate()), 50_000_000.0);
}

#[test]
fn average_and_rate_are_not_rounded() {
    let history = filled(&[1, 2]);
    assert_eq!(history.total_ns(), 3);
    assert_eq!(history.average_interval(), fraction(3, 2));
    assert_eq!(history.rate(), fraction(2_000_000_000, 3));
    assert_eq!(as_float(history.average_interval()), 1.5);
}

#[test]
fn rate_of_equal_intervals_is_the_reciprocal_of_the_interval() {
    for n in [1usize, 2, 59, 60, 200] {
        let history = filled(&vec![20_000_000u64; n]);
        let kept = n.min(60) as u128;
        assert_eq!(history.average_interval(), fraction(kept * 20_000_000, kept));
        assert_eq!(history.rate(), fraction(kept * 1_000_000_000, kept * 20_000_000));
        assert_eq!(as_float(history.average_interval()), 20_000_000.0);
        assert_eq!(as_float(history.rate()), 50.0);
    }
}

#[test]
fn rate_of_equal_intervals_is_within_tolerance_for_short_and_long_intervals() {
    let intervals_ns: [u64; 9] = [
        1_000,
        16_666_667,
        100_000_000,
        700_000_000,
        1_000_000_000,
        999_999_999_999,
        2_000_000_000_000,
        1_000_000_000_000_000,
        u64::MAX,
    ];
    for d in intervals_ns {
        for n in [1usize, 2, 7, 59, 60] {
            let history = filled(&vec![d; n]);
            let rate = history.rate();
            let average = history.average_interval();
            assert!(rate.numerator > 0);
            assert!(rate.denominator > 0);
            assert_eq!(rate.numerator * (d as u128), 1_000_000_000 * rate.denominator);
            assert_eq!(average.numerator, (d as u128) * average.denominator);
            let seconds = d as f64 / 1e9;
            let fps = as_float(rate);
            assert!(fps.is_finite() && fps > 0.0);
            assert!((fps - 1.0 / seconds).abs() <= 1e-4 * (1.0 / seconds));
            let avg_frame_ms = as_float(average) / 1e6;
            assert!((avg_frame_ms - 1000.0 * seconds).abs() <= 1e-4 * 1000.0 * seconds);
        }
    }
}

#[test]
fn rate_of_a_two_thousand_second_interval_is_not_zero() {
    let history = filled(&[2_000_000_000_000]);
    assert_eq!(history.rate(), fraction(1_000_000_000, 2_000_000_000_000));
    assert_eq!(as_float(history.rate()), 0.0005);
}

#[test]
fn rate_of_one_nanosecond_intervals() {
    let history = filled(&[1; 60]);
    assert_eq!(history.rate(), fraction(60_000_000_000, 60));
    assert_eq!(as_float(history.rate()), 1e9);
}

#[test]
fn rate_of_empty_history_is_zero() {
    let history = FrameHistory::new();
    assert_eq!(history.average_interval(), fraction(0, 1));
    assert_eq!(history.rate(), fraction(0, 1));
    assert_eq!(as_float(history.rate()), 0.0);
}

#[test]
fn rate_of_all_zero_history_is_zero() {
    let history = filled(&[0; 60]);
    assert_eq!(history.len(), 60);
    assert_eq!(history.total_ns(), 0);
    assert_eq!(history.average_interval(), fraction(0, 60));
    assert_eq!(history.rate(), fraction(0, 1));
    assert_eq!(as_float(history.average_interval()), 0.0);
    assert_eq!(as_float(history.rate()), 0.0);
}

#[test]
fn rate_counts_a_single_elapsed_nanosecond() {
    let mut intervals = vec![0u64; 59];
    intervals.push(1);
    let history = filled(&intervals);
    assert_eq!(history.average_interval(), fraction(1, 60));
    assert_eq!(history.rate(), fraction(60_000_000_000, 1));
}

#[test]
fn largest_intervals_do_not_overflow() {
    let history = filled(&[u64::MAX; 61]);
    assert_eq!(history.len(), 60);
    assert_eq!(history.total_ns(), 60 * (u64::MAX as u128));
    assert_eq!(history.average_interval(), fraction(60 * (u64::MAX as u128), 60));
    assert_eq!(history.rate(), fraction(60_000_000_000, 60 * (u64::MAX as u128)));
    assert!(as_float(history.rate()) > 0.0);
}
