use std::time::Instant;

use anevicon::summary::throughput_of;
use anevicon::summary::TestSummary;
use anevicon::timespan::TimeSpan;

/// A little computation the optimizer cannot drop, standing in for a
/// delay between two clock readings.
fn busy_work() -> u64 {
    let mut acc: u64 = 0;
    for i in 0..200_000u64 {
        acc = acc.wrapping_add(std::hint::black_box(i));
    }
    std::hint::black_box(acc)
}

#[test]
fn is_nondecreasing_clock() {
    let summary = TestSummary::new();

    let mut last_time = summary.time_passed();
    for _ in 0..50 {
        // Let a little time pass to see real results
        let _ = busy_work();

        let current_time = summary.time_passed();

        // Check that our clock is monotonically nondecreasing
        assert!(current_time.ge(&last_time));

        last_time = current_time;
    }
}

#[test]
fn is_correct_initial_value() {
    let summary = TestSummary::new();

    assert_eq!(summary.megabytes_sent(), 0);
    assert_eq!(summary.packets_sent(), 0);
    assert_eq!(summary.megabytes_in_sec(), 0);
}

#[test]
fn ordinary_updates_work() {
    let mut summary = TestSummary::new();

    summary.update(1024 * 1024 * 23, 2698);
    assert_eq!(summary.megabytes_sent(), 23);
    assert_eq!(summary.packets_sent(), 2698);

    summary.update(1024 * 1024 * 85, 4258);
    assert_eq!(summary.megabytes_sent(), 85 + 23);
    assert_eq!(summary.packets_sent(), 2698 + 4258);
}

#[test]
fn truncates_megabytes_correctly() {
    let mut summary = TestSummary::new();

    summary.update(1024 * 1023, 5338);
    assert_eq!(
        summary.megabytes_sent(),
        0,
        "'TestSummary' truncates megabytes incorrectly"
    );
    assert_eq!(summary.packets_sent(), 5338);

    // However, we must have one megabyte sent after this update
    summary.update(1024, 19);
    assert_eq!(summary.megabytes_sent(), 1);
}

#[test]
fn zero_update_works() {
    let mut summary = TestSummary::new();
    summary.update(1024 * 1024 * 85, 2698);

    summary.update(0, 0);
    assert_eq!(
        summary.megabytes_sent(),
        85,
        "'TestSummary' hasn't the same megabytes after zero-update"
    );
    assert_eq!(
        summary.packets_sent(),
        2698,
        "'TestSummary' hasn't the same packets after zero-update"
    );
}

#[test]
fn time_passed_works() {
    let mut summary = TestSummary::new();

    // Let a little time pass so that the summary's clock has a head
    // start on the one below
    let _ = busy_work();

    let initial_time = Instant::now();

    // Do arbitrary updates and busy waits that take some time
    for _ in 0..100 {
        summary.update(1024 * 1024 * 563, 54138);
        let _ = busy_work();
    }

    let time_passed = summary.time_passed();
    let elapsed = initial_time.elapsed();
    let elapsed_span = TimeSpan {
        secs: elapsed.as_secs(),
        nanos: elapsed.subsec_nanos(),
    };
    assert!(time_passed.ge(&elapsed_span));
}

#[test]
fn split_updates_accumulate_like_one() {
    // Two summaries fed the same totals, once in two steps and once in
    // a single step, agree on every counter
    let mut split = TestSummary::new();
    split.update(1500, 4);
    split.update(2500, 6);

    let mut whole = TestSummary::new();
    whole.update(1500 + 2500, 4 + 6);

    assert_eq!(split.packets_sent(), whole.packets_sent());
    assert_eq!(split.megabytes_sent(), whole.megabytes_sent());
    assert_eq!(split.bytes_sent(), whole.bytes_sent());
    assert_eq!(split.bytes_sent(), 4000);
}

#[test]
fn throughput_is_floored_average() {
    // Less than one whole second means no measurable throughput
    assert_eq!(throughput_of(500, 0), 0);

    // Otherwise whole megabytes divided by whole seconds, rounded down
    assert_eq!(throughput_of(100, 7), 14);
    assert_eq!(throughput_of(6, 7), 0);
    assert_eq!(throughput_of(21, 3), 7);
}

#[test]
fn timespan_comparison_is_exact() {
    let short = TimeSpan { secs: 3, nanos: 999_999_999 };
    let long = TimeSpan { secs: 4, nanos: 0 };

    assert!(long.ge(&short));
    assert!(!short.ge(&long));
    assert!(short.ge(&short));

    let a = TimeSpan { secs: 4, nanos: 1 };
    assert!(a.ge(&long));
    assert!(!long.ge(&a));

    let zero = TimeSpan::zero();
    assert!(zero.is_zero());
    assert!(!a.is_zero());
    assert!(a.ge(&zero));
}
