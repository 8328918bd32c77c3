use anevicon::attack::check_end_cond;
use anevicon::attack::random_buffer;
use anevicon::attack::AttackState;
use anevicon::attack::Verdict;
use anevicon::config::AttackConfig;
use anevicon::summary::TestSummary;
use anevicon::timespan::TimeSpan;

/// A configuration whose duration is far away, so that only the packet
/// count decides, unless a test says otherwise.
fn test_config() -> AttackConfig {
    AttackConfig {
        duration: TimeSpan { secs: 3600, nanos: 0 },
        length: 1024,
        wait: TimeSpan::zero(),
        send_periodicity: TimeSpan::zero(),
        display_periodicity: 300,
        packets: 25,
        send_timeout: None,
        debug: false,
    }
}

#[test]
fn generates_random_buffer() {
    let length = 35684;
    let buffer = random_buffer(length);

    // Check that we've got the correct length and capacity
    assert_eq!(buffer.len(), length);
    assert!(buffer.capacity() >= length);
}

#[test]
fn buffer_is_filled_with_random_bytes() {
    // A payload of the largest size is, with overwhelming likelihood,
    // not all zeros; were the generator a no-op it would stay zeroed
    let buffer = random_buffer(65000);
    assert_eq!(buffer.len(), 65000);
    assert!(buffer.iter().any(|b| *b != 0));

    // The smallest allowed payload is a single byte
    assert_eq!(random_buffer(1).len(), 1);
}

#[test]
fn end_condition_fires_exactly_at_packet_count() {
    let config = test_config();
    let not_yet = TimeSpan::zero();

    let mut summary = TestSummary::new();
    summary.update(1024 * 24, 24);
    assert!(!check_end_cond(&summary, not_yet, &config));

    summary.update(1024, 1);
    assert!(check_end_cond(&summary, not_yet, &config));
}

#[test]
fn end_condition_fires_once_duration_has_passed() {
    let mut config = test_config();
    config.duration = TimeSpan { secs: 2, nanos: 500 };

    // No packets sent at all: the duration branch decides alone
    let summary = TestSummary::new();
    assert!(!check_end_cond(
        &summary,
        TimeSpan { secs: 2, nanos: 499 },
        &config
    ));
    assert!(check_end_cond(
        &summary,
        TimeSpan { secs: 2, nanos: 500 },
        &config
    ));
    assert!(check_end_cond(&summary, TimeSpan { secs: 3, nanos: 0 }, &config));
}

#[test]
fn run_stops_after_exactly_the_configured_packets() {
    let mut config = test_config();
    config.display_periodicity = 10;
    let not_yet = TimeSpan::zero();

    let mut state = AttackState::begin();
    let mut sends = 0;
    loop {
        let verdict = state.on_send_success(1024, not_yet, &config);
        sends += 1;
        match verdict {
            Verdict::Stop => break,
            Verdict::Report | Verdict::Continue => {
                assert!(sends < 25, "the run failed to stop at the packet limit");
            }
        }
    }

    assert_eq!(sends, 25);
    let summary = state.into_summary();
    assert_eq!(summary.packets_sent(), 25);
    assert_eq!(summary.bytes_sent(), 25 * 1024);
}

#[test]
fn batches_are_reported_every_display_periodicity_sends() {
    let mut config = test_config();
    config.display_periodicity = 3;
    config.packets = 7;
    let not_yet = TimeSpan::zero();

    let mut state = AttackState::begin();
    let mut verdicts = Vec::new();
    loop {
        let verdict = state.on_send_success(10, not_yet, &config);
        verdicts.push(verdict);
        if verdict == Verdict::Stop {
            break;
        }
    }

    assert_eq!(
        verdicts,
        vec![
            Verdict::Continue,
            Verdict::Continue,
            Verdict::Report,
            Verdict::Continue,
            Verdict::Continue,
            Verdict::Report,
            Verdict::Stop,
        ]
    );
}

#[test]
fn duration_branch_stops_before_the_packet_branch() {
    // The clock reading already exceeds the configured duration, so the
    // very first send is also the last, though many packets are owed
    let mut config = test_config();
    config.duration = TimeSpan { secs: 0, nanos: 1 };
    config.packets = 1000;

    let mut state = AttackState::begin();
    let late = TimeSpan { secs: 0, nanos: 2 };
    assert_eq!(state.on_send_success(1024, late, &config), Verdict::Stop);
    let summary = state.into_summary();
    assert_eq!(summary.packets_sent(), 1);
    assert!(summary.packets_sent() < 1000);
}

#[test]
fn config_validation_checks_every_bound() {
    let good = test_config();
    assert!(good.is_valid());

    let mut zero_length = good;
    zero_length.length = 0;
    assert!(!zero_length.is_valid());

    let mut oversized = good;
    oversized.length = 65001;
    assert!(!oversized.is_valid());

    let mut no_batch = good;
    no_batch.display_periodicity = 0;
    assert!(!no_batch.is_valid());

    let mut no_packets = good;
    no_packets.packets = 0;
    assert!(!no_packets.is_valid());

    let mut bad_span = good;
    bad_span.duration = TimeSpan { secs: 1, nanos: 1_000_000_000 };
    assert!(!bad_span.is_valid());

    let mut bad_timeout = good;
    bad_timeout.send_timeout = Some(TimeSpan { secs: 0, nanos: 2_000_000_000 });
    assert!(!bad_timeout.is_valid());
}
