use destroyer::wipe::progress::append_eta;
use destroyer::wipe::progress::percent;
use destroyer::wipe::progress::push_num;
use destroyer::wipe::progress::push_percent;
use destroyer::wipe::progress::push_two_digits;
use destroyer::wipe::ProgressTracker;

const SECOND: u64 = 1_000_000_000;

fn num(n: u64) -> String {
    let mut line = String::new();
    push_num(&mut line, n);
    line
}

fn eta_text(eta: Option<u64>) -> String {
    let mut line = String::from("x");
    append_eta(&mut line, eta);
    line
}

#[test]
fn push_num_writes_plain_decimal() {
    assert_eq!(num(0), "0");
    assert_eq!(num(7), "7");
    assert_eq!(num(10), "10");
    assert_eq!(num(1234567890), "1234567890");
    assert_eq!(num(u64::MAX), "18446744073709551615");
    let mut line = String::from("a");
    push_num(&mut line, 42);
    push_num(&mut line, 0);
    assert_eq!(line, "a420");
}

#[test]
fn push_num_agrees_with_the_standard_formatting() {
    let mut n: u64 = 1;
    for _ in 0..64 {
        assert_eq!(num(n), format!("{}", n));
        assert_eq!(num(n - 1), format!("{}", n - 1));
        n = n.wrapping_mul(2);
    }
    for n in 0..2000u64 {
        assert_eq!(num(n), format!("{}", n));
    }
}

#[test]
fn push_two_digits_pads_with_a_zero() {
    let two = |v: u8| {
        let mut line = String::new();
        push_two_digits(&mut line, v);
        line
    };
    assert_eq!(two(0), "00");
    assert_eq!(two(5), "05");
    assert_eq!(two(10), "10");
    assert_eq!(two(59), "59");
    assert_eq!(two(99), "99");
    assert_eq!(two(123), "23");
    assert_eq!(two(255), "55");
}

#[test]
fn push_percent_is_three_columns_wide() {
    let pct = |p: u64| {
        let mut line = String::new();
        push_percent(&mut line, p);
        line
    };
    assert_eq!(pct(0), "  0");
    assert_eq!(pct(9), "  9");
    assert_eq!(pct(10), " 10");
    assert_eq!(pct(99), " 99");
    assert_eq!(pct(100), "100");
    assert_eq!(pct(101), "100");
    assert_eq!(pct(u64::MAX), "100");
}

#[test]
fn append_eta_formats_minutes_and_hours() {
    assert_eq!(eta_text(None), "x--:--");
    assert_eq!(eta_text(Some(0)), "x00:00");
    assert_eq!(eta_text(Some(59)), "x00:59");
    assert_eq!(eta_text(Some(60)), "x01:00");
    assert_eq!(eta_text(Some(3599)), "x59:59");
    assert_eq!(eta_text(Some(3600)), "x1:00:00");
    assert_eq!(eta_text(Some(3661)), "x1:01:01");
    assert_eq!(eta_text(Some(86399)), "x23:59:59");
    assert_eq!(eta_text(Some(360000)), "x100:00:00");
    assert_eq!(eta_text(Some(u64::MAX)), "x5124095576030431:00:15");
}

#[test]
fn percent_rounds_to_the_nearest_and_stops_at_100() {
    assert_eq!(percent(0, 1000), 0);
    assert_eq!(percent(4, 1000), 0);
    assert_eq!(percent(5, 1000), 1);
    assert_eq!(percent(1, 3), 33);
    assert_eq!(percent(2, 3), 67);
    assert_eq!(percent(1, 2), 50);
    assert_eq!(percent(994, 1000), 99);
    assert_eq!(percent(995, 1000), 100);
    assert_eq!(percent(1000, 1000), 100);
    assert_eq!(percent(5000, 1000), 100);
    assert_eq!(percent(u64::MAX, u64::MAX), 100);
    assert_eq!(percent(u64::MAX, 1), 100);
    assert_eq!(percent(u64::MAX / 2, u64::MAX), 50);
    assert_eq!(percent(1, u64::MAX), 0);
    assert_eq!(percent(0, 0), 0);
    assert_eq!(percent(1, 0), 100);
}

#[test]
fn percent_is_never_over_100() {
    let values: [u64; 8] = [0, 1, 2, 99, 100, 101, 1 << 40, u64::MAX];
    for &done in values.iter() {
        for &size in values.iter() {
            assert!(percent(done, size) <= 100);
        }
    }
}

#[test]
fn eta_is_unknown_before_anything_is_done() {
    assert_eq!(ProgressTracker::eta(0, 1000, 0), None);
    assert_eq!(ProgressTracker::eta(0, 1000, 5 * SECOND), None);
    assert_eq!(ProgressTracker::eta(0, 0, 5 * SECOND), None);
    assert_eq!(ProgressTracker::eta(0, u64::MAX, u64::MAX), None);
}

#[test]
fn eta_is_zero_once_the_target_is_reached() {
    assert_eq!(ProgressTracker::eta(1000, 1000, 5 * SECOND), Some(0));
    assert_eq!(ProgressTracker::eta(1001, 1000, 5 * SECOND), Some(0));
    assert_eq!(ProgressTracker::eta(1000, 1000, 0), Some(0));
    assert_eq!(ProgressTracker::eta(1, 0, SECOND), Some(0));
    assert_eq!(ProgressTracker::eta(u64::MAX, u64::MAX, 1), Some(0));
}

#[test]
fn eta_extrapolates_from_the_average_throughput() {
    // a quarter done in one second: three more seconds
    assert_eq!(ProgressTracker::eta(250, 1000, SECOND), Some(3));
    // half done in ten seconds: ten more
    assert_eq!(ProgressTracker::eta(500, 1000, 10 * SECOND), Some(10));
    // 30 of 100 in one second: 2.33.. seconds, shown as three
    assert_eq!(ProgressTracker::eta(30, 100, SECOND), Some(3));
    // one nanosecond left counts as a second
    assert_eq!(ProgressTracker::eta(SECOND, SECOND + 1, SECOND), Some(1));
    // less than a nanosecond left is nothing
    assert_eq!(ProgressTracker::eta(10, 11, 5), Some(0));
    // no time passed yet: unknown
    assert_eq!(ProgressTracker::eta(500, 1000, 0), None);
    // exactly whole seconds stay whole
    assert_eq!(ProgressTracker::eta(1, 3, SECOND), Some(2));
    assert_eq!(ProgressTracker::eta(1, 3601, SECOND), Some(3600));
}

#[test]
fn eta_stops_at_the_largest_number() {
    assert_eq!(ProgressTracker::eta(1, u64::MAX, u64::MAX), Some(u64::MAX));
    assert_eq!(
        ProgressTracker::eta(1, u64::MAX, SECOND),
        Some(u64::MAX - 1)
    );
    assert_eq!(ProgressTracker::eta(1, u64::MAX, 2 * SECOND), Some(u64::MAX));
}

#[test]
fn new_tracker_starts_at_nothing() {
    let tracker = ProgressTracker::new(3, 1000, false);
    assert_eq!(tracker.device_size(), 1000);
    assert_eq!(tracker.total_passes(), 3);
    assert_eq!(tracker.total_target_bytes(), 3000);
    assert_eq!(tracker.total_bytes_done(), 0);
    assert_eq!(tracker.pass_bytes_done(), 0);
    assert_eq!(tracker.current_pass(), 0);
    assert_eq!(tracker.status_line(), "");
    assert!(tracker.shows_status());
    assert!(tracker.finish_line());
}

#[test]
fn new_tracker_counts_at_least_one_pass_and_caps_the_target() {
    let tracker = ProgressTracker::new(0, 1000, true);
    assert_eq!(tracker.total_passes(), 1);
    assert_eq!(tracker.total_target_bytes(), 0);
    let tracker = ProgressTracker::new(3, u64::MAX, true);
    assert_eq!(tracker.total_target_bytes(), u64::MAX);
    let tracker = ProgressTracker::new(2, 1 << 63, true);
    assert_eq!(tracker.total_target_bytes(), u64::MAX);
    let tracker = ProgressTracker::new(2, (1 << 63) - 1, true);
    assert_eq!(tracker.total_target_bytes(), u64::MAX - 1);
}

#[test]
fn start_pass_resets_the_pass_counter_only() {
    let mut tracker = ProgressTracker::new(3, 1000, true);
    tracker.start_pass(1);
    tracker.record_chunk(400);
    tracker.record_chunk(600);
    assert_eq!(tracker.pass_bytes_done(), 1000);
    assert_eq!(tracker.total_bytes_done(), 1000);
    tracker.start_pass(2);
    assert_eq!(tracker.current_pass(), 2);
    assert_eq!(tracker.pass_bytes_done(), 0);
    assert_eq!(tracker.total_bytes_done(), 1000);
    assert_eq!(tracker.total_target_bytes(), 3000);
    tracker.record_chunk(1);
    assert_eq!(tracker.pass_bytes_done(), 1);
    assert_eq!(tracker.total_bytes_done(), 1001);
}

#[test]
fn record_chunk_stops_at_the_largest_number() {
    let mut tracker = ProgressTracker::new(1, 10, true);
    tracker.start_pass(1);
    tracker.record_chunk(u64::MAX - 1);
    tracker.record_chunk(5);
    assert_eq!(tracker.pass_bytes_done(), u64::MAX);
    assert_eq!(tracker.total_bytes_done(), u64::MAX);
}

#[test]
fn total_done_never_exceeds_the_target_over_a_full_run() {
    let passes: usize = 5;
    let device: u64 = 10_000;
    let mut tracker = ProgressTracker::new(passes, device, true);
    for pass in 1..=passes {
        tracker.start_pass(pass);
        let mut left = device;
        while left > 0 {
            let chunk = left.min(4096);
            tracker.record_chunk(chunk);
            left -= chunk;
            assert!(tracker.total_bytes_done() <= tracker.total_target_bytes());
            assert!(tracker.pass_bytes_done() <= device);
        }
    }
    assert_eq!(tracker.total_bytes_done(), tracker.total_target_bytes());
}

#[test]
fn quiet_tracker_renders_nothing() {
    let mut tracker = ProgressTracker::new(1, 1000, true);
    tracker.start_pass(1);
    tracker.record_chunk(500);
    assert_eq!(tracker.status_line(), "");
    assert!(!tracker.shows_status());
    assert!(!tracker.finish_line());
}

#[test]
fn tracker_of_an_empty_device_renders_nothing() {
    let mut tracker = ProgressTracker::new(1, 0, false);
    tracker.start_pass(1);
    tracker.record_chunk(0);
    assert_eq!(tracker.status_line(), "");
    assert!(!tracker.shows_status());
    assert!(tracker.finish_line());
}

#[test]
fn render_status_gives_the_whole_line() {
    let mut tracker = ProgressTracker::new(8, 1000, true);
    tracker.start_pass(1);
    assert_eq!(
        tracker.render_status(SECOND, SECOND),
        "\rPass 1/8 | Progress:   0% | Pass ETA: --:-- | Total ETA: --:--"
    );
    tracker.record_chunk(250);
    assert_eq!(
        tracker.render_status(SECOND, SECOND),
        "\rPass 1/8 | Progress:  25% | Pass ETA: 00:03 | Total ETA: 00:31"
    );
    tracker.record_chunk(750);
    assert_eq!(
        tracker.render_status(4 * SECOND, 4 * SECOND),
        "\rPass 1/8 | Progress: 100% | Pass ETA: 00:00 | Total ETA: 00:28"
    );
    tracker.start_pass(2);
    tracker.record_chunk(1);
    assert_eq!(
        tracker.render_status(SECOND, 3600 * SECOND),
        "\rPass 2/8 | Progress:   0% | Pass ETA: 16:39 | Total ETA: 6:59:32"
    );
}

#[test]
fn record_chunk_renews_the_status_line() {
    let mut tracker = ProgressTracker::new(2, 1000, false);
    tracker.start_pass(1);
    tracker.record_chunk(500);
    let line = tracker.status_line().to_string();
    assert!(line.starts_with("\rPass 1/2 | Progress:  50% | Pass ETA: "));
    assert!(line.contains(" | Total ETA: "));
    tracker.record_chunk(500);
    let line = tracker.status_line().to_string();
    assert!(line.starts_with("\rPass 1/2 | Progress: 100% | Pass ETA: 00:00 | Total ETA: "));
    tracker.start_pass(2);
    tracker.record_chunk(1000);
    assert_eq!(
        tracker.status_line(),
        "\rPass 2/2 | Progress: 100% | Pass ETA: 00:00 | Total ETA: 00:00"
    );
}
