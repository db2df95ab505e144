use voice_input::downloader::{DownloadRetry, ProgressNotifier, ProgressTracker};

/// A scripted transfer: each attempt either fails outright or delivers the
/// file in fixed-size chunks through the verified bookkeeping.
struct SimulatedNetwork {
    failures_before_success: usize,
    attempts_made: usize,
}

impl SimulatedNetwork {
    fn attempt(&mut self) -> bool {
        self.attempts_made += 1;
        self.attempts_made > self.failures_before_success
    }
}

#[test]
fn third_attempt_succeeds_after_two_backoffs() {
    // A 10-chunk model over a network that fails the first two attempts and
    // succeeds on the third: the received bytes equal the expected length,
    // and exactly two backoff delays were observed before success.
    let chunk: u64 = 8192;
    let chunks: u64 = 10;
    let total = chunk * chunks;

    let mut network = SimulatedNetwork { failures_before_success: 2, attempts_made: 0 };
    let mut retry = DownloadRetry::new(3);
    let mut delays: Vec<u64> = Vec::new();
    let mut received: u64 = 0;
    let mut final_percent: Option<u8> = None;

    while retry.can_attempt() {
        if network.attempt() {
            let mut tracker = ProgressTracker::new(total, 0);
            let mut now: u64 = 0;
            received = 0;
            for _ in 0..chunks {
                now += 250;
                if let Some((percent, _eta)) = tracker.on_chunk(chunk, now) {
                    final_percent = Some(percent);
                }
                received += chunk;
            }
            break;
        } else if let Some(delay) = retry.on_failure() {
            delays.push(delay);
        }
    }

    assert_eq!(received, total);
    assert_eq!(delays, vec![2, 4]);
    assert_eq!(network.attempts_made, 3);
    assert_eq!(final_percent, Some(100));
}

#[test]
fn retry_gives_up_after_the_ceiling() {
    let mut retry = DownloadRetry::new(3);
    assert!(retry.can_attempt());
    assert_eq!(retry.on_failure(), Some(2));
    assert!(retry.can_attempt());
    assert_eq!(retry.on_failure(), Some(4));
    assert!(retry.can_attempt());
    assert_eq!(retry.on_failure(), None);
    assert!(!retry.can_attempt());
}

#[test]
fn emitted_percents_never_decrease_and_end_at_100() {
    let total: u64 = 1000;
    let mut tracker = ProgressTracker::new(total, 0);
    let mut now: u64 = 0;
    let mut emitted: Vec<u8> = Vec::new();
    for _ in 0..10 {
        now += 300;
        if let Some((percent, _)) = tracker.on_chunk(100, now) {
            emitted.push(percent);
        }
    }
    assert!(!emitted.is_empty());
    for pair in emitted.windows(2) {
        assert!(pair[0] <= pair[1]);
    }
    assert_eq!(*emitted.last().unwrap(), 100);
}

#[test]
fn reports_are_throttled_between_chunks() {
    let total: u64 = 1000;
    let mut tracker = ProgressTracker::new(total, 0);
    // Well inside the 200 ms interval and not the final chunk: no report.
    assert_eq!(tracker.on_chunk(100, 50), None);
    // Past the interval: a report with the exact integer percent.
    let (percent, _eta) = tracker.on_chunk(150, 250).expect("interval passed");
    assert_eq!(percent, 25);
    // The final chunk always reports, even right after the last one.
    let (percent, _eta) = tracker.on_chunk(750, 260).expect("final chunk");
    assert_eq!(percent, 100);
}

#[test]
fn unknown_total_reports_nothing() {
    let mut tracker = ProgressTracker::new(0, 0);
    assert_eq!(tracker.on_chunk(0, 500), None);
}

#[test]
fn eta_comes_from_throughput() {
    // 500 bytes in 2 seconds leaves 500 bytes at 250 bytes/s: 2 seconds.
    let mut tracker = ProgressTracker::new(1000, 0);
    let (percent, eta) = tracker.on_chunk(500, 2000).expect("interval passed");
    assert_eq!(percent, 50);
    assert_eq!(eta, 2);
}

#[test]
fn notifier_forwards_only_changed_percents() {
    let mut notifier = ProgressNotifier::new();
    assert!(notifier.on_progress(0));
    assert!(!notifier.on_progress(0));
    assert!(notifier.on_progress(1));
    assert!(!notifier.on_progress(1));
    assert!(notifier.on_progress(2));
}
