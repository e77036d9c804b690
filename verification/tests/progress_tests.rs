//! ProgressTracker behaviour on synthetic progress events.

use grm::progress::{percent, ProgressTracker, TransferPhase};

#[test]
fn percent_of_zero_total_is_zero() {
    assert_eq!(percent(0, 0), 0);
    assert_eq!(percent(7, 0), 0);
}

#[test]
fn percent_is_clamped_to_one_hundred() {
    assert_eq!(percent(15, 10), 100);
    assert_eq!(percent(10, 10), 100);
}

#[test]
fn percent_exact_values() {
    assert_eq!(percent(1, 4), 25);
    assert_eq!(percent(5, 10), 50);
    assert_eq!(percent(1, 3), 33);
    assert_eq!(percent(0, 10), 0);
}

#[test]
fn transfer_with_zero_total_reports_zero_percent() {
    let mut tracker = ProgressTracker::new(b"/ws/x".to_vec());
    let report = tracker.report_transfer(0, 0, 0, 0, 0, 0);
    assert_eq!(report.network_percent, 0);
    assert_eq!(report.index_percent, 0);
    assert_eq!(report.checkout_percent, 0);
    assert!(report.network_percent <= 100);
}

#[test]
fn receiving_phase_reports_percentages() {
    let mut tracker = ProgressTracker::new(b"/ws/x".to_vec());
    let report = tracker.report_transfer(5, 10, 2, 0, 0, 4096);
    assert_eq!(report.phase, TransferPhase::Receiving);
    assert!(!report.emit_newline_first);
    assert_eq!(report.network_percent, 50);
    assert_eq!(report.index_percent, 20);
    assert_eq!(report.transferred_kbytes, 4);
}

#[test]
fn delta_phase_transition_emits_one_newline() {
    let mut tracker = ProgressTracker::new(b"/ws/x".to_vec());
    // A receiving line opens the status line.
    let first = tracker.report_transfer(5, 10, 2, 0, 0, 0);
    assert_eq!(first.phase, TransferPhase::Receiving);
    assert!(!first.emit_newline_first);
    // All objects received: the delta phase starts, closing the open line.
    let second = tracker.report_transfer(10, 10, 10, 1, 8, 0);
    assert_eq!(second.phase, TransferPhase::ResolvingDeltas);
    assert!(second.emit_newline_first);
    // Further delta reports ask for no further newline.
    let third = tracker.report_transfer(10, 10, 10, 5, 8, 0);
    assert_eq!(third.phase, TransferPhase::ResolvingDeltas);
    assert!(!third.emit_newline_first);
}

#[test]
fn checkout_counters_feed_the_transfer_line() {
    let mut tracker = ProgressTracker::new(b"/ws/x".to_vec());
    tracker.report_checkout(Some(b"/ws/x/file".to_vec()), 3, 4);
    assert_eq!(tracker.completed_units, 3);
    assert_eq!(tracker.total_units, 4);
    assert_eq!(tracker.working_path, b"/ws/x/file".to_vec());
    let report = tracker.report_transfer(5, 10, 2, 0, 0, 0);
    assert_eq!(report.checkout_percent, 75);
}

#[test]
fn checkout_without_path_clears_the_working_path() {
    let mut tracker = ProgressTracker::new(b"/ws/x".to_vec());
    tracker.report_checkout(None, 0, 0);
    assert_eq!(tracker.working_path, b"".to_vec());
}

#[test]
fn report_carries_the_raw_counts() {
    let mut tracker = ProgressTracker::new(b"/ws/x".to_vec());
    let report = tracker.report_transfer(7, 9, 6, 2, 5, 2048);
    assert_eq!(report.received_objects, 7);
    assert_eq!(report.total_objects, 9);
    assert_eq!(report.indexed_objects, 6);
    assert_eq!(report.indexed_deltas, 2);
    assert_eq!(report.total_deltas, 5);
}

#[test]
fn rendered_receiving_line_is_exact() {
    let mut tracker = ProgressTracker::new(b"/ws/x".to_vec());
    let report = tracker.report_transfer(5, 10, 2, 0, 0, 4096);
    let line = tracker.status_line(&report);
    assert_eq!(
        String::from_utf8(line).unwrap(),
        "Receiving objects:  50% (   4 kb,     5/   10) / idx  20% (    2/   10) / chk   0% (   0/   0) /ws/x\r"
    );
}

#[test]
fn rendered_line_sequence_closes_the_open_line_once() {
    let mut tracker = ProgressTracker::new(b"/ws/x".to_vec());
    let first = tracker.report_transfer(5, 10, 2, 0, 0, 0);
    let first_line = tracker.status_line(&first);
    assert!(first_line.starts_with(b"Receiving objects:"));
    assert!(first_line.ends_with(b"\r"));
    let second = tracker.report_transfer(10, 10, 10, 1, 8, 0);
    let second_line = tracker.status_line(&second);
    assert_eq!(String::from_utf8(second_line).unwrap(), "\nResolving deltas: 1/8\r");
    let third = tracker.report_transfer(10, 10, 10, 5, 8, 0);
    let third_line = tracker.status_line(&third);
    assert_eq!(String::from_utf8(third_line).unwrap(), "Resolving deltas: 5/8\r");
}

#[test]
fn rendered_line_tracks_checkout_counters() {
    let mut tracker = ProgressTracker::new(b"/ws/x".to_vec());
    tracker.report_checkout(Some(b"/ws/x/a".to_vec()), 30, 40);
    let report = tracker.report_transfer(5, 10, 2, 0, 0, 0);
    let line = tracker.status_line(&report);
    assert_eq!(
        String::from_utf8(line).unwrap(),
        "Receiving objects:  50% (   0 kb,     5/   10) / idx  20% (    2/   10) / chk  75% (  30/  40) /ws/x/a\r"
    );
}

#[test]
fn fetch_progress_line_is_exact() {
    let line = grm::progress::fetch_progress_line(42);
    assert_eq!(String::from_utf8(line).unwrap(), "total objects: 42 \r");
    let empty = grm::progress::fetch_progress_line(0);
    assert_eq!(String::from_utf8(empty).unwrap(), "total objects: 0 \r");
}
