use beat_pong::beats::{beats_to_intervals, Intervals};

#[test]
fn intervals_are_consecutive_differences() {
    let beats = vec![0, 500, 1_300, 2_000];
    let intervals = beats_to_intervals(&beats);
    assert_eq!(intervals, vec![500, 800, 700]);
}

#[test]
fn intervals_of_short_runs_are_empty() {
    let none: Vec<i64> = vec![];
    assert_eq!(beats_to_intervals(&none).len(), 0);
    assert_eq!(beats_to_intervals(&vec![42]).len(), 0);
}

#[test]
fn queue_pops_most_recent_interval_first() {
    // Timestamps 0.0, 0.5, 1.3, 2.0 give intervals 0.5, 0.8, 0.7; the queue
    // hands them out reversed: 0.7, 0.8, 0.5, then the fallback 0 forever.
    let beats = vec![0, 500, 1_300, 2_000];
    let mut queue = Intervals::new(&beats);
    assert_eq!(queue.len(), 3);
    assert_eq!(queue.pop(), 700);
    assert_eq!(queue.pop(), 800);
    assert_eq!(queue.pop(), 500);
    assert_eq!(queue.pop(), 0);
    assert_eq!(queue.pop(), 0);
    assert_eq!(queue.len(), 0);
}

#[test]
fn queue_of_one_beat_is_empty() {
    let mut queue = Intervals::new(&vec![900]);
    assert_eq!(queue.len(), 0);
    assert_eq!(queue.pop(), 0);
}

#[test]
fn queue_keeps_equal_timestamps_as_zero_intervals() {
    let mut queue = Intervals::new(&vec![100, 100, 400]);
    assert_eq!(queue.pop(), 300);
    assert_eq!(queue.pop(), 0);
    assert_eq!(queue.pop(), 0);
}
