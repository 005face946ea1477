//! Ring-buffer hand-off and wake coalescing, run against the real lock-free
//! ring buffer.

use heronote_audio::bridge::{CaptureBridge, SAMPLES_PER_CHUNK, BUFFER_CAPACITY_MULTIPLIER};

fn words(values: &[u32]) -> Vec<u32> {
    values.to_vec()
}

#[test]
fn pushing_within_capacity_drops_nothing() {
    let mut bridge = CaptureBridge::new(4, 8, 48000);
    bridge.deliver(&words(&[1, 2, 3]));
    bridge.deliver(&words(&[4, 5]));
    assert_eq!(bridge.dropped_samples(), 0);
    assert_eq!(bridge.poll_chunk(), Some(vec![1, 2, 3, 4]));
    assert_eq!(bridge.poll_chunk(), Some(vec![5]));
}

#[test]
fn overflow_drops_exactly_the_excess_and_keeps_the_prefix() {
    let mut bridge = CaptureBridge::new(16, 4, 48000);
    // Nine samples against four free slots: exactly five are dropped and
    // the accepted prefix is preserved in order.
    bridge.deliver(&words(&[10, 11, 12, 13, 14, 15, 16, 17, 18]));
    assert_eq!(bridge.dropped_samples(), 5);
    assert_eq!(bridge.poll_chunk(), Some(vec![10, 11, 12, 13]));
    // With room again, a fitting delivery drops nothing more.
    bridge.deliver(&words(&[20, 21]));
    assert_eq!(bridge.dropped_samples(), 5);
    assert_eq!(bridge.poll_chunk(), Some(vec![20, 21]));
}

#[test]
fn polling_an_empty_bridge_reports_pending() {
    let mut bridge = CaptureBridge::new(4, 8, 48000);
    assert_eq!(bridge.poll_chunk(), None);
}

#[test]
fn consecutive_pushes_wake_at_most_once() {
    let mut bridge = CaptureBridge::new(4, 64, 48000);
    // The consumer polls, finds nothing, and parks.
    assert_eq!(bridge.poll_chunk(), None);
    // Many deliveries before it polls again: only the first one wakes it.
    let mut wakes = 0;
    for v in 0..10u32 {
        if bridge.deliver(&words(&[v])) {
            wakes += 1;
        }
    }
    assert_eq!(wakes, 1);
    // After the consumer drains everything and parks again, one more wake
    // is due.
    while bridge.poll_chunk().is_some() {}
    assert!(bridge.deliver(&words(&[99])));
    assert!(!bridge.deliver(&words(&[100])));
}

#[test]
fn no_wake_without_a_parked_consumer() {
    let mut bridge = CaptureBridge::new(4, 8, 48000);
    // Nobody is parked, so a delivery must not signal a wake.
    assert!(!bridge.deliver(&words(&[1])));
}

#[test]
fn chunks_are_bounded_by_the_chunk_size() {
    let mut bridge = CaptureBridge::new(2, 8, 48000);
    bridge.deliver(&words(&[1, 2, 3, 4, 5]));
    assert_eq!(bridge.poll_chunk(), Some(vec![1, 2]));
    assert_eq!(bridge.poll_chunk(), Some(vec![3, 4]));
    assert_eq!(bridge.poll_chunk(), Some(vec![5]));
    assert_eq!(bridge.poll_chunk(), None);
}

#[test]
fn observed_rate_changes_are_reported_once() {
    let mut bridge = CaptureBridge::new(4, 8, 44100);
    assert_eq!(bridge.current_sample_rate(), 44100);
    assert!(!bridge.observe_rate(44100));
    assert!(bridge.observe_rate(48000));
    assert!(!bridge.observe_rate(48000));
    assert_eq!(bridge.current_sample_rate(), 48000);
}

#[test]
fn default_capacity_absorbs_over_a_second_at_48khz() {
    assert!(SAMPLES_PER_CHUNK * BUFFER_CAPACITY_MULTIPLIER >= 48000);
}

#[test]
fn sample_words_round_trip_bit_patterns() {
    // The bridge carries the bit patterns of normalized samples unchanged.
    let samples = [0.5f32, -1.0, 0.25, 0.0];
    let mut bridge = CaptureBridge::new(4, 8, 48000);
    let bits: Vec<u32> = samples.iter().map(|s| s.to_bits()).collect();
    bridge.deliver(&bits);
    let out = bridge.poll_chunk().unwrap();
    let floats: Vec<f32> = out.iter().map(|&w| f32::from_bits(w)).collect();
    assert_eq!(floats, samples.to_vec());
}
