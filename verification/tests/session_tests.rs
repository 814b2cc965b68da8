//! Session lifecycle tests: state transitions, collection, evaluation,
//! reset, and the error taxonomy. Sample values are fixed-point thousandths:
//! 900 stands for 0.9.

use device_session::CollectOutcome;
use device_session::CollectionWindow;
use device_session::DeviceSession;
use device_session::Ratio;
use device_session::SampleSource;
use device_session::SessionError;
use device_session::SignalChannel;
use device_session::ThresholdConfig;

fn fresh_session(id: &str) -> DeviceSession {
    DeviceSession::new(id.to_string(), 16)
}

fn consumed_channel(capacity: usize) -> SignalChannel {
    let mut c = SignalChannel::new(capacity);
    c.attach_consumer();
    c
}

#[test]
fn second_disconnect_fails_not_connected() {
    let mut s = fresh_session("D1");
    assert_eq!(s.connect(), Ok(()));
    assert_eq!(s.disconnect(), Ok(()));
    assert_eq!(s.disconnect(), Err(SessionError::NotConnected));
}

#[test]
fn second_connect_fails_already_connected() {
    let mut s = fresh_session("D2");
    assert_eq!(s.connect(), Ok(()));
    assert_eq!(s.connect(), Err(SessionError::AlreadyConnected));
}

#[test]
fn zero_duration_window_collects_nothing() {
    let mut s = fresh_session("D3");
    s.connect().unwrap();
    let window = CollectionWindow::new(0, 100);
    let mut source = SampleSource::scripted(vec![900]);
    let mut channel = consumed_channel(4);
    let outcome = s.collect(&window, &mut source, &mut channel, None);
    assert_eq!(outcome, Ok(CollectOutcome::Completed));
    assert_eq!(s.buffer_len(), 0);
    assert!(matches!(s.aggregate(), Err(SessionError::EmptyBuffer)));
}

#[test]
fn collect_requires_connection() {
    let mut s = fresh_session("D4");
    let window = CollectionWindow::new(300, 100);
    let mut source = SampleSource::scripted(vec![900]);
    let mut channel = consumed_channel(4);
    let outcome = s.collect(&window, &mut source, &mut channel, None);
    assert_eq!(outcome, Err(SessionError::NotConnected));
    assert_eq!(s.buffer_len(), 0);
}

#[test]
fn unconsumed_channel_is_reported() {
    let mut s = fresh_session("D5");
    s.connect().unwrap();
    let window = CollectionWindow::new(300, 100);
    let mut source = SampleSource::scripted(vec![900]);
    let mut channel = SignalChannel::new(4);
    let outcome = s.collect(&window, &mut source, &mut channel, None);
    assert_eq!(outcome, Err(SessionError::ChannelClosedOrUnconsumed));
    assert_eq!(s.buffer_len(), 0);
}

#[test]
fn collect_fills_buffer_in_generation_order() {
    let mut s = fresh_session("D6");
    s.connect().unwrap();
    // duration 500 / poll 100 yields exactly five samples
    let window = CollectionWindow::new(500, 100);
    let mut source = SampleSource::scripted(vec![10, 20, 30]);
    let mut channel = consumed_channel(8);
    let outcome = s.collect(&window, &mut source, &mut channel, None);
    assert_eq!(outcome, Ok(CollectOutcome::Completed));
    assert_eq!(s.buffer, vec![10, 20, 30, 10, 20]);
}

#[test]
fn full_channel_throttles_but_keeps_order() {
    let mut s = fresh_session("D7");
    s.connect().unwrap();
    let window = CollectionWindow::new(400, 100);
    let mut source = SampleSource::scripted(vec![1, 2, 3, 4]);
    // capacity one: every send after the first drains the previous sample
    let mut channel = consumed_channel(1);
    let outcome = s.collect(&window, &mut source, &mut channel, None);
    assert_eq!(outcome, Ok(CollectOutcome::Completed));
    assert_eq!(s.buffer, vec![1, 2, 3, 4]);
    assert_eq!(channel.len(), 0);
}

#[test]
fn cancellation_keeps_partial_buffer() {
    let mut s = fresh_session("D8");
    s.connect().unwrap();
    let window = CollectionWindow::new(500, 100);
    let mut source = SampleSource::scripted(vec![7, 8, 9]);
    let mut channel = consumed_channel(8);
    let outcome = s.collect(&window, &mut source, &mut channel, Some(2));
    assert_eq!(outcome, Ok(CollectOutcome::Cancelled));
    assert_eq!(s.buffer, vec![7, 8]);
}

#[test]
fn cancellation_budget_beyond_window_completes() {
    let mut s = fresh_session("D9");
    s.connect().unwrap();
    let window = CollectionWindow::new(200, 100);
    let mut source = SampleSource::scripted(vec![5]);
    let mut channel = consumed_channel(2);
    let outcome = s.collect(&window, &mut source, &mut channel, Some(10));
    assert_eq!(outcome, Ok(CollectOutcome::Completed));
    assert_eq!(s.buffer, vec![5, 5]);
}

#[test]
fn evaluate_above_threshold_multiplies_factor_once() {
    let mut s = fresh_session("E1");
    s.connect().unwrap();
    s.push_sample(900).unwrap();
    s.push_sample(800).unwrap();
    let config = ThresholdConfig::new(700, Ratio::new(3, 2), 0);
    let fired = s.evaluate(&config);
    assert_eq!(fired, Ok(true));
    assert_eq!(s.factor, Ratio::new(3, 2));
    // the buffer is untouched by evaluation
    assert_eq!(s.buffer, vec![900, 800]);
}

#[test]
fn evaluate_at_or_below_threshold_keeps_factor() {
    let mut s = fresh_session("E2");
    s.connect().unwrap();
    s.push_sample(700).unwrap();
    s.push_sample(700).unwrap();
    let config = ThresholdConfig::new(700, Ratio::new(3, 2), 0);
    // the mean equals the threshold exactly: strictly-above does not fire
    let fired = s.evaluate(&config);
    assert_eq!(fired, Ok(false));
    assert_eq!(s.factor, Ratio::new(1, 1));
}

#[test]
fn evaluate_empty_buffer_fails() {
    let mut s = fresh_session("E3");
    let config = ThresholdConfig::new(700, Ratio::new(3, 2), 0);
    assert_eq!(s.evaluate(&config), Err(SessionError::EmptyBuffer));
}

#[test]
fn push_sample_requires_connection() {
    let mut s = fresh_session("E4");
    assert_eq!(s.push_sample(1), Err(SessionError::NotConnected));
    assert_eq!(s.buffer_len(), 0);
}

#[test]
fn reset_clears_buffer_and_nothing_else() {
    let mut s = fresh_session("R1");
    s.connect().unwrap();
    let window = CollectionWindow::new(300, 100);
    let mut source = SampleSource::scripted(vec![900]);
    let mut channel = consumed_channel(4);
    s.collect(&window, &mut source, &mut channel, None).unwrap();
    assert!(s.buffer_len() > 0);
    let factor_before = s.factor;
    s.reset();
    assert_eq!(s.buffer_len(), 0);
    assert!(s.is_connected());
    assert_eq!(s.factor, factor_before);
}

#[test]
fn seeded_samples_stay_within_range() {
    let mut s = fresh_session("S1");
    s.connect().unwrap();
    let window = CollectionWindow::new(2000, 100);
    let mut source = SampleSource::seeded(42, 0, 1000);
    let mut channel = consumed_channel(8);
    s.collect(&window, &mut source, &mut channel, None).unwrap();
    assert_eq!(s.buffer_len(), 20);
    for &v in s.buffer.iter() {
        assert!((0..=1000).contains(&v));
    }
}

#[test]
fn error_labels_are_stable() {
    assert_eq!(
        SessionError::AlreadyConnected.describe(),
        "connection already established"
    );
    assert_eq!(SessionError::NotConnected.describe(), "device not connected");
    assert_eq!(SessionError::EmptyBuffer.describe(), "no samples collected");
    assert_eq!(
        SessionError::ChannelClosedOrUnconsumed.describe(),
        "channel closed or has no consumer"
    );
    assert_eq!(SessionError::TaskFailure.describe(), "concurrent task aborted");
}

#[test]
fn channel_is_fifo_and_bounded() {
    let mut c = SignalChannel::new(2);
    assert_eq!(
        c.try_send(1),
        Err(SessionError::ChannelClosedOrUnconsumed)
    );
    c.attach_consumer();
    assert_eq!(c.try_send(1), Ok(true));
    assert_eq!(c.try_send(2), Ok(true));
    // full: backpressure
    assert_eq!(c.try_send(3), Ok(false));
    assert_eq!(c.len(), 2);
    assert_eq!(c.try_receive(), Some(1));
    assert_eq!(c.try_send(3), Ok(true));
    assert_eq!(c.try_receive(), Some(2));
    assert_eq!(c.try_receive(), Some(3));
    assert_eq!(c.try_receive(), None);
    assert_eq!(c.capacity(), 2);
}
