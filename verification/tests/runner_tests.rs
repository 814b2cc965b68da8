//! Whole-cycle and batch tests: the end-to-end example, session
//! independence, and the batch error summary.

use device_session::CollectOutcome;
use device_session::CollectionWindow;
use device_session::DeviceSession;
use device_session::Ratio;
use device_session::SampleSource;
use device_session::SessionError;
use device_session::SessionRun;
use device_session::SignalChannel;
use device_session::ThresholdConfig;
use device_session::runner::all_succeeded;
use device_session::runner::exit_code;
use device_session::runner::first_error;
use device_session::runner::run_all;
use device_session::runner::run_cycle;

fn scripted_run(id: &str, script: Vec<i64>) -> SessionRun {
    let mut channel = SignalChannel::new(8);
    channel.attach_consumer();
    SessionRun {
        session: DeviceSession::new(id.to_string(), 8),
        source: SampleSource::scripted(script),
        channel,
    }
}

fn seeded_run(id: &str, seed: u64) -> SessionRun {
    let mut channel = SignalChannel::new(8);
    channel.attach_consumer();
    SessionRun {
        session: DeviceSession::new(id.to_string(), 8),
        source: SampleSource::seeded(seed, 0, 1000),
        channel,
    }
}

#[test]
fn end_to_end_x1_fires_and_x2_does_not() {
    // X1: threshold 0.7, multiplier 1.5, buffer [0.9, 0.9, 0.9] in
    // thousandths; the mean is 0.9, the action fires, the factor becomes 1.5
    let config = ThresholdConfig::new(700, Ratio::new(3, 2), 0);
    let mut x1 = scripted_run("X1", vec![900, 900, 900]);
    let window = CollectionWindow::new(300, 100);
    let report = run_cycle(&mut x1, &window, &config, None).unwrap();
    assert_eq!(report.aggregate.sum, 2700);
    assert_eq!(report.aggregate.count, 3);
    assert!(report.action_fired);
    assert_eq!(report.outcome, CollectOutcome::Completed);
    assert_eq!(x1.session.factor, Ratio::new(3, 2));
    assert_eq!(x1.session.buffer_len(), 0);
    assert!(!x1.session.is_connected());

    // X2: buffer [0.1, 0.2]; the mean is 0.15, below the threshold, the
    // factor stays one
    let mut x2 = scripted_run("X2", vec![100, 200]);
    let window2 = CollectionWindow::new(200, 100);
    let report2 = run_cycle(&mut x2, &window2, &config, None).unwrap();
    assert_eq!(report2.aggregate.sum, 300);
    assert_eq!(report2.aggregate.count, 2);
    assert!(!report2.action_fired);
    assert_eq!(x2.session.factor, Ratio::new(1, 1));
}

#[test]
fn cycle_on_connected_session_fails() {
    let config = ThresholdConfig::new(700, Ratio::new(3, 2), 0);
    let window = CollectionWindow::new(300, 100);
    let mut run = scripted_run("C1", vec![1]);
    run.session.connect().unwrap();
    assert_eq!(
        run_cycle(&mut run, &window, &config, None),
        Err(SessionError::AlreadyConnected)
    );
}

#[test]
fn cycle_with_empty_window_reports_empty_buffer() {
    let config = ThresholdConfig::new(700, Ratio::new(3, 2), 0);
    let window = CollectionWindow::new(0, 100);
    let mut run = scripted_run("C2", vec![1]);
    assert_eq!(
        run_cycle(&mut run, &window, &config, None),
        Err(SessionError::EmptyBuffer)
    );
}

#[test]
fn cancelled_cycle_reports_cancellation() {
    let config = ThresholdConfig::new(100, Ratio::new(2, 1), 0);
    let window = CollectionWindow::new(500, 100);
    let mut run = scripted_run("C3", vec![300]);
    let report = run_cycle(&mut run, &window, &config, Some(2)).unwrap();
    assert_eq!(report.outcome, CollectOutcome::Cancelled);
    assert_eq!(report.aggregate.count, 2);
    assert_eq!(report.aggregate.sum, 600);
}

#[test]
fn factor_persists_across_cycles() {
    let config = ThresholdConfig::new(100, Ratio::new(3, 2), 0);
    let window = CollectionWindow::new(200, 100);
    let mut run = scripted_run("F1", vec![900]);
    run_cycle(&mut run, &window, &config, None).unwrap();
    assert_eq!(run.session.factor, Ratio::new(3, 2));
    // the second cycle multiplies the carried factor again
    run_cycle(&mut run, &window, &config, None).unwrap();
    assert_eq!(run.session.factor, Ratio::new(9, 4));
}

#[test]
fn seeded_sessions_interleaved_match_sequential() {
    let config = ThresholdConfig::new(500, Ratio::new(3, 2), 0);
    let window = CollectionWindow::new(1000, 100);

    // sequential: each session runs its whole cycle alone
    let mut a = seeded_run("A", 11);
    let mut b = seeded_run("B", 22);
    let seq_a = run_cycle(&mut a, &window, &config, None).unwrap();
    let seq_b = run_cycle(&mut b, &window, &config, None).unwrap();

    // interleaved: the same two sessions, rebuilt with the same seeds, with
    // their operations alternated step by step
    let mut a2 = seeded_run("A", 11);
    let mut b2 = seeded_run("B", 22);
    a2.session.connect().unwrap();
    b2.session.connect().unwrap();
    a2.session
        .collect(&window, &mut a2.source, &mut a2.channel, None)
        .unwrap();
    b2.session
        .collect(&window, &mut b2.source, &mut b2.channel, None)
        .unwrap();
    let agg_a = a2.session.aggregate().unwrap();
    let agg_b = b2.session.aggregate().unwrap();

    // no cross-contamination: each session's aggregate depends only on its
    // own seed
    assert_eq!(agg_a, seq_a.aggregate);
    assert_eq!(agg_b, seq_b.aggregate);
    assert_ne!(agg_a, agg_b);
}

#[test]
fn run_all_reports_every_session_and_first_error() {
    let config = ThresholdConfig::new(700, Ratio::new(3, 2), 0);
    let window = CollectionWindow::new(300, 100);
    let ok_run = scripted_run("OK", vec![900]);
    let mut broken = scripted_run("BROKEN", vec![900]);
    // sever the consumer: this session must fail without hurting the others
    broken.channel = SignalChannel::new(8);
    let ok_run2 = scripted_run("OK2", vec![100]);

    let (done, reports) = run_all(vec![ok_run, broken, ok_run2], &window, &config, None);
    assert_eq!(done.len(), 3);
    assert_eq!(reports.len(), 3);
    assert!(reports[0].is_ok());
    assert_eq!(reports[1], Err(SessionError::ChannelClosedOrUnconsumed));
    assert!(reports[2].is_ok());
    assert_eq!(done[0].session.id, "OK");
    assert_eq!(done[1].session.id, "BROKEN");
    // the failing sibling left the others' results intact
    assert_eq!(reports[0].as_ref().unwrap().aggregate.sum, 2700);
    assert_eq!(reports[2].as_ref().unwrap().aggregate.sum, 300);

    assert_eq!(first_error(&reports), Some((1, SessionError::ChannelClosedOrUnconsumed)));
    assert!(!all_succeeded(&reports));
    assert_eq!(exit_code(&reports), 1);
}

#[test]
fn run_all_success_has_exit_code_zero() {
    let config = ThresholdConfig::new(700, Ratio::new(3, 2), 0);
    let window = CollectionWindow::new(300, 100);
    let (done, reports) = run_all(
        vec![scripted_run("A", vec![900]), scripted_run("B", vec![100])],
        &window,
        &config,
        None,
    );
    assert_eq!(done.len(), 2);
    assert_eq!(first_error(&reports), None);
    assert!(all_succeeded(&reports));
    assert_eq!(exit_code(&reports), 0);
}
