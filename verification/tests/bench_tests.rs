use bench_client::bench::{encode_transaction, Benchmark, Phase};
use bench_client::tracker::{await_confirmations, ConfirmationOutcome, StreamEvent};
use bench_client::transaction::generate;

const SECOND: u64 = 1_000_000_000;

fn run_send_phase(bench: &mut Benchmark, target: u64, send_start: u64) {
    bench.begin_send(send_start);
    for _ in 0..target {
        bench.record_send();
    }
}

#[test]
fn completed_run_reports_exact_statistics() {
    // Scenario: every transaction acknowledged promptly. 100 sent over one
    // second, all 100 confirmed one second later.
    let mut bench = Benchmark::new(100);
    assert_eq!(bench.current_phase(), Phase::Connecting);

    run_send_phase(&mut bench, 100, 0);
    assert_eq!(bench.sent_count(), 100);

    bench.begin_confirmations(SECOND, SECOND);
    assert_eq!(bench.current_phase(), Phase::AwaitingConfirmations);

    let events = vec![StreamEvent::FrameReceived; 100];
    let outcome = await_confirmations(100, &events).unwrap();
    assert_eq!(outcome, ConfirmationOutcome::Completed(100));

    bench.complete_confirmations(outcome, 2 * SECOND);
    let report = bench.finalize();
    assert_eq!(bench.current_phase(), Phase::Done);

    assert_eq!(report.sent_count, 100);
    assert_eq!(report.confirmed_count, 100);
    assert_eq!(report.send_duration_nanos, SECOND);
    assert_eq!(report.confirmation_duration_nanos, SECOND);
    assert_eq!(report.total_duration_nanos, 2 * SECOND);
    // 100 confirmations over 2 seconds: 50 TPS, scaled by 1000.
    assert_eq!(report.tps_milli, Some(50_000));
    // 2 seconds over 100 confirmations: 20 000 us each.
    assert_eq!(report.avg_latency_micros, Some(20_000));
}

#[test]
fn timed_out_run_falls_back_to_sent_count() {
    // Scenario: the peer accepts all sends but acknowledges nothing; after
    // the deadline the run still completes, crediting the full sent count.
    let mut bench = Benchmark::new(100);
    run_send_phase(&mut bench, 100, 0);
    bench.begin_confirmations(SECOND, SECOND);

    let outcome = await_confirmations(100, &vec![StreamEvent::DeadlineElapsed]).unwrap();
    assert_eq!(outcome, ConfirmationOutcome::TimedOut(0));

    bench.complete_confirmations(outcome, 11 * SECOND);
    let report = bench.finalize();

    assert_eq!(report.confirmed_count, 100);
    assert_eq!(report.sent_count, 100);
    assert!(report.total_duration_nanos >= report.send_duration_nanos);
    assert_eq!(report.total_duration_nanos, 11 * SECOND);
    assert!(report.tps_milli.is_some());
}

#[test]
fn stream_closed_run_falls_back_and_finishes() {
    // Scenario: the peer closes the stream after acknowledging 50 of 100;
    // the fallback applies and the run finishes normally.
    let mut bench = Benchmark::new(100);
    run_send_phase(&mut bench, 100, 0);
    bench.begin_confirmations(SECOND, SECOND);

    let mut events = vec![StreamEvent::FrameReceived; 50];
    events.push(StreamEvent::StreamEnded);
    let outcome = await_confirmations(100, &events).unwrap();
    assert_eq!(outcome, ConfirmationOutcome::StreamClosed(50));

    bench.complete_confirmations(outcome, 3 * SECOND);
    let report = bench.finalize();

    assert_eq!(bench.current_phase(), Phase::Done);
    assert_eq!(report.confirmed_count, 100);
    assert!(report.tps_milli.is_some());
}

#[test]
fn decode_error_outcome_also_falls_back() {
    let mut bench = Benchmark::new(4);
    run_send_phase(&mut bench, 4, 10);
    bench.begin_confirmations(20, 30);
    bench.complete_confirmations(ConfirmationOutcome::DecodeError(2), 40);
    assert_eq!(bench.confirmed_count(), 4);
    let report = bench.finalize();
    assert_eq!(report.confirmed_count, 4);
}

#[test]
fn zero_confirmed_short_circuits_to_sentinel() {
    // A run that sent nothing: the throughput and latency are the undefined
    // sentinel, never a division by zero.
    let mut bench = Benchmark::new(0);
    run_send_phase(&mut bench, 0, 5);
    bench.begin_confirmations(6, 7);
    bench.complete_confirmations(ConfirmationOutcome::Completed(0), 8);
    let report = bench.finalize();

    assert_eq!(report.confirmed_count, 0);
    assert_eq!(report.tps_milli, None);
    assert_eq!(report.avg_latency_micros, None);
}

#[test]
fn zero_elapsed_time_short_circuits_throughput() {
    // All instants equal: a confirmed count with no elapsed time yields the
    // sentinel for throughput and a zero latency, not a numeric fault.
    let mut bench = Benchmark::new(3);
    run_send_phase(&mut bench, 3, 5);
    bench.begin_confirmations(5, 5);
    bench.complete_confirmations(ConfirmationOutcome::Completed(3), 5);
    let report = bench.finalize();

    assert_eq!(report.confirmed_count, 3);
    assert_eq!(report.total_duration_nanos, 0);
    assert_eq!(report.tps_milli, None);
    assert_eq!(report.avg_latency_micros, Some(0));
}

#[test]
fn encoded_transaction_is_the_framed_payload() {
    let frame = encode_transaction(7);
    let payload = generate(7);
    assert_eq!(frame.len(), payload.len() + 4);
    // 64 payload bytes behind a four-byte big-endian length prefix.
    assert_eq!(&frame[0..4], &[0, 0, 0, 64]);
    assert_eq!(&frame[4..], payload.as_slice());
}
