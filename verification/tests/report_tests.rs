use octapulse::config::RunConfig;
use octapulse::dispatch::replay_run;
use octapulse::dispatch::TimedReply;
use octapulse::outcome::TransportError;
use octapulse::report::generate;
use octapulse::report::sort_ascending;
use octapulse::report::ReportOutcome;

fn run_with_latencies(latencies: &[u64]) -> octapulse::recorder::RunStats {
    let cfg = RunConfig::new(
        "http://127.0.0.1:9".to_string(),
        latencies.len(),
        1,
        "k".to_string(),
    )
    .unwrap();
    let replies: Vec<TimedReply> = latencies
        .iter()
        .map(|&e| TimedReply { reply: Ok(200), elapsed_nanos: e })
        .collect();
    replay_run(&cfg, &replies)
}

#[test]
fn sorting_is_ascending_and_keeps_every_element() {
    let v: Vec<u64> = vec![5, 1, 4, 1, 9, 2, 6];
    let s = sort_ascending(&v);
    assert_eq!(s.as_slice(), &[1, 1, 2, 4, 5, 6, 9]);
}

#[test]
fn percentiles_use_nearest_rank_indices() {
    // Ten latencies 10, 20, ..., 100: index 50*10/100 = 5 -> 60,
    // index 95*10/100 = 9 -> 100, index 99*10/100 = 9 -> 100.
    let lats: Vec<u64> = vec![100, 10, 90, 20, 80, 30, 70, 40, 60, 50];
    let stats = run_with_latencies(&lats);
    match generate(&stats, 1_000_000_000) {
        ReportOutcome::Ready(rep) => {
            assert_eq!(rep.p50_nanos, 60);
            assert_eq!(rep.p95_nanos, 100);
            assert_eq!(rep.p99_nanos, 100);
        }
        ReportOutcome::EmptyReport => panic!("ten latencies were recorded"),
    }
}

#[test]
fn single_latency_fills_all_percentiles() {
    let stats = run_with_latencies(&[42]);
    match generate(&stats, 7) {
        ReportOutcome::Ready(rep) => {
            assert_eq!(rep.p50_nanos, 42);
            assert_eq!(rep.p95_nanos, 42);
            assert_eq!(rep.p99_nanos, 42);
        }
        ReportOutcome::EmptyReport => panic!("one latency was recorded"),
    }
}

#[test]
fn percentiles_are_monotone() {
    let stats = run_with_latencies(&[3, 141, 59, 26, 535, 89, 79, 323, 84, 62, 643, 38]);
    match generate(&stats, 1_000) {
        ReportOutcome::Ready(rep) => {
            assert!(rep.p50_nanos <= rep.p95_nanos);
            assert!(rep.p95_nanos <= rep.p99_nanos);
        }
        ReportOutcome::EmptyReport => panic!("latencies were recorded"),
    }
}

#[test]
fn throughput_and_rate_formulas_are_exact() {
    // 100 operations in 2 seconds: 50 requests/sec = 50_000 milli-req/sec.
    let cfg = RunConfig::new("t".to_string(), 100, 4, "s".to_string()).unwrap();
    let replies: Vec<TimedReply> = (0..100)
        .map(|i| TimedReply {
            // 37 successes: codes 200 for the first 37, 500 for the rest.
            reply: Ok(if i < 37 { 200 } else { 500 }),
            elapsed_nanos: 1_000,
        })
        .collect();
    let stats = replay_run(&cfg, &replies);
    match generate(&stats, 2_000_000_000) {
        ReportOutcome::Ready(rep) => {
            assert_eq!(rep.throughput_milli_per_sec, 50_000);
            assert_eq!(rep.success_rate_centi_pct, 3700);
        }
        ReportOutcome::EmptyReport => panic!("run recorded operations"),
    }
}

#[test]
fn throughput_times_elapsed_recovers_total() {
    // 7 operations in 3 seconds: the scaled product lies within one
    // rounding step of the scaled total.
    let stats = run_with_latencies(&[1, 2, 3, 4, 5, 6, 7]);
    let elapsed: u64 = 3_000_000_000;
    match generate(&stats, elapsed) {
        ReportOutcome::Ready(rep) => {
            let scaled_total: u128 = 7 * 1_000_000_000_000;
            let product = rep.throughput_milli_per_sec * elapsed as u128;
            assert!(product <= scaled_total);
            assert!(scaled_total < product + elapsed as u128);
        }
        ReportOutcome::EmptyReport => panic!("run recorded operations"),
    }
}

#[test]
fn completion_order_does_not_change_the_report() {
    let cfg = RunConfig::new("t".to_string(), 5, 2, "s".to_string()).unwrap();
    let forward: Vec<TimedReply> = vec![
        TimedReply { reply: Ok(200), elapsed_nanos: 10 },
        TimedReply { reply: Ok(500), elapsed_nanos: 30 },
        TimedReply { reply: Err(TransportError), elapsed_nanos: 20 },
        TimedReply { reply: Ok(204), elapsed_nanos: 50 },
        TimedReply { reply: Ok(301), elapsed_nanos: 40 },
    ];
    let mut backward = forward.clone();
    backward.reverse();
    let s1 = replay_run(&cfg, &forward);
    let s2 = replay_run(&cfg, &backward);
    let r1 = generate(&s1, 123_456_789);
    let r2 = generate(&s2, 123_456_789);
    assert_eq!(r1, r2);
    assert_eq!(s1.success_count(), s2.success_count());
    assert_eq!(s1.failure_count(), s2.failure_count());
}
