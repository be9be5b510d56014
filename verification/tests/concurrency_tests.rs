use std::sync::atomic::AtomicUsize;
use std::sync::atomic::Ordering;
use std::sync::Arc;
use std::sync::Mutex;
use std::time::Duration;
use std::time::Instant;

use octapulse::dispatch::Dispatcher;
use octapulse::outcome::classify;
use octapulse::outcome::TimedOutcome;
use octapulse::recorder::RunStats;

/// Drives a real concurrent run: issues `total` operations under a
/// semaphore of `limit` permits, each operation sleeping for `delay`,
/// and keeps an instrumented gauge of how many are in flight at once.
fn drive(total: usize, limit: usize, delay: Duration, peak_gauge: Arc<AtomicUsize>) -> RunStats {
    let rt = tokio::runtime::Builder::new_multi_thread()
        .worker_threads(4)
        .enable_time()
        .build()
        .unwrap();
    rt.block_on(async move {
        let dispatcher = Arc::new(Mutex::new(Dispatcher::new(total, limit)));
        let semaphore = Arc::new(tokio::sync::Semaphore::new(limit));
        let in_flight = Arc::new(AtomicUsize::new(0));
        let mut workers = Vec::new();
        for _ in 0..total {
            let permit = semaphore.clone().acquire_owned().await.unwrap();
            {
                let mut d = dispatcher.lock().unwrap();
                let started = d.try_start();
                assert!(started, "a held permit guarantees a free slot");
            }
            let dispatcher = dispatcher.clone();
            let in_flight = in_flight.clone();
            let peak_gauge = peak_gauge.clone();
            workers.push(tokio::spawn(async move {
                let now = in_flight.fetch_add(1, Ordering::SeqCst) + 1;
                peak_gauge.fetch_max(now, Ordering::SeqCst);
                let start = Instant::now();
                tokio::time::sleep(delay).await;
                let elapsed = start.elapsed().as_nanos() as u64;
                in_flight.fetch_sub(1, Ordering::SeqCst);
                let mut d = dispatcher.lock().unwrap();
                d.complete(TimedOutcome { outcome: classify(Ok(200)), elapsed_nanos: elapsed });
                drop(permit);
            }));
        }
        for w in workers {
            w.await.unwrap();
        }
        let d = Arc::try_unwrap(dispatcher)
            .ok()
            .expect("all workers joined")
            .into_inner()
            .unwrap();
        assert!(d.is_done());
        d.into_stats()
    })
}

#[test]
fn gauge_never_exceeds_the_concurrency_limit() {
    let peak = Arc::new(AtomicUsize::new(0));
    let stats = drive(100, 10, Duration::from_millis(3), peak.clone());
    assert!(peak.load(Ordering::SeqCst) <= 10);
    assert_eq!(stats.success_count() + stats.failure_count(), 100);
    assert_eq!(stats.latencies().len(), 100);
}

#[test]
fn one_permit_serializes_the_whole_run() {
    let peak = Arc::new(AtomicUsize::new(0));
    let delay = Duration::from_millis(4);
    let begin = Instant::now();
    let stats = drive(50, 1, delay, peak.clone());
    let wall = begin.elapsed();
    assert_eq!(peak.load(Ordering::SeqCst), 1);
    assert_eq!(stats.success_count(), 50);
    // Fifty serialized operations of at least 4 ms each cannot finish in
    // less than 200 ms of wall-clock time.
    assert!(wall >= delay * 50);
}
