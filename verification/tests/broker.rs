use simics_fuzz::broker::{
    aggregate, executions_per_second, should_respawn, should_stop, Budget, RespawnPolicy, Totals,
};
use simics_fuzz::coverage::CoverageMap;
use simics_fuzz::messages::{
    Command, LogLevel, MapDescriptor, SessionConfigBuilder, StopReason, TraceMode,
};
use simics_fuzz::verdict::ErrorPolicy;
use simics_fuzz::engine::EngineError;
use simics_fuzz::trial::{ProtocolViolation, Step, TrialState};
use simics_fuzz::worker::{Worker, WorkerError, WorkerStats};

fn worker_that_found(seed: u64, edges: &[u64]) -> Worker {
    let config = SessionConfigBuilder::new()
        .coverage_map(MapDescriptor { address: 0, len: 64 })
        .trace_mode(TraceMode::HitCount)
        .timeout_ms(3000)
        .log_level(LogLevel::Warn)
        .build()
        .unwrap();
    let mut worker = Worker::new(config, seed, ErrorPolicy::Tolerate, None).unwrap();
    worker.begin().unwrap();
    worker.on_shared_memory(MapDescriptor { address: 0, len: 64 }).unwrap();
    for edge in edges {
        worker.add_seed(vec![*edge as u8; 4]);
    }
    for edge in edges {
        assert!(matches!(worker.on_ready().unwrap(), Command::Run(_)));
        let mut map = CoverageMap::new(64);
        map.record(*edge);
        worker.on_stopped(StopReason::Normal, &map, 10).unwrap();
        for _ in 0..4 {
            worker.on_ready().unwrap();
            worker.on_stopped(StopReason::Normal, &map, 10).unwrap();
        }
    }
    worker
}

#[test]
fn two_workers_report_the_sum_of_their_corpora() {
    let first = worker_that_found(1, &[1, 2, 3]);
    let second = worker_that_found(2, &[10, 20]);
    assert_eq!(first.stats().corpus, 3);
    assert_eq!(second.stats().corpus, 2);
    let totals = aggregate(&vec![first.stats(), second.stats()]).unwrap();
    assert_eq!(totals.workers, 2);
    assert_eq!(totals.corpus, 5);
    assert_eq!(totals.executions, 15 + 10);
    assert_eq!(totals.crashes, 0);
}

#[test]
fn workers_that_found_the_same_are_not_merged() {
    let first = worker_that_found(1, &[7]);
    let second = worker_that_found(2, &[7]);
    let totals = aggregate(&vec![first.stats(), second.stats()]).unwrap();
    assert_eq!(totals.corpus, 2);
}

#[test]
fn aggregate_of_nothing_is_zero() {
    assert_eq!(
        aggregate(&vec![]),
        Some(Totals { workers: 0, executions: 0, corpus: 0, crashes: 0, timeouts: 0 })
    );
}

#[test]
fn aggregate_adds_each_field() {
    let a = WorkerStats { executions: 10, corpus: 2, crashes: 1, timeouts: 3 };
    let b = WorkerStats { executions: 5, corpus: 7, crashes: 0, timeouts: 4 };
    let c = WorkerStats { executions: 1, corpus: 1, crashes: 1, timeouts: 1 };
    assert_eq!(
        aggregate(&vec![a, b, c]),
        Some(Totals { workers: 3, executions: 16, corpus: 10, crashes: 2, timeouts: 8 })
    );
}

#[test]
fn aggregate_gives_none_past_64_bits() {
    let a = WorkerStats { executions: u64::MAX, corpus: 0, crashes: 0, timeouts: 0 };
    let b = WorkerStats { executions: 1, corpus: 0, crashes: 0, timeouts: 0 };
    assert_eq!(aggregate(&vec![a, b]), None);
    assert!(aggregate(&vec![a]).is_some());
}

#[test]
fn rate_is_rounded_down() {
    assert_eq!(executions_per_second(0, 1000), 0);
    assert_eq!(executions_per_second(1500, 1000), 1500);
    assert_eq!(executions_per_second(10, 3000), 3);
    assert_eq!(executions_per_second(7, 0), 0);
    assert_eq!(executions_per_second(u64::MAX, 1), u64::MAX);
    assert_eq!(executions_per_second(1, 2000), 0);
}

#[test]
fn stop_on_request_or_limit() {
    let totals = Totals { workers: 2, executions: 1000, corpus: 0, crashes: 0, timeouts: 0 };
    let none = Budget { trials: None, millis: None };
    assert!(should_stop(true, none, &totals, 0));
    assert!(!should_stop(false, none, &totals, u64::MAX));
    assert!(should_stop(false, Budget { trials: Some(1000), millis: None }, &totals, 0));
    assert!(!should_stop(false, Budget { trials: Some(1001), millis: None }, &totals, 0));
    assert!(should_stop(false, Budget { trials: None, millis: Some(60_000) }, &totals, 60_000));
    assert!(!should_stop(false, Budget { trials: None, millis: Some(60_000) }, &totals, 59_999));
}

#[test]
fn failed_worker_stays_down_by_default() {
    assert_eq!(RespawnPolicy::standard(), RespawnPolicy::Never);
    assert!(!should_respawn(RespawnPolicy::standard(), WorkerError::ChannelDisconnected, 0));
}

#[test]
fn only_a_lost_target_is_started_again() {
    let policy = RespawnPolicy::UpTo(2);
    assert!(should_respawn(policy, WorkerError::ChannelDisconnected, 0));
    assert!(should_respawn(policy, WorkerError::ChannelDisconnected, 1));
    assert!(!should_respawn(policy, WorkerError::ChannelDisconnected, 2));
    let violation = ProtocolViolation { state: TrialState::Idle, step: Step::Ready };
    assert!(!should_respawn(policy, WorkerError::Protocol(violation), 0));
    assert!(!should_respawn(policy, WorkerError::Engine(EngineError::EmptyCorpus), 0));
    assert!(!should_respawn(policy, WorkerError::MapLength { expected: 1, found: 2 }, 0));
}
