use simics_fuzz::coverage::CoverageMap;
use simics_fuzz::engine::{EngineError, Purpose};
use simics_fuzz::fault::{Fault, X86_64Fault};
use simics_fuzz::messages::{
    Command, LogLevel, MapDescriptor, SessionConfig, SessionConfigBuilder, StopReason, TraceMode,
};
use simics_fuzz::schedule::{Decision, CALIBRATION_RUNS};
use simics_fuzz::trial::{Step, TrialState};
use simics_fuzz::verdict::{ErrorPolicy, Verdict};
use simics_fuzz::worker::{Worker, WorkerError, WorkerStats};

const MAP_LEN: usize = 4096;

fn config() -> SessionConfig {
    SessionConfigBuilder::new()
        .coverage_map(MapDescriptor { address: 0x7000_0000, len: MAP_LEN })
        .fault(Fault::X86_64(X86_64Fault::Page))
        .fault(Fault::X86_64(X86_64Fault::InvalidOpcode))
        .trace_mode(TraceMode::HitCount)
        .timeout_ms(3000)
        .log_level(LogLevel::Info)
        .build()
        .unwrap()
}

fn started(seed: u64, seeds: &[&[u8]], budget: Option<u64>) -> Worker {
    let mut worker = Worker::new(config(), seed, ErrorPolicy::Tolerate, budget).unwrap();
    for input in seeds {
        worker.add_seed(input.to_vec());
    }
    match worker.begin().unwrap() {
        Command::Initialize(sent) => {
            assert_eq!(sent.coverage_map(), MapDescriptor { address: 0x7000_0000, len: MAP_LEN });
            assert_eq!(sent.timeout_ms(), 3000);
            assert_eq!(sent.faults().len(), 2);
        }
        other => panic!("{:?}", other),
    }
    worker.on_shared_memory(MapDescriptor { address: 0x7000_0000, len: MAP_LEN }).unwrap();
    worker
}

fn run_of(command: Command) -> Vec<u8> {
    match command {
        Command::Run(input) => input,
        other => panic!("{:?}", other),
    }
}

fn map_with(hits: &[usize]) -> CoverageMap {
    let mut map = CoverageMap::new(MAP_LEN);
    for edge in hits {
        map.record(*edge as u64);
    }
    map
}

#[test]
fn normal_stop_without_new_edge_is_not_admitted() {
    let mut worker = started(1, &[&[0x41, 0x41]], None);
    assert_eq!(worker.map(), Some(MapDescriptor { address: 0x7000_0000, len: 4096 }));
    let input = run_of(worker.on_ready().unwrap());
    assert_eq!(input, vec![0x41, 0x41]);
    assert_eq!(worker.state(), TrialState::Running);
    let (command, report) =
        worker.on_stopped(StopReason::Normal, &CoverageMap::new(4096), 1200).unwrap();
    assert!(matches!(command, Command::Reset));
    assert_eq!(report.verdict, Verdict::Pass);
    assert_eq!(report.purpose, Purpose::Seed);
    assert_eq!(report.trial, 1);
    assert_eq!(report.settlement.decision, Some(Decision::Discard));
    assert_eq!(
        worker.stats(),
        WorkerStats { executions: 1, corpus: 0, crashes: 0, timeouts: 0 }
    );
    assert_eq!(worker.corpus_input(0), None);
    assert_eq!(worker.solution_count(), 0);
}

#[test]
fn crash_is_copied_into_the_solutions() {
    let bytes: &[u8] = &[0x00, 0xff, 0x10, 0x41, 0x41, 0x00];
    let mut worker = started(2, &[bytes], None);
    let input = run_of(worker.on_ready().unwrap());
    let fault = Fault::X86_64(X86_64Fault::from_code(14).unwrap());
    let (command, report) =
        worker.on_stopped(StopReason::Crash(fault), &map_with(&[5]), 900).unwrap();
    assert!(matches!(command, Command::Reset));
    assert_eq!(report.verdict, Verdict::Crash);
    assert_eq!(report.settlement.decision, Some(Decision::Solution));
    assert_eq!(worker.solution_count(), 1);
    assert_eq!(worker.solution_input(0), Some(bytes.to_vec()));
    assert_eq!(worker.solution_input(0), Some(input));
    assert_eq!(
        worker.stats(),
        WorkerStats { executions: 1, corpus: 0, crashes: 1, timeouts: 0 }
    );
}

#[test]
fn timeout_is_forced_and_reset_is_still_sent() {
    let mut worker = started(3, &[&[1, 2, 3], &[4, 5, 6]], None);
    let first = run_of(worker.on_ready().unwrap());
    assert_eq!(first, vec![4, 5, 6]);
    let (command, report) = worker.on_timeout(&CoverageMap::new(MAP_LEN), 3_000_000).unwrap();
    assert!(matches!(command, Command::Reset));
    assert_eq!(report.verdict, Verdict::Timeout);
    assert_eq!(report.settlement.decision, Some(Decision::Discard));
    assert_eq!(worker.state(), TrialState::AwaitReset { reset_sent: true });
    assert_eq!(
        worker.stats(),
        WorkerStats { executions: 1, corpus: 0, crashes: 0, timeouts: 1 }
    );
    let second = run_of(worker.on_ready().unwrap());
    assert_eq!(second, vec![1, 2, 3]);
    assert_eq!(worker.trials(), 2);
}

#[test]
fn target_timeout_is_a_timeout_verdict() {
    let mut worker = started(3, &[&[1]], None);
    worker.on_ready().unwrap();
    let (_, report) = worker.on_stopped(StopReason::Timeout, &map_with(&[9]), 10).unwrap();
    assert_eq!(report.verdict, Verdict::Timeout);
    assert_eq!(report.settlement.decision, Some(Decision::Admit { novelties: 1 }));
    assert_eq!(worker.stats().timeouts, 1);
    assert_eq!(worker.stats().corpus, 1);
}

#[test]
fn error_stop_passes_under_the_tolerant_policy() {
    let mut worker = started(3, &[&[1]], None);
    worker.on_ready().unwrap();
    let (_, report) = worker
        .on_stopped(StopReason::Error("bad state".to_string()), &CoverageMap::new(MAP_LEN), 10)
        .unwrap();
    assert_eq!(report.verdict, Verdict::Pass);
    assert_eq!(worker.solution_count(), 0);
}

#[test]
fn error_stop_is_a_crash_under_the_strict_policy() {
    let mut worker = Worker::new(config(), 3, ErrorPolicy::TreatAsCrash, None).unwrap();
    worker.add_seed(vec![1]);
    worker.begin().unwrap();
    worker.on_shared_memory(MapDescriptor { address: 0x7000_0000, len: MAP_LEN }).unwrap();
    worker.on_ready().unwrap();
    let (_, report) = worker
        .on_stopped(StopReason::Error("bad state".to_string()), &CoverageMap::new(MAP_LEN), 10)
        .unwrap();
    assert_eq!(report.verdict, Verdict::Crash);
    assert_eq!(worker.solution_input(0), Some(vec![1]));
}

#[test]
fn novel_input_is_admitted_then_calibrated_then_mutated() {
    let mut worker = started(4, &[&[0xaa, 0xbb, 0xcc, 0xdd]], None);
    let seed = run_of(worker.on_ready().unwrap());
    let coverage = map_with(&[10, 20, 20]);
    let (_, report) = worker.on_stopped(StopReason::Normal, &coverage, 500).unwrap();
    assert_eq!(report.settlement.decision, Some(Decision::Admit { novelties: 2 }));
    assert_eq!(worker.corpus_input(0), Some(seed.clone()));
    for run in 1..=CALIBRATION_RUNS {
        let replay = run_of(worker.on_ready().unwrap());
        assert_eq!(replay, seed);
        let (command, report) = worker.on_stopped(StopReason::Normal, &coverage, 500).unwrap();
        assert!(matches!(command, Command::Reset));
        assert_eq!(report.purpose, Purpose::Calibrate { entry: 0 });
        assert_eq!(report.settlement.decision, None);
        assert_eq!(report.settlement.calibration.unwrap().runs, run);
        assert!(report.settlement.calibration.unwrap().stable);
    }
    let _mutant = run_of(worker.on_ready().unwrap());
    let (_, report) = worker.on_stopped(StopReason::Normal, &coverage, 500).unwrap();
    assert_eq!(report.purpose, Purpose::Mutant { parent: 0 });
    assert_eq!(report.settlement.decision, Some(Decision::Discard));
    assert_eq!(report.trial, 6);
    assert_eq!(
        worker.stats(),
        WorkerStats { executions: 6, corpus: 1, crashes: 0, timeouts: 0 }
    );
}

#[test]
fn run_is_never_sent_before_ready() {
    let mut worker = started(5, &[&[1]], None);
    worker.on_ready().unwrap();
    match worker.on_ready() {
        Err(WorkerError::Protocol(v)) => {
            assert_eq!(v.state, TrialState::Running);
            assert_eq!(v.step, Step::Ready);
        }
        other => panic!("{:?}", other),
    }
    assert_eq!(worker.trials(), 1);
    worker.on_stopped(StopReason::Normal, &CoverageMap::new(MAP_LEN), 1).unwrap();
    assert!(matches!(
        worker.on_stopped(StopReason::Normal, &CoverageMap::new(MAP_LEN), 1),
        Err(WorkerError::Protocol(_))
    ));
    assert_eq!(worker.stats().executions, 1);
}

#[test]
fn begin_twice_is_refused() {
    let mut worker = started(5, &[], None);
    assert!(matches!(worker.begin(), Err(WorkerError::Protocol(_))));
}

#[test]
fn timeout_without_a_trial_is_a_violation() {
    let mut worker = started(5, &[&[1]], None);
    assert!(matches!(
        worker.on_timeout(&CoverageMap::new(MAP_LEN), 1),
        Err(WorkerError::Protocol(_))
    ));
}

#[test]
fn map_of_another_length_ends_the_session() {
    let mut worker = Worker::new(config(), 1, ErrorPolicy::Tolerate, None).unwrap();
    worker.begin().unwrap();
    assert_eq!(
        worker.on_shared_memory(MapDescriptor { address: 0x7000_0000, len: 1024 }),
        Err(WorkerError::MapLength { expected: 4096, found: 1024 })
    );
    assert_eq!(worker.state(), TrialState::Terminated);
}

#[test]
fn coverage_of_another_length_is_refused() {
    let mut worker = started(6, &[&[1]], None);
    worker.on_ready().unwrap();
    assert_eq!(
        worker.on_stopped(StopReason::Normal, &CoverageMap::new(100), 1),
        Err(WorkerError::Engine(EngineError::MapLength { expected: 4096, found: 100 }))
    );
    assert_eq!(worker.stats().corpus, 0);
}

#[test]
fn budget_counts_turns_of_the_search() {
    let mut worker = started(7, &[&[1, 2, 3, 4]], Some(2));
    let coverage = map_with(&[3]);
    let mut purposes = Vec::new();
    loop {
        match worker.on_ready().unwrap() {
            Command::Run(_) => {}
            Command::Stop => break,
            other => panic!("{:?}", other),
        }
        let (_, report) = worker.on_stopped(StopReason::Normal, &coverage, 10).unwrap();
        purposes.push(report.purpose);
    }
    assert_eq!(worker.state(), TrialState::Terminated);
    assert_eq!(purposes[0], Purpose::Seed);
    for run in 1..=CALIBRATION_RUNS as usize {
        assert_eq!(purposes[run], Purpose::Calibrate { entry: 0 });
    }
    let mutants = &purposes[1 + CALIBRATION_RUNS as usize..];
    assert_eq!(mutants.len(), 2 * 16);
    assert!(mutants.iter().all(|purpose| *purpose == Purpose::Mutant { parent: 0 }));
    assert_eq!(worker.trials(), 1 + 4 + 32);
}

#[test]
fn budget_of_no_turn_still_runs_the_seeds() {
    let mut worker = started(7, &[&[1], &[2], &[3]], Some(0));
    let mut seeds = Vec::new();
    for _ in 0..3 {
        seeds.push(run_of(worker.on_ready().unwrap()));
        worker.on_stopped(StopReason::Normal, &map_with(&[5]), 1).unwrap();
        if seeds.len() == 1 {
            for _ in 0..CALIBRATION_RUNS {
                let replay = run_of(worker.on_ready().unwrap());
                assert_eq!(replay, vec![3]);
                worker.on_stopped(StopReason::Normal, &map_with(&[5]), 1).unwrap();
            }
        }
    }
    assert_eq!(seeds, vec![vec![3], vec![2], vec![1]]);
    assert!(matches!(worker.on_ready().unwrap(), Command::Stop));
    assert_eq!(worker.state(), TrialState::Terminated);
    assert_eq!(worker.trials(), 3 + 4);
}

#[test]
fn budget_of_no_turn_ends_an_empty_search_in_order() {
    let mut worker = started(7, &[], Some(0));
    let mut generated = 0;
    loop {
        match worker.on_ready().unwrap() {
            Command::Run(_) => generated += 1,
            Command::Stop => break,
            other => panic!("{:?}", other),
        }
        worker.on_stopped(StopReason::Normal, &CoverageMap::new(MAP_LEN), 1).unwrap();
    }
    assert_eq!(generated, 1024);
    assert_eq!(worker.state(), TrialState::Terminated);
}

#[test]
fn search_that_finds_nothing_gives_up() {
    let mut worker = started(7, &[], Some(5));
    for _ in 0..1024 {
        run_of(worker.on_ready().unwrap());
        worker.on_stopped(StopReason::Normal, &CoverageMap::new(MAP_LEN), 1).unwrap();
    }
    assert_eq!(worker.on_ready(), Err(WorkerError::Engine(EngineError::EmptyCorpus)));
    assert_eq!(worker.state(), TrialState::ReadyForRun);
    assert!(matches!(worker.stop(), Ok(Command::Stop)));
}

#[test]
fn stop_request_is_taken_with_the_ready() {
    let mut worker = started(8, &[&[1], &[2]], None);
    run_of(worker.on_ready_with(false).unwrap());
    worker.on_stopped(StopReason::Normal, &CoverageMap::new(MAP_LEN), 1).unwrap();
    assert!(matches!(worker.on_ready_with(true).unwrap(), Command::Stop));
    assert_eq!(worker.state(), TrialState::Terminated);
    assert_eq!(worker.trials(), 1);
    assert!(matches!(worker.on_ready_with(true), Err(WorkerError::Protocol(_))));
}

#[test]
fn stop_request_before_the_first_run_is_honoured() {
    let mut worker = started(8, &[&[1]], None);
    assert!(matches!(worker.on_ready_with(true).unwrap(), Command::Stop));
    assert_eq!(worker.trials(), 0);
}

#[test]
fn crash_with_or_without_new_coverage_goes_on() {
    let mut worker = started(9, &[&[0xde, 0xad], &[0xde, 0xad]], None);
    let fault = Fault::X86_64(X86_64Fault::Page);
    for (round, coverage) in [map_with(&[]), map_with(&[77])].iter().enumerate() {
        let input = run_of(worker.on_ready().unwrap());
        assert_eq!(input, vec![0xde, 0xad]);
        let (command, report) =
            worker.on_stopped(StopReason::Crash(fault), coverage, 1).unwrap();
        assert!(matches!(command, Command::Reset));
        assert_eq!(report.verdict, Verdict::Crash);
        assert_eq!(worker.solution_count(), round + 1);
        assert_eq!(worker.solution_input(round), Some(vec![0xde, 0xad]));
        assert_eq!(worker.stats().corpus, 0);
    }
}

#[test]
fn stop_is_sent_only_between_trials() {
    let mut worker = started(8, &[&[1]], None);
    worker.on_ready().unwrap();
    assert!(matches!(worker.stop(), Err(WorkerError::Protocol(_))));
    worker.on_stopped(StopReason::Normal, &CoverageMap::new(MAP_LEN), 1).unwrap();
    worker.on_ready().unwrap();
    worker.kill();
    assert_eq!(worker.state(), TrialState::Terminated);
}

#[test]
fn disconnect_tears_the_worker_down() {
    let mut worker = started(9, &[&[1]], None);
    worker.on_ready().unwrap();
    assert_eq!(worker.on_disconnect(), WorkerError::ChannelDisconnected);
    assert_eq!(worker.state(), TrialState::Terminated);
    assert!(matches!(worker.on_ready(), Err(WorkerError::Protocol(_))));
}

#[test]
fn worker_without_seeds_generates_its_first_inputs() {
    let mut worker = started(10, &[], None);
    let input = run_of(worker.on_ready().unwrap());
    assert!(!input.is_empty() && input.len() < 64);
    let (_, report) = worker.on_stopped(StopReason::Normal, &map_with(&[1]), 1).unwrap();
    assert_eq!(report.purpose, Purpose::Generated);
    assert_eq!(worker.corpus_input(0), Some(input));
}

#[test]
fn worker_with_clock_seed_starts_empty() {
    let mut worker = Worker::with_clock_seed(config(), ErrorPolicy::Tolerate, Some(1)).unwrap();
    assert_eq!(worker.state(), TrialState::Idle);
    assert_eq!(worker.stats(), WorkerStats { executions: 0, corpus: 0, crashes: 0, timeouts: 0 });
    assert!(matches!(worker.begin(), Ok(Command::Initialize(_))));
}
