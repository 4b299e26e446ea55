//! One worker: a session with its target, the engine of its search, and the
//! decisions that join the two. The worker never waits or sends by itself:
//! it is told what happened and says what is to be sent next.

use crate::coverage::CoverageMap;
use crate::engine::{Engine, EngineError, Purpose, Settlement};
use crate::messages::{copy_bytes, Command, Event, MapDescriptor, SessionConfig, StopReason};
use crate::trial::{
    is_trial_end, next_state, state_after, ProtocolViolation, Session, Step, TrialState,
};
use crate::schedule::{counted, spec_counted};
use crate::verdict::{classify, spec_classify, ErrorPolicy, Verdict};
use vstd::prelude::*;

verus! {

/// The running totals of one worker.
#[derive(Clone, Copy, Debug, PartialEq, Eq, Structural)]
pub struct WorkerStats {
    /// The number of trials that have ended, at most `u64::MAX`.
    pub executions: u64,
    /// The number of entries of the input corpus.
    pub corpus: usize,
    /// The number of trials that ended in a crash, at most `u64::MAX`.
    pub crashes: u64,
    /// The number of trials that ended in a timeout, at most `u64::MAX`.
    pub timeouts: u64,
}

/// Why a worker cannot go on.
#[derive(Clone, Copy, Debug, PartialEq, Eq, Structural)]
pub enum WorkerError {
    /// A message came, or was to be sent, out of order.
    Protocol(ProtocolViolation),
    /// The target went away.
    ChannelDisconnected,
    /// The engine could not go on.
    Engine(EngineError),
    /// The target named a coverage map of another length than the session
    /// was opened with.
    MapLength { expected: usize, found: usize },
}

/// What a trial was and how it ended.
#[derive(Clone, Copy, Debug, PartialEq, Eq, Structural)]
pub struct TrialReport {
    /// The number of the trial, counted from 1.
    pub trial: u64,
    /// What the input was run for.
    pub purpose: Purpose,
    /// How the trial ended.
    pub verdict: Verdict,
    /// What the engine made of it.
    pub settlement: Settlement,
}

/// One worker.
pub struct Worker {
    session: Session,
    engine: Engine,
    config: SessionConfig,
    policy: ErrorPolicy,
    budget: Option<u64>,
    in_flight: Option<(Vec<u8>, Purpose)>,
    executions: u64,
    crashes: u64,
    timeouts: u64,
}

impl Worker {
    /// The session with the target.
    pub closed spec fn session(&self) -> &Session {
        &self.session
    }

    /// The engine of the search.
    pub closed spec fn engine(&self) -> &Engine {
        &self.engine
    }

    /// What the session is opened with.
    pub closed spec fn config(&self) -> &SessionConfig {
        &self.config
    }

    /// What a stop with an error report counts as.
    pub closed spec fn policy(&self) -> ErrorPolicy {
        self.policy
    }

    /// The number of turns of the search after which the worker stops, if
    /// there is one.
    pub closed spec fn budget(&self) -> Option<u64> {
        self.budget
    }

    /// The input that is being run, and what for.
    pub closed spec fn in_flight(&self) -> Option<(Seq<u8>, Purpose)> {
        match self.in_flight {
            Some((input, purpose)) => Some((input@, purpose)),
            None => None,
        }
    }

    /// The totals of the worker.
    pub closed spec fn spec_stats(&self) -> WorkerStats {
        WorkerStats {
            executions: self.executions,
            corpus: self.engine.corpus().len() as usize,
            crashes: self.crashes,
            timeouts: self.timeouts,
        }
    }

    /// What holds of every worker: its engine is well formed and made for
    /// the coverage map of the configuration; an input is in flight exactly
    /// while the session is running; and a calibration run in flight is one
    /// of the entry that awaits calibration.
    pub closed spec fn wf(&self) -> bool {
        &&& self.engine.wf()
        &&& self.engine.history().len() == self.config.spec_coverage_map().len
        &&& self.engine.mode() == self.config.spec_trace_mode()
        &&& self.in_flight is Some <==> self.session.spec_state() == TrialState::Running
        &&& self.in_flight matches Some((_, Purpose::Calibrate { entry })) ==> entry
            == self.engine.uncalibrated() && entry < self.engine.corpus().len()
    }

    /// What `wf` says, over the worker's public reading.
    pub proof fn lemma_wf(&self)
        requires
            self.wf(),
        ensures
            self.engine().wf(),
            self.engine().history().len() == self.config().spec_coverage_map().len,
            self.engine().mode() == self.config().spec_trace_mode(),
            self.in_flight() is Some <==> self.session().spec_state() == TrialState::Running,
    {
    }

    /// The length of the coverage map that a worker takes in is that of its
    /// configuration, which no operation changes: it is the same for the
    /// worker's whole life.
    pub proof fn lemma_map_length_fixed(before: &Worker, after: &Worker)
        requires
            before.wf(),
            after.wf(),
            after.same_settings(before),
        ensures
            after.engine().history().len() == before.engine().history().len(),
            after.engine().history().len() == before.config().spec_coverage_map().len,
    {
    }

    /// Whether the worker is as it is made for `config`, `policy` and
    /// `budget`: well formed, with nothing sent, nothing in flight, a fresh
    /// engine for the coverage map and the trace mode of the configuration,
    /// and totals of zero.
    pub open spec fn spec_is_fresh(
        &self,
        config: &SessionConfig,
        policy: ErrorPolicy,
        budget: Option<u64>,
    ) -> bool {
        &&& self.wf()
        &&& self.config().same_as(config)
        &&& self.policy() == policy
        &&& self.budget() == budget
        &&& self.session().spec_state() == TrialState::Idle
        &&& self.session().history().len() == 0
        &&& self.session().spec_map() is None
        &&& self.session().spec_trials() == 0
        &&& self.in_flight() is None
        &&& self.engine().spec_is_fresh(config.spec_coverage_map().len, config.spec_trace_mode())
        &&& self.spec_stats() == (WorkerStats {
            executions: 0,
            corpus: 0,
            crashes: 0,
            timeouts: 0,
        })
    }

    /// A worker for a session under `config`, whose random numbers follow
    /// from `seed`. Nothing is sent yet, and the corpora are empty.
    pub fn new(config: SessionConfig, seed: u64, policy: ErrorPolicy, budget: Option<u64>) -> (r:
        Result<Worker, WorkerError>)
        ensures
            r matches Ok(worker) && worker.spec_is_fresh(&config, policy, budget),
    {
        let engine = match Engine::new(seed, config.coverage_map().len, config.trace_mode()) {
            Ok(engine) => engine,
            Err(e) => {
                return Err(WorkerError::Engine(e));
            },
        };
        Ok(
            Worker {
                session: Session::new(),
                engine,
                config,
                policy,
                budget,
                in_flight: None,
                executions: 0,
                crashes: 0,
                timeouts: 0,
            },
        )
    }

    /// A worker as `new` makes it, whose random numbers follow from the time
    /// at which it is made.
    pub fn with_clock_seed(config: SessionConfig, policy: ErrorPolicy, budget: Option<u64>) -> (r:
        Result<Worker, WorkerError>)
        ensures
            r matches Ok(worker) && worker.spec_is_fresh(&config, policy, budget),
    {
        let engine = match Engine::with_clock_seed(
            config.coverage_map().len,
            config.trace_mode(),
        ) {
            Ok(engine) => engine,
            Err(e) => {
                return Err(WorkerError::Engine(e));
            },
        };
        Ok(
            Worker {
                session: Session::new(),
                engine,
                config,
                policy,
                budget,
                in_flight: None,
                executions: 0,
                crashes: 0,
                timeouts: 0,
            },
        )
    }

    /// The totals of the worker.
    pub fn stats(&self) -> (s: WorkerStats)
        requires
            self.wf(),
        ensures
            s == self.spec_stats(),
            s.corpus == self.engine().corpus().len(),
    {
        WorkerStats {
            executions: self.executions,
            corpus: self.engine.corpus_count(),
            crashes: self.crashes,
            timeouts: self.timeouts,
        }
    }

    /// The state of the session, which is the state that the session's
    /// history leads to: the history of a worker is always that of a session.
    pub fn state(&self) -> (s: TrialState)
        ensures
            s == self.session().spec_state(),
            state_after(TrialState::Idle, self.session().history()) == Some(s),
    {
        self.session.state()
    }

    /// The number of runs sent so far.
    pub fn trials(&self) -> (n: u64)
        ensures
            n == self.session().spec_trials(),
    {
        self.session.trials()
    }

    /// The coverage map that the target named, once it has.
    pub fn map(&self) -> (m: Option<MapDescriptor>)
        ensures
            m == self.session().spec_map(),
    {
        self.session.map()
    }

    /// The bytes of the entry at `index` of the input corpus; `None` exactly
    /// where the corpus has no entry there.
    pub fn corpus_input(&self, index: usize) -> (r: Option<Vec<u8>>)
        ensures
            match r {
                Some(bytes) => index < self.engine().corpus().len() && bytes@
                    == self.engine().corpus()[index as int],
                None => index >= self.engine().corpus().len(),
            },
    {
        self.engine.corpus_input(index)
    }

    /// The bytes of the entry at `index` of the solutions corpus; `None`
    /// exactly where the corpus has no entry there.
    pub fn solution_input(&self, index: usize) -> (r: Option<Vec<u8>>)
        ensures
            match r {
                Some(bytes) => index < self.engine().solutions().len() && bytes@
                    == self.engine().solutions()[index as int],
                None => index >= self.engine().solutions().len(),
            },
    {
        self.engine.solution_input(index)
    }

    /// The number of entries of the solutions corpus.
    pub fn solution_count(&self) -> (n: usize)
        ensures
            n == self.engine().solutions().len(),
    {
        self.engine.solution_count()
    }

    /// Puts `input` among the seeds, which are run before anything is
    /// mutated.
    pub fn add_seed(&mut self, input: Vec<u8>)
        requires
            old(self).wf(),
        ensures
            final(self).wf(),
            final(self).engine().seeded(old(self).engine(), input@),
            final(self).session() == old(self).session(),
            final(self).in_flight() == old(self).in_flight(),
            final(self).spec_stats() == old(self).spec_stats(),
            final(self).config() == old(self).config(),
            final(self).policy() == old(self).policy(),
            final(self).budget() == old(self).budget(),
    {
        self.engine.push_seed(input);
    }

    /// Whether nothing but the session has changed since `before`.
    pub open spec fn only_session_changed(&self, before: &Worker) -> bool {
        &&& self.engine() == before.engine()
        &&& self.in_flight() == before.in_flight()
        &&& self.spec_stats() == before.spec_stats()
        &&& self.same_settings(before)
    }

    /// Whether configuration, policy and budget are those of `before`.
    pub open spec fn same_settings(&self, before: &Worker) -> bool {
        &&& self.config() == before.config()
        &&& self.policy() == before.policy()
        &&& self.budget() == before.budget()
    }

    /// Whether the session has taken `step` since `before`, or refused it as
    /// the violation `v` says.
    pub open spec fn stepped(&self, before: &Worker, step: Step, v: Option<ProtocolViolation>) -> bool {
        match v {
            None => {
                &&& next_state(before.session().spec_state(), step) == Some(
                    self.session().spec_state(),
                )
                &&& self.session().history() == before.session().history().push(step)
            },
            Some(violation) => {
                &&& next_state(before.session().spec_state(), step) is None
                &&& violation == (ProtocolViolation { state: before.session().spec_state(), step })
                &&& self.session().spec_state() == before.session().spec_state()
                &&& self.session().history() == before.session().history()
                &&& self.session().spec_map() == before.session().spec_map()
                &&& self.session().spec_trials() == before.session().spec_trials()
            },
        }
    }

    /// Opens the session: the command to send is `Initialize` with the
    /// worker's configuration. It is refused unless nothing was sent yet.
    pub fn begin(&mut self) -> (r: Result<Command, WorkerError>)
        requires
            old(self).wf(),
        ensures
            final(self).wf(),
            final(self).only_session_changed(old(self)),
            match r {
                Ok(command) => {
                    &&& command matches Command::Initialize(config) && config.same_as(
                        old(self).config(),
                    )
                    &&& final(self).stepped(old(self), Step::Initialize, None)
                },
                Err(WorkerError::Protocol(v)) => final(self).stepped(
                    old(self),
                    Step::Initialize,
                    Some(v),
                ),
                Err(_) => false,
            },
    {
        let command = Command::Initialize(self.config.duplicate());
        match self.session.send(&command) {
            Ok(()) => Ok(command),
            Err(v) => Err(WorkerError::Protocol(v)),
        }
    }

    /// Takes in the descriptor of the coverage map. A map of another length
    /// than the session was opened with ends the session.
    pub fn on_shared_memory(&mut self, map: MapDescriptor) -> (r: Result<(), WorkerError>)
        requires
            old(self).wf(),
        ensures
            final(self).wf(),
            final(self).only_session_changed(old(self)),
            match r {
                Ok(()) => {
                    &&& final(self).stepped(old(self), Step::SharedMemory, None)
                    &&& final(self).session().spec_map() == Some(map)
                    &&& map.len == old(self).config().spec_coverage_map().len
                },
                Err(WorkerError::Protocol(v)) => final(self).stepped(
                    old(self),
                    Step::SharedMemory,
                    Some(v),
                ),
                Err(WorkerError::MapLength { expected, found }) => {
                    &&& expected == old(self).config().spec_coverage_map().len
                    &&& found == map.len
                    &&& expected != found
                    &&& next_state(old(self).session().spec_state(), Step::SharedMemory)
                        is Some
                    &&& final(self).session().spec_state() == TrialState::Terminated
                    &&& final(self).session().history() == old(self).session().history().push(
                        Step::SharedMemory,
                    ).push(Step::Abort)
                },
                Err(_) => false,
            },
    {
        let event = Event::SharedMemoryHandle(map);
        match self.session.receive(&event) {
            Ok(()) => {},
            Err(v) => {
                return Err(WorkerError::Protocol(v));
            },
        }
        let expected: usize = self.config.coverage_map().len;
        if map.len != expected {
            self.session.abort();
            return Err(WorkerError::MapLength { expected, found: map.len });
        }
        Ok(())
    }

    /// Whether the budget is spent: as many turns of the search as it allows
    /// have begun, and the next input would begin one more (or the engine
    /// would give up in place of one). Seeds and calibration runs are never
    /// held back by the budget.
    pub open spec fn spec_budget_spent(&self) -> bool {
        match self.budget() {
            Some(limit) => self.engine().turns() >= limit && (self.engine().spec_begins_turn()
                || self.engine().spec_gives_up()),
            None => false,
        }
    }

    /// What `on_ready_with` does to a worker, as a relation between the
    /// worker before and after, the request and the result. A `Ready` out of
    /// order is a violation; else the answer is `Stop` where a stop is asked
    /// for or the budget is spent; else the engine's failure where it gives
    /// up; else `Run`.
    pub open spec fn readied(
        before: &Worker,
        after: &Worker,
        stop_requested: bool,
        r: Result<Command, WorkerError>,
    ) -> bool {
        let history = before.session().history();
        let stops = stop_requested || before.spec_budget_spent();
        &&& after.same_settings(before)
        &&& after.spec_stats() == before.spec_stats()
        &&& after.session().spec_map() == before.session().spec_map()
        &&& match r {
            Ok(Command::Stop) => {
                &&& stops
                &&& next_state(before.session().spec_state(), Step::Ready) == Some(
                    TrialState::ReadyForRun,
                )
                &&& after.session().spec_state() == TrialState::Terminated
                &&& after.session().history() == history.push(Step::Ready).push(Step::Stop)
                &&& after.session().spec_trials() == before.session().spec_trials()
                &&& after.engine() == before.engine()
                &&& after.in_flight() is None
            },
            Ok(Command::Run(input)) => {
                &&& !stops
                &&& next_state(before.session().spec_state(), Step::Ready) == Some(
                    TrialState::ReadyForRun,
                )
                &&& after.session().spec_state() == TrialState::Running
                &&& after.session().history() == history.push(Step::Ready).push(Step::Run)
                &&& after.session().spec_trials() == spec_counted(
                    before.session().spec_trials(),
                    true,
                )
                &&& after.in_flight() matches Some((bytes, purpose)) && bytes == input@
                    && Engine::chose(before.engine(), after.engine(), Ok((bytes, purpose)))
            },
            Ok(_) => false,
            Err(WorkerError::Protocol(v)) => {
                &&& after.stepped(before, Step::Ready, Some(v))
                &&& after.engine() == before.engine()
                &&& after.in_flight() == before.in_flight()
            },
            Err(WorkerError::Engine(e)) => {
                &&& !stops
                &&& after.stepped(before, Step::Ready, None)
                &&& after.session().spec_state() == TrialState::ReadyForRun
                &&& after.session().spec_trials() == before.session().spec_trials()
                &&& e == EngineError::EmptyCorpus
                &&& Engine::chose(before.engine(), after.engine(), Err(e))
                &&& after.in_flight() is None
            },
            Err(_) => false,
        }
    }

    /// Takes in a `Ready` and says what to send: `Stop` where the budget is
    /// spent, else `Run` with the input that the engine chooses, which is
    /// then in flight.
    pub fn on_ready(&mut self) -> (r: Result<Command, WorkerError>)
        requires
            old(self).wf(),
        ensures
            final(self).wf(),
            Worker::readied(old(self), final(self), false, r),
    {
        self.on_ready_with(false)
    }

    /// Takes in a `Ready` together with the word whether a stop is asked
    /// for, and says what to send: `Stop` where it is, or where the budget
    /// is spent; else `Run` with the input that the engine chooses, which is
    /// then in flight. This is the step between two trials at which a
    /// session is ended in order.
    pub fn on_ready_with(&mut self, stop_requested: bool) -> (r: Result<Command, WorkerError>)
        requires
            old(self).wf(),
        ensures
            final(self).wf(),
            Worker::readied(old(self), final(self), stop_requested, r),
    {
        match self.session.receive(&Event::Ready) {
            Ok(()) => {},
            Err(v) => {
                return Err(WorkerError::Protocol(v));
            },
        }
        let spent: bool = match self.budget {
            Some(limit) => self.engine.turn_count() >= limit && self.engine.at_turn_boundary(),
            None => false,
        };
        if stop_requested || spent {
            let command = Command::Stop;
            let sent = self.session.send(&command);
            assert(sent is Ok);
            return Ok(command);
        }
        let (input, purpose) = match self.engine.next_trial() {
            Ok(chosen) => chosen,
            Err(e) => {
                return Err(WorkerError::Engine(e));
            },
        };
        let command = Command::Run(copy_bytes(&input));
        let sent = self.session.send(&command);
        assert(sent is Ok);
        proof {
            old(self).engine.lemma_wf();
        }
        self.in_flight = Some((input, purpose));
        Ok(command)
    }

    /// What the end of a trial does to a worker, as a relation between the
    /// worker before and after, the step that ended the trial, its verdict,
    /// the coverage map, the time that the run took, and the result. An end
    /// out of order is a violation; a coverage map of another length than
    /// the session's is the engine's failure; every other end is settled,
    /// whatever the verdict, and answered with `Reset`.
    pub open spec fn ended(
        before: &Worker,
        after: &Worker,
        end: Step,
        verdict: Verdict,
        map: Seq<u8>,
        micros: u64,
        r: Result<(Command, TrialReport), WorkerError>,
    ) -> bool {
        let history = before.session().history();
        let trial = before.session().spec_trials();
        &&& after.same_settings(before)
        &&& after.session().spec_map() == before.session().spec_map()
        &&& after.session().spec_trials() == trial
        &&& match r {
            Ok((command, report)) => {
                &&& command is Reset
                &&& before.session().spec_state() == TrialState::Running
                &&& after.session().spec_state() == (TrialState::AwaitReset { reset_sent: true })
                &&& after.session().history() == history.push(end).push(Step::Reset)
                &&& after.in_flight() is None
                &&& before.in_flight() matches Some((input, purpose)) && report == (TrialReport {
                    trial,
                    purpose,
                    verdict,
                    settlement: report.settlement,
                }) && Engine::settled(
                    before.engine(),
                    after.engine(),
                    input,
                    purpose,
                    verdict,
                    map,
                    micros,
                    trial,
                    Ok(report.settlement),
                )
                &&& after.spec_stats().executions == spec_counted(
                    before.spec_stats().executions,
                    true,
                )
                &&& after.spec_stats().crashes == spec_counted(
                    before.spec_stats().crashes,
                    verdict == Verdict::Crash,
                )
                &&& after.spec_stats().timeouts == spec_counted(
                    before.spec_stats().timeouts,
                    verdict == Verdict::Timeout,
                )
            },
            Err(WorkerError::Protocol(v)) => {
                &&& after.stepped(before, end, Some(v))
                &&& after.engine() == before.engine()
                &&& after.in_flight() == before.in_flight()
                &&& after.spec_stats() == before.spec_stats()
            },
            Err(WorkerError::Engine(e)) => {
                &&& e matches EngineError::MapLength { expected, found } && expected
                    == before.config().spec_coverage_map().len && found == map.len() && expected
                    != found
                &&& before.session().spec_state() == TrialState::Running
                &&& after.session().spec_state() == (TrialState::AwaitReset { reset_sent: false })
                &&& after.session().history() == history.push(end)
                &&& after.in_flight() is None
                &&& before.in_flight() matches Some((input, purpose)) && Engine::settled(
                    before.engine(),
                    after.engine(),
                    input,
                    purpose,
                    verdict,
                    map,
                    micros,
                    trial,
                    Err(e),
                )
                &&& after.spec_stats().executions == before.spec_stats().executions
                &&& after.spec_stats().crashes == before.spec_stats().crashes
                &&& after.spec_stats().timeouts == before.spec_stats().timeouts
            },
            Err(_) => false,
        }
    }

    /// Settles the trial that has just ended and sends `Reset`.
    fn finish(&mut self, verdict: Verdict, map: &CoverageMap, micros: u64, Ghost(end): Ghost<
        Step,
    >, Ghost(before): Ghost<&Worker>) -> (r: Result<(Command, TrialReport), WorkerError>)
        requires
            is_trial_end(end),
            before.wf(),
            old(self).engine.wf(),
            old(self).engine == before.engine,
            old(self).in_flight == before.in_flight,
            old(self).config == before.config,
            old(self).policy == before.policy,
            old(self).budget == before.budget,
            old(self).executions == before.executions,
            old(self).crashes == before.crashes,
            old(self).timeouts == before.timeouts,
            before.session.spec_state() == TrialState::Running,
            old(self).session.spec_state() == (TrialState::AwaitReset { reset_sent: false }),
            old(self).session.history() == before.session.history().push(end),
            old(self).session.spec_map() == before.session.spec_map(),
            old(self).session.spec_trials() == before.session.spec_trials(),
        ensures
            final(self).wf(),
            Worker::ended(before, final(self), end, verdict, map@, micros, r),
            r is Err ==> r matches Err(WorkerError::Engine(_)),
    {
        let trial: u64 = self.session.trials();
        let settled = match &self.in_flight {
            Some((input, purpose)) => {
                let purpose: Purpose = *purpose;
                match self.engine.settle(input, purpose, verdict, map, micros, trial) {
                    Ok(settlement) => Ok(TrialReport { trial, purpose, verdict, settlement }),
                    Err(e) => Err(WorkerError::Engine(e)),
                }
            },
            None => {
                proof {
                    assert(false);
                }
                Err(WorkerError::ChannelDisconnected)
            },
        };
        self.in_flight = None;
        let report = match settled {
            Ok(report) => report,
            Err(e) => {
                return Err(e);
            },
        };
        self.executions = counted(self.executions, true);
        self.crashes = counted(self.crashes, verdict.is_solution());
        self.timeouts = counted(
            self.timeouts,
            match verdict {
                Verdict::Timeout => true,
                _ => false,
            },
        );
        let command = Command::Reset;
        let sent = self.session.send(&command);
        assert(sent is Ok);
        Ok((command, report))
    }

    /// Takes in a `Stopped` with the coverage map as the run left it and the
    /// time that the run took, and says what to send, which is `Reset`
    /// whatever the verdict. The reason is turned into a verdict under the
    /// worker's policy and the engine settles the trial.
    pub fn on_stopped(&mut self, reason: StopReason, map: &CoverageMap, micros: u64) -> (r: Result<
        (Command, TrialReport),
        WorkerError,
    >)
        requires
            old(self).wf(),
        ensures
            final(self).wf(),
            Worker::ended(
                old(self),
                final(self),
                Step::Stopped,
                spec_classify(reason, old(self).policy()),
                map@,
                micros,
                r,
            ),
    {
        let verdict = classify(&reason, self.policy);
        let event = Event::Stopped(reason);
        match self.session.receive(&event) {
            Ok(()) => {},
            Err(v) => {
                return Err(WorkerError::Protocol(v));
            },
        }
        self.finish(verdict, map, micros, Ghost(Step::Stopped), Ghost(old(self)))
    }

    /// Takes in that the time bound of the trial passed with no `Stopped`:
    /// the trial is ended by force with the verdict `Timeout`, the engine
    /// settles it with the coverage map as it stands, and `Reset` is to be
    /// sent as after any other trial.
    pub fn on_timeout(&mut self, map: &CoverageMap, micros: u64) -> (r: Result<
        (Command, TrialReport),
        WorkerError,
    >)
        requires
            old(self).wf(),
        ensures
            final(self).wf(),
            Worker::ended(
                old(self),
                final(self),
                Step::ForcedEnd,
                Verdict::Timeout,
                map@,
                micros,
                r,
            ),
    {
        match self.session.force_end() {
            Ok(()) => {},
            Err(v) => {
                return Err(WorkerError::Protocol(v));
            },
        }
        self.finish(Verdict::Timeout, map, micros, Ghost(Step::ForcedEnd), Ghost(old(self)))
    }

    /// Ends the session in order: the command to send is `Stop`. It is
    /// refused while a trial is in flight or awaits its reset.
    pub fn stop(&mut self) -> (r: Result<Command, WorkerError>)
        requires
            old(self).wf(),
        ensures
            final(self).wf(),
            final(self).only_session_changed(old(self)),
            match r {
                Ok(command) => command is Stop && final(self).stepped(old(self), Step::Stop, None),
                Err(WorkerError::Protocol(v)) => final(self).stepped(old(self), Step::Stop, Some(v)),
                Err(_) => false,
            },
    {
        let command = Command::Stop;
        match self.session.send(&command) {
            Ok(()) => Ok(command),
            Err(v) => Err(WorkerError::Protocol(v)),
        }
    }

    /// Takes in that the target's process was killed: the session is over,
    /// and what was in flight is dropped. The corpora stay as they are.
    pub fn kill(&mut self)
        requires
            old(self).wf(),
        ensures
            final(self).wf(),
            final(self).session().spec_state() == TrialState::Terminated,
            final(self).session().history() == if old(self).session().spec_state()
                == TrialState::Terminated {
                old(self).session().history()
            } else {
                old(self).session().history().push(Step::Abort)
            },
            final(self).engine() == old(self).engine(),
            final(self).in_flight() is None,
            final(self).spec_stats() == old(self).spec_stats(),
            final(self).same_settings(old(self)),
    {
        self.session.abort();
        self.in_flight = None;
    }

    /// Takes in that the channel to the target broke before an expected
    /// reply: the worker cannot go on, and its session is over.
    pub fn on_disconnect(&mut self) -> (e: WorkerError)
        requires
            old(self).wf(),
        ensures
            final(self).wf(),
            e == WorkerError::ChannelDisconnected,
            final(self).session().spec_state() == TrialState::Terminated,
            final(self).engine() == old(self).engine(),
            final(self).in_flight() is None,
            final(self).spec_stats() == old(self).spec_stats(),
            final(self).same_settings(old(self)),
    {
        self.kill();
        WorkerError::ChannelDisconnected
    }
}

} // verus!
