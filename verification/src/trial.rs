//! The state machine of one worker's session: which message may follow
//! which.

use crate::messages::{Command, Event, MapDescriptor};
use vstd::prelude::*;

verus! {

/// Where a session stands.
#[derive(Clone, Copy, Debug, PartialEq, Eq, Structural)]
pub enum TrialState {
    /// Nothing was sent yet.
    Idle,
    /// `Initialize` was sent; the target owes the coverage map and then its
    /// first `Ready`.
    AwaitHandshake { map_received: bool },
    /// The target is clean and waits for a run.
    ReadyForRun,
    /// A run is in flight.
    Running,
    /// The run has ended; the target owes a `Ready` once `Reset` is sent.
    AwaitReset { reset_sent: bool },
    /// The session is over.
    Terminated,
}

/// One thing that happens in a session, without what it carries.
#[derive(Clone, Copy, Debug, PartialEq, Eq, Structural)]
pub enum Step {
    /// `Initialize` was sent.
    Initialize,
    /// The coverage map's descriptor was received.
    SharedMemory,
    /// `Ready` was received.
    Ready,
    /// `Run` was sent.
    Run,
    /// `Stopped` was received.
    Stopped,
    /// The run was ended by force when its time bound passed.
    ForcedEnd,
    /// `Reset` was sent.
    Reset,
    /// `Stop` was sent.
    Stop,
    /// The target's process was killed.
    Abort,
}

/// A step that the session's state does not admit.
#[derive(Clone, Copy, Debug, PartialEq, Eq, Structural)]
pub struct ProtocolViolation {
    /// The state in which the step came.
    pub state: TrialState,
    /// The step that came.
    pub step: Step,
}

/// Whether a step ends a run: a `Stopped` from the target or an end by force.
pub open spec fn is_trial_end(step: Step) -> bool {
    step == Step::Stopped || step == Step::ForcedEnd
}

/// The state after `step` in `state`, or `None` where the state does not
/// admit the step.
pub open spec fn next_state(state: TrialState, step: Step) -> Option<TrialState> {
    match (state, step) {
        (TrialState::Terminated, _) => None,
        (_, Step::Abort) => Some(TrialState::Terminated),
        (TrialState::Idle, Step::Initialize) => Some(
            TrialState::AwaitHandshake { map_received: false },
        ),
        (TrialState::AwaitHandshake { map_received: false }, Step::SharedMemory) => Some(
            TrialState::AwaitHandshake { map_received: true },
        ),
        (TrialState::AwaitHandshake { map_received: true }, Step::Ready) => Some(
            TrialState::ReadyForRun,
        ),
        (TrialState::AwaitHandshake { .. }, Step::Stop) => Some(TrialState::Terminated),
        (TrialState::ReadyForRun, Step::Run) => Some(TrialState::Running),
        (TrialState::ReadyForRun, Step::Stop) => Some(TrialState::Terminated),
        (TrialState::Running, Step::Stopped) => Some(TrialState::AwaitReset { reset_sent: false }),
        (TrialState::Running, Step::ForcedEnd) => Some(
            TrialState::AwaitReset { reset_sent: false },
        ),
        (TrialState::AwaitReset { reset_sent: false }, Step::Reset) => Some(
            TrialState::AwaitReset { reset_sent: true },
        ),
        (TrialState::AwaitReset { reset_sent: true }, Step::Ready) => Some(TrialState::ReadyForRun),
        _ => None,
    }
}

/// The state after the steps of `trace`, taken in order from `state`, or
/// `None` where one of them is not admitted.
pub open spec fn state_after(state: TrialState, trace: Seq<Step>) -> Option<TrialState>
    decreases trace.len(),
{
    if trace.len() == 0 {
        Some(state)
    } else {
        match state_after(state, trace.drop_last()) {
            Some(s) => next_state(s, trace.last()),
            None => None,
        }
    }
}

/// Whether `trace` is the history of a session from its start.
pub open spec fn is_session(trace: Seq<Step>) -> bool {
    state_after(TrialState::Idle, trace) is Some
}

/// The step that sending `command` is.
pub open spec fn step_of_command(command: Command) -> Step {
    match command {
        Command::Initialize(_) => Step::Initialize,
        Command::Run(_) => Step::Run,
        Command::Reset => Step::Reset,
        Command::Stop => Step::Stop,
    }
}

/// The step that receiving `event` is.
pub open spec fn step_of_event(event: Event) -> Step {
    match event {
        Event::SharedMemoryHandle(_) => Step::SharedMemory,
        Event::Ready => Step::Ready,
        Event::Stopped(_) => Step::Stopped,
    }
}

/// The number of runs among the steps of `trace`.
pub open spec fn runs_in(trace: Seq<Step>) -> nat
    decreases trace.len(),
{
    if trace.len() == 0 {
        0
    } else {
        runs_in(trace.drop_last()) + if trace.last() == Step::Run {
            1nat
        } else {
            0nat
        }
    }
}

/// The state after `step` in `state`, or the violation that the step is.
pub fn advance(state: TrialState, step: Step) -> (r: Result<TrialState, ProtocolViolation>)
    ensures
        match r {
            Ok(s) => next_state(state, step) == Some(s),
            Err(v) => next_state(state, step) is None && v == (ProtocolViolation { state, step }),
        },
{
    let refused = Err(ProtocolViolation { state, step });
    match state {
        TrialState::Terminated => refused,
        TrialState::Idle => match step {
            Step::Abort => Ok(TrialState::Terminated),
            Step::Initialize => Ok(TrialState::AwaitHandshake { map_received: false }),
            _ => refused,
        },
        TrialState::AwaitHandshake { map_received } => match step {
            Step::Abort => Ok(TrialState::Terminated),
            Step::Stop => Ok(TrialState::Terminated),
            Step::SharedMemory => if map_received {
                refused
            } else {
                Ok(TrialState::AwaitHandshake { map_received: true })
            },
            Step::Ready => if map_received {
                Ok(TrialState::ReadyForRun)
            } else {
                refused
            },
            _ => refused,
        },
        TrialState::ReadyForRun => match step {
            Step::Abort => Ok(TrialState::Terminated),
            Step::Stop => Ok(TrialState::Terminated),
            Step::Run => Ok(TrialState::Running),
            _ => refused,
        },
        TrialState::Running => match step {
            Step::Abort => Ok(TrialState::Terminated),
            Step::Stopped => Ok(TrialState::AwaitReset { reset_sent: false }),
            Step::ForcedEnd => Ok(TrialState::AwaitReset { reset_sent: false }),
            _ => refused,
        },
        TrialState::AwaitReset { reset_sent } => match step {
            Step::Abort => Ok(TrialState::Terminated),
            Step::Reset => if reset_sent {
                refused
            } else {
                Ok(TrialState::AwaitReset { reset_sent: true })
            },
            Step::Ready => if reset_sent {
                Ok(TrialState::ReadyForRun)
            } else {
                refused
            },
            _ => refused,
        },
    }
}

/// One worker's session with its target: the state, the coverage map that
/// the handshake named, the number of runs, and the history of steps.
pub struct Session {
    state: TrialState,
    map: Option<MapDescriptor>,
    trials: u64,
    history: Ghost<Seq<Step>>,
}

impl Session {
    #[verifier::type_invariant]
    spec fn inv(self) -> bool {
        &&& state_after(TrialState::Idle, self.history@) == Some(self.state)
        &&& self.trials as nat == runs_in(self.history@) || (self.trials == u64::MAX
            && runs_in(self.history@) > u64::MAX)
        &&& self.map is Some <==> exists|i: int|
            0 <= i < self.history@.len() && self.history@[i] == Step::SharedMemory
    }

    /// The steps of the session so far, oldest first.
    pub closed spec fn history(&self) -> Seq<Step> {
        self.history@
    }

    /// The state of the session.
    pub closed spec fn spec_state(&self) -> TrialState {
        self.state
    }

    /// The coverage map, once the target has named it.
    pub closed spec fn spec_map(&self) -> Option<MapDescriptor> {
        self.map
    }

    /// The number of runs sent, which stops counting at `u64::MAX`.
    pub closed spec fn spec_trials(&self) -> u64 {
        self.trials
    }

    /// A session in which nothing has happened yet.
    pub fn new() -> (s: Session)
        ensures
            s.spec_state() == TrialState::Idle,
            s.history().len() == 0,
            s.spec_map() is None,
            s.spec_trials() == 0,
    {
        Session { state: TrialState::Idle, map: None, trials: 0, history: Ghost(Seq::empty()) }
    }

    /// The state of the session, which is the state that its history leads to.
    pub fn state(&self) -> (s: TrialState)
        ensures
            s == self.spec_state(),
            state_after(TrialState::Idle, self.history()) == Some(s),
    {
        proof {
            use_type_invariant(self);
        }
        self.state
    }

    /// The coverage map, once the target has named it.
    pub fn map(&self) -> (m: Option<MapDescriptor>)
        ensures
            m == self.spec_map(),
    {
        self.map
    }

    /// The number of runs sent so far.
    pub fn trials(&self) -> (n: u64)
        ensures
            n == self.spec_trials(),
            n as nat == runs_in(self.history()) || n == u64::MAX,
    {
        proof {
            use_type_invariant(self);
        }
        self.trials
    }

    /// Whether the session is over.
    pub fn is_terminated(&self) -> (b: bool)
        ensures
            b == (self.spec_state() == TrialState::Terminated),
    {
        self.state == TrialState::Terminated
    }

    /// Takes one step that carries no coverage map. The step is refused, and
    /// nothing changes, where the state does not admit it.
    fn take(&mut self, step: Step) -> (r: Result<(), ProtocolViolation>)
        requires
            step != Step::SharedMemory,
        ensures
            match r {
                Ok(()) => {
                    &&& next_state(old(self).spec_state(), step) == Some(final(self).spec_state())
                    &&& final(self).history() == old(self).history().push(step)
                    &&& final(self).spec_trials() == if step == Step::Run && old(
                        self,
                    ).spec_trials() < u64::MAX {
                        (old(self).spec_trials() + 1) as u64
                    } else {
                        old(self).spec_trials()
                    }
                },
                Err(v) => {
                    &&& next_state(old(self).spec_state(), step) is None
                    &&& v == (ProtocolViolation { state: old(self).spec_state(), step })
                    &&& final(self).spec_state() == old(self).spec_state()
                    &&& final(self).history() == old(self).history()
                    &&& final(self).spec_trials() == old(self).spec_trials()
                },
            },
            final(self).spec_map() == old(self).spec_map(),
    {
        proof {
            use_type_invariant(&*self);
        }
        let next = advance(self.state, step)?;
        let trials: u64 = match step {
            Step::Run => if self.trials < u64::MAX {
                self.trials + 1
            } else {
                self.trials
            },
            _ => self.trials,
        };
        let ghost before = self.history@;
        let ghost after = before.push(step);
        proof {
            assert(after.drop_last() == before);
            assert(after.last() == step);
            assert forall|i: int| 0 <= i < after.len() && after[i] == Step::SharedMemory implies 0
                <= i < before.len() && before[i] == Step::SharedMemory by {}
            assert forall|i: int|
                0 <= i < before.len() && before[i] == Step::SharedMemory implies after[i]
                == Step::SharedMemory by {}
        }
        *self = Session { state: next, map: self.map, trials, history: Ghost(after) };
        Ok(())
    }

    /// Records that `command` is being sent. The command is refused, and
    /// nothing changes, where the state does not admit it.
    pub fn send(&mut self, command: &Command) -> (r: Result<(), ProtocolViolation>)
        ensures
            match r {
                Ok(()) => {
                    &&& next_state(old(self).spec_state(), step_of_command(*command)) == Some(
                        final(self).spec_state(),
                    )
                    &&& final(self).history() == old(self).history().push(step_of_command(*command))
                    &&& final(self).spec_trials() == if *command is Run && old(self).spec_trials()
                        < u64::MAX {
                        (old(self).spec_trials() + 1) as u64
                    } else {
                        old(self).spec_trials()
                    }
                },
                Err(v) => {
                    &&& next_state(old(self).spec_state(), step_of_command(*command)) is None
                    &&& v == (ProtocolViolation {
                        state: old(self).spec_state(),
                        step: step_of_command(*command),
                    })
                    &&& final(self).spec_state() == old(self).spec_state()
                    &&& final(self).history() == old(self).history()
                    &&& final(self).spec_trials() == old(self).spec_trials()
                },
            },
            final(self).spec_map() == old(self).spec_map(),
    {
        let step = match command {
            Command::Initialize(_) => Step::Initialize,
            Command::Run(_) => Step::Run,
            Command::Reset => Step::Reset,
            Command::Stop => Step::Stop,
        };
        self.take(step)
    }

    /// Records that `event` was received. The event is a violation, and
    /// nothing changes, where the state does not expect it. The descriptor
    /// of the coverage map is kept when it comes, and never changes after.
    pub fn receive(&mut self, event: &Event) -> (r: Result<(), ProtocolViolation>)
        ensures
            match r {
                Ok(()) => {
                    &&& next_state(old(self).spec_state(), step_of_event(*event)) == Some(
                        final(self).spec_state(),
                    )
                    &&& final(self).history() == old(self).history().push(step_of_event(*event))
                    &&& final(self).spec_map() == match *event {
                        Event::SharedMemoryHandle(map) => Some(map),
                        _ => old(self).spec_map(),
                    }
                },
                Err(v) => {
                    &&& next_state(old(self).spec_state(), step_of_event(*event)) is None
                    &&& v == (ProtocolViolation {
                        state: old(self).spec_state(),
                        step: step_of_event(*event),
                    })
                    &&& final(self).spec_state() == old(self).spec_state()
                    &&& final(self).history() == old(self).history()
                    &&& final(self).spec_map() == old(self).spec_map()
                },
            },
            old(self).spec_map() is Some ==> final(self).spec_map() == old(self).spec_map(),
            final(self).spec_trials() == old(self).spec_trials(),
    {
        match event {
            Event::SharedMemoryHandle(map) => {
                proof {
                    use_type_invariant(&*self);
                    lemma_map_comes_once(self.history@);
                }
                let next = advance(self.state, Step::SharedMemory)?;
                let ghost before = self.history@;
                let ghost after = before.push(Step::SharedMemory);
                proof {
                    assert(after.drop_last() == before);
                    assert(after.last() == Step::SharedMemory);
                    assert(after[before.len() as int] == Step::SharedMemory);
                }
                *self = Session {
                    state: next,
                    map: Some(*map),
                    trials: self.trials,
                    history: Ghost(after),
                };
                Ok(())
            },
            Event::Ready => self.take(Step::Ready),
            Event::Stopped(_) => self.take(Step::Stopped),
        }
    }

    /// Records that the run in flight was ended by force because its time
    /// bound passed with no `Stopped`. Only a running session admits it.
    pub fn force_end(&mut self) -> (r: Result<(), ProtocolViolation>)
        ensures
            match r {
                Ok(()) => {
                    &&& old(self).spec_state() == TrialState::Running
                    &&& final(self).spec_state() == (TrialState::AwaitReset { reset_sent: false })
                    &&& final(self).history() == old(self).history().push(Step::ForcedEnd)
                },
                Err(v) => {
                    &&& old(self).spec_state() != TrialState::Running
                    &&& v == (ProtocolViolation {
                        state: old(self).spec_state(),
                        step: Step::ForcedEnd,
                    })
                    &&& final(self).spec_state() == old(self).spec_state()
                    &&& final(self).history() == old(self).history()
                },
            },
            final(self).spec_map() == old(self).spec_map(),
            final(self).spec_trials() == old(self).spec_trials(),
    {
        self.take(Step::ForcedEnd)
    }

    /// Records that the target's process was killed: the session is over,
    /// whatever its state was. A session that was over stays as it is.
    pub fn abort(&mut self)
        ensures
            final(self).spec_state() == TrialState::Terminated,
            final(self).history() == if old(self).spec_state() == TrialState::Terminated {
                old(self).history()
            } else {
                old(self).history().push(Step::Abort)
            },
            final(self).spec_map() == old(self).spec_map(),
            final(self).spec_trials() == old(self).spec_trials(),
    {
        let _ = self.take(Step::Abort);
    }
}

/// In the history of a session the coverage map has come if and only if the
/// handshake has gone past it, so that it cannot come twice.
proof fn lemma_map_comes_once(trace: Seq<Step>)
    requires
        is_session(trace),
    ensures
        (exists|i: int| 0 <= i < trace.len() && trace[i] == Step::SharedMemory) ==> state_after(
            TrialState::Idle,
            trace,
        ) != Some(TrialState::AwaitHandshake { map_received: false }),
    decreases trace.len(),
{
    if trace.len() > 0 {
        let before = trace.drop_last();
        lemma_map_comes_once(before);
        lemma_shape(before);
        lemma_shape(trace);
    }
}

/// What the last steps of a history are, by the state that it leads to.
pub open spec fn shape(trace: Seq<Step>, state: TrialState) -> bool {
    let n = trace.len() as int;
    match state {
        TrialState::Idle => n == 0,
        TrialState::AwaitHandshake { map_received: false } => n == 1 && trace[0]
            == Step::Initialize,
        TrialState::AwaitHandshake { map_received: true } => n == 2 && trace[0] == Step::Initialize
            && trace[1] == Step::SharedMemory,
        TrialState::ReadyForRun => {
            &&& n >= 3
            &&& trace[0] == Step::Initialize
            &&& trace[n - 1] == Step::Ready
            &&& (n == 3 && trace[1] == Step::SharedMemory) || (n >= 7 && trace[n - 4] == Step::Run
                && is_trial_end(trace[n - 3]) && trace[n - 2] == Step::Reset)
        },
        TrialState::Running => n >= 4 && trace[0] == Step::Initialize && trace[n - 1] == Step::Run
            && trace[n - 2] == Step::Ready,
        TrialState::AwaitReset { reset_sent: false } => n >= 5 && trace[0] == Step::Initialize
            && is_trial_end(trace[n - 1]) && trace[n - 2] == Step::Run,
        TrialState::AwaitReset { reset_sent: true } => n >= 6 && trace[0] == Step::Initialize
            && trace[n - 1] == Step::Reset && is_trial_end(trace[n - 2]) && trace[n - 3]
            == Step::Run,
        TrialState::Terminated => n >= 1 && (trace[n - 1] == Step::Stop || trace[n - 1]
            == Step::Abort),
    }
}

/// The history of a session has the shape that belongs to its state.
pub proof fn lemma_shape(trace: Seq<Step>)
    requires
        is_session(trace),
    ensures
        shape(trace, state_after(TrialState::Idle, trace).unwrap()),
    decreases trace.len(),
{
    if trace.len() > 0 {
        let before = trace.drop_last();
        lemma_shape(before);
        let n = trace.len() as int;
        assert forall|i: int| 0 <= i < n - 1 implies trace[i] == before[i] by {}
    }
}

/// Every start of a session's history is the history of a session.
pub proof fn lemma_prefix(trace: Seq<Step>, k: int)
    requires
        is_session(trace),
        0 <= k <= trace.len(),
    ensures
        is_session(trace.take(k)),
    decreases trace.len(),
{
    if k == trace.len() {
        assert(trace.take(k) == trace);
    } else {
        lemma_prefix(trace.drop_last(), k);
        assert(trace.drop_last().take(k) == trace.take(k));
    }
}

/// The state in which the step at `k` came, and the state that it led to.
pub proof fn lemma_step_at(trace: Seq<Step>, k: int)
    requires
        is_session(trace),
        0 <= k < trace.len(),
    ensures
        is_session(trace.take(k)),
        is_session(trace.take(k + 1)),
        next_state(state_after(TrialState::Idle, trace.take(k)).unwrap(), trace[k]) == state_after(
            TrialState::Idle,
            trace.take(k + 1),
        ),
{
    lemma_prefix(trace, k);
    lemma_prefix(trace, k + 1);
    assert(trace.take(k + 1).drop_last() == trace.take(k));
    assert(trace.take(k + 1).last() == trace[k]);
}

/// In every session `Initialize` is the first step and occurs nowhere else,
/// and there is no `Run` unless `Initialize` came before it: so `Initialize`
/// occurs exactly once in a session that has a run, and strictly precedes
/// every run.
pub proof fn lemma_initialize_once_and_first(trace: Seq<Step>)
    requires
        is_session(trace),
    ensures
        forall|i: int| 0 <= i < trace.len() && trace[i] == Step::Initialize ==> i == 0,
        forall|i: int|
            #![trigger trace[i]]
            0 <= i < trace.len() && trace[i] == Step::Run ==> i > 0 && trace[0] == Step::Initialize,
{
    assert forall|i: int| 0 <= i < trace.len() && trace[i] == Step::Initialize implies i == 0 by {
        lemma_step_at(trace, i);
        lemma_shape(trace.take(i));
    }
    assert forall|i: int|
        #![trigger trace[i]]
        0 <= i < trace.len() && trace[i] == Step::Run implies i > 0 && trace[0]
        == Step::Initialize by {
        lemma_step_at(trace, i);
        lemma_shape(trace.take(i));
        assert(trace.take(i)[0] == trace[0]);
    }
}

/// A `Run` is sent only straight after a `Ready`.
pub proof fn lemma_run_follows_ready(trace: Seq<Step>, j: int)
    requires
        is_session(trace),
        0 <= j < trace.len(),
        trace[j] == Step::Run,
    ensures
        j >= 3,
        trace[j - 1] == Step::Ready,
{
    lemma_step_at(trace, j);
    lemma_shape(trace.take(j));
    assert(trace.take(j)[j - 1] == trace[j - 1]);
}

/// Between a `Run` and the next `Run` of a session lie exactly three steps:
/// the end of the first run (a `Stopped`, or its end by force), then one
/// `Reset`, then one `Ready`. So each run is followed by exactly one end and
/// exactly one `Reset`, in that order, before the next run.
pub proof fn lemma_between_runs(trace: Seq<Step>, i: int, j: int)
    requires
        is_session(trace),
        0 <= i < j < trace.len(),
        trace[i] == Step::Run,
        trace[j] == Step::Run,
        forall|k: int| i < k < j ==> trace[k] != Step::Run,
    ensures
        j == i + 4,
        is_trial_end(trace[i + 1]),
        trace[i + 2] == Step::Reset,
        trace[i + 3] == Step::Ready,
{
    lemma_step_at(trace, j);
    let before = trace.take(j);
    lemma_shape(before);
    assert(before[j - 1] == trace[j - 1]);
    if j == 3 {
        assert(before[0] == trace[0]);
        assert(before[1] == trace[1]);
    } else {
        assert(before[j - 4] == trace[j - 4]);
        assert(before[j - 3] == trace[j - 3]);
        assert(before[j - 2] == trace[j - 2]);
    }
}

/// A run ends, by a `Stopped` or by force, only straight after the `Run`
/// that started it: no run ends twice, and nothing ends that did not run.
pub proof fn lemma_stopped_follows_run(trace: Seq<Step>, k: int)
    requires
        is_session(trace),
        0 <= k < trace.len(),
        is_trial_end(trace[k]),
    ensures
        k >= 4,
        trace[k - 1] == Step::Run,
{
    lemma_step_at(trace, k);
    lemma_shape(trace.take(k));
    assert(trace.take(k)[k - 1] == trace[k - 1]);
}

/// A `Reset` is sent only straight after the end of a run.
pub proof fn lemma_reset_follows_end(trace: Seq<Step>, k: int)
    requires
        is_session(trace),
        0 <= k < trace.len(),
        trace[k] == Step::Reset,
    ensures
        k >= 5,
        is_trial_end(trace[k - 1]),
        trace[k - 2] == Step::Run,
{
    lemma_step_at(trace, k);
    lemma_shape(trace.take(k));
    assert(trace.take(k)[k - 1] == trace[k - 1]);
    assert(trace.take(k)[k - 2] == trace[k - 2]);
}

/// A second `Reset` straight after a `Reset` is a protocol violation, in
/// every state.
pub proof fn lemma_reset_twice_refused(state: TrialState)
    ensures
        next_state(state, Step::Reset) matches Some(after) ==> next_state(after, Step::Reset)
            is None,
{
}

/// Two `Reset`s of a session have a `Run` between them.
pub proof fn lemma_run_between_resets(trace: Seq<Step>, i: int, j: int)
    requires
        is_session(trace),
        0 <= i < j < trace.len(),
        trace[i] == Step::Reset,
        trace[j] == Step::Reset,
    ensures
        i < j - 2,
        trace[j - 2] == Step::Run,
{
    lemma_reset_follows_end(trace, j);
}

} // verus!
