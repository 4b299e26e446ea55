//! The corpus and feedback engine of one worker: it turns the outcome of
//! each trial into a decision of the search and chooses the next input.

use crate::coverage::{
    lemma_merged_not_novel, lemma_novelties_zero, novelties_upto, same_signature, spec_classified,
    spec_merged, spec_signature, CoverageHistory, CoverageMap,
};
use crate::messages::TraceMode;
use crate::schedule::{
    counted, decide, energy, next_trusted, spec_counted, spec_decide, spec_energy,
    spec_next_trusted, trusted_flags, Calibration, Decision,
};
use crate::store::{
    clock_seed, corpus_inputs, solution_inputs, state_add_input, state_add_solution,
    state_corpus_count, state_corpus_input, state_havoc, state_random_input,
    state_solution_count, state_solution_input, state_with_seed, SearchState,
};
use crate::verdict::Verdict;
use vstd::prelude::*;

verus! {

/// The number of random inputs after which an engine whose corpus is still
/// empty gives up.
pub const GENERATION_LIMIT: u32 = 1024;

/// The length under which generated inputs stay.
pub const GENERATED_MAX_SIZE: usize = 64;

/// What is kept of an entry of the input corpus beside its bytes. It is
/// written when the entry is admitted and never changed.
#[derive(Debug)]
pub struct Record {
    /// The trial that found the entry.
    pub trial: u64,
    /// The signature of the coverage that admitted it.
    pub signature: Vec<(usize, u8)>,
    /// The number of counters at which it added to the history.
    pub novelties: usize,
}

/// A record as a plain value.
pub struct RecordView {
    pub trial: u64,
    pub signature: Seq<(usize, u8)>,
    pub novelties: usize,
}

impl View for Record {
    type V = RecordView;

    open spec fn view(&self) -> RecordView {
        RecordView { trial: self.trial, signature: self.signature@, novelties: self.novelties }
    }
}

/// What an input is run for.
#[derive(Clone, Copy, Debug, PartialEq, Eq, Structural)]
pub enum Purpose {
    /// The entry is run again, unchanged, to see whether it is stable.
    Calibrate { entry: usize },
    /// The input is one of those that the search was started with.
    Seed,
    /// The input is a mutant of the entry.
    Mutant { parent: usize },
    /// The input is made of random bytes.
    Generated,
}

/// What became of a trial that the engine has taken in.
#[derive(Clone, Copy, Debug, PartialEq, Eq, Structural)]
pub struct Settlement {
    /// What became of the input; `None` for a calibration run that did not
    /// crash, whose input is in the corpus already.
    pub decision: Option<Decision>,
    /// The calibration of the entry after the run, for a calibration run.
    pub calibration: Option<Calibration>,
}

/// Why the engine could not go on.
#[derive(Clone, Copy, Debug, PartialEq, Eq, Structural)]
pub enum EngineError {
    /// The coverage map has another length than the one the engine was made
    /// for.
    MapLength { expected: usize, found: usize },
    /// The store refused an operation. The store of this crate never does.
    Store,
    /// The corpus is empty and the limit of generated inputs is reached.
    EmptyCorpus,
    /// No entry awaits calibration.
    NothingToCalibrate,
}

/// What an observation gives once the store has answered: the decision
/// where the store took the input in, and the store's failure where not.
pub fn stored(added: Result<usize, libafl_bolts::Error>, decision: Decision) -> (r: Result<
    Decision,
    EngineError,
>)
    ensures
        r == match added {
            Ok(_) => Ok::<Decision, EngineError>(decision),
            Err(_) => Err(EngineError::Store),
        },
{
    match added {
        Ok(_) => Ok(decision),
        Err(_) => Err(EngineError::Store),
    }
}

/// What the choice of an input gives once the store has answered: the bytes
/// that the store handed out, with what they are run for, or the store's
/// failure.
pub fn handed_out(bytes: Result<Vec<u8>, libafl_bolts::Error>, purpose: Purpose) -> (r: Result<
    (Vec<u8>, Purpose),
    EngineError,
>)
    ensures
        match r {
            Ok((input, what)) => bytes matches Ok(given) && input == given && what == purpose,
            Err(e) => bytes is Err && e == EngineError::Store,
        },
{
    match bytes {
        Ok(input) => Ok((input, purpose)),
        Err(_) => Err(EngineError::Store),
    }
}

/// The corpus and feedback engine of one worker.
pub struct Engine {
    store: SearchState,
    history: CoverageHistory,
    mode: TraceMode,
    records: Vec<Record>,
    calibrations: Vec<Calibration>,
    uncalibrated: usize,
    overall: Calibration,
    seeds: Vec<Vec<u8>>,
    cursor: usize,
    energy_left: u64,
    generated: u32,
    turns: u64,
}

impl Engine {
    /// The inputs of the input corpus, oldest first.
    pub closed spec fn corpus(&self) -> Seq<Seq<u8>> {
        corpus_inputs(self.store)
    }

    /// The inputs of the solutions corpus, oldest first.
    pub closed spec fn solutions(&self) -> Seq<Seq<u8>> {
        solution_inputs(self.store)
    }

    /// What the search has seen of the coverage map.
    pub closed spec fn history(&self) -> Seq<u8> {
        self.history@
    }

    /// How the counters of the map are read.
    pub closed spec fn mode(&self) -> TraceMode {
        self.mode
    }

    /// The records of the entries of the input corpus, in its order.
    pub closed spec fn records(&self) -> Seq<RecordView> {
        Seq::new(self.records@.len(), |i: int| self.records@[i]@)
    }

    /// The calibrations of the entries of the input corpus, in its order.
    pub closed spec fn calibrations(&self) -> Seq<Calibration> {
        self.calibrations@
    }

    /// The index of the first entry that awaits calibration; the number of
    /// entries where none does.
    pub closed spec fn uncalibrated(&self) -> int {
        self.uncalibrated as int
    }

    /// All calibration runs so far, taken together.
    pub closed spec fn overall(&self) -> Calibration {
        self.overall
    }

    /// The seeds that have not been run yet; the last is the next.
    pub closed spec fn seeds(&self) -> Seq<Seq<u8>> {
        Seq::new(self.seeds@.len(), |i: int| self.seeds@[i]@)
    }

    /// The entry whose turn it is.
    pub closed spec fn cursor(&self) -> int {
        self.cursor as int
    }

    /// The number of mutants that the entry at the cursor is still worth.
    pub closed spec fn energy_left(&self) -> u64 {
        self.energy_left
    }

    /// The number of random inputs made so far, at most `u32::MAX`.
    pub closed spec fn generated(&self) -> u32 {
        self.generated
    }

    /// The number of turns of the search that have begun, at most
    /// `u64::MAX`. A turn begins when an entry is scheduled, and lasts
    /// through the mutants that its energy pays for and the calibration of
    /// what they find; where the corpus holds no trusted entry, each random
    /// input is a turn of its own. Seeds, calibration runs and the random
    /// inputs of an empty corpus begin no turn.
    pub closed spec fn turns(&self) -> u64 {
        self.turns
    }

    /// What holds of every engine: each entry has its record and its
    /// calibration, the entries before the first uncalibrated one have had
    /// all their runs and the others have not, and the cursor is an entry.
    pub closed spec fn wf(&self) -> bool {
        &&& self.records@.len() == corpus_inputs(self.store).len()
        &&& self.calibrations@.len() == corpus_inputs(self.store).len()
        &&& self.uncalibrated <= self.calibrations@.len()
        &&& forall|i: int|
            0 <= i < self.calibrations@.len() ==> (#[trigger] self.calibrations@[i].spec_done()
                <==> i < self.uncalibrated)
        &&& self.cursor < self.calibrations@.len() || self.cursor == 0
    }

    /// What `wf` says, over the engine's public reading.
    pub proof fn lemma_wf(&self)
        requires
            self.wf(),
        ensures
            self.corpus().len() <= usize::MAX,
            self.records().len() == self.corpus().len(),
            self.calibrations().len() == self.corpus().len(),
            0 <= self.uncalibrated() <= self.corpus().len(),
            forall|i: int|
                0 <= i < self.corpus().len() ==> (#[trigger] self.calibrations()[i].spec_done()
                    <==> i < self.uncalibrated()),
            0 <= self.cursor(),
            self.cursor() < self.corpus().len() || self.cursor() == 0,
    {
        assert(self.records@.len() == self.records.len());
    }

    /// Whether the engine is as it is made: well formed, for a coverage map
    /// of `map_len` counters that are read under `mode`, with empty corpora,
    /// a history in which nothing was seen, no seed, and nothing counted.
    pub open spec fn spec_is_fresh(&self, map_len: usize, mode: TraceMode) -> bool {
        &&& self.wf()
        &&& self.corpus().len() == 0
        &&& self.solutions().len() == 0
        &&& self.history().len() == map_len
        &&& forall|i: int| 0 <= i < map_len ==> self.history()[i] == 0
        &&& self.mode() == mode
        &&& self.seeds().len() == 0
        &&& self.generated() == 0
        &&& self.turns() == 0
        &&& self.uncalibrated() == 0
    }

    /// An engine for a coverage map of `map_len` counters that are read
    /// under `mode`, with empty corpora and a history in which nothing was
    /// seen. Its random numbers follow from `seed`.
    pub fn new(seed: u64, map_len: usize, mode: TraceMode) -> (r: Result<Engine, EngineError>)
        ensures
            r matches Ok(engine) && engine.spec_is_fresh(map_len, mode),
    {
        let store = match state_with_seed(seed) {
            Ok(store) => store,
            Err(_) => {
                return Err(EngineError::Store);
            },
        };
        Ok(
            Engine {
                store,
                history: CoverageHistory::new(map_len),
                mode,
                records: Vec::new(),
                calibrations: Vec::new(),
                uncalibrated: 0,
                overall: Calibration::new(),
                seeds: Vec::new(),
                cursor: 0,
                energy_left: 0,
                generated: 0,
                turns: 0,
            },
        )
    }

    /// An engine as `new` makes it, whose random numbers follow from the
    /// time at which it is made.
    pub fn with_clock_seed(map_len: usize, mode: TraceMode) -> (r: Result<Engine, EngineError>)
        ensures
            r matches Ok(engine) && engine.spec_is_fresh(map_len, mode),
    {
        Engine::new(clock_seed(), map_len, mode)
    }

    /// The number of entries of the input corpus.
    pub fn corpus_count(&self) -> (n: usize)
        ensures
            n == self.corpus().len(),
    {
        state_corpus_count(&self.store)
    }

    /// The number of entries of the solutions corpus.
    pub fn solution_count(&self) -> (n: usize)
        ensures
            n == self.solutions().len(),
    {
        state_solution_count(&self.store)
    }

    /// The bytes of the entry at `index` of the input corpus; `None` exactly
    /// where the corpus has no entry there.
    pub fn corpus_input(&self, index: usize) -> (r: Option<Vec<u8>>)
        ensures
            match r {
                Some(bytes) => index < self.corpus().len() && bytes@ == self.corpus()[index as int],
                None => index >= self.corpus().len(),
            },
    {
        if index < state_corpus_count(&self.store) {
            match state_corpus_input(&self.store, index) {
                Ok(bytes) => Some(bytes),
                Err(_) => None,
            }
        } else {
            None
        }
    }

    /// The bytes of the entry at `index` of the solutions corpus; `None`
    /// exactly where the corpus has no entry there.
    pub fn solution_input(&self, index: usize) -> (r: Option<Vec<u8>>)
        ensures
            match r {
                Some(bytes) => index < self.solutions().len() && bytes@ == self.solutions()[index as int],
                None => index >= self.solutions().len(),
            },
    {
        if index < state_solution_count(&self.store) {
            match state_solution_input(&self.store, index) {
                Ok(bytes) => Some(bytes),
                Err(_) => None,
            }
        } else {
            None
        }
    }

    /// The record of the entry at `index` of the input corpus.
    pub fn record(&self, index: usize) -> (r: Option<&Record>)
        requires
            self.wf(),
        ensures
            match r {
                Some(record) => index < self.corpus().len() && record@
                    == self.records()[index as int],
                None => index >= self.corpus().len(),
            },
    {
        if index < self.records.len() {
            Some(&self.records[index])
        } else {
            None
        }
    }

    /// The calibration of the entry at `index` of the input corpus.
    pub fn calibration(&self, index: usize) -> (r: Option<Calibration>)
        requires
            self.wf(),
        ensures
            match r {
                Some(c) => index < self.corpus().len() && c == self.calibrations()[index as int],
                None => index >= self.corpus().len(),
            },
    {
        if index < self.calibrations.len() {
            Some(self.calibrations[index])
        } else {
            None
        }
    }

    /// Whether the engine is `before` with `input` put among the seeds, as
    /// the next of them, and nothing else changed.
    pub open spec fn seeded(&self, before: &Engine, input: Seq<u8>) -> bool {
        &&& self.seeds() == before.seeds().push(input)
        &&& self.unchanged_entries(before)
        &&& self.mode() == before.mode()
        &&& self.uncalibrated() == before.uncalibrated()
        &&& self.overall() == before.overall()
        &&& self.cursor() == before.cursor()
        &&& self.energy_left() == before.energy_left()
        &&& self.generated() == before.generated()
        &&& self.turns() == before.turns()
    }

    /// Puts `input` among the seeds; it is the next seed to be run.
    pub fn push_seed(&mut self, input: Vec<u8>)
        requires
            old(self).wf(),
        ensures
            final(self).wf(),
            final(self).seeded(old(self), input@),
    {
        self.seeds.push(input);
        assert(self.seeds() =~= old(self).seeds().push(input@));
    }

    /// What `observe` does to an engine, as a relation between the engine
    /// before and after, the trial taken in and the result.
    pub open spec fn observed(
        before: &Engine,
        after: &Engine,
        input: Seq<u8>,
        verdict: Verdict,
        map: Seq<u8>,
        trial: u64,
        r: Result<Decision, EngineError>,
    ) -> bool {
        let now = spec_classified(map, before.mode());
        let found = novelties_upto(before.history(), now, now.len()) as usize;
        &&& after.mode() == before.mode()
        &&& after.seeds() == before.seeds()
        &&& after.uncalibrated() == before.uncalibrated()
        &&& after.overall() == before.overall()
        &&& after.cursor() == before.cursor()
        &&& after.energy_left() == before.energy_left()
        &&& after.generated() == before.generated()
        &&& after.turns() == before.turns()
        &&& after.history().len() == before.history().len()
        &&& match r {
            Ok(Decision::Solution) => {
                &&& map.len() == before.history().len()
                &&& spec_decide(verdict, found) == Decision::Solution
                &&& after.solutions() == before.solutions().push(input)
                &&& after.corpus() == before.corpus()
                &&& after.history() == before.history()
                &&& after.records() == before.records()
                &&& after.calibrations() == before.calibrations()
            },
            Ok(Decision::Admit { novelties }) => {
                &&& map.len() == before.history().len()
                &&& spec_decide(verdict, found) == (Decision::Admit { novelties })
                &&& after.corpus() == before.corpus().push(input)
                &&& after.solutions() == before.solutions()
                &&& after.history() == spec_merged(before.history(), now)
                &&& after.records() == before.records().push(
                    RecordView { trial, signature: spec_signature(now), novelties },
                )
                &&& after.calibrations() == before.calibrations().push(
                    Calibration { runs: 0, stable: true, total_micros: 0 },
                )
            },
            Ok(Decision::Discard) => {
                &&& map.len() == before.history().len()
                &&& spec_decide(verdict, found) == Decision::Discard
                &&& after.unchanged_entries(before)
            },
            Err(EngineError::MapLength { expected, found }) => {
                &&& expected == before.history().len()
                &&& found == map.len()
                &&& expected != found
                &&& after.unchanged_entries(before)
            },
            Err(_) => false,
        }
    }

    /// Whether the corpora, the history, the records and the calibrations
    /// are those of `before`.
    pub open spec fn unchanged_entries(&self, before: &Engine) -> bool {
        &&& self.corpus() == before.corpus()
        &&& self.solutions() == before.solutions()
        &&& self.history() == before.history()
        &&& self.records() == before.records()
        &&& self.calibrations() == before.calibrations()
    }

    /// Takes in the outcome of a trial: the input, its verdict, the coverage
    /// map as the run left it, and the number of the trial.
    ///
    /// The counters are read under the engine's trace mode and held against
    /// the history. A crash goes to the solutions corpus whatever it
    /// covered, and leaves corpus and history alone. Any other input that
    /// adds to the history goes to the input corpus, with a record of the
    /// trial, of the signature of its coverage and of the number of its
    /// novelties, and awaits calibration; its coverage joins the history.
    /// Anything else is dropped. A map of the wrong length is refused, and
    /// nothing else is: with a map of the right length the observation is
    /// always taken in.
    pub fn observe(&mut self, input: &Vec<u8>, verdict: Verdict, map: &CoverageMap, trial: u64) -> (r:
        Result<Decision, EngineError>)
        requires
            old(self).wf(),
        ensures
            final(self).wf(),
            Engine::observed(old(self), final(self), input@, verdict, map@, trial, r),
    {
        let now = map.classified(self.mode);
        let novelties: usize = match self.history.novelties(&now) {
            Some(n) => n,
            None => {
                return Err(
                    EngineError::MapLength { expected: self.history.len(), found: map.len() },
                );
            },
        };
        let decision = decide(verdict, novelties);
        match decision {
            Decision::Solution => stored(state_add_solution(&mut self.store, input), decision),
            Decision::Admit { novelties } => {
                let admitted = stored(state_add_input(&mut self.store, input), decision);
                if admitted.is_ok() {
                    let signature = now.signature();
                    self.records.push(Record { trial, signature, novelties });
                    self.calibrations.push(Calibration::new());
                    self.history.merge(&now);
                    assert(self.records() =~= old(self).records().push(
                        RecordView { trial, signature: spec_signature(now@), novelties },
                    ));
                }
                admitted
            },
            Decision::Discard => Ok(decision),
        }
    }

    /// Whether a run that left the coverage `map` reproduced the first entry
    /// that awaits calibration: whether the coverage has the signature that
    /// admitted the entry.
    pub open spec fn spec_reproduces(&self, map: Seq<u8>) -> bool {
        spec_signature(spec_classified(map, self.mode()))
            == self.records()[self.uncalibrated()].signature
    }

    /// What `calibrate` does to an engine, as a relation between the engine
    /// before and after, the run taken in and the result.
    pub open spec fn calibrated(
        before: &Engine,
        after: &Engine,
        map: Seq<u8>,
        micros: u64,
        r: Result<Calibration, EngineError>,
    ) -> bool {
        let entry = before.uncalibrated();
        let reproduced = before.spec_reproduces(map);
        &&& after.mode() == before.mode()
        &&& after.unchanged_schedule(before)
        &&& after.corpus() == before.corpus()
        &&& after.solutions() == before.solutions()
        &&& after.history() == before.history()
        &&& after.records() == before.records()
        &&& match r {
            Ok(now) => {
                &&& entry < before.corpus().len()
                &&& map.len() == before.history().len()
                &&& now == before.calibrations()[entry].spec_after(reproduced, micros)
                &&& after.calibrations() == before.calibrations().update(entry, now)
                &&& after.overall() == before.overall().spec_after(true, micros)
                &&& after.uncalibrated() == if now.spec_done() {
                    entry + 1
                } else {
                    entry
                }
            },
            Err(e) => {
                &&& after.calibrations() == before.calibrations()
                &&& after.overall() == before.overall()
                &&& after.uncalibrated() == before.uncalibrated()
                &&& match e {
                    EngineError::NothingToCalibrate => entry == before.corpus().len(),
                    EngineError::MapLength { expected, found } => entry < before.corpus().len()
                        && expected == before.history().len() && found == map.len() && expected
                        != found,
                    _ => false,
                }
            },
        }
    }

    /// Takes in one calibration run of the first entry that awaits
    /// calibration: the coverage map as the run left it, and the time that
    /// the run took. The run reproduced the entry if its coverage has the
    /// signature that admitted the entry. After `CALIBRATION_RUNS` runs the
    /// entry awaits no more, and is trusted if all of them reproduced it.
    /// The corpora, the records and the history are never changed here.
    pub fn calibrate(&mut self, map: &CoverageMap, micros: u64) -> (r: Result<
        Calibration,
        EngineError,
    >)
        requires
            old(self).wf(),
        ensures
            final(self).wf(),
            Engine::calibrated(old(self), final(self), map@, micros, r),
    {
        let entry: usize = self.uncalibrated;
        if entry >= self.calibrations.len() {
            return Err(EngineError::NothingToCalibrate);
        }
        if map.len() != self.history.len() {
            return Err(EngineError::MapLength { expected: self.history.len(), found: map.len() });
        }
        let signature = map.classified(self.mode).signature();
        let reproduced: bool = same_signature(&signature, &self.records[entry].signature);
        Ok(self.count_run(entry, reproduced, micros))
    }

    /// What the next input is run for: the calibration of the first entry
    /// that awaits it; else the next seed; else a mutant of the entry at the
    /// cursor while that entry is trusted and has energy left; else a mutant
    /// of the next trusted entry of the queue; else, where no entry is
    /// trusted, random bytes.
    pub open spec fn spec_next_purpose(&self) -> Purpose {
        if self.uncalibrated() < self.corpus().len() {
            Purpose::Calibrate { entry: self.uncalibrated() as usize }
        } else if self.seeds().len() > 0 {
            Purpose::Seed
        } else if self.spec_turn_goes_on() {
            Purpose::Mutant { parent: self.cursor() as usize }
        } else {
            match spec_next_trusted(trusted_flags(self.calibrations()), self.cursor()) {
                Some(k) => Purpose::Mutant { parent: k as usize },
                None => Purpose::Generated,
            }
        }
    }

    /// Whether the entry at the cursor is trusted and has energy left.
    pub open spec fn spec_turn_goes_on(&self) -> bool {
        &&& self.energy_left() > 0
        &&& self.cursor() < self.corpus().len()
        &&& self.calibrations()[self.cursor()].spec_trusted()
    }

    /// The number of mutants that the entry at `index` is worth in one turn.
    pub open spec fn spec_entry_energy(&self, index: int) -> u64 {
        spec_energy(
            self.records()[index].novelties,
            self.calibrations()[index].spec_mean_micros(),
            self.overall().spec_mean_micros(),
        )
    }

    /// Whether the engine gives up in place of a next input: no entry awaits
    /// calibration, no seed is left, the corpus is empty, and
    /// `GENERATION_LIMIT` random inputs were made.
    pub open spec fn spec_gives_up(&self) -> bool {
        &&& self.spec_next_purpose() == Purpose::Generated
        &&& self.corpus().len() == 0
        &&& self.generated() >= GENERATION_LIMIT
    }

    /// Whether the next input begins a turn of the search: it is the first
    /// mutant of an entry that is scheduled anew, or a random input made
    /// while the corpus holds entries of which none is trusted.
    pub open spec fn spec_begins_turn(&self) -> bool {
        match self.spec_next_purpose() {
            Purpose::Mutant { .. } => !self.spec_turn_goes_on(),
            Purpose::Generated => self.corpus().len() > 0,
            _ => false,
        }
    }

    /// What `next_trial` does to an engine, as a relation between the engine
    /// before and after and the result. There is no next input exactly where
    /// the engine gives up; else the input is run for what
    /// `spec_next_purpose` says.
    pub open spec fn chose(
        before: &Engine,
        after: &Engine,
        r: Result<(Seq<u8>, Purpose), EngineError>,
    ) -> bool {
        &&& after.mode() == before.mode()
        &&& after.unchanged_entries(before)
        &&& after.uncalibrated() == before.uncalibrated()
        &&& after.overall() == before.overall()
        &&& after.turns() == spec_counted(before.turns(), r is Ok && before.spec_begins_turn())
        &&& match r {
            Err(e) => {
                &&& e == EngineError::EmptyCorpus
                &&& before.spec_gives_up()
                &&& after.unchanged_schedule(before)
            },
            Ok((input, purpose)) => {
                &&& !before.spec_gives_up()
                &&& purpose == before.spec_next_purpose()
                &&& match purpose {
                    Purpose::Calibrate { entry } => {
                        &&& input == before.corpus()[entry as int]
                        &&& after.unchanged_schedule(before)
                    },
                    Purpose::Seed => {
                        &&& input == before.seeds().last()
                        &&& after.seeds() == before.seeds().drop_last()
                        &&& after.cursor() == before.cursor()
                        &&& after.energy_left() == before.energy_left()
                        &&& after.generated() == before.generated()
                    },
                    Purpose::Mutant { parent } => {
                        &&& parent < before.corpus().len()
                        &&& before.calibrations()[parent as int].spec_trusted()
                        &&& after.cursor() == parent
                        &&& after.energy_left() == if before.spec_turn_goes_on() {
                            before.energy_left() - 1
                        } else {
                            before.spec_entry_energy(parent as int) - 1
                        }
                        &&& after.seeds() == before.seeds()
                        &&& after.generated() == before.generated()
                    },
                    Purpose::Generated => {
                        &&& 1 <= input.len() < GENERATED_MAX_SIZE
                        &&& after.generated() == if before.generated() < u32::MAX {
                            (before.generated() + 1) as u32
                        } else {
                            before.generated()
                        }
                        &&& after.seeds() == before.seeds()
                        &&& after.cursor() == before.cursor()
                        &&& after.energy_left() == before.energy_left()
                    },
                }
            },
        }
    }

    /// Whether the seeds, the cursor, the energy left, the number of
    /// generated inputs and the number of turns are those of `before`.
    pub open spec fn unchanged_schedule(&self, before: &Engine) -> bool {
        &&& self.seeds() == before.seeds()
        &&& self.cursor() == before.cursor()
        &&& self.energy_left() == before.energy_left()
        &&& self.generated() == before.generated()
        &&& self.turns() == before.turns()
    }

    /// Whether the next input would begin a turn of the search, or the
    /// engine would give up in place of one. Nothing is changed.
    pub fn at_turn_boundary(&self) -> (b: bool)
        requires
            self.wf(),
        ensures
            b == (self.spec_begins_turn() || self.spec_gives_up()),
    {
        let count: usize = self.calibrations.len();
        if self.uncalibrated < count || self.seeds.len() > 0 {
            return false;
        }
        let goes_on: bool = self.energy_left > 0 && self.cursor < count
            && self.calibrations[self.cursor].trusted();
        if goes_on {
            return false;
        }
        match next_trusted(&self.calibrations, self.cursor) {
            Some(_) => true,
            None => count > 0 || self.generated >= GENERATION_LIMIT,
        }
    }

    /// The number of turns of the search that have begun.
    pub fn turn_count(&self) -> (n: u64)
        ensures
            n == self.turns(),
    {
        self.turns
    }

    /// Chooses the next input and says what it is run for.
    ///
    /// An entry under calibration and a seed are handed out unchanged; a
    /// seed leaves the seeds. A mutant is made of its parent by the store's
    /// havoc mutations (flips of bits and bytes, arithmetic, insertions and
    /// deletions, splices with other entries), and costs its parent one unit
    /// of energy; an entry that begins its turn is given its full energy
    /// first, and the turn is counted. Random bytes are at least 1 and under
    /// `GENERATED_MAX_SIZE` long. With an empty corpus and
    /// `GENERATION_LIMIT` random inputs made, the engine gives up, and in no
    /// other case. The corpora, the records, the calibrations and the
    /// history are never changed here.
    pub fn next_trial(&mut self) -> (r: Result<(Vec<u8>, Purpose), EngineError>)
        requires
            old(self).wf(),
        ensures
            final(self).wf(),
            Engine::chose(
                old(self),
                final(self),
                match r {
                    Ok((input, purpose)) => Ok((input@, purpose)),
                    Err(e) => Err(e),
                },
            ),
    {
        let count: usize = self.calibrations.len();
        if self.uncalibrated < count {
            let entry: usize = self.uncalibrated;
            return handed_out(state_corpus_input(&self.store, entry), Purpose::Calibrate { entry });
        }
        if self.seeds.len() > 0 {
            let ghost before = self.seeds();
            let seed = self.seeds.pop().unwrap();
            assert(self.seeds() =~= before.drop_last());
            assert(seed@ == before.last());
            return Ok((seed, Purpose::Seed));
        }
        let goes_on: bool = self.energy_left > 0 && self.cursor < count
            && self.calibrations[self.cursor].trusted();
        let parent: usize = if goes_on {
            self.energy_left = self.energy_left - 1;
            self.cursor
        } else {
            match next_trusted(&self.calibrations, self.cursor) {
                Some(k) => {
                    let full: u64 = energy(
                        self.records[k].novelties,
                        self.calibrations[k].mean_micros(),
                        self.overall.mean_micros(),
                    );
                    self.cursor = k;
                    self.energy_left = full - 1;
                    self.turns = counted(self.turns, true);
                    k
                },
                None => {
                    if count == 0 && self.generated >= GENERATION_LIMIT {
                        return Err(EngineError::EmptyCorpus);
                    }
                    let made = handed_out(
                        state_random_input(&mut self.store, GENERATED_MAX_SIZE),
                        Purpose::Generated,
                    );
                    if self.generated < u32::MAX {
                        self.generated = self.generated + 1;
                    }
                    self.turns = counted(self.turns, count > 0);
                    return made;
                },
            }
        };
        let origin = match state_corpus_input(&self.store, parent) {
            Ok(input) => input,
            Err(_) => {
                return Err(EngineError::Store);
            },
        };
        handed_out(state_havoc(&mut self.store, &origin), Purpose::Mutant { parent })
    }

    /// What `settle` does to an engine, as a relation between the engine
    /// before and after, the trial taken in and the result.
    pub open spec fn settled(
        before: &Engine,
        after: &Engine,
        input: Seq<u8>,
        purpose: Purpose,
        verdict: Verdict,
        map: Seq<u8>,
        micros: u64,
        trial: u64,
        r: Result<Settlement, EngineError>,
    ) -> bool {
        match purpose {
            Purpose::Calibrate { entry } => {
                let crashed = verdict == Verdict::Crash;
                &&& after.mode() == before.mode()
                &&& after.unchanged_schedule(before)
                &&& after.corpus() == before.corpus()
                &&& after.history() == before.history()
                &&& after.records() == before.records()
                &&& match r {
                    Ok(settlement) => {
                        let now = before.calibrations()[entry as int].spec_after(
                            !crashed && before.spec_reproduces(map),
                            micros,
                        );
                        &&& entry == before.uncalibrated()
                        &&& entry < before.corpus().len()
                        &&& map.len() == before.history().len()
                        &&& settlement.decision == if crashed {
                            Some(Decision::Solution)
                        } else {
                            None
                        }
                        &&& after.solutions() == if crashed {
                            before.solutions().push(input)
                        } else {
                            before.solutions()
                        }
                        &&& settlement.calibration == Some(now)
                        &&& after.calibrations() == before.calibrations().update(entry as int, now)
                        &&& after.overall() == before.overall().spec_after(true, micros)
                        &&& after.uncalibrated() == if now.spec_done() {
                            entry + 1
                        } else {
                            entry as int
                        }
                    },
                    Err(e) => {
                        let awaited = entry == before.uncalibrated() && entry
                            < before.corpus().len();
                        &&& after.solutions() == before.solutions()
                        &&& after.calibrations() == before.calibrations()
                        &&& after.overall() == before.overall()
                        &&& after.uncalibrated() == before.uncalibrated()
                        &&& match e {
                            EngineError::NothingToCalibrate => !awaited,
                            EngineError::MapLength { expected, found } => awaited && expected
                                == before.history().len() && found == map.len() && expected
                                != found,
                            _ => false,
                        }
                    },
                }
            },
            _ => {
                &&& Engine::observed(
                    before,
                    after,
                    input,
                    verdict,
                    map,
                    trial,
                    match r {
                        Ok(settlement) => Ok(settlement.decision.unwrap()),
                        Err(e) => Err(e),
                    },
                )
                &&& r matches Ok(settlement) ==> settlement.decision is Some
                    && settlement.calibration is None
            },
        }
    }

    /// Records one more calibration run of the entry at `entry`.
    fn count_run(&mut self, entry: usize, reproduced: bool, micros: u64) -> (now: Calibration)
        requires
            old(self).wf(),
            entry == old(self).uncalibrated(),
            entry < old(self).corpus().len(),
        ensures
            final(self).wf(),
            final(self).mode() == old(self).mode(),
            final(self).unchanged_schedule(old(self)),
            final(self).corpus() == old(self).corpus(),
            final(self).solutions() == old(self).solutions(),
            final(self).history() == old(self).history(),
            final(self).records() == old(self).records(),
            now == old(self).calibrations()[entry as int].spec_after(reproduced, micros),
            final(self).calibrations() == old(self).calibrations().update(entry as int, now),
            final(self).overall() == old(self).overall().spec_after(true, micros),
            final(self).uncalibrated() == if now.spec_done() {
                entry + 1
            } else {
                entry as int
            },
    {
        let count: usize = self.calibrations.len();
        assert(entry < count);
        let now = self.calibrations[entry].after(reproduced, micros);
        self.calibrations.set(entry, now);
        self.overall = self.overall.after(true, micros);
        if now.done() {
            self.uncalibrated = entry + 1;
        }
        now
    }

    /// Takes in the end of a trial whose input was chosen by `next_trial`
    /// for `purpose`.
    ///
    /// A calibration run counts for the entry that awaits calibration: it
    /// reproduced the entry if it did not crash and left the coverage that
    /// admitted the entry; if it crashed, its input goes to the solutions
    /// corpus as every crash does. The end of any other trial is taken in as
    /// `observe` does.
    pub fn settle(
        &mut self,
        input: &Vec<u8>,
        purpose: Purpose,
        verdict: Verdict,
        map: &CoverageMap,
        micros: u64,
        trial: u64,
    ) -> (r: Result<Settlement, EngineError>)
        requires
            old(self).wf(),
        ensures
            final(self).wf(),
            Engine::settled(
                old(self),
                final(self),
                input@,
                purpose,
                verdict,
                map@,
                micros,
                trial,
                r,
            ),
    {
        match purpose {
            Purpose::Calibrate { entry } => {
                if entry != self.uncalibrated || entry >= self.calibrations.len() {
                    return Err(EngineError::NothingToCalibrate);
                }
                if map.len() != self.history.len() {
                    return Err(
                        EngineError::MapLength { expected: self.history.len(), found: map.len() },
                    );
                }
                let signature = map.classified(self.mode).signature();
                let same: bool = same_signature(&signature, &self.records[entry].signature);
                let crashed: bool = verdict.is_solution();
                if crashed {
                    match state_add_solution(&mut self.store, input) {
                        Ok(_) => {},
                        Err(_) => {
                            return Err(EngineError::Store);
                        },
                    }
                }
                let now = self.count_run(entry, !crashed && same, micros);
                Ok(
                    Settlement {
                        decision: if crashed {
                            Some(Decision::Solution)
                        } else {
                            None
                        },
                        calibration: Some(now),
                    },
                )
            },
            _ => match self.observe(input, verdict, map, trial) {
                Ok(decision) => Ok(Settlement { decision: Some(decision), calibration: None }),
                Err(e) => Err(e),
            },
        }
    }
}

/// An observation never changes or removes what the corpora and the records
/// hold: it leaves them as they are or adds one entry at the end.
pub proof fn lemma_observe_appends(
    before: &Engine,
    after: &Engine,
    input: Seq<u8>,
    verdict: Verdict,
    map: Seq<u8>,
    trial: u64,
    r: Result<Decision, EngineError>,
)
    requires
        Engine::observed(before, after, input, verdict, map, trial, r),
    ensures
        before.corpus().is_prefix_of(after.corpus()),
        before.solutions().is_prefix_of(after.solutions()),
        before.records().is_prefix_of(after.records()),
        after.corpus().len() <= before.corpus().len() + 1,
        after.solutions().len() <= before.solutions().len() + 1,
{
}

/// The signature under which an input is admitted is that of the coverage
/// that its run left, and of nothing else: whenever the same input leaves the
/// same coverage again, it is given the same signature.
pub proof fn lemma_admitted_signature(
    start: &Engine,
    admitted: &Engine,
    input: Seq<u8>,
    verdict: Verdict,
    map: Seq<u8>,
    trial: u64,
    novelties: usize,
    again: Seq<u8>,
)
    requires
        start.wf(),
        Engine::observed(
            start,
            admitted,
            input,
            verdict,
            map,
            trial,
            Ok(Decision::Admit { novelties }),
        ),
        again == map,
    ensures
        admitted.corpus().last() == input,
        admitted.records().len() == admitted.corpus().len(),
        admitted.records().last().signature == spec_signature(
            spec_classified(again, admitted.mode()),
        ),
{
    start.lemma_wf();
}

/// An entry that is run again for its calibration, and leaves the coverage
/// that admitted it, counts as reproduced and stays stable. (The run is
/// counted for the first entry that awaits calibration, so this speaks of an
/// entry that was admitted when no other awaited it.)
pub proof fn lemma_replay_reproduces(
    start: &Engine,
    admitted: &Engine,
    replayed: &Engine,
    input: Seq<u8>,
    verdict: Verdict,
    map: Seq<u8>,
    trial: u64,
    novelties: usize,
    micros: u64,
    r: Result<Calibration, EngineError>,
)
    requires
        start.wf(),
        start.uncalibrated() == start.corpus().len(),
        Engine::observed(
            start,
            admitted,
            input,
            verdict,
            map,
            trial,
            Ok(Decision::Admit { novelties }),
        ),
        Engine::calibrated(admitted, replayed, map, micros, r),
    ensures
        admitted.spec_reproduces(map),
        r == Ok::<Calibration, EngineError>(
            Calibration { runs: 1, stable: true, total_micros: micros },
        ),
{
    start.lemma_wf();
}

/// Coverage that admitted an input is not novel a second time: whatever is
/// run next with the same coverage and does not crash is dropped.
pub proof fn lemma_replay_not_novel(
    start: &Engine,
    admitted: &Engine,
    after: &Engine,
    input: Seq<u8>,
    verdict: Verdict,
    map: Seq<u8>,
    trial: u64,
    novelties: usize,
    again: Seq<u8>,
    verdict_again: Verdict,
    trial_again: u64,
    r: Result<Decision, EngineError>,
)
    requires
        Engine::observed(
            start,
            admitted,
            input,
            verdict,
            map,
            trial,
            Ok(Decision::Admit { novelties }),
        ),
        Engine::observed(admitted, after, again, verdict_again, map, trial_again, r),
        verdict_again != Verdict::Crash,
    ensures
        r == Ok::<Decision, EngineError>(Decision::Discard),
        after.corpus() == admitted.corpus(),
{
    let now = spec_classified(map, start.mode());
    assert(now.len() == map.len());
    lemma_merged_not_novel(start.history(), now);
    lemma_novelties_zero(admitted.history(), now, now.len());
}

} // verus!
