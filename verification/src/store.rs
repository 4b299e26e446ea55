//! The search store of one worker: random numbers, the input corpus and the
//! solutions corpus, kept in the fuzzing library's own state.

use libafl::corpus::{Corpus, InMemoryCorpus, Testcase};
use libafl::generators::{Generator, RandBytesGenerator};
use libafl::inputs::{BytesInput, HasBytesVec};
use libafl::mutators::{havoc_mutations, Mutator, StdScheduledMutator};
use libafl::state::{HasCorpus, HasSolutions, StdState};
use libafl_bolts::rands::StdRand;
use vstd::prelude::*;

verus! {

/// The error type of the fuzzing library, carried through unread.
#[verifier::external_type_specification]
#[verifier::external_body]
pub struct ExLibaflError(libafl_bolts::Error);

/// The fuzzing library's state of one worker. Its corpora are in-memory
/// corpora of byte inputs; nothing but the functions of this file reaches it.
#[verifier::external_body]
pub struct SearchState {
    inner: StdState<BytesInput, InMemoryCorpus<BytesInput>, StdRand, InMemoryCorpus<BytesInput>>,
}

/// The inputs that the input corpus holds, in the order of their insertion.
pub uninterp spec fn corpus_inputs(state: SearchState) -> Seq<Seq<u8>>;

/// The inputs that the solutions corpus holds, in the order of their insertion.
pub uninterp spec fn solution_inputs(state: SearchState) -> Seq<Seq<u8>>;

/// `StdState::new` over two fresh `InMemoryCorpus` values and a `StdRand`
/// seeded with `seed`, with the unit feedback and objective: both corpora
/// of the new state are empty. The state is made: `new` fails only where a
/// feedback's `init_state` does, and that of the unit feedback does nothing.
#[verifier::external_body]
pub(crate) fn state_with_seed(seed: u64) -> (r: Result<SearchState, libafl_bolts::Error>)
    ensures
        r is Ok,
        r matches Ok(state) ==> corpus_inputs(state).len() == 0 && solution_inputs(state).len() == 0,
{
    let rand = StdRand::with_seed(seed);
    StdState::new(rand, InMemoryCorpus::new(), InMemoryCorpus::new(), &mut (), &mut ())
        .map(|inner| SearchState { inner })
}

/// `libafl_bolts::current_nanos`: the nanoseconds since the start of 1970,
/// as the system's clock has them. Nothing is claimed of the number.
#[verifier::external_body]
pub(crate) fn clock_seed() -> (seed: u64) {
    libafl_bolts::current_nanos()
}

/// `Corpus::count` of the input corpus: the number of inputs it holds.
#[verifier::external_body]
pub(crate) fn state_corpus_count(state: &SearchState) -> (n: usize)
    ensures
        n == corpus_inputs(*state).len(),
{
    state.inner.corpus().count()
}

/// `Corpus::count` of the solutions corpus: the number of inputs it holds.
#[verifier::external_body]
pub(crate) fn state_solution_count(state: &SearchState) -> (n: usize)
    ensures
        n == solution_inputs(*state).len(),
{
    state.inner.solutions().count()
}

/// `Corpus::add` on the input corpus with a new test case of `input`: the
/// input then stands last, and the id that the corpus gave it is handed
/// back; the solutions corpus is not touched. An in-memory corpus takes
/// every test case in: its `add` has no other end than `Ok`.
#[verifier::external_body]
pub(crate) fn state_add_input(state: &mut SearchState, input: &Vec<u8>) -> (r: Result<
    usize,
    libafl_bolts::Error,
>)
    ensures
        r is Ok,
        solution_inputs(*final(state)) == solution_inputs(*old(state)),
        corpus_inputs(*final(state)) == corpus_inputs(*old(state)).push(input@),
{
    let testcase = Testcase::new(BytesInput::new(input.clone()));
    state.inner.corpus_mut().add(testcase).map(usize::from)
}

/// `Corpus::add` on the solutions corpus with a new test case of `input`:
/// the input then stands last, and the id that the corpus gave it is handed
/// back; the input corpus is not touched. The add succeeds, as it does on
/// the input corpus.
#[verifier::external_body]
pub(crate) fn state_add_solution(state: &mut SearchState, input: &Vec<u8>) -> (r: Result<
    usize,
    libafl_bolts::Error,
>)
    ensures
        r is Ok,
        corpus_inputs(*final(state)) == corpus_inputs(*old(state)),
        solution_inputs(*final(state)) == solution_inputs(*old(state)).push(input@),
{
    let testcase = Testcase::new(BytesInput::new(input.clone()));
    state.inner.solutions_mut().add(testcase).map(usize::from)
}

/// `Corpus::nth` and `Corpus::get` on the input corpus: a copy of the bytes
/// of the input at position `index`. The read succeeds: `nth` hands out an
/// id that the corpus holds, `get` finds every id that it holds, and a test
/// case of an in-memory corpus keeps the input that it was made with.
#[verifier::external_body]
pub(crate) fn state_corpus_input(state: &SearchState, index: usize) -> (r: Result<
    Vec<u8>,
    libafl_bolts::Error,
>)
    requires
        index < corpus_inputs(*state).len(),
    ensures
        r is Ok,
        r matches Ok(bytes) ==> bytes@ == corpus_inputs(*state)[index as int],
{
    let corpus = state.inner.corpus();
    let testcase = corpus.get(corpus.nth(index))?.borrow();
    match testcase.input() {
        Some(input) => Ok(input.bytes().to_vec()),
        None => Err(libafl_bolts::Error::empty_optional("input")),
    }
}

/// `Corpus::nth` and `Corpus::get` on the solutions corpus: a copy of the
/// bytes of the input at position `index`. The read succeeds, as it does on
/// the input corpus.
#[verifier::external_body]
pub(crate) fn state_solution_input(state: &SearchState, index: usize) -> (r: Result<
    Vec<u8>,
    libafl_bolts::Error,
>)
    requires
        index < solution_inputs(*state).len(),
    ensures
        r is Ok,
        r matches Ok(bytes) ==> bytes@ == solution_inputs(*state)[index as int],
{
    let corpus = state.inner.solutions();
    let testcase = corpus.get(corpus.nth(index))?.borrow();
    match testcase.input() {
        Some(input) => Ok(input.bytes().to_vec()),
        None => Err(libafl_bolts::Error::empty_optional("input")),
    }
}

/// `Mutator::mutate` of a `StdScheduledMutator` over `havoc_mutations()`, on
/// a copy of `input`: some stack of byte-level mutations, drawn with the
/// state's random numbers. The crossover mutations read an input of the
/// corpus, which therefore must hold one; the corpora are not changed. A
/// mutant is made: a mutation fails only where the read of an entry does,
/// which it does not for an id that the corpus gave.
#[verifier::external_body]
pub(crate) fn state_havoc(state: &mut SearchState, input: &Vec<u8>) -> (r: Result<
    Vec<u8>,
    libafl_bolts::Error,
>)
    requires
        corpus_inputs(*old(state)).len() > 0,
    ensures
        r is Ok,
        corpus_inputs(*final(state)) == corpus_inputs(*old(state)),
        solution_inputs(*final(state)) == solution_inputs(*old(state)),
{
    let mut mutator = StdScheduledMutator::new(havoc_mutations());
    let mut mutant = BytesInput::new(input.clone());
    mutator.mutate(&mut state.inner, &mut mutant, 0).map(|_| Vec::from(mutant))
}

/// `Generator::generate` of a `RandBytesGenerator` with the limit
/// `max_size`: between 1 and `max_size - 1` random bytes (1 byte where the
/// limit is under 2), drawn with the state's random numbers. The corpora are
/// not touched. The generator has no other end than `Ok`.
#[verifier::external_body]
pub(crate) fn state_random_input(state: &mut SearchState, max_size: usize) -> (r: Result<
    Vec<u8>,
    libafl_bolts::Error,
>)
    ensures
        r is Ok,
        r matches Ok(bytes) ==> 1 <= bytes@.len() && (bytes@.len() < max_size || bytes@.len() == 1),
        corpus_inputs(*final(state)) == corpus_inputs(*old(state)),
        solution_inputs(*final(state)) == solution_inputs(*old(state)),
{
    RandBytesGenerator::new(max_size).generate(&mut state.inner).map(Vec::from)
}

} // verus!
