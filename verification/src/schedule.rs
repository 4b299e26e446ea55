//! The rules of the search that need no store: what becomes of a trial, how
//! much effort an entry is worth, and which entry comes next.

use crate::verdict::Verdict;
use vstd::prelude::*;

verus! {

/// The number of times a new entry is run again before it is trusted.
pub const CALIBRATION_RUNS: u32 = 4;

/// The number of mutants that an entry with one novelty is worth.
pub const BASE_ENERGY: u64 = 16;

/// The number of novelties beyond which an entry is worth no more.
pub const MAX_WEIGHT: u64 = 8;

/// One more than `n` where `counts` holds, but never past `u64::MAX`; `n`
/// where it does not.
pub open spec fn spec_counted(n: u64, counts: bool) -> u64 {
    if counts && n < u64::MAX {
        (n + 1) as u64
    } else {
        n
    }
}

/// One more than `n` where `counts` holds, but never past `u64::MAX`.
pub fn counted(n: u64, counts: bool) -> (m: u64)
    ensures
        m == spec_counted(n, counts),
{
    if counts && n < u64::MAX {
        n + 1
    } else {
        n
    }
}

/// What becomes of the input of a trial.
#[derive(Clone, Copy, Debug, PartialEq, Eq, Structural)]
pub enum Decision {
    /// The input goes to the solutions corpus.
    Solution,
    /// The input goes to the input corpus, for the novelties that it found.
    Admit { novelties: usize },
    /// The input is dropped.
    Discard,
}

/// What becomes of an input by its verdict and the number of counters at
/// which its run added to the history: a crash is a solution whatever it
/// covered; any other input is admitted exactly if it found something new.
pub open spec fn spec_decide(verdict: Verdict, novelties: usize) -> Decision {
    if verdict == Verdict::Crash {
        Decision::Solution
    } else if novelties > 0 {
        Decision::Admit { novelties }
    } else {
        Decision::Discard
    }
}

/// What becomes of an input by its verdict and its number of novelties.
pub fn decide(verdict: Verdict, novelties: usize) -> (d: Decision)
    ensures
        d == spec_decide(verdict, novelties),
{
    match verdict {
        Verdict::Crash => Decision::Solution,
        _ => if novelties > 0 {
            Decision::Admit { novelties }
        } else {
            Decision::Discard
        },
    }
}

/// What is known of an entry from its runs after admission.
#[derive(Clone, Copy, Debug, PartialEq, Eq, Structural)]
pub struct Calibration {
    /// The number of calibration runs so far.
    pub runs: u32,
    /// Whether every one of them left the signature that admitted the entry.
    pub stable: bool,
    /// The time that they took together, in microseconds, at most `u64::MAX`.
    pub total_micros: u64,
}

impl Calibration {
    /// Whether the entry has had all its calibration runs.
    pub open spec fn spec_done(self) -> bool {
        self.runs >= CALIBRATION_RUNS
    }

    /// Whether the entry may be scheduled: it has had all its calibration
    /// runs and each of them reproduced its signature.
    pub open spec fn spec_trusted(self) -> bool {
        self.spec_done() && self.stable
    }

    /// The calibration after one more run, which reproduced the entry's
    /// signature or not, and took `micros` microseconds.
    pub open spec fn spec_after(self, reproduced: bool, micros: u64) -> Calibration {
        Calibration {
            runs: if self.runs < u32::MAX {
                (self.runs + 1) as u32
            } else {
                self.runs
            },
            stable: self.stable && reproduced,
            total_micros: if self.total_micros + micros > u64::MAX {
                u64::MAX
            } else {
                (self.total_micros + micros) as u64
            },
        }
    }

    /// The mean time of a calibration run, in microseconds; 0 before the
    /// first.
    pub open spec fn spec_mean_micros(self) -> u64 {
        if self.runs == 0 {
            0
        } else {
            (self.total_micros / self.runs as u64) as u64
        }
    }

    /// The calibration of an entry that has not been run again yet.
    pub fn new() -> (c: Calibration)
        ensures
            c == (Calibration { runs: 0, stable: true, total_micros: 0 }),
    {
        Calibration { runs: 0, stable: true, total_micros: 0 }
    }

    /// Whether the entry has had all its calibration runs.
    pub fn done(&self) -> (b: bool)
        ensures
            b == self.spec_done(),
    {
        self.runs >= CALIBRATION_RUNS
    }

    /// Whether the entry may be scheduled.
    pub fn trusted(&self) -> (b: bool)
        ensures
            b == self.spec_trusted(),
    {
        self.runs >= CALIBRATION_RUNS && self.stable
    }

    /// The calibration after one more run.
    pub fn after(&self, reproduced: bool, micros: u64) -> (c: Calibration)
        ensures
            c == self.spec_after(reproduced, micros),
    {
        Calibration {
            runs: if self.runs < u32::MAX {
                self.runs + 1
            } else {
                self.runs
            },
            stable: self.stable && reproduced,
            total_micros: match self.total_micros.checked_add(micros) {
                Some(total) => total,
                None => u64::MAX,
            },
        }
    }

    /// The mean time of a calibration run, in microseconds.
    pub fn mean_micros(&self) -> (m: u64)
        ensures
            m == self.spec_mean_micros(),
    {
        if self.runs == 0 {
            0
        } else {
            self.total_micros / (self.runs as u64)
        }
    }
}

/// The number of mutants that an entry is worth before the next entry has
/// its turn: `BASE_ENERGY` for each novelty that it found, up to
/// `MAX_WEIGHT` of them and at least one, and half of that where its runs
/// take more than twice the mean time of all calibration runs.
pub open spec fn spec_energy(novelties: usize, mean_micros: u64, overall_mean_micros: u64) -> u64 {
    let weight: u64 = if novelties == 0 {
        1
    } else if novelties > MAX_WEIGHT {
        MAX_WEIGHT
    } else {
        novelties as u64
    };
    let full: u64 = (BASE_ENERGY * weight) as u64;
    if mean_micros as int > 2 * overall_mean_micros {
        (full / 2) as u64
    } else {
        full
    }
}

/// The number of mutants that an entry is worth before the next entry has
/// its turn. It is never zero.
pub fn energy(novelties: usize, mean_micros: u64, overall_mean_micros: u64) -> (e: u64)
    ensures
        e == spec_energy(novelties, mean_micros, overall_mean_micros),
        BASE_ENERGY / 2 <= e <= BASE_ENERGY * MAX_WEIGHT,
{
    let weight: u64 = if novelties == 0 {
        1
    } else if novelties > MAX_WEIGHT as usize {
        MAX_WEIGHT
    } else {
        novelties as u64
    };
    let full: u64 = BASE_ENERGY * weight;
    let slow: bool = match overall_mean_micros.checked_mul(2) {
        Some(twice) => mean_micros > twice,
        None => false,
    };
    if slow {
        full / 2
    } else {
        full
    }
}

/// The first trusted entry among those that follow `from` in the order of
/// the queue, which starts again at its head after its last entry and ends
/// with `from` itself (a `from` past the end counts on from the head): the
/// entry `step` places after `from` if it is trusted, else the search goes
/// on one place further, up to `from`.
pub open spec fn next_trusted_from(trusted: Seq<bool>, from: int, step: int) -> Option<int>
    decreases trusted.len() + 1 - step,
{
    if trusted.len() == 0 || step > trusted.len() || step < 1 {
        None
    } else if trusted[(from + step) % trusted.len() as int] {
        Some((from + step) % trusted.len() as int)
    } else {
        next_trusted_from(trusted, from, step + 1)
    }
}

/// The trusted entry whose turn comes after that of `from`, or `None` where
/// no entry is trusted.
pub open spec fn spec_next_trusted(trusted: Seq<bool>, from: int) -> Option<int> {
    next_trusted_from(trusted, from, 1)
}

/// The trusted entry whose turn comes after that of `from`, in the order of
/// the queue, or `None` where no entry is trusted.
pub fn next_trusted(calibrations: &Vec<Calibration>, from: usize) -> (next: Option<usize>)
    ensures
        match next {
            Some(k) => k < calibrations.len() && calibrations[k as int].spec_trusted()
                && spec_next_trusted(trusted_flags(calibrations@), from as int) == Some(k as int),
            None => spec_next_trusted(trusted_flags(calibrations@), from as int) is None,
        },
{
    let len: usize = calibrations.len();
    if len == 0 {
        return None;
    }
    let ghost flags = trusted_flags(calibrations@);
    let mut index: usize = from % len;
    let mut left: usize = len;
    while left > 0
        invariant
            len == calibrations.len(),
            len > 0,
            left <= len,
            index < len,
            index as int == (from + (len - left)) % len as int,
            flags == trusted_flags(calibrations@),
            flags.len() == len,
            spec_next_trusted(flags, from as int) == next_trusted_from(
                flags,
                from as int,
                len - left + 1,
            ),
        decreases left,
    {
        let candidate: usize = if index + 1 == len {
            0
        } else {
            index + 1
        };
        proof {
            lemma_next_in_cycle(from as int, len - left + 1, len as int);
        }
        if calibrations[candidate].trusted() {
            return Some(candidate);
        }
        index = candidate;
        left -= 1;
    }
    None
}

/// For each calibration whether it is trusted.
pub open spec fn trusted_flags(calibrations: Seq<Calibration>) -> Seq<bool> {
    Seq::new(calibrations.len(), |i: int| calibrations[i].spec_trusted())
}

/// One place further in a cycle is the next index, or 0 after the last.
proof fn lemma_next_in_cycle(from: int, step: int, len: int)
    requires
        len > 0,
        0 <= from,
        1 <= step,
    ensures
        (from + step) % len == if (from + step - 1) % len + 1 == len {
            0
        } else {
            (from + step - 1) % len + 1
        },
{
    let a = from + step - 1;
    assert((a + 1) % len == if a % len + 1 == len {
        0
    } else {
        a % len + 1
    }) by (nonlinear_arith)
        requires
            len > 0,
            a >= 0,
    ;
}

} // verus!
