//! The coverage map of one worker, and what of it the search has seen.

use crate::messages::TraceMode;
use vstd::prelude::*;

verus! {

/// The class of a hit count: 0, 1 and 2 stand for themselves, 3 is 4, 4 to 7
/// are 8, 8 to 15 are 16, 16 to 31 are 32, 32 to 127 are 64, and 128 and more
/// are 128. Every class has at most one bit set.
pub open spec fn spec_bucket(count: u8) -> u8 {
    if count <= 2 {
        count
    } else if count == 3 {
        4
    } else if count <= 7 {
        8
    } else if count <= 15 {
        16
    } else if count <= 31 {
        32
    } else if count <= 127 {
        64
    } else {
        128
    }
}

/// What a counter counts as under a trace mode: hit or not hit where edges
/// are marked once, the class of the count where hits are counted.
pub open spec fn spec_class(count: u8, mode: TraceMode) -> u8 {
    match mode {
        TraceMode::Once => if count == 0 {
            0
        } else {
            1
        },
        TraceMode::HitCount => spec_bucket(count),
    }
}

/// The class of a hit count.
pub fn bucket(count: u8) -> (class: u8)
    ensures
        class == spec_bucket(count),
{
    if count <= 2 {
        count
    } else if count == 3 {
        4
    } else if count <= 7 {
        8
    } else if count <= 15 {
        16
    } else if count <= 31 {
        32
    } else if count <= 127 {
        64
    } else {
        128
    }
}

/// What a counter counts as under a trace mode.
pub fn class_of(count: u8, mode: TraceMode) -> (class: u8)
    ensures
        class == spec_class(count, mode),
{
    match mode {
        TraceMode::Once => if count == 0 {
            0
        } else {
            1
        },
        TraceMode::HitCount => bucket(count),
    }
}

/// The counters of `counters`, each replaced by its class.
pub open spec fn spec_classified(counters: Seq<u8>, mode: TraceMode) -> Seq<u8> {
    Seq::new(counters.len(), |i: int| spec_class(counters[i], mode))
}

/// The non-zero counters among the first `n` of `counters`, each with its
/// index, in the order of the indices.
pub open spec fn signature_upto(counters: Seq<u8>, n: nat) -> Seq<(usize, u8)>
    decreases n,
{
    if n == 0 {
        Seq::empty()
    } else {
        let before = signature_upto(counters, (n - 1) as nat);
        if counters[n - 1] != 0 {
            before.push(((n - 1) as usize, counters[n - 1]))
        } else {
            before
        }
    }
}

/// The signature of a map: its non-zero counters, each with its index, in
/// the order of the indices.
pub open spec fn spec_signature(counters: Seq<u8>) -> Seq<(usize, u8)> {
    signature_upto(counters, counters.len())
}

/// A fixed number of saturating counters, one for each class of edges.
#[derive(Debug)]
pub struct CoverageMap {
    counters: Vec<u8>,
}

impl View for CoverageMap {
    type V = Seq<u8>;

    closed spec fn view(&self) -> Seq<u8> {
        self.counters@
    }
}

impl CoverageMap {
    /// A map of `len` counters, all zero.
    pub fn new(len: usize) -> (map: CoverageMap)
        ensures
            map@.len() == len,
            forall|i: int| 0 <= i < len ==> map@[i] == 0,
    {
        let mut counters: Vec<u8> = Vec::new();
        let mut i: usize = 0;
        while i < len
            invariant
                i <= len,
                counters@.len() == i,
                forall|j: int| 0 <= j < i ==> counters@[j] == 0,
            decreases len - i,
        {
            counters.push(0);
            i += 1;
        }
        CoverageMap { counters }
    }

    /// The map that holds the given counters.
    pub fn from_counters(counters: Vec<u8>) -> (map: CoverageMap)
        ensures
            map@ == counters@,
    {
        CoverageMap { counters }
    }

    /// The number of counters.
    pub fn len(&self) -> (n: usize)
        ensures
            n == self@.len(),
    {
        self.counters.len()
    }

    /// The counter at `index`, if the map has one there.
    pub fn counter(&self, index: usize) -> (c: Option<u8>)
        ensures
            c == if index < self@.len() {
                Some(self@[index as int])
            } else {
                None
            },
    {
        if index < self.counters.len() {
            Some(self.counters[index])
        } else {
            None
        }
    }

    /// The counters, as they stand.
    pub fn counters(&self) -> (c: &Vec<u8>)
        ensures
            c@ == self@,
    {
        &self.counters
    }

    /// Counts one more hit of `edge`, whose counter is the one at the
    /// remainder of `edge` by the map's length, and which stays at 255 once it
    /// is there. A map without counters takes no hit. The length never
    /// changes.
    pub fn record(&mut self, edge: u64)
        ensures
            final(self)@.len() == old(self)@.len(),
            old(self)@.len() == 0 ==> final(self)@ == old(self)@,
            old(self)@.len() > 0 ==> final(self)@ == old(self)@.update(
                edge as int % old(self)@.len() as int,
                if old(self)@[edge as int % old(self)@.len() as int] == 255 {
                    255u8
                } else {
                    (old(self)@[edge as int % old(self)@.len() as int] + 1) as u8
                },
            ),
    {
        let len: usize = self.counters.len();
        if len == 0 {
            return ;
        }
        let index: usize = (edge % (len as u64)) as usize;
        let count: u8 = self.counters[index];
        let next: u8 = if count == 255 {
            255
        } else {
            count + 1
        };
        self.counters.set(index, next);
    }

    /// Sets every counter to zero. The length never changes.
    pub fn clear(&mut self)
        ensures
            final(self)@.len() == old(self)@.len(),
            forall|i: int| 0 <= i < final(self)@.len() ==> final(self)@[i] == 0,
    {
        let len: usize = self.counters.len();
        let mut i: usize = 0;
        while i < len
            invariant
                i <= len,
                self.counters@.len() == len,
                forall|j: int| 0 <= j < i ==> self.counters@[j] == 0,
            decreases len - i,
        {
            self.counters.set(i, 0);
            i += 1;
        }
    }

    /// The map with every counter replaced by its class under `mode`.
    pub fn classified(&self, mode: TraceMode) -> (map: CoverageMap)
        ensures
            map@ == spec_classified(self@, mode),
    {
        let len: usize = self.counters.len();
        let mut classes: Vec<u8> = Vec::new();
        let mut i: usize = 0;
        while i < len
            invariant
                i <= len,
                len == self.counters@.len(),
                classes@.len() == i,
                forall|j: int| 0 <= j < i ==> classes@[j] == spec_class(self.counters@[j], mode),
            decreases len - i,
        {
            classes.push(class_of(self.counters[i], mode));
            i += 1;
        }
        assert(classes@ =~= spec_classified(self@, mode));
        CoverageMap { counters: classes }
    }

    /// The signature of the map: its non-zero counters, each with its index.
    /// It depends on the counters alone, so that equal maps have equal
    /// signatures.
    pub fn signature(&self) -> (sig: Vec<(usize, u8)>)
        ensures
            sig@ == spec_signature(self@),
    {
        let len: usize = self.counters.len();
        let mut sig: Vec<(usize, u8)> = Vec::new();
        let mut i: usize = 0;
        while i < len
            invariant
                i <= len,
                len == self.counters@.len(),
                sig@ == signature_upto(self.counters@, i as nat),
            decreases len - i,
        {
            let count: u8 = self.counters[i];
            if count != 0 {
                sig.push((i, count));
            }
            i += 1;
        }
        sig
    }
}

/// Whether two signatures are the same.
pub fn same_signature(a: &Vec<(usize, u8)>, b: &Vec<(usize, u8)>) -> (same: bool)
    ensures
        same == (a@ == b@),
{
    if a.len() != b.len() {
        return false;
    }
    let mut i: usize = 0;
    while i < a.len()
        invariant
            i <= a.len(),
            a.len() == b.len(),
            forall|j: int| 0 <= j < i ==> a@[j] == b@[j],
        decreases a.len() - i,
    {
        let x: (usize, u8) = a[i];
        let y: (usize, u8) = b[i];
        if x.0 != y.0 || x.1 != y.1 {
            return false;
        }
        i += 1;
    }
    assert(a@ =~= b@);
    true
}

/// Whether a counter's class holds a bit that the history lacks.
pub open spec fn adds_to(seen: u8, now: u8) -> bool {
    (seen | now) != seen
}

/// The number of indices under `n` at which `now` adds to `seen`.
pub open spec fn novelties_upto(seen: Seq<u8>, now: Seq<u8>, n: nat) -> nat
    decreases n,
{
    if n == 0 {
        0
    } else {
        novelties_upto(seen, now, (n - 1) as nat) + if adds_to(seen[n - 1], now[n - 1]) {
            1nat
        } else {
            0nat
        }
    }
}

/// Whether `now` touches an edge, or reaches a class of hit counts, that
/// `seen` lacks.
pub open spec fn spec_is_novel(seen: Seq<u8>, now: Seq<u8>) -> bool {
    exists|i: int| 0 <= i < now.len() && adds_to(#[trigger] seen[i], now[i])
}

/// `seen` with every class of `now` added.
pub open spec fn spec_merged(seen: Seq<u8>, now: Seq<u8>) -> Seq<u8> {
    Seq::new(seen.len(), |i: int| seen[i] | now[i])
}

/// A count of novelties is zero exactly where nothing is novel.
pub proof fn lemma_novelties_zero(seen: Seq<u8>, now: Seq<u8>, n: nat)
    ensures
        novelties_upto(seen, now, n) <= n,
        novelties_upto(seen, now, n) == 0 <==> forall|i: int|
            0 <= i < n ==> !adds_to(#[trigger] seen[i], now[i]),
    decreases n,
{
    if n > 0 {
        lemma_novelties_zero(seen, now, (n - 1) as nat);
    }
}

/// What the search has seen of the coverage map so far: for each counter the
/// classes that some admitted input reached.
#[derive(Debug)]
pub struct CoverageHistory {
    seen: Vec<u8>,
}

impl View for CoverageHistory {
    type V = Seq<u8>;

    closed spec fn view(&self) -> Seq<u8> {
        self.seen@
    }
}

impl CoverageHistory {
    /// The history of a map of `len` counters of which nothing was seen.
    pub fn new(len: usize) -> (history: CoverageHistory)
        ensures
            history@.len() == len,
            forall|i: int| 0 <= i < len ==> history@[i] == 0,
    {
        let map = CoverageMap::new(len);
        CoverageHistory { seen: map.counters }
    }

    /// The number of counters that the history follows.
    pub fn len(&self) -> (n: usize)
        ensures
            n == self@.len(),
    {
        self.seen.len()
    }

    /// The number of counters of the classified map `now` that add to the
    /// history, or `None` where the map has another length than the history.
    pub fn novelties(&self, now: &CoverageMap) -> (count: Option<usize>)
        ensures
            match count {
                Some(n) => now@.len() == self@.len() && n == novelties_upto(
                    self@,
                    now@,
                    now@.len(),
                ) && (n > 0 <==> spec_is_novel(self@, now@)),
                None => now@.len() != self@.len(),
            },
    {
        let len: usize = self.seen.len();
        if now.counters.len() != len {
            return None;
        }
        let mut count: usize = 0;
        let mut i: usize = 0;
        while i < len
            invariant
                i <= len,
                len == self.seen@.len(),
                len == now.counters@.len(),
                count == novelties_upto(self.seen@, now.counters@, i as nat),
                count <= i,
            decreases len - i,
        {
            let seen: u8 = self.seen[i];
            if (seen | now.counters[i]) != seen {
                count += 1;
            }
            i += 1;
        }
        proof {
            lemma_novelties_zero(self@, now@, len as nat);
        }
        Some(count)
    }

    /// Adds every class of the classified map `now` to the history. A map of
    /// another length changes nothing and gives `false`.
    pub fn merge(&mut self, now: &CoverageMap) -> (merged: bool)
        ensures
            merged == (now@.len() == old(self)@.len()),
            final(self)@ == if merged {
                spec_merged(old(self)@, now@)
            } else {
                old(self)@
            },
            final(self)@.len() == old(self)@.len(),
    {
        let len: usize = self.seen.len();
        if now.counters.len() != len {
            return false;
        }
        let mut i: usize = 0;
        while i < len
            invariant
                i <= len,
                len == self.seen@.len(),
                len == old(self).seen@.len(),
                len == now.counters@.len(),
                forall|j: int| 0 <= j < i ==> self.seen@[j] == old(self).seen@[j] | now.counters@[j],
                forall|j: int| i <= j < len ==> self.seen@[j] == old(self).seen@[j],
            decreases len - i,
        {
            let joined: u8 = self.seen[i] | now.counters[i];
            self.seen.set(i, joined);
            i += 1;
        }
        assert(self.seen@ =~= spec_merged(old(self)@, now@));
        true
    }
}

/// Equal maps have equal signatures: a signature depends on nothing but the
/// counters that the run left, so a run that leaves the same counters is
/// given the same signature.
pub proof fn lemma_signature_deterministic(a: Seq<u8>, b: Seq<u8>)
    requires
        a == b,
    ensures
        spec_signature(a) == spec_signature(b),
{
}

/// Once a map is merged into the history, the same map is not novel again.
pub proof fn lemma_merged_not_novel(seen: Seq<u8>, now: Seq<u8>)
    requires
        seen.len() == now.len(),
    ensures
        !spec_is_novel(spec_merged(seen, now), now),
{
    let merged = spec_merged(seen, now);
    assert forall|i: int| 0 <= i < now.len() implies !adds_to(#[trigger] merged[i], now[i]) by {
        let s: u8 = seen[i];
        let m: u8 = now[i];
        assert(((s | m) | m) == (s | m)) by (bit_vector);
    }
}

} // verus!
