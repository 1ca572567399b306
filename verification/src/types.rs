//! Models of the fixed shared-memory regions.
//!
//! Each region is an array of 64-bit words at a fixed address, specified
//! only at its interface: the model owns the words and exposes single
//! aligned reads and writes, assumed atomic and free of torn accesses on
//! the device. Ownership of each parameter word is split statically between
//! this core and the external collaborator processor; the data region is
//! written by acquisition hardware and read-only from this core.

use vstd::prelude::*;

verus! {

/// Number of 64-bit words in the shared parameter region.
pub const PARAM_WORDS: usize = 20;

/// Number of 64-bit words in the acquisition data region.
pub const DATA_WORDS: usize = 4096;

/// The acquisition data region. Word 0 holds the newest in-phase and
/// quadrature sample pair as two packed 32-bit float bit patterns,
/// refreshed by the acquisition hardware independently of this core.
pub struct DataMap {
    words: Vec<u64>,
}

impl View for DataMap {
    type V = Seq<u64>;

    closed spec fn view(&self) -> Seq<u64> {
        self.words@
    }
}

impl DataMap {
    pub open spec fn wf(&self) -> bool {
        self@.len() == DATA_WORDS
    }

    /// A fresh region with every word zero.
    pub fn new() -> (r: DataMap)
        ensures
            r.wf(),
            forall|i: int| 0 <= i < r@.len() ==> r@[i] == 0u64,
    {
        DataMap { words: zeroed_u64(DATA_WORDS) }
    }

    /// Read one word.
    pub fn read(&self, idx: usize) -> (val: u64)
        requires
            self.wf(),
            idx < DATA_WORDS,
        ensures
            val == self@[idx as int],
    {
        self.words[idx]
    }

    /// Hardware side of the model: the acquisition hardware stores a word.
    pub fn hw_store(&mut self, idx: usize, val: u64)
        requires
            old(self).wf(),
            idx < DATA_WORDS,
        ensures
            final(self).wf(),
            final(self)@ == old(self)@.update(idx as int, val),
    {
        self.words.set(idx, val);
    }
}

/// The shared parameter region: bidirectional exchange of configuration
/// and status with the external collaborator processor. Each word packs two
/// 32-bit values. Words 0 and 1 are written only by this core (status);
/// words 2 through 6 are written only by the collaborator (live-tunable
/// configuration); no word is read-modify-written by both sides.
pub struct ParamsMap {
    words: Vec<u64>,
}

impl View for ParamsMap {
    type V = Seq<u64>;

    closed spec fn view(&self) -> Seq<u64> {
        self.words@
    }
}

impl ParamsMap {
    pub open spec fn wf(&self) -> bool {
        self@.len() == PARAM_WORDS
    }

    /// A fresh region with every word zero.
    pub fn new() -> (r: ParamsMap)
        ensures
            r.wf(),
            forall|i: int| 0 <= i < r@.len() ==> r@[i] == 0u64,
    {
        ParamsMap { words: zeroed_u64(PARAM_WORDS) }
    }

    /// Read one word.
    pub fn read(&self, idx: usize) -> (val: u64)
        requires
            self.wf(),
            idx < PARAM_WORDS,
        ensures
            val == self@[idx as int],
    {
        self.words[idx]
    }

    /// Write one word.
    pub fn write(&mut self, idx: usize, val: u64)
        requires
            old(self).wf(),
            idx < PARAM_WORDS,
        ensures
            final(self).wf(),
            final(self)@ == old(self)@.update(idx as int, val),
    {
        self.words.set(idx, val);
    }
}

/// The actuator command register: a single 64-bit write-only word. The
/// model keeps the last command written.
pub struct BiasDacMap {
    inner: u64,
}

impl View for BiasDacMap {
    type V = u64;

    closed spec fn view(&self) -> u64 {
        self.inner
    }
}

impl BiasDacMap {
    /// A fresh register, reading back as zero in the model.
    pub fn new() -> (r: BiasDacMap)
        ensures
            r@ == 0u64,
    {
        BiasDacMap { inner: 0 }
    }

    /// Send one command word to the actuator.
    pub fn write(&mut self, word: u64)
        ensures
            final(self)@ == word,
    {
        self.inner = word;
    }

    /// Model read-back of the last command sent (the device register
    /// itself is write-only).
    pub fn read(&self) -> (word: u64)
        ensures
            word == self@,
    {
        self.inner
    }
}

fn zeroed_u64(n: usize) -> (v: Vec<u64>)
    ensures
        v@.len() == n,
        forall|i: int| 0 <= i < n ==> v@[i] == 0u64,
{
    let mut v: Vec<u64> = Vec::new();
    while v.len() < n
        invariant
            v@.len() <= n,
            forall|i: int| 0 <= i < v@.len() ==> v@[i] == 0u64,
        decreases n - v@.len(),
    {
        v.push(0);
    }
    v
}

} // verus!
