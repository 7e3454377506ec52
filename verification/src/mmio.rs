//! A planned register store, and a register block backed by ordinary memory.
//!
//! The driver never reads a hardware register: each operation is one blind
//! full-word store, described by a [`RegWrite`]. An [`MmioRegion`] stands in
//! for a memory-mapped register block in tests, so that the effect of a store
//! on the block's words can be stated and proved.

use vstd::prelude::*;

verus! {

/// One full-word store to a memory-mapped register: the target address and
/// the 32-bit word stored there.
///
/// The word follows the pin controller's write-mask convention (bits [31:16]
/// enable writes to the mirrored bits [15:0] in hardware), but the store
/// itself replaces the whole register word: it is never a read-modify-write.
pub struct RegWrite {
    pub addr: usize,
    pub word: u32,
}

/// A register block standing in for hardware: a run of 32-bit words starting
/// at address `base`, word `i` at address `base + 4 * i`.
pub struct MmioRegion {
    pub base: usize,
    pub words: Vec<u32>,
}

impl MmioRegion {
    /// Every word of the block lies at a representable address.
    pub open spec fn wf(self) -> bool {
        self.base + 4 * self.words@.len() <= usize::MAX
    }

    /// `addr` is the word-aligned address of one of the block's words.
    pub open spec fn covers(self, addr: usize) -> bool {
        &&& self.base <= addr
        &&& addr + 4 <= self.base + 4 * self.words@.len()
        &&& (addr - self.base) % 4 == 0
    }

    /// Index within the block of the word at `addr`.
    pub open spec fn word_index(self, addr: usize) -> int {
        (addr - self.base) / 4
    }

    /// A block of `num_words` words at `base`, all zero.
    pub fn new_zeroed(base: usize, num_words: usize) -> (r: Self)
        requires
            base + 4 * num_words <= usize::MAX,
        ensures
            r.wf(),
            r.base == base,
            r.words@.len() == num_words,
            forall|i: int| 0 <= i < num_words ==> r.words@[i] == 0u32,
    {
        let mut words: Vec<u32> = Vec::new();
        let mut n: usize = 0;
        while n < num_words
            invariant
                n <= num_words,
                words@.len() == n,
                forall|i: int| 0 <= i < n ==> words@[i] == 0u32,
            decreases num_words - n,
        {
            words.push(0u32);
            n = n + 1;
        }
        MmioRegion { base, words }
    }

    /// Perform one store: the whole word at `w.addr` is replaced by `w.word`,
    /// and no other word of the block changes.
    pub fn store(&mut self, w: &RegWrite)
        requires
            old(self).wf(),
            old(self).covers(w.addr),
        ensures
            final(self).base == old(self).base,
            final(self).words@ == old(self).words@.update(old(self).word_index(w.addr), w.word),
    {
        let idx: usize = (w.addr - self.base) / 4;
        self.words[idx] = w.word;
    }

    /// The word currently held at `addr`.
    pub fn read_word(&self, addr: usize) -> (r: u32)
        requires
            self.wf(),
            self.covers(addr),
        ensures
            r == self.words@[self.word_index(addr)],
    {
        let idx: usize = (addr - self.base) / 4;
        self.words[idx]
    }
}

/// A register store is idempotent: performing the same full-word store twice
/// leaves the block exactly as performing it once.
pub proof fn lemma_store_idempotent(m: Seq<u32>, i: int, w: u32)
    requires
        0 <= i < m.len(),
    ensures
        m.update(i, w).update(i, w) == m.update(i, w),
{
    assert(m.update(i, w).update(i, w) =~= m.update(i, w));
}

} // verus!
