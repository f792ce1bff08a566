//! A lock that lives in one machine word.  The most significant bit of the
//! word is the lock flag, the remaining bits count versions.  The word is
//! shared between all clones of a lock and is only ever touched by atomic
//! read-modify-write instructions.
//!
//! Because every clone may change the word at any moment, no contract of a
//! method on the shared lock can speak of "the" word.  The bit layout and the
//! transitions are therefore stated on plain words: [`decode`] says which
//! state a word encodes, [`flagged`], [`cleared`] and [`bumped`] are the three
//! transitions that the atomic instructions apply, and the lemmas of this
//! module say what they do to the decoded state.

use crate::error::TxError;
use std::sync::atomic::AtomicUsize;
use std::sync::atomic::Ordering;
use std::sync::Arc;
use vstd::prelude::*;

verus! {

/// How often [`VersionLock::try_lock`] tries before it gives up.
pub const SPIN_BOUND: u32 = 0x8000_0000;

/// The two logical fields that a lock word packs.
pub struct LockState {
    pub locked: bool,
    pub version: nat,
}

/// The number of distinct versions: two to the power of the number of version
/// bits.  As a word it is the lock flag.
pub open spec fn version_limit() -> nat {
    (usize::MAX / 2 + 1) as nat
}

/// The word with every version bit set and the lock flag clear.
pub open spec fn version_mask() -> usize {
    (usize::MAX / 2) as usize
}

/// The state that a word encodes: at or above the limit the flag is set and
/// the version is what is left of the word without it.
pub open spec fn decode(word: usize) -> LockState {
    if word >= version_limit() {
        LockState { locked: true, version: (word - version_limit()) as nat }
    } else {
        LockState { locked: false, version: word as nat }
    }
}

/// The version after `version`: one more, and zero after the last one.
pub open spec fn next_version(version: nat) -> nat {
    if version + 1 == version_limit() {
        0
    } else {
        version + 1
    }
}

/// The word after the lock flag has been set: what `fetch_or` with the
/// complement of the mask leaves behind.
pub open spec fn flagged(word: usize) -> usize {
    word | !version_mask()
}

/// The word after the lock flag has been cleared: what `fetch_and` with the
/// mask leaves behind.
pub open spec fn cleared(word: usize) -> usize {
    word & version_mask()
}

/// The word after one has been added to it, wrapping at the word size: what
/// `fetch_add` of one leaves behind.
pub open spec fn bumped(word: usize) -> usize {
    if word == usize::MAX {
        0
    } else {
        (word + 1) as usize
    }
}

/// The word after a release: the version is bumped while the flag is still
/// set, then the flag is cleared.
pub open spec fn released(word: usize) -> usize {
    cleared(bumped(word))
}

/// The word after `cycles` rounds of acquiring and releasing.
pub open spec fn cycled(word: usize, cycles: nat) -> usize
    decreases cycles,
{
    if cycles == 0 {
        word
    } else {
        released(flagged(cycled(word, (cycles - 1) as nat)))
    }
}

/// The value of a clock after `ticks` increments.
pub open spec fn ticked(start: usize, ticks: nat) -> usize
    decreases ticks,
{
    if ticks == 0 {
        start
    } else {
        bumped(ticked(start, (ticks - 1) as nat))
    }
}

/// The word of all ones is the largest word, and half of it is the mask.
proof fn lemma_all_ones()
    ensures
        !0usize == usize::MAX,
        !0usize >> 1 == version_mask(),
{
    let all: usize = !0usize;
    let top: usize = usize::MAX;
    assert(top <= all) by (bit_vector)
        requires
            all == !0usize,
    ;
    assert(all >> 1 == all / 2) by (bit_vector);
}

/// The decoded fields of a word, read off its bits.
pub proof fn lemma_decode_bits(word: usize)
    ensures
        decode(word).locked == (word & !version_mask() != 0),
        decode(word).version == word & version_mask(),
        decode(word).version < version_limit(),
{
    lemma_all_ones();
    let m: usize = version_mask();
    assert((word & !m != 0) == (word > m) && word & m == (if word > m {
        (word - m - 1) as usize
    } else {
        word
    })) by (bit_vector)
        requires
            m == !0usize >> 1,
    ;
}

/// Setting the flag locks the word and keeps its version.
pub proof fn lemma_flagged(word: usize)
    ensures
        decode(flagged(word)) == (LockState { locked: true, version: decode(word).version }),
{
    lemma_all_ones();
    lemma_decode_bits(word);
    lemma_decode_bits(flagged(word));
    let m: usize = version_mask();
    assert((word | !m) & !m != 0 && (word | !m) & m == word & m) by (bit_vector)
        requires
            m == !0usize >> 1,
    ;
}

/// Clearing the flag unlocks the word and keeps its version.
pub proof fn lemma_cleared(word: usize)
    ensures
        decode(cleared(word)) == (LockState { locked: false, version: decode(word).version }),
{
    lemma_all_ones();
    lemma_decode_bits(word);
    lemma_decode_bits(cleared(word));
    let m: usize = version_mask();
    assert((word & m) & !m == 0 && (word & m) & m == word & m) by (bit_vector)
        requires
            m == !0usize >> 1,
    ;
}

/// The limit is half of the number of words, and every version is below it.
proof fn lemma_limit(word: usize)
    ensures
        2 * version_limit() == usize::MAX + 1,
        decode(word).version < version_limit(),
{
    if usize::BITS == 64 {
        assert(version_limit() == 0x8000_0000_0000_0000);
    } else {
        assert(version_limit() == 0x8000_0000);
    }
}

/// A release leaves the word unlocked, whatever it was before, and moves the
/// version on by one; after the last version comes version zero.
pub proof fn lemma_released(word: usize)
    ensures
        decode(released(word)) == (LockState {
            locked: false,
            version: next_version(decode(word).version),
        }),
{
    lemma_cleared(bumped(word));
    lemma_limit(word);
    lemma_limit(bumped(word));
}

/// Rounds of acquiring and releasing count: after `cycles` of them the
/// version has advanced by `cycles`, as long as the version bits can hold the
/// sum, and after at least one round the word is unlocked.
pub proof fn lemma_cycles_count(word: usize, cycles: nat)
    requires
        decode(word).version + cycles < version_limit(),
    ensures
        decode(cycled(word, cycles)).version == decode(word).version + cycles,
        cycles > 0 ==> !decode(cycled(word, cycles)).locked,
    decreases cycles,
{
    if cycles > 0 {
        let before = cycled(word, (cycles - 1) as nat);
        lemma_cycles_count(word, (cycles - 1) as nat);
        lemma_flagged(before);
        lemma_released(flagged(before));
    }
}

/// A clock that is incremented hands out strictly increasing values, and its
/// own value never decreases, until the word is exhausted.
pub proof fn lemma_ticks_increase(start: usize, earlier: nat, later: nat)
    requires
        earlier < later,
        start + later <= usize::MAX,
    ensures
        ticked(start, earlier) == start + earlier,
        ticked(start, later) == start + later,
        ticked(start, earlier) < ticked(start, later),
    decreases later,
{
    if later > 1 {
        if earlier < later - 1 {
            lemma_ticks_increase(start, earlier, (later - 1) as nat);
        } else {
            lemma_ticks_increase(start, (earlier - 1) as nat, earlier);
        }
    } else {
        assert(ticked(start, 1) == bumped(ticked(start, 0)));
    }
}

/// Returns the word size in number of bits.
pub fn word_size_bits() -> (bits: usize)
    ensures
        bits == usize::BITS,
{
    usize::BITS as usize
}

/// Returns the number of bits to shift left to reach the most significant bit.
pub fn shift_by() -> (shift: usize)
    ensures
        shift == usize::BITS - 1,
{
    word_size_bits() - 1
}

/// Returns a bitmask that filters out the most significant bit.
pub fn mask() -> (m: usize)
    ensures
        m == version_mask(),
{
    let shift: usize = shift_by();
    let flag: usize = 1usize << shift;
    proof {
        lemma_all_ones();
        let all: usize = !0usize;
        if usize::BITS == 64 {
            assert(!flag == all >> 1) by (bit_vector)
                requires
                    flag == 1usize << shift,
                    shift == 63,
                    all == !0usize,
                    all as u64 == 0xffff_ffff_ffff_ffffu64,
            ;
        } else {
            assert(!flag == all >> 1) by (bit_vector)
                requires
                    flag == 1usize << shift,
                    shift == 31,
                    all == !0usize,
                    all as u64 == 0xffff_ffffu64,
            ;
        }
    }
    !flag
}

/// Tells whether the lock flag of `word` is set.
pub fn word_is_locked(word: usize) -> (locked: bool)
    ensures
        locked == decode(word).locked,
{
    proof {
        lemma_decode_bits(word);
    }
    word & !mask() != 0
}

/// Extracts the version that `word` carries.
pub fn word_version(word: usize) -> (version: usize)
    ensures
        version == decode(word).version,
        decode(version) == (LockState { locked: false, version: decode(word).version }),
{
    proof {
        lemma_decode_bits(word);
        lemma_cleared(word);
    }
    word & mask()
}

/// A [`VersionLock`] combines a bounded spin lock, which needs one bit of a
/// word-sized value, with a version counter in the rest of the word.  Clones
/// share the word.
#[derive(Default, Clone, Debug)]
pub struct VersionLock {
    atomic: Arc<AtomicUsize>,
}

impl VersionLock {
    /// Creates a new [`VersionLock`] whose word is `version`.
    pub fn new(version: usize) -> Self {
        Self { atomic: Arc::new(AtomicUsize::new(version)) }
    }

    /// Tries to acquire the lock, at most `bound` times.  Each attempt sets
    /// the lock flag atomically, replacing the word by [`flagged`] of itself,
    /// and succeeds if the flag was clear before.  When every attempt found
    /// the flag set, the call fails with [`TxError::LockPresent`].
    pub fn try_lock_bounded(&self, bound: u32) -> (res: Result<(), TxError>)
        ensures
            bound == 0 ==> res == Err::<(), TxError>(TxError::LockPresent),
    {
        let flag: usize = !mask();
        let mut attempt: u32 = 0;
        while attempt < bound
            invariant
                attempt <= bound,
            decreases bound - attempt,
        {
            let seen: usize = self.atomic.fetch_or(flag, Ordering::SeqCst);
            if !word_is_locked(seen) {
                return Ok(());
            }
            attempt = attempt + 1;
        }
        Err(TxError::LockPresent)
    }

    /// Tries to acquire the lock and returns `Ok(())` on success.  The call
    /// spins while the lock is held and gives up with
    /// [`TxError::LockPresent`] after [`SPIN_BOUND`] attempts, so it never
    /// blocks for good.
    pub fn try_lock(&self) -> (res: Result<(), TxError>) {
        self.try_lock_bounded(SPIN_BOUND)
    }

    /// Unlocks the [`VersionLock`] by clearing the lock flag: the word is
    /// replaced by [`cleared`] of itself.
    pub fn unlock(&self) -> (res: Result<(), TxError>)
        ensures
            res is Ok,
    {
        self.atomic.fetch_and(mask(), Ordering::SeqCst);
        Ok(())
    }

    /// Returns `true` if the lock flag is set in the word as it is read.
    pub fn is_locked(&self) -> bool {
        word_is_locked(self.atomic.load(Ordering::SeqCst))
    }

    /// Releases the lock and increments the version: the word is replaced by
    /// [`bumped`] of itself while the flag is still set, then by [`cleared`]
    /// of itself, so that no reader finds the flag clear beside the old
    /// version.
    pub fn release(&self) -> (res: Result<(), TxError>)
        ensures
            res is Ok,
    {
        self.atomic.fetch_add(1, Ordering::SeqCst);
        self.atomic.fetch_and(mask(), Ordering::SeqCst);
        Ok(())
    }

    /// Releases the lock and sets the version: the word is replaced in one
    /// step by the unlocked word that carries the version bits of `value`.
    pub fn release_set(&self, value: usize) -> (res: Result<(), TxError>)
        ensures
            res is Ok,
    {
        self.atomic.store(word_version(value), Ordering::SeqCst);
        Ok(())
    }

    /// Returns the version stored in the word as it is read.
    pub fn version(&self) -> (version: usize)
        ensures
            version <= version_mask(),
            !decode(version).locked,
            decode(version).version == version,
    {
        let seen: usize = self.atomic.load(Ordering::SeqCst);
        proof {
            lemma_decode_bits(seen);
            lemma_cleared(seen);
        }
        word_version(seen)
    }
}

/// An atomic `VersionClock` with a simpler interface: a counter without a
/// lock flag, for keeping track of a global version.  Clones share the
/// counter.
#[derive(Clone, Default)]
pub struct VersionClock {
    atomic: Arc<AtomicUsize>,
}

impl VersionClock {
    /// Creates a new [`VersionClock`] that starts at `version`.
    pub fn new(version: usize) -> Self {
        Self { atomic: Arc::new(AtomicUsize::new(version)) }
    }

    /// Atomically increments the version, replacing the counter by [`bumped`]
    /// of itself, and returns the old value.
    pub fn increment(&self) -> (res: Result<usize, TxError>)
        ensures
            res is Ok,
    {
        Ok(self.atomic.fetch_add(1, Ordering::SeqCst))
    }

    /// Returns the current version.
    pub fn version(&self) -> usize {
        self.atomic.load(Ordering::SeqCst)
    }
}

} // verus!
