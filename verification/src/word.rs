//! The one word of pool state that every connection shares. It is only ever
//! changed by a single atomic read-modify-write, never by a load and a
//! later store.

use std::sync::atomic::{AtomicU64, Ordering};
use vstd::prelude::*;

verus! {

/// A word that many threads read and change at once. What it holds at any
/// instant is not known to a caller: each method says only what it did.
#[derive(Debug)]
pub(crate) struct SharedWord {
    word: AtomicU64,
}

impl SharedWord {
    /// A word that starts as `bits`.
    pub(crate) fn new(bits: u64) -> SharedWord {
        SharedWord { word: AtomicU64::new(bits) }
    }

    /// The word as it is now.
    pub(crate) fn load(&self) -> u64 {
        self.word.load(Ordering::Acquire)
    }

    /// Clears every bit that is not in `keep`, in one step, and returns
    /// the word as it was just before.
    pub(crate) fn keep_only(&self, keep: u64) -> u64 {
        self.word.fetch_and(keep, Ordering::AcqRel)
    }

    /// Sets every bit of `bits`, in one step, and returns the word as it
    /// was just before.
    pub(crate) fn raise(&self, bits: u64) -> u64 {
        self.word.fetch_or(bits, Ordering::AcqRel)
    }
}

} // verus!
