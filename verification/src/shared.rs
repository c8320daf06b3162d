//! The table as several search threads share it: every slot is an atomic
//! word, read and written whole and without any ordering between slots.
//!
//! Two stores to one slot may race, and the later write wins. A store may
//! also be lost between its own read and write. What a probe finds is
//! therefore whatever word some thread wrote last, and the functions here
//! promise nothing about it: each decides by the functions of the table on
//! words and entries, which say for every word read what is written back.

use vstd::prelude::*;
use std::sync::atomic::{AtomicU64, Ordering};
use cozy_chess::Move;
use crate::chess::option_record;
use crate::definitions::EPOCH_MAX;
use crate::packed::{TTEntry, TTFlag};
use crate::table::{
    merge, next_epoch, offer, slot_count, slot_index, slot_of, slots_for, storable, sweep_word,
};

verus! {

/// A transposition table that threads share by reference.
pub struct SharedTT {
    /// One atomic word for each slot.
    pub entries: Vec<AtomicU64>,
    /// The generation that stamps what is stored, from 0 to 63.
    pub epoch: u8,
}

impl SharedTT {
    /// The generation fits the six bits that an entry has for it.
    pub open spec fn wf(&self) -> bool {
        self.epoch <= EPOCH_MAX
    }

    /// A table of as many slots as fit `mb` megabytes, all zero, at
    /// generation zero.
    pub fn new(mb: u32) -> (table: Self)
        requires
            slots_for(mb) <= usize::MAX,
        ensures
            table.entries@.len() == slots_for(mb),
            table.epoch == 0,
            table.wf(),
    {
        let size: usize = slot_count(mb);
        let mut entries: Vec<AtomicU64> = Vec::with_capacity(size);
        let mut filled: usize = 0;
        while filled < size
            invariant
                filled <= size,
                entries@.len() == filled,
            decreases size - filled,
        {
            entries.push(AtomicU64::new(0));
            filled += 1;
        }
        Self { entries, epoch: 0 }
    }

    /// The slot of `key`.
    #[must_use]
    pub fn index(&self, key: u64) -> (slot: usize)
        ensures
            slot as int == slot_of(self.entries@.len(), key),
            self.entries@.len() > 0 ==> slot < self.entries@.len(),
    {
        slot_index(self.entries.len(), key)
    }

    /// The entry that one atomic load finds in the slot of `key`.
    #[must_use]
    pub fn probe(&self, key: u64) -> (entry: TTEntry)
        requires
            self.entries@.len() > 0,
    {
        let word: u64 = self.entries[self.index(key)].load(Ordering::Relaxed);
        TTEntry::from(word)
    }

    /// Offers `entry` to the slot of `key`: one atomic load, and one atomic
    /// store of what `merge` gives for the entry loaded, if it gives any.
    fn offer_to_slot(&self, key: u64, entry: TTEntry, has_move: bool)
        requires
            self.entries@.len() > 0,
    {
        let slot: usize = self.index(key);
        let word: u64 = self.entries[slot].load(Ordering::Relaxed);
        match merge(TTEntry::from(word), entry, has_move) {
            Some(written) => {
                self.entries[slot].store(u64::from(written), Ordering::Relaxed);
            },
            None => {},
        }
    }

    /// Offers a search result to the slot of `key`. The slot takes it unless
    /// the entry loaded from it is of higher quality.
    pub fn store(
        &self,
        key: u64,
        mv: Option<Move>,
        score: i16,
        depth: u8,
        flag: TTFlag,
        ply: usize,
    )
        requires
            self.entries@.len() > 0,
            storable(option_record(mv), score, ply),
    {
        match offer(self.epoch, key, mv, score, depth, flag, ply) {
            Some(entry) => self.offer_to_slot(key, entry, mv.is_some()),
            None => {},
        }
    }

    /// Offers a search result to the slot of `key` if it can be stored and
    /// the table has a slot, and says whether it was offered.
    pub fn try_store(
        &self,
        key: u64,
        mv: Option<Move>,
        score: i16,
        depth: u8,
        flag: TTFlag,
        ply: usize,
    ) -> (offered: bool)
        ensures
            offered == (self.entries@.len() > 0 && storable(option_record(mv), score, ply)),
    {
        if self.entries.len() == 0 {
            return false;
        }
        match offer(self.epoch, key, mv, score, depth, flag, ply) {
            Some(entry) => {
                self.offer_to_slot(key, entry, mv.is_some());
                true
            },
            None => false,
        }
    }

    /// Starts a new generation, sweeping every slot with `sweep_word` after
    /// generation 63. For a table that no other thread is using.
    pub fn age(&mut self)
        requires
            old(self).wf(),
        ensures
            final(self).wf(),
            final(self).epoch == next_epoch(old(self).epoch),
            final(self).entries@.len() == old(self).entries@.len(),
    {
        if self.epoch == EPOCH_MAX {
            self.epoch = 0;
            let len: usize = self.entries.len();
            let mut slot: usize = 0;
            while slot < len
                invariant
                    self.epoch == 0,
                    self.entries@.len() == len,
                decreases len - slot,
            {
                let word: u64 = self.entries[slot].load(Ordering::Relaxed);
                self.entries[slot].store(sweep_word(word), Ordering::Relaxed);
                slot += 1;
            }
        }
        self.epoch += 1;
    }

    /// Writes zero to every slot. For a table that no other thread is using.
    pub fn reset(&mut self)
        ensures
            final(self).epoch == old(self).epoch,
            final(self).entries@.len() == old(self).entries@.len(),
    {
        let len: usize = self.entries.len();
        let mut slot: usize = 0;
        while slot < len
            invariant
                self.epoch == old(self).epoch,
                self.entries@.len() == len,
            decreases len - slot,
        {
            self.entries[slot].store(0, Ordering::Relaxed);
            slot += 1;
        }
    }
}

} // verus!
