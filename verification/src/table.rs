//! The table: a fixed run of 64-bit words, one packed entry each, and the
//! generation that stamps what is stored.
//!
//! Every rule of the table is a function on words and entries, so that the
//! table which several search threads share, and which keeps its words in
//! atomic cells, decides exactly as the table here does.

use vstd::prelude::*;
use cozy_chess::Move;
use crate::chess::{option_record, MoveRecord};
use crate::definitions::{EPOCH_MAX, SLOTS_PER_MEGABYTE};
use crate::packed::{
    lemma_entry_round_trip, lemma_zero_word_is_empty, packable, packed_word, AgeAndFlag,
    PackedMove, TTEntry, TTFlag,
};
use crate::score::{fits_score, score_to_tt, to_table_space, try_score_to_tt};

verus! {

/// The slot of `key` in a table of `len` slots: the high 64 bits of the
/// 128-bit product of the two.
pub open spec fn slot_of(len: nat, key: u64) -> int {
    (key as int * len as int) / 0x1_0000_0000_0000_0000
}

/// The slot of a key lies in the table, whatever the key.
pub proof fn lemma_slot_in_bounds(len: nat, key: u64)
    requires
        len > 0,
    ensures
        0 <= slot_of(len, key) < len,
{
    let k = key as int;
    let l = len as int;
    assert(0 <= k * l < 0x1_0000_0000_0000_0000 * l) by (nonlinear_arith)
        requires
            0 <= k < 0x1_0000_0000_0000_0000,
            l > 0,
    ;
    assert(0 <= (k * l) / 0x1_0000_0000_0000_0000 < l) by (nonlinear_arith)
        requires
            0 <= k * l < 0x1_0000_0000_0000_0000 * l,
    ;
}

/// The slot of `key` in a table of `len` slots.
#[must_use]
pub fn slot_index(len: usize, key: u64) -> (slot: usize)
    ensures
        slot as int == slot_of(len as nat, key),
        len > 0 ==> slot < len,
{
    let wide_key: u128 = key as u128;
    let wide_len: u128 = len as u128;
    assert(0 <= wide_key * wide_len <= 0xffff_ffff_ffff_ffff * 0xffff_ffff_ffff_ffff)
        by (nonlinear_arith)
        requires
            0 <= wide_key <= 0xffff_ffff_ffff_ffff,
            0 <= wide_len <= 0xffff_ffff_ffff_ffff,
    ;
    let product: u128 = wide_key * wide_len;
    assert(product >> 64 == product / 0x1_0000_0000_0000_0000) by (bit_vector);
    proof {
        assert(product as int == key as int * len as int);
        if len > 0 {
            lemma_slot_in_bounds(len as nat, key);
        } else {
            assert(key as int * len as int == 0) by (nonlinear_arith)
                requires
                    len == 0,
            ;
        }
    }
    (product >> 64) as usize
}

/// The entry that a store offers to its slot.
pub open spec fn candidate(
    epoch: u8,
    key: u64,
    mv: Option<MoveRecord>,
    score: i16,
    depth: u8,
    flag: TTFlag,
    ply: usize,
) -> TTEntry {
    TTEntry {
        key: (key % 0x1_0000) as u16,
        mv: PackedMove(packed_word(mv) as u16),
        score: to_table_space(score as int, ply as int) as i16,
        depth,
        age_flag: AgeAndFlag::packed(epoch, flag),
    }
}

/// Whether `offered` may take the slot that holds `existing`: its quality is
/// no lower.
pub open spec fn replaces(existing: TTEntry, offered: TTEntry) -> bool {
    offered.quality_of() >= existing.quality_of()
}

/// What a slot that held `existing` holds once `offered` took it. Key, score,
/// depth, generation and flag are those offered. The move is the one offered
/// if there is one or if the slot held another position; else the move that
/// the slot held stays.
pub open spec fn merged(existing: TTEntry, offered: TTEntry, has_move: bool) -> TTEntry {
    TTEntry {
        mv: if has_move || existing.key != offered.key {
            offered.mv
        } else {
            existing.mv
        },
        key: offered.key,
        score: offered.score,
        depth: offered.depth,
        age_flag: offered.age_flag,
    }
}

/// The entry of a slot that held `existing` after `offered` was stored to
/// it.
pub open spec fn settled(existing: TTEntry, offered: TTEntry, has_move: bool) -> TTEntry {
    if replaces(existing, offered) {
        merged(existing, offered, has_move)
    } else {
        existing
    }
}

/// The word of a slot after `offered` was stored to it.
pub open spec fn stored_word(word: u64, offered: TTEntry, has_move: bool) -> u64 {
    let existing = TTEntry::from_word(word);
    if replaces(existing, offered) {
        merged(existing, offered, has_move).to_word()
    } else {
        word
    }
}

/// The word of a slot after a store holds the entry that the store settles
/// on.
pub proof fn lemma_stored_word_holds_settled(word: u64, offered: TTEntry, has_move: bool)
    ensures
        TTEntry::from_word(stored_word(word, offered, has_move)) == settled(
            TTEntry::from_word(word),
            offered,
            has_move,
        ),
{
    lemma_entry_round_trip(merged(TTEntry::from_word(word), offered, has_move));
}

/// An entry after the sweep that ends a cycle of generations: its generation
/// is zero, and the rest is as it was.
pub open spec fn swept_entry(entry: TTEntry) -> TTEntry {
    TTEntry {
        mv: entry.mv,
        key: entry.key,
        score: entry.score,
        depth: entry.depth,
        age_flag: AgeAndFlag::packed(0, entry.age_flag.flag_of()),
    }
}

/// The word of a slot after the sweep.
pub open spec fn swept_word(word: u64) -> u64 {
    swept_entry(TTEntry::from_word(word)).to_word()
}

/// A table of `len` slots that were never written.
pub open spec fn zeroed(len: nat) -> Seq<u64> {
    Seq::new(len, |i: int| 0u64)
}

/// The words of a table after a store.
pub open spec fn stored(words: Seq<u64>, key: u64, offered: TTEntry, has_move: bool) -> Seq<u64> {
    let slot = slot_of(words.len(), key);
    words.update(slot, stored_word(words[slot], offered, has_move))
}

/// The entry that a probe of `key` finds.
pub open spec fn probed(words: Seq<u64>, key: u64) -> TTEntry {
    TTEntry::from_word(words[slot_of(words.len(), key)])
}

/// The words of a table after the sweep.
pub open spec fn swept(words: Seq<u64>) -> Seq<u64> {
    Seq::new(words.len(), |i: int| swept_word(words[i]))
}

/// The generation that follows `epoch`: the next one, and 1 after the last.
pub open spec fn next_epoch(epoch: u8) -> int {
    if epoch == EPOCH_MAX {
        1
    } else {
        epoch + 1
    }
}

/// The words of a table after a new generation began: swept where `epoch` was
/// the last of its cycle, and untouched else.
pub open spec fn aged(words: Seq<u64>, epoch: u8) -> Seq<u64> {
    if epoch == EPOCH_MAX {
        swept(words)
    } else {
        words
    }
}

/// Whether a search result can be stored: its move, if it has one, can be
/// packed, and its score in table space can be held in 16 bits.
pub open spec fn storable(mv: Option<MoveRecord>, score: i16, ply: usize) -> bool {
    (mv is Some ==> packable(mv.unwrap())) && fits_score(to_table_space(score as int, ply as int))
}

/// Builds the entry that a store at generation `epoch` offers to its slot, or
/// nothing where the search result cannot be stored.
pub fn offer(
    epoch: u8,
    key: u64,
    mv: Option<Move>,
    score: i16,
    depth: u8,
    flag: TTFlag,
    ply: usize,
) -> (offered: Option<TTEntry>)
    ensures
        offered == if storable(option_record(mv), score, ply) {
            Some(candidate(epoch, key, option_record(mv), score, depth, flag, ply))
        } else {
            None
        },
{
    assert(key & 0xffff == key % 0x1_0000) by (bit_vector);
    match (PackedMove::try_new(mv), try_score_to_tt(score, ply)) {
        (Some(packed), Some(table_score)) => Some(
            TTEntry {
                key: (key & 0xffff) as u16,
                mv: packed,
                score: table_score,
                depth,
                age_flag: AgeAndFlag::new(epoch, flag),
            },
        ),
        _ => None,
    }
}

/// Decides a store: the entry to write where `offered` may take the slot that
/// holds `existing`, and nothing where it may not.
pub fn merge(existing: TTEntry, offered: TTEntry, has_move: bool) -> (written: Option<TTEntry>)
    ensures
        written == if replaces(existing, offered) {
            Some(merged(existing, offered, has_move))
        } else {
            None
        },
{
    if offered.quality() >= existing.quality() {
        let positions_differ = existing.key != offered.key;
        let mut target = existing;
        target.key = offered.key;
        target.score = offered.score;
        target.depth = offered.depth;
        target.age_flag = offered.age_flag;
        if has_move || positions_differ {
            target.mv = offered.mv;
        }
        Some(target)
    } else {
        None
    }
}

/// The word that a store of `offered` leaves in a slot that held `word`.
pub fn store_word(word: u64, offered: TTEntry, has_move: bool) -> (after: u64)
    ensures
        after == stored_word(word, offered, has_move),
{
    match merge(TTEntry::from(word), offered, has_move) {
        Some(written) => u64::from(written),
        None => word,
    }
}

/// The word that the sweep leaves in a slot that held `word`.
pub fn sweep_word(word: u64) -> (after: u64)
    ensures
        after == swept_word(word),
{
    let mut entry = TTEntry::from(word);
    entry.age_flag = AgeAndFlag::new(0, entry.age_flag.flag());
    u64::from(entry)
}

/// The number of slots that a budget of `mb` megabytes buys.
pub open spec fn slots_for(mb: u32) -> nat {
    (mb as int * SLOTS_PER_MEGABYTE as int) as nat
}

/// The number of slots that a budget of `mb` megabytes buys.
pub fn slot_count(mb: u32) -> (slots: usize)
    requires
        slots_for(mb) <= usize::MAX,
    ensures
        slots as nat == slots_for(mb),
{
    (mb as u64 * SLOTS_PER_MEGABYTE) as usize
}

/// The transposition table.
pub struct TT {
    /// One word for each slot.
    pub entries: Vec<u64>,
    /// The generation that stamps what is stored, from 0 to 63.
    pub epoch: u8,
}

impl View for TT {
    type V = Seq<TTEntry>;

    /// The entries that the slots hold.
    open spec fn view(&self) -> Seq<TTEntry> {
        Seq::new(self.entries@.len(), |i: int| TTEntry::from_word(self.entries@[i]))
    }
}

impl TT {
    /// The generation fits the six bits that an entry has for it.
    pub open spec fn wf(&self) -> bool {
        self.epoch <= EPOCH_MAX
    }

    /// A table of as many slots as fit `mb` megabytes, none of them written,
    /// at generation zero.
    pub fn new(mb: u32) -> (table: Self)
        requires
            slots_for(mb) <= usize::MAX,
        ensures
            table.entries@ == zeroed(slots_for(mb)),
            table@ == Seq::new(slots_for(mb), |i: int| TTEntry::empty()),
            mb > 0 ==> table@.len() > 0,
            table.epoch == 0,
            table.wf(),
    {
        let size: usize = slot_count(mb);
        let mut entries: Vec<u64> = Vec::with_capacity(size);
        let mut filled: usize = 0;
        while filled < size
            invariant
                filled <= size,
                entries@ == zeroed(filled as nat),
            decreases size - filled,
        {
            entries.push(0);
            filled += 1;
            assert(entries@ =~= zeroed(filled as nat));
        }
        let table = Self { entries, epoch: 0 };
        proof {
            lemma_zero_word_is_empty();
            assert(table@ =~= Seq::new(slots_for(mb), |i: int| TTEntry::empty()));
        }
        table
    }

    /// The slot of `key`.
    #[must_use]
    pub fn index(&self, key: u64) -> (slot: usize)
        ensures
            slot as int == slot_of(self.entries@.len(), key),
            self.entries@.len() > 0 ==> slot < self.entries@.len(),
    {
        slot_index(self.entries.len(), key)
    }

    /// The entry in the slot of `key`, whatever position wrote it: the caller
    /// compares the key fragment.
    #[must_use]
    pub fn probe(&self, key: u64) -> (entry: TTEntry)
        requires
            self@.len() > 0,
        ensures
            entry == probed(self.entries@, key),
            entry == self@[slot_of(self@.len(), key)],
    {
        TTEntry::from(self.entries[self.index(key)])
    }

    /// Starts a new generation. After generation 63 every slot is swept to
    /// generation zero first, and the new generation is 1.
    pub fn age(&mut self)
        requires
            old(self).wf(),
        ensures
            final(self).wf(),
            final(self).epoch == next_epoch(old(self).epoch),
            final(self).entries@ == aged(old(self).entries@, old(self).epoch),
            final(self)@ == if old(self).epoch == EPOCH_MAX {
                Seq::new(old(self)@.len(), |i: int| swept_entry(old(self)@[i]))
            } else {
                old(self)@
            },
    {
        if self.epoch == EPOCH_MAX {
            self.epoch = 0;
            let ghost before = self.entries@;
            let len: usize = self.entries.len();
            let mut slot: usize = 0;
            while slot < len
                invariant
                    slot <= len,
                    self.epoch == 0,
                    self.entries@.len() == len,
                    before.len() == len,
                    forall|i: int| 0 <= i < slot ==> self.entries@[i] == swept_word(before[i]),
                    forall|i: int| slot <= i < len ==> self.entries@[i] == before[i],
                decreases len - slot,
            {
                let word: u64 = self.entries[slot];
                self.entries.set(slot, sweep_word(word));
                slot += 1;
            }
            assert(self.entries@ =~= swept(before));
            proof {
                assert forall|i: int| 0 <= i < len implies #[trigger] self@[i] == swept_entry(
                    old(self)@[i],
                ) by {
                    lemma_entry_round_trip(swept_entry(TTEntry::from_word(before[i])));
                }
                assert(self@ =~= Seq::new(old(self)@.len(), |i: int| swept_entry(old(self)@[i])));
            }
        }
        self.epoch += 1;
    }

    /// Offers `entry` to the slot of `key`.
    fn offer_to_slot(&mut self, key: u64, entry: TTEntry, has_move: bool)
        requires
            old(self)@.len() > 0,
        ensures
            final(self).epoch == old(self).epoch,
            final(self).entries@ == stored(old(self).entries@, key, entry, has_move),
            final(self)@ == old(self)@.update(
                slot_of(old(self)@.len(), key),
                settled(old(self)@[slot_of(old(self)@.len(), key)], entry, has_move),
            ),
    {
        let target_index: usize = self.index(key);
        let word: u64 = self.entries[target_index];
        self.entries.set(target_index, store_word(word, entry, has_move));
        proof {
            lemma_stored_word_holds_settled(word, entry, has_move);
            assert(self@ =~= old(self)@.update(
                target_index as int,
                settled(old(self)@[target_index as int], entry, has_move),
            ));
        }
    }

    /// Offers a search result to the slot of `key`. The slot takes it unless
    /// it holds an entry of higher quality: then nothing changes. Where the
    /// slot takes it, key, score, depth, generation and flag are replaced,
    /// and the move too unless the result has none and the slot held the
    /// same key.
    pub fn store(
        &mut self,
        key: u64,
        mv: Option<Move>,
        score: i16,
        depth: u8,
        flag: TTFlag,
        ply: usize,
    )
        requires
            old(self)@.len() > 0,
            storable(option_record(mv), score, ply),
        ensures
            final(self).epoch == old(self).epoch,
            final(self).entries@ == stored(
                old(self).entries@,
                key,
                candidate(old(self).epoch, key, option_record(mv), score, depth, flag, ply),
                mv is Some,
            ),
            final(self)@ == old(self)@.update(
                slot_of(old(self)@.len(), key),
                settled(
                    old(self)@[slot_of(old(self)@.len(), key)],
                    candidate(old(self).epoch, key, option_record(mv), score, depth, flag, ply),
                    mv is Some,
                ),
            ),
    {
        assert(key & 0xffff == key % 0x1_0000) by (bit_vector);
        let entry = TTEntry {
            key: (key & 0xffff) as u16,
            mv: PackedMove::new(mv),
            score: score_to_tt(score, ply),
            depth,
            age_flag: AgeAndFlag::new(self.epoch, flag),
        };
        self.offer_to_slot(key, entry, mv.is_some());
    }

    /// Offers a search result to the slot of `key` if it can be stored and
    /// the table has a slot, and says whether it was offered. Where it was
    /// not, the table is unchanged.
    pub fn try_store(
        &mut self,
        key: u64,
        mv: Option<Move>,
        score: i16,
        depth: u8,
        flag: TTFlag,
        ply: usize,
    ) -> (offered: bool)
        ensures
            final(self).epoch == old(self).epoch,
            offered == (old(self)@.len() > 0 && storable(option_record(mv), score, ply)),
            offered ==> final(self).entries@ == stored(
                old(self).entries@,
                key,
                candidate(old(self).epoch, key, option_record(mv), score, depth, flag, ply),
                mv is Some,
            ),
            offered ==> final(self)@ == old(self)@.update(
                slot_of(old(self)@.len(), key),
                settled(
                    old(self)@[slot_of(old(self)@.len(), key)],
                    candidate(old(self).epoch, key, option_record(mv), score, depth, flag, ply),
                    mv is Some,
                ),
            ),
            !offered ==> final(self).entries@ == old(self).entries@,
    {
        if self.entries.len() == 0 {
            return false;
        }
        match offer(self.epoch, key, mv, score, depth, flag, ply) {
            Some(entry) => {
                self.offer_to_slot(key, entry, mv.is_some());
                true
            },
            None => false,
        }
    }

    /// Hints that the slot of `key` is about to be read. Safe code has no
    /// such hint to give, so the table is left alone.
    pub fn prefetch(&self, key: u64) {
        let _slot: usize = self.index(key);
    }

    /// Clears every slot.
    pub fn reset(&mut self)
        ensures
            final(self).epoch == old(self).epoch,
            final(self).entries@ == zeroed(old(self).entries@.len()),
            final(self)@ == Seq::new(old(self)@.len(), |i: int| TTEntry::empty()),
    {
        let len: usize = self.entries.len();
        let mut slot: usize = 0;
        while slot < len
            invariant
                slot <= len,
                self.epoch == old(self).epoch,
                self.entries@.len() == len,
                forall|i: int| 0 <= i < slot ==> self.entries@[i] == 0,
            decreases len - slot,
        {
            self.entries.set(slot, 0);
            slot += 1;
        }
        assert(self.entries@ =~= zeroed(len as nat));
        proof {
            lemma_zero_word_is_empty();
            assert(self@ =~= Seq::new(len as nat, |i: int| TTEntry::empty()));
        }
    }
}

} // verus!
