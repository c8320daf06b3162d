//! What holds of the table across several operations: a probe after a
//! reset, a probe after a store, two stores to one slot, and the generations
//! as they count up and wrap.

use vstd::prelude::*;
use crate::chess::MoveRecord;
use crate::definitions::{EPOCH_MAX, NOMOVE};
use crate::packed::{
    encode_move, lemma_age_flag_round_trip, lemma_entry_round_trip, lemma_move_round_trip,
    lemma_zero_word_is_empty, packable, PackedMove, TTEntry, TTFlag,
};
use crate::score::{fits_score, to_table_space};
use crate::table::{
    aged, candidate, lemma_slot_in_bounds, merged, next_epoch, probed, replaces, stored,
    swept_entry, swept_word, zeroed,
};

verus! {

/// After a reset a probe of any key finds the empty entry: no move, zero
/// score and depth, generation zero and no bound.
pub proof fn lemma_probe_after_reset(len: nat, key: u64)
    requires
        len > 0,
    ensures
        probed(zeroed(len), key) == TTEntry::empty(),
        probed(zeroed(len), key).score == 0,
        probed(zeroed(len), key).depth == 0,
        probed(zeroed(len), key).age_flag.age_of() == 0,
        probed(zeroed(len), key).age_flag.flag_of() == TTFlag::NoBound,
        probed(zeroed(len), key).mv == PackedMove(NOMOVE),
{
    lemma_slot_in_bounds(len, key);
    lemma_zero_word_is_empty();
}

/// A store that the slot takes, with a move or for another position than the
/// slot held, is what the next probe of the same key finds.
pub proof fn lemma_probe_after_store(
    words: Seq<u64>,
    key: u64,
    offered: TTEntry,
    has_move: bool,
)
    requires
        words.len() > 0,
        replaces(probed(words, key), offered),
        has_move || probed(words, key).key != offered.key,
    ensures
        probed(stored(words, key, offered, has_move), key) == offered,
{
    lemma_slot_in_bounds(words.len(), key);
    lemma_entry_round_trip(offered);
    assert(merged(probed(words, key), offered, has_move) == offered);
}

/// A store of lower quality than what the slot holds changes nothing.
pub proof fn lemma_lower_quality_store_changes_nothing(
    words: Seq<u64>,
    key: u64,
    offered: TTEntry,
    has_move: bool,
)
    requires
        words.len() > 0,
        offered.quality_of() < probed(words, key).quality_of(),
    ensures
        stored(words, key, offered, has_move) == words,
{
    lemma_slot_in_bounds(words.len(), key);
    assert(stored(words, key, offered, has_move) =~= words);
}

/// A store without a move, taken by a slot that holds the same position,
/// keeps the move that the slot held and brings its own score, depth,
/// generation and flag.
pub proof fn lemma_bound_update_keeps_move(words: Seq<u64>, key: u64, offered: TTEntry)
    requires
        words.len() > 0,
        replaces(probed(words, key), offered),
        offered.key == probed(words, key).key,
    ensures
        probed(stored(words, key, offered, false), key).mv == probed(words, key).mv,
        probed(stored(words, key, offered, false), key).key == offered.key,
        probed(stored(words, key, offered, false), key).score == offered.score,
        probed(stored(words, key, offered, false), key).depth == offered.depth,
        probed(stored(words, key, offered, false), key).age_flag == offered.age_flag,
{
    lemma_slot_in_bounds(words.len(), key);
    lemma_entry_round_trip(merged(probed(words, key), offered, false));
}

/// Two stores for one key, the first with a move and the second without, each
/// taken by the slot: the next probe finds the move of the first with the
/// score, depth and flag of the second.
pub proof fn lemma_move_survives_bound_update(
    words: Seq<u64>,
    key: u64,
    mv: MoveRecord,
    first_epoch: u8,
    first_score: i16,
    first_depth: u8,
    first_flag: TTFlag,
    first_ply: usize,
    second_epoch: u8,
    second_score: i16,
    second_depth: u8,
    second_flag: TTFlag,
    second_ply: usize,
)
    requires
        words.len() > 0,
        packable(mv),
        first_epoch <= EPOCH_MAX,
        second_epoch <= EPOCH_MAX,
        fits_score(to_table_space(second_score as int, second_ply as int)),
        replaces(
            probed(words, key),
            candidate(first_epoch, key, Some(mv), first_score, first_depth, first_flag, first_ply),
        ),
        second_epoch * 2 + second_depth >= first_epoch * 2 + first_depth,
    ensures
        ({
            let first = candidate(
                first_epoch,
                key,
                Some(mv),
                first_score,
                first_depth,
                first_flag,
                first_ply,
            );
            let second = candidate(
                second_epoch,
                key,
                None,
                second_score,
                second_depth,
                second_flag,
                second_ply,
            );
            let found = probed(stored(stored(words, key, first, true), key, second, false), key);
            &&& found.mv.0 == encode_move(mv)
            &&& found.mv.record_of() == mv
            &&& found.score == to_table_space(second_score as int, second_ply as int)
            &&& found.depth == second_depth
            &&& found.age_flag.flag_of() == second_flag
            &&& found.age_flag.age_of() == second_epoch
        }),
{
    let first = candidate(first_epoch, key, Some(mv), first_score, first_depth, first_flag, first_ply);
    let second = candidate(
        second_epoch,
        key,
        None,
        second_score,
        second_depth,
        second_flag,
        second_ply,
    );
    let after_first = stored(words, key, first, true);
    lemma_slot_in_bounds(words.len(), key);
    assert(after_first.len() == words.len());
    lemma_move_round_trip(mv);
    lemma_age_flag_round_trip(first_epoch, first_flag);
    lemma_age_flag_round_trip(second_epoch, second_flag);
    lemma_probe_after_store(words, key, first, true);
    lemma_bound_update_keeps_move(after_first, key, second);
}

/// The generation that a table reaches from generation zero by the given
/// number of increments.
pub open spec fn epoch_after(increments: nat) -> int
    decreases increments,
{
    if increments == 0 {
        0
    } else {
        next_epoch(epoch_after((increments - 1) as nat) as u8)
    }
}

/// From zero, up to 63 increments count the generation up one by one; ever
/// after it stays between 1 and 63, and the 64th increment gives 1.
pub proof fn lemma_epoch_cycle(increments: nat)
    ensures
        0 <= epoch_after(increments) <= EPOCH_MAX,
        increments <= 63 ==> epoch_after(increments) == increments,
        increments > 0 ==> epoch_after(increments) >= 1,
        increments == 64 ==> epoch_after(increments) == 1,
    decreases increments,
{
    if increments > 0 {
        lemma_epoch_cycle((increments - 1) as nat);
    }
}

/// The increment after generation 63 leaves every slot at generation zero,
/// with its flag, move, key, score and depth as they were, and the table at
/// generation 1.
pub proof fn lemma_wrap_resets_every_age(words: Seq<u64>, slot: int)
    requires
        0 <= slot < words.len(),
    ensures
        next_epoch(EPOCH_MAX) == 1,
        aged(words, EPOCH_MAX).len() == words.len(),
        TTEntry::from_word(aged(words, EPOCH_MAX)[slot]).age_flag.age_of() == 0,
        TTEntry::from_word(aged(words, EPOCH_MAX)[slot]).age_flag.flag_of() == TTEntry::from_word(
            words[slot],
        ).age_flag.flag_of(),
        TTEntry::from_word(aged(words, EPOCH_MAX)[slot]).mv == TTEntry::from_word(words[slot]).mv,
        TTEntry::from_word(aged(words, EPOCH_MAX)[slot]).key == TTEntry::from_word(words[slot]).key,
        TTEntry::from_word(aged(words, EPOCH_MAX)[slot]).score == TTEntry::from_word(
            words[slot],
        ).score,
        TTEntry::from_word(aged(words, EPOCH_MAX)[slot]).depth == TTEntry::from_word(
            words[slot],
        ).depth,
{
    lemma_sweep_resets_age(words[slot]);
}

/// The sweep sets the generation of an entry to zero and keeps its flag,
/// move, key, score and depth.
pub proof fn lemma_sweep_resets_age(word: u64)
    ensures
        TTEntry::from_word(swept_word(word)).age_flag.age_of() == 0,
        TTEntry::from_word(swept_word(word)).age_flag.flag_of() == TTEntry::from_word(
            word,
        ).age_flag.flag_of(),
        TTEntry::from_word(swept_word(word)).mv == TTEntry::from_word(word).mv,
        TTEntry::from_word(swept_word(word)).key == TTEntry::from_word(word).key,
        TTEntry::from_word(swept_word(word)).score == TTEntry::from_word(word).score,
        TTEntry::from_word(swept_word(word)).depth == TTEntry::from_word(word).depth,
{
    let entry = TTEntry::from_word(word);
    lemma_entry_round_trip(swept_entry(entry));
    lemma_age_flag_round_trip(0, entry.age_flag.flag_of());
}

} // verus!
