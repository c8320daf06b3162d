use cozy_chess::{Move, Piece, Square};
use transposition::packed::{AgeAndFlag, PackedMove, TTEntry, TTFlag};
use transposition::table::{merge, offer, slot_index, store_word, sweep_word, TT};
use transposition::NOMOVE;

fn a1_a2() -> Move {
    Move {
        from: Square::A1,
        to: Square::A2,
        promotion: None,
    }
}

#[test]
fn tt_reset() {
    let mut tt = TT::new(1);
    let mv = Move {
        from: Square::A1,
        to: Square::A2,
        promotion: None,
    };
    tt.store(5, Some(mv), 1, 3, TTFlag::UpperBound, 22);
    assert_eq!(tt.probe(5).score, 1);

    tt.reset();
    tt.entries.iter().for_each(|e| {
        let e = TTEntry::from(*e);

        assert_eq!(e.score, 0);
        assert_eq!(e.age_flag, AgeAndFlag(0));
        assert_eq!(e.depth, 0);
        assert_eq!(e.key, 0);
        assert_eq!(e.mv, PackedMove(NOMOVE));
    });
}

#[test]
fn one_megabyte_end_to_end() {
    let mut tt = TT::new(1);
    assert_eq!(tt.entries.len(), 131072);
    assert_eq!(tt.epoch, 0);
    let mv = a1_a2();
    tt.store(5, Some(mv), 1, 3, TTFlag::UpperBound, 22);
    let found = tt.probe(5);
    assert_eq!(found.score, 1);
    assert_eq!(found.mv.unpack(), mv);
    assert_eq!(found.depth, 3);
    assert_eq!(found.age_flag.flag(), TTFlag::UpperBound);
    assert_eq!(found.age_flag.age(), 0);
    assert_eq!(found.key, 5);
}

#[test]
fn table_sizes() {
    assert_eq!(TT::new(0).entries.len(), 0);
    assert_eq!(TT::new(2).entries.len(), 262144);
    assert!(TT::new(1).entries.iter().all(|word| *word == 0));
}

#[test]
fn index_is_in_bounds() {
    let tt = TT::new(1);
    let len = tt.entries.len();
    let mut key: u64 = 0x9e37_79b9_7f4a_7c15;
    for _ in 0..10000 {
        assert!(tt.index(key) < len);
        key = key.wrapping_mul(0x2545_f491_4f6c_dd1d).wrapping_add(1);
    }
    assert_eq!(tt.index(0), 0);
    assert_eq!(tt.index(5), 0);
    assert_eq!(tt.index(u64::MAX), len - 1);
    assert_eq!(tt.index(1 << 63), len / 2);
    assert_eq!(tt.index(1 << 47), 1);
}

#[test]
fn slot_index_values() {
    assert_eq!(slot_index(0, u64::MAX), 0);
    assert_eq!(slot_index(1, u64::MAX), 0);
    assert_eq!(slot_index(3, u64::MAX), 2);
    assert_eq!(slot_index(3, 0x5555_5555_5555_5555), 0);
    assert_eq!(slot_index(3, 0x5555_5555_5555_5556), 1);
    assert_eq!(slot_index(10, 1 << 63), 5);
    assert_eq!(slot_index(usize::MAX, u64::MAX), usize::MAX - 1);
    for len in 1..200usize {
        for key in [0u64, 1, 12345, u64::MAX / 3, u64::MAX - 1, u64::MAX] {
            assert!(slot_index(len, key) < len);
        }
    }
}

#[test]
fn probe_of_a_fresh_table_is_empty() {
    let tt = TT::new(1);
    for key in [0u64, 5, 1 << 40, u64::MAX] {
        assert_eq!(tt.probe(key), TTEntry::from(0));
    }
}

#[test]
fn reset_clears_every_slot() {
    let mut tt = TT::new(1);
    let keys = [0u64, 5, 1 << 47, 1 << 60, u64::MAX];
    for key in keys {
        tt.store(key, Some(a1_a2()), 17, 9, TTFlag::Exact, 3);
    }
    tt.age();
    tt.reset();
    assert_eq!(tt.epoch, 1);
    assert_eq!(tt.entries.len(), 131072);
    for key in keys {
        let found = tt.probe(key);
        assert_eq!(found.score, 0);
        assert_eq!(found.depth, 0);
        assert_eq!(found.age_flag.age(), 0);
        assert_eq!(found.age_flag.flag(), TTFlag::NoBound);
        assert_eq!(found.mv, PackedMove(NOMOVE));
    }
}

#[test]
fn bound_update_keeps_the_move() {
    let mut tt = TT::new(1);
    let mv = Move {
        from: Square::E7,
        to: Square::E8,
        promotion: Some(Piece::Queen),
    };
    tt.store(77, Some(mv), 120, 4, TTFlag::Exact, 2);
    tt.store(77, None, -15, 6, TTFlag::UpperBound, 2);
    let found = tt.probe(77);
    assert_eq!(found.mv.unpack(), mv);
    assert_eq!(found.score, -15);
    assert_eq!(found.depth, 6);
    assert_eq!(found.age_flag.flag(), TTFlag::UpperBound);
    assert_eq!(found.key, 77);

    tt.store(77, None, 3, 6, TTFlag::LowerBound, 0);
    let found = tt.probe(77);
    assert_eq!(found.mv.unpack(), mv);
    assert_eq!(found.score, 3);
    assert_eq!(found.age_flag.flag(), TTFlag::LowerBound);
}

#[test]
fn another_position_takes_the_move_away() {
    let mut tt = TT::new(1);
    tt.store(77, Some(a1_a2()), 120, 4, TTFlag::Exact, 2);
    assert_eq!(tt.index(77), tt.index(78));
    tt.store(78, None, 9, 4, TTFlag::LowerBound, 2);
    let found = tt.probe(77);
    assert_eq!(found.key, 78);
    assert_eq!(found.mv, PackedMove(NOMOVE));
    assert_eq!(found.score, 9);
}

#[test]
fn lower_quality_does_not_replace() {
    let mut tt = TT::new(1);
    tt.store(5, Some(a1_a2()), 1, 3, TTFlag::UpperBound, 22);
    let before = tt.entries.clone();
    let other = Move {
        from: Square::H7,
        to: Square::H8,
        promotion: Some(Piece::Rook),
    };
    tt.store(5, Some(other), 50, 2, TTFlag::Exact, 0);
    assert_eq!(tt.entries, before);
    tt.store(6, None, 50, 0, TTFlag::Exact, 0);
    assert_eq!(tt.entries, before);

    tt.age();
    tt.store(5, Some(other), 50, 2, TTFlag::Exact, 0);
    let found = tt.probe(5);
    assert_eq!(found.mv.unpack(), other);
    assert_eq!(found.score, 50);
    assert_eq!(found.depth, 2);
    assert_eq!(found.age_flag.age(), 1);
}

#[test]
fn equal_quality_replaces() {
    let mut tt = TT::new(1);
    tt.store(5, Some(a1_a2()), 1, 3, TTFlag::UpperBound, 22);
    tt.store(5, None, 2, 3, TTFlag::Exact, 22);
    assert_eq!(tt.probe(5).score, 2);
    assert_eq!(tt.probe(5).age_flag.flag(), TTFlag::Exact);
}

#[test]
fn store_normalises_mate_scores() {
    let mut tt = TT::new(1);
    tt.store(9, None, 30000, 1, TTFlag::Exact, 7);
    assert_eq!(tt.probe(9).score, 30007);
    tt.store(1 << 50, None, -30000, 1, TTFlag::Exact, 7);
    assert_eq!(tt.probe(1 << 50).score, -30007);
}

#[test]
fn store_keeps_the_low_key_bits() {
    let mut tt = TT::new(1);
    let key: u64 = 0xdead_beef_cafe_f00d;
    tt.store(key, None, 0, 1, TTFlag::Exact, 0);
    assert_eq!(tt.probe(key).key, 0xf00d);
    let slot = tt.index(key);
    let written = tt.entries.iter().filter(|word| **word != 0).count();
    assert_eq!(written, 1);
    assert_ne!(tt.entries[slot], 0);
}

#[test]
fn epoch_wraps_after_a_sweep() {
    let mut tt = TT::new(1);
    tt.store(5, Some(a1_a2()), 1, 3, TTFlag::UpperBound, 22);
    for expected in 1..=63u8 {
        tt.age();
        assert_eq!(tt.epoch, expected);
    }
    tt.store(1 << 60, None, 44, 8, TTFlag::LowerBound, 0);
    assert_eq!(tt.probe(1 << 60).age_flag.age(), 63);
    assert_eq!(tt.probe(5).age_flag.age(), 0);

    tt.age();
    assert_eq!(tt.epoch, 1);
    let late = tt.probe(1 << 60);
    assert_eq!(late.age_flag.age(), 0);
    assert_eq!(late.age_flag.flag(), TTFlag::LowerBound);
    assert_eq!(late.score, 44);
    assert_eq!(late.depth, 8);
    let early = tt.probe(5);
    assert_eq!(early.age_flag.age(), 0);
    assert_eq!(early.age_flag.flag(), TTFlag::UpperBound);
    assert_eq!(early.mv.unpack(), a1_a2());
    assert_eq!(early.score, 1);
    assert_eq!(early.depth, 3);
}

#[test]
fn ageing_without_a_sweep_leaves_the_slots() {
    let mut tt = TT::new(1);
    tt.age();
    tt.store(5, Some(a1_a2()), 1, 3, TTFlag::UpperBound, 22);
    let before = tt.entries.clone();
    tt.age();
    assert_eq!(tt.epoch, 2);
    assert_eq!(tt.entries, before);
    assert_eq!(tt.probe(5).age_flag.age(), 1);
}

#[test]
fn prefetch_changes_nothing() {
    let mut tt = TT::new(1);
    tt.store(5, Some(a1_a2()), 1, 3, TTFlag::UpperBound, 22);
    let before = tt.entries.clone();
    tt.prefetch(5);
    tt.prefetch(u64::MAX);
    assert_eq!(tt.entries, before);
    assert_eq!(tt.epoch, 0);
    TT::new(0).prefetch(5);
}

#[test]
fn try_store_refuses_what_cannot_be_stored() {
    let mut tt = TT::new(1);
    let pawn = Move {
        from: Square::A7,
        to: Square::A8,
        promotion: Some(Piece::Pawn),
    };
    assert!(!tt.try_store(5, Some(pawn), 1, 3, TTFlag::Exact, 0));
    assert!(!tt.try_store(5, None, 32767, 3, TTFlag::Exact, 1));
    assert!(tt.entries.iter().all(|word| *word == 0));
    assert!(tt.try_store(5, Some(a1_a2()), 1, 3, TTFlag::UpperBound, 22));
    assert_eq!(tt.probe(5).score, 1);
    assert_eq!(tt.probe(5).mv.unpack(), a1_a2());

    let mut none = TT::new(0);
    assert!(!none.try_store(5, Some(a1_a2()), 1, 3, TTFlag::UpperBound, 22));
    assert!(none.entries.is_empty());
}

#[test]
fn offered_entry() {
    let mv = Move {
        from: Square::B7,
        to: Square::A2,
        promotion: Some(Piece::Knight),
    };
    let entry = offer(9, 0x1_0005, Some(mv), 30000, 12, TTFlag::LowerBound, 3).unwrap();
    assert_eq!(entry.key, 5);
    assert_eq!(entry.mv, PackedMove(16945));
    assert_eq!(entry.score, 30003);
    assert_eq!(entry.depth, 12);
    assert_eq!(entry.age_flag, AgeAndFlag(9 * 4 + 2));
    assert_eq!(offer(9, 5, None, 32767, 12, TTFlag::LowerBound, 3), None);
}

#[test]
fn merge_decides_by_quality() {
    let held = TTEntry {
        key: 5,
        mv: PackedMove(512),
        score: 10,
        depth: 6,
        age_flag: AgeAndFlag::new(2, TTFlag::Exact),
    };
    let weaker = TTEntry {
        key: 5,
        mv: PackedMove(NOMOVE),
        score: 20,
        depth: 9,
        age_flag: AgeAndFlag::new(0, TTFlag::UpperBound),
    };
    assert_eq!(merge(held, weaker, false), None);
    assert_eq!(store_word(u64::from(held), weaker, false), u64::from(held));

    let equal = TTEntry { depth: 10, ..weaker };
    let kept = TTEntry { mv: held.mv, ..equal };
    assert_eq!(merge(held, equal, false), Some(kept));
    assert_eq!(merge(held, equal, true), Some(equal));
    assert_eq!(store_word(u64::from(held), equal, false), u64::from(kept));

    let elsewhere = TTEntry { key: 6, ..equal };
    assert_eq!(merge(held, elsewhere, false), Some(elsewhere));
}

#[test]
fn sweep_word_resets_the_age_only() {
    let entry = TTEntry {
        key: 0xbeef,
        mv: PackedMove(0x7abc),
        score: -321,
        depth: 40,
        age_flag: AgeAndFlag::new(63, TTFlag::LowerBound),
    };
    let swept = TTEntry::from(sweep_word(u64::from(entry)));
    assert_eq!(swept, TTEntry { age_flag: AgeAndFlag::new(0, TTFlag::LowerBound), ..entry });
    assert_eq!(sweep_word(0), 0);
}
