//! The packed formats: a move in 16 bits, a generation and a bound flag in
//! one byte, and a whole entry in one 64-bit word.
//!
//! | bits of the word | field                 |
//! |------------------|-----------------------|
//! | 0..16            | key fragment          |
//! | 16..32           | packed move           |
//! | 32..48           | score, two's complement |
//! | 48..56           | depth                 |
//! | 56..64           | age and flag          |

use vstd::prelude::*;
use vstd::std_specs::convert::FromSpecImpl;
use cozy_chess::Move;
use crate::chess::{build_move, move_record, option_record, read_move, MoveRecord, PieceKind};
use crate::definitions::NOMOVE;

verus! {

/// The kind of bound that a stored score is.
#[derive(Clone, Copy, Debug, PartialEq, Eq, Structural)]
pub enum TTFlag {
    /// No bound: the flag of a slot that was never written.
    NoBound,
    /// The score is exact.
    Exact,
    /// The score is a lower bound (the search failed high).
    LowerBound,
    /// The score is an upper bound (the search failed low).
    UpperBound,
}

/// The two bits that stand for a flag.
pub open spec fn flag_bits(flag: TTFlag) -> int {
    match flag {
        TTFlag::NoBound => 0,
        TTFlag::Exact => 1,
        TTFlag::LowerBound => 2,
        TTFlag::UpperBound => 3,
    }
}

/// The flag that two bits stand for.
pub open spec fn bits_flag(bits: int) -> TTFlag {
    if bits == 0 {
        TTFlag::NoBound
    } else if bits == 1 {
        TTFlag::Exact
    } else if bits == 2 {
        TTFlag::LowerBound
    } else {
        TTFlag::UpperBound
    }
}

/// The three-bit tag of a promotion: a flag bit, set where the move promotes,
/// above two bits for the piece.
pub open spec fn promotion_tag(promotion: Option<PieceKind>) -> int {
    match promotion {
        Some(PieceKind::Knight) => 4,
        Some(PieceKind::Bishop) => 5,
        Some(PieceKind::Rook) => 6,
        Some(PieceKind::Queen) => 7,
        _ => 0,
    }
}

/// The promotion that a three-bit tag stands for: none where the flag bit is
/// clear.
pub open spec fn tag_promotion(tag: int) -> Option<PieceKind> {
    if tag == 4 {
        Some(PieceKind::Knight)
    } else if tag == 5 {
        Some(PieceKind::Bishop)
    } else if tag == 6 {
        Some(PieceKind::Rook)
    } else if tag == 7 {
        Some(PieceKind::Queen)
    } else {
        None
    }
}

/// A move can be packed where its squares lie on the board and it promotes,
/// if at all, to a knight, bishop, rook or queen.
pub open spec fn packable(rec: MoveRecord) -> bool {
    rec.on_board() && rec.promotion != Some(PieceKind::Pawn) && rec.promotion != Some(
        PieceKind::King,
    )
}

/// The 16-bit word of a move: six bits for each square, then the promotion
/// tag.
pub open spec fn encode_move(rec: MoveRecord) -> int {
    rec.from + rec.to * 64 + promotion_tag(rec.promotion) * 4096
}

/// The move that a 16-bit word holds. The top bit is not read.
pub open spec fn decode_move(word: u16) -> MoveRecord {
    MoveRecord {
        from: (word % 64) as u8,
        to: (word / 64 % 64) as u8,
        promotion: tag_promotion((word / 4096 % 8) as int),
    }
}

/// The word that `PackedMove::new` gives for a move, or for none.
pub open spec fn packed_word(rec: Option<MoveRecord>) -> int {
    match rec {
        None => NOMOVE as int,
        Some(r) => encode_move(r),
    }
}

/// Decoding the word of a packable move gives the move back.
pub proof fn lemma_move_round_trip(rec: MoveRecord)
    requires
        packable(rec),
    ensures
        0 <= encode_move(rec) < 0x8000,
        decode_move(encode_move(rec) as u16) == rec,
{
}

/// A move packed into 16 bits.
#[derive(Clone, Copy, Debug, PartialEq, Eq, Structural)]
pub struct PackedMove(pub u16);

impl PackedMove {
    /// The move held, as a plain record.
    pub open spec fn record_of(self) -> MoveRecord {
        decode_move(self.0)
    }

    /// Packs a move, or the absence of one.
    pub fn new(mv: Option<Move>) -> (packed: Self)
        requires
            mv is Some ==> packable(move_record(mv->0)),
        ensures
            packed.0 as int == packed_word(option_record(mv)),
    {
        match mv {
            None => Self(NOMOVE),
            Some(m) => Self::pack(read_move(&m)),
        }
    }

    /// Packs a move, or the absence of one, and gives nothing for a move
    /// that cannot be packed.
    pub fn try_new(mv: Option<Move>) -> (packed: Option<Self>)
        ensures
            packed is Some <==> (mv is Some ==> packable(move_record(mv->0))),
            packed is Some ==> packed.unwrap().0 as int == packed_word(option_record(mv)),
    {
        match mv {
            None => Some(Self(NOMOVE)),
            Some(m) => {
                let rec = read_move(&m);
                match rec.promotion {
                    Some(PieceKind::Pawn) => None,
                    Some(PieceKind::King) => None,
                    _ => Some(Self::pack(rec)),
                }
            },
        }
    }

    /// Packs a move given as a plain record.
    pub fn pack(rec: MoveRecord) -> (packed: Self)
        requires
            packable(rec),
        ensures
            packed.0 as int == encode_move(rec),
    {
        let from: u16 = rec.from as u16;
        let to: u16 = rec.to as u16;
        let promotion: u16 = match rec.promotion {
            Some(PieceKind::Knight) => 0b100,
            Some(PieceKind::Bishop) => 0b101,
            Some(PieceKind::Rook) => 0b110,
            Some(PieceKind::Queen) => 0b111,
            _ => 0b000,
        };
        assert((from | (to << 6) | (promotion << 12)) == from + to * 64 + promotion * 4096)
            by (bit_vector)
            requires
                from < 64,
                to < 64,
                promotion < 8,
        ;
        Self(from | (to << 6) | (promotion << 12))
    }

    /// The move held, as a plain record.
    pub fn record(self) -> (rec: MoveRecord)
        ensures
            rec == self.record_of(),
            packable(rec),
    {
        let word: u16 = self.0;
        let from: u16 = word & 0b111111;
        let to: u16 = (word >> 6) & 0b111111;
        let tag: u16 = (word >> 12) & 0b111;
        assert({
            &&& word & 0b111111 == word % 64
            &&& (word >> 6) & 0b111111 == word / 64 % 64
            &&& (word >> 12) & 0b111 == word / 4096 % 8
        }) by (bit_vector);
        let promotion = if tag == 0b100 {
            Some(PieceKind::Knight)
        } else if tag == 0b101 {
            Some(PieceKind::Bishop)
        } else if tag == 0b110 {
            Some(PieceKind::Rook)
        } else if tag == 0b111 {
            Some(PieceKind::Queen)
        } else {
            None
        };
        MoveRecord { from: from as u8, to: to as u8, promotion }
    }

    /// Unpacks the move held: the one move whose record is the record held.
    pub fn unpack(self) -> (mv: Move)
        ensures
            move_record(mv) == self.record_of(),
            forall|other: Move| #[trigger] move_record(other) == self.record_of() ==> mv == other,
    {
        build_move(self.record())
    }
}

/// A six-bit generation above a two-bit bound flag.
#[derive(Clone, Copy, Debug, PartialEq, Eq, Structural)]
pub struct AgeAndFlag(pub u8);

impl AgeAndFlag {
    /// The byte for a generation and a flag. A generation of 64 or more loses
    /// its high bits.
    pub open spec fn packed(age: u8, flag: TTFlag) -> AgeAndFlag {
        AgeAndFlag((age % 64 * 4 + flag_bits(flag)) as u8)
    }

    /// The generation held.
    pub open spec fn age_of(self) -> u8 {
        self.0 / 4
    }

    /// The flag held.
    pub open spec fn flag_of(self) -> TTFlag {
        bits_flag(self.0 as int % 4)
    }

    /// Packs a generation and a flag.
    pub fn new(age: u8, flag: TTFlag) -> (packed: Self)
        ensures
            packed == Self::packed(age, flag),
    {
        let bits: u8 = match flag {
            TTFlag::NoBound => 0b00,
            TTFlag::Exact => 0b01,
            TTFlag::LowerBound => 0b10,
            TTFlag::UpperBound => 0b11,
        };
        assert(((age << 2) | bits) == age % 64 * 4 + bits) by (bit_vector)
            requires
                bits < 4,
        ;
        Self((age << 2) | bits)
    }

    /// The generation held, at most 63.
    pub fn age(&self) -> (age: u8)
        ensures
            age == self.age_of(),
            age <= 63,
    {
        let byte: u8 = self.0;
        assert(byte >> 2 == byte / 4) by (bit_vector);
        byte >> 2
    }

    /// The flag held.
    pub fn flag(&self) -> (flag: TTFlag)
        ensures
            flag == self.flag_of(),
    {
        let byte: u8 = self.0;
        let bits: u8 = byte & 0b11;
        assert(byte & 0b11 == byte % 4) by (bit_vector);
        if bits == 0b00 {
            TTFlag::NoBound
        } else if bits == 0b01 {
            TTFlag::Exact
        } else if bits == 0b10 {
            TTFlag::LowerBound
        } else {
            TTFlag::UpperBound
        }
    }
}

/// Unpacking a packed generation below 64 and flag gives both back.
pub proof fn lemma_age_flag_round_trip(age: u8, flag: TTFlag)
    requires
        age < 64,
    ensures
        AgeAndFlag::packed(age, flag).age_of() == age,
        AgeAndFlag::packed(age, flag).flag_of() == flag,
{
}

/// Every byte is the packed form of the generation and flag that it holds.
pub proof fn lemma_age_flag_onto(byte: AgeAndFlag)
    ensures
        byte.age_of() < 64,
        AgeAndFlag::packed(byte.age_of(), byte.flag_of()) == byte,
{
}

/// One slot of the table: what a search found out about a position.
#[derive(Clone, Copy, Debug, PartialEq, Eq, Structural)]
pub struct TTEntry {
    /// The best move found, packed.
    pub mv: PackedMove,
    /// The low 16 bits of the position's hash.
    pub key: u16,
    /// The score, in table space.
    pub score: i16,
    /// The remaining depth at which the score was computed.
    pub depth: u8,
    /// The generation that wrote the entry, and the kind of bound.
    pub age_flag: AgeAndFlag,
}

impl TTEntry {
    /// The 64-bit word of an entry.
    pub open spec fn to_word(self) -> u64 {
        (self.key as u64)
            | ((self.mv.0 as u64) << 16)
            | (((self.score as u16) as u64) << 32)
            | ((self.depth as u64) << 48)
            | ((self.age_flag.0 as u64) << 56)
    }

    /// The entry that a 64-bit word holds.
    pub open spec fn from_word(word: u64) -> TTEntry {
        TTEntry {
            key: word as u16,
            mv: PackedMove((word >> 16) as u16),
            score: (word >> 32) as i16,
            depth: (word >> 48) as u8,
            age_flag: AgeAndFlag((word >> 56) as u8),
        }
    }

    /// The entry of a slot that was never written: the all-zero word.
    pub open spec fn empty() -> TTEntry {
        TTEntry {
            key: 0,
            mv: PackedMove(NOMOVE),
            score: 0,
            depth: 0,
            age_flag: AgeAndFlag(0),
        }
    }

    /// The worth of an entry when two compete for a slot: twice its
    /// generation plus its depth.
    pub open spec fn quality_of(self) -> int {
        self.age_flag.age_of() * 2 + self.depth
    }

    /// The worth of the entry when two compete for a slot.
    #[must_use]
    pub fn quality(&self) -> (q: u16)
        ensures
            q as int == self.quality_of(),
    {
        let age: u16 = self.age_flag.age() as u16;
        age * 2 + self.depth as u16
    }
}

impl From<u64> for TTEntry {
    fn from(data: u64) -> (entry: TTEntry) {
        let key: u16 = (data & 0xffff) as u16;
        let mv: u16 = ((data >> 16) & 0xffff) as u16;
        let score_bits: u16 = ((data >> 32) & 0xffff) as u16;
        let score: i16 = #[verifier::truncate] (score_bits as i16);
        let depth: u8 = ((data >> 48) & 0xff) as u8;
        let age_flag: u8 = (data >> 56) as u8;
        assert({
            &&& data & 0xffff == data as u16
            &&& (data >> 16) & 0xffff == (data >> 16) as u16
            &&& ((data >> 32) & 0xffff) as u16 as i16 == (data >> 32) as i16
            &&& (data >> 48) & 0xff == (data >> 48) as u8
            &&& (data >> 56) == (data >> 56) as u8
        }) by (bit_vector);
        TTEntry { key, mv: PackedMove(mv), score, depth, age_flag: AgeAndFlag(age_flag) }
    }
}

impl FromSpecImpl<u64> for TTEntry {
    open spec fn obeys_from_spec() -> bool {
        true
    }

    open spec fn from_spec(data: u64) -> TTEntry {
        TTEntry::from_word(data)
    }
}

impl From<TTEntry> for u64 {
    fn from(entry: TTEntry) -> (data: u64) {
        let score_bits: u16 = #[verifier::truncate] (entry.score as u16);
        (entry.key as u64)
            | ((entry.mv.0 as u64) << 16)
            | ((score_bits as u64) << 32)
            | ((entry.depth as u64) << 48)
            | ((entry.age_flag.0 as u64) << 56)
    }
}

impl FromSpecImpl<TTEntry> for u64 {
    open spec fn obeys_from_spec() -> bool {
        true
    }

    open spec fn from_spec(entry: TTEntry) -> u64 {
        entry.to_word()
    }
}

/// An entry read back from its word is the entry that was packed.
pub proof fn lemma_entry_round_trip(entry: TTEntry)
    ensures
        TTEntry::from_word(entry.to_word()) == entry,
{
    let key = entry.key;
    let mv = entry.mv.0;
    let score = entry.score;
    let depth = entry.depth;
    let age_flag = entry.age_flag.0;
    let word = entry.to_word();
    assert({
        &&& word as u16 == key
        &&& (word >> 16) as u16 == mv
        &&& (word >> 32) as i16 == score
        &&& (word >> 48) as u8 == depth
        &&& (word >> 56) as u8 == age_flag
    }) by (bit_vector)
        requires
            word == (key as u64)
                | ((mv as u64) << 16)
                | (((score as u16) as u64) << 32)
                | ((depth as u64) << 48)
                | ((age_flag as u64) << 56),
    ;
}

/// Every 64-bit word is the word of the entry that it holds: the five fields
/// fill the word, and no pattern is left over.
pub proof fn lemma_word_round_trip(word: u64)
    ensures
        TTEntry::from_word(word).to_word() == word,
{
    assert(word == ((word as u16) as u64)
        | ((((word >> 16) as u16) as u64) << 16)
        | ((((((word >> 32) as i16) as u16) as u64)) << 32)
        | ((((word >> 48) as u8) as u64) << 48)
        | ((((word >> 56) as u8) as u64) << 56)) by (bit_vector);
}

/// The all-zero word holds the empty entry: no move, zero score and depth,
/// generation zero and no bound.
pub proof fn lemma_zero_word_is_empty()
    ensures
        TTEntry::from_word(0) == TTEntry::empty(),
        TTEntry::empty().to_word() == 0,
        TTEntry::empty().age_flag.age_of() == 0,
        TTEntry::empty().age_flag.flag_of() == TTFlag::NoBound,
        TTEntry::empty().mv == PackedMove(NOMOVE),
{
    assert({
        &&& 0u64 as u16 == 0u16
        &&& (0u64 >> 16) as u16 == 0u16
        &&& (0u64 >> 32) as i16 == 0i16
        &&& (0u64 >> 48) as u8 == 0u8
        &&& (0u64 >> 56) as u8 == 0u8
    }) by (bit_vector);
    lemma_word_round_trip(0);
}

} // verus!
