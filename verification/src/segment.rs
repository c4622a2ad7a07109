//! The memory regions of the cartridge.

use vstd::prelude::*;
use crate::model::Model;

verus! {

/// A region of cartridge memory that can be read and written over USB.
#[derive(Debug, Clone, Copy, PartialEq, Eq, Structural)]
pub enum Segment {
    Rom,
    Sram256,
    Sram768,
    FlashRam,
    Eeprom4,
    Eeprom16,
}

/// Only the low 24 bits of a transfer length travel in a command.
pub const LENGTH_MASK: u32 = 0x00FF_FFFF;

impl Segment {
    /// The number of bytes that one transfer of this segment may cover.
    pub open spec fn max_length_spec(self, model: Model) -> u32 {
        match self {
            Segment::Rom => if model == Model::HW1 {
                0x0400_0000u32
            } else {
                0x0F00_0000u32
            },
            Segment::Sram256 => 0x8000u32,
            Segment::Sram768 => 0x1_8000u32,
            Segment::FlashRam => 0x2_0000u32,
            Segment::Eeprom4 => 0x200u32,
            Segment::Eeprom16 => 0x800u32,
        }
    }

    /// The number of bytes that one transfer of this segment may cover.
    ///
    /// The first hardware revision holds 64 MiB of ROM, later ones 240 MiB;
    /// the save memories have the size of the chip they stand for.
    pub fn max_length(self, model: Model) -> (max: u32)
        ensures
            max == self.max_length_spec(model),
    {
        match self {
            Segment::Rom => match model {
                Model::HW1 => 64 * 1024 * 1024,
                _ => 240 * 1024 * 1024,
            },
            Segment::Sram256 => 32 * 1024,
            Segment::Sram768 => 96 * 1024,
            Segment::FlashRam => 128 * 1024,
            Segment::Eeprom4 => 512,
            Segment::Eeprom16 => 2 * 1024,
        }
    }

    /// The number by which the cartridge knows this segment.
    ///
    /// Flash RAM has a second number, used on the first hardware revision for
    /// the one title that needs it.
    pub open spec fn bank(self, model: Model, is_stadium: bool) -> u32 {
        match self {
            Segment::Rom => 1u32,
            Segment::Sram256 => 2u32,
            Segment::Sram768 => 3u32,
            Segment::FlashRam => if model == Model::HW1 && is_stadium {
                5u32
            } else {
                4u32
            },
            Segment::Eeprom4 => 6u32,
            Segment::Eeprom16 => 6u32,
        }
    }
}

/// The word that names a segment and a length in a transfer command.
pub open spec fn bank_length_word(bank: u32, length: u32) -> u32 {
    (bank << 24) | (length & LENGTH_MASK)
}

/// The bank number of a segment, moved to the top byte of a word.
pub fn bank_index(segment: &Segment, model: &Model, is_stadium: bool) -> (index: u32)
    ensures
        index == segment.bank(*model, is_stadium) << 24,
        index == bank_length_word(segment.bank(*model, is_stadium), 0),
{
    let bank: u32 = match segment {
        Segment::Rom => 1,
        Segment::Sram256 => 2,
        Segment::Sram768 => 3,
        Segment::FlashRam => match model {
            Model::HW1 => if is_stadium {
                5
            } else {
                4
            },
            _ => 4,
        },
        Segment::Eeprom4 => 6,
        Segment::Eeprom16 => 6,
    };
    assert((bank << 24) | (0u32 & 0x00FF_FFFFu32) == bank << 24) by (bit_vector);
    bank << 24
}

/// Joins the bank number of a segment with the length of one window.
pub fn bank_length(segment: &Segment, model: &Model, is_stadium: bool, length: u32) -> (word: u32)
    ensures
        word == bank_length_word(segment.bank(*model, is_stadium), length),
        word >> 24 == segment.bank(*model, is_stadium),
        word & LENGTH_MASK == length & LENGTH_MASK,
{
    let index = bank_index(segment, model, is_stadium);
    let ghost bank = segment.bank(*model, is_stadium);
    proof {
        lemma_bank_length_word(bank, length);
    }
    index | (length & LENGTH_MASK)
}

/// The top byte of a bank and length word is the bank number, and its low
/// 24 bits are the low 24 bits of the length.
pub proof fn lemma_bank_length_word(bank: u32, length: u32)
    requires
        bank < 256,
    ensures
        bank_length_word(bank, length) >> 24 == bank,
        bank_length_word(bank, length) & LENGTH_MASK == length & LENGTH_MASK,
        length <= LENGTH_MASK ==> bank_length_word(bank, length) & LENGTH_MASK == length,
{
    assert(((bank << 24) | (length & 0x00FF_FFFFu32)) >> 24 == bank) by (bit_vector)
        requires
            bank < 256,
    ;
    assert(((bank << 24) | (length & 0x00FF_FFFFu32)) & 0x00FF_FFFFu32 == length & 0x00FF_FFFFu32)
        by (bit_vector);
    assert(length <= 0x00FF_FFFFu32 ==> length & 0x00FF_FFFFu32 == length) by (bit_vector);
}

/// For every segment, revision and title, the top byte of the word is one of
/// the six bank numbers and the low 24 bits carry the length.
pub proof fn lemma_segment_bank_length(segment: Segment, model: Model, is_stadium: bool, length: u32)
    ensures
        1 <= segment.bank(model, is_stadium) <= 6,
        bank_length_word(segment.bank(model, is_stadium), length) >> 24 == segment.bank(
            model,
            is_stadium,
        ),
        bank_length_word(segment.bank(model, is_stadium), length) & LENGTH_MASK == length
            & LENGTH_MASK,
        segment.bank(model, is_stadium) == 5 <==> segment == Segment::FlashRam && model
            == Model::HW1 && is_stadium,
{
    lemma_bank_length_word(segment.bank(model, is_stadium), length);
}

} // verus!
