//! The boot cipher that the cartridge has to imitate.

use vstd::prelude::*;
use vstd::slice::slice_subrange;
use crate::text::{lowercase_of, str_eq, to_lowercase};

verus! {

/// Variant of the boot cipher chip.
#[derive(Debug, Clone, Copy, PartialEq, Eq, Structural)]
pub enum Cic {
    Auto,
    Var6101,
    Var6102,
    Var7101,
    Var7102,
    VarX103,
    VarX105,
    VarX106,
    Var5101,
    Unknown,
}

/// A ROM image shorter than this holds no complete boot code.
pub const IPL3_END: usize = 0x1000;

/// The boot code follows the header of the image.
pub const IPL3_START: usize = 0x40;

/// The index that the cartridge takes where a variant has none of its own.
pub const FALLBACK_INDEX: u8 = 1;

/// The CRC-32/ISO-HDLC checksum of a byte string, as the `crc` crate computes it.
pub uninterp spec fn crc32_iso_hdlc(data: Seq<u8>) -> u32;

/// Calls `Crc::<u32>::checksum` of the `crc` crate with the algorithm
/// `CRC_32_ISO_HDLC`. The checksum is a function of the bytes alone and is
/// known by its name only.
#[verifier::external_body]
fn checksum(data: &[u8]) -> (sum: u32)
    ensures
        sum == crc32_iso_hdlc(data@),
{
    crc::Crc::<u32>::new(&crc::CRC_32_ISO_HDLC).checksum(data)
}

impl Cic {
    /// The variant whose boot code has this checksum.
    pub open spec fn of_checksum(sum: u32) -> Cic {
        if sum == 0x6170_A4A1 {
            Cic::Var6101
        } else if sum == 0x90BB_6CB5 {
            Cic::Var6102
        } else if sum == 0x009E_9EA3 {
            Cic::Var7102
        } else if sum == 0x0B05_0EE0 {
            Cic::VarX103
        } else if sum == 0x98BC_2C86 {
            Cic::VarX105
        } else if sum == 0xACC8_580A {
            Cic::VarX106
        } else {
            Cic::Unknown
        }
    }

    /// The variant that a ROM image asks for.
    pub open spec fn of_rom(data: Seq<u8>) -> Cic {
        if data.len() < IPL3_END {
            Cic::Unknown
        } else {
            Cic::of_checksum(crc32_iso_hdlc(data.subrange(IPL3_START as int, IPL3_END as int)))
        }
    }

    /// The variant with this name, written in lower case.
    pub open spec fn named(name: Seq<char>) -> Option<Cic> {
        if name == "auto"@ {
            Some(Cic::Auto)
        } else if name == "6101"@ {
            Some(Cic::Var6101)
        } else if name == "6102"@ {
            Some(Cic::Var6102)
        } else if name == "7101"@ {
            Some(Cic::Var7101)
        } else if name == "7102"@ {
            Some(Cic::Var7102)
        } else if name == "x103"@ {
            Some(Cic::VarX103)
        } else if name == "x105"@ {
            Some(Cic::VarX105)
        } else if name == "x106"@ {
            Some(Cic::VarX106)
        } else if name == "5101"@ {
            Some(Cic::Var5101)
        } else {
            None
        }
    }

    /// What a caller is told who asks for a variant that does not exist.
    pub open spec fn accepted_names() -> Seq<char> {
        "Accepted values: auto, 6101, 6102, 7101, 7102, x103, x105, x106, or 5101"@
    }

    /// The name of a variant.
    pub open spec fn name_spec(self) -> Seq<char> {
        match self {
            Cic::Auto => "auto"@,
            Cic::Var6101 => "6101"@,
            Cic::Var6102 => "6102"@,
            Cic::Var7101 => "7101"@,
            Cic::Var7102 => "7102"@,
            Cic::VarX103 => "x103"@,
            Cic::VarX105 => "x105"@,
            Cic::VarX106 => "x106"@,
            Cic::Var5101 => "5101"@,
            Cic::Unknown => "unknown"@,
        }
    }

    /// The index by which the cartridge knows a variant.
    pub open spec fn index_spec(self) -> Option<u8> {
        match self {
            Cic::Var6101 => Some(0u8),
            Cic::Var6102 => Some(1u8),
            Cic::Var7101 => Some(2u8),
            Cic::Var7102 => Some(3u8),
            Cic::VarX103 => Some(4u8),
            Cic::VarX105 => Some(5u8),
            Cic::VarX106 => Some(6u8),
            Cic::Var5101 => Some(7u8),
            Cic::Auto | Cic::Unknown => None,
        }
    }

    /// The index that is sent for a variant: its own, or the fallback.
    pub open spec fn resolved_index(self) -> u8 {
        match self.index_spec() {
            Some(index) => index,
            None => FALLBACK_INDEX,
        }
    }

    /// The word that selects a variant on the cartridge: bit 31 set, the
    /// index in the low three bits.
    pub open spec fn word_spec(self) -> u32 {
        (0x8000_0000 + self.resolved_index()) as u32
    }

    /// The name of a variant.
    pub fn name(&self) -> (text: &'static str)
        ensures
            text@ == self.name_spec(),
    {
        match self {
            Cic::Auto => "auto",
            Cic::Var6101 => "6101",
            Cic::Var6102 => "6102",
            Cic::Var7101 => "7101",
            Cic::Var7102 => "7102",
            Cic::VarX103 => "x103",
            Cic::VarX105 => "x105",
            Cic::VarX106 => "x106",
            Cic::Var5101 => "5101",
            Cic::Unknown => "unknown",
        }
    }

    /// Finds the variant with exactly this name.
    pub fn from_name(name: &str) -> (found: Result<Cic, String>)
        ensures
            match Cic::named(name@) {
                Some(cic) => found == Ok::<Cic, String>(cic),
                None => found matches Err(text) && text@ == Cic::accepted_names(),
            },
    {
        if str_eq(name, "auto") {
            Ok(Cic::Auto)
        } else if str_eq(name, "6101") {
            Ok(Cic::Var6101)
        } else if str_eq(name, "6102") {
            Ok(Cic::Var6102)
        } else if str_eq(name, "7101") {
            Ok(Cic::Var7101)
        } else if str_eq(name, "7102") {
            Ok(Cic::Var7102)
        } else if str_eq(name, "x103") {
            Ok(Cic::VarX103)
        } else if str_eq(name, "x105") {
            Ok(Cic::VarX105)
        } else if str_eq(name, "x106") {
            Ok(Cic::VarX106)
        } else if str_eq(name, "5101") {
            Ok(Cic::Var5101)
        } else {
            Err(
                "Accepted values: auto, 6101, 6102, 7101, 7102, x103, x105, x106, or 5101".to_owned(),
            )
        }
    }

    /// Finds the variant with this name, in whatever case it is written.
    pub fn from_str(s: &str) -> (found: Result<Cic, String>)
        ensures
            match Cic::named(lowercase_of(s@)) {
                Some(cic) => found == Ok::<Cic, String>(cic),
                None => found matches Err(text) && text@ == Cic::accepted_names(),
            },
    {
        let lower = to_lowercase(s);
        Cic::from_name(lower.as_str())
    }

    /// The variant whose boot code has this checksum; `Unknown` where no
    /// variant has it.
    pub fn from_checksum(sum: u32) -> (cic: Cic)
        ensures
            cic == Cic::of_checksum(sum),
    {
        if sum == 0x6170_A4A1 {
            Cic::Var6101
        } else if sum == 0x90BB_6CB5 {
            Cic::Var6102
        } else if sum == 0x009E_9EA3 {
            Cic::Var7102
        } else if sum == 0x0B05_0EE0 {
            Cic::VarX103
        } else if sum == 0x98BC_2C86 {
            Cic::VarX105
        } else if sum == 0xACC8_580A {
            Cic::VarX106
        } else {
            Cic::Unknown
        }
    }

    /// Detects the variant from the boot code of an image, that is from the
    /// bytes that follow the header up to offset 0x1000.
    pub fn from_ipl3(data: &[u8]) -> (cic: Cic)
        ensures
            cic == Cic::of_checksum(crc32_iso_hdlc(data@)),
    {
        Cic::from_checksum(checksum(data))
    }

    /// Detects the variant from a ROM image with its header.
    ///
    /// An image too short to hold the boot code gives `Unknown`, whatever it
    /// holds.
    pub fn from_rom(data: &[u8]) -> (cic: Cic)
        ensures
            cic == Cic::of_rom(data@),
            data@.len() < IPL3_END ==> cic == Cic::Unknown,
    {
        if data.len() < IPL3_END {
            return Cic::Unknown;
        }
        Cic::from_ipl3(slice_subrange(data, IPL3_START, IPL3_END))
    }

    /// The index by which the cartridge knows a variant; `Auto` and
    /// `Unknown` have none.
    pub fn index(&self) -> (index: Option<u8>)
        ensures
            index == self.index_spec(),
    {
        match self {
            Cic::Var6101 => Some(0),
            Cic::Var6102 => Some(1),
            Cic::Var7101 => Some(2),
            Cic::Var7102 => Some(3),
            Cic::VarX103 => Some(4),
            Cic::VarX105 => Some(5),
            Cic::VarX106 => Some(6),
            Cic::Var5101 => Some(7),
            Cic::Auto | Cic::Unknown => None,
        }
    }

    /// The word that selects a variant on the cartridge.
    ///
    /// A variant without an index is sent as the fallback index.
    pub fn word(&self) -> (word: u32)
        ensures
            word == self.word_spec(),
            word >> 31 == 1,
            word & 0x7 == self.resolved_index(),
            word & 0x7FFF_FFF8 == 0,
    {
        let index: u8 = match self.index() {
            Some(index) => index,
            None => FALLBACK_INDEX,
        };
        let low: u32 = (index & 0x7) as u32;
        assert(index < 8 ==> {
            &&& ((index & 0x7u8) as u32 | 0x8000_0000u32) == (0x8000_0000u32 + index as u32)
            &&& ((index & 0x7u8) as u32 | 0x8000_0000u32) >> 31 == 1u32
            &&& ((index & 0x7u8) as u32 | 0x8000_0000u32) & 0x7u32 == index as u32
            &&& ((index & 0x7u8) as u32 | 0x8000_0000u32) & 0x7FFF_FFF8u32 == 0u32
        }) by (bit_vector);
        low | 0x8000_0000
    }
}

/// Lets `str::parse` find a boot cipher variant by its name.
impl core::str::FromStr for Cic {
    type Err = String;

    fn from_str(s: &str) -> (found: Result<Cic, String>)
        ensures
            match Cic::named(lowercase_of(s@)) {
                Some(value) => found == Ok::<Cic, String>(value),
                None => found matches Err(text) && text@ == Cic::accepted_names(),
            },
    {
        Cic::from_str(s)
    }
}

} // verus!
