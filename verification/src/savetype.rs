//! The save memory that the cartridge has to imitate.

use vstd::prelude::*;
use crate::hex::{hex_upper, hex_upper_spec};
use crate::romdb::{save_type_of, RomDatabase};
use crate::text::{lowercase_of, str_eq, to_lowercase};

verus! {

/// Kind of save memory on a game cartridge.
#[derive(Debug, Clone, Copy, PartialEq, Eq, Structural)]
pub enum SaveType {
    Auto,
    Nothing,
    Eeprom4Kbit,
    Eeprom16Kbit,
    Sram256Kbit,
    FlashRam1Mbit,
    Sram768Kbit,
    FlashRam1MbitStadium,
    Unknown,
}

/// Length of an MD5 digest in bytes.
pub const DIGEST_LEN: usize = 16;

/// The MD5 digest of a byte string, as the `md5` crate computes it.
pub uninterp spec fn md5_digest(data: Seq<u8>) -> Seq<u8>;

/// Calls `md5::compute` and takes the sixteen bytes out of the digest. The
/// digest is a function of the bytes alone and is known by its name only.
#[verifier::external_body]
fn digest_of(data: &[u8]) -> (digest: [u8; 16])
    ensures
        digest@ == md5_digest(data@),
{
    md5::compute(data).0
}

impl Default for SaveType {
    fn default() -> (kind: SaveType)
        ensures
            kind == SaveType::Nothing,
    {
        SaveType::Nothing
    }
}

impl SaveType {
    /// The save type with this name, written in lower case.
    pub open spec fn named(name: Seq<char>) -> Option<SaveType> {
        if name == "auto"@ {
            Some(SaveType::Auto)
        } else if name == "eeprom4kbit"@ {
            Some(SaveType::Eeprom4Kbit)
        } else if name == "eeprom16kbit"@ {
            Some(SaveType::Eeprom16Kbit)
        } else if name == "sram256kbit"@ {
            Some(SaveType::Sram256Kbit)
        } else if name == "flashram1mbit"@ {
            Some(SaveType::FlashRam1Mbit)
        } else if name == "sram768kbit"@ {
            Some(SaveType::Sram768Kbit)
        } else if name == "pokestadium2"@ {
            Some(SaveType::FlashRam1MbitStadium)
        } else if name == "none"@ || name == "nothing"@ {
            Some(SaveType::Nothing)
        } else {
            None
        }
    }

    /// What a caller is told who asks for a save type that does not exist.
    pub open spec fn accepted_names() -> Seq<char> {
        "Accepted values: auto, eeprom4kbit, eeprom16kbit, sram256kbit, flashram1mbit, sram768kbit, pokestadium2, or none"@
    }

    /// The index by which the cartridge knows a save type.
    pub open spec fn index_spec(self) -> Option<u8> {
        match self {
            SaveType::Nothing => Some(0u8),
            SaveType::Eeprom4Kbit => Some(1u8),
            SaveType::Eeprom16Kbit => Some(2u8),
            SaveType::Sram256Kbit => Some(3u8),
            SaveType::FlashRam1Mbit => Some(4u8),
            SaveType::Sram768Kbit => Some(5u8),
            SaveType::FlashRam1MbitStadium => Some(6u8),
            SaveType::Auto | SaveType::Unknown => None,
        }
    }

    /// The index that is sent for a save type: its own, or that of no save
    /// memory at all.
    pub open spec fn resolved_index(self) -> u8 {
        match self.index_spec() {
            Some(index) => index,
            None => 0u8,
        }
    }

    /// The word that selects a save type on the cartridge: the index in the
    /// low four bits.
    pub open spec fn word_spec(self) -> u32 {
        self.resolved_index() as u32
    }

    /// Finds the save type with exactly this name.
    pub fn from_name(name: &str) -> (found: Result<SaveType, String>)
        ensures
            match SaveType::named(name@) {
                Some(kind) => found == Ok::<SaveType, String>(kind),
                None => found matches Err(text) && text@ == SaveType::accepted_names(),
            },
    {
        if str_eq(name, "auto") {
            Ok(SaveType::Auto)
        } else if str_eq(name, "eeprom4kbit") {
            Ok(SaveType::Eeprom4Kbit)
        } else if str_eq(name, "eeprom16kbit") {
            Ok(SaveType::Eeprom16Kbit)
        } else if str_eq(name, "sram256kbit") {
            Ok(SaveType::Sram256Kbit)
        } else if str_eq(name, "flashram1mbit") {
            Ok(SaveType::FlashRam1Mbit)
        } else if str_eq(name, "sram768kbit") {
            Ok(SaveType::Sram768Kbit)
        } else if str_eq(name, "pokestadium2") {
            Ok(SaveType::FlashRam1MbitStadium)
        } else if str_eq(name, "none") || str_eq(name, "nothing") {
            Ok(SaveType::Nothing)
        } else {
            Err(
                "Accepted values: auto, eeprom4kbit, eeprom16kbit, sram256kbit, flashram1mbit, sram768kbit, pokestadium2, or none".to_owned(),
            )
        }
    }

    /// Finds the save type with this name, in whatever case it is written.
    pub fn from_str(s: &str) -> (found: Result<SaveType, String>)
        ensures
            match SaveType::named(lowercase_of(s@)) {
                Some(kind) => found == Ok::<SaveType, String>(kind),
                None => found matches Err(text) && text@ == SaveType::accepted_names(),
            },
    {
        let lower = to_lowercase(s);
        SaveType::from_name(lower.as_str())
    }

    /// The save type that a database holds for the image with this MD5
    /// digest.
    ///
    /// The image is looked up under its digest in upper-case hexadecimal
    /// digits. An image that the database does not hold is `Unknown`.
    pub fn from_digest(database: &RomDatabase, digest: &[u8]) -> (kind: SaveType)
        ensures
            kind == save_type_of(database@, hex_upper_spec(digest@)),
    {
        let key = hex_upper(digest);
        database.save_type(key.as_slice())
    }

    /// The save type that a database holds for a ROM image.
    ///
    /// The image is known by the MD5 digest of all its bytes, so two images
    /// with the same digest have the same save type.
    pub fn from_rom(database: &RomDatabase, data: &[u8]) -> (kind: SaveType)
        ensures
            kind == save_type_of(database@, hex_upper_spec(md5_digest(data@))),
    {
        let digest = digest_of(data);
        SaveType::from_digest(database, digest.as_slice())
    }

    /// The index by which the cartridge knows a save type; `Auto` and
    /// `Unknown` have none.
    pub fn index(&self) -> (index: Option<u8>)
        ensures
            index == self.index_spec(),
    {
        match self {
            SaveType::Nothing => Some(0),
            SaveType::Eeprom4Kbit => Some(1),
            SaveType::Eeprom16Kbit => Some(2),
            SaveType::Sram256Kbit => Some(3),
            SaveType::FlashRam1Mbit => Some(4),
            SaveType::Sram768Kbit => Some(5),
            SaveType::FlashRam1MbitStadium => Some(6),
            SaveType::Auto | SaveType::Unknown => None,
        }
    }

    /// The word that selects a save type on the cartridge.
    ///
    /// A save type without an index is sent as index 0.
    pub fn word(&self) -> (word: u32)
        ensures
            word == self.word_spec(),
            word & 0xF == self.resolved_index(),
            word & 0xFFFF_FFF0 == 0,
    {
        let index: u8 = match self.index() {
            Some(index) => index,
            None => 0,
        };
        assert(index < 8 ==> (index as u32) & 0xFu32 == index as u32 && ((index as u32) & 0xFu32)
            & 0xFFFF_FFF0u32 == 0u32) by (bit_vector);
        (index as u32) & 0x0000_000F
    }
}

/// The save type of an image depends on nothing but the digest of the
/// image: where two images have the same digest, a database holds the same
/// save type for both.
pub proof fn lemma_save_type_by_digest(
    entries: Map<Seq<u8>, SaveType>,
    first: Seq<u8>,
    second: Seq<u8>,
)
    requires
        md5_digest(first) == md5_digest(second),
    ensures
        save_type_of(entries, hex_upper_spec(md5_digest(first))) == save_type_of(
            entries,
            hex_upper_spec(md5_digest(second)),
        ),
{
}

/// Lets `str::parse` find a save type by its name.
impl core::str::FromStr for SaveType {
    type Err = String;

    fn from_str(s: &str) -> (found: Result<SaveType, String>)
        ensures
            match SaveType::named(lowercase_of(s@)) {
                Some(value) => found == Ok::<SaveType, String>(value),
                None => found matches Err(text) && text@ == SaveType::accepted_names(),
            },
    {
        SaveType::from_str(s)
    }
}

} // verus!
