use flashy64::cic::Cic;
use flashy64::error::Error;
use flashy64::hex::{hex_digit, hex_upper};
use flashy64::model::{model, Model};
use flashy64::romdb::RomDatabase;
use flashy64::savetype::SaveType;
use flashy64::text::{bytes_eq, contains, starts_with, str_eq, trim_matches};

fn rom_with_boot_code_ending_in(patch: [u8; 4]) -> Vec<u8> {
    let mut rom: Vec<u8> = vec![0; 0x1000];
    rom[0x0FFC..0x1000].copy_from_slice(&patch);
    rom
}

#[test]
fn model_is_told_from_the_exact_descriptor() {
    assert_eq!(model(0x0403, 0x6010, "64drive USB device A"), Ok(Model::HW1));
    assert_eq!(model(0x0403, 0x6014, "64drive USB device"), Ok(Model::HW2));
}

#[test]
fn model_of_any_other_descriptor_is_a_failure() {
    assert_eq!(model(0x0403, 0x6014, "64drive USB device A"), Err(Error::ModelDetectFailed));
    assert_eq!(model(0x0403, 0x6010, "64drive USB device"), Err(Error::ModelDetectFailed));
    assert_eq!(model(0x0404, 0x6010, "64drive USB device A"), Err(Error::ModelDetectFailed));
    assert_eq!(model(0x0403, 0x6010, "64drive usb device a"), Err(Error::ModelDetectFailed));
    assert_eq!(model(0x0403, 0x6010, "64drive USB device A "), Err(Error::ModelDetectFailed));
    assert_eq!(model(0x0403, 0x6010, ""), Err(Error::ModelDetectFailed));
    assert_eq!(model(0x0403, 0x6001, "FT245R USB FIFO"), Err(Error::ModelDetectFailed));
    assert_eq!(model(0x0403, 0x6014, "SC64"), Err(Error::ModelDetectFailed));
}

#[test]
fn model_names() {
    assert_eq!(Model::HW1.name(), "64drive HW1");
    assert_eq!(Model::HW2.name(), "64drive HW2");
    assert_eq!(Model::Unknown.name(), "unknown");
}

#[test]
fn cic_of_each_known_checksum() {
    assert_eq!(Cic::from_checksum(0x6170_A4A1), Cic::Var6101);
    assert_eq!(Cic::from_checksum(0x90BB_6CB5), Cic::Var6102);
    assert_eq!(Cic::from_checksum(0x009E_9EA3), Cic::Var7102);
    assert_eq!(Cic::from_checksum(0x0B05_0EE0), Cic::VarX103);
    assert_eq!(Cic::from_checksum(0x98BC_2C86), Cic::VarX105);
    assert_eq!(Cic::from_checksum(0xACC8_580A), Cic::VarX106);
}

#[test]
fn cic_of_any_other_checksum_is_unknown() {
    assert_eq!(Cic::from_checksum(0), Cic::Unknown);
    assert_eq!(Cic::from_checksum(0xFFFF_FFFF), Cic::Unknown);
    assert_eq!(Cic::from_checksum(0x6170_A4A0), Cic::Unknown);
    assert_eq!(Cic::from_checksum(0x6170_A4A2), Cic::Unknown);
    assert_eq!(Cic::from_checksum(0xCBF4_3926), Cic::Unknown);
}

#[test]
fn cic_from_boot_code_goes_by_its_crc32() {
    assert_eq!(Cic::from_ipl3(&[187, 9, 18, 26]), Cic::Var6101);
    assert_eq!(Cic::from_ipl3(&[208, 73, 61, 86]), Cic::Var6102);
    assert_eq!(Cic::from_ipl3(&[126, 214, 14, 240]), Cic::Var7102);
    assert_eq!(Cic::from_ipl3(&[222, 49, 214, 146]), Cic::VarX103);
    assert_eq!(Cic::from_ipl3(&[214, 137, 26, 140]), Cic::VarX105);
    assert_eq!(Cic::from_ipl3(&[180, 252, 152, 20]), Cic::VarX106);
}

#[test]
fn cic_from_other_boot_code_is_unknown() {
    assert_eq!(Cic::from_ipl3(b"123456789"), Cic::Unknown);
    assert_eq!(Cic::from_ipl3(&[]), Cic::Unknown);
    assert_eq!(Cic::from_ipl3(&[187, 9, 18, 27]), Cic::Unknown);
    assert_eq!(Cic::from_ipl3(&[0x61, 0x70, 0xA4, 0xA1]), Cic::Unknown);
}

#[test]
fn cic_from_rom_reads_the_boot_code_behind_the_header() {
    assert_eq!(Cic::from_rom(&rom_with_boot_code_ending_in([226, 102, 86, 183])), Cic::Var6101);
    assert_eq!(Cic::from_rom(&rom_with_boot_code_ending_in([137, 38, 121, 251])), Cic::Var6102);
    assert_eq!(Cic::from_rom(&rom_with_boot_code_ending_in([39, 185, 74, 93])), Cic::Var7102);
    assert_eq!(Cic::from_rom(&rom_with_boot_code_ending_in([135, 94, 146, 63])), Cic::VarX103);
    assert_eq!(Cic::from_rom(&rom_with_boot_code_ending_in([143, 230, 94, 33])), Cic::VarX105);
    assert_eq!(Cic::from_rom(&rom_with_boot_code_ending_in([237, 147, 220, 185])), Cic::VarX106);
}

#[test]
fn cic_from_rom_ignores_header_and_what_follows_the_boot_code() {
    let mut rom: Vec<u8> = rom_with_boot_code_ending_in([226, 102, 86, 183]);
    for byte in rom[..0x40].iter_mut() {
        *byte = 0xA5;
    }
    rom.extend_from_slice(&[1, 2, 3, 4, 5, 6, 7, 8]);
    assert_eq!(Cic::from_rom(&rom), Cic::Var6101);
    rom[0x40] = 1;
    assert_eq!(Cic::from_rom(&rom), Cic::Unknown);
}

#[test]
fn cic_from_short_rom_is_unknown() {
    assert_eq!(Cic::from_rom(&[]), Cic::Unknown);
    assert_eq!(Cic::from_rom(&[187, 9, 18, 26]), Cic::Unknown);
    let mut rom: Vec<u8> = rom_with_boot_code_ending_in([226, 102, 86, 183]);
    rom.truncate(0x0FFF);
    assert_eq!(Cic::from_rom(&rom), Cic::Unknown);
    let mut head: Vec<u8> = vec![0; 0x40];
    head.extend_from_slice(&[187, 9, 18, 26]);
    assert_eq!(Cic::from_rom(&head), Cic::Unknown);
}

#[test]
fn cic_index_of_each_variant() {
    assert_eq!(Cic::Var6101.index(), Some(0));
    assert_eq!(Cic::Var6102.index(), Some(1));
    assert_eq!(Cic::Var7101.index(), Some(2));
    assert_eq!(Cic::Var7102.index(), Some(3));
    assert_eq!(Cic::VarX103.index(), Some(4));
    assert_eq!(Cic::VarX105.index(), Some(5));
    assert_eq!(Cic::VarX106.index(), Some(6));
    assert_eq!(Cic::Var5101.index(), Some(7));
    assert_eq!(Cic::Auto.index(), None);
    assert_eq!(Cic::Unknown.index(), None);
}

#[test]
fn cic_names_and_back() {
    let all = [
        (Cic::Auto, "auto"),
        (Cic::Var6101, "6101"),
        (Cic::Var6102, "6102"),
        (Cic::Var7101, "7101"),
        (Cic::Var7102, "7102"),
        (Cic::VarX103, "x103"),
        (Cic::VarX105, "x105"),
        (Cic::VarX106, "x106"),
        (Cic::Var5101, "5101"),
    ];
    for (cic, name) in all {
        assert_eq!(cic.name(), name);
        assert_eq!(Cic::from_name(name), Ok(cic));
        assert_eq!(Cic::from_str(name), Ok(cic));
    }
    assert_eq!(Cic::Unknown.name(), "unknown");
}

#[test]
fn cic_from_str_takes_any_case() {
    assert_eq!(Cic::from_str("X103"), Ok(Cic::VarX103));
    assert_eq!(Cic::from_str("AUTO"), Ok(Cic::Auto));
    assert_eq!(Cic::from_str("Auto"), Ok(Cic::Auto));
    assert!(Cic::from_name("X103").is_err());
}

#[test]
fn cic_from_str_names_the_accepted_values() {
    let refusal =
        "Accepted values: auto, 6101, 6102, 7101, 7102, x103, x105, x106, or 5101".to_string();
    assert_eq!(Cic::from_str("unknown"), Err(refusal.clone()));
    assert_eq!(Cic::from_str(""), Err(refusal.clone()));
    assert_eq!(Cic::from_str(" 6101"), Err(refusal.clone()));
    assert_eq!(Cic::from_str("6103"), Err(refusal));
}

#[test]
fn save_type_index_of_each_kind() {
    assert_eq!(SaveType::Nothing.index(), Some(0));
    assert_eq!(SaveType::Eeprom4Kbit.index(), Some(1));
    assert_eq!(SaveType::Eeprom16Kbit.index(), Some(2));
    assert_eq!(SaveType::Sram256Kbit.index(), Some(3));
    assert_eq!(SaveType::FlashRam1Mbit.index(), Some(4));
    assert_eq!(SaveType::Sram768Kbit.index(), Some(5));
    assert_eq!(SaveType::FlashRam1MbitStadium.index(), Some(6));
    assert_eq!(SaveType::Auto.index(), None);
    assert_eq!(SaveType::Unknown.index(), None);
}

#[test]
fn save_type_default_is_nothing() {
    assert_eq!(SaveType::default(), SaveType::Nothing);
}

#[test]
fn save_type_from_str_knows_each_name() {
    assert_eq!(SaveType::from_str("auto"), Ok(SaveType::Auto));
    assert_eq!(SaveType::from_str("eeprom4kbit"), Ok(SaveType::Eeprom4Kbit));
    assert_eq!(SaveType::from_str("eeprom16kbit"), Ok(SaveType::Eeprom16Kbit));
    assert_eq!(SaveType::from_str("sram256kbit"), Ok(SaveType::Sram256Kbit));
    assert_eq!(SaveType::from_str("flashram1mbit"), Ok(SaveType::FlashRam1Mbit));
    assert_eq!(SaveType::from_str("sram768kbit"), Ok(SaveType::Sram768Kbit));
    assert_eq!(SaveType::from_str("pokestadium2"), Ok(SaveType::FlashRam1MbitStadium));
    assert_eq!(SaveType::from_str("none"), Ok(SaveType::Nothing));
    assert_eq!(SaveType::from_str("nothing"), Ok(SaveType::Nothing));
}

#[test]
fn save_type_from_str_takes_any_case() {
    assert_eq!(SaveType::from_str("SRAM256Kbit"), Ok(SaveType::Sram256Kbit));
    assert_eq!(SaveType::from_str("PokeStadium2"), Ok(SaveType::FlashRam1MbitStadium));
    assert!(SaveType::from_name("PokeStadium2").is_err());
    assert_eq!(SaveType::from_name("pokestadium2"), Ok(SaveType::FlashRam1MbitStadium));
}

#[test]
fn save_type_from_str_names_the_accepted_values() {
    let refusal = "Accepted values: auto, eeprom4kbit, eeprom16kbit, sram256kbit, flashram1mbit, sram768kbit, pokestadium2, or none".to_string();
    assert_eq!(SaveType::from_str("unknown"), Err(refusal.clone()));
    assert_eq!(SaveType::from_str("sram"), Err(refusal.clone()));
    assert_eq!(SaveType::from_str(""), Err(refusal));
}

#[test]
fn save_type_from_rom_goes_by_the_md5_of_the_image() {
    let text = b"[900150983CD24FB0D6963F7D28E17F72]\nSaveType=SRAM\n\n[D41D8CD98F00B204E9800998ECF8427E]\nSaveType=Eeprom 4KB\n\n";
    let database = RomDatabase::parse(text);
    assert_eq!(SaveType::from_rom(&database, b"abc"), SaveType::Sram256Kbit);
    assert_eq!(SaveType::from_rom(&database, b""), SaveType::Eeprom4Kbit);
    assert_eq!(SaveType::from_rom(&database, b"abd"), SaveType::Unknown);
    assert_eq!(SaveType::from_rom(&database, b"flashy64"), SaveType::Unknown);
}

#[test]
fn save_type_from_rom_is_the_same_for_the_same_bytes() {
    let text = b"[B6763D5BF04A9F911027440EF1CC1B05]\nSaveType=Flash RAM\n\n";
    let database = RomDatabase::parse(text);
    let first: Vec<u8> = b"flashy64".to_vec();
    let second: Vec<u8> = vec![b'f', b'l', b'a', b's', b'h', b'y', b'6', b'4'];
    assert_eq!(SaveType::from_rom(&database, &first), SaveType::FlashRam1Mbit);
    assert_eq!(
        SaveType::from_rom(&database, &first),
        SaveType::from_rom(&database, &second)
    );
}

#[test]
fn save_type_from_digest_looks_up_upper_case_hex() {
    let text = b"[900150983CD24FB0D6963F7D28E17F72]\nSaveType=Eeprom 16KB\n\n[900150983cd24fb0d6963f7d28e17f73]\nSaveType=SRAM\n\n";
    let database = RomDatabase::parse(text);
    let digest: [u8; 16] =
        [144, 1, 80, 152, 60, 210, 79, 176, 214, 150, 63, 125, 40, 225, 127, 114];
    assert_eq!(SaveType::from_digest(&database, &digest), SaveType::Eeprom16Kbit);
    let mut other: [u8; 16] = digest;
    other[15] = 115;
    assert_eq!(SaveType::from_digest(&database, &other), SaveType::Unknown);
}

#[test]
fn hex_is_upper_case_and_two_digits_a_byte() {
    assert_eq!(hex_upper(&[]), b"".to_vec());
    assert_eq!(hex_upper(&[0x00]), b"00".to_vec());
    assert_eq!(hex_upper(&[0x0A, 0xF0, 0x9C, 0xFF]), b"0AF09CFF".to_vec());
    assert_eq!(hex_upper(&[0x01, 0x23, 0x45, 0x67, 0x89, 0xAB, 0xCD, 0xEF]), b"0123456789ABCDEF".to_vec());
    let digits: Vec<u8> = (0u8..16).map(hex_digit).collect();
    assert_eq!(digits, b"0123456789ABCDEF".to_vec());
}

#[test]
fn bytes_and_text_are_compared_whole() {
    assert!(bytes_eq(b"", b""));
    assert!(bytes_eq(b"abc", b"abc"));
    assert!(!bytes_eq(b"abc", b"abd"));
    assert!(!bytes_eq(b"abc", b"ab"));
    assert!(!bytes_eq(b"ab", b"abc"));
    assert!(str_eq("64drive", "64drive"));
    assert!(!str_eq("64drive", "64Drive"));
    assert!(str_eq("", ""));
    assert!(!str_eq("é", "e"));
}

#[test]
fn prefixes_and_parts_are_found() {
    assert!(starts_with(b"SaveType=SRAM", b"SaveType="));
    assert!(!starts_with(b"SaveType", b"SaveType="));
    assert!(!starts_with(b" SaveType=", b"SaveType="));
    assert!(starts_with(b"abc", b""));
    assert!(contains(b"Pokemon Stadium 2 (U)", b"Pokemon Stadium 2"));
    assert!(contains(b"(J) Dezaemon 3D", b"Dezaemon 3D"));
    assert!(!contains(b"Pokemon Stadium (U)", b"Pokemon Stadium 2"));
    assert!(!contains(b"ab", b"abc"));
    assert!(contains(b"abc", b""));
    assert!(contains(b"", b""));
    assert!(contains(b"aab", b"ab"));
}

#[test]
fn trimming_cuts_both_ends_only() {
    assert_eq!(trim_matches(b"[[AB[C]]", b'['), b"AB[C]]");
    assert_eq!(trim_matches(b"AB[C]]", b']'), b"AB[C");
    assert_eq!(trim_matches(b"[[[", b'['), b"");
    assert_eq!(trim_matches(b"", b'['), b"");
    assert_eq!(trim_matches(b"abc", b'['), b"abc");
}

#[test]
fn names_are_parsed_through_from_str_of_std() {
    assert_eq!("X105".parse::<Cic>(), Ok(Cic::VarX105));
    assert_eq!("Nothing".parse::<SaveType>(), Ok(SaveType::Nothing));
    assert!("x107".parse::<Cic>().is_err());
    assert!("sram".parse::<SaveType>().is_err());
}
