use flashy64::cic::Cic;
use flashy64::command::{
    check_complete, command_packet, complete_packet, header_id, Command, CMD_DUMP_TO_PC,
    CMD_LOAD_FROM_PC, CMD_SET_CIC_TYPE, CMD_SET_CI_EXTENDED, CMD_SET_SAVE_TYPE,
    CMD_TARGET_SIDE_FIFO, CMD_VERSION_REQUEST,
};
use flashy64::error::{mismatch, Error, Frame, Mismatch};
use flashy64::hex::hex_list;
use flashy64::model::Model;
use flashy64::savetype::SaveType;
use flashy64::segment::{bank_index, bank_length, Segment};

fn every_command() -> Vec<Command> {
    vec![
        Command::LoadFromPc { addr: 0x1234_5678, bank_id_len: 0x0100_0003, data: vec![9, 8, 7] },
        Command::DumpToPc { addr: 0x0000_0040, bank_id_len: 0x0100_0100 },
        Command::TargetSideFifo(vec![1, 2, 3, 4, 5]),
        Command::SetSaveType(SaveType::Sram256Kbit),
        Command::SetCicType(Cic::VarX105),
        Command::SetCiExtended(0xDEAD_BEEF),
        Command::VersionRequest,
    ]
}

#[test]
fn command_ids_are_the_documented_ones() {
    let ids: Vec<u8> = every_command().iter().map(|c| c.id()).collect();
    assert_eq!(ids, vec![0x20, 0x30, 0x40, 0x70, 0x72, 0x74, 0x80]);
    assert_eq!(CMD_LOAD_FROM_PC, 0x20);
    assert_eq!(CMD_DUMP_TO_PC, 0x30);
    assert_eq!(CMD_TARGET_SIDE_FIFO, 0x40);
    assert_eq!(CMD_SET_SAVE_TYPE, 0x70);
    assert_eq!(CMD_SET_CIC_TYPE, 0x72);
    assert_eq!(CMD_SET_CI_EXTENDED, 0x74);
    assert_eq!(CMD_VERSION_REQUEST, 0x80);
}

#[test]
fn header_and_footer_have_the_fixed_bytes() {
    assert_eq!(command_packet(0x20), [0x20, 0x43, 0x4D, 0x44]);
    assert_eq!(complete_packet(0x30), [0x43, 0x4D, 0x50, 0x30]);
    assert_eq!(command_packet(0xFF), [0xFF, b'C', b'M', b'D']);
    assert_eq!(complete_packet(0x00), [b'C', b'M', b'P', 0x00]);
}

#[test]
fn encoded_header_gives_back_the_id() {
    for command in every_command() {
        assert!(command.check_fits());
        let packet = command.encode_packet();
        assert!(packet.len() >= 4);
        assert_eq!(packet[0], command.id());
        assert_eq!(&packet[1..4], &[0x43, 0x4D, 0x44]);
        assert_eq!(header_id(&packet), Some(command.id()));
    }
}

#[test]
fn header_id_wants_a_whole_header() {
    assert_eq!(header_id(&[]), None);
    assert_eq!(header_id(&[0x20, 0x43, 0x4D]), None);
    assert_eq!(header_id(&[0x20, 0x43, 0x4D, 0x50]), None);
    assert_eq!(header_id(&[0x20, 0x43, 0x4D, 0x44]), Some(0x20));
    assert_eq!(header_id(&[0x77, 0x43, 0x4D, 0x44, 1, 2]), Some(0x77));
}

#[test]
fn load_is_encoded_with_address_word_and_data() {
    let command =
        Command::LoadFromPc { addr: 0x1234_5678, bank_id_len: 0x0100_0003, data: vec![9, 8, 7] };
    assert_eq!(
        command.encode_packet(),
        vec![0x20, 0x43, 0x4D, 0x44, 0x12, 0x34, 0x56, 0x78, 0x01, 0x00, 0x00, 0x03, 9, 8, 7]
    );
}

#[test]
fn dump_is_encoded_with_address_and_word() {
    let command = Command::DumpToPc { addr: 0x0000_0040, bank_id_len: 0x0602_0000 };
    assert_eq!(
        command.encode_packet(),
        vec![0x30, 0x43, 0x4D, 0x44, 0x00, 0x00, 0x00, 0x40, 0x06, 0x02, 0x00, 0x00]
    );
}

#[test]
fn fifo_is_encoded_with_raw_bytes() {
    let command = Command::TargetSideFifo(vec![0xAA, 0xBB]);
    assert_eq!(command.encode_packet(), vec![0x40, 0x43, 0x4D, 0x44, 0xAA, 0xBB]);
    let empty = Command::TargetSideFifo(vec![]);
    assert_eq!(empty.encode_packet(), vec![0x40, 0x43, 0x4D, 0x44]);
}

#[test]
fn save_type_is_encoded_in_the_low_four_bits() {
    let expected: Vec<(SaveType, u8)> = vec![
        (SaveType::Nothing, 0),
        (SaveType::Eeprom4Kbit, 1),
        (SaveType::Eeprom16Kbit, 2),
        (SaveType::Sram256Kbit, 3),
        (SaveType::FlashRam1Mbit, 4),
        (SaveType::Sram768Kbit, 5),
        (SaveType::FlashRam1MbitStadium, 6),
        (SaveType::Auto, 0),
        (SaveType::Unknown, 0),
    ];
    for (kind, index) in expected {
        assert_eq!(
            Command::SetSaveType(kind).encode_packet(),
            vec![0x70, 0x43, 0x4D, 0x44, 0, 0, 0, index]
        );
        assert_eq!(kind.word(), index as u32);
    }
}

#[test]
fn cic_is_encoded_with_bit_31_and_three_bits_of_index() {
    let expected: Vec<(Cic, u8)> = vec![
        (Cic::Var6101, 0),
        (Cic::Var6102, 1),
        (Cic::Var7101, 2),
        (Cic::Var7102, 3),
        (Cic::VarX103, 4),
        (Cic::VarX105, 5),
        (Cic::VarX106, 6),
        (Cic::Var5101, 7),
        (Cic::Auto, 1),
        (Cic::Unknown, 1),
    ];
    for (cic, index) in expected {
        assert_eq!(
            Command::SetCicType(cic).encode_packet(),
            vec![0x72, 0x43, 0x4D, 0x44, 0x80, 0, 0, index]
        );
        assert_eq!(cic.word(), 0x8000_0000 | index as u32);
    }
}

#[test]
fn ci_extended_is_encoded_raw() {
    assert_eq!(
        Command::SetCiExtended(0xDEAD_BEEF).encode_packet(),
        vec![0x74, 0x43, 0x4D, 0x44, 0xDE, 0xAD, 0xBE, 0xEF]
    );
}

#[test]
fn version_request_is_a_bare_header() {
    assert_eq!(Command::VersionRequest.encode_packet(), vec![0x80, 0x43, 0x4D, 0x44]);
}

#[test]
fn recv_length_is_zero_but_for_dump_and_version() {
    let lengths: Vec<u32> = every_command().iter().map(|c| c.recv_length()).collect();
    assert_eq!(lengths, vec![0, 0x100, 0, 0, 0, 0, 8]);
}

#[test]
fn recv_length_of_dump_drops_the_bank() {
    let command = Command::DumpToPc { addr: 0, bank_id_len: 0x06FF_FFFF };
    assert_eq!(command.recv_length(), 0x00FF_FFFF);
    let none = Command::DumpToPc { addr: 0, bank_id_len: 0xFF00_0000 };
    assert_eq!(none.recv_length(), 0);
}

#[test]
fn complete_check_takes_the_right_footer() {
    for command in every_command() {
        let footer: [u8; 4] = [0x43, 0x4D, 0x50, command.id()];
        assert_eq!(command.complete_check(&footer), Ok(()));
    }
}

#[test]
fn complete_check_reports_what_came_and_what_was_due() {
    let command = Command::DumpToPc { addr: 0, bank_id_len: 4 };
    let wrong: [u8; 4] = [0x43, 0x4D, 0x50, 0x20];
    assert_eq!(
        command.complete_check(&wrong),
        Err(Error::CommunicationFailed(Mismatch {
            frame: Frame::CommandComplete,
            actual: vec![0x43, 0x4D, 0x50, 0x20],
            expected: vec![0x43, 0x4D, 0x50, 0x30],
        }))
    );
    assert!(command.complete_check(&[0x43, 0x4D, 0x44, 0x30]).is_err());
    assert!(command.complete_check(&[0xFF, 0xFF, 0xFF, 0xFF]).is_err());
}

#[test]
fn complete_check_refuses_other_lengths() {
    let command = Command::VersionRequest;
    assert!(command.complete_check(&[]).is_err());
    assert!(command.complete_check(&[0x43, 0x4D, 0x50]).is_err());
    assert!(command.complete_check(&[0x43, 0x4D, 0x50, 0x80, 0x00]).is_err());
    assert_eq!(check_complete(0x80, &[0x43, 0x4D, 0x50, 0x80]), Ok(()));
}

#[test]
fn bank_index_is_the_bank_in_the_top_byte() {
    let segments: Vec<(Segment, u32)> = vec![
        (Segment::Rom, 1),
        (Segment::Sram256, 2),
        (Segment::Sram768, 3),
        (Segment::FlashRam, 4),
        (Segment::Eeprom4, 6),
        (Segment::Eeprom16, 6),
    ];
    for model in [Model::HW1, Model::HW2, Model::Unknown] {
        for (segment, bank) in &segments {
            assert_eq!(bank_index(segment, &model, false), bank << 24);
        }
    }
}

#[test]
fn flash_ram_of_stadium_has_its_own_bank_on_the_first_revision() {
    assert_eq!(bank_index(&Segment::FlashRam, &Model::HW1, true), 5 << 24);
    assert_eq!(bank_index(&Segment::FlashRam, &Model::HW2, true), 4 << 24);
    assert_eq!(bank_index(&Segment::FlashRam, &Model::Unknown, true), 4 << 24);
    assert_eq!(bank_index(&Segment::Rom, &Model::HW1, true), 1 << 24);
    assert_eq!(bank_index(&Segment::Eeprom16, &Model::HW1, true), 6 << 24);
}

#[test]
fn bank_length_word_has_bank_on_top_and_length_below() {
    let segments = [
        Segment::Rom,
        Segment::Sram256,
        Segment::Sram768,
        Segment::FlashRam,
        Segment::Eeprom4,
        Segment::Eeprom16,
    ];
    let lengths: [u32; 5] = [0, 4, 0x2_0000, 0x80_0000, 0x00FF_FFFF];
    for segment in segments {
        for model in [Model::HW1, Model::HW2, Model::Unknown] {
            for is_stadium in [false, true] {
                for length in lengths {
                    let word: u32 = bank_length(&segment, &model, is_stadium, length);
                    assert_eq!(word & 0xFF00_0000, bank_index(&segment, &model, is_stadium));
                    assert!((1..=6).contains(&(word >> 24)));
                    assert_eq!(word & 0x00FF_FFFF, length);
                }
            }
        }
    }
}

#[test]
fn bank_length_word_cuts_the_length_to_24_bits() {
    assert_eq!(bank_length(&Segment::Rom, &Model::HW2, false, 0x0100_0004), 0x0100_0004);
    assert_eq!(bank_length(&Segment::Sram768, &Model::HW2, false, 0xFFFF_FFFF), 0x03FF_FFFF);
    assert_eq!(bank_length(&Segment::FlashRam, &Model::HW1, true, 0x2_0000), 0x0502_0000);
}

#[test]
fn max_length_follows_segment_and_revision() {
    assert_eq!(Segment::Rom.max_length(Model::HW1), 64 * 1024 * 1024);
    assert_eq!(Segment::Rom.max_length(Model::HW2), 240 * 1024 * 1024);
    assert_eq!(Segment::Rom.max_length(Model::Unknown), 240 * 1024 * 1024);
    for model in [Model::HW1, Model::HW2, Model::Unknown] {
        assert_eq!(Segment::Sram256.max_length(model), 32 * 1024);
        assert_eq!(Segment::Sram768.max_length(model), 96 * 1024);
        assert_eq!(Segment::FlashRam.max_length(model), 128 * 1024);
        assert_eq!(Segment::Eeprom4.max_length(model), 512);
        assert_eq!(Segment::Eeprom16.max_length(model), 2 * 1024);
    }
}

#[test]
fn mismatch_holds_what_came_and_what_was_due() {
    assert_eq!(
        mismatch(Frame::DebugHeader, &[1, 2], &[3]),
        Error::CommunicationFailed(Mismatch {
            frame: Frame::DebugHeader,
            actual: vec![1, 2],
            expected: vec![3],
        })
    );
}

#[test]
fn mismatch_is_reported_in_hex() {
    let footer = Mismatch {
        frame: Frame::CommandComplete,
        actual: vec![0x43, 0x4D, 0x50, 0x20],
        expected: vec![0x43, 0x4D, 0x50, 0x30],
    };
    assert_eq!(
        footer.message(),
        "64Drive: complete packet mismatch: [43, 4D, 50, 20] vs expected [43, 4D, 50, 30]"
    );
    assert_eq!(
        footer.message(),
        format!(
            "64Drive: complete packet mismatch: {:02X?} vs expected {:02X?}",
            footer.actual, footer.expected
        )
    );
    let opening = Mismatch {
        frame: Frame::DebugHeader,
        actual: vec![0x00, 0x0A, 0xFF, 0x9C],
        expected: b"DMA@".to_vec(),
    };
    assert_eq!(
        opening.message(),
        "64drive: debug packet mismatch: [00, 0A, FF, 9C] vs expected [44, 4D, 41, 40]"
    );
    let closing =
        Mismatch { frame: Frame::DebugComplete, actual: vec![], expected: b"CMPH".to_vec() };
    assert_eq!(
        closing.message(),
        "64drive: complete packet mismatch: [] vs expected [43, 4D, 50, 48]"
    );
}

#[test]
fn hex_list_is_what_the_debug_format_of_std_writes() {
    assert_eq!(hex_list(&[]), "[]");
    assert_eq!(hex_list(&[0x07]), "[07]");
    assert_eq!(hex_list(&[0xAB, 0x00, 0x10]), "[AB, 00, 10]");
    let all: Vec<u8> = (0..=255).collect();
    assert_eq!(hex_list(&all), format!("{:02X?}", all));
}
