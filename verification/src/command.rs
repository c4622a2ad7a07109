//! The commands of the cartridge and their framing.
//!
//! A command travels as a header of four bytes, the command's id and three
//! fixed bytes, followed by a payload whose layout depends on the command.
//! The cartridge closes every command with a footer of three fixed bytes and
//! the id of the command.

use vstd::prelude::*;
use crate::buffer::{
    be_bytes,
    buffer_bytes,
    buffer_from,
    buffer_put_slice,
    buffer_put_u32,
    buffer_to_vec,
    max_buffer_len,
};
use crate::cic::Cic;
use crate::error::{mismatch, Error, Frame};
use crate::savetype::SaveType;
use crate::segment::LENGTH_MASK;
use crate::text::bytes_eq;

verus! {

pub const CMD_LOAD_FROM_PC: u8 = 0x20;

pub const CMD_DUMP_TO_PC: u8 = 0x30;

pub const CMD_TARGET_SIDE_FIFO: u8 = 0x40;

pub const CMD_SET_SAVE_TYPE: u8 = 0x70;

pub const CMD_SET_CIC_TYPE: u8 = 0x72;

pub const CMD_SET_CI_EXTENDED: u8 = 0x74;

pub const CMD_VERSION_REQUEST: u8 = 0x80;

/// Length of the header that opens a command and of the footer that closes it.
pub const FRAME_LEN: usize = 4;

/// A command and what it carries.
#[derive(Debug, Clone, PartialEq, Eq)]
pub enum Command {
    /// Writes `data` to the cartridge at `addr`.
    LoadFromPc { addr: u32, bank_id_len: u32, data: Vec<u8> },
    /// Reads from the cartridge at `addr`.
    DumpToPc { addr: u32, bank_id_len: u32 },
    /// Hands bytes to the program that runs on the console.
    TargetSideFifo(Vec<u8>),
    SetSaveType(SaveType),
    SetCicType(Cic),
    SetCiExtended(u32),
    VersionRequest,
}

/// The header of the command with this id.
pub open spec fn command_packet_spec(id: u8) -> Seq<u8> {
    seq![id, 0x43u8, 0x4Du8, 0x44u8]
}

/// The footer with which the cartridge closes the command with this id.
pub open spec fn complete_packet_spec(id: u8) -> Seq<u8> {
    seq![0x43u8, 0x4Du8, 0x50u8, id]
}

/// The id of the command that a packet opens, where the packet starts with
/// a header.
pub open spec fn header_id_spec(packet: Seq<u8>) -> Option<u8> {
    if packet.len() >= FRAME_LEN && packet[1] == 0x43 && packet[2] == 0x4D && packet[3] == 0x44 {
        Some(packet[0])
    } else {
        None
    }
}

/// The header of the command with this id.
pub fn command_packet(id: u8) -> (header: [u8; 4])
    ensures
        header@ == command_packet_spec(id),
{
    let header: [u8; 4] = [id, 0x43, 0x4D, 0x44];
    assert(header@ =~= command_packet_spec(id));
    header
}

/// The footer with which the cartridge closes the command with this id.
pub fn complete_packet(id: u8) -> (footer: [u8; 4])
    ensures
        footer@ == complete_packet_spec(id),
{
    let footer: [u8; 4] = [0x43, 0x4D, 0x50, id];
    assert(footer@ =~= complete_packet_spec(id));
    footer
}

/// Reads the id of a command back from the packet that opens with its header.
pub fn header_id(packet: &[u8]) -> (id: Option<u8>)
    ensures
        id == header_id_spec(packet@),
{
    if packet.len() >= FRAME_LEN && packet[1] == 0x43 && packet[2] == 0x4D && packet[3] == 0x44 {
        Some(packet[0])
    } else {
        None
    }
}

/// Checks the footer that the cartridge sent after the command with this
/// id.
pub fn check_complete(id: u8, data: &[u8]) -> (checked: Result<(), Error>)
    ensures
        match checked {
            Ok(()) => data@ == complete_packet_spec(id),
            Err(e) => data@ != complete_packet_spec(id) && e.is_mismatch(
                Frame::CommandComplete,
                data@,
                complete_packet_spec(id),
            ),
        },
{
    let expected = complete_packet(id);
    if bytes_eq(expected.as_slice(), data) {
        Ok(())
    } else {
        Err(mismatch(Frame::CommandComplete, data, expected.as_slice()))
    }
}

impl Command {
    /// The id of a command.
    pub open spec fn id_spec(self) -> u8 {
        match self {
            Command::LoadFromPc { .. } => CMD_LOAD_FROM_PC,
            Command::DumpToPc { .. } => CMD_DUMP_TO_PC,
            Command::TargetSideFifo(_) => CMD_TARGET_SIDE_FIFO,
            Command::SetSaveType(_) => CMD_SET_SAVE_TYPE,
            Command::SetCicType(_) => CMD_SET_CIC_TYPE,
            Command::SetCiExtended(_) => CMD_SET_CI_EXTENDED,
            Command::VersionRequest => CMD_VERSION_REQUEST,
        }
    }

    /// What follows the header of a command.
    pub open spec fn payload(self) -> Seq<u8> {
        match self {
            Command::LoadFromPc { addr, bank_id_len, data } => be_bytes(addr) + be_bytes(
                bank_id_len,
            ) + data@,
            Command::DumpToPc { addr, bank_id_len } => be_bytes(addr) + be_bytes(bank_id_len),
            Command::TargetSideFifo(data) => data@,
            Command::SetSaveType(kind) => be_bytes(kind.word_spec()),
            Command::SetCicType(cic) => be_bytes(cic.word_spec()),
            Command::SetCiExtended(raw) => be_bytes(raw),
            Command::VersionRequest => Seq::empty(),
        }
    }

    /// The bytes of a command as they travel: header, then payload.
    pub open spec fn packet(self) -> Seq<u8> {
        command_packet_spec(self.id_spec()) + self.payload()
    }

    /// The number of bytes that the cartridge sends before the footer.
    pub open spec fn recv_length_spec(self) -> u32 {
        match self {
            Command::DumpToPc { bank_id_len, .. } => bank_id_len & LENGTH_MASK,
            Command::VersionRequest => 8u32,
            _ => 0u32,
        }
    }

    /// Whether the packet of a command fits into a buffer.
    pub open spec fn fits(self) -> bool {
        self.packet().len() <= max_buffer_len()
    }

    /// The id of a command.
    pub fn id(&self) -> (id: u8)
        ensures
            id == self.id_spec(),
    {
        match self {
            Command::LoadFromPc { .. } => CMD_LOAD_FROM_PC,
            Command::DumpToPc { .. } => CMD_DUMP_TO_PC,
            Command::TargetSideFifo(_) => CMD_TARGET_SIDE_FIFO,
            Command::SetSaveType(_) => CMD_SET_SAVE_TYPE,
            Command::SetCicType(_) => CMD_SET_CIC_TYPE,
            Command::SetCiExtended(_) => CMD_SET_CI_EXTENDED,
            Command::VersionRequest => CMD_VERSION_REQUEST,
        }
    }

    /// Whether the packet of a command fits into a buffer.
    ///
    /// Only a command that carries more bytes than any transfer window holds
    /// can fail this.
    pub fn check_fits(&self) -> (fits: bool)
        ensures
            fits == self.fits(),
    {
        let limit: usize = isize::MAX as usize;
        match self {
            Command::LoadFromPc { data, .. } => data.len() <= limit - 12,
            Command::TargetSideFifo(data) => data.len() <= limit - 4,
            _ => true,
        }
    }

    /// Writes a command out as it travels: the header, then the payload, all
    /// words in big-endian byte order.
    pub fn encode_packet(&self) -> (packet: Vec<u8>)
        requires
            self.fits(),
        ensures
            packet@ == self.packet(),
            header_id_spec(packet@) == Some(self.id_spec()),
    {
        let header = command_packet(self.id());
        let mut packet = buffer_from(header.as_slice());
        match self {
            Command::LoadFromPc { addr, bank_id_len, data } => {
                buffer_put_u32(&mut packet, *addr);
                buffer_put_u32(&mut packet, *bank_id_len);
                buffer_put_slice(&mut packet, data.as_slice());
            },
            Command::DumpToPc { addr, bank_id_len } => {
                buffer_put_u32(&mut packet, *addr);
                buffer_put_u32(&mut packet, *bank_id_len);
            },
            Command::TargetSideFifo(data) => {
                buffer_put_slice(&mut packet, data.as_slice());
            },
            Command::SetSaveType(kind) => {
                buffer_put_u32(&mut packet, kind.word());
            },
            Command::SetCicType(cic) => {
                buffer_put_u32(&mut packet, cic.word());
            },
            Command::SetCiExtended(raw) => {
                buffer_put_u32(&mut packet, *raw);
            },
            Command::VersionRequest => {},
        }
        proof {
            assert(buffer_bytes(packet) =~= self.packet());
            lemma_header_round_trip(*self);
        }
        buffer_to_vec(&packet)
    }

    /// The number of bytes that the cartridge sends before the footer: the
    /// length asked for by a dump, eight bytes of version, else none.
    pub fn recv_length(&self) -> (length: u32)
        ensures
            length == self.recv_length_spec(),
    {
        match self {
            Command::DumpToPc { bank_id_len, .. } => *bank_id_len & LENGTH_MASK,
            Command::VersionRequest => 8,
            _ => 0,
        }
    }

    /// Checks the footer that the cartridge sent after a command.
    ///
    /// The footer is right if it is the three fixed bytes followed by the id
    /// of the command. Anything else is reported with the bytes that came
    /// and the bytes that were due.
    pub fn complete_check(&self, data: &[u8]) -> (checked: Result<(), Error>)
        ensures
            match checked {
                Ok(()) => data@ == complete_packet_spec(self.id_spec()),
                Err(e) => data@ != complete_packet_spec(self.id_spec()) && e.is_mismatch(
                    Frame::CommandComplete,
                    data@,
                    complete_packet_spec(self.id_spec()),
                ),
            },
    {
        check_complete(self.id(), data)
    }
}

/// The packet of every command opens with the command's own id and the
/// three fixed bytes of a header.
pub proof fn lemma_header_round_trip(command: Command)
    ensures
        command.packet().len() >= FRAME_LEN,
        command.packet().subrange(0, FRAME_LEN as int) == command_packet_spec(command.id_spec()),
        header_id_spec(command.packet()) == Some(command.id_spec()),
{
    assert(command.packet().subrange(0, FRAME_LEN as int) =~= command_packet_spec(
        command.id_spec(),
    ));
}

} // verus!
