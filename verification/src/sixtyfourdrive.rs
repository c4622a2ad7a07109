//! The 64drive as a whole: what it can be asked to do, and how each request
//! is carried out on the transport.

use vstd::prelude::*;
use crate::cic::Cic;
use crate::command::Command;
use crate::error::Error;
use crate::exchange::Exchange;
use crate::model::Model;
use crate::savetype::SaveType;
use crate::segment::Segment;
use crate::transfer::{Download, Upload};
use crate::transport::Stage;
use crate::unfloader::{DebugRead, DebugStage};
use crate::window::{download_length_spec, lemma_download_length, DownloadPlan, UploadPlan};

verus! {

/// Seconds after which a read or a write on the transport is given up.
pub const TIMEOUT_SECS: u64 = 10;

/// All eight data lines of the bridge take part in a transfer.
pub const BIT_MODE_MASK: u8 = 0xFF;

/// How the bridge chip moves data.
#[derive(Debug, Clone, Copy, PartialEq, Eq, Structural)]
pub enum BitMode {
    /// The mode in which the chip wakes up.
    Reset,
    /// Synchronous transfers through the chip's FIFO.
    SyncFifo,
}

/// One thing to do on the transport before the cartridge is spoken to.
#[derive(Debug, Clone, Copy, PartialEq, Eq, Structural)]
pub enum SetupStep {
    /// Reset the device. A device that cannot be reset is used as it is.
    Reset,
    SetBitMode { mask: u8, mode: BitMode },
    SetTimeouts { read_secs: u64, write_secs: u64 },
    /// Drop what waits in the buffers of both directions.
    PurgeAll,
}

/// What is done on the transport before the cartridge is spoken to, in
/// order: the device is reset, the bridge is put into synchronous FIFO mode
/// by way of its reset mode, reads and writes get ten seconds, and both
/// buffers are purged.
pub open spec fn setup_spec() -> Seq<SetupStep> {
    seq![
        SetupStep::Reset,
        SetupStep::SetBitMode { mask: BIT_MODE_MASK, mode: BitMode::Reset },
        SetupStep::SetBitMode { mask: BIT_MODE_MASK, mode: BitMode::SyncFifo },
        SetupStep::SetTimeouts { read_secs: TIMEOUT_SECS, write_secs: TIMEOUT_SECS },
        SetupStep::PurgeAll,
    ]
}

impl SetupStep {
    /// Whether the cartridge cannot be used where this step fails.
    pub open spec fn is_required(self) -> bool {
        self != SetupStep::Reset
    }

    /// Whether the cartridge cannot be used where this step fails.
    pub fn required(&self) -> (required: bool)
        ensures
            required == self.is_required(),
    {
        match self {
            SetupStep::Reset => false,
            _ => true,
        }
    }
}

/// A 64drive of a known hardware revision.
#[derive(Debug, Clone, Copy, PartialEq, Eq, Structural)]
pub struct SixtyFourDrive {
    pub model: Model,
}

impl SixtyFourDrive {
    /// What a request for sending a debug message is answered with.
    pub open spec fn send_debug_refusal() -> Seq<char> {
        "64drive: sending debug messages"@
    }

    /// The cartridge of this hardware revision.
    pub fn new(model: Model) -> (cart: SixtyFourDrive)
        ensures
            cart.model == model,
    {
        SixtyFourDrive { model }
    }

    /// What is to be done on the transport before the cartridge is spoken
    /// to.
    pub fn setup() -> (steps: Vec<SetupStep>)
        ensures
            steps@ == setup_spec(),
    {
        let mut steps: Vec<SetupStep> = Vec::new();
        steps.push(SetupStep::Reset);
        steps.push(SetupStep::SetBitMode { mask: BIT_MODE_MASK, mode: BitMode::Reset });
        steps.push(SetupStep::SetBitMode { mask: BIT_MODE_MASK, mode: BitMode::SyncFifo });
        steps.push(SetupStep::SetTimeouts { read_secs: TIMEOUT_SECS, write_secs: TIMEOUT_SECS });
        steps.push(SetupStep::PurgeAll);
        assert(steps@ =~= setup_spec());
        steps
    }

    /// The hardware revision.
    pub fn model(&self) -> (model: Model)
        ensures
            model == self.model,
    {
        self.model
    }

    /// Begins an upload of `data` to `segment`, `offset` bytes into it.
    pub fn upload<'a>(&self, segment: Segment, offset: u32, data: &'a [u8]) -> (upload: Upload<'a>)
        requires
            (UploadPlan { segment, model: self.model, offset, data: data@ }).fits(),
        ensures
            upload.plan() == (UploadPlan { segment, model: self.model, offset, data: data@ }),
            upload.window() == 0,
            upload.stage() == Stage::Ready,
    {
        Upload::new(segment, self.model, offset, data)
    }

    /// Begins a download of `length` bytes from `segment`, `offset` bytes
    /// into it.
    pub fn download(&self, segment: Segment, offset: u32, length: u32) -> (download: Download)
        requires
            (DownloadPlan {
                segment,
                model: self.model,
                offset,
                total: download_length_spec(segment, self.model, length),
            }).fits(),
        ensures
            download.plan() == (DownloadPlan {
                segment,
                model: self.model,
                offset,
                total: download_length_spec(segment, self.model, length),
            }),
            download.window() == 0,
            download.stage() == Stage::Ready,
            download.received() == Seq::<u8>::empty(),
    {
        Download::new(segment, self.model, offset, length)
    }

    /// Begins an upload of a ROM image to the start of the ROM.
    pub fn upload_rom<'a>(&self, data: &'a [u8]) -> (upload: Upload<'a>)
        requires
            (UploadPlan { segment: Segment::Rom, model: self.model, offset: 0, data: data@ }).fits(),
        ensures
            upload.plan() == (UploadPlan {
                segment: Segment::Rom,
                model: self.model,
                offset: 0,
                data: data@,
            }),
            upload.window() == 0,
            upload.stage() == Stage::Ready,
    {
        self.upload(Segment::Rom, 0, data)
    }

    /// Begins a download of `length` bytes from the start of the ROM.
    pub fn download_rom(&self, length: u32) -> (download: Download)
        ensures
            download.plan() == (DownloadPlan {
                segment: Segment::Rom,
                model: self.model,
                offset: 0,
                total: download_length_spec(Segment::Rom, self.model, length),
            }),
            download.window() == 0,
            download.stage() == Stage::Ready,
            download.received() == Seq::<u8>::empty(),
    {
        proof {
            lemma_download_length(Segment::Rom, self.model, length);
        }
        self.download(Segment::Rom, 0, length)
    }

    /// Begins the command that makes the cartridge imitate a boot cipher.
    ///
    /// A variant that the cartridge has no index for is sent as the
    /// fallback index.
    pub fn set_cic(&self, cic: Cic) -> (exchange: Exchange)
        ensures
            exchange.command() == Command::SetCicType(cic),
            exchange.stage() == Stage::Ready,
    {
        Exchange::new(Command::SetCicType(cic))
    }

    /// Begins the command that makes the cartridge imitate a save memory.
    ///
    /// A save type that the cartridge has no index for is sent as index 0.
    pub fn set_savetype(&self, savetype: SaveType) -> (exchange: Exchange)
        ensures
            exchange.command() == Command::SetSaveType(savetype),
            exchange.stage() == Stage::Ready,
    {
        Exchange::new(Command::SetSaveType(savetype))
    }

    /// Begins the reading of a debug message.
    pub fn recv_debug(&self) -> (reading: DebugRead)
        ensures
            reading.stage() == DebugStage::Ready,
    {
        DebugRead::new()
    }

    /// The 64drive takes no debug messages.
    pub fn send_debug(&self) -> (sent: Result<(), Error>)
        ensures
            sent matches Err(Error::UnsupportedOperation(text)) && text@
                == SixtyFourDrive::send_debug_refusal(),
    {
        Err(Error::UnsupportedOperation("64drive: sending debug messages".to_owned()))
    }
}

} // verus!
