//! Cutting a bulk transfer into windows.
//!
//! The cartridge moves data in windows of a fixed size: 8 MiB on the way to
//! the cartridge, 128 KiB on the way back. Each window is one command,
//! addressed one window further than the window before and tagged with the
//! bank of the segment and its own length.

use vstd::prelude::*;
use vstd::slice::slice_subrange;
use crate::buffer::be_bytes;
use crate::command::{command_packet_spec, Command, CMD_DUMP_TO_PC, CMD_LOAD_FROM_PC};
use crate::model::Model;
use crate::segment::{bank_length, bank_length_word, lemma_bank_length_word, Segment, LENGTH_MASK};

verus! {

/// Bytes in one window of an upload.
pub const UPLOAD_WINDOW: u32 = 0x80_0000;

/// Bytes in one window of a download.
pub const DOWNLOAD_WINDOW: u32 = 0x2_0000;

/// A window shorter than this is not asked for.
pub const MIN_WINDOW: u32 = 4;

/// The number of windows of `window` bytes that it takes to cover `total`
/// bytes: `total / window`, rounded up.
pub open spec fn window_count(total: nat, window: nat) -> nat
    recommends
        window > 0,
{
    if total % window == 0 {
        total / window
    } else {
        total / window + 1
    }
}

/// The number of bytes in window `index`: what is left of `total` after the
/// windows before it, but no more than `window`.
pub open spec fn window_length(total: nat, window: nat, index: nat) -> nat {
    if index * window >= total {
        0
    } else if total - index * window >= window {
        window
    } else {
        (total - index * window) as nat
    }
}

/// The sum of the lengths of the first `count` windows.
pub open spec fn windows_total(total: nat, window: nat, count: nat) -> nat
    decreases count,
{
    if count == 0 {
        0
    } else {
        windows_total(total, window, (count - 1) as nat) + window_length(
            total,
            window,
            (count - 1) as nat,
        )
    }
}

/// The smallest multiple of four that is not below `length`.
pub open spec fn round_up_4(length: nat) -> nat {
    ((length + 3) / 4 * 4) as nat
}

/// An upload: these bytes go to this segment, starting at this offset.
pub struct UploadPlan {
    pub segment: Segment,
    pub model: Model,
    pub offset: u32,
    pub data: Seq<u8>,
}

impl UploadPlan {
    /// The number of commands that the upload takes.
    pub open spec fn windows(self) -> nat {
        window_count(self.data.len(), UPLOAD_WINDOW as nat)
    }

    /// Whether the address of every window fits into a word.
    pub open spec fn fits(self) -> bool {
        self.windows() > 0 ==> self.offset + (self.windows() - 1) * UPLOAD_WINDOW <= u32::MAX
    }

    /// The number of bytes that window `index` carries.
    pub open spec fn length(self, index: nat) -> nat {
        window_length(self.data.len(), UPLOAD_WINDOW as nat, index)
    }

    /// The address to which window `index` is written.
    pub open spec fn addr(self, index: nat) -> int {
        self.offset + index * UPLOAD_WINDOW
    }

    /// The bank and length word of window `index`.
    ///
    /// Nothing tells the engine the title of what it moves, so flash RAM
    /// always goes by its first bank number.
    pub open spec fn word(self, index: nat) -> u32 {
        bank_length_word(self.segment.bank(self.model, false), self.length(index) as u32)
    }

    /// The bytes that window `index` carries.
    pub open spec fn bytes(self, index: nat) -> Seq<u8> {
        self.data.subrange(index * UPLOAD_WINDOW, index * UPLOAD_WINDOW + self.length(index))
    }

    /// Whether a command is the one that writes window `index`.
    pub open spec fn is_window(self, index: nat, command: Command) -> bool {
        &&& command matches Command::LoadFromPc { addr, bank_id_len, data }
        &&& addr == self.addr(index)
        &&& bank_id_len == self.word(index)
        &&& data@ == self.bytes(index)
    }

    /// The packet that writes window `index`.
    pub open spec fn packet(self, index: nat) -> Seq<u8> {
        command_packet_spec(CMD_LOAD_FROM_PC) + be_bytes(self.addr(index) as u32) + be_bytes(
            self.word(index),
        ) + self.bytes(index)
    }
}

/// A download: this many bytes come from this segment, starting at this
/// offset.
pub struct DownloadPlan {
    pub segment: Segment,
    pub model: Model,
    pub offset: u32,
    pub total: u32,
}

/// The number of bytes that a download of `length` bytes asks for: `length`
/// rounded up to a multiple of four, but no more than the segment holds.
pub open spec fn download_length_spec(segment: Segment, model: Model, length: u32) -> u32 {
    if round_up_4(length as nat) <= segment.max_length_spec(model) {
        round_up_4(length as nat) as u32
    } else {
        segment.max_length_spec(model)
    }
}

/// The number of windows that are asked for to read `total` bytes: every
/// full window, and what is left after them unless it is shorter than four
/// bytes.
pub open spec fn download_windows_spec(total: u32) -> nat {
    if (total % DOWNLOAD_WINDOW) & LENGTH_MASK >= MIN_WINDOW {
        (total / DOWNLOAD_WINDOW + 1) as nat
    } else {
        (total / DOWNLOAD_WINDOW) as nat
    }
}

impl DownloadPlan {
    /// The number of commands that the download takes.
    pub open spec fn windows(self) -> nat {
        download_windows_spec(self.total)
    }

    /// Whether the address of every window fits into a word.
    pub open spec fn fits(self) -> bool {
        self.windows() > 0 ==> self.offset + (self.windows() - 1) * DOWNLOAD_WINDOW <= u32::MAX
    }

    /// The number of bytes that window `index` asks for.
    pub open spec fn length(self, index: nat) -> nat {
        window_length(self.total as nat, DOWNLOAD_WINDOW as nat, index)
    }

    /// The address from which window `index` is read.
    pub open spec fn addr(self, index: nat) -> int {
        self.offset + index * DOWNLOAD_WINDOW
    }

    /// The bank and length word of window `index`.
    pub open spec fn word(self, index: nat) -> u32 {
        bank_length_word(self.segment.bank(self.model, false), self.length(index) as u32)
    }

    /// Whether a command is the one that reads window `index`.
    pub open spec fn is_window(self, index: nat, command: Command) -> bool {
        &&& command matches Command::DumpToPc { addr, bank_id_len }
        &&& addr == self.addr(index)
        &&& bank_id_len == self.word(index)
    }

    /// The packet that asks for window `index`.
    pub open spec fn packet(self, index: nat) -> Seq<u8> {
        command_packet_spec(CMD_DUMP_TO_PC) + be_bytes(self.addr(index) as u32) + be_bytes(
            self.word(index),
        )
    }
}

/// The bytes that the first `count` windows of an upload carry, in order.
pub open spec fn upload_sent(plan: UploadPlan, count: nat) -> Seq<u8>
    decreases count,
{
    if count == 0 {
        Seq::empty()
    } else {
        upload_sent(plan, (count - 1) as nat) + plan.bytes((count - 1) as nat)
    }
}

/// Rounding up to a multiple of four adds less than four.
pub proof fn lemma_round_up_4(length: nat)
    ensures
        round_up_4(length) % 4 == 0,
        length <= round_up_4(length) < length + 4,
        length % 4 == 0 ==> round_up_4(length) == length,
{
}

/// The first `count` windows cover the first `count * window` bytes, or
/// all bytes where there are fewer.
pub proof fn lemma_windows_total(total: nat, window: nat, count: nat)
    requires
        window > 0,
    ensures
        windows_total(total, window, count) == if count * window <= total {
            count * window
        } else {
            total
        },
    decreases count,
{
    if count > 0 {
        lemma_windows_total(total, window, (count - 1) as nat);
        assert(count * window == (count - 1) * window + window) by (nonlinear_arith);
        assert((count - 1) * window >= 0) by (nonlinear_arith)
            requires
                count > 0,
        ;
    } else {
        assert(count * window == 0) by (nonlinear_arith)
            requires
                count == 0,
        ;
    }
}

/// An upload of `N` bytes takes `N / 0x800000` commands, rounded up. Each
/// carries what is left of the data, up to a whole window, and is addressed
/// one window beyond the command before it. Together they carry the data
/// once, in order.
pub proof fn lemma_upload_windows(plan: UploadPlan)
    ensures
        plan.windows() * UPLOAD_WINDOW >= plan.data.len(),
        plan.windows() > 0 ==> (plan.windows() - 1) * UPLOAD_WINDOW < plan.data.len(),
        forall|index: nat|
            index < plan.windows() ==> 0 < #[trigger] plan.length(index) <= UPLOAD_WINDOW
                && plan.length(index) == if plan.data.len() - index * UPLOAD_WINDOW
                < UPLOAD_WINDOW {
                plan.data.len() - index * UPLOAD_WINDOW
            } else {
                UPLOAD_WINDOW as int
            },
        forall|index: nat| #[trigger] plan.addr(index + 1) == plan.addr(index) + UPLOAD_WINDOW,
        plan.addr(0) == plan.offset,
        windows_total(plan.data.len(), UPLOAD_WINDOW as nat, plan.windows()) == plan.data.len(),
        upload_sent(plan, plan.windows()) == plan.data,
{
    let length = plan.data.len();
    let window = UPLOAD_WINDOW as nat;
    lemma_windows_total(length, window, plan.windows());
    assert forall|index: nat| #[trigger] plan.addr(index + 1) == plan.addr(index)
        + UPLOAD_WINDOW by {
        assert((index + 1) * UPLOAD_WINDOW == index * UPLOAD_WINDOW + UPLOAD_WINDOW)
            by (nonlinear_arith);
    }
    lemma_upload_sent(plan, plan.windows());
    assert(plan.data.subrange(0, length as int) == plan.data);
}

/// The first `count` windows of an upload carry the first bytes of the
/// data, as many as their lengths add up to.
pub proof fn lemma_upload_sent(plan: UploadPlan, count: nat)
    requires
        count <= plan.windows(),
    ensures
        upload_sent(plan, count) == plan.data.subrange(
            0,
            windows_total(plan.data.len(), UPLOAD_WINDOW as nat, count) as int,
        ),
    decreases count,
{
    let length = plan.data.len();
    let window = UPLOAD_WINDOW as nat;
    lemma_windows_total(length, window, count);
    if count > 0 {
        let before = (count - 1) as nat;
        lemma_upload_sent(plan, before);
        lemma_windows_total(length, window, before);
        assert(count * window == before * window + window) by (nonlinear_arith)
            requires
                before == count - 1,
        ;
        assert(upload_sent(plan, count) =~= plan.data.subrange(
            0,
            windows_total(length, window, count) as int,
        ));
    } else {
        assert(upload_sent(plan, count) =~= plan.data.subrange(0, 0));
    }
}

/// A download asks for the length rounded up to a multiple of four, unless
/// the segment holds less: then it asks for all that the segment holds,
/// which for the ROM is 64 MiB on the first hardware revision and 240 MiB
/// on the others.
pub proof fn lemma_download_length(segment: Segment, model: Model, length: u32)
    ensures
        download_length_spec(segment, model, length) % 4 == 0,
        download_length_spec(segment, model, length) <= segment.max_length_spec(model),
        length <= segment.max_length_spec(model) ==> length <= download_length_spec(
            segment,
            model,
            length,
        ) < length + 4,
        length >= segment.max_length_spec(model) ==> download_length_spec(segment, model, length)
            == segment.max_length_spec(model),
        Segment::Rom.max_length_spec(Model::HW1) == 64 * 1024 * 1024,
        model != Model::HW1 ==> Segment::Rom.max_length_spec(model) == 240 * 1024 * 1024,
{
    lemma_round_up_4(length as nat);
}

/// No window of a download is longer than a window may be, and none asks for
/// more than the segment holds on this hardware revision.
pub proof fn lemma_download_window_length(segment: Segment, model: Model, length: u32, index: nat)
    ensures
        window_length(
            download_length_spec(segment, model, length) as nat,
            DOWNLOAD_WINDOW as nat,
            index,
        ) <= DOWNLOAD_WINDOW,
        window_length(
            download_length_spec(segment, model, length) as nat,
            DOWNLOAD_WINDOW as nat,
            index,
        ) <= segment.max_length_spec(model),
{
    lemma_download_length(segment, model, length);
}

/// A download asks for windows as long as what is left, cut to 24 bits, is
/// four bytes or more. The windows asked for never add up to more than the
/// length of the download, and to all of it where the length is a multiple
/// of four.
pub proof fn lemma_download_windows(total: u32)
    ensures
        forall|index: nat|
            index < download_windows_spec(total) ==> (#[trigger] window_length(
                total as nat,
                DOWNLOAD_WINDOW as nat,
                index,
            ) as u32) & LENGTH_MASK >= MIN_WINDOW,
        (window_length(total as nat, DOWNLOAD_WINDOW as nat, download_windows_spec(total)) as u32)
            & LENGTH_MASK < MIN_WINDOW,
        windows_total(total as nat, DOWNLOAD_WINDOW as nat, download_windows_spec(total)) <= total,
        total - windows_total(total as nat, DOWNLOAD_WINDOW as nat, download_windows_spec(total))
            < MIN_WINDOW,
        total % 4 == 0 ==> windows_total(
            total as nat,
            DOWNLOAD_WINDOW as nat,
            download_windows_spec(total),
        ) == total,
{
    let window = DOWNLOAD_WINDOW as nat;
    let count = download_windows_spec(total);
    let tail = total % DOWNLOAD_WINDOW;
    assert(tail & LENGTH_MASK == tail) by (bit_vector)
        requires
            tail < 0x2_0000u32,
    ;
    assert(DOWNLOAD_WINDOW & LENGTH_MASK == DOWNLOAD_WINDOW) by (bit_vector);
    assert(0u32 & LENGTH_MASK == 0u32) by (bit_vector);
    lemma_windows_total(total as nat, window, count);
    assert(total % 4 == 0 ==> tail % 4 == 0) by {
        assert(total == (total / DOWNLOAD_WINDOW) * DOWNLOAD_WINDOW + tail);
    }
    assert forall|index: nat| index < count implies (#[trigger] window_length(
        total as nat,
        window,
        index,
    ) as u32) & LENGTH_MASK >= MIN_WINDOW by {
        let length = window_length(total as nat, window, index);
        assert(length == window || length == tail);
    }
}

/// The number of commands that it takes to upload `length` bytes.
pub fn upload_windows(length: usize) -> (count: usize)
    ensures
        count == window_count(length as nat, UPLOAD_WINDOW as nat),
        count * UPLOAD_WINDOW >= length,
        count > 0 ==> (count - 1) * UPLOAD_WINDOW < length,
{
    let window = UPLOAD_WINDOW as usize;
    if length % window == 0 {
        length / window
    } else {
        length / window + 1
    }
}

/// Whether an upload of `length` bytes to `offset` stays within the 32 bits
/// of an address.
pub fn upload_fits(segment: Segment, model: Model, offset: u32, data: &[u8]) -> (fits: bool)
    ensures
        fits == (UploadPlan { segment, model, offset, data: data@ }).fits(),
{
    let count = upload_windows(data.len());
    count == 0 || (count - 1) as u64 <= ((u32::MAX - offset) / UPLOAD_WINDOW) as u64
}

/// The command that uploads window `index` of `data`.
///
/// Window `index` starts `index` windows into the data and into the
/// segment, and carries what is left of the data, up to a whole window.
pub fn upload_window(segment: Segment, model: Model, offset: u32, data: &[u8], index: usize) -> (command:
    Command)
    requires
        (UploadPlan { segment, model, offset, data: data@ }).fits(),
        index < (UploadPlan { segment, model, offset, data: data@ }).windows(),
    ensures
        (UploadPlan { segment, model, offset, data: data@ }).is_window(index as nat, command),
        command.packet() == (UploadPlan { segment, model, offset, data: data@ }).packet(
            index as nat,
        ),
        command.fits(),
{
    let ghost plan = UploadPlan { segment, model, offset, data: data@ };
    let window = UPLOAD_WINDOW as usize;
    let count = upload_windows(data.len());
    let start: usize = index * window;
    let left: usize = data.len() - start;
    let length: usize = if left < window {
        left
    } else {
        window
    };
    assert(length == plan.length(index as nat));
    let addr: u32 = (offset as u64 + index as u64 * UPLOAD_WINDOW as u64) as u32;
    let bank_id_len = bank_length(&segment, &model, false, length as u32);
    let bytes = vstd::slice::slice_to_vec(slice_subrange(data, start, start + length));
    Command::LoadFromPc { addr, bank_id_len, data: bytes }
}

/// The number of bytes that a download of `length` bytes asks for.
///
/// The length is rounded up to a multiple of four and then held to what the
/// segment can hold on this hardware revision.
pub fn download_length(segment: Segment, model: Model, length: u32) -> (total: u32)
    ensures
        total == download_length_spec(segment, model, length),
        total <= segment.max_length_spec(model),
        total % 4 == 0,
{
    let rounded: u64 = (length as u64 + 3) / 4 * 4;
    let max = segment.max_length(model);
    if rounded <= max as u64 {
        rounded as u32
    } else {
        max
    }
}

/// The number of commands that it takes to download `total` bytes.
pub fn download_windows(total: u32) -> (count: u32)
    ensures
        count == download_windows_spec(total),
{
    let tail = total % DOWNLOAD_WINDOW;
    if tail & LENGTH_MASK >= MIN_WINDOW {
        total / DOWNLOAD_WINDOW + 1
    } else {
        total / DOWNLOAD_WINDOW
    }
}

/// Whether a download of `total` bytes from `offset` stays within the 32
/// bits of an address.
pub fn download_fits(segment: Segment, model: Model, offset: u32, total: u32) -> (fits: bool)
    ensures
        fits == (DownloadPlan { segment, model, offset, total }).fits(),
{
    let count = download_windows(total);
    count == 0 || count - 1 <= (u32::MAX - offset) / DOWNLOAD_WINDOW
}

/// The command that downloads window `index` of `total` bytes.
pub fn download_window(segment: Segment, model: Model, offset: u32, total: u32, index: u32) -> (command:
    Command)
    requires
        (DownloadPlan { segment, model, offset, total }).fits(),
        index < (DownloadPlan { segment, model, offset, total }).windows(),
    ensures
        (DownloadPlan { segment, model, offset, total }).is_window(index as nat, command),
        command.packet() == (DownloadPlan { segment, model, offset, total }).packet(index as nat),
        command.recv_length_spec() == (DownloadPlan { segment, model, offset, total }).length(
            index as nat,
        ),
        command.recv_length_spec() >= MIN_WINDOW,
        command.fits(),
{
    let ghost plan = DownloadPlan { segment, model, offset, total };
    let tail = total % DOWNLOAD_WINDOW;
    assert(tail & LENGTH_MASK == tail) by (bit_vector)
        requires
            tail < 0x2_0000u32,
    ;
    let left: u32 = total - index * DOWNLOAD_WINDOW;
    let length: u32 = if left < DOWNLOAD_WINDOW {
        left
    } else {
        DOWNLOAD_WINDOW
    };
    assert(length == plan.length(index as nat));
    let addr: u32 = offset + index * DOWNLOAD_WINDOW;
    let bank_id_len = bank_length(&segment, &model, false, length);
    proof {
        lemma_bank_length_word(segment.bank(model, false), length);
    }
    Command::DumpToPc { addr, bank_id_len }
}

} // verus!
