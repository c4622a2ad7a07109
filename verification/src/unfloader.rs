//! Debug messages from the program that runs on the console.
//!
//! A message opens with four fixed bytes. Then come one byte that tells the
//! kind of the data, three bytes of length, most significant first, the
//! data, and four fixed bytes that close the message.

use vstd::prelude::*;
use vstd::std_specs::convert::FromSpecImpl;
use crate::error::{mismatch, Error, Frame};
use crate::text::bytes_eq;
use crate::transport::{Action, Event};

verus! {

/// What the data of a debug message is.
#[derive(Debug, Clone, Copy, PartialEq, Eq, Structural)]
pub enum DataType {
    Text,
    RawBinary,
    Header,
    Screenshot,
    Unknown,
}

/// The kind and the data of a debug message.
pub type DebugResponse = (DataType, Vec<u8>);

/// Length of the fixed bytes around a message and of its header.
pub const WORD_LEN: usize = 4;

/// Milliseconds to wait before the receive buffer is purged after a message
/// that did not open as it should.
pub const RESYNC_PAUSE: u64 = 5;

impl DataType {
    /// The kind that a byte of a message header stands for.
    pub open spec fn of_byte(byte: u8) -> DataType {
        if byte == 1 {
            DataType::Text
        } else if byte == 2 {
            DataType::RawBinary
        } else if byte == 3 {
            DataType::Header
        } else if byte == 4 {
            DataType::Screenshot
        } else {
            DataType::Unknown
        }
    }

    /// The byte that stands for a kind.
    pub open spec fn byte(self) -> u8 {
        match self {
            DataType::Text => 1u8,
            DataType::RawBinary => 2u8,
            DataType::Header => 3u8,
            DataType::Screenshot => 4u8,
            DataType::Unknown => 5u8,
        }
    }
}

impl From<u8> for DataType {
    fn from(byte: u8) -> (kind: DataType) {
        match byte {
            1 => DataType::Text,
            2 => DataType::RawBinary,
            3 => DataType::Header,
            4 => DataType::Screenshot,
            _ => DataType::Unknown,
        }
    }
}

impl FromSpecImpl<u8> for DataType {
    open spec fn obeys_from_spec() -> bool {
        true
    }

    open spec fn from_spec(byte: u8) -> DataType {
        DataType::of_byte(byte)
    }
}

impl From<DataType> for u8 {
    fn from(kind: DataType) -> (byte: u8) {
        match kind {
            DataType::Text => 1,
            DataType::RawBinary => 2,
            DataType::Header => 3,
            DataType::Screenshot => 4,
            DataType::Unknown => 5,
        }
    }
}

impl FromSpecImpl<DataType> for u8 {
    open spec fn obeys_from_spec() -> bool {
        true
    }

    open spec fn from_spec(kind: DataType) -> u8 {
        kind.byte()
    }
}

/// Every kind but `Unknown` comes back from its byte.
pub proof fn lemma_data_type_round_trip(kind: DataType)
    ensures
        kind != DataType::Unknown ==> DataType::of_byte(kind.byte()) == kind,
        DataType::of_byte(kind.byte()) == DataType::Unknown <==> kind == DataType::Unknown,
{
}

/// The four bytes that open a debug message.
pub open spec fn debug_header_spec() -> Seq<u8> {
    seq![0x44u8, 0x4Du8, 0x41u8, 0x40u8]
}

/// The four bytes that close a debug message.
pub open spec fn debug_complete_spec() -> Seq<u8> {
    seq![0x43u8, 0x4Du8, 0x50u8, 0x48u8]
}

/// The length that the header of a message announces.
pub open spec fn announced_length(header: Seq<u8>) -> int {
    header[1] * 0x1_0000 + header[2] * 0x100 + header[3]
}

/// The four bytes that open a debug message.
pub fn debug_header() -> (bytes: [u8; 4])
    ensures
        bytes@ == debug_header_spec(),
{
    let bytes: [u8; 4] = [0x44, 0x4D, 0x41, 0x40];
    assert(bytes@ =~= debug_header_spec());
    bytes
}

/// The four bytes that close a debug message.
pub fn debug_complete() -> (bytes: [u8; 4])
    ensures
        bytes@ == debug_complete_spec(),
{
    let bytes: [u8; 4] = [0x43, 0x4D, 0x50, 0x48];
    assert(bytes@ =~= debug_complete_spec());
    bytes
}

/// How far the reading of a debug message has come.
#[derive(Debug, Clone, Copy, PartialEq, Eq, Structural)]
pub enum DebugStage {
    /// Nothing has been asked of the transport.
    Ready,
    /// The opening bytes are being read.
    Opening,
    /// The opening bytes were wrong: the engine waits a moment.
    Pausing,
    /// The opening bytes were wrong: the receive buffer is being purged.
    Purging,
    /// The header is being read.
    Heading,
    /// The data is being read.
    Receiving,
    /// The closing bytes are being read.
    Closing,
    /// The message has been read, or reading it has failed.
    Finished,
}

/// Reads one debug message.
///
/// Where the message does not open as it should, the engine waits a moment
/// and has the receive buffer purged, once, and then reports the bytes that
/// came. A message that does not close as it should is reported at once.
pub struct DebugRead {
    stage: DebugStage,
    kind: DataType,
    data: Vec<u8>,
}

impl DebugRead {
    /// How far the reading has come.
    pub closed spec fn stage(&self) -> DebugStage {
        self.stage
    }

    /// The kind of the message, once its header has been read.
    pub closed spec fn kind(&self) -> DataType {
        self.kind
    }

    /// The data of the message once it has been read; before the header,
    /// the bytes that came in place of the opening bytes.
    pub closed spec fn data(&self) -> Seq<u8> {
        self.data@
    }

    /// Whether an event can follow the action that led to the stage the
    /// reading is in. A header has four bytes.
    pub open spec fn accepts(&self, event: Event) -> bool {
        match self.stage() {
            DebugStage::Ready => event is Start,
            DebugStage::Pausing | DebugStage::Purging => event is Done || event is Failed,
            DebugStage::Heading => (event matches Event::Data(bytes) && bytes@.len() == WORD_LEN)
                || event is Failed,
            DebugStage::Opening | DebugStage::Receiving | DebugStage::Closing => event is Data
                || event is Failed,
            DebugStage::Finished => false,
        }
    }

    /// What an event leads to: the reading after it, and the next action.
    pub open spec fn steps(&self, event: Event, next: DebugRead, action: Action<DebugResponse>) -> bool {
        match event {
            Event::Failed(error) => action.is_failure(error) && next.stage() == DebugStage::Finished,
            Event::Start => action.is_read(WORD_LEN as int) && next.stage() == DebugStage::Opening,
            Event::Done => if self.stage() == DebugStage::Pausing {
                &&& action == Action::<DebugResponse>::PurgeReceive
                &&& next.stage() == DebugStage::Purging
                &&& next.data() == self.data()
            } else {
                &&& next.stage() == DebugStage::Finished
                &&& action matches Action::Finish(Err(error))
                &&& error.is_mismatch(Frame::DebugHeader, self.data(), debug_header_spec())
            },
            Event::Data(bytes) => match self.stage() {
                DebugStage::Opening => if bytes@ == debug_header_spec() {
                    action.is_read(WORD_LEN as int) && next.stage() == DebugStage::Heading
                } else {
                    &&& action == Action::<DebugResponse>::Sleep(RESYNC_PAUSE)
                    &&& next.stage() == DebugStage::Pausing
                    &&& next.data() == bytes@
                },
                DebugStage::Heading => {
                    &&& next.kind() == DataType::of_byte(bytes@[0])
                    &&& next.data() == Seq::<u8>::empty()
                    &&& if announced_length(bytes@) > 0 {
                        action.is_read(announced_length(bytes@)) && next.stage()
                            == DebugStage::Receiving
                    } else {
                        action.is_read(WORD_LEN as int) && next.stage() == DebugStage::Closing
                    }
                },
                DebugStage::Receiving => {
                    &&& action.is_read(WORD_LEN as int)
                    &&& next.stage() == DebugStage::Closing
                    &&& next.kind() == self.kind()
                    &&& next.data() == bytes@
                },
                _ => {
                    &&& next.stage() == DebugStage::Finished
                    &&& if bytes@ == debug_complete_spec() {
                        action matches Action::Finish(Ok(message)) && message.0 == self.kind()
                            && message.1@ == self.data()
                    } else {
                        action matches Action::Finish(Err(error)) && error.is_mismatch(
                            Frame::DebugComplete,
                            bytes@,
                            debug_complete_spec(),
                        )
                    }
                },
            },
        }
    }

    /// Whether an event tells that the action before it went well and
    /// brought what a message holds in that place.
    pub open spec fn proceeds(&self, event: Event) -> bool {
        match self.stage() {
            DebugStage::Ready => event is Start,
            DebugStage::Opening => event matches Event::Data(bytes) && bytes@
                == debug_header_spec(),
            DebugStage::Heading => event matches Event::Data(bytes) && bytes@.len() == WORD_LEN,
            DebugStage::Receiving => event is Data,
            DebugStage::Closing => event matches Event::Data(bytes) && bytes@
                == debug_complete_spec(),
            _ => false,
        }
    }

    /// Whether `states`, `events` and `actions` tell of a reading on which
    /// nothing went wrong: it begins with a fresh reading, and each event
    /// brings what a message holds in that place and leads to the next
    /// state and action.
    pub open spec fn is_run(
        states: Seq<DebugRead>,
        events: Seq<Event>,
        actions: Seq<Action<DebugResponse>>,
    ) -> bool {
        &&& states.len() == events.len() + 1
        &&& actions.len() == events.len()
        &&& states[0].stage() == DebugStage::Ready
        &&& forall|i: int|
            0 <= i < events.len() ==> (#[trigger] states[i]).proceeds(events[i])
                && states[i].steps(events[i], states[i + 1], actions[i])
    }

    /// A reading that has not begun: no header has told the kind of the
    /// message, and no bytes have come.
    pub fn new() -> (reading: DebugRead)
        ensures
            reading.stage() == DebugStage::Ready,
            reading.kind() == DataType::Unknown,
            reading.data() == Seq::<u8>::empty(),
    {
        DebugRead { stage: DebugStage::Ready, kind: DataType::Unknown, data: Vec::new() }
    }

    /// How far the reading has come.
    pub fn current_stage(&self) -> (stage: DebugStage)
        ensures
            stage == self.stage(),
    {
        self.stage
    }

    /// Whether an event can follow the action that led to the stage the
    /// reading is in.
    pub fn can_accept(&self, event: &Event) -> (accepted: bool)
        ensures
            accepted == self.accepts(*event),
    {
        match self.stage {
            DebugStage::Ready => match event {
                Event::Start => true,
                _ => false,
            },
            DebugStage::Pausing | DebugStage::Purging => match event {
                Event::Done => true,
                Event::Failed(_) => true,
                _ => false,
            },
            DebugStage::Heading => match event {
                Event::Data(bytes) => bytes.len() == WORD_LEN,
                Event::Failed(_) => true,
                _ => false,
            },
            DebugStage::Opening | DebugStage::Receiving | DebugStage::Closing => match event {
                Event::Data(_) => true,
                Event::Failed(_) => true,
                _ => false,
            },
            DebugStage::Finished => false,
        }
    }

    /// Takes the outcome of the last action and says what to do next.
    pub fn advance(&mut self, event: Event) -> (action: Action<DebugResponse>)
        requires
            old(self).accepts(event),
        ensures
            old(self).steps(event, *final(self), action),
    {
        match event {
            Event::Failed(error) => {
                self.stage = DebugStage::Finished;
                Action::Finish(Err(error))
            },
            Event::Start => {
                self.stage = DebugStage::Opening;
                Action::Read(WORD_LEN)
            },
            Event::Done => match self.stage {
                DebugStage::Pausing => {
                    self.stage = DebugStage::Purging;
                    Action::PurgeReceive
                },
                _ => {
                    self.stage = DebugStage::Finished;
                    let expected = debug_header();
                    Action::Finish(
                        Err(mismatch(Frame::DebugHeader, self.data.as_slice(), expected.as_slice())),
                    )
                },
            },
            Event::Data(bytes) => match self.stage {
                DebugStage::Opening => {
                    let expected = debug_header();
                    if bytes_eq(bytes.as_slice(), expected.as_slice()) {
                        self.stage = DebugStage::Heading;
                        Action::Read(WORD_LEN)
                    } else {
                        self.data = bytes;
                        self.stage = DebugStage::Pausing;
                        Action::Sleep(RESYNC_PAUSE)
                    }
                },
                DebugStage::Heading => {
                    self.kind = DataType::from(bytes[0]);
                    self.data = Vec::new();
                    let length: usize = bytes[1] as usize * 0x1_0000 + bytes[2] as usize * 0x100
                        + bytes[3] as usize;
                    if length > 0 {
                        self.stage = DebugStage::Receiving;
                        Action::Read(length)
                    } else {
                        self.stage = DebugStage::Closing;
                        Action::Read(WORD_LEN)
                    }
                },
                DebugStage::Receiving => {
                    self.data = bytes;
                    self.stage = DebugStage::Closing;
                    Action::Read(WORD_LEN)
                },
                _ => {
                    self.stage = DebugStage::Finished;
                    let expected = debug_complete();
                    if bytes_eq(bytes.as_slice(), expected.as_slice()) {
                        let mut data: Vec<u8> = Vec::new();
                        core::mem::swap(&mut data, &mut self.data);
                        Action::Finish(Ok((self.kind, data)))
                    } else {
                        Action::Finish(
                            Err(mismatch(Frame::DebugComplete, bytes.as_slice(), expected.as_slice())),
                        )
                    }
                },
            },
        }
    }
}

/// A reading on which nothing goes wrong reads the four opening bytes, the
/// header, the data in the length that the header announces, and the four
/// closing bytes, and ends with the kind that the header tells and the data
/// that came.
pub proof fn lemma_debug_run(
    states: Seq<DebugRead>,
    events: Seq<Event>,
    actions: Seq<Action<DebugResponse>>,
)
    requires
        DebugRead::is_run(states, events, actions),
    ensures
        events.len() > 0 ==> actions[0].is_read(WORD_LEN as int),
        events.len() > 1 ==> actions[1].is_read(WORD_LEN as int),
        events.len() > 2 && announced_length(events[2].data()) == 0 ==> {
            &&& events.len() <= 4
            &&& actions[2].is_read(WORD_LEN as int)
            &&& events.len() > 3 ==> (actions[3] matches Action::Finish(Ok(message)) && message.0
                == DataType::of_byte(events[2].data()[0]) && message.1@ == Seq::<u8>::empty())
        },
        events.len() > 2 && announced_length(events[2].data()) > 0 ==> {
            &&& events.len() <= 5
            &&& actions[2].is_read(announced_length(events[2].data()))
            &&& events.len() > 3 ==> actions[3].is_read(WORD_LEN as int)
            &&& events.len() > 4 ==> (actions[4] matches Action::Finish(Ok(message)) && message.0
                == DataType::of_byte(events[2].data()[0]) && message.1@ == events[3].data())
        },
{
    if events.len() > 0 {
        assert(states[0].proceeds(events[0]));
    }
    if events.len() > 1 {
        assert(states[1].proceeds(events[1]));
    }
    if events.len() > 2 {
        assert(states[2].proceeds(events[2]));
    }
    if events.len() > 3 {
        assert(states[3].proceeds(events[3]));
    }
    if events.len() > 4 {
        assert(states[4].proceeds(events[4]));
    }
    if events.len() > 5 {
        assert(states[5].proceeds(events[5]));
    }
}

} // verus!
