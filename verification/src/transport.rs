//! What the protocol engine asks of the transport, and what it is told.
//!
//! The engine never touches the device. Each exchange with the cartridge is
//! a machine that is advanced by an [`Event`] and answers with the next
//! [`Action`]; whoever owns the device performs the action and reports the
//! outcome as the next event, until the machine finishes.

use vstd::prelude::*;
use crate::error::Error;

verus! {

/// The next thing to do on the way through an exchange.
#[derive(Debug, PartialEq, Eq)]
pub enum Action<T> {
    /// Send all of these bytes to the device.
    Write(Vec<u8>),
    /// Receive exactly this many bytes from the device.
    Read(usize),
    /// Wait for this many milliseconds.
    Sleep(u64),
    /// Drop what the device has sent and nobody has read.
    PurgeReceive,
    /// The exchange is over, with this result.
    Finish(Result<T, Error>),
}

/// The outcome of the action before, or the start of the exchange.
#[derive(Debug, PartialEq, Eq)]
pub enum Event {
    /// Nothing has been done yet.
    Start,
    /// The write, the wait or the purge is done.
    Done,
    /// The read is done and brought these bytes.
    Data(Vec<u8>),
    /// The transport could not do what was asked.
    Failed(Error),
}

/// How far an exchange has come.
#[derive(Debug, Clone, Copy, PartialEq, Eq, Structural)]
pub enum Stage {
    /// Nothing has been asked of the transport.
    Ready,
    /// A packet is being written.
    Sending,
    /// The answer to the packet is being read.
    Receiving,
    /// The footer is being read.
    Confirming,
    /// The exchange is over.
    Finished,
}

impl<T> Action<T> {
    /// Whether the action is to write exactly these bytes.
    pub open spec fn is_write(self, bytes: Seq<u8>) -> bool {
        self matches Action::Write(b) && b@ == bytes
    }

    /// Whether the action is to read this many bytes.
    pub open spec fn is_read(self, length: int) -> bool {
        self matches Action::Read(n) && n == length
    }

    /// Whether the exchange ends with this error.
    pub open spec fn is_failure(self, error: Error) -> bool {
        self matches Action::Finish(Err(e)) && e == error
    }
}

impl Event {
    /// The bytes that an event brought.
    pub open spec fn data(self) -> Seq<u8> {
        match self {
            Event::Data(bytes) => bytes@,
            _ => Seq::empty(),
        }
    }
}

impl Stage {
    /// Whether an event can follow the action that led to this stage.
    pub open spec fn accepts(self, event: Event) -> bool {
        match self {
            Stage::Ready => event is Start,
            Stage::Sending => event is Done || event is Failed,
            Stage::Receiving | Stage::Confirming => event is Data || event is Failed,
            Stage::Finished => false,
        }
    }

    /// Whether an event can follow the action that led to this stage.
    pub fn can_accept(&self, event: &Event) -> (accepted: bool)
        ensures
            accepted == self.accepts(*event),
    {
        match self {
            Stage::Ready => match event {
                Event::Start => true,
                _ => false,
            },
            Stage::Sending => match event {
                Event::Done => true,
                Event::Failed(_) => true,
                _ => false,
            },
            Stage::Receiving | Stage::Confirming => match event {
                Event::Data(_) => true,
                Event::Failed(_) => true,
                _ => false,
            },
            Stage::Finished => false,
        }
    }
}

} // verus!
