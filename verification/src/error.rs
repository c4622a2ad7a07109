//! Errors reported by the protocol engine.

use vstd::prelude::*;
use vstd::string::*;
use crate::hex::{hex_list, hex_list_spec};

verus! {

/// Failure of a blocking read or write on the transport.
#[derive(Debug, Clone, Copy, PartialEq, Eq, Structural)]
pub enum TimeoutError {
    /// The driver reported this status code.
    FtStatus(u32),
    /// The transfer ended after `actual` of `expected` bytes.
    Timeout { actual: usize, expected: usize },
}

/// The place in the conversation where the device answered with the wrong bytes.
#[derive(Debug, Clone, Copy, PartialEq, Eq, Structural)]
pub enum Frame {
    /// The four bytes that close a command.
    CommandComplete,
    /// The four bytes that open a debug message.
    DebugHeader,
    /// The four bytes that close a debug message.
    DebugComplete,
}

/// Bytes received from the device, next to the bytes that were due.
#[derive(Debug, PartialEq, Eq)]
pub struct Mismatch {
    pub frame: Frame,
    pub actual: Vec<u8>,
    pub expected: Vec<u8>,
}

impl Frame {
    /// How the report of a mismatch in this place begins.
    pub open spec fn preamble_spec(self) -> Seq<char> {
        match self {
            Frame::CommandComplete => "64Drive: complete packet mismatch: "@,
            Frame::DebugHeader => "64drive: debug packet mismatch: "@,
            Frame::DebugComplete => "64drive: complete packet mismatch: "@,
        }
    }

    /// How the report of a mismatch in this place begins.
    pub fn preamble(&self) -> (text: &'static str)
        ensures
            text@ == self.preamble_spec(),
    {
        match self {
            Frame::CommandComplete => "64Drive: complete packet mismatch: ",
            Frame::DebugHeader => "64drive: debug packet mismatch: ",
            Frame::DebugComplete => "64drive: complete packet mismatch: ",
        }
    }
}

impl Mismatch {
    /// Whether this mismatch was found in `frame` and holds exactly these bytes.
    pub open spec fn is(self, frame: Frame, actual: Seq<u8>, expected: Seq<u8>) -> bool {
        &&& self.frame == frame
        &&& self.actual@ == actual
        &&& self.expected@ == expected
    }

    /// The report of a mismatch: where it was found, the bytes that came
    /// and the bytes that were due.
    pub open spec fn message_spec(self) -> Seq<char> {
        self.frame.preamble_spec() + hex_list_spec(self.actual@) + " vs expected "@
            + hex_list_spec(self.expected@)
    }

    /// The report of a mismatch, such as
    /// `64Drive: complete packet mismatch: [43, 4D, 50, 20] vs expected [43, 4D, 50, 30]`.
    pub fn message(&self) -> (text: String)
        ensures
            text@ == self.message_spec(),
    {
        let mut text = String::from_str(self.frame.preamble());
        let actual = hex_list(self.actual.as_slice());
        text.append(actual.as_str());
        text.append(" vs expected ");
        let expected = hex_list(self.expected.as_slice());
        text.append(expected.as_str());
        text
    }
}

/// What can go wrong between the host and the cartridge.
#[derive(Debug, PartialEq, Eq)]
pub enum Error {
    /// The driver refused an operation with this status code.
    FtdiStatus(u32),
    /// A read or write did not finish in time.
    FtdiTimeout(TimeoutError),
    /// The device broke the framing of the protocol.
    CommunicationFailed(Mismatch),
    /// The device descriptor is not one of a known cartridge.
    ModelDetectFailed,
    /// The cartridge family has no such operation.
    UnsupportedOperation(String),
}

impl Error {
    /// Whether this is a framing error found in `frame` with exactly these bytes.
    pub open spec fn is_mismatch(self, frame: Frame, actual: Seq<u8>, expected: Seq<u8>) -> bool {
        self matches Error::CommunicationFailed(m) && m.is(frame, actual, expected)
    }
}

/// The error for bytes that came in place of the bytes that were due.
pub fn mismatch(frame: Frame, actual: &[u8], expected: &[u8]) -> (e: Error)
    ensures
        e.is_mismatch(frame, actual@, expected@),
{
    Error::CommunicationFailed(
        Mismatch { frame, actual: vstd::slice::slice_to_vec(actual), expected: vstd::slice::slice_to_vec(expected) },
    )
}

} // verus!
