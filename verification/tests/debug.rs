use flashy64::error::{Error, Frame, Mismatch, TimeoutError};
use flashy64::model::Model;
use flashy64::sixtyfourdrive::SixtyFourDrive;
use flashy64::transport::{Action, Event};
use flashy64::unfloader::{debug_complete, debug_header, DataType, DebugRead, DebugStage};

#[test]
fn data_type_of_each_byte() {
    assert_eq!(DataType::from(1u8), DataType::Text);
    assert_eq!(DataType::from(2u8), DataType::RawBinary);
    assert_eq!(DataType::from(3u8), DataType::Header);
    assert_eq!(DataType::from(4u8), DataType::Screenshot);
    assert_eq!(DataType::from(0u8), DataType::Unknown);
    assert_eq!(DataType::from(5u8), DataType::Unknown);
    assert_eq!(DataType::from(255u8), DataType::Unknown);
}

#[test]
fn byte_of_each_data_type() {
    assert_eq!(u8::from(DataType::Text), 1);
    assert_eq!(u8::from(DataType::RawBinary), 2);
    assert_eq!(u8::from(DataType::Header), 3);
    assert_eq!(u8::from(DataType::Screenshot), 4);
    assert_eq!(u8::from(DataType::Unknown), 5);
    for kind in [DataType::Text, DataType::RawBinary, DataType::Header, DataType::Screenshot] {
        assert_eq!(DataType::from(u8::from(kind)), kind);
    }
}

#[test]
fn debug_frames_are_the_documented_bytes() {
    assert_eq!(&debug_header(), b"DMA@");
    assert_eq!(&debug_complete(), b"CMPH");
}

#[test]
fn debug_message_is_read_in_four_steps() {
    let cart = SixtyFourDrive::new(Model::HW2);
    let mut reading = cart.recv_debug();
    assert_eq!(reading.current_stage(), DebugStage::Ready);
    assert_eq!(reading.advance(Event::Start), Action::Read(4));
    assert_eq!(reading.current_stage(), DebugStage::Opening);
    assert_eq!(reading.advance(Event::Data(b"DMA@".to_vec())), Action::Read(4));
    assert_eq!(reading.current_stage(), DebugStage::Heading);
    assert_eq!(reading.advance(Event::Data(vec![1, 0, 0, 5])), Action::Read(5));
    assert_eq!(reading.current_stage(), DebugStage::Receiving);
    assert_eq!(reading.advance(Event::Data(b"hello".to_vec())), Action::Read(4));
    assert_eq!(reading.current_stage(), DebugStage::Closing);
    assert_eq!(
        reading.advance(Event::Data(b"CMPH".to_vec())),
        Action::Finish(Ok((DataType::Text, b"hello".to_vec())))
    );
    assert_eq!(reading.current_stage(), DebugStage::Finished);
}

#[test]
fn debug_length_is_three_bytes_big_endian() {
    let mut reading = DebugRead::new();
    reading.advance(Event::Start);
    reading.advance(Event::Data(b"DMA@".to_vec()));
    assert_eq!(reading.advance(Event::Data(vec![4, 0x01, 0x02, 0x03])), Action::Read(0x01_0203));
    let mut largest = DebugRead::new();
    largest.advance(Event::Start);
    largest.advance(Event::Data(b"DMA@".to_vec()));
    assert_eq!(largest.advance(Event::Data(vec![2, 0xFF, 0xFF, 0xFF])), Action::Read(0xFF_FFFF));
}

#[test]
fn debug_message_without_data_skips_the_read() {
    let mut reading = DebugRead::new();
    reading.advance(Event::Start);
    reading.advance(Event::Data(b"DMA@".to_vec()));
    assert_eq!(reading.advance(Event::Data(vec![9, 0, 0, 0])), Action::Read(4));
    assert_eq!(reading.current_stage(), DebugStage::Closing);
    assert_eq!(
        reading.advance(Event::Data(b"CMPH".to_vec())),
        Action::Finish(Ok((DataType::Unknown, vec![])))
    );
}

#[test]
fn debug_message_that_opens_wrong_is_purged_once_and_reported() {
    let mut reading = DebugRead::new();
    reading.advance(Event::Start);
    assert_eq!(reading.advance(Event::Data(b"DMA!".to_vec())), Action::Sleep(5));
    assert_eq!(reading.current_stage(), DebugStage::Pausing);
    assert_eq!(reading.advance(Event::Done), Action::PurgeReceive);
    assert_eq!(reading.current_stage(), DebugStage::Purging);
    assert_eq!(
        reading.advance(Event::Done),
        Action::Finish(Err(Error::CommunicationFailed(Mismatch {
            frame: Frame::DebugHeader,
            actual: b"DMA!".to_vec(),
            expected: b"DMA@".to_vec(),
        })))
    );
    assert_eq!(reading.current_stage(), DebugStage::Finished);
}

#[test]
fn debug_message_reports_a_purge_that_failed() {
    let mut reading = DebugRead::new();
    reading.advance(Event::Start);
    reading.advance(Event::Data(vec![0, 0, 0, 0]));
    reading.advance(Event::Done);
    assert_eq!(
        reading.advance(Event::Failed(Error::FtdiStatus(3))),
        Action::Finish(Err(Error::FtdiStatus(3)))
    );
}

#[test]
fn debug_message_that_closes_wrong_is_reported_at_once() {
    let mut reading = DebugRead::new();
    reading.advance(Event::Start);
    reading.advance(Event::Data(b"DMA@".to_vec()));
    reading.advance(Event::Data(vec![2, 0, 0, 2]));
    reading.advance(Event::Data(vec![0xAB, 0xCD]));
    assert_eq!(
        reading.advance(Event::Data(b"CMPh".to_vec())),
        Action::Finish(Err(Error::CommunicationFailed(Mismatch {
            frame: Frame::DebugComplete,
            actual: b"CMPh".to_vec(),
            expected: b"CMPH".to_vec(),
        })))
    );
}

#[test]
fn debug_message_stops_at_a_failure_of_the_transport() {
    let mut reading = DebugRead::new();
    reading.advance(Event::Start);
    let timeout = Error::FtdiTimeout(TimeoutError::Timeout { actual: 1, expected: 4 });
    assert_eq!(
        reading.advance(Event::Failed(timeout)),
        Action::Finish(Err(Error::FtdiTimeout(TimeoutError::Timeout { actual: 1, expected: 4 })))
    );
    assert_eq!(reading.current_stage(), DebugStage::Finished);
}

#[test]
fn debug_reading_accepts_what_answers_its_action() {
    let mut reading = DebugRead::new();
    assert!(reading.can_accept(&Event::Start));
    assert!(!reading.can_accept(&Event::Done));
    reading.advance(Event::Start);
    assert!(reading.can_accept(&Event::Data(vec![1, 2])));
    assert!(!reading.can_accept(&Event::Start));
    reading.advance(Event::Data(b"DMA@".to_vec()));
    assert!(reading.can_accept(&Event::Data(vec![1, 2, 3, 4])));
    assert!(!reading.can_accept(&Event::Data(vec![1, 2, 3])));
    assert!(!reading.can_accept(&Event::Data(vec![1, 2, 3, 4, 5])));
    assert!(reading.can_accept(&Event::Failed(Error::FtdiStatus(1))));
    reading.advance(Event::Failed(Error::FtdiStatus(1)));
    assert!(!reading.can_accept(&Event::Start));
    assert!(!reading.can_accept(&Event::Failed(Error::FtdiStatus(1))));
}
