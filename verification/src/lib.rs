//! Protocol engine for the 64drive flash cartridge.
//!
//! The crate holds everything that can be decided without touching the
//! device: how commands are framed, how a bulk transfer is cut into windows,
//! which boot cipher and save type an image asks for. Talking to the USB
//! bridge is left to the caller, who performs the [`transport::Action`]s that
//! the transfer machines hand out and reports back what happened.

pub mod error;
pub mod text;
pub mod hex;
pub mod model;
pub mod segment;
pub mod cic;
pub mod savetype;
pub mod romdb;
pub mod buffer;
pub mod command;
pub mod transport;
pub mod exchange;
pub mod window;
pub mod transfer;
pub mod unfloader;
pub mod sixtyfourdrive;
