//! Protocol core of an MSP link to a flight controller.
//!
//! The crate holds the parts of the link that decide and compute, and proves
//! them:
//!
//! - `wire`: the byte layouts of the payloads that the link reads and writes;
//! - `frame`: frames, their command codes, and how a frame travels;
//! - `codec`: what is taken on trust of the frame parser and serializer;
//! - `decoder`: what a stream of bytes decodes to, wherever it is cut;
//! - `router`: which reply goes to whom;
//! - `msp`: the steps of the read pump and the write pump, and the requests;
//! - `flash`: the state machine that reads the dataflash window by window.
//!
//! Reading and writing the serial port, timers and tasks are left to the
//! caller, which hands in what happened and carries out what comes back.

pub mod codec;
pub mod decoder;
pub mod flash;
pub mod frame;
pub mod msp;
pub mod router;
pub mod wire;
