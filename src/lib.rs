//! Reads a cartridge ROM through a parallel-bus adapter board.
//!
//! [`board`] holds the bus driver: the electrical protocol of address, strobe
//! and data transfers through the board's I/O expander, emitted as a program of
//! primitive hardware actions for the caller to perform. [`stream`] holds the
//! bank-controller engine that turns a ROM into a sequence of bus operations,
//! [`mbc`] the per-scheme readers, the header window and the dispatcher, and
//! [`rom`] the cartridge header.

pub mod board;
pub mod mbc;
pub mod rom;
pub mod stream;
