//! Core of a Z80-MBC2 emulator: the I/O coprocessor's port protocol, the
//! banked memory, the disk back-end's registers and the pacing of the run loop.
//!
//! The library performs no terminal or file I/O itself and does not read the
//! clock. Every port transfer is made in two steps: the machine first says
//! what it needs from the host, the host does that, and the transfer is then
//! completed with the host's answer.

pub mod clock;
pub mod filesystem;
pub mod host;
pub mod images;
pub mod laws;
pub mod mbc2_machine;
pub mod medium;
pub mod memory;
pub mod protocol;
pub mod run_loop;
