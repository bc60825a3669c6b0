//! What the machine asks of its host, and what the host answers.
//!
//! The machine never touches the terminal or a disk image. Before a port
//! transfer or a tick it names the one thing it needs as a [`HostRequest`];
//! the host does it and hands the outcome back as a [`HostReply`], with which
//! the transfer is completed. A reply of another kind than the request calls
//! for counts as "no input" for the console, as a failure for the disk and
//! as "no reading" for the clock.

use vstd::prelude::*;
use crate::clock::{local_time, WallClock};
use crate::filesystem::OpenOutcome;

verus! {

/// The work that one transfer needs from the host.
#[derive(Clone, Copy, PartialEq, Eq, Debug)]
pub enum HostRequest {
    /// Nothing to do; answer with [`HostReply::Nothing`].
    Nothing,
    /// Send the character to the terminal; answer with [`HostReply::Nothing`].
    ConsolePut(u8),
    /// Probe the terminal for pending input without blocking; answer with
    /// [`HostReply::Pending`].
    ConsoleStatus,
    /// If the terminal has input pending, take one character; answer with
    /// [`HostReply::Character`].
    ConsoleRead,
    /// Give up the disk image held so far, then open the image of this disk
    /// for reading and writing. If that fails no image is held. Answer with
    /// [`HostReply::Opened`].
    OpenDisk { disk_set: u8, disk_number: u8 },
    /// Give up the disk image held so far; answer with
    /// [`HostReply::Nothing`].
    CloseDisk,
    /// Position the image at `seek` if that is given, and only if that
    /// succeeded read one byte at the cursor; answer with [`HostReply::Read`].
    ReadDisk { seek: Option<u64> },
    /// Position the image at `seek` if that is given, and only if that
    /// succeeded write `data` at the cursor; answer with
    /// [`HostReply::Written`].
    WriteDisk { seek: Option<u64>, data: u8 },
    /// Read the clock; answer with [`HostReply::Clock`], or with
    /// [`HostReply::Nothing`] if the clock cannot be read.
    ReadClock,
    /// Tell the user that the guest used an opcode that is not implemented;
    /// answer with [`HostReply::Nothing`].
    Report { opcode: u8 },
}

/// The outcome of the work that a [`HostRequest`] named.
#[derive(Clone, Copy, PartialEq, Eq, Debug)]
pub enum HostReply {
    Nothing,
    /// Whether the terminal has input pending.
    Pending(bool),
    /// The character taken from the terminal, `None` when none was pending or
    /// reading failed.
    Character(Option<u8>),
    /// What opening the disk image came to.
    Opened(OpenOutcome),
    /// The byte read from the image, `None` when seeking or reading failed.
    Read(Option<u8>),
    /// Whether seeking and writing succeeded.
    Written(bool),
    /// The clock's reading: the seconds since the start of 1970 in universal
    /// time, and the seconds that local time is ahead of universal time.
    Clock { unix_seconds: i64, offset_seconds: i32 },
}

impl HostReply {
    /// Whether the terminal has input pending, as far as this reply says so.
    pub open spec fn pending(self) -> bool {
        self matches HostReply::Pending(p) && p
    }

    /// The character that this reply brings from the terminal.
    pub open spec fn character(self) -> Option<u8> {
        match self {
            HostReply::Character(c) => c,
            _ => None,
        }
    }

    /// What opening the disk image came to; a failure unless this reply says
    /// otherwise.
    pub open spec fn open_outcome(self) -> OpenOutcome {
        match self {
            HostReply::Opened(o) => o,
            _ => OpenOutcome::Failed,
        }
    }

    /// The byte that this reply brings from the disk image.
    pub open spec fn read_byte(self) -> Option<u8> {
        match self {
            HostReply::Read(b) => b,
            _ => None,
        }
    }

    /// Whether this reply says that a byte reached the disk image.
    pub open spec fn written(self) -> bool {
        self matches HostReply::Written(w) && w
    }

    /// The clock's reading that this reply brings: the seconds since the
    /// start of 1970 and the offset of local time.
    pub open spec fn clock(self) -> Option<(i64, i32)> {
        match self {
            HostReply::Clock { unix_seconds, offset_seconds } => Some(
                (unix_seconds, offset_seconds),
            ),
            _ => None,
        }
    }

    /// The local date and time that this reply brings, if it brings a
    /// reading of the clock that names one.
    pub open spec fn local_time(self) -> Option<WallClock> {
        match self.clock() {
            Some((unix_seconds, offset_seconds)) => local_time(unix_seconds, offset_seconds),
            None => None,
        }
    }

    pub fn take_clock(self) -> (c: Option<(i64, i32)>)
        ensures
            c == self.clock(),
    {
        match self {
            HostReply::Clock { unix_seconds, offset_seconds } => Some(
                (unix_seconds, offset_seconds),
            ),
            _ => None,
        }
    }

    pub fn is_pending(self) -> (p: bool)
        ensures
            p == self.pending(),
    {
        match self {
            HostReply::Pending(p) => p,
            _ => false,
        }
    }

    pub fn take_character(self) -> (c: Option<u8>)
        ensures
            c == self.character(),
    {
        match self {
            HostReply::Character(c) => c,
            _ => None,
        }
    }

    pub fn take_open_outcome(self) -> (o: OpenOutcome)
        ensures
            o == self.open_outcome(),
    {
        match self {
            HostReply::Opened(o) => o,
            _ => OpenOutcome::Failed,
        }
    }

    pub fn take_read_byte(self) -> (b: Option<u8>)
        ensures
            b == self.read_byte(),
    {
        match self {
            HostReply::Read(b) => b,
            _ => None,
        }
    }

    pub fn is_written(self) -> (w: bool)
        ensures
            w == self.written(),
    {
        match self {
            HostReply::Written(w) => w,
            _ => false,
        }
    }
}

} // verus!
