//! A disk image without faults, as a model of the host's part in sector
//! transfers, and the law that a sector written is the sector read back.

use vstd::prelude::*;
use crate::clock::WallClock;
use crate::filesystem::{sector_offset, FsError, SECTORS, SECTOR_SIZE, TRACKS};
use crate::host::{HostReply, HostRequest};
use crate::protocol::{
    is_data_port,
    MachineState,
    Registers,
    OPCODE_NOP,
    OP_READSECT,
    OP_SELSECT,
    OP_SELTRACK,
    OP_WRITESECT,
};

verus! {

/// A disk image in the host's hands: its bytes and the cursor at which the
/// next byte is read or written.
pub struct Medium {
    pub bytes: Seq<u8>,
    pub cursor: int,
}

impl Medium {
    /// Where a transfer takes place: at `seek` if that is given, else at the
    /// cursor.
    pub open spec fn position(self, seek: Option<u64>) -> int {
        match seek {
            Some(at) => at as int,
            None => self.cursor,
        }
    }

    /// Carries out a disk request as a host does whose image never fails
    /// within its bytes. A transfer outside them fails and leaves the image as
    /// it is. Requests that are not for the disk are answered with nothing.
    pub open spec fn serve(self, request: HostRequest) -> (Medium, HostReply) {
        match request {
            HostRequest::ReadDisk { seek } => {
                let at = self.position(seek);
                if 0 <= at < self.bytes.len() {
                    (Medium { cursor: at + 1, ..self }, HostReply::Read(Some(self.bytes[at])))
                } else {
                    (self, HostReply::Read(None))
                }
            },
            HostRequest::WriteDisk { seek, data } => {
                let at = self.position(seek);
                if 0 <= at < self.bytes.len() {
                    (
                        Medium { bytes: self.bytes.update(at, data), cursor: at + 1 },
                        HostReply::Written(true),
                    )
                } else {
                    (self, HostReply::Written(false))
                }
            },
            _ => (self, HostReply::Nothing),
        }
    }

    /// The image with `payload` in place of the bytes from `at` on.
    pub open spec fn overwritten(self, at: int, payload: Seq<u8>) -> Seq<u8> {
        Seq::new(
            self.bytes.len(),
            |i: int|
                if at <= i < at + payload.len() {
                    payload[i - at]
                } else {
                    self.bytes[i]
                },
        )
    }
}

/// The machine and the image after a write to a port for which the image
/// did the host's part.
pub open spec fn served_out(s: MachineState, m: Medium, address: u16, value: u8) -> (
    MachineState,
    Medium,
) {
    let (medium, reply) = m.serve(s.port_out_request(address, value));
    (s.port_out(address, value, reply), medium)
}

/// The machine and the image after a read from a port for which the image
/// did the host's part, and the byte read.
pub open spec fn served_in(s: MachineState, m: Medium, address: u16, now: Option<WallClock>) -> (
    MachineState,
    Medium,
    u8,
) {
    let (medium, reply) = m.serve(s.port_in_request(address));
    let (machine, value) = s.port_in(address, reply, now);
    (machine, medium, value)
}

/// The machine after the guest selected a track, low byte first, and a
/// sector.
pub open spec fn select_sector(
    s: MachineState,
    command: u16,
    data: u16,
    track: u16,
    sector: u8,
) -> MachineState {
    s.port_out(command, OP_SELTRACK, HostReply::Nothing).port_out(
        data,
        (track % 256) as u8,
        HostReply::Nothing,
    ).port_out(data, (track / 256) as u8, HostReply::Nothing).port_out(
        command,
        OP_SELSECT,
        HostReply::Nothing,
    ).port_out(data, sector, HostReply::Nothing)
}

/// The machine and the image after the guest wrote the bytes of `payload` to
/// the data port.
pub open spec fn after_payload(s: MachineState, m: Medium, data: u16, payload: Seq<u8>) -> (
    MachineState,
    Medium,
)
    decreases payload.len(),
{
    if payload.len() == 0 {
        (s, m)
    } else {
        let (machine, medium) = after_payload(s, m, data, payload.drop_last());
        served_out(machine, medium, data, payload.last())
    }
}

/// The machine and the image after the guest read `count` bytes from the
/// command port, and the bytes read.
pub open spec fn after_reads(
    s: MachineState,
    m: Medium,
    command: u16,
    count: nat,
    now: Option<WallClock>,
) -> (MachineState, Medium, Seq<u8>)
    decreases count,
{
    if count == 0 {
        (s, m, Seq::empty())
    } else {
        let (machine, medium, bytes) = after_reads(s, m, command, (count - 1) as nat, now);
        let (next, image, value) = served_in(machine, medium, command, now);
        (next, image, bytes.push(value))
    }
}

/// The machine and the image after the guest wrote a sector.
pub open spec fn write_sector(
    s: MachineState,
    m: Medium,
    command: u16,
    data: u16,
    payload: Seq<u8>,
) -> (MachineState, Medium) {
    after_payload(s.port_out(command, OP_WRITESECT, HostReply::Nothing), m, data, payload)
}

/// The machine and the image after the guest read a sector, and the sector's
/// bytes.
pub open spec fn read_sector(s: MachineState, m: Medium, command: u16, now: Option<WallClock>) -> (
    MachineState,
    Medium,
    Seq<u8>,
) {
    after_reads(
        s.port_out(command, OP_READSECT, HostReply::Nothing),
        m,
        command,
        SECTOR_SIZE as nat,
        now,
    )
}

/// Selecting a track and a sector of the disk stores both, clears the error
/// and leaves the opcode at NOP.
pub proof fn select_sector_selects(
    s: MachineState,
    command: u16,
    data: u16,
    track: u16,
    sector: u8,
)
    requires
        !is_data_port(command),
        is_data_port(data),
        track < TRACKS,
        sector < SECTORS,
    ensures
        ({
            let end = select_sector(s, command, data, track, sector);
            &&& end.disk.track == track
            &&& end.disk.sector == sector
            &&& end.disk.last_error == FsError::NoError
            &&& end.disk.opened == s.disk.opened
            &&& end.regs.opcode == OPCODE_NOP
            &&& end.mem == s.mem
        }),
{
}

/// Writing the first bytes of a sector puts them into the image from the
/// sector's offset on, one after the other.
proof fn payload_lands(s: MachineState, m: Medium, data: u16, payload: Seq<u8>)
    requires
        is_data_port(data),
        s.regs.opcode == OP_WRITESECT,
        s.regs.io_byte_count == 0,
        s.disk.opened,
        s.disk.wf(),
        s.disk.offset() + SECTOR_SIZE <= m.bytes.len(),
        payload.len() <= SECTOR_SIZE,
    ensures
        ({
            let (end, image) = after_payload(s, m, data, payload);
            &&& end.regs == Registers {
                io_byte_count: payload.len() as u32,
                opcode: if payload.len() < SECTOR_SIZE {
                    OP_WRITESECT
                } else {
                    OPCODE_NOP
                },
                ..s.regs
            }
            &&& end.mem == s.mem
            &&& end.disk.opened
            &&& end.disk.track == s.disk.track
            &&& end.disk.sector == s.disk.sector
            &&& payload.len() > 0 ==> end.disk.last_error == FsError::NoError && image.cursor
                == s.disk.offset() + payload.len()
            &&& image.bytes == m.overwritten(s.disk.offset(), payload)
        }),
    decreases payload.len(),
{
    if payload.len() == 0 {
        assert(m.bytes =~= m.overwritten(s.disk.offset(), payload));
    } else {
        let head = payload.drop_last();
        payload_lands(s, m, data, head);
        let (before, image) = after_payload(s, m, data, head);
        let (end, after) = served_out(before, image, data, payload.last());
        assert(after.bytes =~= m.overwritten(s.disk.offset(), payload));
    }
}

/// Reading the first bytes of a sector yields the image's bytes from the
/// sector's offset on, one after the other.
proof fn reads_follow_image(s: MachineState, m: Medium, command: u16, count: nat, now: Option<WallClock>)
    requires
        !is_data_port(command),
        s.regs.opcode == OP_READSECT,
        s.regs.io_byte_count == 0,
        s.disk.opened,
        s.disk.wf(),
        s.disk.offset() + SECTOR_SIZE <= m.bytes.len(),
        count <= SECTOR_SIZE,
    ensures
        ({
            let (end, image, bytes) = after_reads(s, m, command, count, now);
            &&& end.regs == Registers {
                io_byte_count: count as u32,
                opcode: if count < SECTOR_SIZE {
                    OP_READSECT
                } else {
                    OPCODE_NOP
                },
                ..s.regs
            }
            &&& end.mem == s.mem
            &&& end.disk.opened
            &&& end.disk.track == s.disk.track
            &&& end.disk.sector == s.disk.sector
            &&& count > 0 ==> end.disk.last_error == FsError::NoError && image.cursor
                == s.disk.offset() + count
            &&& image.bytes == m.bytes
            &&& bytes == m.bytes.subrange(s.disk.offset(), s.disk.offset() + count)
        }),
    decreases count,
{
    if count == 0 {
        assert(Seq::<u8>::empty() =~= m.bytes.subrange(s.disk.offset(), s.disk.offset() + 0));
    } else {
        reads_follow_image(s, m, command, (count - 1) as nat, now);
        let (before, image, head) = after_reads(s, m, command, (count - 1) as nat, now);
        let (end, after, value) = served_in(before, image, command, now);
        assert(head.push(value) =~= m.bytes.subrange(s.disk.offset(), s.disk.offset() + count));
    }
}

/// A sector written is the sector read back: when the guest selects a track
/// and a sector, writes 512 bytes, selects the same track and sector again
/// and reads 512 bytes, it reads what it wrote. The image holds the bytes at
/// the sector's offset and is unchanged elsewhere, no error is left behind
/// and the opcode is back at NOP.
pub proof fn sector_round_trip(
    s: MachineState,
    m: Medium,
    command: u16,
    data: u16,
    track: u16,
    sector: u8,
    payload: Seq<u8>,
    now: Option<WallClock>,
)
    requires
        !is_data_port(command),
        is_data_port(data),
        s.disk.opened,
        track < TRACKS,
        sector < SECTORS,
        sector_offset(track, sector) + SECTOR_SIZE <= m.bytes.len(),
        payload.len() == SECTOR_SIZE,
    ensures
        ({
            let (written, image) = write_sector(
                select_sector(s, command, data, track, sector),
                m,
                command,
                data,
                payload,
            );
            let (end, after, bytes) = read_sector(
                select_sector(written, command, data, track, sector),
                image,
                command,
                now,
            );
            &&& bytes == payload
            &&& image.bytes == m.overwritten(sector_offset(track, sector), payload)
            &&& after.bytes == image.bytes
            &&& written.disk.last_error == FsError::NoError
            &&& end.disk.last_error == FsError::NoError
            &&& written.regs.opcode == OPCODE_NOP
            &&& end.regs.opcode == OPCODE_NOP
        }),
{
    let selected = select_sector(s, command, data, track, sector);
    select_sector_selects(s, command, data, track, sector);
    let latched = selected.port_out(command, OP_WRITESECT, HostReply::Nothing);
    payload_lands(latched, m, data, payload);
    let (written, image) = write_sector(selected, m, command, data, payload);
    let reselected = select_sector(written, command, data, track, sector);
    select_sector_selects(written, command, data, track, sector);
    let relatched = reselected.port_out(command, OP_READSECT, HostReply::Nothing);
    reads_follow_image(relatched, image, command, SECTOR_SIZE as nat, now);
    let (end, after, bytes) = read_sector(reselected, image, command, now);
    assert(bytes =~= payload);
}

} // verus!
