//! What holds of the port protocol whatever the guest and the host do.

use vstd::prelude::*;
use crate::clock::{WallClock, DATETIME_BYTES};
use crate::filesystem::{names_disk, FsError, OpenOutcome, DISK_SIZE, SECTOR_SIZE};
use crate::host::{HostReply, HostRequest};
use crate::memory::{banks_disjoint, decode_in_range, MAX_BANK, SHARED_BASE};
use crate::protocol::{
    bits_are_masks,
    is_data_port,
    is_multi_byte_write,
    is_read_opcode,
    is_write_opcode,
    MachineState,
    Registers,
    CTRL_C,
    NO_DISK_SET,
    INT_RX_MASK,
    OPCODE_NOP,
    OP_DATETIME,
    OP_READSECT,
    OP_SELDISK,
    OP_SELTRACK,
    OP_SETBANK,
    OP_SYSIRQ,
    OP_WRITESECT,
    RX_EMPTY,
};

verus! {

/// Only bit 0 of a port address counts: two addresses that agree in it name
/// the same port.
pub proof fn port_is_bit_zero(a: u16, b: u16)
    requires
        a & 1 == b & 1,
    ensures
        is_data_port(a) == is_data_port(b),
        forall|s: MachineState, value: u8, reply: HostReply|
            #[trigger] s.port_out(a, value, reply) == s.port_out(b, value, reply),
        forall|s: MachineState, value: u8|
            #[trigger] s.port_out_request(a, value) == s.port_out_request(b, value),
        forall|s: MachineState, reply: HostReply, now: Option<WallClock>|
            #[trigger] s.port_in(a, reply, now) == s.port_in(b, reply, now),
        forall|s: MachineState| #[trigger] s.port_in_request(a) == s.port_in_request(b),
{
    assert(a & 1 == b & 1 <==> a % 2 == b % 2) by (bit_vector);
}

/// A write to the command port latches the value as the opcode and starts
/// its payload anew, whatever was latched and however far its transfer had
/// come: a transfer that is under way is abandoned. Nothing else changes.
pub proof fn latch_restarts(s: MachineState, command: u16, opcode: u8, reply: HostReply)
    requires
        !is_data_port(command),
    ensures
        s.port_out(command, opcode, reply) == s.with_regs(
            Registers { opcode, io_byte_count: 0, ..s.regs },
        ),
        s.port_out_request(command, opcode) == HostRequest::Nothing,
{
}

/// The ports and the tick leave memory alone, and a memory access leaves the
/// registers and the disk alone.
pub proof fn ports_and_memory_are_apart(
    s: MachineState,
    address: u16,
    value: u8,
    reply: HostReply,
    now: Option<WallClock>,
)
    ensures
        s.port_out(address, value, reply).mem == s.mem,
        s.port_in(address, reply, now).0.mem == s.mem,
        s.tick_ms(reply).mem == s.mem,
        s.poke(address, value).regs == s.regs,
        s.poke(address, value).disk == s.disk,
{
}

/// A write to a port leaves a well-formed machine well formed.
pub proof fn port_out_keeps_wf(s: MachineState, address: u16, value: u8, reply: HostReply)
    requires
        s.wf(),
    ensures
        s.port_out(address, value, reply).wf(),
{
}

/// A read from a port leaves a well-formed machine well formed.
pub proof fn port_in_keeps_wf(
    s: MachineState,
    address: u16,
    reply: HostReply,
    now: Option<WallClock>,
)
    requires
        s.wf(),
    ensures
        s.port_in(address, reply, now).0.wf(),
{
}

/// A tick and a memory access leave a well-formed machine well formed.
pub proof fn tick_and_poke_keep_wf(s: MachineState, address: u16, value: u8, reply: HostReply)
    requires
        s.wf(),
    ensures
        s.tick_ms(reply).wf(),
        s.poke(address, value).wf(),
{
}

/// After a write to the data port the opcode is back at NOP, unless a track
/// selection awaits its second byte or a sector its next one. After a read
/// from the command port it is back at NOP, unless a date and time or a
/// sector has bytes left.
pub proof fn transfer_settles(
    s: MachineState,
    address: u16,
    value: u8,
    reply: HostReply,
    now: Option<WallClock>,
)
    requires
        s.wf(),
    ensures
        is_data_port(address) ==> {
            let end = s.port_out(address, value, reply).regs;
            ||| end.opcode == OPCODE_NOP
            ||| end.opcode == OP_SELTRACK && end.io_byte_count == 1
            ||| end.opcode == OP_WRITESECT && 0 < end.io_byte_count < SECTOR_SIZE
        },
        !is_data_port(address) ==> {
            let end = s.port_in(address, reply, now).0.regs;
            ||| end.opcode == OPCODE_NOP
            ||| end.opcode == OP_DATETIME && 0 < end.io_byte_count < DATETIME_BYTES
            ||| end.opcode == OP_READSECT && 0 < end.io_byte_count < SECTOR_SIZE
        },
{
}

/// A write opcode with one byte of payload is over after that byte: the
/// opcode is back at NOP and no byte is counted. This holds of the opcodes
/// that are not implemented too.
pub proof fn single_byte_write_completes(
    s: MachineState,
    command: u16,
    data: u16,
    opcode: u8,
    value: u8,
    latch_reply: HostReply,
    reply: HostReply,
)
    requires
        !is_data_port(command),
        is_data_port(data),
        !is_multi_byte_write(opcode),
    ensures
        ({
            let end = s.port_out(command, opcode, latch_reply).port_out(data, value, reply);
            end.regs.opcode == OPCODE_NOP && end.regs.io_byte_count == 0
        }),
{
}

/// A write opcode that the coprocessor does not carry out ends the
/// emulation: the write to the data port sets the quit flag, and the host is
/// asked to report the opcode. For the opcodes that it carries out the host
/// is not asked to report anything and the quit flag stays as it is.
pub proof fn unimplemented_write_quits(s: MachineState, data: u16, value: u8, reply: HostReply)
    requires
        is_data_port(data),
    ensures
        s.port_out_request(data, value) == (HostRequest::Report { opcode: s.regs.opcode })
            <==> !is_write_opcode(s.regs.opcode),
        s.port_out(data, value, reply).regs.quit == (s.regs.quit || !is_write_opcode(
            s.regs.opcode,
        )),
{
}

/// A read opcode that the coprocessor does not carry out ends the
/// emulation: the read from the command port returns 0 and sets the quit
/// flag, and the host is asked to report the opcode. For the opcodes that it
/// carries out the host is not asked to report anything and the quit flag
/// stays as it is.
pub proof fn unimplemented_read_quits(
    s: MachineState,
    command: u16,
    reply: HostReply,
    now: Option<WallClock>,
)
    requires
        !is_data_port(command),
    ensures
        s.port_in_request(command) == (HostRequest::Report { opcode: s.regs.opcode })
            <==> !is_read_opcode(s.regs.opcode),
        s.port_in(command, reply, now).0.regs.quit == (s.regs.quit || !is_read_opcode(
            s.regs.opcode,
        )),
        !is_read_opcode(s.regs.opcode) ==> s.port_in(command, reply, now).1 == 0,
{
}

/// Besides an opcode that is not implemented, only the character that ends
/// the emulation sets the quit flag, when the guest reads it from the data
/// port. Latching an opcode, a tick and a memory access leave the flag as it
/// is.
pub proof fn quit_comes_from_the_guest(
    s: MachineState,
    address: u16,
    value: u8,
    reply: HostReply,
    now: Option<WallClock>,
)
    ensures
        is_data_port(address) ==> s.port_in(address, reply, now).0.regs.quit == (s.regs.quit
            || reply.character() == Some(CTRL_C)),
        !is_data_port(address) ==> s.port_out(address, value, reply).regs.quit == s.regs.quit,
        s.tick_ms(reply).regs.quit == s.regs.quit,
        s.poke(address, value).regs.quit == s.regs.quit,
{
}

/// The machine after the bytes of `payload` were written to the data port
/// one after the other, `replies` holding the host's answer to each.
pub open spec fn after_data_writes(
    s: MachineState,
    data: u16,
    payload: Seq<u8>,
    replies: Seq<HostReply>,
) -> MachineState
    decreases payload.len(),
{
    if payload.len() == 0 {
        s
    } else {
        after_data_writes(s, data, payload.drop_last(), replies).port_out(
            data,
            payload.last(),
            replies[payload.len() - 1],
        )
    }
}

/// A sector write takes exactly 512 bytes: while fewer have been written the
/// opcode stays latched and counts them, and with the 512th it is back at
/// NOP, whatever the host answers.
pub proof fn sector_write_takes_512_bytes(
    s: MachineState,
    command: u16,
    data: u16,
    payload: Seq<u8>,
    replies: Seq<HostReply>,
    latch_reply: HostReply,
)
    requires
        !is_data_port(command),
        is_data_port(data),
        payload.len() <= SECTOR_SIZE,
    ensures
        ({
            let end = after_data_writes(
                s.port_out(command, OP_WRITESECT, latch_reply),
                data,
                payload,
                replies,
            );
            &&& end.regs.io_byte_count == payload.len()
            &&& payload.len() < SECTOR_SIZE ==> end.regs.opcode == OP_WRITESECT
            &&& payload.len() == SECTOR_SIZE ==> end.regs.opcode == OPCODE_NOP
        }),
    decreases payload.len(),
{
    if payload.len() > 0 {
        sector_write_takes_512_bytes(
            s,
            command,
            data,
            payload.drop_last(),
            replies,
            latch_reply,
        );
    }
}

/// The machine after `count` reads from the command port, and the bytes
/// read. `replies` and `clocks` hold the host's answer and the clock's
/// reading for each read.
pub open spec fn after_command_reads(
    s: MachineState,
    command: u16,
    count: nat,
    replies: Seq<HostReply>,
    clocks: Seq<Option<WallClock>>,
) -> (MachineState, Seq<u8>)
    decreases count,
{
    if count == 0 {
        (s, Seq::empty())
    } else {
        let (before, bytes) = after_command_reads(s, command, (count - 1) as nat, replies, clocks);
        let (end, value) = before.port_in(command, replies[count - 1], clocks[count - 1]);
        (end, bytes.push(value))
    }
}

/// The snapshot that a date and time transfer gives when `reading` is the
/// clock's reading at its first byte: the reading, or the snapshot held so
/// far when the clock gave none.
pub open spec fn snapshot(s: MachineState, reading: Option<WallClock>) -> WallClock {
    match reading {
        Some(time) => time,
        None => s.regs.last_time,
    }
}

/// A date and time transfer reads one snapshot: the clock is looked at for
/// the first byte only, and the seven bytes are that reading's second,
/// minute, hour, day, month, year within the century and the temperature.
/// With the seventh byte the opcode is back at NOP.
pub proof fn datetime_reads_one_snapshot(
    s: MachineState,
    command: u16,
    count: nat,
    replies: Seq<HostReply>,
    clocks: Seq<Option<WallClock>>,
    latch_reply: HostReply,
)
    requires
        !is_data_port(command),
        0 < count <= DATETIME_BYTES,
        clocks.len() >= count,
    ensures
        ({
            let (end, bytes) = after_command_reads(
                s.port_out(command, OP_DATETIME, latch_reply),
                command,
                count,
                replies,
                clocks,
            );
            &&& bytes == snapshot(s, clocks[0]).frame().take(count as int)
            &&& end.regs.last_time == snapshot(s, clocks[0])
            &&& end.regs.io_byte_count == count
            &&& count < DATETIME_BYTES ==> end.regs.opcode == OP_DATETIME
            &&& count == DATETIME_BYTES ==> end.regs.opcode == OPCODE_NOP
            &&& end.regs.quit == s.regs.quit
        }),
    decreases count,
{
    let latched = s.port_out(command, OP_DATETIME, latch_reply);
    reveal_with_fuel(after_command_reads, 2);
    if count > 1 {
        datetime_reads_one_snapshot(
            s,
            command,
            (count - 1) as nat,
            replies,
            clocks,
            latch_reply,
        );
    }
    let (end, bytes) = after_command_reads(latched, command, count, replies, clocks);
    assert(bytes =~= snapshot(s, clocks[0]).frame().take(count as int));
}

/// The clock is asked for exactly at the first byte of a date and time
/// transfer.
pub proof fn clock_is_read_at_the_first_byte(s: MachineState, address: u16)
    ensures
        s.port_in_request(address) == HostRequest::ReadClock <==> s.starts_datetime(address),
{
}

/// A disk selection that fails leaves no image open. Whatever disk was open
/// before, the sector transfers that follow ask nothing of the host, the
/// first byte of a sector leaves "not opened" behind, and a read gives 0.
pub proof fn failed_disk_selection_closes(
    s: MachineState,
    command: u16,
    data: u16,
    number: u8,
    reply: HostReply,
    value: u8,
    later: HostReply,
    now: Option<WallClock>,
)
    requires
        !is_data_port(command),
        is_data_port(data),
        s.regs.disk_set != NO_DISK_SET,
        !names_disk(s.regs.disk_set, number) || reply.open_outcome() != OpenOutcome::Opened,
    ensures
        ({
            let after = s.port_out(command, OP_SELDISK, HostReply::Nothing).port_out(
                data,
                number,
                reply,
            );
            let writing = after.port_out(command, OP_WRITESECT, HostReply::Nothing);
            let reading = after.port_out(command, OP_READSECT, HostReply::Nothing);
            &&& !after.disk.opened
            &&& after.disk.last_error != FsError::NoError
            &&& !names_disk(s.regs.disk_set, number) ==> s.port_out(
                command,
                OP_SELDISK,
                HostReply::Nothing,
            ).port_out_request(data, number) == HostRequest::CloseDisk
            &&& writing.port_out_request(data, value) == HostRequest::Nothing
            &&& writing.port_out(data, value, later).disk.last_error == FsError::NotOpened
            &&& reading.port_in_request(command) == HostRequest::Nothing
            &&& reading.port_in(command, later, now).1 == 0
            &&& reading.port_in(command, later, now).0.disk.last_error == FsError::NotOpened
        }),
{
}

/// A sector read takes exactly 512 bytes: while fewer have been read the
/// opcode stays latched and counts them, and with the 512th it is back at
/// NOP, whatever the host answers.
pub proof fn sector_read_takes_512_bytes(
    s: MachineState,
    command: u16,
    count: nat,
    replies: Seq<HostReply>,
    clocks: Seq<Option<WallClock>>,
    latch_reply: HostReply,
)
    requires
        !is_data_port(command),
        count <= SECTOR_SIZE,
    ensures
        ({
            let (end, bytes) = after_command_reads(
                s.port_out(command, OP_READSECT, latch_reply),
                command,
                count,
                replies,
                clocks,
            );
            &&& bytes.len() == count
            &&& end.regs.io_byte_count == count
            &&& count < SECTOR_SIZE ==> end.regs.opcode == OP_READSECT
            &&& count == SECTOR_SIZE ==> end.regs.opcode == OPCODE_NOP
        }),
    decreases count,
{
    if count > 0 {
        sector_read_takes_512_bytes(
            s,
            command,
            (count - 1) as nat,
            replies,
            clocks,
            latch_reply,
        );
    }
}

/// A sector transfer positions the image once: the first byte of a sector
/// asks the host to seek to the selected sector's offset, and every later
/// byte goes where the cursor is. A byte asks nothing of the host when no
/// image is open, or when an earlier byte of the sector has failed.
pub proof fn sector_transfer_seeks_once(s: MachineState, command: u16, data: u16, value: u8)
    requires
        !is_data_port(command),
        is_data_port(data),
        s.disk.wf(),
    ensures
        s.regs.opcode == OP_WRITESECT ==> s.port_out_request(data, value) == if !s.disk.opened
            || (s.regs.io_byte_count != 0 && s.disk.last_error != FsError::NoError) {
            HostRequest::Nothing
        } else if s.regs.io_byte_count == 0 {
            HostRequest::WriteDisk { seek: Some(s.disk.offset() as u64), data: value }
        } else {
            HostRequest::WriteDisk { seek: None, data: value }
        },
        s.regs.opcode == OP_READSECT ==> s.port_in_request(command) == if !s.disk.opened || (
        s.regs.io_byte_count != 0 && s.disk.last_error != FsError::NoError) {
            HostRequest::Nothing
        } else if s.regs.io_byte_count == 0 {
            HostRequest::ReadDisk { seek: Some(s.disk.offset() as u64) }
        } else {
            HostRequest::ReadDisk { seek: None }
        },
        s.disk.offset() == (s.disk.track * 32 + s.disk.sector) * 512,
        s.disk.offset() + SECTOR_SIZE <= DISK_SIZE,
{
}

/// Reading the pending interrupts clears them: the first read returns them,
/// and a second read returns 0, whether the guest latches the opcode again
/// or not, as long as no tick comes between the two.
pub proof fn interrupt_status_reads_once(
    s: MachineState,
    command: u16,
    r1: HostReply,
    r2: HostReply,
    r3: HostReply,
    r4: HostReply,
    now: Option<WallClock>,
)
    requires
        !is_data_port(command),
    ensures
        ({
            let (first, pending) = s.port_out(command, OP_SYSIRQ, r1).port_in(command, r2, now);
            let (again, second) = first.port_out(command, OP_SYSIRQ, r3).port_in(command, r4, now);
            let (unlatched, other) = first.port_in(command, r3, now);
            &&& pending == s.regs.int_status
            &&& first.regs.int_status == 0
            &&& !first.regs.int_line_raised
            &&& second == 0
            &&& again.regs.int_status == 0
            &&& other == 0
            &&& unlatched.regs.int_status == 0
        }),
{
}

/// A read of the data port lowers the interrupt line and clears the
/// reception interrupt, whatever opcode is latched and whatever the terminal
/// holds.
pub proof fn data_port_read_lowers_interrupt(
    s: MachineState,
    address: u16,
    reply: HostReply,
    now: Option<WallClock>,
)
    requires
        is_data_port(address),
    ensures
        !s.port_in(address, reply, now).0.regs.int_line_raised,
        s.port_in(address, reply, now).0.regs.int_status & INT_RX_MASK == 0,
        s.port_in(address, reply, now).0.regs.rx_done,
{
    bits_are_masks(address, s.regs.int_status);
}

/// The "last character was empty" flag tells how the last read of the data
/// port ended: it is set exactly when the terminal had nothing, and the read
/// then returned the "empty" mark. No other transfer, no tick and no memory
/// access changes the flag.
pub proof fn last_rx_is_empty_follows_data_port(
    s: MachineState,
    address: u16,
    value: u8,
    reply: HostReply,
    now: Option<WallClock>,
)
    ensures
        is_data_port(address) ==> {
            let (end, byte) = s.port_in(address, reply, now);
            &&& end.regs.last_rx_is_empty == (reply.character() is None)
            &&& end.regs.last_rx_is_empty ==> byte == RX_EMPTY
        },
        !is_data_port(address) ==> s.port_in(address, reply, now).0.regs.last_rx_is_empty
            == s.regs.last_rx_is_empty,
        s.port_out(address, value, reply).regs.last_rx_is_empty == s.regs.last_rx_is_empty,
        s.tick_ms(reply).regs.last_rx_is_empty == s.regs.last_rx_is_empty,
        s.poke(address, value).regs.last_rx_is_empty == s.regs.last_rx_is_empty,
{
}

/// The machine after the guest selected a bank.
#[verifier::opaque]
pub open spec fn with_bank(s: MachineState, command: u16, data: u16, bank: u8) -> MachineState {
    s.port_out(command, OP_SETBANK, HostReply::Nothing).port_out(data, bank, HostReply::Nothing)
}

/// Selecting a bank sets the bank register if the bank exists, and changes
/// neither memory nor the bank register if it does not.
pub proof fn set_bank_selects(s: MachineState, command: u16, data: u16, bank: u8)
    requires
        !is_data_port(command),
        is_data_port(data),
    ensures
        with_bank(s, command, data, bank).mem == s.mem,
        bank <= MAX_BANK ==> with_bank(s, command, data, bank).regs.bank == bank,
        bank > MAX_BANK ==> with_bank(s, command, data, bank).regs.bank == s.regs.bank,
{
    reveal(with_bank);
}

/// A byte written under a bank is read back under that bank, and a write to
/// the lower half of the address space under another bank does not touch it.
pub proof fn banked_write_survives(
    s: MachineState,
    command: u16,
    data: u16,
    bank: u8,
    address: u16,
    value: u8,
    other_bank: u8,
    other_address: u16,
    other_value: u8,
)
    requires
        s.wf(),
        !is_data_port(command),
        is_data_port(data),
        bank <= MAX_BANK,
        other_bank <= MAX_BANK,
        bank != other_bank,
        address < SHARED_BASE,
        other_address < SHARED_BASE,
    ensures
        ({
            let written = with_bank(s, command, data, bank).poke(address, value);
            let disturbed = with_bank(written, command, data, other_bank).poke(
                other_address,
                other_value,
            );
            &&& written.peek(address) == value
            &&& disturbed.peek(other_address) == other_value
            &&& with_bank(disturbed, command, data, bank).peek(address) == value
        }),
{
    let selected = with_bank(s, command, data, bank);
    let written = selected.poke(address, value);
    let reselected = with_bank(written, command, data, other_bank);
    let disturbed = reselected.poke(other_address, other_value);
    set_bank_selects(s, command, data, bank);
    set_bank_selects(written, command, data, other_bank);
    set_bank_selects(disturbed, command, data, bank);
    decode_in_range(bank, address);
    decode_in_range(other_bank, other_address);
    banks_disjoint(bank, address, other_bank, other_address);
}

} // verus!
