//! The machine that the CPU sees: banked RAM and the two ports of the I/O
//! coprocessor.

use vstd::prelude::*;
use crate::clock::{WallClock, DATETIME_BYTES};
use crate::filesystem::{DiskState, FileSystem, SECTOR_SIZE};
use crate::host::{HostReply, HostRequest};
use crate::memory::{decode, MAX_BANK, RAM_SIZE, SHARED_BASE};
use crate::protocol;
use crate::protocol::{
    bit0,
    bit1,
    bits_are_masks,
    sector_access,
    is_data_port,
    sysflags,
    MachineState,
    Registers,
    BACKSPACE,
    CTRL_C,
    DEL,
    INT_RX_MASK,
    NO_DISK_SET,
    OPCODE_NOP,
    OP_ATXBUFF,
    OP_DATETIME,
    OP_ERRDISK,
    OP_GETSPP,
    OP_GETSPP_RESERVED,
    OP_GPIOA_R,
    OP_GPIOA_W,
    OP_GPIOB_R,
    OP_GPIOB_W,
    OP_GPPUA_W,
    OP_GPPUB_W,
    OP_IODIRA_W,
    OP_IODIRB_W,
    OP_READSECT,
    OP_SDMOUNT,
    OP_SELDISK,
    OP_SELSECT,
    OP_SELTRACK,
    OP_SERIAL_TX,
    OP_SETBANK,
    OP_SETIRQ,
    OP_SETOPT,
    OP_SETSPP,
    OP_SETTICK,
    OP_SYSFLAGS,
    OP_SYSIRQ,
    OP_USER_KEY,
    OP_USER_LED,
    OP_WRITESECT,
    OP_WRSPP,
    RX_EMPTY,
    SPP_READY,
    TX_BUFFER_FREE,
};

verus! {

/// The Z80-MBC2 board without its CPU.
pub struct Mbc2Machine {
    mem: [u8; RAM_SIZE],
    regs: Registers,
    fs: FileSystem,
}

impl View for Mbc2Machine {
    type V = MachineState;

    closed spec fn view(&self) -> MachineState {
        MachineState { mem: self.mem@, regs: self.regs, disk: self.fs@ }
    }
}

impl Mbc2Machine {
    /// What holds of every value of this type.
    #[verifier::type_invariant]
    pub closed spec fn inv(self) -> bool {
        self.regs.wf() && self.fs@.wf()
    }

    /// The state of every value of this type is well formed.
    pub proof fn inv_gives_wf(self)
        requires
            self.inv(),
        ensures
            self@.wf(),
    {
    }

    /// The machine after power-up.
    pub fn new() -> (m: Mbc2Machine)
        ensures
            m@ == MachineState::initial(),
            m@.wf(),
    {
        let m = Mbc2Machine {
            mem: [0;RAM_SIZE],
            regs: Registers {
                disk_set: NO_DISK_SET,
                bank: 0,
                opcode: OPCODE_NOP,
                io_byte_count: 0,
                track_sel_lo: 0,
                last_rx_is_empty: false,
                last_time: WallClock::power_up(),
                quit: false,
                user_led: false,
                gpio_a: 0,
                gpio_b: 0,
                io_dir_a: 0,
                io_dir_b: 0,
                gppu_a: 0,
                gppu_b: 0,
                int_line_raised: false,
                int_status: 0,
                rx_done: true,
                int_rx_enabled: false,
                int_systick_enabled: false,
                sys_tick_time: 0,
                cpm_warm_boot_enabled: false,
                spp_enabled: false,
                spp_fd: false,
            },
            fs: FileSystem::new(),
        };
        assert(m@.mem =~= MachineState::initial().mem);
        m
    }

    /// The registers of the coprocessor.
    pub fn registers(&self) -> (regs: Registers)
        ensures
            regs == self@.regs,
            self@.wf(),
    {
        proof {
            use_type_invariant(self);
        }
        self.regs
    }

    /// The registers of the disk back-end.
    pub fn disk(&self) -> (fs: FileSystem)
        ensures
            fs@ == self@.disk,
    {
        self.fs
    }

    /// Whether the emulation is to end.
    pub fn quit(&self) -> (quit: bool)
        ensures
            quit == self@.regs.quit,
    {
        self.regs.quit
    }

    /// Whether the interrupt line to the CPU is raised.
    pub fn interrupt_pending(&self) -> (raised: bool)
        ensures
            raised == self@.regs.int_line_raised,
    {
        self.regs.int_line_raised
    }

    /// Sets the disk set of the image that runs on the machine.
    pub fn set_disk_set(&mut self, disk_set: u8)
        ensures
            final(self)@ == old(self)@.with_regs(Registers { disk_set, ..old(self)@.regs }),
            final(self)@.wf(),
    {
        proof {
            use_type_invariant(&*self);
        }
        self.regs.disk_set = disk_set;
    }

    /// Sets which interrupts the coprocessor raises.
    pub fn set_interrupt_enables(&mut self, int_rx: bool, int_sys_tick: bool)
        ensures
            final(self)@ == old(self)@.with_regs(
                Registers {
                    int_rx_enabled: int_rx,
                    int_systick_enabled: int_sys_tick,
                    ..old(self)@.regs
                },
            ),
            final(self)@.wf(),
    {
        proof {
            use_type_invariant(&*self);
        }
        let mut r = self.regs;
        r.int_rx_enabled = int_rx;
        r.int_systick_enabled = int_sys_tick;
        self.regs = r;
    }

    /// The RAM cell that an address reaches under the selected bank.
    pub fn decode_address(&self, address: u16) -> (cell: usize)
        ensures
            cell == decode(self@.regs.bank, address),
            cell < RAM_SIZE,
    {
        proof {
            use_type_invariant(self);
        }
        if address >= SHARED_BASE {
            address as usize
        } else {
            let base = address as usize;
            match self.regs.bank {
                1 => base + 0x1_0000,
                2 => base + 0x1_8000,
                _ => base,
            }
        }
    }

    /// The byte at an address.
    pub fn peek(&self, address: u16) -> (value: u8)
        ensures
            value == self@.peek(address),
    {
        let cell = self.decode_address(address);
        self.mem[cell]
    }

    /// Writes a byte at an address.
    pub fn poke(&mut self, address: u16, value: u8)
        ensures
            final(self)@ == old(self)@.poke(address, value),
            final(self)@.wf(),
    {
        proof {
            use_type_invariant(&*self);
        }
        let cell = self.decode_address(address);
        self.mem[cell] = value;
    }

    /// What the next tick needs from the host.
    pub fn tick_request(&self) -> (request: HostRequest)
        ensures
            request == self@.tick_request(),
    {
        if self.regs.int_rx_enabled {
            HostRequest::ConsoleStatus
        } else {
            HostRequest::Nothing
        }
    }

    /// Lets one millisecond pass: raises the reception interrupt if it is
    /// enabled, the terminal has input and the guest has taken the character
    /// of the last one. `reply` is the host's answer to
    /// [`Mbc2Machine::tick_request`].
    pub fn tick_ms(&mut self, reply: HostReply)
        ensures
            final(self)@ == old(self)@.tick_ms(reply),
            final(self)@.wf(),
    {
        proof {
            use_type_invariant(&*self);
        }
        self.regs = tick(self.regs, reply.is_pending());
    }

    /// What the next byte of a sector transfer needs from the disk image.
    fn sector_access(&self) -> (access: Option<Option<u64>>)
        ensures
            access == sector_access(self@.regs, self@.disk),
    {
        if self.regs.io_byte_count == 0 {
            match self.fs.seek_target() {
                Some(pos) => Some(Some(pos)),
                None => None,
            }
        } else if self.fs.transfers() {
            Some(None)
        } else {
            None
        }
    }

    /// What a write of `value` to a port needs from the host.
    pub fn port_out_request(&self, address: u16, value: u8) -> (request: HostRequest)
        ensures
            request == self@.port_out_request(address, value),
    {
        if !names_data_port(address) {
            return HostRequest::Nothing;
        }
        match self.regs.opcode {
            OP_SERIAL_TX => HostRequest::ConsolePut(value),
            OP_SELDISK => {
                if self.regs.disk_set == NO_DISK_SET {
                    HostRequest::Nothing
                } else if FileSystem::names_disk(self.regs.disk_set, value) {
                    HostRequest::OpenDisk { disk_set: self.regs.disk_set, disk_number: value }
                } else {
                    HostRequest::CloseDisk
                }
            },
            OP_WRITESECT => match self.sector_access() {
                Some(seek) => HostRequest::WriteDisk { seek, data: value },
                None => HostRequest::Nothing,
            },
            OP_USER_LED | OP_GPIOA_W..=OP_SETSPP => HostRequest::Nothing,
            opcode => HostRequest::Report { opcode },
        }
    }

    /// Carries out a write of `value` to a port. `reply` is the host's answer
    /// to [`Mbc2Machine::port_out_request`] for the same write.
    ///
    /// A write to the command port latches `value` as the opcode. A write to
    /// the data port carries out the latched opcode with `value` as the next
    /// byte of its payload. An opcode that is not implemented sets the quit
    /// flag.
    pub fn port_out(&mut self, address: u16, value: u8, reply: HostReply)
        ensures
            final(self)@ == old(self)@.port_out(address, value, reply),
            final(self)@.wf(),
    {
        proof {
            use_type_invariant(&*self);
        }
        if !names_data_port(address) {
            let mut r = self.regs;
            r.io_byte_count = 0;
            r.opcode = value;
            self.regs = r;
        } else {
            let (r, fs) = write_data(self.regs, self.fs, value, reply);
            self.regs = r;
            self.fs = fs;
        }
    }

    /// What a read from a port needs from the host.
    pub fn port_in_request(&self, address: u16) -> (request: HostRequest)
        ensures
            request == self@.port_in_request(address),
    {
        if names_data_port(address) {
            return HostRequest::ConsoleRead;
        }
        match self.regs.opcode {
            OP_SYSFLAGS => HostRequest::ConsoleStatus,
            OP_READSECT => match self.sector_access() {
                Some(seek) => HostRequest::ReadDisk { seek },
                None => HostRequest::Nothing,
            },
            OP_DATETIME => {
                if self.regs.io_byte_count == 0 {
                    HostRequest::ReadClock
                } else {
                    HostRequest::Nothing
                }
            },
            OP_USER_KEY..=OP_SYSIRQ | OP_GETSPP => HostRequest::Nothing,
            opcode => HostRequest::Report { opcode },
        }
    }

    /// Carries out a read from a port and returns the byte for the CPU.
    /// `reply` is the host's answer to [`Mbc2Machine::port_in_request`] for
    /// the same read.
    ///
    /// Where the reply brings a reading of the clock, the local date and
    /// time are made of it; the outcome is that of
    /// [`Mbc2Machine::port_in_at`] with them.
    pub fn port_in(&mut self, address: u16, reply: HostReply) -> (value: u8)
        ensures
            (final(self)@, value) == old(self)@.port_in(address, reply, reply.local_time()),
            is_data_port(address) ==> !final(self)@.regs.int_line_raised,
            is_data_port(address) ==> final(self)@.regs.last_rx_is_empty == (reply.character()
                is None),
            final(self)@.wf(),
    {
        let now = match reply.take_clock() {
            Some((unix_seconds, offset_seconds)) => WallClock::at(unix_seconds, offset_seconds),
            None => None,
        };
        self.port_in_at(address, reply, now)
    }

    /// Carries out a read from a port and returns the byte for the CPU, with
    /// `now` as the clock's reading, `None` when there is none.
    ///
    /// A read from the data port takes a character from the terminal. A read
    /// from the command port carries out the latched opcode. An opcode that
    /// is not implemented returns 0 and sets the quit flag. The first byte of
    /// a date and time transfer stores the reading as the snapshot; without a
    /// reading the snapshot held so far is transferred.
    pub fn port_in_at(&mut self, address: u16, reply: HostReply, now: Option<WallClock>) -> (value:
        u8)
        ensures
            (final(self)@, value) == old(self)@.port_in(address, reply, now),
            is_data_port(address) ==> !final(self)@.regs.int_line_raised,
            is_data_port(address) ==> final(self)@.regs.last_rx_is_empty == (reply.character()
                is None),
            final(self)@.wf(),
    {
        proof {
            use_type_invariant(&*self);
        }
        if names_data_port(address) {
            let (r, value) = serial_rx(self.regs, reply.take_character());
            self.regs = r;
            value
        } else {
            let (r, fs, value) = read_command(self.regs, self.fs, reply, now);
            self.regs = r;
            self.fs = fs;
            value
        }
    }
}

/// The name of an opcode, as diagnostics show it.
pub fn opcode_name(opcode: u8) -> (name: &'static str)
    ensures
        name@ == protocol::opcode_name_text(opcode),
{
    match opcode {
        OP_USER_LED => "USER LED",
        OP_SERIAL_TX => "SERIAL TX",
        OP_GPIOA_W => "GPIOA W",
        OP_GPIOB_W => "GPIOB W",
        OP_IODIRA_W => "IODIRA W",
        OP_IODIRB_W => "IODIRB W",
        OP_GPPUA_W => "GPPUA W",
        OP_GPPUB_W => "GPPUB W",
        OP_SELDISK => "SELDISK",
        OP_SELTRACK => "SELTRACK",
        OP_SELSECT => "SELSECT",
        OP_WRITESECT => "WRITESECT",
        OP_SETBANK => "SETBANK",
        OP_SETIRQ => "SETIRQ",
        OP_SETTICK => "SETTICK",
        OP_SETOPT => "SETOPT",
        OP_SETSPP => "SETSPP",
        OP_WRSPP => "WRSPP",
        OP_USER_KEY => "USER KEY",
        OP_GPIOA_R => "GPIOA R",
        OP_GPIOB_R => "GPIOB R",
        OP_SYSFLAGS => "SYSFLAGS",
        OP_DATETIME => "DATETIME",
        OP_ERRDISK => "ERRDISK",
        OP_READSECT => "READSECT",
        OP_SDMOUNT => "SDMOUNT",
        OP_ATXBUFF => "ATXBUFF",
        OP_SYSIRQ => "SYSIRQ",
        OP_GETSPP_RESERVED => "GETSPP",
        OP_GETSPP => "GETSPP",
        OPCODE_NOP => "NOP",
        _ => "UNKNOWN",
    }
}

/// What the host shows when the guest uses an opcode that is not implemented.
pub fn unimplemented_message(opcode: u8) -> (message: String)
    ensures
        message@ == protocol::unimplemented_text(opcode),
{
    let mut message = String::from_str("<<");
    message.append(opcode_name(opcode));
    message.append(" not implemented>>");
    message
}

/// Carries out the latched write opcode with the next byte of its payload.
fn write_data(regs: Registers, disk: FileSystem, value: u8, reply: HostReply) -> (out: (
    Registers,
    FileSystem,
))
    requires
        regs.wf(),
        disk@.wf(),
    ensures
        out.0.wf(),
        out.1@.wf(),
        (out.0, out.1@) == protocol::data_out(regs, disk@, value, reply),
{
    let opcode = regs.opcode;
    if opcode == OP_SERIAL_TX {
        (idle(regs), disk)
    } else if opcode == OP_SELDISK {
        let mut fs = disk;
        if regs.disk_set != NO_DISK_SET {
            fs.select_disk(regs.disk_set, value, reply.take_open_outcome());
        }
        (idle(regs), fs)
    } else if opcode == OP_SELTRACK {
        select_track_byte(regs, disk, value)
    } else if opcode == OP_SELSECT {
        let mut fs = disk;
        fs.select_sector(value);
        (idle(regs), fs)
    } else if opcode == OP_WRITESECT {
        write_sector_byte(regs, disk, reply.is_written())
    } else {
        match register_write(regs, value) {
            Some(next) => (idle(next), disk),
            None => (unimplemented(regs), disk),
        }
    }
}

/// Takes one byte of a track selection: the low byte first, then the high
/// byte, with which the track is selected.
fn select_track_byte(regs: Registers, disk: FileSystem, value: u8) -> (out: (
    Registers,
    FileSystem,
))
    requires
        regs.wf(),
        disk@.wf(),
        regs.opcode == OP_SELTRACK,
    ensures
        out.0.wf(),
        out.1@.wf(),
        forall|reply: HostReply|
            #[trigger] protocol::data_out(regs, disk@, value, reply) == (out.0, out.1@),
{
    let mut r = regs;
    let mut fs = disk;
    if regs.io_byte_count == 0 {
        r.track_sel_lo = value;
        r.io_byte_count = 1;
    } else {
        let track: u16 = (value as u16) * 256 + (regs.track_sel_lo as u16);
        fs.select_track(track);
        r.opcode = OPCODE_NOP;
    }
    (r, fs)
}

/// Writes one byte of a sector, `written` telling whether it reached the
/// image. The first byte positions the image.
fn write_sector_byte(regs: Registers, disk: FileSystem, written: bool) -> (out: (
    Registers,
    FileSystem,
))
    requires
        regs.wf(),
        disk@.wf(),
        regs.opcode == OP_WRITESECT,
    ensures
        out.0.wf(),
        out.1@.wf(),
        out.0 == regs.counted(SECTOR_SIZE as u32),
        out.1@ == protocol::sector_written(regs, disk@, written),
{
    let mut fs = disk;
    if regs.io_byte_count == 0 {
        fs.seek(written);
    }
    fs.write(written);
    (count_byte(regs, SECTOR_SIZE as u32), fs)
}

/// Reads one byte of a sector, `byte` being what the image gave. The first
/// byte positions the image.
fn read_sector_byte(regs: Registers, disk: FileSystem, byte: Option<u8>) -> (out: (
    Registers,
    FileSystem,
    u8,
))
    requires
        regs.wf(),
        disk@.wf(),
        regs.opcode == OP_READSECT,
    ensures
        out.0.wf(),
        out.1@.wf(),
        out.0 == regs.counted(SECTOR_SIZE as u32),
        (out.1@, out.2) == protocol::sector_read(regs, disk@, byte),
{
    let mut fs = disk;
    if regs.io_byte_count == 0 {
        fs.seek(byte.is_some());
    }
    let value = fs.read(byte);
    (count_byte(regs, SECTOR_SIZE as u32), fs, value)
}

/// Reads one byte of the date and time; the first byte takes the clock's
/// reading as the snapshot, if there is one.
fn datetime_byte(regs: Registers, now: Option<WallClock>) -> (out: (Registers, u8))
    requires
        regs.wf(),
        regs.opcode == OP_DATETIME,
    ensures
        out.0.wf(),
        forall|disk: DiskState, reply: HostReply|
            #[trigger] protocol::command_in(regs, disk, reply, now) == (out.0, disk, out.1),
{
    let mut r = regs;
    if regs.io_byte_count == 0 {
        match now {
            Some(reading) => {
                r.last_time = reading;
            },
            None => {},
        }
    }
    let value = r.last_time.byte(regs.io_byte_count);
    (count_byte(r, DATETIME_BYTES), value)
}

/// The registers with no opcode latched.
fn idle(regs: Registers) -> (next: Registers)
    requires
        regs.wf(),
    ensures
        next == regs.idle(),
        next.wf(),
{
    let mut r = regs;
    r.opcode = OPCODE_NOP;
    r
}

/// The registers after an opcode that is not implemented.
fn unimplemented(regs: Registers) -> (next: Registers)
    requires
        regs.wf(),
    ensures
        next == (Registers { quit: true, ..regs }).idle(),
        next.wf(),
{
    let mut r = regs;
    r.quit = true;
    r.opcode = OPCODE_NOP;
    r
}

/// Reads the pending interrupts and clears them.
fn take_interrupts(regs: Registers) -> (out: (Registers, u8))
    requires
        regs.wf(),
    ensures
        out.0 == (Registers { int_status: 0, int_line_raised: false, ..regs }).idle(),
        out.1 == regs.int_status,
        out.0.wf(),
{
    let mut r = regs;
    r.int_status = 0;
    r.int_line_raised = false;
    r.opcode = OPCODE_NOP;
    (r, regs.int_status)
}

/// Carries out the latched read opcode.
fn read_command(
    regs: Registers,
    disk: FileSystem,
    reply: HostReply,
    now: Option<WallClock>,
) -> (out: (Registers, FileSystem, u8))
    requires
        regs.wf(),
        disk@.wf(),
    ensures
        out.0.wf(),
        out.1@.wf(),
        (out.0, out.1@, out.2) == protocol::command_in(regs, disk@, reply, now),
{
    let opcode = regs.opcode;
    if opcode == OP_SYSFLAGS {
        let flags = sysflags_byte(
            reply.is_pending(),
            regs.last_rx_is_empty,
            regs.cpm_warm_boot_enabled,
        );
        (idle(regs), disk, flags)
    } else if opcode == OP_DATETIME {
        let (r, value) = datetime_byte(regs, now);
        (r, disk, value)
    } else if opcode == OP_ERRDISK {
        (idle(regs), disk, disk.get_last_error())
    } else if opcode == OP_READSECT {
        read_sector_byte(regs, disk, reply.take_read_byte())
    } else if opcode == OP_SYSIRQ {
        let (r, value) = take_interrupts(regs);
        (r, disk, value)
    } else {
        match register_read(regs) {
            Some(value) => (idle(regs), disk, value),
            None => (unimplemented(regs), disk, 0),
        }
    }
}

/// Whether a port address names the data port.
fn names_data_port(address: u16) -> (data: bool)
    ensures
        data == is_data_port(address),
{
    proof {
        bits_are_masks(address, 0);
    }
    address & 1 == 1
}

/// Whether bit 0 of a byte is set.
fn has_bit0(value: u8) -> (set: bool)
    ensures
        set == bit0(value),
{
    proof {
        bits_are_masks(0, value);
    }
    value & 1 != 0
}

/// Whether bit 1 of a byte is set.
fn has_bit1(value: u8) -> (set: bool)
    ensures
        set == bit1(value),
{
    proof {
        bits_are_masks(0, value);
    }
    value & 2 != 0
}

/// Counts one more byte of a payload of `total` bytes.
fn count_byte(r: Registers, total: u32) -> (next: Registers)
    requires
        r.io_byte_count < total,
    ensures
        next == r.counted(total),
{
    let mut next = r;
    next.io_byte_count = r.io_byte_count + 1;
    if next.io_byte_count >= total {
        next.opcode = OPCODE_NOP;
    }
    next
}

/// Carries out a write opcode that touches nothing but registers.
fn register_write(r: Registers, value: u8) -> (next: Option<Registers>)
    ensures
        next == r.register_write(value),
{
    let mut n = r;
    match r.opcode {
        OP_USER_LED => {
            n.user_led = has_bit0(value);
        },
        OP_GPIOA_W => {
            n.gpio_a = value;
        },
        OP_GPIOB_W => {
            n.gpio_b = value;
        },
        OP_IODIRA_W => {
            n.io_dir_a = value;
        },
        OP_IODIRB_W => {
            n.io_dir_b = value;
        },
        OP_GPPUA_W => {
            n.gppu_a = value;
        },
        OP_GPPUB_W => {
            n.gppu_b = value;
        },
        OP_SETBANK => {
            if value <= MAX_BANK {
                n.bank = value;
            }
        },
        OP_SETIRQ => {
            n.int_rx_enabled = has_bit0(value);
            n.int_systick_enabled = has_bit1(value);
        },
        OP_SETTICK => {
            if value > 0 {
                n.sys_tick_time = value;
            }
        },
        OP_SETOPT => {
            n.cpm_warm_boot_enabled = has_bit0(value);
        },
        OP_SETSPP => {
            n.spp_enabled = true;
            n.spp_fd = has_bit0(value);
        },
        _ => {
            return None;
        },
    }
    Some(n)
}

/// Carries out a read opcode that looks at nothing but registers.
fn register_read(r: Registers) -> (value: Option<u8>)
    ensures
        value == r.register_read(),
{
    match r.opcode {
        OP_USER_KEY => Some(0),
        OP_GPIOA_R => Some(r.gpio_a),
        OP_GPIOB_R => Some(r.gpio_b),
        OP_SDMOUNT => Some(0),
        OP_ATXBUFF => Some(TX_BUFFER_FREE),
        OP_GETSPP => Some(
            if r.spp_enabled {
                SPP_READY
            } else {
                0
            },
        ),
        _ => None,
    }
}

/// The system flags as the guest reads them.
fn sysflags_byte(pending: bool, last_rx_is_empty: bool, warm_boot: bool) -> (flags: u8)
    ensures
        flags == sysflags(pending, last_rx_is_empty, warm_boot),
{
    let mut flags: u8 = 0b0010;
    if pending {
        flags += 0b0100;
    }
    if last_rx_is_empty {
        flags += 0b1000;
    }
    if warm_boot {
        flags += 0b1_0000;
    }
    flags
}

/// Carries out a read of the data port.
fn serial_rx(r: Registers, character: Option<u8>) -> (out: (Registers, u8))
    requires
        r.wf(),
    ensures
        out == r.serial_rx(character),
        out.0.wf(),
{
    let mut n = r;
    proof {
        bits_are_masks(0, r.int_status);
    }
    n.int_status = r.int_status & !INT_RX_MASK;
    n.int_line_raised = false;
    n.rx_done = true;
    match character {
        Some(ch) => {
            if ch == CTRL_C {
                n.quit = true;
            }
            n.last_rx_is_empty = false;
            (
                n,
                if ch == DEL {
                    BACKSPACE
                } else {
                    ch
                },
            )
        },
        None => {
            n.last_rx_is_empty = true;
            (n, RX_EMPTY)
        },
    }
}

/// Lets one millisecond pass.
fn tick(r: Registers, pending: bool) -> (next: Registers)
    requires
        r.wf(),
    ensures
        next == r.tick(pending),
        next.wf(),
{
    let mut n = r;
    if r.int_rx_enabled && pending && r.rx_done {
        proof {
            bits_are_masks(0, r.int_status);
        }
        n.int_status = r.int_status | INT_RX_MASK;
        n.int_line_raised = true;
        n.rx_done = false;
    }
    n
}

} // verus!
