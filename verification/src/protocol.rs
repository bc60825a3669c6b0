//! The port protocol of the I/O coprocessor as a state machine over plain
//! values: the registers, the opcode numbers and what every transfer does.
//!
//! The CPU reaches the coprocessor through two ports that differ in bit 0 of
//! the port address. A write to the command port (even) latches an opcode; a
//! write to the data port (odd) carries out the latched write opcode with
//! the byte written. A read from the command port carries out the latched
//! read opcode; a read from the data port takes a character from the
//! terminal, whatever opcode is latched.

use vstd::prelude::*;
use crate::clock::{WallClock, DATETIME_BYTES};
use crate::filesystem::{names_disk, DiskState, SECTOR_SIZE};
use crate::host::{HostReply, HostRequest};
use crate::memory::{decode, MAX_BANK, RAM_SIZE};

verus! {

/// The opcode that is latched while no transfer is under way.
pub const OPCODE_NOP: u8 = 0xff;

pub const OP_USER_LED: u8 = 0x00;

pub const OP_SERIAL_TX: u8 = 0x01;

pub const OP_GPIOA_W: u8 = 0x03;

pub const OP_GPIOB_W: u8 = 0x04;

pub const OP_IODIRA_W: u8 = 0x05;

pub const OP_IODIRB_W: u8 = 0x06;

pub const OP_GPPUA_W: u8 = 0x07;

pub const OP_GPPUB_W: u8 = 0x08;

pub const OP_SELDISK: u8 = 0x09;

pub const OP_SELTRACK: u8 = 0x0a;

pub const OP_SELSECT: u8 = 0x0b;

pub const OP_WRITESECT: u8 = 0x0c;

pub const OP_SETBANK: u8 = 0x0d;

pub const OP_SETIRQ: u8 = 0x0e;

pub const OP_SETTICK: u8 = 0x0f;

pub const OP_SETOPT: u8 = 0x10;

pub const OP_SETSPP: u8 = 0x11;

/// Printing to a file: reserved, not implemented.
pub const OP_WRSPP: u8 = 0x12;

pub const OP_USER_KEY: u8 = 0x80;

pub const OP_GPIOA_R: u8 = 0x81;

pub const OP_GPIOB_R: u8 = 0x82;

pub const OP_SYSFLAGS: u8 = 0x83;

pub const OP_DATETIME: u8 = 0x84;

pub const OP_ERRDISK: u8 = 0x85;

pub const OP_READSECT: u8 = 0x86;

pub const OP_SDMOUNT: u8 = 0x87;

pub const OP_ATXBUFF: u8 = 0x88;

pub const OP_SYSIRQ: u8 = 0x89;

/// Reserved for the printer port's status: diagnostics name it like
/// [`OP_GETSPP`], and it is not implemented.
pub const OP_GETSPP_RESERVED: u8 = 0x8a;

pub const OP_GETSPP: u8 = 0x90;

/// Bit of the interrupt registers that stands for serial reception.
pub const INT_RX_MASK: u8 = 1;

/// Bit of the interrupt registers that stands for the system tick.
pub const INT_SYS_TICK_MASK: u8 = 2;

/// The disk set of an image that has no disks.
pub const NO_DISK_SET: u8 = 0xff;

/// What a read of the data port returns while the terminal has no input.
pub const RX_EMPTY: u8 = 0xff;

/// The character that ends the emulation.
pub const CTRL_C: u8 = 3;

/// The character that terminals send for the erase key.
pub const DEL: u8 = 127;

/// The character that the guest gets in place of [`DEL`].
pub const BACKSPACE: u8 = 8;

/// What the printer port reports while printer emulation is on.
pub const SPP_READY: u8 = 0b0100_0001;

/// What the transmit buffer reports: it is never full.
pub const TX_BUFFER_FREE: u8 = 255;

/// Whether a port address names the data port rather than the command port:
/// whether its bit 0 is set.
pub open spec fn is_data_port(address: u16) -> bool {
    address % 2 == 1
}

/// Whether bit 0 of a byte is set.
pub open spec fn bit0(value: u8) -> bool {
    value % 2 == 1
}

/// Whether bit 1 of a byte is set.
pub open spec fn bit1(value: u8) -> bool {
    (value / 2) % 2 == 1
}

/// The pending interrupts with the one for serial reception among them.
pub open spec fn with_rx(status: u8) -> u8 {
    if bit0(status) {
        status
    } else {
        (status + INT_RX_MASK) as u8
    }
}

/// The pending interrupts without the one for serial reception.
pub open spec fn without_rx(status: u8) -> u8 {
    if bit0(status) {
        (status - INT_RX_MASK) as u8
    } else {
        status
    }
}

/// The arithmetic above speaks of bits: bit 0 and bit 1 are what the masks 1
/// and 2 select, and the reception interrupt is set and cleared by its mask.
pub proof fn bits_are_masks(address: u16, value: u8)
    ensures
        is_data_port(address) <==> address & 1 == 1,
        bit0(value) <==> value & 1 != 0,
        bit1(value) <==> value & 2 != 0,
        with_rx(value) == value | INT_RX_MASK,
        without_rx(value) == value & !INT_RX_MASK,
        with_rx(value) & INT_RX_MASK == INT_RX_MASK,
        without_rx(value) & INT_RX_MASK == 0,
{
    assert((address % 2 == 1) <==> (address & 1 == 1)) by (bit_vector);
    assert((value % 2 == 1) <==> (value & 1 != 0)) by (bit_vector);
    assert(((value / 2) % 2 == 1) <==> (value & 2 != 0)) by (bit_vector);
    assert(value % 2 == 1 ==> value | 1 == value) by (bit_vector);
    assert(value % 2 != 1 ==> value | 1 == value + 1) by (bit_vector);
    assert(value % 2 == 1 ==> value & !1u8 == value - 1) by (bit_vector);
    assert(value % 2 != 1 ==> value & !1u8 == value) by (bit_vector);
    assert((value | 1) & 1 == 1) by (bit_vector);
    assert((value & !1u8) & 1 == 0) by (bit_vector);
}

/// Whether a write opcode takes more than one byte of payload.
pub open spec fn is_multi_byte_write(opcode: u8) -> bool {
    opcode == OP_SELTRACK || opcode == OP_WRITESECT
}

/// Whether the coprocessor carries out a write opcode.
pub open spec fn is_write_opcode(opcode: u8) -> bool {
    opcode == OP_USER_LED || opcode == OP_SERIAL_TX || (OP_GPIOA_W <= opcode <= OP_SETSPP)
}

/// Whether the coprocessor carries out a read opcode.
pub open spec fn is_read_opcode(opcode: u8) -> bool {
    (OP_USER_KEY <= opcode <= OP_SYSIRQ) || opcode == OP_GETSPP
}

/// The track that the two payload bytes of a track selection name.
pub open spec fn track_number(low: u8, high: u8) -> u16 {
    (high * 256 + low) as u16
}

/// The system flags: bit 1 for the clock chip, which is always there, bit 2
/// for pending terminal input, bit 3 when the last character read was the
/// "empty" mark, bit 4 for the warm boot message.
pub open spec fn sysflags(pending: bool, last_rx_is_empty: bool, warm_boot: bool) -> u8 {
    (2 + if pending {
        4int
    } else {
        0
    } + if last_rx_is_empty {
        8int
    } else {
        0
    } + if warm_boot {
        16int
    } else {
        0
    }) as u8
}

/// The name of an opcode, as diagnostics show it.
pub open spec fn opcode_name_text(opcode: u8) -> Seq<char> {
    if opcode == OP_USER_LED {
        "USER LED"@
    } else if opcode == OP_SERIAL_TX {
        "SERIAL TX"@
    } else if opcode == OP_GPIOA_W {
        "GPIOA W"@
    } else if opcode == OP_GPIOB_W {
        "GPIOB W"@
    } else if opcode == OP_IODIRA_W {
        "IODIRA W"@
    } else if opcode == OP_IODIRB_W {
        "IODIRB W"@
    } else if opcode == OP_GPPUA_W {
        "GPPUA W"@
    } else if opcode == OP_GPPUB_W {
        "GPPUB W"@
    } else if opcode == OP_SELDISK {
        "SELDISK"@
    } else if opcode == OP_SELTRACK {
        "SELTRACK"@
    } else if opcode == OP_SELSECT {
        "SELSECT"@
    } else if opcode == OP_WRITESECT {
        "WRITESECT"@
    } else if opcode == OP_SETBANK {
        "SETBANK"@
    } else if opcode == OP_SETIRQ {
        "SETIRQ"@
    } else if opcode == OP_SETTICK {
        "SETTICK"@
    } else if opcode == OP_SETOPT {
        "SETOPT"@
    } else if opcode == OP_SETSPP {
        "SETSPP"@
    } else if opcode == OP_WRSPP {
        "WRSPP"@
    } else if opcode == OP_USER_KEY {
        "USER KEY"@
    } else if opcode == OP_GPIOA_R {
        "GPIOA R"@
    } else if opcode == OP_GPIOB_R {
        "GPIOB R"@
    } else if opcode == OP_SYSFLAGS {
        "SYSFLAGS"@
    } else if opcode == OP_DATETIME {
        "DATETIME"@
    } else if opcode == OP_ERRDISK {
        "ERRDISK"@
    } else if opcode == OP_READSECT {
        "READSECT"@
    } else if opcode == OP_SDMOUNT {
        "SDMOUNT"@
    } else if opcode == OP_ATXBUFF {
        "ATXBUFF"@
    } else if opcode == OP_SYSIRQ {
        "SYSIRQ"@
    } else if opcode == OP_GETSPP_RESERVED {
        "GETSPP"@
    } else if opcode == OP_GETSPP {
        "GETSPP"@
    } else if opcode == OPCODE_NOP {
        "NOP"@
    } else {
        "UNKNOWN"@
    }
}

/// What the host shows when the guest uses an opcode that is not implemented.
pub open spec fn unimplemented_text(opcode: u8) -> Seq<char> {
    "<<"@ + opcode_name_text(opcode) + " not implemented>>"@
}

/// The coprocessor's registers.
#[derive(Clone, Copy, PartialEq, Eq, Debug, Structural)]
pub struct Registers {
    /// The disk set of the loaded image, [`NO_DISK_SET`] for none.
    pub disk_set: u8,
    /// The bank that the lower half of the address space shows.
    pub bank: u8,
    /// The latched opcode.
    pub opcode: u8,
    /// Number of bytes that the latched opcode has transferred.
    pub io_byte_count: u32,
    /// Low byte of a track selection that is under way.
    pub track_sel_lo: u8,
    /// Whether the last read of the data port found no character.
    pub last_rx_is_empty: bool,
    /// The clock as read at the start of the last date and time transfer.
    pub last_time: WallClock,
    /// Set when the emulation is to end.
    pub quit: bool,
    pub user_led: bool,
    pub gpio_a: u8,
    pub gpio_b: u8,
    pub io_dir_a: u8,
    pub io_dir_b: u8,
    pub gppu_a: u8,
    pub gppu_b: u8,
    /// Whether the interrupt line to the CPU is raised.
    pub int_line_raised: bool,
    /// The interrupts that await the guest.
    pub int_status: u8,
    /// Whether the guest has read the character that raised the last
    /// reception interrupt.
    pub rx_done: bool,
    pub int_rx_enabled: bool,
    pub int_systick_enabled: bool,
    pub sys_tick_time: u8,
    pub cpm_warm_boot_enabled: bool,
    pub spp_enabled: bool,
    pub spp_fd: bool,
}

impl Registers {
    /// The bank exists, a latched multi-byte opcode has not yet transferred
    /// all its bytes, and the interrupt line is raised exactly while an
    /// interrupt awaits the guest.
    pub open spec fn wf(self) -> bool {
        &&& self.bank <= MAX_BANK
        &&& self.opcode == OP_SELTRACK ==> self.io_byte_count <= 1
        &&& self.opcode == OP_WRITESECT ==> self.io_byte_count < SECTOR_SIZE
        &&& self.opcode == OP_DATETIME ==> self.io_byte_count < DATETIME_BYTES
        &&& self.opcode == OP_READSECT ==> self.io_byte_count < SECTOR_SIZE
        &&& self.int_status == 0 || self.int_status == INT_RX_MASK
        &&& self.int_line_raised <==> self.int_status != 0
    }

    /// The registers after power-up.
    pub open spec fn initial() -> Registers {
        Registers {
            disk_set: NO_DISK_SET,
            bank: 0,
            opcode: OPCODE_NOP,
            io_byte_count: 0,
            track_sel_lo: 0,
            last_rx_is_empty: false,
            last_time: WallClock::at_power_up(),
            quit: false,
            user_led: false,
            gpio_a: 0,
            gpio_b: 0,
            io_dir_a: 0,
            io_dir_b: 0,
            gppu_a: 0,
            gppu_b: 0,
            int_line_raised: false,
            int_status: 0,
            rx_done: true,
            int_rx_enabled: false,
            int_systick_enabled: false,
            sys_tick_time: 0,
            cpm_warm_boot_enabled: false,
            spp_enabled: false,
            spp_fd: false,
        }
    }

    /// The registers with the opcode back at [`OPCODE_NOP`].
    pub open spec fn idle(self) -> Registers {
        Registers { opcode: OPCODE_NOP, ..self }
    }

    /// The registers with one more byte transferred of a payload of `total`
    /// bytes; after the last one the opcode is back at [`OPCODE_NOP`].
    pub open spec fn counted(self, total: u32) -> Registers {
        let count = (self.io_byte_count + 1) as u32;
        Registers {
            io_byte_count: count,
            opcode: if count >= total {
                OPCODE_NOP
            } else {
                self.opcode
            },
            ..self
        }
    }

    /// The registers after a write opcode with a single byte of payload that
    /// touches nothing but registers; `None` for every other opcode.
    pub open spec fn register_write(self, value: u8) -> Option<Registers> {
        if self.opcode == OP_USER_LED {
            Some(Registers { user_led: bit0(value), ..self })
        } else if self.opcode == OP_GPIOA_W {
            Some(Registers { gpio_a: value, ..self })
        } else if self.opcode == OP_GPIOB_W {
            Some(Registers { gpio_b: value, ..self })
        } else if self.opcode == OP_IODIRA_W {
            Some(Registers { io_dir_a: value, ..self })
        } else if self.opcode == OP_IODIRB_W {
            Some(Registers { io_dir_b: value, ..self })
        } else if self.opcode == OP_GPPUA_W {
            Some(Registers { gppu_a: value, ..self })
        } else if self.opcode == OP_GPPUB_W {
            Some(Registers { gppu_b: value, ..self })
        } else if self.opcode == OP_SETBANK {
            Some(
                if value <= MAX_BANK {
                    Registers { bank: value, ..self }
                } else {
                    self
                },
            )
        } else if self.opcode == OP_SETIRQ {
            Some(
                Registers {
                    int_rx_enabled: bit0(value),
                    int_systick_enabled: bit1(value),
                    ..self
                },
            )
        } else if self.opcode == OP_SETTICK {
            Some(
                if value > 0 {
                    Registers { sys_tick_time: value, ..self }
                } else {
                    self
                },
            )
        } else if self.opcode == OP_SETOPT {
            Some(Registers { cpm_warm_boot_enabled: bit0(value), ..self })
        } else if self.opcode == OP_SETSPP {
            Some(Registers { spp_enabled: true, spp_fd: bit0(value), ..self })
        } else {
            None
        }
    }

    /// What a read opcode with a single byte returns from the registers
    /// alone; `None` for every other opcode.
    pub open spec fn register_read(self) -> Option<u8> {
        if self.opcode == OP_USER_KEY {
            Some(0)
        } else if self.opcode == OP_GPIOA_R {
            Some(self.gpio_a)
        } else if self.opcode == OP_GPIOB_R {
            Some(self.gpio_b)
        } else if self.opcode == OP_SDMOUNT {
            Some(0)
        } else if self.opcode == OP_ATXBUFF {
            Some(TX_BUFFER_FREE)
        } else if self.opcode == OP_GETSPP {
            Some(
                if self.spp_enabled {
                    SPP_READY
                } else {
                    0
                },
            )
        } else {
            None
        }
    }

    /// The registers after a read of the data port that brought `character`
    /// from the terminal, and the byte that the guest gets.
    pub open spec fn serial_rx(self, character: Option<u8>) -> (Registers, u8) {
        let r = Registers {
            int_status: without_rx(self.int_status),
            int_line_raised: false,
            rx_done: true,
            last_rx_is_empty: character is None,
            ..self
        };
        match character {
            Some(ch) => (
                Registers { quit: self.quit || ch == CTRL_C, ..r },
                if ch == DEL {
                    BACKSPACE
                } else {
                    ch
                },
            ),
            None => (r, RX_EMPTY),
        }
    }

    /// The registers after one millisecond has passed, `pending` telling
    /// whether the terminal has input.
    pub open spec fn tick(self, pending: bool) -> Registers {
        if self.int_rx_enabled && pending && self.rx_done {
            Registers {
                int_status: with_rx(self.int_status),
                int_line_raised: true,
                rx_done: false,
                ..self
            }
        } else {
            self
        }
    }
}

/// What the next byte of a sector transfer needs from the disk image: `None`
/// when the byte does not reach the image, else where to position the image
/// first, if anywhere. The first byte of a sector positions the image at the
/// selected sector; the others go where the cursor is.
pub open spec fn sector_access(regs: Registers, disk: DiskState) -> Option<Option<u64>> {
    if regs.io_byte_count == 0 {
        match disk.seek_target() {
            Some(pos) => Some(Some(pos)),
            None => None,
        }
    } else if disk.transfers() {
        Some(None)
    } else {
        None
    }
}

/// The disk registers after the next byte of a sector was written, `written`
/// telling whether it reached the image.
pub open spec fn sector_written(regs: Registers, disk: DiskState, written: bool) -> DiskState {
    if regs.io_byte_count == 0 {
        disk.seek(written).write(written)
    } else {
        disk.write(written)
    }
}

/// The disk registers after the next byte of a sector was read, and the byte
/// for the guest. `byte` is what the image gave.
pub open spec fn sector_read(regs: Registers, disk: DiskState, byte: Option<u8>) -> (
    DiskState,
    u8,
) {
    if regs.io_byte_count == 0 {
        disk.seek(byte is Some).read(byte)
    } else {
        disk.read(byte)
    }
}

/// The registers of the coprocessor and of the disk after a write of `value`
/// to the data port.
pub open spec fn data_out(regs: Registers, disk: DiskState, value: u8, reply: HostReply) -> (
    Registers,
    DiskState,
) {
    if regs.opcode == OP_SERIAL_TX {
        (regs.idle(), disk)
    } else if regs.opcode == OP_SELDISK {
        (
            regs.idle(),
            if regs.disk_set != NO_DISK_SET {
                disk.select_disk(regs.disk_set, value, reply.open_outcome())
            } else {
                disk
            },
        )
    } else if regs.opcode == OP_SELTRACK {
        if regs.io_byte_count == 0 {
            (Registers { track_sel_lo: value, io_byte_count: 1, ..regs }, disk)
        } else {
            (regs.idle(), disk.select_track(track_number(regs.track_sel_lo, value)))
        }
    } else if regs.opcode == OP_SELSECT {
        (regs.idle(), disk.select_sector(value))
    } else if regs.opcode == OP_WRITESECT {
        (regs.counted(SECTOR_SIZE as u32), sector_written(regs, disk, reply.written()))
    } else {
        match regs.register_write(value) {
            Some(r) => (r.idle(), disk),
            None => (Registers { quit: true, ..regs }.idle(), disk),
        }
    }
}

/// The registers of the coprocessor and of the disk after a read from the
/// command port, and the byte that the CPU gets. `now` is the clock's
/// reading, which only the start of a date and time transfer looks at;
/// without a reading the transfer gives the snapshot held so far.
pub open spec fn command_in(
    regs: Registers,
    disk: DiskState,
    reply: HostReply,
    now: Option<WallClock>,
) -> (Registers, DiskState, u8) {
    if regs.opcode == OP_SYSFLAGS {
        (
            regs.idle(),
            disk,
            sysflags(reply.pending(), regs.last_rx_is_empty, regs.cpm_warm_boot_enabled),
        )
    } else if regs.opcode == OP_DATETIME {
        let time = if regs.io_byte_count == 0 {
            match now {
                Some(reading) => reading,
                None => regs.last_time,
            }
        } else {
            regs.last_time
        };
        (
            Registers { last_time: time, ..regs }.counted(DATETIME_BYTES),
            disk,
            time.frame_byte(regs.io_byte_count as int),
        )
    } else if regs.opcode == OP_ERRDISK {
        (regs.idle(), disk, disk.last_error.code())
    } else if regs.opcode == OP_READSECT {
        let (d, value) = sector_read(regs, disk, reply.read_byte());
        (regs.counted(SECTOR_SIZE as u32), d, value)
    } else if regs.opcode == OP_SYSIRQ {
        (Registers { int_status: 0, int_line_raised: false, ..regs }.idle(), disk, regs.int_status)
    } else {
        match regs.register_read() {
            Some(value) => (regs.idle(), disk, value),
            None => (Registers { quit: true, ..regs }.idle(), disk, 0),
        }
    }
}

/// The machine as plain values: RAM, the coprocessor's registers and those of
/// the disk back-end.
pub struct MachineState {
    pub mem: Seq<u8>,
    pub regs: Registers,
    pub disk: DiskState,
}

impl MachineState {
    pub open spec fn wf(self) -> bool {
        &&& self.mem.len() == RAM_SIZE
        &&& self.regs.wf()
        &&& self.disk.wf()
    }

    /// The machine after power-up.
    pub open spec fn initial() -> MachineState {
        MachineState {
            mem: Seq::new(RAM_SIZE as nat, |i: int| 0u8),
            regs: Registers::initial(),
            disk: DiskState::initial(),
        }
    }

    pub open spec fn with_regs(self, regs: Registers) -> MachineState {
        MachineState { regs, ..self }
    }

    /// The byte that the CPU reads at an address.
    pub open spec fn peek(self, address: u16) -> u8 {
        self.mem[decode(self.regs.bank, address)]
    }

    /// The machine after the CPU wrote a byte at an address.
    pub open spec fn poke(self, address: u16, value: u8) -> MachineState {
        MachineState { mem: self.mem.update(decode(self.regs.bank, address), value), ..self }
    }

    /// What a tick needs from the host.
    pub open spec fn tick_request(self) -> HostRequest {
        if self.regs.int_rx_enabled {
            HostRequest::ConsoleStatus
        } else {
            HostRequest::Nothing
        }
    }

    /// The machine after one millisecond has passed.
    pub open spec fn tick_ms(self, reply: HostReply) -> MachineState {
        self.with_regs(self.regs.tick(reply.pending()))
    }

    /// What a write to a port needs from the host.
    pub open spec fn port_out_request(self, address: u16, value: u8) -> HostRequest {
        let opcode = self.regs.opcode;
        if !is_data_port(address) {
            HostRequest::Nothing
        } else if opcode == OP_SERIAL_TX {
            HostRequest::ConsolePut(value)
        } else if opcode == OP_SELDISK {
            if self.regs.disk_set == NO_DISK_SET {
                HostRequest::Nothing
            } else if names_disk(self.regs.disk_set, value) {
                HostRequest::OpenDisk { disk_set: self.regs.disk_set, disk_number: value }
            } else {
                HostRequest::CloseDisk
            }
        } else if opcode == OP_WRITESECT {
            match sector_access(self.regs, self.disk) {
                Some(seek) => HostRequest::WriteDisk { seek, data: value },
                None => HostRequest::Nothing,
            }
        } else if is_write_opcode(opcode) {
            HostRequest::Nothing
        } else {
            HostRequest::Report { opcode }
        }
    }

    /// The machine after a write to a port, `reply` being the host's answer
    /// to [`MachineState::port_out_request`]. A write to the command port
    /// latches the value as the opcode and starts its payload anew.
    pub open spec fn port_out(self, address: u16, value: u8, reply: HostReply) -> MachineState {
        if is_data_port(address) {
            let (regs, disk) = data_out(self.regs, self.disk, value, reply);
            MachineState { regs, disk, ..self }
        } else {
            self.with_regs(Registers { opcode: value, io_byte_count: 0, ..self.regs })
        }
    }

    /// Whether a read from a port starts a date and time transfer, for which
    /// the clock is read.
    pub open spec fn starts_datetime(self, address: u16) -> bool {
        !is_data_port(address) && self.regs.opcode == OP_DATETIME && self.regs.io_byte_count == 0
    }

    /// What a read from a port needs from the host.
    pub open spec fn port_in_request(self, address: u16) -> HostRequest {
        let opcode = self.regs.opcode;
        if is_data_port(address) {
            HostRequest::ConsoleRead
        } else if opcode == OP_SYSFLAGS {
            HostRequest::ConsoleStatus
        } else if opcode == OP_READSECT {
            match sector_access(self.regs, self.disk) {
                Some(seek) => HostRequest::ReadDisk { seek },
                None => HostRequest::Nothing,
            }
        } else if self.starts_datetime(address) {
            HostRequest::ReadClock
        } else if is_read_opcode(opcode) {
            HostRequest::Nothing
        } else {
            HostRequest::Report { opcode }
        }
    }

    /// The machine after a read from a port, and the byte that the CPU gets.
    /// `reply` is the host's answer to [`MachineState::port_in_request`], and
    /// `now` the clock's reading, which only the start of a date and time
    /// transfer looks at.
    pub open spec fn port_in(self, address: u16, reply: HostReply, now: Option<WallClock>) -> (
        MachineState,
        u8,
    ) {
        if is_data_port(address) {
            let (regs, value) = self.regs.serial_rx(reply.character());
            (self.with_regs(regs), value)
        } else {
            let (regs, disk, value) = command_in(self.regs, self.disk, reply, now);
            (MachineState { regs, disk, ..self }, value)
        }
    }
}

} // verus!
