use std::collections::VecDeque;
use z80_mbc2_emu::clock::WallClock;
use z80_mbc2_emu::filesystem::OpenOutcome;
use z80_mbc2_emu::host::{HostReply, HostRequest};
use z80_mbc2_emu::mbc2_machine::{opcode_name, unimplemented_message, Mbc2Machine};
use z80_mbc2_emu::run_loop::{LoopVerdict, RunLoop};

const COMMAND: u16 = 0x00;
const DATA: u16 = 0x01;
const NOP: u8 = 0xff;

/// A host that keeps the terminal and the disk image in memory.
struct TestHost {
    input: VecDeque<u8>,
    output: Vec<u8>,
    image: Option<Vec<u8>>,
    cursor: usize,
    disks: Vec<(u8, u8)>,
    opened: Vec<(u8, u8)>,
    reports: Vec<u8>,
    requests: Vec<HostRequest>,
    clock: Option<(i64, i32)>,
}

impl TestHost {
    fn new() -> TestHost {
        TestHost {
            input: VecDeque::new(),
            output: Vec::new(),
            image: None,
            cursor: 0,
            disks: Vec::new(),
            opened: Vec::new(),
            reports: Vec::new(),
            requests: Vec::new(),
            clock: None,
        }
    }

    fn with_disk(disk_set: u8, disk_number: u8) -> TestHost {
        let mut host = TestHost::new();
        host.disks.push((disk_set, disk_number));
        host
    }

    fn position(&mut self, seek: Option<u64>) -> bool {
        match (seek, &self.image) {
            (_, None) => false,
            (Some(at), Some(image)) => {
                if at as usize <= image.len() {
                    self.cursor = at as usize;
                    true
                } else {
                    false
                }
            }
            (None, Some(_)) => true,
        }
    }

    fn serve(&mut self, request: HostRequest) -> HostReply {
        self.requests.push(request);
        match request {
            HostRequest::Nothing => HostReply::Nothing,
            HostRequest::ConsolePut(ch) => {
                self.output.push(ch);
                HostReply::Nothing
            }
            HostRequest::ConsoleStatus => HostReply::Pending(!self.input.is_empty()),
            HostRequest::ConsoleRead => HostReply::Character(self.input.pop_front()),
            HostRequest::CloseDisk => {
                self.image = None;
                HostReply::Nothing
            }
            HostRequest::ReadClock => match self.clock {
                Some((unix_seconds, offset_seconds)) => {
                    HostReply::Clock { unix_seconds, offset_seconds }
                }
                None => HostReply::Nothing,
            },
            HostRequest::OpenDisk { disk_set, disk_number } => {
                self.image = None;
                if self.disks.contains(&(disk_set, disk_number)) {
                    self.image = Some(vec![0xe5; 8_388_608]);
                    self.cursor = 0;
                    self.opened.push((disk_set, disk_number));
                    HostReply::Opened(OpenOutcome::Opened)
                } else {
                    HostReply::Opened(OpenOutcome::NotFound)
                }
            }
            HostRequest::ReadDisk { seek } => {
                if !self.position(seek) {
                    return HostReply::Read(None);
                }
                let image = self.image.as_ref().unwrap();
                if self.cursor < image.len() {
                    let byte = image[self.cursor];
                    self.cursor += 1;
                    HostReply::Read(Some(byte))
                } else {
                    HostReply::Read(Some(0))
                }
            }
            HostRequest::WriteDisk { seek, data } => {
                if !self.position(seek) {
                    return HostReply::Written(false);
                }
                let cursor = self.cursor;
                let image = self.image.as_mut().unwrap();
                if cursor < image.len() {
                    image[cursor] = data;
                    self.cursor += 1;
                    HostReply::Written(true)
                } else {
                    HostReply::Written(false)
                }
            }
            HostRequest::Report { opcode } => {
                self.reports.push(opcode);
                HostReply::Nothing
            }
        }
    }
}

fn epoch() -> WallClock {
    WallClock { second: 0, minute: 0, hour: 0, day: 1, month: 1, year: 2000 }
}

fn machine() -> Mbc2Machine {
    Mbc2Machine::new()
}

fn out(m: &mut Mbc2Machine, host: &mut TestHost, address: u16, value: u8) {
    let request = m.port_out_request(address, value);
    let reply = host.serve(request);
    m.port_out(address, value, reply);
}

fn input_at(m: &mut Mbc2Machine, host: &mut TestHost, address: u16, now: WallClock) -> u8 {
    let request = m.port_in_request(address);
    let reply = host.serve(request);
    m.port_in_at(address, reply, Some(now))
}

fn input(m: &mut Mbc2Machine, host: &mut TestHost, address: u16) -> u8 {
    let request = m.port_in_request(address);
    let reply = host.serve(request);
    m.port_in(address, reply)
}

fn command(m: &mut Mbc2Machine, host: &mut TestHost, opcode: u8, value: u8) {
    out(m, host, COMMAND, opcode);
    out(m, host, DATA, value);
}

fn query(m: &mut Mbc2Machine, host: &mut TestHost, opcode: u8) -> u8 {
    out(m, host, COMMAND, opcode);
    input(m, host, COMMAND)
}

fn tick(m: &mut Mbc2Machine, host: &mut TestHost) {
    let request = m.tick_request();
    let reply = host.serve(request);
    m.tick_ms(reply);
}

fn select_track(m: &mut Mbc2Machine, host: &mut TestHost, track: u16) {
    out(m, host, COMMAND, 0x0a);
    out(m, host, DATA, (track & 0xff) as u8);
    out(m, host, DATA, (track >> 8) as u8);
}

fn select(m: &mut Mbc2Machine, host: &mut TestHost, track: u16, sector: u8) {
    select_track(m, host, track);
    command(m, host, 0x0b, sector);
}

fn machine_with_disk(host: &mut TestHost) -> Mbc2Machine {
    let mut m = machine();
    m.set_disk_set(0);
    host.disks.push((0, 0));
    command(&mut m, host, 0x09, 0);
    assert_eq!(m.disk().get_last_error(), 0);
    m
}

#[test]
fn machine_after_power_up() {
    let m = machine();
    let r = m.registers();
    assert_eq!(r.opcode, NOP);
    assert_eq!(r.io_byte_count, 0);
    assert_eq!(r.disk_set, 0xff);
    assert_eq!(r.bank, 0);
    assert_eq!(r.track_sel_lo, 0);
    assert!(!r.last_rx_is_empty);
    assert!(!r.quit);
    assert!(!r.user_led);
    assert_eq!((r.gpio_a, r.gpio_b, r.io_dir_a, r.io_dir_b, r.gppu_a, r.gppu_b), (0, 0, 0, 0, 0, 0));
    assert!(!r.int_line_raised);
    assert_eq!(r.int_status, 0);
    assert!(r.rx_done);
    assert!(!r.int_rx_enabled);
    assert!(!r.int_systick_enabled);
    assert_eq!(r.sys_tick_time, 0);
    assert!(!r.cpm_warm_boot_enabled);
    assert!(!r.spp_enabled);
    assert!(!r.spp_fd);
    assert_eq!(r.last_time, epoch());
    assert!(!m.quit());
    assert!(!m.interrupt_pending());
    assert_eq!(m.disk().get_last_error(), 0);
    assert!(!m.disk().is_opened());
}

#[test]
fn set_disk_set_stores_the_set() {
    let mut m = machine();
    m.set_disk_set(3);
    assert_eq!(m.registers().disk_set, 3);
    m.set_disk_set(0xff);
    assert_eq!(m.registers().disk_set, 0xff);
}

#[test]
fn command_port_latches_the_opcode() {
    let mut m = machine();
    let mut host = TestHost::new();
    assert_eq!(m.port_out_request(COMMAND, 0x0c), HostRequest::Nothing);
    out(&mut m, &mut host, COMMAND, 0x0c);
    assert_eq!(m.registers().opcode, 0x0c);
    assert_eq!(m.registers().io_byte_count, 0);
    out(&mut m, &mut host, COMMAND, 0x55);
    assert_eq!(m.registers().opcode, 0x55);
    assert_eq!(m.registers().io_byte_count, 0);
    assert!(!m.quit());
}

#[test]
fn only_bit_zero_of_the_port_address_counts() {
    let mut m = machine();
    let mut host = TestHost::new();
    out(&mut m, &mut host, 0xfffe, 0x03);
    assert_eq!(m.registers().opcode, 0x03);
    out(&mut m, &mut host, 0x1235, 0x5a);
    assert_eq!(m.registers().gpio_a, 0x5a);
    assert_eq!(m.registers().opcode, NOP);
    out(&mut m, &mut host, 0x8000, 0x81);
    assert_eq!(input(&mut m, &mut host, 0x0102), 0x5a);
    assert_eq!(input(&mut m, &mut host, 0xffff), 0xff);
    assert!(m.registers().last_rx_is_empty);
}

#[test]
fn seltrack_framing() {
    let mut m = machine();
    let mut host = TestHost::new();
    out(&mut m, &mut host, COMMAND, 0x0a);
    out(&mut m, &mut host, DATA, 0x34);
    assert_eq!(m.registers().opcode, 0x0a);
    assert_eq!(m.registers().io_byte_count, 1);
    assert_eq!(m.registers().track_sel_lo, 0x34);
    out(&mut m, &mut host, DATA, 0x00);
    assert_eq!(m.disk().track(), 0x0034);
    assert_eq!(m.registers().opcode, NOP);
    assert_eq!(m.disk().get_last_error(), 0);
}

#[test]
fn seltrack_with_a_track_off_the_disk() {
    let mut m = machine();
    let mut host = TestHost::new();
    select(&mut m, &mut host, 0x0034, 0);
    out(&mut m, &mut host, COMMAND, 0x0a);
    out(&mut m, &mut host, DATA, 0x34);
    out(&mut m, &mut host, DATA, 0x12);
    assert_eq!(m.disk().track(), 0x0034);
    assert_eq!(m.registers().opcode, NOP);
    assert_eq!(m.disk().get_last_error(), 17);
    assert_eq!(query(&mut m, &mut host, 0x85), 17);
}

#[test]
fn seltrack_takes_the_high_byte() {
    let mut m = machine();
    let mut host = TestHost::new();
    select_track(&mut m, &mut host, 0x01ff);
    assert_eq!(m.disk().track(), 511);
    assert_eq!(m.disk().get_last_error(), 0);
    select_track(&mut m, &mut host, 0x0200);
    assert_eq!(m.disk().track(), 511);
    assert_eq!(m.disk().get_last_error(), 17);
}

#[test]
fn selsect_bounds() {
    let mut m = machine();
    let mut host = TestHost::new();
    command(&mut m, &mut host, 0x0b, 31);
    assert_eq!(m.disk().sector(), 31);
    assert_eq!(m.disk().get_last_error(), 0);
    command(&mut m, &mut host, 0x0b, 32);
    assert_eq!(m.disk().sector(), 31);
    assert_eq!(m.disk().get_last_error(), 18);
    assert_eq!(m.registers().opcode, NOP);
}

#[test]
fn rx_fast_path() {
    let mut m = machine();
    let mut host = TestHost::new();
    assert_eq!(m.port_in_request(DATA), HostRequest::ConsoleRead);
    assert_eq!(input(&mut m, &mut host, DATA), 0xff);
    assert!(m.registers().last_rx_is_empty);
    assert_eq!(query(&mut m, &mut host, 0x83), 0x0a);
}

#[test]
fn rx_returns_the_pending_character() {
    let mut m = machine();
    let mut host = TestHost::new();
    host.input.push_back(b'A');
    assert_eq!(query(&mut m, &mut host, 0x83), 0b0110);
    assert_eq!(input(&mut m, &mut host, DATA), b'A');
    assert!(!m.registers().last_rx_is_empty);
    assert!(!m.quit());
    assert_eq!(query(&mut m, &mut host, 0x83), 0b0010);
}

#[test]
fn rx_needs_no_latched_opcode_and_keeps_it() {
    let mut m = machine();
    let mut host = TestHost::new();
    out(&mut m, &mut host, COMMAND, 0x0c);
    host.input.push_back(b'x');
    assert_eq!(input(&mut m, &mut host, DATA), b'x');
    assert_eq!(m.registers().opcode, 0x0c);
    assert_eq!(m.registers().io_byte_count, 0);
}

#[test]
fn ctrl_c_sets_quit() {
    let mut m = machine();
    let mut host = TestHost::new();
    host.input.push_back(3);
    assert_eq!(input(&mut m, &mut host, DATA), 3);
    assert!(m.quit());
    assert!(!m.registers().last_rx_is_empty);
    assert_eq!(RunLoop::verdict(m.quit(), false), LoopVerdict::Quit);
}

#[test]
fn del_is_remapped_to_backspace() {
    let mut m = machine();
    let mut host = TestHost::new();
    host.input.push_back(127);
    assert_eq!(input(&mut m, &mut host, DATA), 8);
    assert!(!m.quit());
    assert!(!m.registers().last_rx_is_empty);
}

#[test]
fn character_255_is_not_the_empty_mark() {
    let mut m = machine();
    let mut host = TestHost::new();
    host.input.push_back(0xff);
    assert_eq!(input(&mut m, &mut host, DATA), 0xff);
    assert!(!m.registers().last_rx_is_empty);
    assert_eq!(input(&mut m, &mut host, DATA), 0xff);
    assert!(m.registers().last_rx_is_empty);
}

#[test]
fn reply_of_another_kind_counts_as_no_input() {
    let mut m = machine();
    assert_eq!(m.port_in_at(DATA, HostReply::Read(Some(b'A')), None), 0xff);
    assert!(m.registers().last_rx_is_empty);
    assert_eq!(m.port_in_at(DATA, HostReply::Nothing, None), 0xff);
    m.port_out(COMMAND, 0x83, HostReply::Nothing);
    assert_eq!(m.port_in_at(COMMAND, HostReply::Character(Some(1)), None), 0b1010);
}

#[test]
fn unimplemented_write_opcode() {
    let mut m = machine();
    let mut host = TestHost::new();
    out(&mut m, &mut host, COMMAND, 0x12);
    assert!(!m.quit());
    assert_eq!(m.port_out_request(DATA, 0x00), HostRequest::Report { opcode: 0x12 });
    out(&mut m, &mut host, DATA, 0x00);
    assert!(m.quit());
    assert_eq!(m.registers().opcode, NOP);
    assert_eq!(host.reports, vec![0x12]);
    assert_eq!(RunLoop::verdict(m.quit(), false), LoopVerdict::Quit);
    assert_eq!(unimplemented_message(0x12), "<<WRSPP not implemented>>");
}

#[test]
fn unimplemented_read_opcode() {
    let mut m = machine();
    let mut host = TestHost::new();
    out(&mut m, &mut host, COMMAND, 0x8a);
    assert_eq!(m.port_in_request(COMMAND), HostRequest::Report { opcode: 0x8a });
    assert_eq!(input(&mut m, &mut host, COMMAND), 0);
    assert!(m.quit());
    assert_eq!(m.registers().opcode, NOP);
    assert_eq!(host.reports, vec![0x8a]);
}

#[test]
fn write_to_the_data_port_without_opcode_quits() {
    let mut m = machine();
    let mut host = TestHost::new();
    out(&mut m, &mut host, DATA, 0x00);
    assert!(m.quit());
    assert_eq!(host.reports, vec![NOP]);
}

#[test]
fn read_opcode_written_to_quits() {
    let mut m = machine();
    let mut host = TestHost::new();
    command(&mut m, &mut host, 0x83, 0);
    assert!(m.quit());
    assert_eq!(host.reports, vec![0x83]);
}

#[test]
fn write_opcode_read_from_quits() {
    let mut m = machine();
    let mut host = TestHost::new();
    assert_eq!(query(&mut m, &mut host, 0x03), 0);
    assert!(m.quit());
    assert_eq!(host.reports, vec![0x03]);
}

#[test]
fn opcode_two_is_not_implemented() {
    let mut m = machine();
    let mut host = TestHost::new();
    command(&mut m, &mut host, 0x02, 1);
    assert!(m.quit());
    assert_eq!(host.reports, vec![0x02]);
}

#[test]
fn interrupt_raise() {
    let mut m = machine();
    let mut host = TestHost::new();
    command(&mut m, &mut host, 0x0e, 0x01);
    assert!(m.registers().int_rx_enabled);
    assert!(m.registers().rx_done);
    host.input.push_back(b'k');
    assert_eq!(m.tick_request(), HostRequest::ConsoleStatus);
    tick(&mut m, &mut host);
    assert_eq!(m.registers().int_status & 1, 1);
    assert!(m.registers().int_line_raised);
    assert!(m.interrupt_pending());
    assert!(!m.registers().rx_done);
    assert_eq!(input(&mut m, &mut host, DATA), b'k');
    assert_eq!(m.registers().int_status & 1, 0);
    assert!(!m.registers().int_line_raised);
    assert!(!m.interrupt_pending());
    assert!(m.registers().rx_done);
}

#[test]
fn no_second_interrupt_before_the_character_is_read() {
    let mut m = machine();
    let mut host = TestHost::new();
    command(&mut m, &mut host, 0x0e, 0x01);
    host.input.push_back(b'a');
    host.input.push_back(b'b');
    tick(&mut m, &mut host);
    assert!(m.interrupt_pending());
    assert_eq!(query(&mut m, &mut host, 0x89), 1);
    assert!(!m.interrupt_pending());
    tick(&mut m, &mut host);
    assert!(!m.interrupt_pending());
    assert_eq!(m.registers().int_status, 0);
    assert_eq!(input(&mut m, &mut host, DATA), b'a');
    tick(&mut m, &mut host);
    assert!(m.interrupt_pending());
    assert_eq!(m.registers().int_status, 1);
}

#[test]
fn tick_without_enabled_interrupt_or_input() {
    let mut m = machine();
    let mut host = TestHost::new();
    host.input.push_back(b'k');
    assert_eq!(m.tick_request(), HostRequest::Nothing);
    tick(&mut m, &mut host);
    assert!(!m.interrupt_pending());
    m.tick_ms(HostReply::Pending(true));
    assert!(!m.interrupt_pending());
    command(&mut m, &mut host, 0x0e, 0x01);
    m.tick_ms(HostReply::Pending(false));
    assert!(!m.interrupt_pending());
    m.tick_ms(HostReply::Nothing);
    assert!(!m.interrupt_pending());
    assert_eq!(m.registers().int_status, 0);
    assert!(m.registers().rx_done);
}

#[test]
fn setirq_bits() {
    let mut m = machine();
    let mut host = TestHost::new();
    command(&mut m, &mut host, 0x0e, 0x02);
    assert!(!m.registers().int_rx_enabled);
    assert!(m.registers().int_systick_enabled);
    command(&mut m, &mut host, 0x0e, 0x03);
    assert!(m.registers().int_rx_enabled);
    assert!(m.registers().int_systick_enabled);
    command(&mut m, &mut host, 0x0e, 0xfc);
    assert!(!m.registers().int_rx_enabled);
    assert!(!m.registers().int_systick_enabled);
    host.input.push_back(b'k');
    command(&mut m, &mut host, 0x0e, 0x02);
    tick(&mut m, &mut host);
    assert_eq!(m.registers().int_status, 0);
    assert!(!m.interrupt_pending());
}

#[test]
fn sysirq_reads_once() {
    let mut m = machine();
    let mut host = TestHost::new();
    command(&mut m, &mut host, 0x0e, 0x01);
    host.input.push_back(b'k');
    tick(&mut m, &mut host);
    assert_eq!(query(&mut m, &mut host, 0x89), 1);
    assert_eq!(m.registers().int_status, 0);
    assert_eq!(m.registers().opcode, NOP);
    assert_eq!(query(&mut m, &mut host, 0x89), 0);
    assert_eq!(m.registers().int_status, 0);
    assert!(!m.quit());
}

#[test]
fn datetime_frame() {
    let mut m = machine();
    let mut host = TestHost::new();
    let first = WallClock { second: 58, minute: 59, hour: 23, day: 31, month: 12, year: 2025 };
    let later = WallClock { second: 1, minute: 2, hour: 3, day: 4, month: 5, year: 2031 };
    out(&mut m, &mut host, COMMAND, 0x84);
    assert_eq!(m.port_in_request(COMMAND), HostRequest::ReadClock);
    assert_eq!(input_at(&mut m, &mut host, COMMAND, first), 58);
    assert_eq!(m.port_in_request(COMMAND), HostRequest::Nothing);
    assert_eq!(m.registers().last_time, first);
    assert_eq!(m.registers().opcode, 0x84);
    assert_eq!(m.registers().io_byte_count, 1);
    assert_eq!(input_at(&mut m, &mut host, COMMAND, later), 59);
    assert_eq!(input_at(&mut m, &mut host, COMMAND, later), 23);
    assert_eq!(input_at(&mut m, &mut host, COMMAND, later), 31);
    assert_eq!(input_at(&mut m, &mut host, COMMAND, later), 12);
    assert_eq!(input_at(&mut m, &mut host, COMMAND, later), 25);
    assert_eq!(m.registers().opcode, 0x84);
    assert_eq!(input_at(&mut m, &mut host, COMMAND, later), 21);
    assert_eq!(m.registers().opcode, NOP);
    assert_eq!(m.registers().io_byte_count, 7);
    assert_eq!(m.registers().last_time, first);
    assert!(!m.quit());
    assert_eq!(input_at(&mut m, &mut host, COMMAND, later), 0);
    assert_eq!(m.registers().opcode, NOP);
}

#[test]
fn datetime_from_the_host_clock() {
    let mut m = machine();
    let mut host = TestHost::new();
    host.clock = Some((1_767_225_598, 0));
    out(&mut m, &mut host, COMMAND, 0x84);
    let mut frame = Vec::new();
    for _ in 0..7 {
        frame.push(input(&mut m, &mut host, COMMAND));
        host.clock = Some((0, 0));
    }
    assert_eq!(frame, vec![58, 59, 23, 31, 12, 25, 21]);
    assert_eq!(
        m.registers().last_time,
        WallClock { second: 58, minute: 59, hour: 23, day: 31, month: 12, year: 2025 }
    );
    assert_eq!(m.registers().opcode, NOP);
    assert_eq!(
        host.requests.iter().filter(|r| **r == HostRequest::ReadClock).count(),
        1
    );
    assert!(!m.quit());
}

#[test]
fn datetime_in_local_time() {
    let mut m = machine();
    let mut host = TestHost::new();
    host.clock = Some((1_767_225_598, 3_600));
    out(&mut m, &mut host, COMMAND, 0x84);
    let frame: Vec<u8> = (0..7).map(|_| input(&mut m, &mut host, COMMAND)).collect();
    assert_eq!(frame, vec![58, 59, 0, 1, 1, 26, 21]);
    host.clock = Some((1_767_225_598, -5 * 3_600));
    out(&mut m, &mut host, COMMAND, 0x84);
    let frame: Vec<u8> = (0..7).map(|_| input(&mut m, &mut host, COMMAND)).collect();
    assert_eq!(frame, vec![58, 59, 18, 31, 12, 25, 21]);
}

#[test]
fn datetime_without_a_reading_gives_the_snapshot_held() {
    let mut m = machine();
    let mut host = TestHost::new();
    out(&mut m, &mut host, COMMAND, 0x84);
    let frame: Vec<u8> = (0..7).map(|_| input(&mut m, &mut host, COMMAND)).collect();
    assert_eq!(frame, vec![0, 0, 0, 1, 1, 0, 21]);
    assert_eq!(m.registers().last_time, epoch());

    host.clock = Some((1_767_225_598, 0));
    out(&mut m, &mut host, COMMAND, 0x84);
    assert_eq!(input(&mut m, &mut host, COMMAND), 58);
    host.clock = Some((i64::MAX, 0));
    out(&mut m, &mut host, COMMAND, 0x84);
    let frame: Vec<u8> = (0..7).map(|_| input(&mut m, &mut host, COMMAND)).collect();
    assert_eq!(frame, vec![58, 59, 23, 31, 12, 25, 21]);
    m.port_out(COMMAND, 0x84, HostReply::Nothing);
    assert_eq!(m.port_in_at(COMMAND, HostReply::Nothing, None), 58);
    assert_eq!(m.registers().io_byte_count, 1);
    assert!(!m.quit());
}

#[test]
fn port_in_away_from_datetime_leaves_the_snapshot() {
    let mut m = machine();
    m.port_out(COMMAND, 0x81, HostReply::Nothing);
    assert_eq!(m.port_in(COMMAND, HostReply::Nothing), 0);
    assert_eq!(m.registers().last_time, epoch());
    assert_eq!(m.port_in(DATA, HostReply::Character(Some(b'z'))), b'z');
    assert_eq!(m.registers().last_time, epoch());
}

#[test]
fn latching_again_restarts_datetime() {
    let mut m = machine();
    let mut host = TestHost::new();
    let first = WallClock { second: 10, minute: 11, hour: 12, day: 13, month: 1, year: 1999 };
    let later = WallClock { second: 20, minute: 21, hour: 22, day: 23, month: 2, year: 2001 };
    out(&mut m, &mut host, COMMAND, 0x84);
    assert_eq!(input_at(&mut m, &mut host, COMMAND, first), 10);
    assert_eq!(input_at(&mut m, &mut host, COMMAND, first), 11);
    out(&mut m, &mut host, COMMAND, 0x84);
    assert_eq!(m.registers().io_byte_count, 0);
    assert_eq!(input_at(&mut m, &mut host, COMMAND, later), 20);
    assert_eq!(input_at(&mut m, &mut host, COMMAND, first), 21);
}

#[test]
fn single_byte_writes_complete() {
    for opcode in 0..=255u8 {
        if opcode == 0x0a || opcode == 0x0c {
            continue;
        }
        let mut m = machine();
        let mut host = TestHost::new();
        command(&mut m, &mut host, opcode, 0x01);
        assert_eq!(m.registers().opcode, NOP, "opcode {:#04x}", opcode);
        assert_eq!(m.registers().io_byte_count, 0, "opcode {:#04x}", opcode);
        let implemented = opcode <= 0x01 || (0x03..=0x11).contains(&opcode);
        assert_eq!(m.quit(), !implemented, "opcode {:#04x}", opcode);
    }
}

#[test]
fn single_byte_reads_complete() {
    for opcode in 0..=255u8 {
        if opcode == 0x84 || opcode == 0x86 {
            continue;
        }
        let mut m = machine();
        let mut host = TestHost::new();
        query(&mut m, &mut host, opcode);
        assert_eq!(m.registers().opcode, NOP, "opcode {:#04x}", opcode);
        assert_eq!(m.registers().io_byte_count, 0, "opcode {:#04x}", opcode);
        let implemented = (0x80..=0x89).contains(&opcode) || opcode == 0x90;
        assert_eq!(m.quit(), !implemented, "opcode {:#04x}", opcode);
    }
}

#[test]
fn register_writes() {
    let mut m = machine();
    let mut host = TestHost::new();
    command(&mut m, &mut host, 0x00, 0x01);
    assert!(m.registers().user_led);
    command(&mut m, &mut host, 0x00, 0xfe);
    assert!(!m.registers().user_led);
    command(&mut m, &mut host, 0x03, 0xa1);
    command(&mut m, &mut host, 0x04, 0xa2);
    command(&mut m, &mut host, 0x05, 0xa3);
    command(&mut m, &mut host, 0x06, 0xa4);
    command(&mut m, &mut host, 0x07, 0xa5);
    command(&mut m, &mut host, 0x08, 0xa6);
    let r = m.registers();
    assert_eq!((r.gpio_a, r.gpio_b, r.io_dir_a, r.io_dir_b, r.gppu_a, r.gppu_b), (0xa1, 0xa2, 0xa3, 0xa4, 0xa5, 0xa6));
    assert_eq!(query(&mut m, &mut host, 0x81), 0xa1);
    assert_eq!(query(&mut m, &mut host, 0x82), 0xa2);
    assert!(!m.quit());
    assert!(host.reports.is_empty());
}

#[test]
fn settick_ignores_zero() {
    let mut m = machine();
    let mut host = TestHost::new();
    command(&mut m, &mut host, 0x0f, 100);
    assert_eq!(m.registers().sys_tick_time, 100);
    command(&mut m, &mut host, 0x0f, 0);
    assert_eq!(m.registers().sys_tick_time, 100);
    command(&mut m, &mut host, 0x0f, 1);
    assert_eq!(m.registers().sys_tick_time, 1);
}

#[test]
fn setopt_shows_in_sysflags() {
    let mut m = machine();
    let mut host = TestHost::new();
    assert_eq!(query(&mut m, &mut host, 0x83), 0b0_0010);
    command(&mut m, &mut host, 0x10, 0x01);
    assert!(m.registers().cpm_warm_boot_enabled);
    assert_eq!(query(&mut m, &mut host, 0x83), 0b1_0010);
    host.input.push_back(b'q');
    assert_eq!(query(&mut m, &mut host, 0x83), 0b1_0110);
    input(&mut m, &mut host, DATA);
    input(&mut m, &mut host, DATA);
    assert_eq!(query(&mut m, &mut host, 0x83), 0b1_1010);
    host.input.push_back(b'q');
    assert_eq!(query(&mut m, &mut host, 0x83), 0b1_1110);
    command(&mut m, &mut host, 0x10, 0x02);
    assert!(!m.registers().cpm_warm_boot_enabled);
    assert_eq!(query(&mut m, &mut host, 0x83), 0b0_1110);
}

#[test]
fn sysflags_asks_for_the_console_status() {
    let mut m = machine();
    let mut host = TestHost::new();
    out(&mut m, &mut host, COMMAND, 0x83);
    assert_eq!(m.port_in_request(COMMAND), HostRequest::ConsoleStatus);
}

#[test]
fn printer_port() {
    let mut m = machine();
    let mut host = TestHost::new();
    assert_eq!(query(&mut m, &mut host, 0x90), 0);
    command(&mut m, &mut host, 0x11, 0x01);
    assert!(m.registers().spp_enabled);
    assert!(m.registers().spp_fd);
    assert_eq!(query(&mut m, &mut host, 0x90), 0b0100_0001);
    command(&mut m, &mut host, 0x11, 0x00);
    assert!(m.registers().spp_enabled);
    assert!(!m.registers().spp_fd);
    assert_eq!(query(&mut m, &mut host, 0x90), 0x41);
    assert!(!m.quit());
}

#[test]
fn constant_reads() {
    let mut m = machine();
    let mut host = TestHost::new();
    assert_eq!(query(&mut m, &mut host, 0x80), 0);
    assert_eq!(query(&mut m, &mut host, 0x87), 0);
    assert_eq!(query(&mut m, &mut host, 0x88), 255);
    assert_eq!(query(&mut m, &mut host, 0x85), 0);
    assert!(!m.quit());
    assert!(host.reports.is_empty());
}

#[test]
fn serial_tx_goes_to_the_terminal() {
    let mut m = machine();
    let mut host = TestHost::new();
    out(&mut m, &mut host, COMMAND, 0x01);
    assert_eq!(m.port_out_request(DATA, b'H'), HostRequest::ConsolePut(b'H'));
    out(&mut m, &mut host, DATA, b'H');
    command(&mut m, &mut host, 0x01, b'i');
    assert_eq!(host.output, vec![b'H', b'i']);
    assert_eq!(m.registers().opcode, NOP);
    assert!(!m.quit());
}

#[test]
fn seldisk_opens_the_image_of_the_set() {
    let mut m = machine();
    let mut host = TestHost::with_disk(2, 5);
    m.set_disk_set(2);
    out(&mut m, &mut host, COMMAND, 0x09);
    assert_eq!(m.port_out_request(DATA, 5), HostRequest::OpenDisk { disk_set: 2, disk_number: 5 });
    out(&mut m, &mut host, DATA, 5);
    assert_eq!(host.opened, vec![(2, 5)]);
    assert!(m.disk().is_opened());
    assert_eq!(m.disk().get_last_error(), 0);
    assert_eq!(m.registers().opcode, NOP);
}

#[test]
fn seldisk_errors() {
    let mut m = machine();
    let mut host = TestHost::with_disk(2, 5);
    m.set_disk_set(2);
    command(&mut m, &mut host, 0x09, 6);
    assert_eq!(query(&mut m, &mut host, 0x85), 3);
    assert!(!m.disk().is_opened());
    out(&mut m, &mut host, COMMAND, 0x09);
    assert_eq!(m.port_out_request(DATA, 100), HostRequest::CloseDisk);
    out(&mut m, &mut host, DATA, 100);
    assert_eq!(query(&mut m, &mut host, 0x85), 16);
    out(&mut m, &mut host, COMMAND, 0x09);
    m.port_out(DATA, 5, HostReply::Opened(OpenOutcome::Failed));
    assert_eq!(query(&mut m, &mut host, 0x85), 1);
    out(&mut m, &mut host, COMMAND, 0x09);
    m.port_out(DATA, 5, HostReply::Nothing);
    assert_eq!(query(&mut m, &mut host, 0x85), 1);
    m.set_disk_set(10);
    out(&mut m, &mut host, COMMAND, 0x09);
    assert_eq!(m.port_out_request(DATA, 0), HostRequest::CloseDisk);
    out(&mut m, &mut host, DATA, 0);
    assert_eq!(query(&mut m, &mut host, 0x85), 16);
}

#[test]
fn failed_seldisk_closes_the_earlier_disk() {
    for (number, code) in [(1u8, 3u8), (100, 16)] {
        let mut host = TestHost::new();
        let mut m = machine_with_disk(&mut host);
        select(&mut m, &mut host, 1, 1);
        out(&mut m, &mut host, COMMAND, 0x0c);
        for _ in 0..512 {
            out(&mut m, &mut host, DATA, 0x77);
        }
        assert_eq!(m.disk().get_last_error(), 0);

        command(&mut m, &mut host, 0x09, number);
        assert_eq!(m.disk().get_last_error(), code);
        assert!(!m.disk().is_opened());
        assert!(host.image.is_none());

        out(&mut m, &mut host, COMMAND, 0x0c);
        assert_eq!(m.port_out_request(DATA, 0x11), HostRequest::Nothing);
        out(&mut m, &mut host, DATA, 0x11);
        assert_eq!(m.disk().get_last_error(), 4);
        out(&mut m, &mut host, COMMAND, 0x86);
        assert_eq!(m.port_in_request(COMMAND), HostRequest::Nothing);
        assert_eq!(input(&mut m, &mut host, COMMAND), 0);
        assert_eq!(query(&mut m, &mut host, 0x85), 4);

        command(&mut m, &mut host, 0x09, 0);
        assert!(m.disk().is_opened());
        assert_eq!(m.disk().get_last_error(), 0);
        assert!(!m.quit());
    }
}

#[test]
fn failed_open_reply_closes_the_earlier_disk() {
    let mut host = TestHost::new();
    let mut m = machine_with_disk(&mut host);
    m.port_out(COMMAND, 0x09, HostReply::Nothing);
    m.port_out(DATA, 0, HostReply::Opened(OpenOutcome::Failed));
    assert!(!m.disk().is_opened());
    assert_eq!(m.disk().get_last_error(), 1);
    m.port_out(COMMAND, 0x86, HostReply::Nothing);
    assert_eq!(m.port_in_request(COMMAND), HostRequest::Nothing);
    assert_eq!(m.port_in(COMMAND, HostReply::Read(Some(0x99))), 0);
    assert_eq!(m.disk().get_last_error(), 4);
}

#[test]
fn seldisk_is_skipped_without_disk_set() {
    let mut m = machine();
    let mut host = TestHost::with_disk(0, 0);
    select_track(&mut m, &mut host, 600);
    assert_eq!(m.disk().get_last_error(), 17);
    out(&mut m, &mut host, COMMAND, 0x09);
    assert_eq!(m.port_out_request(DATA, 0), HostRequest::Nothing);
    m.port_out(DATA, 0, HostReply::Opened(OpenOutcome::Opened));
    assert!(!m.disk().is_opened());
    assert_eq!(m.disk().get_last_error(), 17);
    assert_eq!(m.registers().opcode, NOP);
    assert!(!m.quit());
    assert!(host.opened.is_empty());
}

#[test]
fn writesect_takes_512_bytes() {
    let mut host = TestHost::new();
    let mut m = machine_with_disk(&mut host);
    out(&mut m, &mut host, COMMAND, 0x0c);
    for n in 1..=511u32 {
        out(&mut m, &mut host, DATA, n as u8);
        assert_eq!(m.registers().opcode, 0x0c, "after {} bytes", n);
        assert_eq!(m.registers().io_byte_count, n);
    }
    out(&mut m, &mut host, DATA, 0);
    assert_eq!(m.registers().opcode, NOP);
    assert_eq!(m.registers().io_byte_count, 512);
    assert!(!m.quit());
    out(&mut m, &mut host, DATA, 0);
    assert!(m.quit());
}

#[test]
fn writesect_seeks_once() {
    let mut host = TestHost::new();
    let mut m = machine_with_disk(&mut host);
    select(&mut m, &mut host, 1, 2);
    out(&mut m, &mut host, COMMAND, 0x0c);
    assert_eq!(
        m.port_out_request(DATA, 0xaa),
        HostRequest::WriteDisk { seek: Some((32 + 2) * 512), data: 0xaa }
    );
    out(&mut m, &mut host, DATA, 0xaa);
    for _ in 1..512 {
        assert_eq!(m.port_out_request(DATA, 0xbb), HostRequest::WriteDisk { seek: None, data: 0xbb });
        out(&mut m, &mut host, DATA, 0xbb);
    }
    let image = host.image.as_ref().unwrap();
    let at = (32 + 2) * 512;
    assert_eq!(image[at - 1], 0xe5);
    assert_eq!(image[at], 0xaa);
    assert_eq!(image[at + 1], 0xbb);
    assert_eq!(image[at + 511], 0xbb);
    assert_eq!(image[at + 512], 0xe5);
    assert_eq!(host.cursor, at + 512);
}

#[test]
fn sector_round_trip() {
    let mut host = TestHost::new();
    let mut m = machine_with_disk(&mut host);
    let payload: Vec<u8> = (0..512u32).map(|i| (i * 7 + 3) as u8).collect();
    for (track, sector) in [(0u16, 0u8), (3, 17), (0x34, 5), (511, 31)] {
        select(&mut m, &mut host, track, sector);
        out(&mut m, &mut host, COMMAND, 0x0c);
        for b in payload.iter() {
            out(&mut m, &mut host, DATA, *b ^ sector);
        }
        assert_eq!(m.registers().opcode, NOP);
        assert_eq!(m.disk().get_last_error(), 0);
    }
    for (track, sector) in [(511u16, 31u8), (0, 0), (0x34, 5), (3, 17)] {
        select(&mut m, &mut host, track, sector);
        out(&mut m, &mut host, COMMAND, 0x86);
        let mut back = Vec::new();
        for n in 1..=512u32 {
            back.push(input(&mut m, &mut host, COMMAND));
            assert_eq!(m.registers().opcode, if n < 512 { 0x86 } else { NOP });
            assert_eq!(m.registers().io_byte_count, n);
        }
        let expected: Vec<u8> = payload.iter().map(|b| *b ^ sector).collect();
        assert_eq!(back, expected);
        assert_eq!(m.disk().get_last_error(), 0);
    }
    let image = host.image.as_ref().unwrap();
    let at = (0x34 * 32 + 5) * 512;
    assert_eq!(image[at], payload[0] ^ 5);
    assert_eq!(image[at + 511], payload[511] ^ 5);
    assert_eq!(image[512], 0xe5);
    assert!(!m.quit());
}

#[test]
fn readsect_seeks_once() {
    let mut host = TestHost::new();
    let mut m = machine_with_disk(&mut host);
    select(&mut m, &mut host, 2, 1);
    out(&mut m, &mut host, COMMAND, 0x86);
    assert_eq!(m.port_in_request(COMMAND), HostRequest::ReadDisk { seek: Some((64 + 1) * 512) });
    assert_eq!(input(&mut m, &mut host, COMMAND), 0xe5);
    assert_eq!(m.port_in_request(COMMAND), HostRequest::ReadDisk { seek: None });
    assert_eq!(input(&mut m, &mut host, COMMAND), 0xe5);
    assert_eq!(host.cursor, (64 + 1) * 512 + 2);
}

#[test]
fn sector_transfer_without_disk() {
    let mut m = machine();
    let mut host = TestHost::new();
    out(&mut m, &mut host, COMMAND, 0x86);
    assert_eq!(m.port_in_request(COMMAND), HostRequest::Nothing);
    assert_eq!(input(&mut m, &mut host, COMMAND), 0);
    assert_eq!(m.disk().get_last_error(), 4);
    assert_eq!(m.registers().io_byte_count, 1);
    assert_eq!(input(&mut m, &mut host, COMMAND), 0);
    assert_eq!(m.disk().get_last_error(), 4);
    assert_eq!(query(&mut m, &mut host, 0x85), 4);
    out(&mut m, &mut host, COMMAND, 0x0c);
    assert_eq!(m.port_out_request(DATA, 1), HostRequest::Nothing);
    out(&mut m, &mut host, DATA, 1);
    assert_eq!(m.disk().get_last_error(), 4);
    assert!(!m.quit());
}

#[test]
fn failed_transfer_stops_the_rest_of_the_sector() {
    let mut host = TestHost::new();
    let mut m = machine_with_disk(&mut host);
    out(&mut m, &mut host, COMMAND, 0x86);
    assert_eq!(input(&mut m, &mut host, COMMAND), 0xe5);
    assert_eq!(m.port_in_at(COMMAND, HostReply::Read(None), None), 0);
    assert_eq!(m.disk().get_last_error(), 1);
    assert_eq!(m.port_in_request(COMMAND), HostRequest::Nothing);
    assert_eq!(m.port_in_at(COMMAND, HostReply::Read(Some(9)), None), 0);
    assert_eq!(m.disk().get_last_error(), 1);
    assert_eq!(m.registers().io_byte_count, 3);
    out(&mut m, &mut host, COMMAND, 0x0c);
    m.port_out(DATA, 1, HostReply::Written(false));
    assert_eq!(m.disk().get_last_error(), 1);
    assert_eq!(m.port_out_request(DATA, 2), HostRequest::Nothing);
    m.port_out(DATA, 2, HostReply::Written(true));
    assert_eq!(m.disk().get_last_error(), 1);
    out(&mut m, &mut host, COMMAND, 0x86);
    assert_eq!(input(&mut m, &mut host, COMMAND), 0xe5);
    assert_eq!(m.disk().get_last_error(), 0);
}

#[test]
fn latching_during_a_sector_abandons_it() {
    let mut host = TestHost::new();
    let mut m = machine_with_disk(&mut host);
    out(&mut m, &mut host, COMMAND, 0x0c);
    for _ in 0..100 {
        out(&mut m, &mut host, DATA, 0x11);
    }
    assert_eq!(m.registers().io_byte_count, 100);
    out(&mut m, &mut host, COMMAND, 0x0c);
    assert_eq!(m.registers().io_byte_count, 0);
    assert_eq!(m.port_out_request(DATA, 0x22), HostRequest::WriteDisk { seek: Some(0), data: 0x22 });
    for _ in 0..512 {
        out(&mut m, &mut host, DATA, 0x22);
    }
    assert_eq!(m.registers().opcode, NOP);
    let image = host.image.as_ref().unwrap();
    assert_eq!(image[0], 0x22);
    assert_eq!(image[511], 0x22);
    assert_eq!(image[512], 0xe5);
}

#[test]
fn latching_during_seltrack_abandons_it() {
    let mut m = machine();
    let mut host = TestHost::new();
    out(&mut m, &mut host, COMMAND, 0x0a);
    out(&mut m, &mut host, DATA, 0x07);
    out(&mut m, &mut host, COMMAND, 0x0a);
    assert_eq!(m.registers().io_byte_count, 0);
    out(&mut m, &mut host, DATA, 0x09);
    out(&mut m, &mut host, DATA, 0x01);
    assert_eq!(m.disk().track(), 0x0109);
}

#[test]
fn errdisk_reports_the_last_error() {
    let mut m = machine();
    let mut host = TestHost::new();
    select_track(&mut m, &mut host, 512);
    assert_eq!(query(&mut m, &mut host, 0x85), 17);
    assert_eq!(query(&mut m, &mut host, 0x85), 17);
    command(&mut m, &mut host, 0x0b, 32);
    assert_eq!(query(&mut m, &mut host, 0x85), 18);
    command(&mut m, &mut host, 0x0b, 0);
    assert_eq!(query(&mut m, &mut host, 0x85), 0);
}

#[test]
fn opcode_names() {
    let names = [
        (0x00, "USER LED"), (0x01, "SERIAL TX"), (0x03, "GPIOA W"), (0x04, "GPIOB W"),
        (0x05, "IODIRA W"), (0x06, "IODIRB W"), (0x07, "GPPUA W"), (0x08, "GPPUB W"),
        (0x09, "SELDISK"), (0x0a, "SELTRACK"), (0x0b, "SELSECT"), (0x0c, "WRITESECT"),
        (0x0d, "SETBANK"), (0x0e, "SETIRQ"), (0x0f, "SETTICK"), (0x10, "SETOPT"),
        (0x11, "SETSPP"), (0x12, "WRSPP"), (0x80, "USER KEY"), (0x81, "GPIOA R"),
        (0x82, "GPIOB R"), (0x83, "SYSFLAGS"), (0x84, "DATETIME"), (0x85, "ERRDISK"),
        (0x86, "READSECT"), (0x87, "SDMOUNT"), (0x88, "ATXBUFF"), (0x89, "SYSIRQ"),
        (0x8a, "GETSPP"), (0x90, "GETSPP"), (0xff, "NOP"),
    ];
    for (opcode, name) in names {
        assert_eq!(opcode_name(opcode), name);
    }
    for opcode in 0..=255u8 {
        if !names.iter().any(|(o, _)| *o == opcode) {
            assert_eq!(opcode_name(opcode), "UNKNOWN", "opcode {:#04x}", opcode);
        }
    }
}

#[test]
fn unimplemented_messages() {
    assert_eq!(unimplemented_message(0xff), "<<NOP not implemented>>");
    assert_eq!(unimplemented_message(0x8a), "<<GETSPP not implemented>>");
    assert_eq!(unimplemented_message(0x42), "<<UNKNOWN not implemented>>");
}
