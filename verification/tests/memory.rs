use z80_mbc2_emu::host::HostReply;
use z80_mbc2_emu::mbc2_machine::Mbc2Machine;

const COMMAND: u16 = 0x00;
const DATA: u16 = 0x01;
const SETBANK: u8 = 0x0d;

fn machine() -> Mbc2Machine {
    Mbc2Machine::new()
}

fn set_bank(m: &mut Mbc2Machine, bank: u8) {
    m.port_out(COMMAND, SETBANK, HostReply::Nothing);
    m.port_out(DATA, bank, HostReply::Nothing);
}

#[test]
fn bank_decode() {
    let mut m = machine();
    set_bank(&mut m, 1);
    assert_eq!(m.decode_address(0x0000), 0x10000);
    set_bank(&mut m, 2);
    assert_eq!(m.decode_address(0x7fff), 0x1ffff);
    set_bank(&mut m, 0);
    assert_eq!(m.decode_address(0xc000), 0xc000);
}

#[test]
fn decode_of_each_bank_window() {
    let mut m = machine();
    assert_eq!(m.decode_address(0x0000), 0x00000);
    assert_eq!(m.decode_address(0x7fff), 0x07fff);
    assert_eq!(m.decode_address(0x8000), 0x08000);
    assert_eq!(m.decode_address(0xffff), 0x0ffff);
    set_bank(&mut m, 1);
    assert_eq!(m.decode_address(0x1234), 0x11234);
    assert_eq!(m.decode_address(0x7fff), 0x17fff);
    assert_eq!(m.decode_address(0x8000), 0x08000);
    set_bank(&mut m, 2);
    assert_eq!(m.decode_address(0x0000), 0x18000);
    assert_eq!(m.decode_address(0x1234), 0x19234);
    assert_eq!(m.decode_address(0xffff), 0x0ffff);
}

#[test]
fn decode_stays_in_ram_for_every_address() {
    let mut m = machine();
    for bank in 0..3u8 {
        set_bank(&mut m, bank);
        let offset: usize = [0, 0x10000, 0x18000][bank as usize];
        for address in 0..=0xffffu16 {
            let cell = m.decode_address(address);
            assert!(cell < 131072);
            if address & 0x8000 != 0 {
                assert_eq!(cell, address as usize);
            } else {
                assert_eq!(cell, (address & 0x7fff) as usize + offset);
            }
        }
    }
}

#[test]
fn memory_starts_cleared() {
    let m = machine();
    assert_eq!(m.peek(0x0000), 0);
    assert_eq!(m.peek(0x7fff), 0);
    assert_eq!(m.peek(0x8000), 0);
    assert_eq!(m.peek(0xffff), 0);
}

#[test]
fn poke_then_peek() {
    let mut m = machine();
    m.poke(0x1234, 0xab);
    m.poke(0xfedc, 0xcd);
    assert_eq!(m.peek(0x1234), 0xab);
    assert_eq!(m.peek(0xfedc), 0xcd);
    assert_eq!(m.peek(0x1235), 0);
}

#[test]
fn banks_keep_their_own_bytes() {
    let mut m = machine();
    set_bank(&mut m, 0);
    m.poke(0x0100, 0x10);
    set_bank(&mut m, 1);
    assert_eq!(m.peek(0x0100), 0);
    m.poke(0x0100, 0x11);
    set_bank(&mut m, 2);
    assert_eq!(m.peek(0x0100), 0);
    m.poke(0x0100, 0x12);
    set_bank(&mut m, 0);
    assert_eq!(m.peek(0x0100), 0x10);
    set_bank(&mut m, 1);
    assert_eq!(m.peek(0x0100), 0x11);
    set_bank(&mut m, 2);
    assert_eq!(m.peek(0x0100), 0x12);
}

#[test]
fn upper_window_is_shared_by_all_banks() {
    let mut m = machine();
    set_bank(&mut m, 1);
    m.poke(0x9000, 0x77);
    set_bank(&mut m, 2);
    assert_eq!(m.peek(0x9000), 0x77);
    set_bank(&mut m, 0);
    assert_eq!(m.peek(0x9000), 0x77);
}

#[test]
fn bank_zero_lower_window_is_not_the_upper_window() {
    let mut m = machine();
    m.poke(0x0000, 0x01);
    m.poke(0x8000, 0x02);
    assert_eq!(m.peek(0x0000), 0x01);
    assert_eq!(m.peek(0x8000), 0x02);
}

#[test]
fn set_bank_above_two_is_ignored() {
    let mut m = machine();
    set_bank(&mut m, 2);
    assert_eq!(m.registers().bank, 2);
    set_bank(&mut m, 3);
    assert_eq!(m.registers().bank, 2);
    set_bank(&mut m, 0xff);
    assert_eq!(m.registers().bank, 2);
    assert_eq!(m.registers().opcode, 0xff);
    assert!(!m.quit());
}
