//! The banked memory map: 128 KiB of RAM behind a 16-bit address bus.
//!
//! The upper half of the address space always shows the same 32 KiB. The
//! lower half shows one of three banks.

use vstd::prelude::*;

verus! {

/// Number of bytes of RAM.
pub const RAM_SIZE: usize = 131072;

/// First address of the shared upper window.
pub const SHARED_BASE: u16 = 0x8000;

/// Highest bank that the bank register takes.
pub const MAX_BANK: u8 = 2;

/// Where the lower window of a bank starts in RAM.
pub open spec fn bank_offset(bank: u8) -> int {
    if bank == 1 {
        0x1_0000
    } else if bank == 2 {
        0x1_8000
    } else {
        0
    }
}

/// The RAM cell that an address of the CPU reaches under a bank.
pub open spec fn decode(bank: u8, address: u16) -> int {
    if address >= SHARED_BASE {
        address as int
    } else {
        address + bank_offset(bank)
    }
}

/// Every address reaches a cell of RAM: the upper half itself, the lower half
/// its place in the selected bank. The two halves are told apart by bit 15.
pub proof fn decode_in_range(bank: u8, address: u16)
    ensures
        0 <= decode(bank, address) < RAM_SIZE,
        address & 0x8000 != 0 ==> decode(bank, address) == address,
        address & 0x8000 == 0 ==> decode(bank, address) == (address & 0x7fff) + bank_offset(bank),
{
    assert(address & 0x8000 != 0 <==> address >= 0x8000) by (bit_vector);
    assert(address & 0x8000 == 0 ==> address & 0x7fff == address) by (bit_vector);
}

/// Under one bank, two addresses reach two cells.
pub proof fn decode_injective(bank: u8, a1: u16, a2: u16)
    requires
        a1 != a2,
    ensures
        decode(bank, a1) != decode(bank, a2),
{
}

/// The lower windows of two banks share no cell, and none of them shares one
/// with the upper window.
pub proof fn banks_disjoint(b1: u8, a1: u16, b2: u8, a2: u16)
    requires
        b1 <= MAX_BANK,
        b2 <= MAX_BANK,
        b1 != b2,
        a1 < SHARED_BASE,
    ensures
        decode(b1, a1) != decode(b2, a2),
{
}

} // verus!
