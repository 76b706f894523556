use vstd::prelude::*;

verus! {

/// Interrupt request bits of the Game Boy Color (IF / IE).
pub const VBLANK: u8 = 0x01;
pub const STAT: u8 = 0x02;
pub const TIMER: u8 = 0x04;
pub const SERIAL: u8 = 0x08;
pub const JOYPAD: u8 = 0x10;

/// Handler addresses of the five interrupts.
pub const VBLANK_ADDR: u16 = 0x0040;
pub const STAT_ADDR: u16 = 0x0048;
pub const TIMER_ADDR: u16 = 0x0050;
pub const SERIAL_ADDR: u16 = 0x0058;
pub const JOYPAD_ADDR: u16 = 0x0060;

/// The handler address of interrupt `bit`: 0x40 + 8 * bit for the five
/// interrupts, and the V-blank handler for any other bit.
pub fn interrupt_addr(bit: u8) -> (addr: u16)
    ensures
        bit < 5 ==> addr == 0x40 + 8 * bit,
        bit >= 5 ==> addr == VBLANK_ADDR,
{
    match bit {
        0 => VBLANK_ADDR,
        1 => STAT_ADDR,
        2 => TIMER_ADDR,
        3 => SERIAL_ADDR,
        4 => JOYPAD_ADDR,
        _ => 0x0040,
    }
}

} // verus!
