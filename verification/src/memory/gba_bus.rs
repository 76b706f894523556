use vstd::prelude::*;

use crate::apu::gba_apu::{
    gba_apu_read_spec, gba_apu_tick_spec, gba_apu_wf, gba_apu_write_spec, gba_timer_overflow_spec, GbaApu,
    GbaApuView,
};
use crate::cartridge::gba::{
    eeprom_addr_len_after_dma, eeprom_advance_spec, eeprom_read_spec, eeprom_write_spec, read_sram_spec,
    write_sram_spec, EepromView, GbaCartView,
};
use crate::cartridge::rtc::read_rom_spec;
use crate::cartridge::{EepromState, GbaBackupType, GbaCartridge};
use crate::cpu::arm7tdmi::{Arm7Bus, BusModel};
use crate::dma::{dma_read_spec, dma_trigger_spec, dma_write_spec, DmaChannel, GbaDma};
use crate::input::GbaInput;
use crate::ppu::gba_ppu::{
    gba_dispstat_spec, gba_lines_fb, gba_ppu_read_io_spec, gba_ppu_tick_spec, gba_ppu_wf, gba_ppu_write_io_spec,
    gba_write_dispstat_spec, GbaPpu, GbaPpuView,
};
use crate::timer::{gba_timer_tick_spec, gba_timers_read_spec, gba_timers_write_spec, timer_irq_bit, GbaTimer, GbaTimers};

verus! {

/// Size of the BIOS region.
pub const BIOS_SIZE: usize = 0x4000;

/// Size of external work RAM.
pub const EWRAM_SIZE: usize = 0x40000;

/// Size of internal work RAM.
pub const IWRAM_SIZE: usize = 0x8000;

/// Size of the I/O register block.
pub const GBA_IO_SIZE: usize = 0x400;

/// The Game Boy Advance memory bus: every device the CPU reaches, and the
/// interrupt and power registers.
pub struct GbaBus {
    pub cart: GbaCartridge,
    pub ppu: GbaPpu,
    pub apu: GbaApu,
    pub timers: GbaTimers,
    pub dma: GbaDma,
    pub input: GbaInput,
    /// 256 KiB of external work RAM.
    pub ewram: Vec<u8>,
    /// 32 KiB of internal work RAM.
    pub iwram: Vec<u8>,
    /// The I/O registers as last written.
    pub io: Vec<u8>,
    pub ie: u16,
    pub iflag: u16,
    pub ime: bool,
    pub waitcnt: u16,
    pub halt: bool,
    pub post_boot: bool,
    pub bios: Vec<u8>,
    pub last_bios_value: u32,
}

/// The bus as values, with the picture the video unit has drawn.
#[verifier::ext_equal]
pub struct GbaBusView {
    pub cart: GbaCartView,
    pub ppu: GbaPpuView,
    pub apu: GbaApuView,
    pub timers: Seq<GbaTimer>,
    pub dma: Seq<DmaChannel>,
    pub input: GbaInput,
    pub ewram: Seq<u8>,
    pub iwram: Seq<u8>,
    pub io: Seq<u8>,
    pub bios: Seq<u8>,
    pub ie: u16,
    pub iflag: u16,
    pub ime: bool,
    pub waitcnt: u16,
    pub halt: bool,
    pub post_boot: bool,
    pub last_bios_value: u32,
    /// The picture the video unit has drawn.
    pub picture: Seq<u32>,
}

impl View for GbaBus {
    type V = GbaBusView;

    open spec fn view(&self) -> GbaBusView {
        GbaBusView {
            cart: self.cart@,
            ppu: self.ppu@,
            apu: self.apu@,
            timers: self.timers.timers@,
            dma: self.dma.channels@,
            input: self.input,
            ewram: self.ewram@,
            iwram: self.iwram@,
            io: self.io@,
            bios: self.bios@,
            ie: self.ie,
            iflag: self.iflag,
            ime: self.ime,
            waitcnt: self.waitcnt,
            halt: self.halt,
            post_boot: self.post_boot,
            last_bios_value: self.last_bios_value,
            picture: self.ppu.framebuffer@,
        }
    }
}

/// The EEPROM's bit counters can take the next bit without overflowing: a
/// command holds at most one bit so far (a counter past the two command
/// bits would only count up), and the other counters are below 255.
pub open spec fn eeprom_ok(e: EepromView) -> bool {
    &&& e.state == EepromState::ReadingCommand ==> e.bits_written <= 1
    &&& e.state == EepromState::ReadingAddress ==> e.bits_written <= 254
    &&& e.state == EepromState::WritingData ==> e.bits_written <= 254
    &&& e.state == EepromState::ReadingData ==> e.bits_read <= 254
}

/// A timer's prescaler is one of the four dividers and its cycle
/// accumulator stays below the largest.
pub open spec fn timer_ok(t: GbaTimer) -> bool {
    &&& 1 <= t.prescaler <= 1024
    &&& t.internal_counter < 1024
}

/// The sizes the bus memories keep and the ranges its devices stay in.
pub open spec fn gba_bus_wf(b: GbaBusView) -> bool {
    &&& gba_ppu_wf(b.ppu)
    &&& b.ppu.regs.cycles < 1232
    &&& gba_apu_wf(b.apu)
    &&& eeprom_ok(b.cart.eeprom)
    &&& b.timers.len() == 4
    &&& forall|i: int| 0 <= i < 4 ==> timer_ok(#[trigger] b.timers[i])
    &&& b.dma.len() == 4
    &&& b.ewram.len() == EWRAM_SIZE
    &&& b.iwram.len() == IWRAM_SIZE
    &&& b.io.len() == GBA_IO_SIZE
    &&& b.bios.len() == BIOS_SIZE
}

/// The bus is well formed and the PPU's picture has its size.
pub open spec fn gba_bus_inv(b: &GbaBus) -> bool {
    gba_bus_wf(b@) && b.ppu.framebuffer@.len() == crate::GBA_WIDTH * crate::GBA_HEIGHT
}

// ---------------------------------------------------------------------------
// The high-level BIOS image
// ---------------------------------------------------------------------------

/// The words of the BIOS image: a reset jump to the cartridge, `MOVS PC, LR`
/// at the SWI vector, and at the IRQ vector a dispatcher that saves
/// registers, calls the handler whose address is at 0x03007FFC, and returns.
pub open spec fn bios_word(k: int) -> u32 {
    if k == 0 {
        0xE3A0_F302
    } else if k == 2 {
        0xE1B0_F00E
    } else if k == 6 {
        0xE92D_500F
    } else if k == 7 {
        0xE3A0_0403
    } else if k == 8 {
        0xE280_0C7F
    } else if k == 9 {
        0xE280_00FC
    } else if k == 10 {
        0xE590_0000
    } else if k == 11 {
        0xE1A0_E00F
    } else if k == 12 {
        0xE12F_FF10
    } else if k == 13 {
        0xE8BD_500F
    } else if k == 14 {
        0xE25E_F004
    } else {
        0
    }
}

/// Byte `j` (0 = lowest) of a word.
pub open spec fn word_byte_spec(w: u32, j: int) -> u8 {
    if j == 0 {
        w as u8
    } else if j == 1 {
        (w >> 8u32) as u8
    } else if j == 2 {
        (w >> 16u32) as u8
    } else {
        (w >> 24u32) as u8
    }
}

/// The BIOS image, little-endian.
pub open spec fn gba_hle_bios() -> Seq<u8> {
    Seq::new(BIOS_SIZE as nat, |i: int| word_byte_spec(bios_word(i / 4), i % 4))
}

// ---------------------------------------------------------------------------
// Reads
// ---------------------------------------------------------------------------

/// A VRAM offset (below 0x20000) folded into the 96 KiB: the upper 32 KiB
/// mirror the object tiles.
pub open spec fn vram_index(offset: int) -> int {
    if offset >= 0x18000 {
        offset - 0x8000
    } else {
        offset
    }
}

/// The low or high byte of a halfword register.
pub open spec fn reg_byte(v: u16, hi: bool) -> u8 {
    if hi {
        (v >> 8u16) as u8
    } else {
        v as u8
    }
}

/// A halfword register with one byte replaced.
pub open spec fn set_reg_byte(v: u16, hi: bool, b: u8) -> u16 {
    if hi {
        (v & 0x00FF) | ((b as u16) << 8u16)
    } else {
        (v & 0xFF00) | (b as u16)
    }
}

/// What a read of I/O register byte `offset` (below 0x400) returns.
#[verifier::opaque]
pub open spec fn gba_read_io_spec(b: GbaBusView, offset: u32) -> u8 {
    if offset <= 0x001 {
        gba_ppu_read_io_spec(b.ppu, (0x0400_0000 + offset) as u32)
    } else if offset <= 0x003 {
        0
    } else if offset <= 0x005 {
        reg_byte(gba_dispstat_spec(b.ppu.regs), offset == 5)
    } else if offset <= 0x007 {
        if offset == 6 {
            b.ppu.regs.vcount as u8
        } else {
            0
        }
    } else if offset <= 0x05F {
        gba_ppu_read_io_spec(b.ppu, (0x0400_0000 + offset) as u32)
    } else if 0x060 <= offset <= 0x0A7 {
        gba_apu_read_spec(b.apu, offset)
    } else if 0x0B0 <= offset <= 0x0DF {
        dma_read_spec(b.dma, offset)
    } else if 0x100 <= offset <= 0x10F {
        gba_timers_read_spec(b.timers, offset)
    } else if 0x120 <= offset <= 0x12F {
        0
    } else if offset == 0x130 || offset == 0x131 {
        reg_byte(b.input.keyinput, offset == 0x131)
    } else if offset == 0x132 || offset == 0x133 {
        reg_byte(b.input.keycnt, offset == 0x133)
    } else if offset == 0x200 || offset == 0x201 {
        reg_byte(b.ie, offset == 0x201)
    } else if offset == 0x202 || offset == 0x203 {
        reg_byte(b.iflag, offset == 0x203)
    } else if offset == 0x204 || offset == 0x205 {
        reg_byte(b.waitcnt, offset == 0x205)
    } else if offset == 0x208 {
        if b.ime {
            1
        } else {
            0
        }
    } else if offset == 0x209 {
        0
    } else if offset == 0x300 {
        if b.post_boot {
            1
        } else {
            0
        }
    } else if offset < b.io.len() {
        b.io[offset as int]
    } else {
        0
    }
}

/// What a byte read of `addr` returns.
#[verifier::opaque]
pub open spec fn gba_read8_spec(b: GbaBusView, addr: u32) -> u8 {
    let region = addr >> 24u32;
    if region == 0x00 {
        if addr < b.bios.len() {
            b.bios[addr as int]
        } else {
            0
        }
    } else if region == 0x02 {
        b.ewram[(addr & 0x3FFFF) as int]
    } else if region == 0x03 {
        b.iwram[(addr & 0x7FFF) as int]
    } else if region == 0x04 {
        gba_read_io_spec(b, addr & 0x3FF)
    } else if region == 0x05 {
        b.ppu.palette[(addr & 0x3FF) as int]
    } else if region == 0x06 {
        b.ppu.vram[vram_index((addr & 0x1FFFF) as int)]
    } else if region == 0x07 {
        b.ppu.oam[(addr & 0x3FF) as int]
    } else if 0x08 <= region <= 0x0C {
        read_rom_spec(b.cart, addr)
    } else if region == 0x0D {
        if b.cart.backup_type == GbaBackupType::Eeprom {
            eeprom_read_spec(b.cart.eeprom)
        } else {
            read_rom_spec(b.cart, addr)
        }
    } else if region == 0x0E || region == 0x0F {
        read_sram_spec(b.cart, addr)
    } else {
        0
    }
}

/// Whether `addr` is the EEPROM's serial port.
pub open spec fn is_eeprom_port(b: GbaBusView, addr: u32) -> bool {
    addr >> 24u32 == 0x0D && b.cart.backup_type == GbaBackupType::Eeprom
}

/// The bus after the EEPROM has handed out a bit.
pub open spec fn eeprom_advanced(b: GbaBusView) -> GbaBusView {
    GbaBusView { cart: GbaCartView { eeprom: eeprom_advance_spec(b.cart.eeprom), ..b.cart }, ..b }
}

/// A halfword read: on the EEPROM port one serial bit (which advances the
/// port), otherwise two byte reads.
pub open spec fn gba_read16_spec(b: GbaBusView, addr: u32) -> (u16, GbaBusView) {
    if is_eeprom_port(b, addr) {
        (eeprom_read_spec(b.cart.eeprom) as u16, eeprom_advanced(b))
    } else {
        (
            ((gba_read8_spec(b, addr) as u16) | ((gba_read8_spec(b, addr.wrapping_add(1)) as u16) << 8u16)) as u16,
            b,
        )
    }
}

/// A word read: on the EEPROM port one serial bit, otherwise four byte
/// reads.
pub open spec fn gba_read32_spec(b: GbaBusView, addr: u32) -> (u32, GbaBusView) {
    if is_eeprom_port(b, addr) {
        (eeprom_read_spec(b.cart.eeprom) as u32, eeprom_advanced(b))
    } else {
        (
            (gba_read8_spec(b, addr) as u32) | ((gba_read8_spec(b, addr.wrapping_add(1)) as u32) << 8u32) | ((
            gba_read8_spec(b, addr.wrapping_add(2)) as u32) << 16u32) | ((gba_read8_spec(b, addr.wrapping_add(3))
                as u32) << 24u32),
            b,
        )
    }
}


// ---------------------------------------------------------------------------
// Writes
// ---------------------------------------------------------------------------

/// The bus after a write of I/O register byte `offset` (below 0x400): the
/// byte is kept, and the register's device sees it.
#[verifier::opaque]
pub open spec fn gba_write_io_spec(b: GbaBusView, offset: u32, val: u8) -> GbaBusView {
    let b0 = if offset < b.io.len() {
        GbaBusView { io: b.io.update(offset as int, val), ..b }
    } else {
        b
    };
    if offset <= 0x001 || (0x008 <= offset <= 0x05F) {
        GbaBusView {
            ppu: GbaPpuView { regs: gba_ppu_write_io_spec(b0.ppu.regs, (0x0400_0000 + offset) as u32, val), ..b0.ppu },
            ..b0
        }
    } else if offset == 0x004 || offset == 0x005 {
        GbaBusView {
            ppu: GbaPpuView {
                regs: crate::ppu::gba_ppu::GbaPpuRegs {
                    dispstat: gba_write_dispstat_spec(b0.ppu.regs.dispstat, offset & 1, val),
                    ..b0.ppu.regs
                },
                ..b0.ppu
            },
            ..b0
        }
    } else if 0x060 <= offset <= 0x0A7 {
        GbaBusView { apu: gba_apu_write_spec(b0.apu, offset, val), ..b0 }
    } else if 0x0B0 <= offset <= 0x0DF {
        GbaBusView { dma: dma_write_spec(b0.dma, offset, val), ..b0 }
    } else if 0x100 <= offset <= 0x10F {
        GbaBusView { timers: gba_timers_write_spec(b0.timers, offset, val), ..b0 }
    } else if offset == 0x132 || offset == 0x133 {
        GbaBusView { input: GbaInput { keycnt: set_reg_byte(b0.input.keycnt, offset == 0x133, val), ..b0.input }, ..b0 }
    } else if offset == 0x200 || offset == 0x201 {
        GbaBusView { ie: set_reg_byte(b0.ie, offset == 0x201, val), ..b0 }
    } else if offset == 0x202 {
        GbaBusView { iflag: b0.iflag & ((!val) as u16), ..b0 }
    } else if offset == 0x203 {
        GbaBusView { iflag: b0.iflag & !((val as u16) << 8u16), ..b0 }
    } else if offset == 0x204 || offset == 0x205 {
        GbaBusView { waitcnt: set_reg_byte(b0.waitcnt, offset == 0x205, val), ..b0 }
    } else if offset == 0x208 {
        GbaBusView { ime: val & 1 != 0, ..b0 }
    } else if offset == 0x301 {
        GbaBusView { halt: true, ..b0 }
    } else if offset == 0x300 {
        GbaBusView { post_boot: val & 1 != 0, ..b0 }
    } else {
        b0
    }
}

/// The bus after the EEPROM took a bit.
pub open spec fn eeprom_written(b: GbaBusView, val: u8) -> GbaBusView {
    GbaBusView { cart: GbaCartView { eeprom: eeprom_write_spec(b.cart.eeprom, val), ..b.cart }, ..b }
}

/// The bus after a byte write. Palette and VRAM take the byte in both
/// halves of its halfword; OAM and ROM ignore byte writes.
#[verifier::opaque]
pub open spec fn gba_write8_spec(b: GbaBusView, addr: u32, val: u8) -> GbaBusView {
    let region = addr >> 24u32;
    if region == 0x02 {
        GbaBusView { ewram: b.ewram.update((addr & 0x3FFFF) as int, val), ..b }
    } else if region == 0x03 {
        GbaBusView { iwram: b.iwram.update((addr & 0x7FFF) as int, val), ..b }
    } else if region == 0x04 {
        gba_write_io_spec(b, addr & 0x3FF, val)
    } else if region == 0x05 {
        let a = (addr & 0x3FE) as int;
        GbaBusView { ppu: GbaPpuView { palette: b.ppu.palette.update(a, val).update(a + 1, val), ..b.ppu }, ..b }
    } else if region == 0x06 {
        let o = vram_index((addr & 0x1FFFF) as int);
        let a = o - o % 2;
        if a + 1 < b.ppu.vram.len() {
            GbaBusView { ppu: GbaPpuView { vram: b.ppu.vram.update(a, val).update(a + 1, val), ..b.ppu }, ..b }
        } else {
            b
        }
    } else if region == 0x0D {
        if b.cart.backup_type == GbaBackupType::Eeprom {
            eeprom_written(b, val)
        } else {
            b
        }
    } else if region == 0x0E || region == 0x0F {
        GbaBusView { cart: write_sram_spec(b.cart, addr, val), ..b }
    } else {
        b
    }
}

/// The bus after a halfword write (to the even address): the EEPROM port
/// takes bit 0; palette, VRAM and OAM take the halfword; elsewhere two byte
/// writes.
pub open spec fn gba_write16_spec(b: GbaBusView, addr0: u32, val: u16) -> GbaBusView {
    let addr = addr0 & 0xFFFF_FFFE;
    let region = addr >> 24u32;
    if is_eeprom_port(b, addr) {
        eeprom_written(b, val as u8)
    } else if region == 0x05 {
        let o = (addr & 0x3FE) as int;
        GbaBusView {
            ppu: GbaPpuView { palette: b.ppu.palette.update(o, val as u8).update(o + 1, (val >> 8u16) as u8), ..b.ppu },
            ..b
        }
    } else if region == 0x06 {
        let o = vram_index((addr & 0x1FFFE) as int);
        if o + 1 < b.ppu.vram.len() {
            GbaBusView {
                ppu: GbaPpuView { vram: b.ppu.vram.update(o, val as u8).update(o + 1, (val >> 8u16) as u8), ..b.ppu },
                ..b
            }
        } else {
            b
        }
    } else if region == 0x07 {
        let o = (addr & 0x3FE) as int;
        if o + 1 < b.ppu.oam.len() {
            GbaBusView {
                ppu: GbaPpuView { oam: b.ppu.oam.update(o, val as u8).update(o + 1, (val >> 8u16) as u8), ..b.ppu },
                ..b
            }
        } else {
            b
        }
    } else {
        gba_write8_spec(gba_write8_spec(b, addr, val as u8), addr.wrapping_add(1), (val >> 8u16) as u8)
    }
}

/// The bus after a word write: the EEPROM port takes bit 0, elsewhere two
/// halfword writes.
pub open spec fn gba_write32_spec(b: GbaBusView, addr: u32, val: u32) -> GbaBusView {
    if is_eeprom_port(b, addr) {
        eeprom_written(b, val as u8)
    } else {
        gba_write16_spec(gba_write16_spec(b, addr, val as u16), addr.wrapping_add(2), (val >> 16u32) as u16)
    }
}

impl BusModel for GbaBusView {
    open spec fn read8_spec(&self, addr: u32) -> u8 {
        gba_read8_spec(*self, addr)
    }

    open spec fn read16_spec(&self, addr: u32) -> (u16, GbaBusView) {
        gba_read16_spec(*self, addr)
    }

    open spec fn read32_spec(&self, addr: u32) -> (u32, GbaBusView) {
        gba_read32_spec(*self, addr)
    }

    open spec fn write8_spec(&self, addr: u32, val: u8) -> GbaBusView {
        gba_write8_spec(*self, addr, val)
    }

    open spec fn write16_spec(&self, addr: u32, val: u16) -> GbaBusView {
        gba_write16_spec(*self, addr, val)
    }

    open spec fn write32_spec(&self, addr: u32, val: u32) -> GbaBusView {
        gba_write32_spec(*self, addr, val)
    }
}

// ---------------------------------------------------------------------------
// What the bus keeps
// ---------------------------------------------------------------------------

/// A bit the EEPROM takes keeps its counters in range.
pub proof fn lemma_eeprom_write_ok(e: EepromView, val: u8)
    requires
        eeprom_ok(e),
    ensures
        eeprom_ok(eeprom_write_spec(e, val)),
        eeprom_write_spec(e, val).addr_len == e.addr_len,
{
}

/// A bit the EEPROM hands out keeps its counters in range.
pub proof fn lemma_eeprom_advance_ok(e: EepromView)
    requires
        eeprom_ok(e),
    ensures
        eeprom_ok(eeprom_advance_spec(e)),
{
}

/// A register write leaves the PPU's line timer alone.
pub proof fn lemma_ppu_write_keeps_cycles(r: crate::ppu::gba_ppu::GbaPpuRegs, addr: u32, val: u8)
    ensures
        gba_ppu_write_io_spec(r, addr, val).cycles == r.cycles,
{
}

/// A write to the timer registers keeps each timer's prescaler and
/// accumulator in range.
pub proof fn lemma_timers_write_ok(ts: Seq<GbaTimer>, offset: u32, val: u8)
    requires
        ts.len() == 4,
        forall|i: int| 0 <= i < 4 ==> timer_ok(#[trigger] ts[i]),
        offset >= 0x100,
    ensures
        gba_timers_write_spec(ts, offset, val).len() == 4,
        forall|i: int| 0 <= i < 4 ==> timer_ok(#[trigger] gba_timers_write_spec(ts, offset, val)[i]),
{
    let r = gba_timers_write_spec(ts, offset, val);
    assert forall|i: int| 0 <= i < 4 implies timer_ok(#[trigger] r[i]) by {
        let idx = (offset - 0x100) / 4;
        if idx < 4 && i == idx {
            assert(timer_ok(ts[idx]));
        }
    }
}

// ---------------------------------------------------------------------------
// The bus
// ---------------------------------------------------------------------------

/// Writes a little-endian word into a byte buffer.
fn put_word(buf: &mut Vec<u8>, at: usize, w: u32)
    requires
        at + 4 <= old(buf)@.len(),
        at < 0x1000,
    ensures
        final(buf)@.len() == old(buf)@.len(),
        forall|i: int|
            0 <= i < final(buf)@.len() ==> final(buf)@[i] == if at <= i < at + 4 {
                word_byte_spec(w, i - at)
            } else {
                old(buf)@[i]
            },
{
    buf.set(at, w as u8);
    buf.set(at + 1, (w >> 8u32) as u8);
    buf.set(at + 2, (w >> 16u32) as u8);
    buf.set(at + 3, (w >> 24u32) as u8);
}

/// Byte `hi` of a halfword register.
fn reg_byte_exec(v: u16, hi: bool) -> (b: u8)
    ensures
        b == reg_byte(v, hi),
{
    if hi {
        (v >> 8u16) as u8
    } else {
        v as u8
    }
}

/// A halfword register with byte `hi` replaced.
fn set_reg_byte_exec(v: u16, hi: bool, b: u8) -> (r: u16)
    ensures
        r == set_reg_byte(v, hi, b),
{
    if hi {
        (v & 0x00FF) | ((b as u16) << 8u16)
    } else {
        (v & 0xFF00) | (b as u16)
    }
}

impl GbaBus {
    /// A bus for `cart` with cleared memories, devices at reset, and the
    /// high-level BIOS.
    pub fn new(cart: GbaCartridge) -> (b: Self)
        requires
            eeprom_ok(cart@.eeprom),
        ensures
            gba_bus_inv(&b),
            b.cart == cart,
            b@.ewram == Seq::new(EWRAM_SIZE as nat, |i: int| 0u8),
            b@.iwram == Seq::new(IWRAM_SIZE as nat, |i: int| 0u8),
            b@.io == Seq::new(GBA_IO_SIZE as nat, |i: int| 0u8),
            b@.bios == gba_hle_bios(),
            b.ie == 0 && b.iflag == 0 && !b.ime && b.waitcnt == 0 && !b.halt && b.post_boot,
            b.last_bios_value == 0,
            crate::ppu::gba_ppu::gba_ppu_at_reset(b.ppu),
            crate::apu::gba_apu::gba_apu_at_reset(b.apu),
            crate::timer::gba_timers_at_reset(b.timers),
            crate::dma::gba_dma_at_reset(b.dma),
            b.input.keyinput == 0x03FF && b.input.keycnt == 0,
    {
        let ewram = vec![0u8; EWRAM_SIZE];
        let iwram = vec![0u8; IWRAM_SIZE];
        let io = vec![0u8; GBA_IO_SIZE];
        assert(ewram@ =~= Seq::new(EWRAM_SIZE as nat, |i: int| 0u8));
        assert(iwram@ =~= Seq::new(IWRAM_SIZE as nat, |i: int| 0u8));
        assert(io@ =~= Seq::new(GBA_IO_SIZE as nat, |i: int| 0u8));
        let timers = GbaTimers::new();
        let dma = GbaDma::new();
        let b = GbaBus {
            cart,
            ppu: GbaPpu::new(),
            apu: GbaApu::new(),
            timers,
            dma,
            input: GbaInput::new(),
            ewram,
            iwram,
            io,
            ie: 0,
            iflag: 0,
            ime: false,
            waitcnt: 0,
            halt: false,
            post_boot: true,
            bios: Self::generate_hle_bios(),
            last_bios_value: 0,
        };
        assert(b.timers.timers@.len() == 4);
        b
    }

    /// The BIOS image.
    fn generate_hle_bios() -> (bios: Vec<u8>)
        ensures
            bios@ == gba_hle_bios(),
    {
        let mut bios = vec![0u8; BIOS_SIZE];
        put_word(&mut bios, 0x00, 0xE3A0_F302);
        put_word(&mut bios, 0x08, 0xE1B0_F00E);
        put_word(&mut bios, 0x18, 0xE92D_500F);
        put_word(&mut bios, 0x1C, 0xE3A0_0403);
        put_word(&mut bios, 0x20, 0xE280_0C7F);
        put_word(&mut bios, 0x24, 0xE280_00FC);
        put_word(&mut bios, 0x28, 0xE590_0000);
        put_word(&mut bios, 0x2C, 0xE1A0_E00F);
        put_word(&mut bios, 0x30, 0xE12F_FF10);
        put_word(&mut bios, 0x34, 0xE8BD_500F);
        put_word(&mut bios, 0x38, 0xE25E_F004);
        assert forall|i: int| 0 <= i < BIOS_SIZE implies bios@[i] == word_byte_spec(bios_word(i / 4), i % 4) by {
            if i >= 0x3C || (0x04 <= i < 0x08) || (0x0C <= i < 0x18) {
                assert(bios_word(i / 4) == 0);
                assert(word_byte_spec(0, i % 4) == 0) by {
                    assert((0u32 >> 8u32) == 0 && (0u32 >> 16u32) == 0 && (0u32 >> 24u32) == 0) by (bit_vector);
                }
            }
        }
        assert(bios@ =~= gba_hle_bios());
        bios
    }

    /// Whether an enabled interrupt is pending with IME set.
    pub fn check_irq(&self) -> (r: bool)
        ensures
            r == (self.ime && self.ie & self.iflag != 0),
    {
        self.ime && (self.ie & self.iflag) != 0
    }

    /// Reads I/O register byte `offset`.
    #[verifier::spinoff_prover]
    fn read_io_reg(&self, offset: u32) -> (v: u8)
        requires
            gba_bus_wf(self@),
            offset < 0x400,
        ensures
            v == gba_read_io_spec(self@, offset),
    {
        reveal(gba_read_io_spec);
        if offset <= 0x001 {
            self.ppu.read_io(0x0400_0000 + offset)
        } else if offset <= 0x003 {
            0
        } else if offset <= 0x005 {
            reg_byte_exec(self.ppu.read_dispstat(), offset == 5)
        } else if offset <= 0x007 {
            if offset == 6 {
                self.ppu.vcount as u8
            } else {
                0
            }
        } else if offset <= 0x05F {
            self.ppu.read_io(0x0400_0000 + offset)
        } else if 0x060 <= offset && offset <= 0x0A7 {
            self.apu.read_io(offset)
        } else if 0x0B0 <= offset && offset <= 0x0DF {
            self.dma.read(offset)
        } else if 0x100 <= offset && offset <= 0x10F {
            self.timers.read(offset)
        } else if 0x120 <= offset && offset <= 0x12F {
            0
        } else if offset == 0x130 || offset == 0x131 {
            reg_byte_exec(self.input.read_keyinput(), offset == 0x131)
        } else if offset == 0x132 || offset == 0x133 {
            reg_byte_exec(self.input.keycnt, offset == 0x133)
        } else if offset == 0x200 || offset == 0x201 {
            reg_byte_exec(self.ie, offset == 0x201)
        } else if offset == 0x202 || offset == 0x203 {
            reg_byte_exec(self.iflag, offset == 0x203)
        } else if offset == 0x204 || offset == 0x205 {
            reg_byte_exec(self.waitcnt, offset == 0x205)
        } else if offset == 0x208 {
            if self.ime {
                1
            } else {
                0
            }
        } else if offset == 0x209 {
            0
        } else if offset == 0x300 {
            if self.post_boot {
                1
            } else {
                0
            }
        } else if (offset as usize) < self.io.len() {
            self.io[offset as usize]
        } else {
            0
        }
    }

    /// Writes I/O register byte `offset`.
    #[verifier::spinoff_prover]
    #[verifier::rlimit(40)]
    fn write_io_reg(&mut self, offset: u32, val: u8)
        requires
            gba_bus_inv(old(self)),
            offset < 0x400,
        ensures
            gba_bus_inv(final(self)),
            final(self)@ == gba_write_io_spec(old(self)@, offset, val),
    {
        reveal(gba_write_io_spec);
        if (offset as usize) < self.io.len() {
            self.io.set(offset as usize, val);
        }
        if offset <= 0x001 || (0x008 <= offset && offset <= 0x05F) {
            proof {
                lemma_ppu_write_keeps_cycles(self.ppu@.regs, (0x0400_0000 + offset) as u32, val);
            }
            self.ppu.write_io(0x0400_0000 + offset, val);
        } else if offset == 0x004 || offset == 0x005 {
            self.ppu.write_dispstat(offset & 1, val);
        } else if 0x060 <= offset && offset <= 0x0A7 {
            self.apu.write_io(offset, val);
        } else if 0x0B0 <= offset && offset <= 0x0DF {
            self.dma.write(offset, val);
        } else if 0x100 <= offset && offset <= 0x10F {
            proof {
                lemma_timers_write_ok(self.timers.timers@, offset, val);
            }
            self.timers.write(offset, val);
        } else if offset == 0x132 || offset == 0x133 {
            self.input.keycnt = set_reg_byte_exec(self.input.keycnt, offset == 0x133, val);
        } else if offset == 0x200 || offset == 0x201 {
            self.ie = set_reg_byte_exec(self.ie, offset == 0x201, val);
        } else if offset == 0x202 {
            self.iflag = self.iflag & ((!val) as u16);
        } else if offset == 0x203 {
            self.iflag = self.iflag & !((val as u16) << 8u16);
        } else if offset == 0x204 || offset == 0x205 {
            self.waitcnt = set_reg_byte_exec(self.waitcnt, offset == 0x205, val);
        } else if offset == 0x208 {
            self.ime = val & 1 != 0;
        } else if offset == 0x301 {
            self.halt = true;
        } else if offset == 0x300 {
            self.post_boot = val & 1 != 0;
        }
        assert(gba_ppu_wf(self@.ppu));
        assert(self@.ppu.regs.cycles < 1232);
        assert(gba_apu_wf(self@.apu));
        assert(eeprom_ok(self@.cart.eeprom));
        assert(self@.timers.len() == 4);
        assert(forall|i: int| 0 <= i < 4 ==> timer_ok(#[trigger] self@.timers[i]));
        assert(self@.dma.len() == 4);
        assert(self@.io.len() == GBA_IO_SIZE);
    }

    /// The EEPROM takes a bit.
    #[verifier::spinoff_prover]
    fn eeprom_take(&mut self, val: u8)
        requires
            gba_bus_inv(old(self)),
        ensures
            gba_bus_inv(final(self)),
            final(self)@ == eeprom_written(old(self)@, val),
    {
        proof {
            lemma_eeprom_write_ok(self.cart@.eeprom, val);
        }
        self.cart.eeprom_write(val);
    }

    /// The EEPROM hands out a bit.
    #[verifier::spinoff_prover]
    fn eeprom_give(&mut self) -> (v: u8)
        requires
            gba_bus_inv(old(self)),
        ensures
            gba_bus_inv(final(self)),
            v == eeprom_read_spec(old(self)@.cart.eeprom),
            final(self)@ == eeprom_advanced(old(self)@),
    {
        let v = self.cart.eeprom_read();
        proof {
            lemma_eeprom_advance_ok(self.cart@.eeprom);
        }
        self.cart.eeprom_read_advance();
        v
    }

    /// A byte write to palette RAM: the byte lands in both halves of its
    /// halfword.
    #[verifier::spinoff_prover]
    fn write_palette8(&mut self, addr: u32, val: u8)
        requires
            gba_bus_inv(old(self)),
        ensures
            gba_bus_inv(final(self)),
            final(self)@ == (GbaBusView {
                ppu: GbaPpuView {
                    palette: old(self)@.ppu.palette.update((addr & 0x3FE) as int, val).update(
                        (addr & 0x3FE) + 1,
                        val,
                    ),
                    ..old(self)@.ppu
                },
                ..old(self)@
            }),
    {
        proof {
            crate::bits::lemma_and_le_u32(addr, 0x3FE);
        }
        let aligned = (addr & 0x3FE) as usize;
        self.ppu.palette.set(aligned, val);
        self.ppu.palette.set(aligned + 1, val);
        assert(self@ =~= GbaBusView {
            ppu: GbaPpuView {
                palette: old(self)@.ppu.palette.update((addr & 0x3FE) as int, val).update((addr & 0x3FE) + 1, val),
                ..old(self)@.ppu
            },
            ..old(self)@
        });
    }

    /// A byte write to VRAM: the byte lands in both halves of its halfword.
    #[verifier::spinoff_prover]
    fn write_vram8(&mut self, addr: u32, val: u8)
        requires
            gba_bus_inv(old(self)),
        ensures
            gba_bus_inv(final(self)),
            ({
                let o = vram_index((addr & 0x1FFFF) as int);
                let a = o - o % 2;
                final(self)@ == if a + 1 < old(self)@.ppu.vram.len() {
                    GbaBusView {
                        ppu: GbaPpuView { vram: old(self)@.ppu.vram.update(a, val).update(a + 1, val), ..old(self)@.ppu },
                        ..old(self)@
                    }
                } else {
                    old(self)@
                }
            }),
    {
        proof {
            crate::bits::lemma_and_le_u32(addr, 0x1FFFF);
        }
        let offset = (addr & 0x1FFFF) as usize;
        let offset = if offset >= 0x18000 {
            offset - 0x8000
        } else {
            offset
        };
        let aligned = offset - offset % 2;
        if aligned + 1 < self.ppu.vram.len() {
            self.ppu.vram.set(aligned, val);
            self.ppu.vram.set(aligned + 1, val);
            assert(self@ =~= GbaBusView {
                ppu: GbaPpuView {
                    vram: old(self)@.ppu.vram.update(aligned as int, val).update(aligned + 1, val),
                    ..old(self)@.ppu
                },
                ..old(self)@
            });
        }
    }

    /// Whether `addr` is the EEPROM's serial port.
    fn eeprom_port(&self, addr: u32) -> (r: bool)
        ensures
            r == is_eeprom_port(self@, addr),
    {
        addr >> 24u32 == 0x0D && self.cart.backup_type == GbaBackupType::Eeprom
    }
}

impl Arm7Bus for GbaBus {
    type Model = GbaBusView;

    open spec fn model(&self) -> GbaBusView {
        self@
    }

    open spec fn inv(&self) -> bool {
        gba_bus_inv(self)
    }

    fn read8(&self, addr: u32) -> (v: u8) {
        reveal(gba_read8_spec);
        let region = addr >> 24u32;
        if region == 0x00 {
            if (addr as usize) < self.bios.len() {
                self.bios[addr as usize]
            } else {
                0
            }
        } else if region == 0x02 {
            proof {
                crate::bits::lemma_and_le_u32(addr, 0x3FFFF);
            }
            self.ewram[(addr & 0x3FFFF) as usize]
        } else if region == 0x03 {
            proof {
                crate::bits::lemma_and_le_u32(addr, 0x7FFF);
            }
            self.iwram[(addr & 0x7FFF) as usize]
        } else if region == 0x04 {
            proof {
                crate::bits::lemma_and_le_u32(addr, 0x3FF);
            }
            self.read_io_reg(addr & 0x3FF)
        } else if region == 0x05 {
            proof {
                crate::bits::lemma_and_le_u32(addr, 0x3FF);
            }
            self.ppu.palette[(addr & 0x3FF) as usize]
        } else if region == 0x06 {
            proof {
                crate::bits::lemma_and_le_u32(addr, 0x1FFFF);
            }
            let offset = (addr & 0x1FFFF) as usize;
            let offset = if offset >= 0x18000 {
                offset - 0x8000
            } else {
                offset
            };
            self.ppu.vram[offset]
        } else if region == 0x07 {
            proof {
                crate::bits::lemma_and_le_u32(addr, 0x3FF);
            }
            self.ppu.oam[(addr & 0x3FF) as usize]
        } else if 0x08 <= region && region <= 0x0C {
            self.cart.read_rom(addr)
        } else if region == 0x0D {
            if self.cart.backup_type == GbaBackupType::Eeprom {
                self.cart.eeprom_read()
            } else {
                self.cart.read_rom(addr)
            }
        } else if region == 0x0E || region == 0x0F {
            self.cart.read_sram(addr)
        } else {
            0
        }
    }

    fn read16(&mut self, addr: u32) -> (v: u16) {
        if self.eeprom_port(addr) {
            let bit = self.eeprom_give();
            return bit as u16;
        }
        let lo = self.read8(addr) as u16;
        let hi = self.read8(addr.wrapping_add(1)) as u16;
        lo | (hi << 8u16)
    }

    fn read32(&mut self, addr: u32) -> (v: u32) {
        if self.eeprom_port(addr) {
            let bit = self.eeprom_give();
            return bit as u32;
        }
        let b0 = self.read8(addr) as u32;
        let b1 = self.read8(addr.wrapping_add(1)) as u32;
        let b2 = self.read8(addr.wrapping_add(2)) as u32;
        let b3 = self.read8(addr.wrapping_add(3)) as u32;
        b0 | (b1 << 8u32) | (b2 << 16u32) | (b3 << 24u32)
    }

    #[verifier::spinoff_prover]
    #[verifier::rlimit(80)]
    fn write8(&mut self, addr: u32, val: u8) {
        reveal(gba_write8_spec);
        let region = addr >> 24u32;
        if region == 0x02 {
            proof {
                crate::bits::lemma_and_le_u32(addr, 0x3FFFF);
            }
            self.ewram.set((addr & 0x3FFFF) as usize, val);
        } else if region == 0x03 {
            proof {
                crate::bits::lemma_and_le_u32(addr, 0x7FFF);
            }
            self.iwram.set((addr & 0x7FFF) as usize, val);
        } else if region == 0x04 {
            proof {
                crate::bits::lemma_and_le_u32(addr, 0x3FF);
            }
            self.write_io_reg(addr & 0x3FF, val);
        } else if region == 0x05 {
            self.write_palette8(addr, val);
        } else if region == 0x06 {
            self.write_vram8(addr, val);
        } else if region == 0x0D {
            if self.cart.backup_type == GbaBackupType::Eeprom {
                self.eeprom_take(val);
            }
        } else if region == 0x0E || region == 0x0F {
            self.cart.write_sram(addr, val);
        }
    }

    #[verifier::spinoff_prover]
    #[verifier::rlimit(60)]
    fn write16(&mut self, addr: u32, val: u16) {
        let addr = addr & 0xFFFF_FFFE;
        if self.eeprom_port(addr) {
            self.eeprom_take(val as u8);
            return;
        }
        let region = addr >> 24u32;
        if region == 0x05 {
            proof {
                crate::bits::lemma_and_le_u32(addr, 0x3FE);
            }
            let offset = (addr & 0x3FE) as usize;
            self.ppu.palette.set(offset, val as u8);
            self.ppu.palette.set(offset + 1, (val >> 8u16) as u8);
        } else if region == 0x06 {
            proof {
                crate::bits::lemma_and_le_u32(addr, 0x1FFFE);
            }
            let offset = (addr & 0x1FFFE) as usize;
            let offset = if offset >= 0x18000 {
                offset - 0x8000
            } else {
                offset
            };
            if offset + 1 < self.ppu.vram.len() {
                self.ppu.vram.set(offset, val as u8);
                self.ppu.vram.set(offset + 1, (val >> 8u16) as u8);
            }
        } else if region == 0x07 {
            proof {
                crate::bits::lemma_and_le_u32(addr, 0x3FE);
            }
            let offset = (addr & 0x3FE) as usize;
            if offset + 1 < self.ppu.oam.len() {
                self.ppu.oam.set(offset, val as u8);
                self.ppu.oam.set(offset + 1, (val >> 8u16) as u8);
            }
        } else {
            self.write8(addr, val as u8);
            self.write8(addr.wrapping_add(1), (val >> 8u16) as u8);
        }
    }

    fn write32(&mut self, addr: u32, val: u32) {
        if self.eeprom_port(addr) {
            self.eeprom_take(val as u8);
            return;
        }
        self.write16(addr, val as u16);
        self.write16(addr.wrapping_add(2), (val >> 16u32) as u16);
    }
}


// ---------------------------------------------------------------------------
// DMA
// ---------------------------------------------------------------------------

/// The units a DMA channel moves: a sound FIFO channel four words; a count
/// of zero stands for the channel's maximum.
pub open spec fn dma_units(c: DmaChannel, ch: int) -> nat {
    if (ch == 1 || ch == 2) && c.timing == 3 {
        4
    } else if c.count == 0 {
        if ch == 3 {
            0x10000
        } else {
            0x4000
        }
    } else {
        c.count as nat
    }
}

/// An address after one unit: control 1 decrements, 2 keeps it, the
/// others increment; wrapping at 32 bits.
pub open spec fn dma_next(a: u32, control: u8, ws: u32) -> u32 {
    if control == 1 {
        if a >= ws {
            (a - ws) as u32
        } else {
            (a - ws + 0x1_0000_0000) as u32
        }
    } else if control == 2 {
        a
    } else if a + ws > u32::MAX {
        (a + ws - 0x1_0000_0000) as u32
    } else {
        (a + ws) as u32
    }
}

/// `n` DMA units copied from `src` to `dst`: the bus after, and the
/// addresses the copy stopped at.
pub open spec fn dma_copy(b: GbaBusView, src: u32, dst: u32, n: nat, word: bool, sc: u8, dc: u8) -> (
    GbaBusView,
    u32,
    u32,
)
    decreases n,
{
    if n == 0 {
        (b, src, dst)
    } else {
        let ws: u32 = if word {
            4
        } else {
            2
        };
        let b1 = if word {
            let (v, b0) = gba_read32_spec(b, src);
            gba_write32_spec(b0, dst, v)
        } else {
            let (v, b0) = gba_read16_spec(b, src);
            gba_write16_spec(b0, dst, v)
        };
        dma_copy(b1, dma_next(src, sc, ws), dma_next(dst, dc, ws), (n - 1) as nat, word, sc, dc)
    }
}

/// The bus after an active DMA channel ran: its units copied (a transfer
/// touching the EEPROM first tells it the length, which fixes its address
/// width), the addresses written back, the channel stopped (a repeating
/// timed channel waits for its next trigger), and its interrupt raised.
pub open spec fn dma_channel_spec(b: GbaBusView, ch: int) -> GbaBusView {
    let c = b.dma[ch];
    if !c.active {
        b
    } else {
        let count = dma_units(c, ch);
        let (b2, src, dst) = dma_copy(
            dma_notify_spec(b, c, count),
            c.src_addr,
            c.dst_addr,
            count,
            c.word_size,
            c.src_control,
            c.dst_control,
        );
        dma_finish_spec(b2, ch, src, dst)
    }
}

/// A transfer that touches the EEPROM first tells it its length.
pub open spec fn dma_notify_spec(b: GbaBusView, c: DmaChannel, count: nat) -> GbaBusView {
    if b.cart.backup_type == GbaBackupType::Eeprom && (c.src_addr >> 24u32 == 0x0D || c.dst_addr >> 24u32 == 0x0D) {
        GbaBusView {
            cart: GbaCartView {
                eeprom: EepromView { addr_len: eeprom_addr_len_after_dma(b.cart, count as u32), ..b.cart.eeprom },
                ..b.cart
            },
            ..b
        }
    } else {
        b
    }
}

/// A channel after its transfer: the addresses written back, the channel
/// stopped (a repeating timed channel waits for its next trigger, reloading
/// its destination when told to), and its interrupt raised.
pub open spec fn dma_finish_spec(b2: GbaBusView, ch: int, src: u32, dst: u32) -> GbaBusView {
    let c3 = finished_channel(b2.dma[ch], src, dst);
    let iflag = if c3.irq {
        b2.iflag | (1u16 << ((8 + ch) as u16))
    } else {
        b2.iflag
    };
    GbaBusView { dma: b2.dma.update(ch, c3), iflag, ..b2 }
}

/// A channel with its addresses written back and stopped.
pub open spec fn finished_channel(c0: DmaChannel, src: u32, dst: u32) -> DmaChannel {
    let c1 = DmaChannel { src_addr: src, ..c0 };
    let c2 = if c1.dst_control != 3 {
        DmaChannel { dst_addr: dst, ..c1 }
    } else {
        c1
    };
    if c2.repeat && c2.timing != 0 {
        if c2.dst_control == 3 {
            DmaChannel { active: false, dst_addr: c2.dst_latch, ..c2 }
        } else {
            DmaChannel { active: false, ..c2 }
        }
    } else {
        DmaChannel { active: false, enabled: false, control: c2.control & 0x7FFF, ..c2 }
    }
}

/// A channel with its addresses written back and stopped.
fn finish_channel(c0: DmaChannel, src: u32, dst: u32) -> (c: DmaChannel)
    ensures
        c == finished_channel(c0, src, dst),
{
    let mut c1 = c0;
    c1.src_addr = src;
    if c1.dst_control != 3 {
        c1.dst_addr = dst;
    }
    if c1.repeat && c1.timing != 0 {
        c1.active = false;
        if c1.dst_control == 3 {
            c1.dst_addr = c1.dst_latch;
        }
    } else {
        c1.active = false;
        c1.enabled = false;
        c1.control = c1.control & 0x7FFF;
    }
    c1
}

/// The bus after the four DMA channels ran in order.
pub open spec fn process_dma_spec(b: GbaBusView) -> GbaBusView {
    dma_channel_spec(dma_channel_spec(dma_channel_spec(dma_channel_spec(b, 0), 1), 2), 3)
}

/// Whether sound DMA channel `ch` refills its FIFO after timer `timer_id`
/// overflowed: enabled for special timing, aimed at a FIFO driven by that
/// timer, and the FIFO at most half full.
pub open spec fn sound_dma_ready(b: GbaBusView, ch: int, timer_id: int) -> bool {
    let c = b.dma[ch];
    let fa = if b.apu.soundcnt_h & 0x0400 != 0 {
        1int
    } else {
        0int
    };
    let fb = if b.apu.soundcnt_h & 0x4000 != 0 {
        1int
    } else {
        0int
    };
    c.enabled && c.timing == 3 && if c.dst_addr == 0x0400_00A0 {
        timer_id == fa && b.apu.fifo_a.len() <= 16
    } else if c.dst_addr == 0x0400_00A4 {
        timer_id == fb && b.apu.fifo_b.len() <= 16
    } else {
        false
    }
}

/// The bus after the sound DMA channels checked timer `timer_id`.
pub open spec fn sound_dma_spec(b: GbaBusView, timer_id: int) -> GbaBusView {
    let d1 = if sound_dma_ready(b, 1, timer_id) {
        b.dma.update(1, DmaChannel { active: true, ..b.dma[1] })
    } else {
        b.dma
    };
    let d2 = if sound_dma_ready(b, 2, timer_id) {
        d1.update(2, DmaChannel { active: true, ..d1[2] })
    } else {
        d1
    };
    GbaBusView { dma: d2, ..b }
}

/// The bus after timer `i` overflowed (or did not): the FIFOs it drives
/// advance and their DMA channels are armed.
pub open spec fn timer_overflow_step(b: GbaBusView, i: int, overflowed: bool) -> GbaBusView {
    if overflowed {
        sound_dma_spec(GbaBusView { apu: gba_timer_overflow_spec(b.apu, i), ..b }, i)
    } else {
        b
    }
}

/// The first part of a tick: the PPU runs and raises its interrupts and
/// DMA triggers, the timers count and raise theirs; with which timers
/// overflowed.
pub open spec fn tick_front_spec(b: GbaBusView, cycles: u32) -> (GbaBusView, Seq<bool>) {
    let (p1, ev) = gba_ppu_tick_spec(b.ppu, cycles);
    let d1 = if ev & 0x0100 != 0 {
        dma_trigger_spec(b.dma, 1)
    } else {
        b.dma
    };
    let d2 = if ev & 0x0200 != 0 {
        dma_trigger_spec(d1, 2)
    } else {
        d1
    };
    let (t0, o0, q0) = gba_timer_tick_spec(b.timers[0], 0, false, cycles);
    let (t1, o1, q1) = gba_timer_tick_spec(b.timers[1], 1, o0, cycles);
    let (t2, o2, q2) = gba_timer_tick_spec(b.timers[2], 2, o1, cycles);
    let (t3, o3, q3) = gba_timer_tick_spec(b.timers[3], 3, o2, cycles);
    let irq = timer_irq_bit(0, q0) | timer_irq_bit(1, q1) | timer_irq_bit(2, q2) | timer_irq_bit(3, q3);
    (
        GbaBusView {
            ppu: p1,
            iflag: (b.iflag | (ev & 0x07)) | irq,
            dma: d2,
            timers: seq![t0, t1, t2, t3],
            picture: gba_lines_fb(
                crate::ppu::gba_ppu::GbaPpuRegs { cycles: (b.ppu.regs.cycles + cycles) as u32, ..b.ppu.regs },
                b.ppu,
                b.picture,
            ),
            ..b
        },
        seq![o0, o1, o2, o3],
    )
}

/// The overflows of the first `n` timers handled in order.
pub open spec fn overflow_prefix(b: GbaBusView, o: Seq<bool>, n: nat) -> GbaBusView
    decreases n,
{
    if n == 0 {
        b
    } else {
        timer_overflow_step(overflow_prefix(b, o, (n - 1) as nat), n - 1, o[n - 1])
    }
}

/// What `tick(cycles)` does: the first part above, each overflow feeding
/// the sound FIFOs, the sound unit running, and then the DMA channels.
/// The counters `tick(cycles)` adds to do not overflow: the video unit's
/// line timer, the running timers' cycle accumulators, and the sound unit's
/// counters.
pub open spec fn gba_bus_tick_defined(b: GbaBusView, cycles: u32) -> bool {
    &&& b.ppu.regs.cycles + cycles <= u32::MAX
    &&& crate::timer::gba_tick_defined(b.timers, cycles)
    &&& crate::apu::gba_apu::gba_apu_tick_defined(b.apu, cycles)
}

pub open spec fn gba_bus_tick_spec(b: GbaBusView, cycles: u32) -> GbaBusView {
    let (b1, o) = tick_front_spec(b, cycles);
    let b2 = overflow_prefix(b1, o, 4);
    process_dma_spec(GbaBusView { apu: gba_apu_tick_spec(b2.apu, cycles), ..b2 })
}

/// After any number of lines the PPU's line timer is below one line.
pub proof fn lemma_lines_cycles(r: crate::ppu::gba_ppu::GbaPpuRegs, irqs: u16)
    ensures
        crate::ppu::gba_ppu::gba_lines(r, irqs).0.cycles < 1232,
    decreases r.cycles,
{
    if r.cycles >= 1232 {
        let (r1, i1) = crate::ppu::gba_ppu::gba_line_regs(r);
        lemma_lines_cycles(r1, irqs | i1);
    }
}

/// An address after one DMA unit.
fn dma_next_exec(a: u32, control: u8, ws: u32) -> (r: u32)
    ensures
        r == dma_next(a, control, ws),
{
    if control == 1 {
        if a >= ws {
            a - ws
        } else {
            (a as u64 + 0x1_0000_0000 - ws as u64) as u32
        }
    } else if control == 2 {
        a
    } else if a as u64 + ws as u64 > u32::MAX as u64 {
        (a as u64 + ws as u64 - 0x1_0000_0000) as u32
    } else {
        a + ws
    }
}

impl GbaBus {
    /// Copies `count` units, returning where the addresses stopped.
    #[verifier::spinoff_prover]
    #[verifier::rlimit(60)]
    fn dma_transfer(&mut self, src0: u32, dst0: u32, count: u32, word: bool, sc: u8, dc: u8) -> (r: (u32, u32))
        requires
            gba_bus_inv(old(self)),
        ensures
            gba_bus_inv(final(self)),
            (final(self)@, r.0, r.1) == dma_copy(old(self)@, src0, dst0, count as nat, word, sc, dc),
    {
        let ws: u32 = if word {
            4
        } else {
            2
        };
        let mut src = src0;
        let mut dst = dst0;
        let mut i: u32 = 0;
        while i < count
            invariant
                gba_bus_inv(self),
                i <= count,
                ws == if word {
                    4u32
                } else {
                    2u32
                },
                dma_copy(old(self)@, src0, dst0, count as nat, word, sc, dc) == dma_copy(
                    self@,
                    src,
                    dst,
                    (count - i) as nat,
                    word,
                    sc,
                    dc,
                ),
            decreases count - i,
        {
            if word {
                let v = self.read32(src);
                self.write32(dst, v);
            } else {
                let v = self.read16(src);
                self.write16(dst, v);
            }
            src = dma_next_exec(src, sc, ws);
            dst = dma_next_exec(dst, dc, ws);
            i = i + 1;
        }
        (src, dst)
    }

    /// Writes a channel back after its transfer and raises its interrupt.
    #[verifier::spinoff_prover]
    fn dma_finish(&mut self, ch: usize, src: u32, dst: u32)
        requires
            gba_bus_inv(old(self)),
            ch < 4,
        ensures
            gba_bus_inv(final(self)),
            final(self)@ == dma_finish_spec(old(self)@, ch as int, src, dst),
    {
        let c1 = finish_channel(self.dma.channels[ch], src, dst);
        self.dma.channels[ch] = c1;
        if c1.irq {
            self.iflag = self.iflag | (1u16 << (8 + ch as u16));
        }
        assert(self.dma.channels@ =~= old(self).dma.channels@.update(ch as int, c1));
    }

    /// Tells the EEPROM the length of a transfer that touches it.
    #[verifier::spinoff_prover]
    fn dma_notify(&mut self, c: DmaChannel, count: u32)
        requires
            gba_bus_inv(old(self)),
        ensures
            gba_bus_inv(final(self)),
            final(self)@ == dma_notify_spec(old(self)@, c, count as nat),
    {
        if self.cart.backup_type == GbaBackupType::Eeprom && ((c.src_addr >> 24u32 == 0x0D) || (c.dst_addr >> 24u32
            == 0x0D)) {
            self.cart.notify_eeprom_dma(count);
        }
    }

    /// Runs DMA channel `ch` if it is active.
    #[verifier::spinoff_prover]
    fn run_dma_channel(&mut self, ch: usize)
        requires
            gba_bus_inv(old(self)),
            ch < 4,
        ensures
            gba_bus_inv(final(self)),
            final(self)@ == dma_channel_spec(old(self)@, ch as int),
    {
        if !self.dma.channels[ch].active {
            return;
        }
        let c = self.dma.channels[ch];
        let count: u32 = if (ch == 1 || ch == 2) && c.timing == 3 {
            4
        } else if c.count == 0 {
            if ch == 3 {
                0x10000
            } else {
                0x4000
            }
        } else {
            c.count as u32
        };
        assert(count == dma_units(c, ch as int));
        self.dma_notify(c, count);
        let (src, dst) = self.dma_transfer(c.src_addr, c.dst_addr, count, c.word_size, c.src_control, c.dst_control);
        self.dma_finish(ch, src, dst);
    }

    /// Runs the four DMA channels in order.
    #[verifier::spinoff_prover]
    fn process_dma(&mut self)
        requires
            gba_bus_inv(old(self)),
        ensures
            gba_bus_inv(final(self)),
            final(self)@ == process_dma_spec(old(self)@),
    {
        self.run_dma_channel(0);
        self.run_dma_channel(1);
        self.run_dma_channel(2);
        self.run_dma_channel(3);
    }

    /// Arms the sound DMA channels whose FIFO timer `timer_id` overflowed.
    #[verifier::spinoff_prover]
    fn trigger_sound_dma(&mut self, timer_id: usize)
        requires
            gba_bus_inv(old(self)),
            timer_id < 4,
        ensures
            gba_bus_inv(final(self)),
            final(self)@ == sound_dma_spec(old(self)@, timer_id as int),
            final(self).apu.enabled == old(self).apu.enabled,
            final(self).apu.psg_cycle_accum == old(self).apu.psg_cycle_accum,
            final(self).apu.frame_sequencer == old(self).apu.frame_sequencer,
    {
        let fifo_a_timer: usize = if self.apu.soundcnt_h & 0x0400 != 0 {
            1
        } else {
            0
        };
        let fifo_b_timer: usize = if self.apu.soundcnt_h & 0x4000 != 0 {
            1
        } else {
            0
        };
        let ghost b0 = self@;
        let mut ch: usize = 1;
        while ch <= 2
            invariant
                1 <= ch <= 3,
                gba_bus_inv(self),
                self@ == (GbaBusView { dma: self@.dma, ..b0 }),
                self@.dma.len() == 4,
                fifo_a_timer == if b0.apu.soundcnt_h & 0x0400 != 0 { 1int } else { 0int },
                fifo_b_timer == if b0.apu.soundcnt_h & 0x4000 != 0 { 1int } else { 0int },
                self@.apu == b0.apu,
                self@.dma[0] == b0.dma[0],
                self@.dma[3] == b0.dma[3],
                forall|k: int| ch <= k <= 2 ==> self@.dma[k] == b0.dma[k],
                forall|k: int|
                    1 <= k < ch ==> self@.dma[k] == if sound_dma_ready(b0, k, timer_id as int) {
                        DmaChannel { active: true, ..b0.dma[k] }
                    } else {
                        b0.dma[k]
                    },
            decreases 3 - ch,
        {
            let c = self.dma.channels[ch];
            if c.enabled && c.timing == 3 {
                let fifo_ready = if c.dst_addr == 0x0400_00A0 {
                    timer_id == fifo_a_timer && self.apu.fifo_a.len() <= 16
                } else if c.dst_addr == 0x0400_00A4 {
                    timer_id == fifo_b_timer && self.apu.fifo_b.len() <= 16
                } else {
                    false
                };
                if fifo_ready {
                    self.dma.channels[ch].active = true;
                }
            }
            ch = ch + 1;
        }
        assert(self@ =~= sound_dma_spec(b0, timer_id as int));
    }

    /// The first part of a tick; returns which timers overflowed.
    #[verifier::spinoff_prover]
    fn tick_front(&mut self, cycles: u32) -> (o: [bool; 4])
        requires
            gba_bus_inv(old(self)),
            gba_bus_tick_defined(old(self)@, cycles),
        ensures
            gba_bus_inv(final(self)),
            (final(self)@, o@) == tick_front_spec(old(self)@, cycles),
    {
        proof {
            lemma_lines_cycles(
                crate::ppu::gba_ppu::GbaPpuRegs { cycles: (self.ppu@.regs.cycles + cycles) as u32, ..self.ppu@.regs },
                0,
            );
        }
        let ppu_events = self.ppu.tick(cycles);
        self.iflag = self.iflag | (ppu_events & 0x07);
        if ppu_events & 0x0100 != 0 {
            self.dma.notify_vblank();
        }
        if ppu_events & 0x0200 != 0 {
            self.dma.notify_hblank();
        }
        assert(self.timers.timers@.len() == 4);
        assert(timer_ok(self.timers.timers[0]) && timer_ok(self.timers.timers[1]) && timer_ok(self.timers.timers[2])
            && timer_ok(self.timers.timers[3]));
        let (timer_irqs, overflows) = self.timers.tick(cycles);
        self.iflag = self.iflag | timer_irqs;
        assert(self@ =~= tick_front_spec(old(self)@, cycles).0);
        overflows
    }

    /// Runs the devices for `cycles` CPU cycles.
    #[verifier::spinoff_prover]
    #[verifier::rlimit(60)]
    pub fn tick(&mut self, cycles: u32)
        requires
            gba_bus_inv(old(self)),
            gba_bus_tick_defined(old(self)@, cycles),
        ensures
            gba_bus_inv(final(self)),
            final(self)@ == gba_bus_tick_spec(old(self)@, cycles),
    {
        let overflows = self.tick_front(cycles);
        let ghost b1 = self@;
        assert(self@.apu == old(self)@.apu);
        let mut i: usize = 0;
        while i < 4
            invariant
                i <= 4,
                gba_bus_inv(self),
                overflows@.len() == 4,
                self@ == overflow_prefix(b1, overflows@, i as nat),
                self.apu.enabled == old(self).apu.enabled,
                self.apu.psg_cycle_accum == old(self).apu.psg_cycle_accum,
                self.apu.frame_sequencer == old(self).apu.frame_sequencer,
            decreases 4 - i,
        {
            if overflows[i] {
                self.apu.timer_overflow(i);
                self.trigger_sound_dma(i);
            }
            i = i + 1;
        }
        self.apu.tick(cycles);
        self.process_dma();
    }
}

/// The offsets of the four bytes of a word-aligned work RAM address: the same
/// region, consecutive offsets below the mirror mask, and no carry.
proof fn lemma_aligned_ram_word(addr: u32, m: u32)
    by (bit_vector)
    requires
        addr & 3 == 0,
        addr >> 24u32 == 2 || addr >> 24u32 == 3,
        m == 0x3FFFF || m == 0x7FFF,
    ensures
        addr & 0xFFFF_FFFE == addr,
        (addr + 2) as u32 & 0xFFFF_FFFE == (addr + 2) as u32,
        (addr + 1) as u32 >> 24u32 == addr >> 24u32,
        (addr + 2) as u32 >> 24u32 == addr >> 24u32,
        (addr + 3) as u32 >> 24u32 == addr >> 24u32,
        (addr + 1) as u32 & m == (addr & m) + 1,
        (addr + 2) as u32 & m == (addr & m) + 2,
        (addr + 3) as u32 & m == (addr & m) + 3,
        (addr & m) + 3 <= m,
        addr + 3 < 0x0400_0000,
{
}

/// A word put back together from the bytes of its two halfwords.
proof fn lemma_word_from_halves(w: u32)
    by (bit_vector)
    ensures
        ((w as u16) as u8 as u32) | ((((w as u16) >> 8u16) as u8 as u32) << 8u32) | ((((w >> 16u32) as u16)
            as u8 as u32) << 16u32) | (((((w >> 16u32) as u16) >> 8u16) as u8 as u32) << 24u32) == w,
{
}

/// External and internal work RAM give back what was last written to them:
/// a byte at the address written and at each of its mirrors, and a word at
/// the word-aligned address it was written to.
pub proof fn lemma_gba_ram_write_then_read(b: GbaBusView, addr: u32, mirror: u32, val: u8, word: u32)
    requires
        gba_bus_wf(b),
        addr >> 24u32 == 0x02 || addr >> 24u32 == 0x03,
    ensures
        gba_read8_spec(gba_write8_spec(b, addr, val), addr) == val,
        mirror >> 24u32 == addr >> 24u32 && (addr >> 24u32 == 0x02 ==> mirror & 0x3FFFF == addr & 0x3FFFF) && (
        addr >> 24u32 == 0x03 ==> mirror & 0x7FFF == addr & 0x7FFF) ==> gba_read8_spec(
            gba_write8_spec(b, addr, val),
            mirror,
        ) == val,
        addr & 3 == 0 ==> gba_read32_spec(gba_write32_spec(b, addr, word), addr).0 == word,
{
    reveal(gba_read8_spec);
    reveal(gba_write8_spec);
    crate::bits::lemma_and_le_u32(addr, 0x3FFFF);
    crate::bits::lemma_and_le_u32(addr, 0x7FFF);
    if addr & 3 == 0 {
        let m: u32 = if addr >> 24u32 == 0x02 { 0x3FFFF } else { 0x7FFF };
        lemma_aligned_ram_word(addr, m);
        lemma_word_from_halves(word);
        let lo = word as u16;
        let hi = (word >> 16u32) as u16;
        let a2 = addr.wrapping_add(2);
        assert(a2 == (addr + 2) as u32);
        let b1 = gba_write16_spec(b, addr, lo);
        assert(b1 == gba_write8_spec(gba_write8_spec(b, addr, lo as u8), addr.wrapping_add(1), (lo >> 8u16) as u8));
        let b2 = gba_write16_spec(b1, a2, hi);
        assert(b2 == gba_write8_spec(gba_write8_spec(b1, a2, hi as u8), a2.wrapping_add(1), (hi >> 8u16) as u8));
        assert(gba_write32_spec(b, addr, word) == b2);
        assert(gba_read8_spec(b2, addr) == lo as u8);
        assert(gba_read8_spec(b2, addr.wrapping_add(1)) == (lo >> 8u16) as u8);
        assert(gba_read8_spec(b2, addr.wrapping_add(2)) == hi as u8);
        assert(gba_read8_spec(b2, addr.wrapping_add(3)) == (hi >> 8u16) as u8);
    }
}

} // verus!
