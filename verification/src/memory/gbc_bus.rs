use vstd::prelude::*;

use crate::apu::gbc_apu::{gbc_apu_read_spec, gbc_apu_tick_spec, gbc_apu_wf, gbc_apu_write_spec, GbcApu, GbcApuView};
use crate::cartridge::mbc::{
    byte_or_ff, read_ram_spec, read_rom_spec, ram_array_selected, write_ram_spec, write_register_spec, Mbc, MbcType,
};
use crate::cartridge::{CartridgeType, GbcCartridge};
use crate::cpu::sm83::{Sm83Bus, Sm83Model};
use crate::input::{gbc_input_read_spec, GbcInput};
use crate::ppu::gbc_ppu::{
    gbc_ppu_wf, gbc_read_io_spec, gbc_tick_defined, gbc_tick_spec, gbc_write_io_spec, vram_offset, GbcPpu, GbcPpuRegs,
    GbcPpuView,
};
use crate::timer::{gbc_timer_read_spec, gbc_timer_run, gbc_timer_write_spec, GbcTimer};

verus! {

/// The Game Boy (Color) memory map: cartridge, video and work RAM, OAM,
/// the I/O registers of each unit, and the DMA engines.
pub struct GbcBus {
    pub cart: GbcCartridge,
    pub mbc: Mbc,
    pub ppu: GbcPpu,
    pub apu: GbcApu,
    pub timer: GbcTimer,
    pub input: GbcInput,
    /// Eight 4 KiB banks (bank 0 fixed at 0xC000, banks 1-7 at 0xD000).
    pub wram: Vec<u8>,
    pub hram: Vec<u8>,
    pub ie: u8,
    pub iflag: u8,
    pub wram_bank: u8,
    pub dma_active: bool,
    pub dma_byte: u8,
    pub dma_source: u16,
    pub hdma_source: u16,
    pub hdma_dest: u16,
    pub hdma_length: u8,
    pub hdma_active: bool,
    pub double_speed: bool,
    pub speed_switch_pending: bool,
    pub serial_data: u8,
    pub serial_control: u8,
}

/// The bus's own registers.
#[derive(Clone, Copy)]
pub struct GbcBusRegs {
    pub ie: u8,
    pub iflag: u8,
    pub wram_bank: u8,
    pub dma_active: bool,
    pub dma_byte: u8,
    pub dma_source: u16,
    pub hdma_source: u16,
    pub hdma_dest: u16,
    pub hdma_length: u8,
    pub hdma_active: bool,
    pub double_speed: bool,
    pub speed_switch_pending: bool,
    pub serial_data: u8,
    pub serial_control: u8,
}

/// Everything the CPU can observe through the bus, as mathematical values.
#[verifier::ext_equal]
pub struct GbcBusView {
    pub rom: Seq<u8>,
    pub ram: Seq<u8>,
    pub mbc: Mbc,
    pub ppu: GbcPpuView,
    pub apu: GbcApuView,
    pub timer: GbcTimer,
    pub input: GbcInput,
    pub wram: Seq<u8>,
    pub hram: Seq<u8>,
    pub regs: GbcBusRegs,
}

impl View for GbcBus {
    type V = GbcBusView;

    open spec fn view(&self) -> GbcBusView {
        GbcBusView {
            rom: self.cart.rom@,
            ram: self.cart.ram@,
            mbc: self.mbc,
            ppu: self.ppu@,
            apu: self.apu@,
            timer: self.timer,
            input: self.input,
            wram: self.wram@,
            hram: self.hram@,
            regs: GbcBusRegs {
                ie: self.ie,
                iflag: self.iflag,
                wram_bank: self.wram_bank,
                dma_active: self.dma_active,
                dma_byte: self.dma_byte,
                dma_source: self.dma_source,
                hdma_source: self.hdma_source,
                hdma_dest: self.hdma_dest,
                hdma_length: self.hdma_length,
                hdma_active: self.hdma_active,
                double_speed: self.double_speed,
                speed_switch_pending: self.speed_switch_pending,
                serial_data: self.serial_data,
                serial_control: self.serial_control,
            },
        }
    }
}

/// The sizes the bus memories keep and the invariants of its units.
pub open spec fn gbc_bus_wf(b: GbcBusView) -> bool {
    &&& b.wram.len() == 0x8000
    &&& b.hram.len() == 127
    &&& gbc_ppu_wf(b.ppu)
    &&& gbc_apu_wf(b.apu)
    &&& b.regs.wram_bank < 8
    &&& b.regs.dma_source <= 0xFF00
}

/// The work RAM bank mapped at 0xD000 (bank 0 selects bank 1).
pub open spec fn wram_bank_of(b: GbcBusView) -> int {
    if b.regs.wram_bank == 0 {
        1
    } else {
        b.regs.wram_bank as int
    }
}

/// The work RAM offset of address `addr` (0xC000-0xDFFF).
pub open spec fn wram_offset(b: GbcBusView, addr: u16) -> int {
    if addr < 0xD000 {
        addr - 0xC000
    } else {
        wram_bank_of(b) * 0x1000 + (addr - 0xD000)
    }
}

/// A cartridge ROM read. The fixed bank of MBC3 and MBC5 reads 0xFF past
/// the end of a ROM shorter than one bank.
pub open spec fn gbc_rom_read(b: GbcBusView, addr: u16) -> u8 {
    if (b.mbc.mbc_type == MbcType::Mbc3 || b.mbc.mbc_type == MbcType::Mbc5) && addr < 0x4000 {
        byte_or_ff(b.rom, addr as int)
    } else {
        read_rom_spec(b.mbc, addr, b.rom)
    }
}

/// What the DMA engines read: cartridge, VRAM and work RAM, 0xFF elsewhere.
pub open spec fn gbc_dma_read(b: GbcBusView, addr: u16) -> u8 {
    if addr <= 0x7FFF {
        gbc_rom_read(b, addr)
    } else if addr <= 0x9FFF {
        byte_or_ff(b.ppu.vram, vram_offset(b.ppu, addr))
    } else if addr <= 0xBFFF {
        read_ram_spec(b.mbc, addr, b.ram)
    } else if addr <= 0xDFFF {
        b.wram[wram_offset(b, addr)]
    } else {
        0xFF
    }
}

/// What a CPU read of `addr` returns.
pub open spec fn gbc_bus_read(b: GbcBusView, addr: u16) -> u8 {
    let r = b.regs;
    if addr <= 0xDFFF {
        gbc_dma_read(b, addr)
    } else if addr <= 0xFDFF {
        b.wram[wram_offset(b, (addr - 0x2000) as u16)]
    } else if addr <= 0xFE9F {
        b.ppu.oam[addr - 0xFE00]
    } else if addr <= 0xFEFF {
        0xFF
    } else if addr == 0xFF00 {
        gbc_input_read_spec(b.input)
    } else if addr == 0xFF01 {
        r.serial_data
    } else if addr == 0xFF02 {
        r.serial_control
    } else if 0xFF04 <= addr <= 0xFF07 {
        gbc_timer_read_spec(b.timer, addr)
    } else if addr == 0xFF0F {
        r.iflag | 0xE0
    } else if 0xFF10 <= addr <= 0xFF3F {
        gbc_apu_read_spec(b.apu, addr)
    } else if 0xFF40 <= addr <= 0xFF4B || 0xFF68 <= addr <= 0xFF6B {
        gbc_read_io_spec(b.ppu, addr)
    } else if addr == 0xFF4D {
        (if r.double_speed { 0x80u8 } else { 0u8 }) | (if r.speed_switch_pending { 0x01u8 } else { 0u8 })
    } else if addr == 0xFF4F {
        b.ppu.regs.vram_bank | 0xFE
    } else if addr == 0xFF51 {
        (r.hdma_source >> 8u16) as u8
    } else if addr == 0xFF52 {
        (r.hdma_source & 0xF0) as u8
    } else if addr == 0xFF53 {
        (r.hdma_dest >> 8u16) as u8
    } else if addr == 0xFF54 {
        (r.hdma_dest & 0xF0) as u8
    } else if addr == 0xFF55 {
        if r.hdma_active {
            r.hdma_length
        } else {
            0x80 | r.hdma_length
        }
    } else if addr == 0xFF70 {
        r.wram_bank | 0xF8
    } else if 0xFF80 <= addr <= 0xFFFE {
        b.hram[addr - 0xFF80]
    } else if addr == 0xFFFF {
        r.ie
    } else {
        0xFF
    }
}

/// The bus after a write of `val` to VRAM address `addr` in the selected bank.
pub open spec fn vram_write(b: GbcBusView, addr: u16, val: u8) -> GbcBusView {
    let off = vram_offset(b.ppu, addr);
    GbcBusView {
        ppu: GbcPpuView {
            vram: if off < b.ppu.vram.len() {
                b.ppu.vram.update(off, val)
            } else {
                b.ppu.vram
            },
            ..b.ppu
        },
        ..b
    }
}

/// The general-purpose HDMA transfer from byte `i` on: `len` bytes from
/// `src` to VRAM at `dst` (within the 8 KiB window), one after the other.
pub open spec fn hdma_copy(b: GbcBusView, src: u16, dst: u16, len: nat, i: nat) -> GbcBusView
    decreases len - i,
{
    if i >= len {
        b
    } else {
        let s = ((src + i) % 0x10000) as u16;
        let d = (0x8000 + (((dst + i) % 0x10000) as u16 & 0x1FFF)) as u16;
        hdma_copy(vram_write(b, d, gbc_dma_read(b, s)), src, dst, len, i + 1)
    }
}

/// A write of HDMA5: bit 7 clear starts a general-purpose transfer of
/// `(length + 1) * 16` bytes, which completes at once.
pub open spec fn hdma_start(b: GbcBusView, val: u8) -> GbcBusView {
    let r = b.regs;
    if val & 0x80 == 0 {
        let len = (((val & 0x7F) as nat) + 1) * 16;
        let b0 = GbcBusView { regs: GbcBusRegs { hdma_length: val & 0x7F, hdma_active: true, ..r }, ..b };
        let b1 = hdma_copy(b0, r.hdma_source, r.hdma_dest, len, 0);
        GbcBusView {
            regs: GbcBusRegs {
                hdma_source: ((r.hdma_source + len) % 0x10000) as u16,
                hdma_dest: ((r.hdma_dest + len) % 0x10000) as u16,
                hdma_length: 0xFF,
                hdma_active: false,
                ..b1.regs
            },
            ..b1
        }
    } else {
        GbcBusView { regs: GbcBusRegs { hdma_length: val & 0x7F, hdma_active: false, ..r }, ..b }
    }
}

/// The bus after a CPU write of `val` to `addr`.
pub open spec fn gbc_bus_write(b: GbcBusView, addr: u16, val: u8) -> GbcBusView {
    if addr <= 0xFEFF {
        gbc_mem_write(b, addr, val)
    } else {
        gbc_io_write(b, addr, val)
    }
}

/// A write below the I/O page: controller registers, VRAM, cartridge RAM,
/// work RAM and its echo, OAM.
pub open spec fn gbc_mem_write(b: GbcBusView, addr: u16, val: u8) -> GbcBusView {
    if addr <= 0x7FFF {
        GbcBusView { mbc: write_register_spec(b.mbc, addr, val), ..b }
    } else if addr <= 0x9FFF {
        vram_write(b, addr, val)
    } else if addr <= 0xBFFF {
        let (m, ram) = write_ram_spec(b.mbc, addr, val, b.ram);
        GbcBusView { mbc: m, ram: ram, ..b }
    } else if addr <= 0xDFFF {
        GbcBusView { wram: b.wram.update(wram_offset(b, addr), val), ..b }
    } else if addr <= 0xFDFF {
        GbcBusView { wram: b.wram.update(wram_offset(b, (addr - 0x2000) as u16), val), ..b }
    } else if addr <= 0xFE9F {
        GbcBusView { ppu: GbcPpuView { oam: b.ppu.oam.update(addr - 0xFE00, val), ..b.ppu }, ..b }
    } else {
        b
    }
}

/// A write to the I/O page and high RAM.
pub open spec fn gbc_io_write(b: GbcBusView, addr: u16, val: u8) -> GbcBusView {
    let r = b.regs;
    if addr == 0xFF00 {
        GbcBusView { input: GbcInput { select: val & 0x30, ..b.input }, ..b }
    } else if addr == 0xFF01 {
        GbcBusView { regs: GbcBusRegs { serial_data: val, ..r }, ..b }
    } else if addr == 0xFF02 {
        GbcBusView { regs: GbcBusRegs { serial_control: val, ..r }, ..b }
    } else if 0xFF04 <= addr <= 0xFF07 {
        GbcBusView { timer: gbc_timer_write_spec(b.timer, addr, val), ..b }
    } else if addr == 0xFF0F {
        GbcBusView { regs: GbcBusRegs { iflag: val & 0x1F, ..r }, ..b }
    } else if 0xFF10 <= addr <= 0xFF3F {
        GbcBusView { apu: gbc_apu_write_spec(b.apu, addr, val), ..b }
    } else if addr == 0xFF46 {
        GbcBusView { regs: GbcBusRegs { dma_source: ((val as u16) << 8u16) as u16, dma_active: true, ..r }, ..b }
    } else if 0xFF40 <= addr <= 0xFF4B || 0xFF68 <= addr <= 0xFF6B {
        GbcBusView { ppu: gbc_write_io_spec(b.ppu, addr, val), ..b }
    } else if addr == 0xFF4D {
        GbcBusView { regs: GbcBusRegs { speed_switch_pending: val & 1 != 0, ..r }, ..b }
    } else if addr == 0xFF4F {
        GbcBusView { ppu: GbcPpuView { regs: GbcPpuRegs { vram_bank: val & 1, ..b.ppu.regs }, ..b.ppu }, ..b }
    } else if addr == 0xFF51 {
        GbcBusView { regs: GbcBusRegs { hdma_source: (r.hdma_source & 0x00FF) | ((val as u16) << 8u16), ..r }, ..b }
    } else if addr == 0xFF52 {
        GbcBusView { regs: GbcBusRegs { hdma_source: (r.hdma_source & 0xFF00) | ((val & 0xF0) as u16), ..r }, ..b }
    } else if addr == 0xFF53 {
        GbcBusView {
            regs: GbcBusRegs { hdma_dest: (r.hdma_dest & 0x00FF) | (((val & 0x1F) as u16) << 8u16), ..r },
            ..b
        }
    } else if addr == 0xFF54 {
        GbcBusView { regs: GbcBusRegs { hdma_dest: (r.hdma_dest & 0xFF00) | ((val & 0xF0) as u16), ..r }, ..b }
    } else if addr == 0xFF55 {
        hdma_start(b, val)
    } else if addr == 0xFF70 {
        GbcBusView { regs: GbcBusRegs { wram_bank: val & 0x07, ..r }, ..b }
    } else if 0xFF80 <= addr <= 0xFFFE {
        GbcBusView { hram: b.hram.update(addr - 0xFF80, val), ..b }
    } else if addr == 0xFFFF {
        GbcBusView { regs: GbcBusRegs { ie: val, ..r }, ..b }
    } else {
        b
    }
}

/// What `tick(cycles)` does: the timer, the PPU and the sound unit run,
/// their interrupt requests are raised in IF, and a pending OAM DMA copies
/// 160 bytes from `dma_source` into OAM.
pub open spec fn gbc_bus_tick_spec(b: GbcBusView, cycles: u32) -> GbcBusView {
    let (t, timer_irq) = gbc_timer_run(b.timer, cycles as nat);
    let (p, ppu_irqs) = gbc_tick_spec(b.ppu, cycles);
    let iflag = (if timer_irq { b.regs.iflag | 0x04 } else { b.regs.iflag }) | ppu_irqs;
    let b1 = GbcBusView {
        timer: t,
        ppu: p,
        apu: gbc_apu_tick_spec(b.apu, cycles),
        regs: GbcBusRegs { iflag, ..b.regs },
        ..b
    };
    if b1.regs.dma_active {
        GbcBusView {
            ppu: GbcPpuView {
                oam: Seq::new(160, |i: int| gbc_dma_read(b1, (b1.regs.dma_source + i) as u16)),
                ..b1.ppu
            },
            regs: GbcBusRegs { dma_active: false, ..b1.regs },
            ..b1
        }
    } else {
        b1
    }
}

impl Sm83Model for GbcBusView {
    open spec fn read_spec(&self, addr: u16) -> u8 {
        gbc_bus_read(*self, addr)
    }

    open spec fn write_spec(&self, addr: u16, val: u8) -> GbcBusView {
        gbc_bus_write(*self, addr, val)
    }
}

/// The controller a cartridge type uses.
pub open spec fn mbc_type_of(t: CartridgeType) -> MbcType {
    match t {
        CartridgeType::Mbc1 | CartridgeType::Mbc1Ram | CartridgeType::Mbc1RamBattery => MbcType::Mbc1,
        CartridgeType::Mbc3
        | CartridgeType::Mbc3Ram
        | CartridgeType::Mbc3RamBattery
        | CartridgeType::Mbc3TimerBattery
        | CartridgeType::Mbc3TimerRamBattery => MbcType::Mbc3,
        CartridgeType::Mbc5
        | CartridgeType::Mbc5Ram
        | CartridgeType::Mbc5RamBattery
        | CartridgeType::Mbc5Rumble
        | CartridgeType::Mbc5RumbleRam
        | CartridgeType::Mbc5RumbleRamBattery => MbcType::Mbc5,
        _ => MbcType::NoMbc,
    }
}

impl GbcBus {
    /// The bus at power-on around cartridge `cart`, with the controller its
    /// type calls for.
    pub fn new(cart: GbcCartridge) -> (b: Self)
        ensures
            gbc_bus_wf(b@),
            b@.rom == cart.rom@,
            b@.ram == cart.ram@,
            b.cart.cart_type == cart.cart_type,
            b.cart.is_cgb == cart.is_cgb,
            b.mbc.mbc_type == mbc_type_of(cart.cart_type),
            b.mbc.rom_bank == 1 && b.mbc.ram_bank == 0 && !b.mbc.ram_enabled && b.mbc.mode == 0,
            b.ppu.is_cgb == cart.is_cgb,
            b@.wram == Seq::new(0x8000, |i: int| 0u8),
            b@.hram == Seq::new(127, |i: int| 0u8),
            b.ie == 0 && b.iflag == 0 && b.wram_bank == 1,
            !b.dma_active && b.dma_byte == 0 && b.dma_source == 0,
            b.hdma_source == 0 && b.hdma_dest == 0 && b.hdma_length == 0xFF && !b.hdma_active,
            !b.double_speed && !b.speed_switch_pending && b.serial_data == 0 && b.serial_control == 0,
            b.input.buttons == 0x0F && b.input.dpad == 0x0F && b.input.select == 0x30,
            b.timer.div == 0 && b.timer.tima == 0 && b.timer.tma == 0 && b.timer.tac == 0,
    {
        let mbc_type = match cart.cart_type {
            CartridgeType::Mbc1 | CartridgeType::Mbc1Ram | CartridgeType::Mbc1RamBattery => MbcType::Mbc1,
            CartridgeType::Mbc3
            | CartridgeType::Mbc3Ram
            | CartridgeType::Mbc3RamBattery
            | CartridgeType::Mbc3TimerBattery
            | CartridgeType::Mbc3TimerRamBattery => MbcType::Mbc3,
            CartridgeType::Mbc5
            | CartridgeType::Mbc5Ram
            | CartridgeType::Mbc5RamBattery
            | CartridgeType::Mbc5Rumble
            | CartridgeType::Mbc5RumbleRam
            | CartridgeType::Mbc5RumbleRamBattery => MbcType::Mbc5,
            _ => MbcType::NoMbc,
        };
        let is_cgb = cart.is_cgb;
        let wram = vec![0u8; 0x8000];
        let hram = vec![0u8; 127];
        assert(wram@ =~= Seq::new(0x8000, |i: int| 0u8));
        assert(hram@ =~= Seq::new(127, |i: int| 0u8));
        GbcBus {
            cart,
            mbc: Mbc::new(mbc_type),
            ppu: GbcPpu::new(is_cgb),
            apu: GbcApu::new(),
            timer: GbcTimer::new(),
            input: GbcInput::new(),
            wram,
            hram,
            ie: 0,
            iflag: 0,
            wram_bank: 1,
            dma_active: false,
            dma_byte: 0,
            dma_source: 0,
            hdma_source: 0,
            hdma_dest: 0,
            hdma_length: 0xFF,
            hdma_active: false,
            double_speed: false,
            speed_switch_pending: false,
            serial_data: 0,
            serial_control: 0,
        }
    }

    /// A cartridge ROM read.
    fn rom_read(&self, addr: u16) -> (v: u8)
        requires
            addr <= 0x7FFF,
        ensures
            v == gbc_rom_read(self@, addr),
    {
        if (self.mbc.mbc_type == MbcType::Mbc3 || self.mbc.mbc_type == MbcType::Mbc5) && addr < 0x4000 {
            if (addr as usize) < self.cart.rom.len() {
                self.cart.rom[addr as usize]
            } else {
                0xFF
            }
        } else {
            self.mbc.read_rom(addr, self.cart.rom.as_slice())
        }
    }

    /// The work RAM offset of `addr` (0xC000-0xDFFF).
    fn wram_index(&self, addr: u16) -> (i: usize)
        requires
            0xC000 <= addr <= 0xDFFF,
            self.wram_bank < 8,
        ensures
            i == wram_offset(self@, addr),
            i < 0x8000,
    {
        if addr < 0xD000 {
            (addr - 0xC000) as usize
        } else {
            let bank: usize = if self.wram_bank == 0 { 1 } else { self.wram_bank as usize };
            bank * 0x1000 + (addr - 0xD000) as usize
        }
    }

    /// A read by the DMA engines.
    fn dma_read(&self, addr: u16) -> (v: u8)
        requires
            gbc_bus_wf(self@),
        ensures
            v == gbc_dma_read(self@, addr),
    {
        if addr <= 0x7FFF {
            self.rom_read(addr)
        } else if addr <= 0x9FFF {
            self.ppu.read_vram(addr)
        } else if addr <= 0xBFFF {
            self.mbc.read_ram(addr, self.cart.ram.as_slice())
        } else if addr <= 0xDFFF {
            self.wram[self.wram_index(addr)]
        } else {
            0xFF
        }
    }

    /// Raises the interrupt requests in `bit`.
    pub fn request_interrupt(&mut self, bit: u8)
        ensures
            final(self)@ == (GbcBusView { regs: GbcBusRegs { iflag: old(self).iflag | bit, ..old(self)@.regs }, ..old(self)@ }),
    {
        self.iflag = self.iflag | bit;
    }

    /// Advances the timer, PPU and sound unit by `cycles` and completes a
    /// pending OAM DMA.
    pub fn tick(&mut self, cycles: u32)
        requires
            gbc_bus_wf(old(self)@),
            gbc_tick_defined(old(self).ppu@, cycles),
        ensures
            final(self)@ =~~= gbc_bus_tick_spec(old(self)@, cycles),
            gbc_bus_wf(final(self)@),
    {
        let timer_irq = self.timer.tick(cycles);
        if timer_irq {
            self.iflag = self.iflag | 0x04;
        }
        let ppu_irqs = self.ppu.tick(cycles);
        self.iflag = self.iflag | ppu_irqs;
        self.apu.tick(cycles);
        if self.dma_active {
            let ghost b1 = self@;
            let mut i: u16 = 0;
            while i < 160
                invariant
                    i <= 160,
                    gbc_bus_wf(self@),
                    self.dma_source == b1.regs.dma_source,
                    self@ =~~= (GbcBusView {
                        ppu: GbcPpuView {
                            oam: Seq::new(160, |k: int| if k < i { gbc_dma_read(b1, (b1.regs.dma_source + k) as u16) } else { b1.ppu.oam[k] }),
                            ..b1.ppu
                        },
                        ..b1
                    }),
                decreases 160 - i,
            {
                let byte = self.dma_read(self.dma_source + i);
                self.ppu.oam.set(i as usize, byte);
                i = i + 1;
            }
            self.dma_active = false;
        }
    }
}

impl Sm83Bus for GbcBus {
    type Model = GbcBusView;

    open spec fn model(&self) -> GbcBusView {
        self@
    }

    open spec fn inv(&self) -> bool {
        gbc_bus_wf(self@)
    }

    fn read(&self, addr: u16) -> (v: u8) {
        if addr <= 0xDFFF {
            self.dma_read(addr)
        } else if addr <= 0xFDFF {
            self.wram[self.wram_index(addr - 0x2000)]
        } else if addr <= 0xFE9F {
            self.ppu.oam[(addr - 0xFE00) as usize]
        } else if addr <= 0xFEFF {
            0xFF
        } else if addr == 0xFF00 {
            self.input.read()
        } else if addr == 0xFF01 {
            self.serial_data
        } else if addr == 0xFF02 {
            self.serial_control
        } else if 0xFF04 <= addr && addr <= 0xFF07 {
            self.timer.read(addr)
        } else if addr == 0xFF0F {
            self.iflag | 0xE0
        } else if 0xFF10 <= addr && addr <= 0xFF3F {
            self.apu.read(addr)
        } else if (0xFF40 <= addr && addr <= 0xFF4B) || (0xFF68 <= addr && addr <= 0xFF6B) {
            self.ppu.read_io(addr)
        } else if addr == 0xFF4D {
            let speed_bit: u8 = if self.double_speed { 0x80 } else { 0 };
            let pending_bit: u8 = if self.speed_switch_pending { 0x01 } else { 0 };
            speed_bit | pending_bit
        } else if addr == 0xFF4F {
            self.ppu.vram_bank | 0xFE
        } else if addr == 0xFF51 {
            (self.hdma_source >> 8u16) as u8
        } else if addr == 0xFF52 {
            (self.hdma_source & 0xF0) as u8
        } else if addr == 0xFF53 {
            (self.hdma_dest >> 8u16) as u8
        } else if addr == 0xFF54 {
            (self.hdma_dest & 0xF0) as u8
        } else if addr == 0xFF55 {
            if self.hdma_active {
                self.hdma_length
            } else {
                0x80 | self.hdma_length
            }
        } else if addr == 0xFF70 {
            self.wram_bank | 0xF8
        } else if 0xFF80 <= addr && addr <= 0xFFFE {
            self.hram[(addr - 0xFF80) as usize]
        } else if addr == 0xFFFF {
            self.ie
        } else {
            0xFF
        }
    }

    fn write(&mut self, addr: u16, val: u8) {
        if addr <= 0xFEFF {
            self.write_memory(addr, val);
        } else {
            self.write_io(addr, val);
        }
    }
}

impl GbcBus {
    /// A write below the I/O page.
    fn write_memory(&mut self, addr: u16, val: u8)
        requires
            gbc_bus_wf(old(self)@),
            addr <= 0xFEFF,
        ensures
            final(self)@ == gbc_mem_write(old(self)@, addr, val),
            gbc_bus_wf(final(self)@),
    {
        if addr <= 0x7FFF {
            self.mbc.write_register(addr, val);
        } else if addr <= 0x9FFF {
            self.write_vram_byte(addr, val);
        } else if addr <= 0xBFFF {
            self.write_cart_ram(addr, val);
        } else if addr <= 0xFDFF {
            self.write_wram(addr, val);
        } else if addr <= 0xFE9F {
            self.write_oam(addr, val);
        }
    }

    fn write_vram_byte(&mut self, addr: u16, val: u8)
        requires
            gbc_bus_wf(old(self)@),
            0x8000 <= addr <= 0x9FFF,
        ensures
            final(self)@ == gbc_mem_write(old(self)@, addr, val),
            gbc_bus_wf(final(self)@),
    {
        self.ppu.write_vram(addr, val);
    }

    fn write_cart_ram(&mut self, addr: u16, val: u8)
        requires
            gbc_bus_wf(old(self)@),
            0xA000 <= addr <= 0xBFFF,
        ensures
            final(self)@ == gbc_mem_write(old(self)@, addr, val),
            gbc_bus_wf(final(self)@),
    {
        let mut mbc = self.mbc;
        let mut ram: Vec<u8> = Vec::new();
        std::mem::swap(&mut ram, &mut self.cart.ram);
        mbc.write_ram(addr, val, ram.as_mut_slice());
        self.cart.ram = ram;
        self.mbc = mbc;
    }

    fn write_wram(&mut self, addr: u16, val: u8)
        requires
            gbc_bus_wf(old(self)@),
            0xC000 <= addr <= 0xFDFF,
        ensures
            final(self)@ == gbc_mem_write(old(self)@, addr, val),
            gbc_bus_wf(final(self)@),
    {
        let a = if addr <= 0xDFFF { addr } else { addr - 0x2000 };
        let i = self.wram_index(a);
        self.wram.set(i, val);
    }

    fn write_oam(&mut self, addr: u16, val: u8)
        requires
            gbc_bus_wf(old(self)@),
            0xFE00 <= addr <= 0xFE9F,
        ensures
            final(self)@ == gbc_mem_write(old(self)@, addr, val),
            gbc_bus_wf(final(self)@),
    {
        self.ppu.oam.set((addr - 0xFE00) as usize, val);
    }

    /// A write to the I/O page or high RAM.
    #[verifier::rlimit(100)]
    fn write_io(&mut self, addr: u16, val: u8)
        requires
            gbc_bus_wf(old(self)@),
            addr >= 0xFF00,
        ensures
            final(self)@ =~~= gbc_io_write(old(self)@, addr, val),
            gbc_bus_wf(final(self)@),
    {
        if addr == 0xFF00 {
            self.input.write(val);
            assert(self@ =~~= gbc_io_write(old(self)@, addr, val));
        } else if addr == 0xFF01 {
            self.serial_data = val;
            assert(self@ =~~= gbc_io_write(old(self)@, addr, val));
        } else if addr == 0xFF02 {
            self.serial_control = val;
            assert(self@ =~~= gbc_io_write(old(self)@, addr, val));
        } else if 0xFF04 <= addr && addr <= 0xFF07 {
            self.timer.write(addr, val);
            assert(self@ =~~= gbc_io_write(old(self)@, addr, val));
        } else if addr == 0xFF0F {
            self.iflag = val & 0x1F;
            assert(self@ =~~= gbc_io_write(old(self)@, addr, val));
        } else if 0xFF10 <= addr && addr <= 0xFF3F {
            self.apu.write(addr, val);
            assert(self@ =~~= gbc_io_write(old(self)@, addr, val));
        } else if addr == 0xFF46 {
            assert((val as u16) << 8u16 <= 0xFF00) by (bit_vector);
            self.dma_source = (val as u16) << 8u16;
            self.dma_active = true;
            assert(self@ =~~= gbc_io_write(old(self)@, addr, val));
        } else if (0xFF40 <= addr && addr <= 0xFF4B) || (0xFF68 <= addr && addr <= 0xFF6B) {
            self.ppu.write_io(addr, val);
            assert(self@ =~~= gbc_io_write(old(self)@, addr, val));
        } else if addr == 0xFF4D {
            self.speed_switch_pending = val & 1 != 0;
            assert(self@ =~~= gbc_io_write(old(self)@, addr, val));
        } else if addr == 0xFF4F {
            self.ppu.vram_bank = val & 1;
            assert(self@ =~~= gbc_io_write(old(self)@, addr, val));
        } else if addr == 0xFF51 {
            self.hdma_source = (self.hdma_source & 0x00FF) | ((val as u16) << 8u16);
            assert(self@ =~~= gbc_io_write(old(self)@, addr, val));
        } else if addr == 0xFF52 {
            self.hdma_source = (self.hdma_source & 0xFF00) | ((val & 0xF0) as u16);
            assert(self@ =~~= gbc_io_write(old(self)@, addr, val));
        } else if addr == 0xFF53 {
            self.hdma_dest = (self.hdma_dest & 0x00FF) | (((val & 0x1F) as u16) << 8u16);
            assert(self@ =~~= gbc_io_write(old(self)@, addr, val));
        } else if addr == 0xFF54 {
            self.hdma_dest = (self.hdma_dest & 0xFF00) | ((val & 0xF0) as u16);
            assert(self@ =~~= gbc_io_write(old(self)@, addr, val));
        } else if addr == 0xFF55 {
            self.start_hdma(val);
            assert(self@ =~~= gbc_io_write(old(self)@, addr, val));
        } else if addr == 0xFF70 {
            assert(val & 0x07 < 8) by {
                crate::bits::lemma_and_le_u8(val, 0x07);
            }
            self.wram_bank = val & 0x07;
            assert(self@ =~~= gbc_io_write(old(self)@, addr, val));
        } else if 0xFF80 <= addr && addr <= 0xFFFE {
            self.hram.set((addr - 0xFF80) as usize, val);
            assert(self@ =~~= gbc_io_write(old(self)@, addr, val));
        } else if addr == 0xFFFF {
            self.ie = val;
            assert(self@ =~~= gbc_io_write(old(self)@, addr, val));
        }
    }

    /// A write of HDMA5.
    fn start_hdma(&mut self, val: u8)
        requires
            gbc_bus_wf(old(self)@),
        ensures
            final(self)@ =~~= hdma_start(old(self)@, val),
            gbc_bus_wf(final(self)@),
    {
        self.hdma_length = val & 0x7F;
        self.hdma_active = val & 0x80 == 0;
        if self.hdma_active {
            let len: u16 = ((self.hdma_length as u16) + 1) * 16;
            self.hdma_transfer(len);
            self.hdma_source = self.hdma_source.wrapping_add(len);
            self.hdma_dest = self.hdma_dest.wrapping_add(len);
            self.hdma_length = 0xFF;
            self.hdma_active = false;
        }
    }

    /// Copies `len` bytes from `hdma_source` into VRAM at `hdma_dest`.
    fn hdma_transfer(&mut self, len: u16)
        requires
            gbc_bus_wf(old(self)@),
        ensures
            final(self)@ =~~= hdma_copy(old(self)@, old(self).hdma_source, old(self).hdma_dest, len as nat, 0),
            gbc_bus_wf(final(self)@),
            final(self)@.regs == old(self)@.regs,
    {
        let ghost b0 = self@;
        let mut i: u16 = 0;
        while i < len
            invariant
                i <= len,
                gbc_bus_wf(self@),
                self@.regs == b0.regs,
                hdma_copy(self@, b0.regs.hdma_source, b0.regs.hdma_dest, len as nat, i as nat) =~~= hdma_copy(
                    b0,
                    b0.regs.hdma_source,
                    b0.regs.hdma_dest,
                    len as nat,
                    0,
                ),
            decreases len - i,
        {
            let src = self.hdma_source.wrapping_add(i);
            let byte = self.dma_read(src);
            let d = self.hdma_dest.wrapping_add(i);
            assert(d & 0x1FFF <= 0x1FFF) by {
                crate::bits::lemma_and_le_u16(d, 0x1FFF);
            }
            let dst = 0x8000 + (d & 0x1FFF);
            let ghost before = self@;
            self.ppu.write_vram(dst, byte);
            assert(self@ =~~= vram_write(before, dst, byte));
            i = i + 1;
        }
    }
}

/// Work RAM, its echo at 0xE000-0xFDFF, OAM and high RAM give back what was
/// last written to them, at the same address and, for work RAM, through the
/// echo.
pub proof fn lemma_gbc_ram_write_then_read(b: GbcBusView, addr: u16, val: u8)
    requires
        gbc_bus_wf(b),
        0xC000 <= addr <= 0xFE9F || 0xFF80 <= addr <= 0xFFFE,
    ensures
        gbc_bus_read(gbc_bus_write(b, addr, val), addr) == val,
        0xC000 <= addr <= 0xDDFF ==> gbc_bus_read(gbc_bus_write(b, addr, val), (addr + 0x2000) as u16)
            == val,
        0xE000 <= addr <= 0xFDFF ==> gbc_bus_read(gbc_bus_write(b, addr, val), (addr - 0x2000) as u16)
            == val,
{
}

} // verus!
