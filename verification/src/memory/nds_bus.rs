use vstd::prelude::*;

use crate::cpu::arm7tdmi::{Arm7Bus, BusModel};
use crate::emulator::nds::{section_fits, NdsRomHeader};
use crate::input::{NdsInput, NdsKey};
use crate::text::{dec_digits, hex_digits, hex_padded, push_hex, push_hex_padded};

verus! {

pub const ARM7_BIOS_SIZE: usize = 0x4000;
pub const ARM9_BIOS_SIZE: usize = 0x8000;
pub const IO_SIZE: usize = 0x1000;
pub const ARM9_BIOS_BASE: u32 = 0xFFFF_0000;
pub const MAIN_RAM_BASE: u32 = 0x0200_0000;
pub const MAIN_RAM_SIZE: usize = 0x40_0000;
pub const SHARED_WRAM_BASE: u32 = 0x0300_0000;
pub const SHARED_WRAM_SIZE: usize = 0x8000;
pub const ARM7_WRAM_BASE: u32 = 0x0380_0000;
pub const ARM7_WRAM_SIZE: usize = 0x1_0000;
pub const PALETTE_BASE: u32 = 0x0500_0000;
pub const PALETTE_SIZE: usize = 0x1000;
pub const VRAM_BASE: u32 = 0x0600_0000;
pub const VRAM_SIZE: usize = 0x000A_4000;
pub const OAM_BASE: u32 = 0x0700_0000;
pub const OAM_SIZE: usize = 0x1000;
pub const CART_BASE: u32 = 0x0800_0000;
pub const IO_BASE: u32 = 0x0400_0000;
pub const REG_KEYINPUT: u32 = 0x0400_0130;
pub const REG_EXTKEYIN: u32 = 0x0400_0136;
pub const REG_IME: u32 = 0x0400_0208;
pub const REG_IE: u32 = 0x0400_0210;
pub const REG_IF: u32 = 0x0400_0214;
pub const REG_POSTFLG: u32 = 0x0400_0300;
pub const REG_HALTCNT: u32 = 0x0400_0301;

/// The memories of the Nintendo DS that programs are loaded into.
pub struct NdsMemory {
    pub main_ram: Vec<u8>,
    pub shared_wram: Vec<u8>,
    pub arm7_wram: Vec<u8>,
    pub vram: Vec<u8>,
    pub palette: Vec<u8>,
    pub oam: Vec<u8>,
}

/// The memories as sequences.
#[verifier::ext_equal]
pub struct NdsMemoryView {
    pub main_ram: Seq<u8>,
    pub shared_wram: Seq<u8>,
    pub arm7_wram: Seq<u8>,
    pub vram: Seq<u8>,
    pub palette: Seq<u8>,
    pub oam: Seq<u8>,
}

impl View for NdsMemory {
    type V = NdsMemoryView;

    open spec fn view(&self) -> NdsMemoryView {
        NdsMemoryView {
            main_ram: self.main_ram@,
            shared_wram: self.shared_wram@,
            arm7_wram: self.arm7_wram@,
            vram: self.vram@,
            palette: self.palette@,
            oam: self.oam@,
        }
    }
}

/// Each memory has its size.
pub open spec fn nds_memory_wf(m: NdsMemoryView) -> bool {
    &&& m.main_ram.len() == MAIN_RAM_SIZE
    &&& m.shared_wram.len() == SHARED_WRAM_SIZE
    &&& m.arm7_wram.len() == ARM7_WRAM_SIZE
    &&& m.vram.len() == VRAM_SIZE
    &&& m.palette.len() == PALETTE_SIZE
    &&& m.oam.len() == OAM_SIZE
}

/// `region` with `data` copied in at `offset`.
pub open spec fn splice(region: Seq<u8>, offset: int, data: Seq<u8>) -> Seq<u8> {
    region.subrange(0, offset) + data + region.subrange(offset + data.len(), region.len() as int)
}

/// The message for a program that does not fit its region.
pub open spec fn no_fit_message(name: Seq<char>, base: u32, end: nat, len: nat) -> Seq<char> {
    name + " program does not fit in region starting at 0x"@ + hex_padded(base as nat, 8) + ": end offset 0x"@
        + hex_digits(end) + ", region size 0x"@ + hex_digits(len)
}

/// The message for a load address outside the modelled regions.
pub open spec fn outside_message(name: Seq<char>, addr: u32) -> Seq<char> {
    name + " RAM destination 0x"@ + hex_padded(addr as nat, 8)
        + " is outside the currently modelled NDS memory regions"@
}

/// A copy of `data` to `ram_address` in the region based at `base`: the
/// region with the data in place, or the message when it does not fit.
pub open spec fn copy_spec(name: Seq<char>, ram_address: u32, data: Seq<u8>, base: u32, region: Seq<u8>) -> Result<
    Seq<u8>,
    Seq<char>,
> {
    let offset = ram_address - base;
    let end = offset + data.len();
    if end > region.len() {
        Err(no_fit_message(name, base, end as nat, region.len()))
    } else {
        Ok(splice(region, offset, data))
    }
}

/// Which region a load address falls in: 0 main RAM, 1 shared WRAM, 2 ARM7
/// WRAM, 3 none.
pub open spec fn load_region(ram_address: u32) -> int {
    if MAIN_RAM_BASE <= ram_address < MAIN_RAM_BASE + MAIN_RAM_SIZE {
        0
    } else if SHARED_WRAM_BASE <= ram_address < SHARED_WRAM_BASE + SHARED_WRAM_SIZE {
        1
    } else if ARM7_WRAM_BASE <= ram_address < ARM7_WRAM_BASE + ARM7_WRAM_SIZE {
        2
    } else {
        3
    }
}

/// What loading `data` to `ram_address` does: the memories afterwards, or
/// the error.
pub open spec fn load_section_spec(m: NdsMemoryView, name: Seq<char>, ram_address: u32, data: Seq<u8>) -> Result<
    NdsMemoryView,
    Seq<char>,
> {
    let r = load_region(ram_address);
    if r == 0 {
        match copy_spec(name, ram_address, data, MAIN_RAM_BASE, m.main_ram) {
            Ok(x) => Ok(NdsMemoryView { main_ram: x, ..m }),
            Err(e) => Err(e),
        }
    } else if r == 1 {
        match copy_spec(name, ram_address, data, SHARED_WRAM_BASE, m.shared_wram) {
            Ok(x) => Ok(NdsMemoryView { shared_wram: x, ..m }),
            Err(e) => Err(e),
        }
    } else if r == 2 {
        match copy_spec(name, ram_address, data, ARM7_WRAM_BASE, m.arm7_wram) {
            Ok(x) => Ok(NdsMemoryView { arm7_wram: x, ..m }),
            Err(e) => Err(e),
        }
    } else {
        Err(outside_message(name, ram_address))
    }
}

/// The ROM bytes of a program section.
pub open spec fn section_bytes(rom: Seq<u8>, offset: u32, size: u32) -> Seq<u8> {
    rom.subrange(offset as int, offset + size)
}

/// Loading both program sections: ARM9 first, then ARM7; the first error stops.
pub open spec fn load_programs_spec(m: NdsMemoryView, rom: Seq<u8>, h: NdsRomHeader) -> Result<
    NdsMemoryView,
    Seq<char>,
> {
    match load_section_spec(m, "ARM9"@, h.arm9_ram_address, section_bytes(rom, h.arm9_rom_offset, h.arm9_size)) {
        Ok(m1) => load_section_spec(
            m1,
            "ARM7"@,
            h.arm7_ram_address,
            section_bytes(rom, h.arm7_rom_offset, h.arm7_size),
        ),
        Err(e) => Err(e),
    }
}

impl NdsMemory {
    /// All memories cleared.
    pub fn new() -> (m: Self)
        ensures
            nds_memory_wf(m@),
            m@.main_ram == Seq::new(MAIN_RAM_SIZE as nat, |i: int| 0u8),
            m@.shared_wram == Seq::new(SHARED_WRAM_SIZE as nat, |i: int| 0u8),
            m@.arm7_wram == Seq::new(ARM7_WRAM_SIZE as nat, |i: int| 0u8),
            m@.vram == Seq::new(VRAM_SIZE as nat, |i: int| 0u8),
            m@.palette == Seq::new(PALETTE_SIZE as nat, |i: int| 0u8),
            m@.oam == Seq::new(OAM_SIZE as nat, |i: int| 0u8),
    {
        let m = NdsMemory {
            main_ram: vec![0u8; MAIN_RAM_SIZE],
            shared_wram: vec![0u8; SHARED_WRAM_SIZE],
            arm7_wram: vec![0u8; ARM7_WRAM_SIZE],
            vram: vec![0u8; VRAM_SIZE],
            palette: vec![0u8; PALETTE_SIZE],
            oam: vec![0u8; OAM_SIZE],
        };
        assert(m@.main_ram =~= Seq::new(MAIN_RAM_SIZE as nat, |i: int| 0u8));
        assert(m@.shared_wram =~= Seq::new(SHARED_WRAM_SIZE as nat, |i: int| 0u8));
        assert(m@.arm7_wram =~= Seq::new(ARM7_WRAM_SIZE as nat, |i: int| 0u8));
        assert(m@.vram =~= Seq::new(VRAM_SIZE as nat, |i: int| 0u8));
        assert(m@.palette =~= Seq::new(PALETTE_SIZE as nat, |i: int| 0u8));
        assert(m@.oam =~= Seq::new(OAM_SIZE as nat, |i: int| 0u8));
        m
    }

    /// Copies the ARM9 and then the ARM7 program of `rom` to the RAM
    /// addresses the header gives.
    pub fn load_program_sections(&mut self, rom: &[u8], header: &NdsRomHeader) -> (r: Result<(), String>)
        requires
            nds_memory_wf(old(self)@),
            section_fits(header.arm9_rom_offset, header.arm9_size, rom@.len()),
            section_fits(header.arm7_rom_offset, header.arm7_size, rom@.len()),
        ensures
            nds_memory_wf(final(self)@),
            match load_programs_spec(old(self)@, rom@, *header) {
                Ok(m) => r is Ok && final(self)@ == m,
                Err(e) => r matches Err(msg) && msg@ == e,
            },
    {
        let arm9_start = header.arm9_rom_offset as usize;
        let arm9_end = (header.arm9_rom_offset + header.arm9_size) as usize;
        let arm7_start = header.arm7_rom_offset as usize;
        let arm7_end = (header.arm7_rom_offset + header.arm7_size) as usize;
        let r9 = self.load_section("ARM9", header.arm9_ram_address, slice_range(rom, arm9_start, arm9_end));
        match r9 {
            Ok(()) => {},
            Err(e) => {
                return Err(e);
            },
        }
        self.load_section("ARM7", header.arm7_ram_address, slice_range(rom, arm7_start, arm7_end))
    }

    /// Copies `data` to `ram_address`, in whichever RAM region holds it.
    fn load_section(&mut self, name: &str, ram_address: u32, data: &[u8]) -> (r: Result<(), String>)
        requires
            nds_memory_wf(old(self)@),
            data@.len() <= u32::MAX,
        ensures
            nds_memory_wf(final(self)@),
            match load_section_spec(old(self)@, name@, ram_address, data@) {
                Ok(m) => r is Ok && final(self)@ == m,
                Err(e) => r matches Err(msg) && msg@ == e && final(self)@ == old(self)@,
            },
    {
        if ram_address >= MAIN_RAM_BASE && ram_address < MAIN_RAM_BASE + MAIN_RAM_SIZE as u32 {
            return copy_to_region(name, ram_address, data, MAIN_RAM_BASE, &mut self.main_ram);
        }
        if ram_address >= SHARED_WRAM_BASE && ram_address < SHARED_WRAM_BASE + SHARED_WRAM_SIZE as u32 {
            return copy_to_region(name, ram_address, data, SHARED_WRAM_BASE, &mut self.shared_wram);
        }
        if ram_address >= ARM7_WRAM_BASE && ram_address < ARM7_WRAM_BASE + ARM7_WRAM_SIZE as u32 {
            return copy_to_region(name, ram_address, data, ARM7_WRAM_BASE, &mut self.arm7_wram);
        }
        let mut msg = String::new();
        msg.push_str(name);
        msg.push_str(" RAM destination 0x");
        push_hex_padded(&mut msg, ram_address as u64, 8);
        msg.push_str(" is outside the currently modelled NDS memory regions");
        proof {
            reveal_strlit(" RAM destination 0x");
            reveal_strlit(" is outside the currently modelled NDS memory regions");
        }
        assert(msg@ =~= outside_message(name@, ram_address));
        Err(msg)
    }
}

/// `data[start..end]`.
fn slice_range(data: &[u8], start: usize, end: usize) -> (s: &[u8])
    requires
        start <= end <= data@.len(),
    ensures
        s@ == data@.subrange(start as int, end as int),
{
    vstd::slice::slice_subrange(data, start, end)
}

/// Copies `data` into `region` at `ram_address - base`, or reports that it
/// does not fit.
fn copy_to_region(name: &str, ram_address: u32, data: &[u8], base: u32, region: &mut Vec<u8>) -> (r: Result<
    (),
    String,
>)
    requires
        base <= ram_address,
        old(region)@.len() <= 0x40_0000,
        data@.len() <= u32::MAX,
    ensures
        match copy_spec(name@, ram_address, data@, base, old(region)@) {
            Ok(x) => r is Ok && final(region)@ == x,
            Err(e) => r matches Err(msg) && msg@ == e && final(region)@ == old(region)@,
        },
{
    let offset = (ram_address - base) as usize;
    if data.len() > region.len() || offset > region.len() - data.len() {
        let end = offset as u64 + data.len() as u64;
        let mut msg = String::new();
        msg.push_str(name);
        msg.push_str(" program does not fit in region starting at 0x");
        push_hex_padded(&mut msg, base as u64, 8);
        msg.push_str(": end offset 0x");
        push_hex(&mut msg, end);
        msg.push_str(", region size 0x");
        push_hex(&mut msg, region.len() as u64);
        proof {
            reveal_strlit(" program does not fit in region starting at 0x");
            reveal_strlit(": end offset 0x");
            reveal_strlit(", region size 0x");
        }
        assert(msg@ =~= no_fit_message(name@, base, end as nat, region@.len()));
        return Err(msg);
    }
    let ghost r0 = region@;
    let mut i: usize = 0;
    while i < data.len()
        invariant
            offset + data@.len() <= region@.len(),
            region@.len() == r0.len(),
            r0.len() <= 0x40_0000,
            i <= data@.len(),
            forall|k: int| 0 <= k < offset ==> region@[k] == r0[k],
            forall|k: int| offset + data@.len() <= k < r0.len() ==> region@[k] == r0[k],
            forall|k: int| 0 <= k < i ==> region@[offset + k] == data@[k],
            forall|k: int| offset + i <= k < offset + data@.len() ==> region@[k] == r0[k],
        decreases data.len() - i,
    {
        region.set(offset + i, data[i]);
        i = i + 1;
    }
    assert(region@ =~= splice(r0, offset as int, data@));
    Ok(())
}

/// The registers of the two processors' interrupt and power control.
#[derive(Clone, Copy)]
pub struct NdsRegs {
    pub ie: u32,
    pub iflag: u32,
    pub ime: bool,
    pub halt: bool,
    pub postflg: u8,
    pub last_bios_value: u32,
    pub cycles: u64,
    pub arm9_ie: u32,
    pub arm9_iflag: u32,
    pub arm9_ime: bool,
    pub arm9_halt: bool,
    pub arm9_postflg: u8,
    pub arm9_last_bios_value: u32,
    pub arm9_cycles: u64,
}

/// The memory bus of the Nintendo DS, shared by both processors; as an
/// `Arm7Bus` it is the ARM7's view, `arm9_view` gives the ARM9's.
pub struct NdsBus {
    pub input: NdsInput,
    pub memory: NdsMemory,
    pub io: Vec<u8>,
    pub bios7: Vec<u8>,
    pub bios9: Vec<u8>,
    pub cartridge_rom: Vec<u8>,
    pub ie: u32,
    pub iflag: u32,
    pub ime: bool,
    pub halt: bool,
    pub postflg: u8,
    pub last_bios_value: u32,
    pub cycles: u64,
    pub arm9_ie: u32,
    pub arm9_iflag: u32,
    pub arm9_ime: bool,
    pub arm9_halt: bool,
    pub arm9_postflg: u8,
    pub arm9_last_bios_value: u32,
    pub arm9_cycles: u64,
}

/// The bus as values.
#[verifier::ext_equal]
pub struct NdsBusView {
    pub mem: NdsMemoryView,
    pub io: Seq<u8>,
    pub bios7: Seq<u8>,
    pub bios9: Seq<u8>,
    pub rom: Seq<u8>,
    pub input: NdsInput,
    pub regs: NdsRegs,
}

impl View for NdsBus {
    type V = NdsBusView;

    open spec fn view(&self) -> NdsBusView {
        NdsBusView {
            mem: self.memory@,
            io: self.io@,
            bios7: self.bios7@,
            bios9: self.bios9@,
            rom: self.cartridge_rom@,
            input: self.input,
            regs: NdsRegs {
                ie: self.ie,
                iflag: self.iflag,
                ime: self.ime,
                halt: self.halt,
                postflg: self.postflg,
                last_bios_value: self.last_bios_value,
                cycles: self.cycles,
                arm9_ie: self.arm9_ie,
                arm9_iflag: self.arm9_iflag,
                arm9_ime: self.arm9_ime,
                arm9_halt: self.arm9_halt,
                arm9_postflg: self.arm9_postflg,
                arm9_last_bios_value: self.arm9_last_bios_value,
                arm9_cycles: self.arm9_cycles,
            },
        }
    }
}

/// The sizes the bus memories keep.
pub open spec fn nds_bus_wf(b: NdsBusView) -> bool {
    &&& nds_memory_wf(b.mem)
    &&& b.io.len() == IO_SIZE
    &&& b.bios7.len() == ARM7_BIOS_SIZE
    &&& b.bios9.len() == ARM9_BIOS_SIZE
}

/// Byte `k` (0-3) of `w`.
pub open spec fn byte_of32(w: u32, k: int) -> u8 {
    ((w >> ((k * 8) as u32)) & 0xFF) as u8
}

/// A word with byte `k` replaced by `v`.
pub open spec fn set_byte_of32(w: u32, k: int, v: u8) -> u32 {
    (w & !(0xFFu32 << ((k * 8) as u32))) | ((v as u32) << ((k * 8) as u32))
}

/// A cartridge byte: 0xFF past the end of the ROM.
pub open spec fn cart_byte(rom: Seq<u8>, addr: u32) -> u8 {
    let off = addr - CART_BASE;
    if off < rom.len() {
        rom[off]
    } else {
        0xFF
    }
}

/// An I/O register byte common to both processors' views: IME, IE, IF,
/// POSTFLG and HALTCNT from the given registers; others from the I/O area.
pub open spec fn io_common(io: Seq<u8>, ime: bool, ie: u32, iflag: u32, postflg: u8, halt: bool, addr: u32) -> u8 {
    if addr == REG_IME {
        if ime {
            1
        } else {
            0
        }
    } else if REG_IME < addr <= REG_IME + 3 {
        0
    } else if REG_IE <= addr <= REG_IE + 3 {
        byte_of32(ie, addr - REG_IE)
    } else if REG_IF <= addr <= REG_IF + 3 {
        byte_of32(iflag, addr - REG_IF)
    } else if addr == REG_POSTFLG {
        postflg
    } else if addr == REG_HALTCNT {
        if halt {
            0x80
        } else {
            0
        }
    } else {
        io[addr - IO_BASE]
    }
}

/// An I/O byte as the ARM7 reads it: the key registers, then the common ones.
pub open spec fn io_read7(b: NdsBusView, addr: u32) -> u8 {
    let r = b.regs;
    if addr == REG_KEYINPUT {
        b.input.keyinput as u8
    } else if addr == REG_KEYINPUT + 1 {
        (b.input.keyinput >> 8u16) as u8
    } else if addr == REG_EXTKEYIN {
        b.input.extkeyin as u8
    } else if addr == REG_EXTKEYIN + 1 {
        (b.input.extkeyin >> 8u16) as u8
    } else {
        io_common(b.io, r.ime, r.ie, r.iflag, r.postflg, r.halt, addr)
    }
}

/// An I/O byte as the ARM9 reads it.
pub open spec fn io_read9(b: NdsBusView, addr: u32) -> u8 {
    let r = b.regs;
    io_common(b.io, r.arm9_ime, r.arm9_ie, r.arm9_iflag, r.arm9_postflg, r.arm9_halt, addr)
}

/// What a byte read by the ARM7 returns: BIOS, RAMs, I/O, palette, VRAM,
/// OAM, cartridge; 0 elsewhere.
pub open spec fn nds_read7(b: NdsBusView, addr: u32) -> u8 {
    let m = b.mem;
    if addr <= 0x3FFF {
        b.bios7[addr as int]
    } else if MAIN_RAM_BASE <= addr <= 0x023F_FFFF {
        m.main_ram[addr - MAIN_RAM_BASE]
    } else if SHARED_WRAM_BASE <= addr <= 0x0300_7FFF {
        m.shared_wram[addr - SHARED_WRAM_BASE]
    } else if ARM7_WRAM_BASE <= addr <= 0x0380_FFFF {
        m.arm7_wram[addr - ARM7_WRAM_BASE]
    } else if IO_BASE <= addr <= 0x0400_0FFF {
        io_read7(b, addr)
    } else if PALETTE_BASE <= addr <= 0x0500_0FFF {
        m.palette[addr - PALETTE_BASE]
    } else if VRAM_BASE <= addr <= 0x060A_3FFF {
        m.vram[addr - VRAM_BASE]
    } else if OAM_BASE <= addr <= 0x0700_03FF {
        m.oam[addr - OAM_BASE]
    } else if CART_BASE <= addr <= 0x09FF_FFFF {
        cart_byte(b.rom, addr)
    } else {
        0
    }
}

/// What a byte read by the ARM9 returns: RAMs, I/O, palette, VRAM, OAM,
/// cartridge, BIOS at 0xFFFF0000; 0 elsewhere.
pub open spec fn nds_read9(b: NdsBusView, addr: u32) -> u8 {
    let m = b.mem;
    if MAIN_RAM_BASE <= addr <= 0x023F_FFFF {
        m.main_ram[addr - MAIN_RAM_BASE]
    } else if SHARED_WRAM_BASE <= addr <= 0x0300_7FFF {
        m.shared_wram[addr - SHARED_WRAM_BASE]
    } else if IO_BASE <= addr <= 0x0400_0FFF {
        io_read9(b, addr)
    } else if PALETTE_BASE <= addr <= 0x0500_0FFF {
        m.palette[addr - PALETTE_BASE]
    } else if VRAM_BASE <= addr <= 0x060A_3FFF {
        m.vram[addr - VRAM_BASE]
    } else if OAM_BASE <= addr <= 0x0700_03FF {
        m.oam[addr - OAM_BASE]
    } else if CART_BASE <= addr <= 0x09FF_FFFF {
        cart_byte(b.rom, addr)
    } else if ARM9_BIOS_BASE <= addr <= 0xFFFF_7FFF {
        b.bios9[addr - ARM9_BIOS_BASE]
    } else {
        0
    }
}

/// The shared RAM regions after a byte write (both processors).
pub open spec fn mem_write(m: NdsMemoryView, addr: u32, v: u8) -> NdsMemoryView {
    if MAIN_RAM_BASE <= addr <= 0x023F_FFFF {
        NdsMemoryView { main_ram: m.main_ram.update(addr - MAIN_RAM_BASE, v), ..m }
    } else if SHARED_WRAM_BASE <= addr <= 0x0300_7FFF {
        NdsMemoryView { shared_wram: m.shared_wram.update(addr - SHARED_WRAM_BASE, v), ..m }
    } else if PALETTE_BASE <= addr <= 0x0500_0FFF {
        NdsMemoryView { palette: m.palette.update(addr - PALETTE_BASE, v), ..m }
    } else if VRAM_BASE <= addr <= 0x060A_3FFF {
        NdsMemoryView { vram: m.vram.update(addr - VRAM_BASE, v), ..m }
    } else if OAM_BASE <= addr <= 0x0700_03FF {
        NdsMemoryView { oam: m.oam.update(addr - OAM_BASE, v), ..m }
    } else {
        m
    }
}

/// The interrupt and power registers (one processor's set) after an I/O
/// byte write: IME bit 0, IE bytes, IF acknowledge (set bits clear),
/// POSTFLG, HALTCNT bit 7. `None` when `addr` is none of them.
pub open spec fn irq_write(ime: bool, ie: u32, iflag: u32, postflg: u8, halt: bool, addr: u32, v: u8) -> Option<
    (bool, u32, u32, u8, bool),
> {
    if addr == REG_IME {
        Some((v & 1 != 0, ie, iflag, postflg, halt))
    } else if REG_IE <= addr <= REG_IE + 3 {
        Some((ime, set_byte_of32(ie, addr - REG_IE, v), iflag, postflg, halt))
    } else if REG_IF <= addr <= REG_IF + 3 {
        Some((ime, ie, iflag & !((v as u32) << (((addr - REG_IF) * 8) as u32)), postflg, halt))
    } else if addr == REG_POSTFLG {
        Some((ime, ie, iflag, v, halt))
    } else if addr == REG_HALTCNT {
        Some((ime, ie, iflag, postflg, v & 0x80 != 0))
    } else {
        None
    }
}

/// The bus after an ARM7 byte write.
pub open spec fn nds_write7(b: NdsBusView, addr: u32, v: u8) -> NdsBusView {
    let r = b.regs;
    if ARM7_WRAM_BASE <= addr <= 0x0380_FFFF {
        NdsBusView { mem: NdsMemoryView { arm7_wram: b.mem.arm7_wram.update(addr - ARM7_WRAM_BASE, v), ..b.mem }, ..b }
    } else if IO_BASE <= addr <= 0x0400_0FFF {
        match irq_write(r.ime, r.ie, r.iflag, r.postflg, r.halt, addr, v) {
            Some((ime, ie, iflag, postflg, halt)) => NdsBusView {
                regs: NdsRegs { ime, ie, iflag, postflg, halt, ..r },
                ..b
            },
            None => NdsBusView { io: b.io.update(addr - IO_BASE, v), ..b },
        }
    } else {
        NdsBusView { mem: mem_write(b.mem, addr, v), ..b }
    }
}

/// The bus after an ARM9 byte write (the ARM7 work RAM is not mapped).
pub open spec fn nds_write9(b: NdsBusView, addr: u32, v: u8) -> NdsBusView {
    let r = b.regs;
    if IO_BASE <= addr <= 0x0400_0FFF {
        match irq_write(r.arm9_ime, r.arm9_ie, r.arm9_iflag, r.arm9_postflg, r.arm9_halt, addr, v) {
            Some((ime, ie, iflag, postflg, halt)) => NdsBusView {
                regs: NdsRegs {
                    arm9_ime: ime,
                    arm9_ie: ie,
                    arm9_iflag: iflag,
                    arm9_postflg: postflg,
                    arm9_halt: halt,
                    ..r
                },
                ..b
            },
            None => NdsBusView { io: b.io.update(addr - IO_BASE, v), ..b },
        }
    } else {
        NdsBusView { mem: mem_write(b.mem, addr, v), ..b }
    }
}

/// The word read through `read8` at `addr` .. `addr + 3` (little-endian).
pub open spec fn word_from(b0: u8, b1: u8, b2: u8, b3: u8) -> u32 {
    (b0 as u32) | ((b1 as u32) << 8u32) | ((b2 as u32) << 16u32) | ((b3 as u32) << 24u32)
}

impl BusModel for NdsBusView {
    open spec fn read8_spec(&self, addr: u32) -> u8 {
        nds_read7(*self, addr)
    }

    open spec fn read16_spec(&self, addr: u32) -> (u16, NdsBusView) {
        (
            ((nds_read7(*self, addr) as u16) | ((nds_read7(*self, addr.wrapping_add(1)) as u16) << 8u16)) as u16,
            *self,
        )
    }

    open spec fn read32_spec(&self, addr: u32) -> (u32, NdsBusView) {
        let v = word_from(
            nds_read7(*self, addr),
            nds_read7(*self, addr.wrapping_add(1)),
            nds_read7(*self, addr.wrapping_add(2)),
            nds_read7(*self, addr.wrapping_add(3)),
        );
        (v, NdsBusView { regs: NdsRegs { last_bios_value: v, ..self.regs }, ..*self })
    }

    open spec fn write8_spec(&self, addr: u32, val: u8) -> NdsBusView {
        nds_write7(*self, addr, val)
    }

    open spec fn write16_spec(&self, addr: u32, val: u16) -> NdsBusView {
        nds_write7(nds_write7(*self, addr, val as u8), addr.wrapping_add(1), (val >> 8u16) as u8)
    }

    open spec fn write32_spec(&self, addr: u32, val: u32) -> NdsBusView {
        nds_write7(
            nds_write7(
                nds_write7(nds_write7(*self, addr, byte_of32(val, 0)), addr.wrapping_add(1), byte_of32(val, 1)),
                addr.wrapping_add(2),
                byte_of32(val, 2),
            ),
            addr.wrapping_add(3),
            byte_of32(val, 3),
        )
    }
}

/// The bus as the ARM9 sees it.
#[verifier::ext_equal]
pub struct Arm9View {
    pub bus: NdsBusView,
}

impl BusModel for Arm9View {
    open spec fn read8_spec(&self, addr: u32) -> u8 {
        nds_read9(self.bus, addr)
    }

    open spec fn read16_spec(&self, addr: u32) -> (u16, Arm9View) {
        (
            ((nds_read9(self.bus, addr) as u16) | ((nds_read9(self.bus, addr.wrapping_add(1)) as u16) << 8u16)) as u16,
            *self,
        )
    }

    open spec fn read32_spec(&self, addr: u32) -> (u32, Arm9View) {
        let v = word_from(
            nds_read9(self.bus, addr),
            nds_read9(self.bus, addr.wrapping_add(1)),
            nds_read9(self.bus, addr.wrapping_add(2)),
            nds_read9(self.bus, addr.wrapping_add(3)),
        );
        (v, Arm9View { bus: NdsBusView { regs: NdsRegs { arm9_last_bios_value: v, ..self.bus.regs }, ..self.bus } })
    }

    open spec fn write8_spec(&self, addr: u32, val: u8) -> Arm9View {
        Arm9View { bus: nds_write9(self.bus, addr, val) }
    }

    open spec fn write16_spec(&self, addr: u32, val: u16) -> Arm9View {
        Arm9View { bus: nds_write9(nds_write9(self.bus, addr, val as u8), addr.wrapping_add(1), (val >> 8u16) as u8) }
    }

    open spec fn write32_spec(&self, addr: u32, val: u32) -> Arm9View {
        Arm9View {
            bus: nds_write9(
                nds_write9(
                    nds_write9(nds_write9(self.bus, addr, byte_of32(val, 0)), addr.wrapping_add(1), byte_of32(val, 1)),
                    addr.wrapping_add(2),
                    byte_of32(val, 2),
                ),
                addr.wrapping_add(3),
                byte_of32(val, 3),
            ),
        }
    }
}

/// The high-level BIOS images: zero but for `MOVS PC, LR` at the SWI vector.
pub open spec fn hle_bios(size: nat) -> Seq<u8> {
    Seq::new(size, |i: int| if i == 8 { 0x0Eu8 } else if i == 9 { 0xF0u8 } else if i == 10 { 0xB0u8 } else if i == 11 {
        0xE1u8
    } else {
        0u8
    })
}

/// The ARM9's interrupt line: IME set and an enabled request pending.
pub open spec fn arm9_irq_pending(r: NdsRegs) -> bool {
    r.arm9_ime && r.arm9_ie & r.arm9_iflag != 0
}

/// The ARM7's interrupt line.
pub open spec fn arm7_irq_pending(r: NdsRegs) -> bool {
    r.ime && r.ie & r.iflag != 0
}

impl NdsBus {
    /// The bus with the header's program sections loaded from `rom`, and the
    /// ROM mapped as the cartridge; the loading error otherwise.
    pub fn new(rom: Vec<u8>, header: &NdsRomHeader) -> (r: Result<Self, String>)
        requires
            section_fits(header.arm9_rom_offset, header.arm9_size, rom@.len()),
            section_fits(header.arm7_rom_offset, header.arm7_size, rom@.len()),
        ensures
            match load_programs_spec(NdsMemory::new_view(), rom@, *header) {
                Ok(m) => r matches Ok(b) && b@ == (NdsBusView {
                    mem: m,
                    io: Seq::new(IO_SIZE as nat, |i: int| 0u8),
                    bios7: hle_bios(ARM7_BIOS_SIZE as nat),
                    bios9: hle_bios(ARM9_BIOS_SIZE as nat),
                    rom: rom@,
                    input: b.input,
                    regs: NdsRegs {
                        ie: 0,
                        iflag: 0,
                        ime: false,
                        halt: false,
                        postflg: 1,
                        last_bios_value: 0,
                        cycles: 0,
                        arm9_ie: 0,
                        arm9_iflag: 0,
                        arm9_ime: false,
                        arm9_halt: false,
                        arm9_postflg: 1,
                        arm9_last_bios_value: 0,
                        arm9_cycles: 0,
                    },
                }) && nds_bus_wf(b@) && b.input.keyinput == 0x03FF && b.input.extkeyin == 0x007F,
                Err(e) => r matches Err(msg) && msg@ == e,
            },
    {
        let mut memory = NdsMemory::new();
        match memory.load_program_sections(rom.as_slice(), header) {
            Ok(()) => {},
            Err(e) => {
                return Err(e);
            },
        }
        let io = vec![0u8; IO_SIZE];
        assert(io@ =~= Seq::new(IO_SIZE as nat, |i: int| 0u8));
        Ok(NdsBus {
            input: NdsInput::new(),
            memory,
            io,
            bios7: hle_bios_image(ARM7_BIOS_SIZE),
            bios9: hle_bios_image(ARM9_BIOS_SIZE),
            cartridge_rom: rom,
            ie: 0,
            iflag: 0,
            ime: false,
            halt: false,
            postflg: 1,
            last_bios_value: 0,
            cycles: 0,
            arm9_ie: 0,
            arm9_iflag: 0,
            arm9_ime: false,
            arm9_halt: false,
            arm9_postflg: 1,
            arm9_last_bios_value: 0,
            arm9_cycles: 0,
        })
    }

    /// Counts ARM7 cycles; a halted ARM7 wakes when an interrupt is pending.
    pub fn tick(&mut self, cycles: u32)
        requires
            old(self).cycles + cycles <= u64::MAX,
        ensures
            final(self)@ == (NdsBusView {
                regs: NdsRegs {
                    cycles: (old(self).cycles + cycles) as u64,
                    halt: old(self).halt && !arm7_irq_pending(old(self)@.regs),
                    ..old(self)@.regs
                },
                ..old(self)@
            }),
    {
        self.cycles = self.cycles + cycles as u64;
        if self.halt && self.check_irq() {
            self.halt = false;
        }
    }

    /// Counts ARM9 cycles; a halted ARM9 wakes when an interrupt is pending.
    pub fn tick_arm9(&mut self, cycles: u32)
        requires
            old(self).arm9_cycles + cycles <= u64::MAX,
        ensures
            final(self)@ == (NdsBusView {
                regs: NdsRegs {
                    arm9_cycles: (old(self).arm9_cycles + cycles) as u64,
                    arm9_halt: old(self).arm9_halt && !arm9_irq_pending(old(self)@.regs),
                    ..old(self)@.regs
                },
                ..old(self)@
            }),
    {
        self.arm9_cycles = self.arm9_cycles + cycles as u64;
        if self.arm9_halt && self.arm9_check_irq() {
            self.arm9_halt = false;
        }
    }

    /// Whether the ARM7 has an enabled interrupt pending with IME set.
    pub fn check_irq(&self) -> (r: bool)
        ensures
            r == arm7_irq_pending(self@.regs),
    {
        self.ime && (self.ie & self.iflag) != 0
    }

    /// Whether the ARM9 has an enabled interrupt pending with IME set.
    pub fn arm9_check_irq(&self) -> (r: bool)
        ensures
            r == arm9_irq_pending(self@.regs),
    {
        self.arm9_ime && (self.arm9_ie & self.arm9_iflag) != 0
    }

    /// The bus as the ARM9 sees it, for the time of the borrow.
    pub fn arm9_view(&mut self) -> (v: NdsArm9Bus<'_>)
        ensures
            *v.bus == *old(self),
            *final(self) == *final(v.bus),
    {
        NdsArm9Bus { bus: self }
    }

    /// Presses or releases a key.
    pub fn set_key(&mut self, key: NdsKey, pressed: bool)
        ensures
            pressed ==> final(self)@ == (NdsBusView { input: final(self).input, ..old(self)@ }) && (!crate::input::nds_is_ext(
                key,
            ) ==> final(self).input == (NdsInput {
                keyinput: old(self).input.keyinput & !(1u16 << crate::input::nds_key_bit(key)),
                ..old(self).input
            })) && (crate::input::nds_is_ext(key) ==> final(self).input == (NdsInput {
                extkeyin: old(self).input.extkeyin & !(1u16 << crate::input::nds_key_bit(key)),
                ..old(self).input
            })),
            !pressed ==> final(self)@ == (NdsBusView { input: final(self).input, ..old(self)@ }) && (
            !crate::input::nds_is_ext(key) ==> final(self).input == (NdsInput {
                keyinput: old(self).input.keyinput | (1u16 << crate::input::nds_key_bit(key)),
                ..old(self).input
            })) && (crate::input::nds_is_ext(key) ==> final(self).input == (NdsInput {
                extkeyin: old(self).input.extkeyin | (1u16 << crate::input::nds_key_bit(key)),
                ..old(self).input
            })),
    {
        if pressed {
            self.input.key_down(key);
        } else {
            self.input.key_up(key);
        }
    }

    /// An I/O byte common to both processors, from the given register set.
    fn io_common_byte(&self, ime: bool, ie: u32, iflag: u32, postflg: u8, halt: bool, addr: u32) -> (v: u8)
        requires
            nds_bus_wf(self@),
            IO_BASE <= addr <= 0x0400_0FFF,
        ensures
            v == io_common(self@.io, ime, ie, iflag, postflg, halt, addr),
    {
        if addr == REG_IME {
            if ime {
                1
            } else {
                0
            }
        } else if REG_IME < addr && addr <= REG_IME + 3 {
            0
        } else if REG_IE <= addr && addr <= REG_IE + 3 {
            word_byte(ie, addr - REG_IE)
        } else if REG_IF <= addr && addr <= REG_IF + 3 {
            word_byte(iflag, addr - REG_IF)
        } else if addr == REG_POSTFLG {
            postflg
        } else if addr == REG_HALTCNT {
            if halt {
                0x80
            } else {
                0
            }
        } else {
            self.io[(addr - IO_BASE) as usize]
        }
    }

    /// An I/O byte as the ARM7 reads it.
    fn read_io_byte(&self, addr: u32) -> (v: u8)
        requires
            nds_bus_wf(self@),
            IO_BASE <= addr <= 0x0400_0FFF,
        ensures
            v == io_read7(self@, addr),
    {
        if addr == REG_KEYINPUT {
            self.input.read_keyinput() as u8
        } else if addr == REG_KEYINPUT + 1 {
            (self.input.read_keyinput() >> 8u16) as u8
        } else if addr == REG_EXTKEYIN {
            self.input.read_extkeyin() as u8
        } else if addr == REG_EXTKEYIN + 1 {
            (self.input.read_extkeyin() >> 8u16) as u8
        } else {
            self.io_common_byte(self.ime, self.ie, self.iflag, self.postflg, self.halt, addr)
        }
    }

    /// An I/O byte written by the ARM7.
    fn write_io_byte(&mut self, addr: u32, value: u8)
        requires
            nds_bus_wf(old(self)@),
            IO_BASE <= addr <= 0x0400_0FFF,
        ensures
            final(self)@ == nds_write7(old(self)@, addr, value),
            nds_bus_wf(final(self)@),
    {
        match irq_write_exec(self.ime, self.ie, self.iflag, self.postflg, self.halt, addr, value) {
            Some((ime, ie, iflag, postflg, halt)) => {
                self.ime = ime;
                self.ie = ie;
                self.iflag = iflag;
                self.postflg = postflg;
                self.halt = halt;
            },
            None => {
                self.io.set((addr - IO_BASE) as usize, value);
            },
        }
        assert(self@ =~~= nds_write7(old(self)@, addr, value));
    }

    /// An I/O byte written by the ARM9.
    fn write_arm9_io_byte(&mut self, addr: u32, value: u8)
        requires
            nds_bus_wf(old(self)@),
            IO_BASE <= addr <= 0x0400_0FFF,
        ensures
            final(self)@ == nds_write9(old(self)@, addr, value),
            nds_bus_wf(final(self)@),
    {
        match irq_write_exec(self.arm9_ime, self.arm9_ie, self.arm9_iflag, self.arm9_postflg, self.arm9_halt, addr, value) {
            Some((ime, ie, iflag, postflg, halt)) => {
                self.arm9_ime = ime;
                self.arm9_ie = ie;
                self.arm9_iflag = iflag;
                self.arm9_postflg = postflg;
                self.arm9_halt = halt;
            },
            None => {
                self.io.set((addr - IO_BASE) as usize, value);
            },
        }
        assert(self@ =~~= nds_write9(old(self)@, addr, value));
    }

    /// A byte read by the ARM7.
    fn read7(&self, addr: u32) -> (v: u8)
        requires
            nds_bus_wf(self@),
        ensures
            v == nds_read7(self@, addr),
    {
        let m = &self.memory;
        if addr <= 0x3FFF {
            self.bios7[addr as usize]
        } else if MAIN_RAM_BASE <= addr && addr <= 0x023F_FFFF {
            m.main_ram[(addr - MAIN_RAM_BASE) as usize]
        } else if SHARED_WRAM_BASE <= addr && addr <= 0x0300_7FFF {
            m.shared_wram[(addr - SHARED_WRAM_BASE) as usize]
        } else if ARM7_WRAM_BASE <= addr && addr <= 0x0380_FFFF {
            m.arm7_wram[(addr - ARM7_WRAM_BASE) as usize]
        } else if IO_BASE <= addr && addr <= 0x0400_0FFF {
            self.read_io_byte(addr)
        } else if PALETTE_BASE <= addr && addr <= 0x0500_0FFF {
            m.palette[(addr - PALETTE_BASE) as usize]
        } else if VRAM_BASE <= addr && addr <= 0x060A_3FFF {
            m.vram[(addr - VRAM_BASE) as usize]
        } else if OAM_BASE <= addr && addr <= 0x0700_03FF {
            m.oam[(addr - OAM_BASE) as usize]
        } else if CART_BASE <= addr && addr <= 0x09FF_FFFF {
            let off = (addr - CART_BASE) as usize;
            if off < self.cartridge_rom.len() {
                self.cartridge_rom[off]
            } else {
                0xFF
            }
        } else {
            0
        }
    }

    /// A byte read by the ARM9.
    fn read9(&self, addr: u32) -> (v: u8)
        requires
            nds_bus_wf(self@),
        ensures
            v == nds_read9(self@, addr),
    {
        let m = &self.memory;
        if MAIN_RAM_BASE <= addr && addr <= 0x023F_FFFF {
            m.main_ram[(addr - MAIN_RAM_BASE) as usize]
        } else if SHARED_WRAM_BASE <= addr && addr <= 0x0300_7FFF {
            m.shared_wram[(addr - SHARED_WRAM_BASE) as usize]
        } else if IO_BASE <= addr && addr <= 0x0400_0FFF {
            self.io_common_byte(self.arm9_ime, self.arm9_ie, self.arm9_iflag, self.arm9_postflg, self.arm9_halt, addr)
        } else if PALETTE_BASE <= addr && addr <= 0x0500_0FFF {
            m.palette[(addr - PALETTE_BASE) as usize]
        } else if VRAM_BASE <= addr && addr <= 0x060A_3FFF {
            m.vram[(addr - VRAM_BASE) as usize]
        } else if OAM_BASE <= addr && addr <= 0x0700_03FF {
            m.oam[(addr - OAM_BASE) as usize]
        } else if CART_BASE <= addr && addr <= 0x09FF_FFFF {
            let off = (addr - CART_BASE) as usize;
            if off < self.cartridge_rom.len() {
                self.cartridge_rom[off]
            } else {
                0xFF
            }
        } else if ARM9_BIOS_BASE <= addr && addr <= 0xFFFF_7FFF {
            self.bios9[(addr - ARM9_BIOS_BASE) as usize]
        } else {
            0
        }
    }

    /// A byte written to the shared RAM regions.
    fn write_shared(&mut self, addr: u32, val: u8)
        requires
            nds_bus_wf(old(self)@),
            !(IO_BASE <= addr <= 0x0400_0FFF),
        ensures
            final(self)@ == (NdsBusView { mem: mem_write(old(self)@.mem, addr, val), ..old(self)@ }),
            nds_bus_wf(final(self)@),
    {
        if MAIN_RAM_BASE <= addr && addr <= 0x023F_FFFF {
            self.memory.main_ram.set((addr - MAIN_RAM_BASE) as usize, val);
        } else if SHARED_WRAM_BASE <= addr && addr <= 0x0300_7FFF {
            self.memory.shared_wram.set((addr - SHARED_WRAM_BASE) as usize, val);
        } else if PALETTE_BASE <= addr && addr <= 0x0500_0FFF {
            self.memory.palette.set((addr - PALETTE_BASE) as usize, val);
        } else if VRAM_BASE <= addr && addr <= 0x060A_3FFF {
            self.memory.vram.set((addr - VRAM_BASE) as usize, val);
        } else if OAM_BASE <= addr && addr <= 0x0700_03FF {
            self.memory.oam.set((addr - OAM_BASE) as usize, val);
        }
        assert(self@ =~~= NdsBusView { mem: mem_write(old(self)@.mem, addr, val), ..old(self)@ });
    }

    /// A byte written by the ARM7.
    fn write7(&mut self, addr: u32, val: u8)
        requires
            nds_bus_wf(old(self)@),
        ensures
            final(self)@ == nds_write7(old(self)@, addr, val),
            nds_bus_wf(final(self)@),
    {
        if ARM7_WRAM_BASE <= addr && addr <= 0x0380_FFFF {
            self.memory.arm7_wram.set((addr - ARM7_WRAM_BASE) as usize, val);
            assert(self@ =~~= nds_write7(old(self)@, addr, val));
        } else if IO_BASE <= addr && addr <= 0x0400_0FFF {
            self.write_io_byte(addr, val);
        } else {
            self.write_shared(addr, val);
        }
    }

    /// A byte written by the ARM9.
    fn write9(&mut self, addr: u32, val: u8)
        requires
            nds_bus_wf(old(self)@),
        ensures
            final(self)@ == nds_write9(old(self)@, addr, val),
            nds_bus_wf(final(self)@),
    {
        if IO_BASE <= addr && addr <= 0x0400_0FFF {
            self.write_arm9_io_byte(addr, val);
        } else {
            self.write_shared(addr, val);
        }
    }
}

/// Byte `k` (0-3) of `w`.
fn word_byte(w: u32, k: u32) -> (b: u8)
    requires
        k < 4,
    ensures
        b == byte_of32(w, k as int),
{
    ((w >> (k * 8)) & 0xFF) as u8
}

/// The register set after an I/O byte write, or `None` for other registers.
fn irq_write_exec(ime: bool, ie: u32, iflag: u32, postflg: u8, halt: bool, addr: u32, v: u8) -> (r: Option<
    (bool, u32, u32, u8, bool),
>)
    ensures
        r == irq_write(ime, ie, iflag, postflg, halt, addr, v),
{
    if addr == REG_IME {
        Some((v & 1 != 0, ie, iflag, postflg, halt))
    } else if REG_IE <= addr && addr <= REG_IE + 3 {
        let k = (addr - REG_IE) * 8;
        Some((ime, (ie & !(0xFFu32 << k)) | ((v as u32) << k), iflag, postflg, halt))
    } else if REG_IF <= addr && addr <= REG_IF + 3 {
        let k = (addr - REG_IF) * 8;
        Some((ime, ie, iflag & !((v as u32) << k), postflg, halt))
    } else if addr == REG_POSTFLG {
        Some((ime, ie, iflag, v, halt))
    } else if addr == REG_HALTCNT {
        Some((ime, ie, iflag, postflg, v & 0x80 != 0))
    } else {
        None
    }
}

/// A BIOS image of `size` bytes with `MOVS PC, LR` at the SWI vector.
fn hle_bios_image(size: usize) -> (b: Vec<u8>)
    requires
        size >= 12,
    ensures
        b@ == hle_bios(size as nat),
{
    let mut b = vec![0u8; size];
    b.set(8, 0x0E);
    b.set(9, 0xF0);
    b.set(10, 0xB0);
    b.set(11, 0xE1);
    assert(b@ =~= hle_bios(size as nat));
    b
}

impl NdsBus {
    /// A bus with no memory, standing in while the real one is lent out.
    pub(crate) fn detached() -> (b: NdsBus) {
        NdsBus {
            input: NdsInput::new(),
            memory: NdsMemory {
                main_ram: Vec::new(),
                shared_wram: Vec::new(),
                arm7_wram: Vec::new(),
                vram: Vec::new(),
                palette: Vec::new(),
                oam: Vec::new(),
            },
            io: Vec::new(),
            bios7: Vec::new(),
            bios9: Vec::new(),
            cartridge_rom: Vec::new(),
            ie: 0,
            iflag: 0,
            ime: false,
            halt: false,
            postflg: 0,
            last_bios_value: 0,
            cycles: 0,
            arm9_ie: 0,
            arm9_iflag: 0,
            arm9_ime: false,
            arm9_halt: false,
            arm9_postflg: 0,
            arm9_last_bios_value: 0,
            arm9_cycles: 0,
        }
    }
}

impl NdsMemory {
    /// The memories of `new`.
    pub open spec fn new_view() -> NdsMemoryView {
        NdsMemoryView {
            main_ram: Seq::new(MAIN_RAM_SIZE as nat, |i: int| 0u8),
            shared_wram: Seq::new(SHARED_WRAM_SIZE as nat, |i: int| 0u8),
            arm7_wram: Seq::new(ARM7_WRAM_SIZE as nat, |i: int| 0u8),
            vram: Seq::new(VRAM_SIZE as nat, |i: int| 0u8),
            palette: Seq::new(PALETTE_SIZE as nat, |i: int| 0u8),
            oam: Seq::new(OAM_SIZE as nat, |i: int| 0u8),
        }
    }
}

/// The ARM9's view of the bus.
pub struct NdsArm9Bus<'a> {
    pub bus: &'a mut NdsBus,
}

impl Arm7Bus for NdsArm9Bus<'_> {
    type Model = Arm9View;

    open spec fn model(&self) -> Arm9View {
        Arm9View { bus: (*self.bus)@ }
    }

    open spec fn inv(&self) -> bool {
        nds_bus_wf((*self.bus)@)
    }

    fn read8(&self, addr: u32) -> (v: u8) {
        self.bus.read9(addr)
    }

    fn read16(&mut self, addr: u32) -> (v: u16) {
        let lo = self.bus.read9(addr) as u16;
        let hi = self.bus.read9(addr.wrapping_add(1)) as u16;
        lo | (hi << 8u16)
    }

    fn read32(&mut self, addr: u32) -> (v: u32) {
        let b0 = self.bus.read9(addr) as u32;
        let b1 = self.bus.read9(addr.wrapping_add(1)) as u32;
        let b2 = self.bus.read9(addr.wrapping_add(2)) as u32;
        let b3 = self.bus.read9(addr.wrapping_add(3)) as u32;
        let value = b0 | (b1 << 8u32) | (b2 << 16u32) | (b3 << 24u32);
        self.bus.arm9_last_bios_value = value;
        assert(self.model() =~~= old(self).model().read32_spec(addr).1);
        value
    }

    fn write8(&mut self, addr: u32, val: u8) {
        self.bus.write9(addr, val);
    }

    fn write16(&mut self, addr: u32, val: u16) {
        self.bus.write9(addr, val as u8);
        self.bus.write9(addr.wrapping_add(1), (val >> 8u16) as u8);
    }

    fn write32(&mut self, addr: u32, val: u32) {
        self.bus.write9(addr, word_byte(val, 0));
        self.bus.write9(addr.wrapping_add(1), word_byte(val, 1));
        self.bus.write9(addr.wrapping_add(2), word_byte(val, 2));
        self.bus.write9(addr.wrapping_add(3), word_byte(val, 3));
    }
}

/// The ARM9's view of a bus that it holds for the time of a step.
pub struct NdsArm9Side {
    pub bus: NdsBus,
}

impl Arm7Bus for NdsArm9Side {
    type Model = Arm9View;

    open spec fn model(&self) -> Arm9View {
        Arm9View { bus: self.bus@ }
    }

    open spec fn inv(&self) -> bool {
        nds_bus_wf(self.bus@)
    }

    fn read8(&self, addr: u32) -> (v: u8) {
        self.bus.read9(addr)
    }

    fn read16(&mut self, addr: u32) -> (v: u16) {
        let lo = self.bus.read9(addr) as u16;
        let hi = self.bus.read9(addr.wrapping_add(1)) as u16;
        lo | (hi << 8u16)
    }

    fn read32(&mut self, addr: u32) -> (v: u32) {
        let b0 = self.bus.read9(addr) as u32;
        let b1 = self.bus.read9(addr.wrapping_add(1)) as u32;
        let b2 = self.bus.read9(addr.wrapping_add(2)) as u32;
        let b3 = self.bus.read9(addr.wrapping_add(3)) as u32;
        let value = b0 | (b1 << 8u32) | (b2 << 16u32) | (b3 << 24u32);
        self.bus.arm9_last_bios_value = value;
        assert(self.model() =~~= old(self).model().read32_spec(addr).1);
        value
    }

    fn write8(&mut self, addr: u32, val: u8) {
        self.bus.write9(addr, val);
    }

    fn write16(&mut self, addr: u32, val: u16) {
        self.bus.write9(addr, val as u8);
        self.bus.write9(addr.wrapping_add(1), (val >> 8u16) as u8);
    }

    fn write32(&mut self, addr: u32, val: u32) {
        self.bus.write9(addr, word_byte(val, 0));
        self.bus.write9(addr.wrapping_add(1), word_byte(val, 1));
        self.bus.write9(addr.wrapping_add(2), word_byte(val, 2));
        self.bus.write9(addr.wrapping_add(3), word_byte(val, 3));
    }
}

impl Arm7Bus for NdsBus {
    type Model = NdsBusView;

    open spec fn model(&self) -> NdsBusView {
        self@
    }

    open spec fn inv(&self) -> bool {
        nds_bus_wf(self@)
    }

    fn read8(&self, addr: u32) -> (v: u8) {
        self.read7(addr)
    }

    fn read16(&mut self, addr: u32) -> (v: u16) {
        let lo = self.read7(addr) as u16;
        let hi = self.read7(addr.wrapping_add(1)) as u16;
        lo | (hi << 8u16)
    }

    fn read32(&mut self, addr: u32) -> (v: u32) {
        let b0 = self.read7(addr) as u32;
        let b1 = self.read7(addr.wrapping_add(1)) as u32;
        let b2 = self.read7(addr.wrapping_add(2)) as u32;
        let b3 = self.read7(addr.wrapping_add(3)) as u32;
        let value = b0 | (b1 << 8u32) | (b2 << 16u32) | (b3 << 24u32);
        self.last_bios_value = value;
        assert(self@ =~~= old(self)@.read32_spec(addr).1);
        value
    }

    fn write8(&mut self, addr: u32, val: u8) {
        self.write7(addr, val);
    }

    fn write16(&mut self, addr: u32, val: u16) {
        self.write7(addr, val as u8);
        self.write7(addr.wrapping_add(1), (val >> 8u16) as u8);
    }

    fn write32(&mut self, addr: u32, val: u32) {
        self.write7(addr, word_byte(val, 0));
        self.write7(addr.wrapping_add(1), word_byte(val, 1));
        self.write7(addr.wrapping_add(2), word_byte(val, 2));
        self.write7(addr.wrapping_add(3), word_byte(val, 3));
    }
}

/// Whether `addr` lies in the memory that both processors see: main RAM,
/// shared work RAM, palette, VRAM and OAM.
pub open spec fn in_shared_memory(addr: u32) -> bool {
    ||| MAIN_RAM_BASE <= addr <= 0x023F_FFFF
    ||| SHARED_WRAM_BASE <= addr <= 0x0300_7FFF
    ||| PALETTE_BASE <= addr <= 0x0500_0FFF
    ||| VRAM_BASE <= addr <= 0x060A_3FFF
    ||| OAM_BASE <= addr <= 0x0700_03FF
}

/// The shared memory is one memory for both processors: a byte that either
/// writes there is what either reads back. The ARM7's own work RAM gives the
/// ARM7 back what it wrote.
pub proof fn lemma_nds_shared_write_then_read(b: NdsBusView, addr: u32, v: u8)
    requires
        nds_bus_wf(b),
    ensures
        in_shared_memory(addr) ==> nds_read7(nds_write9(b, addr, v), addr) == v,
        in_shared_memory(addr) ==> nds_read9(nds_write9(b, addr, v), addr) == v,
        in_shared_memory(addr) ==> nds_read7(nds_write7(b, addr, v), addr) == v,
        in_shared_memory(addr) ==> nds_read9(nds_write7(b, addr, v), addr) == v,
        ARM7_WRAM_BASE <= addr <= 0x0380_FFFF ==> nds_read7(nds_write7(b, addr, v), addr) == v,
{
}

} // verus!
