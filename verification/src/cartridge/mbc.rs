use vstd::prelude::*;

verus! {

/// The memory bank controllers of Game Boy cartridges.
#[derive(Debug, Clone, Copy, PartialEq, Eq, Structural)]
pub enum MbcType {
    NoMbc,
    Mbc1,
    Mbc3,
    Mbc5,
}

/// Banking state of a memory bank controller.
#[derive(Debug, Clone, Copy)]
pub struct Mbc {
    pub mbc_type: MbcType,
    pub rom_bank: u16,
    pub ram_bank: u8,
    pub ram_enabled: bool,
    /// MBC1 banking mode: 0 for ROM banking, 1 for RAM banking.
    pub mode: u8,
    /// MBC3 real-time-clock registers.
    pub rtc_regs: [u8; 5],
    pub rtc_latch: u8,
    pub rtc_latched: [u8; 5],
}

/// The byte at `offset`, or 0xFF past the end.
pub open spec fn byte_or_ff(data: Seq<u8>, offset: int) -> u8 {
    if 0 <= offset < data.len() {
        data[offset]
    } else {
        0xFF
    }
}

/// Number of 16 KiB ROM banks, at least one.
pub open spec fn rom_bank_count(len: nat) -> nat {
    if len / 0x4000 == 0 {
        1
    } else {
        len / 0x4000
    }
}

/// What a read of ROM address `addr` (0x0000-0x7FFF) returns.
pub open spec fn read_rom_spec(m: Mbc, addr: u16, rom: Seq<u8>) -> u8 {
    match m.mbc_type {
        MbcType::NoMbc => byte_or_ff(rom, addr as int),
        MbcType::Mbc1 => {
            if addr < 0x4000 {
                let bank: int = if m.mode == 1 {
                    ((m.ram_bank as int) * 32) % (rom_bank_count(rom.len()) as int)
                } else {
                    0
                };
                byte_or_ff(rom, bank * 0x4000 + addr)
            } else {
                let bank = (((m.ram_bank as usize) << 5usize) | (m.rom_bank as usize)) as int % (rom_bank_count(
                    rom.len(),
                ) as int);
                byte_or_ff(rom, bank * 0x4000 + (addr - 0x4000))
            }
        },
        MbcType::Mbc3 => {
            if addr < 0x4000 {
                rom[addr as int]
            } else {
                let bank: int = if m.rom_bank == 0 {
                    1
                } else {
                    m.rom_bank as int
                };
                byte_or_ff(rom, bank * 0x4000 + (addr - 0x4000))
            }
        },
        MbcType::Mbc5 => {
            if addr < 0x4000 {
                rom[addr as int]
            } else {
                byte_or_ff(rom, (m.rom_bank as int) * 0x4000 + (addr - 0x4000))
            }
        },
    }
}

/// Whether an access to external RAM goes to the RAM array (rather than to
/// nothing or to a clock register).
pub open spec fn ram_array_selected(m: Mbc) -> bool {
    m.ram_enabled && (m.mbc_type == MbcType::Mbc1 || m.mbc_type == MbcType::Mbc5 || (m.mbc_type
        == MbcType::Mbc3 && m.ram_bank <= 3))
}

/// Whether an access to external RAM goes to a clock register (MBC3 banks 8-0xC).
pub open spec fn rtc_selected(m: Mbc) -> bool {
    m.ram_enabled && m.mbc_type == MbcType::Mbc3 && 0x08 <= m.ram_bank <= 0x0C
}

/// The RAM array offset of address `addr` (0xA000-0xBFFF).
pub open spec fn ram_offset(m: Mbc, addr: u16) -> int {
    let bank: int = if m.mbc_type == MbcType::Mbc1 {
        if m.mode == 1 {
            m.ram_bank as int
        } else {
            0
        }
    } else {
        m.ram_bank as int
    };
    bank * 0x2000 + (addr - 0xA000)
}

/// What a read of external RAM address `addr` returns.
pub open spec fn read_ram_spec(m: Mbc, addr: u16, ram: Seq<u8>) -> u8 {
    if !m.ram_enabled || ram.len() == 0 {
        0xFF
    } else if ram_array_selected(m) {
        byte_or_ff(ram, ram_offset(m, addr))
    } else if rtc_selected(m) {
        m.rtc_latched[m.ram_bank - 0x08]
    } else {
        0xFF
    }
}

/// The controller and RAM after a write of `val` to external RAM address `addr`.
pub open spec fn write_ram_spec(m: Mbc, addr: u16, val: u8, ram: Seq<u8>) -> (Mbc, Seq<u8>) {
    if ram_array_selected(m) {
        let off = ram_offset(m, addr);
        (m, if 0 <= off < ram.len() { ram.update(off, val) } else { ram })
    } else if rtc_selected(m) {
        (Mbc { rtc_regs: vstd::array::spec_array_update(m.rtc_regs, m.ram_bank - 0x08, val), ..m }, ram)
    } else {
        (m, ram)
    }
}

/// The controller after a write of `val` to the register at ROM address `addr`.
pub open spec fn write_register_spec(m: Mbc, addr: u16, val: u8) -> Mbc {
    match m.mbc_type {
        MbcType::NoMbc => m,
        MbcType::Mbc1 => {
            if addr <= 0x1FFF {
                Mbc { ram_enabled: val & 0x0F == 0x0A, ..m }
            } else if addr <= 0x3FFF {
                Mbc { rom_bank: if val & 0x1F == 0 { 1 } else { (val & 0x1F) as u16 }, ..m }
            } else if addr <= 0x5FFF {
                Mbc { ram_bank: val & 0x03, ..m }
            } else if addr <= 0x7FFF {
                Mbc { mode: val & 1, ..m }
            } else {
                m
            }
        },
        MbcType::Mbc3 => {
            if addr <= 0x1FFF {
                Mbc { ram_enabled: val & 0x0F == 0x0A, ..m }
            } else if addr <= 0x3FFF {
                Mbc { rom_bank: if val & 0x7F == 0 { 1 } else { (val & 0x7F) as u16 }, ..m }
            } else if addr <= 0x5FFF {
                Mbc { ram_bank: val, ..m }
            } else if addr <= 0x7FFF {
                Mbc {
                    rtc_latched: if m.rtc_latch == 0 && val == 1 {
                        m.rtc_regs
                    } else {
                        m.rtc_latched
                    },
                    rtc_latch: val,
                    ..m
                }
            } else {
                m
            }
        },
        MbcType::Mbc5 => {
            if addr <= 0x1FFF {
                Mbc { ram_enabled: val & 0x0F == 0x0A, ..m }
            } else if addr <= 0x2FFF {
                Mbc { rom_bank: (m.rom_bank & 0x100) | (val as u16), ..m }
            } else if addr <= 0x3FFF {
                Mbc { rom_bank: (m.rom_bank & 0xFF) | (((val as u16) & 1) << 8u16), ..m }
            } else if addr <= 0x5FFF {
                Mbc { ram_bank: val & 0x0F, ..m }
            } else {
                m
            }
        },
    }
}

impl Mbc {
    /// A controller at power-on: ROM bank 1, RAM disabled.
    pub fn new(mbc_type: MbcType) -> (m: Self)
        ensures
            m.mbc_type == mbc_type,
            m.rom_bank == 1,
            m.ram_bank == 0,
            !m.ram_enabled,
            m.mode == 0,
            m.rtc_regs@ == seq![0u8; 5],
            m.rtc_latch == 0xFF,
            m.rtc_latched@ == seq![0u8; 5],
    {
        let m = Mbc {
            mbc_type,
            rom_bank: 1,
            ram_bank: 0,
            ram_enabled: false,
            mode: 0,
            rtc_regs: [0;5],
            rtc_latch: 0xFF,
            rtc_latched: [0;5],
        };
        assert(m.rtc_regs@ =~= seq![0u8; 5]);
        assert(m.rtc_latched@ =~= seq![0u8; 5]);
        m
    }

    fn byte_at(data: &[u8], offset: usize) -> (b: u8)
        ensures
            b == byte_or_ff(data@, offset as int),
    {
        if offset < data.len() {
            data[offset]
        } else {
            0xFF
        }
    }

    fn byte_at_sum(data: &[u8], base: usize, extra: usize) -> (b: u8)
        ensures
            b == byte_or_ff(data@, base + extra),
    {
        match base.checked_add(extra) {
            Some(off) => Self::byte_at(data, off),
            None => {
                let n = data.len();
                assert(n == data@.len());
                0xFF
            },
        }
    }

    /// Reads ROM address `addr` through the current banking.
    pub fn read_rom(&self, addr: u16, rom: &[u8]) -> (b: u8)
        requires
            (self.mbc_type == MbcType::Mbc3 || self.mbc_type == MbcType::Mbc5) && addr < 0x4000 ==> addr
                < rom.len(),
        ensures
            b == read_rom_spec(*self, addr, rom@),
    {
        match self.mbc_type {
            MbcType::NoMbc => Self::byte_at(rom, addr as usize),
            MbcType::Mbc1 => {
                let banks = if rom.len() / 0x4000 == 0 {
                    1
                } else {
                    rom.len() / 0x4000
                };
                if addr < 0x4000 {
                    let bank = if self.mode == 1 {
                        ((self.ram_bank as usize) * 32) % banks
                    } else {
                        0
                    };
                    assert(bank * 0x4000 <= rom.len()) by (nonlinear_arith)
                        requires
                            bank < banks,
                            banks == 1 || banks == rom.len() / 0x4000,
                            banks >= 1,
                    ;
                    Self::byte_at(rom, bank * 0x4000 + addr as usize)
                } else {
                    proof {
                        let rb = self.ram_bank as usize;
                        let ob = self.rom_bank as usize;
                        assert((rb << 5usize) | ob <= 0xFFFF_FFFF) by (bit_vector)
                            requires
                                rb < 256,
                                ob < 65536,
                        ;
                    }
                    let bank = (((self.ram_bank as usize) << 5usize) | (self.rom_bank as usize)) % banks;
                    assert(bank == 0 || (bank + 1) * 0x4000 <= rom.len()) by (nonlinear_arith)
                        requires
                            bank < banks,
                            banks == 1 || banks == rom.len() / 0x4000,
                            banks >= 1,
                    ;
                    Self::byte_at_sum(rom, bank * 0x4000, addr as usize - 0x4000)
                }
            },
            MbcType::Mbc3 => {
                if addr < 0x4000 {
                    rom[addr as usize]
                } else {
                    let bank: usize = if self.rom_bank == 0 {
                        1
                    } else {
                        self.rom_bank as usize
                    };
                    assert(bank * 0x4000 <= 0xFFFF * 0x4000) by (nonlinear_arith)
                        requires
                            bank <= 0xFFFF,
                    ;
                    Self::byte_at_sum(rom, bank * 0x4000, addr as usize - 0x4000)
                }
            },
            MbcType::Mbc5 => {
                if addr < 0x4000 {
                    rom[addr as usize]
                } else {
                    let bank = self.rom_bank as usize;
                    assert(bank * 0x4000 <= 0xFFFF * 0x4000) by (nonlinear_arith)
                        requires
                            bank <= 0xFFFF,
                    ;
                    Self::byte_at_sum(rom, bank * 0x4000, addr as usize - 0x4000)
                }
            },
        }
    }

    fn ram_offset_of(&self, addr: u16) -> (off: usize)
        requires
            addr >= 0xA000,
        ensures
            off == ram_offset(*self, addr),
    {
        let bank: usize = match self.mbc_type {
            MbcType::Mbc1 => if self.mode == 1 {
                self.ram_bank as usize
            } else {
                0
            },
            _ => self.ram_bank as usize,
        };
        bank * 0x2000 + (addr as usize - 0xA000)
    }

    /// Reads external RAM address `addr` (0xA000-0xBFFF).
    pub fn read_ram(&self, addr: u16, ram: &[u8]) -> (b: u8)
        requires
            ram_array_selected(*self) && ram.len() > 0 ==> addr >= 0xA000,
        ensures
            b == read_ram_spec(*self, addr, ram@),
    {
        if !self.ram_enabled || ram.len() == 0 {
            return 0xFF;
        }
        match self.mbc_type {
            MbcType::NoMbc => 0xFF,
            MbcType::Mbc1 | MbcType::Mbc5 => Self::byte_at(ram, self.ram_offset_of(addr)),
            MbcType::Mbc3 => {
                if self.ram_bank <= 3 {
                    Self::byte_at(ram, self.ram_offset_of(addr))
                } else if self.ram_bank >= 0x08 && self.ram_bank <= 0x0C {
                    self.rtc_latched[(self.ram_bank - 0x08) as usize]
                } else {
                    0xFF
                }
            },
        }
    }

    /// Writes `val` to external RAM address `addr` (0xA000-0xBFFF).
    pub fn write_ram(&mut self, addr: u16, val: u8, ram: &mut [u8])
        requires
            ram_array_selected(*old(self)) ==> addr >= 0xA000,
        ensures
            (*final(self), final(ram)@) == write_ram_spec(*old(self), addr, val, old(ram)@),
    {
        if !self.ram_enabled {
            return;
        }
        match self.mbc_type {
            MbcType::NoMbc => {},
            MbcType::Mbc1 | MbcType::Mbc5 => {
                let off = self.ram_offset_of(addr);
                if off < ram.len() {
                    ram[off] = val;
                }
            },
            MbcType::Mbc3 => {
                if self.ram_bank <= 3 {
                    let off = self.ram_offset_of(addr);
                    if off < ram.len() {
                        ram[off] = val;
                    }
                } else if self.ram_bank >= 0x08 && self.ram_bank <= 0x0C {
                    self.rtc_regs[(self.ram_bank - 0x08) as usize] = val;
                }
            },
        }
    }

    /// Writes `val` to the banking register selected by ROM address `addr`.
    pub fn write_register(&mut self, addr: u16, val: u8)
        ensures
            *final(self) == write_register_spec(*old(self), addr, val),
    {
        match self.mbc_type {
            MbcType::NoMbc => {},
            MbcType::Mbc1 => {
                if addr <= 0x1FFF {
                    self.ram_enabled = (val & 0x0F) == 0x0A;
                } else if addr <= 0x3FFF {
                    let bank = val & 0x1F;
                    self.rom_bank = if bank == 0 {
                        1
                    } else {
                        bank as u16
                    };
                } else if addr <= 0x5FFF {
                    self.ram_bank = val & 0x03;
                } else if addr <= 0x7FFF {
                    self.mode = val & 1;
                }
            },
            MbcType::Mbc3 => {
                if addr <= 0x1FFF {
                    self.ram_enabled = (val & 0x0F) == 0x0A;
                } else if addr <= 0x3FFF {
                    let bank = val & 0x7F;
                    self.rom_bank = if bank == 0 {
                        1
                    } else {
                        bank as u16
                    };
                } else if addr <= 0x5FFF {
                    self.ram_bank = val;
                } else if addr <= 0x7FFF {
                    if self.rtc_latch == 0x00 && val == 0x01 {
                        self.rtc_latched = self.rtc_regs;
                    }
                    self.rtc_latch = val;
                }
            },
            MbcType::Mbc5 => {
                if addr <= 0x1FFF {
                    self.ram_enabled = (val & 0x0F) == 0x0A;
                } else if addr <= 0x2FFF {
                    self.rom_bank = (self.rom_bank & 0x100) | val as u16;
                } else if addr <= 0x3FFF {
                    self.rom_bank = (self.rom_bank & 0xFF) | (((val as u16) & 1) << 8u16);
                } else if addr <= 0x5FFF {
                    self.ram_bank = val & 0x0F;
                }
            },
        }
    }
}

/// A byte written to the RAM array is what a later read of the same address
/// returns.
pub proof fn lemma_ram_write_then_read(m: Mbc, addr: u16, val: u8, ram: Seq<u8>)
    requires
        ram_array_selected(m),
        0 <= ram_offset(m, addr) < ram.len(),
    ensures
        read_ram_spec(write_ram_spec(m, addr, val, ram).0, addr, write_ram_spec(m, addr, val, ram).1)
            == val,
{
}

/// Writing 0 then 1 to the latch register of an MBC3 copies the clock
/// registers to the latched copy that reads return.
pub proof fn lemma_rtc_latch(m: Mbc, addr0: u16, addr1: u16)
    requires
        m.mbc_type == MbcType::Mbc3,
        0x6000 <= addr0 <= 0x7FFF,
        0x6000 <= addr1 <= 0x7FFF,
    ensures
        write_register_spec(write_register_spec(m, addr0, 0), addr1, 1).rtc_latched == m.rtc_regs,
{
}

/// Writing 0x0A to the enable range enables RAM, any value whose low nibble
/// differs disables it, on every controller but the plain ROM.
pub proof fn lemma_ram_enable(m: Mbc, addr: u16, val: u8)
    requires
        m.mbc_type != MbcType::NoMbc,
        addr <= 0x1FFF,
    ensures
        write_register_spec(m, addr, val).ram_enabled == (val & 0x0F == 0x0A),
{
}

} // verus!
