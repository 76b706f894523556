pub mod clock;
pub mod eeprom_laws;
pub mod gba;
pub mod mbc;
pub mod rtc;

pub use gba::EepromState;
pub use gba::GbaBackupType;
pub use gba::GbaCartridge;
pub use gba::GbaRtc;

use vstd::prelude::*;

verus! {

/// Game Boy cartridge types, from header byte 0x147.
#[derive(Debug, Clone, Copy, PartialEq, Eq, Structural)]
pub enum CartridgeType {
    RomOnly,
    Mbc1,
    Mbc1Ram,
    Mbc1RamBattery,
    Mbc3,
    Mbc3Ram,
    Mbc3RamBattery,
    Mbc3TimerBattery,
    Mbc3TimerRamBattery,
    Mbc5,
    Mbc5Ram,
    Mbc5RamBattery,
    Mbc5Rumble,
    Mbc5RumbleRam,
    Mbc5RumbleRamBattery,
    Unknown(u8),
}

/// The cartridge type named by header byte `b`.
pub open spec fn cartridge_type_of(b: u8) -> CartridgeType {
    if b == 0x00 {
        CartridgeType::RomOnly
    } else if b == 0x01 {
        CartridgeType::Mbc1
    } else if b == 0x02 {
        CartridgeType::Mbc1Ram
    } else if b == 0x03 {
        CartridgeType::Mbc1RamBattery
    } else if b == 0x0F {
        CartridgeType::Mbc3TimerBattery
    } else if b == 0x10 {
        CartridgeType::Mbc3TimerRamBattery
    } else if b == 0x11 {
        CartridgeType::Mbc3
    } else if b == 0x12 {
        CartridgeType::Mbc3Ram
    } else if b == 0x13 {
        CartridgeType::Mbc3RamBattery
    } else if b == 0x19 {
        CartridgeType::Mbc5
    } else if b == 0x1A {
        CartridgeType::Mbc5Ram
    } else if b == 0x1B {
        CartridgeType::Mbc5RamBattery
    } else if b == 0x1C {
        CartridgeType::Mbc5Rumble
    } else if b == 0x1D {
        CartridgeType::Mbc5RumbleRam
    } else if b == 0x1E {
        CartridgeType::Mbc5RumbleRamBattery
    } else {
        CartridgeType::Unknown(b)
    }
}

/// The types whose RAM is battery-backed.
pub open spec fn battery_backed(t: CartridgeType) -> bool {
    match t {
        CartridgeType::Mbc1RamBattery | CartridgeType::Mbc3RamBattery | CartridgeType::Mbc3TimerBattery
        | CartridgeType::Mbc3TimerRamBattery | CartridgeType::Mbc5RamBattery
        | CartridgeType::Mbc5RumbleRamBattery => true,
        _ => false,
    }
}

/// The types with external RAM.
pub open spec fn has_external_ram(t: CartridgeType) -> bool {
    match t {
        CartridgeType::Mbc1Ram | CartridgeType::Mbc1RamBattery | CartridgeType::Mbc3Ram
        | CartridgeType::Mbc3RamBattery | CartridgeType::Mbc3TimerRamBattery | CartridgeType::Mbc5Ram
        | CartridgeType::Mbc5RamBattery | CartridgeType::Mbc5RumbleRam
        | CartridgeType::Mbc5RumbleRamBattery => true,
        _ => false,
    }
}

impl CartridgeType {
    pub fn from_byte(b: u8) -> (t: Self)
        ensures
            t == cartridge_type_of(b),
    {
        match b {
            0x00 => CartridgeType::RomOnly,
            0x01 => CartridgeType::Mbc1,
            0x02 => CartridgeType::Mbc1Ram,
            0x03 => CartridgeType::Mbc1RamBattery,
            0x0F => CartridgeType::Mbc3TimerBattery,
            0x10 => CartridgeType::Mbc3TimerRamBattery,
            0x11 => CartridgeType::Mbc3,
            0x12 => CartridgeType::Mbc3Ram,
            0x13 => CartridgeType::Mbc3RamBattery,
            0x19 => CartridgeType::Mbc5,
            0x1A => CartridgeType::Mbc5Ram,
            0x1B => CartridgeType::Mbc5RamBattery,
            0x1C => CartridgeType::Mbc5Rumble,
            0x1D => CartridgeType::Mbc5RumbleRam,
            0x1E => CartridgeType::Mbc5RumbleRamBattery,
            other => CartridgeType::Unknown(other),
        }
    }

    pub fn has_battery(self) -> (r: bool)
        ensures
            r == battery_backed(self),
    {
        match self {
            CartridgeType::Mbc1RamBattery | CartridgeType::Mbc3RamBattery | CartridgeType::Mbc3TimerBattery
            | CartridgeType::Mbc3TimerRamBattery | CartridgeType::Mbc5RamBattery
            | CartridgeType::Mbc5RumbleRamBattery => true,
            _ => false,
        }
    }

    pub fn has_ram(self) -> (r: bool)
        ensures
            r == has_external_ram(self),
    {
        match self {
            CartridgeType::Mbc1Ram | CartridgeType::Mbc1RamBattery | CartridgeType::Mbc3Ram
            | CartridgeType::Mbc3RamBattery | CartridgeType::Mbc3TimerRamBattery | CartridgeType::Mbc5Ram
            | CartridgeType::Mbc5RamBattery | CartridgeType::Mbc5RumbleRam
            | CartridgeType::Mbc5RumbleRamBattery => true,
            _ => false,
        }
    }
}

/// `t` is the title stored in the header field `field`: its bytes up to the
/// first zero, each read as a character.
pub open spec fn is_title(t: Seq<char>, field: Seq<u8>) -> bool {
    &&& t.len() <= field.len()
    &&& forall|i: int| 0 <= i < t.len() ==> #[trigger] field[i] != 0
    &&& forall|i: int| 0 <= i < t.len() ==> #[trigger] t[i] == field[i] as char
    &&& t.len() == field.len() || field[t.len() as int] == 0
}

/// Reads a title from a header field: its bytes up to the first zero.
pub fn header_title(field: &[u8]) -> (t: String)
    ensures
        is_title(t@, field@),
{
    let mut t = String::new();
    let mut i: usize = 0;
    while i < field.len() && field[i] != 0
        invariant
            i <= field@.len(),
            t@.len() == i,
            forall|k: int| 0 <= k < i ==> #[trigger] field@[k] != 0,
            forall|k: int| 0 <= k < i ==> #[trigger] t@[k] == field@[k] as char,
        decreases field.len() - i,
    {
        let c = field[i] as char;
        t.push(c);
        i = i + 1;
    }
    t
}

/// A Game Boy Color cartridge image.
pub struct GbcCartridge {
    pub rom: Vec<u8>,
    pub ram: Vec<u8>,
    pub cart_type: CartridgeType,
    pub title: String,
    pub rom_banks: usize,
    pub ram_banks: usize,
    pub is_cgb: bool,
}

/// ROM size in 16 KiB banks from header byte 0x148.
pub open spec fn rom_banks_of(b: u8) -> usize {
    if b <= 8 {
        (2 * pow2_of(b as nat)) as usize
    } else {
        2
    }
}

pub open spec fn pow2_of(n: nat) -> nat
    decreases n,
{
    if n == 0 {
        1
    } else {
        2 * pow2_of((n - 1) as nat)
    }
}

/// RAM size in 8 KiB banks from header byte 0x149.
pub open spec fn ram_banks_of(b: u8) -> usize {
    if b == 1 || b == 2 {
        1
    } else if b == 3 {
        4
    } else if b == 4 {
        16
    } else if b == 5 {
        8
    } else {
        0
    }
}

impl GbcCartridge {
    /// Reads the header of a Game Boy (Color) ROM image.
    pub fn load(data: Vec<u8>) -> (cart: Self)
        requires
            data.len() >= 0x14A,
        ensures
            cart.rom@ == data@,
            cart.cart_type == cartridge_type_of(data@[0x147]),
            cart.is_cgb == (data@[0x143] == 0x80 || data@[0x143] == 0xC0),
            cart.rom_banks == rom_banks_of(data@[0x148]),
            cart.ram_banks == ram_banks_of(data@[0x149]),
            cart.ram@ == Seq::new((cart.ram_banks * 8192) as nat, |i: int| 0u8),
            is_title(cart.title@, data@.subrange(0x134, 0x143)),
    {
        let title = header_title(&data[0x134..0x143]);
        let cart_type = CartridgeType::from_byte(data[0x147]);
        let is_cgb = data[0x143] == 0x80 || data[0x143] == 0xC0;
        let rom_size: usize = match data[0x148] {
            0 => 2,
            1 => 4,
            2 => 8,
            3 => 16,
            4 => 32,
            5 => 64,
            6 => 128,
            7 => 256,
            8 => 512,
            _ => 2,
        };
        proof {
            reveal_with_fuel(pow2_of, 9);
        }
        let ram_size: usize = match data[0x149] {
            0 => 0,
            1 => 1,
            2 => 1,
            3 => 4,
            4 => 16,
            5 => 8,
            _ => 0,
        };
        let ram = vec![0u8; ram_size * 8192];
        assert(ram@ =~= Seq::new((ram_size * 8192) as nat, |i: int| 0u8));
        GbcCartridge { rom: data, ram, cart_type, title, rom_banks: rom_size, ram_banks: ram_size, is_cgb }
    }
}

} // verus!
