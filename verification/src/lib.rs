use vstd::prelude::*;
use vstd::string::StringSliceAdditionalSpecFns;

pub mod apu;
pub mod bits;
pub mod cartridge;
pub mod cpu;
pub mod dma;
pub mod emulator;
pub mod input;
pub mod ppu;
pub mod interrupts;
pub mod memory;
pub mod text;
pub mod save;
pub mod timer;

verus! {

/// Width in pixels of the Game Boy Color screen.
pub const GBC_WIDTH: usize = 160;

/// Height in pixels of the Game Boy Color screen.
pub const GBC_HEIGHT: usize = 144;

/// Width in pixels of the Game Boy Advance screen.
pub const GBA_WIDTH: usize = 240;

/// Height in pixels of the Game Boy Advance screen.
pub const GBA_HEIGHT: usize = 160;

/// Width in pixels of the Nintendo DS screens.
pub const NDS_WIDTH: usize = 256;

/// Height in pixels of the two Nintendo DS screens stacked.
pub const NDS_HEIGHT: usize = 384;

/// Game Boy Color CPU clock in Hz.
pub const GBC_CLOCK_SPEED: u32 = 4_194_304;

/// Game Boy Advance CPU clock in Hz.
pub const GBA_CLOCK_SPEED: u32 = 16_777_216;

/// The consoles that a ROM file can be for.
#[derive(Debug, Clone, Copy, PartialEq, Eq, Structural)]
pub enum ConsoleType {
    GameBoyColor,
    GameBoyAdvance,
}

/// The byte with ASCII upper-case letters folded to lower case.
pub open spec fn ascii_lower(b: u8) -> u8 {
    if 0x41 <= b <= 0x5A {
        (b + 0x20) as u8
    } else {
        b
    }
}

/// Whether `bytes` equals `word` (lower-case ASCII) ignoring ASCII case.
pub open spec fn eq_ignore_case(bytes: Seq<u8>, word: Seq<u8>) -> bool {
    bytes.len() == word.len() && forall|i: int| 0 <= i < bytes.len() ==> ascii_lower(#[trigger] bytes[i]) == word[i]
}

/// The console a file extension (its UTF-8 bytes) names, in any letter case.
pub open spec fn console_for_extension(ext: Seq<u8>) -> Option<ConsoleType> {
    if eq_ignore_case(ext, seq![0x67u8, 0x62, 0x63]) || eq_ignore_case(ext, seq![0x67u8, 0x62]) {
        Some(ConsoleType::GameBoyColor)
    } else if eq_ignore_case(ext, seq![0x67u8, 0x62, 0x61]) {
        Some(ConsoleType::GameBoyAdvance)
    } else {
        None
    }
}

fn lower(b: u8) -> (r: u8)
    ensures
        r == ascii_lower(b),
{
    if 0x41 <= b && b <= 0x5A {
        b + 0x20
    } else {
        b
    }
}

fn matches_word(bytes: &[u8], word: &[u8]) -> (r: bool)
    ensures
        r == eq_ignore_case(bytes@, word@),
{
    if bytes.len() != word.len() {
        return false;
    }
    let mut i: usize = 0;
    while i < bytes.len()
        invariant
            i <= bytes.len() == word.len(),
            forall|j: int| 0 <= j < i ==> ascii_lower(#[trigger] bytes@[j]) == word@[j],
        decreases bytes.len() - i,
    {
        if lower(bytes[i]) != word[i] {
            return false;
        }
        i = i + 1;
    }
    true
}

impl ConsoleType {
    /// The console for a ROM file extension ("gb", "gbc" or "gba", any case).
    pub fn from_extension(ext: &str) -> (r: Option<Self>)
        ensures
            r == console_for_extension(ext.spec_bytes()),
    {
        let bytes = ext.as_bytes();
        let gbc: [u8; 3] = [0x67, 0x62, 0x63];
        let gb: [u8; 2] = [0x67, 0x62];
        let gba: [u8; 3] = [0x67, 0x62, 0x61];
        assert(gbc@ =~= seq![0x67u8, 0x62, 0x63]);
        assert(gb@ =~= seq![0x67u8, 0x62]);
        assert(gba@ =~= seq![0x67u8, 0x62, 0x61]);
        if matches_word(bytes, gbc.as_slice()) || matches_word(bytes, gb.as_slice()) {
            Some(ConsoleType::GameBoyColor)
        } else if matches_word(bytes, gba.as_slice()) {
            Some(ConsoleType::GameBoyAdvance)
        } else {
            None
        }
    }

    /// Screen width in pixels.
    pub fn screen_width(self) -> (w: usize)
        ensures
            w == (match self {
                ConsoleType::GameBoyColor => GBC_WIDTH,
                ConsoleType::GameBoyAdvance => GBA_WIDTH,
            }),
    {
        match self {
            ConsoleType::GameBoyColor => GBC_WIDTH,
            ConsoleType::GameBoyAdvance => GBA_WIDTH,
        }
    }

    /// Screen height in pixels.
    pub fn screen_height(self) -> (h: usize)
        ensures
            h == (match self {
                ConsoleType::GameBoyColor => GBC_HEIGHT,
                ConsoleType::GameBoyAdvance => GBA_HEIGHT,
            }),
    {
        match self {
            ConsoleType::GameBoyColor => GBC_HEIGHT,
            ConsoleType::GameBoyAdvance => GBA_HEIGHT,
        }
    }
}

} // verus!
