use vstd::prelude::*;
use vstd::string::StrSliceExecFns;

use crate::cpu::arm7tdmi::{advanced, fetch, irq_spec, step_defined, step_spec, swi_bus, Arm7Tdmi, ArmState};
use crate::memory::nds_bus::{
    arm7_irq_pending, arm9_irq_pending, Arm9View, NdsBusView, NdsRegs,
    load_section_spec, nds_bus_wf, section_bytes, NdsArm9Side, NdsBus, NdsMemory, NdsMemoryView,
};
use crate::emulator::nds_frame::{display_fits, lemma_reset_regs_fit, nds_picture};
use crate::text::{dec_digits, hex_digits, push_dec, push_hex};
use crate::{NDS_HEIGHT, NDS_WIDTH};

verus! {

/// Height of each of the two screens.
pub const NDS_SCREEN_HEIGHT: usize = 192;

/// Size of the cartridge header.
pub const NDS_HEADER_SIZE: usize = 0x170;

/// ARM9 cycles run per frame.
pub const NDS_ARM9_CYCLES_PER_FRAME: u32 = 1_117_132;

/// ARM7 cycles run per frame.
pub const NDS_ARM7_CYCLES_PER_FRAME: u32 = 558_566;

/// Pixels of one screen.
pub const NDS_SCREEN_PIXELS: usize = 49152;

/// Bytes of one screen at 16 bits per pixel.
pub const NDS_SCREEN_BYTES_16BPP: usize = 98304;

/// Start of the main screen's preview in VRAM.
pub const MAIN_SCREEN_VRAM_OFFSET: usize = 0x00000;

/// Start of the sub screen's preview in VRAM.
pub const SUB_SCREEN_VRAM_OFFSET: usize = 0x20000;

/// DISPCNT bit that routes the 3D engine to BG0.
pub const ENABLE_3D_BIT: u32 = 0x8;

/// DISP3DCNT bit that selects a rear-plane bitmap over the clear colour.
pub const DISP3DCNT_CLEAR_BMP_BIT: u16 = 0x4000;

/// DISPCNT bit that enables sprites.
pub const OBJ_ENABLE_BIT: u32 = 0x1000;

/// DISPCNT bit that selects one-dimensional sprite tile mapping.
pub const OBJ_1D_MAPPING_BIT: u32 = 0x10;

/// Byte offset of the main engine's background palette.
pub const MAIN_BG_PALETTE_OFFSET: usize = 0x000;

/// Byte offset of the main engine's sprite palette.
pub const MAIN_OBJ_PALETTE_OFFSET: usize = 0x200;

/// Byte offset of the sub engine's background palette.
pub const SUB_BG_PALETTE_OFFSET: usize = 0x400;

/// Byte offset of the sub engine's sprite palette.
pub const SUB_OBJ_PALETTE_OFFSET: usize = 0x600;

/// Bytes of OAM that belong to one screen (128 sprites of 8 bytes).
pub const OAM_SCREEN_BYTES: usize = 0x400;

// ---------------------------------------------------------------------------
// The cartridge header
// ---------------------------------------------------------------------------

/// The fields of a Nintendo DS cartridge header that the emulator uses.
#[derive(Debug, Clone, PartialEq, Eq)]
pub struct NdsRomHeader {
    pub game_title: String,
    pub game_code: String,
    pub maker_code: String,
    pub unit_code: u8,
    pub device_type: u8,
    pub device_capacity: u8,
    pub arm9_rom_offset: u32,
    pub arm9_entry_address: u32,
    pub arm9_ram_address: u32,
    pub arm9_size: u32,
    pub arm7_rom_offset: u32,
    pub arm7_entry_address: u32,
    pub arm7_ram_address: u32,
    pub arm7_size: u32,
}

/// The characters that `String::from_utf8_lossy` decodes from `bytes`.
pub uninterp spec fn utf8_lossy(bytes: Seq<u8>) -> Seq<char>;

/// Bytes read as the characters with the same codes.
pub open spec fn ascii_chars(bytes: Seq<u8>) -> Seq<char> {
    Seq::new(bytes.len(), |i: int| bytes[i] as char)
}

/// Calls `String::from_utf8_lossy`: the bytes decoded as UTF-8, each invalid
/// sequence replaced by U+FFFD. Bytes that are all ASCII decode to the
/// characters with the same codes, UTF-8 being a superset of ASCII.
#[verifier::external_body]
fn decode_lossy(bytes: &[u8]) -> (s: String)
    ensures
        s@ == utf8_lossy(bytes@),
        (forall|i: int| 0 <= i < bytes@.len() ==> bytes@[i] < 0x80) ==> s@ == ascii_chars(bytes@),
{
    String::from_utf8_lossy(bytes).into_owned()
}

/// Whether a character has the Unicode `White_Space` property: tab through
/// carriage return, space, NEL, no-break space, ogham space mark, the
/// spaces U+2000-U+200A, line and paragraph separators, narrow no-break
/// space, medium mathematical space and ideographic space.
pub open spec fn white_space(c: char) -> bool {
    let u = c as u32;
    ||| 9 <= u <= 13
    ||| u == 0x20
    ||| u == 0x85
    ||| u == 0xA0
    ||| u == 0x1680
    ||| 0x2000 <= u <= 0x200A
    ||| u == 0x2028
    ||| u == 0x2029
    ||| u == 0x202F
    ||| u == 0x205F
    ||| u == 0x3000
}

/// Whether `c` has the Unicode `White_Space` property, as
/// `char::is_whitespace` answers.
fn is_white_space(c: char) -> (b: bool)
    ensures
        b == white_space(c),
{
    let u = c as u32;
    (9 <= u && u <= 13) || u == 0x20 || u == 0x85 || u == 0xA0 || u == 0x1680 || (0x2000 <= u && u <= 0x200A)
        || u == 0x2028 || u == 0x2029 || u == 0x202F || u == 0x205F || u == 0x3000
}

/// The characters that a trim removes: NUL, or white space.
pub open spec fn trimmed_at(c: char, nul: bool) -> bool {
    if nul {
        c as u32 == 0
    } else {
        white_space(c)
    }
}

/// `s` with the trimmed characters removed from both ends.
pub open spec fn trim_edges(s: Seq<char>, nul: bool) -> Seq<char>
    decreases s.len(),
{
    if s.len() > 0 && trimmed_at(s[0], nul) {
        trim_edges(s.drop_first(), nul)
    } else if s.len() > 0 && trimmed_at(s.last(), nul) {
        trim_edges(s.drop_last(), nul)
    } else {
        s
    }
}

/// A text field of the header: decoded, then NULs and then white space
/// trimmed from both ends.
pub open spec fn header_text(rom: Seq<u8>, offset: int, len: int) -> Seq<char> {
    trim_edges(trim_edges(utf8_lossy(rom.subrange(offset, offset + len)), true), false)
}

/// Whether the header text field at `offset` is all ASCII.
pub open spec fn ascii_field(rom: Seq<u8>, offset: int, len: int) -> bool {
    forall|i: int| offset <= i < offset + len ==> rom[i] < 0x80
}

/// An ASCII header text field: its bytes as characters, trimmed.
pub open spec fn ascii_text(rom: Seq<u8>, offset: int, len: int) -> Seq<char> {
    trim_edges(trim_edges(ascii_chars(rom.subrange(offset, offset + len)), true), false)
}

/// The little-endian word at `off`.
pub open spec fn le_u32(rom: Seq<u8>, off: int) -> u32 {
    (rom[off] + rom[off + 1] * 256 + rom[off + 2] * 65536 + rom[off + 3] * 16777216) as u32
}

/// A program section lies in the ROM: it is not empty, its end fits in 32
/// bits and does not pass the ROM's end.
pub open spec fn section_fits(offset: u32, size: u32, rom_len: nat) -> bool {
    size > 0 && offset + size <= u32::MAX && offset + size <= rom_len
}

/// What is wrong with a program section, if anything.
pub open spec fn section_error(name: Seq<char>, offset: u32, size: u32, rom_len: nat) -> Option<Seq<char>> {
    if size == 0 {
        Some(name + " program section has zero length"@)
    } else if offset + size > u32::MAX {
        Some(name + " program section overflows the header range"@)
    } else if offset + size > rom_len {
        Some(
            name + " program section exceeds ROM size: end=0x"@ + hex_digits((offset + size) as nat)
                + ", rom_len=0x"@ + hex_digits(rom_len),
        )
    } else {
        None
    }
}

/// The message for a ROM shorter than a header.
pub open spec fn too_small_message(len: nat) -> Seq<char> {
    "ROM is too small for an NDS header: expected at least "@ + dec_digits(NDS_HEADER_SIZE as nat)
        + " bytes, got "@ + dec_digits(len)
}

/// Why `rom` has no usable header, if it has none: too short, or a program
/// section (ARM9 first) outside it.
pub open spec fn parse_error(rom: Seq<u8>) -> Option<Seq<char>> {
    if rom.len() < NDS_HEADER_SIZE {
        Some(too_small_message(rom.len()))
    } else {
        match section_error("ARM9"@, le_u32(rom, 0x20), le_u32(rom, 0x2C), rom.len()) {
            Some(e) => Some(e),
            None => section_error("ARM7"@, le_u32(rom, 0x30), le_u32(rom, 0x3C), rom.len()),
        }
    }
}

/// `h` holds the header fields of `rom`.
pub open spec fn header_fields(rom: Seq<u8>, h: NdsRomHeader) -> bool {
    &&& h.game_title@ == header_text(rom, 0x000, 12)
    &&& h.game_code@ == header_text(rom, 0x00C, 4)
    &&& h.maker_code@ == header_text(rom, 0x010, 2)
    &&& ascii_field(rom, 0x000, 12) ==> h.game_title@ == ascii_text(rom, 0x000, 12)
    &&& ascii_field(rom, 0x00C, 4) ==> h.game_code@ == ascii_text(rom, 0x00C, 4)
    &&& ascii_field(rom, 0x010, 2) ==> h.maker_code@ == ascii_text(rom, 0x010, 2)
    &&& h.unit_code == rom[0x012]
    &&& h.device_type == rom[0x013]
    &&& h.device_capacity == rom[0x014]
    &&& h.arm9_rom_offset == le_u32(rom, 0x020)
    &&& h.arm9_entry_address == le_u32(rom, 0x024)
    &&& h.arm9_ram_address == le_u32(rom, 0x028)
    &&& h.arm9_size == le_u32(rom, 0x02C)
    &&& h.arm7_rom_offset == le_u32(rom, 0x030)
    &&& h.arm7_entry_address == le_u32(rom, 0x034)
    &&& h.arm7_ram_address == le_u32(rom, 0x038)
    &&& h.arm7_size == le_u32(rom, 0x03C)
}

/// The title shown for a header.
pub open spec fn display_title_spec(title: Seq<char>) -> Seq<char> {
    if title.len() == 0 {
        "Untitled NDS ROM"@
    } else {
        title
    }
}

/// Whether `c` is removed by the trim.
fn trims(c: char, nul: bool) -> (b: bool)
    ensures
        b == trimmed_at(c, nul),
{
    if nul {
        c as u32 == 0
    } else {
        is_white_space(c)
    }
}

/// The characters of `v` with the trimmed ones removed from both ends.
fn trim_vec(v: &Vec<char>, nul: bool) -> (r: Vec<char>)
    ensures
        r@ == trim_edges(v@, nul),
{
    let len = v.len();
    let mut start: usize = 0;
    assert(v@.subrange(0, len as int) =~= v@);
    loop
        invariant
            start <= len == v@.len(),
            trim_edges(v@, nul) == trim_edges(v@.subrange(start as int, len as int), nul),
        ensures
            start <= len,
            trim_edges(v@, nul) == trim_edges(v@.subrange(start as int, len as int), nul),
            start < len ==> !trimmed_at(v@[start as int], nul),
        decreases len - start,
    {
        if start >= len {
            break;
        }
        if !trims(v[start], nul) {
            break;
        }
        assert(v@.subrange(start as int, len as int).drop_first() =~= v@.subrange(start + 1, len as int));
        start = start + 1;
    }
    let mut end: usize = len;
    loop
        invariant
            start <= end <= len == v@.len(),
            trim_edges(v@, nul) == trim_edges(v@.subrange(start as int, end as int), nul),
            start < end ==> !trimmed_at(v@[start as int], nul),
        ensures
            start <= end <= len,
            trim_edges(v@, nul) == trim_edges(v@.subrange(start as int, end as int), nul),
            start < end ==> !trimmed_at(v@[start as int], nul) && !trimmed_at(v@[end - 1], nul),
        decreases end - start,
    {
        if end <= start {
            break;
        }
        if !trims(v[end - 1], nul) {
            break;
        }
        assert(v@.subrange(start as int, end as int).drop_last() =~= v@.subrange(start as int, end - 1));
        end = end - 1;
    }
    let mut r: Vec<char> = Vec::new();
    let mut i: usize = start;
    while i < end
        invariant
            start <= i <= end <= v@.len(),
            r@ == v@.subrange(start as int, i as int),
        decreases end - i,
    {
        r.push(v[i]);
        i = i + 1;
        assert(r@ =~= v@.subrange(start as int, i as int));
    }
    r
}

/// The characters of a string.
fn chars_of(s: &String) -> (v: Vec<char>)
    ensures
        v@ == s@,
{
    let st = s.as_str();
    let n = st.unicode_len();
    let mut v: Vec<char> = Vec::new();
    let mut i: usize = 0;
    while i < n
        invariant
            i <= n,
            n == st@.len(),
            st@ == s@,
            v@ == st@.subrange(0, i as int),
        decreases n - i,
    {
        v.push(st.get_char(i));
        i = i + 1;
        assert(v@ =~= st@.subrange(0, i as int));
    }
    assert(v@ =~= s@);
    v
}

/// A string of the given characters.
fn string_of(v: &Vec<char>) -> (s: String)
    ensures
        s@ == v@,
{
    let mut s = String::new();
    let mut i: usize = 0;
    while i < v.len()
        invariant
            i <= v@.len(),
            s@ == v@.subrange(0, i as int),
        decreases v.len() - i,
    {
        s.push(v[i]);
        i = i + 1;
        assert(s@ =~= v@.subrange(0, i as int));
    }
    assert(s@ =~= v@);
    s
}

impl NdsRomHeader {
    /// Reads the header of `rom`, checking that both program sections lie
    /// in it.
    pub fn parse(rom: &[u8]) -> (r: Result<Self, String>)
        ensures
            match parse_error(rom@) {
                Some(e) => r matches Err(msg) && msg@ == e,
                None => r matches Ok(h) && header_fields(rom@, h) && section_fits(
                    h.arm9_rom_offset,
                    h.arm9_size,
                    rom@.len(),
                ) && section_fits(h.arm7_rom_offset, h.arm7_size, rom@.len()),
            },
    {
        if rom.len() < NDS_HEADER_SIZE {
            let mut msg = String::new();
            msg.push_str("ROM is too small for an NDS header: expected at least ");
            push_dec(&mut msg, NDS_HEADER_SIZE as u64);
            msg.push_str(" bytes, got ");
            push_dec(&mut msg, rom.len() as u64);
            proof {
                reveal_strlit("ROM is too small for an NDS header: expected at least ");
                reveal_strlit(" bytes, got ");
            }
            assert(msg@ =~= too_small_message(rom@.len()));
            return Err(msg);
        }
        let header = NdsRomHeader {
            game_title: Self::read_ascii(rom, 0x000, 12),
            game_code: Self::read_ascii(rom, 0x00C, 4),
            maker_code: Self::read_ascii(rom, 0x010, 2),
            unit_code: rom[0x012],
            device_type: rom[0x013],
            device_capacity: rom[0x014],
            arm9_rom_offset: Self::read_u32(rom, 0x020),
            arm9_entry_address: Self::read_u32(rom, 0x024),
            arm9_ram_address: Self::read_u32(rom, 0x028),
            arm9_size: Self::read_u32(rom, 0x02C),
            arm7_rom_offset: Self::read_u32(rom, 0x030),
            arm7_entry_address: Self::read_u32(rom, 0x034),
            arm7_ram_address: Self::read_u32(rom, 0x038),
            arm7_size: Self::read_u32(rom, 0x03C),
        };
        match header.validate(rom.len()) {
            Ok(()) => Ok(header),
            Err(e) => Err(e),
        }
    }

    /// The game title, or a stand-in when the header has none.
    pub fn display_title(&self) -> (t: &str)
        ensures
            t@ == display_title_spec(self.game_title@),
    {
        if self.game_title.as_str().is_empty() {
            "Untitled NDS ROM"
        } else {
            self.game_title.as_str()
        }
    }

    /// Checks the ARM9 and then the ARM7 section against the ROM length.
    fn validate(&self, rom_len: usize) -> (r: Result<(), String>)
        ensures
            match section_error("ARM9"@, self.arm9_rom_offset, self.arm9_size, rom_len as nat) {
                Some(e) => r matches Err(msg) && msg@ == e,
                None => match section_error("ARM7"@, self.arm7_rom_offset, self.arm7_size, rom_len as nat) {
                    Some(e) => r matches Err(msg) && msg@ == e,
                    None => r is Ok,
                },
            },
    {
        proof {
            reveal_strlit("ARM9");
            reveal_strlit("ARM7");
        }
        match Self::validate_section("ARM9", self.arm9_rom_offset, self.arm9_size, rom_len) {
            Ok(()) => {},
            Err(e) => {
                return Err(e);
            },
        }
        Self::validate_section("ARM7", self.arm7_rom_offset, self.arm7_size, rom_len)
    }

    /// Checks that a program section is not empty and lies in the ROM.
    fn validate_section(name: &str, rom_offset: u32, size: u32, rom_len: usize) -> (r: Result<(), String>)
        ensures
            match section_error(name@, rom_offset, size, rom_len as nat) {
                Some(e) => r matches Err(msg) && msg@ == e,
                None => r is Ok,
            },
    {
        proof {
            reveal_strlit(" program section has zero length");
            reveal_strlit(" program section overflows the header range");
            reveal_strlit(" program section exceeds ROM size: end=0x");
            reveal_strlit(", rom_len=0x");
        }
        if size == 0 {
            let mut msg = String::new();
            msg.push_str(name);
            msg.push_str(" program section has zero length");
            assert(msg@ =~= name@ + " program section has zero length"@);
            return Err(msg);
        }
        let end = match rom_offset.checked_add(size) {
            Some(e) => e,
            None => {
                let mut msg = String::new();
                msg.push_str(name);
                msg.push_str(" program section overflows the header range");
                assert(msg@ =~= name@ + " program section overflows the header range"@);
                return Err(msg);
            },
        };
        if end as usize > rom_len {
            let mut msg = String::new();
            msg.push_str(name);
            msg.push_str(" program section exceeds ROM size: end=0x");
            push_hex(&mut msg, end as u64);
            msg.push_str(", rom_len=0x");
            push_hex(&mut msg, rom_len as u64);
            assert(msg@ =~= name@ + " program section exceeds ROM size: end=0x"@ + hex_digits(
                (rom_offset + size) as nat,
            ) + ", rom_len=0x"@ + hex_digits(rom_len as nat));
            return Err(msg);
        }
        Ok(())
    }

    /// A text field: decoded leniently, NULs and then white space trimmed.
    fn read_ascii(rom: &[u8], offset: usize, len: usize) -> (s: String)
        requires
            offset + len <= rom@.len(),
        ensures
            s@ == header_text(rom@, offset as int, len as int),
            ascii_field(rom@, offset as int, len as int) ==> s@ == ascii_text(rom@, offset as int, len as int),
    {
        let n = rom.len();
        assert(offset + len <= n);
        let bytes = vstd::slice::slice_subrange(rom, offset, offset + len);
        assert(ascii_field(rom@, offset as int, len as int) ==> forall|i: int|
            0 <= i < bytes@.len() ==> bytes@[i] < 0x80);
        let decoded = decode_lossy(bytes);
        let chars = chars_of(&decoded);
        let no_nul = trim_vec(&chars, true);
        let trimmed = trim_vec(&no_nul, false);
        string_of(&trimmed)
    }

    /// The little-endian word at `offset`.
    fn read_u32(rom: &[u8], offset: usize) -> (v: u32)
        requires
            offset + 4 <= rom@.len(),
        ensures
            v == le_u32(rom@, offset as int),
    {
        rom[offset] as u32 + (rom[offset + 1] as u32) * 256 + (rom[offset + 2] as u32) * 65536 + (rom[offset
            + 3] as u32) * 16777216
    }
}

// ---------------------------------------------------------------------------
// The processors and the emulator
// ---------------------------------------------------------------------------

/// A core just after boot: `pc`, the stack pointers of System, IRQ and
/// Supervisor mode, and otherwise the reset state.
pub open spec fn booted_core(cpu: Arm7Tdmi, pc: u32, sp: u32, irq_sp: u32, svc_sp: u32) -> bool {
    &&& cpu.regs[15] == pc
    &&& cpu.regs[13] == sp
    &&& forall|i: int| 0 <= i < 13 ==> cpu.regs[i] == 0
    &&& cpu.regs[14] == 0
    &&& cpu.cpsr == 0x1F
    &&& forall|i: int| 0 <= i < 6 ==> cpu.spsr[i] == 0
    &&& forall|b: int, i: int|
        0 <= b < 6 && 0 <= i < 7 ==> cpu.banked_regs[b][i] == if b == 2 && i == 5 {
            irq_sp
        } else if b == 3 && i == 5 {
            svc_sp
        } else {
            0u32
        }
    &&& cpu.cycles == 0
    &&& !cpu.halted
}

/// The core reset and given a program counter and the stacks.
fn boot_core(pc: u32, sp: u32, irq_sp: u32, svc_sp: u32) -> (cpu: Arm7Tdmi)
    ensures
        booted_core(cpu, pc, sp, irq_sp, svc_sp),
{
    let mut cpu = Arm7Tdmi::new();
    cpu.regs[15] = pc;
    cpu.regs[13] = sp;
    cpu.banked_regs[2][5] = irq_sp;
    cpu.banked_regs[3][5] = svc_sp;
    cpu
}

/// The ARM946E-S main processor, run by the ARM7TDMI core model.
pub struct NdsArm9 {
    pub cpu: Arm7Tdmi,
}

impl NdsArm9 {
    /// The ARM9 booted at `entry_address` (word-aligned), with its stacks at
    /// the top of main RAM.
    pub fn new(entry_address: u32) -> (a: Self)
        ensures
            booted_core(a.cpu, entry_address & !3u32, 0x0203_FF00, 0x0203_FE00, 0x0203_FF80),
    {
        NdsArm9 { cpu: boot_core(entry_address & !3u32, 0x0203_FF00, 0x0203_FE00, 0x0203_FF80) }
    }
}

/// The memories after loading the ARM9 and then the ARM7 program that
/// `rom`'s header names, or the loading error.
pub open spec fn nds_boot_memory(rom: Seq<u8>) -> Result<NdsMemoryView, Seq<char>> {
    match load_section_spec(
        NdsMemory::new_view(),
        "ARM9"@,
        le_u32(rom, 0x028),
        section_bytes(rom, le_u32(rom, 0x020), le_u32(rom, 0x02C)),
    ) {
        Ok(m) => load_section_spec(
            m,
            "ARM7"@,
            le_u32(rom, 0x038),
            section_bytes(rom, le_u32(rom, 0x030), le_u32(rom, 0x03C)),
        ),
        Err(e) => Err(e),
    }
}

/// The accent seed: each byte folded in as `seed * 33 + byte`, wrapping.
pub open spec fn accent_seed(bytes: Seq<u8>) -> u32
    decreases bytes.len(),
{
    if bytes.len() == 0 {
        0
    } else {
        ((accent_seed(bytes.drop_last()) * 33 + bytes.last()) % 0x1_0000_0000) as u32
    }
}

/// An opaque colour from its channels.
pub open spec fn argb_spec(r: u8, g: u8, b: u8) -> u32 {
    0xFF00_0000u32 | ((r as u32) << 16u32) | ((g as u32) << 8u32) | (b as u32)
}

/// The accent colour of a header: its game and maker codes hashed.
pub open spec fn accent_color(h: NdsRomHeader) -> u32 {
    let seed = accent_seed(
        vstd::utf8::encode_utf8(h.game_code@) + vstd::utf8::encode_utf8(h.maker_code@),
    );
    argb_spec(
        (64 + (seed & 0x3F)) as u8,
        (96 + ((seed >> 8u32) & 0x3F)) as u8,
        (128 + ((seed >> 16u32) & 0x3F)) as u8,
    )
}

/// The sweep line of a frame: it moves two lines a frame down each screen.
pub open spec fn sweep_line(total_frames: u64) -> int {
    (total_frames * 2) % (NDS_SCREEN_HEIGHT as int)
}

/// A pixel of the stand-in picture: a border, the accent sweep line, and a
/// dark fill that differs between the two screens.
pub open spec fn placeholder_pixel(x: int, y: int, accent: u32, sweep: int) -> u32 {
    let in_top = y < NDS_SCREEN_HEIGHT;
    let sy = if in_top {
        y
    } else {
        y - NDS_SCREEN_HEIGHT
    };
    let border = x < 4 || x >= NDS_WIDTH - 4 || sy < 4 || sy >= NDS_SCREEN_HEIGHT - 4;
    let dist = if sy >= sweep {
        sy - sweep
    } else {
        sweep - sy
    };
    if border {
        argb_spec(42, 48, 56)
    } else if dist <= 1 {
        accent
    } else if in_top {
        argb_spec(22, 28, 36)
    } else {
        argb_spec(18, 23, 30)
    }
}

/// The stand-in picture of both screens, row by row.
pub open spec fn placeholder_frame(h: NdsRomHeader, total_frames: u64) -> Seq<u32> {
    Seq::new(
        (NDS_WIDTH * NDS_HEIGHT) as nat,
        |i: int| placeholder_pixel(i % (NDS_WIDTH as int), i / (NDS_WIDTH as int), accent_color(h), sweep_line(total_frames)),
    )
}

/// An opaque colour from its channels.
fn argb(r: u8, g: u8, b: u8) -> (c: u32)
    ensures
        c == argb_spec(r, g, b),
{
    0xFF00_0000u32 | ((r as u32) << 16u32) | ((g as u32) << 8u32) | (b as u32)
}

/// Folds bytes into the accent seed.
fn fold_seed(seed: u32, prefix: Ghost<Seq<u8>>, bytes: &[u8]) -> (r: u32)
    requires
        seed == accent_seed(prefix@),
    ensures
        r == accent_seed(prefix@ + bytes@),
{
    let mut acc = seed;
    let mut i: usize = 0;
    while i < bytes.len()
        invariant
            i <= bytes@.len(),
            acc == accent_seed(prefix@ + bytes@.subrange(0, i as int)),
        decreases bytes.len() - i,
    {
        assert((prefix@ + bytes@.subrange(0, i + 1)).drop_last() =~= prefix@ + bytes@.subrange(0, i as int));
        acc = (((acc as u64) * 33 + bytes[i] as u64) % 0x1_0000_0000) as u32;
        i = i + 1;
    }
    assert(bytes@.subrange(0, bytes@.len() as int) =~= bytes@);
    acc
}

/// `(y * width + x)` splits back into `x` and `y`.
proof fn lemma_row_index(x: int, y: int, width: int)
    by (nonlinear_arith)
    requires
        0 <= x < width,
        0 <= y,
    ensures
        (y * width + x) % width == x,
        (y * width + x) / width == y,
{
}

/// Where a processor's slice has got to: its core, the bus, the cycles run,
/// and whether it stopped early.
pub struct NdsSliceState {
    pub cpu: ArmState,
    pub bus: NdsBusView,
    pub done: u64,
    pub stopped: bool,
}

/// The bus after the ARM7 ran `cycles` cycles: its counter advanced, and
/// its halt released by a pending interrupt.
pub open spec fn nds_tick7(b: NdsBusView, cycles: u32) -> NdsBusView {
    NdsBusView {
        regs: NdsRegs {
            cycles: (b.regs.cycles + cycles) as u64,
            halt: b.regs.halt && !arm7_irq_pending(b.regs),
            ..b.regs
        },
        ..b
    }
}

/// The bus after the ARM9 ran `cycles` cycles.
pub open spec fn nds_tick9(b: NdsBusView, cycles: u32) -> NdsBusView {
    NdsBusView {
        regs: NdsRegs {
            arm9_cycles: (b.regs.arm9_cycles + cycles) as u64,
            arm9_halt: b.regs.arm9_halt && !arm9_irq_pending(b.regs),
            ..b.regs
        },
        ..b
    }
}

/// One ARM7 step of a slice: a HALTCNT write halts the core, a pending
/// interrupt is taken, the core steps, and the bus counts the cycles. The
/// slice stops when a counter nears its limit, at an instruction the core
/// cannot run (the bus as after its fetch), or at a step of no cycles.
#[verifier::opaque]
pub open spec fn arm7_slice_step(s: NdsSliceState) -> NdsSliceState {
    let (c1, b1) = if s.bus.regs.halt {
        (ArmState { halted: true, ..s.cpu }, NdsBusView { regs: NdsRegs { halt: false, ..s.bus.regs }, ..s.bus })
    } else {
        (s.cpu, s.bus)
    };
    let c = if arm7_irq_pending(b1.regs) { irq_spec(c1) } else { c1 };
    if c.cycles > u64::MAX - 0xFFFF_FFFF {
        NdsSliceState { cpu: c, bus: b1, done: s.done, stopped: true }
    } else if !step_defined(c, b1) {
        NdsSliceState { cpu: c, bus: swi_bus(advanced(c), fetch(c, b1).1), done: s.done, stopped: true }
    } else {
        let (c2, b2, cycles) = step_spec(c, b1);
        if cycles == 0 || b2.regs.cycles > u64::MAX - cycles {
            NdsSliceState { cpu: c2, bus: b2, done: s.done, stopped: true }
        } else {
            NdsSliceState { cpu: c2, bus: nds_tick7(b2, cycles), done: (s.done + cycles) as u64, stopped: false }
        }
    }
}

/// One ARM9 step of a slice, as `arm7_slice_step` with the ARM9's view of
/// the bus and its own registers.
#[verifier::opaque]
pub open spec fn arm9_slice_step(s: NdsSliceState) -> NdsSliceState {
    let (c1, b1) = if s.bus.regs.arm9_halt {
        (ArmState { halted: true, ..s.cpu }, NdsBusView { regs: NdsRegs { arm9_halt: false, ..s.bus.regs }, ..s.bus })
    } else {
        (s.cpu, s.bus)
    };
    let c = if arm9_irq_pending(b1.regs) { irq_spec(c1) } else { c1 };
    let v = Arm9View { bus: b1 };
    if c.cycles > u64::MAX - 0xFFFF_FFFF {
        NdsSliceState { cpu: c, bus: b1, done: s.done, stopped: true }
    } else if !step_defined(c, v) {
        NdsSliceState { cpu: c, bus: swi_bus(advanced(c), fetch(c, v).1).bus, done: s.done, stopped: true }
    } else {
        let (c2, v2, cycles) = step_spec(c, v);
        if cycles == 0 || v2.bus.regs.arm9_cycles > u64::MAX - cycles {
            NdsSliceState { cpu: c2, bus: v2.bus, done: s.done, stopped: true }
        } else {
            NdsSliceState { cpu: c2, bus: nds_tick9(v2.bus, cycles), done: (s.done + cycles) as u64, stopped: false }
        }
    }
}

/// Steps (ARM9 when `arm9`, else ARM7) until `target` cycles are done, at
/// most `fuel` steps, or the slice stops.
pub open spec fn slice_run(s: NdsSliceState, arm9: bool, target: u32, fuel: nat) -> NdsSliceState
    decreases fuel,
{
    if fuel == 0 || s.stopped || s.done >= target {
        s
    } else {
        slice_run(if arm9 { arm9_slice_step(s) } else { arm7_slice_step(s) }, arm9, target, (fuel - 1) as nat)
    }
}

/// A whole slice of `target` cycles from `cpu` and `bus`.
pub open spec fn slice_spec(cpu: ArmState, bus: NdsBusView, arm9: bool, target: u32) -> NdsSliceState {
    slice_run(NdsSliceState { cpu, bus, done: 0, stopped: false }, arm9, target, target as nat + 1)
}

/// The emulator's buffers have their sizes and the bus its memories.
pub open spec fn nds_emu_wf(e: NdsEmulator) -> bool {
    &&& nds_bus_wf(e.bus@)
    &&& e.main_3d_framebuffer@.len() == NDS_SCREEN_PIXELS
    &&& e.framebuffer@.len() == NDS_WIDTH * NDS_HEIGHT
}

/// The display registers of one 2D engine.
#[derive(Clone, Copy)]
pub struct NdsDisplayRegs {
    pub dispcnt: u32,
    pub bgcnt: [u16; 4],
    pub bghofs: [u16; 4],
    pub bgvofs: [u16; 4],
    pub bg_pa: [i16; 2],
    pub bg_pb: [i16; 2],
    pub bg_pc: [i16; 2],
    pub bg_pd: [i16; 2],
    pub bg_ref_x: [i32; 2],
    pub bg_ref_y: [i32; 2],
    pub master_bright: u16,
    pub disp3dcnt: u16,
    pub clear_color: u32,
}

/// Every display register cleared, as at power-on.
pub open spec fn display_regs_reset() -> NdsDisplayRegs {
    NdsDisplayRegs {
        dispcnt: 0,
        bgcnt: [0u16, 0u16, 0u16, 0u16],
        bghofs: [0u16, 0u16, 0u16, 0u16],
        bgvofs: [0u16, 0u16, 0u16, 0u16],
        bg_pa: [0i16, 0i16],
        bg_pb: [0i16, 0i16],
        bg_pc: [0i16, 0i16],
        bg_pd: [0i16, 0i16],
        bg_ref_x: [0i32, 0i32],
        bg_ref_y: [0i32, 0i32],
        master_bright: 0,
        disp3dcnt: 0,
        clear_color: 0,
    }
}

impl NdsDisplayRegs {
    /// The registers at power-on: all clear.
    pub fn new() -> (d: Self)
        ensures
            d == display_regs_reset(),
    {
        NdsDisplayRegs {
            dispcnt: 0,
            bgcnt: [0u16, 0u16, 0u16, 0u16],
            bghofs: [0u16, 0u16, 0u16, 0u16],
            bgvofs: [0u16, 0u16, 0u16, 0u16],
            bg_pa: [0i16, 0i16],
            bg_pb: [0i16, 0i16],
            bg_pc: [0i16, 0i16],
            bg_pd: [0i16, 0i16],
            bg_ref_x: [0i32, 0i32],
            bg_ref_y: [0i32, 0i32],
            master_bright: 0,
            disp3dcnt: 0,
            clear_color: 0,
        }
    }
}

/// A Nintendo DS: the two processors on their shared bus, and the display
/// registers of its two 2D engines.
pub struct NdsEmulator {
    pub header: NdsRomHeader,
    pub arm7: Arm7Tdmi,
    pub arm9: NdsArm9,
    pub bus: NdsBus,
    pub ppu_main: NdsDisplayRegs,
    pub ppu_sub: NdsDisplayRegs,
    pub main_3d_framebuffer: Vec<u16>,
    pub framebuffer: Vec<u32>,
    pub total_frames: u64,
}

impl NdsEmulator {
    /// Boots `rom`: reads its header, loads both programs, and points each
    /// processor at its entry; the header or loading error otherwise.
    pub fn new(rom: Vec<u8>) -> (r: Result<Self, String>)
        ensures
            match parse_error(rom@) {
                Some(e) => r matches Err(msg) && msg@ == e,
                None => match nds_boot_memory(rom@) {
                    Err(e) => r matches Err(msg) && msg@ == e,
                    Ok(m) => r matches Ok(emu) && nds_emu_wf(emu) && header_fields(rom@, emu.header)
                        && emu.bus@.mem == m && emu.bus@.rom == rom@ && booted_core(
                        emu.arm9.cpu,
                        le_u32(rom@, 0x024) & !3u32,
                        0x0203_FF00,
                        0x0203_FE00,
                        0x0203_FF80,
                    ) && booted_core(
                        emu.arm7,
                        le_u32(rom@, 0x034) & !3u32,
                        0x0380_FD80,
                        0x0380_FCC0,
                        0x0380_FDC0,
                    ) && emu.main_3d_framebuffer@ == Seq::new(NDS_SCREEN_PIXELS as nat, |i: int| 0u16)
                        && emu.ppu_main == display_regs_reset() && emu.ppu_sub == display_regs_reset()
                        && emu.framebuffer@ == nds_picture(emu) && emu.total_frames == 0,
                },
            },
    {
        let header = match NdsRomHeader::parse(rom.as_slice()) {
            Ok(h) => h,
            Err(e) => {
                return Err(e);
            },
        };
        let arm7 = boot_core(header.arm7_entry_address & !3u32, 0x0380_FD80, 0x0380_FCC0, 0x0380_FDC0);
        let arm9 = NdsArm9::new(header.arm9_entry_address);
        proof {
            reveal_strlit("ARM9");
            reveal_strlit("ARM7");
        }
        let ghost rom_view = rom@;
        let bus = match NdsBus::new(rom, &header) {
            Ok(b) => b,
            Err(e) => {
                return Err(e);
            },
        };
        let main_3d_framebuffer = vec![0u16; NDS_SCREEN_PIXELS];
        assert(main_3d_framebuffer@ =~= Seq::new(NDS_SCREEN_PIXELS as nat, |i: int| 0u16));
        let mut emu = NdsEmulator {
            header,
            arm7,
            arm9,
            bus,
            ppu_main: NdsDisplayRegs::new(),
            ppu_sub: NdsDisplayRegs::new(),
            main_3d_framebuffer,
            framebuffer: vec![0xFF11161Cu32; NDS_WIDTH * NDS_HEIGHT],
            total_frames: 0,
        };
        proof {
            lemma_reset_regs_fit();
        }
        emu.refresh_framebuffer();
        Ok(emu)
    }

    /// Draws the stand-in picture for the current frame, over which the
    /// engines draw: a border in the cartridge's accent colour and the
    /// sweep line.
    pub fn refresh_placeholder_framebuffer(&mut self)
        requires
            old(self).framebuffer@.len() == NDS_WIDTH * NDS_HEIGHT,
        ensures
            final(self).framebuffer@ == placeholder_frame(old(self).header, old(self).total_frames),
            final(self).header == old(self).header,
            final(self).arm7 == old(self).arm7,
            final(self).arm9 == old(self).arm9,
            final(self).bus == old(self).bus,
            final(self).main_3d_framebuffer == old(self).main_3d_framebuffer,
            final(self).ppu_main == old(self).ppu_main,
            final(self).ppu_sub == old(self).ppu_sub,
            final(self).total_frames == old(self).total_frames,
    {
        let seed0 = fold_seed(0, Ghost(Seq::empty()), self.header.game_code.as_str().as_bytes());
        let seed = fold_seed(
            seed0,
            Ghost(vstd::utf8::encode_utf8(self.header.game_code@)),
            self.header.maker_code.as_str().as_bytes(),
        );
        assert(Seq::<u8>::empty() + vstd::utf8::encode_utf8(self.header.game_code@) =~= vstd::utf8::encode_utf8(
            self.header.game_code@,
        ));
        proof {
            crate::bits::lemma_and_le_u32(seed, 0x3F);
            crate::bits::lemma_and_le_u32(seed >> 8u32, 0x3F);
            crate::bits::lemma_and_le_u32(seed >> 16u32, 0x3F);
        }
        let accent = argb(
            64 + (seed & 0x3F) as u8,
            96 + ((seed >> 8u32) & 0x3F) as u8,
            128 + ((seed >> 16u32) & 0x3F) as u8,
        );
        assert(accent == accent_color(self.header));
        let sweep: usize = ((self.total_frames % 96) * 2) as usize;
        assert(sweep == sweep_line(self.total_frames));
        let ghost frame = placeholder_frame(self.header, self.total_frames);
        let mut y: usize = 0;
        while y < NDS_HEIGHT
            invariant
                y <= NDS_HEIGHT,
                self.framebuffer@.len() == NDS_WIDTH * NDS_HEIGHT,
                frame == placeholder_frame(self.header, self.total_frames),
                accent == accent_color(self.header),
                sweep == sweep_line(self.total_frames),
                forall|k: int| 0 <= k < y * NDS_WIDTH ==> self.framebuffer@[k] == frame[k],
                self.header == old(self).header,
                self.arm7 == old(self).arm7,
                self.arm9 == old(self).arm9,
                self.bus == old(self).bus,
                self.main_3d_framebuffer == old(self).main_3d_framebuffer,
                self.ppu_main == old(self).ppu_main,
                self.ppu_sub == old(self).ppu_sub,
                self.total_frames == old(self).total_frames,
            decreases NDS_HEIGHT - y,
        {
            let in_top = y < NDS_SCREEN_HEIGHT;
            let screen_y = if in_top {
                y
            } else {
                y - NDS_SCREEN_HEIGHT
            };
            let mut x: usize = 0;
            while x < NDS_WIDTH
                invariant
                    y < NDS_HEIGHT,
                    x <= NDS_WIDTH,
                    in_top == (y < NDS_SCREEN_HEIGHT),
                    screen_y == if in_top { y } else { (y - NDS_SCREEN_HEIGHT) as usize },
                    self.framebuffer@.len() == NDS_WIDTH * NDS_HEIGHT,
                    frame == placeholder_frame(self.header, self.total_frames),
                    accent == accent_color(self.header),
                    sweep == sweep_line(self.total_frames),
                    forall|k: int| 0 <= k < y * NDS_WIDTH + x ==> self.framebuffer@[k] == frame[k],
                    self.header == old(self).header,
                    self.arm7 == old(self).arm7,
                    self.arm9 == old(self).arm9,
                    self.bus == old(self).bus,
                    self.main_3d_framebuffer == old(self).main_3d_framebuffer,
                    self.ppu_main == old(self).ppu_main,
                    self.ppu_sub == old(self).ppu_sub,
                    self.total_frames == old(self).total_frames,
                decreases NDS_WIDTH - x,
            {
                let idx = y * NDS_WIDTH + x;
                let border = x < 4 || x >= NDS_WIDTH - 4 || screen_y < 4 || screen_y >= NDS_SCREEN_HEIGHT - 4;
                let dist = if screen_y >= sweep {
                    screen_y - sweep
                } else {
                    sweep - screen_y
                };
                let color = if border {
                    argb(42, 48, 56)
                } else if dist <= 1 {
                    accent
                } else if in_top {
                    argb(22, 28, 36)
                } else {
                    argb(18, 23, 30)
                };
                proof {
                    lemma_row_index(x as int, y as int, NDS_WIDTH as int);
                }
                assert(color == frame[idx as int]);
                self.framebuffer.set(idx, color);
                x = x + 1;
            }
            y = y + 1;
        }
        assert(self.framebuffer@ =~= frame);
    }

    /// Runs the ARM9 until it has used `target_cycles` cycles, stopping
    /// early at an instruction the core cannot run or when a counter would
    /// overflow.
    pub fn run_arm9_slice(&mut self, target_cycles: u32)
        requires
            nds_emu_wf(*old(self)),
        ensures
            nds_emu_wf(*final(self)),
            ({
                let f = slice_spec(old(self).arm9.cpu@, old(self).bus@, true, target_cycles);
                final(self).arm9.cpu@ == f.cpu && final(self).bus@ == f.bus
            }),
            final(self).header == old(self).header,
            final(self).arm7 == old(self).arm7,
            final(self).framebuffer == old(self).framebuffer,
            final(self).main_3d_framebuffer == old(self).main_3d_framebuffer,
            final(self).ppu_main == old(self).ppu_main,
            final(self).ppu_sub == old(self).ppu_sub,
            final(self).total_frames == old(self).total_frames,
    {
        self.run_slice(target_cycles, true);
    }

    /// Runs the ARM7 until it has used `target_cycles` cycles, stopping
    /// early at an instruction the core cannot run or when a counter would
    /// overflow.
    pub fn run_arm7_slice(&mut self, target_cycles: u32)
        requires
            nds_emu_wf(*old(self)),
        ensures
            nds_emu_wf(*final(self)),
            ({
                let f = slice_spec(old(self).arm7@, old(self).bus@, false, target_cycles);
                final(self).arm7@ == f.cpu && final(self).bus@ == f.bus
            }),
            final(self).header == old(self).header,
            final(self).arm9 == old(self).arm9,
            final(self).framebuffer == old(self).framebuffer,
            final(self).main_3d_framebuffer == old(self).main_3d_framebuffer,
            final(self).ppu_main == old(self).ppu_main,
            final(self).ppu_sub == old(self).ppu_sub,
            final(self).total_frames == old(self).total_frames,
    {
        self.run_slice(target_cycles, false);
    }

    /// The core a slice runs.
    pub open spec fn slice_core(self, arm9: bool) -> ArmState {
        if arm9 {
            self.arm9.cpu@
        } else {
            self.arm7@
        }
    }

    /// The other processor and the rest of the machine stay as they are.
    pub open spec fn slice_frame(self, before: NdsEmulator, arm9: bool) -> bool {
        &&& self.header == before.header
        &&& (arm9 ==> self.arm7 == before.arm7)
        &&& (!arm9 ==> self.arm9 == before.arm9)
        &&& self.framebuffer == before.framebuffer
        &&& self.main_3d_framebuffer == before.main_3d_framebuffer
        &&& self.ppu_main == before.ppu_main
        &&& self.ppu_sub == before.ppu_sub
        &&& self.total_frames == before.total_frames
    }

    fn run_slice(&mut self, target_cycles: u32, arm9: bool)
        requires
            nds_emu_wf(*old(self)),
        ensures
            nds_emu_wf(*final(self)),
            ({
                let f = slice_spec(old(self).slice_core(arm9), old(self).bus@, arm9, target_cycles);
                final(self).slice_core(arm9) == f.cpu && final(self).bus@ == f.bus
            }),
            final(self).slice_frame(*old(self), arm9),
    {
        let mut done: u64 = 0;
        let ghost s0 = NdsSliceState { cpu: self.slice_core(arm9), bus: self.bus@, done: 0, stopped: false };
        let ghost fuel: nat = target_cycles as nat + 1;
        let ghost mut k: nat = 0;
        let ghost mut stopped = false;
        loop
            invariant_except_break
                k <= done,
                done < target_cycles || done == 0,
                !stopped,
            invariant
                nds_emu_wf(*self),
                self.slice_frame(*old(self), arm9),
                fuel == target_cycles as nat + 1,
                k <= fuel,
                s0 == (NdsSliceState { cpu: old(self).slice_core(arm9), bus: old(self).bus@, done: 0, stopped: false }),
                slice_run(
                    NdsSliceState { cpu: self.slice_core(arm9), bus: self.bus@, done, stopped },
                    arm9,
                    target_cycles,
                    (fuel - k) as nat,
                ) == slice_run(s0, arm9, target_cycles, fuel),
            ensures
                nds_emu_wf(*self),
                self.slice_frame(*old(self), arm9),
                slice_run(s0, arm9, target_cycles, fuel) == (NdsSliceState {
                    cpu: self.slice_core(arm9),
                    bus: self.bus@,
                    done,
                    stopped,
                }),
            decreases target_cycles - done,
        {
            let ghost cur = NdsSliceState { cpu: self.slice_core(arm9), bus: self.bus@, done, stopped };
            if done >= target_cycles as u64 {
                break;
            }
            assert(slice_run(cur, arm9, target_cycles, (fuel - k) as nat) == slice_run(
                if arm9 { arm9_slice_step(cur) } else { arm7_slice_step(cur) },
                arm9,
                target_cycles,
                (fuel - k - 1) as nat,
            ));
            let r = if arm9 {
                self.arm9_slice_step(done)
            } else {
                self.arm7_slice_step(done)
            };
            proof {
                k = k + 1;
            }
            match r {
                Some(d) => {
                    done = d;
                    if done >= target_cycles as u64 {
                        proof {
                            assert(slice_run(
                                NdsSliceState { cpu: self.slice_core(arm9), bus: self.bus@, done, stopped },
                                arm9,
                                target_cycles,
                                (fuel - k) as nat,
                            ) == NdsSliceState { cpu: self.slice_core(arm9), bus: self.bus@, done, stopped });
                        }
                        break;
                    }
                },
                None => {
                    proof {
                        stopped = true;
                    }
                    break;
                },
            }
        }
    }

    /// One ARM7 step of a slice (`arm7_slice_step`): the cycles done
    /// afterwards, or `None` when the slice stops.
    #[verifier::spinoff_prover]
    #[verifier::rlimit(60)]
    fn arm7_slice_step(&mut self, done: u64) -> (r: Option<u64>)
        requires
            nds_emu_wf(*old(self)),
            done <= u32::MAX,
        ensures
            nds_emu_wf(*final(self)),
            final(self).slice_frame(*old(self), false),
            ({
                let s = arm7_slice_step(NdsSliceState { cpu: old(self).arm7@, bus: old(self).bus@, done, stopped: false });
                &&& final(self).arm7@ == s.cpu
                &&& final(self).bus@ == s.bus
                &&& r is None <==> s.stopped
                &&& r is None ==> s.done == done
                &&& r matches Some(d) ==> d == s.done && d > done
            }),
    {
        reveal(arm7_slice_step);
        if self.bus.halt {
            self.arm7.halted = true;
            self.bus.halt = false;
        }
        if self.bus.check_irq() {
            self.arm7.handle_irq();
        }
        if self.arm7.cycles > u64::MAX - 0xFFFF_FFFF {
            return None;
        }
        let cycles = match self.arm7.step_checked(&mut self.bus) {
            Some(c) => c,
            None => {
                return None;
            },
        };
        if cycles == 0 || self.bus.cycles > u64::MAX - cycles as u64 {
            return None;
        }
        self.bus.tick(cycles);
        Some(done + cycles as u64)
    }

    /// One ARM9 step of a slice (`arm9_slice_step`).
    #[verifier::spinoff_prover]
    #[verifier::rlimit(60)]
    fn arm9_slice_step(&mut self, done: u64) -> (r: Option<u64>)
        requires
            nds_emu_wf(*old(self)),
            done <= u32::MAX,
        ensures
            nds_emu_wf(*final(self)),
            final(self).slice_frame(*old(self), true),
            ({
                let s = arm9_slice_step(NdsSliceState { cpu: old(self).arm9.cpu@, bus: old(self).bus@, done, stopped: false });
                &&& final(self).arm9.cpu@ == s.cpu
                &&& final(self).bus@ == s.bus
                &&& r is None <==> s.stopped
                &&& r is None ==> s.done == done
                &&& r matches Some(d) ==> d == s.done && d > done
            }),
    {
        reveal(arm9_slice_step);
        if self.bus.arm9_halt {
            self.arm9.cpu.halted = true;
            self.bus.arm9_halt = false;
        }
        if self.bus.arm9_check_irq() {
            self.arm9.cpu.handle_irq();
        }
        if self.arm9.cpu.cycles > u64::MAX - 0xFFFF_FFFF {
            return None;
        }
        let mut side = NdsArm9Side { bus: NdsBus::detached() };
        std::mem::swap(&mut side.bus, &mut self.bus);
        let stepped = self.arm9.cpu.step_checked(&mut side);
        std::mem::swap(&mut side.bus, &mut self.bus);
        let cycles = match stepped {
            Some(c) => c,
            None => {
                return None;
            },
        };
        if cycles == 0 || self.bus.arm9_cycles > u64::MAX - cycles as u64 {
            return None;
        }
        self.bus.tick_arm9(cycles);
        Some(done + cycles as u64)
    }

    /// Runs one frame of both processors (the ARM9's slice, then the
    /// ARM7's), draws the picture of both screens and returns it.
    pub fn run_frame(&mut self) -> (fb: &[u32])
        requires
            nds_emu_wf(*old(self)),
            old(self).total_frames < u64::MAX,
            display_fits(old(self).ppu_main, true),
            display_fits(old(self).ppu_sub, false),
        ensures
            nds_emu_wf(*final(self)),
            final(self).header == old(self).header,
            final(self).total_frames == old(self).total_frames + 1,
            ({
                let s9 = slice_spec(old(self).arm9.cpu@, old(self).bus@, true, NDS_ARM9_CYCLES_PER_FRAME);
                let s7 = slice_spec(old(self).arm7@, s9.bus, false, NDS_ARM7_CYCLES_PER_FRAME);
                &&& final(self).arm9.cpu@ == s9.cpu
                &&& final(self).arm7@ == s7.cpu
                &&& final(self).bus@ == s7.bus
            }),
            final(self).main_3d_framebuffer == old(self).main_3d_framebuffer,
            final(self).ppu_main == old(self).ppu_main,
            final(self).ppu_sub == old(self).ppu_sub,
            fb@ == final(self).framebuffer@,
            fb@ == nds_picture(*final(self)),
    {
        self.run_arm9_slice(NDS_ARM9_CYCLES_PER_FRAME);
        self.run_arm7_slice(NDS_ARM7_CYCLES_PER_FRAME);
        self.total_frames = self.total_frames + 1;
        self.refresh_framebuffer();
        self.framebuffer.as_slice()
    }

    /// The picture width: both screens are 256 pixels wide.
    pub fn screen_width(&self) -> (w: u32)
        ensures
            w == NDS_WIDTH,
    {
        NDS_WIDTH as u32
    }

    /// The picture height: the two screens stacked.
    pub fn screen_height(&self) -> (h: u32)
        ensures
            h == NDS_HEIGHT,
    {
        NDS_HEIGHT as u32
    }

    /// The sound produced so far: the sound hardware is not emulated, so
    /// there is none.
    pub fn audio_buffer(&mut self) -> (samples: Vec<i32>)
        ensures
            samples@ == Seq::<i32>::empty(),
            *final(self) == *old(self),
    {
        Vec::new()
    }
}


// ---------------------------------------------------------------------------
// Colours and display-register helpers
// ---------------------------------------------------------------------------

/// The kinds of background layer.
#[derive(Debug, Clone, Copy, PartialEq, Eq, Structural)]
pub enum NdsBgKind {
    ThreeD,
    Text,
    Affine,
    Bitmap8,
    Bitmap16,
}

/// The master-brightness amount: the low five bits, at most 16.
pub open spec fn brightness_amount(master_bright: u16) -> u16 {
    if (master_bright & 0x1F) <= 16 {
        master_bright & 0x1F
    } else {
        16
    }
}

/// One colour channel moved `amount`/16 of the way towards white, or
/// towards black; rounded up, never below zero.
pub open spec fn adjust_channel(c: int, amount: int, brighten: bool) -> int {
    if brighten {
        c + ((31 - c) * amount + 7) / 16
    } else {
        let d = (c * amount + 7) / 16;
        if d >= c {
            0
        } else {
            c - d
        }
    }
}

/// An RGB555 colour with each channel adjusted.
pub open spec fn adjust_rgb555_spec(color: u16, amount: u16, brighten: bool) -> u16 {
    let r = adjust_channel((color & 0x1F) as int, amount as int, brighten) as u16;
    let g = adjust_channel(((color >> 5u16) & 0x1F) as int, amount as int, brighten) as u16;
    let b = adjust_channel(((color >> 10u16) & 0x1F) as int, amount as int, brighten) as u16;
    r | (g << 5u16) | (b << 10u16)
}

/// MASTER_BRIGHT applied to a colour: mode 1 brightens, mode 2 darkens,
/// the other modes leave it.
pub open spec fn master_brightness_spec(color: u16, master_bright: u16) -> u16 {
    let mode = (master_bright >> 14u16) & 0x3;
    if mode == 1 {
        adjust_rgb555_spec(color, brightness_amount(master_bright), true)
    } else if mode == 2 {
        adjust_rgb555_spec(color, brightness_amount(master_bright), false)
    } else {
        color
    }
}

/// An RGB555 colour as opaque ARGB, each channel scaled from 0-31 to 0-255.
pub open spec fn rgb555_to_argb_spec(color: u16) -> u32 {
    let r = (((color & 0x1F) as u32) * 255 / 31) as u32;
    let g = ((((color >> 5u16) & 0x1F) as u32) * 255 / 31) as u32;
    let b = ((((color >> 10u16) & 0x1F) as u32) * 255 / 31) as u32;
    0xFF00_0000u32 | (r << 16u32) | (g << 8u32) | b
}

/// The little-endian halfword at `offset`.
pub open spec fn color_at(region: Seq<u8>, offset: int) -> u16 {
    (region[offset] + region[offset + 1] * 256) as u16
}

/// One channel adjusted.
fn adjust_channel_exec(c: u16, amount: u16, brighten: bool) -> (r: u16)
    requires
        c <= 31,
        amount <= 16,
    ensures
        r == adjust_channel(c as int, amount as int, brighten),
        r <= 31,
{
    if brighten {
        assert((31 - c) * amount <= 496 && ((31 - c) * amount + 7) / 16 <= 31 - c) by (nonlinear_arith)
            requires
                c <= 31,
                amount <= 16,
        ;
        c + ((31 - c) * amount + 7) / 16
    } else {
        assert(c * amount <= 496) by (nonlinear_arith)
            requires
                c <= 31,
                amount <= 16,
        ;
        let d = (c * amount + 7) / 16;
        if d >= c {
            0
        } else {
            c - d
        }
    }
}

/// An RGB555 colour with each channel moved `amount`/16 of the way towards
/// white (`brighten`) or black.
pub fn adjust_rgb555(color: u16, amount: u16, brighten: bool) -> (r: u16)
    requires
        amount <= 16,
    ensures
        r == adjust_rgb555_spec(color, amount, brighten),
{
    proof {
        crate::bits::lemma_and_le_u16(color, 0x1F);
        crate::bits::lemma_and_le_u16(color >> 5u16, 0x1F);
        crate::bits::lemma_and_le_u16(color >> 10u16, 0x1F);
    }
    let r = adjust_channel_exec(color & 0x1F, amount, brighten);
    let g = adjust_channel_exec((color >> 5u16) & 0x1F, amount, brighten);
    let b = adjust_channel_exec((color >> 10u16) & 0x1F, amount, brighten);
    r | (g << 5u16) | (b << 10u16)
}

/// Applies the MASTER_BRIGHT register to a colour.
pub fn apply_master_brightness(color: u16, master_bright: u16) -> (r: u16)
    ensures
        r == master_brightness_spec(color, master_bright),
{
    let low = master_bright & 0x001F;
    let amount = if low <= 16 {
        low
    } else {
        16
    };
    let mode = (master_bright >> 14u16) & 0x3;
    if mode == 1 {
        adjust_rgb555(color, amount, true)
    } else if mode == 2 {
        adjust_rgb555(color, amount, false)
    } else {
        color
    }
}

/// An RGB555 colour as opaque ARGB.
pub fn rgb555_to_argb(color: u16) -> (c: u32)
    ensures
        c == rgb555_to_argb_spec(color),
{
    proof {
        crate::bits::lemma_and_le_u16(color, 0x1F);
        crate::bits::lemma_and_le_u16(color >> 5u16, 0x1F);
        crate::bits::lemma_and_le_u16(color >> 10u16, 0x1F);
    }
    let r = ((color & 0x1F) as u32) * 255 / 31;
    let g = (((color >> 5u16) & 0x1F) as u32) * 255 / 31;
    let b = (((color >> 10u16) & 0x1F) as u32) * 255 / 31;
    0xFF00_0000u32 | (r << 16u32) | (g << 8u32) | b
}

/// The little-endian halfword at `offset` of a palette or VRAM region.
pub fn read_color_16(region: &[u8], offset: usize) -> (c: u16)
    requires
        offset + 1 < region@.len(),
    ensures
        c == color_at(region@, offset as int),
{
    region[offset] as u16 + (region[offset + 1] as u16) * 256
}

/// Whether the layer renderer handles a DISPCNT: display mode 0 or 1 and
/// BG mode 0-5.
pub open spec fn supports_2d_spec(dispcnt: u32) -> bool {
    ((dispcnt >> 16u32) & 0x3) <= 1 && (dispcnt & 0x7) <= 5
}

/// Whether the layer renderer handles a DISPCNT.
pub fn supports_2d_layer_render(dispcnt: u32) -> (b: bool)
    ensures
        b == supports_2d_spec(dispcnt),
{
    let display_mode = (dispcnt >> 16u32) & 0x3;
    let bg_mode = dispcnt & 0x7;
    display_mode <= 1 && bg_mode <= 5
}

/// The reasons an engine's picture is only partly drawn: a display mode
/// above 1, a BG mode above 5, and 3D (the rasterizer on the main engine,
/// else any 3D engine state).
pub open spec fn warning_reasons(main_engine: bool, dispcnt: u32, disp3dcnt: u16) -> Seq<Seq<char>> {
    let display_mode = (dispcnt >> 16u32) & 0x3;
    let bg_mode = dispcnt & 0x7;
    let a = if display_mode > 1 {
        seq!["display mode "@ + dec_digits(display_mode as nat)]
    } else {
        Seq::empty()
    };
    let b = if bg_mode > 5 {
        a.push("BG mode "@ + dec_digits(bg_mode as nat))
    } else {
        a
    };
    if main_engine && dispcnt & ENABLE_3D_BIT != 0 {
        b.push("3D rasterizer"@)
    } else if disp3dcnt != 0 {
        b.push("3D engine state"@)
    } else {
        b
    }
}

/// Phrases joined with ", ".
pub open spec fn join_phrases(r: Seq<Seq<char>>) -> Seq<char>
    decreases r.len(),
{
    if r.len() == 0 {
        Seq::empty()
    } else if r.len() == 1 {
        r[0]
    } else {
        join_phrases(r.drop_last()) + ", "@ + r.last()
    }
}

/// The warning for an engine, if it has reasons for one.
pub open spec fn video_warning_spec(name: Seq<char>, main_engine: bool, dispcnt: u32, disp3dcnt: u16) -> Option<
    Seq<char>,
> {
    let r = warning_reasons(main_engine, dispcnt, disp3dcnt);
    if r.len() == 0 {
        None
    } else {
        Some(name + " engine uses "@ + join_phrases(r))
    }
}

/// Appends a phrase to a ", "-joined list.
fn push_phrase(body: &mut String, phrases: Ghost<Seq<Seq<char>>>, first: bool, phrase: &str)
    requires
        old(body)@ == join_phrases(phrases@),
        first == (phrases@.len() == 0),
    ensures
        final(body)@ == join_phrases(phrases@.push(phrase@)),
{
    assert(phrases@.push(phrase@).drop_last() =~= phrases@);
    if !first {
        body.push_str(", ");
    }
    proof {
        reveal_strlit(", ");
    }
    body.push_str(phrase);
    if first {
        assert(body@ =~= phrase@);
    }
}

/// Describes what an engine uses that the renderer does not draw.
pub fn describe_video_warning(name: &str, main_engine: bool, dispcnt: u32, disp3dcnt: u16) -> (w: Option<String>)
    ensures
        match video_warning_spec(name@, main_engine, dispcnt, disp3dcnt) {
            Some(text) => w matches Some(s) && s@ == text,
            None => w is None,
        },
{
    let display_mode = (dispcnt >> 16u32) & 0x3;
    let bg_mode = dispcnt & 0x7;
    let mut body = String::new();
    let ghost mut phrases: Seq<Seq<char>> = Seq::empty();
    let mut count: usize = 0;
    assert(body@ =~= join_phrases(phrases));
    if display_mode > 1 {
        let mut phrase = String::new();
        phrase.push_str("display mode ");
        push_dec(&mut phrase, display_mode as u64);
        push_phrase(&mut body, Ghost(phrases), count == 0, phrase.as_str());
        proof {
            phrases = phrases.push(phrase@);
        }
        count = count + 1;
    }
    if bg_mode > 5 {
        let mut phrase = String::new();
        phrase.push_str("BG mode ");
        push_dec(&mut phrase, bg_mode as u64);
        push_phrase(&mut body, Ghost(phrases), count == 0, phrase.as_str());
        proof {
            phrases = phrases.push(phrase@);
        }
        count = count + 1;
    }
    if main_engine && dispcnt & ENABLE_3D_BIT != 0 {
        push_phrase(&mut body, Ghost(phrases), count == 0, "3D rasterizer");
        proof {
            phrases = phrases.push("3D rasterizer"@);
        }
        count = count + 1;
    } else if disp3dcnt != 0 {
        push_phrase(&mut body, Ghost(phrases), count == 0, "3D engine state");
        proof {
            phrases = phrases.push("3D engine state"@);
        }
        count = count + 1;
    }
    assert(phrases =~= warning_reasons(main_engine, dispcnt, disp3dcnt));
    if count == 0 {
        return None;
    }
    let mut msg = String::new();
    msg.push_str(name);
    msg.push_str(" engine uses ");
    msg.push_str(body.as_str());
    Some(msg)
}

/// Which kind a background is in a BG mode; BG0 is the 3D surface when
/// the main engine routes 3D to it.
pub open spec fn bg_kind_spec(bg_mode: u8, bg: usize, bgcnt: u16, main_3d: bool) -> Option<NdsBgKind> {
    if main_3d && bg == 0 {
        Some(NdsBgKind::ThreeD)
    } else if bg_mode == 0 {
        Some(NdsBgKind::Text)
    } else if bg_mode == 1 || bg_mode == 3 {
        if bg <= 2 {
            Some(NdsBgKind::Text)
        } else if bg == 3 {
            Some(bitmap_or_affine_spec(bgcnt))
        } else {
            None
        }
    } else if bg_mode == 2 {
        if bg <= 1 {
            Some(NdsBgKind::Text)
        } else if bg <= 3 {
            Some(NdsBgKind::Affine)
        } else {
            None
        }
    } else if bg_mode == 4 {
        if bg <= 1 {
            Some(NdsBgKind::Text)
        } else if bg == 2 {
            Some(NdsBgKind::Affine)
        } else if bg == 3 {
            Some(bitmap_or_affine_spec(bgcnt))
        } else {
            None
        }
    } else if bg_mode == 5 {
        if bg <= 1 {
            Some(NdsBgKind::Text)
        } else if bg <= 3 {
            Some(bitmap_or_affine_spec(bgcnt))
        } else {
            None
        }
    } else {
        None
    }
}

/// An extended background: a bitmap when BGCNT bit 7 is set (direct
/// colour with bit 2), otherwise an affine tile map.
pub open spec fn bitmap_or_affine_spec(bgcnt: u16) -> NdsBgKind {
    if bgcnt & 0x0080 != 0 {
        if bgcnt & 0x0004 != 0 {
            NdsBgKind::Bitmap16
        } else {
            NdsBgKind::Bitmap8
        }
    } else {
        NdsBgKind::Affine
    }
}

/// The kind of an extended background.
pub fn bitmap_or_affine_kind(bgcnt: u16) -> (k: NdsBgKind)
    ensures
        k == bitmap_or_affine_spec(bgcnt),
{
    if bgcnt & 0x0080 != 0 {
        if bgcnt & 0x0004 != 0 {
            NdsBgKind::Bitmap16
        } else {
            NdsBgKind::Bitmap8
        }
    } else {
        NdsBgKind::Affine
    }
}

/// The kind of background `bg` in a BG mode.
pub fn bg_kind(bg_mode: u8, bg: usize, bgcnt: u16, main_3d: bool) -> (k: Option<NdsBgKind>)
    ensures
        k == bg_kind_spec(bg_mode, bg, bgcnt, main_3d),
{
    if main_3d && bg == 0 {
        return Some(NdsBgKind::ThreeD);
    }
    match bg_mode {
        0 => Some(NdsBgKind::Text),
        1 | 3 => match bg {
            0 | 1 | 2 => Some(NdsBgKind::Text),
            3 => Some(bitmap_or_affine_kind(bgcnt)),
            _ => None,
        },
        2 => match bg {
            0 | 1 => Some(NdsBgKind::Text),
            2 | 3 => Some(NdsBgKind::Affine),
            _ => None,
        },
        4 => match bg {
            0 | 1 => Some(NdsBgKind::Text),
            2 => Some(NdsBgKind::Affine),
            3 => Some(bitmap_or_affine_kind(bgcnt)),
            _ => None,
        },
        5 => match bg {
            0 | 1 => Some(NdsBgKind::Text),
            2 | 3 => Some(bitmap_or_affine_kind(bgcnt)),
            _ => None,
        },
        _ => None,
    }
}

/// The width and height of a sprite from its shape and size fields.
pub open spec fn obj_size_spec(shape: u16, size: u16) -> (usize, usize) {
    if shape == 0 && size <= 3 {
        if size == 0 {
            (8, 8)
        } else if size == 1 {
            (16, 16)
        } else if size == 2 {
            (32, 32)
        } else {
            (64, 64)
        }
    } else if shape == 1 && size <= 3 {
        if size == 0 {
            (16, 8)
        } else if size == 1 {
            (32, 8)
        } else if size == 2 {
            (32, 16)
        } else {
            (64, 32)
        }
    } else if shape == 2 && size <= 3 {
        if size == 0 {
            (8, 16)
        } else if size == 1 {
            (8, 32)
        } else if size == 2 {
            (16, 32)
        } else {
            (32, 64)
        }
    } else {
        (8, 8)
    }
}

/// The width and height of a sprite.
pub fn obj_size(shape: u16, size: u16) -> (wh: (usize, usize))
    ensures
        wh == obj_size_spec(shape, size),
{
    match (shape, size) {
        (0, 0) => (8, 8),
        (0, 1) => (16, 16),
        (0, 2) => (32, 32),
        (0, 3) => (64, 64),
        (1, 0) => (16, 8),
        (1, 1) => (32, 8),
        (1, 2) => (32, 16),
        (1, 3) => (64, 32),
        (2, 0) => (8, 16),
        (2, 1) => (8, 32),
        (2, 2) => (16, 32),
        (2, 3) => (32, 64),
        _ => (8, 8),
    }
}

/// The 3D surface's pixel, when it is opaque (bit 15 set).
pub open spec fn sample_3d_spec(surface: Seq<u16>, px: int, screen_line: int) -> Option<u16> {
    let i = screen_line * NDS_WIDTH + px;
    if i < surface.len() && surface[i] & 0x8000 != 0 {
        Some(surface[i] & 0x7FFF)
    } else {
        None
    }
}

/// The 3D surface's colour at a pixel, if it is opaque there.
pub fn sample_3d_pixel(main_3d_framebuffer: &[u16], px: usize, screen_line: usize) -> (c: Option<u16>)
    requires
        screen_line * NDS_WIDTH + px <= usize::MAX,
    ensures
        c == sample_3d_spec(main_3d_framebuffer@, px as int, screen_line as int),
{
    let i = screen_line * NDS_WIDTH + px;
    if i >= main_3d_framebuffer.len() {
        return None;
    }
    let pixel = main_3d_framebuffer[i];
    if pixel & 0x8000 == 0 {
        return None;
    }
    Some(pixel & 0x7FFF)
}

/// The 3D surface after the clear plane: unless DISP3DCNT selects a rear
/// bitmap or the clear alpha is zero, every transparent pixel takes the
/// clear colour, made opaque.
pub open spec fn clear_plane_spec(surface: Seq<u16>, clear_color: u32, disp3dcnt: u16) -> Seq<u16> {
    if disp3dcnt & DISP3DCNT_CLEAR_BMP_BIT != 0 || ((clear_color >> 16u32) & 0x1F) == 0 {
        surface
    } else {
        Seq::new(
            surface.len(),
            |i: int| if surface[i] & 0x8000 == 0 {
                0x8000u16 | ((clear_color as u16) & 0x7FFF)
            } else {
                surface[i]
            },
        )
    }
}

/// Fills the transparent pixels of the 3D surface with the clear colour.
pub fn apply_3d_clear_plane(main_3d_framebuffer: &mut Vec<u16>, clear_color: u32, disp3dcnt: u16)
    ensures
        final(main_3d_framebuffer)@ == clear_plane_spec(old(main_3d_framebuffer)@, clear_color, disp3dcnt),
{
    if disp3dcnt & DISP3DCNT_CLEAR_BMP_BIT != 0 {
        return;
    }
    proof {
        crate::bits::lemma_and_le_u32(clear_color >> 16u32, 0x1F);
    }
    let alpha = ((clear_color >> 16u32) & 0x1F) as u16;
    if alpha == 0 {
        return;
    }
    let fill = 0x8000u16 | ((clear_color as u16) & 0x7FFF);
    let ghost before = main_3d_framebuffer@;
    let mut i: usize = 0;
    while i < main_3d_framebuffer.len()
        invariant
            i <= main_3d_framebuffer@.len(),
            main_3d_framebuffer@.len() == before.len(),
            fill == 0x8000u16 | ((clear_color as u16) & 0x7FFF),
            forall|k: int|
                0 <= k < i ==> main_3d_framebuffer@[k] == if before[k] & 0x8000 == 0 {
                    fill
                } else {
                    before[k]
                },
            forall|k: int| i <= k < before.len() ==> main_3d_framebuffer@[k] == before[k],
        decreases main_3d_framebuffer.len() - i,
    {
        if main_3d_framebuffer[i] & 0x8000 == 0 {
            main_3d_framebuffer.set(i, fill);
        }
        i = i + 1;
    }
    assert(main_3d_framebuffer@ =~= clear_plane_spec(before, clear_color, disp3dcnt));
}

/// Whether a screen has anything to preview: a display register set, or a
/// non-zero byte in its stretch of VRAM.
pub open spec fn has_preview_spec(vram: Seq<u8>, vram_offset: int, dispcnt: u32, master_bright: u16) -> bool {
    dispcnt != 0 || master_bright != 0 || (vram_offset < vram.len() && exists|i: int|
        vram_offset <= i < vram_offset + NDS_SCREEN_BYTES_16BPP && i < vram.len() && (#[trigger] vram[i]) != 0)
}

/// The pixels a preview draws from VRAM at `vram_offset`.
pub open spec fn preview_pixels(vram_len: int, vram_offset: int) -> int {
    let available = if vram_offset < vram_len {
        vram_len - vram_offset
    } else {
        0
    };
    (if available < NDS_SCREEN_BYTES_16BPP {
        available
    } else {
        NDS_SCREEN_BYTES_16BPP as int
    }) / 2
}

/// The picture after a preview of VRAM: the screen at row `screen_y` takes
/// VRAM as 16-bit colours, through the master brightness.
pub open spec fn preview_spec(
    fb: Seq<u32>,
    vram: Seq<u8>,
    screen_y: int,
    vram_offset: int,
    dispcnt: u32,
    master_bright: u16,
) -> Seq<u32> {
    if !has_preview_spec(vram, vram_offset, dispcnt, master_bright) {
        fb
    } else {
        let start = screen_y * NDS_WIDTH;
        let n = preview_pixels(vram.len() as int, vram_offset);
        Seq::new(
            fb.len(),
            |i: int| if start <= i < start + n {
                rgb555_to_argb_spec(
                    master_brightness_spec(color_at(vram, vram_offset + 2 * (i - start)), master_bright),
                )
            } else {
                fb[i]
            },
        )
    }
}

impl NdsEmulator {
    /// Whether the screen whose VRAM starts at `vram_offset` has anything
    /// to preview.
    pub fn screen_has_preview_data(&self, vram_offset: usize, dispcnt: u32, master_bright: u16) -> (b: bool)
        requires
            nds_emu_wf(*self),
        ensures
            b == has_preview_spec(self.bus.memory.vram@, vram_offset as int, dispcnt, master_bright),
    {
        if dispcnt != 0 || master_bright != 0 {
            return true;
        }
        let vram = &self.bus.memory.vram;
        if vram_offset >= vram.len() {
            return false;
        }
        let end = if vram_offset + NDS_SCREEN_BYTES_16BPP < vram.len() {
            vram_offset + NDS_SCREEN_BYTES_16BPP
        } else {
            vram.len()
        };
        let mut i: usize = vram_offset;
        while i < end
            invariant
                vram_offset <= i <= end <= vram@.len(),
                vram@ == self.bus.memory.vram@,
                end == if vram_offset + NDS_SCREEN_BYTES_16BPP < vram@.len() {
                    vram_offset + NDS_SCREEN_BYTES_16BPP
                } else {
                    vram@.len() as int
                },
                forall|k: int| vram_offset <= k < i ==> vram@[k] == 0,
            decreases end - i,
        {
            if vram[i] != 0 {
                assert(vram@[i as int] != 0);
                return true;
            }
            i = i + 1;
        }
        false
    }

    /// Draws the screen at row `screen_y` straight from VRAM as 16-bit
    /// colours, when there is anything to show.
    pub fn render_screen_preview(&mut self, screen_y: usize, vram_offset: usize, dispcnt: u32, master_bright: u16)
        requires
            nds_emu_wf(*old(self)),
            screen_y <= NDS_SCREEN_HEIGHT,
        ensures
            nds_emu_wf(*final(self)),
            final(self).framebuffer@ == preview_spec(
                old(self).framebuffer@,
                old(self).bus.memory.vram@,
                screen_y as int,
                vram_offset as int,
                dispcnt,
                master_bright,
            ),
            final(self).bus == old(self).bus,
            final(self).header == old(self).header,
            final(self).arm7 == old(self).arm7,
            final(self).arm9 == old(self).arm9,
            final(self).main_3d_framebuffer == old(self).main_3d_framebuffer,
            final(self).ppu_main == old(self).ppu_main,
            final(self).ppu_sub == old(self).ppu_sub,
            final(self).total_frames == old(self).total_frames,
    {
        if !self.screen_has_preview_data(vram_offset, dispcnt, master_bright) {
            return;
        }
        let ghost fb0 = self.framebuffer@;
        let vram_len = self.bus.memory.vram.len();
        let available = if vram_offset < vram_len {
            vram_len - vram_offset
        } else {
            0
        };
        let bytes = if available < NDS_SCREEN_BYTES_16BPP {
            available
        } else {
            NDS_SCREEN_BYTES_16BPP
        };
        let pixels = bytes / 2;
        assert(pixels * 2 <= bytes);
        let start = screen_y * NDS_WIDTH;
        let mut p: usize = 0;
        while p < pixels
            invariant
                p <= pixels,
                pixels == preview_pixels(self.bus.memory.vram@.len() as int, vram_offset as int),
                pixels * 2 <= NDS_SCREEN_BYTES_16BPP,
                pixels == 0 || vram_offset + pixels * 2 <= self.bus.memory.vram@.len(),
                start == screen_y * NDS_WIDTH,
                screen_y <= NDS_SCREEN_HEIGHT,
                nds_emu_wf(*self),
                self.framebuffer@.len() == fb0.len(),
                forall|i: int|
                    start <= i < start + p ==> self.framebuffer@[i] == rgb555_to_argb_spec(
                        master_brightness_spec(color_at(self.bus.memory.vram@, vram_offset + 2 * (i - start)), master_bright),
                    ),
                forall|i: int| 0 <= i < fb0.len() && !(start <= i < start + p) ==> self.framebuffer@[i] == fb0[i],
                self.bus == old(self).bus,
                self.header == old(self).header,
                self.arm7 == old(self).arm7,
                self.arm9 == old(self).arm9,
                self.main_3d_framebuffer == old(self).main_3d_framebuffer,
                self.ppu_main == old(self).ppu_main,
                self.ppu_sub == old(self).ppu_sub,
                self.total_frames == old(self).total_frames,
            decreases pixels - p,
        {
            let src = vram_offset + p * 2;
            let color = read_color_16(self.bus.memory.vram.as_slice(), src);
            let lit = apply_master_brightness(color, master_bright);
            let c = rgb555_to_argb(lit);
            self.framebuffer.set(start + p, c);
            p = p + 1;
        }
        assert(self.framebuffer@ =~= preview_spec(
            fb0,
            self.bus.memory.vram@,
            screen_y as int,
            vram_offset as int,
            dispcnt,
            master_bright,
        ));
    }
}

} // verus!
