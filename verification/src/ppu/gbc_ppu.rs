use vstd::prelude::*;

use crate::cartridge::mbc::byte_or_ff;

verus! {

pub const SCREEN_W: usize = 160;
pub const SCREEN_H: usize = 144;

/// The PPU modes, in STAT order.
#[derive(Debug, Clone, Copy, PartialEq, Eq, Structural)]
pub enum PpuMode {
    HBlank,
    VBlank,
    OamScan,
    Drawing,
}

/// The STAT mode bits of a mode.
pub open spec fn mode_number(m: PpuMode) -> u8 {
    match m {
        PpuMode::HBlank => 0,
        PpuMode::VBlank => 1,
        PpuMode::OamScan => 2,
        PpuMode::Drawing => 3,
    }
}

/// The Game Boy (Color) picture processor.
pub struct GbcPpu {
    pub framebuffer: Vec<u32>,
    /// Two banks on the Game Boy Color.
    pub vram: Vec<u8>,
    pub oam: Vec<u8>,
    pub vram_bank: u8,
    pub is_cgb: bool,
    pub lcdc: u8,
    pub stat: u8,
    pub scy: u8,
    pub scx: u8,
    pub ly: u8,
    pub lyc: u8,
    pub wy: u8,
    pub wx: u8,
    pub bgp: u8,
    pub obp0: u8,
    pub obp1: u8,
    pub bgp_index: u8,
    pub bgp_auto_inc: bool,
    pub bgp_data: Vec<u8>,
    pub obp_index: u8,
    pub obp_auto_inc: bool,
    pub obp_data: Vec<u8>,
    pub mode: PpuMode,
    pub cycles: u32,
    pub window_line: u8,
    pub frame_ready: bool,
}

/// The memories of the PPU as sequences, and its registers.
#[verifier::ext_equal]
pub struct GbcPpuView {
    pub framebuffer: Seq<u32>,
    pub vram: Seq<u8>,
    pub oam: Seq<u8>,
    pub bgp_data: Seq<u8>,
    pub obp_data: Seq<u8>,
    pub regs: GbcPpuRegs,
}

/// The PPU's registers and counters.
#[derive(Clone, Copy)]
pub struct GbcPpuRegs {
    pub vram_bank: u8,
    pub is_cgb: bool,
    pub lcdc: u8,
    pub stat: u8,
    pub scy: u8,
    pub scx: u8,
    pub ly: u8,
    pub lyc: u8,
    pub wy: u8,
    pub wx: u8,
    pub bgp: u8,
    pub obp0: u8,
    pub obp1: u8,
    pub bgp_index: u8,
    pub bgp_auto_inc: bool,
    pub obp_index: u8,
    pub obp_auto_inc: bool,
    pub mode: PpuMode,
    pub cycles: u32,
    pub window_line: u8,
    pub frame_ready: bool,
}

impl View for GbcPpu {
    type V = GbcPpuView;

    open spec fn view(&self) -> GbcPpuView {
        GbcPpuView {
            framebuffer: self.framebuffer@,
            vram: self.vram@,
            oam: self.oam@,
            bgp_data: self.bgp_data@,
            obp_data: self.obp_data@,
            regs: GbcPpuRegs {
                vram_bank: self.vram_bank,
                is_cgb: self.is_cgb,
                lcdc: self.lcdc,
                stat: self.stat,
                scy: self.scy,
                scx: self.scx,
                ly: self.ly,
                lyc: self.lyc,
                wy: self.wy,
                wx: self.wx,
                bgp: self.bgp,
                obp0: self.obp0,
                obp1: self.obp1,
                bgp_index: self.bgp_index,
                bgp_auto_inc: self.bgp_auto_inc,
                obp_index: self.obp_index,
                obp_auto_inc: self.obp_auto_inc,
                mode: self.mode,
                cycles: self.cycles,
                window_line: self.window_line,
                frame_ready: self.frame_ready,
            },
        }
    }
}

/// The sizes the PPU memories keep, and the line counter within a frame
/// (below 144 outside V-blank).
pub open spec fn gbc_ppu_wf(p: GbcPpuView) -> bool {
    &&& p.framebuffer.len() == 160 * 144
    &&& p.oam.len() == 160
    &&& p.bgp_data.len() == 64
    &&& p.obp_data.len() == 64
    &&& p.regs.ly <= 153
    &&& p.regs.mode != PpuMode::VBlank ==> p.regs.ly < 144
    &&& p.regs.bgp_index < 64
    &&& p.regs.obp_index < 64
}

// ---------------------------------------------------------------------------
// Pixels
// ---------------------------------------------------------------------------

/// A VRAM byte by bus address (0x8000-0x9FFF) in bank `bank`; 0xFF beyond VRAM.
pub open spec fn vram_byte(vram: Seq<u8>, addr: u16, bank: u8) -> u8 {
    byte_or_ff(vram, (addr - 0x8000) + (bank as int) * 0x2000)
}

/// The address of tile `index`'s data: unsigned from 0x8000, or signed around 0x9000.
pub open spec fn tile_data_addr(lcdc: u8, index: u8) -> u16 {
    if lcdc & 0x10 != 0 {
        (0x8000 + (index as int) * 16) as u16
    } else if index < 128 {
        (0x9000 + (index as int) * 16) as u16
    } else {
        (0x9000 + (index as int) * 16 - 0x1000) as u16
    }
}

/// The colour number (0-3) of bit `bit` of a tile row's two bytes.
pub open spec fn color_index(lo: u8, hi: u8, bit: u8) -> u8 {
    (((hi >> bit) & 1) << 1u8) | ((lo >> bit) & 1)
}

/// The four shades of the monochrome palette, lightest first.
pub open spec fn dmg_shade(shade: u8) -> u32 {
    if shade == 0 {
        0xFF_E0_F8_D0
    } else if shade == 1 {
        0xFF_88_C0_70
    } else if shade == 2 {
        0xFF_34_68_56
    } else {
        0xFF_08_18_20
    }
}

/// A colour number through a monochrome palette register.
pub open spec fn dmg_color(palette: u8, idx: u8) -> u32 {
    dmg_shade((palette >> ((idx * 2) as u8)) & 0x03)
}

/// A 15-bit colour as opaque ARGB, each 5-bit channel scaled to 0-255.
pub open spec fn rgb555_argb(c: u16) -> u32 {
    let r = (((c & 0x1F) as u32) * 255 / 31) as u32;
    let g = ((((c >> 5u16) & 0x1F) as u32) * 255 / 31) as u32;
    let b = ((((c >> 10u16) & 0x1F) as u32) * 255 / 31) as u32;
    0xFF00_0000u32 | (r << 16u32) | (g << 8u32) | b
}

/// A colour number through a Game Boy Color palette in palette memory.
pub open spec fn cgb_color(data: Seq<u8>, palette: u8, idx: u8) -> u32 {
    let off = (palette as int) * 8 + (idx as int) * 2;
    if off + 1 < data.len() {
        rgb555_argb(((data[off] as u16) | ((data[off + 1] as u16) << 8u16)) as u16)
    } else {
        0xFFFF_FFFF
    }
}

/// The background or window colour at fine position (`fine_x`, `fine_y`)
/// of the tile named at tile-map address `map_addr`.
pub open spec fn tile_pixel(p: GbcPpuView, map_addr: u16, fine_x: u8, fine_y: u8) -> u32 {
    let r = p.regs;
    let index = vram_byte(p.vram, map_addr, 0);
    let data = tile_data_addr(r.lcdc, index);
    let attrs = if r.is_cgb { vram_byte(p.vram, map_addr, 1) } else { 0 };
    let bank = if r.is_cgb { (attrs >> 3u8) & 1 } else { 0 };
    let pal = if r.is_cgb { attrs & 0x07 } else { 0 };
    let x_flip = r.is_cgb && attrs & 0x20 != 0;
    let y_flip = r.is_cgb && attrs & 0x40 != 0;
    let row: u16 = if y_flip { (7 - fine_y) as u16 } else { fine_y as u16 };
    let lo = vram_byte(p.vram, (data + row * 2) as u16, bank);
    let hi = vram_byte(p.vram, (data + row * 2 + 1) as u16, bank);
    let bit = if x_flip { fine_x } else { (7 - fine_x) as u8 };
    let ci = color_index(lo, hi, bit);
    if r.is_cgb {
        cgb_color(p.bgp_data, pal, ci)
    } else {
        dmg_color(r.bgp, ci)
    }
}

/// Pixel `fine_x` of a background or window tile row: with `lo` and `hi`
/// the row's two bytes, its colour number takes bit 1 from `hi` and bit 0
/// from `lo`, at bit 7 - `fine_x` (the leftmost pixel is bit 7), or at bit
/// `fine_x` when a colour tile's attributes flip it horizontally; the
/// colour is that number through the background palette.
pub proof fn lemma_tile_pixel_bit_order(p: GbcPpuView, map_addr: u16, fine_x: u8, fine_y: u8)
    requires
        fine_x <= 7,
        fine_y <= 7,
    ensures
        ({
            let attrs = if p.regs.is_cgb { vram_byte(p.vram, map_addr, 1) } else { 0u8 };
            let bank = if p.regs.is_cgb { (attrs >> 3u8) & 1 } else { 0u8 };
            let row: u16 = if p.regs.is_cgb && attrs & 0x40 != 0 { (7 - fine_y) as u16 } else { fine_y as u16 };
            let data = tile_data_addr(p.regs.lcdc, vram_byte(p.vram, map_addr, 0));
            let lo = vram_byte(p.vram, (data + row * 2) as u16, bank);
            let hi = vram_byte(p.vram, (data + row * 2 + 1) as u16, bank);
            let unflipped = (((hi >> ((7 - fine_x) as u8)) & 1) << 1u8) | ((lo >> ((7 - fine_x) as u8)) & 1);
            let flipped = (((hi >> fine_x) & 1) << 1u8) | ((lo >> fine_x) & 1);
            &&& !p.regs.is_cgb ==> tile_pixel(p, map_addr, fine_x, fine_y) == dmg_color(p.regs.bgp, unflipped)
            &&& p.regs.is_cgb && attrs & 0x20 == 0 ==> tile_pixel(p, map_addr, fine_x, fine_y) == cgb_color(
                p.bgp_data,
                attrs & 0x07,
                unflipped,
            )
            &&& p.regs.is_cgb && attrs & 0x20 != 0 ==> tile_pixel(p, map_addr, fine_x, fine_y) == cgb_color(
                p.bgp_data,
                attrs & 0x07,
                flipped,
            )
        }),
{
}

/// The background colour at screen pixel (`px`, `line`).
pub open spec fn bg_pixel(p: GbcPpuView, line: u8, px: u8) -> u32 {
    let r = p.regs;
    let sy = r.scy.wrapping_add(line);
    let sx = r.scx.wrapping_add(px);
    let map_base: u16 = if r.lcdc & 0x08 != 0 { 0x9C00 } else { 0x9800 };
    let map_addr = (map_base + (sy / 8) as u16 * 32 + (sx / 8) as u16) as u16;
    tile_pixel(p, map_addr, sx % 8, sy % 8)
}

/// The window colour at screen pixel `px` (at or right of the window's left edge).
pub open spec fn window_pixel(p: GbcPpuView, px: u8) -> u32 {
    let r = p.regs;
    let wx = r.wx.wrapping_sub(7);
    let win_x = (px - wx) as u8;
    let win_y = r.window_line;
    let map_base: u16 = if r.lcdc & 0x40 != 0 { 0x9C00 } else { 0x9800 };
    let map_addr = (map_base + (win_y / 8) as u16 * 32 + (win_x / 8) as u16) as u16;
    tile_pixel(p, map_addr, win_x % 8, win_y % 8)
}

/// Row `line` of the framebuffer replaced by `row`.
pub open spec fn with_row(fb: Seq<u32>, line: int, row: Seq<u32>) -> Seq<u32> {
    Seq::new(fb.len(), |i: int| if line * 160 <= i < line * 160 + 160 { row[i - line * 160] } else { fb[i] })
}

/// The background row of a line (white when the background is off on a
/// monochrome Game Boy).
pub open spec fn bg_row(p: GbcPpuView, line: u8) -> Seq<u32> {
    Seq::new(
        160,
        |x: int|
            if p.regs.lcdc & 0x01 != 0 || p.regs.is_cgb {
                bg_pixel(p, line, x as u8)
            } else {
                0xFFFF_FFFFu32
            },
    )
}

/// Whether the window covers any pixel of line `line`.
pub open spec fn window_visible(p: GbcPpuView, line: u8) -> bool {
    p.regs.lcdc & 0x20 != 0 && p.regs.wy <= line && p.regs.wx.wrapping_sub(7) < 160
}

/// A row with the window drawn over it from its left edge.
pub open spec fn window_row(p: GbcPpuView, line: u8, row: Seq<u32>) -> Seq<u32> {
    Seq::new(
        160,
        |x: int|
            if p.regs.lcdc & 0x20 != 0 && p.regs.wy <= line && x >= p.regs.wx.wrapping_sub(7) {
                window_pixel(p, x as u8)
            } else {
                row[x]
            },
    )
}


// ---------------------------------------------------------------------------
// Sprites
// ---------------------------------------------------------------------------

/// Sprite height: 16 in tall-sprite mode (LCDC bit 2), else 8.
pub open spec fn sprite_height(lcdc: u8) -> u8 {
    if lcdc & 0x04 != 0 {
        16
    } else {
        8
    }
}

/// Whether OAM sprite `i` covers line `line`.
pub open spec fn sprite_on_line(oam: Seq<u8>, i: int, line: u8, h: u8) -> bool {
    let sy = oam[4 * i].wrapping_sub(16);
    line >= sy && line < sy.wrapping_add(h)
}

/// The first ten sprites (by OAM index) among sprites `0..n` that cover the line.
pub open spec fn sprites_on_line(oam: Seq<u8>, line: u8, h: u8, n: nat) -> Seq<u8>
    decreases n,
{
    if n == 0 {
        Seq::empty()
    } else {
        let s = sprites_on_line(oam, line, h, (n - 1) as nat);
        if s.len() < 10 && sprite_on_line(oam, n - 1, line, h) {
            s.push((n - 1) as u8)
        } else {
            s
        }
    }
}

/// What sprite drawing reads: OAM, VRAM, the control register and the
/// object palettes.
pub struct SpriteCtx {
    pub oam: Seq<u8>,
    pub vram: Seq<u8>,
    pub obp_data: Seq<u8>,
    pub lcdc: u8,
    pub is_cgb: bool,
    pub obp0: u8,
    pub obp1: u8,
}

pub open spec fn sprite_ctx(p: GbcPpuView) -> SpriteCtx {
    SpriteCtx {
        oam: p.oam,
        vram: p.vram,
        obp_data: p.obp_data,
        lcdc: p.regs.lcdc,
        is_cgb: p.regs.is_cgb,
        obp0: p.regs.obp0,
        obp1: p.regs.obp1,
    }
}

/// The colour sprite `s` puts at screen pixel (`x`, `line`), if it has an
/// opaque pixel there.
pub open spec fn sprite_pixel(c: SpriteCtx, s: u8, line: u8, x: u8) -> Option<u32> {
    let base = 4 * (s as int);
    let sy = c.oam[base].wrapping_sub(16);
    let sx = c.oam[base + 1].wrapping_sub(8);
    let flags = c.oam[base + 3];
    let h = sprite_height(c.lcdc);
    let tile = if c.lcdc & 0x04 != 0 { c.oam[base + 2] & 0xFE } else { c.oam[base + 2] };
    let bit = x.wrapping_sub(sx);
    if bit >= 8 {
        None
    } else {
        let dy = line.wrapping_sub(sy);
        let sprite_y: u8 = if flags & 0x40 != 0 { ((h - 1) - dy) as u8 } else { dy };
        let bank = if c.is_cgb { (flags >> 3u8) & 1 } else { 0 };
        let pal: u8 = if c.is_cgb { flags & 0x07 } else if flags & 0x10 != 0 { 1 } else { 0 };
        let addr = (0x8000 + (tile as int) * 16 + (sprite_y as int) * 2) as u16;
        let lo = vram_byte(c.vram, addr, bank);
        let hi = vram_byte(c.vram, (addr + 1) as u16, bank);
        let ab = if flags & 0x20 != 0 { bit } else { (7 - bit) as u8 };
        let ci = color_index(lo, hi, ab);
        if ci == 0 {
            None
        } else if c.is_cgb {
            Some(cgb_color(c.obp_data, pal, ci))
        } else {
            Some(dmg_color(if pal == 1 { c.obp1 } else { c.obp0 }, ci))
        }
    }
}

/// Column `k` (0-7, from the sprite's left edge) of a sprite row takes its
/// colour number from bit 7 - `k` of the row's two bytes (the left edge is
/// bit 7), or from bit `k` when the sprite is flipped horizontally; colour
/// number 0 is transparent.
pub proof fn lemma_sprite_pixel_bit_order(c: SpriteCtx, s: u8, line: u8, x: u8)
    ensures
        ({
            let base = 4 * (s as int);
            let sx = c.oam[base + 1].wrapping_sub(8);
            let k = x.wrapping_sub(sx);
            let flags = c.oam[base + 3];
            let h = sprite_height(c.lcdc);
            let tile = if c.lcdc & 0x04 != 0 { c.oam[base + 2] & 0xFE } else { c.oam[base + 2] };
            let dy = line.wrapping_sub(c.oam[base].wrapping_sub(16));
            let sprite_y: u8 = if flags & 0x40 != 0 { ((h - 1) - dy) as u8 } else { dy };
            let bank = if c.is_cgb { (flags >> 3u8) & 1 } else { 0 };
            let addr = (0x8000 + (tile as int) * 16 + (sprite_y as int) * 2) as u16;
            let lo = vram_byte(c.vram, addr, bank);
            let hi = vram_byte(c.vram, (addr + 1) as u16, bank);
            let ci = if flags & 0x20 == 0 {
                (((hi >> ((7 - k) as u8)) & 1) << 1u8) | ((lo >> ((7 - k) as u8)) & 1)
            } else {
                (((hi >> k) & 1) << 1u8) | ((lo >> k) & 1)
            };
            k < 8 ==> (sprite_pixel(c, s, line, x) is None <==> ci == 0)
        }),
{
}

/// The first of the listed sprites, from position `k` on, with an opaque
/// pixel at `x`: lower OAM indices are in front.
pub open spec fn front_sprite(c: SpriteCtx, list: Seq<u8>, k: int, line: u8, x: u8) -> Option<u32>
    decreases list.len() - k,
{
    if k < 0 || k >= list.len() {
        None
    } else {
        match sprite_pixel(c, list[k], line, x) {
            Some(col) => Some(col),
            None => front_sprite(c, list, k + 1, line, x),
        }
    }
}

/// A row with the listed sprites drawn over it.
pub open spec fn sprite_row(c: SpriteCtx, line: u8, row: Seq<u32>, list: Seq<u8>) -> Seq<u32> {
    Seq::new(
        160,
        |x: int|
            match front_sprite(c, list, 0, line, x as u8) {
                Some(col) => col,
                None => row[x],
            },
    )
}

/// The PPU after drawing line `line` (below 144): background, window and
/// sprites as LCDC enables them; the window's line counter advances when
/// the window covers the line.
pub open spec fn render_line_spec(p: GbcPpuView, line: u8) -> GbcPpuView {
    let row0 = bg_row(p, line);
    let row1 = window_row(p, line, row0);
    let list = sprites_on_line(p.oam, line, sprite_height(p.regs.lcdc), 40);
    let row2 = if p.regs.lcdc & 0x02 != 0 { sprite_row(sprite_ctx(p), line, row1, list) } else { row1 };
    GbcPpuView {
        framebuffer: with_row(p.framebuffer, line as int, row2),
        regs: GbcPpuRegs {
            window_line: if window_visible(p, line) { (p.regs.window_line + 1) as u8 } else { p.regs.window_line },
            ..p.regs
        },
        ..p
    }
}


/// The 160 pixels of row `line`.
pub open spec fn row_of(fb: Seq<u32>, line: int) -> Seq<u32> {
    fb.subrange(line * 160, line * 160 + 160)
}

proof fn lemma_row_of_with_row(fb: Seq<u32>, line: int, row: Seq<u32>)
    requires
        fb.len() == 160 * 144,
        0 <= line < 144,
        row.len() == 160,
    ensures
        row_of(with_row(fb, line, row), line) == row,
        with_row(fb, line, row).len() == fb.len(),
{
    assert(row_of(with_row(fb, line, row), line) =~= row);
}

proof fn lemma_with_row_twice(fb: Seq<u32>, line: int, r1: Seq<u32>, r2: Seq<u32>)
    requires
        fb.len() == 160 * 144,
        0 <= line < 144,
    ensures
        with_row(with_row(fb, line, r1), line, r2) == with_row(fb, line, r2),
{
    assert(with_row(with_row(fb, line, r1), line, r2) =~= with_row(fb, line, r2));
}

proof fn lemma_with_row_same(fb: Seq<u32>, line: int)
    requires
        fb.len() == 160 * 144,
        0 <= line < 144,
    ensures
        with_row(fb, line, row_of(fb, line)) == fb,
{
    assert(with_row(fb, line, row_of(fb, line)) =~= fb);
}

impl GbcPpu {
    fn read_vram_bank(&self, addr: u16, bank: u8) -> (b: u8)
        requires
            addr >= 0x8000,
        ensures
            b == vram_byte(self.vram@, addr, bank),
    {
        let offset = (addr - 0x8000) as usize + (bank as usize) * 0x2000;
        if offset < self.vram.len() {
            self.vram[offset]
        } else {
            0xFF
        }
    }

    fn dmg_color(palette: u8, idx: u8) -> (c: u32)
        requires
            idx < 4,
        ensures
            c == dmg_color(palette, idx),
    {
        let shade = (palette >> (idx * 2)) & 0x03;
        if shade == 0 {
            0xFF_E0_F8_D0
        } else if shade == 1 {
            0xFF_88_C0_70
        } else if shade == 2 {
            0xFF_34_68_56
        } else {
            0xFF_08_18_20
        }
    }

    fn rgb555_to_argb(c: u16) -> (argb: u32)
        ensures
            argb == rgb555_argb(c),
    {
        let r = ((c & 0x1F) as u32) * 255 / 31;
        let g = (((c >> 5u16) & 0x1F) as u32) * 255 / 31;
        let b = (((c >> 10u16) & 0x1F) as u32) * 255 / 31;
        0xFF00_0000u32 | (r << 16u32) | (g << 8u32) | b
    }

    fn cgb_color(data: &Vec<u8>, palette: u8, idx: u8) -> (c: u32)
        requires
            palette < 8,
            idx < 4,
        ensures
            c == cgb_color(data@, palette, idx),
    {
        let off = (palette as usize) * 8 + (idx as usize) * 2;
        if off + 1 < data.len() {
            let lo = data[off] as u16;
            let hi = data[off + 1] as u16;
            Self::rgb555_to_argb(lo | (hi << 8u16))
        } else {
            0xFF_FF_FF_FF
        }
    }

    fn color_index(lo: u8, hi: u8, bit: u8) -> (ci: u8)
        requires
            bit < 8,
        ensures
            ci == color_index(lo, hi, bit),
            ci < 4,
    {
        let ci = (((hi >> bit) & 1) << 1u8) | ((lo >> bit) & 1);
        assert(ci < 4) by (bit_vector)
            requires
                ci == (((hi >> bit) & 1) << 1u8) | ((lo >> bit) & 1),
        ;
        ci
    }

    fn tile_pixel(&self, map_addr: u16, fine_x: u8, fine_y: u8) -> (c: u32)
        requires
            0x9800 <= map_addr,
            fine_x < 8,
            fine_y < 8,
        ensures
            c == tile_pixel(self@, map_addr, fine_x, fine_y),
    {
        let index = self.read_vram_bank(map_addr, 0);
        let data: u16 = if self.lcdc & 0x10 != 0 {
            0x8000 + (index as u16) * 16
        } else if index < 128 {
            0x9000 + (index as u16) * 16
        } else {
            0x9000 + (index as u16) * 16 - 0x1000
        };
        let (bank, pal, x_flip, y_flip) = if self.is_cgb {
            let attrs = self.read_vram_bank(map_addr, 1);
            proof {
                assert((attrs >> 3u8) & 1 <= 1 && attrs & 0x07 < 8) by {
                    crate::bits::lemma_and_le_u8((attrs >> 3u8), 1);
                    crate::bits::lemma_and_le_u8(attrs, 0x07);
                }
            }
            ((attrs >> 3u8) & 1, attrs & 0x07, attrs & 0x20 != 0, attrs & 0x40 != 0)
        } else {
            (0u8, 0u8, false, false)
        };
        let row: u16 = if y_flip {
            (7 - fine_y) as u16
        } else {
            fine_y as u16
        };
        let lo = self.read_vram_bank(data + row * 2, bank);
        let hi = self.read_vram_bank(data + row * 2 + 1, bank);
        let bit = if x_flip {
            fine_x
        } else {
            7 - fine_x
        };
        let ci = Self::color_index(lo, hi, bit);
        if self.is_cgb {
            Self::cgb_color(&self.bgp_data, pal, ci)
        } else {
            Self::dmg_color(self.bgp, ci)
        }
    }

    fn fill_row(&mut self, line: u8, color: u32)
        requires
            line < 144,
            old(self).framebuffer@.len() == 160 * 144,
        ensures
            final(self)@ == (GbcPpuView {
                framebuffer: with_row(old(self)@.framebuffer, line as int, Seq::new(160, |x: int| color)),
                ..old(self)@
            }),
    {
        let start = (line as usize) * 160;
        let mut x: usize = 0;
        while x < 160
            invariant
                x <= 160,
                start == (line as int) * 160,
                line < 144,
                self.framebuffer@.len() == 160 * 144,
                self@ == (GbcPpuView { framebuffer: self.framebuffer@, ..old(self)@ }),
                forall|i: int|
                    0 <= i < 160 * 144 ==> #[trigger] self.framebuffer@[i] == if start <= i < start + x {
                        color
                    } else {
                        old(self)@.framebuffer[i]
                    },
            decreases 160 - x,
        {
            self.framebuffer.set(start + x, color);
            x = x + 1;
        }
        assert(self.framebuffer@ =~= with_row(old(self)@.framebuffer, line as int, Seq::new(160, |x: int| color)));
    }

    fn render_bg_line(&mut self, line: u8)
        requires
            line < 144,
            old(self).framebuffer@.len() == 160 * 144,
        ensures
            final(self)@ == (GbcPpuView {
                framebuffer: with_row(
                    old(self)@.framebuffer,
                    line as int,
                    Seq::new(160, |x: int| bg_pixel(old(self)@, line, x as u8)),
                ),
                ..old(self)@
            }),
    {
        let map_base: u16 = if self.lcdc & 0x08 != 0 {
            0x9C00
        } else {
            0x9800
        };
        let sy = self.scy.wrapping_add(line);
        let tile_row = (sy / 8) as u16;
        let start = (line as usize) * 160;
        let ghost p0 = self@;
        let mut px: usize = 0;
        while px < 160
            invariant
                px <= 160,
                start == (line as int) * 160,
                line < 144,
                self.framebuffer@.len() == 160 * 144,
                self@ == (GbcPpuView { framebuffer: self.framebuffer@, ..p0 }),
                p0 == old(self)@,
                map_base == (if p0.regs.lcdc & 0x08 != 0 { 0x9C00u16 } else { 0x9800u16 }),
                sy == p0.regs.scy.wrapping_add(line),
                tile_row == (sy / 8) as u16,
                forall|i: int|
                    0 <= i < 160 * 144 ==> #[trigger] self.framebuffer@[i] == if start <= i < start + px {
                        bg_pixel(p0, line, (i - start) as u8)
                    } else {
                        p0.framebuffer[i]
                    },
            decreases 160 - px,
        {
            let sx = self.scx.wrapping_add(px as u8);
            let map_addr = map_base + tile_row * 32 + (sx / 8) as u16;
            let c = self.tile_pixel(map_addr, sx % 8, sy % 8);
            assert(c == bg_pixel(p0, line, px as u8));
            self.framebuffer.set(start + px, c);
            px = px + 1;
        }
        assert(self.framebuffer@ =~= with_row(
            p0.framebuffer,
            line as int,
            Seq::new(160, |x: int| bg_pixel(p0, line, x as u8)),
        ));
    }
}


/// The listed sprites are OAM indices below `n`, each covering the line, at most ten.
proof fn lemma_sprites_on_line(oam: Seq<u8>, line: u8, h: u8, n: nat)
    requires
        n <= 40,
    ensures
        sprites_on_line(oam, line, h, n).len() <= 10,
        forall|k: int|
            0 <= k < sprites_on_line(oam, line, h, n).len() ==> (#[trigger] sprites_on_line(oam, line, h, n)[k])
                < n && sprite_on_line(oam, sprites_on_line(oam, line, h, n)[k] as int, line, h),
    decreases n,
{
    if n > 0 {
        lemma_sprites_on_line(oam, line, h, (n - 1) as nat);
    }
}

impl GbcPpu {
    fn render_window_line(&mut self, line: u8)
        requires
            line < 144,
            old(self).framebuffer@.len() == 160 * 144,
            window_visible(old(self)@, line) ==> old(self).window_line < 255,
            old(self).lcdc & 0x20 != 0,
        ensures
            final(self)@ == (GbcPpuView {
                framebuffer: with_row(
                    old(self)@.framebuffer,
                    line as int,
                    window_row(old(self)@, line, row_of(old(self)@.framebuffer, line as int)),
                ),
                regs: GbcPpuRegs {
                    window_line: if window_visible(old(self)@, line) {
                        (old(self).window_line + 1) as u8
                    } else {
                        old(self).window_line
                    },
                    ..old(self)@.regs
                },
                ..old(self)@
            }),
    {
        let ghost p0 = self@;
        let start = (line as usize) * 160;
        if self.wy > line {
            proof {
                lemma_with_row_same(p0.framebuffer, line as int);
                assert(window_row(p0, line, row_of(p0.framebuffer, line as int)) =~= row_of(p0.framebuffer, line as int));
            }
            return;
        }
        let wx = self.wx.wrapping_sub(7);
        let map_base: u16 = if self.lcdc & 0x40 != 0 {
            0x9C00
        } else {
            0x9800
        };
        let win_y = self.window_line;
        let tile_row = (win_y / 8) as u16;
        let mut drew_pixel = false;
        let mut px: usize = 0;
        while px < 160
            invariant
                px <= 160,
                start == (line as int) * 160,
                line < 144,
                self.framebuffer@.len() == 160 * 144,
                self@ == (GbcPpuView { framebuffer: self.framebuffer@, ..p0 }),
                p0 == old(self)@,
                p0.regs.lcdc & 0x20 != 0,
                p0.regs.wy <= line,
                wx == p0.regs.wx.wrapping_sub(7),
                map_base == (if p0.regs.lcdc & 0x40 != 0 { 0x9C00u16 } else { 0x9800u16 }),
                win_y == p0.regs.window_line,
                tile_row == (win_y / 8) as u16,
                drew_pixel == (wx < px),
                forall|i: int|
                    0 <= i < 160 * 144 ==> #[trigger] self.framebuffer@[i] == if start <= i < start + px && i
                        - start >= wx {
                        window_pixel(p0, (i - start) as u8)
                    } else {
                        p0.framebuffer[i]
                    },
            decreases 160 - px,
        {
            if (px as u8) >= wx {
                drew_pixel = true;
                let win_x = (px as u8) - wx;
                let map_addr = map_base + tile_row * 32 + (win_x / 8) as u16;
                let c = self.tile_pixel(map_addr, win_x % 8, win_y % 8);
                assert(c == window_pixel(p0, px as u8));
                self.framebuffer.set(start + px, c);
            }
            px = px + 1;
        }
        if drew_pixel {
            self.window_line = self.window_line + 1;
        }
        assert(self.framebuffer@ =~= with_row(
            p0.framebuffer,
            line as int,
            window_row(p0, line, row_of(p0.framebuffer, line as int)),
        ));
    }

    /// Draws one sprite (that covers the line) over the row.
    fn draw_sprite(&mut self, s: u8, line: u8, tall: bool)
        requires
            line < 144,
            s < 40,
            old(self).framebuffer@.len() == 160 * 144,
            old(self).oam@.len() == 160,
            old(self).obp_data@.len() == 64,
            tall == (old(self).lcdc & 0x04 != 0),
            sprite_on_line(old(self).oam@, s as int, line, sprite_height(old(self).lcdc)),
        ensures
            final(self)@ == (GbcPpuView {
                framebuffer: with_row(
                    old(self)@.framebuffer,
                    line as int,
                    Seq::new(
                        160,
                        |x: int|
                            match sprite_pixel(sprite_ctx(old(self)@), s, line, x as u8) {
                                Some(c) => c,
                                None => old(self)@.framebuffer[(line as int) * 160 + x],
                            },
                    ),
                ),
                ..old(self)@
            }),
    {
        let ghost p0 = self@;
        let ghost ctx = sprite_ctx(p0);
        let base = (s as usize) * 4;
        let sy = self.oam[base].wrapping_sub(16);
        let sx = self.oam[base + 1].wrapping_sub(8);
        let mut tile = self.oam[base + 2];
        let flags = self.oam[base + 3];
        let h: u8 = if tall {
            16
        } else {
            8
        };
        if tall {
            tile = tile & 0xFE;
        }
        let dy = line.wrapping_sub(sy);
        let sprite_y = if flags & 0x40 != 0 {
            (h - 1) - dy
        } else {
            dy
        };
        let (bank, pal) = if self.is_cgb {
            proof {
                assert((flags >> 3u8) & 1 <= 1 && flags & 0x07 < 8) by {
                    crate::bits::lemma_and_le_u8((flags >> 3u8), 1);
                    crate::bits::lemma_and_le_u8(flags, 0x07);
                }
            }
            ((flags >> 3u8) & 1, flags & 0x07)
        } else {
            (0u8, if flags & 0x10 != 0 { 1u8 } else { 0u8 })
        };
        let addr: u16 = 0x8000 + (tile as u16) * 16 + (sprite_y as u16) * 2;
        let lo = self.read_vram_bank(addr, bank);
        let hi = self.read_vram_bank(addr + 1, bank);
        let x_flip = flags & 0x20 != 0;
        let start = (line as usize) * 160;
        let mut b: u8 = 0;
        while b < 8
            invariant
                b <= 8,
                start == (line as int) * 160,
                line < 144,
                s < 40,
                self.framebuffer@.len() == 160 * 144,
                self@ == (GbcPpuView { framebuffer: self.framebuffer@, ..p0 }),
                p0 == old(self)@,
                ctx == sprite_ctx(p0),
                sx == p0.oam[4 * (s as int) + 1].wrapping_sub(8),
                sy == p0.oam[4 * (s as int)].wrapping_sub(16),
                flags == p0.oam[4 * (s as int) + 3],
                h == sprite_height(p0.regs.lcdc),
                tile == (if p0.regs.lcdc & 0x04 != 0 { p0.oam[4 * (s as int) + 2] & 0xFE } else { p0.oam[4 * (s as int) + 2] }),
                sprite_y == (if flags & 0x40 != 0 { ((h - 1) - line.wrapping_sub(sy)) as u8 } else { line.wrapping_sub(sy) }),
                bank == (if p0.regs.is_cgb { (flags >> 3u8) & 1 } else { 0 }),
                pal == (if p0.regs.is_cgb { flags & 0x07 } else if flags & 0x10 != 0 { 1u8 } else { 0u8 }),
                pal < 8,
                addr == (0x8000 + (tile as int) * 16 + (sprite_y as int) * 2) as u16,
                lo == vram_byte(p0.vram, addr, bank),
                hi == vram_byte(p0.vram, (addr + 1) as u16, bank),
                x_flip == (flags & 0x20 != 0),
                forall|i: int|
                    0 <= i < 160 * 144 ==> #[trigger] self.framebuffer@[i] == if start <= i < start + 160 && (
                    (i - start) as u8).wrapping_sub(sx) < b && sprite_pixel(ctx, s, line, (i - start) as u8) is Some {
                        sprite_pixel(ctx, s, line, (i - start) as u8)->0
                    } else {
                        p0.framebuffer[i]
                    },
            decreases 8 - b,
        {
            let screen_x = sx.wrapping_add(b);
            assert(screen_x.wrapping_sub(sx) == b);
            if (screen_x as usize) < 160 {
                let ab = if x_flip {
                    b
                } else {
                    7 - b
                };
                let ci = Self::color_index(lo, hi, ab);
                if ci != 0 {
                    let c = if self.is_cgb {
                        Self::cgb_color(&self.obp_data, pal, ci)
                    } else {
                        let palette = if pal == 1 {
                            self.obp1
                        } else {
                            self.obp0
                        };
                        Self::dmg_color(palette, ci)
                    };
                    assert(sprite_pixel(ctx, s, line, screen_x) == Some(c));
                    self.framebuffer.set(start + screen_x as usize, c);
                } else {
                    assert(sprite_pixel(ctx, s, line, screen_x) is None);
                }
            }
            b = b + 1;
        }
        assert forall|x: int| 0 <= x < 160 && ((x as u8).wrapping_sub(sx) >= 8) implies #[trigger] sprite_pixel(
            ctx,
            s,
            line,
            x as u8,
        ) is None by {}
        assert(self.framebuffer@ =~= with_row(
            p0.framebuffer,
            line as int,
            Seq::new(
                160,
                |x: int|
                    match sprite_pixel(ctx, s, line, x as u8) {
                        Some(c) => c,
                        None => p0.framebuffer[(line as int) * 160 + x],
                    },
            ),
        ));
    }
}


impl GbcPpu {
    fn sprite_list(&self, line: u8, h: u8) -> (list: Vec<u8>)
        requires
            self.oam@.len() == 160,
        ensures
            list@ == sprites_on_line(self.oam@, line, h, 40),
    {
        let mut list: Vec<u8> = Vec::new();
        let mut i: usize = 0;
        while i < 40
            invariant
                i <= 40,
                self.oam@.len() == 160,
                list@ == sprites_on_line(self.oam@, line, h, i as nat),
            decreases 40 - i,
        {
            let base = i * 4;
            let sy = self.oam[base].wrapping_sub(16);
            if list.len() < 10 && line >= sy && line < sy.wrapping_add(h) {
                list.push(i as u8);
            }
            i = i + 1;
        }
        list
    }

    fn render_sprites_line(&mut self, line: u8)
        requires
            line < 144,
            old(self).framebuffer@.len() == 160 * 144,
            old(self).oam@.len() == 160,
            old(self).obp_data@.len() == 64,
        ensures
            final(self)@ == (GbcPpuView {
                framebuffer: with_row(
                    old(self)@.framebuffer,
                    line as int,
                    sprite_row(
                        sprite_ctx(old(self)@),
                        line,
                        row_of(old(self)@.framebuffer, line as int),
                        sprites_on_line(old(self)@.oam, line, sprite_height(old(self).lcdc), 40),
                    ),
                ),
                ..old(self)@
            }),
    {
        let ghost p0 = self@;
        let ghost ctx = sprite_ctx(p0);
        let ghost row0 = row_of(p0.framebuffer, line as int);
        let tall = self.lcdc & 0x04 != 0;
        let h: u8 = if tall {
            16
        } else {
            8
        };
        let list = self.sprite_list(line, h);
        proof {
            lemma_sprites_on_line(p0.oam, line, h, 40);
        }
        let mut k = list.len();
        proof {
            assert(with_row(p0.framebuffer, line as int, Seq::new(
                160,
                |x: int|
                    match front_sprite(ctx, list@, k as int, line, x as u8) {
                        Some(c) => c,
                        None => row0[x],
                    },
            )) =~= p0.framebuffer);
        }
        while k > 0
            invariant
                k <= list@.len() <= 10,
                line < 144,
                p0 == old(self)@,
                p0.framebuffer.len() == 160 * 144,
                p0.oam.len() == 160,
                p0.obp_data.len() == 64,
                ctx == sprite_ctx(p0),
                row0 == row_of(p0.framebuffer, line as int),
                tall == (p0.regs.lcdc & 0x04 != 0),
                h == sprite_height(p0.regs.lcdc),
                list@ == sprites_on_line(p0.oam, line, h, 40),
                forall|j: int|
                    0 <= j < list@.len() ==> (#[trigger] list@[j]) < 40 && sprite_on_line(p0.oam, list@[j] as int, line, h),
                self@ == (GbcPpuView { framebuffer: self.framebuffer@, ..p0 }),
                self.framebuffer@ == with_row(
                    p0.framebuffer,
                    line as int,
                    Seq::new(
                        160,
                        |x: int|
                            match front_sprite(ctx, list@, k as int, line, x as u8) {
                                Some(c) => c,
                                None => row0[x],
                            },
                    ),
                ),
            decreases k,
        {
            k = k - 1;
            let ghost fb_before = self.framebuffer@;
            let s = list[k];
            self.draw_sprite(s, line, tall);
            proof {
                let new_row = Seq::new(
                    160,
                    |x: int|
                        match front_sprite(ctx, list@, k as int, line, x as u8) {
                            Some(c) => c,
                            None => row0[x],
                        },
                );
                assert forall|x: int| 0 <= x < 160 implies (match sprite_pixel(ctx, s, line, x as u8) {
                    Some(c) => c,
                    None => fb_before[(line as int) * 160 + x],
                }) == #[trigger] new_row[x] by {
                    assert(fb_before[(line as int) * 160 + x] == (match front_sprite(ctx, list@, k + 1, line, x as u8) {
                        Some(c) => c,
                        None => row0[x],
                    }));
                }
                assert(self.framebuffer@ =~= with_row(p0.framebuffer, line as int, new_row));
            }
        }
        proof {
            assert(self.framebuffer@ =~= with_row(
                p0.framebuffer,
                line as int,
                sprite_row(ctx, line, row0, list@),
            ));
        }
    }
}


/// Drawing the current line, when it is on screen.
pub open spec fn render_spec(p: GbcPpuView) -> GbcPpuView {
    if p.regs.ly >= 144 {
        p
    } else {
        render_line_spec(p, p.regs.ly)
    }
}

/// Interrupt request bits: V-blank (bit 0) and STAT (bit 1).
pub open spec fn irq_bits(vblank: bool, stat: bool) -> u8 {
    ((if vblank { 1u8 } else { 0u8 }) + (if stat { 2u8 } else { 0u8 })) as u8
}

/// What `tick(cycles)` does: with the LCD on, the mode machine advances
/// (OAM scan 80 cycles, drawing 172 then the line is drawn, H-blank 204,
/// each V-blank line 456) by at most one step, and returns the interrupt
/// requests (bit 0 V-blank, bit 1 STAT).
pub open spec fn gbc_tick_spec(p: GbcPpuView, cycles: u32) -> (GbcPpuView, u8) {
    let r = p.regs;
    let c = r.cycles + cycles;
    if r.lcdc & 0x80 == 0 {
        (p, 0)
    } else {
        match r.mode {
            PpuMode::OamScan => if c >= 80 {
                (GbcPpuView { regs: GbcPpuRegs { cycles: (c - 80) as u32, mode: PpuMode::Drawing, ..r }, ..p }, 0)
            } else {
                (GbcPpuView { regs: GbcPpuRegs { cycles: c as u32, ..r }, ..p }, 0)
            },
            PpuMode::Drawing => if c >= 172 {
                (
                    render_spec(GbcPpuView { regs: GbcPpuRegs { cycles: (c - 172) as u32, mode: PpuMode::HBlank, ..r }, ..p }),
                    irq_bits(false, r.stat & 0x08 != 0),
                )
            } else {
                (GbcPpuView { regs: GbcPpuRegs { cycles: c as u32, ..r }, ..p }, 0)
            },
            PpuMode::HBlank => if c >= 204 {
                let ly = (r.ly + 1) as u8;
                let lyc_hit = ly == r.lyc && r.stat & 0x40 != 0;
                if ly >= 144 {
                    (
                        GbcPpuView {
                            regs: GbcPpuRegs { cycles: (c - 204) as u32, ly, mode: PpuMode::VBlank, frame_ready: true, ..r },
                            ..p
                        },
                        irq_bits(true, lyc_hit || r.stat & 0x10 != 0),
                    )
                } else {
                    (
                        GbcPpuView { regs: GbcPpuRegs { cycles: (c - 204) as u32, ly, mode: PpuMode::OamScan, ..r }, ..p },
                        irq_bits(false, lyc_hit || r.stat & 0x20 != 0),
                    )
                }
            } else {
                (GbcPpuView { regs: GbcPpuRegs { cycles: c as u32, ..r }, ..p }, 0)
            },
            PpuMode::VBlank => if c >= 456 {
                let ly = (r.ly + 1) as u8;
                let lyc_hit = ly == r.lyc && r.stat & 0x40 != 0;
                if ly >= 154 {
                    (
                        GbcPpuView {
                            regs: GbcPpuRegs { cycles: (c - 456) as u32, ly: 0, window_line: 0, mode: PpuMode::OamScan, ..r },
                            ..p
                        },
                        irq_bits(false, lyc_hit || r.stat & 0x20 != 0),
                    )
                } else {
                    (GbcPpuView { regs: GbcPpuRegs { cycles: (c - 456) as u32, ly, ..r }, ..p }, irq_bits(false, lyc_hit))
                }
            } else {
                (GbcPpuView { regs: GbcPpuRegs { cycles: c as u32, ..r }, ..p }, 0)
            },
        }
    }
}

/// A tick with the LCD off changes nothing and requests nothing. With it
/// on, the requests are within bits 0 and 1, and the V-blank request comes
/// only as line 144 is entered, in V-blank mode with the frame ready.
pub proof fn lemma_gbc_tick_facts(p: GbcPpuView, cycles: u32)
    requires
        gbc_ppu_wf(p),
    ensures
        p.regs.lcdc & 0x80 == 0 ==> gbc_tick_spec(p, cycles) == (p, 0u8),
        gbc_tick_spec(p, cycles).1 & 0xFC == 0,
        gbc_tick_spec(p, cycles).1 & 0x01 != 0 ==> {
            let q = gbc_tick_spec(p, cycles).0.regs;
            q.mode == PpuMode::VBlank && q.ly == 144 && q.frame_ready
        },
{
    assert(forall|v: bool, t: bool| #[trigger] irq_bits(v, t) & 0xFC == 0 && (irq_bits(v, t) & 0x01 != 0 <==> v))
        by {
        assert forall|v: bool, t: bool| #[trigger] irq_bits(v, t) & 0xFC == 0 && (irq_bits(v, t) & 0x01 != 0 <==> v) by {
            let x = irq_bits(v, t);
            assert(x == 0 || x == 1 || x == 2 || x == 3);
            assert((x == 0 || x == 1 || x == 2 || x == 3) ==> (x & 0xFC == 0 && (x & 0x01 != 0 <==> (x == 1 || x == 3))))
                by (bit_vector);
        }
    }
    assert(0u8 & 0xFC == 0 && 0u8 & 0x01 == 0) by (bit_vector);
}

/// What `tick` must not meet: the cycle counter overflowing, or the window
/// line counter overflowing when this tick draws a line with the window.
pub open spec fn gbc_tick_defined(p: GbcPpuView, cycles: u32) -> bool {
    &&& p.regs.cycles + cycles <= u32::MAX
    &&& (p.regs.lcdc & 0x80 != 0 && p.regs.mode == PpuMode::Drawing && p.regs.cycles + cycles >= 172
        && window_visible(p, p.regs.ly)) ==> p.regs.window_line < 255
}

/// What a read of PPU register `addr` returns.
pub open spec fn gbc_read_io_spec(p: GbcPpuView, addr: u16) -> u8 {
    let r = p.regs;
    if addr == 0xFF40 {
        r.lcdc
    } else if addr == 0xFF41 {
        (r.stat & 0xF8) | (if r.ly == r.lyc { 0x04u8 } else { 0u8 }) | mode_number(r.mode)
    } else if addr == 0xFF42 {
        r.scy
    } else if addr == 0xFF43 {
        r.scx
    } else if addr == 0xFF44 {
        r.ly
    } else if addr == 0xFF45 {
        r.lyc
    } else if addr == 0xFF47 {
        r.bgp
    } else if addr == 0xFF48 {
        r.obp0
    } else if addr == 0xFF49 {
        r.obp1
    } else if addr == 0xFF4A {
        r.wy
    } else if addr == 0xFF4B {
        r.wx
    } else if addr == 0xFF68 {
        r.bgp_index | (if r.bgp_auto_inc { 0x80u8 } else { 0u8 })
    } else if addr == 0xFF69 {
        p.bgp_data[(r.bgp_index & 0x3F) as int]
    } else if addr == 0xFF6A {
        r.obp_index | (if r.obp_auto_inc { 0x80u8 } else { 0u8 })
    } else if addr == 0xFF6B {
        p.obp_data[(r.obp_index & 0x3F) as int]
    } else {
        0xFF
    }
}

/// The PPU after a write of `val` to register `addr`.
pub open spec fn gbc_write_io_spec(p: GbcPpuView, addr: u16, val: u8) -> GbcPpuView {
    let r = p.regs;
    if addr == 0xFF40 {
        if r.lcdc & 0x80 != 0 && val & 0x80 == 0 {
            GbcPpuView { regs: GbcPpuRegs { lcdc: val, ly: 0, cycles: 0, mode: PpuMode::HBlank, ..r }, ..p }
        } else {
            GbcPpuView { regs: GbcPpuRegs { lcdc: val, ..r }, ..p }
        }
    } else if addr == 0xFF41 {
        GbcPpuView { regs: GbcPpuRegs { stat: (val & 0xF8) | (r.stat & 0x07), ..r }, ..p }
    } else if addr == 0xFF42 {
        GbcPpuView { regs: GbcPpuRegs { scy: val, ..r }, ..p }
    } else if addr == 0xFF43 {
        GbcPpuView { regs: GbcPpuRegs { scx: val, ..r }, ..p }
    } else if addr == 0xFF45 {
        GbcPpuView { regs: GbcPpuRegs { lyc: val, ..r }, ..p }
    } else if addr == 0xFF47 {
        GbcPpuView { regs: GbcPpuRegs { bgp: val, ..r }, ..p }
    } else if addr == 0xFF48 {
        GbcPpuView { regs: GbcPpuRegs { obp0: val, ..r }, ..p }
    } else if addr == 0xFF49 {
        GbcPpuView { regs: GbcPpuRegs { obp1: val, ..r }, ..p }
    } else if addr == 0xFF4A {
        GbcPpuView { regs: GbcPpuRegs { wy: val, ..r }, ..p }
    } else if addr == 0xFF4B {
        GbcPpuView { regs: GbcPpuRegs { wx: val, ..r }, ..p }
    } else if addr == 0xFF68 {
        GbcPpuView { regs: GbcPpuRegs { bgp_index: val & 0x3F, bgp_auto_inc: val & 0x80 != 0, ..r }, ..p }
    } else if addr == 0xFF69 {
        GbcPpuView {
            bgp_data: p.bgp_data.update((r.bgp_index & 0x3F) as int, val),
            regs: GbcPpuRegs {
                bgp_index: if r.bgp_auto_inc { ((r.bgp_index + 1) as u8) & 0x3F } else { r.bgp_index },
                ..r
            },
            ..p
        }
    } else if addr == 0xFF6A {
        GbcPpuView { regs: GbcPpuRegs { obp_index: val & 0x3F, obp_auto_inc: val & 0x80 != 0, ..r }, ..p }
    } else if addr == 0xFF6B {
        GbcPpuView {
            obp_data: p.obp_data.update((r.obp_index & 0x3F) as int, val),
            regs: GbcPpuRegs {
                obp_index: if r.obp_auto_inc { ((r.obp_index + 1) as u8) & 0x3F } else { r.obp_index },
                ..r
            },
            ..p
        }
    } else {
        p
    }
}

/// The VRAM offset of bus address `addr` in the selected bank.
pub open spec fn vram_offset(p: GbcPpuView, addr: u16) -> int {
    (addr - 0x8000) + (p.regs.vram_bank as int) * 0x2000
}

impl GbcPpu {
    /// A PPU after power-on (two VRAM banks on the Game Boy Color).
    pub fn new(is_cgb: bool) -> (p: Self)
        ensures
            gbc_ppu_wf(p@),
            p@.framebuffer == Seq::new(160 * 144, |i: int| 0xFFFF_FFFFu32),
            p@.vram == Seq::new(if is_cgb { 0x4000nat } else { 0x2000nat }, |i: int| 0u8),
            p@.oam == Seq::new(160, |i: int| 0u8),
            p@.bgp_data == Seq::new(64, |i: int| 0xFFu8),
            p@.obp_data == Seq::new(64, |i: int| 0xFFu8),
            p.is_cgb == is_cgb && p.vram_bank == 0 && p.lcdc == 0x91 && p.stat == 0,
            p.scy == 0 && p.scx == 0 && p.ly == 0 && p.lyc == 0 && p.wy == 0 && p.wx == 0,
            p.bgp == 0xFC && p.obp0 == 0xFF && p.obp1 == 0xFF,
            p.bgp_index == 0 && !p.bgp_auto_inc && p.obp_index == 0 && !p.obp_auto_inc,
            p.mode == PpuMode::OamScan && p.cycles == 0 && p.window_line == 0 && !p.frame_ready,
    {
        let vram_size: usize = if is_cgb {
            0x4000
        } else {
            0x2000
        };
        let p = GbcPpu {
            framebuffer: vec![0xFFFF_FFFFu32; 160 * 144],
            vram: vec![0u8; vram_size],
            oam: vec![0u8; 160],
            vram_bank: 0,
            is_cgb,
            lcdc: 0x91,
            stat: 0,
            scy: 0,
            scx: 0,
            ly: 0,
            lyc: 0,
            wy: 0,
            wx: 0,
            bgp: 0xFC,
            obp0: 0xFF,
            obp1: 0xFF,
            bgp_index: 0,
            bgp_auto_inc: false,
            bgp_data: vec![0xFFu8; 64],
            obp_index: 0,
            obp_auto_inc: false,
            obp_data: vec![0xFFu8; 64],
            mode: PpuMode::OamScan,
            cycles: 0,
            window_line: 0,
            frame_ready: false,
        };
        assert(p@.framebuffer =~= Seq::new(160 * 144, |i: int| 0xFFFF_FFFFu32));
        assert(p@.vram =~= Seq::new(if is_cgb { 0x4000nat } else { 0x2000nat }, |i: int| 0u8));
        assert(p@.oam =~= Seq::new(160, |i: int| 0u8));
        assert(p@.bgp_data =~= Seq::new(64, |i: int| 0xFFu8));
        assert(p@.obp_data =~= Seq::new(64, |i: int| 0xFFu8));
        p
    }

    fn render_scanline(&mut self)
        requires
            gbc_ppu_wf(old(self)@),
            old(self).ly < 144 && window_visible(old(self)@, old(self).ly) ==> old(self).window_line < 255,
        ensures
            final(self)@ == render_spec(old(self)@),
    {
        let line = self.ly;
        if line >= 144 {
            return;
        }
        let ghost p0 = self@;
        let ghost l = line as int;
        self.fill_row(line, 0xFFFF_FFFF);
        if self.lcdc & 0x01 != 0 || self.is_cgb {
            self.render_bg_line(line);
            proof {
                lemma_with_row_twice(p0.framebuffer, l, Seq::new(160, |x: int| 0xFFFF_FFFFu32), Seq::new(
                    160,
                    |x: int| bg_pixel(p0, line, x as u8),
                ));
            }
        }
        let ghost row0 = bg_row(p0, line);
        proof {
            assert(self.framebuffer@ =~= with_row(p0.framebuffer, l, row0));
            lemma_row_of_with_row(p0.framebuffer, l, row0);
        }
        let ghost p2 = self@;
        if self.lcdc & 0x20 != 0 {
            self.render_window_line(line);
            proof {
                assert(window_row(p2, line, row0) =~= window_row(p0, line, row0));
                lemma_with_row_twice(p0.framebuffer, l, row0, window_row(p0, line, row0));
            }
        } else {
            proof {
                assert(window_row(p0, line, row0) =~= row0);
            }
        }
        let ghost row1 = window_row(p0, line, row0);
        proof {
            assert(self.framebuffer@ == with_row(p0.framebuffer, l, row1));
            lemma_row_of_with_row(p0.framebuffer, l, row1);
            assert(sprite_ctx(self@) == sprite_ctx(p0));
        }
        if self.lcdc & 0x02 != 0 {
            self.render_sprites_line(line);
            proof {
                lemma_with_row_twice(
                    p0.framebuffer,
                    l,
                    row1,
                    sprite_row(sprite_ctx(p0), line, row1, sprites_on_line(p0.oam, line, sprite_height(p0.regs.lcdc), 40)),
                );
            }
        }
        assert(self@ =~~= render_spec(p0));
    }

    /// Advances the PPU by `cycles` cycles; returns the interrupt requests.
    pub fn tick(&mut self, cycles: u32) -> (irqs: u8)
        requires
            gbc_ppu_wf(old(self)@),
            gbc_tick_defined(old(self)@, cycles),
        ensures
            (final(self)@, irqs) =~~= gbc_tick_spec(old(self)@, cycles),
            gbc_ppu_wf(final(self)@),
    {
        if self.lcdc & 0x80 == 0 {
            return 0;
        }
        let mut vblank = false;
        let mut stat = false;
        self.cycles = self.cycles + cycles;
        match self.mode {
            PpuMode::OamScan => {
                if self.cycles >= 80 {
                    self.cycles = self.cycles - 80;
                    self.mode = PpuMode::Drawing;
                }
            },
            PpuMode::Drawing => {
                if self.cycles >= 172 {
                    self.cycles = self.cycles - 172;
                    self.mode = PpuMode::HBlank;
                    self.render_scanline();
                    if self.stat & 0x08 != 0 {
                        stat = true;
                    }
                }
            },
            PpuMode::HBlank => {
                if self.cycles >= 204 {
                    self.cycles = self.cycles - 204;
                    self.ly = self.ly + 1;
                    if self.ly == self.lyc && (self.stat & 0x40 != 0) {
                        stat = true;
                    }
                    if self.ly >= 144 {
                        self.mode = PpuMode::VBlank;
                        vblank = true;
                        self.frame_ready = true;
                        if self.stat & 0x10 != 0 {
                            stat = true;
                        }
                    } else {
                        self.mode = PpuMode::OamScan;
                        if self.stat & 0x20 != 0 {
                            stat = true;
                        }
                    }
                }
            },
            PpuMode::VBlank => {
                if self.cycles >= 456 {
                    self.cycles = self.cycles - 456;
                    self.ly = self.ly + 1;
                    if self.ly == self.lyc && (self.stat & 0x40 != 0) {
                        stat = true;
                    }
                    if self.ly >= 154 {
                        self.ly = 0;
                        self.window_line = 0;
                        self.mode = PpuMode::OamScan;
                        if self.stat & 0x20 != 0 {
                            stat = true;
                        }
                    }
                }
            },
        }
        // V-blank is IF bit 0, STAT bit 1.
        let irqs: u8 = (if vblank { 1u8 } else { 0u8 }) + (if stat { 2u8 } else { 0u8 });
        irqs
    }

    /// Reads VRAM at bus address `addr` in the selected bank (0xFF beyond VRAM).
    pub fn read_vram(&self, addr: u16) -> (b: u8)
        requires
            addr >= 0x8000,
        ensures
            b == byte_or_ff(self@.vram, vram_offset(self@, addr)),
    {
        let offset = (addr - 0x8000) as usize + (self.vram_bank as usize) * 0x2000;
        if offset < self.vram.len() {
            self.vram[offset]
        } else {
            0xFF
        }
    }

    /// Writes VRAM at bus address `addr` in the selected bank.
    pub fn write_vram(&mut self, addr: u16, val: u8)
        requires
            addr >= 0x8000,
        ensures
            final(self)@ == (GbcPpuView {
                vram: if vram_offset(old(self)@, addr) < old(self)@.vram.len() {
                    old(self)@.vram.update(vram_offset(old(self)@, addr), val)
                } else {
                    old(self)@.vram
                },
                ..old(self)@
            }),
    {
        let offset = (addr - 0x8000) as usize + (self.vram_bank as usize) * 0x2000;
        if offset < self.vram.len() {
            self.vram.set(offset, val);
        }
    }

    /// Reads PPU register `addr` (0xFF40-0xFF4B, 0xFF68-0xFF6B).
    pub fn read_io(&self, addr: u16) -> (v: u8)
        requires
            gbc_ppu_wf(self@),
        ensures
            v == gbc_read_io_spec(self@, addr),
    {
        match addr {
            0xFF40 => self.lcdc,
            0xFF41 => {
                let mode_bits: u8 = match self.mode {
                    PpuMode::HBlank => 0,
                    PpuMode::VBlank => 1,
                    PpuMode::OamScan => 2,
                    PpuMode::Drawing => 3,
                };
                let lyc_flag: u8 = if self.ly == self.lyc {
                    0x04
                } else {
                    0
                };
                (self.stat & 0xF8) | lyc_flag | mode_bits
            },
            0xFF42 => self.scy,
            0xFF43 => self.scx,
            0xFF44 => self.ly,
            0xFF45 => self.lyc,
            0xFF47 => self.bgp,
            0xFF48 => self.obp0,
            0xFF49 => self.obp1,
            0xFF4A => self.wy,
            0xFF4B => self.wx,
            0xFF68 => self.bgp_index | if self.bgp_auto_inc {
                0x80
            } else {
                0
            },
            0xFF69 => {
                proof {
                    let bi = self.bgp_index;
                    assert(bi & 0x3F < 64) by {
                        crate::bits::lemma_and_le_u8(bi, 0x3F);
                    }
                }
                self.bgp_data[(self.bgp_index & 0x3F) as usize]
            },
            0xFF6A => self.obp_index | if self.obp_auto_inc {
                0x80
            } else {
                0
            },
            0xFF6B => {
                proof {
                    let oi = self.obp_index;
                    assert(oi & 0x3F < 64) by {
                        crate::bits::lemma_and_le_u8(oi, 0x3F);
                    }
                }
                self.obp_data[(self.obp_index & 0x3F) as usize]
            },
            _ => 0xFF,
        }
    }

    /// Writes PPU register `addr`; LY is read-only, and turning the LCD off
    /// resets the line and the mode.
    pub fn write_io(&mut self, addr: u16, val: u8)
        requires
            gbc_ppu_wf(old(self)@),
        ensures
            final(self)@ =~~= gbc_write_io_spec(old(self)@, addr, val),
            gbc_ppu_wf(final(self)@),
    {
        match addr {
            0xFF40 => {
                let was_on = self.lcdc & 0x80 != 0;
                self.lcdc = val;
                if was_on && self.lcdc & 0x80 == 0 {
                    self.ly = 0;
                    self.cycles = 0;
                    self.mode = PpuMode::HBlank;
                }
            },
            0xFF41 => self.stat = (val & 0xF8) | (self.stat & 0x07),
            0xFF42 => self.scy = val,
            0xFF43 => self.scx = val,
            0xFF45 => self.lyc = val,
            0xFF47 => self.bgp = val,
            0xFF48 => self.obp0 = val,
            0xFF49 => self.obp1 = val,
            0xFF4A => self.wy = val,
            0xFF4B => self.wx = val,
            0xFF68 => {
                self.bgp_index = val & 0x3F;
                self.bgp_auto_inc = val & 0x80 != 0;
                proof {
                    assert(val & 0x3F < 64) by {
                        crate::bits::lemma_and_le_u8(val, 0x3F);
                    }
                }
            },
            0xFF69 => {
                proof {
                    let bi = self.bgp_index;
                    assert(bi & 0x3F < 64) by {
                        crate::bits::lemma_and_le_u8(bi, 0x3F);
                    }
                }
                self.bgp_data.set((self.bgp_index & 0x3F) as usize, val);
                if self.bgp_auto_inc {
                    let x = self.bgp_index + 1;
                    let nb = x & 0x3F;
                    assert(nb < 64) by (bit_vector)
                        requires
                            nb == x & 0x3F,
                    ;
                    self.bgp_index = nb;
                }
            },
            0xFF6A => {
                self.obp_index = val & 0x3F;
                self.obp_auto_inc = val & 0x80 != 0;
                proof {
                    assert(val & 0x3F < 64) by {
                        crate::bits::lemma_and_le_u8(val, 0x3F);
                    }
                }
            },
            0xFF6B => {
                proof {
                    let oi = self.obp_index;
                    assert(oi & 0x3F < 64) by {
                        crate::bits::lemma_and_le_u8(oi, 0x3F);
                    }
                }
                self.obp_data.set((self.obp_index & 0x3F) as usize, val);
                if self.obp_auto_inc {
                    let x = self.obp_index + 1;
                    let nb = x & 0x3F;
                    assert(nb < 64) by (bit_vector)
                        requires
                            nb == x & 0x3F,
                    ;
                    self.obp_index = nb;
                }
            },
            _ => {},
        }
    }
}


/// A VRAM byte written in the selected bank is what a read of the same
/// address in that bank returns; the other bank is untouched (for addresses
/// of the 8 KiB VRAM window).
pub proof fn lemma_vram_write_then_read(p: GbcPpuView, addr: u16, val: u8, other_bank: u8)
    requires
        0x8000 <= addr <= 0x9FFF,
        vram_offset(p, addr) < p.vram.len(),
        other_bank != p.regs.vram_bank,
    ensures
        byte_or_ff(p.vram.update(vram_offset(p, addr), val), vram_offset(p, addr)) == val,
        vram_byte(p.vram.update(vram_offset(p, addr), val), addr, other_bank) == vram_byte(p.vram, addr, other_bank),
{
}

/// A palette byte written through BCPD (without auto-increment) is what
/// BCPD then reads; with auto-increment the index moves to the next byte,
/// wrapping at 64.
pub proof fn lemma_palette_write_then_read(p: GbcPpuView, val: u8)
    requires
        gbc_ppu_wf(p),
    ensures
        !p.regs.bgp_auto_inc ==> gbc_read_io_spec(gbc_write_io_spec(p, 0xFF69, val), 0xFF69) == val,
        p.regs.bgp_auto_inc ==> gbc_write_io_spec(p, 0xFF69, val).regs.bgp_index == (p.regs.bgp_index + 1) % 64,
{
    let b = p.regs.bgp_index;
    assert((b < 64 ==> b & 0x3F == b) && (b < 64 ==> ((b + 1) as u8) & 0x3F == (b + 1) % 64)) by (bit_vector);
}

} // verus!
