use vstd::prelude::*;

use crate::ppu::gbc_ppu::rgb555_argb;

verus! {

pub const SCREEN_W: usize = 240;
pub const SCREEN_H: usize = 160;

/// The Game Boy Advance picture processor.
pub struct GbaPpu {
    pub framebuffer: Vec<u32>,
    /// 96 KiB of video RAM.
    pub vram: Vec<u8>,
    /// 1 KiB of palette RAM (backgrounds, then objects from 0x200).
    pub palette: Vec<u8>,
    /// 1 KiB of object attributes.
    pub oam: Vec<u8>,
    pub dispcnt: u16,
    pub dispstat: u16,
    pub vcount: u16,
    pub bgcnt: [u16; 4],
    pub bghofs: [u16; 4],
    pub bgvofs: [u16; 4],
    /// BG2/BG3 reference points (28-bit signed, 8 fractional bits).
    pub bg_ref_x: [i32; 2],
    pub bg_ref_y: [i32; 2],
    pub bg_pa: [i16; 2],
    pub bg_pb: [i16; 2],
    pub bg_pc: [i16; 2],
    pub bg_pd: [i16; 2],
    /// The reference points as advanced line by line.
    pub bg_internal_x: [i32; 2],
    pub bg_internal_y: [i32; 2],
    pub winh: [u16; 2],
    pub winv: [u16; 2],
    pub winin: u16,
    pub winout: u16,
    pub bldcnt: u16,
    pub bldalpha: u16,
    pub bldy: u16,
    pub mosaic: u16,
    pub cycles: u32,
    pub frame_ready: bool,
}

/// The registers and counters of the picture processor.
#[derive(Clone, Copy)]
pub struct GbaPpuRegs {
    pub dispcnt: u16,
    pub dispstat: u16,
    pub vcount: u16,
    pub bgcnt: [u16; 4],
    pub bghofs: [u16; 4],
    pub bgvofs: [u16; 4],
    pub bg_ref_x: [i32; 2],
    pub bg_ref_y: [i32; 2],
    pub bg_pa: [i16; 2],
    pub bg_pb: [i16; 2],
    pub bg_pc: [i16; 2],
    pub bg_pd: [i16; 2],
    pub bg_internal_x: [i32; 2],
    pub bg_internal_y: [i32; 2],
    pub winh: [u16; 2],
    pub winv: [u16; 2],
    pub winin: u16,
    pub winout: u16,
    pub bldcnt: u16,
    pub bldalpha: u16,
    pub bldy: u16,
    pub mosaic: u16,
    pub cycles: u32,
    pub frame_ready: bool,
}

/// The memories the CPU can reach, and the registers; the framebuffer is
/// described on its own.
#[verifier::ext_equal]
pub struct GbaPpuView {
    pub vram: Seq<u8>,
    pub palette: Seq<u8>,
    pub oam: Seq<u8>,
    pub regs: GbaPpuRegs,
}

impl View for GbaPpu {
    type V = GbaPpuView;

    open spec fn view(&self) -> GbaPpuView {
        GbaPpuView {
            vram: self.vram@,
            palette: self.palette@,
            oam: self.oam@,
            regs: GbaPpuRegs {
                dispcnt: self.dispcnt,
                dispstat: self.dispstat,
                vcount: self.vcount,
                bgcnt: self.bgcnt,
                bghofs: self.bghofs,
                bgvofs: self.bgvofs,
                bg_ref_x: self.bg_ref_x,
                bg_ref_y: self.bg_ref_y,
                bg_pa: self.bg_pa,
                bg_pb: self.bg_pb,
                bg_pc: self.bg_pc,
                bg_pd: self.bg_pd,
                bg_internal_x: self.bg_internal_x,
                bg_internal_y: self.bg_internal_y,
                winh: self.winh,
                winv: self.winv,
                winin: self.winin,
                winout: self.winout,
                bldcnt: self.bldcnt,
                bldalpha: self.bldalpha,
                bldy: self.bldy,
                mosaic: self.mosaic,
                cycles: self.cycles,
                frame_ready: self.frame_ready,
            },
        }
    }
}

/// The largest magnitude of a reference point (28-bit signed).
pub open spec fn ref_limit() -> int {
    0x800_0000
}

/// How far the internal reference points may have moved from a 28-bit
/// value: one `pb`/`pd` step per visible line drawn so far.
pub open spec fn internal_limit(vcount: u16) -> int {
    ref_limit() + (if vcount < 160 { vcount as int } else { 160 }) * 0x8000
}

/// The ranges the picture processor keeps.
pub open spec fn gba_ppu_wf(p: GbaPpuView) -> bool {
    let r = p.regs;
    &&& p.vram.len() == 0x18000
    &&& p.palette.len() == 0x400
    &&& p.oam.len() == 0x400
    &&& r.vcount < 228
    &&& forall|i: int|
        0 <= i < 2 ==> {
            &&& -ref_limit() <= #[trigger] r.bg_ref_x[i] <= ref_limit()
            &&& -ref_limit() <= r.bg_ref_y[i] <= ref_limit()
            &&& -internal_limit(r.vcount) <= r.bg_internal_x[i] <= internal_limit(r.vcount)
            &&& -internal_limit(r.vcount) <= r.bg_internal_y[i] <= internal_limit(r.vcount)
        }
}

// ---------------------------------------------------------------------------
// Line timing
// ---------------------------------------------------------------------------

/// The registers after one 1232-cycle line: visible lines raise the
/// H-blank event (bit 9, and IRQ bit 1 when enabled) and advance the affine
/// reference points; line 160 starts V-blank (event bit 8, IRQ bit 0);
/// after line 227 the frame restarts and the reference points reload; the
/// V-counter match (IRQ bit 2) and the V-blank flag are updated.
pub open spec fn gba_line_regs(r: GbaPpuRegs) -> (GbaPpuRegs, u16) {
    let visible = r.vcount < 160;
    let irq1: u16 = if visible {
        (0x0200u16 | (if r.dispstat & 0x10 != 0 { 0x02u16 } else { 0u16 })) as u16
    } else {
        0
    };
    let ix = if visible {
        vstd::array::spec_array_update(
            vstd::array::spec_array_update(r.bg_internal_x, 0, r.bg_internal_x[0].wrapping_add(r.bg_pb[0] as i32)),
            1,
            r.bg_internal_x[1].wrapping_add(r.bg_pb[1] as i32),
        )
    } else {
        r.bg_internal_x
    };
    let iy = if visible {
        vstd::array::spec_array_update(
            vstd::array::spec_array_update(r.bg_internal_y, 0, r.bg_internal_y[0].wrapping_add(r.bg_pd[0] as i32)),
            1,
            r.bg_internal_y[1].wrapping_add(r.bg_pd[1] as i32),
        )
    } else {
        r.bg_internal_y
    };
    let v1 = (r.vcount + 1) as u16;
    let (frame_ready, irq2) = if v1 == 160 {
        (true, irq1 | 0x0100u16 | (if r.dispstat & 0x08 != 0 { 0x01u16 } else { 0u16 }))
    } else {
        (r.frame_ready, irq1)
    };
    let (v2, ix2, iy2) = if v1 >= 228 {
        (0u16, r.bg_ref_x, r.bg_ref_y)
    } else {
        (v1, ix, iy)
    };
    let lyc = r.dispstat >> 8u16;
    let (ds1, irq3) = if v2 == lyc {
        (r.dispstat | 0x04, if r.dispstat & 0x20 != 0 { irq2 | 0x04u16 } else { irq2 })
    } else {
        (r.dispstat & !0x04u16, irq2)
    };
    let ds2 = if v2 >= 160 {
        ds1 | 0x01
    } else {
        ds1 & !0x01u16
    };
    (
        GbaPpuRegs {
            vcount: v2,
            bg_internal_x: ix2,
            bg_internal_y: iy2,
            frame_ready,
            dispstat: ds2,
            cycles: (r.cycles - 1232) as u32,
            ..r
        },
        irq3,
    )
}

/// What `tick` does to the registers: the cycles are added, and each full
/// line of 1232 cycles is run; the events of all lines are or-ed.
pub open spec fn gba_lines(r: GbaPpuRegs, irqs: u16) -> (GbaPpuRegs, u16)
    decreases r.cycles,
{
    if r.cycles < 1232 {
        (r, irqs)
    } else {
        let (r1, i1) = gba_line_regs(r);
        gba_lines(r1, irqs | i1)
    }
}

/// The event bits a line can raise stay within 0x0307, and or-ing events
/// keeps the bits already there.
proof fn lemma_event_bits()
    by (bit_vector)
    ensures
        forall|a: u16, b: u16|
            a & !0x0307u16 == 0 && b & !0x0307u16 == 0 ==> #[trigger] (a | b) & !0x0307u16 == 0,
        forall|a: u16, b: u16| a & 0x0100u16 != 0 ==> #[trigger] (a | b) & 0x0100u16 != 0,
        forall|a: u16, b: u16| b & 0x0100u16 != 0 ==> #[trigger] (a | b) & 0x0100u16 != 0,
        0x0200u16 & !0x0307u16 == 0,
        0x0202u16 & !0x0307u16 == 0,
        0x0100u16 & !0x0307u16 == 0,
        0x0101u16 & !0x0307u16 == 0,
        0x0004u16 & !0x0307u16 == 0,
        0x0001u16 & !0x0307u16 == 0,
        0u16 & !0x0307u16 == 0,
        0x0100u16 & 0x0100u16 != 0,
        (0x0200u16 | 0x02u16) & !0x0307u16 == 0,
        (0x0200u16 | 0u16) & !0x0307u16 == 0,
        (0x0100u16 | 0x01u16) & !0x0307u16 == 0,
        (0x0100u16 | 0u16) & !0x0307u16 == 0,
        (0x0100u16 | 0x01u16) & 0x0100u16 != 0,
        (0x0100u16 | 0u16) & 0x0100u16 != 0,
{
}

/// The events of one line are among bits 0-2, 8 and 9; the line that
/// reaches line 160 raises V-blank (bit 8).
proof fn lemma_line_events(r: GbaPpuRegs)
    ensures
        gba_line_regs(r).1 & !0x0307u16 == 0,
        r.vcount == 159 ==> gba_line_regs(r).1 & 0x0100u16 != 0,
{
    lemma_event_bits();
    let irq1: u16 = if r.vcount < 160 {
        (0x0200u16 | (if r.dispstat & 0x10 != 0 { 0x02u16 } else { 0u16 })) as u16
    } else {
        0
    };
    assert(irq1 & !0x0307u16 == 0);
    let x: u16 = if r.dispstat & 0x08 != 0 { 0x01u16 } else { 0u16 };
    assert(x & !0x0307u16 == 0);
    assert((irq1 | 0x0100u16) & !0x0307u16 == 0);
    let irq2: u16 = if (r.vcount + 1) as u16 == 160 { irq1 | 0x0100u16 | x } else { irq1 };
    assert(irq2 & !0x0307u16 == 0);
    assert((irq2 | 0x04u16) & !0x0307u16 == 0);
}

/// Running lines leaves the cycles below a line and advances the line
/// counter by the number of whole lines, modulo 228; the events added are
/// among bits 0-2, 8 and 9.
pub proof fn lemma_gba_lines_count(r: GbaPpuRegs, irqs: u16)
    requires
        r.vcount < 228,
    ensures
        gba_lines(r, irqs).0.cycles == r.cycles % 1232,
        gba_lines(r, irqs).0.vcount == (r.vcount + r.cycles / 1232) % 228,
        irqs & !0x0307u16 == 0 ==> gba_lines(r, irqs).1 & !0x0307u16 == 0,
        irqs & 0x0100u16 != 0 ==> gba_lines(r, irqs).1 & 0x0100u16 != 0,
    decreases r.cycles,
{
    if r.cycles >= 1232 {
        let (r1, i1) = gba_line_regs(r);
        lemma_line_events(r);
        lemma_event_bits();
        lemma_gba_lines_count(r1, irqs | i1);
        let c = r.cycles as int;
        let v = r.vcount as int;
        assert((c - 1232) / 1232 == c / 1232 - 1 && (c - 1232) % 1232 == c % 1232) by {
            vstd::arithmetic::div_mod::lemma_div_minus_one(c, 1232);
            vstd::arithmetic::div_mod::lemma_mod_sub_multiples_vanish(c, 1232);
        }
        if v + 1 == 228 {
            vstd::arithmetic::div_mod::lemma_mod_add_multiples_vanish(c / 1232 - 1, 228);
        }
    }
}

/// Lines reach V-blank (bit 8) when they pass line 160: at least as many
/// whole lines as it takes from the current line to line 160.
proof fn lemma_gba_lines_vblank(r: GbaPpuRegs, irqs: u16)
    requires
        r.vcount < 228,
        r.cycles / 1232 > (159 - r.vcount + 228) % 228,
    ensures
        gba_lines(r, irqs).1 & 0x0100u16 != 0,
    decreases r.cycles,
{
    let (r1, i1) = gba_line_regs(r);
    lemma_line_events(r);
    lemma_event_bits();
    assert((r.cycles - 1232) / 1232 == r.cycles / 1232 - 1) by {
        vstd::arithmetic::div_mod::lemma_div_minus_one(r.cycles as int, 1232);
    }
    if r.vcount == 159 {
        lemma_gba_lines_count(r1, irqs | i1);
    } else {
        lemma_gba_lines_vblank(r1, irqs | i1);
    }
}

/// A tick of `n` cycles: the line timer ends at the cycles modulo one line
/// of 1232, the line counter advances by the whole lines modulo 228, and
/// the events are among bits 0-2, 8 and 9. A full frame (228 lines) from
/// within a line raises V-blank and ends on the line it started from.
pub proof fn lemma_gba_ppu_tick_timing(p: GbaPpuView, n: u32)
    requires
        gba_ppu_wf(p),
        p.regs.cycles + n <= u32::MAX,
    ensures
        gba_ppu_tick_spec(p, n).0.regs.cycles == (p.regs.cycles + n) % 1232,
        gba_ppu_tick_spec(p, n).0.regs.vcount == (p.regs.vcount + (p.regs.cycles + n) / 1232) % 228,
        gba_ppu_tick_spec(p, n).1 & !0x0307u16 == 0,
        n == 1232 * 228 && p.regs.cycles < 1232 ==> gba_ppu_tick_spec(p, n).1 & 0x0100u16 != 0
            && gba_ppu_tick_spec(p, n).0.regs.vcount == p.regs.vcount,
{
    let r = GbaPpuRegs { cycles: (p.regs.cycles + n) as u32, ..p.regs };
    lemma_event_bits();
    lemma_gba_lines_count(r, 0);
    if n == 1232 * 228 && p.regs.cycles < 1232 {
        let c = p.regs.cycles + n;
        assert(c / 1232 == 228) by (nonlinear_arith)
            requires
                c == p.regs.cycles + 1232 * 228,
                p.regs.cycles < 1232,
        ;
        lemma_gba_lines_vblank(r, 0);
        vstd::arithmetic::div_mod::lemma_mod_add_multiples_vanish(p.regs.vcount as int, 228);
    }
}

/// What `tick(cycles)` does to the registers, and the events it returns.
pub open spec fn gba_ppu_tick_spec(p: GbaPpuView, cycles: u32) -> (GbaPpuView, u16) {
    let (r, irqs) = gba_lines(GbaPpuRegs { cycles: (p.regs.cycles + cycles) as u32, ..p.regs }, 0);
    (GbaPpuView { regs: r, ..p }, irqs)
}

/// What `read_dispstat` returns: the writable bits with live V-blank and
/// V-counter flags.
pub open spec fn gba_dispstat_spec(r: GbaPpuRegs) -> u16 {
    let vblank: u16 = if 160 <= r.vcount < 228 { 1 } else { 0 };
    let vcounter: u16 = if r.vcount == (r.dispstat >> 8u16) { 4 } else { 0 };
    (r.dispstat & 0xFFF8) | vcounter | vblank
}

/// The low or high byte of a halfword.
pub open spec fn half_byte(v: u16, hi: bool) -> u8 {
    if hi {
        (v >> 8u16) as u8
    } else {
        v as u8
    }
}

/// A halfword with its low or high byte replaced.
pub open spec fn set_half_byte(v: u16, hi: bool, b: u8) -> u16 {
    if hi {
        (v & 0x00FF) | ((b as u16) << 8u16)
    } else {
        (v & 0xFF00) | (b as u16)
    }
}

/// What a read of display register `addr` (low 12 bits) returns; others read 0.
pub open spec fn gba_ppu_read_io_spec(p: GbaPpuView, addr: u32) -> u8 {
    let r = p.regs;
    let off = addr & 0xFFF;
    if off <= 1 {
        half_byte(r.dispcnt, off == 1)
    } else if 4 <= off <= 5 {
        half_byte(r.dispstat, off == 5)
    } else if 6 <= off <= 7 {
        half_byte(r.vcount, off == 7)
    } else if 8 <= off <= 0xF {
        half_byte(r.bgcnt[((off - 8) / 2) as int], off & 1 == 1)
    } else if 0x48 <= off <= 0x49 {
        half_byte(r.winin, off == 0x49)
    } else if 0x4A <= off <= 0x4B {
        half_byte(r.winout, off == 0x4B)
    } else if 0x50 <= off <= 0x51 {
        half_byte(r.bldcnt, off == 0x51)
    } else if 0x52 <= off <= 0x53 {
        half_byte(r.bldalpha, off == 0x53)
    } else {
        0
    }
}

/// A 16-bit signed parameter with its low or high byte replaced.
pub open spec fn set_param_byte(v: i16, hi: bool, b: u8) -> i16 {
    set_half_byte(v as u16, hi, b) as i16
}

/// A 28-bit reference point with byte `k` replaced, sign-extended from bit 27.
pub open spec fn set_ref_byte(v: i32, k: u32, b: u8) -> i32 {
    let shift = k * 8;
    let raw = ((v as u32) & !(0xFFu32 << shift)) | ((b as u32) << shift);
    if raw & (1u32 << 27u32) != 0 {
        (raw | 0xF000_0000u32) as i32
    } else {
        (raw & 0x0FFF_FFFFu32) as i32
    }
}

/// The registers after a write to the affine area (0x20-0x3F).
pub open spec fn gba_affine_write_spec(r: GbaPpuRegs, off: u32, val: u8) -> GbaPpuRegs {
    let i: int = if off >= 0x30 { 1 } else { 0 };
    let reg = off & 0x0F;
    let hi = reg & 1 == 1;
    if reg <= 1 {
        GbaPpuRegs { bg_pa: vstd::array::spec_array_update(r.bg_pa, i, set_param_byte(r.bg_pa[i], hi, val)), ..r }
    } else if reg <= 3 {
        GbaPpuRegs { bg_pb: vstd::array::spec_array_update(r.bg_pb, i, set_param_byte(r.bg_pb[i], hi, val)), ..r }
    } else if reg <= 5 {
        GbaPpuRegs { bg_pc: vstd::array::spec_array_update(r.bg_pc, i, set_param_byte(r.bg_pc[i], hi, val)), ..r }
    } else if reg <= 7 {
        GbaPpuRegs { bg_pd: vstd::array::spec_array_update(r.bg_pd, i, set_param_byte(r.bg_pd[i], hi, val)), ..r }
    } else if reg <= 0xB {
        let x = set_ref_byte(r.bg_ref_x[i], (reg - 8) as u32, val);
        GbaPpuRegs {
            bg_ref_x: vstd::array::spec_array_update(r.bg_ref_x, i, x),
            bg_internal_x: vstd::array::spec_array_update(r.bg_internal_x, i, x),
            ..r
        }
    } else {
        let y = set_ref_byte(r.bg_ref_y[i], (reg - 0xC) as u32, val);
        GbaPpuRegs {
            bg_ref_y: vstd::array::spec_array_update(r.bg_ref_y, i, y),
            bg_internal_y: vstd::array::spec_array_update(r.bg_internal_y, i, y),
            ..r
        }
    }
}

/// The registers after a write of display register `addr`.
pub open spec fn gba_ppu_write_io_spec(r: GbaPpuRegs, addr: u32, val: u8) -> GbaPpuRegs {
    let off = addr & 0xFFF;
    let hi = off & 1 == 1;
    if off <= 1 {
        GbaPpuRegs { dispcnt: set_half_byte(r.dispcnt, hi, val), ..r }
    } else if 8 <= off <= 0xF {
        let bg = ((off - 8) / 2) as int;
        GbaPpuRegs { bgcnt: vstd::array::spec_array_update(r.bgcnt, bg, set_half_byte(r.bgcnt[bg], hi, val)), ..r }
    } else if 0x10 <= off <= 0x1F {
        let reg = ((off - 0x10) / 2) as int;
        let bg = reg / 2;
        let b = if hi { val & 1 } else { val };
        if reg % 2 == 1 {
            GbaPpuRegs {
                bgvofs: vstd::array::spec_array_update(r.bgvofs, bg, set_half_byte(r.bgvofs[bg], hi, b)),
                ..r
            }
        } else {
            GbaPpuRegs {
                bghofs: vstd::array::spec_array_update(r.bghofs, bg, set_half_byte(r.bghofs[bg], hi, b)),
                ..r
            }
        }
    } else if 0x20 <= off <= 0x3F {
        gba_affine_write_spec(r, off, val)
    } else if 0x40 <= off <= 0x43 {
        let w = ((off - 0x40) / 2) as int;
        GbaPpuRegs { winh: vstd::array::spec_array_update(r.winh, w, set_half_byte(r.winh[w], hi, val)), ..r }
    } else if 0x44 <= off <= 0x47 {
        let w = ((off - 0x44) / 2) as int;
        GbaPpuRegs { winv: vstd::array::spec_array_update(r.winv, w, set_half_byte(r.winv[w], hi, val)), ..r }
    } else if 0x48 <= off <= 0x49 {
        GbaPpuRegs { winin: set_half_byte(r.winin, hi, val), ..r }
    } else if 0x4A <= off <= 0x4B {
        GbaPpuRegs { winout: set_half_byte(r.winout, hi, val), ..r }
    } else if 0x4C <= off <= 0x4D {
        GbaPpuRegs { mosaic: set_half_byte(r.mosaic, hi, val), ..r }
    } else if 0x50 <= off <= 0x51 {
        GbaPpuRegs { bldcnt: set_half_byte(r.bldcnt, hi, val), ..r }
    } else if 0x52 <= off <= 0x53 {
        GbaPpuRegs { bldalpha: set_half_byte(r.bldalpha, hi, val), ..r }
    } else if off == 0x54 {
        GbaPpuRegs { bldy: (val as u16) & 0x1F, ..r }
    } else {
        r
    }
}

/// DISPSTAT after a byte write: in the low byte only the interrupt enables
/// (bits 3-5) are writable; the high byte is the V-count setting.
pub open spec fn gba_write_dispstat_spec(d: u16, byte: u32, val: u8) -> u16 {
    if byte == 0 {
        (d & 0xFF07) | ((val as u16) & 0x38)
    } else {
        (d & 0x00FF) | ((val as u16) << 8u16)
    }
}

// ---------------------------------------------------------------------------
// Executable
// ---------------------------------------------------------------------------

/// The video unit at power-on.
pub open spec fn gba_ppu_at_reset(p: GbaPpu) -> bool {
    &&& gba_ppu_wf(p@)
    &&& p.framebuffer@ == Seq::new((SCREEN_W * SCREEN_H) as nat, |i: int| 0xFFFF_FFFFu32)
    &&& p@.vram == Seq::new(0x18000, |i: int| 0u8)
    &&& p@.palette == Seq::new(0x400, |i: int| 0u8)
    &&& p@.oam == Seq::new(0x400, |i: int| 0u8)
    &&& p.dispcnt == 0 && p.dispstat == 0 && p.vcount == 161
    &&& p.bgcnt@ == seq![0u16; 4] && p.bghofs@ == seq![0u16; 4] && p.bgvofs@ == seq![0u16; 4]
    &&& p.bg_ref_x@ == seq![0i32; 2] && p.bg_ref_y@ == seq![0i32; 2]
    &&& p.bg_pa@ == seq![0x100i16; 2] && p.bg_pb@ == seq![0i16; 2] && p.bg_pc@ == seq![0i16; 2] && p.bg_pd@
        == seq![0x100i16; 2]
    &&& p.bg_internal_x@ == seq![0i32; 2] && p.bg_internal_y@ == seq![0i32; 2]
    &&& p.winh@ == seq![0u16; 2] && p.winv@ == seq![0u16; 2] && p.winin == 0 && p.winout == 0
    &&& p.bldcnt == 0 && p.bldalpha == 0 && p.bldy == 0 && p.mosaic == 0
    &&& p.cycles == 0 && !p.frame_ready
}

impl GbaPpu {
    /// The picture processor at power-on: blank (white) screen, cleared
    /// memories, identity affine matrices, in V-blank (line 161).
    pub fn new() -> (p: Self)
        ensures
            gba_ppu_at_reset(p),
    {
        let framebuffer = vec![0xFFFF_FFFFu32; SCREEN_W * SCREEN_H];
        let vram = vec![0u8; 0x18000];
        let palette = vec![0u8; 0x400];
        let oam = vec![0u8; 0x400];
        assert(framebuffer@ =~= Seq::new((SCREEN_W * SCREEN_H) as nat, |i: int| 0xFFFF_FFFFu32));
        assert(vram@ =~= Seq::new(0x18000, |i: int| 0u8));
        assert(palette@ =~= Seq::new(0x400, |i: int| 0u8));
        assert(oam@ =~= Seq::new(0x400, |i: int| 0u8));
        let p = GbaPpu {
            framebuffer,
            vram,
            palette,
            oam,
            dispcnt: 0,
            dispstat: 0,
            vcount: 161,
            bgcnt: [0; 4],
            bghofs: [0; 4],
            bgvofs: [0; 4],
            bg_ref_x: [0; 2],
            bg_ref_y: [0; 2],
            bg_pa: [0x100; 2],
            bg_pb: [0; 2],
            bg_pc: [0; 2],
            bg_pd: [0x100; 2],
            bg_internal_x: [0; 2],
            bg_internal_y: [0; 2],
            winh: [0; 2],
            winv: [0; 2],
            winin: 0,
            winout: 0,
            bldcnt: 0,
            bldalpha: 0,
            bldy: 0,
            mosaic: 0,
            cycles: 0,
            frame_ready: false,
        };
        assert(p.bgcnt@ =~= seq![0u16; 4] && p.bghofs@ =~= seq![0u16; 4] && p.bgvofs@ =~= seq![0u16; 4]);
        assert(p.bg_ref_x@ =~= seq![0i32; 2] && p.bg_ref_y@ =~= seq![0i32; 2]);
        assert(p.bg_pa@ =~= seq![0x100i16; 2] && p.bg_pb@ =~= seq![0i16; 2] && p.bg_pc@ =~= seq![0i16; 2]);
        assert(p.bg_pd@ =~= seq![0x100i16; 2]);
        assert(p.bg_internal_x@ =~= seq![0i32; 2] && p.bg_internal_y@ =~= seq![0i32; 2]);
        assert(p.winh@ =~= seq![0u16; 2] && p.winv@ =~= seq![0u16; 2]);
        p
    }

    /// Advances by `cycles`; every full line is drawn (when visible) and its
    /// events returned: IRQ bits 0-2 (V-blank, H-blank, V-counter) and the
    /// DMA events of bit 8 (V-blank) and bit 9 (H-blank).
    #[verifier::spinoff_prover]
    #[verifier::rlimit(40)]
    pub fn tick(&mut self, cycles: u32) -> (irqs: u16)
        requires
            gba_ppu_wf(old(self)@),
            old(self).framebuffer@.len() == SCREEN_W * SCREEN_H,
            old(self).cycles + cycles <= u32::MAX,
        ensures
            (final(self)@, irqs) == gba_ppu_tick_spec(old(self)@, cycles),
            gba_ppu_wf(final(self)@),
            final(self).framebuffer@.len() == SCREEN_W * SCREEN_H,
            final(self).framebuffer@ == gba_lines_fb(
                GbaPpuRegs { cycles: (old(self).cycles + cycles) as u32, ..old(self)@.regs },
                old(self)@,
                old(self).framebuffer@,
            ),
    {
        let mut irqs: u16 = 0;
        self.cycles = self.cycles + cycles;
        while self.cycles >= 1232
            invariant
                gba_ppu_wf(self@),
                self.framebuffer@.len() == SCREEN_W * SCREEN_H,
                gba_lines(self@.regs, irqs) == gba_lines(
                    GbaPpuRegs { cycles: (old(self).cycles + cycles) as u32, ..old(self)@.regs },
                    0,
                ),
                self@.vram == old(self)@.vram,
                self@.palette == old(self)@.palette,
                self@.oam == old(self)@.oam,
                gba_lines_fb(
                    GbaPpuRegs { cycles: (old(self).cycles + cycles) as u32, ..old(self)@.regs },
                    old(self)@,
                    old(self).framebuffer@,
                ) == gba_lines_fb(self@.regs, old(self)@, self.framebuffer@),
            decreases self.cycles,
        {
            let ghost r0 = self@.regs;
            let ghost fb_before = self.framebuffer@;
            let d0 = self.dispstat;
            self.cycles = self.cycles - 1232;
            assert(self@ =~= GbaPpuView { regs: GbaPpuRegs { cycles: (r0.cycles - 1232) as u32, ..r0 }, ..old(self)@ });
            let mut ev: u16 = 0;
            if self.vcount < 160 {
                self.render_scanline();
            }
            if self.vcount < 160 {
                ev = 0x0200u16 | (if d0 & 0x10 != 0 { 0x02u16 } else { 0u16 });
                self.bg_internal_x[0] = self.bg_internal_x[0].wrapping_add(self.bg_pb[0] as i32);
                self.bg_internal_y[0] = self.bg_internal_y[0].wrapping_add(self.bg_pd[0] as i32);
                self.bg_internal_x[1] = self.bg_internal_x[1].wrapping_add(self.bg_pb[1] as i32);
                self.bg_internal_y[1] = self.bg_internal_y[1].wrapping_add(self.bg_pd[1] as i32);
            }
            self.vcount = self.vcount + 1;
            if self.vcount == 160 {
                self.frame_ready = true;
                ev = ev | 0x0100u16 | (if d0 & 0x08 != 0 { 0x01u16 } else { 0u16 });
            }
            if self.vcount >= 228 {
                self.vcount = 0;
                self.bg_internal_x = self.bg_ref_x;
                self.bg_internal_y = self.bg_ref_y;
            }
            let lyc = d0 >> 8u16;
            if self.vcount == lyc {
                self.dispstat = d0 | 0x04;
                if d0 & 0x20 != 0 {
                    ev = ev | 0x04;
                }
            } else {
                self.dispstat = d0 & !0x04u16;
            }
            if self.vcount >= 160 {
                self.dispstat = self.dispstat | 0x01;
            } else {
                self.dispstat = self.dispstat & !0x01u16;
            }
            let ghost irqs0 = irqs;
            irqs = irqs | ev;
            proof {
                let (r1, i1) = gba_line_regs(r0);
                assert(self@.regs == r1);
                assert(gba_lines_fb(r0, old(self)@, fb_before) == gba_lines_fb(r1, old(self)@, self.framebuffer@));
                assert(ev == i1);
                assert(gba_lines(r0, irqs0) == gba_lines(r1, irqs0 | i1));
                assert forall|k: int| 0 <= k < 2 implies {
                    &&& -internal_limit(self.vcount) <= #[trigger] self.bg_internal_x[k] <= internal_limit(self.vcount)
                    &&& -internal_limit(self.vcount) <= self.bg_internal_y[k] <= internal_limit(self.vcount)
                } by {
                    assert(-ref_limit() <= r0.bg_ref_x[k] <= ref_limit());
                    assert(-ref_limit() <= r0.bg_ref_y[k] <= ref_limit());
                    assert(-internal_limit(r0.vcount) <= r0.bg_internal_x[k] <= internal_limit(r0.vcount));
                    assert(-internal_limit(r0.vcount) <= r0.bg_internal_y[k] <= internal_limit(r0.vcount));
                }
                assert forall|k: int| 0 <= k < 2 implies {
                    &&& -ref_limit() <= #[trigger] self.bg_ref_x[k] <= ref_limit()
                    &&& -ref_limit() <= self.bg_ref_y[k] <= ref_limit()
                } by {
                    assert(-ref_limit() <= r0.bg_ref_x[k] <= ref_limit());
                    assert(-ref_limit() <= r0.bg_ref_y[k] <= ref_limit());
                }
                assert(gba_ppu_wf(self@));
            }
        }
        irqs
    }

    /// Draws the current line into the framebuffer.
    #[verifier::spinoff_prover]
    fn render_scanline(&mut self)
        requires
            gba_ppu_wf(old(self)@),
            old(self).framebuffer@.len() == SCREEN_W * SCREEN_H,
            old(self).vcount < 160,
        ensures
            final(self)@ == old(self)@,
            final(self).framebuffer@.len() == SCREEN_W * SCREEN_H,
            final(self).framebuffer@ == with_line(
                old(self).framebuffer@,
                old(self).vcount as int,
                line_spec(old(self)@, old(self).vcount as int),
            ),
    {
        let line = self.vcount as usize;
        let row = self.draw_line(line);
        let start = line * 240;
        let ghost fb0 = self.framebuffer@;
        let mut k: usize = 0;
        while k < 240
            invariant
                k <= 240,
                row@.len() == 240,
                start == line * 240,
                line < 160,
                self.framebuffer@.len() == fb0.len(),
                fb0.len() == SCREEN_W * SCREEN_H,
                forall|j: int| 0 <= j < start ==> self.framebuffer@[j] == fb0[j],
                forall|j: int| start + 240 <= j < fb0.len() ==> self.framebuffer@[j] == fb0[j],
                forall|j: int| start <= j < start + k ==> self.framebuffer@[j] == row@[j - start],
                forall|j: int| start + k <= j < start + 240 ==> self.framebuffer@[j] == fb0[j],
                self@ == old(self)@,
            decreases 240 - k,
        {
            self.framebuffer.set(start + k, row[k]);
            k = k + 1;
        }
        assert(self.framebuffer@ =~= with_line(fb0, line as int, row@));
    }

    /// DISPSTAT with live V-blank and V-counter flags.
    pub fn read_dispstat(&self) -> (v: u16)
        ensures
            v == gba_dispstat_spec(self@.regs),
    {
        let vblank: u16 = if self.vcount >= 160 && self.vcount < 228 { 1 } else { 0 };
        let vcounter: u16 = if self.vcount == (self.dispstat >> 8u16) { 4 } else { 0 };
        (self.dispstat & 0xFFF8) | vcounter | vblank
    }

    /// Writes byte `byte` (0 or 1) of DISPSTAT.
    pub fn write_dispstat(&mut self, byte: u32, val: u8)
        ensures
            final(self)@ == (GbaPpuView {
                regs: GbaPpuRegs { dispstat: gba_write_dispstat_spec(old(self).dispstat, byte, val), ..old(self)@.regs },
                ..old(self)@
            }),
            final(self).framebuffer@ == old(self).framebuffer@,
    {
        if byte == 0 {
            self.dispstat = (self.dispstat & 0xFF07) | ((val as u16) & 0x38);
        } else {
            self.dispstat = (self.dispstat & 0x00FF) | ((val as u16) << 8u16);
        }
    }

    /// Reads display register `addr` (only the low 12 bits count).
    pub fn read_io(&self, addr: u32) -> (v: u8)
        ensures
            v == gba_ppu_read_io_spec(self@, addr),
    {
        let off = addr & 0xFFF;
        let hi = off & 1 == 1;
        if off <= 1 {
            byte_of(self.dispcnt, off == 1)
        } else if 4 <= off && off <= 5 {
            byte_of(self.dispstat, off == 5)
        } else if 6 <= off && off <= 7 {
            byte_of(self.vcount, off == 7)
        } else if 8 <= off && off <= 0xF {
            byte_of(self.bgcnt[((off - 8) / 2) as usize], hi)
        } else if 0x48 <= off && off <= 0x49 {
            byte_of(self.winin, off == 0x49)
        } else if 0x4A <= off && off <= 0x4B {
            byte_of(self.winout, off == 0x4B)
        } else if 0x50 <= off && off <= 0x51 {
            byte_of(self.bldcnt, off == 0x51)
        } else if 0x52 <= off && off <= 0x53 {
            byte_of(self.bldalpha, off == 0x53)
        } else {
            0
        }
    }

    /// Writes display register `addr` (only the low 12 bits count).
    pub fn write_io(&mut self, addr: u32, val: u8)
        requires
            gba_ppu_wf(old(self)@),
        ensures
            final(self)@ == (GbaPpuView { regs: gba_ppu_write_io_spec(old(self)@.regs, addr, val), ..old(self)@ }),
            gba_ppu_wf(final(self)@),
            final(self).framebuffer@ == old(self).framebuffer@,
    {
        let off = addr & 0xFFF;
        let hi = off & 1 == 1;
        if off <= 1 {
            self.dispcnt = with_byte(self.dispcnt, hi, val);
        } else if 8 <= off && off <= 0xF {
            let bg = ((off - 8) / 2) as usize;
            self.bgcnt[bg] = with_byte(self.bgcnt[bg], hi, val);
        } else if 0x10 <= off && off <= 0x1F {
            let reg = ((off - 0x10) / 2) as usize;
            let bg = reg / 2;
            let b = if hi { val & 1 } else { val };
            if reg % 2 == 1 {
                self.bgvofs[bg] = with_byte(self.bgvofs[bg], hi, b);
            } else {
                self.bghofs[bg] = with_byte(self.bghofs[bg], hi, b);
            }
        } else if 0x20 <= off && off <= 0x3F {
            self.write_affine_reg(off, val);
        } else if 0x40 <= off && off <= 0x43 {
            let w = ((off - 0x40) / 2) as usize;
            self.winh[w] = with_byte(self.winh[w], hi, val);
        } else if 0x44 <= off && off <= 0x47 {
            let w = ((off - 0x44) / 2) as usize;
            self.winv[w] = with_byte(self.winv[w], hi, val);
        } else if 0x48 <= off && off <= 0x49 {
            self.winin = with_byte(self.winin, hi, val);
        } else if 0x4A <= off && off <= 0x4B {
            self.winout = with_byte(self.winout, hi, val);
        } else if 0x4C <= off && off <= 0x4D {
            self.mosaic = with_byte(self.mosaic, hi, val);
        } else if 0x50 <= off && off <= 0x51 {
            self.bldcnt = with_byte(self.bldcnt, hi, val);
        } else if 0x52 <= off && off <= 0x53 {
            self.bldalpha = with_byte(self.bldalpha, hi, val);
        } else if off == 0x54 {
            self.bldy = (val as u16) & 0x1F;
        }
        assert(self@.regs =~= gba_ppu_write_io_spec(old(self)@.regs, addr, val));
    }

    /// Writes a byte of the BG2/BG3 affine parameters or reference points.
    #[verifier::spinoff_prover]
    fn write_affine_reg(&mut self, off: u32, val: u8)
        requires
            gba_ppu_wf(old(self)@),
            0x20 <= off <= 0x3F,
        ensures
            final(self)@ == (GbaPpuView { regs: gba_affine_write_spec(old(self)@.regs, off, val), ..old(self)@ }),
            gba_ppu_wf(final(self)@),
            final(self).framebuffer@ == old(self).framebuffer@,
    {
        let i: usize = if off >= 0x30 { 1 } else { 0 };
        let reg = off & 0x0F;
        proof {
            crate::bits::lemma_and_le_u32(off, 0x0F);
        }
        let hi = reg & 1 == 1;
        if reg <= 1 {
            self.bg_pa[i] = with_param_byte(self.bg_pa[i], hi, val);
        } else if reg <= 3 {
            self.bg_pb[i] = with_param_byte(self.bg_pb[i], hi, val);
        } else if reg <= 5 {
            self.bg_pc[i] = with_param_byte(self.bg_pc[i], hi, val);
        } else if reg <= 7 {
            self.bg_pd[i] = with_param_byte(self.bg_pd[i], hi, val);
        } else if reg <= 0xB {
            let x = with_ref_byte(self.bg_ref_x[i], reg - 8, val);
            self.bg_ref_x[i] = x;
            self.bg_internal_x[i] = x;
        } else {
            let y = with_ref_byte(self.bg_ref_y[i], reg - 0xC, val);
            self.bg_ref_y[i] = y;
            self.bg_internal_y[i] = y;
        }
        assert(self@.regs =~= gba_affine_write_spec(old(self)@.regs, off, val));
        let ghost r0 = old(self)@.regs;
        assert forall|k: int| 0 <= k < 2 implies {
            &&& -ref_limit() <= #[trigger] self.bg_ref_x[k] <= ref_limit()
            &&& -ref_limit() <= self.bg_ref_y[k] <= ref_limit()
            &&& -internal_limit(self.vcount) <= self.bg_internal_x[k] <= internal_limit(self.vcount)
            &&& -internal_limit(self.vcount) <= self.bg_internal_y[k] <= internal_limit(self.vcount)
        } by {
            assert(-ref_limit() <= r0.bg_ref_x[k] <= ref_limit());
            assert(-ref_limit() <= r0.bg_ref_y[k] <= ref_limit());
            assert(-internal_limit(r0.vcount) <= r0.bg_internal_x[k] <= internal_limit(r0.vcount));
            assert(-internal_limit(r0.vcount) <= r0.bg_internal_y[k] <= internal_limit(r0.vcount));
        }
        assert(gba_ppu_wf(self@));
    }
}

/// The low or high byte of `v`.
fn byte_of(v: u16, hi: bool) -> (b: u8)
    ensures
        b == half_byte(v, hi),
{
    if hi {
        (v >> 8u16) as u8
    } else {
        v as u8
    }
}

/// `v` with its low or high byte replaced by `b`.
fn with_byte(v: u16, hi: bool, b: u8) -> (r: u16)
    ensures
        r == set_half_byte(v, hi, b),
{
    if hi {
        (v & 0x00FF) | ((b as u16) << 8u16)
    } else {
        (v & 0xFF00) | (b as u16)
    }
}

/// A signed parameter with its low or high byte replaced.
fn with_param_byte(v: i16, hi: bool, b: u8) -> (r: i16)
    ensures
        r == set_param_byte(v, hi, b),
{
    with_byte(v as u16, hi, b) as i16
}

/// A reference point with byte `k` (0-3) replaced, sign-extended from bit 27.
fn with_ref_byte(v: i32, k: u32, b: u8) -> (r: i32)
    requires
        k < 4,
    ensures
        r == set_ref_byte(v, k, b),
        -ref_limit() <= r <= ref_limit(),
{
    let shift = k * 8;
    let raw = ((v as u32) & !(0xFFu32 << shift)) | ((b as u32) << shift);
    proof {
        lemma_sign_extend_27(raw);
    }
    if raw & (1u32 << 27u32) != 0 {
        (raw | 0xF000_0000u32) as i32
    } else {
        (raw & 0x0FFF_FFFFu32) as i32
    }
}

/// Sign extension from bit 27 stays within the 28-bit signed range.
proof fn lemma_sign_extend_27(raw: u32)
    by (bit_vector)
    ensures
        raw & (1u32 << 27u32) != 0 ==> ((raw | 0xF000_0000u32) as i32) >= -0x800_0000i32 && ((raw
            | 0xF000_0000u32) as i32) < 0,
        raw & (1u32 << 27u32) == 0 ==> ((raw & 0x0FFF_FFFFu32) as i32) == (raw & 0x0FFF_FFFFu32) && (raw
            & 0x0FFF_FFFFu32) < 0x0800_0000u32,
{
}


// ---------------------------------------------------------------------------
// Drawing a line
// ---------------------------------------------------------------------------

/// A palette entry (byte offset) as ARGB; opaque black past the palette.
pub open spec fn palette_color_spec(pal: Seq<u8>, offset: int) -> u32 {
    if 0 <= offset && offset + 1 < pal.len() {
        rgb555_argb(((pal[offset] as u16) | ((pal[offset + 1] as u16) << 8u16)) as u16)
    } else {
        0xFF00_0000
    }
}

/// The little-endian halfword of VRAM at `off`.
pub open spec fn vram_half(vram: Seq<u8>, off: int) -> u16 {
    ((vram[off] as u16) | ((vram[off + 1] as u16) << 8u16)) as u16
}

/// A row with each pixel for which `f` gives a colour replaced by it.
pub open spec fn overlay_row(row: Seq<u32>, f: spec_fn(int) -> Option<u32>) -> Seq<u32> {
    Seq::new(
        row.len(),
        |px: int|
            match f(px) {
                Some(c) => c,
                None => row[px],
            },
    )
}

/// The size in tiles (width, height) of a text background's map.
pub open spec fn text_map_size(cnt: u16) -> (int, int) {
    let s = (cnt >> 14u16) & 3;
    if s == 0 {
        (32, 32)
    } else if s == 1 {
        (64, 32)
    } else if s == 2 {
        (32, 64)
    } else {
        (64, 64)
    }
}

/// The pixel of text background `bg` at `px` on `line`, unless transparent:
/// the map entry of the scrolled position picks a tile (flipped as the
/// entry says), whose 4- or 8-bit colour number picks a palette entry.
pub open spec fn text_pixel(p: GbaPpuView, bg: int, line: int, px: int) -> Option<u32> {
    let cnt = p.regs.bgcnt[bg];
    let char_base = ((cnt >> 2u16) & 3) as int * 0x4000;
    let screen_base = ((cnt >> 8u16) & 0x1F) as int * 0x800;
    let map_w = text_map_size(cnt).0;
    let map_h = text_map_size(cnt).1;
    let y = (line + p.regs.bgvofs[bg]) % (map_h * 8);
    let x = (px + p.regs.bghofs[bg]) % (map_w * 8);
    let tile_x = x / 8;
    let tile_y = y / 8;
    let block = (if tile_x >= 32 {
        1int
    } else {
        0int
    }) + (if tile_y >= 32 {
        if map_w == 64 {
            2int
        } else {
            1int
        }
    } else {
        0int
    });
    let map_offset = screen_base + block * 0x800 + ((tile_y % 32) * 32 + tile_x % 32) * 2;
    if map_offset + 1 >= p.vram.len() {
        None
    } else {
        let entry = vram_half(p.vram, map_offset);
        let tile_num = (entry & 0x3FF) as int;
        let pal = ((entry >> 12u16) & 0xF) as int;
        let ty = if entry & 0x800 != 0 {
            7 - y % 8
        } else {
            y % 8
        };
        let tx = if entry & 0x400 != 0 {
            7 - x % 8
        } else {
            x % 8
        };
        if cnt & 0x80 != 0 {
            let off = char_base + tile_num * 64 + ty * 8 + tx;
            if off >= p.vram.len() || p.vram[off] == 0 {
                None
            } else {
                Some(palette_color_spec(p.palette, p.vram[off] * 2))
            }
        } else {
            let off = char_base + tile_num * 32 + ty * 4 + tx / 2;
            if off >= p.vram.len() {
                None
            } else {
                let idx = if tx % 2 == 0 {
                    p.vram[off] & 0xF
                } else {
                    p.vram[off] >> 4u8
                };
                if idx == 0 {
                    None
                } else {
                    Some(palette_color_spec(p.palette, pal * 32 + idx * 2))
                }
            }
        }
    }
}

/// The side in pixels of an affine background.
pub open spec fn affine_size(cnt: u16) -> int {
    let s = (cnt >> 14u16) & 3;
    if s == 0 {
        128
    } else if s == 1 {
        256
    } else if s == 2 {
        512
    } else {
        1024
    }
}

/// A texture coordinate: the internal reference point moved `px` steps of
/// `d`, with the 8 fraction bits dropped.
pub open spec fn tex_coord(r: i32, d: i16, px: int) -> int {
    (((r + d * px) as i32) >> 8u32) as int
}

/// The pixel of affine background `idx` (BG2 or BG3) at `px`, unless
/// transparent or (without wrap-around) outside the map.
pub open spec fn affine_pixel(p: GbaPpuView, idx: int, px: int) -> Option<u32> {
    let cnt = p.regs.bgcnt[idx + 2];
    let char_base = ((cnt >> 2u16) & 3) as int * 0x4000;
    let screen_base = ((cnt >> 8u16) & 0x1F) as int * 0x800;
    let wrap = cnt & 0x2000 != 0;
    let size = affine_size(cnt);
    let tex_x = tex_coord(p.regs.bg_internal_x[idx], p.regs.bg_pa[idx], px);
    let tex_y = tex_coord(p.regs.bg_internal_y[idx], p.regs.bg_pc[idx], px);
    if !wrap && (tex_x < 0 || tex_x >= size || tex_y < 0 || tex_y >= size) {
        None
    } else {
        let tx = if wrap {
            tex_x % size
        } else {
            tex_x
        };
        let ty = if wrap {
            tex_y % size
        } else {
            tex_y
        };
        let map_offset = screen_base + (ty / 8) * (size / 8) + tx / 8;
        if map_offset >= p.vram.len() {
            None
        } else {
            let off = char_base + p.vram[map_offset] * 64 + (ty % 8) * 8 + tx % 8;
            if off >= p.vram.len() || p.vram[off] == 0 {
                None
            } else {
                Some(palette_color_spec(p.palette, p.vram[off] * 2))
            }
        }
    }
}

/// The bitmap frame shown in modes 4 and 5: DISPCNT bit 4 picks the second.
pub open spec fn frame_offset(p: GbaPpuView) -> int {
    if p.regs.dispcnt & 0x10 != 0 {
        0xA000
    } else {
        0
    }
}

/// Mode 3: a 240x160 bitmap of 15-bit colours.
pub open spec fn mode3_pixel(p: GbaPpuView, line: int, px: int) -> Option<u32> {
    let off = (line * 240 + px) * 2;
    if off + 1 < p.vram.len() {
        Some(rgb555_argb(vram_half(p.vram, off)))
    } else {
        None
    }
}

/// Mode 4: a 240x160 bitmap of palette indices, colour 0 transparent.
pub open spec fn mode4_pixel(p: GbaPpuView, line: int, px: int) -> Option<u32> {
    let off = frame_offset(p) + line * 240 + px;
    if off < p.vram.len() && p.vram[off] != 0 {
        Some(palette_color_spec(p.palette, p.vram[off] * 2))
    } else {
        None
    }
}

/// Mode 5: a 160x128 bitmap of 15-bit colours.
pub open spec fn mode5_pixel(p: GbaPpuView, line: int, px: int) -> Option<u32> {
    let off = frame_offset(p) + (line * 160 + px) * 2;
    if line < 128 && px < 160 && off + 1 < p.vram.len() {
        Some(rgb555_argb(vram_half(p.vram, off)))
    } else {
        None
    }
}

/// Whether DISPCNT enables background `bg`.
pub open spec fn bg_enabled(p: GbaPpuView, bg: int) -> bool {
    p.regs.dispcnt & (1u16 << ((8 + bg) as u16)) != 0
}

/// The pixel of layer `layer`: 0-3 the text backgrounds, 4-5 the affine
/// backgrounds BG2 and BG3, 6-8 the bitmaps of modes 3-5.
pub open spec fn layer_pixel(p: GbaPpuView, layer: int, line: int, px: int) -> Option<u32> {
    if layer < 4 {
        text_pixel(p, layer, line, px)
    } else if layer < 6 {
        affine_pixel(p, layer - 4, px)
    } else if layer == 6 {
        mode3_pixel(p, line, px)
    } else if layer == 7 {
        mode4_pixel(p, line, px)
    } else {
        mode5_pixel(p, line, px)
    }
}

/// A layer drawn over a row.
pub open spec fn layer_pass_spec(p: GbaPpuView, layer: int, line: int, row: Seq<u32>) -> Seq<u32> {
    overlay_row(row, |px: int| layer_pixel(p, layer, line, px))
}

/// A layer drawn over a row when DISPCNT enables background `bg`.
pub open spec fn enabled_pass(p: GbaPpuView, layer: int, bg: int, line: int, row: Seq<u32>) -> Seq<u32> {
    if bg_enabled(p, bg) {
        layer_pass_spec(p, layer, line, row)
    } else {
        row
    }
}

/// The backgrounds of the BG mode drawn over `row`, back to front: mode 0
/// BG3 to BG0, mode 1 BG2 (affine) then BG1 and BG0, mode 2 BG3 then BG2,
/// modes 3-5 their bitmap.
pub open spec fn bg_layers(p: GbaPpuView, line: int, row: Seq<u32>) -> Seq<u32> {
    let mode = p.regs.dispcnt & 7;
    if mode == 0 {
        enabled_pass(p, 0, 0, line, enabled_pass(p, 1, 1, line, enabled_pass(p, 2, 2, line, enabled_pass(p, 3, 3, line, row))))
    } else if mode == 1 {
        enabled_pass(p, 0, 0, line, enabled_pass(p, 1, 1, line, enabled_pass(p, 4, 2, line, row)))
    } else if mode == 2 {
        enabled_pass(p, 4, 2, line, enabled_pass(p, 5, 3, line, row))
    } else if mode == 3 {
        layer_pass_spec(p, 6, line, row)
    } else if mode == 4 {
        layer_pass_spec(p, 7, line, row)
    } else if mode == 5 {
        layer_pass_spec(p, 8, line, row)
    } else {
        row
    }
}

/// The little-endian halfword `k` of sprite `i`'s attributes.
pub open spec fn obj_attr(p: GbaPpuView, i: int, k: int) -> u16 {
    ((p.oam[8 * i + 2 * k] as u16) | ((p.oam[8 * i + 2 * k + 1] as u16) << 8u16)) as u16
}

/// A sprite's width and height from its shape and size.
pub open spec fn gba_obj_size(shape: u16, size: u16) -> (int, int) {
    if shape == 0 && size <= 3 {
        if size == 0 {
            (8, 8)
        } else if size == 1 {
            (16, 16)
        } else if size == 2 {
            (32, 32)
        } else {
            (64, 64)
        }
    } else if shape == 1 && size <= 3 {
        if size == 0 {
            (16, 8)
        } else if size == 1 {
            (32, 8)
        } else if size == 2 {
            (32, 16)
        } else {
            (64, 32)
        }
    } else if shape == 2 && size <= 3 {
        if size == 0 {
            (8, 16)
        } else if size == 1 {
            (8, 32)
        } else if size == 2 {
            (16, 32)
        } else {
            (32, 64)
        }
    } else {
        (8, 8)
    }
}

/// Sprite sizes as (width, height) by shape and size: square 8x8, 16x16,
/// 32x32, 64x64; horizontal (shape 1) 16x8, 32x8, 32x16, 64x32; vertical
/// (shape 2) 8x16, 8x32, 16x32, 32x64. A horizontal sprite is wider than
/// tall, a vertical one taller than wide.
pub proof fn lemma_obj_size_table()
    ensures
        gba_obj_size(0, 0) == (8int, 8int),
        gba_obj_size(0, 1) == (16int, 16int),
        gba_obj_size(0, 2) == (32int, 32int),
        gba_obj_size(0, 3) == (64int, 64int),
        gba_obj_size(1, 0) == (16int, 8int),
        gba_obj_size(1, 1) == (32int, 8int),
        gba_obj_size(1, 2) == (32int, 16int),
        gba_obj_size(1, 3) == (64int, 32int),
        gba_obj_size(2, 0) == (8int, 16int),
        gba_obj_size(2, 1) == (8int, 32int),
        gba_obj_size(2, 2) == (16int, 32int),
        gba_obj_size(2, 3) == (32int, 64int),
        forall|size: u16|
            size <= 3 ==> #[trigger] gba_obj_size(1, size).0 > gba_obj_size(1, size).1 && gba_obj_size(2, size).0
                < gba_obj_size(2, size).1 && gba_obj_size(0, size).0 == gba_obj_size(0, size).1,
{
}

/// A sprite's top line: lines 160-255 wrap to above the screen.
pub open spec fn obj_y(attr0: u16) -> int {
    let y = (attr0 & 0xFF) as int;
    if y >= 160 {
        y - 256
    } else {
        y
    }
}

/// A sprite's left column: columns 240-511 wrap to the left of the screen.
pub open spec fn obj_x(attr1: u16) -> int {
    let x = (attr1 & 0x1FF) as int;
    if x >= 240 {
        x - 512
    } else {
        x
    }
}

/// Whether sprite `i` is shown and covers `line`.
pub open spec fn sprite_visible(p: GbaPpuView, i: int, line: int) -> bool {
    let attr0 = obj_attr(p, i, 0);
    let attr1 = obj_attr(p, i, 1);
    let h = gba_obj_size((attr0 >> 14u16) & 3, (attr1 >> 14u16) & 3).1;
    let y = obj_y(attr0);
    (attr0 >> 8u16) & 3 != 2 && y <= line < y + h
}

/// A shown sprite's size comes from the shape in attribute 0's top two bits
/// and the size in attribute 1's: it covers the lines from its top down to
/// one above its top plus that height, and the columns from its left edge
/// to one before its left edge plus that width.
pub proof fn lemma_sprite_extent(p: GbaPpuView, i: int, line: int, sx: int)
    ensures
        ({
            let attr0 = obj_attr(p, i, 0);
            let attr1 = obj_attr(p, i, 1);
            let (w, h) = gba_obj_size(attr0 / 16384, attr1 / 16384);
            &&& sprite_visible(p, i, line) == ((attr0 >> 8u16) & 3 != 2 && obj_y(attr0) <= line < obj_y(attr0) + h)
            &&& (sprite_pixel(p, i, line, sx) is Some ==> sprite_visible(p, i, line) && obj_x(attr1) <= sx
                < obj_x(attr1) + w)
        }),
{
    crate::bits::lemma_u16_nibble(obj_attr(p, i, 0));
    crate::bits::lemma_u16_nibble(obj_attr(p, i, 1));
}

/// The colour of sprite `i` at screen column `sx` on `line`, unless it does
/// not cover that pixel, is hidden, or is transparent there.
pub open spec fn sprite_pixel(p: GbaPpuView, i: int, line: int, sx: int) -> Option<u32> {
    let attr0 = obj_attr(p, i, 0);
    let attr1 = obj_attr(p, i, 1);
    let attr2 = obj_attr(p, i, 2);
    let w = gba_obj_size((attr0 >> 14u16) & 3, (attr1 >> 14u16) & 3).0;
    let x = obj_x(attr1);
    if !sprite_visible(p, i, line) || sx < x || sx >= x + w {
        None
    } else {
        sprite_sample(p, attr0, attr1, attr2, line, sx)
    }
}

/// The colour a sprite with these attributes gives at (`sx`, `line`),
/// which it covers: the tile pixel (flipped unless the sprite is affine),
/// in 16 or 256 colours, from the object palette; `None` when transparent.
pub open spec fn sprite_sample(p: GbaPpuView, attr0: u16, attr1: u16, attr2: u16, line: int, sx: int) -> Option<u32> {
    let obj_mode = (attr0 >> 8u16) & 3;
    let w = gba_obj_size((attr0 >> 14u16) & 3, (attr1 >> 14u16) & 3).0;
    let h = gba_obj_size((attr0 >> 14u16) & 3, (attr1 >> 14u16) & 3).1;
    let tile_num = (attr2 & 0x3FF) as int;
    let palette_num = ((attr2 >> 12u16) & 0xF) as int;
    let h_flip = attr1 & 0x1000 != 0 && obj_mode != 1;
    let v_flip = attr1 & 0x2000 != 0 && obj_mode != 1;
    let y = obj_y(attr0);
    let sy = if v_flip {
        h - 1 - (line - y)
    } else {
        line - y
    };
    let sprite_x = sx - obj_x(attr1);
    let px = if h_flip {
        w - 1 - sprite_x
    } else {
        sprite_x
    };
    let one_d = p.regs.dispcnt & 0x40 != 0;
    if attr0 & 0x2000 != 0 {
        obj_pixel_256(p, tile_num, sy, px, w, one_d)
    } else {
        obj_pixel_16(p, tile_num, palette_num, sy, px, w, one_d)
    }
}

/// A 256-colour sprite's tile pixel at (`px`, `sy`) within the sprite.
pub open spec fn obj_pixel_256(p: GbaPpuView, tile_num: int, sy: int, px: int, w: int, one_d: bool) -> Option<u32> {
    let tile_offset = if one_d {
        tile_num + (sy / 8) * (w / 8) * 2 + (px / 8) * 2
    } else {
        tile_num + (sy / 8) * 32 + (px / 8) * 2
    };
    let off = 0x10000 + tile_offset * 32 + (sy % 8) * 8 + px % 8;
    if off >= p.vram.len() || p.vram[off] == 0 {
        None
    } else {
        Some(palette_color_spec(p.palette, 0x200 + p.vram[off] * 2))
    }
}

/// A 16-colour sprite's tile pixel at (`px`, `sy`) within the sprite.
pub open spec fn obj_pixel_16(
    p: GbaPpuView,
    tile_num: int,
    palette_num: int,
    sy: int,
    px: int,
    w: int,
    one_d: bool,
) -> Option<u32> {
    let tile_offset = if one_d {
        tile_num + (sy / 8) * (w / 8) + px / 8
    } else {
        tile_num + (sy / 8) * 32 + px / 8
    };
    let off = 0x10000 + tile_offset * 32 + (sy % 8) * 4 + (px % 8) / 2;
    if off >= p.vram.len() {
        None
    } else {
        let idx = if (px % 8) % 2 == 0 {
            p.vram[off] & 0xF
        } else {
            p.vram[off] >> 4u8
        };
        if idx == 0 {
            None
        } else {
            Some(palette_color_spec(p.palette, 0x200 + palette_num * 32 + idx * 2))
        }
    }
}

/// Sprites `n - 1` down to 0 drawn over `row`, so that lower-numbered
/// sprites end up in front.
pub open spec fn sprites_down(p: GbaPpuView, line: int, row: Seq<u32>, n: nat) -> Seq<u32>
    decreases n,
{
    if n == 0 {
        row
    } else {
        sprites_down(p, line, overlay_row(row, |sx: int| sprite_pixel(p, n - 1, line, sx)), (n - 1) as nat)
    }
}

/// Line `line` of the picture: the backdrop colour, the backgrounds of the
/// BG mode, then the sprites when DISPCNT enables them.
#[verifier::opaque]
pub open spec fn line_spec(p: GbaPpuView, line: int) -> Seq<u32> {
    let row = bg_layers(p, line, Seq::new(SCREEN_W as nat, |px: int| palette_color_spec(p.palette, 0)));
    if p.regs.dispcnt & 0x1000 != 0 {
        sprites_down(p, line, row, 128)
    } else {
        row
    }
}

/// The picture with line `line` replaced.
pub open spec fn with_line(fb: Seq<u32>, line: int, row: Seq<u32>) -> Seq<u32> {
    fb.subrange(0, line * 240) + row + fb.subrange(line * 240 + 240, fb.len() as int)
}

/// The picture after the lines run by a tick: each visible line is drawn
/// with the registers as they are when it ends.
pub open spec fn gba_lines_fb(r: GbaPpuRegs, p: GbaPpuView, fb: Seq<u32>) -> Seq<u32>
    decreases r.cycles,
{
    if r.cycles < 1232 {
        fb
    } else {
        let r0 = GbaPpuRegs { cycles: (r.cycles - 1232) as u32, ..r };
        let fb1 = if r.vcount < 160 {
            with_line(fb, r.vcount as int, line_spec(GbaPpuView { regs: r0, ..p }, r.vcount as int))
        } else {
            fb
        };
        gba_lines_fb(gba_line_regs(r).0, p, fb1)
    }
}

/// `(t + 2^24) mod size` is `t mod size` for the power-of-two map sizes.
pub(crate) proof fn lemma_wrap(t: int, size: int)
    requires
        size == 128 || size == 256 || size == 512 || size == 1024,
    ensures
        (t + 0x100_0000) % size == t % size,
{
    if size == 128 {
        vstd::arithmetic::div_mod::lemma_mod_multiples_vanish(131072, t, 128);
    } else if size == 256 {
        vstd::arithmetic::div_mod::lemma_mod_multiples_vanish(65536, t, 256);
    } else if size == 512 {
        vstd::arithmetic::div_mod::lemma_mod_multiples_vanish(32768, t, 512);
    } else {
        vstd::arithmetic::div_mod::lemma_mod_multiples_vanish(16384, t, 1024);
    }
}

/// An arithmetic shift by 8 of an `i32` stays within 24 bits.
pub(crate) proof fn lemma_shr8_range(v: i32)
    by (bit_vector)
    ensures
        -0x80_0000 <= v >> 8u32,
        v >> 8u32 <= 0x7F_FFFF,
{
}

/// A 15-bit colour as opaque ARGB.
fn argb_of(c: u16) -> (argb: u32)
    ensures
        argb == rgb555_argb(c),
{
    let r = ((c & 0x1F) as u32) * 255 / 31;
    let g = (((c >> 5u16) & 0x1F) as u32) * 255 / 31;
    let b = (((c >> 10u16) & 0x1F) as u32) * 255 / 31;
    0xFF00_0000u32 | (r << 16u32) | (g << 8u32) | b
}

impl GbaPpu {
    /// A palette entry (byte offset) as ARGB.
    fn palette_color(&self, offset: usize) -> (c: u32)
        requires
            self.palette@.len() == 0x400,
        ensures
            c == palette_color_spec(self.palette@, offset as int),
    {
        if offset < 0x3FF {
            let color = (self.palette[offset] as u16) | ((self.palette[offset + 1] as u16) << 8u16);
            argb_of(color)
        } else {
            0xFF00_0000
        }
    }

    /// The VRAM halfword at `off`.
    fn vram_halfword(&self, off: usize) -> (h: u16)
        requires
            off + 1 < self.vram@.len(),
            self.vram@.len() == 0x18000,
        ensures
            h == vram_half(self.vram@, off as int),
    {
        (self.vram[off] as u16) | ((self.vram[off + 1] as u16) << 8u16)
    }

    /// The pixel of text background `bg` at `px` on `line`.
    #[verifier::spinoff_prover]
    #[verifier::rlimit(40)]
    fn text_color(&self, bg: usize, line: usize, px: usize) -> (c: Option<u32>)
        requires
            gba_ppu_wf(self@),
            bg < 4,
            line < 160,
            px < 240,
        ensures
            c == text_pixel(self@, bg as int, line as int, px as int),
    {
        let cnt = self.bgcnt[bg];
        proof {
            crate::bits::lemma_and_le_u16(cnt >> 2u16, 3);
            crate::bits::lemma_and_le_u16(cnt >> 8u16, 0x1F);
            crate::bits::lemma_and_le_u16(cnt >> 14u16, 3);
        }
        let char_base = ((cnt >> 2u16) & 3) as usize * 0x4000;
        let screen_base = ((cnt >> 8u16) & 0x1F) as usize * 0x800;
        let size = (cnt >> 14u16) & 3;
        let map_w: usize = if size == 1 || size == 3 {
            64
        } else {
            32
        };
        let map_h: usize = if size >= 2 {
            64
        } else {
            32
        };
        let y = (line + self.bgvofs[bg] as usize) % (map_h * 8);
        let x = (px + self.bghofs[bg] as usize) % (map_w * 8);
        let tile_x = x / 8;
        let tile_y = y / 8;
        let mut block: usize = 0;
        if tile_x >= 32 {
            block = block + 1;
        }
        if tile_y >= 32 {
            block = block + if map_w == 64 {
                2
            } else {
                1
            };
        }
        let map_offset = screen_base + block * 0x800 + ((tile_y % 32) * 32 + tile_x % 32) * 2;
        if map_offset + 1 >= self.vram.len() {
            return None;
        }
        let entry = self.vram_halfword(map_offset);
        proof {
            crate::bits::lemma_and_le_u16(entry, 0x3FF);
            crate::bits::lemma_and_le_u16(entry >> 12u16, 0xF);
        }
        let tile_num = (entry & 0x3FF) as usize;
        let pal = ((entry >> 12u16) & 0xF) as usize;
        let ty = if entry & 0x800 != 0 {
            7 - y % 8
        } else {
            y % 8
        };
        let tx = if entry & 0x400 != 0 {
            7 - x % 8
        } else {
            x % 8
        };
        if cnt & 0x80 != 0 {
            let off = char_base + tile_num * 64 + ty * 8 + tx;
            if off >= self.vram.len() || self.vram[off] == 0 {
                return None;
            }
            Some(self.palette_color(self.vram[off] as usize * 2))
        } else {
            let off = char_base + tile_num * 32 + ty * 4 + tx / 2;
            if off >= self.vram.len() {
                return None;
            }
            let byte = self.vram[off];
            proof {
                crate::bits::lemma_and_le_u8(byte, 0xF);
            }
            let idx = if tx % 2 == 0 {
                byte & 0xF
            } else {
                byte >> 4u8
            };
            if idx == 0 {
                return None;
            }
            Some(self.palette_color(pal * 32 + idx as usize * 2))
        }
    }

    /// A map coordinate wrapped into `0..size`.
    fn wrap_coord(t: i32, size: i32) -> (r: i32)
        requires
            size == 128 || size == 256 || size == 512 || size == 1024,
            -0x80_0000 <= t <= 0x7F_FFFF,
        ensures
            r == (t as int) % (size as int),
    {
        proof {
            lemma_wrap(t as int, size as int);
        }
        (((t + 0x100_0000) as u32) % (size as u32)) as i32
    }

    /// The pixel of affine background `idx` at `px`.
    #[verifier::spinoff_prover]
    #[verifier::rlimit(40)]
    fn affine_color(&self, idx: usize, px: usize) -> (c: Option<u32>)
        requires
            gba_ppu_wf(self@),
            self.vcount < 160,
            idx < 2,
            px < 240,
        ensures
            c == affine_pixel(self@, idx as int, px as int),
    {
        let cnt = self.bgcnt[idx + 2];
        proof {
            crate::bits::lemma_and_le_u16(cnt >> 2u16, 3);
            crate::bits::lemma_and_le_u16(cnt >> 8u16, 0x1F);
            crate::bits::lemma_and_le_u16(cnt >> 14u16, 3);
        }
        let char_base = ((cnt >> 2u16) & 3) as usize * 0x4000;
        let screen_base = ((cnt >> 8u16) & 0x1F) as usize * 0x800;
        let wrap = cnt & 0x2000 != 0;
        let s = (cnt >> 14u16) & 3;
        let size: i32 = if s == 0 {
            128
        } else if s == 1 {
            256
        } else if s == 2 {
            512
        } else {
            1024
        };
        let pa = self.bg_pa[idx] as i32;
        let pc = self.bg_pc[idx] as i32;
        assert(-7864320 <= pa * (px as i32) <= 7864320 && -7864320 <= pc * (px as i32) <= 7864320) by (nonlinear_arith)
            requires
                -32768 <= pa <= 32767,
                -32768 <= pc <= 32767,
                0 <= px < 240,
        ;
        assert(-ref_limit() <= self@.regs.bg_ref_x[idx as int] <= ref_limit());
        assert(-internal_limit(self.vcount) <= self.bg_internal_x[idx as int] <= internal_limit(self.vcount));
        assert(-internal_limit(self.vcount) <= self.bg_internal_y[idx as int] <= internal_limit(self.vcount));
        let tex_x = (self.bg_internal_x[idx] + pa * (px as i32)) >> 8u32;
        let tex_y = (self.bg_internal_y[idx] + pc * (px as i32)) >> 8u32;
        proof {
            lemma_shr8_range((self.bg_internal_x[idx as int] + pa * (px as i32)) as i32);
            lemma_shr8_range((self.bg_internal_y[idx as int] + pc * (px as i32)) as i32);
        }
        if !wrap && (tex_x < 0 || tex_x >= size || tex_y < 0 || tex_y >= size) {
            return None;
        }
        let tx = if wrap {
            Self::wrap_coord(tex_x, size)
        } else {
            tex_x
        };
        let ty = if wrap {
            Self::wrap_coord(tex_y, size)
        } else {
            tex_y
        };
        let map_size = (size / 8) as usize;
        let tile_row = (ty / 8) as usize;
        assert(tile_row * map_size <= 128 * 128) by (nonlinear_arith)
            requires
                tile_row <= 128,
                map_size <= 128,
        ;
        let map_offset = screen_base + tile_row * map_size + (tx / 8) as usize;
        if map_offset >= self.vram.len() {
            return None;
        }
        let off = char_base + self.vram[map_offset] as usize * 64 + (ty % 8) as usize * 8 + (tx % 8) as usize;
        if off >= self.vram.len() || self.vram[off] == 0 {
            return None;
        }
        Some(self.palette_color(self.vram[off] as usize * 2))
    }

    /// The pixel of the mode 3 bitmap.
    fn mode3_color(&self, line: usize, px: usize) -> (c: Option<u32>)
        requires
            self.vram@.len() == 0x18000,
            line < 160,
            px < 240,
        ensures
            c == mode3_pixel(self@, line as int, px as int),
    {
        let off = (line * 240 + px) * 2;
        if off + 1 < self.vram.len() {
            Some(argb_of(self.vram_halfword(off)))
        } else {
            None
        }
    }

    /// The pixel of the mode 4 bitmap.
    fn mode4_color(&self, line: usize, px: usize) -> (c: Option<u32>)
        requires
            self.palette@.len() == 0x400,
            line < 160,
            px < 240,
        ensures
            c == mode4_pixel(self@, line as int, px as int),
    {
        let frame: usize = if self.dispcnt & 0x10 != 0 {
            0xA000
        } else {
            0
        };
        let off = frame + line * 240 + px;
        if off < self.vram.len() && self.vram[off] != 0 {
            Some(self.palette_color(self.vram[off] as usize * 2))
        } else {
            None
        }
    }

    /// The pixel of the mode 5 bitmap.
    fn mode5_color(&self, line: usize, px: usize) -> (c: Option<u32>)
        requires
            self.vram@.len() == 0x18000,
            line < 160,
            px < 240,
        ensures
            c == mode5_pixel(self@, line as int, px as int),
    {
        let frame: usize = if self.dispcnt & 0x10 != 0 {
            0xA000
        } else {
            0
        };
        let off = frame + (line * 160 + px) * 2;
        if line < 128 && px < 160 && off + 1 < self.vram.len() {
            Some(argb_of(self.vram_halfword(off)))
        } else {
            None
        }
    }

    /// The pixel of layer `layer` at `px`: 0-3 text backgrounds, 4-5 the
    /// affine backgrounds, 6-8 the mode 3-5 bitmaps.
    fn layer_color(&self, layer: usize, line: usize, px: usize) -> (c: Option<u32>)
        requires
            gba_ppu_wf(self@),
            self.vcount < 160,
            layer < 9,
            line < 160,
            px < 240,
        ensures
            c == layer_pixel(self@, layer as int, line as int, px as int),
    {
        if layer < 4 {
            self.text_color(layer, line, px)
        } else if layer < 6 {
            self.affine_color(layer - 4, px)
        } else if layer == 6 {
            self.mode3_color(line, px)
        } else if layer == 7 {
            self.mode4_color(line, px)
        } else {
            self.mode5_color(line, px)
        }
    }

    /// Draws one layer over a row.
    fn layer_pass(&self, row: &mut Vec<u32>, layer: usize, line: usize)
        requires
            gba_ppu_wf(self@),
            self.vcount < 160,
            layer < 9,
            line < 160,
            old(row)@.len() == 240,
        ensures
            final(row)@ == overlay_row(old(row)@, |px: int| layer_pixel(self@, layer as int, line as int, px)),
    {
        let ghost r0 = row@;
        let mut px: usize = 0;
        while px < 240
            invariant
                px <= 240,
                row@.len() == 240,
                r0.len() == 240,
                gba_ppu_wf(self@),
                self.vcount < 160,
                layer < 9,
                line < 160,
                forall|k: int|
                    0 <= k < 240 ==> row@[k] == if k < px {
                        match layer_pixel(self@, layer as int, line as int, k) {
                            Some(c) => c,
                            None => r0[k],
                        }
                    } else {
                        r0[k]
                    },
            decreases 240 - px,
        {
            match self.layer_color(layer, line, px) {
                Some(c) => {
                    row.set(px, c);
                },
                None => {},
            }
            px = px + 1;
        }
        assert(row@ =~= overlay_row(r0, |px: int| layer_pixel(self@, layer as int, line as int, px)));
    }

    /// The pixel of sprite `i` at screen column `sx`.
    #[verifier::spinoff_prover]
    fn sprite_color(&self, i: usize, line: usize, sx: usize) -> (c: Option<u32>)
        requires
            gba_ppu_wf(self@),
            i < 128,
            line < 160,
            sx < 240,
        ensures
            c == sprite_pixel(self@, i as int, line as int, sx as int),
    {
        if !self.sprite_on_line(i, line) {
            return None;
        }
        let base = i * 8;
        let attr0 = (self.oam[base] as u16) | ((self.oam[base + 1] as u16) << 8u16);
        let attr1 = (self.oam[base + 2] as u16) | ((self.oam[base + 3] as u16) << 8u16);
        let attr2 = (self.oam[base + 4] as u16) | ((self.oam[base + 5] as u16) << 8u16);
        proof {
            crate::bits::lemma_and_le_u16(attr1, 0x1FF);
            crate::bits::lemma_and_le_u16(attr0 >> 14u16, 3);
            crate::bits::lemma_and_le_u16(attr1 >> 14u16, 3);
        }
        let (w, _h) = Self::obj_size((attr0 >> 14u16) & 3, (attr1 >> 14u16) & 3);
        let x0 = (attr1 & 0x1FF) as i32;
        let x: i32 = if x0 >= 240 {
            x0 - 512
        } else {
            x0
        };
        let s = sx as i32;
        if s < x || s >= x + w as i32 {
            return None;
        }
        self.sprite_sample_color(attr0, attr1, attr2, line, sx)
    }

    /// The colour of a sprite with these attributes at (`sx`, `line`).
    #[verifier::spinoff_prover]
    #[verifier::rlimit(60)]
    fn sprite_sample_color(&self, attr0: u16, attr1: u16, attr2: u16, line: usize, sx: usize) -> (c: Option<u32>)
        requires
            gba_ppu_wf(self@),
            line < 160,
            sx < 240,
            ({
                let w = gba_obj_size((attr0 >> 14u16) & 3, (attr1 >> 14u16) & 3).0;
                let h = gba_obj_size((attr0 >> 14u16) & 3, (attr1 >> 14u16) & 3).1;
                &&& obj_y(attr0) <= line < obj_y(attr0) + h
                &&& obj_x(attr1) <= sx < obj_x(attr1) + w
            }),
        ensures
            c == sprite_sample(self@, attr0, attr1, attr2, line as int, sx as int),
    {
        proof {
            crate::bits::lemma_and_le_u16(attr0, 0xFF);
            crate::bits::lemma_and_le_u16(attr1, 0x1FF);
            crate::bits::lemma_and_le_u16(attr2, 0x3FF);
            crate::bits::lemma_and_le_u16(attr2 >> 12u16, 0xF);
            crate::bits::lemma_and_le_u16(attr0 >> 14u16, 3);
            crate::bits::lemma_and_le_u16(attr1 >> 14u16, 3);
        }
        let obj_mode = (attr0 >> 8u16) & 3;
        let (w, h) = Self::obj_size((attr0 >> 14u16) & 3, (attr1 >> 14u16) & 3);
        let y0 = (attr0 & 0xFF) as i32;
        let y: i32 = if y0 >= 160 {
            y0 - 256
        } else {
            y0
        };
        let x0 = (attr1 & 0x1FF) as i32;
        let x: i32 = if x0 >= 240 {
            x0 - 512
        } else {
            x0
        };
        let l = line as i32;
        let s = sx as i32;
        let tile_num = (attr2 & 0x3FF) as usize;
        let palette_num = ((attr2 >> 12u16) & 0xF) as usize;
        let h_flip = attr1 & 0x1000 != 0 && obj_mode != 1;
        let v_flip = attr1 & 0x2000 != 0 && obj_mode != 1;
        let sy: usize = if v_flip {
            (h as i32 - 1 - (l - y)) as usize
        } else {
            (l - y) as usize
        };
        let sprite_x = (s - x) as usize;
        let px = if h_flip {
            w - 1 - sprite_x
        } else {
            sprite_x
        };
        let one_d = self.dispcnt & 0x40 != 0;
        if attr0 & 0x2000 != 0 {
            self.obj_color_256(tile_num, sy, px, w, one_d)
        } else {
            self.obj_color_16(tile_num, palette_num, sy, px, w, one_d)
        }
    }

    /// A 256-colour sprite's tile pixel.
    fn obj_color_256(&self, tile_num: usize, sy: usize, px: usize, w: usize, one_d: bool) -> (c: Option<u32>)
        requires
            gba_ppu_wf(self@),
            tile_num < 1024,
            sy < 64,
            px < w,
            w <= 64,
        ensures
            c == obj_pixel_256(self@, tile_num as int, sy as int, px as int, w as int, one_d),
    {
        let tile_row = sy / 8;
        assert(tile_row * (w / 8) <= 64) by (nonlinear_arith)
            requires
                tile_row < 8,
                w / 8 <= 8,
        ;
        let tile_offset = if one_d {
            tile_num + tile_row * (w / 8) * 2 + (px / 8) * 2
        } else {
            tile_num + tile_row * 32 + (px / 8) * 2
        };
        let off = 0x10000 + tile_offset * 32 + (sy % 8) * 8 + px % 8;
        if off >= self.vram.len() || self.vram[off] == 0 {
            return None;
        }
        Some(self.palette_color(0x200 + self.vram[off] as usize * 2))
    }

    /// A 16-colour sprite's tile pixel.
    fn obj_color_16(&self, tile_num: usize, palette_num: usize, sy: usize, px: usize, w: usize, one_d: bool) -> (c:
        Option<u32>)
        requires
            gba_ppu_wf(self@),
            tile_num < 1024,
            palette_num < 16,
            sy < 64,
            px < w,
            w <= 64,
        ensures
            c == obj_pixel_16(self@, tile_num as int, palette_num as int, sy as int, px as int, w as int, one_d),
    {
        let tile_row = sy / 8;
        assert(tile_row * (w / 8) <= 64) by (nonlinear_arith)
            requires
                tile_row < 8,
                w / 8 <= 8,
        ;
        let tile_offset = if one_d {
            tile_num + tile_row * (w / 8) + px / 8
        } else {
            tile_num + tile_row * 32 + px / 8
        };
        let off = 0x10000 + tile_offset * 32 + (sy % 8) * 4 + (px % 8) / 2;
        if off >= self.vram.len() {
            return None;
        }
        let byte = self.vram[off];
        proof {
            crate::bits::lemma_and_le_u8(byte, 0xF);
        }
        let idx = if (px % 8) % 2 == 0 {
            byte & 0xF
        } else {
            byte >> 4u8
        };
        if idx == 0 {
            return None;
        }
        Some(self.palette_color(0x200 + palette_num * 32 + idx as usize * 2))
    }

    /// Draws sprite `i` over a row.
    fn sprite_pass(&self, row: &mut Vec<u32>, i: usize, line: usize)
        requires
            gba_ppu_wf(self@),
            i < 128,
            line < 160,
            old(row)@.len() == 240,
        ensures
            final(row)@ == overlay_row(old(row)@, |sx: int| sprite_pixel(self@, i as int, line as int, sx)),
    {
        let ghost r0 = row@;
        let mut sx: usize = 0;
        while sx < 240
            invariant
                sx <= 240,
                row@.len() == 240,
                r0.len() == 240,
                gba_ppu_wf(self@),
                i < 128,
                line < 160,
                forall|k: int|
                    0 <= k < 240 ==> row@[k] == if k < sx {
                        match sprite_pixel(self@, i as int, line as int, k) {
                            Some(c) => c,
                            None => r0[k],
                        }
                    } else {
                        r0[k]
                    },
            decreases 240 - sx,
        {
            match self.sprite_color(i, line, sx) {
                Some(c) => {
                    row.set(sx, c);
                },
                None => {},
            }
            sx = sx + 1;
        }
        assert(row@ =~= overlay_row(r0, |sx: int| sprite_pixel(self@, i as int, line as int, sx)));
    }

    /// Whether sprite `i` is shown and covers `line`.
    fn sprite_on_line(&self, i: usize, line: usize) -> (r: bool)
        requires
            gba_ppu_wf(self@),
            i < 128,
            line < 160,
        ensures
            r == sprite_visible(self@, i as int, line as int),
    {
        let base = i * 8;
        let attr0 = (self.oam[base] as u16) | ((self.oam[base + 1] as u16) << 8u16);
        let attr1 = (self.oam[base + 2] as u16) | ((self.oam[base + 3] as u16) << 8u16);
        proof {
            crate::bits::lemma_and_le_u16(attr0, 0xFF);
            crate::bits::lemma_and_le_u16(attr0 >> 14u16, 3);
            crate::bits::lemma_and_le_u16(attr1 >> 14u16, 3);
        }
        let (_w, h) = Self::obj_size((attr0 >> 14u16) & 3, (attr1 >> 14u16) & 3);
        let y0 = (attr0 & 0xFF) as i32;
        let y: i32 = if y0 >= 160 {
            y0 - 256
        } else {
            y0
        };
        let l = line as i32;
        (attr0 >> 8u16) & 3 != 2 && y <= l && l < y + h as i32
    }

    /// Draws layer `layer` over a row when DISPCNT enables background `bg`.
    fn enabled_layer_pass(&self, row: &mut Vec<u32>, layer: usize, bg: usize, line: usize)
        requires
            gba_ppu_wf(self@),
            self.vcount < 160,
            layer < 9,
            bg < 4,
            line < 160,
            old(row)@.len() == 240,
        ensures
            final(row)@ == enabled_pass(self@, layer as int, bg as int, line as int, old(row)@),
            final(row)@.len() == 240,
    {
        if self.dispcnt & (1u16 << (8 + bg as u16)) != 0 {
            self.layer_pass(row, layer, line);
        }
    }

    /// Line `line` of the picture.
    #[verifier::spinoff_prover]
    fn draw_line(&self, line: usize) -> (row: Vec<u32>)
        requires
            gba_ppu_wf(self@),
            self.vcount < 160,
            line < 160,
        ensures
            row@ == line_spec(self@, line as int),
            row@.len() == 240,
    {
        reveal(line_spec);
        let backdrop = self.palette_color(0);
        let mut row = vec![backdrop; 240];
        let ghost r0 = row@;
        assert(r0 =~= Seq::new(SCREEN_W as nat, |px: int| palette_color_spec(self.palette@, 0)));
        let mode = self.dispcnt & 7;
        if mode == 0 {
            self.enabled_layer_pass(&mut row, 3, 3, line);
            self.enabled_layer_pass(&mut row, 2, 2, line);
            self.enabled_layer_pass(&mut row, 1, 1, line);
            self.enabled_layer_pass(&mut row, 0, 0, line);
        } else if mode == 1 {
            self.enabled_layer_pass(&mut row, 4, 2, line);
            self.enabled_layer_pass(&mut row, 1, 1, line);
            self.enabled_layer_pass(&mut row, 0, 0, line);
        } else if mode == 2 {
            self.enabled_layer_pass(&mut row, 5, 3, line);
            self.enabled_layer_pass(&mut row, 4, 2, line);
        } else if mode == 3 {
            self.layer_pass(&mut row, 6, line);
        } else if mode == 4 {
            self.layer_pass(&mut row, 7, line);
        } else if mode == 5 {
            self.layer_pass(&mut row, 8, line);
        }
        assert(row@ == bg_layers(self@, line as int, r0));
        if self.dispcnt & 0x1000 != 0 {
            let ghost r1 = row@;
            let mut i: usize = 128;
            while i > 0
                invariant
                    i <= 128,
                    row@.len() == 240,
                    gba_ppu_wf(self@),
                    line < 160,
                    sprites_down(self@, line as int, r1, 128) == sprites_down(self@, line as int, row@, i as nat),
                decreases i,
            {
                i = i - 1;
                if self.sprite_on_line(i, line) {
                    self.sprite_pass(&mut row, i, line);
                } else {
                    assert(row@ =~= overlay_row(row@, |sx: int| sprite_pixel(self@, i as int, line as int, sx)));
                }
            }
        }
        row
    }

    /// The width and height of a sprite from its shape and size.
    fn obj_size(shape: u16, size: u16) -> (wh: (usize, usize))
        ensures
            wh.0 == gba_obj_size(shape, size).0,
            wh.1 == gba_obj_size(shape, size).1,
    {
        match (shape, size) {
            (0, 0) => (8, 8),
            (0, 1) => (16, 16),
            (0, 2) => (32, 32),
            (0, 3) => (64, 64),
            (1, 0) => (16, 8),
            (1, 1) => (32, 8),
            (1, 2) => (32, 16),
            (1, 3) => (64, 32),
            (2, 0) => (8, 16),
            (2, 1) => (8, 32),
            (2, 2) => (16, 32),
            (2, 3) => (32, 64),
            _ => (8, 8),
        }
    }
}

} // verus!
