use vstd::prelude::*;

use crate::cartridge::gba::{eeprom_bytes, EepromView, FlashView, GbaCartView};
use crate::cartridge::GbaBackupType;
use crate::emulator::gba::GbaEmulator;
use crate::emulator::gbc::GbcEmulator;

verus! {

/// Size of GBA palette RAM.
pub const GBA_PALETTE_RAM_SIZE: usize = 0x400;

/// Size of one 16-colour palette bank.
pub const GBA_PALETTE_BANK_SIZE: usize = 0x20;

/// Size of a flash sector.
pub const GBA_FLASH_SECTOR_SIZE: usize = 0x1000;

/// The signature in the footer of each Pokemon save sector.
pub const POKEMON_GBA_SAVE_SIGNATURE: u32 = 0x0801_2025;

/// The number of sections of a Pokemon save.
pub const POKEMON_GBA_SECTION_COUNT: usize = 14;

// ---------------------------------------------------------------------------
// Palette banks duplicated by a 32-bit copy bug
// ---------------------------------------------------------------------------

/// Word `w` of `d` holds its low halfword twice.
pub open spec fn half_dup(d: Seq<u8>, w: int) -> bool {
    d[4 * w] == d[4 * w + 2] && d[4 * w + 1] == d[4 * w + 3]
}

/// Word `w` of `dst` is the low halfword of word `w` of `src`, twice.
pub open spec fn word_copies_low(src: Seq<u8>, dst: Seq<u8>, w: int) -> bool {
    dst[4 * w] == src[4 * w] && dst[4 * w + 1] == src[4 * w + 1] && dst[4 * w + 2] == src[4 * w] && dst[4 * w + 3]
        == src[4 * w + 1]
}

/// `dst` is `src` with each word's high halfword replaced by its low one,
/// and `src` had a word whose halves differed (so something was lost).
pub open spec fn dup_low_halfwords_spec(src: Seq<u8>, dst: Seq<u8>) -> bool {
    &&& src.len() == GBA_PALETTE_BANK_SIZE
    &&& dst.len() == GBA_PALETTE_BANK_SIZE
    &&& forall|w: int| 0 <= w < 8 ==> #[trigger] word_copies_low(src, dst, w)
    &&& exists|w: int| 0 <= w < 8 && !#[trigger] half_dup(src, w)
}

/// The low halfword of word `w` is not zero.
pub open spec fn half_nonzero(d: Seq<u8>, w: int) -> bool {
    d[4 * w] != 0 || d[4 * w + 1] != 0
}

/// The low halfword of word `w` differs from the first.
pub open spec fn half_differs(d: Seq<u8>, w: int) -> bool {
    d[4 * w] != d[0] || d[4 * w + 1] != d[1]
}

/// A bank in which every word holds its low halfword twice, with some
/// colour not black and not all colours the same.
pub open spec fn informative_dup_spec(dst: Seq<u8>) -> bool {
    &&& dst.len() == GBA_PALETTE_BANK_SIZE
    &&& forall|w: int| 0 <= w < 8 ==> #[trigger] half_dup(dst, w)
    &&& exists|w: int| 0 <= w < 8 && #[trigger] half_nonzero(dst, w)
    &&& exists|w: int| 0 <= w < 8 && #[trigger] half_differs(dst, w)
}

/// Whether `dst` is `src` with its high halfwords lost.
pub fn bank_has_duplicated_low_halfwords(src: &[u8], dst: &[u8]) -> (r: bool)
    ensures
        r == dup_low_halfwords_spec(src@, dst@),
{
    if src.len() != GBA_PALETTE_BANK_SIZE || dst.len() != GBA_PALETTE_BANK_SIZE {
        return false;
    }
    let mut informative = false;
    let mut w: usize = 0;
    while w < 8
        invariant
            w <= 8,
            src@.len() == GBA_PALETTE_BANK_SIZE,
            dst@.len() == GBA_PALETTE_BANK_SIZE,
            forall|k: int| 0 <= k < w ==> #[trigger] word_copies_low(src@, dst@, k),
            informative == exists|k: int| 0 <= k < w && !#[trigger] half_dup(src@, k),
        decreases 8 - w,
    {
        let o = w * 4;
        if src[o] != src[o + 2] || src[o + 1] != src[o + 3] {
            informative = true;
            assert(!half_dup(src@, w as int));
        }
        if dst[o] != src[o] || dst[o + 1] != src[o + 1] || dst[o + 2] != src[o] || dst[o + 3] != src[o + 1] {
            assert(!word_copies_low(src@, dst@, w as int));
            return false;
        }
        assert(word_copies_low(src@, dst@, w as int));
        w = w + 1;
    }
    informative
}

/// Whether a palette bank looks like one whose high halfwords were lost.
pub fn bank_is_informatively_duplicated_low_halfwords(dst: &[u8]) -> (r: bool)
    ensures
        r == informative_dup_spec(dst@),
{
    if dst.len() != GBA_PALETTE_BANK_SIZE {
        return false;
    }
    let mut non_zero = false;
    let mut distinct = false;
    let mut w: usize = 0;
    while w < 8
        invariant
            w <= 8,
            dst@.len() == GBA_PALETTE_BANK_SIZE,
            forall|k: int| 0 <= k < w ==> #[trigger] half_dup(dst@, k),
            non_zero == exists|k: int| 0 <= k < w && #[trigger] half_nonzero(dst@, k),
            distinct == exists|k: int| 0 <= k < w && #[trigger] half_differs(dst@, k),
        decreases 8 - w,
    {
        let o = w * 4;
        if dst[o] != dst[o + 2] || dst[o + 1] != dst[o + 3] {
            assert(!half_dup(dst@, w as int));
            return false;
        }
        assert(half_dup(dst@, w as int));
        if dst[o] != 0 || dst[o + 1] != 0 {
            non_zero = true;
            assert(half_nonzero(dst@, w as int));
        }
        if dst[o] != dst[0] || dst[o + 1] != dst[1] {
            distinct = true;
            assert(half_differs(dst@, w as int));
        }
        w = w + 1;
    }
    non_zero && distinct
}

/// Bank `k` (32 bytes) of a palette.
pub open spec fn palette_bank(p: Seq<u8>, k: int) -> Seq<u8> {
    p.subrange(k * 32, k * 32 + 32)
}

/// Whether some bank of the palette looks like a lost-halfword copy.
pub open spec fn palette_has_dup_spec(p: Seq<u8>) -> bool {
    exists|k: int| 0 <= k < 32 && informative_dup_spec(#[trigger] palette_bank(p, k))
}

/// Whether some palette bank of the emulator looks like a lost-halfword
/// copy.
pub fn gba_palette_has_duplicated_banks(emu: &GbaEmulator) -> (r: bool)
    requires
        emu.bus.ppu.palette@.len() == GBA_PALETTE_RAM_SIZE,
    ensures
        r == palette_has_dup_spec(emu.bus.ppu.palette@),
{
    let p = emu.bus.ppu.palette.as_slice();
    let mut k: usize = 0;
    while k < 32
        invariant
            k <= 32,
            p@ == emu.bus.ppu.palette@,
            p@.len() == GBA_PALETTE_RAM_SIZE,
            forall|j: int| 0 <= j < k ==> !informative_dup_spec(#[trigger] palette_bank(p@, j)),
        decreases 32 - k,
    {
        let bank = vstd::slice::slice_subrange(p, k * 32, k * 32 + 32);
        if bank_is_informatively_duplicated_low_halfwords(bank) {
            assert(informative_dup_spec(palette_bank(p@, k as int)));
            return true;
        }
        k = k + 1;
    }
    false
}

/// The repair scan's state: work RAM, palette, and which banks were
/// already repaired.
pub struct RepairState {
    pub ewram: Seq<u8>,
    pub palette: Seq<u8>,
    pub repaired: Seq<bool>,
}

/// One bank at one scan offset: a bank not yet repaired whose work-RAM copy
/// at `offset` is the lost-halfword form of the 1 KiB before it, and which
/// the palette shows, is restored in both places.
pub open spec fn repair_bank(st: RepairState, offset: int, k: int) -> RepairState {
    let b = k * 32;
    let src = st.ewram.subrange(offset - 0x400 + b, offset - 0x400 + b + 32);
    let dst = st.ewram.subrange(offset + b, offset + b + 32);
    if !st.repaired[k] && dup_low_halfwords_spec(src, dst) && palette_bank(st.palette, k) == dst {
        RepairState {
            ewram: st.ewram.subrange(0, offset + b) + src + st.ewram.subrange(offset + b + 32, st.ewram.len() as int),
            palette: st.palette.subrange(0, b) + src + st.palette.subrange(b + 32, st.palette.len() as int),
            repaired: st.repaired.update(k, true),
        }
    } else {
        st
    }
}

/// The first `n` banks at one scan offset.
pub open spec fn repair_banks(st: RepairState, offset: int, n: nat) -> RepairState
    decreases n,
{
    if n == 0 {
        st
    } else {
        repair_bank(repair_banks(st, offset, (n - 1) as nat), offset, n - 1)
    }
}

/// The scan from `offset` down in steps of 4 while it stays at or above
/// `start`.
pub open spec fn repair_scan(st: RepairState, offset: int, start: int) -> RepairState
    decreases offset - start,
{
    if offset < start {
        st
    } else {
        let st1 = repair_banks(st, offset, 32);
        if offset < start + 4 {
            st1
        } else {
            repair_scan(st1, offset - 4, start)
        }
    }
}

/// The scan over a 256 KiB work RAM: offsets from the top kilobyte down to
/// the middle.
pub open spec fn repair_spec(ewram: Seq<u8>, palette: Seq<u8>) -> RepairState {
    repair_scan(
        RepairState { ewram, palette, repaired: Seq::new(32, |i: int| false) },
        0x3FC00,
        0x20000,
    )
}

/// Whether any bank was repaired.
pub open spec fn any_repaired(r: Seq<bool>) -> bool {
    exists|k: int| 0 <= k < r.len() && r[k]
}

/// `after` differs from `before` at most in work RAM and palette RAM, which
/// keep their sizes.
pub open spec fn only_ram_changed(before: &crate::memory::gba_bus::GbaBus, after: &crate::memory::gba_bus::GbaBus) -> bool {
    &&& after@ == (crate::memory::gba_bus::GbaBusView {
        ewram: after@.ewram,
        ppu: crate::ppu::gba_ppu::GbaPpuView { palette: after@.ppu.palette, ..before@.ppu },
        ..before@
    })
    &&& after@.ewram.len() == before@.ewram.len()
    &&& after@.ppu.palette.len() == before@.ppu.palette.len()
    &&& after.ppu.framebuffer@ == before.ppu.framebuffer@
}

/// Copies `len` bytes from `from[src..]` into `to[dst..]`.
fn copy_bytes(to: &mut Vec<u8>, dst: usize, from: &Vec<u8>, src: usize, len: usize)
    requires
        dst + len <= old(to)@.len(),
        src + len <= from@.len(),
        old(to)@.len() <= 0x100000,
        from@.len() <= 0x100000,
    ensures
        final(to)@ == old(to)@.subrange(0, dst as int) + from@.subrange(src as int, src + len) + old(
            to,
        )@.subrange(dst + len, old(to)@.len() as int),
{
    let ghost t0 = to@;
    let mut i: usize = 0;
    while i < len
        invariant
            i <= len,
            dst + len <= t0.len(),
            src + len <= from@.len(),
            t0.len() <= 0x100000,
            from@.len() <= 0x100000,
            to@.len() == t0.len(),
            forall|j: int| 0 <= j < dst ==> to@[j] == t0[j],
            forall|j: int| dst + len <= j < t0.len() ==> to@[j] == t0[j],
            forall|j: int| dst + i <= j < dst + len ==> to@[j] == t0[j],
            forall|j: int| dst <= j < dst + i ==> to@[j] == from@[src + j - dst],
        decreases len - i,
    {
        to.set(dst + i, from[src + i]);
        i = i + 1;
    }
    assert(to@ =~= t0.subrange(0, dst as int) + from@.subrange(src as int, src + len) + t0.subrange(
        dst + len,
        t0.len() as int,
    ));
}

impl GbaEmulator {
    /// One bank at one scan offset of the palette repair.
    fn repair_one_bank(&mut self, repaired: &mut Vec<bool>, offset: usize, k: usize)
        requires
            old(self).bus.ewram@.len() == 0x40000,
            old(self).bus.ppu.palette@.len() == GBA_PALETTE_RAM_SIZE,
            old(repaired)@.len() == 32,
            0x400 <= offset <= 0x3FC00,
            k < 32,
        ensures
            final(self).bus.ewram@.len() == 0x40000,
            final(self).bus.ppu.palette@.len() == GBA_PALETTE_RAM_SIZE,
            final(repaired)@.len() == 32,
            repair_bank(
                RepairState {
                    ewram: old(self).bus.ewram@,
                    palette: old(self).bus.ppu.palette@,
                    repaired: old(repaired)@,
                },
                offset as int,
                k as int,
            ) == (RepairState {
                ewram: final(self).bus.ewram@,
                palette: final(self).bus.ppu.palette@,
                repaired: final(repaired)@,
            }),
            final(self).cpu == old(self).cpu,
            final(self).total_frames == old(self).total_frames,
            final(self).frame_cycles == old(self).frame_cycles,
            final(self).repair_legacy_palette_state == old(self).repair_legacy_palette_state,
            only_ram_changed(&old(self).bus, &final(self).bus),
    {
        let b = k * 32;
        if repaired[k] {
            return;
        }
        let src_start = offset - 0x400 + b;
        let dst_start = offset + b;
        let dup = {
            let src = vstd::slice::slice_subrange(self.bus.ewram.as_slice(), src_start, src_start + 32);
            let dst = vstd::slice::slice_subrange(self.bus.ewram.as_slice(), dst_start, dst_start + 32);
            bank_has_duplicated_low_halfwords(src, dst)
        };
        if !dup {
            return;
        }
        let mut same = true;
        let mut i: usize = 0;
        while i < 32
            invariant
                i <= 32,
                b + 32 <= self.bus.ppu.palette@.len(),
                dst_start + 32 <= self.bus.ewram@.len(),
                b <= 0x3E0,
                dst_start <= 0x40000,
                same == forall|j: int| b <= j < b + i ==> self.bus.ppu.palette@[j] == self.bus.ewram@[dst_start + j - b],
            decreases 32 - i,
        {
            if self.bus.ppu.palette[b + i] != self.bus.ewram[dst_start + i] {
                same = false;
            }
            i = i + 1;
        }
        proof {
            let pb = palette_bank(self.bus.ppu.palette@, k as int);
            let db = self.bus.ewram@.subrange(dst_start as int, dst_start + 32);
            if same {
                assert(pb =~= db);
            } else {
                let j = choose|j: int| b <= j < b + 32 && self.bus.ppu.palette@[j] != self.bus.ewram@[dst_start + j - b];
                assert(pb[j - b] != db[j - b]);
            }
        }
        if !same {
            return;
        }
        let ghost e0 = self.bus.ewram@;
        let src_copy = copy_of(vstd::slice::slice_subrange(self.bus.ewram.as_slice(), src_start, src_start + 32));
        copy_bytes(&mut self.bus.ewram, dst_start, &src_copy, 0, 32);
        copy_bytes(&mut self.bus.ppu.palette, b, &src_copy, 0, 32);
        repaired.set(k, true);
        assert(src_copy@.subrange(0, 32) =~= e0.subrange(src_start as int, src_start + 32));
    }

    /// Restores palette banks that an old save state holds in lost-halfword
    /// form, when work RAM still has the original colours just before the
    /// damaged copy; returns whether any bank was restored.
    pub fn repair_gba_palette_state_if_needed(&mut self) -> (r: bool)
        requires
            old(self).bus.ewram@.len() == 0x40000,
            old(self).bus.ppu.palette@.len() == GBA_PALETTE_RAM_SIZE,
        ensures
            ({
                let s = repair_spec(old(self).bus.ewram@, old(self).bus.ppu.palette@);
                &&& final(self).bus.ewram@ == s.ewram
                &&& final(self).bus.ppu.palette@ == s.palette
                &&& r == any_repaired(s.repaired)
            }),
            final(self).cpu == old(self).cpu,
            final(self).total_frames == old(self).total_frames,
            final(self).frame_cycles == old(self).frame_cycles,
            final(self).repair_legacy_palette_state == old(self).repair_legacy_palette_state,
            only_ram_changed(&old(self).bus, &final(self).bus),
    {
        let mut repaired: Vec<bool> = vec![false; 32];
        assert(repaired@ =~= Seq::new(32, |i: int| false));
        let ghost st0 = RepairState { ewram: self.bus.ewram@, palette: self.bus.ppu.palette@, repaired: repaired@ };
        let mut offset: usize = 0x3FC00;
        loop
            invariant_except_break
                repair_scan(st0, 0x3FC00, 0x20000) == repair_scan(
                    RepairState { ewram: self.bus.ewram@, palette: self.bus.ppu.palette@, repaired: repaired@ },
                    offset as int,
                    0x20000,
                ),
            invariant
                0x20000 <= offset <= 0x3FC00,
                self.bus.ewram@.len() == 0x40000,
                self.bus.ppu.palette@.len() == GBA_PALETTE_RAM_SIZE,
                repaired@.len() == 32,
                self.cpu == old(self).cpu,
                self.total_frames == old(self).total_frames,
                self.frame_cycles == old(self).frame_cycles,
                self.repair_legacy_palette_state == old(self).repair_legacy_palette_state,
                only_ram_changed(&old(self).bus, &self.bus),
            ensures
                only_ram_changed(&old(self).bus, &self.bus),
                repair_scan(st0, 0x3FC00, 0x20000) == (RepairState {
                    ewram: self.bus.ewram@,
                    palette: self.bus.ppu.palette@,
                    repaired: repaired@,
                }),
                repaired@.len() == 32,
                self.cpu == old(self).cpu,
                self.total_frames == old(self).total_frames,
                self.frame_cycles == old(self).frame_cycles,
                self.repair_legacy_palette_state == old(self).repair_legacy_palette_state,
            decreases offset,
        {
            let ghost before = RepairState {
                ewram: self.bus.ewram@,
                palette: self.bus.ppu.palette@,
                repaired: repaired@,
            };
            let mut k: usize = 0;
            while k < 32
                invariant
                    k <= 32,
                    0x20000 <= offset <= 0x3FC00,
                    self.bus.ewram@.len() == 0x40000,
                    self.bus.ppu.palette@.len() == GBA_PALETTE_RAM_SIZE,
                    repaired@.len() == 32,
                    repair_banks(before, offset as int, k as nat) == (RepairState {
                        ewram: self.bus.ewram@,
                        palette: self.bus.ppu.palette@,
                        repaired: repaired@,
                    }),
                    self.cpu == old(self).cpu,
                    self.total_frames == old(self).total_frames,
                    self.frame_cycles == old(self).frame_cycles,
                    self.repair_legacy_palette_state == old(self).repair_legacy_palette_state,
                    only_ram_changed(&old(self).bus, &self.bus),
                decreases 32 - k,
            {
                self.repair_one_bank(&mut repaired, offset, k);
                k = k + 1;
            }
            if offset < 0x20000 + 4 {
                break;
            }
            offset = offset - 4;
        }
        let mut any = false;
        let mut k: usize = 0;
        while k < 32
            invariant
                k <= 32,
                repaired@.len() == 32,
                any == exists|j: int| 0 <= j < k && repaired@[j],
            decreases 32 - k,
        {
            if repaired[k] {
                any = true;
            }
            k = k + 1;
        }
        any
    }
}

// ---------------------------------------------------------------------------
// Pokemon flash saves left incomplete by older versions
// ---------------------------------------------------------------------------

/// The little-endian word at `off`.
pub open spec fn le32_at(d: Seq<u8>, off: int) -> u32 {
    (d[off] + d[off + 1] * 256 + d[off + 2] * 65536 + d[off + 3] * 16777216) as u32
}

/// The start of the 12-byte footer of sector `s`.
pub open spec fn footer_at(s: int) -> int {
    s * GBA_FLASH_SECTOR_SIZE + GBA_FLASH_SECTOR_SIZE - 12
}

/// Sector `s` has a Pokemon footer.
pub open spec fn has_footer(d: Seq<u8>, s: int) -> bool {
    le32_at(d, footer_at(s) + 4) == POKEMON_GBA_SAVE_SIGNATURE
}

/// The section id in sector `s`'s footer.
pub open spec fn footer_section(d: Seq<u8>, s: int) -> int {
    d[footer_at(s)] + d[footer_at(s) + 1] * 256
}

/// The save index in sector `s`'s footer.
pub open spec fn footer_index(d: Seq<u8>, s: int) -> u32 {
    le32_at(d, footer_at(s) + 8)
}

/// The sections present for save index `idx` among the first `n` sectors,
/// as a bit mask.
pub open spec fn section_mask(d: Seq<u8>, idx: u32, n: nat) -> u16
    decreases n,
{
    if n == 0 {
        0
    } else {
        let s = n - 1;
        let m = section_mask(d, idx, (n - 1) as nat);
        if has_footer(d, s) && footer_section(d, s) < POKEMON_GBA_SECTION_COUNT && footer_index(d, s) == idx {
            m | (1u16 << (footer_section(d, s) as u16))
        } else {
            m
        }
    }
}

/// A flash image with Pokemon footers but no save index whose fourteen
/// sections are all present.
pub open spec fn incomplete_pokemon_spec(d: Seq<u8>) -> bool {
    let n = (d.len() as int) / (GBA_FLASH_SECTOR_SIZE as int);
    &&& d.len() >= GBA_FLASH_SECTOR_SIZE
    &&& exists|s: int| 0 <= s < n && #[trigger] has_footer(d, s)
    &&& forall|s: int|
        0 <= s < n && #[trigger] has_footer(d, s) && footer_section(d, s) < POKEMON_GBA_SECTION_COUNT
            ==> section_mask(d, footer_index(d, s), n as nat) != 0x3FFF
}

/// The little-endian word at `off`.
fn read_le32(d: &[u8], off: usize) -> (v: u32)
    requires
        off + 4 <= d@.len(),
    ensures
        v == le32_at(d@, off as int),
{
    d[off] as u32 + (d[off + 1] as u32) * 256 + (d[off + 2] as u32) * 65536 + (d[off + 3] as u32) * 16777216
}

/// The sections present for save index `idx`, as a bit mask.
fn section_mask_exec(d: &[u8], idx: u32, n: usize) -> (m: u16)
    requires
        n * GBA_FLASH_SECTOR_SIZE <= d@.len(),
        n * GBA_FLASH_SECTOR_SIZE <= usize::MAX,
    ensures
        m == section_mask(d@, idx, n as nat),
{
    let mut m: u16 = 0;
    let mut s: usize = 0;
    while s < n
        invariant
            s <= n,
            n * GBA_FLASH_SECTOR_SIZE <= d@.len(),
            n * GBA_FLASH_SECTOR_SIZE <= usize::MAX,
            m == section_mask(d@, idx, s as nat),
        decreases n - s,
    {
        let f = s * GBA_FLASH_SECTOR_SIZE + GBA_FLASH_SECTOR_SIZE - 12;
        let sig = read_le32(d, f + 4);
        if sig == POKEMON_GBA_SAVE_SIGNATURE {
            let section = d[f] as usize + (d[f + 1] as usize) * 256;
            if section < POKEMON_GBA_SECTION_COUNT && read_le32(d, f + 8) == idx {
                m = m | (1u16 << (section as u16));
            }
        }
        s = s + 1;
    }
    m
}

/// Whether a flash image is a Pokemon save none of whose save indices has
/// all fourteen sections.
pub fn gba_backup_is_incomplete_pokemon_flash_save(data: &[u8]) -> (r: bool)
    ensures
        r == incomplete_pokemon_spec(data@),
{
    if data.len() < GBA_FLASH_SECTOR_SIZE {
        return false;
    }
    let n = data.len() / GBA_FLASH_SECTOR_SIZE;
    let len = data.len();
    assert(n * GBA_FLASH_SECTOR_SIZE <= len) by (nonlinear_arith)
        requires
            n == len / GBA_FLASH_SECTOR_SIZE,
    ;
    let mut has_footer_found = false;
    let mut complete = false;
    let mut s: usize = 0;
    while s < n
        invariant
            s <= n,
            n == (data@.len() as int) / (GBA_FLASH_SECTOR_SIZE as int),
            n * GBA_FLASH_SECTOR_SIZE <= data@.len(),
            n * GBA_FLASH_SECTOR_SIZE <= usize::MAX,
            has_footer_found == exists|t: int| 0 <= t < s && #[trigger] has_footer(data@, t),
            complete == exists|t: int|
                0 <= t < s && #[trigger] has_footer(data@, t) && footer_section(data@, t) < POKEMON_GBA_SECTION_COUNT
                    && section_mask(data@, footer_index(data@, t), n as nat) == 0x3FFF,
        decreases n - s,
    {
        let f = s * GBA_FLASH_SECTOR_SIZE + GBA_FLASH_SECTOR_SIZE - 12;
        if read_le32(data, f + 4) == POKEMON_GBA_SAVE_SIGNATURE {
            has_footer_found = true;
            assert(has_footer(data@, s as int));
            let section = data[f] as usize + (data[f + 1] as usize) * 256;
            if section < POKEMON_GBA_SECTION_COUNT {
                let idx = read_le32(data, f + 8);
                if section_mask_exec(data, idx, n) == 0x3FFF {
                    complete = true;
                }
            }
        }
        s = s + 1;
    }
    has_footer_found && !complete
}

// ---------------------------------------------------------------------------
// Battery backups
// ---------------------------------------------------------------------------

/// The bytes to store for a GBA battery backup: SRAM, flash, or the EEPROM
/// at its size; nothing for a cartridge without one.
pub open spec fn gba_backup_spec(emu: GbaEmulator) -> Option<Seq<u8>> {
    let c = emu.bus.cart@;
    match c.backup_type {
        GbaBackupType::Sram => Some(c.sram),
        GbaBackupType::Flash64k | GbaBackupType::Flash128k => Some(c.flash.data),
        GbaBackupType::Eeprom => Some(c.eeprom.data.subrange(0, eeprom_bytes(c) as int)),
        GbaBackupType::NoBackup => None,
    }
}

/// A copy of a slice.
fn copy_of(s: &[u8]) -> (v: Vec<u8>)
    ensures
        v@ == s@,
{
    let mut v: Vec<u8> = Vec::new();
    let mut i: usize = 0;
    while i < s.len()
        invariant
            i <= s@.len(),
            v@ == s@.subrange(0, i as int),
        decreases s.len() - i,
    {
        v.push(s[i]);
        i = i + 1;
        assert(v@ =~= s@.subrange(0, i as int));
    }
    assert(v@ =~= s@);
    v
}

/// The bytes to store for the emulator's battery backup, if it has one.
pub fn gba_backup_data(emu: &GbaEmulator) -> (r: Option<Vec<u8>>)
    requires
        emu.bus.cart.backup_type == GbaBackupType::Eeprom ==> emu.bus.cart@.eeprom.data.len() >= eeprom_bytes(
            emu.bus.cart@,
        ),
    ensures
        match gba_backup_spec(*emu) {
            Some(d) => r matches Some(v) && v@ == d,
            None => r is None,
        },
{
    match emu.bus.cart.backup_type {
        GbaBackupType::Sram => Some(copy_of(emu.bus.cart.sram.as_slice())),
        GbaBackupType::Flash64k | GbaBackupType::Flash128k => Some(copy_of(emu.bus.cart.flash.as_slice())),
        GbaBackupType::Eeprom => {
            let size = emu.bus.cart.eeprom_size();
            Some(copy_of(vstd::slice::slice_subrange(emu.bus.cart.eeprom.as_slice(), 0, size)))
        },
        GbaBackupType::NoBackup => None,
    }
}

/// The EEPROM address width chosen for a save file of `len` bytes: the
/// width the game forces, else 14 bits for files over 512 bytes, 6 bits
/// otherwise.
pub open spec fn eeprom_load_addr_len(rom: Seq<u8>, len: nat) -> u8 {
    match crate::cartridge::gba::forced_addr_len(rom) {
        Some(l) => l,
        None => if len > 0x200 {
            14u8
        } else {
            6u8
        },
    }
}

/// The EEPROM bytes a save file of `len` bytes is loaded into.
pub open spec fn eeprom_load_size(rom: Seq<u8>, len: nat) -> nat {
    if eeprom_load_addr_len(rom, len) == 14 {
        0x2000
    } else {
        0x200
    }
}

/// `target` with the first bytes of `data` copied in (as many as fit).
pub open spec fn overlay(target: Seq<u8>, data: Seq<u8>) -> Seq<u8> {
    let n = if data.len() < target.len() {
        data.len()
    } else {
        target.len()
    };
    data.subrange(0, n as int) + target.subrange(n as int, target.len() as int)
}

/// Copies the start of `data` over `target`.
fn overlay_exec(target: &mut Vec<u8>, data: &[u8], limit: usize)
    requires
        limit <= old(target)@.len(),
    ensures
        final(target)@ == overlay(old(target)@.subrange(0, limit as int), data@) + old(target)@.subrange(
            limit as int,
            old(target)@.len() as int,
        ),
{
    let n = if data.len() < limit {
        data.len()
    } else {
        limit
    };
    let ghost t0 = target@;
    let mut i: usize = 0;
    while i < n
        invariant
            i <= n,
            n <= limit,
            n <= data@.len(),
            limit <= t0.len(),
            target@.len() == t0.len(),
            forall|j: int| 0 <= j < i ==> target@[j] == data@[j],
            forall|j: int| i <= j < t0.len() ==> target@[j] == t0[j],
        decreases n - i,
    {
        target.set(i, data[i]);
        i = i + 1;
    }
    assert(target@ =~= overlay(t0.subrange(0, limit as int), data@) + t0.subrange(limit as int, t0.len() as int));
}

impl GbaEmulator {
    /// Loads a battery backup read from disk: an incomplete legacy Pokemon
    /// flash save is ignored; otherwise the data is copied over the save
    /// memory, and for EEPROM the address width is first chosen (forced by
    /// the game, else from the file size). Returns whether it was loaded.
    #[verifier::spinoff_prover]
    #[verifier::rlimit(80)]
    pub fn load_backup_data(&mut self, data: &[u8]) -> (loaded: bool)
        requires
            old(self).bus.cart.backup_type == GbaBackupType::Eeprom ==> old(self).bus.cart@.eeprom.data.len()
                >= eeprom_load_size(old(self).bus.cart@.rom, data@.len()),
        ensures
            loaded == (old(self).bus.cart.backup_type != GbaBackupType::NoBackup && !(old(self).bus.cart.backup_type
                == GbaBackupType::Flash128k && incomplete_pokemon_spec(data@))),
            !loaded ==> *final(self) == *old(self),
            final(self).cpu == old(self).cpu,
            final(self).frame_cycles == old(self).frame_cycles,
            final(self).total_frames == old(self).total_frames,
            final(self).repair_legacy_palette_state == old(self).repair_legacy_palette_state,
            final(self).bus@ == (crate::memory::gba_bus::GbaBusView { cart: final(self).bus.cart@, ..old(self).bus@ }),
            final(self).bus.ppu.framebuffer@ == old(self).bus.ppu.framebuffer@,
            loaded && old(self).bus.cart.backup_type == GbaBackupType::Sram ==> final(self).bus.cart@ == (GbaCartView {
                sram: overlay(old(self).bus.cart@.sram, data@),
                ..old(self).bus.cart@
            }),
            loaded && (old(self).bus.cart.backup_type == GbaBackupType::Flash64k || old(self).bus.cart.backup_type
                == GbaBackupType::Flash128k) ==> final(self).bus.cart@ == (GbaCartView {
                flash: FlashView { data: overlay(old(self).bus.cart@.flash.data, data@), ..old(self).bus.cart@.flash },
                ..old(self).bus.cart@
            }),
            loaded && old(self).bus.cart.backup_type == GbaBackupType::Eeprom ==> {
                let size = eeprom_load_size(old(self).bus.cart@.rom, data@.len()) as int;
                let old_e = old(self).bus.cart@.eeprom;
                final(self).bus.cart@ == (GbaCartView {
                    eeprom: EepromView {
                        addr_len: eeprom_load_addr_len(old(self).bus.cart@.rom, data@.len()),
                        data: overlay(old_e.data.subrange(0, size), data@) + old_e.data.subrange(
                            size,
                            old_e.data.len() as int,
                        ),
                        ..old_e
                    },
                    ..old(self).bus.cart@
                })
            },
    {
        if self.bus.cart.backup_type == GbaBackupType::Flash128k && gba_backup_is_incomplete_pokemon_flash_save(data) {
            return false;
        }
        match self.bus.cart.backup_type {
            GbaBackupType::Sram => {
                let limit = self.bus.cart.sram.len();
                overlay_exec(&mut self.bus.cart.sram, data, limit);
                assert(self.bus.cart.sram@ =~= overlay(old(self).bus.cart@.sram, data@));
                assert(self.bus.cart@ =~~= (GbaCartView { sram: overlay(old(self).bus.cart@.sram, data@), ..old(self).bus.cart@ }));
                true
            },
            GbaBackupType::Flash64k | GbaBackupType::Flash128k => {
                let limit = self.bus.cart.flash.len();
                overlay_exec(&mut self.bus.cart.flash, data, limit);
                assert(self.bus.cart.flash@ =~= overlay(old(self).bus.cart@.flash.data, data@));
                assert(self.bus.cart@ =~~= (GbaCartView {
                    flash: FlashView { data: overlay(old(self).bus.cart@.flash.data, data@), ..old(self).bus.cart@.flash },
                    ..old(self).bus.cart@
                }));
                true
            },
            GbaBackupType::Eeprom => {
                let len = match self.bus.cart.forced_eeprom_addr_len() {
                    Some(l) => l,
                    None => if data.len() > 0x200 {
                        14
                    } else {
                        6
                    },
                };
                self.bus.cart.eeprom_addr_len = len;
                let size = self.bus.cart.eeprom_size();
                overlay_exec(&mut self.bus.cart.eeprom, data, size);
                assert(self.bus.cart@ =~~= (GbaCartView {
                    eeprom: EepromView {
                        addr_len: eeprom_load_addr_len(old(self).bus.cart@.rom, data@.len()),
                        data: overlay(old(self).bus.cart@.eeprom.data.subrange(0, size as int), data@)
                            + old(self).bus.cart@.eeprom.data.subrange(size as int, old(self).bus.cart@.eeprom.data.len() as int),
                        ..old(self).bus.cart@.eeprom
                    },
                    ..old(self).bus.cart@
                }));
                true
            },
            GbaBackupType::NoBackup => false,
        }
    }
}

impl GbcEmulator {
    /// The bytes to store for the cartridge's battery RAM, if it has any.
    pub fn sram_backup_data(&self) -> (r: Option<Vec<u8>>)
        ensures
            r matches Some(v) ==> v@ == self.bus.cart.ram@,
            r is Some <==> (crate::cartridge::battery_backed(self.bus.cart.cart_type) && self.bus.cart.ram@.len()
                > 0),
    {
        if self.bus.cart.cart_type.has_battery() && self.bus.cart.ram.len() > 0 {
            Some(copy_of(self.bus.cart.ram.as_slice()))
        } else {
            None
        }
    }

    /// Copies battery RAM read from disk over the cartridge RAM (as much as
    /// fits), when the cartridge has a battery; returns whether it did.
    pub fn load_sram_data(&mut self, data: &[u8]) -> (loaded: bool)
        ensures
            loaded == crate::cartridge::battery_backed(old(self).bus.cart.cart_type),
            loaded ==> final(self).bus.cart.ram@ == overlay(old(self).bus.cart.ram@, data@),
            !loaded ==> final(self).bus.cart.ram@ == old(self).bus.cart.ram@,
            final(self).cpu == old(self).cpu,
    {
        if !self.bus.cart.cart_type.has_battery() {
            return false;
        }
        let limit = self.bus.cart.ram.len();
        overlay_exec(&mut self.bus.cart.ram, data, limit);
        assert(self.bus.cart.ram@ =~= overlay(old(self).bus.cart.ram@, data@));
        true
    }
}

} // verus!
