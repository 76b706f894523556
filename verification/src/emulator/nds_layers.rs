use vstd::prelude::*;

use crate::emulator::nds::{
    obj_size, obj_size_spec, OBJ_1D_MAPPING_BIT, OBJ_ENABLE_BIT,
    apply_master_brightness, bg_kind, bg_kind_spec, color_at, master_brightness_spec, nds_emu_wf, read_color_16,
    rgb555_to_argb, rgb555_to_argb_spec, sample_3d_pixel, sample_3d_spec, supports_2d_layer_render, supports_2d_spec,
    NdsBgKind, NdsEmulator, ENABLE_3D_BIT, NDS_SCREEN_HEIGHT, NDS_SCREEN_PIXELS,
};
use crate::NDS_WIDTH;

verus! {

/// The palette colour at byte `entry`, when the whole entry lies inside the
/// palette.
pub open spec fn palette_color(palette: Seq<u8>, entry: int) -> Option<u16> {
    if entry + 1 < palette.len() {
        Some(color_at(palette, entry))
    } else {
        None
    }
}

/// The palette colour at byte `entry`, when it lies inside the palette.
fn palette_entry(palette: &[u8], entry: usize) -> (c: Option<u16>)
    ensures
        c == palette_color(palette@, entry as int),
{
    if entry >= palette.len() || palette.len() - entry <= 1 {
        None
    } else {
        Some(read_color_16(palette, entry))
    }
}

/// A text background's map in tiles (width, height): 32 or 64 each, from
/// BGCNT bits 14-15.
pub open spec fn text_map_size(bgcnt: u16) -> (int, int) {
    let s = (bgcnt >> 14u16) & 3;
    (if s == 1 || s == 3 { 64 } else { 32 }, if s >= 2 { 64 } else { 32 })
}

/// A text background's colour at screen pixel (`px`, `line`): the map
/// entry of the scrolled position (in 32x32-tile screen blocks), its tile's
/// pixel (flipped as the entry says, 16 or 256 colours), and the palette
/// colour; `None` for colour 0 or anything outside VRAM or the palette.
pub open spec fn text_bg_pixel_spec(
    vram: Seq<u8>,
    palette: Seq<u8>,
    palette_offset: int,
    bgcnt: u16,
    hofs: u16,
    vofs: u16,
    px: int,
    line: int,
) -> Option<u16> {
    let char_base = ((bgcnt >> 2u16) & 0xF) as int * 0x4000;
    let screen_base = ((bgcnt >> 8u16) & 0x1F) as int * 0x800;
    let (map_w, map_h) = text_map_size(bgcnt);
    let x = (px + hofs) % (map_w * 8);
    let y = (line + vofs) % (map_h * 8);
    let tile_x = x / 8;
    let tile_y = y / 8;
    let block = (if tile_x >= 32 { 1int } else { 0int }) + (if tile_y >= 32 {
        if map_w == 64 {
            2int
        } else {
            1int
        }
    } else {
        0int
    });
    let map_offset = screen_base + block * 0x800 + ((tile_y % 32) * 32 + tile_x % 32) * 2;
    if map_offset + 1 >= vram.len() {
        None
    } else {
        let entry = color_at(vram, map_offset);
        let tile = (entry & 0x3FF) as int;
        let ty = if entry & 0x800 != 0 { 7 - y % 8 } else { y % 8 };
        let tx = if entry & 0x400 != 0 { 7 - x % 8 } else { x % 8 };
        if bgcnt & 0x80 != 0 {
            let off = char_base + tile * 64 + ty * 8 + tx;
            if off >= vram.len() || vram[off] == 0 {
                None
            } else {
                palette_color(palette, palette_offset + vram[off] * 2)
            }
        } else {
            let off = char_base + tile * 32 + ty * 4 + tx / 2;
            if off >= vram.len() {
                None
            } else {
                let idx = if tx % 2 == 0 { vram[off] & 0x0F } else { vram[off] >> 4u8 };
                if idx == 0 {
                    None
                } else {
                    palette_color(palette, palette_offset + (((entry >> 12u16) & 0xF) as int * 16 + idx) * 2)
                }
            }
        }
    }
}

/// The colour of a text background at screen pixel (`px`, `screen_line`).
#[verifier::spinoff_prover]
#[verifier::rlimit(80)]
pub fn sample_text_bg_pixel(
    vram: &[u8],
    palette: &[u8],
    palette_offset: usize,
    bgcnt: u16,
    bghofs: u16,
    bgvofs: u16,
    px: usize,
    screen_line: usize,
) -> (c: Option<u16>)
    requires
        px + bghofs <= usize::MAX,
        screen_line + bgvofs <= usize::MAX,
        palette_offset + 0x200 <= usize::MAX,
    ensures
        c == text_bg_pixel_spec(
            vram@,
            palette@,
            palette_offset as int,
            bgcnt,
            bghofs,
            bgvofs,
            px as int,
            screen_line as int,
        ),
{
    proof {
        crate::bits::lemma_and_le_u16(bgcnt >> 2u16, 0xF);
        crate::bits::lemma_and_le_u16(bgcnt >> 8u16, 0x1F);
        crate::bits::lemma_and_le_u16(bgcnt >> 14u16, 3);
    }
    let char_base = ((bgcnt >> 2u16) & 0xF) as usize * 0x4000;
    let screen_base = ((bgcnt >> 8u16) & 0x1F) as usize * 0x800;
    let size = (bgcnt >> 14u16) & 3;
    let map_w: usize = if size == 1 || size == 3 { 64 } else { 32 };
    let map_h: usize = if size >= 2 { 64 } else { 32 };
    let x = (px + bghofs as usize) % (map_w * 8);
    let y = (screen_line + bgvofs as usize) % (map_h * 8);
    let tile_x = x / 8;
    let tile_y = y / 8;
    let fine_x = x % 8;
    let fine_y = y % 8;
    let mut screen_block: usize = 0;
    if tile_x >= 32 {
        screen_block = screen_block + 1;
    }
    if tile_y >= 32 {
        screen_block = screen_block + if map_w == 64 { 2 } else { 1 };
    }
    let map_offset = screen_base + screen_block * 0x800 + ((tile_y % 32) * 32 + tile_x % 32) * 2;
    if map_offset + 1 >= vram.len() {
        return None;
    }
    let entry = read_color_16(vram, map_offset);
    proof {
        crate::bits::lemma_and_le_u16(entry, 0x3FF);
        crate::bits::lemma_and_le_u16(entry >> 12u16, 0xF);
    }
    let tile_num = (entry & 0x03FF) as usize;
    let h_flip = entry & 0x0400 != 0;
    let v_flip = entry & 0x0800 != 0;
    let palette_bank = ((entry >> 12u16) & 0xF) as usize;
    let ty = if v_flip { 7 - fine_y } else { fine_y };
    let tx = if h_flip { 7 - fine_x } else { fine_x };
    if bgcnt & 0x0080 != 0 {
        let tile_offset = char_base + tile_num * 64 + ty * 8 + tx;
        if tile_offset >= vram.len() {
            return None;
        }
        let palette_index = vram[tile_offset] as usize;
        if palette_index == 0 {
            return None;
        }
        palette_entry(palette, palette_offset + palette_index * 2)
    } else {
        let tile_offset = char_base + tile_num * 32 + ty * 4 + tx / 2;
        if tile_offset >= vram.len() {
            return None;
        }
        let packed = vram[tile_offset];
        proof {
            crate::bits::lemma_u8_fields(packed);
        }
        let palette_index = (if tx % 2 == 0 { packed & 0x0F } else { packed >> 4u8 }) as usize;
        if palette_index == 0 {
            return None;
        }
        palette_entry(palette, palette_offset + (palette_bank * 16 + palette_index) * 2)
    }
}

/// A background layer to draw: its number and kind.
#[derive(Debug, Clone, Copy, PartialEq, Eq, Structural)]
pub struct NdsBgLayer {
    pub bg: usize,
    pub kind: NdsBgKind,
}

/// Candidate `k` (0-15) in drawing order, priority `k / 4` and background
/// `k % 4`: the layer when that background is enabled (DISPCNT bits 8-11),
/// exists in the BG mode, and has that priority (BGCNT bits 0-1).
pub open spec fn layer_at(dispcnt: u32, bgcnt: [u16; 4], main_3d_framebuffer: bool, k: int) -> Option<NdsBgLayer> {
    let bg = k % 4;
    let main_3d = main_3d_framebuffer && dispcnt & ENABLE_3D_BIT != 0;
    match bg_kind_spec((dispcnt & 7) as u8, bg as usize, bgcnt[bg], main_3d) {
        Some(kind) => if dispcnt & (0x100u32 << (bg as u32)) != 0 && (bgcnt[bg] & 3) as int == k / 4 {
            Some(NdsBgLayer { bg: bg as usize, kind })
        } else {
            None
        },
        None => None,
    }
}

/// The layers among the first `k` candidates, in order.
pub open spec fn active_layers_upto(dispcnt: u32, bgcnt: [u16; 4], main_3d_framebuffer: bool, k: nat) -> Seq<
    NdsBgLayer,
>
    decreases k,
{
    if k == 0 {
        Seq::empty()
    } else {
        let prev = active_layers_upto(dispcnt, bgcnt, main_3d_framebuffer, (k - 1) as nat);
        match layer_at(dispcnt, bgcnt, main_3d_framebuffer, k - 1) {
            Some(l) => prev.push(l),
            None => prev,
        }
    }
}

/// The enabled backgrounds of the BG mode (BG0 the 3D surface when 3D is
/// on and a surface is given), in drawing order: by priority, then by
/// number.
pub fn active_2d_bgs(dispcnt: u32, bgcnt: [u16; 4], main_3d_framebuffer: bool) -> (v: Vec<NdsBgLayer>)
    ensures
        v@ == active_layers_upto(dispcnt, bgcnt, main_3d_framebuffer, 16),
{
    let bg_mode = (dispcnt & 0x7) as u8;
    let main_3d = main_3d_framebuffer && dispcnt & ENABLE_3D_BIT != 0;
    let mut active: Vec<NdsBgLayer> = Vec::new();
    let mut k: usize = 0;
    while k < 16
        invariant
            k <= 16,
            bg_mode == (dispcnt & 7) as u8,
            main_3d == (main_3d_framebuffer && dispcnt & ENABLE_3D_BIT != 0),
            active@ == active_layers_upto(dispcnt, bgcnt, main_3d_framebuffer, k as nat),
        decreases 16 - k,
    {
        let bg = k % 4;
        let prio = k / 4;
        let enabled = dispcnt & (0x100u32 << (bg as u32)) != 0;
        match bg_kind(bg_mode, bg, bgcnt[bg], main_3d) {
            Some(kind) => {
                if enabled && (bgcnt[bg] & 3) as usize == prio {
                    active.push(NdsBgLayer { bg, kind });
                }
            },
            None => {},
        }
        k = k + 1;
    }
    active
}

/// The background registers of one engine.
pub struct NdsBgRegs {
    pub dispcnt: u32,
    pub bgcnt: [u16; 4],
    pub bghofs: [u16; 4],
    pub bgvofs: [u16; 4],
    pub bg_pa: [i16; 2],
    pub bg_pb: [i16; 2],
    pub bg_pc: [i16; 2],
    pub bg_pd: [i16; 2],
    pub bg_ref_x: [i32; 2],
    pub bg_ref_y: [i32; 2],
}

/// Layer `l`'s colour at screen pixel (`px`, `line`), if it is opaque there.
#[verifier::opaque]
pub open spec fn layer_color(
    vram: Seq<u8>,
    palette: Seq<u8>,
    pofs: int,
    surface: Option<Seq<u16>>,
    r: NdsBgRegs,
    l: NdsBgLayer,
    px: int,
    line: int,
) -> Option<u16> {
    let b = l.bg as int;
    match l.kind {
        NdsBgKind::ThreeD => match surface {
            Some(s) => sample_3d_spec(s, px, line),
            None => None,
        },
        NdsBgKind::Text => text_bg_pixel_spec(vram, palette, pofs, r.bgcnt[b], r.bghofs[b], r.bgvofs[b], px, line),
        NdsBgKind::Affine => affine_bg_pixel_spec(
            vram,
            palette,
            pofs,
            r.bgcnt[b],
            r.bg_pa[b - 2],
            r.bg_pb[b - 2],
            r.bg_pc[b - 2],
            r.bg_pd[b - 2],
            r.bg_ref_x[b - 2],
            r.bg_ref_y[b - 2],
            px,
            line,
        ),
        _ => bitmap_bg_pixel_spec(
            vram,
            palette,
            pofs,
            r.bgcnt[b],
            r.bg_pa[b - 2],
            r.bg_pb[b - 2],
            r.bg_pc[b - 2],
            r.bg_pd[b - 2],
            r.bg_ref_x[b - 2],
            r.bg_ref_y[b - 2],
            px,
            line,
            l.kind == NdsBgKind::Bitmap16,
        ),
    }
}

/// The first of `layers` opaque at (`px`, `line`): its colour and number.
pub open spec fn first_hit(
    vram: Seq<u8>,
    palette: Seq<u8>,
    pofs: int,
    surface: Option<Seq<u16>>,
    r: NdsBgRegs,
    layers: Seq<NdsBgLayer>,
    px: int,
    line: int,
) -> Option<(u16, usize)>
    decreases layers.len(),
{
    if layers.len() == 0 {
        None
    } else {
        match layer_color(vram, palette, pofs, surface, r, layers[0], px, line) {
            Some(c) => Some((c, layers[0].bg)),
            None => first_hit(vram, palette, pofs, surface, r, layers.drop_first(), px, line),
        }
    }
}

/// The layers are background numbers 0-3; the affine and bitmap ones are
/// BG2 or BG3; a 3D layer only comes with a surface.
pub open spec fn layers_ok(layers: Seq<NdsBgLayer>, has_surface: bool) -> bool {
    forall|i: int|
        0 <= i < layers.len() ==> {
            &&& #[trigger] layers[i].bg < 4
            &&& (layers[i].kind != NdsBgKind::ThreeD && layers[i].kind != NdsBgKind::Text) ==> layers[i].bg >= 2
            &&& layers[i].kind == NdsBgKind::ThreeD ==> has_surface
        }
}

/// The coordinates of affine parameter set `j` are computed without
/// overflow at every screen pixel.
pub open spec fn affine_fits_screen(r: NdsBgRegs, j: int) -> bool {
    forall|px: int, line: int|
        0 <= px < NDS_WIDTH && 0 <= line < NDS_SCREEN_HEIGHT ==> #[trigger] affine_sum_fits(
            r.bg_ref_x[j],
            r.bg_pa[j],
            r.bg_pb[j],
            px,
            line,
        ) && affine_sum_fits(r.bg_ref_y[j], r.bg_pc[j], r.bg_pd[j], px, line)
}

/// The affine and bitmap layers' coordinates are computed without overflow
/// at every screen pixel.
pub open spec fn layers_fit(r: NdsBgRegs, layers: Seq<NdsBgLayer>) -> bool {
    forall|i: int|
        0 <= i < layers.len() && layers[i].kind != NdsBgKind::ThreeD && layers[i].kind != NdsBgKind::Text
            ==> affine_fits_screen(r, #[trigger] layers[i].bg - 2)
}

proof fn lemma_layers_ok(dispcnt: u32, bgcnt: [u16; 4], main_3d_framebuffer: bool, k: nat)
    ensures
        layers_ok(active_layers_upto(dispcnt, bgcnt, main_3d_framebuffer, k), main_3d_framebuffer),
    decreases k,
{
    if k > 0 {
        lemma_layers_ok(dispcnt, bgcnt, main_3d_framebuffer, (k - 1) as nat);
        let prev = active_layers_upto(dispcnt, bgcnt, main_3d_framebuffer, (k - 1) as nat);
        let bg = (k - 1) % 4;
        match layer_at(dispcnt, bgcnt, main_3d_framebuffer, k - 1) {
            Some(l) => {
                assert(l.bg == bg && 0 <= bg < 4);
                assert((l.kind != NdsBgKind::ThreeD && l.kind != NdsBgKind::Text) ==> l.bg >= 2);
                assert(l.kind == NdsBgKind::ThreeD ==> main_3d_framebuffer);
                let next = prev.push(l);
                assert forall|i: int| 0 <= i < next.len() implies {
                    &&& #[trigger] next[i].bg < 4
                    &&& (next[i].kind != NdsBgKind::ThreeD && next[i].kind != NdsBgKind::Text) ==> next[i].bg >= 2
                    &&& next[i].kind == NdsBgKind::ThreeD ==> main_3d_framebuffer
                } by {
                    if i < prev.len() {
                        assert(next[i] == prev[i]);
                        assert(prev[i].bg < 4);
                    } else {
                        assert(next[i] == l);
                    }
                }
            },
            None => {},
        }
    }
}

/// The colour of screen pixel `j` (row-major within the screen) after the
/// layers are drawn over the backdrop, as ARGB.
pub open spec fn bg_screen_pixel(
    vram: Seq<u8>,
    palette: Seq<u8>,
    pofs: int,
    surface: Option<Seq<u16>>,
    r: NdsBgRegs,
    master_bright: u16,
    j: int,
) -> u32 {
    let layers = active_layers_upto(r.dispcnt, r.bgcnt, surface is Some, 16);
    match first_hit(vram, palette, pofs, surface, r, layers, j % NDS_WIDTH as int, j / NDS_WIDTH as int) {
        Some((c, _)) => rgb555_to_argb_spec(master_brightness_spec(c, master_bright)),
        None => rgb555_to_argb_spec(master_brightness_spec(color_at(palette, pofs), master_bright)),
    }
}

/// The priority recorded for screen pixel `j`: the drawn layer's BGCNT
/// priority, 4 where the backdrop shows.
pub open spec fn bg_screen_priority(
    vram: Seq<u8>,
    palette: Seq<u8>,
    pofs: int,
    surface: Option<Seq<u16>>,
    r: NdsBgRegs,
    j: int,
) -> u8 {
    let layers = active_layers_upto(r.dispcnt, r.bgcnt, surface is Some, 16);
    match first_hit(vram, palette, pofs, surface, r, layers, j % NDS_WIDTH as int, j / NDS_WIDTH as int) {
        Some((_, bg)) => (r.bgcnt[bg as int] & 3) as u8,
        None => 4,
    }
}

/// Whether the layer renderer draws: a supported mode with an active
/// layer, some VRAM, and the backdrop colour inside the palette.
pub open spec fn bg_render_draws(vram: Seq<u8>, palette: Seq<u8>, pofs: int, has_surface: bool, r: NdsBgRegs) -> bool {
    &&& supports_2d_spec(r.dispcnt)
    &&& active_layers_upto(r.dispcnt, r.bgcnt, has_surface, 16).len() > 0
    &&& vram.len() > 0
    &&& pofs + 1 < palette.len()
}

/// Layer `layer`'s colour at (`px`, `line`), if it is opaque there.
#[verifier::spinoff_prover]
#[verifier::rlimit(60)]
fn layer_pixel(
    vram: &[u8],
    palette: &[u8],
    palette_offset: usize,
    surface: Option<&[u16]>,
    r: &NdsBgRegs,
    layer: NdsBgLayer,
    px: usize,
    line: usize,
) -> (color: Option<u16>)
    requires
        px < NDS_WIDTH,
        line < NDS_SCREEN_HEIGHT,
        palette_offset + 0x200 <= usize::MAX,
        layer.bg < 4,
        (layer.kind != NdsBgKind::ThreeD && layer.kind != NdsBgKind::Text) ==> layer.bg >= 2 && affine_fits_screen(
            *r,
            layer.bg - 2,
        ),
    ensures
        color == layer_color(
            vram@,
            palette@,
            palette_offset as int,
            match surface {
                Some(s) => Some(s@),
                None => None,
            },
            *r,
            layer,
            px as int,
            line as int,
        ),
{
    reveal(layer_color);
    let b = layer.bg;
    match layer.kind {
            NdsBgKind::ThreeD => match surface {
                Some(s) => sample_3d_pixel(s, px, line),
                None => None,
            },
            NdsBgKind::Text => sample_text_bg_pixel(vram, palette, palette_offset, r.bgcnt[b], r.bghofs[b], r.bgvofs[b], px, line),
            NdsBgKind::Affine => {
                let j = b - 2;
                assert(affine_sum_fits(r.bg_ref_x[j as int], r.bg_pa[j as int], r.bg_pb[j as int], px as int, line as int));
                sample_affine_bg_pixel(
                    vram,
                    palette,
                    palette_offset,
                    r.bgcnt[b],
                    r.bg_pa[j],
                    r.bg_pb[j],
                    r.bg_pc[j],
                    r.bg_pd[j],
                    r.bg_ref_x[j],
                    r.bg_ref_y[j],
                    px,
                    line,
                )
            },
            _ => {
                let j = b - 2;
                assert(affine_sum_fits(r.bg_ref_x[j as int], r.bg_pa[j as int], r.bg_pb[j as int], px as int, line as int));
                sample_bitmap_bg_pixel(
                    vram,
                    palette,
                    palette_offset,
                    r.bgcnt[b],
                    r.bg_pa[j],
                    r.bg_pb[j],
                    r.bg_pc[j],
                    r.bg_pd[j],
                    r.bg_ref_x[j],
                    r.bg_ref_y[j],
                    px,
                    line,
                    layer.kind == NdsBgKind::Bitmap16,
                )
            },
        }
}

/// The first of `layers` opaque at (`px`, `line`).
#[verifier::spinoff_prover]
#[verifier::rlimit(60)]
fn first_layer_hit(
    vram: &[u8],
    palette: &[u8],
    palette_offset: usize,
    surface: Option<&[u16]>,
    r: &NdsBgRegs,
    layers: &Vec<NdsBgLayer>,
    px: usize,
    line: usize,
) -> (h: Option<(u16, usize)>)
    requires
        px < NDS_WIDTH,
        line < NDS_SCREEN_HEIGHT,
        palette_offset + 0x200 <= usize::MAX,
        layers_ok(layers@, surface is Some),
        layers_fit(*r, layers@),
    ensures
        h == first_hit(
            vram@,
            palette@,
            palette_offset as int,
            match surface {
                Some(s) => Some(s@),
                None => None,
            },
            *r,
            layers@,
            px as int,
            line as int,
        ),
        h matches Some((_, b)) ==> b < 4,
{
    let ghost sf = match surface {
        Some(s) => Some(s@),
        None => None,
    };
    let mut k: usize = 0;
    assert(layers@.subrange(0, layers@.len() as int) =~= layers@);
    while k < layers.len()
        invariant
            k <= layers@.len(),
            px < NDS_WIDTH,
            line < NDS_SCREEN_HEIGHT,
            palette_offset + 0x200 <= usize::MAX,
            layers_ok(layers@, surface is Some),
            layers_fit(*r, layers@),
            sf == match surface {
                Some(s) => Some(s@),
                None => None,
            },
            first_hit(vram@, palette@, palette_offset as int, sf, *r, layers@, px as int, line as int) == first_hit(
                vram@,
                palette@,
                palette_offset as int,
                sf,
                *r,
                layers@.subrange(k as int, layers@.len() as int),
                px as int,
                line as int,
            ),
        decreases layers.len() - k,
    {
        let layer = layers[k];
        let ghost rest = layers@.subrange(k as int, layers@.len() as int);
        assert(rest[0] == layer);
        assert(rest.drop_first() =~= layers@.subrange(k + 1, layers@.len() as int));
        assert(layer.bg < 4);
        assert(layers@[k as int] == layer);
        let b = layer.bg;
        let color = layer_pixel(vram, palette, palette_offset, surface, r, layer, px, line);
        assert(color == layer_color(vram@, palette@, palette_offset as int, sf, *r, layer, px as int, line as int));
        assert(first_hit(vram@, palette@, palette_offset as int, sf, *r, rest, px as int, line as int) == match color {
            Some(c) => Some((c, layer.bg)),
            None => first_hit(vram@, palette@, palette_offset as int, sf, *r, rest.drop_first(), px as int, line as int),
        });
        if let Some(c) = color {
            return Some((c, b));
        }
        k = k + 1;
    }
    None
}

/// The drawn colour and recorded priority of screen pixel (`px`, `line`).
#[verifier::spinoff_prover]
#[verifier::rlimit(40)]
fn bg_pixel(
    vram: &[u8],
    palette: &[u8],
    palette_offset: usize,
    surface: Option<&[u16]>,
    r: &NdsBgRegs,
    layers: &Vec<NdsBgLayer>,
    backdrop: u32,
    master_bright: u16,
    px: usize,
    line: usize,
) -> (cp: (u32, u8))
    requires
        px < NDS_WIDTH,
        line < NDS_SCREEN_HEIGHT,
        palette_offset + 0x200 <= usize::MAX,
        layers@ == active_layers_upto(r.dispcnt, r.bgcnt, surface is Some, 16),
        layers_ok(layers@, surface is Some),
        layers_fit(*r, layers@),
        backdrop == rgb555_to_argb_spec(master_brightness_spec(color_at(palette@, palette_offset as int), master_bright)),
    ensures
        ({
            let sf = match surface {
                Some(s) => Some(s@),
                None => None,
            };
            let j = line * NDS_WIDTH + px;
            &&& cp.0 == bg_screen_pixel(vram@, palette@, palette_offset as int, sf, *r, master_bright, j)
            &&& cp.1 == bg_screen_priority(vram@, palette@, palette_offset as int, sf, *r, j)
        }),
{
    let ghost sf = match surface {
        Some(s) => Some(s@),
        None => None,
    };
    let ghost j = line * NDS_WIDTH + px;
    assert(j % (NDS_WIDTH as int) == px && j / (NDS_WIDTH as int) == line) by {
        vstd::arithmetic::div_mod::lemma_fundamental_div_mod_converse(j, NDS_WIDTH as int, line as int, px as int);
    }
    assert(sf is Some <==> surface is Some);
    let hit = first_layer_hit(vram, palette, palette_offset, surface, r, layers, px, line);
    match hit {
        Some((c, b)) => (rgb555_to_argb(apply_master_brightness(c, master_bright)), (r.bgcnt[b] & 3) as u8),
        None => (backdrop, 4),
    }
}

impl NdsEmulator {
    /// Draws an engine's background layers over its backdrop (palette
    /// entry 0) into the screen at row `screen_y`, each pixel from the
    /// first opaque layer in drawing order, and records each pixel's layer
    /// priority (4 for the backdrop) in `priority_buffer`. Returns false,
    /// drawing nothing, when the mode is not handled, no layer is active,
    /// VRAM is empty, or the backdrop lies outside the palette.
    #[verifier::spinoff_prover]
    #[verifier::rlimit(60)]
    pub fn render_bg_layers(
        &mut self,
        screen_y: usize,
        vram: &[u8],
        palette_offset: usize,
        main_3d_framebuffer: Option<&[u16]>,
        dispcnt: u32,
        bgcnt: [u16; 4],
        bghofs: [u16; 4],
        bgvofs: [u16; 4],
        bg_pa: [i16; 2],
        bg_pb: [i16; 2],
        bg_pc: [i16; 2],
        bg_pd: [i16; 2],
        bg_ref_x: [i32; 2],
        bg_ref_y: [i32; 2],
        master_bright: u16,
        priority_buffer: &mut Vec<u8>,
    ) -> (drawn: bool)
        requires
            nds_emu_wf(*old(self)),
            screen_y <= NDS_SCREEN_HEIGHT,
            palette_offset + 0x200 <= usize::MAX,
            ({
                let r = NdsBgRegs { dispcnt, bgcnt, bghofs, bgvofs, bg_pa, bg_pb, bg_pc, bg_pd, bg_ref_x, bg_ref_y };
                bg_render_draws(vram@, old(self).bus.memory.palette@, palette_offset as int, main_3d_framebuffer is Some, r)
                    ==> old(priority_buffer)@.len() >= NDS_SCREEN_PIXELS && layers_fit(
                    r,
                    active_layers_upto(dispcnt, bgcnt, main_3d_framebuffer is Some, 16),
                )
            }),
        ensures
            ({
                let r = NdsBgRegs { dispcnt, bgcnt, bghofs, bgvofs, bg_pa, bg_pb, bg_pc, bg_pd, bg_ref_x, bg_ref_y };
                let palette = old(self).bus.memory.palette@;
                let sf = match main_3d_framebuffer {
                    Some(s) => Some(s@),
                    None => None,
                };
                let base = screen_y * NDS_WIDTH;
                &&& drawn == bg_render_draws(vram@, palette, palette_offset as int, main_3d_framebuffer is Some, r)
                &&& !drawn ==> final(self).framebuffer@ == old(self).framebuffer@ && final(priority_buffer)@ == old(
                    priority_buffer,
                )@
                &&& drawn ==> final(self).framebuffer@ == Seq::new(
                    old(self).framebuffer@.len(),
                    |i: int|
                        if base <= i < base + NDS_SCREEN_PIXELS {
                            bg_screen_pixel(vram@, palette, palette_offset as int, sf, r, master_bright, i - base)
                        } else {
                            old(self).framebuffer@[i]
                        },
                )
                &&& drawn ==> final(priority_buffer)@ == Seq::new(
                    old(priority_buffer)@.len(),
                    |i: int|
                        if i < NDS_SCREEN_PIXELS {
                            bg_screen_priority(vram@, palette, palette_offset as int, sf, r, i)
                        } else {
                            4u8
                        },
                )
            }),
            nds_emu_wf(*final(self)),
            final(self).bus == old(self).bus,
            final(self).header == old(self).header,
            final(self).arm7 == old(self).arm7,
            final(self).arm9 == old(self).arm9,
            final(self).main_3d_framebuffer == old(self).main_3d_framebuffer,
            final(self).ppu_main == old(self).ppu_main,
            final(self).ppu_sub == old(self).ppu_sub,
            final(self).total_frames == old(self).total_frames,
    {
        let r = NdsBgRegs { dispcnt, bgcnt, bghofs, bgvofs, bg_pa, bg_pb, bg_pc, bg_pd, bg_ref_x, bg_ref_y };
        let ghost sf = match main_3d_framebuffer {
            Some(s) => Some(s@),
            None => None,
        };
        if !supports_2d_layer_render(dispcnt) {
            return false;
        }
        let active = active_2d_bgs(dispcnt, bgcnt, main_3d_framebuffer.is_some());
        if active.len() == 0 {
            return false;
        }
        if vram.len() == 0 || palette_offset + 1 >= self.bus.memory.palette.len() {
            return false;
        }
        proof {
            lemma_layers_ok(dispcnt, bgcnt, main_3d_framebuffer is Some, 16);
        }
        let ghost fb0 = self.framebuffer@;
        let ghost pb_len = priority_buffer@.len();
        let mut i: usize = 0;
        while i < priority_buffer.len()
            invariant
                i <= priority_buffer@.len(),
                priority_buffer@.len() == pb_len,
                forall|k: int| 0 <= k < i ==> priority_buffer@[k] == 4u8,
            decreases priority_buffer.len() - i,
        {
            priority_buffer.set(i, 4);
            i = i + 1;
        }
        let backdrop = rgb555_to_argb(
            apply_master_brightness(read_color_16(self.bus.memory.palette.as_slice(), palette_offset), master_bright),
        );
        let base = screen_y * NDS_WIDTH;
        let mut line: usize = 0;
        while line < NDS_SCREEN_HEIGHT
            invariant
                line <= NDS_SCREEN_HEIGHT,
                base == screen_y * NDS_WIDTH,
                screen_y <= NDS_SCREEN_HEIGHT,
                nds_emu_wf(*self),
                self.bus == old(self).bus,
                self.header == old(self).header,
                self.arm7 == old(self).arm7,
                self.arm9 == old(self).arm9,
                self.main_3d_framebuffer == old(self).main_3d_framebuffer,
                self.ppu_main == old(self).ppu_main,
                self.ppu_sub == old(self).ppu_sub,
                self.total_frames == old(self).total_frames,
                self.framebuffer@.len() == fb0.len(),
                priority_buffer@.len() == pb_len,
                pb_len >= NDS_SCREEN_PIXELS,
                palette_offset + 0x200 <= usize::MAX,
                r == (NdsBgRegs { dispcnt, bgcnt, bghofs, bgvofs, bg_pa, bg_pb, bg_pc, bg_pd, bg_ref_x, bg_ref_y }),
                sf == match main_3d_framebuffer {
                    Some(s) => Some(s@),
                    None => None,
                },
                active@ == active_layers_upto(dispcnt, bgcnt, main_3d_framebuffer is Some, 16),
                layers_ok(active@, main_3d_framebuffer is Some),
                layers_fit(r, active@),
                backdrop == rgb555_to_argb_spec(master_brightness_spec(color_at(self.bus.memory.palette@, palette_offset as int), master_bright)),
                forall|k: int|
                    0 <= k < fb0.len() ==> self.framebuffer@[k] == if base <= k < base + line * NDS_WIDTH {
                        bg_screen_pixel(vram@, self.bus.memory.palette@, palette_offset as int, sf, r, master_bright, k - base)
                    } else {
                        fb0[k]
                    },
                forall|k: int|
                    0 <= k < pb_len ==> priority_buffer@[k] == if k < line * NDS_WIDTH {
                        bg_screen_priority(vram@, self.bus.memory.palette@, palette_offset as int, sf, r, k)
                    } else {
                        4u8
                    },
            decreases NDS_SCREEN_HEIGHT - line,
        {
            let mut px: usize = 0;
            while px < NDS_WIDTH
                invariant
                    px <= NDS_WIDTH,
                    line < NDS_SCREEN_HEIGHT,
                    base == screen_y * NDS_WIDTH,
                    screen_y <= NDS_SCREEN_HEIGHT,
                    nds_emu_wf(*self),
                    self.bus == old(self).bus,
                    self.header == old(self).header,
                    self.arm7 == old(self).arm7,
                    self.arm9 == old(self).arm9,
                    self.main_3d_framebuffer == old(self).main_3d_framebuffer,
                    self.ppu_main == old(self).ppu_main,
                    self.ppu_sub == old(self).ppu_sub,
                    self.total_frames == old(self).total_frames,
                    self.framebuffer@.len() == fb0.len(),
                    priority_buffer@.len() == pb_len,
                    pb_len >= NDS_SCREEN_PIXELS,
                    palette_offset + 0x200 <= usize::MAX,
                    r == (NdsBgRegs { dispcnt, bgcnt, bghofs, bgvofs, bg_pa, bg_pb, bg_pc, bg_pd, bg_ref_x, bg_ref_y }),
                    sf == match main_3d_framebuffer {
                        Some(s) => Some(s@),
                        None => None,
                    },
                sf == match main_3d_framebuffer {
                    Some(s) => Some(s@),
                    None => None,
                },
                    active@ == active_layers_upto(dispcnt, bgcnt, main_3d_framebuffer is Some, 16),
                    layers_ok(active@, main_3d_framebuffer is Some),
                    layers_fit(r, active@),
                    backdrop == rgb555_to_argb_spec(master_brightness_spec(color_at(self.bus.memory.palette@, palette_offset as int), master_bright)),
                    forall|k: int|
                        0 <= k < fb0.len() ==> self.framebuffer@[k] == if base <= k < base + line * NDS_WIDTH + px {
                            bg_screen_pixel(vram@, self.bus.memory.palette@, palette_offset as int, sf, r, master_bright, k - base)
                        } else {
                            fb0[k]
                        },
                    forall|k: int|
                        0 <= k < pb_len ==> priority_buffer@[k] == if k < line * NDS_WIDTH + px {
                            bg_screen_priority(vram@, self.bus.memory.palette@, palette_offset as int, sf, r, k)
                        } else {
                            4u8
                        },
                decreases NDS_WIDTH - px,
            {
                let j = line * NDS_WIDTH + px;
                let (c, prio) = bg_pixel(
                    vram,
                    self.bus.memory.palette.as_slice(),
                    palette_offset,
                    main_3d_framebuffer,
                    &r,
                    &active,
                    backdrop,
                    master_bright,
                    px,
                    line,
                );
                self.framebuffer.set(base + j, c);
                priority_buffer.set(j, prio);
                px = px + 1;
            }
            line = line + 1;
        }
        assert(self.framebuffer@ =~= Seq::new(
            fb0.len(),
            |k: int|
                if base <= k < base + NDS_SCREEN_PIXELS {
                    bg_screen_pixel(vram@, old(self).bus.memory.palette@, palette_offset as int, sf, r, master_bright, k - base)
                } else {
                    fb0[k]
                },
        ));
        assert(priority_buffer@ =~= Seq::new(
            pb_len,
            |k: int|
                if k < NDS_SCREEN_PIXELS {
                    bg_screen_priority(vram@, old(self).bus.memory.palette@, palette_offset as int, sf, r, k)
                } else {
                    4u8
                },
        ));
        true
    }
}

/// Attribute halfword `n` (0-2) of sprite `i`.
pub open spec fn obj_attr(oam: Seq<u8>, i: int, n: int) -> u16 {
    color_at(oam, i * 8 + 2 * n)
}

/// A sprite's placement and look, from its three attribute halfwords.
pub struct ObjSprite {
    pub drawn: bool,
    pub width: usize,
    pub height: usize,
    pub x: i32,
    pub y: i32,
    pub tile: usize,
    pub priority: u8,
    pub palette: usize,
    pub color_256: bool,
    pub h_flip: bool,
    pub v_flip: bool,
}

/// The sprite the attributes describe: drawn unless affine, disabled or an
/// object-window sprite; Y from 192 up and X from 256 up are negative.
pub open spec fn obj_sprite_spec(a0: u16, a1: u16, a2: u16) -> ObjSprite {
    let (w, h) = obj_size_spec((a0 >> 14u16) & 3, (a1 >> 14u16) & 3);
    let y = (a0 & 0xFF) as i32;
    let x = (a1 & 0x1FF) as i32;
    ObjSprite {
        drawn: a0 & 0x0100 == 0 && a0 & 0x0200 == 0 && (a0 >> 10u16) & 3 != 2,
        width: w,
        height: h,
        x: if x >= 256 { (x - 512) as i32 } else { x },
        y: if y >= 192 { (y - 256) as i32 } else { y },
        tile: (a2 & 0x03FF) as usize,
        priority: ((a2 >> 10u16) & 3) as u8,
        palette: ((a2 >> 12u16) & 0xF) as usize,
        color_256: a0 & 0x2000 != 0,
        h_flip: a1 & 0x1000 != 0,
        v_flip: a1 & 0x2000 != 0,
    }
}

/// The sprite's colour at screen line `l`, column `c`, when the position
/// is in its box and the pixel is opaque.
pub open spec fn obj_color_at(
    obj_vram: Seq<u8>,
    palette: Seq<u8>,
    pofs: int,
    mapping_1d: bool,
    s: ObjSprite,
    l: int,
    c: int,
) -> Option<u16> {
    let sx = c - s.x;
    let sy = l - s.y;
    if 0 <= sx < s.width && 0 <= sy < s.height {
        let src_x = if s.h_flip { s.width - 1 - sx } else { sx };
        let src_y = if s.v_flip { s.height - 1 - sy } else { sy };
        obj_pixel_spec(obj_vram, palette, pofs, s.tile as int, s.palette as int, s.color_256, mapping_1d, s.width as int, src_x, src_y)
    } else {
        None
    }
}

/// Whether the sprite draws over screen line `l`, column `c`, given the
/// priorities so far: opaque there and of priority no lower than what is
/// drawn.
pub open spec fn obj_wins(
    obj_vram: Seq<u8>,
    palette: Seq<u8>,
    pofs: int,
    mapping_1d: bool,
    s: ObjSprite,
    pb: Seq<u8>,
    l: int,
    c: int,
) -> bool {
    obj_color_at(obj_vram, palette, pofs, mapping_1d, s, l, c) is Some && s.priority <= pb[l * NDS_WIDTH + c]
}

/// The framebuffer after sprite `s` is drawn on the screen at row
/// `screen_y`, over the priorities `pb`.
pub open spec fn obj_draw_fb(
    fb: Seq<u32>,
    pb: Seq<u8>,
    obj_vram: Seq<u8>,
    palette: Seq<u8>,
    pofs: int,
    mapping_1d: bool,
    s: ObjSprite,
    screen_y: int,
    master_bright: u16,
) -> Seq<u32> {
    Seq::new(
        fb.len(),
        |k: int|
            {
                let j = k - screen_y * NDS_WIDTH;
                let l = j / NDS_WIDTH as int;
                let c = j % NDS_WIDTH as int;
                if 0 <= j < NDS_SCREEN_PIXELS && obj_wins(obj_vram, palette, pofs, mapping_1d, s, pb, l, c) {
                    rgb555_to_argb_spec(
                        master_brightness_spec(
                            obj_color_at(obj_vram, palette, pofs, mapping_1d, s, l, c)->0,
                            master_bright,
                        ),
                    )
                } else {
                    fb[k]
                }
            },
    )
}

/// The priorities after sprite `s` is drawn.
pub open spec fn obj_draw_pb(
    pb: Seq<u8>,
    obj_vram: Seq<u8>,
    palette: Seq<u8>,
    pofs: int,
    mapping_1d: bool,
    s: ObjSprite,
) -> Seq<u8> {
    Seq::new(
        pb.len(),
        |j: int|
            if j < NDS_SCREEN_PIXELS && obj_wins(
                obj_vram,
                palette,
                pofs,
                mapping_1d,
                s,
                pb,
                j / NDS_WIDTH as int,
                j % NDS_WIDTH as int,
            ) {
                s.priority
            } else {
                pb[j]
            },
    )
}

/// The sprite of OAM entry `i`.
pub open spec fn oam_sprite(oam: Seq<u8>, i: int) -> ObjSprite {
    obj_sprite_spec(obj_attr(oam, i, 0), obj_attr(oam, i, 1), obj_attr(oam, i, 2))
}

/// The framebuffer and priorities after sprites 127 down to `128 - n` are
/// drawn, each over what the ones before drew.
pub open spec fn obj_fold(
    fb: Seq<u32>,
    pb: Seq<u8>,
    obj_vram: Seq<u8>,
    oam: Seq<u8>,
    palette: Seq<u8>,
    pofs: int,
    mapping_1d: bool,
    screen_y: int,
    master_bright: u16,
    n: nat,
) -> (Seq<u32>, Seq<u8>)
    decreases n,
{
    if n == 0 {
        (fb, pb)
    } else {
        let (f, p) = obj_fold(fb, pb, obj_vram, oam, palette, pofs, mapping_1d, screen_y, master_bright, (n - 1) as nat);
        let s = oam_sprite(oam, 128 - n);
        if s.drawn {
            (
                obj_draw_fb(f, p, obj_vram, palette, pofs, mapping_1d, s, screen_y, master_bright),
                obj_draw_pb(p, obj_vram, palette, pofs, mapping_1d, s),
            )
        } else {
            (f, p)
        }
    }
}

/// The ranges a decoded sprite's fields keep.
pub open spec fn sprite_ok(s: ObjSprite) -> bool {
    &&& 8 <= s.width <= 64
    &&& 8 <= s.height <= 64
    &&& -256 <= s.x < 256
    &&& -64 <= s.y < 192
    &&& s.tile < 0x400
    &&& s.palette < 16
    &&& s.priority <= 3
}

/// Sprite `i`'s attributes decoded.
fn read_sprite(oam: &[u8], i: usize) -> (s: ObjSprite)
    requires
        i < 128,
        i * 8 + 5 < oam@.len(),
    ensures
        s == oam_sprite(oam@, i as int),
        sprite_ok(s),
{
    let base = i * 8;
    let a0 = read_color_16(oam, base);
    let a1 = read_color_16(oam, base + 2);
    let a2 = read_color_16(oam, base + 4);
    proof {
        crate::bits::lemma_and_le_u16(a0, 0xFF);
        crate::bits::lemma_and_le_u16(a1, 0x1FF);
        crate::bits::lemma_and_le_u16(a2, 0x03FF);
        crate::bits::lemma_and_le_u16(a2 >> 10u16, 3);
        crate::bits::lemma_and_le_u16(a2 >> 12u16, 0xF);
    }
    let (w, h) = obj_size((a0 >> 14u16) & 3, (a1 >> 14u16) & 3);
    let y = (a0 & 0xFF) as i32;
    let x = (a1 & 0x1FF) as i32;
    ObjSprite {
        drawn: a0 & 0x0100 == 0 && a0 & 0x0200 == 0 && (a0 >> 10u16) & 3 != 2,
        width: w,
        height: h,
        x: if x >= 256 { x - 512 } else { x },
        y: if y >= 192 { y - 256 } else { y },
        tile: (a2 & 0x03FF) as usize,
        priority: ((a2 >> 10u16) & 3) as u8,
        palette: ((a2 >> 12u16) & 0xF) as usize,
        color_256: a0 & 0x2000 != 0,
        h_flip: a1 & 0x1000 != 0,
        v_flip: a1 & 0x2000 != 0,
    }
}

/// Whether screen line `l`, column `c` is among the sprite pixels handled
/// before row `cy`, column `cx` of the sprite.
pub open spec fn obj_done(s: ObjSprite, l: int, c: int, cy: int, cx: int) -> bool {
    let dx = c - s.x;
    let dy = l - s.y;
    0 <= dx < s.width && 0 <= dy < s.height && (dy < cy || (dy == cy && dx < cx))
}

impl NdsEmulator {
    /// Draws one sprite over the screen at row `screen_y`.
    #[verifier::spinoff_prover]
    #[verifier::rlimit(100)]
    fn draw_sprite(
        &mut self,
        screen_y: usize,
        obj_vram: &[u8],
        palette_offset: usize,
        mapping_1d: bool,
        s: ObjSprite,
        master_bright: u16,
        priority_buffer: &mut Vec<u8>,
    )
        requires
            nds_emu_wf(*old(self)),
            screen_y <= NDS_SCREEN_HEIGHT,
            old(priority_buffer)@.len() >= NDS_SCREEN_PIXELS,
            sprite_ok(s),
            palette_offset + 0x40_0000 <= usize::MAX,
        ensures
            nds_emu_wf(*final(self)),
            final(self).framebuffer@ == obj_draw_fb(
                old(self).framebuffer@,
                old(priority_buffer)@,
                obj_vram@,
                old(self).bus.memory.palette@,
                palette_offset as int,
                mapping_1d,
                s,
                screen_y as int,
                master_bright,
            ),
            final(priority_buffer)@ == obj_draw_pb(
                old(priority_buffer)@,
                obj_vram@,
                old(self).bus.memory.palette@,
                palette_offset as int,
                mapping_1d,
                s,
            ),
            final(self).bus == old(self).bus,
            final(self).header == old(self).header,
            final(self).arm7 == old(self).arm7,
            final(self).arm9 == old(self).arm9,
            final(self).main_3d_framebuffer == old(self).main_3d_framebuffer,
            final(self).ppu_main == old(self).ppu_main,
            final(self).ppu_sub == old(self).ppu_sub,
            final(self).total_frames == old(self).total_frames,
    {
        let ghost fb0 = self.framebuffer@;
        let ghost pb0 = priority_buffer@;
        let ghost pal = self.bus.memory.palette@;
        let ghost pofs = palette_offset as int;
        let base = screen_y * NDS_WIDTH;
        let mut sy: usize = 0;
        while sy < s.height
            invariant
                sy <= s.height,
                sprite_ok(s),
                base == screen_y * NDS_WIDTH,
                screen_y <= NDS_SCREEN_HEIGHT,
                palette_offset + 0x40_0000 <= usize::MAX,
                pofs == palette_offset as int,
                nds_emu_wf(*self),
                self.bus == old(self).bus,
                self.header == old(self).header,
                self.arm7 == old(self).arm7,
                self.arm9 == old(self).arm9,
                self.main_3d_framebuffer == old(self).main_3d_framebuffer,
                self.ppu_main == old(self).ppu_main,
                self.ppu_sub == old(self).ppu_sub,
                self.total_frames == old(self).total_frames,
                pal == self.bus.memory.palette@,
                fb0 == old(self).framebuffer@,
                pb0 == old(priority_buffer)@,
                self.framebuffer@.len() == fb0.len(),
                priority_buffer@.len() == pb0.len(),
                pb0.len() >= NDS_SCREEN_PIXELS,
                forall|l: int, c: int|
                    0 <= l < NDS_SCREEN_HEIGHT && 0 <= c < NDS_WIDTH ==> #[trigger] self.framebuffer@[base + l
                        * NDS_WIDTH + c] == if obj_done(s, l, c, sy as int, 0) && obj_wins(
                        obj_vram@,
                        pal,
                        pofs,
                        mapping_1d,
                        s,
                        pb0,
                        l,
                        c,
                    ) {
                        rgb555_to_argb_spec(
                            master_brightness_spec(obj_color_at(obj_vram@, pal, pofs, mapping_1d, s, l, c)->0, master_bright),
                        )
                    } else {
                        fb0[base + l * NDS_WIDTH + c]
                    },
                forall|l: int, c: int|
                    0 <= l < NDS_SCREEN_HEIGHT && 0 <= c < NDS_WIDTH ==> #[trigger] priority_buffer@[l * NDS_WIDTH + c]
                        == if obj_done(s, l, c, sy as int, 0) && obj_wins(obj_vram@, pal, pofs, mapping_1d, s, pb0, l, c) {
                        s.priority
                    } else {
                        pb0[l * NDS_WIDTH + c]
                    },
                forall|k: int|
                    0 <= k < fb0.len() && !(base <= k < base + NDS_SCREEN_PIXELS) ==> #[trigger] self.framebuffer@[k]
                        == fb0[k],
                forall|j: int| NDS_SCREEN_PIXELS <= j < pb0.len() ==> #[trigger] priority_buffer@[j] == pb0[j],
            decreases s.height - sy,
        {
            let line = s.y + sy as i32;
            let mut sx: usize = 0;
            while sx < s.width
                invariant
                    sx <= s.width,
                    sy < s.height,
                    line == s.y + sy,
                    sprite_ok(s),
                    base == screen_y * NDS_WIDTH,
                    screen_y <= NDS_SCREEN_HEIGHT,
                    palette_offset + 0x40_0000 <= usize::MAX,
                    pofs == palette_offset as int,
                    nds_emu_wf(*self),
                    self.bus == old(self).bus,
                    self.header == old(self).header,
                    self.arm7 == old(self).arm7,
                    self.arm9 == old(self).arm9,
                    self.main_3d_framebuffer == old(self).main_3d_framebuffer,
                    self.ppu_main == old(self).ppu_main,
                    self.ppu_sub == old(self).ppu_sub,
                    self.total_frames == old(self).total_frames,
                    pal == self.bus.memory.palette@,
                    fb0 == old(self).framebuffer@,
                    pb0 == old(priority_buffer)@,
                    self.framebuffer@.len() == fb0.len(),
                    priority_buffer@.len() == pb0.len(),
                    pb0.len() >= NDS_SCREEN_PIXELS,
                    forall|l: int, c: int|
                        0 <= l < NDS_SCREEN_HEIGHT && 0 <= c < NDS_WIDTH ==> #[trigger] self.framebuffer@[base + l
                            * NDS_WIDTH + c] == if obj_done(s, l, c, sy as int, sx as int) && obj_wins(
                            obj_vram@,
                            pal,
                            pofs,
                            mapping_1d,
                            s,
                            pb0,
                            l,
                            c,
                        ) {
                            rgb555_to_argb_spec(
                                master_brightness_spec(
                                    obj_color_at(obj_vram@, pal, pofs, mapping_1d, s, l, c)->0,
                                    master_bright,
                                ),
                            )
                        } else {
                            fb0[base + l * NDS_WIDTH + c]
                        },
                    forall|l: int, c: int|
                        0 <= l < NDS_SCREEN_HEIGHT && 0 <= c < NDS_WIDTH ==> #[trigger] priority_buffer@[l * NDS_WIDTH
                            + c] == if obj_done(s, l, c, sy as int, sx as int) && obj_wins(
                            obj_vram@,
                            pal,
                            pofs,
                            mapping_1d,
                            s,
                            pb0,
                            l,
                            c,
                        ) {
                            s.priority
                        } else {
                            pb0[l * NDS_WIDTH + c]
                        },
                    forall|k: int|
                        0 <= k < fb0.len() && !(base <= k < base + NDS_SCREEN_PIXELS) ==> #[trigger] self.framebuffer@[k]
                            == fb0[k],
                    forall|j: int| NDS_SCREEN_PIXELS <= j < pb0.len() ==> #[trigger] priority_buffer@[j] == pb0[j],
                decreases s.width - sx,
            {
                let col = s.x + sx as i32;
                if 0 <= line && line < NDS_SCREEN_HEIGHT as i32 && 0 <= col && col < NDS_WIDTH as i32 {
                    let src_x = if s.h_flip { s.width - 1 - sx } else { sx };
                    let src_y = if s.v_flip { s.height - 1 - sy } else { sy };
                    let color = sample_obj_pixel(
                        obj_vram,
                        self.bus.memory.palette.as_slice(),
                        palette_offset,
                        s.tile,
                        s.palette,
                        s.color_256,
                        mapping_1d,
                        s.width,
                        src_x,
                        src_y,
                    );
                    let ghost l = line as int;
                    let ghost c = col as int;
                    assert(color == obj_color_at(obj_vram@, pal, pofs, mapping_1d, s, l, c));
                    let idx = line as usize * NDS_WIDTH + col as usize;
                    assert(priority_buffer@[idx as int] == pb0[idx as int]);
                    match color {
                        Some(cv) => {
                            if s.priority <= priority_buffer[idx] {
                                let argb = rgb555_to_argb(apply_master_brightness(cv, master_bright));
                                self.framebuffer.set(base + idx, argb);
                                priority_buffer.set(idx, s.priority);
                            }
                        },
                        None => {},
                    }
                }
                sx = sx + 1;
            }
            sy = sy + 1;
        }
        assert forall|k: int| 0 <= k < fb0.len() implies self.framebuffer@[k] == obj_draw_fb(
            fb0,
            pb0,
            obj_vram@,
            pal,
            pofs,
            mapping_1d,
            s,
            screen_y as int,
            master_bright,
        )[k] by {
            let j = k - base;
            if 0 <= j < NDS_SCREEN_PIXELS {
                let l = j / NDS_WIDTH as int;
                let c = j % NDS_WIDTH as int;
                vstd::arithmetic::div_mod::lemma_fundamental_div_mod(j, NDS_WIDTH as int);
                assert(k == base + l * NDS_WIDTH + c);
                assert(self.framebuffer@[base + l * NDS_WIDTH + c] == self.framebuffer@[k]);
            }
        }
        assert(self.framebuffer@ =~= obj_draw_fb(
            fb0,
            pb0,
            obj_vram@,
            pal,
            pofs,
            mapping_1d,
            s,
            screen_y as int,
            master_bright,
        ));
        assert forall|j: int| 0 <= j < pb0.len() implies priority_buffer@[j] == obj_draw_pb(
            pb0,
            obj_vram@,
            pal,
            pofs,
            mapping_1d,
            s,
        )[j] by {
            if j < NDS_SCREEN_PIXELS {
                let l = j / NDS_WIDTH as int;
                let c = j % NDS_WIDTH as int;
                vstd::arithmetic::div_mod::lemma_fundamental_div_mod(j, NDS_WIDTH as int);
                assert(j == l * NDS_WIDTH + c);
                assert(priority_buffer@[l * NDS_WIDTH + c] == priority_buffer@[j]);
            }
        }
        assert(priority_buffer@ =~= obj_draw_pb(pb0, obj_vram@, pal, pofs, mapping_1d, s));
    }

    /// Draws the sprites of `oam` (entry 127 first, so lower entries end on
    /// top) over the screen at row `screen_y`: each opaque sprite pixel whose
    /// priority is no lower than what `priority_buffer` holds there, which
    /// then takes the sprite's priority. Nothing when sprites are off, the
    /// display mode is not 0 or 1, or OAM holds less than 128 entries.
    pub fn render_obj_layers(
        &mut self,
        screen_y: usize,
        obj_vram: &[u8],
        oam: &[u8],
        palette_offset: usize,
        dispcnt: u32,
        master_bright: u16,
        priority_buffer: &mut Vec<u8>,
    )
        requires
            nds_emu_wf(*old(self)),
            screen_y <= NDS_SCREEN_HEIGHT,
            palette_offset + 0x40_0000 <= usize::MAX,
            dispcnt & OBJ_ENABLE_BIT != 0 && (dispcnt >> 16u32) & 3 <= 1 && oam@.len() >= 1022 ==> old(
                priority_buffer,
            )@.len() >= NDS_SCREEN_PIXELS,
        ensures
            nds_emu_wf(*final(self)),
            if dispcnt & OBJ_ENABLE_BIT == 0 || (dispcnt >> 16u32) & 3 > 1 || oam@.len() < 1022 {
                final(self).framebuffer@ == old(self).framebuffer@ && final(priority_buffer)@ == old(priority_buffer)@
            } else {
                (final(self).framebuffer@, final(priority_buffer)@) == obj_fold(
                    old(self).framebuffer@,
                    old(priority_buffer)@,
                    obj_vram@,
                    oam@,
                    old(self).bus.memory.palette@,
                    palette_offset as int,
                    dispcnt & OBJ_1D_MAPPING_BIT != 0,
                    screen_y as int,
                    master_bright,
                    128,
                )
            },
            final(self).bus == old(self).bus,
            final(self).header == old(self).header,
            final(self).arm7 == old(self).arm7,
            final(self).arm9 == old(self).arm9,
            final(self).main_3d_framebuffer == old(self).main_3d_framebuffer,
            final(self).ppu_main == old(self).ppu_main,
            final(self).ppu_sub == old(self).ppu_sub,
            final(self).total_frames == old(self).total_frames,
    {
        if dispcnt & OBJ_ENABLE_BIT == 0 || (dispcnt >> 16u32) & 0x3 > 1 {
            return;
        }
        if oam.len() < 1022 {
            return;
        }
        let mapping_1d = dispcnt & OBJ_1D_MAPPING_BIT != 0;
        let mut n: usize = 0;
        while n < 128
            invariant
                n <= 128,
                oam@.len() >= 1022,
                screen_y <= NDS_SCREEN_HEIGHT,
                palette_offset + 0x40_0000 <= usize::MAX,
                priority_buffer@.len() >= NDS_SCREEN_PIXELS,
                priority_buffer@.len() == old(priority_buffer)@.len(),
                nds_emu_wf(*self),
                self.bus == old(self).bus,
                self.header == old(self).header,
                self.arm7 == old(self).arm7,
                self.arm9 == old(self).arm9,
                self.main_3d_framebuffer == old(self).main_3d_framebuffer,
                self.ppu_main == old(self).ppu_main,
                self.ppu_sub == old(self).ppu_sub,
                self.total_frames == old(self).total_frames,
                mapping_1d == (dispcnt & OBJ_1D_MAPPING_BIT != 0),
                (self.framebuffer@, priority_buffer@) == obj_fold(
                    old(self).framebuffer@,
                    old(priority_buffer)@,
                    obj_vram@,
                    oam@,
                    old(self).bus.memory.palette@,
                    palette_offset as int,
                    mapping_1d,
                    screen_y as int,
                    master_bright,
                    n as nat,
                ),
            decreases 128 - n,
        {
            let i = 127 - n;
            let s = read_sprite(oam, i);
            if s.drawn {
                self.draw_sprite(screen_y, obj_vram, palette_offset, mapping_1d, s, master_bright, priority_buffer);
            }
            n = n + 1;
        }
    }
}

/// Whether `v` is an `i32` value.
pub open spec fn in_i32(v: int) -> bool {
    i32::MIN <= v <= i32::MAX
}

/// The affine texture coordinate sum `r + a * px + b * line` is computed
/// without overflow (each step within `i32`).
pub open spec fn affine_sum_fits(r: i32, a: i16, b: i16, px: int, line: int) -> bool {
    &&& 0 <= px <= i32::MAX
    &&& 0 <= line <= i32::MAX
    &&& in_i32(a * px)
    &&& in_i32(b * line)
    &&& in_i32(r + a * px)
    &&& in_i32(r + a * px + b * line)
}

/// An affine texture coordinate: `(r + a * px + b * line) >> 8`.
pub open spec fn affine_tex(r: i32, a: i16, b: i16, px: int, line: int) -> int {
    (((r + a * px + b * line) as i32) >> 8u32) as int
}

/// The side in pixels of an affine map (BGCNT bits 14-15): 128 to 1024.
pub open spec fn affine_map_side(bgcnt: u16) -> int {
    let s = (bgcnt >> 14u16) & 3;
    if s == 0 {
        128
    } else if s == 1 {
        256
    } else if s == 2 {
        512
    } else {
        1024
    }
}

/// A texture coordinate on a map of `side` pixels: wrapped around, or
/// `None` outside it without wrap-around.
pub open spec fn affine_wrap(t: int, side: int, wrap: bool) -> Option<int> {
    if wrap {
        Some(t % side)
    } else if 0 <= t < side {
        Some(t)
    } else {
        None
    }
}

/// An affine (rotation/scaling) background's colour at screen pixel (`px`,
/// `line`): the transformed position's map byte, its 8x8 tile of 256-colour
/// pixels, and the palette colour.
pub open spec fn affine_bg_pixel_spec(
    vram: Seq<u8>,
    palette: Seq<u8>,
    palette_offset: int,
    bgcnt: u16,
    pa: i16,
    pb: i16,
    pc: i16,
    pd: i16,
    ref_x: i32,
    ref_y: i32,
    px: int,
    line: int,
) -> Option<u16> {
    let char_base = ((bgcnt >> 2u16) & 0xF) as int * 0x4000;
    let screen_base = ((bgcnt >> 8u16) & 0x1F) as int * 0x800;
    let side = affine_map_side(bgcnt);
    let wrap = bgcnt & 0x2000 != 0;
    match (affine_wrap(affine_tex(ref_x, pa, pb, px, line), side, wrap), affine_wrap(
        affine_tex(ref_y, pc, pd, px, line),
        side,
        wrap,
    )) {
        (Some(tx), Some(ty)) => {
            let map_offset = screen_base + (ty / 8) * (side / 8) + tx / 8;
            if map_offset >= vram.len() {
                None
            } else {
                let off = char_base + vram[map_offset] * 64 + (ty % 8) * 8 + tx % 8;
                if off >= vram.len() || vram[off] == 0 {
                    None
                } else {
                    palette_color(palette, palette_offset + vram[off] * 2)
                }
            }
        },
        _ => None,
    }
}

/// A bitmap background's size in pixels (width, height), from BGCNT bits
/// 14-15.
pub open spec fn bitmap_size(bgcnt: u16) -> (int, int) {
    let s = (bgcnt >> 14u16) & 3;
    if s == 0 {
        (128, 128)
    } else if s == 1 {
        (256, 256)
    } else if s == 2 {
        (512, 256)
    } else {
        (512, 512)
    }
}

/// A bitmap background's colour at screen pixel (`px`, `line`): the
/// transformed position's pixel, a direct colour (opaque when bit 15 is
/// set) or a palette index.
pub open spec fn bitmap_bg_pixel_spec(
    vram: Seq<u8>,
    palette: Seq<u8>,
    palette_offset: int,
    bgcnt: u16,
    pa: i16,
    pb: i16,
    pc: i16,
    pd: i16,
    ref_x: i32,
    ref_y: i32,
    px: int,
    line: int,
    direct_color: bool,
) -> Option<u16> {
    let base = ((bgcnt >> 8u16) & 0x1F) as int * 0x4000;
    let (w, h) = bitmap_size(bgcnt);
    let wrap = bgcnt & 0x2000 != 0;
    match (affine_wrap(affine_tex(ref_x, pa, pb, px, line), w, wrap), affine_wrap(
        affine_tex(ref_y, pc, pd, px, line),
        h,
        wrap,
    )) {
        (Some(tx), Some(ty)) => {
            let index = ty * w + tx;
            if direct_color {
                let off = base + index * 2;
                if off + 1 >= vram.len() || color_at(vram, off) & 0x8000 == 0 {
                    None
                } else {
                    Some(color_at(vram, off) & 0x7FFF)
                }
            } else {
                let off = base + index;
                if off >= vram.len() || vram[off] == 0 {
                    None
                } else {
                    palette_color(palette, palette_offset + vram[off] * 2)
                }
            }
        },
        _ => None,
    }
}

/// `r + a * px + b * line`, shifted down by 8.
fn affine_coord(r: i32, a: i16, b: i16, px: usize, line: usize) -> (t: i32)
    requires
        affine_sum_fits(r, a, b, px as int, line as int),
    ensures
        t == affine_tex(r, a, b, px as int, line as int),
        -0x80_0000 <= t <= 0x7F_FFFF,
{
    let v = r + a as i32 * px as i32 + b as i32 * line as i32;
    proof {
        crate::ppu::gba_ppu::lemma_shr8_range(v);
    }
    v >> 8u32
}

/// A texture coordinate wrapped onto, or checked against, a map side.
fn wrap_coord(t: i32, side: i32, wrap: bool) -> (r: Option<i32>)
    requires
        side == 128 || side == 256 || side == 512 || side == 1024,
        -0x80_0000 <= t <= 0x7F_FFFF,
    ensures
        match affine_wrap(t as int, side as int, wrap) {
            Some(v) => r == Some(v as i32) && 0 <= v < side,
            None => r is None,
        },
{
    if wrap {
        proof {
            crate::ppu::gba_ppu::lemma_wrap(t as int, side as int);
        }
        Some((((t + 0x100_0000) as u32) % (side as u32)) as i32)
    } else if 0 <= t && t < side {
        Some(t)
    } else {
        None
    }
}

/// The colour of an affine background at screen pixel (`px`,
/// `screen_line`).
#[verifier::spinoff_prover]
#[verifier::rlimit(60)]
pub fn sample_affine_bg_pixel(
    vram: &[u8],
    palette: &[u8],
    palette_offset: usize,
    bgcnt: u16,
    bg_pa: i16,
    bg_pb: i16,
    bg_pc: i16,
    bg_pd: i16,
    bg_ref_x: i32,
    bg_ref_y: i32,
    px: usize,
    screen_line: usize,
) -> (c: Option<u16>)
    requires
        affine_sum_fits(bg_ref_x, bg_pa, bg_pb, px as int, screen_line as int),
        affine_sum_fits(bg_ref_y, bg_pc, bg_pd, px as int, screen_line as int),
        palette_offset + 0x200 <= usize::MAX,
    ensures
        c == affine_bg_pixel_spec(
            vram@,
            palette@,
            palette_offset as int,
            bgcnt,
            bg_pa,
            bg_pb,
            bg_pc,
            bg_pd,
            bg_ref_x,
            bg_ref_y,
            px as int,
            screen_line as int,
        ),
{
    proof {
        crate::bits::lemma_and_le_u16(bgcnt >> 2u16, 0xF);
        crate::bits::lemma_and_le_u16(bgcnt >> 8u16, 0x1F);
        crate::bits::lemma_and_le_u16(bgcnt >> 14u16, 3);
    }
    let char_base = ((bgcnt >> 2u16) & 0xF) as usize * 0x4000;
    let screen_base = ((bgcnt >> 8u16) & 0x1F) as usize * 0x800;
    let wrap = bgcnt & 0x2000 != 0;
    let s = (bgcnt >> 14u16) & 3;
    let side: i32 = if s == 0 {
        128
    } else if s == 1 {
        256
    } else if s == 2 {
        512
    } else {
        1024
    };
    let tex_x = affine_coord(bg_ref_x, bg_pa, bg_pb, px, screen_line);
    let tex_y = affine_coord(bg_ref_y, bg_pc, bg_pd, px, screen_line);
    let tx = match wrap_coord(tex_x, side, wrap) {
        Some(v) => v,
        None => {
            return None;
        },
    };
    let ty = match wrap_coord(tex_y, side, wrap) {
        Some(v) => v,
        None => {
            return None;
        },
    };
    assert((ty as usize / 8) * (side as usize / 8) <= 128 * 128) by (nonlinear_arith)
        requires
            0 <= ty < side <= 1024,
    ;
    let map_offset = screen_base + (ty as usize / 8) * (side as usize / 8) + tx as usize / 8;
    if map_offset >= vram.len() {
        return None;
    }
    let tile_num = vram[map_offset] as usize;
    let pixel_offset = char_base + tile_num * 64 + (ty as usize % 8) * 8 + tx as usize % 8;
    if pixel_offset >= vram.len() {
        return None;
    }
    let palette_index = vram[pixel_offset] as usize;
    if palette_index == 0 {
        return None;
    }
    palette_entry(palette, palette_offset + palette_index * 2)
}

/// The colour of a bitmap background at screen pixel (`px`,
/// `screen_line`).
#[verifier::spinoff_prover]
#[verifier::rlimit(60)]
pub fn sample_bitmap_bg_pixel(
    vram: &[u8],
    palette: &[u8],
    palette_offset: usize,
    bgcnt: u16,
    bg_pa: i16,
    bg_pb: i16,
    bg_pc: i16,
    bg_pd: i16,
    bg_ref_x: i32,
    bg_ref_y: i32,
    px: usize,
    screen_line: usize,
    direct_color: bool,
) -> (c: Option<u16>)
    requires
        affine_sum_fits(bg_ref_x, bg_pa, bg_pb, px as int, screen_line as int),
        affine_sum_fits(bg_ref_y, bg_pc, bg_pd, px as int, screen_line as int),
        palette_offset + 0x200 <= usize::MAX,
    ensures
        c == bitmap_bg_pixel_spec(
            vram@,
            palette@,
            palette_offset as int,
            bgcnt,
            bg_pa,
            bg_pb,
            bg_pc,
            bg_pd,
            bg_ref_x,
            bg_ref_y,
            px as int,
            screen_line as int,
            direct_color,
        ),
{
    proof {
        crate::bits::lemma_and_le_u16(bgcnt >> 8u16, 0x1F);
        crate::bits::lemma_and_le_u16(bgcnt >> 14u16, 3);
    }
    let bitmap_base = ((bgcnt >> 8u16) & 0x1F) as usize * 0x4000;
    let wrap = bgcnt & 0x2000 != 0;
    let s = (bgcnt >> 14u16) & 3;
    let (width, height): (i32, i32) = if s == 0 {
        (128, 128)
    } else if s == 1 {
        (256, 256)
    } else if s == 2 {
        (512, 256)
    } else {
        (512, 512)
    };
    let tex_x = affine_coord(bg_ref_x, bg_pa, bg_pb, px, screen_line);
    let tex_y = affine_coord(bg_ref_y, bg_pc, bg_pd, px, screen_line);
    let tx = match wrap_coord(tex_x, width, wrap) {
        Some(v) => v,
        None => {
            return None;
        },
    };
    let ty = match wrap_coord(tex_y, height, wrap) {
        Some(v) => v,
        None => {
            return None;
        },
    };
    assert(ty * width + tx < 512 * 512) by (nonlinear_arith)
        requires
            0 <= ty < height <= 512,
            0 <= tx < width <= 512,
    ;
    let pixel_index = ty as usize * width as usize + tx as usize;
    if direct_color {
        let offset = bitmap_base + pixel_index * 2;
        if offset + 1 >= vram.len() {
            return None;
        }
        let color = read_color_16(vram, offset);
        if color & 0x8000 == 0 {
            return None;
        }
        Some(color & 0x7FFF)
    } else {
        let offset = bitmap_base + pixel_index;
        if offset >= vram.len() {
            return None;
        }
        let palette_index = vram[offset] as usize;
        if palette_index == 0 {
            return None;
        }
        palette_entry(palette, palette_offset + palette_index * 2)
    }
}

/// A sprite's colour at pixel (`src_x`, `src_y`) of its picture: tiles
/// laid out in one dimension (rows of `width / 8` tiles) or two (rows of
/// 32), 16 colours from palette bank `palette_num` or 256 colours.
pub open spec fn obj_pixel_spec(
    obj_vram: Seq<u8>,
    palette: Seq<u8>,
    palette_offset: int,
    tile_num: int,
    palette_num: int,
    color_256: bool,
    mapping_1d: bool,
    width: int,
    src_x: int,
    src_y: int,
) -> Option<u16> {
    let tile_row = src_y / 8;
    let tile_col = src_x / 8;
    if color_256 {
        let tile = if mapping_1d {
            tile_num + tile_row * (width / 8) * 2 + tile_col * 2
        } else {
            tile_num + tile_row * 32 + tile_col * 2
        };
        let off = tile * 32 + (src_y % 8) * 8 + src_x % 8;
        if off >= obj_vram.len() || obj_vram[off] == 0 {
            None
        } else {
            palette_color(palette, palette_offset + obj_vram[off] * 2)
        }
    } else {
        let tile = if mapping_1d {
            tile_num + tile_row * (width / 8) + tile_col
        } else {
            tile_num + tile_row * 32 + tile_col
        };
        let off = tile * 32 + (src_y % 8) * 4 + (src_x % 8) / 2;
        if off >= obj_vram.len() {
            None
        } else {
            let idx = if (src_x % 8) % 2 == 0 { obj_vram[off] & 0x0F } else { obj_vram[off] >> 4u8 };
            if idx == 0 {
                None
            } else {
                palette_color(palette, palette_offset + palette_num * 32 + idx * 2)
            }
        }
    }
}

/// The colour of a sprite's picture at (`src_x`, `src_y`).
pub fn sample_obj_pixel(
    obj_vram: &[u8],
    palette: &[u8],
    palette_offset: usize,
    tile_num: usize,
    palette_num: usize,
    color_256: bool,
    obj_mapping_1d: bool,
    width: usize,
    src_x: usize,
    src_y: usize,
) -> (c: Option<u16>)
    requires
        tile_num < 0x10000,
        palette_num < 0x10000,
        width <= 0x1000,
        src_x < 0x1000,
        src_y < 0x1000,
        palette_offset + 0x40_0000 <= usize::MAX,
    ensures
        c == obj_pixel_spec(
            obj_vram@,
            palette@,
            palette_offset as int,
            tile_num as int,
            palette_num as int,
            color_256,
            obj_mapping_1d,
            width as int,
            src_x as int,
            src_y as int,
        ),
{
    let tile_row = src_y / 8;
    let fine_y = src_y % 8;
    let tile_col = src_x / 8;
    let fine_x = src_x % 8;
    assert(tile_row * (width / 8) * 2 <= 512 * 512 * 2 && tile_row * (width / 8) <= 512 * 512) by (nonlinear_arith)
        requires
            tile_row < 512,
            width / 8 <= 512,
    ;
    if color_256 {
        let tile_offset = if obj_mapping_1d {
            tile_num + tile_row * (width / 8) * 2 + tile_col * 2
        } else {
            tile_num + tile_row * 32 + tile_col * 2
        };
        let offset = tile_offset * 32 + fine_y * 8 + fine_x;
        if offset >= obj_vram.len() {
            return None;
        }
        let palette_index = obj_vram[offset] as usize;
        if palette_index == 0 {
            return None;
        }
        palette_entry(palette, palette_offset + palette_index * 2)
    } else {
        let tile_offset = if obj_mapping_1d {
            tile_num + tile_row * (width / 8) + tile_col
        } else {
            tile_num + tile_row * 32 + tile_col
        };
        let offset = tile_offset * 32 + fine_y * 4 + fine_x / 2;
        if offset >= obj_vram.len() {
            return None;
        }
        let byte = obj_vram[offset];
        proof {
            crate::bits::lemma_u8_fields(byte);
            crate::bits::lemma_and_le_u8(byte, 0x0F);
        }
        let palette_index = (if fine_x % 2 == 0 { byte & 0x0F } else { byte >> 4u8 }) as usize;
        if palette_index == 0 {
            return None;
        }
        palette_entry(palette, palette_offset + palette_num * 32 + palette_index * 2)
    }
}

} // verus!
