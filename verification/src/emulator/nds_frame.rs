use vstd::prelude::*;

use crate::bits::lemma_and_le_u32;
use crate::emulator::nds::{
    describe_video_warning, video_warning_spec, apply_3d_clear_plane, clear_plane_spec, display_regs_reset, nds_emu_wf, placeholder_frame, preview_spec,
    supports_2d_spec, NdsDisplayRegs, NdsEmulator, MAIN_BG_PALETTE_OFFSET, MAIN_OBJ_PALETTE_OFFSET,
    MAIN_SCREEN_VRAM_OFFSET, NDS_SCREEN_HEIGHT, NDS_SCREEN_PIXELS, OAM_SCREEN_BYTES, OBJ_1D_MAPPING_BIT,
    OBJ_ENABLE_BIT, SUB_BG_PALETTE_OFFSET, SUB_OBJ_PALETTE_OFFSET, SUB_SCREEN_VRAM_OFFSET,
};
use crate::emulator::nds_layers::{
    active_layers_upto, bg_render_draws, bg_screen_pixel, bg_screen_priority, layers_fit, obj_fold, NdsBgRegs,
};
use crate::NDS_WIDTH;

verus! {

/// The background registers among an engine's display registers.
pub open spec fn bg_regs_of(d: NdsDisplayRegs) -> NdsBgRegs {
    NdsBgRegs {
        dispcnt: d.dispcnt,
        bgcnt: d.bgcnt,
        bghofs: d.bghofs,
        bgvofs: d.bgvofs,
        bg_pa: d.bg_pa,
        bg_pb: d.bg_pb,
        bg_pc: d.bg_pc,
        bg_pd: d.bg_pd,
        bg_ref_x: d.bg_ref_x,
        bg_ref_y: d.bg_ref_y,
    }
}

/// Where the layer renderer handles the engine's display mode, the
/// coordinates of its affine and bitmap layers stay in range at every
/// screen pixel. `main_engine` says whether the engine has the 3D surface.
pub open spec fn display_fits(d: NdsDisplayRegs, main_engine: bool) -> bool {
    supports_2d_spec(d.dispcnt) ==> layers_fit(
        bg_regs_of(d),
        active_layers_upto(d.dispcnt, d.bgcnt, main_engine, 16),
    )
}

/// One engine's screen at row `screen_y`, drawn over `fb`: its background
/// layers over the backdrop, or the VRAM preview where the layer renderer
/// does not draw, then its sprites over them by priority.
pub open spec fn engine_picture(
    fb: Seq<u32>,
    vram: Seq<u8>,
    oam: Seq<u8>,
    palette: Seq<u8>,
    screen_y: int,
    preview_offset: int,
    bg_pofs: int,
    obj_pofs: int,
    surface: Option<Seq<u16>>,
    d: NdsDisplayRegs,
) -> Seq<u32> {
    let r = bg_regs_of(d);
    let base = screen_y * NDS_WIDTH;
    let drawn = bg_render_draws(vram, palette, bg_pofs, surface is Some, r);
    let layered = if drawn {
        Seq::new(
            fb.len(),
            |i: int|
                if base <= i < base + NDS_SCREEN_PIXELS {
                    bg_screen_pixel(vram, palette, bg_pofs, surface, r, d.master_bright, i - base)
                } else {
                    fb[i]
                },
        )
    } else {
        preview_spec(fb, vram, screen_y, preview_offset, d.dispcnt, d.master_bright)
    };
    let priorities = if drawn {
        Seq::new(NDS_SCREEN_PIXELS as nat, |i: int| bg_screen_priority(vram, palette, bg_pofs, surface, r, i))
    } else {
        Seq::new(NDS_SCREEN_PIXELS as nat, |i: int| 4u8)
    };
    if d.dispcnt & OBJ_ENABLE_BIT == 0 || (d.dispcnt >> 16u32) & 3 > 1 || oam.len() < 1022 {
        layered
    } else {
        obj_fold(
            layered,
            priorities,
            vram,
            oam,
            palette,
            obj_pofs,
            d.dispcnt & OBJ_1D_MAPPING_BIT != 0,
            screen_y,
            d.master_bright,
            128,
        ).0
    }
}

/// The picture of both screens for the machine's state: the stand-in
/// frame, the main engine's screen (with the 3D surface over its clear
/// plane) on top, the sub engine's below. Each engine reads the whole VRAM,
/// and its half of OAM.
pub open spec fn nds_picture(e: NdsEmulator) -> Seq<u32> {
    let vram = e.bus.memory.vram@;
    let palette = e.bus.memory.palette@;
    let oam = e.bus.memory.oam@;
    let surface = clear_plane_spec(e.main_3d_framebuffer@, e.ppu_main.clear_color, e.ppu_main.disp3dcnt);
    let top = engine_picture(
        placeholder_frame(e.header, e.total_frames),
        vram,
        oam.subrange(0, OAM_SCREEN_BYTES as int),
        palette,
        0,
        MAIN_SCREEN_VRAM_OFFSET as int,
        MAIN_BG_PALETTE_OFFSET as int,
        MAIN_OBJ_PALETTE_OFFSET as int,
        Some(surface),
        e.ppu_main,
    );
    engine_picture(
        top,
        vram,
        oam.subrange(OAM_SCREEN_BYTES as int, 2 * OAM_SCREEN_BYTES as int),
        palette,
        NDS_SCREEN_HEIGHT as int,
        SUB_SCREEN_VRAM_OFFSET as int,
        SUB_BG_PALETTE_OFFSET as int,
        SUB_OBJ_PALETTE_OFFSET as int,
        None,
        e.ppu_sub,
    )
}

/// The machine's video warning: the engines' warnings, main first, joined
/// by " | " after "DS video is partial: "; none when neither engine has one.
pub open spec fn machine_warning_spec(main: Option<Seq<char>>, sub: Option<Seq<char>>) -> Option<Seq<char>> {
    let prefix = "DS video is partial: "@;
    match (main, sub) {
        (None, None) => None,
        (Some(m), None) => Some(prefix + m),
        (None, Some(b)) => Some(prefix + b),
        (Some(m), Some(b)) => Some(prefix + m + " | "@ + b),
    }
}

proof fn lemma_no_layers(bgcnt: [u16; 4], main_engine: bool, k: nat)
    ensures
        active_layers_upto(0, bgcnt, main_engine, k).len() == 0,
    decreases k,
{
    if k > 0 {
        lemma_no_layers(bgcnt, main_engine, (k - 1) as nat);
        let bg = (k - 1) % 4;
        lemma_and_le_u32(0, 0x100u32 << (bg as u32));
    }
}

/// Cleared display registers fit, on either engine.
pub proof fn lemma_reset_regs_fit()
    ensures
        display_fits(display_regs_reset(), true),
        display_fits(display_regs_reset(), false),
{
    lemma_no_layers(display_regs_reset().bgcnt, true, 16);
    lemma_no_layers(display_regs_reset().bgcnt, false, 16);
}

/// With both engines' registers cleared and the VRAM blank, nothing is
/// drawn over the stand-in frame: the picture is the stand-in frame.
pub proof fn lemma_blank_machine_shows_placeholder(e: NdsEmulator)
    requires
        nds_emu_wf(e),
        e.ppu_main == display_regs_reset(),
        e.ppu_sub == display_regs_reset(),
        forall|i: int| 0 <= i < e.bus.memory.vram@.len() ==> e.bus.memory.vram@[i] == 0u8,
    ensures
        nds_picture(e) == placeholder_frame(e.header, e.total_frames),
{
    lemma_no_layers(display_regs_reset().bgcnt, true, 16);
    lemma_no_layers(display_regs_reset().bgcnt, false, 16);
    lemma_and_le_u32(0, OBJ_ENABLE_BIT);
}

impl NdsEmulator {
    /// Draws one engine's screen at row `screen_y`: the background layers
    /// into a fresh priority buffer, the VRAM preview when they do not
    /// draw, then the sprites.
    fn render_engine(
        &mut self,
        screen_y: usize,
        vram: &[u8],
        oam: &[u8],
        preview_offset: usize,
        bg_pofs: usize,
        obj_pofs: usize,
        surface: Option<&[u16]>,
        d: NdsDisplayRegs,
    )
        requires
            nds_emu_wf(*old(self)),
            screen_y <= NDS_SCREEN_HEIGHT,
            bg_pofs <= 0x1000,
            obj_pofs <= 0x1000,
            vram@ == old(self).bus.memory.vram@,
            display_fits(d, surface is Some),
        ensures
            nds_emu_wf(*final(self)),
            final(self).framebuffer@ == engine_picture(
                old(self).framebuffer@,
                vram@,
                oam@,
                old(self).bus.memory.palette@,
                screen_y as int,
                preview_offset as int,
                bg_pofs as int,
                obj_pofs as int,
                match surface {
                    Some(s) => Some(s@),
                    None => None,
                },
                d,
            ),
            final(self).bus == old(self).bus,
            final(self).header == old(self).header,
            final(self).arm7 == old(self).arm7,
            final(self).arm9 == old(self).arm9,
            final(self).main_3d_framebuffer == old(self).main_3d_framebuffer,
            final(self).ppu_main == old(self).ppu_main,
            final(self).ppu_sub == old(self).ppu_sub,
            final(self).total_frames == old(self).total_frames,
    {
        let ghost sf = match surface {
            Some(s) => Some(s@),
            None => None,
        };
        let ghost fb0 = self.framebuffer@;
        let ghost palette = self.bus.memory.palette@;
        let ghost r = bg_regs_of(d);
        let mut priorities = vec![4u8; NDS_SCREEN_PIXELS];
        assert(priorities@ =~= Seq::new(NDS_SCREEN_PIXELS as nat, |i: int| 4u8));
        let drawn = self.render_bg_layers(
            screen_y,
            vram,
            bg_pofs,
            surface,
            d.dispcnt,
            d.bgcnt,
            d.bghofs,
            d.bgvofs,
            d.bg_pa,
            d.bg_pb,
            d.bg_pc,
            d.bg_pd,
            d.bg_ref_x,
            d.bg_ref_y,
            d.master_bright,
            &mut priorities,
        );
        if drawn {
            assert(priorities@ =~= Seq::new(
                NDS_SCREEN_PIXELS as nat,
                |i: int| bg_screen_priority(vram@, palette, bg_pofs as int, sf, r, i),
            ));
        } else {
            self.render_screen_preview(screen_y, preview_offset, d.dispcnt, d.master_bright);
        }
        self.render_obj_layers(screen_y, vram, oam, obj_pofs, d.dispcnt, d.master_bright, &mut priorities);
    }

    /// What the renderer leaves out of the current display settings, for
    /// each engine that uses something it does not draw.
    pub fn video_warning(&self) -> (w: Option<String>)
        ensures
            match machine_warning_spec(
                video_warning_spec("Main"@, true, self.ppu_main.dispcnt, self.ppu_main.disp3dcnt),
                video_warning_spec("Sub"@, false, self.ppu_sub.dispcnt, self.ppu_sub.disp3dcnt),
            ) {
                Some(text) => w matches Some(s) && s@ == text,
                None => w is None,
            },
    {
        let main = describe_video_warning("Main", true, self.ppu_main.dispcnt, self.ppu_main.disp3dcnt);
        let sub = describe_video_warning("Sub", false, self.ppu_sub.dispcnt, self.ppu_sub.disp3dcnt);
        if main.is_none() && sub.is_none() {
            return None;
        }
        let mut text = String::new();
        text.push_str("DS video is partial: ");
        proof {
            reveal_strlit("DS video is partial: ");
            reveal_strlit(" | ");
        }
        match &main {
            Some(m) => {
                text.push_str(m.as_str());
            },
            None => {},
        }
        match &sub {
            Some(b) => {
                if main.is_some() {
                    text.push_str(" | ");
                }
                text.push_str(b.as_str());
            },
            None => {},
        }
        Some(text)
    }

    /// Draws the picture of both screens (see `nds_picture`): the stand-in
    /// frame, then each engine's layers and sprites from its display
    /// registers, the main engine's BG0 from the 3D surface over its clear
    /// plane.
    pub fn refresh_framebuffer(&mut self)
        requires
            nds_emu_wf(*old(self)),
            display_fits(old(self).ppu_main, true),
            display_fits(old(self).ppu_sub, false),
        ensures
            nds_emu_wf(*final(self)),
            final(self).framebuffer@ == nds_picture(*old(self)),
            final(self).bus == old(self).bus,
            final(self).header == old(self).header,
            final(self).arm7 == old(self).arm7,
            final(self).arm9 == old(self).arm9,
            final(self).main_3d_framebuffer == old(self).main_3d_framebuffer,
            final(self).ppu_main == old(self).ppu_main,
            final(self).ppu_sub == old(self).ppu_sub,
            final(self).total_frames == old(self).total_frames,
    {
        self.refresh_placeholder_framebuffer();
        let main = self.ppu_main;
        let sub = self.ppu_sub;
        let vram = vstd::slice::slice_to_vec(self.bus.memory.vram.as_slice());
        let mut surface = vstd::slice::slice_to_vec(self.main_3d_framebuffer.as_slice());
        apply_3d_clear_plane(&mut surface, main.clear_color, main.disp3dcnt);
        let main_oam = vstd::slice::slice_to_vec(
            vstd::slice::slice_subrange(self.bus.memory.oam.as_slice(), 0, OAM_SCREEN_BYTES),
        );
        let sub_oam = vstd::slice::slice_to_vec(
            vstd::slice::slice_subrange(self.bus.memory.oam.as_slice(), OAM_SCREEN_BYTES, 2 * OAM_SCREEN_BYTES),
        );
        self.render_engine(
            0,
            vram.as_slice(),
            main_oam.as_slice(),
            MAIN_SCREEN_VRAM_OFFSET,
            MAIN_BG_PALETTE_OFFSET,
            MAIN_OBJ_PALETTE_OFFSET,
            Some(surface.as_slice()),
            main,
        );
        self.render_engine(
            NDS_SCREEN_HEIGHT,
            vram.as_slice(),
            sub_oam.as_slice(),
            SUB_SCREEN_VRAM_OFFSET,
            SUB_BG_PALETTE_OFFSET,
            SUB_OBJ_PALETTE_OFFSET,
            None,
            sub,
        );
    }
}

} // verus!
