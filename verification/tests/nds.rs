use gbrust::cpu::arm7tdmi::{Arm7Bus, Arm7Tdmi};
use gbrust::emulator::nds::{
    apply_master_brightness, describe_video_warning, rgb555_to_argb, supports_2d_layer_render, NdsEmulator,
    NdsBgKind, NdsRomHeader, ENABLE_3D_BIT, MAIN_BG_PALETTE_OFFSET, MAIN_OBJ_PALETTE_OFFSET,
    MAIN_SCREEN_VRAM_OFFSET, NDS_SCREEN_HEIGHT, OBJ_1D_MAPPING_BIT, OBJ_ENABLE_BIT, SUB_BG_PALETTE_OFFSET,
    SUB_SCREEN_VRAM_OFFSET,
};
use gbrust::NDS_WIDTH;
use gbrust::emulator::nds_layers::{active_2d_bgs, sample_bitmap_bg_pixel, sample_obj_pixel, sample_text_bg_pixel};
use gbrust::input::{NdsInput, NdsKey};
use gbrust::memory::nds_bus::{NdsArm9Bus, NdsBus, REG_EXTKEYIN, REG_KEYINPUT};

fn put_u32(rom: &mut [u8], at: usize, v: u32) {
    rom[at..at + 4].copy_from_slice(&v.to_le_bytes());
}

fn build_emulator_test_rom() -> Vec<u8> {
    let mut rom = vec![0u8; 0x400];
    rom[0x000..0x00C].copy_from_slice(b"TEST CART   ");
    rom[0x00C..0x010].copy_from_slice(b"TST0");
    rom[0x010..0x012].copy_from_slice(b"AB");
    rom[0x012] = 0;
    rom[0x013] = 0;
    rom[0x014] = 7;

    put_u32(&mut rom, 0x020, 0x0000_0200);
    put_u32(&mut rom, 0x024, 0x0200_0000);
    put_u32(&mut rom, 0x028, 0x0200_0000);
    put_u32(&mut rom, 0x02C, 0x0000_0010);
    put_u32(&mut rom, 0x030, 0x0000_0300);
    put_u32(&mut rom, 0x034, 0x0380_0000);
    put_u32(&mut rom, 0x038, 0x0380_0000);
    put_u32(&mut rom, 0x03C, 0x0000_0010);

    put_u32(&mut rom, 0x200, 0xE581_0000);
    put_u32(&mut rom, 0x204, 0xEAFF_FFFE);
    put_u32(&mut rom, 0x300, 0xE581_0000);
    put_u32(&mut rom, 0x304, 0xEAFF_FFFE);
    for (index, byte) in (0u8..8).enumerate() {
        rom[0x208 + index] = byte.wrapping_add(0x80);
        rom[0x308 + index] = byte.wrapping_add(0xC0);
    }
    rom
}

fn build_bus_test_rom() -> Vec<u8> {
    let mut rom = vec![0u8; 0x400];
    rom[0x000..0x00C].copy_from_slice(b"TEST CART   ");
    rom[0x00C..0x010].copy_from_slice(b"TST0");
    rom[0x010..0x012].copy_from_slice(b"AB");
    rom[0x014] = 7;

    put_u32(&mut rom, 0x020, 0x0000_0200);
    put_u32(&mut rom, 0x024, 0x0200_0000);
    put_u32(&mut rom, 0x028, 0x0200_0000);
    put_u32(&mut rom, 0x02C, 0x0000_0010);
    put_u32(&mut rom, 0x030, 0x0000_0300);
    put_u32(&mut rom, 0x034, 0x0380_0000);
    put_u32(&mut rom, 0x038, 0x0380_0000);
    put_u32(&mut rom, 0x03C, 0x0000_0008);

    put_u32(&mut rom, 0x300, 0xE581_0000);
    put_u32(&mut rom, 0x304, 0xEAFF_FFFE);
    rom
}

#[test]
fn nds_header_parser_extracts_program_sections() {
    let rom = build_emulator_test_rom();
    let header = NdsRomHeader::parse(&rom).expect("test ROM header should parse");

    assert_eq!(header.display_title(), "TEST CART");
    assert_eq!(header.game_code, "TST0");
    assert_eq!(header.maker_code, "AB");
    assert_eq!(header.arm9_rom_offset, 0x200);
    assert_eq!(header.arm7_rom_offset, 0x300);
}

#[test]
fn nds_emulator_bootstraps_dual_cpu_state_and_memory() {
    let rom = build_emulator_test_rom();
    let emu = NdsEmulator::new(rom.clone()).expect("test ROM should bootstrap");

    assert_eq!(emu.arm9.cpu.regs[15], 0x0200_0000);
    assert_eq!(emu.arm7.regs[15], 0x0380_0000);
    assert_eq!(&emu.bus.memory.main_ram[..16], &rom[0x200..0x210]);
    assert_eq!(&emu.bus.memory.arm7_wram[..8], &rom[0x300..0x308]);
}

#[test]
fn nds_emulator_runs_arm9_against_shared_bus_state() {
    let rom = build_emulator_test_rom();
    let mut emu = NdsEmulator::new(rom).expect("test ROM should bootstrap");

    emu.arm9.cpu.regs[0] = 0xCAFE_BABE;
    emu.arm9.cpu.regs[1] = 0x0200_0020;
    emu.run_arm9_slice(3);

    assert_eq!(u32::from_le_bytes(emu.bus.memory.main_ram[0x20..0x24].try_into().unwrap()), 0xCAFE_BABE);
    assert!(emu.bus.arm9_cycles >= 3);
}

#[test]
fn nds_emulator_rejects_short_roms() {
    let result = NdsEmulator::new(vec![0; 0x80]);
    assert!(matches!(result, Err(ref error) if error.contains("too small")));
}

#[test]
fn nds_2d_renderer_rejects_unsupported_display_modes() {
    let bg0 = 1u32 << 8;
    let bg3 = 1u32 << 11;
    assert!(supports_2d_layer_render(bg0));
    assert!(supports_2d_layer_render((1 << 16) | bg0));
    assert!(supports_2d_layer_render((1 << 16) | ENABLE_3D_BIT | bg0));
    assert!(supports_2d_layer_render((1 << 16) | 5 | bg3));
    assert!(!supports_2d_layer_render(2 << 16));
    assert!(!supports_2d_layer_render(6));
}

#[test]
fn nds_video_warning_reports_unsupported_modes() {
    let warning = describe_video_warning("Main", true, ENABLE_3D_BIT | (2 << 16) | 6, 0).expect("warning expected");
    assert!(warning.contains("display mode 2"));
    assert!(warning.contains("BG mode 6"));
    assert!(warning.contains("3D rasterizer"));
}

#[test]
fn nds_keys_use_active_low_registers() {
    let mut input = NdsInput::new();

    input.key_down(NdsKey::A);
    input.key_down(NdsKey::X);

    assert_eq!(input.read_keyinput() & 0x0001, 0);
    assert_eq!(input.read_extkeyin() & 0x0001, 0);

    input.key_up(NdsKey::A);
    input.key_up(NdsKey::X);

    assert_ne!(input.read_keyinput() & 0x0001, 0);
    assert_ne!(input.read_extkeyin() & 0x0001, 0);
}

#[test]
fn nds_bus_exposes_input_registers() {
    let rom = build_bus_test_rom();
    let header = NdsRomHeader::parse(&rom).expect("test ROM header should parse");
    let mut bus = NdsBus::new(rom, &header).expect("bus should initialize");

    assert_eq!(bus.read16(REG_KEYINPUT), 0x03FF);
    assert_eq!(bus.read16(REG_EXTKEYIN), 0x007F);

    bus.set_key(NdsKey::A, true);
    bus.set_key(NdsKey::X, true);

    assert_eq!(bus.read16(REG_KEYINPUT) & 0x0001, 0);
    assert_eq!(bus.read16(REG_EXTKEYIN) & 0x0001, 0);
}

#[test]
fn nds_bus_runs_arm7_memory_accesses() {
    let rom = build_bus_test_rom();
    let header = NdsRomHeader::parse(&rom).expect("test ROM header should parse");
    let mut bus = NdsBus::new(rom, &header).expect("bus should initialize");
    let mut cpu = Arm7Tdmi::new();

    cpu.regs[15] = 0x0380_0000;
    cpu.regs[0] = 0xDEAD_BEEF;
    cpu.regs[1] = 0x0380_0020;
    cpu.step(&mut bus);

    assert_eq!(bus.read32(0x0380_0020), 0xDEAD_BEEF);
}

#[test]
fn nds_header_rejects_section_past_rom_end() {
    let mut rom = build_emulator_test_rom();
    put_u32(&mut rom, 0x02C, 0x0000_0400);
    let err = NdsRomHeader::parse(&rom).unwrap_err();
    assert_eq!(err, "ARM9 program section exceeds ROM size: end=0x600, rom_len=0x400");
}

#[test]
fn nds_header_rejects_empty_and_overflowing_sections() {
    let mut rom = build_emulator_test_rom();
    put_u32(&mut rom, 0x03C, 0);
    assert_eq!(NdsRomHeader::parse(&rom).unwrap_err(), "ARM7 program section has zero length");
    let mut rom = build_emulator_test_rom();
    put_u32(&mut rom, 0x020, 0xFFFF_FFF0);
    assert_eq!(NdsRomHeader::parse(&rom).unwrap_err(), "ARM9 program section overflows the header range");
}

#[test]
fn nds_short_rom_message_names_both_sizes() {
    let err = NdsRomHeader::parse(&[0u8; 0x80]).unwrap_err();
    assert_eq!(err, "ROM is too small for an NDS header: expected at least 368 bytes, got 128");
}

#[test]
fn nds_header_trims_nul_then_white_space_and_defaults_title() {
    let mut rom = build_emulator_test_rom();
    rom[0x000..0x00C].copy_from_slice(b"\0 NAME \0\0\0\0\0");
    let header = NdsRomHeader::parse(&rom).unwrap();
    assert_eq!(header.game_title, "NAME");
    rom[0x000..0x00C].copy_from_slice(&[0u8; 12]);
    let header = NdsRomHeader::parse(&rom).unwrap();
    assert_eq!(header.display_title(), "Untitled NDS ROM");
}

#[test]
fn nds_emulator_reports_load_outside_memory() {
    let mut rom = build_emulator_test_rom();
    put_u32(&mut rom, 0x028, 0x0100_0000);
    let result = NdsEmulator::new(rom);
    assert!(matches!(result, Err(ref e) if e == "ARM9 RAM destination 0x01000000 is outside the currently modelled NDS memory regions"));
}

#[test]
fn nds_master_brightness_brightens_and_darkens() {
    assert_eq!(apply_master_brightness(0x4210, (1 << 14) | 8), 0x5EF7);
    assert_eq!(apply_master_brightness(0x4210, (2 << 14) | 8), 0x2108);
    assert_eq!(apply_master_brightness(0x4210, 8), 0x4210);
    assert_eq!(rgb555_to_argb(0x001F), 0xFFFF_0000);
    assert_eq!(rgb555_to_argb(0x7C00), 0xFF00_00FF);
}

#[test]
fn nds_frames_advance_the_placeholder_sweep() {
    let rom = build_emulator_test_rom();
    let mut emu = NdsEmulator::new(rom).expect("test ROM should bootstrap");
    let border = 0xFF00_0000u32 | (42 << 16) | (48 << 8) | 56;
    assert_eq!(emu.framebuffer[0], border);
    assert_eq!(emu.screen_width(), 256);
    assert_eq!(emu.screen_height(), 384);
    emu.run_frame();
    assert_eq!(emu.total_frames, 1);
    assert!(emu.audio_buffer().is_empty());
}

#[test]
fn nds_shared_memory_is_seen_by_both_processors() {
    let rom = build_bus_test_rom();
    let header = NdsRomHeader::parse(&rom).expect("test ROM header should parse");
    let mut bus = NdsBus::new(rom, &header).expect("bus should initialize");

    {
        let mut arm9 = NdsArm9Bus { bus: &mut bus };
        arm9.write8(0x0200_0040, 0xA5);
        arm9.write8(0x0600_0002, 0x3C);
    }
    assert_eq!(bus.read8(0x0200_0040), 0xA5);
    assert_eq!(bus.read8(0x0600_0002), 0x3C);

    bus.write8(0x0300_0010, 0x77);
    bus.write8(0x0380_0010, 0x11);
    assert_eq!(bus.read8(0x0380_0010), 0x11);
    let arm9 = NdsArm9Bus { bus: &mut bus };
    assert_eq!(arm9.read8(0x0300_0010), 0x77);
}

#[test]
fn nds_text_bg_pixel_reads_map_tile_and_palette() {
    let mut vram = vec![0u8; 0x100];
    vram[0] = 0x01; // map entry: tile 1, palette bank 0
    vram[32] = 0x03; // tile 1, first pixel: colour 3
    let mut palette = vec![0u8; 0x20];
    palette[6] = 0x1F;
    palette[7] = 0x7C;
    assert_eq!(sample_text_bg_pixel(&vram, &palette, 0, 0, 0, 0, 0, 0), Some(0x7C1F));
    // The second pixel of the tile is colour 0: transparent.
    assert_eq!(sample_text_bg_pixel(&vram, &palette, 0, 0, 0, 0, 1, 0), None);
}

#[test]
fn nds_active_bgs_are_ordered_by_priority_then_number() {
    let layers = active_2d_bgs(0x0700, [2, 0, 1, 0], false);
    let order: Vec<usize> = layers.iter().map(|l| l.bg).collect();
    assert_eq!(order, vec![1, 2, 0]);
    assert!(layers.iter().all(|l| l.kind == NdsBgKind::Text));
}

#[test]
fn nds_bitmap_and_obj_pixels() {
    let mut vram = vec![0u8; 0x400];
    vram[260] = 0x1F;
    vram[261] = 0x80;
    let palette = vec![0u8; 0x40];
    assert_eq!(
        sample_bitmap_bg_pixel(&vram, &palette, 0, 0, 0x100, 0, 0, 0x100, 0, 0, 2, 1, true),
        Some(0x001F)
    );
    assert_eq!(
        sample_bitmap_bg_pixel(&vram, &palette, 0, 0, 0x100, 0, 0, 0x100, 0, 0, 3, 1, true),
        None
    );

    let mut obj_vram = vec![0u8; 0x40];
    obj_vram[0] = 0x50;
    let mut obj_palette = vec![0u8; 0x40];
    obj_palette[42] = 0x34;
    obj_palette[43] = 0x12;
    assert_eq!(sample_obj_pixel(&obj_vram, &obj_palette, 0, 0, 1, false, true, 8, 1, 0), Some(0x1234));
    assert_eq!(sample_obj_pixel(&obj_vram, &obj_palette, 0, 0, 1, false, true, 8, 0, 0), None);
}

#[test]
fn nds_bg_layers_draw_over_backdrop_and_record_priority() {
    let mut emu = NdsEmulator::new(build_emulator_test_rom()).expect("test ROM should bootstrap");
    emu.bus.memory.palette[0] = 0x00;
    emu.bus.memory.palette[1] = 0x7C; // backdrop 0x7C00
    emu.bus.memory.palette[6] = 0x1F;
    emu.bus.memory.palette[7] = 0x00; // colour 3: 0x001F
    let mut vram = vec![0u8; 0x100];
    vram[0] = 0x01;
    vram[32] = 0x03;
    let mut priority = vec![9u8; 256 * 192];
    let drawn = emu.render_bg_layers(
        0, &vram, 0, None, 0x0100, [0; 4], [0; 4], [0; 4], [0x100; 2], [0; 2], [0; 2], [0x100; 2], [0; 2], [0; 2], 0,
        &mut priority,
    );
    assert!(drawn);
    assert_eq!(emu.framebuffer[0], rgb555_to_argb(0x001F));
    assert_eq!(priority[0], 0);
    assert_eq!(emu.framebuffer[1], rgb555_to_argb(0x7C00));
    assert_eq!(priority[1], 4);

    // No BG enabled: nothing drawn.
    let before = emu.framebuffer.clone();
    let drawn = emu.render_bg_layers(
        0, &vram, 0, None, 0x0000, [0; 4], [0; 4], [0; 4], [0x100; 2], [0; 2], [0; 2], [0x100; 2], [0; 2], [0; 2], 0,
        &mut priority,
    );
    assert!(!drawn);
    assert_eq!(emu.framebuffer, before);
}

#[test]
fn nds_obj_layers_draw_opaque_sprite_pixels_by_priority() {
    let mut emu = NdsEmulator::new(build_emulator_test_rom()).expect("test ROM should bootstrap");
    emu.bus.memory.palette[0x202] = 0x1F;
    emu.bus.memory.palette[0x203] = 0x00;
    let mut obj_vram = vec![0u8; 0x400];
    obj_vram[0] = 0x01;
    let mut oam = vec![0u8; 0x400];
    for i in 1..128 {
        oam[i * 8 + 1] = 0x02; // disabled
    }
    let mut priority = vec![4u8; 256 * 192];
    let before = emu.framebuffer.clone();
    emu.render_obj_layers(0, &obj_vram, &oam, 0x200, 0x1010, 0, &mut priority);
    assert_eq!(emu.framebuffer[0], rgb555_to_argb(0x001F));
    assert_eq!(priority[0], 0);
    assert_eq!(emu.framebuffer[1], before[1]);
    assert_eq!(priority[1], 4);

    // A lower-priority (numerically higher) pixel does not draw over priority 0.
    let mut priority = vec![0u8; 256 * 192];
    let mut emu2 = NdsEmulator::new(build_emulator_test_rom()).expect("test ROM should bootstrap");
    let before2 = emu2.framebuffer.clone();
    oam[5] = 0x04; // sprite 0 priority 1
    emu2.render_obj_layers(0, &obj_vram, &oam, 0x200, 0x1010, 0, &mut priority);
    assert_eq!(emu2.framebuffer[0], before2[0]);
}

#[test]
fn nds_header_trims_unicode_white_space() {
    let mut rom = build_emulator_test_rom();
    // "NAME", then U+3000 (ideographic space) in UTF-8, then NULs.
    rom[0x000..0x00C].copy_from_slice(b"NAME\xE3\x80\x80\0\0\0\0\0");
    let header = NdsRomHeader::parse(&rom).unwrap();
    assert_eq!(header.game_title, "NAME");
}

const BG_ENABLE_BITS: [u32; 4] = [1 << 8, 1 << 9, 1 << 10, 1 << 11];

#[test]
fn nds_emulator_renders_main_and_sub_vram_previews() {
    let rom = build_emulator_test_rom();
    let mut emu = NdsEmulator::new(rom).expect("test ROM should bootstrap");

    emu.ppu_main.dispcnt = 1;
    emu.ppu_sub.dispcnt = 1;
    emu.bus.memory.vram[MAIN_SCREEN_VRAM_OFFSET..MAIN_SCREEN_VRAM_OFFSET + 2]
        .copy_from_slice(&0x001Fu16.to_le_bytes());
    emu.bus.memory.vram[SUB_SCREEN_VRAM_OFFSET..SUB_SCREEN_VRAM_OFFSET + 2]
        .copy_from_slice(&0x7C00u16.to_le_bytes());

    emu.run_frame();

    assert_eq!(emu.framebuffer[0], rgb555_to_argb(0x001F));
    assert_eq!(emu.framebuffer[NDS_WIDTH * NDS_SCREEN_HEIGHT], rgb555_to_argb(0x7C00));
}

#[test]
fn nds_emulator_applies_master_brightness_to_screen_preview() {
    let rom = build_emulator_test_rom();
    let mut emu = NdsEmulator::new(rom).expect("test ROM should bootstrap");

    emu.ppu_main.dispcnt = 1;
    emu.ppu_main.master_bright = (1 << 14) | 8;
    emu.bus.memory.vram[MAIN_SCREEN_VRAM_OFFSET..MAIN_SCREEN_VRAM_OFFSET + 2]
        .copy_from_slice(&0x4210u16.to_le_bytes());

    emu.run_frame();

    let expected = rgb555_to_argb(apply_master_brightness(0x4210, emu.ppu_main.master_bright));
    assert_eq!(emu.framebuffer[0], expected);
}

#[test]
fn nds_emulator_renders_main_bg0_3d_surface() {
    let rom = build_emulator_test_rom();
    let mut emu = NdsEmulator::new(rom).expect("test ROM should bootstrap");

    emu.ppu_main.dispcnt = (1 << 16) | ENABLE_3D_BIT | BG_ENABLE_BITS[0];
    emu.main_3d_framebuffer[0] = 0x8000 | 0x03E0;

    emu.run_frame();

    assert_eq!(emu.framebuffer[0], rgb555_to_argb(0x03E0));
}

#[test]
fn nds_clear_plane_shows_where_the_3d_surface_is_transparent() {
    let rom = build_emulator_test_rom();
    let mut emu = NdsEmulator::new(rom).expect("test ROM should bootstrap");

    emu.ppu_main.dispcnt = (1 << 16) | ENABLE_3D_BIT | BG_ENABLE_BITS[0];
    emu.ppu_main.clear_color = (31 << 16) | 0x001F;

    emu.run_frame();

    assert_eq!(emu.framebuffer[0], rgb555_to_argb(0x001F));
}

#[test]
fn nds_text_bg0_layers_of_both_engines_read_the_vram() {
    let rom = build_emulator_test_rom();
    let mut emu = NdsEmulator::new(rom).expect("test ROM should bootstrap");

    emu.ppu_main.dispcnt = BG_ENABLE_BITS[0];
    emu.ppu_main.bgcnt[0] = 0x0080 | (1 << 8);
    emu.ppu_sub.dispcnt = BG_ENABLE_BITS[0];
    emu.ppu_sub.bgcnt[0] = 0x0080 | (1 << 8);
    emu.bus.memory.vram[0] = 1;
    emu.bus.memory.vram[0x800..0x802].copy_from_slice(&0u16.to_le_bytes());
    emu.bus.memory.palette[MAIN_BG_PALETTE_OFFSET + 2..MAIN_BG_PALETTE_OFFSET + 4]
        .copy_from_slice(&0x03E0u16.to_le_bytes());
    emu.bus.memory.palette[SUB_BG_PALETTE_OFFSET + 2..SUB_BG_PALETTE_OFFSET + 4]
        .copy_from_slice(&0x7C00u16.to_le_bytes());

    emu.run_frame();

    assert_eq!(emu.framebuffer[0], rgb555_to_argb(0x03E0));
    assert_eq!(emu.framebuffer[NDS_WIDTH * NDS_SCREEN_HEIGHT], rgb555_to_argb(0x7C00));
}

#[test]
fn nds_main_sprite_is_drawn_from_the_vram_and_oam() {
    let rom = build_emulator_test_rom();
    let mut emu = NdsEmulator::new(rom).expect("test ROM should bootstrap");

    emu.ppu_main.dispcnt = OBJ_ENABLE_BIT | OBJ_1D_MAPPING_BIT;
    emu.bus.memory.vram[0] = 1;
    emu.bus.memory.oam[0..2].copy_from_slice(&0x2000u16.to_le_bytes());
    emu.bus.memory.palette[MAIN_OBJ_PALETTE_OFFSET + 2..MAIN_OBJ_PALETTE_OFFSET + 4]
        .copy_from_slice(&0x001Fu16.to_le_bytes());

    emu.run_frame();

    assert_eq!(emu.framebuffer[0], rgb555_to_argb(0x001F));
}

#[test]
fn nds_emulator_video_warning_joins_both_engines() {
    let rom = build_emulator_test_rom();
    let mut emu = NdsEmulator::new(rom).expect("test ROM should bootstrap");
    assert_eq!(emu.video_warning(), None);

    emu.ppu_main.dispcnt = 2 << 16;
    assert_eq!(
        emu.video_warning().as_deref(),
        Some("DS video is partial: Main engine uses display mode 2")
    );

    emu.ppu_sub.dispcnt = 6;
    assert_eq!(
        emu.video_warning().as_deref(),
        Some("DS video is partial: Main engine uses display mode 2 | Sub engine uses BG mode 6")
    );
}
