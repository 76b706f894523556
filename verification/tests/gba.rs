use gbrust::apu::gba_apu::GbaApu;
use gbrust::apu::gbc_apu::GbcApu;
use gbrust::cartridge::GbaCartridge;
use gbrust::cpu::arm7tdmi::{Arm7Bus, Arm7Tdmi};
use gbrust::emulator::gba::GbaEmulator;
use gbrust::memory::gba_bus::GbaBus;
use gbrust::save::{
    bank_is_informatively_duplicated_low_halfwords, gba_backup_data, gba_backup_is_incomplete_pokemon_flash_save,
    gba_palette_has_duplicated_banks, GBA_FLASH_SECTOR_SIZE, GBA_PALETTE_BANK_SIZE, GBA_PALETTE_RAM_SIZE,
    POKEMON_GBA_SAVE_SIGNATURE,
};

fn write_arm(bus: &mut impl Arm7Bus, addr: u32, instr: u32) {
    bus.write32(addr, instr);
}

fn make_gba_eeprom_cart() -> GbaCartridge {
    let mut rom = vec![0u8; 0x100000];
    let sig = b"EEPROM_V";
    rom[0x1000..0x1008].copy_from_slice(sig);
    GbaCartridge::load(rom)
}

fn make_gba_mario_eeprom_cart() -> GbaCartridge {
    let mut rom = vec![0u8; 0x100000];
    let sig = b"EEPROM_V";
    rom[0x1000..0x1008].copy_from_slice(sig);
    rom[0xAC..0xB0].copy_from_slice(b"AA2E");
    GbaCartridge::load(rom)
}

fn make_gba_flash128k_cart() -> GbaCartridge {
    let mut rom = vec![0u8; 0x100000];
    let sig = b"FLASH1M_V";
    rom[0x1000..0x1009].copy_from_slice(sig);
    GbaCartridge::load(rom)
}

fn write_dma_bits(bus: &mut GbaBus, src: u32, bits: &[u8]) {
    for (index, bit) in bits.iter().copied().enumerate() {
        bus.write16(src + (index as u32) * 2, bit as u16);
    }
}

fn run_dma3(bus: &mut GbaBus, src: u32, dst: u32, count: u16) {
    bus.write32(0x0400_00D4, src);
    bus.write32(0x0400_00D8, dst);
    bus.write32(0x0400_00DC, 0x8000_0000 | count as u32);
    bus.tick(0);
}

fn write_pokemon_flash_footer(data: &mut [u8], sector: usize, section_id: u16, save_index: u32) {
    let footer = &mut data[sector * GBA_FLASH_SECTOR_SIZE + GBA_FLASH_SECTOR_SIZE - 12
        ..sector * GBA_FLASH_SECTOR_SIZE + GBA_FLASH_SECTOR_SIZE];
    footer[0..2].copy_from_slice(&section_id.to_le_bytes());
    footer[2..4].copy_from_slice(&0u16.to_le_bytes());
    footer[4..8].copy_from_slice(&POKEMON_GBA_SAVE_SIGNATURE.to_le_bytes());
    footer[8..12].copy_from_slice(&save_index.to_le_bytes());
}

#[test]
fn gba_irq_dispatch_from_thumb_handler_updates_ram() {
    let mut cpu = Arm7Tdmi::new();
    let cart = GbaCartridge::load(vec![0; 0x200]);
    let mut bus = GbaBus::new(cart);
    let resume_pc = 0x0800_1234;
    let handler = 0x0300_0000;
    let flag_addr = 0x0200_0000;

    cpu.regs[15] = resume_pc;
    cpu.cpsr |= 1 << 5;
    bus.ime = true;
    bus.ie = 0x0001;
    bus.iflag = 0x0001;

    bus.write32(0x0300_7FFC, handler);
    write_arm(&mut bus, handler, 0xE59F_0008); // LDR R0, [PC, #8]
    write_arm(&mut bus, handler + 4, 0xE3A0_1001); // MOV R1, #1
    write_arm(&mut bus, handler + 8, 0xE580_1000); // STR R1, [R0]
    write_arm(&mut bus, handler + 12, 0xE12F_FF1E); // BX LR
    write_arm(&mut bus, handler + 16, flag_addr);

    cpu.handle_irq();
    for _ in 0..13 {
        cpu.step(&mut bus);
    }

    assert_eq!(bus.read32(flag_addr), 1);
    assert_eq!(cpu.regs[15], resume_pc);
    assert!(cpu.thumb_mode());
}

#[test]
fn gba_bus_cpuset_32bit_copy_preserves_halfwords() {
    let mut cpu = Arm7Tdmi::new();
    let cart = GbaCartridge::load(vec![0; 0x200]);
    let mut bus = GbaBus::new(cart);
    let src = 0x0200_0000;
    let dst = 0x0200_0100;
    let code = 0x0200_2000;
    let words = [
        0x5B5F_530E,
        0x3A5B_4B1F,
        0x3D27_210F,
        0x28A3_30E5,
    ];

    for (index, word) in words.iter().enumerate() {
        bus.write32(src + (index as u32) * 4, *word);
    }

    cpu.regs[0] = src;
    cpu.regs[1] = dst;
    cpu.regs[2] = 0x0400_0004;
    cpu.regs[15] = code;
    write_arm(&mut bus, code, 0xEF0B_0000);
    cpu.step(&mut bus);

    for (index, word) in words.iter().enumerate() {
        assert_eq!(bus.read32(dst + (index as u32) * 4), *word);
    }
}

#[test]
fn gba_bus_cpuset_full_palette_copy_preserves_halfwords() {
    let mut cpu = Arm7Tdmi::new();
    let cart = GbaCartridge::load(vec![0; 0x200]);
    let mut bus = GbaBus::new(cart);
    let src = 0x0200_4000;
    let dst = src + 0x400;
    let code = 0x0200_4800;

    for index in 0..0x100u32 {
        let low = (index as u16).wrapping_mul(7).wrapping_add(0x1357);
        let high = (index as u16).wrapping_mul(11).wrapping_add(0x2468);
        bus.write32(src + index * 4, (high as u32) << 16 | low as u32);
    }

    cpu.regs[0] = src;
    cpu.regs[1] = dst;
    cpu.regs[2] = 0x0400_0100;
    cpu.regs[15] = code;
    write_arm(&mut bus, code, 0xEF0B_0000);
    cpu.step(&mut bus);

    for index in 0..0x100u32 {
        let expected = bus.read32(src + index * 4);
        assert_eq!(bus.read32(dst + index * 4), expected);
    }
}

#[test]
fn gba_bus_cpufastset_copy_preserves_halfwords() {
    let mut cpu = Arm7Tdmi::new();
    let cart = GbaCartridge::load(vec![0; 0x200]);
    let mut bus = GbaBus::new(cart);
    let src = 0x0200_1000;
    let dst = 0x0200_1100;
    let code = 0x0200_3000;
    let words = [
        0x5B5F_530E,
        0x3A5B_4B1F,
        0x3D27_210F,
        0x28A3_30E5,
        0x779B_1C82,
        0x2E77_2F1F,
        0x2118_2D9F,
        0x0000_7FFF,
    ];

    for (index, word) in words.iter().enumerate() {
        bus.write32(src + (index as u32) * 4, *word);
    }

    cpu.regs[0] = src;
    cpu.regs[1] = dst;
    cpu.regs[2] = 8;
    cpu.regs[15] = code;
    write_arm(&mut bus, code, 0xEF0C_0000);
    cpu.step(&mut bus);

    for (index, word) in words.iter().enumerate() {
        assert_eq!(bus.read32(dst + (index as u32) * 4), *word);
    }
}

#[test]
fn gba_bus_dma32_copy_preserves_halfwords() {
    let cart = GbaCartridge::load(vec![0; 0x200]);
    let mut bus = GbaBus::new(cart);
    let src = 0x0200_2000;
    let dst = 0x0200_2100;
    let words = [
        0x5B5F_530E,
        0x3A5B_4B1F,
        0x3D27_210F,
        0x28A3_30E5,
        0x779B_1C82,
        0x2E77_2F1F,
        0x2118_2D9F,
        0x0000_7FFF,
    ];

    for (index, word) in words.iter().enumerate() {
        bus.write32(src + (index as u32) * 4, *word);
    }

    let channel = &mut bus.dma.channels[3];
    channel.src_addr = src;
    channel.dst_addr = dst;
    channel.count = words.len() as u16;
    channel.word_size = true;
    channel.src_control = 0;
    channel.dst_control = 0;
    channel.enabled = true;
    channel.active = true;
    bus.tick(0);

    for (index, word) in words.iter().enumerate() {
        assert_eq!(bus.read32(dst + (index as u32) * 4), *word);
    }
}

#[test]
fn gba_bus_dma32_via_io_registers_preserves_halfwords() {
    let cart = GbaCartridge::load(vec![0; 0x200]);
    let mut bus = GbaBus::new(cart);
    let src = 0x0200_3000;
    let dst = 0x0200_3100;
    let words = [
        0x5B5F_530E,
        0x3A5B_4B1F,
        0x3D27_210F,
        0x28A3_30E5,
        0x779B_1C82,
        0x2E77_2F1F,
        0x2118_2D9F,
        0x0000_7FFF,
    ];

    for (index, word) in words.iter().enumerate() {
        bus.write32(src + (index as u32) * 4, *word);
    }

    bus.write32(0x0400_00B0, src);
    bus.write32(0x0400_00B4, dst);
    bus.write32(0x0400_00B8, 0x8400_0008);
    bus.tick(0);

    for (index, word) in words.iter().enumerate() {
        assert_eq!(bus.read32(dst + (index as u32) * 4), *word);
    }
}

#[test]
fn gba_bus_dma32_full_palette_copy_preserves_halfwords() {
    let cart = GbaCartridge::load(vec![0; 0x200]);
    let mut bus = GbaBus::new(cart);
    let src = 0x0200_3800;
    let dst = src + 0x400;

    for index in 0..0x100u32 {
        let low = (index as u16).wrapping_mul(3).wrapping_add(0x1234);
        let high = (index as u16).wrapping_mul(5).wrapping_add(0x4567);
        bus.write32(src + index * 4, (high as u32) << 16 | low as u32);
    }

    bus.write32(0x0400_00B0, src);
    bus.write32(0x0400_00B4, dst);
    bus.write32(0x0400_00B8, 0x8400_0100);
    bus.tick(0);

    for index in 0..0x100u32 {
        let expected = bus.read32(src + index * 4);
        assert_eq!(bus.read32(dst + index * 4), expected);
    }
}

#[test]
fn gba_bus_arm_block_transfer_preserves_halfwords() {
    let mut cpu = Arm7Tdmi::new();
    let cart = GbaCartridge::load(vec![0; 0x200]);
    let mut bus = GbaBus::new(cart);
    let src = 0x0200_3200;
    let dst = 0x0200_3300;
    let code = 0x0200_3400;
    let words = [
        0x5B5F_530E,
        0x3A5B_4B1F,
        0x3D27_210F,
        0x28A3_30E5,
    ];

    for (index, word) in words.iter().enumerate() {
        bus.write32(src + (index as u32) * 4, *word);
    }

    cpu.regs[0] = src;
    cpu.regs[1] = dst;
    cpu.regs[15] = code;
    write_arm(&mut bus, code, 0xE8B0_003C);
    write_arm(&mut bus, code + 4, 0xE8A1_003C);

    cpu.step(&mut bus);
    cpu.step(&mut bus);

    for (index, word) in words.iter().enumerate() {
        assert_eq!(bus.read32(dst + (index as u32) * 4), *word);
    }
    assert_eq!(cpu.regs[0], src + 16);
    assert_eq!(cpu.regs[1], dst + 16);
}

#[test]
fn gba_bus_thumb_block_transfer_preserves_halfwords() {
    let mut cpu = Arm7Tdmi::new();
    let cart = GbaCartridge::load(vec![0; 0x200]);
    let mut bus = GbaBus::new(cart);
    let src = 0x0200_3500;
    let dst = 0x0200_3600;
    let code = 0x0200_3700;
    let words = [
        0x5B5F_530E,
        0x3A5B_4B1F,
        0x3D27_210F,
        0x28A3_30E5,
    ];

    for (index, word) in words.iter().enumerate() {
        bus.write32(src + (index as u32) * 4, *word);
    }

    cpu.regs[0] = src;
    cpu.regs[1] = dst;
    cpu.regs[15] = code;
    cpu.cpsr |= 1 << 5;
    bus.write16(code, 0xC83C);
    bus.write16(code + 2, 0xC13C);

    cpu.step(&mut bus);
    cpu.step(&mut bus);

    for (index, word) in words.iter().enumerate() {
        assert_eq!(bus.read32(dst + (index as u32) * 4), *word);
    }
    assert_eq!(cpu.regs[0], src + 16);
    assert_eq!(cpu.regs[1], dst + 16);
}

#[test]
fn gba_mario_eeprom_dma_roundtrip_matches_written_bits() {
    let cart = make_gba_mario_eeprom_cart();
    let mut bus = GbaBus::new(cart);
    let write_src = 0x0200_4000;
    let read_cmd_src = 0x0200_4200;
    let read_dst = 0x0200_4400;
    let address = 0x0123u16;
    let data = 0x0123_4567_89AB_CDEFu64;

    let mut write_bits = Vec::with_capacity(81);
    write_bits.extend_from_slice(&[1, 0]);
    for shift in (0..14).rev() {
        write_bits.push(((address >> shift) & 1) as u8);
    }
    for shift in (0..64).rev() {
        write_bits.push(((data >> shift) & 1) as u8);
    }
    write_bits.push(0);
    write_dma_bits(&mut bus, write_src, &write_bits);
    run_dma3(&mut bus, write_src, 0x0D00_0000, write_bits.len() as u16);

    assert_eq!(bus.read16(0x0D00_0000) & 1, 1);

    let mut read_cmd_bits = Vec::with_capacity(17);
    read_cmd_bits.extend_from_slice(&[1, 1]);
    for shift in (0..14).rev() {
        read_cmd_bits.push(((address >> shift) & 1) as u8);
    }
    read_cmd_bits.push(0);
    write_dma_bits(&mut bus, read_cmd_src, &read_cmd_bits);
    run_dma3(&mut bus, read_cmd_src, 0x0D00_0000, read_cmd_bits.len() as u16);
    run_dma3(&mut bus, 0x0D00_0000, read_dst, 68);

    for index in 0..4u32 {
        assert_eq!(bus.read16(read_dst + index * 2) & 1, 0);
    }

    for (index, expected) in (0..64).rev().map(|shift| ((data >> shift) & 1) as u16).enumerate() {
        assert_eq!(bus.read16(read_dst + ((index as u32 + 4) * 2)) & 1, expected);
    }
}

#[test]
fn gba_eeprom_cpu_halfword_reads_advance_serial_bits() {
    let mut cart = make_gba_eeprom_cart();
    cart.notify_eeprom_dma(73);
    let address = 0b000001u16;
    let data = 0x8000_0000_0000_0000u64;

    for bit in [1u8, 0u8] {
        cart.eeprom_write(bit);
    }
    for shift in (0..cart.eeprom_addr_len).rev() {
        cart.eeprom_write(((address >> shift) & 1) as u8);
    }
    for shift in (0..64).rev() {
        cart.eeprom_write(((data >> shift) & 1) as u8);
    }
    cart.eeprom_write(0);

    for bit in [1u8, 1u8] {
        cart.eeprom_write(bit);
    }
    for shift in (0..cart.eeprom_addr_len).rev() {
        cart.eeprom_write(((address >> shift) & 1) as u8);
    }
    cart.eeprom_write(0);

    let mut bus = GbaBus::new(cart);
    for _ in 0..4 {
        assert_eq!(bus.read16(0x0D00_0000) & 1, 0);
    }
    assert_eq!(bus.read16(0x0D00_0000) & 1, 1);
}

#[test]
fn gbc_apu_initial_state() {
    let apu = GbcApu::new();
    assert!(apu.enabled);
    assert_eq!(apu.nr50, 0x77);
}

#[test]
fn gbc_apu_power_off() {
    let mut apu = GbcApu::new();
    apu.write(0xFF26, 0x00); // Power off
    assert!(!apu.enabled);
}

#[test]
fn gbc_apu_generates_samples() {
    let mut apu = GbcApu::new();
    apu.tick(8192); // Tick enough to generate samples
    assert!(!apu.audio_buffer.is_empty());
}

#[test]
fn gba_apu_initial_state() {
    let apu = GbaApu::new();
    assert!(apu.enabled);
    assert!(apu.fifo_a.is_empty());
    assert!(apu.fifo_b.is_empty());
}

#[test]
fn gba_apu_fifo_write() {
    let mut apu = GbaApu::new();
    apu.write_fifo(0, 0x01020304);
    assert_eq!(apu.fifo_a.len(), 4);
}

#[test]
fn gba_apu_timer_overflow_consumes_fifo() {
    let mut apu = GbaApu::new();
    apu.fifo_a.push(42);
    apu.soundcnt_h = 0; // FIFO A uses timer 0
    apu.timer_overflow(0);
    assert_eq!(apu.fifo_a_sample, 42);
    assert!(apu.fifo_a.is_empty());
}

#[test]
fn duplicated_bank_detector_ignores_zeroed_bank() {
    assert!(!bank_is_informatively_duplicated_low_halfwords(
        &[0; GBA_PALETTE_BANK_SIZE]
    ));
}

#[test]
fn duplicated_bank_detector_accepts_varied_duplicated_bank() {
    let mut bank = [0u8; GBA_PALETTE_BANK_SIZE];
    for (index, value) in [0x530E_u16, 0x4AFB, 0x212D, 0x7FFF].into_iter().enumerate() {
        let offset = index * 4;
        let bytes = value.to_le_bytes();
        bank[offset..offset + 2].copy_from_slice(&bytes);
        bank[offset + 2..offset + 4].copy_from_slice(&bytes);
    }

    assert!(bank_is_informatively_duplicated_low_halfwords(&bank));
}

#[test]
fn gba_state_palette_repair_restores_duplicated_banks() {
    let mut emu = GbaEmulator::new(GbaCartridge::load(vec![0; 0x200]));
    let match_offset = 0x30000usize;
    let src_start = match_offset - GBA_PALETTE_RAM_SIZE;

    for bank_offset in (0..GBA_PALETTE_RAM_SIZE).step_by(GBA_PALETTE_BANK_SIZE) {
        for word_offset in (0..GBA_PALETTE_BANK_SIZE).step_by(4) {
            let base = src_start + bank_offset + word_offset;
            let value = [
                (bank_offset + word_offset) as u8,
                (bank_offset + word_offset + 1) as u8,
                (bank_offset + word_offset + 2) as u8,
                (bank_offset + word_offset + 3) as u8,
            ];
            emu.bus.ewram[base..base + 4].copy_from_slice(&value);
            emu.bus.ewram[match_offset + bank_offset + word_offset] = value[0];
            emu.bus.ewram[match_offset + bank_offset + word_offset + 1] = value[1];
            emu.bus.ewram[match_offset + bank_offset + word_offset + 2] = value[0];
            emu.bus.ewram[match_offset + bank_offset + word_offset + 3] = value[1];
        }
    }

    let copy = emu.bus.ewram[match_offset..match_offset + GBA_PALETTE_RAM_SIZE].to_vec();
    emu.bus.ppu.palette.copy_from_slice(&copy);

    assert!(emu.repair_gba_palette_state_if_needed());

    assert_eq!(
        &emu.bus.ewram[match_offset..match_offset + GBA_PALETTE_RAM_SIZE],
        &emu.bus.ewram[src_start..src_start + GBA_PALETTE_RAM_SIZE]
    );
    assert_eq!(
        &emu.bus.ppu.palette[..],
        &emu.bus.ewram[src_start..src_start + GBA_PALETTE_RAM_SIZE]
    );
}

#[test]
fn gba_flash_pokemon_complete_section_set_is_not_flagged_incomplete() {
    let mut data = vec![0xFF; 0x20000];
    for section_id in 0..14u16 {
        write_pokemon_flash_footer(&mut data, section_id as usize, section_id, 7);
    }

    assert!(!gba_backup_is_incomplete_pokemon_flash_save(&data));
}

#[test]
fn gba_flash_pokemon_incomplete_section_set_is_flagged() {
    let mut data = vec![0xFF; 0x20000];
    for (sector, section_id) in [(6usize, 13u16), (7, 0), (16, 9), (17, 10), (18, 11), (19, 12), (20, 5), (21, 6), (22, 7), (23, 8)] {
        write_pokemon_flash_footer(&mut data, sector, section_id, 1);
    }

    assert!(gba_backup_is_incomplete_pokemon_flash_save(&data));
}

#[test]
fn gba_flash_legacy_incomplete_pokemon_save_is_ignored_on_load_data() {
    let mut data = vec![0xFF; 0x20000];
    for (sector, section_id) in [(6usize, 13u16), (7, 0), (16, 9), (17, 10), (18, 11), (19, 12), (20, 5), (21, 6), (22, 7), (23, 8)] {
        write_pokemon_flash_footer(&mut data, sector, section_id, 1);
    }
    let mut emu = GbaEmulator::new(make_gba_flash128k_cart());
    assert!(!emu.load_backup_data(&data));
    assert!(emu.bus.cart.flash.iter().all(|&byte| byte == 0xFF));
}

#[test]
fn gba_loads_full_8k_eeprom_backup_when_data_size_requires_it() {
    let mut data = vec![0xFF; 0x2000];
    data[0x1FFE] = 0x12;
    data[0x1FFF] = 0x34;
    let mut emu = GbaEmulator::new(make_gba_eeprom_cart());
    assert!(emu.load_backup_data(&data));
    assert_eq!(emu.bus.cart.eeprom_addr_len, 14);
    assert_eq!(emu.bus.cart.eeprom[0x1FFE], 0x12);
    assert_eq!(emu.bus.cart.eeprom[0x1FFF], 0x34);
}

#[test]
fn gba_backup_of_mario_like_rom_is_full_8k_eeprom() {
    let mut emu = GbaEmulator::new(make_gba_mario_eeprom_cart());
    emu.bus.cart.notify_eeprom_dma(17);
    emu.bus.cart.eeprom[0x1FF] = 0x5A;
    emu.bus.cart.eeprom[0x1FFE] = 0xC3;
    let saved = gba_backup_data(&emu).unwrap();
    assert_eq!(saved.len(), 0x2000);
    assert_eq!(saved[0x1FF], 0x5A);
    assert_eq!(saved[0x1FFE], 0xC3);
}

#[test]
fn gba_palette_scan_finds_duplicated_bank() {
    let mut emu = GbaEmulator::new(GbaCartridge::load(vec![0; 0x200]));
    assert!(!gba_palette_has_duplicated_banks(&emu));
    for (index, value) in [0x530E_u16, 0x4AFB, 0x212D, 0x7FFF].into_iter().enumerate() {
        let bytes = value.to_le_bytes();
        emu.bus.ppu.palette[0x40 + index * 4..0x42 + index * 4].copy_from_slice(&bytes);
        emu.bus.ppu.palette[0x42 + index * 4..0x44 + index * 4].copy_from_slice(&bytes);
    }
    assert!(gba_palette_has_duplicated_banks(&emu));
}

#[test]
fn gba_bus_reads_io_and_interrupt_registers() {
    let mut bus = GbaBus::new(GbaCartridge::load(vec![0; 0x200]));
    bus.write16(0x0400_0200, 0x1234);
    assert_eq!(bus.read16(0x0400_0200), 0x1234);
    bus.iflag = 0xFFFF;
    bus.write8(0x0400_0202, 0x01);
    assert_eq!(bus.iflag, 0x00FE);
    bus.write8(0x0400_0208, 3);
    assert!(bus.ime);
    bus.write8(0x0400_0301, 0);
    assert!(bus.halt);
    assert_eq!(bus.read8(0x0400_0300), 1);
    assert_eq!(bus.read16(0x0400_0130), 0x03FF);
}

#[test]
fn gba_bus_byte_writes_to_video_memory() {
    let mut bus = GbaBus::new(GbaCartridge::load(vec![0; 0x200]));
    bus.write8(0x0500_0003, 0x7C);
    assert_eq!(bus.read16(0x0500_0002), 0x7C7C);
    bus.write8(0x0601_8001, 0x11);
    assert_eq!(bus.read16(0x0601_0000), 0x1111);
    bus.write8(0x0700_0000, 0x22);
    assert_eq!(bus.read8(0x0700_0000), 0);
    assert_eq!(bus.read32(0x0000_0000), 0xE3A0_F302);
}

#[test]
fn gba_emulator_frame_counts_and_screen() {
    let mut rom = vec![0u8; 0x200];
    rom[0..4].copy_from_slice(&0xEAFF_FFFEu32.to_le_bytes());
    let mut emu = GbaEmulator::new(GbaCartridge::load(rom));
    assert_eq!(emu.screen_width(), 240);
    assert_eq!(emu.screen_height(), 160);
    let len = emu.run_frame().len();
    assert_eq!(len, 240 * 160);
    assert_eq!(emu.total_frames, 1);
    assert!(emu.frame_cycles >= 280896);
    let samples = emu.audio_buffer();
    assert!(!samples.is_empty());
    assert!(emu.audio_buffer().is_empty());
}


#[test]
fn gba_work_ram_reads_back_bytes_words_and_mirrors() {
    let cart = GbaCartridge::load(vec![0; 0x200]);
    let mut bus = GbaBus::new(cart);

    bus.write8(0x0200_0010, 0x5A);
    assert_eq!(bus.read8(0x0200_0010), 0x5A);
    assert_eq!(bus.read8(0x0204_0010), 0x5A);

    bus.write32(0x0300_0100, 0x1234_5678);
    assert_eq!(bus.read32(0x0300_0100), 0x1234_5678);
    assert_eq!(bus.read8(0x0300_8100), 0x78);
    assert_eq!(bus.read8(0x0300_0103), 0x12);
}

fn lz77_fixture(bus: &mut GbaBus, src: u32) {
    // Header: type 0x10, 6 bytes out; then 'A', 'B' and a 4-byte copy from 2 back.
    let data = [0x10u8, 0x06, 0x00, 0x00, 0x20, b'A', b'B', 0x10, 0x01];
    for (i, b) in data.iter().enumerate() {
        bus.write8(src + i as u32, *b);
    }
}

#[test]
fn gba_swi_lz77_wram_expands_back_references() {
    let mut cpu = Arm7Tdmi::new();
    let mut bus = GbaBus::new(GbaCartridge::load(vec![0; 0x200]));
    let src = 0x0200_0000;
    let dst = 0x0300_0100;
    let code = 0x0200_2000;
    lz77_fixture(&mut bus, src);
    cpu.regs[0] = src;
    cpu.regs[1] = dst;
    cpu.regs[15] = code;
    write_arm(&mut bus, code, 0xEF11_0000);
    cpu.step(&mut bus);
    let out: Vec<u8> = (0..6).map(|i| bus.read8(dst + i)).collect();
    assert_eq!(out, b"ABABAB".to_vec());
    assert_eq!(bus.read8(dst + 6), 0);
}

#[test]
fn gba_swi_lz77_vram_writes_halfwords() {
    let mut cpu = Arm7Tdmi::new();
    let mut bus = GbaBus::new(GbaCartridge::load(vec![0; 0x200]));
    let src = 0x0200_0000;
    let dst = 0x0600_0000;
    let code = 0x0200_2000;
    lz77_fixture(&mut bus, src);
    cpu.regs[0] = src;
    cpu.regs[1] = dst;
    cpu.regs[15] = code;
    write_arm(&mut bus, code, 0xEF12_0000);
    cpu.step(&mut bus);
    assert_eq!(bus.read16(dst), u16::from_le_bytes([b'A', b'B']));
    assert_eq!(bus.read16(dst + 2), u16::from_le_bytes([b'A', b'B']));
    assert_eq!(bus.read16(dst + 4), u16::from_le_bytes([b'A', b'B']));
}

#[test]
fn gba_swi_obj_affine_set_writes_identity_for_unit_scale() {
    let mut cpu = Arm7Tdmi::new();
    let mut bus = GbaBus::new(GbaCartridge::load(vec![0; 0x200]));
    let src = 0x0200_0000;
    let dst = 0x0200_0100;
    let code = 0x0200_2000;
    bus.write16(src, 0x0100);
    bus.write16(src + 2, 0x0100);
    bus.write16(src + 4, 0x0000);
    cpu.regs[0] = src;
    cpu.regs[1] = dst;
    cpu.regs[2] = 1;
    cpu.regs[3] = 2;
    cpu.regs[15] = code;
    write_arm(&mut bus, code, 0xEF0F_0000);
    cpu.step(&mut bus);
    assert_eq!(bus.read16(dst), 0x0100);
    assert_eq!(bus.read16(dst + 2), 0x0000);
    assert_eq!(bus.read16(dst + 4), 0x0000);
    assert_eq!(bus.read16(dst + 6), 0x0100);
}

#[test]
fn gba_run_frame_advances_one_frame_of_video() {
    // The program is one branch to itself.
    let mut rom = vec![0u8; 0x200];
    rom[0..4].copy_from_slice(&0xEAFF_FFFEu32.to_le_bytes());
    let mut emu = GbaEmulator::new(GbaCartridge::load(rom));
    let vcount = emu.bus.ppu.vcount;
    emu.run_frame();
    assert_eq!(emu.total_frames, 1);
    assert!(emu.frame_cycles >= 280896);
    assert_eq!(emu.bus.ppu.vcount, vcount);
}
