use gbrust::cartridge::mbc::{Mbc, MbcType};
use gbrust::cartridge::{CartridgeType, GbaBackupType, GbaCartridge, GbcCartridge};
use gbrust::cpu::sm83::Sm83Bus;
use gbrust::memory::gbc_bus::GbcBus;

fn make_gba_eeprom_cart() -> GbaCartridge {
    let mut rom = vec![0u8; 0x100000];
    let sig = b"EEPROM_V";
    rom[0x1000..0x1008].copy_from_slice(sig);
    GbaCartridge::load(rom)
}

fn make_gba_mario_eeprom_cart() -> GbaCartridge {
    let mut rom = vec![0u8; 0x100000];
    let sig = b"EEPROM_V";
    rom[0x1000..0x1008].copy_from_slice(sig);
    rom[0xAC..0xB0].copy_from_slice(b"AA2E");
    GbaCartridge::load(rom)
}

fn make_gba_flash128k_cart() -> GbaCartridge {
    let mut rom = vec![0u8; 0x100000];
    let sig = b"FLASH1M_V";
    rom[0x1000..0x1009].copy_from_slice(sig);
    GbaCartridge::load(rom)
}

fn flash_unlock_command(cart: &mut GbaCartridge, command: u8) {
    cart.write_sram(0x0E00_5555, 0xAA);
    cart.write_sram(0x0E00_2AAA, 0x55);
    cart.write_sram(0x0E00_5555, command);
}

#[test]
fn gbc_cartridge_load() {
    let mut rom = vec![0u8; 32768]; // 32KB minimum
    rom[0x0147] = 0x00; // ROM Only
    rom[0x0148] = 0x00; // 32KB
    rom[0x0149] = 0x00; // No RAM
    rom[0x0134] = b'T';
    rom[0x0135] = b'E';
    rom[0x0136] = b'S';
    rom[0x0137] = b'T';
    let cart = GbcCartridge::load(rom);
    assert_eq!(cart.cart_type, CartridgeType::RomOnly);
    assert!(cart.title.starts_with("TEST"));
}

#[test]
fn cartridge_type_has_battery() {
    assert!(!CartridgeType::RomOnly.has_battery());
    assert!(CartridgeType::Mbc1RamBattery.has_battery());
    assert!(CartridgeType::Mbc3TimerBattery.has_battery());
    assert!(CartridgeType::Mbc5RamBattery.has_battery());
}

#[test]
fn mbc_none_read_rom() {
    let mbc = Mbc::new(MbcType::NoMbc);
    let rom = vec![0x42u8; 32768];
    assert_eq!(mbc.read_rom(0x0000, &rom), 0x42);
}

#[test]
fn mbc1_bank_switching() {
    let mut mbc = Mbc::new(MbcType::Mbc1);
    // Write bank number 2 to 0x2000 range
    mbc.write_register(0x2000, 2);
    assert_eq!(mbc.rom_bank, 2);
}

#[test]
fn mbc_ram_disabled_by_default() {
    let mbc = Mbc::new(MbcType::Mbc1);
    assert!(!mbc.ram_enabled);
}

#[test]
fn mbc1_enable_ram() {
    let mut mbc = Mbc::new(MbcType::Mbc1);
    mbc.write_register(0x0000, 0x0A);
    assert!(mbc.ram_enabled);
    mbc.write_register(0x0000, 0x00);
    assert!(!mbc.ram_enabled);
}

#[test]
fn gba_cartridge_load() {
    let mut rom = vec![0u8; 0x100000]; // 1MB
    // Title at 0xA0-0xAB
    rom[0xA0] = b'T';
    rom[0xA1] = b'E';
    rom[0xA2] = b'S';
    rom[0xA3] = b'T';
    let cart = GbaCartridge::load(rom);
    // Default fallback is Sram when no backup string detected
    assert_eq!(cart.backup_type, GbaBackupType::Sram);
}

#[test]
fn gba_backup_detection_sram() {
    let mut rom = vec![0u8; 0x100000];
    // Insert SRAM_V signature
    let sig = b"SRAM_V";
    rom[0x1000..0x1006].copy_from_slice(sig);
    let cart = GbaCartridge::load(rom);
    assert_eq!(cart.backup_type, GbaBackupType::Sram);
}

#[test]
fn gba_backup_detection_eeprom() {
    let cart = make_gba_eeprom_cart();
    assert_eq!(cart.backup_type, GbaBackupType::Eeprom);
}

#[test]
fn gba_flash128k_accesses_upper_half_of_bank_window() {
    let mut cart = make_gba_flash128k_cart();

    flash_unlock_command(&mut cart, 0xA0);
    cart.write_sram(0x0E00_D123, 0x5A);

    assert_eq!(cart.read_sram(0x0E00_D123), 0x5A);
    assert_eq!(cart.flash[0xD123], 0x5A);
}

#[test]
fn gba_eeprom_dma_detects_addr_length() {
    let mut cart = make_gba_eeprom_cart();
    cart.notify_eeprom_dma(17);
    assert_eq!(cart.eeprom_addr_len, 14);
    cart.notify_eeprom_dma(9);
    assert_eq!(cart.eeprom_addr_len, 6);
}

#[test]
fn gba_eeprom_size_matches_detected_bus_width() {
    let mut cart = make_gba_eeprom_cart();
    assert_eq!(cart.eeprom_size(), 0x200);

    cart.notify_eeprom_dma(17);
    assert_eq!(cart.eeprom_size(), 0x2000);

    cart.notify_eeprom_dma(9);
    assert_eq!(cart.eeprom_size(), 0x200);
}

#[test]
fn gba_mario_eeprom_forces_8k_geometry() {
    let mut cart = make_gba_mario_eeprom_cart();

    assert_eq!(cart.eeprom_size(), 0x2000);

    cart.notify_eeprom_dma(17);
    assert_eq!(cart.eeprom_addr_len, 14);
    assert_eq!(cart.eeprom_size(), 0x2000);

    cart.notify_eeprom_dma(81);
    assert_eq!(cart.eeprom_addr_len, 14);
    assert_eq!(cart.eeprom_size(), 0x2000);
}

#[test]
fn gba_eeprom_write_and_read_roundtrip_with_leading_zero_bit() {
    let mut cart = make_gba_eeprom_cart();
    cart.notify_eeprom_dma(73);
    let address = 0b000011u16;
    let data = 0x0123_4567_89AB_CDEFu64;

    for bit in [1u8, 0u8] {
        cart.eeprom_write(bit);
    }
    for shift in (0..cart.eeprom_addr_len).rev() {
        cart.eeprom_write(((address >> shift) & 1) as u8);
    }
    for shift in (0..64).rev() {
        cart.eeprom_write(((data >> shift) & 1) as u8);
    }
    cart.eeprom_write(0);

    let byte_addr = address as usize * 8;
    assert_eq!(&cart.eeprom[byte_addr..byte_addr + 8], &data.to_be_bytes());

    for bit in [1u8, 1u8] {
        cart.eeprom_write(bit);
    }
    for shift in (0..cart.eeprom_addr_len).rev() {
        cart.eeprom_write(((address >> shift) & 1) as u8);
    }
    cart.eeprom_write(0);

    let mut bits = Vec::new();
    for _ in 0..68 {
        bits.push(cart.eeprom_read());
        cart.eeprom_read_advance();
    }

    assert!(bits[..4].iter().all(|&bit| bit == 0));
    for (idx, expected) in (0..64).rev().map(|shift| ((data >> shift) & 1) as u8).enumerate() {
        assert_eq!(bits[idx + 4], expected);
    }
}

#[test]
fn gbc_work_ram_echo_and_high_ram_read_back() {
    let cart = GbcCartridge::load(vec![0u8; 32768]);
    let mut bus = GbcBus::new(cart);

    bus.write(0xC123, 0x42);
    assert_eq!(bus.read(0xC123), 0x42);
    assert_eq!(bus.read(0xE123), 0x42);

    bus.write(0xE200, 0x24);
    assert_eq!(bus.read(0xC200), 0x24);

    bus.write(0xFF90, 0x99);
    assert_eq!(bus.read(0xFF90), 0x99);
    bus.write(0xFE10, 0x07);
    assert_eq!(bus.read(0xFE10), 0x07);
}
