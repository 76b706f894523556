use gbrust::apu::gbc_apu::{NoiseChannel, SquareChannel, WaveChannel};
use gbrust::interrupts::{gba, gbc};
use gbrust::ppu::gba_ppu::GbaPpu;
use gbrust::ppu::gbc_ppu::GbcPpu;
use gbrust::ConsoleType;

#[test]
fn gbc_ppu_initial_state() {
    let ppu = GbcPpu::new(true);
    assert_eq!(ppu.framebuffer.len(), 160 * 144);
    assert_eq!(ppu.lcdc, 0x91);
    assert!(ppu.is_cgb);
    assert_eq!(ppu.ly, 0);
}

#[test]
fn gbc_ppu_vram_bank() {
    let mut ppu = GbcPpu::new(true);
    ppu.vram_bank = 0;
    ppu.write_vram(0x8000, 0x42);
    assert_eq!(ppu.read_vram(0x8000), 0x42);

    ppu.vram_bank = 1;
    ppu.write_vram(0x8000, 0x99);
    assert_eq!(ppu.read_vram(0x8000), 0x99);

    // Switch back to bank 0, should still have original value
    ppu.vram_bank = 0;
    assert_eq!(ppu.read_vram(0x8000), 0x42);
}

#[test]
fn gbc_ppu_mode_transitions() {
    let mut ppu = GbcPpu::new(false);
    // Tick through a whole line
    let mut modes_seen = std::collections::HashSet::new();
    for _ in 0..456 {
        ppu.tick(1);
        modes_seen.insert(ppu.mode as u8);
    }
    assert!(modes_seen.len() >= 2); // Should see at least OamScan and other modes
}

#[test]
fn gba_ppu_initial_state() {
    let ppu = GbaPpu::new();
    assert_eq!(ppu.framebuffer.len(), 240 * 160);
    assert_eq!(ppu.vram.len(), 96 * 1024);
    assert_eq!(ppu.palette.len(), 1024);
    assert_eq!(ppu.oam.len(), 1024);
    assert_eq!(ppu.vcount, 161);
    assert_ne!(ppu.read_dispstat() & 0x1, 0);
}

#[test]
fn gba_ppu_dispstat() {
    let ppu = GbaPpu::new();
    let dispstat = ppu.read_dispstat();
    assert_eq!(dispstat & 7, 1);
}

#[test]
fn square_channel_trigger() {
    let mut ch = SquareChannel::new();
    ch.volume_initial = 15;
    ch.envelope_period = 3;
    ch.frequency = 0x700;
    ch.trigger();
    assert!(ch.enabled);
    assert_eq!(ch.volume, 15);
}

#[test]
fn square_channel_length() {
    let mut ch = SquareChannel::new();
    ch.length_counter = 1;
    ch.length_enabled = true;
    ch.enabled = true;
    ch.clock_length();
    assert!(!ch.enabled); // Should disable after reaching 0
}

#[test]
fn square_channel_envelope() {
    let mut ch = SquareChannel::new();
    ch.volume = 10;
    ch.volume_initial = 10;
    ch.envelope_add = false;
    ch.envelope_period = 1;
    ch.envelope_timer = 1;
    ch.enabled = true;
    ch.clock_envelope();
    assert_eq!(ch.volume, 9);
}

#[test]
fn noise_channel_trigger() {
    let mut ch = NoiseChannel::new();
    ch.volume_initial = 8;
    ch.trigger();
    assert!(ch.enabled);
    assert_eq!(ch.volume, 8);
    assert_eq!(ch.lfsr, 0x7FFF);
}

#[test]
fn gbc_interrupt_addresses() {
    assert_eq!(gbc::interrupt_addr(0), 0x0040);
    assert_eq!(gbc::interrupt_addr(1), 0x0048);
    assert_eq!(gbc::interrupt_addr(2), 0x0050);
}

#[test]
fn gba_interrupt_constants() {
    assert_eq!(gba::VBLANK, 1);
    assert_eq!(gba::HBLANK, 2);
    assert_eq!(gba::TIMER0, 8);
    assert_eq!(gba::DMA0, 256);
}

#[test]
fn from_extension_gbc() {
    assert_eq!(
        ConsoleType::from_extension("gbc"),
        Some(ConsoleType::GameBoyColor)
    );
    assert_eq!(
        ConsoleType::from_extension("gb"),
        Some(ConsoleType::GameBoyColor)
    );
}

#[test]
fn from_extension_gba() {
    assert_eq!(
        ConsoleType::from_extension("gba"),
        Some(ConsoleType::GameBoyAdvance)
    );
}

#[test]
fn from_extension_unknown() {
    assert_eq!(ConsoleType::from_extension("nes"), None);
}

#[test]
fn screen_dimensions() {
    assert_eq!(ConsoleType::GameBoyColor.screen_width(), 160);
    assert_eq!(ConsoleType::GameBoyColor.screen_height(), 144);
    assert_eq!(ConsoleType::GameBoyAdvance.screen_width(), 240);
    assert_eq!(ConsoleType::GameBoyAdvance.screen_height(), 160);
}

/// The wave channel's output as a fraction of full scale.
fn wave_output(ch: &WaveChannel) -> f32 {
    ch.output_level() as f32 / 60.0
}

#[test]
fn wave_channel_muted_output_is_silent() {
    let mut ch = WaveChannel::new();
    ch.enabled = true;
    ch.dac_enabled = true;
    ch.volume_code = 0;
    ch.sample_buffer = 15;
    assert_eq!(wave_output(&ch), 0.0);
}

#[test]
fn wave_channel_output_is_centered_before_scaling() {
    let mut ch = WaveChannel::new();
    ch.enabled = true;
    ch.dac_enabled = true;
    ch.volume_code = 2;

    ch.sample_buffer = 15;
    assert!((wave_output(&ch) - 0.5).abs() < 1e-6);

    ch.sample_buffer = 0;
    assert!((wave_output(&ch) + 0.5).abs() < 1e-6);
}

#[test]
fn wave_channel_full_and_quarter_volume_outputs() {
    let mut ch = WaveChannel::new();
    ch.enabled = true;
    ch.dac_enabled = true;
    ch.sample_buffer = 15;
    ch.volume_code = 1;
    assert_eq!(ch.output_level(), 60);
    ch.volume_code = 3;
    ch.sample_buffer = 0;
    assert_eq!(ch.output_level(), -15);
    ch.dac_enabled = false;
    assert_eq!(ch.output_level(), 0);
}
