pub mod gba_apu;
pub mod gbc_apu;
