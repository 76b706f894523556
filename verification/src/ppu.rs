pub mod gba_ppu;
pub mod gbc_ppu;
