pub mod gbc_bus;
pub mod nds_bus;
pub mod gba_bus;
