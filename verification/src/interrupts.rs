pub mod gba;
pub mod gbc;
