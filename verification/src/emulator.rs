pub mod gbc;
pub mod nds;
pub mod nds_layers;
pub mod nds_frame;
pub mod gba;
