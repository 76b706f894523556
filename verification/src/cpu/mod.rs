pub mod arm7tdmi;
pub mod sm83;
