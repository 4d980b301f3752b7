pub mod byte_status;
pub mod cpu;
pub mod flags;
pub mod ppu;
pub mod render;
pub mod trace;
