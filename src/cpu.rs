pub mod addressing;
pub mod bus;
pub mod cartridge;
pub mod cpu;
pub mod cpu_stack;
pub mod cpu_status;
pub mod instructions;
pub mod interrupt;
pub mod memory;
pub mod mirroring;
pub mod register;
pub mod lemmas;
