pub mod constants;
pub mod state;
pub mod instructions;
pub mod cpu;
pub mod ppu;
