pub mod utils;
pub mod cpu;
pub mod mmu;
pub mod machine;
pub mod keypad;
pub mod apu;
pub mod ppu;
pub mod debugger;
