pub mod flag;
pub mod register;
pub mod gb_cpu;
pub mod opcodes;
pub mod opcode_runner;
