use vstd::prelude::*;
use crate::cpu::gb_cpu::{GbCpu, CpuState};
use super::Mode;

verus! {

/// The CPU registers a boot ROM leaves behind, for each mode: AF, BC, DE and HL.
pub open spec fn boot_registers(mode: Mode) -> (u16, u16, u16, u16) {
    match mode {
        Mode::DMG => (0x190, 0x13, 0xD8, 0x14D),
        Mode::CGB => (0x1180, 0x0, 0xFF56, 0xD),
    }
}

/// The CPU of a machine started without a boot ROM: the registers as the boot ROM of the
/// mode leaves them (F keeps its low nibble clear), the stack at 0xFFFE and the program
/// counter at 0x100, the entry point of the cartridge.
pub fn cpu_without_bootrom(mode: Mode) -> (cpu: GbCpu)
    ensures
        cpu@ == (CpuState {
            af: boot_registers(mode).0 & 0xFFF0,
            bc: boot_registers(mode).1 & 0xFFFF,
            de: boot_registers(mode).2 & 0xFFFF,
            hl: boot_registers(mode).3 & 0xFFFF,
            af_mask: 0xFFF0,
            bc_mask: 0xFFFF,
            de_mask: 0xFFFF,
            hl_mask: 0xFFFF,
            sp: 0xFFFE,
            pc: 0x100,
            mie: false,
            halt: false,
            stop: false,
            cgb_mode: false,
            double_speed: false,
        }),
{
    let mut cpu = GbCpu::default();
    match mode {
        Mode::DMG => {
            cpu.af.set_value(0x190);
            cpu.bc.set_value(0x13);
            cpu.de.set_value(0xD8);
            cpu.hl.set_value(0x14D);
        },
        Mode::CGB => {
            cpu.af.set_value(0x1180);
            cpu.bc.set_value(0x0);
            cpu.de.set_value(0xFF56);
            cpu.hl.set_value(0xD);
        },
    }
    cpu.stack_pointer = 0xFFFE;
    cpu.program_counter = 0x100;
    cpu
}

} // verus!
