use vstd::prelude::*;
use crate::cpu::gb_cpu::{GbCpu, CpuState};
use crate::mmu::{Memory, BusOp, log_extends, new_ops, bus_value, lemma_log_push, lemma_log_trans};
use crate::utils::memory_registers::{IE_REGISTER_ADDRESS, JOYP_REGISTER_ADDRESS, KEY1_REGISTER_ADDRESS};

verus! {

/// CCF: complements the carry flag.
pub fn ccf(cpu: &mut GbCpu) -> (cycles: u8)
    ensures
        cycles == 0,
        final(cpu)@ == old(cpu)@.with_flags(old(cpu)@.zero(), false, false, !old(cpu)@.carry()),
{
    let carry: bool = cpu.get_flag(crate::cpu::flag::Flag::Carry);
    let zero: bool = cpu.get_flag(crate::cpu::flag::Flag::Zero);
    cpu.set_flags(zero, false, false, !carry);
    // 1 cycles - 1 reading opcode
    0
}

/// SCF: sets the carry flag.
pub fn scf(cpu: &mut GbCpu) -> (cycles: u8)
    ensures
        cycles == 0,
        final(cpu)@ == old(cpu)@.with_flags(old(cpu)@.zero(), false, false, true),
{
    let zero: bool = cpu.get_flag(crate::cpu::flag::Flag::Zero);
    cpu.set_flags(zero, false, false, true);
    // 1 cycles - 1 reading opcode
    0
}

/// HALT: the CPU and the memory bus enter the halt state.
pub fn halt<M: Memory>(cpu: &mut GbCpu, memory: &mut M) -> (cycles: u8)
    ensures
        cycles == 0,
        final(cpu)@ == (CpuState { halt: true, ..old(cpu)@ }),
        log_extends(old(memory).bus_log(), final(memory).bus_log()),
        new_ops(old(memory).bus_log(), final(memory).bus_log()) == seq![BusOp::Halt(true)],
{
    cpu.halt = true;
    memory.set_halt(true);
    proof {
        lemma_log_push(old(memory).bus_log(), BusOp::Halt(true));
    }
    // 1 cycles - 1 reading opcode
    0
}

/// The accesses and effect of STOP: the CPU stops when no interrupt is enabled and no joypad
/// line is selected; a speed switch armed in KEY1 toggles the double speed mode and disarms it.
pub open spec fn stop_effect(old_s: CpuState, new_s: CpuState, ops: Seq<BusOp>) -> bool {
    let ie = bus_value(ops[0]);
    let checks_joypad = ie & 0b11111 == 0;
    let i: int = if checks_joypad { 2 } else { 1 };
    let stops = checks_joypad && bus_value(ops[1]) & 0b1111 == 0;
    let key1 = bus_value(ops[i]);
    let switches = key1 & 1 != 0;
    &&& ops.len() > i
    &&& ops[0] == BusOp::Read { address: IE_REGISTER_ADDRESS, m_cycles: 0, value: ie }
    &&& checks_joypad ==> ops[1] == BusOp::Read {
        address: JOYP_REGISTER_ADDRESS,
        m_cycles: 0,
        value: bus_value(ops[1]),
    }
    &&& ops[i] == BusOp::Read { address: KEY1_REGISTER_ADDRESS, m_cycles: 0, value: key1 }
    &&& switches ==> ops.len() == i + 3 && ops[i + 1] == BusOp::DoubleSpeed(!old_s.double_speed)
        && ops[i + 2] == BusOp::Write { address: KEY1_REGISTER_ADDRESS, value: 0, m_cycles: 0 }
    &&& !switches ==> ops.len() == i + 1
    &&& new_s == (CpuState {
        stop: old_s.stop || stops,
        double_speed: if switches {
            !old_s.double_speed
        } else {
            old_s.double_speed
        },
        ..old_s
    })
}

/// STOP.
pub fn stop<M: Memory>(cpu: &mut GbCpu, memory: &mut M) -> (cycles: u8)
    ensures
        cycles == 0,
        log_extends(old(memory).bus_log(), final(memory).bus_log()),
        stop_effect(old(cpu)@, final(cpu)@, new_ops(old(memory).bus_log(), final(memory).bus_log())),
{
    let ghost log0 = memory.bus_log();
    let ie = memory.read(IE_REGISTER_ADDRESS, 0);
    let ghost log1 = memory.bus_log();
    proof {
        lemma_log_push(log0, BusOp::Read { address: IE_REGISTER_ADDRESS, m_cycles: 0, value: ie });
    }
    if ie & 0b11111 == 0 {
        let joyp = memory.read(JOYP_REGISTER_ADDRESS, 0);
        proof {
            lemma_log_push(log1, BusOp::Read { address: JOYP_REGISTER_ADDRESS, m_cycles: 0, value: joyp });
            lemma_log_trans(log0, log1, memory.bus_log());
        }
        if joyp & 0b1111 == 0 {
            cpu.stop = true;
        }
    }
    let ghost log2 = memory.bus_log();
    let key1 = memory.read(KEY1_REGISTER_ADDRESS, 0);
    let ghost log3 = memory.bus_log();
    proof {
        lemma_log_push(log2, BusOp::Read { address: KEY1_REGISTER_ADDRESS, m_cycles: 0, value: key1 });
        lemma_log_trans(log0, log2, log3);
    }
    if key1 & 1 != 0 {
        cpu.double_speed = !cpu.double_speed;
        memory.set_double_speed_mode(cpu.double_speed);
        let ghost log4 = memory.bus_log();
        memory.write(KEY1_REGISTER_ADDRESS, 0, 0);
        proof {
            lemma_log_push(log3, BusOp::DoubleSpeed(cpu.double_speed));
            lemma_log_push(log4, BusOp::Write { address: KEY1_REGISTER_ADDRESS, value: 0, m_cycles: 0 });
            lemma_log_trans(log3, log4, memory.bus_log());
            lemma_log_trans(log0, log3, memory.bus_log());
        }
    }
    // 1 cycles - 1 reading opcode
    0
}

/// DI: disables the interrupts.
pub fn di(cpu: &mut GbCpu) -> (cycles: u8)
    ensures
        cycles == 0,
        final(cpu)@ == (CpuState { mie: false, ..old(cpu)@ }),
{
    cpu.mie = false;
    0
}

/// EI: enables the interrupts.
pub fn ei(cpu: &mut GbCpu) -> (cycles: u8)
    ensures
        cycles == 0,
        final(cpu)@ == (CpuState { mie: true, ..old(cpu)@ }),
{
    cpu.mie = true;
    0
}

} // verus!
