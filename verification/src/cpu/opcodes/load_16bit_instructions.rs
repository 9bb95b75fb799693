use vstd::prelude::*;
use crate::cpu::gb_cpu::{GbCpu, CpuState, push_ops};
use crate::cpu::opcodes::opcodes_utils::{pop_ops_shape, popped_value, write_byte};
use crate::cpu::opcodes::arithmetic_16bit_instructions::{rr_index, get_rr_index};
use crate::cpu::opcodes::jump_instructions::address_operand;
use crate::mmu::{Memory, BusOp, log_extends, new_ops, lemma_log_trans};
use crate::utils::wrapping::{wrap16, wrapping_add16};

verus! {

/// The first byte of a 3 byte opcode.
pub open spec fn first_byte(opcode: u32) -> u8 {
    ((opcode >> 16) & 0xFF) as u8
}

/// LD rr,nn.
pub fn load_rr_nn(cpu: &mut GbCpu, opcode: u32) -> (cycles: u8)
    ensures
        cycles == 0,
        final(cpu)@ == old(cpu)@.with_r16(rr_index(first_byte(opcode)), address_operand(opcode)),
{
    let idx = get_rr_index(((opcode >> 16) & 0xFF) as u8);
    let value = (((opcode & 0xFF) as u16) << 8) | (((opcode & 0xFF00) as u16) >> 8);
    cpu.set_r16(idx, value);
    // 3 cycles - 3 reading opcode
    0
}

/// LD SP,HL.
pub fn load_sp_hl(cpu: &mut GbCpu) -> (cycles: u8)
    ensures
        cycles == 1,
        final(cpu)@ == old(cpu)@.with_sp(old(cpu)@.hl),
{
    cpu.stack_pointer = cpu.hl.value();
    // 2 cycles - 1 reading opcode, 1 internal operation
    1
}

/// LD (nn),SP: stores SP little endian.
pub fn ld_nn_sp<M: Memory>(cpu: &mut GbCpu, memory: &mut M, opcode: u32) -> (cycles: u8)
    ensures
        cycles == 0,
        final(cpu)@ == old(cpu)@,
        log_extends(old(memory).bus_log(), final(memory).bus_log()),
        new_ops(old(memory).bus_log(), final(memory).bus_log()) == seq![
            BusOp::Write {
                address: address_operand(opcode),
                value: (old(cpu)@.sp & 0xFF) as u8,
                m_cycles: 1,
            },
            BusOp::Write {
                address: wrap16(address_operand(opcode) + 1),
                value: (old(cpu)@.sp >> 8) as u8,
                m_cycles: 1,
            },
        ],
{
    let address = (((opcode & 0xFF) as u16) << 8) | (((opcode & 0xFF00) as u16) >> 8);
    let sp = cpu.stack_pointer;
    let ghost log0 = memory.bus_log();
    write_byte(memory, address, (sp & 0xFF) as u8);
    let ghost log1 = memory.bus_log();
    write_byte(memory, wrapping_add16(address, 1), (sp >> 8) as u8);
    proof {
        lemma_log_trans(log0, log1, memory.bus_log());
        assert(new_ops(log0, memory.bus_log()) =~= seq![
            BusOp::Write { address, value: (sp & 0xFF) as u8, m_cycles: 1 },
            BusOp::Write { address: wrap16(address + 1), value: (sp >> 8) as u8, m_cycles: 1 },
        ]);
    }
    // 5 cycles - 3 reading opcode, 2 writing sp to address
    0
}

/// PUSH rr (BC, DE, HL, AF).
pub fn push<M: Memory>(cpu: &mut GbCpu, memory: &mut M, opcode: u8) -> (cycles: u8)
    ensures
        cycles == 1,
        final(cpu)@ == old(cpu)@.with_sp(wrap16(old(cpu)@.sp - 2)),
        log_extends(old(memory).bus_log(), final(memory).bus_log()),
        new_ops(old(memory).bus_log(), final(memory).bus_log()) == push_ops(
            old(cpu)@.sp,
            old(cpu)@.stack_r16(rr_index(opcode)),
        ),
{
    let idx = get_rr_index(opcode);
    let value = if idx == 3 {
        cpu.af.value()
    } else {
        cpu.get_r16(idx)
    };
    crate::cpu::opcodes::opcodes_utils::push(cpu, memory, value);
    // 4 cycles - 1 reading opcode, 2 writing to the stack, 1 internal operation
    1
}

/// POP rr (BC, DE, HL, AF).
pub fn pop<M: Memory>(cpu: &mut GbCpu, memory: &mut M, opcode: u8) -> (cycles: u8)
    ensures
        cycles == 0,
        log_extends(old(memory).bus_log(), final(memory).bus_log()),
        ({
            let ops = new_ops(old(memory).bus_log(), final(memory).bus_log());
            &&& pop_ops_shape(old(cpu)@.sp, ops)
            &&& final(cpu)@ == old(cpu)@.with_sp(wrap16(old(cpu)@.sp + 2)).with_stack_r16(
                rr_index(opcode),
                popped_value(ops),
            )
        }),
{
    let idx = get_rr_index(opcode);
    let value = crate::cpu::opcodes::opcodes_utils::pop(cpu, memory);
    if idx == 3 {
        cpu.af.set_value(value);
    } else {
        cpu.set_r16(idx, value);
    }
    // 3 cycles - 1 reading opcode, 2 reading from the stack
    0
}

} // verus!
