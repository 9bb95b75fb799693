use vstd::prelude::*;
use crate::cpu::flag::Flag;
use crate::cpu::gb_cpu::GbCpu;
use crate::cpu::opcodes::opcodes_utils::{get_cb_opcode, get_src_index, dest_index};
use crate::cpu::opcodes::rotate_shift_instructions::{cb_reg, hl_rmw, first_value, lemma_rmw};
use crate::mmu::{Memory, BusOp, log_extends, new_ops, bus_value, lemma_log_push};

verus! {

/// The bit that a 0xCB prefixed bit opcode tests, sets or resets, as a mask.
pub open spec fn cb_bit_mask(opcode: u16) -> u8 {
    1u8 << dest_index((opcode & 0xFF) as u8)
}

fn get_bit_number(opcode: u8) -> (r: u8)
    ensures
        r == 1u8 << dest_index(opcode),
{
    let bit_number: u8 = (opcode & 0b00111000) >> 3;
    assert((opcode & 0b00111000) >> 3 == (opcode >> 3) & 0b111) by (bit_vector);
    assert((opcode & 0b00111000) >> 3 < 8) by (bit_vector);
    1u8 << bit_number
}

fn set_flags_bit(cpu: &mut GbCpu, zero: bool)
    ensures
        final(cpu)@ == old(cpu)@.with_flags(zero, false, true, old(cpu)@.carry()),
{
    let carry = cpu.get_flag(Flag::Carry);
    cpu.set_flags(zero, false, true, carry);
}

/// BIT n,r: the zero flag tells whether bit n of the register is clear.
pub fn bit_r(cpu: &mut GbCpu, opcode: u16) -> (cycles: u8)
    requires
        cb_reg(opcode) != 6,
    ensures
        cycles == 0,
        final(cpu)@ == old(cpu)@.with_flags(
            old(cpu)@.r8(cb_reg(opcode)) & cb_bit_mask(opcode) == 0,
            false,
            true,
            old(cpu)@.carry(),
        ),
{
    let opcode = get_cb_opcode(opcode);
    let register = cpu.get_r8(get_src_index(opcode));
    let bit_number = get_bit_number(opcode);
    let bit = register & bit_number;
    set_flags_bit(cpu, bit == 0);
    // 2 cycles - 2 reading opcode
    0
}

/// BIT n,(HL).
pub fn bit_hl<M: Memory>(cpu: &mut GbCpu, memory: &mut M, opcode: u16) -> (cycles: u8)
    ensures
        cycles == 0,
        log_extends(old(memory).bus_log(), final(memory).bus_log()),
        ({
            let ops = new_ops(old(memory).bus_log(), final(memory).bus_log());
            &&& ops == seq![
                BusOp::Read { address: old(cpu)@.hl, m_cycles: 1, value: first_value(ops) },
            ]
            &&& final(cpu)@ == old(cpu)@.with_flags(
                first_value(ops) & cb_bit_mask(opcode) == 0,
                false,
                true,
                old(cpu)@.carry(),
            )
        }),
{
    let opcode = get_cb_opcode(opcode);
    let ghost log0 = memory.bus_log();
    let byte = memory.read(cpu.hl.value(), 1);
    proof {
        lemma_log_push(log0, BusOp::Read { address: old(cpu)@.hl, m_cycles: 1, value: byte });
    }
    let bit_number = get_bit_number(opcode);
    let bit = byte & bit_number;
    set_flags_bit(cpu, bit == 0);
    // 3 cycles - 2 reading opcode, 1 reading hl address
    0
}

/// SET n,r.
pub fn set_r(cpu: &mut GbCpu, opcode: u16) -> (cycles: u8)
    requires
        cb_reg(opcode) != 6,
    ensures
        cycles == 0,
        final(cpu)@ == old(cpu)@.with_r8(
            cb_reg(opcode),
            old(cpu)@.r8(cb_reg(opcode)) | cb_bit_mask(opcode),
        ),
{
    let opcode = get_cb_opcode(opcode);
    let idx = get_src_index(opcode);
    let register = cpu.get_r8(idx);
    let bit_number = get_bit_number(opcode);
    cpu.set_r8(idx, register | bit_number);
    // 2 cycles - 2 reading opcode
    0
}

/// SET n,(HL).
pub fn set_hl<M: Memory>(cpu: &mut GbCpu, memory: &mut M, opcode: u16) -> (cycles: u8)
    ensures
        cycles == 0,
        final(cpu)@ == old(cpu)@,
        log_extends(old(memory).bus_log(), final(memory).bus_log()),
        ({
            let ops = new_ops(old(memory).bus_log(), final(memory).bus_log());
            hl_rmw(old(cpu)@.hl, ops, first_value(ops) | cb_bit_mask(opcode))
        }),
{
    let opcode = get_cb_opcode(opcode);
    let hl = cpu.hl.value();
    let ghost log0 = memory.bus_log();
    let mut byte = memory.read(hl, 1);
    let ghost v = byte;
    let ghost log1 = memory.bus_log();
    let bit_number = get_bit_number(opcode);
    byte = byte | bit_number;
    memory.write(hl, byte, 1);
    proof {
        lemma_rmw(log0, log1, memory.bus_log(), hl, v, byte);
    }
    // 4 cycles - 2 reading opcode, 1 reading hl address, 1 writing hl address
    0
}

/// RES n,r.
pub fn res_r(cpu: &mut GbCpu, opcode: u16) -> (cycles: u8)
    requires
        cb_reg(opcode) != 6,
    ensures
        cycles == 0,
        final(cpu)@ == old(cpu)@.with_r8(
            cb_reg(opcode),
            old(cpu)@.r8(cb_reg(opcode)) & (0xFF ^ cb_bit_mask(opcode)),
        ),
{
    let opcode = get_cb_opcode(opcode);
    let idx = get_src_index(opcode);
    let register = cpu.get_r8(idx);
    let bit_number = get_bit_number(opcode);
    let bit_mask: u8 = 0xFF ^ bit_number;
    cpu.set_r8(idx, register & bit_mask);
    0
}

/// RES n,(HL).
pub fn res_hl<M: Memory>(cpu: &mut GbCpu, memory: &mut M, opcode: u16) -> (cycles: u8)
    ensures
        cycles == 0,
        final(cpu)@ == old(cpu)@,
        log_extends(old(memory).bus_log(), final(memory).bus_log()),
        ({
            let ops = new_ops(old(memory).bus_log(), final(memory).bus_log());
            hl_rmw(old(cpu)@.hl, ops, first_value(ops) & (0xFF ^ cb_bit_mask(opcode)))
        }),
{
    let opcode = get_cb_opcode(opcode);
    let hl = cpu.hl.value();
    let ghost log0 = memory.bus_log();
    let mut byte = memory.read(hl, 1);
    let ghost v = byte;
    let ghost log1 = memory.bus_log();
    let bit_number = get_bit_number(opcode);
    let bit_mask: u8 = 0xFF ^ bit_number;
    byte = byte & bit_mask;
    memory.write(hl, byte, 1);
    proof {
        lemma_rmw(log0, log1, memory.bus_log(), hl, v, byte);
    }
    0
}

/// The bit masks said with the arithmetic on the byte: bit `b` of `v` is `v` divided by 2 to
/// the power `b`, modulo 2; clearing it subtracts that power when the bit is set, setting it
/// adds the power when the bit is clear.
pub(crate) proof fn lemma_bit_mask_arith(v: u8, b: u8)
    by (bit_vector)
    requires
        b < 8,
    ensures
        1u8 << b == crate::ppu::fifo::bit_place(b),
        (v & (1u8 << b) == 0) == ((v / crate::ppu::fifo::bit_place(b)) % 2 == 0),
        (v & (1u8 << b) != 0) ==> v & (0xFF ^ (1u8 << b)) == v - crate::ppu::fifo::bit_place(b),
        (v & (1u8 << b) == 0) ==> v & (0xFF ^ (1u8 << b)) == v,
        (v & (1u8 << b) == 0) ==> v | (1u8 << b) == v + crate::ppu::fifo::bit_place(b),
        (v & (1u8 << b) != 0) ==> v | (1u8 << b) == v,
{
}

} // verus!
