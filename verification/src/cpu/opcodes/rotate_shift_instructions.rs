use vstd::prelude::*;
use crate::cpu::flag::Flag;
use crate::cpu::gb_cpu::{GbCpu, CpuState, with_high, with_low, flag_bits};
use crate::cpu::opcodes::opcodes_utils::{get_cb_opcode, get_src_index, src_index};
use crate::mmu::{Memory, BusOp, log_extends, new_ops, bus_value, lemma_log_push, lemma_log_trans};

verus! {

/// Rotate left; bit 7 goes to bit 0.
pub open spec fn rlc8(v: u8) -> u8 {
    (v << 1) | (v >> 7)
}

/// Rotate right; bit 0 goes to bit 7.
pub open spec fn rrc8(v: u8) -> u8 {
    (v >> 1) | (v << 7)
}

/// Rotate left through the carry.
pub open spec fn rl8(v: u8, c: bool) -> u8 {
    (v << 1) | (if c { 1u8 } else { 0u8 })
}

/// Rotate right through the carry.
pub open spec fn rr8(v: u8, c: bool) -> u8 {
    (v >> 1) | (if c { 0x80u8 } else { 0u8 })
}

/// Shift left; bit 0 becomes 0.
pub open spec fn sla8(v: u8) -> u8 {
    v << 1
}

/// Arithmetic shift right; bit 7 keeps its value.
pub open spec fn sra8(v: u8) -> u8 {
    (v >> 1) | (v & 0x80)
}

/// Logical shift right; bit 7 becomes 0.
pub open spec fn srl8(v: u8) -> u8 {
    v >> 1
}

/// Exchange of the two nibbles.
pub open spec fn swap8(v: u8) -> u8 {
    (v >> 4) | (v << 4)
}

pub open spec fn bit7(v: u8) -> bool {
    v & 0x80 != 0
}

pub open spec fn bit0(v: u8) -> bool {
    v & 1 != 0
}

/// The register that a 0xCB prefixed `_r` opcode works on.
pub open spec fn cb_reg(opcode: u16) -> u8 {
    src_index((opcode & 0xFF) as u8)
}

/// The flags of the rotate and shift opcodes of the 0xCB table.
pub open spec fn shifted(s: CpuState, idx: u8, result: u8, carry: bool) -> CpuState {
    s.with_r8(idx, result).with_flags(result == 0, false, false, carry)
}

/// The accesses of an opcode that reads (HL) and writes `result_of(read value)` back.
pub open spec fn hl_rmw(hl: u16, ops: Seq<BusOp>, result: u8) -> bool {
    &&& ops.len() == 2
    &&& ops[0] == BusOp::Read { address: hl, m_cycles: 1, value: bus_value(ops[0]) }
    &&& ops[1] == BusOp::Write { address: hl, value: result, m_cycles: 1 }
}

/// The value that the first access of `ops` carries.
pub open spec fn first_value(ops: Seq<BusOp>) -> u8 {
    bus_value(ops[0])
}

fn rotate_left(r: &mut u8) -> (carry: bool)
    ensures
        *final(r) == rlc8(*old(r)),
        carry == bit7(*old(r)),
{
    let v = *r;
    let mut temp: u8 = v;
    *r = v << 1;
    temp = temp >> 7;
    *r = *r | (temp & 0b1);
    assert(((v << 1) | ((v >> 7) & 1)) == rlc8(v) && ((v >> 7 != 0) == bit7(v))) by (bit_vector);
    temp != 0
}

fn rotate_right(r: &mut u8) -> (carry: bool)
    ensures
        *final(r) == rrc8(*old(r)),
        carry == bit0(*old(r)),
{
    let v = *r;
    let mut temp: u8 = v;
    *r = v >> 1;
    temp = temp << 7;
    *r = *r | (temp & 0b1000_0000);
    assert(((v >> 1) | ((v << 7) & 0x80)) == rrc8(v) && ((v << 7 != 0) == bit0(v))) by (bit_vector);
    temp != 0
}

fn rotate_left_carry(r: &mut u8, carry: bool) -> (new_carry: bool)
    ensures
        *final(r) == rl8(*old(r), carry),
        new_carry == bit7(*old(r)),
{
    let temp: u8 = *r;
    *r = temp << 1;
    if carry {
        *r = *r | 0x1;
    }
    assert((temp << 1) | 0 == temp << 1) by (bit_vector);
    (temp & 0b1000_0000) != 0
}

fn rotate_right_carry(r: &mut u8, carry: bool) -> (new_carry: bool)
    ensures
        *final(r) == rr8(*old(r), carry),
        new_carry == bit0(*old(r)),
{
    let temp: u8 = *r;
    *r = temp >> 1;
    if carry {
        *r = *r | 0x80;
    }
    assert((temp >> 1) | 0 == temp >> 1) by (bit_vector);
    (temp & 0b1) != 0
}

fn shift_left(r: &mut u8) -> (carry: bool)
    ensures
        *final(r) == sla8(*old(r)),
        carry == bit7(*old(r)),
{
    let temp: u8 = *r;
    *r = temp << 1;
    temp & 0b1000_0000 != 0
}

fn arithmetic_shift_right(r: &mut u8) -> (carry: bool)
    ensures
        *final(r) == sra8(*old(r)),
        carry == bit0(*old(r)),
{
    let temp: u8 = *r;
    *r = temp >> 1;
    *r = *r | (temp & 0b1000_0000);
    temp & 0b1 != 0
}

fn logical_shift_right(r: &mut u8) -> (carry: bool)
    ensures
        *final(r) == srl8(*old(r)),
        carry == bit0(*old(r)),
{
    let temp: u8 = *r;
    *r = temp >> 1;
    temp & 0b1 != 0
}

fn swap_nibbles(r: &mut u8)
    ensures
        *final(r) == swap8(*old(r)),
{
    let value = *r;
    let mut temp: u8 = (value & 0xF0) >> 4;
    temp = temp | ((value & 0xF) << 4);
    *r = temp;
    assert((((value & 0xF0) >> 4) | ((value & 0xF) << 4)) == swap8(value)) by (bit_vector);
}

fn a_rotate_flags(cpu: &mut GbCpu, carry: bool)
    ensures
        final(cpu)@ == old(cpu)@.with_flags(false, false, false, carry),
{
    cpu.set_flags(false, false, false, carry);
}

fn rotate_shift_flags(cpu: &mut GbCpu, carry: bool, zero: bool)
    ensures
        final(cpu)@ == old(cpu)@.with_flags(zero, false, false, carry),
{
    cpu.set_flags(zero, false, false, carry);
}

/// RLCA: rotates A left; the zero flag is always cleared.
pub fn rlca(cpu: &mut GbCpu) -> (cycles: u8)
    ensures
        cycles == 0,
        final(cpu)@ == old(cpu)@.with_a(rlc8(old(cpu)@.a())).with_flags(
            false,
            false,
            false,
            bit7(old(cpu)@.a()),
        ),
{
    let mut a = cpu.get_r8(7);
    let carry = rotate_left(&mut a);
    cpu.set_r8(7, a);
    a_rotate_flags(cpu, carry);
    // 1 cycles - 1 reading opcode
    0
}

/// RLA: rotates A left through the carry; the zero flag is always cleared.
pub fn rla(cpu: &mut GbCpu) -> (cycles: u8)
    ensures
        cycles == 0,
        final(cpu)@ == old(cpu)@.with_a(rl8(old(cpu)@.a(), old(cpu)@.carry())).with_flags(
            false,
            false,
            false,
            bit7(old(cpu)@.a()),
        ),
{
    let carry_flag = cpu.get_flag(Flag::Carry);
    let mut a = cpu.get_r8(7);
    let carry = rotate_left_carry(&mut a, carry_flag);
    cpu.set_r8(7, a);
    a_rotate_flags(cpu, carry);
    0
}

/// RRCA: rotates A right; the zero flag is always cleared.
pub fn rrca(cpu: &mut GbCpu) -> (cycles: u8)
    ensures
        cycles == 0,
        final(cpu)@ == old(cpu)@.with_a(rrc8(old(cpu)@.a())).with_flags(
            false,
            false,
            false,
            bit0(old(cpu)@.a()),
        ),
{
    let mut a = cpu.get_r8(7);
    let carry = rotate_right(&mut a);
    cpu.set_r8(7, a);
    a_rotate_flags(cpu, carry);
    0
}

/// RRA: rotates A right through the carry; the zero flag is always cleared.
pub fn rra(cpu: &mut GbCpu) -> (cycles: u8)
    ensures
        cycles == 0,
        final(cpu)@ == old(cpu)@.with_a(rr8(old(cpu)@.a(), old(cpu)@.carry())).with_flags(
            false,
            false,
            false,
            bit0(old(cpu)@.a()),
        ),
{
    let carry_flag = cpu.get_flag(Flag::Carry);
    let mut a = cpu.get_r8(7);
    let carry = rotate_right_carry(&mut a, carry_flag);
    cpu.set_r8(7, a);
    a_rotate_flags(cpu, carry);
    0
}

pub fn rlc_r(cpu: &mut GbCpu, opcode: u16) -> (cycles: u8)
    requires
        cb_reg(opcode) != 6,
    ensures
        cycles == 0,
        ({
            let v = old(cpu)@.r8(cb_reg(opcode));
            final(cpu)@ == shifted(old(cpu)@, cb_reg(opcode), rlc8(v), bit7(v))
        }),
{
    let opcode = get_cb_opcode(opcode);
    let idx = get_src_index(opcode);
    let mut register = cpu.get_r8(idx);
    let carry = rotate_left(&mut register);
    cpu.set_r8(idx, register);
    rotate_shift_flags(cpu, carry, register == 0);
    // 2 cycles - 2 reading opcode
    0
}

pub fn rl_r(cpu: &mut GbCpu, opcode: u16) -> (cycles: u8)
    requires
        cb_reg(opcode) != 6,
    ensures
        cycles == 0,
        ({
            let v = old(cpu)@.r8(cb_reg(opcode));
            final(cpu)@ == shifted(old(cpu)@, cb_reg(opcode), rl8(v, old(cpu)@.carry()), bit7(v))
        }),
{
    let opcode = get_cb_opcode(opcode);
    let idx = get_src_index(opcode);
    let carry_flag = cpu.get_flag(Flag::Carry);
    let mut register = cpu.get_r8(idx);
    let carry = rotate_left_carry(&mut register, carry_flag);
    cpu.set_r8(idx, register);
    rotate_shift_flags(cpu, carry, register == 0);
    0
}

pub fn rrc_r(cpu: &mut GbCpu, opcode: u16) -> (cycles: u8)
    requires
        cb_reg(opcode) != 6,
    ensures
        cycles == 0,
        ({
            let v = old(cpu)@.r8(cb_reg(opcode));
            final(cpu)@ == shifted(old(cpu)@, cb_reg(opcode), rrc8(v), bit0(v))
        }),
{
    let opcode = get_cb_opcode(opcode);
    let idx = get_src_index(opcode);
    let mut register = cpu.get_r8(idx);
    let carry = rotate_right(&mut register);
    cpu.set_r8(idx, register);
    rotate_shift_flags(cpu, carry, register == 0);
    0
}

pub fn rr_r(cpu: &mut GbCpu, opcode: u16) -> (cycles: u8)
    requires
        cb_reg(opcode) != 6,
    ensures
        cycles == 0,
        ({
            let v = old(cpu)@.r8(cb_reg(opcode));
            final(cpu)@ == shifted(old(cpu)@, cb_reg(opcode), rr8(v, old(cpu)@.carry()), bit0(v))
        }),
{
    let opcode = get_cb_opcode(opcode);
    let idx = get_src_index(opcode);
    let carry_flag = cpu.get_flag(Flag::Carry);
    let mut register = cpu.get_r8(idx);
    let carry = rotate_right_carry(&mut register, carry_flag);
    cpu.set_r8(idx, register);
    rotate_shift_flags(cpu, carry, register == 0);
    0
}

pub fn sla_r(cpu: &mut GbCpu, opcode: u16) -> (cycles: u8)
    requires
        cb_reg(opcode) != 6,
    ensures
        cycles == 0,
        ({
            let v = old(cpu)@.r8(cb_reg(opcode));
            final(cpu)@ == shifted(old(cpu)@, cb_reg(opcode), sla8(v), bit7(v))
        }),
{
    let opcode = get_cb_opcode(opcode);
    let idx = get_src_index(opcode);
    let mut register = cpu.get_r8(idx);
    let carry = shift_left(&mut register);
    cpu.set_r8(idx, register);
    rotate_shift_flags(cpu, carry, register == 0);
    0
}

pub fn sra_r(cpu: &mut GbCpu, opcode: u16) -> (cycles: u8)
    requires
        cb_reg(opcode) != 6,
    ensures
        cycles == 0,
        ({
            let v = old(cpu)@.r8(cb_reg(opcode));
            final(cpu)@ == shifted(old(cpu)@, cb_reg(opcode), sra8(v), bit0(v))
        }),
{
    let opcode = get_cb_opcode(opcode);
    let idx = get_src_index(opcode);
    let mut register = cpu.get_r8(idx);
    let carry = arithmetic_shift_right(&mut register);
    cpu.set_r8(idx, register);
    rotate_shift_flags(cpu, carry, register == 0);
    0
}

pub fn srl_r(cpu: &mut GbCpu, opcode: u16) -> (cycles: u8)
    requires
        cb_reg(opcode) != 6,
    ensures
        cycles == 0,
        ({
            let v = old(cpu)@.r8(cb_reg(opcode));
            final(cpu)@ == shifted(old(cpu)@, cb_reg(opcode), srl8(v), bit0(v))
        }),
{
    let opcode = get_cb_opcode(opcode);
    let idx = get_src_index(opcode);
    let mut register = cpu.get_r8(idx);
    let carry = logical_shift_right(&mut register);
    cpu.set_r8(idx, register);
    rotate_shift_flags(cpu, carry, register == 0);
    0
}

pub fn swap_r(cpu: &mut GbCpu, opcode: u16) -> (cycles: u8)
    requires
        cb_reg(opcode) != 6,
    ensures
        cycles == 0,
        ({
            let v = old(cpu)@.r8(cb_reg(opcode));
            final(cpu)@ == shifted(old(cpu)@, cb_reg(opcode), swap8(v), false)
        }),
{
    let opcode = get_cb_opcode(opcode);
    let idx = get_src_index(opcode);
    let mut register = cpu.get_r8(idx);
    swap_nibbles(&mut register);
    cpu.set_r8(idx, register);
    cpu.set_flags(register == 0, false, false, false);
    0
}

/// Reading a byte and writing one back at the same address adds exactly those two accesses.
pub proof fn lemma_rmw(log0: Seq<BusOp>, log1: Seq<BusOp>, log2: Seq<BusOp>, address: u16, v: u8, w: u8)
    requires
        log1 == log0.push(BusOp::Read { address, m_cycles: 1, value: v }),
        log2 == log1.push(BusOp::Write { address, value: w, m_cycles: 1 }),
    ensures
        log_extends(log0, log2),
        hl_rmw(address, new_ops(log0, log2), w),
        first_value(new_ops(log0, log2)) == v,
{
    lemma_log_push(log0, BusOp::Read { address, m_cycles: 1, value: v });
    lemma_log_push(log1, BusOp::Write { address, value: w, m_cycles: 1 });
    lemma_log_trans(log0, log1, log2);
}

pub fn rlc_hl<M: Memory>(cpu: &mut GbCpu, memory: &mut M) -> (cycles: u8)
    ensures
        cycles == 0,
        log_extends(old(memory).bus_log(), final(memory).bus_log()),
        ({
            let ops = new_ops(old(memory).bus_log(), final(memory).bus_log());
            let v = first_value(ops);
            &&& hl_rmw(old(cpu)@.hl, ops, rlc8(v))
            &&& final(cpu)@ == old(cpu)@.with_flags(rlc8(v) == 0, false, false, bit7(v))
        }),
{
    let hl = cpu.hl.value();
    let ghost log0 = memory.bus_log();
    let mut byte: u8 = memory.read(hl, 1);
    let ghost v = byte;
    let ghost log1 = memory.bus_log();
    let carry = rotate_left(&mut byte);
    memory.write(hl, byte, 1);
    proof {
        lemma_rmw(log0, log1, memory.bus_log(), hl, v, byte);
    }
    rotate_shift_flags(cpu, carry, byte == 0);
    // 4 cycles - 2 reading opcode, 1 reading hl address, 1 writing hl address
    0
}

pub fn rl_hl<M: Memory>(cpu: &mut GbCpu, memory: &mut M) -> (cycles: u8)
    ensures
        cycles == 0,
        log_extends(old(memory).bus_log(), final(memory).bus_log()),
        ({
            let ops = new_ops(old(memory).bus_log(), final(memory).bus_log());
            let v = first_value(ops);
            &&& hl_rmw(old(cpu)@.hl, ops, rl8(v, old(cpu)@.carry()))
            &&& final(cpu)@ == old(cpu)@.with_flags(rl8(v, old(cpu)@.carry()) == 0, false, false, bit7(v))
        }),
{
    let hl = cpu.hl.value();
    let carry_flag = cpu.get_flag(Flag::Carry);
    let ghost log0 = memory.bus_log();
    let mut byte: u8 = memory.read(hl, 1);
    let ghost v = byte;
    let ghost log1 = memory.bus_log();
    let carry = rotate_left_carry(&mut byte, carry_flag);
    memory.write(hl, byte, 1);
    proof {
        lemma_rmw(log0, log1, memory.bus_log(), hl, v, byte);
    }
    rotate_shift_flags(cpu, carry, byte == 0);
    // 4 cycles - 2 reading opcode, 1 reading hl address, 1 writing hl address
    0
}

pub fn rrc_hl<M: Memory>(cpu: &mut GbCpu, memory: &mut M) -> (cycles: u8)
    ensures
        cycles == 0,
        log_extends(old(memory).bus_log(), final(memory).bus_log()),
        ({
            let ops = new_ops(old(memory).bus_log(), final(memory).bus_log());
            let v = first_value(ops);
            &&& hl_rmw(old(cpu)@.hl, ops, rrc8(v))
            &&& final(cpu)@ == old(cpu)@.with_flags(rrc8(v) == 0, false, false, bit0(v))
        }),
{
    let hl = cpu.hl.value();
    let ghost log0 = memory.bus_log();
    let mut byte: u8 = memory.read(hl, 1);
    let ghost v = byte;
    let ghost log1 = memory.bus_log();
    let carry = rotate_right(&mut byte);
    memory.write(hl, byte, 1);
    proof {
        lemma_rmw(log0, log1, memory.bus_log(), hl, v, byte);
    }
    rotate_shift_flags(cpu, carry, byte == 0);
    // 4 cycles - 2 reading opcode, 1 reading hl address, 1 writing hl address
    0
}

pub fn rr_hl<M: Memory>(cpu: &mut GbCpu, memory: &mut M) -> (cycles: u8)
    ensures
        cycles == 0,
        log_extends(old(memory).bus_log(), final(memory).bus_log()),
        ({
            let ops = new_ops(old(memory).bus_log(), final(memory).bus_log());
            let v = first_value(ops);
            &&& hl_rmw(old(cpu)@.hl, ops, rr8(v, old(cpu)@.carry()))
            &&& final(cpu)@ == old(cpu)@.with_flags(rr8(v, old(cpu)@.carry()) == 0, false, false, bit0(v))
        }),
{
    let hl = cpu.hl.value();
    let carry_flag = cpu.get_flag(Flag::Carry);
    let ghost log0 = memory.bus_log();
    let mut byte: u8 = memory.read(hl, 1);
    let ghost v = byte;
    let ghost log1 = memory.bus_log();
    let carry = rotate_right_carry(&mut byte, carry_flag);
    memory.write(hl, byte, 1);
    proof {
        lemma_rmw(log0, log1, memory.bus_log(), hl, v, byte);
    }
    rotate_shift_flags(cpu, carry, byte == 0);
    // 4 cycles - 2 reading opcode, 1 reading hl address, 1 writing hl address
    0
}

pub fn sla_hl<M: Memory>(cpu: &mut GbCpu, memory: &mut M) -> (cycles: u8)
    ensures
        cycles == 0,
        log_extends(old(memory).bus_log(), final(memory).bus_log()),
        ({
            let ops = new_ops(old(memory).bus_log(), final(memory).bus_log());
            let v = first_value(ops);
            &&& hl_rmw(old(cpu)@.hl, ops, sla8(v))
            &&& final(cpu)@ == old(cpu)@.with_flags(sla8(v) == 0, false, false, bit7(v))
        }),
{
    let hl = cpu.hl.value();
    let ghost log0 = memory.bus_log();
    let mut byte: u8 = memory.read(hl, 1);
    let ghost v = byte;
    let ghost log1 = memory.bus_log();
    let carry = shift_left(&mut byte);
    memory.write(hl, byte, 1);
    proof {
        lemma_rmw(log0, log1, memory.bus_log(), hl, v, byte);
    }
    rotate_shift_flags(cpu, carry, byte == 0);
    // 4 cycles - 2 reading opcode, 1 reading hl address, 1 writing hl address
    0
}

pub fn sra_hl<M: Memory>(cpu: &mut GbCpu, memory: &mut M) -> (cycles: u8)
    ensures
        cycles == 0,
        log_extends(old(memory).bus_log(), final(memory).bus_log()),
        ({
            let ops = new_ops(old(memory).bus_log(), final(memory).bus_log());
            let v = first_value(ops);
            &&& hl_rmw(old(cpu)@.hl, ops, sra8(v))
            &&& final(cpu)@ == old(cpu)@.with_flags(sra8(v) == 0, false, false, bit0(v))
        }),
{
    let hl = cpu.hl.value();
    let ghost log0 = memory.bus_log();
    let mut byte: u8 = memory.read(hl, 1);
    let ghost v = byte;
    let ghost log1 = memory.bus_log();
    let carry = arithmetic_shift_right(&mut byte);
    memory.write(hl, byte, 1);
    proof {
        lemma_rmw(log0, log1, memory.bus_log(), hl, v, byte);
    }
    rotate_shift_flags(cpu, carry, byte == 0);
    // 4 cycles - 2 reading opcode, 1 reading hl address, 1 writing hl address
    0
}

pub fn srl_hl<M: Memory>(cpu: &mut GbCpu, memory: &mut M) -> (cycles: u8)
    ensures
        cycles == 0,
        log_extends(old(memory).bus_log(), final(memory).bus_log()),
        ({
            let ops = new_ops(old(memory).bus_log(), final(memory).bus_log());
            let v = first_value(ops);
            &&& hl_rmw(old(cpu)@.hl, ops, srl8(v))
            &&& final(cpu)@ == old(cpu)@.with_flags(srl8(v) == 0, false, false, bit0(v))
        }),
{
    let hl = cpu.hl.value();
    let ghost log0 = memory.bus_log();
    let mut byte: u8 = memory.read(hl, 1);
    let ghost v = byte;
    let ghost log1 = memory.bus_log();
    let carry = logical_shift_right(&mut byte);
    memory.write(hl, byte, 1);
    proof {
        lemma_rmw(log0, log1, memory.bus_log(), hl, v, byte);
    }
    rotate_shift_flags(cpu, carry, byte == 0);
    // 4 cycles - 2 reading opcode, 1 reading hl address, 1 writing hl address
    0
}

pub fn swap_hl<M: Memory>(cpu: &mut GbCpu, memory: &mut M) -> (cycles: u8)
    ensures
        cycles == 0,
        log_extends(old(memory).bus_log(), final(memory).bus_log()),
        ({
            let ops = new_ops(old(memory).bus_log(), final(memory).bus_log());
            let v = first_value(ops);
            &&& hl_rmw(old(cpu)@.hl, ops, swap8(v))
            &&& final(cpu)@ == old(cpu)@.with_flags(swap8(v) == 0, false, false, false)
        }),
{
    let hl = cpu.hl.value();
    let ghost log0 = memory.bus_log();
    let mut byte: u8 = memory.read(hl, 1);
    let ghost v = byte;
    let ghost log1 = memory.bus_log();
    swap_nibbles(&mut byte);
    memory.write(hl, byte, 1);
    proof {
        lemma_rmw(log0, log1, memory.bus_log(), hl, v, byte);
    }
    cpu.set_flags(byte == 0, false, false, false);
    // 4 cycles - 2 reading opcode, 1 reading hl address, 1 writing hl address
    0
}

/// The AF register after the rotate and shift opcodes set the flags (Z and C given, N and H
/// clear; the low nibble of F reads as 0).
pub open spec fn rotated_flags(af: u16, z: bool, c: bool) -> u16 {
    with_low(af, 0xFFF0, (((af & 0xFF) as u8) & 0x0F) | flag_bits(z, false, false, c))
}

/// The bit facts behind `lemma_rrc_undoes_rlc` and the flag laws of the opcodes: rotating
/// back and forth, writing A and the flags of F and reading them, and that a byte exclusive-ored
/// with itself is 0.
pub(crate) proof fn lemma_rotation_bits(v: u8, x: u16, b: u8, z: bool, c: bool)
    by (bit_vector)
    ensures
        v ^ v == 0,
        rrc8(rlc8(v)) == v,
        bit0(rlc8(v)) == bit7(v),
        (with_low(x, 0xFFF0, b) >> 8u16) == (x >> 8u16),
        (with_high(x, 0xFFF0, b) >> 8u16) as u8 == b,
        (with_high(x, 0xFFFF, b) >> 8u16) as u8 == b,
        (with_high(x, 0xFFFF, b) & 0xFF) == (x & 0xFF),
        (with_low(x, 0xFFFF, b) & 0xFF) as u8 == b,
        (with_low(x, 0xFFFF, b) >> 8u16) == (x >> 8u16),
        ((((rotated_flags(x, z, c) & 0xFF) as u8) & 0x80) != 0) == z,
        (((rotated_flags(x, z, c) & 0xFF) as u8) & 0x40) == 0,
        (((rotated_flags(x, z, c) & 0xFF) as u8) & 0x20) == 0,
        ((((rotated_flags(x, z, c) & 0xFF) as u8) & 0x10) != 0) == c,
{
}

/// RRC undoes RLC: rotating a register left and then right gives it back, with Z telling
/// whether it is 0, C holding its old bit 7, N and H clear, and every other register as it
/// was. (This holds for the usual register masks; the read-only low nibble of F is what AF's
/// mask keeps out.)
pub proof fn lemma_rrc_undoes_rlc(s: CpuState, idx: u8)
    requires
        idx < 8,
        idx != 6,
        s.bc_mask == 0xFFFF,
        s.de_mask == 0xFFFF,
        s.hl_mask == 0xFFFF,
        s.af_mask == 0xFFF0,
    ensures
        ({
            let v = s.r8(idx);
            let s1 = shifted(s, idx, rlc8(v), bit7(v));
            let w = s1.r8(idx);
            let s2 = shifted(s1, idx, rrc8(w), bit0(w));
            &&& w == rlc8(v)
            &&& s2.r8(idx) == v
            &&& s2.zero() == (v == 0)
            &&& s2.carry() == bit7(v)
            &&& !s2.flag(Flag::Subtraction)
            &&& !s2.flag(Flag::HalfCarry)
            &&& forall|j: u8| j < 8 && j != 6 && j != idx ==> #[trigger] s2.r8(j) == s.r8(j)
            &&& s2.sp == s.sp
            &&& s2.pc == s.pc
        }),
{
    let v = s.r8(idx);
    let s1 = shifted(s, idx, rlc8(v), bit7(v));
    let a1 = s.with_r8(idx, rlc8(v));
    let w = s1.r8(idx);
    let a2 = s1.with_r8(idx, rrc8(w));
    let s2 = shifted(s1, idx, rrc8(w), bit0(w));
    lemma_rotation_bits(v, s.bc, rlc8(v), false, false);
    lemma_rotation_bits(v, s.de, rlc8(v), false, false);
    lemma_rotation_bits(v, s.hl, rlc8(v), false, false);
    lemma_rotation_bits(v, s.af, rlc8(v), false, false);
    lemma_rotation_bits(
        v,
        a1.af,
        (((a1.af & 0xFF) as u8) & 0x0F) | flag_bits(rlc8(v) == 0, false, false, bit7(v)),
        rlc8(v) == 0,
        bit7(v),
    );
    assert(s1.af == rotated_flags(a1.af, rlc8(v) == 0, bit7(v)));
    assert(w == rlc8(v));
    lemma_rotation_bits(v, s1.bc, v, false, false);
    lemma_rotation_bits(v, s1.de, v, false, false);
    lemma_rotation_bits(v, s1.hl, v, false, false);
    lemma_rotation_bits(v, s1.af, v, false, false);
    lemma_rotation_bits(
        v,
        a2.af,
        (((a2.af & 0xFF) as u8) & 0x0F) | flag_bits(v == 0, false, false, bit7(v)),
        v == 0,
        bit7(v),
    );
    assert(s2.af == rotated_flags(a2.af, v == 0, bit7(v)));
    assert forall|j: u8| j < 8 && j != 6 && j != idx implies #[trigger] s2.r8(j) == s.r8(j) by {
        lemma_rotation_bits(v, s.af, 0, false, false);
    }
}

/// The rotations and shifts of a byte, said with the arithmetic on it: shifting left doubles
/// its low seven bits and shifting right halves it, the rotations and the carry put the bit that
/// leaves back in at the other end, and SWAP exchanges the nibbles.
pub(crate) proof fn lemma_shift_arith(v: u8, c: bool)
    by (bit_vector)
    ensures
        sla8(v) == (v % 128) * 2,
        srl8(v) == v / 2,
        rlc8(v) == 2 * (v % 128) + v / 128,
        rrc8(v) == v / 2 + (v % 2) * 128,
        c ==> rl8(v, c) == 2 * (v % 128) + 1,
        !c ==> rl8(v, c) == 2 * (v % 128),
        c ==> rr8(v, c) == v / 2 + 128,
        !c ==> rr8(v, c) == v / 2,
        v >= 128 ==> sra8(v) == v / 2 + 128,
        v < 128 ==> sra8(v) == v / 2,
        swap8(v) == (v % 16) * 16 + v / 16,
        bit7(v) == (v >= 128),
        bit0(v) == (v % 2 == 1),
{
}

} // verus!
